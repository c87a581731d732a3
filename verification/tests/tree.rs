use flint::tree::{is_tree_hidden, order_tree_entries, tree_child_prefix, tree_line_exec, TreeEntry};

fn entry(name: &str, is_dir: bool) -> TreeEntry {
    TreeEntry { name: name.to_string(), is_dir }
}

#[test]
fn test_tree_order_dirs_first_then_names() {
    let entries = vec![
        entry("default.yml", false),
        entry("lib", true),
        entry(".git", true),
        entry("fleets", true),
        entry("README.md", false),
        entry(".gitkeep", false),
        entry("node_modules", true),
    ];
    let ordered = order_tree_entries(&entries);
    let names: Vec<_> = ordered.iter().map(|e| e.name.as_str()).collect();
    assert_eq!(names, vec!["fleets", "lib", "README.md", "default.yml"]);
}

#[test]
fn test_tree_hidden_names() {
    for n in [".git", ".DS_Store", "node_modules", "target", "dist", ".gitkeep"] {
        assert!(is_tree_hidden(n));
    }
    assert!(!is_tree_hidden(".github"));
}

#[test]
fn test_tree_lines() {
    assert_eq!(tree_line_exec("", "lib", false), "├── lib");
    assert_eq!(tree_line_exec("│   ", "a.yml", true), "│   └── a.yml");
    assert_eq!(tree_child_prefix("", false), "│   ");
    assert_eq!(tree_child_prefix("│   ", true), "│       ");
}
