//! The osquery table compatibility matrix: which platforms each known table
//! is available on.
use vstd::prelude::*;

use crate::text;
use crate::text::strs;

verus! {

broadcast use vstd::string::group_string_axioms;

/// One osquery table.
pub struct OsqueryTable {
    pub name: &'static str,
    pub platforms: Vec<&'static str>,
    pub description: &'static str,
}

impl View for OsqueryTable {
    type V = (Seq<char>, Seq<Seq<char>>, Seq<char>);

    open spec fn view(&self) -> (Seq<char>, Seq<Seq<char>>, Seq<char>) {
        (self.name@, strs(self.platforms@), self.description@)
    }
}

/// The views of a sequence of tables.
pub open spec fn table_views(v: Seq<OsqueryTable>) -> Seq<(Seq<char>, Seq<Seq<char>>, Seq<char>)> {
    Seq::new(v.len(), |i: int| v[i]@)
}

/// The first entry named `name`.
pub open spec fn table_entry(es: Seq<(Seq<char>, Seq<Seq<char>>, Seq<char>)>, name: Seq<char>) -> Option<
    (Seq<char>, Seq<Seq<char>>, Seq<char>),
>
    decreases es.len(),
{
    if es.len() == 0 {
        None
    } else if es[0].0 == name {
        Some(es[0])
    } else {
        table_entry(es.drop_first(), name)
    }
}

/// The table named `name`, if it is in `tables`.
pub fn find_table<'a>(tables: &'a Vec<OsqueryTable>, name: &str) -> (r: Option<&'a OsqueryTable>)
    ensures
        match r {
            Some(t) => table_entry(table_views(tables@), name@) == Some(t@),
            None => table_entry(table_views(tables@), name@).is_none(),
        },
{
    let ghost tv = table_views(tables@);
    assert(tv.skip(0) =~= tv);
    let mut j: usize = 0;
    while j < tables.len()
        invariant
            j <= tables.len(),
            tv == table_views(tables@),
            table_entry(tv, name@) == table_entry(tv.skip(j as int), name@),
        decreases tables.len() - j,
    {
        assert(tv.skip(j as int)[0] == tables@[j as int]@);
        if text::str_eq(tables[j].name, name) {
            return Some(&tables[j]);
        }
        assert(tv.skip(j as int).drop_first() =~= tv.skip(j + 1));
        j += 1;
    }
    assert(tv.skip(j as int) =~= Seq::<(Seq<char>, Seq<Seq<char>>, Seq<char>)>::empty());
    None
}

/// Entries 1 to 16 of the table matrix.
pub open spec fn tables_part1() -> Seq<(Seq<char>, Seq<Seq<char>>, Seq<char>)> {
    seq![
        ("alf"@, seq!["darwin"@], "macOS application layer firewall"@),
        ("disk_encryption"@, seq!["darwin"@, "linux"@, "windows"@], "Disk encryption status"@),
        ("filevault_status"@, seq!["darwin"@], "macOS FileVault encryption status"@),
        ("managed_policies"@, seq!["darwin"@], "macOS managed policies"@),
        ("authorization_mechanisms"@, seq!["darwin"@], "macOS authorization mechanisms"@),
        ("gatekeeper"@, seq!["darwin"@], "macOS Gatekeeper status"@),
        ("sip_config"@, seq!["darwin"@], "macOS System Integrity Protection config"@),
        ("bitlocker_info"@, seq!["windows"@], "Windows BitLocker encryption info"@),
        ("windows_security_center"@, seq!["windows"@], "Windows Security Center status"@),
        ("windows_firewall_rules"@, seq!["windows"@], "Windows firewall rules"@),
        ("registry"@, seq!["windows"@], "Windows registry"@),
        ("windows_update_history"@, seq!["windows"@], "Windows update history"@),
        ("users"@, seq!["darwin"@, "linux"@, "windows"@], "Local user accounts"@),
        ("processes"@, seq!["darwin"@, "linux"@, "windows"@], "Running processes"@),
        ("system_info"@, seq!["darwin"@, "linux"@, "windows"@], "System information"@),
        ("os_version"@, seq!["darwin"@, "linux"@, "windows"@], "Operating system version"@),
    ]
}

/// Appends entries 1 to 16 of the table matrix.
fn push_tables_part1(v: &mut Vec<OsqueryTable>)
    ensures
        table_views(final(v)@) == table_views(old(v)@) + tables_part1(),
{
    let mut p: Vec<&'static str> = Vec::new();
    p.push("darwin");
    assert(strs(p@) =~= seq!["darwin"@]);
    v.push(OsqueryTable { name: "alf", platforms: p, description: "macOS application layer firewall" });
    let mut p: Vec<&'static str> = Vec::new();
    p.push("darwin");
    p.push("linux");
    p.push("windows");
    assert(strs(p@) =~= seq!["darwin"@, "linux"@, "windows"@]);
    v.push(OsqueryTable { name: "disk_encryption", platforms: p, description: "Disk encryption status" });
    let mut p: Vec<&'static str> = Vec::new();
    p.push("darwin");
    assert(strs(p@) =~= seq!["darwin"@]);
    v.push(OsqueryTable { name: "filevault_status", platforms: p, description: "macOS FileVault encryption status" });
    let mut p: Vec<&'static str> = Vec::new();
    p.push("darwin");
    assert(strs(p@) =~= seq!["darwin"@]);
    v.push(OsqueryTable { name: "managed_policies", platforms: p, description: "macOS managed policies" });
    let mut p: Vec<&'static str> = Vec::new();
    p.push("darwin");
    assert(strs(p@) =~= seq!["darwin"@]);
    v.push(OsqueryTable { name: "authorization_mechanisms", platforms: p, description: "macOS authorization mechanisms" });
    let mut p: Vec<&'static str> = Vec::new();
    p.push("darwin");
    assert(strs(p@) =~= seq!["darwin"@]);
    v.push(OsqueryTable { name: "gatekeeper", platforms: p, description: "macOS Gatekeeper status" });
    let mut p: Vec<&'static str> = Vec::new();
    p.push("darwin");
    assert(strs(p@) =~= seq!["darwin"@]);
    v.push(OsqueryTable { name: "sip_config", platforms: p, description: "macOS System Integrity Protection config" });
    let mut p: Vec<&'static str> = Vec::new();
    p.push("windows");
    assert(strs(p@) =~= seq!["windows"@]);
    v.push(OsqueryTable { name: "bitlocker_info", platforms: p, description: "Windows BitLocker encryption info" });
    let mut p: Vec<&'static str> = Vec::new();
    p.push("windows");
    assert(strs(p@) =~= seq!["windows"@]);
    v.push(OsqueryTable { name: "windows_security_center", platforms: p, description: "Windows Security Center status" });
    let mut p: Vec<&'static str> = Vec::new();
    p.push("windows");
    assert(strs(p@) =~= seq!["windows"@]);
    v.push(OsqueryTable { name: "windows_firewall_rules", platforms: p, description: "Windows firewall rules" });
    let mut p: Vec<&'static str> = Vec::new();
    p.push("windows");
    assert(strs(p@) =~= seq!["windows"@]);
    v.push(OsqueryTable { name: "registry", platforms: p, description: "Windows registry" });
    let mut p: Vec<&'static str> = Vec::new();
    p.push("windows");
    assert(strs(p@) =~= seq!["windows"@]);
    v.push(OsqueryTable { name: "windows_update_history", platforms: p, description: "Windows update history" });
    let mut p: Vec<&'static str> = Vec::new();
    p.push("darwin");
    p.push("linux");
    p.push("windows");
    assert(strs(p@) =~= seq!["darwin"@, "linux"@, "windows"@]);
    v.push(OsqueryTable { name: "users", platforms: p, description: "Local user accounts" });
    let mut p: Vec<&'static str> = Vec::new();
    p.push("darwin");
    p.push("linux");
    p.push("windows");
    assert(strs(p@) =~= seq!["darwin"@, "linux"@, "windows"@]);
    v.push(OsqueryTable { name: "processes", platforms: p, description: "Running processes" });
    let mut p: Vec<&'static str> = Vec::new();
    p.push("darwin");
    p.push("linux");
    p.push("windows");
    assert(strs(p@) =~= seq!["darwin"@, "linux"@, "windows"@]);
    v.push(OsqueryTable { name: "system_info", platforms: p, description: "System information" });
    let mut p: Vec<&'static str> = Vec::new();
    p.push("darwin");
    p.push("linux");
    p.push("windows");
    assert(strs(p@) =~= seq!["darwin"@, "linux"@, "windows"@]);
    v.push(OsqueryTable { name: "os_version", platforms: p, description: "Operating system version" });
    assert(table_views(v@) =~= table_views(old(v)@) + tables_part1());
}

/// Entries 17 to 32 of the table matrix.
pub open spec fn tables_part2() -> Seq<(Seq<char>, Seq<Seq<char>>, Seq<char>)> {
    seq![
        ("usb_devices"@, seq!["darwin"@, "linux"@], "USB devices"@),
        ("logged_in_users"@, seq!["darwin"@, "linux"@, "windows"@], "Currently logged in users"@),
        ("listening_ports"@, seq!["darwin"@, "linux"@, "windows"@], "Listening network ports"@),
        ("interface_addresses"@, seq!["darwin"@, "linux"@, "windows"@], "Network interface addresses"@),
        ("startup_items"@, seq!["darwin"@, "linux"@, "windows"@], "Startup items/services"@),
        ("certificates"@, seq!["darwin"@, "linux"@, "windows"@], "System certificates"@),
        ("chrome_extensions"@, seq!["darwin"@, "linux"@, "windows"@, "chrome"@], "Chrome browser extensions"@),
        ("installed_applications"@, seq!["darwin"@, "windows"@], "Installed applications"@),
        ("programs"@, seq!["windows"@], "Installed programs"@),
        ("apps"@, seq!["darwin"@], "macOS applications"@),
        ("apt_sources"@, seq!["linux"@], "APT package sources"@),
        ("deb_packages"@, seq!["linux"@], "Debian packages"@),
        ("rpm_packages"@, seq!["linux"@], "RPM packages"@),
        ("selinux_settings"@, seq!["linux"@], "SELinux settings"@),
        ("iptables"@, seq!["linux"@], "iptables firewall rules"@),
        ("file"@, seq!["darwin"@, "linux"@, "windows"@], "File metadata and attributes"@),
    ]
}

/// Appends entries 17 to 32 of the table matrix.
fn push_tables_part2(v: &mut Vec<OsqueryTable>)
    ensures
        table_views(final(v)@) == table_views(old(v)@) + tables_part2(),
{
    let mut p: Vec<&'static str> = Vec::new();
    p.push("darwin");
    p.push("linux");
    assert(strs(p@) =~= seq!["darwin"@, "linux"@]);
    v.push(OsqueryTable { name: "usb_devices", platforms: p, description: "USB devices" });
    let mut p: Vec<&'static str> = Vec::new();
    p.push("darwin");
    p.push("linux");
    p.push("windows");
    assert(strs(p@) =~= seq!["darwin"@, "linux"@, "windows"@]);
    v.push(OsqueryTable { name: "logged_in_users", platforms: p, description: "Currently logged in users" });
    let mut p: Vec<&'static str> = Vec::new();
    p.push("darwin");
    p.push("linux");
    p.push("windows");
    assert(strs(p@) =~= seq!["darwin"@, "linux"@, "windows"@]);
    v.push(OsqueryTable { name: "listening_ports", platforms: p, description: "Listening network ports" });
    let mut p: Vec<&'static str> = Vec::new();
    p.push("darwin");
    p.push("linux");
    p.push("windows");
    assert(strs(p@) =~= seq!["darwin"@, "linux"@, "windows"@]);
    v.push(OsqueryTable { name: "interface_addresses", platforms: p, description: "Network interface addresses" });
    let mut p: Vec<&'static str> = Vec::new();
    p.push("darwin");
    p.push("linux");
    p.push("windows");
    assert(strs(p@) =~= seq!["darwin"@, "linux"@, "windows"@]);
    v.push(OsqueryTable { name: "startup_items", platforms: p, description: "Startup items/services" });
    let mut p: Vec<&'static str> = Vec::new();
    p.push("darwin");
    p.push("linux");
    p.push("windows");
    assert(strs(p@) =~= seq!["darwin"@, "linux"@, "windows"@]);
    v.push(OsqueryTable { name: "certificates", platforms: p, description: "System certificates" });
    let mut p: Vec<&'static str> = Vec::new();
    p.push("darwin");
    p.push("linux");
    p.push("windows");
    p.push("chrome");
    assert(strs(p@) =~= seq!["darwin"@, "linux"@, "windows"@, "chrome"@]);
    v.push(OsqueryTable { name: "chrome_extensions", platforms: p, description: "Chrome browser extensions" });
    let mut p: Vec<&'static str> = Vec::new();
    p.push("darwin");
    p.push("windows");
    assert(strs(p@) =~= seq!["darwin"@, "windows"@]);
    v.push(OsqueryTable { name: "installed_applications", platforms: p, description: "Installed applications" });
    let mut p: Vec<&'static str> = Vec::new();
    p.push("windows");
    assert(strs(p@) =~= seq!["windows"@]);
    v.push(OsqueryTable { name: "programs", platforms: p, description: "Installed programs" });
    let mut p: Vec<&'static str> = Vec::new();
    p.push("darwin");
    assert(strs(p@) =~= seq!["darwin"@]);
    v.push(OsqueryTable { name: "apps", platforms: p, description: "macOS applications" });
    let mut p: Vec<&'static str> = Vec::new();
    p.push("linux");
    assert(strs(p@) =~= seq!["linux"@]);
    v.push(OsqueryTable { name: "apt_sources", platforms: p, description: "APT package sources" });
    let mut p: Vec<&'static str> = Vec::new();
    p.push("linux");
    assert(strs(p@) =~= seq!["linux"@]);
    v.push(OsqueryTable { name: "deb_packages", platforms: p, description: "Debian packages" });
    let mut p: Vec<&'static str> = Vec::new();
    p.push("linux");
    assert(strs(p@) =~= seq!["linux"@]);
    v.push(OsqueryTable { name: "rpm_packages", platforms: p, description: "RPM packages" });
    let mut p: Vec<&'static str> = Vec::new();
    p.push("linux");
    assert(strs(p@) =~= seq!["linux"@]);
    v.push(OsqueryTable { name: "selinux_settings", platforms: p, description: "SELinux settings" });
    let mut p: Vec<&'static str> = Vec::new();
    p.push("linux");
    assert(strs(p@) =~= seq!["linux"@]);
    v.push(OsqueryTable { name: "iptables", platforms: p, description: "iptables firewall rules" });
    let mut p: Vec<&'static str> = Vec::new();
    p.push("darwin");
    p.push("linux");
    p.push("windows");
    assert(strs(p@) =~= seq!["darwin"@, "linux"@, "windows"@]);
    v.push(OsqueryTable { name: "file", platforms: p, description: "File metadata and attributes" });
    assert(table_views(v@) =~= table_views(old(v)@) + tables_part2());
}

/// Entries 33 to 48 of the table matrix.
pub open spec fn tables_part3() -> Seq<(Seq<char>, Seq<Seq<char>>, Seq<char>)> {
    seq![
        ("hash"@, seq!["darwin"@, "linux"@, "windows"@], "File hashes (MD5, SHA1, SHA256)"@),
        ("yara"@, seq!["darwin"@, "linux"@, "windows"@], "YARA pattern scanning results"@),
        ("crontab"@, seq!["darwin"@, "linux"@], "Scheduled cron jobs"@),
        ("scheduled_tasks"@, seq!["windows"@], "Windows scheduled tasks"@),
        ("services"@, seq!["windows"@], "Windows services"@),
        ("launchd"@, seq!["darwin"@], "macOS launchd jobs"@),
        ("systemd_units"@, seq!["linux"@], "systemd service units"@),
        ("routes"@, seq!["darwin"@, "linux"@, "windows"@], "System routing table"@),
        ("arp_cache"@, seq!["darwin"@, "linux"@, "windows"@], "ARP cache entries"@),
        ("dns_resolvers"@, seq!["darwin"@, "linux"@, "windows"@], "DNS resolver settings"@),
        ("etc_hosts"@, seq!["darwin"@, "linux"@, "windows"@], "Hosts file entries"@),
        ("interface_details"@, seq!["darwin"@, "linux"@, "windows"@], "Network interface details"@),
        ("socket_events"@, seq!["darwin"@, "linux"@], "Socket connection events"@),
        ("process_open_sockets"@, seq!["darwin"@, "linux"@, "windows"@], "Open sockets by process"@),
        ("connectivity"@, seq!["darwin"@, "linux"@, "windows"@], "Network connectivity status"@),
        ("groups"@, seq!["darwin"@, "linux"@, "windows"@], "User groups"@),
    ]
}

/// Appends entries 33 to 48 of the table matrix.
fn push_tables_part3(v: &mut Vec<OsqueryTable>)
    ensures
        table_views(final(v)@) == table_views(old(v)@) + tables_part3(),
{
    let mut p: Vec<&'static str> = Vec::new();
    p.push("darwin");
    p.push("linux");
    p.push("windows");
    assert(strs(p@) =~= seq!["darwin"@, "linux"@, "windows"@]);
    v.push(OsqueryTable { name: "hash", platforms: p, description: "File hashes (MD5, SHA1, SHA256)" });
    let mut p: Vec<&'static str> = Vec::new();
    p.push("darwin");
    p.push("linux");
    p.push("windows");
    assert(strs(p@) =~= seq!["darwin"@, "linux"@, "windows"@]);
    v.push(OsqueryTable { name: "yara", platforms: p, description: "YARA pattern scanning results" });
    let mut p: Vec<&'static str> = Vec::new();
    p.push("darwin");
    p.push("linux");
    assert(strs(p@) =~= seq!["darwin"@, "linux"@]);
    v.push(OsqueryTable { name: "crontab", platforms: p, description: "Scheduled cron jobs" });
    let mut p: Vec<&'static str> = Vec::new();
    p.push("windows");
    assert(strs(p@) =~= seq!["windows"@]);
    v.push(OsqueryTable { name: "scheduled_tasks", platforms: p, description: "Windows scheduled tasks" });
    let mut p: Vec<&'static str> = Vec::new();
    p.push("windows");
    assert(strs(p@) =~= seq!["windows"@]);
    v.push(OsqueryTable { name: "services", platforms: p, description: "Windows services" });
    let mut p: Vec<&'static str> = Vec::new();
    p.push("darwin");
    assert(strs(p@) =~= seq!["darwin"@]);
    v.push(OsqueryTable { name: "launchd", platforms: p, description: "macOS launchd jobs" });
    let mut p: Vec<&'static str> = Vec::new();
    p.push("linux");
    assert(strs(p@) =~= seq!["linux"@]);
    v.push(OsqueryTable { name: "systemd_units", platforms: p, description: "systemd service units" });
    let mut p: Vec<&'static str> = Vec::new();
    p.push("darwin");
    p.push("linux");
    p.push("windows");
    assert(strs(p@) =~= seq!["darwin"@, "linux"@, "windows"@]);
    v.push(OsqueryTable { name: "routes", platforms: p, description: "System routing table" });
    let mut p: Vec<&'static str> = Vec::new();
    p.push("darwin");
    p.push("linux");
    p.push("windows");
    assert(strs(p@) =~= seq!["darwin"@, "linux"@, "windows"@]);
    v.push(OsqueryTable { name: "arp_cache", platforms: p, description: "ARP cache entries" });
    let mut p: Vec<&'static str> = Vec::new();
    p.push("darwin");
    p.push("linux");
    p.push("windows");
    assert(strs(p@) =~= seq!["darwin"@, "linux"@, "windows"@]);
    v.push(OsqueryTable { name: "dns_resolvers", platforms: p, description: "DNS resolver settings" });
    let mut p: Vec<&'static str> = Vec::new();
    p.push("darwin");
    p.push("linux");
    p.push("windows");
    assert(strs(p@) =~= seq!["darwin"@, "linux"@, "windows"@]);
    v.push(OsqueryTable { name: "etc_hosts", platforms: p, description: "Hosts file entries" });
    let mut p: Vec<&'static str> = Vec::new();
    p.push("darwin");
    p.push("linux");
    p.push("windows");
    assert(strs(p@) =~= seq!["darwin"@, "linux"@, "windows"@]);
    v.push(OsqueryTable { name: "interface_details", platforms: p, description: "Network interface details" });
    let mut p: Vec<&'static str> = Vec::new();
    p.push("darwin");
    p.push("linux");
    assert(strs(p@) =~= seq!["darwin"@, "linux"@]);
    v.push(OsqueryTable { name: "socket_events", platforms: p, description: "Socket connection events" });
    let mut p: Vec<&'static str> = Vec::new();
    p.push("darwin");
    p.push("linux");
    p.push("windows");
    assert(strs(p@) =~= seq!["darwin"@, "linux"@, "windows"@]);
    v.push(OsqueryTable { name: "process_open_sockets", platforms: p, description: "Open sockets by process" });
    let mut p: Vec<&'static str> = Vec::new();
    p.push("darwin");
    p.push("linux");
    p.push("windows");
    assert(strs(p@) =~= seq!["darwin"@, "linux"@, "windows"@]);
    v.push(OsqueryTable { name: "connectivity", platforms: p, description: "Network connectivity status" });
    let mut p: Vec<&'static str> = Vec::new();
    p.push("darwin");
    p.push("linux");
    p.push("windows");
    assert(strs(p@) =~= seq!["darwin"@, "linux"@, "windows"@]);
    v.push(OsqueryTable { name: "groups", platforms: p, description: "User groups" });
    assert(table_views(v@) =~= table_views(old(v)@) + tables_part3());
}

/// Entries 49 to 64 of the table matrix.
pub open spec fn tables_part4() -> Seq<(Seq<char>, Seq<Seq<char>>, Seq<char>)> {
    seq![
        ("user_groups"@, seq!["darwin"@, "linux"@, "windows"@], "User group memberships"@),
        ("shadow"@, seq!["linux"@], "Shadow password database"@),
        ("authorized_keys"@, seq!["darwin"@, "linux"@], "SSH authorized keys"@),
        ("user_ssh_keys"@, seq!["darwin"@, "linux"@], "User SSH keys"@),
        ("ssh_configs"@, seq!["darwin"@, "linux"@], "SSH configuration files"@),
        ("last"@, seq!["darwin"@, "linux"@], "Last login history"@),
        ("sudoers"@, seq!["darwin"@, "linux"@], "Sudoers file entries"@),
        ("uptime"@, seq!["darwin"@, "linux"@, "windows"@], "System uptime"@),
        ("cpu_info"@, seq!["darwin"@, "linux"@, "windows"@], "CPU information"@),
        ("memory_info"@, seq!["darwin"@, "linux"@, "windows"@], "Memory statistics"@),
        ("mounts"@, seq!["darwin"@, "linux"@, "windows"@], "Mounted filesystems"@),
        ("disk_info"@, seq!["darwin"@, "linux"@, "windows"@], "Physical disk information"@),
        ("block_devices"@, seq!["darwin"@, "linux"@], "Block devices"@),
        ("kernel_info"@, seq!["darwin"@, "linux"@, "windows"@], "Kernel version info"@),
        ("kernel_modules"@, seq!["darwin"@, "linux"@], "Loaded kernel modules"@),
        ("pci_devices"@, seq!["darwin"@, "linux"@, "windows"@], "PCI devices"@),
    ]
}

/// Appends entries 49 to 64 of the table matrix.
fn push_tables_part4(v: &mut Vec<OsqueryTable>)
    ensures
        table_views(final(v)@) == table_views(old(v)@) + tables_part4(),
{
    let mut p: Vec<&'static str> = Vec::new();
    p.push("darwin");
    p.push("linux");
    p.push("windows");
    assert(strs(p@) =~= seq!["darwin"@, "linux"@, "windows"@]);
    v.push(OsqueryTable { name: "user_groups", platforms: p, description: "User group memberships" });
    let mut p: Vec<&'static str> = Vec::new();
    p.push("linux");
    assert(strs(p@) =~= seq!["linux"@]);
    v.push(OsqueryTable { name: "shadow", platforms: p, description: "Shadow password database" });
    let mut p: Vec<&'static str> = Vec::new();
    p.push("darwin");
    p.push("linux");
    assert(strs(p@) =~= seq!["darwin"@, "linux"@]);
    v.push(OsqueryTable { name: "authorized_keys", platforms: p, description: "SSH authorized keys" });
    let mut p: Vec<&'static str> = Vec::new();
    p.push("darwin");
    p.push("linux");
    assert(strs(p@) =~= seq!["darwin"@, "linux"@]);
    v.push(OsqueryTable { name: "user_ssh_keys", platforms: p, description: "User SSH keys" });
    let mut p: Vec<&'static str> = Vec::new();
    p.push("darwin");
    p.push("linux");
    assert(strs(p@) =~= seq!["darwin"@, "linux"@]);
    v.push(OsqueryTable { name: "ssh_configs", platforms: p, description: "SSH configuration files" });
    let mut p: Vec<&'static str> = Vec::new();
    p.push("darwin");
    p.push("linux");
    assert(strs(p@) =~= seq!["darwin"@, "linux"@]);
    v.push(OsqueryTable { name: "last", platforms: p, description: "Last login history" });
    let mut p: Vec<&'static str> = Vec::new();
    p.push("darwin");
    p.push("linux");
    assert(strs(p@) =~= seq!["darwin"@, "linux"@]);
    v.push(OsqueryTable { name: "sudoers", platforms: p, description: "Sudoers file entries" });
    let mut p: Vec<&'static str> = Vec::new();
    p.push("darwin");
    p.push("linux");
    p.push("windows");
    assert(strs(p@) =~= seq!["darwin"@, "linux"@, "windows"@]);
    v.push(OsqueryTable { name: "uptime", platforms: p, description: "System uptime" });
    let mut p: Vec<&'static str> = Vec::new();
    p.push("darwin");
    p.push("linux");
    p.push("windows");
    assert(strs(p@) =~= seq!["darwin"@, "linux"@, "windows"@]);
    v.push(OsqueryTable { name: "cpu_info", platforms: p, description: "CPU information" });
    let mut p: Vec<&'static str> = Vec::new();
    p.push("darwin");
    p.push("linux");
    p.push("windows");
    assert(strs(p@) =~= seq!["darwin"@, "linux"@, "windows"@]);
    v.push(OsqueryTable { name: "memory_info", platforms: p, description: "Memory statistics" });
    let mut p: Vec<&'static str> = Vec::new();
    p.push("darwin");
    p.push("linux");
    p.push("windows");
    assert(strs(p@) =~= seq!["darwin"@, "linux"@, "windows"@]);
    v.push(OsqueryTable { name: "mounts", platforms: p, description: "Mounted filesystems" });
    let mut p: Vec<&'static str> = Vec::new();
    p.push("darwin");
    p.push("linux");
    p.push("windows");
    assert(strs(p@) =~= seq!["darwin"@, "linux"@, "windows"@]);
    v.push(OsqueryTable { name: "disk_info", platforms: p, description: "Physical disk information" });
    let mut p: Vec<&'static str> = Vec::new();
    p.push("darwin");
    p.push("linux");
    assert(strs(p@) =~= seq!["darwin"@, "linux"@]);
    v.push(OsqueryTable { name: "block_devices", platforms: p, description: "Block devices" });
    let mut p: Vec<&'static str> = Vec::new();
    p.push("darwin");
    p.push("linux");
    p.push("windows");
    assert(strs(p@) =~= seq!["darwin"@, "linux"@, "windows"@]);
    v.push(OsqueryTable { name: "kernel_info", platforms: p, description: "Kernel version info" });
    let mut p: Vec<&'static str> = Vec::new();
    p.push("darwin");
    p.push("linux");
    assert(strs(p@) =~= seq!["darwin"@, "linux"@]);
    v.push(OsqueryTable { name: "kernel_modules", platforms: p, description: "Loaded kernel modules" });
    let mut p: Vec<&'static str> = Vec::new();
    p.push("darwin");
    p.push("linux");
    p.push("windows");
    assert(strs(p@) =~= seq!["darwin"@, "linux"@, "windows"@]);
    v.push(OsqueryTable { name: "pci_devices", platforms: p, description: "PCI devices" });
    assert(table_views(v@) =~= table_views(old(v)@) + tables_part4());
}

/// Entries 65 to 80 of the table matrix.
pub open spec fn tables_part5() -> Seq<(Seq<char>, Seq<Seq<char>>, Seq<char>)> {
    seq![
        ("hardware_events"@, seq!["darwin"@, "linux"@], "Hardware events"@),
        ("system_controls"@, seq!["darwin"@, "linux"@], "System sysctl settings"@),
        ("process_envs"@, seq!["darwin"@, "linux"@, "windows"@], "Process environment variables"@),
        ("process_memory_map"@, seq!["darwin"@, "linux"@], "Process memory mappings"@),
        ("process_events"@, seq!["darwin"@, "linux"@], "Process start/exit events"@),
        ("process_file_events"@, seq!["darwin"@, "linux"@], "File events by process"@),
        ("keychain_items"@, seq!["darwin"@], "macOS keychain items"@),
        ("keychain_acls"@, seq!["darwin"@], "macOS keychain ACLs"@),
        ("preferences"@, seq!["darwin"@], "macOS application preferences"@),
        ("plist"@, seq!["darwin"@], "Property list files"@),
        ("nvram"@, seq!["darwin"@], "NVRAM settings"@),
        ("xprotect_entries"@, seq!["darwin"@], "XProtect malware entries"@),
        ("xprotect_meta"@, seq!["darwin"@], "XProtect metadata"@),
        ("safari_extensions"@, seq!["darwin"@], "Safari browser extensions"@),
        ("time_machine_backups"@, seq!["darwin"@], "Time Machine backup status"@),
        ("time_machine_destinations"@, seq!["darwin"@], "Time Machine backup destinations"@),
    ]
}

/// Appends entries 65 to 80 of the table matrix.
fn push_tables_part5(v: &mut Vec<OsqueryTable>)
    ensures
        table_views(final(v)@) == table_views(old(v)@) + tables_part5(),
{
    let mut p: Vec<&'static str> = Vec::new();
    p.push("darwin");
    p.push("linux");
    assert(strs(p@) =~= seq!["darwin"@, "linux"@]);
    v.push(OsqueryTable { name: "hardware_events", platforms: p, description: "Hardware events" });
    let mut p: Vec<&'static str> = Vec::new();
    p.push("darwin");
    p.push("linux");
    assert(strs(p@) =~= seq!["darwin"@, "linux"@]);
    v.push(OsqueryTable { name: "system_controls", platforms: p, description: "System sysctl settings" });
    let mut p: Vec<&'static str> = Vec::new();
    p.push("darwin");
    p.push("linux");
    p.push("windows");
    assert(strs(p@) =~= seq!["darwin"@, "linux"@, "windows"@]);
    v.push(OsqueryTable { name: "process_envs", platforms: p, description: "Process environment variables" });
    let mut p: Vec<&'static str> = Vec::new();
    p.push("darwin");
    p.push("linux");
    assert(strs(p@) =~= seq!["darwin"@, "linux"@]);
    v.push(OsqueryTable { name: "process_memory_map", platforms: p, description: "Process memory mappings" });
    let mut p: Vec<&'static str> = Vec::new();
    p.push("darwin");
    p.push("linux");
    assert(strs(p@) =~= seq!["darwin"@, "linux"@]);
    v.push(OsqueryTable { name: "process_events", platforms: p, description: "Process start/exit events" });
    let mut p: Vec<&'static str> = Vec::new();
    p.push("darwin");
    p.push("linux");
    assert(strs(p@) =~= seq!["darwin"@, "linux"@]);
    v.push(OsqueryTable { name: "process_file_events", platforms: p, description: "File events by process" });
    let mut p: Vec<&'static str> = Vec::new();
    p.push("darwin");
    assert(strs(p@) =~= seq!["darwin"@]);
    v.push(OsqueryTable { name: "keychain_items", platforms: p, description: "macOS keychain items" });
    let mut p: Vec<&'static str> = Vec::new();
    p.push("darwin");
    assert(strs(p@) =~= seq!["darwin"@]);
    v.push(OsqueryTable { name: "keychain_acls", platforms: p, description: "macOS keychain ACLs" });
    let mut p: Vec<&'static str> = Vec::new();
    p.push("darwin");
    assert(strs(p@) =~= seq!["darwin"@]);
    v.push(OsqueryTable { name: "preferences", platforms: p, description: "macOS application preferences" });
    let mut p: Vec<&'static str> = Vec::new();
    p.push("darwin");
    assert(strs(p@) =~= seq!["darwin"@]);
    v.push(OsqueryTable { name: "plist", platforms: p, description: "Property list files" });
    let mut p: Vec<&'static str> = Vec::new();
    p.push("darwin");
    assert(strs(p@) =~= seq!["darwin"@]);
    v.push(OsqueryTable { name: "nvram", platforms: p, description: "NVRAM settings" });
    let mut p: Vec<&'static str> = Vec::new();
    p.push("darwin");
    assert(strs(p@) =~= seq!["darwin"@]);
    v.push(OsqueryTable { name: "xprotect_entries", platforms: p, description: "XProtect malware entries" });
    let mut p: Vec<&'static str> = Vec::new();
    p.push("darwin");
    assert(strs(p@) =~= seq!["darwin"@]);
    v.push(OsqueryTable { name: "xprotect_meta", platforms: p, description: "XProtect metadata" });
    let mut p: Vec<&'static str> = Vec::new();
    p.push("darwin");
    assert(strs(p@) =~= seq!["darwin"@]);
    v.push(OsqueryTable { name: "safari_extensions", platforms: p, description: "Safari browser extensions" });
    let mut p: Vec<&'static str> = Vec::new();
    p.push("darwin");
    assert(strs(p@) =~= seq!["darwin"@]);
    v.push(OsqueryTable { name: "time_machine_backups", platforms: p, description: "Time Machine backup status" });
    let mut p: Vec<&'static str> = Vec::new();
    p.push("darwin");
    assert(strs(p@) =~= seq!["darwin"@]);
    v.push(OsqueryTable { name: "time_machine_destinations", platforms: p, description: "Time Machine backup destinations" });
    assert(table_views(v@) =~= table_views(old(v)@) + tables_part5());
}

/// Entries 81 to 96 of the table matrix.
pub open spec fn tables_part6() -> Seq<(Seq<char>, Seq<Seq<char>>, Seq<char>)> {
    seq![
        ("location_services"@, seq!["darwin"@], "Location services status"@),
        ("screenlock"@, seq!["darwin"@], "Screen lock settings"@),
        ("sharing_preferences"@, seq!["darwin"@], "macOS sharing preferences"@),
        ("mdm"@, seq!["darwin"@], "MDM enrollment status"@),
        ("app_schemes"@, seq!["darwin"@], "App URL schemes"@),
        ("es_process_events"@, seq!["darwin"@], "Endpoint Security process events"@),
        ("patches"@, seq!["windows"@], "Windows patches/hotfixes"@),
        ("drivers"@, seq!["windows"@], "Windows drivers"@),
        ("shared_resources"@, seq!["windows"@], "Windows shared resources"@),
        ("wmi_cli_event_consumers"@, seq!["windows"@], "WMI command-line event consumers"@),
        ("wmi_event_filters"@, seq!["windows"@], "WMI event filters"@),
        ("wmi_filter_consumer_binding"@, seq!["windows"@], "WMI filter-consumer bindings"@),
        ("wmi_script_event_consumers"@, seq!["windows"@], "WMI script event consumers"@),
        ("windows_events"@, seq!["windows"@], "Windows event log entries"@),
        ("windows_security_products"@, seq!["windows"@], "Windows security products"@),
        ("ntfs_acl_permissions"@, seq!["windows"@], "NTFS ACL permissions"@),
    ]
}

/// Appends entries 81 to 96 of the table matrix.
fn push_tables_part6(v: &mut Vec<OsqueryTable>)
    ensures
        table_views(final(v)@) == table_views(old(v)@) + tables_part6(),
{
    let mut p: Vec<&'static str> = Vec::new();
    p.push("darwin");
    assert(strs(p@) =~= seq!["darwin"@]);
    v.push(OsqueryTable { name: "location_services", platforms: p, description: "Location services status" });
    let mut p: Vec<&'static str> = Vec::new();
    p.push("darwin");
    assert(strs(p@) =~= seq!["darwin"@]);
    v.push(OsqueryTable { name: "screenlock", platforms: p, description: "Screen lock settings" });
    let mut p: Vec<&'static str> = Vec::new();
    p.push("darwin");
    assert(strs(p@) =~= seq!["darwin"@]);
    v.push(OsqueryTable { name: "sharing_preferences", platforms: p, description: "macOS sharing preferences" });
    let mut p: Vec<&'static str> = Vec::new();
    p.push("darwin");
    assert(strs(p@) =~= seq!["darwin"@]);
    v.push(OsqueryTable { name: "mdm", platforms: p, description: "MDM enrollment status" });
    let mut p: Vec<&'static str> = Vec::new();
    p.push("darwin");
    assert(strs(p@) =~= seq!["darwin"@]);
    v.push(OsqueryTable { name: "app_schemes", platforms: p, description: "App URL schemes" });
    let mut p: Vec<&'static str> = Vec::new();
    p.push("darwin");
    assert(strs(p@) =~= seq!["darwin"@]);
    v.push(OsqueryTable { name: "es_process_events", platforms: p, description: "Endpoint Security process events" });
    let mut p: Vec<&'static str> = Vec::new();
    p.push("windows");
    assert(strs(p@) =~= seq!["windows"@]);
    v.push(OsqueryTable { name: "patches", platforms: p, description: "Windows patches/hotfixes" });
    let mut p: Vec<&'static str> = Vec::new();
    p.push("windows");
    assert(strs(p@) =~= seq!["windows"@]);
    v.push(OsqueryTable { name: "drivers", platforms: p, description: "Windows drivers" });
    let mut p: Vec<&'static str> = Vec::new();
    p.push("windows");
    assert(strs(p@) =~= seq!["windows"@]);
    v.push(OsqueryTable { name: "shared_resources", platforms: p, description: "Windows shared resources" });
    let mut p: Vec<&'static str> = Vec::new();
    p.push("windows");
    assert(strs(p@) =~= seq!["windows"@]);
    v.push(OsqueryTable { name: "wmi_cli_event_consumers", platforms: p, description: "WMI command-line event consumers" });
    let mut p: Vec<&'static str> = Vec::new();
    p.push("windows");
    assert(strs(p@) =~= seq!["windows"@]);
    v.push(OsqueryTable { name: "wmi_event_filters", platforms: p, description: "WMI event filters" });
    let mut p: Vec<&'static str> = Vec::new();
    p.push("windows");
    assert(strs(p@) =~= seq!["windows"@]);
    v.push(OsqueryTable { name: "wmi_filter_consumer_binding", platforms: p, description: "WMI filter-consumer bindings" });
    let mut p: Vec<&'static str> = Vec::new();
    p.push("windows");
    assert(strs(p@) =~= seq!["windows"@]);
    v.push(OsqueryTable { name: "wmi_script_event_consumers", platforms: p, description: "WMI script event consumers" });
    let mut p: Vec<&'static str> = Vec::new();
    p.push("windows");
    assert(strs(p@) =~= seq!["windows"@]);
    v.push(OsqueryTable { name: "windows_events", platforms: p, description: "Windows event log entries" });
    let mut p: Vec<&'static str> = Vec::new();
    p.push("windows");
    assert(strs(p@) =~= seq!["windows"@]);
    v.push(OsqueryTable { name: "windows_security_products", platforms: p, description: "Windows security products" });
    let mut p: Vec<&'static str> = Vec::new();
    p.push("windows");
    assert(strs(p@) =~= seq!["windows"@]);
    v.push(OsqueryTable { name: "ntfs_acl_permissions", platforms: p, description: "NTFS ACL permissions" });
    assert(table_views(v@) =~= table_views(old(v)@) + tables_part6());
}

/// Entries 97 to 112 of the table matrix.
pub open spec fn tables_part7() -> Seq<(Seq<char>, Seq<Seq<char>>, Seq<char>)> {
    seq![
        ("autoexec"@, seq!["windows"@], "Autoexec.bat entries"@),
        ("appcompat_shims"@, seq!["windows"@], "Application compatibility shims"@),
        ("ie_extensions"@, seq!["windows"@], "Internet Explorer extensions"@),
        ("powershell_events"@, seq!["windows"@], "PowerShell script events"@),
        ("firefox_addons"@, seq!["darwin"@, "linux"@, "windows"@], "Firefox browser addons"@),
        ("augeas"@, seq!["darwin"@, "linux"@], "Configuration file parsing via Augeas"@),
        ("carves"@, seq!["darwin"@, "linux"@, "windows"@], "File carving status"@),
        ("curl"@, seq!["darwin"@, "linux"@, "windows"@], "HTTP request results"@),
        ("curl_certificate"@, seq!["darwin"@, "linux"@, "windows"@], "TLS certificate information"@),
        ("chrome_extension_content_scripts"@, seq!["darwin"@, "linux"@, "windows"@, "chrome"@], "Chrome extension content scripts"@),
        ("homebrew_packages"@, seq!["darwin"@], "Homebrew packages"@),
        ("npm_packages"@, seq!["darwin"@, "linux"@, "windows"@], "npm packages"@),
        ("python_packages"@, seq!["darwin"@, "linux"@, "windows"@], "Python packages"@),
        ("atom_packages"@, seq!["darwin"@, "linux"@, "windows"@], "Atom editor packages"@),
        ("chocolatey_packages"@, seq!["windows"@], "Chocolatey packages"@),
        ("portage_packages"@, seq!["linux"@], "Gentoo portage packages"@),
    ]
}

/// Appends entries 97 to 112 of the table matrix.
fn push_tables_part7(v: &mut Vec<OsqueryTable>)
    ensures
        table_views(final(v)@) == table_views(old(v)@) + tables_part7(),
{
    let mut p: Vec<&'static str> = Vec::new();
    p.push("windows");
    assert(strs(p@) =~= seq!["windows"@]);
    v.push(OsqueryTable { name: "autoexec", platforms: p, description: "Autoexec.bat entries" });
    let mut p: Vec<&'static str> = Vec::new();
    p.push("windows");
    assert(strs(p@) =~= seq!["windows"@]);
    v.push(OsqueryTable { name: "appcompat_shims", platforms: p, description: "Application compatibility shims" });
    let mut p: Vec<&'static str> = Vec::new();
    p.push("windows");
    assert(strs(p@) =~= seq!["windows"@]);
    v.push(OsqueryTable { name: "ie_extensions", platforms: p, description: "Internet Explorer extensions" });
    let mut p: Vec<&'static str> = Vec::new();
    p.push("windows");
    assert(strs(p@) =~= seq!["windows"@]);
    v.push(OsqueryTable { name: "powershell_events", platforms: p, description: "PowerShell script events" });
    let mut p: Vec<&'static str> = Vec::new();
    p.push("darwin");
    p.push("linux");
    p.push("windows");
    assert(strs(p@) =~= seq!["darwin"@, "linux"@, "windows"@]);
    v.push(OsqueryTable { name: "firefox_addons", platforms: p, description: "Firefox browser addons" });
    let mut p: Vec<&'static str> = Vec::new();
    p.push("darwin");
    p.push("linux");
    assert(strs(p@) =~= seq!["darwin"@, "linux"@]);
    v.push(OsqueryTable { name: "augeas", platforms: p, description: "Configuration file parsing via Augeas" });
    let mut p: Vec<&'static str> = Vec::new();
    p.push("darwin");
    p.push("linux");
    p.push("windows");
    assert(strs(p@) =~= seq!["darwin"@, "linux"@, "windows"@]);
    v.push(OsqueryTable { name: "carves", platforms: p, description: "File carving status" });
    let mut p: Vec<&'static str> = Vec::new();
    p.push("darwin");
    p.push("linux");
    p.push("windows");
    assert(strs(p@) =~= seq!["darwin"@, "linux"@, "windows"@]);
    v.push(OsqueryTable { name: "curl", platforms: p, description: "HTTP request results" });
    let mut p: Vec<&'static str> = Vec::new();
    p.push("darwin");
    p.push("linux");
    p.push("windows");
    assert(strs(p@) =~= seq!["darwin"@, "linux"@, "windows"@]);
    v.push(OsqueryTable { name: "curl_certificate", platforms: p, description: "TLS certificate information" });
    let mut p: Vec<&'static str> = Vec::new();
    p.push("darwin");
    p.push("linux");
    p.push("windows");
    p.push("chrome");
    assert(strs(p@) =~= seq!["darwin"@, "linux"@, "windows"@, "chrome"@]);
    v.push(OsqueryTable { name: "chrome_extension_content_scripts", platforms: p, description: "Chrome extension content scripts" });
    let mut p: Vec<&'static str> = Vec::new();
    p.push("darwin");
    assert(strs(p@) =~= seq!["darwin"@]);
    v.push(OsqueryTable { name: "homebrew_packages", platforms: p, description: "Homebrew packages" });
    let mut p: Vec<&'static str> = Vec::new();
    p.push("darwin");
    p.push("linux");
    p.push("windows");
    assert(strs(p@) =~= seq!["darwin"@, "linux"@, "windows"@]);
    v.push(OsqueryTable { name: "npm_packages", platforms: p, description: "npm packages" });
    let mut p: Vec<&'static str> = Vec::new();
    p.push("darwin");
    p.push("linux");
    p.push("windows");
    assert(strs(p@) =~= seq!["darwin"@, "linux"@, "windows"@]);
    v.push(OsqueryTable { name: "python_packages", platforms: p, description: "Python packages" });
    let mut p: Vec<&'static str> = Vec::new();
    p.push("darwin");
    p.push("linux");
    p.push("windows");
    assert(strs(p@) =~= seq!["darwin"@, "linux"@, "windows"@]);
    v.push(OsqueryTable { name: "atom_packages", platforms: p, description: "Atom editor packages" });
    let mut p: Vec<&'static str> = Vec::new();
    p.push("windows");
    assert(strs(p@) =~= seq!["windows"@]);
    v.push(OsqueryTable { name: "chocolatey_packages", platforms: p, description: "Chocolatey packages" });
    let mut p: Vec<&'static str> = Vec::new();
    p.push("linux");
    assert(strs(p@) =~= seq!["linux"@]);
    v.push(OsqueryTable { name: "portage_packages", platforms: p, description: "Gentoo portage packages" });
    assert(table_views(v@) =~= table_views(old(v)@) + tables_part7());
}

/// Entries 113 to 128 of the table matrix.
pub open spec fn tables_part8() -> Seq<(Seq<char>, Seq<Seq<char>>, Seq<char>)> {
    seq![
        ("docker_containers"@, seq!["darwin"@, "linux"@], "Docker containers"@),
        ("docker_images"@, seq!["darwin"@, "linux"@], "Docker images"@),
        ("docker_info"@, seq!["darwin"@, "linux"@], "Docker system info"@),
        ("docker_networks"@, seq!["darwin"@, "linux"@], "Docker networks"@),
        ("docker_volumes"@, seq!["darwin"@, "linux"@], "Docker volumes"@),
        ("docker_container_mounts"@, seq!["darwin"@, "linux"@], "Docker container mount points"@),
        ("docker_container_ports"@, seq!["darwin"@, "linux"@], "Docker container port mappings"@),
        ("docker_container_processes"@, seq!["darwin"@, "linux"@], "Processes in Docker containers"@),
        ("docker_container_labels"@, seq!["darwin"@, "linux"@], "Docker container labels"@),
        ("time"@, seq!["darwin"@, "linux"@, "windows"@], "Current system time"@),
        ("osquery_info"@, seq!["darwin"@, "linux"@, "windows"@], "osquery version info"@),
        ("osquery_flags"@, seq!["darwin"@, "linux"@, "windows"@], "osquery runtime flags"@),
        ("osquery_extensions"@, seq!["darwin"@, "linux"@, "windows"@], "osquery extensions"@),
        ("osquery_schedule"@, seq!["darwin"@, "linux"@, "windows"@], "osquery schedule status"@),
        ("osquery_packs"@, seq!["darwin"@, "linux"@, "windows"@], "osquery query packs"@),
        ("osquery_registry"@, seq!["darwin"@, "linux"@, "windows"@], "osquery registry plugins"@),
    ]
}

/// Appends entries 113 to 128 of the table matrix.
fn push_tables_part8(v: &mut Vec<OsqueryTable>)
    ensures
        table_views(final(v)@) == table_views(old(v)@) + tables_part8(),
{
    let mut p: Vec<&'static str> = Vec::new();
    p.push("darwin");
    p.push("linux");
    assert(strs(p@) =~= seq!["darwin"@, "linux"@]);
    v.push(OsqueryTable { name: "docker_containers", platforms: p, description: "Docker containers" });
    let mut p: Vec<&'static str> = Vec::new();
    p.push("darwin");
    p.push("linux");
    assert(strs(p@) =~= seq!["darwin"@, "linux"@]);
    v.push(OsqueryTable { name: "docker_images", platforms: p, description: "Docker images" });
    let mut p: Vec<&'static str> = Vec::new();
    p.push("darwin");
    p.push("linux");
    assert(strs(p@) =~= seq!["darwin"@, "linux"@]);
    v.push(OsqueryTable { name: "docker_info", platforms: p, description: "Docker system info" });
    let mut p: Vec<&'static str> = Vec::new();
    p.push("darwin");
    p.push("linux");
    assert(strs(p@) =~= seq!["darwin"@, "linux"@]);
    v.push(OsqueryTable { name: "docker_networks", platforms: p, description: "Docker networks" });
    let mut p: Vec<&'static str> = Vec::new();
    p.push("darwin");
    p.push("linux");
    assert(strs(p@) =~= seq!["darwin"@, "linux"@]);
    v.push(OsqueryTable { name: "docker_volumes", platforms: p, description: "Docker volumes" });
    let mut p: Vec<&'static str> = Vec::new();
    p.push("darwin");
    p.push("linux");
    assert(strs(p@) =~= seq!["darwin"@, "linux"@]);
    v.push(OsqueryTable { name: "docker_container_mounts", platforms: p, description: "Docker container mount points" });
    let mut p: Vec<&'static str> = Vec::new();
    p.push("darwin");
    p.push("linux");
    assert(strs(p@) =~= seq!["darwin"@, "linux"@]);
    v.push(OsqueryTable { name: "docker_container_ports", platforms: p, description: "Docker container port mappings" });
    let mut p: Vec<&'static str> = Vec::new();
    p.push("darwin");
    p.push("linux");
    assert(strs(p@) =~= seq!["darwin"@, "linux"@]);
    v.push(OsqueryTable { name: "docker_container_processes", platforms: p, description: "Processes in Docker containers" });
    let mut p: Vec<&'static str> = Vec::new();
    p.push("darwin");
    p.push("linux");
    assert(strs(p@) =~= seq!["darwin"@, "linux"@]);
    v.push(OsqueryTable { name: "docker_container_labels", platforms: p, description: "Docker container labels" });
    let mut p: Vec<&'static str> = Vec::new();
    p.push("darwin");
    p.push("linux");
    p.push("windows");
    assert(strs(p@) =~= seq!["darwin"@, "linux"@, "windows"@]);
    v.push(OsqueryTable { name: "time", platforms: p, description: "Current system time" });
    let mut p: Vec<&'static str> = Vec::new();
    p.push("darwin");
    p.push("linux");
    p.push("windows");
    assert(strs(p@) =~= seq!["darwin"@, "linux"@, "windows"@]);
    v.push(OsqueryTable { name: "osquery_info", platforms: p, description: "osquery version info" });
    let mut p: Vec<&'static str> = Vec::new();
    p.push("darwin");
    p.push("linux");
    p.push("windows");
    assert(strs(p@) =~= seq!["darwin"@, "linux"@, "windows"@]);
    v.push(OsqueryTable { name: "osquery_flags", platforms: p, description: "osquery runtime flags" });
    let mut p: Vec<&'static str> = Vec::new();
    p.push("darwin");
    p.push("linux");
    p.push("windows");
    assert(strs(p@) =~= seq!["darwin"@, "linux"@, "windows"@]);
    v.push(OsqueryTable { name: "osquery_extensions", platforms: p, description: "osquery extensions" });
    let mut p: Vec<&'static str> = Vec::new();
    p.push("darwin");
    p.push("linux");
    p.push("windows");
    assert(strs(p@) =~= seq!["darwin"@, "linux"@, "windows"@]);
    v.push(OsqueryTable { name: "osquery_schedule", platforms: p, description: "osquery schedule status" });
    let mut p: Vec<&'static str> = Vec::new();
    p.push("darwin");
    p.push("linux");
    p.push("windows");
    assert(strs(p@) =~= seq!["darwin"@, "linux"@, "windows"@]);
    v.push(OsqueryTable { name: "osquery_packs", platforms: p, description: "osquery query packs" });
    let mut p: Vec<&'static str> = Vec::new();
    p.push("darwin");
    p.push("linux");
    p.push("windows");
    assert(strs(p@) =~= seq!["darwin"@, "linux"@, "windows"@]);
    v.push(OsqueryTable { name: "osquery_registry", platforms: p, description: "osquery registry plugins" });
    assert(table_views(v@) =~= table_views(old(v)@) + tables_part8());
}

/// Entries 129 to 129 of the table matrix.
pub open spec fn tables_part9() -> Seq<(Seq<char>, Seq<Seq<char>>, Seq<char>)> {
    seq![
        ("osquery_events"@, seq!["darwin"@, "linux"@, "windows"@], "osquery event publishers"@),
    ]
}

/// Appends entries 129 to 129 of the table matrix.
fn push_tables_part9(v: &mut Vec<OsqueryTable>)
    ensures
        table_views(final(v)@) == table_views(old(v)@) + tables_part9(),
{
    let mut p: Vec<&'static str> = Vec::new();
    p.push("darwin");
    p.push("linux");
    p.push("windows");
    assert(strs(p@) =~= seq!["darwin"@, "linux"@, "windows"@]);
    v.push(OsqueryTable { name: "osquery_events", platforms: p, description: "osquery event publishers" });
    assert(table_views(v@) =~= table_views(old(v)@) + tables_part9());
}

/// Every known osquery table with its platforms and description.
pub open spec fn osquery_entries() -> Seq<(Seq<char>, Seq<Seq<char>>, Seq<char>)> {
    tables_part1() + tables_part2() + tables_part3() + tables_part4() + tables_part5() + tables_part6() + tables_part7() + tables_part8() + tables_part9()
}

/// The first entry named `name` is the one at `j` when no earlier entry
/// has that name.
proof fn lemma_table_entry_at(es: Seq<(Seq<char>, Seq<Seq<char>>, Seq<char>)>, name: Seq<char>, j: int)
    requires
        0 <= j < es.len(),
        es[j].0 == name,
        forall|i: int| 0 <= i < j ==> es[i].0 != name,
    ensures
        table_entry(es, name) == Some(es[j]),
    decreases j,
{
    if j > 0 {
        let rest = es.drop_first();
        assert forall|i: int| 0 <= i < j - 1 implies rest[i].0 != name by {
            assert(rest[i] == es[i + 1]);
        }
        lemma_table_entry_at(rest, name, j - 1);
        assert(rest[j - 1] == es[j]);
    }
}

/// The platforms osquery ships every cross-platform table on.
pub open spec fn all_desktop_platforms() -> Seq<Seq<char>> {
    seq!["darwin"@, "linux"@, "windows"@]
}

/// The cross-platform tables `users`, `processes`, `system_info`,
/// `os_version` and `disk_encryption` are each listed on darwin, linux and
/// windows.
pub proof fn law_cross_platform_tables(name: Seq<char>)
    requires
        name == "users"@ || name == "processes"@ || name == "system_info"@ || name == "os_version"@ || name
            == "disk_encryption"@,
    ensures
        table_entry(osquery_entries(), name) matches Some(e) && e.1 == seq!["darwin"@, "linux"@, "windows"@],
{
    reveal_strlit("alf");
    reveal_strlit("disk_encryption");
    reveal_strlit("filevault_status");
    reveal_strlit("managed_policies");
    reveal_strlit("authorization_mechanisms");
    reveal_strlit("gatekeeper");
    reveal_strlit("sip_config");
    reveal_strlit("bitlocker_info");
    reveal_strlit("windows_security_center");
    reveal_strlit("windows_firewall_rules");
    reveal_strlit("registry");
    reveal_strlit("windows_update_history");
    reveal_strlit("users");
    reveal_strlit("processes");
    reveal_strlit("system_info");
    reveal_strlit("os_version");
    let es = osquery_entries();
    let p1 = tables_part1();
    assert forall|i: int| 0 <= i < p1.len() implies es[i] == #[trigger] p1[i] by {}
    let j: int = if name == "disk_encryption"@ {
        1
    } else if name == "users"@ {
        12
    } else if name == "processes"@ {
        13
    } else if name == "system_info"@ {
        14
    } else {
        15
    };
    assert forall|i: int| 0 <= i < j implies es[i].0 != name by {
        assert(es[i] == p1[i]);
        assert(p1[i].0.len() != name.len() || p1[i].0[0] != name[0] || p1[i].0[1] != name[1]);
    }
    assert(es[j] == p1[j]);
    lemma_table_entry_at(es, name, j);
}

/// The macOS-only tables `alf`, `filevault_status` and `gatekeeper` are
/// listed on darwin alone.
pub proof fn law_macos_only_tables(name: Seq<char>)
    requires
        name == "alf"@ || name == "filevault_status"@ || name == "gatekeeper"@,
    ensures
        table_entry(osquery_entries(), name) matches Some(e) && e.1 == seq!["darwin"@],
{
    reveal_strlit("alf");
    reveal_strlit("disk_encryption");
    reveal_strlit("filevault_status");
    reveal_strlit("managed_policies");
    reveal_strlit("authorization_mechanisms");
    reveal_strlit("gatekeeper");
    let es = osquery_entries();
    let p1 = tables_part1();
    assert forall|i: int| 0 <= i < p1.len() implies es[i] == #[trigger] p1[i] by {}
    let j: int = if name == "alf"@ {
        0
    } else if name == "filevault_status"@ {
        2
    } else {
        5
    };
    assert forall|i: int| 0 <= i < j implies es[i].0 != name by {
        assert(es[i] == p1[i]);
        assert(p1[i].0.len() != name.len() || p1[i].0[0] != name[0]);
    }
    assert(es[j] == p1[j]);
    lemma_table_entry_at(es, name, j);
}

/// The osquery table compatibility matrix.
pub fn osquery_tables() -> (r: Vec<OsqueryTable>)
    ensures
        table_views(r@) == osquery_entries(),
{
    let mut v: Vec<OsqueryTable> = Vec::new();
    push_tables_part1(&mut v);
    push_tables_part2(&mut v);
    push_tables_part3(&mut v);
    push_tables_part4(&mut v);
    push_tables_part5(&mut v);
    push_tables_part6(&mut v);
    push_tables_part7(&mut v);
    push_tables_part8(&mut v);
    push_tables_part9(&mut v);
    assert(table_views(v@) =~= osquery_entries());
    v
}

} // verus!
