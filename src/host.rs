use vstd::prelude::*;

verus! {

/// A name that starts with `#` marks a record that takes no part in the run.
pub open spec fn is_comment_name(name: Seq<char>) -> bool {
    name.len() > 0 && name[0] == '#'
}

/// One device to back up, as read from the host list.
#[derive(Debug)]
pub struct HostRecord {
    pub name: String,
    pub address: String,
    pub username: String,
    pub password: String,
    pub method: String,
}

impl HostRecord {
    pub fn new(
        name: String,
        address: String,
        username: String,
        password: String,
        method: String,
    ) -> (r: HostRecord)
        ensures
            r.name@ == name@,
            r.address@ == address@,
            r.username@ == username@,
            r.password@ == password@,
            r.method@ == method@,
    {
        HostRecord { name, address, username, password, method }
    }

    /// Whether this record is a comment line.
    pub fn is_comment(&self) -> (r: bool)
        ensures
            r == is_comment_name(self.name@),
    {
        let s = self.name.as_str();
        if s.unicode_len() == 0 {
            false
        } else {
            s.get_char(0) == '#'
        }
    }
}

/// The backup procedures that the engine knows.
#[derive(Clone, Copy, Debug, PartialEq, Eq, Structural)]
pub enum BackupMethod {
    /// Save a binary snapshot on the device, pull it, then remove it.
    MikrotikBinary,
    /// Run the export command and keep its output.
    MikrotikExport,
    /// Drive an interactive shell with Cisco-style commands.
    CiscoExport,
    /// Drive an interactive shell with HP-style commands.
    HpExport,
}

/// The method that a tag names, if any. The snapshot and export procedures
/// answer to a generic tag (`binary-snapshot`, `export-and-read`) and to the
/// Mikrotik one; the interactive procedures to their vendor tag.
pub open spec fn method_of(tag: Seq<char>) -> Option<BackupMethod> {
    if tag == "binary-snapshot"@ || tag == "Mikrotik-Binary"@ {
        Some(BackupMethod::MikrotikBinary)
    } else if tag == "export-and-read"@ || tag == "Mikrotik-Export"@ {
        Some(BackupMethod::MikrotikExport)
    } else if tag == "Cisco-Export"@ {
        Some(BackupMethod::CiscoExport)
    } else if tag == "HP-Export"@ {
        Some(BackupMethod::HpExport)
    } else {
        None
    }
}

/// Reads a method tag; `None` for a tag that names no known method.
pub fn parse_method(tag: &str) -> (r: Option<BackupMethod>)
    ensures
        r == method_of(tag@),
{
    let t = String::from_str(tag);
    if t == String::from_str("binary-snapshot") || t == String::from_str("Mikrotik-Binary") {
        Some(BackupMethod::MikrotikBinary)
    } else if t == String::from_str("export-and-read") || t == String::from_str("Mikrotik-Export") {
        Some(BackupMethod::MikrotikExport)
    } else if t == String::from_str("Cisco-Export") {
        Some(BackupMethod::CiscoExport)
    } else if t == String::from_str("HP-Export") {
        Some(BackupMethod::HpExport)
    } else {
        None
    }
}

} // verus!
