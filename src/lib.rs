//! Configuration backup of network devices.
//!
//! The library decides what happens to each host of a batch: which remote
//! operations run, in which order, what is stored and what is reported.
//! Performing the remote and local operations is left to the caller, who
//! hands each result back as an event.

pub mod batch;
pub mod engine;
pub mod host;
pub mod naming;

pub use batch::{Batch, Command};
pub use engine::{
    backup_cisco_export_host, backup_host, backup_hp_export_host, backup_mikrotik_binary_host,
    backup_mikrotik_export_host, Action, Event, FailureKind, HostRun, Outcome, Stage, Status,
    UnknownBackupMethod,
};
pub use host::{parse_method, BackupMethod, HostRecord};
pub use naming::{current_stamp, make_backup_file_name, stamp_from_unix, Stamp};
