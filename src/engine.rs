use crate::host::{is_comment_name, method_of, parse_method, BackupMethod, HostRecord};
use crate::naming::{backup_file_name, make_backup_file_name, Stamp};
use vstd::prelude::*;

verus! {

/// How a host's backup failed.
#[derive(Clone, Copy, Debug, PartialEq, Eq, Structural)]
pub enum FailureKind {
    /// Connecting, the protocol handshake or authentication failed.
    ConnectionFailed,
    /// Opening, running, reading or closing a remote command failed.
    RemoteExecutionFailed,
    /// Pulling the remote file failed.
    TransferFailed,
    /// The record names no known backup method.
    UnknownMethod,
    /// Writing the artifact locally failed.
    LocalIOFailed,
}

/// One step of a backup procedure.
#[derive(Clone, Copy, Debug, PartialEq, Eq, Structural)]
pub enum Stage {
    Connect,
    RunExport,
    SaveSnapshot,
    Settle,
    Fetch,
    Store,
    RemoveSnapshot,
    OpenShell,
    CollectShell,
}

/// The steps of each method, in order.
pub open spec fn script(m: BackupMethod) -> Seq<Stage> {
    match m {
        BackupMethod::MikrotikBinary => seq![
            Stage::Connect,
            Stage::SaveSnapshot,
            Stage::Settle,
            Stage::Fetch,
            Stage::Store,
            Stage::RemoveSnapshot,
        ],
        BackupMethod::MikrotikExport => seq![Stage::Connect, Stage::RunExport, Stage::Store],
        BackupMethod::CiscoExport | BackupMethod::HpExport => seq![
            Stage::Connect,
            Stage::OpenShell,
            Stage::Settle,
            Stage::CollectShell,
            Stage::Store,
        ],
    }
}

fn script_len(m: BackupMethod) -> (r: usize)
    ensures
        r == script(m).len(),
{
    match m {
        BackupMethod::MikrotikBinary => 6,
        BackupMethod::MikrotikExport => 3,
        BackupMethod::CiscoExport | BackupMethod::HpExport => 5,
    }
}

fn stage_at(m: BackupMethod, i: usize) -> (r: Stage)
    requires
        i < script(m).len(),
    ensures
        r == script(m)[i as int],
{
    match m {
        BackupMethod::MikrotikBinary => {
            if i == 0 {
                Stage::Connect
            } else if i == 1 {
                Stage::SaveSnapshot
            } else if i == 2 {
                Stage::Settle
            } else if i == 3 {
                Stage::Fetch
            } else if i == 4 {
                Stage::Store
            } else {
                Stage::RemoveSnapshot
            }
        },
        BackupMethod::MikrotikExport => {
            if i == 0 {
                Stage::Connect
            } else if i == 1 {
                Stage::RunExport
            } else {
                Stage::Store
            }
        },
        BackupMethod::CiscoExport | BackupMethod::HpExport => {
            if i == 0 {
                Stage::Connect
            } else if i == 1 {
                Stage::OpenShell
            } else if i == 2 {
                Stage::Settle
            } else if i == 3 {
                Stage::CollectShell
            } else {
                Stage::Store
            }
        },
    }
}

/// The failure that a step reports when it does not succeed.
pub open spec fn failure_kind_of(st: Stage) -> FailureKind {
    match st {
        Stage::Connect => FailureKind::ConnectionFailed,
        Stage::Fetch => FailureKind::TransferFailed,
        Stage::Store => FailureKind::LocalIOFailed,
        _ => FailureKind::RemoteExecutionFailed,
    }
}

fn failure_kind(st: Stage) -> (r: FailureKind)
    ensures
        r == failure_kind_of(st),
{
    match st {
        Stage::Connect => FailureKind::ConnectionFailed,
        Stage::Fetch => FailureKind::TransferFailed,
        Stage::Store => FailureKind::LocalIOFailed,
        _ => FailureKind::RemoteExecutionFailed,
    }
}

/// The directory that artifacts are written to.
pub open spec fn backup_dir() -> Seq<char> {
    "backups"@
}

/// The command that prints a Mikrotik configuration.
pub open spec fn export_command() -> Seq<char> {
    "/export show-sensitive verbose"@
}

/// The command that saves a binary snapshot under `file`.
pub open spec fn save_command(file: Seq<char>) -> Seq<char> {
    "/system/backup/save name="@ + file + " dont-encrypt=yes"@
}

/// The command that removes the snapshot `file` from the device.
pub open spec fn remove_command(file: Seq<char>) -> Seq<char> {
    "/file/remove "@ + file
}

/// What is typed into the interactive shell of a device.
pub open spec fn shell_input(m: BackupMethod) -> Seq<char> {
    match m {
        BackupMethod::HpExport => "screen-length disable\ndisplay current-configuration\n"@,
        _ => "terminal length 0\nsh run\n"@,
    }
}

/// How long to wait for the device after a command, in milliseconds.
pub open spec fn settle_millis(m: BackupMethod) -> u64 {
    match m {
        BackupMethod::MikrotikBinary => 2000,
        _ => 10000,
    }
}

/// What the caller reports back after performing an action.
#[derive(Debug)]
pub enum Event {
    /// The action succeeded and produced no data.
    Completed,
    /// The action succeeded and produced these bytes.
    Output(Vec<u8>),
    /// Reading the output failed after these bytes had come.
    Partial { output: Vec<u8>, cause: String },
    /// The action failed, for this cause.
    Failed(String),
}

/// How a host's processing ended.
#[derive(Debug)]
pub enum Status {
    /// The artifact was stored under `file_name`; `notes` lists what went
    /// wrong without spoiling it.
    BackedUp { file_name: String, notes: Vec<String> },
    Failed { kind: FailureKind, cause: String },
}

/// The result of one host.
#[derive(Debug)]
pub struct Outcome {
    pub host: String,
    pub status: Status,
}

/// What the caller is to do next for the current host.
#[derive(Debug)]
pub enum Action {
    /// Open a connection to `address`, shake hands and log in.
    Connect { address: String, username: String, password: String },
    /// Run `command` on a new channel without reading its output.
    Exec { command: String },
    /// Run `command` on a new channel and read its whole output.
    ExecRead { command: String },
    /// Wait this many milliseconds.
    Wait { millis: u64 },
    /// Pull the remote file `remote` whole.
    Fetch { remote: String },
    /// Open an interactive shell with errors merged into the output, and type `input`.
    OpenShell { input: String },
    /// End the shell's input, read what it printed, and close it.
    CollectShell,
    /// Create the directory `dir` if needed and write `contents` to `path` in one go.
    Write { dir: String, path: String, contents: Vec<u8> },
    /// The host is done.
    Finish(Outcome),
}

/// The backup of one host in progress.
#[derive(Debug)]
pub struct HostRun {
    pub name: String,
    pub address: String,
    pub username: String,
    pub password: String,
    pub method: BackupMethod,
    pub file_name: String,
    /// How many steps of the script have been handed out.
    pub pos: usize,
    /// The latest output received.
    pub captured: Vec<u8>,
    pub notes: Vec<String>,
    pub done: bool,
}

/// `a` is the action that carries out step `st` of `run`.
pub open spec fn stage_action(run: HostRun, st: Stage, a: Action) -> bool {
    match st {
        Stage::Connect => a matches Action::Connect { address, username, password } && address@
            == run.address@ && username@ == run.username@ && password@ == run.password@,
        Stage::RunExport => a matches Action::ExecRead { command } && command@ == export_command(),
        Stage::SaveSnapshot => a matches Action::Exec { command } && command@ == save_command(
            run.file_name@,
        ),
        Stage::Settle => a matches Action::Wait { millis } && millis == settle_millis(run.method),
        Stage::Fetch => a matches Action::Fetch { remote } && remote@ == run.file_name@,
        Stage::Store => a matches Action::Write { dir, path, contents } && dir@ == backup_dir()
            && path@ == backup_dir() + "/"@ + run.file_name@ && contents@ == run.captured@,
        Stage::RemoveSnapshot => a matches Action::Exec { command } && command@ == remove_command(
            run.file_name@,
        ),
        Stage::OpenShell => a matches Action::OpenShell { input } && input@ == shell_input(
            run.method,
        ),
        Stage::CollectShell => a is CollectShell,
    }
}

/// `a` reports the success of `run`.
pub open spec fn success_action(run: HostRun, a: Action) -> bool {
    &&& a matches Action::Finish(o)
    &&& o.host@ == run.name@
    &&& o.status matches Status::BackedUp { file_name, notes }
    &&& file_name@ == run.file_name@
    &&& notes@ == run.notes@
}

/// `a` reports the failure of `run` at step `st`, for `cause`.
pub open spec fn failure_action(run: HostRun, st: Stage, cause: Seq<char>, a: Action) -> bool {
    &&& a matches Action::Finish(o)
    &&& o.host@ == run.name@
    &&& o.status matches Status::Failed { kind, cause: c }
    &&& kind == failure_kind_of(st)
    &&& c@ == cause
}

/// The note kept when the snapshot could not be removed from the device.
pub open spec fn removal_note(cause: Seq<char>) -> Seq<char> {
    "snapshot removal failed: "@ + cause
}

/// The note kept when the shell output was cut short.
pub open spec fn partial_note(cause: Seq<char>) -> Seq<char> {
    "output read failed, kept what came: "@ + cause
}

/// `after` is `before` with `note` added at the end.
pub open spec fn noted(before: Seq<String>, after: Seq<String>, note: Seq<char>) -> bool {
    &&& after.len() == before.len() + 1
    &&& after.drop_last() == before
    &&& after.last()@ == note
}

/// The cause given when a step that should hand back data reported none.
pub open spec fn missing_output_cause() -> Seq<char> {
    "no output came back"@
}

/// The cause for which event `ev` ends the host at step `st`, if it does.
///
/// A failure ends the host, except at the removal of the snapshot. Output cut
/// short ends it too, except from the interactive shell, whose output is
/// collected as far as it came. A step that should hand back data and reports
/// none ends it as well.
pub open spec fn step_failure(st: Stage, ev: Event) -> Option<Seq<char>> {
    match ev {
        Event::Failed(cause) => if st == Stage::RemoveSnapshot {
            None
        } else {
            Some(cause@)
        },
        Event::Partial { cause, .. } => if st == Stage::CollectShell {
            None
        } else {
            Some(cause@)
        },
        Event::Completed => if yields_output(st) {
            Some(missing_output_cause())
        } else {
            None
        },
        Event::Output(_) => None,
    }
}

/// `post` and `a` are what `pre` becomes and hands out on event `ev`.
///
/// Where the event ends the host (`step_failure`), the host fails with the
/// kind of the step. Otherwise: a failed snapshot removal is noted; output
/// replaces what was captured; shell output cut short is kept, with a note;
/// and the next step's action follows, or the success once none is left.
pub open spec fn stepped(pre: HostRun, ev: Event, post: HostRun, a: Action) -> bool {
    let st = pre.last_stage();
    &&& post.wf()
    &&& post.name == pre.name
    &&& post.address == pre.address
    &&& post.username == pre.username
    &&& post.password == pre.password
    &&& post.method == pre.method
    &&& post.file_name == pre.file_name
    &&& post.pos >= pre.pos
    &&& (a is Finish <==> post.done)
    &&& (step_failure(st, ev) matches Some(cause) ==> failure_action(pre, st, cause, a))
    &&& (step_failure(st, ev) is None ==> {
        &&& (ev matches Event::Failed(cause) ==> noted(pre.notes@, post.notes@, removal_note(cause@)))
        &&& (ev matches Event::Output(bytes) ==> post.captured@ == bytes@)
        &&& (ev matches Event::Partial { output, cause } ==> {
            &&& post.captured@ == output@
            &&& noted(pre.notes@, post.notes@, partial_note(cause@))
        })
        &&& (ev is Completed ==> post.captured@ == pre.captured@)
        &&& (ev is Completed || ev is Output ==> post.notes@ == pre.notes@)
        &&& ({
            let mid = HostRun { captured: post.captured, notes: post.notes, ..pre };
            if pre.pos < script(pre.method).len() {
                &&& post.pos == pre.pos + 1
                &&& stage_action(mid, script(pre.method)[pre.pos as int], a)
            } else {
                success_action(mid, a)
            }
        })
    })
}

impl HostRun {
    pub open spec fn wf(&self) -> bool {
        self.pos <= script(self.method).len()
    }

    /// The step whose action was handed out last.
    pub open spec fn last_stage(&self) -> Stage {
        script(self.method)[self.pos - 1]
    }

    /// Hands out the action of the next step, or the success when none is left.
    fn issue(&mut self) -> (a: Action)
        requires
            old(self).wf(),
            !old(self).done,
        ensures
            final(self).name == old(self).name,
            final(self).address == old(self).address,
            final(self).username == old(self).username,
            final(self).password == old(self).password,
            final(self).method == old(self).method,
            final(self).file_name == old(self).file_name,
            final(self).captured == old(self).captured,
            final(self).notes == old(self).notes,
            final(self).wf(),
            old(self).pos < script(old(self).method).len() ==> {
                &&& final(self).pos == old(self).pos + 1
                &&& !final(self).done
                &&& stage_action(*old(self), script(old(self).method)[old(self).pos as int], a)
            },
            old(self).pos == script(old(self).method).len() ==> {
                &&& final(self).pos == old(self).pos
                &&& final(self).done
                &&& success_action(*old(self), a)
            },
    {
        if self.pos == script_len(self.method) {
            self.done = true;
            let status = Status::BackedUp {
                file_name: self.file_name.clone(),
                notes: self.notes.clone(),
            };
            return Action::Finish(Outcome { host: self.name.clone(), status });
        }
        let st = stage_at(self.method, self.pos);
        self.pos = self.pos + 1;
        proof {
            reveal_strlit("/export show-sensitive verbose");
            reveal_strlit("/system/backup/save name=");
            reveal_strlit(" dont-encrypt=yes");
            reveal_strlit("/file/remove ");
            reveal_strlit("backups");
            reveal_strlit("/");
        }
        match st {
            Stage::Connect => Action::Connect {
                address: self.address.clone(),
                username: self.username.clone(),
                password: self.password.clone(),
            },
            Stage::RunExport => Action::ExecRead {
                command: String::from_str("/export show-sensitive verbose"),
            },
            Stage::SaveSnapshot => {
                let mut command = String::from_str("/system/backup/save name=");
                command.append(self.file_name.as_str());
                command.append(" dont-encrypt=yes");
                Action::Exec { command }
            },
            Stage::Settle => {
                let millis: u64 = match self.method {
                    BackupMethod::MikrotikBinary => 2000,
                    _ => 10000,
                };
                Action::Wait { millis }
            },
            Stage::Fetch => Action::Fetch { remote: self.file_name.clone() },
            Stage::Store => {
                let mut path = String::from_str("backups");
                path.append("/");
                path.append(self.file_name.as_str());
                Action::Write {
                    dir: String::from_str("backups"),
                    path,
                    contents: self.captured.clone(),
                }
            },
            Stage::RemoveSnapshot => {
                let mut command = String::from_str("/file/remove ");
                command.append(self.file_name.as_str());
                Action::Exec { command }
            },
            Stage::OpenShell => {
                let input = match self.method {
                    BackupMethod::HpExport => String::from_str(
                        "screen-length disable\ndisplay current-configuration\n",
                    ),
                    _ => String::from_str("terminal length 0\nsh run\n"),
                };
                Action::OpenShell { input }
            },
            Stage::CollectShell => Action::CollectShell,
        }
    }
    /// Begins the backup of `host` at time `stamp` with `method`: the first
    /// action is to connect.
    pub fn begin(host: &HostRecord, method: BackupMethod, stamp: &Stamp) -> (r: (HostRun, Action))
        ensures
            begun(host, method, *stamp, r.0, r.1),
    {
        let file_name = make_backup_file_name(host.name.as_str(), host.method.as_str(), stamp);
        let mut run = HostRun {
            name: host.name.clone(),
            address: host.address.clone(),
            username: host.username.clone(),
            password: host.password.clone(),
            method,
            file_name,
            pos: 0,
            captured: Vec::new(),
            notes: Vec::new(),
            done: false,
        };
        let a = run.issue();
        (run, a)
    }

    /// Ends the host with the failure of step `st`, for `cause`.
    fn fail(&mut self, st: Stage, cause: String) -> (a: Action)
        requires
            old(self).wf(),
        ensures
            *final(self) == (HostRun { done: true, ..*old(self) }),
            failure_action(*old(self), st, cause@, a),
    {
        self.done = true;
        let status = Status::Failed { kind: failure_kind(st), cause };
        Action::Finish(Outcome { host: self.name.clone(), status })
    }

    /// Takes the result of the last action handed out and decides the next one.
    ///
    /// See `stepped` for what follows each event at each step.
    pub fn step(&mut self, ev: Event) -> (a: Action)
        requires
            old(self).wf(),
            !old(self).done,
            old(self).pos > 0,
        ensures
            stepped(*old(self), ev, *final(self), a),
    {
        let ghost before = self.notes@;
        let st = stage_at(self.method, self.pos - 1);
        let outcome_needed = st == Stage::RunExport || st == Stage::Fetch || st
            == Stage::CollectShell;
        match ev {
            Event::Failed(cause) => {
                if st == Stage::RemoveSnapshot {
                    let mut note = String::from_str("snapshot removal failed: ");
                    note.append(cause.as_str());
                    proof {
                        reveal_strlit("snapshot removal failed: ");
                    }
                    self.notes.push(note);
                    assert(self.notes@.drop_last() =~= before);
                } else {
                    return self.fail(st, cause);
                }
            },
            Event::Output(bytes) => {
                self.captured = bytes;
            },
            Event::Partial { output, cause } => {
                if st == Stage::CollectShell {
                    self.captured = output;
                    let mut note = String::from_str("output read failed, kept what came: ");
                    note.append(cause.as_str());
                    proof {
                        reveal_strlit("output read failed, kept what came: ");
                    }
                    self.notes.push(note);
                    assert(self.notes@.drop_last() =~= before);
                } else {
                    return self.fail(st, cause);
                }
            },
            Event::Completed => {
                if outcome_needed {
                    proof {
                        reveal_strlit("no output came back");
                    }
                    return self.fail(st, String::from_str("no output came back"));
                }
            },
        }
        self.issue()
    }
}

/// `run` has just begun the backup of `host` with `method` at `stamp`, and `a`
/// is its first action: to connect with the host's credentials.
pub open spec fn begun(host: &HostRecord, method: BackupMethod, stamp: Stamp, run: HostRun, a: Action) -> bool {
    &&& run.wf()
    &&& !run.done
    &&& run.pos == 1
    &&& run.name@ == host.name@
    &&& run.address@ == host.address@
    &&& run.username@ == host.username@
    &&& run.password@ == host.password@
    &&& run.method == method
    &&& run.file_name@ == backup_file_name(host.name@, host.method@, stamp)
    &&& run.captured@.len() == 0
    &&& run.notes@.len() == 0
    &&& stage_action(run, Stage::Connect, a)
}

/// The error of a record whose method tag names no known method.
#[derive(Debug)]
pub struct UnknownBackupMethod {
    pub details: String,
}

impl UnknownBackupMethod {
    pub fn new(msg: &str) -> (r: UnknownBackupMethod)
        ensures
            r.details@ == msg@,
    {
        UnknownBackupMethod { details: String::from_str(msg) }
    }
}

/// Begins the backup of a Mikrotik device by binary snapshot.
pub fn backup_mikrotik_binary_host(host: &HostRecord, stamp: &Stamp) -> (r: (HostRun, Action))
    ensures
        begun(host, BackupMethod::MikrotikBinary, *stamp, r.0, r.1),
{
    HostRun::begin(host, BackupMethod::MikrotikBinary, stamp)
}

/// Begins the backup of a Mikrotik device by configuration export.
pub fn backup_mikrotik_export_host(host: &HostRecord, stamp: &Stamp) -> (r: (HostRun, Action))
    ensures
        begun(host, BackupMethod::MikrotikExport, *stamp, r.0, r.1),
{
    HostRun::begin(host, BackupMethod::MikrotikExport, stamp)
}

/// Begins the backup of an HP device through its interactive shell.
pub fn backup_hp_export_host(host: &HostRecord, stamp: &Stamp) -> (r: (HostRun, Action))
    ensures
        begun(host, BackupMethod::HpExport, *stamp, r.0, r.1),
{
    HostRun::begin(host, BackupMethod::HpExport, stamp)
}

/// Begins the backup of a Cisco device through its interactive shell.
pub fn backup_cisco_export_host(host: &HostRecord, stamp: &Stamp) -> (r: (HostRun, Action))
    ensures
        begun(host, BackupMethod::CiscoExport, *stamp, r.0, r.1),
{
    HostRun::begin(host, BackupMethod::CiscoExport, stamp)
}

/// Begins the backup of one host record at time `stamp`. A comment gives
/// nothing: no action and no outcome. A record whose method is unknown ends
/// at once with an `UnknownMethod` failure, before any connection. Any other
/// record begins the procedure of its method.
pub fn backup_host(host: &HostRecord, stamp: &Stamp) -> (r: Option<Result<(HostRun, Action), Outcome>>)
    ensures
        r is None <==> is_comment_name(host.name@),
        r matches Some(Err(o)) ==> {
            &&& o.host@ == host.name@
            &&& o.status matches Status::Failed { kind, cause }
            &&& kind == FailureKind::UnknownMethod
            &&& cause@ == unknown_method_cause(host.method@)
        },
        !is_comment_name(host.name@) ==> (r matches Some(Err(_)) <==> method_of(host.method@) is None),
        r matches Some(Ok((run, a))) ==> method_of(host.method@) == Some(run.method) && begun(
            host,
            run.method,
            *stamp,
            run,
            a,
        ),
{
    if host.is_comment() {
        return None;
    }
    match parse_method(host.method.as_str()) {
        Some(BackupMethod::MikrotikBinary) => Some(Ok(backup_mikrotik_binary_host(host, stamp))),
        Some(BackupMethod::MikrotikExport) => Some(Ok(backup_mikrotik_export_host(host, stamp))),
        Some(BackupMethod::CiscoExport) => Some(Ok(backup_cisco_export_host(host, stamp))),
        Some(BackupMethod::HpExport) => Some(Ok(backup_hp_export_host(host, stamp))),
        None => {
            let mut msg = String::from_str("Unknown Method: ");
            msg.append(host.method.as_str());
            proof {
                reveal_strlit("Unknown Method: ");
            }
            let e = UnknownBackupMethod::new(msg.as_str());
            let status = Status::Failed { kind: FailureKind::UnknownMethod, cause: e.details };
            Some(Err(Outcome { host: host.name.clone(), status }))
        },
    }
}

/// The cause given for a method tag that names no method.
pub open spec fn unknown_method_cause(tag: Seq<char>) -> Seq<char> {
    "Unknown Method: "@ + tag
}

} // verus!

verus! {

/// The name under which a failure kind is reported.
pub open spec fn kind_text(k: FailureKind) -> Seq<char> {
    match k {
        FailureKind::ConnectionFailed => "ConnectionFailed"@,
        FailureKind::RemoteExecutionFailed => "RemoteExecutionFailed"@,
        FailureKind::TransferFailed => "TransferFailed"@,
        FailureKind::UnknownMethod => "UnknownMethod"@,
        FailureKind::LocalIOFailed => "LocalIOFailed"@,
    }
}

impl FailureKind {
    pub fn text(&self) -> (r: &'static str)
        ensures
            r@ == kind_text(*self),
    {
        match self {
            FailureKind::ConnectionFailed => "ConnectionFailed",
            FailureKind::RemoteExecutionFailed => "RemoteExecutionFailed",
            FailureKind::TransferFailed => "TransferFailed",
            FailureKind::UnknownMethod => "UnknownMethod",
            FailureKind::LocalIOFailed => "LocalIOFailed",
        }
    }
}

/// The line that reports an outcome: `<name> Backed up`, or
/// `Backup Failed: <name> :: <kind>: <cause>`.
pub open spec fn outcome_line(o: Outcome) -> Seq<char> {
    match o.status {
        Status::BackedUp { .. } => o.host@ + " Backed up"@,
        Status::Failed { kind, cause } => "Backup Failed: "@ + o.host@ + " :: "@ + kind_text(kind)
            + ": "@ + cause@,
    }
}

impl Outcome {
    /// Whether the host was backed up.
    pub fn succeeded(&self) -> (r: bool)
        ensures
            r == (self.status is BackedUp),
    {
        match self.status {
            Status::BackedUp { .. } => true,
            Status::Failed { .. } => false,
        }
    }

    /// The human-readable line that reports this outcome.
    pub fn line(&self) -> (r: String)
        ensures
            r@ == outcome_line(*self),
    {
        match &self.status {
            Status::BackedUp { .. } => {
                let mut s = self.host.clone();
                s.append(" Backed up");
                s
            },
            Status::Failed { kind, cause } => {
                let mut s = String::from_str("Backup Failed: ");
                s.append(self.host.as_str());
                s.append(" :: ");
                s.append(kind.text());
                s.append(": ");
                s.append(cause.as_str());
                s
            },
        }
    }
}

} // verus!

verus! {

/// The steps whose success hands back data.
pub open spec fn yields_output(st: Stage) -> bool {
    st == Stage::RunExport || st == Stage::Fetch || st == Stage::CollectShell
}

/// Every procedure connects first and stores exactly once; what it stores is
/// the output of the step just before, and every step that yields output is
/// followed at once by the store. So the artifact is the bytes that the
/// command or the transfer returned, and a step that fails before the store
/// leaves nothing written.
pub proof fn lemma_store_follows_output(m: BackupMethod)
    ensures
        script(m)[0] == Stage::Connect,
        forall|i: int|
            1 <= i < script(m).len() ==> #[trigger] script(m)[i] != Stage::Connect,
        forall|i: int|
            0 <= i < script(m).len() && #[trigger] script(m)[i] == Stage::Store ==> i > 0
                && yields_output(script(m)[i - 1]),
        forall|i: int|
            0 <= i < script(m).len() && yields_output(#[trigger] script(m)[i]) ==> i + 1
                < script(m).len() && script(m)[i + 1] == Stage::Store,
        forall|i: int, j: int|
            0 <= i < script(m).len() && 0 <= j < script(m).len() && #[trigger] script(m)[i]
                == Stage::Store && #[trigger] script(m)[j] == Stage::Store ==> i == j,
{
}

} // verus!
