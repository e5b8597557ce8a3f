use crate::engine::{
    backup_host, begun, script, step_failure, stepped, Action, Event, FailureKind, HostRun, Outcome,
    Stage, Status, unknown_method_cause,
};
use crate::host::{is_comment_name, method_of, BackupMethod, HostRecord};
use crate::naming::Stamp;
use vstd::prelude::*;

verus! {

/// How many records of `hosts` are not comments.
pub open spec fn non_comment_count(hosts: Seq<HostRecord>) -> nat
    decreases hosts.len(),
{
    if hosts.len() == 0 {
        0
    } else {
        non_comment_count(hosts.drop_last()) + if is_comment_name(hosts.last().name@) {
            0nat
        } else {
            1nat
        }
    }
}

/// Counting one more record adds one exactly when it is not a comment.
pub proof fn lemma_count_step(hosts: Seq<HostRecord>, c: int)
    requires
        0 <= c < hosts.len(),
    ensures
        non_comment_count(hosts.take(c + 1)) == non_comment_count(hosts.take(c)) + if is_comment_name(
            hosts[c].name@,
        ) {
            0nat
        } else {
            1nat
        },
{
    assert(hosts.take(c + 1).drop_last() =~= hosts.take(c));
}

/// There are never more non-comment records than records.
pub proof fn lemma_count_bounded(hosts: Seq<HostRecord>)
    ensures
        non_comment_count(hosts) <= hosts.len(),
    decreases hosts.len(),
{
    if hosts.len() > 0 {
        lemma_count_bounded(hosts.drop_last());
    }
}

/// The count is the number of records that remain once comments are
/// filtered out.
pub proof fn lemma_count_is_filtered_len(hosts: Seq<HostRecord>)
    ensures
        non_comment_count(hosts) == hosts.filter(|h: HostRecord| !is_comment_name(h.name@)).len(),
    decreases hosts.len(),
{
    reveal(Seq::filter);
    if hosts.len() > 0 {
        lemma_count_is_filtered_len(hosts.drop_last());
    }
}

/// A host whose connection fails ends there, with `ConnectionFailed`, and
/// hands out nothing more.
pub proof fn lemma_connection_failure_ends_host(pre: HostRun, cause: String, post: HostRun, a: Action)
    requires
        pre.wf(),
        pre.pos == 1,
        stepped(pre, Event::Failed(cause), post, a),
    ensures
        post.done,
        a is Finish,
        a matches Action::Finish(o) ==> {
            &&& o.host@ == pre.name@
            &&& o.status matches Status::Failed { kind, .. }
            &&& kind == FailureKind::ConnectionFailed
        },
{
    assert(script(pre.method)[0] == Stage::Connect);
    assert(pre.last_stage() == Stage::Connect);
    assert(step_failure(Stage::Connect, Event::Failed(cause)) == Some(cause@));
}

/// The start of a host carries nothing over from the hosts before it, failed
/// or not: the record, the method and the stamp fix the new run and its first
/// action.
pub proof fn lemma_start_depends_on_record_only(
    host: &HostRecord,
    m: BackupMethod,
    stamp: Stamp,
    r1: HostRun,
    a1: Action,
    r2: HostRun,
    a2: Action,
)
    requires
        begun(host, m, stamp, r1, a1),
        begun(host, m, stamp, r2, a2),
    ensures
        r1.name@ == r2.name@,
        r1.address@ == r2.address@,
        r1.username@ == r2.username@,
        r1.password@ == r2.password@,
        r1.method == r2.method,
        r1.file_name@ == r2.file_name@,
        r1.pos == r2.pos,
        r1.done == r2.done,
        r1.captured@ == r2.captured@,
        r1.notes@ == r2.notes@,
        a1 is Connect && a2 is Connect,
        a1 matches Action::Connect { address: x1, username: u1, password: p1 } ==> (a2 matches Action::Connect {
            address: x2,
            username: u2,
            password: p2,
        } ==> x1@ == x2@ && u1@ == u2@ && p1@ == p2@),
{
    assert(r1.captured@ =~= r2.captured@);
    assert(r1.notes@ =~= r2.notes@);
}

/// What the caller of a batch is to do next.
#[derive(Debug)]
pub enum Command {
    /// Perform this action for the current host and hand back its event.
    Perform(Action),
    /// Report this outcome; the host is done.
    Report(Outcome),
    /// Every host has been dealt with.
    Finished,
}

/// A list of hosts backed up one after the other.
#[derive(Debug)]
pub struct Batch {
    pub hosts: Vec<HostRecord>,
    /// The next record to look at.
    pub cursor: usize,
    /// The host in progress, if any.
    pub current: Option<HostRun>,
    /// How many outcomes have been reported.
    pub reported: usize,
}

impl Batch {
    pub open spec fn wf(&self) -> bool {
        &&& self.cursor <= self.hosts@.len()
        &&& self.reported + (if self.current is Some {
            1nat
        } else {
            0nat
        }) == non_comment_count(self.hosts@.take(self.cursor as int))
        &&& self.current matches Some(run) ==> {
            &&& run.wf()
            &&& !run.done
            &&& run.pos > 0
            &&& self.cursor > 0
            &&& run.name@ == self.hosts@[self.cursor - 1].name@
        }
    }

    /// A batch over `hosts`, none of them begun.
    pub fn new(hosts: Vec<HostRecord>) -> (r: Batch)
        ensures
            r.wf(),
            r.hosts@ == hosts@,
            r.cursor == 0,
            r.current is None,
            r.reported == 0,
    {
        let r = Batch { hosts, cursor: 0, current: None, reported: 0 };
        assert(r.hosts@.take(0) =~= Seq::<HostRecord>::empty());
        r
    }

    /// Skips comment records and begins the next host: its first action, or
    /// at once its outcome where its method is unknown. `Finished` where no
    /// host is left; by then one outcome has been reported for each record
    /// that is not a comment. The host's file is stamped with `stamp`.
    pub fn next_host(&mut self, stamp: &Stamp) -> (r: Command)
        requires
            old(self).wf(),
            old(self).current is None,
        ensures
            final(self).wf(),
            final(self).hosts@ == old(self).hosts@,
            r is Finished <==> forall|i: int|
                old(self).cursor <= i < old(self).hosts@.len() ==> is_comment_name(
                    #[trigger] old(self).hosts@[i].name@,
                ),
            r is Finished ==> {
                &&& final(self).reported == non_comment_count(old(self).hosts@)
                &&& final(self).current is None
            },
            r !is Finished ==> {
                let h = old(self).hosts@[final(self).cursor - 1];
                &&& old(self).cursor < final(self).cursor
                &&& !is_comment_name(h.name@)
                &&& forall|i: int|
                    old(self).cursor <= i < final(self).cursor - 1 ==> is_comment_name(
                        #[trigger] old(self).hosts@[i].name@,
                    )
                &&& (r is Report <==> method_of(h.method@) is None)
                &&& (r matches Command::Report(o) ==> {
                    &&& o.host@ == h.name@
                    &&& o.status matches Status::Failed { kind, .. }
                    &&& o.status matches Status::Failed { cause, .. }
                    &&& cause@ == unknown_method_cause(h.method@)
                    &&& kind == FailureKind::UnknownMethod
                    &&& final(self).reported == old(self).reported + 1
                    &&& final(self).current is None
                })
                &&& (r matches Command::Perform(a) ==> {
                    &&& final(self).reported == old(self).reported
                    &&& final(self).current matches Some(run)
                    &&& method_of(h.method@) == Some(run.method)
                    &&& begun(&h, run.method, *stamp, run, a)
                })
            },
    {
        let n = self.hosts.len();
        while self.cursor < n && self.hosts[self.cursor].is_comment()
            invariant
                self.wf(),
                self.current is None,
                self.hosts@ == old(self).hosts@,
                self.reported == old(self).reported,
                n == self.hosts@.len(),
                old(self).cursor <= self.cursor <= n,
                forall|i: int|
                    old(self).cursor <= i < self.cursor ==> is_comment_name(
                        #[trigger] self.hosts@[i].name@,
                    ),
            decreases n - self.cursor,
        {
            proof {
                lemma_count_step(self.hosts@, self.cursor as int);
            }
            self.cursor = self.cursor + 1;
        }
        if self.cursor == n {
            assert(self.hosts@.take(n as int) =~= self.hosts@);
            return Command::Finished;
        }
        proof {
            lemma_count_step(self.hosts@, self.cursor as int);
            lemma_count_bounded(self.hosts@.take(self.cursor as int));
        }
        let c = self.cursor;
        self.cursor = c + 1;
        match backup_host(&self.hosts[c], stamp) {
            Some(Err(o)) => {
                self.reported = self.reported + 1;
                Command::Report(o)
            },
            Some(Ok((run, a))) => {
                self.current = Some(run);
                Command::Perform(a)
            },
            // The loop above stopped on a record that is not a comment.
            None => Command::Finished,
        }
    }

    /// Hands the event of the last action to the host in progress. Its
    /// outcome, once there is one, is reported, and the batch is then ready
    /// for the next host whatever that outcome was.
    pub fn resume(&mut self, ev: Event) -> (r: Command)
        requires
            old(self).wf(),
            old(self).current is Some,
        ensures
            final(self).wf(),
            final(self).hosts@ == old(self).hosts@,
            final(self).cursor == old(self).cursor,
            r !is Finished,
            r is Report <==> final(self).current is None,
            r is Report ==> final(self).reported == old(self).reported + 1,
            r is Perform ==> final(self).reported == old(self).reported,
            r matches Command::Report(o) ==> o.host@ == old(self).hosts@[old(self).cursor - 1].name@,
            r matches Command::Perform(a) ==> {
                &&& final(self).current matches Some(post)
                &&& stepped(old(self).current->0, ev, post, a)
            },
            step_failure(old(self).current->0.last_stage(), ev) is Some ==> {
                &&& r is Report
                &&& final(self).current is None
            },
            r matches Command::Report(o) ==> exists|post: HostRun|
                #[trigger] stepped(old(self).current->0, ev, post, Action::Finish(o)),
    {
        proof {
            lemma_count_bounded(self.hosts@.take(self.cursor as int));
        }
        let mut run = self.current.take().unwrap();
        let ghost pre = run;
        let ghost event = ev;
        let a = run.step(ev);
        match a {
            Action::Finish(o) => {
                assert(stepped(pre, event, run, Action::Finish(o)));
                self.reported = self.reported + 1;
                Command::Report(o)
            },
            _ => {
                self.current = Some(run);
                Command::Perform(a)
            },
        }
    }
}

} // verus!
