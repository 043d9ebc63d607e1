//! Workflow state: the sequence of execution attempts, each with its cursor
//! and its append-only log of effect outcomes, and the replay primitive that
//! returns a recorded success or records a fresh outcome.
use crate::abi::{Content, HostToGuest, MessageModel, WallTime};
use crate::outside::{draw_bool, draw_i32_bits, fresh_id, wall_clock};
use vstd::prelude::*;

verus! {

/// Model of one log entry: whether it stands as a success, and the response.
pub struct LogEntry {
    pub success: bool,
    pub message: MessageModel,
}

/// Model of one attempt: its cursor and its log.
pub struct ExecutionModel {
    pub position: nat,
    pub log: Seq<LogEntry>,
}

/// One recorded effect outcome.
#[derive(Debug)]
pub struct LogMessage {
    created: WallTime,
    success: bool,
    message: HostToGuest,
}

impl View for LogMessage {
    type V = LogEntry;

    closed spec fn view(&self) -> LogEntry {
        LogEntry { success: self.success, message: self.message@ }
    }
}

/// A timestamp for a new record; the epoch where the clock reads before it.
fn stamp() -> (r: WallTime) {
    match wall_clock() {
        Some(t) => t,
        None => WallTime { tv_sec: 0, tv_nsec: 0 },
    }
}

impl LogMessage {
    /// A new log entry stamped with the current time.
    pub fn new(success: bool, message: HostToGuest) -> (r: LogMessage)
        ensures
            r@ == (LogEntry { success, message: message@ }),
    {
        LogMessage { created: stamp(), success, message }
    }

    /// Whether this entry stands as a success, to be replayed.
    pub fn success(&self) -> (r: bool)
        ensures
            r == self@.success,
    {
        self.success
    }

    /// The recorded response.
    pub fn message(&self) -> (r: &HostToGuest)
        ensures
            r@ == self@.message,
    {
        &self.message
    }

    /// When the entry was recorded.
    pub fn created(&self) -> (r: WallTime) {
        self.created
    }

    /// A copy with the same model and timestamp.
    pub fn copy(&self) -> (r: LogMessage)
        ensures
            r@ == self@,
    {
        LogMessage { created: self.created, success: self.success, message: self.message.copy() }
    }
}

pub open spec fn log_model(log: Seq<LogMessage>) -> Seq<LogEntry> {
    log.map_values(|m: LogMessage| m@)
}

/// One attempt of a workflow.
#[derive(Debug)]
pub struct Execution {
    id: String,
    created: WallTime,
    position: usize,
    log: Vec<LogMessage>,
}

impl View for Execution {
    type V = ExecutionModel;

    closed spec fn view(&self) -> ExecutionModel {
        ExecutionModel { position: self.position as nat, log: log_model(self.log@) }
    }
}

/// Copies a log entry by entry.
fn copy_log(log: &Vec<LogMessage>) -> (r: Vec<LogMessage>)
    ensures
        log_model(r@) == log_model(log@),
{
    let mut r: Vec<LogMessage> = Vec::with_capacity(log.len());
    let mut i: usize = 0;
    while i < log.len()
        invariant
            i <= log.len(),
            log_model(r@) =~= log_model(log@.subrange(0, i as int)),
        decreases log.len() - i,
    {
        let m = log[i].copy();
        let ghost before = r@;
        r.push(m);
        proof {
            assert(log@.subrange(0, i + 1) =~= log@.subrange(0, i as int).push(log@[i as int]));
            assert(r@ == before.push(m));
            assert(log_model(r@) =~= log_model(before).push(m@));
            assert(log_model(log@.subrange(0, i + 1)) =~= log_model(
                log@.subrange(0, i as int),
            ).push(log@[i as int]@));
        }
        i += 1;
    }
    proof {
        assert(log@.subrange(0, log@.len() as int) =~= log@);
    }
    r
}

impl Execution {
    /// A new attempt whose log starts as a copy of `log`, cursor at zero.
    fn new(log: &Vec<LogMessage>) -> (r: Execution)
        ensures
            r@ == (ExecutionModel { position: 0, log: log_model(log@) }),
    {
        Execution { id: fresh_id(), created: stamp(), position: 0, log: copy_log(log) }
    }

    /// The cursor.
    pub fn position(&self) -> (r: usize)
        ensures
            r == self@.position,
    {
        self.position
    }

    /// The number of log entries.
    pub fn len(&self) -> (r: usize)
        ensures
            r == self@.log.len(),
    {
        self.log.len()
    }

    /// The log entry at `index`.
    pub fn entry(&self, index: usize) -> (r: &LogMessage)
        requires
            index < self@.log.len(),
        ensures
            r@ == self@.log[index as int],
    {
        &self.log[index]
    }

    /// This attempt's id.
    pub fn id(&self) -> (r: &String) {
        &self.id
    }
}

/// The entry that a fresh performance records.
pub open spec fn fresh_entry(m: MessageModel) -> LogEntry {
    LogEntry { success: true, message: m }
}

/// Whether the effect at the cursor is answered from the log: an entry
/// exists there and stands as a success.
pub open spec fn replays(e: ExecutionModel) -> bool {
    e.position < e.log.len() && e.log[e.position as int].success
}

/// The attempt after a fresh outcome `m` was recorded at the cursor: a failed
/// entry there is overwritten, at the end of the log the entry is appended.
pub open spec fn record_at(e: ExecutionModel, m: MessageModel) -> ExecutionModel {
    ExecutionModel {
        position: e.position + 1,
        log: if e.position < e.log.len() {
            e.log.update(e.position as int, fresh_entry(m))
        } else {
            e.log.push(fresh_entry(m))
        },
    }
}

/// The attempt after a replay: only the cursor moves.
pub open spec fn advanced(e: ExecutionModel) -> ExecutionModel {
    ExecutionModel { position: e.position + 1, log: e.log }
}

/// One effect at the cursor, where `fresh` is what performing it would give:
/// the response the guest observes and the attempt afterwards.
pub open spec fn effect(e: ExecutionModel, fresh: MessageModel) -> (MessageModel, ExecutionModel) {
    if replays(e) {
        (e.log[e.position as int].message, advanced(e))
    } else {
        (fresh, record_at(e, fresh))
    }
}

/// The log with every entry whose response carries `id` marked as failed.
pub open spec fn mark_failed(log: Seq<LogEntry>, id: Seq<char>) -> Seq<LogEntry> {
    Seq::new(
        log.len(),
        |k: int|
            if log[k].message.id == id {
                LogEntry { success: false, message: log[k].message }
            } else {
                log[k]
            },
    )
}

/// A copy of `log` with every entry whose response carries `id` marked as failed.
fn marked_failed(log: &Vec<LogMessage>, id: &String) -> (r: Vec<LogMessage>)
    ensures
        log_model(r@) == mark_failed(log_model(log@), id@),
{
    let mut r: Vec<LogMessage> = Vec::with_capacity(log.len());
    let mut i: usize = 0;
    while i < log.len()
        invariant
            i <= log.len(),
            log_model(r@) =~= mark_failed(log_model(log@), id@).subrange(0, i as int),
        decreases log.len() - i,
    {
        let mut m = log[i].copy();
        if m.message.id == *id {
            m.success = false;
        }
        let ghost before = r@;
        r.push(m);
        proof {
            assert(r@ == before.push(m));
            assert(log_model(r@) =~= log_model(before).push(m@));
            assert(mark_failed(log_model(log@), id@).subrange(0, i + 1) =~= mark_failed(
                log_model(log@),
                id@,
            ).subrange(0, i as int).push(m@));
        }
        i += 1;
    }
    proof {
        assert(mark_failed(log_model(log@), id@).subrange(0, log@.len() as int) =~= mark_failed(
            log_model(log@),
            id@,
        ));
    }
    r
}

/// The attempt that follows `attempts`: cursor at zero, log copied from the
/// latest attempt, or empty for the first.
pub open spec fn next_attempt(attempts: Seq<ExecutionModel>) -> ExecutionModel {
    ExecutionModel {
        position: 0,
        log: if attempts.len() > 0 {
            attempts.last().log
        } else {
            Seq::empty()
        },
    }
}

/// The state of one workflow instance.
#[derive(Debug)]
pub struct State {
    id: String,
    created: WallTime,
    executions: Vec<Execution>,
    /// The generator shared by all attempts of this instance.
    pub rng: rand::rngs::StdRng,
}

impl View for State {
    type V = Seq<ExecutionModel>;

    closed spec fn view(&self) -> Seq<ExecutionModel> {
        self.executions@.map_values(|e: Execution| e@)
    }
}

impl State {
    /// Every cursor lies within its log.
    pub open spec fn wf(&self) -> bool {
        forall|k: int|
            0 <= k < self@.len() ==> #[trigger] self@[k].position <= self@[k].log.len()
    }

    /// Whether an attempt has been started.
    pub open spec fn started(&self) -> bool {
        self@.len() > 0
    }

    /// The current attempt.
    pub open spec fn current(&self) -> ExecutionModel {
        self@.last()
    }

    /// The logged response at the cursor of the current attempt.
    pub open spec fn logged(&self) -> MessageModel {
        self.current().log[self.current().position as int].message
    }

    /// The state after the current attempt replayed its cursor's entry.
    pub open spec fn after_replay(&self) -> Seq<ExecutionModel> {
        self@.update(self@.len() - 1, advanced(self.current()))
    }

    /// The state after `m` was recorded at the current attempt's cursor.
    pub open spec fn after_record(&self, m: MessageModel) -> Seq<ExecutionModel> {
        self@.update(self@.len() - 1, record_at(self.current(), m))
    }

    /// A fresh instance: new id, no attempts, the given generator.
    pub fn new(rng: rand::rngs::StdRng) -> (r: State)
        ensures
            r@.len() == 0,
            r.wf(),
    {
        let r = State { id: fresh_id(), created: stamp(), executions: Vec::new(), rng };
        proof {
            assert(r@ =~= Seq::<ExecutionModel>::empty());
        }
        r
    }

    /// Replaces the generator; the attempts stay as they are.
    pub fn with_rng(self, rng: rand::rngs::StdRng) -> (r: State)
        ensures
            r@ == self@,
    {
        State { rng, ..self }
    }

    /// This instance's id.
    pub fn id(&self) -> (r: &String) {
        &self.id
    }

    /// The number of attempts.
    pub fn attempts(&self) -> (r: usize)
        ensures
            r == self@.len(),
    {
        self.executions.len()
    }

    /// The attempt at `index`.
    pub fn execution_at(&self, index: usize) -> (r: &Execution)
        requires
            index < self@.len(),
        ensures
            r@ == self@[index as int],
    {
        &self.executions[index]
    }

    /// Begins an attempt whose log is a copy of the latest attempt's log,
    /// success flags included, with its cursor at zero.
    pub fn start_execution(&mut self)
        requires
            old(self).wf(),
        ensures
            final(self).wf(),
            final(self)@ == old(self)@.push(next_attempt(old(self)@)),
    {
        let n = self.executions.len();
        let e = if n > 0 {
            Execution::new(&self.executions[n - 1].log)
        } else {
            Execution::new(&Vec::new())
        };
        proof {
            if n == 0 {
                assert(log_model(Seq::<LogMessage>::empty()) =~= Seq::<LogEntry>::empty());
            }
        }
        self.executions.push(e);
        proof {
            assert(self@ =~= old(self)@.push(next_attempt(old(self)@)));
        }
    }

    /// The replay branch: where the entry at the cursor stands as a success,
    /// its response is returned unchanged and the cursor advances; otherwise
    /// nothing changes and `None` is returned.
    pub fn replay(&mut self) -> (r: Option<HostToGuest>)
        requires
            old(self).wf(),
            old(self).started(),
        ensures
            final(self).wf(),
            final(self)@.len() == old(self)@.len(),
            match r {
                Some(m) => {
                    &&& replays(old(self).current())
                    &&& m@ == old(self).logged()
                    &&& final(self)@ == old(self).after_replay()
                },
                None => !replays(old(self).current()) && final(self)@ == old(self)@,
            },
    {
        let last = self.executions.len() - 1;
        let p = self.executions[last].position;
        if p < self.executions[last].log.len() && self.executions[last].log[p].success {
            let m = self.executions[last].log[p].message.copy();
            self.executions[last].position = p + 1;
            proof {
                assert(self@ =~= old(self)@.update(last as int, advanced(old(self).current())));
                assert(self@[last as int].position <= self@[last as int].log.len());
            }
            Some(m)
        } else {
            None
        }
    }

    /// The perform branch: records a fresh outcome at the cursor, overwriting
    /// a failed entry there or appending at the end, and advances the cursor.
    /// Returns a copy of the recorded response.
    pub fn record(&mut self, message: HostToGuest) -> (r: HostToGuest)
        requires
            old(self).wf(),
            old(self).started(),
            !replays(old(self).current()),
        ensures
            final(self).wf(),
            r == message,
            final(self)@ == old(self).after_record(message@),
    {
        let last = self.executions.len() - 1;
        let p = self.executions[last].position;
        let entry = LogMessage::new(true, message.copy());
        let ghost old_log = self.executions@[last as int].log@;
        assert(self@[last as int].position <= self@[last as int].log.len());
        if p < self.executions[last].log.len() {
            self.executions[last].log.set(p, entry);
            proof {
                assert(log_model(self.executions@[last as int].log@) =~= log_model(old_log).update(
                    p as int,
                    fresh_entry(message@),
                ));
            }
        } else {
            self.executions[last].log.push(entry);
            assert(p < self.executions@[last as int].log@.len());
            proof {
                assert(log_model(self.executions@[last as int].log@) =~= log_model(old_log).push(
                    fresh_entry(message@),
                ));
            }
        }
        let new_len = self.executions[last].log.len();
        assert(p < new_len);
        self.executions[last].position = p + 1;
        proof {
            assert(self@ =~= old(self)@.update(
                last as int,
                record_at(old(self).current(), message@),
            ));
            assert(self@[last as int].position <= self@[last as int].log.len());
        }
        message
    }

    /// Returns the logged success at the cursor, else performs `f` and records
    /// its outcome. The cursor advances by one on every `Ok`; where `f` fails
    /// nothing changes.
    pub fn retrieve_or_else<F, E>(&mut self, f: F) -> (r: Result<HostToGuest, E>) where
        F: FnOnce() -> Result<HostToGuest, E>,
        requires
            old(self).wf(),
            old(self).started(),
            !replays(old(self).current()) ==> f.requires(()),
        ensures
            final(self).wf(),
            match r {
                Ok(m) => {
                    &&& replays(old(self).current()) ==> m@ == old(self).logged() && final(self)@
                        == old(self).after_replay()
                    &&& !replays(old(self).current()) ==> f.ensures((), Ok::<HostToGuest, E>(m))
                        && final(self)@ == old(self).after_record(m@)
                },
                Err(e) => {
                    &&& !replays(old(self).current())
                    &&& f.ensures((), Err::<HostToGuest, E>(e))
                    &&& final(self)@ == old(self)@
                },
            },
    {
        match self.replay() {
            Some(m) => Ok(m),
            None => {
                let fresh = f();
                match fresh {
                    Ok(m) => Ok(self.record(m)),
                    Err(e) => Err(e),
                }
            },
        }
    }

    /// Records a freshly performed outcome under a new correlation id.
    pub fn complete(&mut self, content: Content) -> (r: HostToGuest)
        requires
            old(self).wf(),
            old(self).started(),
            !replays(old(self).current()),
        ensures
            final(self).wf(),
            r@.content == content@,
            final(self)@ == old(self).after_record(r@),
    {
        let message = HostToGuest { id: fresh_id(), content };
        self.record(message)
    }

    /// One boolean drawn from the instance's generator; the attempts stay.
    pub fn draw_bool(&mut self) -> (r: bool)
        ensures
            final(self)@ == old(self)@,
    {
        draw_bool(&mut self.rng)
    }

    /// One 32-bit integer drawn from the instance's generator, as its bit
    /// pattern; the attempts stay.
    pub fn draw_i32_bits(&mut self) -> (r: u32)
        ensures
            final(self)@ == old(self)@,
    {
        draw_i32_bits(&mut self.rng)
    }

    /// Returns the current attempt to its start: cursor at zero and the log
    /// that the previous attempt left, or an empty one.
    pub fn restart_current(&mut self)
        requires
            old(self).wf(),
            old(self).started(),
        ensures
            final(self).wf(),
            final(self)@ == old(self)@.update(
                old(self)@.len() - 1,
                next_attempt(old(self)@.drop_last()),
            ),
    {
        let last = self.executions.len() - 1;
        let log = if last > 0 {
            copy_log(&self.executions[last - 1].log)
        } else {
            Vec::new()
        };
        proof {
            if last == 0 {
                assert(log_model(log@) =~= Seq::<LogEntry>::empty());
            }
        }
        self.executions[last].log = log;
        self.executions[last].position = 0;
        proof {
            assert(self@ =~= old(self)@.update(last as int, next_attempt(old(self)@.drop_last())));
        }
    }

    /// Marks every entry of the current attempt whose response carries `id`
    /// as failed; nothing else changes.
    pub fn set_failure(&mut self, id: &str)
        requires
            old(self).wf(),
        ensures
            final(self).wf(),
            old(self)@.len() == 0 ==> final(self)@ == old(self)@,
            old(self)@.len() > 0 ==> final(self)@ == old(self)@.update(
                old(self)@.len() - 1,
                ExecutionModel {
                    position: old(self).current().position,
                    log: mark_failed(old(self).current().log, id@),
                },
            ),
    {
        let n = self.executions.len();
        if n == 0 {
            return ;
        }
        let last = n - 1;
        let target = id.to_owned();
        let marked = marked_failed(&self.executions[last].log, &target);
        self.executions[last].log = marked;
        proof {
            assert(self@ =~= old(self)@.update(
                last as int,
                ExecutionModel {
                    position: old(self).current().position,
                    log: mark_failed(old(self).current().log, id@),
                },
            ));
            assert(self@[last as int].position <= self@[last as int].log.len());
        }
    }
}

} // verus!
