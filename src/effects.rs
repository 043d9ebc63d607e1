//! Host-side effect handlers and the runner's bookkeeping around an attempt.
//! A guest request is routed by its tag: logging never touches the log,
//! every other effect goes through the replay primitive. What only the host's
//! environment can do (an HTTP exchange, a float draw) is handed back to the
//! caller as a step to perform, whose outcome is then recorded.
use crate::abi::{Content, GuestToHost, HostToGuest, Level, Request, Scalar, ScalarModel, WorkflowError, ContentModel};
use crate::outside::{entropy_rng, fresh_id, wall_clock};
use crate::state::{next_attempt, replays, ExecutionModel, State};
use vstd::prelude::*;

verus! {

/// Severity of a diagnostic message.
#[derive(Clone, Copy, Debug, PartialEq, Eq, Structural)]
pub enum Severity {
    Trace,
    Debug,
    Info,
    Warn,
    Error,
}

/// Why the host refused a request.
#[derive(Clone, Copy, Debug, PartialEq, Eq, Structural)]
pub enum HostError {
    /// The reserved input effect is not implemented.
    InputUnsupported,
    /// Random strings are not supported.
    StringRandomUnsupported,
    /// The wall clock reads before the Unix epoch.
    ClockBeforeEpoch,
}

/// What the caller does next for a request.
#[derive(Debug)]
pub enum Step {
    /// Hand this response to the guest.
    Reply(HostToGuest),
    /// Emit this message, prefixed by the instance id, then hand the
    /// response to the guest.
    Print(Severity, String, HostToGuest),
    /// Perform this HTTP request and record its outcome with `State::complete`.
    Fetch(Request),
    /// Draw a 32-bit float from the instance's generator and record it with
    /// `State::complete`.
    DrawFloat,
}

pub open spec fn severity_of(level: Level) -> Severity {
    match level {
        Level::Trace(_) => Severity::Trace,
        Level::Debug(_) => Severity::Debug,
        Level::Info(_) => Severity::Info,
        Level::Warn(_) => Severity::Warn,
        Level::Error(_) => Severity::Error,
    }
}

pub open spec fn text_of(level: Level) -> Seq<char> {
    match level {
        Level::Trace(s) => s@,
        Level::Debug(s) => s@,
        Level::Info(s) => s@,
        Level::Warn(s) => s@,
        Level::Error(s) => s@,
    }
}

/// Splits a diagnostic message into its severity and its text.
pub fn split_level(level: Level) -> (r: (Severity, String))
    ensures
        r.0 == severity_of(level),
        r.1@ == text_of(level),
{
    match level {
        Level::Trace(s) => (Severity::Trace, s),
        Level::Debug(s) => (Severity::Debug, s),
        Level::Info(s) => (Severity::Info, s),
        Level::Warn(s) => (Severity::Warn, s),
        Level::Error(s) => (Severity::Error, s),
    }
}

/// The word that introduces a message of this severity.
pub fn severity_name(s: Severity) -> (r: &'static str)
    ensures
        s == Severity::Trace ==> r@ == "Trace"@,
        s == Severity::Debug ==> r@ == "Debug"@,
        s == Severity::Info ==> r@ == "Info"@,
        s == Severity::Warn ==> r@ == "Warn"@,
        s == Severity::Error ==> r@ == "Error"@,
{
    match s {
        Severity::Trace => "Trace",
        Severity::Debug => "Debug",
        Severity::Info => "Info",
        Severity::Warn => "Warn",
        Severity::Error => "Error",
    }
}

impl State {
    /// Handles one guest request against the current attempt.
    ///
    /// Logging yields a message to emit and a unit response, and leaves the
    /// state unchanged. Input and random strings are refused, leaving it
    /// unchanged. Any other request whose cursor entry stands as a success is
    /// answered with that entry's response, and the cursor advances. Otherwise
    /// a random bool or integer is drawn, or the clock read, and recorded; an
    /// HTTP request or a float draw is handed back to be performed, the state
    /// unchanged.
    pub fn call(&mut self, request: GuestToHost) -> (r: Result<Step, HostError>)
        requires
            old(self).wf(),
            old(self).started(),
        ensures
            final(self).wf(),
            match request {
                GuestToHost::Input => r == Err::<Step, HostError>(HostError::InputUnsupported)
                    && final(self)@ == old(self)@,
                GuestToHost::Random(Scalar::StringType(_)) => r == Err::<Step, HostError>(
                    HostError::StringRandomUnsupported,
                ) && final(self)@ == old(self)@,
                GuestToHost::Log(level) => final(self)@ == old(self)@ && match r {
                    Ok(Step::Print(s, text, m)) => s == severity_of(level) && text@ == text_of(
                        level,
                    ) && m@.content == ContentModel::Unit,
                    _ => false,
                },
                _ => if replays(old(self).current()) {
                    final(self)@ == old(self).after_replay() && match r {
                        Ok(Step::Reply(m)) => m@ == old(self).logged(),
                        _ => false,
                    }
                } else {
                    match request {
                        GuestToHost::Random(Scalar::BoolType(_)) => match r {
                            Ok(Step::Reply(m)) => m@.content matches ContentModel::Value(
                                ScalarModel::Bool(_),
                            ) && final(self)@ == old(self).after_record(m@),
                            _ => false,
                        },
                        GuestToHost::Random(Scalar::I32Type(_)) => match r {
                            Ok(Step::Reply(m)) => m@.content matches ContentModel::Value(
                                ScalarModel::I32(_),
                            ) && final(self)@ == old(self).after_record(m@),
                            _ => false,
                        },
                        GuestToHost::Random(Scalar::F32Type(_)) => (r matches Ok(Step::DrawFloat))
                            && final(self)@ == old(self)@,
                        GuestToHost::HttpRequest(q) => final(self)@ == old(self)@ && match r {
                            Ok(Step::Fetch(p)) => p == q,
                            _ => false,
                        },
                        _ => match r {
                            Ok(Step::Reply(m)) => match m@.content {
                                ContentModel::Time(t) => t.tv_nsec < 1_000_000_000
                                    && final(self)@ == old(self).after_record(m@),
                                _ => false,
                            },
                            Err(e) => e == HostError::ClockBeforeEpoch && final(self)@ == old(
                                self,
                            )@,
                            _ => false,
                        },
                    }
                },
            },
    {
        match request {
            GuestToHost::Input => Err(HostError::InputUnsupported),
            GuestToHost::Random(Scalar::StringType(_)) => Err(HostError::StringRandomUnsupported),
            GuestToHost::Log(level) => {
                let (s, text) = split_level(level);
                Ok(Step::Print(s, text, HostToGuest { id: fresh_id(), content: Content::Unit }))
            },
            GuestToHost::Random(kind) => {
                if let Some(m) = self.replay() {
                    return Ok(Step::Reply(m));
                }
                match kind {
                    Scalar::BoolType(_) => {
                        let v = self.draw_bool();
                        Ok(Step::Reply(self.complete(Content::Value(Scalar::BoolType(v)))))
                    },
                    Scalar::I32Type(_) => {
                        let v = self.draw_i32_bits();
                        Ok(Step::Reply(self.complete(Content::Value(Scalar::I32Type(v)))))
                    },
                    _ => Ok(Step::DrawFloat),
                }
            },
            GuestToHost::HttpRequest(q) => {
                match self.replay() {
                    Some(m) => Ok(Step::Reply(m)),
                    None => Ok(Step::Fetch(q)),
                }
            },
            GuestToHost::Time => {
                if let Some(m) = self.replay() {
                    return Ok(Step::Reply(m));
                }
                match wall_clock() {
                    Some(t) => Ok(Step::Reply(self.complete(Content::Time(t)))),
                    None => Err(HostError::ClockBeforeEpoch),
                }
            },
        }
    }

    /// Closes an attempt on the guest's result. Success keeps the state. A
    /// failure carrying a correlation id marks the entries with that id as
    /// failed. A failure without one returns the current attempt to its start:
    /// cursor at zero, log as the previous attempt left it.
    pub fn finish_attempt(&mut self, outcome: &Result<(), WorkflowError>)
        requires
            old(self).wf(),
            old(self).started(),
        ensures
            final(self).wf(),
            match outcome {
                Ok(_) => final(self)@ == old(self)@,
                Err(e) => match e.id {
                    Some(id) => final(self)@ == old(self)@.update(
                        old(self)@.len() - 1,
                        ExecutionModel {
                            position: old(self).current().position,
                            log: crate::state::mark_failed(old(self).current().log, id@),
                        },
                    ),
                    None => final(self)@ == old(self)@.update(
                        old(self)@.len() - 1,
                        next_attempt(old(self)@.drop_last()),
                    ),
                },
            },
    {
        match outcome {
            Ok(_) => {},
            Err(e) => match &e.id {
                Some(id) => self.set_failure(id.as_str()),
                None => self.restart_current(),
            },
        }
    }
}

impl Default for State {
    /// A fresh instance with a generator seeded from the operating system.
    fn default() -> (r: State)
        ensures
            r@.len() == 0,
            r.wf(),
    {
        State::new(entropy_rng())
    }
}

} // verus!
