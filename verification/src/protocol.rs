//! The rules of the sink, as mathematics.
//!
//! The sink does no input or output itself. Each write call is a short
//! dialogue: the sink names an [`Action`], its caller performs it on the open
//! file and reports how it went, and the sink names the next one, until the
//! action is [`Action::Write`] or [`Action::Fail`]. The first part of this
//! module says which action follows which report. The sink's own functions
//! are verified against it.
//!
//! The second part puts the dialogue together: what a whole write call comes
//! to ([`write_call`]), and what a history of hangups and write calls comes
//! to ([`run`]). It speaks of a caller that does as the sink says, and of a
//! flag that a hangup raises and the start of a write call lowers. The flag
//! itself is shared with the signal handler, and the verifier sees nothing of
//! what it holds: [`World::raised`] is what it holds by these rules.

use vstd::prelude::*;
use std::path::PathBuf;
use std::sync::Arc;
use std::sync::atomic::AtomicBool;
use signal_hook::SigId;
use crate::error::Error;

verus! {

/// What a sink is, to its contracts.
pub struct Sink<H> {
    /// Where the file is opened, the first time and on every rotation.
    pub path: PathBuf,
    /// The open file, if the sink holds one.
    pub handle: Option<H>,
    /// The flag that a hangup raises and the next write call reads and
    /// clears. Which flag it is never changes; what it holds is not the
    /// sink's to know before it has read it.
    pub flag: Arc<AtomicBool>,
    /// The token of the action that raises the flag.
    pub subscription: SigId,
}

/// What the caller of the sink is to do next in a write call.
#[derive(Debug)]
pub enum Action {
    /// Synchronize the open file to storage, then report with `synced`.
    Sync,
    /// Open the file at the sink's path once more, in the mode in which it
    /// was opened the first time, then report with `reopened`.
    Reopen,
    /// Hand the payload to the open file and return what that returns. This
    /// ends the call.
    Write,
    /// Return this error. This ends the call.
    Fail(Error),
}

/// The first action of a write call, given whether a rotation was requested
/// since the last one. A closed sink refuses the call; a request starts a
/// rotation; otherwise the payload goes to the open file at once.
pub open spec fn first_action<H>(s: Sink<H>, requested: bool) -> Action {
    if s.handle is None {
        Action::Fail(Error::Closed)
    } else if requested {
        Action::Sync
    } else {
        Action::Write
    }
}

/// The sink and the next action after the open file was synchronized with
/// `outcome`. On success the old file is given up, before the new one is
/// opened; on failure it is kept and the call ends.
pub open spec fn after_sync<H>(s: Sink<H>, outcome: Result<(), std::io::Error>) -> (Sink<H>, Action) {
    match outcome {
        Ok(_) => (Sink { handle: None, ..s }, Action::Reopen),
        Err(e) => (s, Action::Fail(Error::Sync(e))),
    }
}

/// The sink and the next action after the file at the sink's path was opened
/// with `outcome`. On success the new file takes the place of whatever the
/// sink held; on failure the sink is left as it was and the call ends.
pub open spec fn after_open<H>(s: Sink<H>, outcome: Result<H, std::io::Error>) -> (Sink<H>, Action) {
    match outcome {
        Ok(h) => (Sink { handle: Some(h), ..s }, Action::Write),
        Err(e) => (s, Action::Fail(Error::Open(e))),
    }
}

/// What the outside answers in the course of one write call, if it is asked.
pub struct Answers<H> {
    /// How synchronizing the open file goes.
    pub sync: Result<(), std::io::Error>,
    /// How opening the file at the sink's path goes.
    pub open: Result<H, std::io::Error>,
}

/// One step of a write call: the action that the sink named, and the file
/// that it held when it named it, which is the file that the action is
/// performed on.
pub struct Step<H> {
    /// What the sink named.
    pub action: Action,
    /// What the sink held at that moment.
    pub file: Option<H>,
}

/// How many more actions can follow `action` in one call.
pub open spec fn rank(action: Action) -> nat {
    match action {
        Action::Sync => 2,
        Action::Reopen => 1,
        Action::Write => 0,
        Action::Fail(_) => 0,
    }
}

/// The sink at the end of a write call that has come to `action`, and the
/// steps taken from there on, in order: the caller performs `action`,
/// reports the outside's answer, and goes on with what the sink names next.
pub open spec fn perform<H>(s: Sink<H>, action: Action, answers: Answers<H>) -> (Sink<H>, Seq<Step<H>>)
    decreases rank(action),
{
    let step = Step { action, file: s.handle };
    match action {
        Action::Sync => {
            let (next_sink, next) = after_sync(s, answers.sync);
            let (last_sink, rest) = perform(next_sink, next, answers);
            (last_sink, seq![step] + rest)
        },
        Action::Reopen => {
            let (next_sink, next) = after_open(s, answers.open);
            let (last_sink, rest) = perform(next_sink, next, answers);
            (last_sink, seq![step] + rest)
        },
        Action::Write => (s, seq![step]),
        Action::Fail(_) => (s, seq![step]),
    }
}

/// The sink after one whole write call, and the steps that the call took, in
/// order, given whether a rotation was requested.
pub open spec fn write_call<H>(s: Sink<H>, requested: bool, answers: Answers<H>) -> (
    Sink<H>,
    Seq<Step<H>>,
) {
    perform(s, first_action(s, requested), answers)
}

/// A sink and what its flag holds.
pub struct World<H> {
    /// The sink.
    pub sink: Sink<H>,
    /// Whether a hangup arrived since the flag was last read and cleared.
    pub raised: bool,
}

/// What happens to a sink.
pub enum Event<H> {
    /// The process is sent a hangup signal.
    Hangup,
    /// The sink's owner makes a write call, in the course of which the
    /// outside answers as given.
    Write(Answers<H>),
}

/// The world after `event`, and the steps that it took. A hangup raises the
/// flag and does nothing else. A write call reads the flag, clears it, and
/// goes the way of [`write_call`].
pub open spec fn on_event<H>(w: World<H>, event: Event<H>) -> (World<H>, Seq<Step<H>>) {
    match event {
        Event::Hangup => (World { raised: true, ..w }, Seq::empty()),
        Event::Write(answers) => {
            let (sink, steps) = write_call(w.sink, w.raised, answers);
            (World { sink, raised: false }, steps)
        },
    }
}

/// The world after `events`, one after the other, and the steps of each.
pub open spec fn run<H>(w: World<H>, events: Seq<Event<H>>) -> (World<H>, Seq<Seq<Step<H>>>)
    decreases events.len(),
{
    if events.len() == 0 {
        (w, Seq::empty())
    } else {
        let (before, traces) = run(w, events.drop_last());
        let (after, trace) = on_event(before, events.last());
        (after, traces.push(trace))
    }
}

} // verus!
