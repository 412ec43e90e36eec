//! What the rules of [`crate::protocol`] come to, proved of every sink,
//! every answer of the outside and every history.

use vstd::prelude::*;
use crate::error::Error;
use crate::protocol::{on_event, perform, run, write_call, Action, Answers, Event, Sink, Step, World};

verus! {

/// The steps of a write call that only hands its payload to `file`.
pub open spec fn plain_write<H>(file: H) -> Seq<Step<H>> {
    seq![Step { action: Action::Write, file: Some(file) }]
}

/// The steps of a write call that rotates from `old` to `new` and then hands
/// its payload to `new`: `old` is synchronized, the sink holds no file while
/// the path is opened, and `new` is written to.
pub open spec fn rotated_write<H>(old: H, new: H) -> Seq<Step<H>> {
    seq![
        Step { action: Action::Sync, file: Some(old) },
        Step { action: Action::Reopen, file: None },
        Step { action: Action::Write, file: Some(new) },
    ]
}

/// The steps of a write call that stops at the synchronization of `old`,
/// which failed with `e`.
pub open spec fn failed_sync<H>(old: H, e: std::io::Error) -> Seq<Step<H>> {
    seq![
        Step { action: Action::Sync, file: Some(old) },
        Step { action: Action::Fail(Error::Sync(e)), file: Some(old) },
    ]
}

/// The steps of a write call that synchronizes `old`, gives it up and stops
/// at the reopening, which failed with `e`.
pub open spec fn failed_reopen<H>(old: H, e: std::io::Error) -> Seq<Step<H>> {
    seq![
        Step { action: Action::Sync, file: Some(old) },
        Step { action: Action::Reopen, file: None },
        Step { action: Action::Fail(Error::Open(e)), file: None },
    ]
}

/// The one step of a write call on a closed sink.
pub open spec fn refused<H>() -> Seq<Step<H>> {
    seq![Step { action: Action::Fail(Error::Closed), file: None }]
}

/// A history of `n` hangups and nothing else.
pub open spec fn hangups<H>(n: nat) -> Seq<Event<H>> {
    Seq::new(n, |i: int| Event::Hangup)
}

/// A write call without a request hands its payload to the open file and
/// does nothing else: no synchronization, no reopening, and the sink is as
/// before.
pub proof fn lemma_write_without_request<H>(s: Sink<H>, answers: Answers<H>)
    requires
        s.handle is Some,
    ensures
        write_call(s, false, answers) == (s, plain_write(s.handle->0)),
{
}

/// A write call with a request, on a sink that holds a file, goes through
/// one synchronization of that file and one reopening, in this order and
/// before the payload is written, if both succeed. The payload goes to the
/// new file, which the sink holds from then on.
pub proof fn lemma_request_rotates_once<H>(s: Sink<H>, answers: Answers<H>)
    requires
        s.handle is Some,
        answers.sync is Ok,
        answers.open is Ok,
    ensures
        write_call(s, true, answers) == (
            Sink { handle: Some(answers.open->Ok_0), ..s },
            rotated_write(s.handle->0, answers.open->Ok_0),
        ),
{
    reveal_with_fuel(perform, 3);
}

/// Where the synchronization fails, the write call ends with that failure.
/// The payload is not written, the path is not opened, and the sink keeps
/// the file it held.
pub proof fn lemma_failed_sync_keeps_file<H>(s: Sink<H>, answers: Answers<H>)
    requires
        s.handle is Some,
        answers.sync is Err,
    ensures
        write_call(s, true, answers) == (s, failed_sync(s.handle->0, answers.sync->Err_0)),
{
    reveal_with_fuel(perform, 2);
}

/// Where the synchronization succeeds and the reopening fails, the write
/// call ends with that failure. The payload is not written, and the sink is
/// left closed: the old file was given up before the new one was asked for.
pub proof fn lemma_failed_reopen_closes<H>(s: Sink<H>, answers: Answers<H>)
    requires
        s.handle is Some,
        answers.sync is Ok,
        answers.open is Err,
    ensures
        write_call(s, true, answers) == (
            Sink { handle: None, ..s },
            failed_reopen(s.handle->0, answers.open->Err_0),
        ),
{
    reveal_with_fuel(perform, 3);
}

/// A closed sink stays closed. Every write call on it fails at once,
/// requested or not and whatever the outside would answer: nothing is
/// synchronized, opened or written.
pub proof fn lemma_closed_sink_refuses<H>(s: Sink<H>, requested: bool, answers: Answers<H>)
    requires
        s.handle is None,
    ensures
        write_call(s, requested, answers) == (s, refused::<H>()),
{
}

/// No write call rotates twice. Whatever the sink, the request and the
/// answers, a call takes three steps at most; only the first can be a
/// synchronization and only the second a reopening, and the call ends with
/// its first write or failure.
pub proof fn lemma_one_rotation_at_most<H>(s: Sink<H>, requested: bool, answers: Answers<H>)
    ensures
        ({
            let steps = write_call(s, requested, answers).1;
            &&& 1 <= steps.len() <= 3
            &&& forall|i: int| 0 <= i < steps.len() && (#[trigger] steps[i]).action is Sync ==> i == 0
            &&& forall|i: int|
                0 <= i < steps.len() && (#[trigger] steps[i]).action is Reopen ==> i == 1
            &&& forall|i: int|
                0 <= i < steps.len() ==> (((#[trigger] steps[i]).action is Write
                    || steps[i].action is Fail) <==> i == steps.len() - 1)
        }),
{
    if s.handle is None {
        lemma_closed_sink_refuses(s, requested, answers);
    } else if !requested {
        lemma_write_without_request(s, answers);
    } else if answers.sync is Err {
        lemma_failed_sync_keeps_file(s, answers);
    } else if answers.open is Err {
        lemma_failed_reopen_closes(s, answers);
    } else {
        lemma_request_rotates_once(s, answers);
    }
}

/// A write call leaves the flag cleared, however the call ends. A failed
/// rotation is not tried again by the next call.
pub proof fn lemma_write_clears_flag<H>(w: World<H>, answers: Answers<H>)
    ensures
        !on_event(w, Event::Write(answers)).0.raised,
{
}

/// A hangup before a write call, at whatever time since the call before,
/// makes that call rotate once before it writes, if the sink holds a file
/// and the outside plays along. After the call the flag is cleared and the
/// sink holds the new file.
pub proof fn lemma_hangup_rotates_once<H>(w: World<H>, answers: Answers<H>)
    requires
        w.raised,
        w.sink.handle is Some,
        answers.sync is Ok,
        answers.open is Ok,
    ensures
        on_event(w, Event::Write(answers)) == (
            World { sink: Sink { handle: Some(answers.open->Ok_0), ..w.sink }, raised: false },
            rotated_write(w.sink.handle->0, answers.open->Ok_0),
        ),
{
    lemma_request_rotates_once(w.sink, answers);
}

/// A history that ends with `last` is the history before it, then `last`.
pub proof fn lemma_run_to_last<H>(w: World<H>, before: Seq<Event<H>>, last: Event<H>)
    ensures
        run(w, before.push(last)).0 == on_event(run(w, before).0, last).0,
        run(w, before.push(last)).1 == run(w, before).1.push(on_event(run(w, before).0, last).1),
{
    assert(before.push(last).drop_last() =~= before);
}

/// A history that begins with `first` is `first`, then the history after it
/// in the world that `first` leaves.
pub proof fn lemma_run_from_first<H>(w: World<H>, first: Event<H>, later: Seq<Event<H>>)
    ensures
        run(w, seq![first] + later).0 == run(on_event(w, first).0, later).0,
        run(w, seq![first] + later).1 == seq![on_event(w, first).1] + run(
            on_event(w, first).0,
            later,
        ).1,
    decreases later.len(),
{
    let all = seq![first] + later;
    if later.len() == 0 {
        assert(all.drop_last() =~= Seq::<Event<H>>::empty());
        assert(run(w, all.drop_last()) == (w, Seq::<Seq<Step<H>>>::empty()));
    } else {
        assert(all.drop_last() =~= seq![first] + later.drop_last());
        lemma_run_from_first(w, first, later.drop_last());
    }
}

/// While no hangup arrives, every write call hands its payload to the one
/// file that the sink held at the start, in the order of the calls, and
/// nothing else is done to that file or to the sink.
pub proof fn lemma_writes_without_hangup<H>(w: World<H>, calls: Seq<Event<H>>)
    requires
        !w.raised,
        w.sink.handle is Some,
        forall|i: int| 0 <= i < calls.len() ==> #[trigger] calls[i] is Write,
    ensures
        run(w, calls).0 == w,
        run(w, calls).1 == Seq::new(calls.len(), |i: int| plain_write(w.sink.handle->0)),
    decreases calls.len(),
{
    if calls.len() > 0 {
        lemma_writes_without_hangup(w, calls.drop_last());
        lemma_write_without_request(w.sink, calls.last()->Write_0);
    }
}

/// Hangups coalesce. However many arrive between two write calls, one or
/// more, the flag is raised once and the sink is left alone: the write call
/// that follows them is the one that follows a single hangup.
pub proof fn lemma_hangups_coalesce<H>(w: World<H>, n: nat)
    requires
        n >= 1,
    ensures
        run(w, hangups(n)).0 == on_event(w, Event::Hangup).0,
        run(w, hangups(n)).0 == (World { raised: true, ..w }),
        run(w, hangups(n)).1 == Seq::new(n, |i: int| Seq::<Step<H>>::empty()),
    decreases n,
{
    let fewer = hangups::<H>((n - 1) as nat);
    assert(hangups::<H>(n) =~= fewer.push(Event::Hangup));
    lemma_run_to_last(w, fewer, Event::Hangup);
    if n > 1 {
        lemma_hangups_coalesce(w, (n - 1) as nat);
    }
}

/// Any number of hangups and then a write call come to one rotation: the
/// steps of the whole history are those of the one call, which rotates once,
/// and the call after it finds the flag cleared.
pub proof fn lemma_hangups_rotate_once<H>(w: World<H>, n: nat, answers: Answers<H>)
    requires
        n >= 1,
        w.sink.handle is Some,
        answers.sync is Ok,
        answers.open is Ok,
    ensures
        run(w, hangups(n).push(Event::Write(answers))).0 == (World {
            sink: Sink { handle: Some(answers.open->Ok_0), ..w.sink },
            raised: false,
        }),
        run(w, hangups(n).push(Event::Write(answers))).1 == Seq::new(
            n,
            |i: int| Seq::<Step<H>>::empty(),
        ).push(rotated_write(w.sink.handle->0, answers.open->Ok_0)),
{
    lemma_hangups_coalesce(w, n);
    lemma_run_to_last(w, hangups(n), Event::Write(answers));
    lemma_hangup_rotates_once(World { raised: true, ..w }, answers);
}

/// After a rotation the new file is the sink's file. While no further hangup
/// arrives, every later write call hands its payload to the new file and to
/// no other, and nothing that went to the old file is written again.
pub proof fn lemma_writes_follow_rotation<H>(w: World<H>, first: Answers<H>, later: Seq<Event<H>>)
    requires
        w.raised,
        w.sink.handle is Some,
        first.sync is Ok,
        first.open is Ok,
        forall|i: int| 0 <= i < later.len() ==> #[trigger] later[i] is Write,
    ensures
        run(w, seq![Event::Write(first)] + later).0 == (World {
            sink: Sink { handle: Some(first.open->Ok_0), ..w.sink },
            raised: false,
        }),
        run(w, seq![Event::Write(first)] + later).1 == seq![
            rotated_write(w.sink.handle->0, first.open->Ok_0),
        ] + Seq::new(later.len(), |i: int| plain_write(first.open->Ok_0)),
{
    let fresh = World { sink: Sink { handle: Some(first.open->Ok_0), ..w.sink }, raised: false };
    lemma_hangup_rotates_once(w, first);
    lemma_run_from_first(w, Event::Write(first), later);
    lemma_writes_without_hangup(fresh, later);
}

} // verus!
