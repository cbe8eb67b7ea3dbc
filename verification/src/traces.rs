//! Whole runs of a session.
//!
//! `Session::step` says what one event does. This file says what holds of
//! every sequence of events: that a session only moves forward and stays
//! closed once it is closed, that a failed connect relays nothing, that
//! either direction's end closes the session at once, and that each
//! direction of a relaying session is its own copy loop, which the other
//! direction's events do not disturb, so that what `copy_loop` proves of a
//! loop's bytes holds of each direction of a session.

use vstd::prelude::*;
use crate::copy_loop::clean_run;
use crate::copy_loop::copy_step;
use crate::copy_loop::event_of;
use crate::copy_loop::ledger_after;
use crate::copy_loop::lemma_clean_run_keeps_up;
use crate::copy_loop::payload;
use crate::copy_loop::CopyAction;
use crate::copy_loop::CopyEnd;
use crate::copy_loop::CopyEvent;
use crate::copy_loop::CopyLoop;
use crate::copy_loop::Direction;
use crate::copy_loop::Phase;
use crate::copy_loop::WireEvent;
use crate::copy_loop::CHUNK_SIZE;
use crate::relay::ignored;
use crate::relay::session_step;
use crate::relay::Action;
use crate::relay::Event;
use crate::relay::Outcome;
use crate::relay::Session;
use crate::relay::Stage;
use crate::report::Notice;
use crate::report::Severity;

verus! {

/// The session after a sequence of events.
pub open spec fn session_after(start: Session, events: Seq<Event>) -> Session
    decreases events.len(),
{
    if events.len() == 0 {
        start
    } else {
        session_step(session_after(start, events.drop_last()), events.last()).session
    }
}

/// The action that the event at `index` of a run brings.
pub open spec fn action_at(start: Session, events: Seq<Event>, index: int) -> Action {
    session_step(session_after(start, events.take(index)), events[index]).action
}

/// The notices that the event at `index` of a run brings.
pub open spec fn notices_at(start: Session, events: Seq<Event>, index: int) -> Seq<Notice> {
    session_step(session_after(start, events.take(index)), events[index]).notices
}

/// How far a session has come: the stages in their order.
pub open spec fn progress(stage: Stage) -> nat {
    match stage {
        Stage::Accepted => 0,
        Stage::Connecting => 1,
        Stage::Relaying { .. } => 2,
        Stage::Closed(_) => 3,
    }
}

/// The loop of one direction of a relaying session.
pub open spec fn loop_of(session: Session, direction: Direction) -> CopyLoop
    recommends
        session.stage is Relaying,
{
    match direction {
        Direction::ClientToTarget => session.stage->client_to_target,
        Direction::TargetToClient => session.stage->target_to_client,
    }
}

/// The events of a run that belong to one direction, in their order.
pub open spec fn events_of(events: Seq<Event>, direction: Direction) -> Seq<CopyEvent>
    decreases events.len(),
{
    if events.len() == 0 {
        Seq::empty()
    } else {
        let earlier = events_of(events.drop_last(), direction);
        match events.last() {
            Event::Copy { direction: d, event } => if d == direction {
                earlier.push(event)
            } else {
                earlier
            },
            _ => earlier,
        }
    }
}

/// A loop after a sequence of events.
pub open spec fn loop_after(start: CopyLoop, events: Seq<CopyEvent>) -> CopyLoop
    decreases events.len(),
{
    if events.len() == 0 {
        start
    } else {
        copy_step(loop_after(start, events.drop_last()), events.last()).0
    }
}

/// What a loop is told of a run on the wire.
pub open spec fn heard(wire: Seq<WireEvent>) -> Seq<CopyEvent> {
    wire.map_values(|step: WireEvent| event_of(step))
}

/// A step never takes a session back, and never changes its identifier or
/// its client.
pub proof fn lemma_step_moves_forward(session: Session, event: Event)
    ensures
        progress(session_step(session, event).session.stage) >= progress(session.stage),
        session_step(session, event).session.id == session.id,
        session_step(session, event).session.client == session.client,
{
}

/// A closed session is closed for good: whatever reaches it, the late
/// result of the direction that was given up too, leaves it as it is, asks
/// for nothing and reports nothing.
pub proof fn lemma_closed_is_final(session: Session, event: Event)
    requires
        session.stage is Closed,
    ensures
        session_step(session, event) == ignored(session),
{
}

/// A closed session stays as it is through every run, and no event of the
/// run brings an action or a notice.
pub proof fn lemma_closed_stays_closed(start: Session, events: Seq<Event>)
    requires
        start.stage is Closed,
    ensures
        session_after(start, events) == start,
        forall|i: int|
            0 <= i < events.len() ==> #[trigger] action_at(start, events, i) == Action::Ignore
                && notices_at(start, events, i).len() == 0,
    decreases events.len(),
{
    if events.len() > 0 {
        let earlier = events.drop_last();
        lemma_closed_stays_closed(start, earlier);
        assert forall|i: int| 0 <= i < events.len() implies #[trigger] action_at(start, events, i)
            == Action::Ignore && notices_at(start, events, i).len() == 0 by {
            lemma_closed_stays_closed(start, events.take(i));
        }
    }
}

/// A session never goes back: after every run it stands at least as far as
/// it stood, under the same identifier.
pub proof fn lemma_run_moves_forward(start: Session, events: Seq<Event>)
    ensures
        progress(session_after(start, events).stage) >= progress(start.stage),
        session_after(start, events).id == start.id,
        session_after(start, events).client == start.client,
    decreases events.len(),
{
    if events.len() > 0 {
        lemma_run_moves_forward(start, events.drop_last());
        lemma_step_moves_forward(session_after(start, events.drop_last()), events.last());
    }
}

/// A failed connect closes the session on the spot: the action is to close
/// what is open, the failure is reported as an error under the session's
/// identifier, and no direction was ever started.
pub proof fn lemma_failed_connect_closes(session: Session, cause: String)
    requires
        session.stage is Connecting,
    ensures
        ({
            let step = session_step(session, Event::ConnectFailed { cause });
            &&& step.session.stage == Stage::Closed(Outcome::ConnectFailed { cause })
            &&& step.action == Action::Close
            &&& step.notices.len() == 1
            &&& step.notices[0] == Notice::ConnectFailed {
                session: session.id,
                client: session.client,
                cause,
            }
            &&& step.notices[0].spec_severity() == Severity::Error
            &&& step.notices[0].spec_session() == Some(session.id)
        }),
{
}

/// Whether an action moves data or starts a direction.
pub open spec fn relays(action: Action) -> bool {
    action is Write || action is Read || action is StartCopying
}

/// A session that has not begun to relay has relayed nothing: as long as a
/// run leaves a session that started as accepted or connecting short of
/// relaying, or closes it on a failed connect, no event of the run brought a
/// write, a read or the start of a direction, and none reported a chunk.
pub proof fn lemma_nothing_relayed_before_connect(start: Session, events: Seq<Event>)
    requires
        start.stage is Accepted || start.stage is Connecting,
        ({
            let end = session_after(start, events).stage;
            ||| end is Accepted
            ||| end is Connecting
            ||| end matches Stage::Closed(Outcome::ConnectFailed { .. })
        }),
    ensures
        forall|i: int|
            0 <= i < events.len() ==> !relays(#[trigger] action_at(start, events, i)) && forall|
                k: int,
            |
                0 <= k < notices_at(start, events, i).len() ==> !(notices_at(start, events, i)[k]
                    is Chunk),
    decreases events.len(),
{
    if events.len() > 0 {
        let earlier = events.drop_last();
        let before = session_after(start, earlier);
        lemma_run_moves_forward(start, earlier);
        // A connect failure is reached from connecting only, and a closed
        // session does not change: the run before the last event ended short
        // of relaying too.
        if before.stage is Closed {
            lemma_closed_is_final(before, events.last());
        }
        assert(!(before.stage is Relaying));
        lemma_nothing_relayed_before_connect(start, earlier);
        assert forall|i: int| 0 <= i < events.len() implies !relays(
            #[trigger] action_at(start, events, i),
        ) && forall|k: int|
            0 <= k < notices_at(start, events, i).len() ==> !(notices_at(start, events, i)[k]
                is Chunk) by {
            if i < events.len() - 1 {
                assert(events.take(i) =~= earlier.take(i));
                assert(events[i] == earlier[i]);
                assert(action_at(start, events, i) == action_at(start, earlier, i));
                assert(notices_at(start, events, i) == notices_at(start, earlier, i));
            } else {
                assert(events.take(i) =~= earlier);
            }
        }
    }
}

/// The end of either direction ends the session at once. Whenever the loop
/// of a direction stops on an event, be it the end of its stream or a failed
/// read or write, the session is closed by that very step, with the action
/// to close every connection and with that direction named in the outcome
/// and in the closing notice. Where the other direction stands, idle in a
/// read or in the middle of a write, plays no part.
pub proof fn lemma_first_end_closes_session(
    session: Session,
    direction: Direction,
    event: CopyEvent,
)
    requires
        session.stage is Relaying,
        copy_step(loop_of(session, direction), event).1 == CopyAction::Stop,
    ensures
        ({
            let step = session_step(session, Event::Copy { direction, event });
            let closed = Notice::Closed { session: session.id, direction, client: session.client };
            &&& step.action == Action::Close
            &&& step.notices.last() == closed
            &&& match copy_step(loop_of(session, direction), event).0.phase {
                Phase::Finished(CopyEnd::Failed { operation, cause }) => {
                    &&& step.session.stage == Stage::Closed(
                        Outcome::Error { direction, operation, cause },
                    )
                    &&& step.notices == seq![
                        Notice::TransferFailed { session: session.id, direction, operation, cause },
                        closed,
                    ]
                },
                _ => {
                    &&& step.session.stage == Stage::Closed(Outcome::CleanEof { direction })
                    &&& step.notices == seq![closed]
                },
            }
        }),
{
}

/// The two directions of a session do not disturb each other: an event of
/// one direction that leaves the session relaying moves that direction's
/// loop as `copy_step` says and leaves the other loop, and the target, as
/// they were. An event of no direction moves neither.
pub proof fn lemma_directions_are_independent(session: Session, event: Event)
    requires
        session.stage is Relaying,
        session_step(session, event).session.stage is Relaying,
    ensures
        ({
            let next = session_step(session, event).session;
            &&& next.stage->target == session.stage->target
            &&& match event {
                Event::Copy { direction, event } => {
                    &&& loop_of(next, direction) == copy_step(loop_of(session, direction), event).0
                    &&& loop_of(next, direction.spec_opposite()) == loop_of(
                        session,
                        direction.spec_opposite(),
                    )
                },
                _ => next == session,
            }
        }),
{
}

/// Through every run that leaves a session relaying, each direction's loop
/// is the loop that its own events make, in their order, whatever events of
/// the other direction come in between.
pub proof fn lemma_session_follows_its_loops(
    start: Session,
    events: Seq<Event>,
    direction: Direction,
)
    requires
        start.stage is Relaying,
        session_after(start, events).stage is Relaying,
    ensures
        loop_of(session_after(start, events), direction) == loop_after(
            loop_of(start, direction),
            events_of(events, direction),
        ),
    decreases events.len(),
{
    if events.len() > 0 {
        let earlier = events.drop_last();
        let before = session_after(start, earlier);
        lemma_run_moves_forward(start, earlier);
        if before.stage is Closed {
            lemma_closed_is_final(before, events.last());
        }
        lemma_session_follows_its_loops(start, earlier, direction);
        lemma_directions_are_independent(before, events.last());
        match events.last() {
            Event::Copy { direction: d, event } => {
                if d == direction {
                    let own = events_of(events, direction);
                    assert(own.drop_last() =~= events_of(earlier, direction));
                    assert(own.last() == event);
                }
            },
            _ => {},
        }
    }
}

/// The loop's state in the account of a run is the state that the loop comes
/// to on what it is told of the run.
pub proof fn lemma_ledger_follows_loop(wire: Seq<WireEvent>)
    ensures
        ledger_after(wire).state == loop_after(CopyLoop::spec_new(), heard(wire)),
    decreases wire.len(),
{
    if wire.len() > 0 {
        lemma_ledger_follows_loop(wire.drop_last());
        assert(heard(wire).drop_last() =~= heard(wire.drop_last()));
        assert(heard(wire).last() == event_of(wire.last()));
    }
}

/// A stream that one peer sends in full arrives in full at the other,
/// whatever the other direction does meanwhile.
///
/// Take a session that has just begun to relay, and a run that leaves it
/// relaying. If what the run brings to one direction is a stream in chunks,
/// each read and then written without an error, then that direction has
/// handed its sink exactly the stream, byte for byte and in order, and is
/// reading again. The end of the stream then closes the session cleanly,
/// with that direction named. This holds of a stream of no bytes and of one
/// that fills many buffers, and of each direction on its own.
pub proof fn lemma_relayed_stream_arrives_whole(
    start: Session,
    events: Seq<Event>,
    direction: Direction,
    chunks: Seq<Seq<u8>>,
)
    requires
        start.stage is Relaying,
        loop_of(start, direction) == CopyLoop::spec_new(),
        session_after(start, events).stage is Relaying,
        events_of(events, direction) == heard(clean_run(chunks)),
        forall|i: int| 0 <= i < chunks.len() ==> 0 < (#[trigger] chunks[i]).len() <= CHUNK_SIZE,
    ensures
        ({
            let session = session_after(start, events);
            let account = ledger_after(clean_run(chunks));
            let end = session_step(
                session,
                Event::Copy { direction, event: CopyEvent::ReadDone { len: 0 } },
            );
            &&& loop_of(session, direction) == account.state
            &&& account.state.phase is Reading
            &&& account.taken == payload(chunks)
            &&& account.delivered == payload(chunks)
            &&& payload(chunks).len() <= u64::MAX ==> account.state.total == payload(chunks).len()
            &&& end.session.stage == Stage::Closed(Outcome::CleanEof { direction })
            &&& end.action == Action::Close
        }),
{
    lemma_session_follows_its_loops(start, events, direction);
    lemma_ledger_follows_loop(clean_run(chunks));
    lemma_clean_run_keeps_up(chunks);
    if payload(chunks).len() <= u64::MAX {
        vstd::arithmetic::div_mod::lemma_small_mod(
            payload(chunks).len(),
            0x1_0000_0000_0000_0000,
        );
    }
}

} // verus!
