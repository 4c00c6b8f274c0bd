//! Whole cycles: what the state machine does over any sequence of events.
//!
//! A cycle is run by one call of `begin_cycle` and then one call of `step`
//! for each event. The functions here name the state and the pending action
//! after a given sequence of events, and the proofs say what holds of them
//! whatever the events are.

use vstd::prelude::*;
use crate::cycle::{
    begin_spec, step_spec, CycleAction, CycleEvent, CycleState, SENSOR_ADDRESS, SETTLE_MILLIS,
    TRIGGER_COMMAND,
};
use crate::decoder::{decode_outcome_spec, decode_spec};
use crate::error::ProtocolError;
use crate::frame::{RawFrame, FRAME_LEN};
use crate::measurement::Measurement;

verus! {

/// The state and the pending action once `events` have been reported, in
/// that order, to a cycle that was just begun.
pub open spec fn after(events: Seq<CycleEvent>) -> (CycleState, CycleAction)
    decreases events.len(),
{
    if events.len() == 0 {
        begin_spec()
    } else {
        step_spec(after(events.drop_last()).0, events.last())
    }
}

/// Whether none of the first `n` events is `Failed`.
pub open spec fn none_failed(events: Seq<CycleEvent>, n: int) -> bool {
    forall|i: int| 0 <= i < n && i < events.len() ==> !(#[trigger] events[i] is Failed)
}

/// The outcome of a cycle whose read was answered, by the four events that
/// answered its four actions.
pub open spec fn full_outcome(events: Seq<CycleEvent>) -> Result<RawFrame, ProtocolError>
    recommends
        events.len() >= 4,
{
    if !none_failed(events, 4) {
        Err(ProtocolError::BusFault)
    } else {
        match events[3] {
            CycleEvent::Received { buffer, count } if count == FRAME_LEN => Ok(
                RawFrame { bytes: buffer },
            ),
            _ => Err(ProtocolError::FrameLengthFault),
        }
    }
}

/// The state and the pending action after any sequence of events, in closed
/// form. While no event is `Failed` the actions come in the order bind,
/// write, wait, read, one for each event. The first `Failed` among the first
/// four events ends the cycle with a bus fault; the fourth event, if the
/// cycle gets that far, ends it with the frame or a length fault. What is
/// reported after the end changes nothing.
pub proof fn lemma_after_closed_form(events: Seq<CycleEvent>)
    ensures
        events.len() == 0 ==> after(events) == begin_spec(),
        events.len() == 1 && none_failed(events, 1) ==> after(events) == (
            CycleState::Triggering,
            CycleAction::Write { command: TRIGGER_COMMAND },
        ),
        events.len() == 2 && none_failed(events, 2) ==> after(events) == (
            CycleState::Settling,
            CycleAction::Wait { millis: SETTLE_MILLIS },
        ),
        events.len() == 3 && none_failed(events, 3) ==> after(events) == (
            CycleState::Reading,
            CycleAction::Read { length: FRAME_LEN },
        ),
        events.len() <= 3 && !none_failed(events, 3) ==> after(events) == (
            CycleState::Finished { outcome: Err(ProtocolError::BusFault) },
            CycleAction::Finish { outcome: Err(ProtocolError::BusFault) },
        ),
        events.len() >= 4 ==> after(events) == (
            CycleState::Finished { outcome: full_outcome(events) },
            CycleAction::Finish { outcome: full_outcome(events) },
        ),
    decreases events.len(),
{
    if events.len() > 0 {
        let init = events.drop_last();
        lemma_after_closed_form(init);
        assert(forall|i: int| 0 <= i < init.len() ==> init[i] == events[i]);
        assert(events.last() == events[events.len() - 1]);
        if events.len() <= 4 {
            assert(none_failed(events, events.len() as int) <==> (none_failed(
                init,
                init.len() as int,
            ) && !(events.last() is Failed)));
        } else {
            assert(none_failed(events, 4) <==> none_failed(init, 4));
            assert(init[3] == events[3]);
        }
    }
}

/// Each bus action is asked for at one point of a cycle only, and so at most
/// once: the bind at the start, the write after one event, the wait after
/// two, the read after three. Each carries the protocol's fixed argument.
pub proof fn lemma_actions_in_order(events: Seq<CycleEvent>)
    ensures
        after(events).1 matches CycleAction::Bind { address } ==> events.len() == 0 && address
            == SENSOR_ADDRESS,
        after(events).1 matches CycleAction::Write { command } ==> events.len() == 1 && command
            == TRIGGER_COMMAND,
        after(events).1 matches CycleAction::Wait { millis } ==> events.len() == 2 && millis
            == SETTLE_MILLIS,
        after(events).1 matches CycleAction::Read { length } ==> events.len() == 3 && length
            == FRAME_LEN,
        after(events).1 is Read ==> none_failed(events, 3),
        events.len() >= 4 ==> after(events).1 is Finish,
{
    lemma_after_closed_form(events);
}

/// The state and the action never disagree: a finished state comes with the
/// `Finish` action that carries its outcome, and every other state with the
/// action that is under way in it.
pub proof fn lemma_state_matches_action(events: Seq<CycleEvent>)
    ensures
        match after(events).0 {
            CycleState::Binding => after(events).1 is Bind,
            CycleState::Triggering => after(events).1 is Write,
            CycleState::Settling => after(events).1 is Wait,
            CycleState::Reading => after(events).1 is Read,
            CycleState::Finished { outcome } => after(events).1 == (CycleAction::Finish {
                outcome,
            }),
        },
{
    lemma_after_closed_form(events);
}

/// The first fault ends the cycle. If the event at index `k` is the first
/// `Failed` and answers one of the four actions, the cycle has ended with a
/// bus fault, however many events follow. If it came before the read was
/// asked for, no read is asked for at any point of the cycle.
pub proof fn lemma_first_fault_ends_cycle(events: Seq<CycleEvent>, k: int)
    requires
        0 <= k < events.len(),
        k <= 3,
        events[k] is Failed,
        none_failed(events, k),
    ensures
        after(events) == (
            CycleState::Finished { outcome: Err(ProtocolError::BusFault) },
            CycleAction::Finish { outcome: Err(ProtocolError::BusFault) },
        ),
        k < 3 ==> forall|n: int| 0 <= n <= events.len() ==> !(#[trigger] after(events.take(n)).1
            is Read),
{
    lemma_after_closed_form(events);
    if k < 3 {
        assert forall|n: int| 0 <= n <= events.len() implies !(#[trigger] after(
            events.take(n),
        ).1 is Read) by {
            let prefix = events.take(n);
            lemma_actions_in_order(prefix);
            if prefix.len() == 3 {
                assert(prefix[k] == events[k]);
            }
        }
    }
}

/// A cycle yields a frame in one way only: none of the four events is
/// `Failed`, and the fourth reports exactly `FRAME_LEN` bytes. The frame is
/// then the buffer of that event, byte for byte.
pub proof fn lemma_frame_only_from_full_read(events: Seq<CycleEvent>)
    ensures
        after(events).1 matches CycleAction::Finish { outcome: Ok(frame) } <==> {
            &&& events.len() >= 4
            &&& none_failed(events, 4)
            &&& events[3] matches CycleEvent::Received { buffer, count }
            &&& count == FRAME_LEN
        },
        after(events).1 matches CycleAction::Finish { outcome: Ok(frame) } ==> {
            &&& events[3] matches CycleEvent::Received { buffer, count }
            &&& frame.bytes == buffer
            &&& frame@ == buffer@
        },
{
    lemma_after_closed_form(events);
}

/// A cycle fails in two ways only: with a bus fault or with a length fault.
pub proof fn lemma_cycle_errors(events: Seq<CycleEvent>)
    ensures
        after(events).1 matches CycleAction::Finish { outcome: Err(fault) } ==> fault
            == ProtocolError::BusFault || fault == ProtocolError::FrameLengthFault,
{
    lemma_after_closed_form(events);
}

/// A finished cycle stays finished: whatever is reported after the end, the
/// state and the outcome are those reached at the end.
pub proof fn lemma_finished_is_final(events: Seq<CycleEvent>, more: Seq<CycleEvent>)
    requires
        after(events).0 is Finished,
    ensures
        after(events + more) == after(events),
    decreases more.len(),
{
    lemma_state_matches_action(events);
    if more.len() == 0 {
        assert(events + more =~= events);
    } else {
        lemma_finished_is_final(events, more.drop_last());
        assert((events + more).drop_last() =~= events + more.drop_last());
        assert((events + more).last() == more.last());
    }
}

/// The bytes that an event hands over: the first `count` of the buffer, and
/// none where the event carries no buffer or counts more than the buffer
/// holds.
pub open spec fn received_bytes(event: CycleEvent) -> Seq<u8> {
    match event {
        CycleEvent::Received { buffer, count } if count <= FRAME_LEN => buffer@.take(
            count as int,
        ),
        _ => Seq::empty(),
    }
}

/// A cycle and the decoder, end to end. If one of the four events is
/// `Failed` the result is a bus fault. If none is, the result is what the
/// decoder makes of the bytes that the read handed over: a short read is a
/// length fault, a full one is decoded.
pub proof fn lemma_cycle_then_decode(events: Seq<CycleEvent>)
    requires
        events.len() >= 4,
    ensures
        after(events).1 == (CycleAction::Finish { outcome: full_outcome(events) }),
        !none_failed(events, 4) ==> decode_outcome_spec(full_outcome(events)) == Err::<
            Measurement,
            ProtocolError,
        >(ProtocolError::BusFault),
        none_failed(events, 4) ==> decode_outcome_spec(full_outcome(events)) == decode_spec(
            received_bytes(events[3]),
        ),
{
    lemma_after_closed_form(events);
    if none_failed(events, 4) {
        assert(!(events[3] is Failed));
        match events[3] {
            CycleEvent::Received { buffer, count } => {
                if count == FRAME_LEN {
                    assert(buffer@.take(count as int) =~= buffer@);
                }
            },
            _ => {},
        }
    }
}

} // verus!
