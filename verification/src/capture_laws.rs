//! What holds of the capture controller over whole sessions: input is not
//! forwarded before the peer has acknowledged, and what is sent between a
//! begin and the next release goes to the peer that was entered.

use crate::capture::{
    capture_step, enter_position, CaptureAction, CaptureEvent, CaptureInput, CaptureSessionView, State,
};
use crate::event::{ClientHandle, ProtoEvent};
use vstd::prelude::*;

verus! {

/// Where a capture session stands after `inputs` were handled one after the
/// other from `pre`, and all the actions that this called for, in order.
pub open spec fn capture_run(pre: CaptureSessionView, inputs: Seq<CaptureInput>) -> (
    CaptureSessionView,
    Seq<CaptureAction>,
)
    decreases inputs.len(),
{
    if inputs.len() == 0 {
        (pre, Seq::empty())
    } else {
        let (mid, before) = capture_run(pre, inputs.drop_last());
        let (post, actions, _) = capture_step(mid, inputs.last());
        (post, before + actions)
    }
}

/// Whether input `i` of a session that handles `inputs` from `pre` is an
/// acknowledgement that counts: one of the peer that is active when it
/// arrives.
pub open spec fn is_accepted_ack(pre: CaptureSessionView, inputs: Seq<CaptureInput>, i: int) -> bool {
    inputs[i] matches CaptureInput::Inbound(from, ProtoEvent::Ack(_)) && capture_run(
        pre,
        inputs.take(i),
    ).0.server.active == Some(from)
}

/// Whether `action` sends captured input as such.
pub open spec fn sends_input(action: CaptureAction) -> bool {
    action matches CaptureAction::Send(ProtoEvent::Input(_), _)
}

/// Whether `action` sends anything at all to a peer other than `handle`.
pub open spec fn sends_elsewhere(action: CaptureAction, handle: ClientHandle) -> bool {
    action matches CaptureAction::Send(_, to) && to != handle
}

/// A begin starts the handshake anew.
///
/// Whatever the state was, after a begin input is not being forwarded.
/// Unless capture is released instead, the peer that was entered is the
/// active one, its acknowledgement is waited for, and the one thing sent is
/// an enter to it, which names the edge configured for it.
pub proof fn law_begin_restarts_handshake(
    pre: CaptureSessionView,
    handle: ClientHandle,
    bind_pressed: bool,
)
    ensures
        ({
            let (post, actions, finished) = capture_step(
                pre,
                CaptureInput::Event(handle, CaptureEvent::Begin, bind_pressed),
            );
            &&& !finished
            &&& post.state != State::Sending
            &&& !(pre.server.should_release || bind_pressed) ==> {
                &&& post.state == State::WaitingForAck
                &&& post.server.active == Some(handle)
                &&& actions.len() >= 1
                &&& actions.last() == CaptureAction::Send(
                    ProtoEvent::Enter(enter_position(pre.server.clients, handle)),
                    handle,
                )
                &&& forall|i: int| 0 <= i < actions.len() - 1 ==> !(#[trigger] actions[i] is Send)
            }
        }),
{
}

/// No input is sent before the acknowledgement.
///
/// From a state in which input is not being forwarded, as after a begin or
/// a release and at the start of a session, and for as long as no
/// acknowledgement of the active peer arrives, input is still not being
/// forwarded, and nothing is sent as input: whatever is sent is an enter.
pub proof fn law_ack_before_input(pre: CaptureSessionView, inputs: Seq<CaptureInput>)
    requires
        pre.state != State::Sending,
        forall|i: int| 0 <= i < inputs.len() ==> !is_accepted_ack(pre, inputs, i),
    ensures
        capture_run(pre, inputs).0.state != State::Sending,
        forall|j: int|
            0 <= j < capture_run(pre, inputs).1.len() ==> !sends_input(
                #[trigger] capture_run(pre, inputs).1[j],
            ),
        forall|j: int|
            0 <= j < capture_run(pre, inputs).1.len() ==> (
            #[trigger] capture_run(pre, inputs).1[j] matches CaptureAction::Send(event, _)
                ==> event is Enter),
    decreases inputs.len(),
{
    if inputs.len() > 0 {
        let before = inputs.drop_last();
        assert forall|i: int| 0 <= i < before.len() implies !is_accepted_ack(pre, before, i) by {
            assert(before.take(i) =~= inputs.take(i));
            assert(!is_accepted_ack(pre, inputs, i));
        }
        law_ack_before_input(pre, before);
        let (mid, earlier) = capture_run(pre, before);
        let (post, actions, _) = capture_step(mid, inputs.last());
        assert(inputs.take(inputs.len() - 1) =~= before);
        assert(!is_accepted_ack(pre, inputs, inputs.len() - 1));
        assert forall|j: int| 0 <= j < (earlier + actions).len() implies !sends_input(
            #[trigger] (earlier + actions)[j],
        ) && ((earlier + actions)[j] matches CaptureAction::Send(event, _) ==> event is Enter) by {
            if j < earlier.len() {
                assert((earlier + actions)[j] == earlier[j]);
            } else {
                assert((earlier + actions)[j] == actions[j - earlier.len()]);
            }
        }
    }
}

/// What is sent between a begin and the next release goes to the peer that
/// was entered, and begins with an enter.
///
/// Let a begin for `handle` be handled while nothing asks for a release, and
/// then `rest`, in which every event of the backend is one for `handle`.
/// Then the begin sends an enter to `handle` and nothing before it; nothing
/// at all is sent to another peer; and for as long as no release is called
/// for, `handle` stays the active peer and the handshake does not fall idle.
pub proof fn law_burst_is_addressed(pre: CaptureSessionView, handle: ClientHandle, rest: Seq<CaptureInput>)
    requires
        !pre.server.should_release,
        forall|i: int|
            0 <= i < rest.len() ==> (#[trigger] rest[i] matches CaptureInput::Event(h, _, _) ==> h
                == handle),
    ensures
        ({
            let (began, first, _) = capture_step(
                pre,
                CaptureInput::Event(handle, CaptureEvent::Begin, false),
            );
            let (post, later) = capture_run(began, rest);
            &&& first.len() >= 1
            &&& first.last() == CaptureAction::Send(
                ProtoEvent::Enter(enter_position(pre.server.clients, handle)),
                handle,
            )
            &&& forall|i: int| 0 <= i < first.len() - 1 ==> !(#[trigger] first[i] is Send)
            &&& forall|j: int| 0 <= j < later.len() ==> !sends_elsewhere(#[trigger] later[j], handle)
            &&& !later.contains(CaptureAction::Release) ==> post.server.active == Some(handle)
                && post.state != State::Idle
        }),
    decreases rest.len(),
{
    let (began, first, _) = capture_step(
        pre,
        CaptureInput::Event(handle, CaptureEvent::Begin, false),
    );
    if rest.len() > 0 {
        let before = rest.drop_last();
        law_burst_is_addressed(pre, handle, before);
        let (mid, earlier) = capture_run(began, before);
        let (post, actions, _) = capture_step(mid, rest.last());
        let later = earlier + actions;
        assert(rest[rest.len() - 1] == rest.last());
        assert forall|j: int| 0 <= j < later.len() implies !sends_elsewhere(
            #[trigger] later[j],
            handle,
        ) by {
            if j < earlier.len() {
                assert(later[j] == earlier[j]);
            } else {
                assert(later[j] == actions[j - earlier.len()]);
            }
        }
        if !later.contains(CaptureAction::Release) {
            if earlier.contains(CaptureAction::Release) {
                let k = choose|k: int| 0 <= k < earlier.len() && earlier[k] == CaptureAction::Release;
                assert(later[k] == CaptureAction::Release);
            }
            assert forall|k: int| 0 <= k < actions.len() implies actions[k]
                != CaptureAction::Release by {
                assert(later[earlier.len() + k] == actions[k]);
            }
            assert(mid.server.active == Some(handle) && mid.state != State::Idle);
            match rest.last() {
                CaptureInput::Event(h, event, bind_pressed) => {
                    if mid.server.should_release || bind_pressed {
                        assert(actions[0] == CaptureAction::Release);
                    }
                },
                CaptureInput::Inbound(h, event) => {
                    if mid.server.active == Some(h) && event is Leave {
                        assert(actions[0] == CaptureAction::Release);
                    }
                },
                CaptureInput::Request(request) => {
                    if request is Release {
                        assert(actions[0] == CaptureAction::Release);
                    }
                },
                CaptureInput::SendFailed(now) => {
                    assert(actions.last() == CaptureAction::Release);
                    assert(actions[actions.len() - 1] == CaptureAction::Release);
                },
                _ => {},
            }
        }
    }
}

} // verus!
