//! What holds of every session, stated over the views that the contracts of
//! the session's functions use.

use crate::error::SessionError;
use crate::session::{assembled, Phase, SessionView};
use crate::wire::{
    message_frames, Delivery, ExpectView, FrameView, HandshakeOutcomeView, ResponseView, Role,
    TERMINAL_FLAG,
};
use vstd::prelude::*;

verus! {

/// Whether a frame is what a reader of `read` waits for: a marker for a
/// marker, a payload for a payload under the same key.
pub open spec fn answers(frame: FrameView, read: ExpectView) -> bool {
    match (frame, read) {
        (FrameView::Marker(_), ExpectView::Marker) => true,
        (FrameView::Encrypted { key, .. }, ExpectView::Encrypted { key: expected }) => key
            == expected,
        _ => false,
    }
}

/// What a reader assembles from three frames that reach it unaltered: the
/// first marker is the flag, the payload the content, the last marker the
/// status code.
pub open spec fn carried(frames: Seq<FrameView>) -> Option<ResponseView> {
    if frames.len() == 3 {
        match (frames[0], frames[1], frames[2]) {
            (
                FrameView::Marker(flag),
                FrameView::Encrypted { payload, .. },
                FrameView::Marker(status_code),
            ) => Some(ResponseView { content: payload, status_code, flag }),
            _ => None,
        }
    } else {
        None
    }
}

/// Between two open sessions that hold the same symmetric key, what one
/// frames is what the other waits for, packet by packet, and the message it
/// assembles has the payload and the status code that were sent. Receiving
/// it leaves the receiver open.
pub proof fn lemma_sent_is_received(
    sender: SessionView,
    receiver: SessionView,
    payload: Seq<u8>,
    status_code: u32,
)
    requires
        !sender.closed,
        !receiver.closed,
        sender.symmetric_key is Some,
        sender.symmetric_key == receiver.symmetric_key,
    ensures
        sender.send(payload, status_code) is Ok,
        receiver.recv() is Ok,
        sender.send(payload, status_code)->Ok_0.len() == receiver.recv()->Ok_0.len(),
        forall|i: int|
            0 <= i < 3 ==> answers(
                #[trigger] sender.send(payload, status_code)->Ok_0[i],
                receiver.recv()->Ok_0[i],
            ),
        carried(sender.send(payload, status_code)->Ok_0) == Some(
            ResponseView { content: payload, status_code, flag: 0 },
        ),
        receiver.deliver(0) == receiver,
{
}

/// Closing twice is closing once: the session is closed after either call,
/// the second call changes nothing and has no transport closed.
pub proof fn lemma_close_is_idempotent(s: SessionView)
    ensures
        s.close().closed,
        s.close().close() == s.close(),
        !s.close().closes_socket(),
{
}

/// The closed flag goes from false to true once and never back: no step
/// reopens a closed session.
pub proof fn lemma_closed_is_final(
    s: SessionView,
    role: Role,
    outcome: HandshakeOutcomeView,
    flag: u32,
)
    requires
        s.closed,
    ensures
        s.begin(role).closed,
        s.establish(outcome).closed,
        s.deliver(flag).closed,
        s.close() == s,
        !s.closes_socket(),
        !s.deliver_closes_socket(flag),
{
}

/// A closed session frames nothing and reads nothing: both are refused as a
/// closed channel, whatever else holds of the session.
pub proof fn lemma_closed_refuses_messages(s: SessionView, payload: Seq<u8>, status_code: u32)
    ensures
        s.close().send(payload, status_code) == Err::<Seq<FrameView>, _>(
            SessionError::ChannelClosed,
        ),
        s.close().recv() == Err::<Seq<ExpectView>, _>(SessionError::ChannelClosed),
{
}

/// A message with the terminal flag closes the session that receives it: the
/// transport is closed unless it was already, and nothing is framed
/// afterwards.
pub proof fn lemma_terminal_flag_closes(s: SessionView, payload: Seq<u8>, status_code: u32)
    ensures
        s.deliver(TERMINAL_FLAG).closed,
        s.deliver_closes_socket(TERMINAL_FLAG) == !s.closed,
        s.deliver(TERMINAL_FLAG).send(payload, status_code) == Err::<Seq<FrameView>, _>(
            SessionError::ChannelClosed,
        ),
        s.deliver(TERMINAL_FLAG) == s.close(),
{
}

/// A message with any other flag leaves the session as it was.
pub proof fn lemma_other_flags_keep_open(s: SessionView, flag: u32)
    requires
        flag != TERMINAL_FLAG,
    ensures
        s.deliver(flag) == s,
        !s.deliver_closes_socket(flag),
{
}

/// The private key serves one handshake: once one has started, every other
/// is refused, in either role.
pub proof fn lemma_key_is_used_once(s: SessionView, first: Role, second: Role)
    requires
        s.handshake_error(first) is None,
    ensures
        s.begin(first).private_key is None,
        s.begin(first).handshake_error(second) is Some,
        second == Role::Responder || s.header is Some ==> s.begin(first).handshake_error(second)
            == Some(SessionError::KeyConsumed),
{
}

/// The symmetric key is set once: after an outcome was accepted, no further
/// outcome is, so the key stays what it is.
pub proof fn lemma_key_is_set_once(
    s: SessionView,
    outcome: HandshakeOutcomeView,
    later: HandshakeOutcomeView,
)
    requires
        s.outcome_error(outcome) is None,
    ensures
        s.establish(outcome).outcome_error(later) == Some(SessionError::UnexpectedOutcome),
        outcome is Failed ==> s.establish(outcome).phase == Phase::Failed && s.establish(
            outcome,
        ).symmetric_key == s.symmetric_key,
        !(outcome is Failed) ==> s.establish(outcome).phase == Phase::Established && s.establish(
            outcome,
        ).symmetric_key is Some,
{
}

/// A session's symmetric key is the key that its exchange reported: two
/// sessions whose exchanges reported different keys hold different keys.
pub proof fn lemma_reported_keys_are_kept(
    first: SessionView,
    second: SessionView,
    first_outcome: HandshakeOutcomeView,
    second_outcome: HandshakeOutcomeView,
)
    requires
        first_outcome.key() is Some,
        second_outcome.key() is Some,
        first_outcome.key() != second_outcome.key(),
    ensures
        first.establish(first_outcome).symmetric_key == first_outcome.key(),
        second.establish(second_outcome).symmetric_key == second_outcome.key(),
        first.establish(first_outcome).symmetric_key != second.establish(
            second_outcome,
        ).symmetric_key,
{
}

/// What a reader assembles from the frames of a message, read in order, is
/// what `carried` says: the markers in the order of the frames, the first the
/// flag and the second the status code.
pub proof fn lemma_assembled_is_carried(
    receiver: SessionView,
    key: Seq<u8>,
    payload: Seq<u8>,
    status_code: u32,
    r: Option<Delivery>,
    after: SessionView,
)
    requires
        assembled(receiver, seq![0u32, status_code], payload, r, after),
    ensures
        r is Some,
        Some(r->0.response@) == carried(message_frames(key, payload, status_code)),
        !r->0.close_socket,
        after == receiver,
{
}

/// A failed handshake leaves a session that cannot be used: no handshake
/// starts on it, and it frames and reads nothing.
pub proof fn lemma_failed_session_is_dead(
    s: SessionView,
    role: Role,
    payload: Seq<u8>,
    status_code: u32,
)
    requires
        s.wf(),
        s.phase == Phase::Failed,
    ensures
        s.handshake_error(role) is Some,
        s.send(payload, status_code) is Err,
        s.recv() is Err,
{
}

/// Every step keeps the session well formed.
pub proof fn lemma_steps_keep_wf(
    s: SessionView,
    role: Role,
    outcome: HandshakeOutcomeView,
    flag: u32,
)
    requires
        s.wf(),
    ensures
        s.handshake_error(role) is None ==> s.begin(role).wf(),
        s.outcome_error(outcome) is None ==> s.establish(outcome).wf(),
        s.close().wf(),
        s.deliver(flag).wf(),
{
}

/// A message is three frames: the marker 0 opens it, the status code ends
/// it.
pub proof fn lemma_message_layout(key: Seq<u8>, payload: Seq<u8>, status_code: u32)
    ensures
        message_frames(key, payload, status_code).len() == 3,
        message_frames(key, payload, status_code)[0] == FrameView::Marker(0),
        message_frames(key, payload, status_code)[1] == (FrameView::Encrypted { key, payload }),
        message_frames(key, payload, status_code)[2] == FrameView::Marker(status_code),
{
}

} // verus!
