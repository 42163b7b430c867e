//! Laws of the session state machine, stated over the transition
//! specifications that the operations meet.

use vstd::prelude::*;
use crate::error::NoiseError;
use crate::pattern::{message_overhead, Role, DH_LEN, MESSAGE_COUNT};
use crate::session::{
    encrypt_spec, read_spec, stage_after, write_spec, SessionView, Stage, NONCE_MAX,
};

verus! {

/// Once the handshake has finished, writing or reading a handshake message
/// fails with a protocol violation and leaves the session as it was.
pub proof fn finished_handshake_refuses_messages(
    pre: SessionView,
    post: SessionView,
    data: Seq<u8>,
    r: Result<Vec<u8>, NoiseError>,
)
    requires
        pre.stage is Transport,
    ensures
        write_spec(pre, post, data, r) ==> r == Err::<Vec<u8>, NoiseError>(
            NoiseError::ProtocolViolation,
        ) && post == pre,
        read_spec(pre, post, data, r) ==> r == Err::<Vec<u8>, NoiseError>(
            NoiseError::ProtocolViolation,
        ) && post == pre,
{
}

/// The message that ends the pattern moves the session into the transport
/// phase with both nonce counters at zero, and no earlier message does.
pub proof fn last_message_finishes(position: nat)
    requires
        position < MESSAGE_COUNT,
    ensures
        (stage_after(position) is Transport) == (position + 1 == MESSAGE_COUNT),
        position + 1 == MESSAGE_COUNT ==> stage_after(position) == (Stage::Transport {
            sent: 0,
            received: 0,
        }),
{
}

/// One handshake message that went through: written or read as the pattern
/// asks of the role at that point, with a successful result.
pub open spec fn message_step(pre: SessionView, post: SessionView) -> bool {
    exists|data: Seq<u8>, r: Result<Vec<u8>, NoiseError>|
        r is Ok && (#[trigger] write_spec(pre, post, data, r) || #[trigger] read_spec(
            pre,
            post,
            data,
            r,
        ))
}

/// Whichever the role, three messages that go through from the start of the
/// handshake finish it: the session is then in the transport phase with
/// both nonce counters at zero.
pub proof fn three_messages_finish(
    v0: SessionView,
    v1: SessionView,
    v2: SessionView,
    v3: SessionView,
)
    requires
        v0.stage == (Stage::Handshaking { position: 0 }),
        message_step(v0, v1),
        message_step(v1, v2),
        message_step(v2, v3),
    ensures
        v3.role == v0.role,
        v3.stage == (Stage::Transport { sent: 0, received: 0 }),
{
}

/// Each successful encryption moves the sending nonce counter up by exactly
/// one and leaves the receiving one. An encryption fails with nonce
/// exhaustion exactly when the counter is then at its maximum, and at its
/// maximum the counter does not wrap: nothing changes.
pub proof fn nonce_steps_by_one(
    pre: SessionView,
    post: SessionView,
    plaintext: Seq<u8>,
    r: Result<Vec<u8>, NoiseError>,
)
    requires
        pre.stage is Transport,
        encrypt_spec(pre, post, plaintext, r),
    ensures
        post.stage is Transport,
        post.role == pre.role,
        r is Ok ==> post.stage->Transport_sent == pre.stage->Transport_sent + 1,
        post.stage->Transport_received == pre.stage->Transport_received,
        r is Err ==> (r == Err::<Vec<u8>, NoiseError>(NoiseError::NonceExhausted)
            <==> post.stage->Transport_sent == NONCE_MAX),
        pre.stage->Transport_sent == NONCE_MAX ==> r == Err::<Vec<u8>, NoiseError>(
            NoiseError::NonceExhausted,
        ) && post == pre,
{
}

/// Once encryption has failed with nonce exhaustion, every later encryption
/// fails the same way and changes nothing: only a new handshake sends again.
pub proof fn exhaustion_is_final(
    pre: SessionView,
    mid: SessionView,
    post: SessionView,
    p: Seq<u8>,
    q: Seq<u8>,
    r1: Result<Vec<u8>, NoiseError>,
    r2: Result<Vec<u8>, NoiseError>,
)
    requires
        encrypt_spec(pre, mid, p, r1),
        r1 == Err::<Vec<u8>, NoiseError>(NoiseError::NonceExhausted),
        encrypt_spec(mid, post, q, r2),
    ensures
        mid.stage->Transport_sent == NONCE_MAX,
        r2 == Err::<Vec<u8>, NoiseError>(NoiseError::NonceExhausted),
        post == mid,
{
}

/// A responder whose first message holds less than a whole ephemeral key
/// rejects it as malformed, and its handshake can never advance afterwards:
/// every later handshake read or write fails and changes nothing.
pub proof fn truncated_first_message_aborts(
    pre: SessionView,
    mid: SessionView,
    message: Seq<u8>,
    r: Result<Vec<u8>, NoiseError>,
)
    requires
        pre.role == Role::Responder,
        pre.stage == (Stage::Handshaking { position: 0 }),
        message.len() < DH_LEN,
        read_spec(pre, mid, message, r),
    ensures
        r == Err::<Vec<u8>, NoiseError>(NoiseError::MalformedMessage),
        mid.stage is Failed,
        forall|post: SessionView, m: Seq<u8>, r2: Result<Vec<u8>, NoiseError>|
            #[trigger] read_spec(mid, post, m, r2) ==> r2 is Err && post == mid,
        forall|post: SessionView, p: Seq<u8>, r2: Result<Vec<u8>, NoiseError>|
            #[trigger] write_spec(mid, post, p, r2) ==> r2 is Err && post == mid,
{
    reveal_with_fuel(crate::pattern::tokens_wire_len, 3);
    reveal_with_fuel(crate::pattern::keyed_after, 3);
    assert(message_overhead(0) == DH_LEN);
}

} // verus!
