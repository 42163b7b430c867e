//! The lifecycle of one party's channel: the handshake driven message by
//! message along the `XX` table, then the transport phase with its two nonce
//! counters. Any failure during the handshake leaves the session failed.

use vstd::prelude::*;
use crate::engine;
use crate::error::{classify, NoiseError};
use crate::pattern::{
    action_at, message_overhead, next_action, overhead, Action, Role, MAX_MESSAGE_LEN,
    MESSAGE_COUNT, TAG_LEN, DH_LEN,
};

verus! {

/// The cipher suite both parties use.
pub const SUITE_NAME: &'static str = "Noise_XX_25519_ChaChaPoly_BLAKE2s";

/// The largest nonce counter value; a cipher state holding it sends no more.
pub const NONCE_MAX: u64 = 0xffff_ffff_ffff_ffff;

/// Where a session stands.
pub enum Stage {
    /// The handshake waits at message `position` of the pattern.
    Handshaking { position: nat },
    /// The handshake is over; `sent` and `received` are the two nonce counters.
    Transport { sent: nat, received: nat },
    /// The handshake was aborted; the session can do nothing more.
    Failed,
}

/// The abstract state of a session.
pub struct SessionView {
    pub role: Role,
    pub stage: Stage,
}

/// The stage a session enters once message `position` has gone through.
pub open spec fn stage_after(position: nat) -> Stage {
    if position + 1 == MESSAGE_COUNT {
        Stage::Transport { sent: 0, received: 0 }
    } else {
        Stage::Handshaking { position: position + 1 }
    }
}

/// What writing a handshake message carrying `payload` does, from `pre` to
/// `post`, with result `r`.
pub open spec fn write_spec(
    pre: SessionView,
    post: SessionView,
    payload: Seq<u8>,
    r: Result<Vec<u8>, NoiseError>,
) -> bool {
    &&& post.role == pre.role
    &&& match pre.stage {
        Stage::Handshaking { position } => if action_at(pre.role, position)
            != Action::WriteMessage {
            r == Err::<Vec<u8>, NoiseError>(NoiseError::ProtocolViolation) && post.stage is Failed
        } else if payload.len() + message_overhead(position) > MAX_MESSAGE_LEN {
            r == Err::<Vec<u8>, NoiseError>(NoiseError::MalformedMessage) && post.stage is Failed
        } else {
            match r {
                Ok(m) => post.stage == stage_after(position) && m@.len() == message_overhead(
                    position,
                ) + payload.len(),
                Err(_) => post.stage is Failed,
            }
        },
        _ => r == Err::<Vec<u8>, NoiseError>(NoiseError::ProtocolViolation) && post == pre,
    }
}

/// What reading the handshake message `message` does, from `pre` to `post`,
/// with result `r`.
pub open spec fn read_spec(
    pre: SessionView,
    post: SessionView,
    message: Seq<u8>,
    r: Result<Vec<u8>, NoiseError>,
) -> bool {
    &&& post.role == pre.role
    &&& match pre.stage {
        Stage::Handshaking { position } => if action_at(pre.role, position)
            != Action::ReadMessage {
            r == Err::<Vec<u8>, NoiseError>(NoiseError::ProtocolViolation) && post.stage is Failed
        } else if message.len() < message_overhead(position) || message.len() > MAX_MESSAGE_LEN {
            r == Err::<Vec<u8>, NoiseError>(NoiseError::MalformedMessage) && post.stage is Failed
        } else {
            match r {
                Ok(m) => post.stage == stage_after(position) && m@.len() + message_overhead(
                    position,
                ) == message.len(),
                Err(_) => post.stage is Failed,
            }
        },
        _ => r == Err::<Vec<u8>, NoiseError>(NoiseError::ProtocolViolation) && post == pre,
    }
}

/// What encrypting `plaintext` in the transport phase does, from `pre` to
/// `post`, with result `r`.
pub open spec fn encrypt_spec(
    pre: SessionView,
    post: SessionView,
    plaintext: Seq<u8>,
    r: Result<Vec<u8>, NoiseError>,
) -> bool {
    match pre.stage {
        Stage::Transport { sent, received } => if sent == NONCE_MAX {
            r == Err::<Vec<u8>, NoiseError>(NoiseError::NonceExhausted) && post == pre
        } else if plaintext.len() + TAG_LEN > MAX_MESSAGE_LEN {
            r == Err::<Vec<u8>, NoiseError>(NoiseError::MalformedMessage) && post == pre
        } else {
            match r {
                Ok(c) => post == (SessionView {
                    role: pre.role,
                    stage: Stage::Transport { sent: sent + 1, received },
                }) && c@.len() == plaintext.len() + TAG_LEN,
                Err(e) => if e == NoiseError::NonceExhausted {
                    post == (SessionView {
                        role: pre.role,
                        stage: Stage::Transport { sent: NONCE_MAX as nat, received },
                    })
                } else {
                    post == pre
                },
            }
        },
        _ => r == Err::<Vec<u8>, NoiseError>(NoiseError::ProtocolViolation) && post == pre,
    }
}

/// What decrypting `ciphertext` in the transport phase does, from `pre` to
/// `post`, with result `r`.
pub open spec fn decrypt_spec(
    pre: SessionView,
    post: SessionView,
    ciphertext: Seq<u8>,
    r: Result<Vec<u8>, NoiseError>,
) -> bool {
    match pre.stage {
        Stage::Transport { sent, received } => if ciphertext.len() < TAG_LEN || ciphertext.len()
            > MAX_MESSAGE_LEN {
            r == Err::<Vec<u8>, NoiseError>(NoiseError::MalformedMessage) && post == pre
        } else if received == NONCE_MAX {
            r == Err::<Vec<u8>, NoiseError>(NoiseError::NonceExhausted) && post == pre
        } else {
            match r {
                Ok(p) => post == (SessionView {
                    role: pre.role,
                    stage: Stage::Transport { sent, received: received + 1 },
                }) && p@.len() + TAG_LEN == ciphertext.len(),
                Err(e) => if e == NoiseError::NonceExhausted {
                    post == (SessionView {
                        role: pre.role,
                        stage: Stage::Transport { sent, received: NONCE_MAX as nat },
                    })
                } else {
                    post == pre
                },
            }
        },
        _ => r == Err::<Vec<u8>, NoiseError>(NoiseError::ProtocolViolation) && post == pre,
    }
}

enum Phase {
    Handshaking { hs: snow::HandshakeState, position: usize },
    Transport { ts: snow::TransportState, sent: u64, received: u64 },
    Failed,
}

/// One party of a Noise `XX` channel.
pub struct Session {
    role: Role,
    phase: Phase,
}

impl View for Session {
    type V = SessionView;

    closed spec fn view(&self) -> SessionView {
        SessionView {
            role: self.role,
            stage: match self.phase {
                Phase::Handshaking { position, .. } => Stage::Handshaking {
                    position: position as nat,
                },
                Phase::Transport { sent, received, .. } => Stage::Transport {
                    sent: sent as nat,
                    received: received as nat,
                },
                Phase::Failed => Stage::Failed,
            },
        }
    }
}

impl Session {
    /// The handshake position always lies inside the pattern.
    #[verifier::type_invariant]
    spec fn inv(&self) -> bool {
        self.phase matches Phase::Handshaking { position, .. } ==> position < MESSAGE_COUNT
    }

    /// A session of `role` that can do nothing, to stand in while a session
    /// is moved out of its place.
    pub(crate) fn placeholder(role: Role) -> (r: Session)
        ensures
            r@ == (SessionView { role, stage: Stage::Failed }),
    {
        Session { role, phase: Phase::Failed }
    }

    /// Starts a handshake in `role` with the local static private key
    /// `private`. A key of the wrong width is a configuration error.
    pub fn new(role: Role, private: &[u8]) -> (r: Result<Session, NoiseError>)
        ensures
            private@.len() != DH_LEN ==> r == Err::<Session, NoiseError>(NoiseError::Configuration),
            private@.len() == DH_LEN ==> r is Ok,
            r matches Ok(s) ==> s@.role == role && s@.stage == (Stage::Handshaking {
                position: 0,
            }),
    {
        if private.len() != DH_LEN {
            return Err(NoiseError::Configuration);
        }
        let built = match role {
            Role::Initiator => engine::build_initiator(SUITE_NAME, private),
            Role::Responder => engine::build_responder(SUITE_NAME, private),
        };
        match built {
            Ok(hs) => Ok(Session { role, phase: Phase::Handshaking { hs, position: 0 } }),
            Err(e) => Err(classify(engine::failure_of(e))),
        }
    }

    /// The role this session plays.
    pub fn role(&self) -> (r: Role)
        ensures
            r == self@.role,
    {
        self.role
    }

    /// Whether the handshake is over and the transport phase has begun.
    pub fn is_complete(&self) -> (r: bool)
        ensures
            r == self@.stage is Transport,
    {
        match self.phase {
            Phase::Transport { .. } => true,
            _ => false,
        }
    }

    /// Whether the handshake was aborted.
    pub fn is_failed(&self) -> (r: bool)
        ensures
            r == self@.stage is Failed,
    {
        match self.phase {
            Phase::Failed => true,
            _ => false,
        }
    }

    /// What the handshake waits for next, or `None` once it is over.
    pub fn next_action(&self) -> (r: Option<Action>)
        ensures
            r == (match self@.stage {
                Stage::Handshaking { position } => Some(action_at(self@.role, position)),
                _ => None,
            }),
    {
        proof {
            use_type_invariant(self);
        }
        match self.phase {
            Phase::Handshaking { position, .. } => Some(next_action(self.role, position)),
            _ => None,
        }
    }
    /// Moves past message `position`: into the transport phase after the
    /// last message, else to the next position.
    fn advance(&mut self, hs: snow::HandshakeState, position: usize) -> (r: Result<(), NoiseError>)
        requires
            position < MESSAGE_COUNT,
        ensures
            final(self)@.role == old(self)@.role,
            r is Ok ==> final(self)@.stage == stage_after(position as nat),
            r is Err ==> final(self)@.stage is Failed,
    {
        if position + 1 == MESSAGE_COUNT {
            match engine::into_transport(hs) {
                Ok(ts) => {
                    self.phase = Phase::Transport { ts, sent: 0, received: 0 };
                    Ok(())
                },
                Err(e) => {
                    self.phase = Phase::Failed;
                    Err(classify(engine::failure_of(e)))
                },
            }
        } else {
            self.phase = Phase::Handshaking { hs, position: position + 1 };
            Ok(())
        }
    }

    /// Writes the next handshake message, carrying `payload`.
    ///
    /// Outside the handshake this is a protocol violation and changes
    /// nothing. Within it, out of turn, with a payload too long for one
    /// message, or when the engine fails, the handshake is aborted.
    pub fn write_message(&mut self, payload: &[u8]) -> (r: Result<Vec<u8>, NoiseError>)
        ensures
            write_spec(old(self)@, final(self)@, payload@, r),
    {
        proof {
            use_type_invariant(&*self);
        }
        let mut phase = Phase::Failed;
        std::mem::swap(&mut self.phase, &mut phase);
        match phase {
            Phase::Handshaking { mut hs, position } => {
                if next_action(self.role, position) != Action::WriteMessage {
                    return Err(NoiseError::ProtocolViolation);
                }
                let extra = overhead(position);
                if payload.len() > MAX_MESSAGE_LEN - extra {
                    return Err(NoiseError::MalformedMessage);
                }
                // The engine wants room for a tag after the payload even where
                // none is written, and room for a whole encrypted static key
                // before it checks the tag's.
                let room = extra + payload.len() + TAG_LEN + 2 * DH_LEN;
                let mut out: Vec<u8> = vec![0u8; room];
                match engine::handshake_write(&mut hs, payload, &mut out) {
                    Ok(n) => {
                        if n != extra + payload.len() {
                            return Err(NoiseError::MalformedMessage);
                        }
                        out.truncate(n);
                        match self.advance(hs, position) {
                            Ok(()) => Ok(out),
                            Err(e) => Err(e),
                        }
                    },
                    Err(e) => Err(classify(engine::failure_of(e))),
                }
            },
            other => {
                self.phase = other;
                Err(NoiseError::ProtocolViolation)
            },
        }
    }

    /// Reads the next handshake message and returns its payload.
    ///
    /// Outside the handshake this is a protocol violation and changes
    /// nothing. Within it, out of turn, with a message shorter than the
    /// pattern demands or longer than the protocol allows, or when the engine
    /// rejects it, the handshake is aborted.
    pub fn read_message(&mut self, message: &[u8]) -> (r: Result<Vec<u8>, NoiseError>)
        ensures
            read_spec(old(self)@, final(self)@, message@, r),
    {
        proof {
            use_type_invariant(&*self);
        }
        let mut phase = Phase::Failed;
        std::mem::swap(&mut self.phase, &mut phase);
        match phase {
            Phase::Handshaking { mut hs, position } => {
                if next_action(self.role, position) != Action::ReadMessage {
                    return Err(NoiseError::ProtocolViolation);
                }
                if message.len() < overhead(position) || message.len() > MAX_MESSAGE_LEN {
                    return Err(NoiseError::MalformedMessage);
                }
                let mut out: Vec<u8> = vec![0u8; message.len()];
                match engine::handshake_read(&mut hs, message, &mut out) {
                    Ok(n) => {
                        if n + overhead(position) != message.len() {
                            return Err(NoiseError::MalformedMessage);
                        }
                        out.truncate(n);
                        match self.advance(hs, position) {
                            Ok(()) => Ok(out),
                            Err(e) => Err(e),
                        }
                    },
                    Err(e) => Err(classify(engine::failure_of(e))),
                }
            },
            other => {
                self.phase = other;
                Err(NoiseError::ProtocolViolation)
            },
        }
    }
    /// Encrypts `plaintext` for the peer under the sending key.
    ///
    /// Each success moves the sending nonce counter up by exactly one. Once
    /// the counter holds its maximum nothing more is sent, and the counter
    /// never wraps. No failure changes the session.
    pub fn encrypt(&mut self, plaintext: &[u8]) -> (r: Result<Vec<u8>, NoiseError>)
        ensures
            encrypt_spec(old(self)@, final(self)@, plaintext@, r),
    {
        proof {
            use_type_invariant(&*self);
        }
        let mut phase = Phase::Failed;
        std::mem::swap(&mut self.phase, &mut phase);
        match phase {
            Phase::Transport { mut ts, sent, received } => {
                if sent == NONCE_MAX {
                    self.phase = Phase::Transport { ts, sent, received };
                    return Err(NoiseError::NonceExhausted);
                }
                if plaintext.len() > MAX_MESSAGE_LEN - TAG_LEN {
                    self.phase = Phase::Transport { ts, sent, received };
                    return Err(NoiseError::MalformedMessage);
                }
                let mut out: Vec<u8> = vec![0u8; plaintext.len() + TAG_LEN];
                match engine::transport_write(&mut ts, plaintext, &mut out) {
                    Ok(n) => {
                        out.truncate(n);
                        self.phase = Phase::Transport { ts, sent: sent + 1, received };
                        Ok(out)
                    },
                    Err(e) => {
                        let err = classify(engine::failure_of(e));
                        if err == NoiseError::NonceExhausted {
                            self.phase = Phase::Transport { ts, sent: NONCE_MAX, received };
                        } else {
                            self.phase = Phase::Transport { ts, sent, received };
                        }
                        Err(err)
                    },
                }
            },
            other => {
                self.phase = other;
                Err(NoiseError::ProtocolViolation)
            },
        }
    }

    /// Decrypts `ciphertext` from the peer under the receiving key.
    ///
    /// A ciphertext too short to hold a tag, or longer than the protocol
    /// allows, is malformed. Each success moves the receiving nonce counter
    /// up by exactly one; a tag that does not verify fails and releases no
    /// plaintext. No failure changes the session.
    pub fn decrypt(&mut self, ciphertext: &[u8]) -> (r: Result<Vec<u8>, NoiseError>)
        ensures
            decrypt_spec(old(self)@, final(self)@, ciphertext@, r),
    {
        proof {
            use_type_invariant(&*self);
        }
        let mut phase = Phase::Failed;
        std::mem::swap(&mut self.phase, &mut phase);
        match phase {
            Phase::Transport { mut ts, sent, received } => {
                if ciphertext.len() < TAG_LEN || ciphertext.len() > MAX_MESSAGE_LEN {
                    self.phase = Phase::Transport { ts, sent, received };
                    return Err(NoiseError::MalformedMessage);
                }
                if received == NONCE_MAX {
                    self.phase = Phase::Transport { ts, sent, received };
                    return Err(NoiseError::NonceExhausted);
                }
                let mut out: Vec<u8> = vec![0u8; ciphertext.len()];
                match engine::transport_read(&mut ts, ciphertext, &mut out) {
                    Ok(n) => {
                        out.truncate(n);
                        self.phase = Phase::Transport { ts, sent, received: received + 1 };
                        Ok(out)
                    },
                    Err(e) => {
                        let err = classify(engine::failure_of(e));
                        if err == NoiseError::NonceExhausted {
                            self.phase = Phase::Transport { ts, sent, received: NONCE_MAX };
                        } else {
                            self.phase = Phase::Transport { ts, sent, received };
                        }
                        Err(err)
                    },
                }
            },
            other => {
                self.phase = other;
                Err(NoiseError::ProtocolViolation)
            },
        }
    }
}

} // verus!
