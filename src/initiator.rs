//! The initiating party: it writes the first handshake message.

use vstd::prelude::*;
use crate::error::NoiseError;
use crate::keys::Keypair;
use crate::pattern::{Role, DH_LEN};
use crate::session::{
    decrypt_spec, encrypt_spec, read_spec, write_spec, Session, SessionView, Stage,
};

verus! {

/// The initiator of a Noise `XX` channel.
pub struct Initiator {
    session: Session,
}

impl View for Initiator {
    type V = SessionView;

    closed spec fn view(&self) -> SessionView {
        self.session@
    }
}

impl Initiator {
    /// The session inside plays the initiator.
    #[verifier::type_invariant]
    spec fn inv(&self) -> bool {
        self.session@.role == Role::Initiator
    }

    /// The role this party plays.
    pub fn role(&self) -> (r: Role)
        ensures
            r == self@.role,
            r == Role::Initiator,
    {
        proof {
            use_type_invariant(self);
        }
        self.session.role()
    }

    /// An initiator with a freshly generated static key, ready to write the first
    /// message.
    pub fn new() -> (r: Result<Initiator, NoiseError>)
        ensures
            r matches Ok(s) && s@.role == Role::Initiator && s@.stage == (Stage::Handshaking {
                position: 0,
            }),
    {
        let keys = Keypair::generate()?;
        Initiator::with_static_key(keys.private_key())
    }

    /// An initiator whose static private key is `private`, ready to write the
    /// first message. A key of the wrong width is a configuration error.
    pub fn with_static_key(private: &[u8]) -> (r: Result<Initiator, NoiseError>)
        ensures
            private@.len() != DH_LEN ==> r == Err::<Initiator, NoiseError>(
                NoiseError::Configuration,
            ),
            private@.len() == DH_LEN ==> r is Ok,
            r matches Ok(s) ==> s@.role == Role::Initiator && s@.stage == (Stage::Handshaking { position: 0 }),
    {
        match Session::new(Role::Initiator, private) {
            Ok(session) => Ok(Initiator { session }),
            Err(e) => Err(e),
        }
    }

    /// Reads the responder's next handshake message and returns its payload.
    pub fn read_message(&mut self, msg: &[u8]) -> (r: Result<Vec<u8>, NoiseError>)
        ensures
            final(self)@.role == Role::Initiator,
            read_spec(old(self)@, final(self)@, msg@, r),
    {
        proof {
            use_type_invariant(&*self);
        }
        let mut session = Session::placeholder(Role::Initiator);
        std::mem::swap(&mut self.session, &mut session);
        let r = session.read_message(msg);
        self.session = session;
        r
    }

    /// Writes the next handshake message, with an empty payload.
    pub fn write_message(&mut self) -> (r: Result<Vec<u8>, NoiseError>)
        ensures
            final(self)@.role == Role::Initiator,
            write_spec(old(self)@, final(self)@, Seq::empty(), r),
    {
        let empty: Vec<u8> = Vec::new();
        let r = self.write_message_with(empty.as_slice());
        assert(empty@ =~= Seq::<u8>::empty());
        r
    }

    /// Writes the next handshake message, carrying `payload`.
    pub fn write_message_with(&mut self, payload: &[u8]) -> (r: Result<Vec<u8>, NoiseError>)
        ensures
            final(self)@.role == Role::Initiator,
            write_spec(old(self)@, final(self)@, payload@, r),
    {
        proof {
            use_type_invariant(&*self);
        }
        let mut session = Session::placeholder(Role::Initiator);
        std::mem::swap(&mut self.session, &mut session);
        let r = session.write_message(payload);
        self.session = session;
        r
    }

    /// Whether the handshake is over and the transport phase has begun.
    pub fn is_complete(&self) -> (r: bool)
        ensures
            r == self@.stage is Transport,
    {
        self.session.is_complete()
    }

    /// Whether the handshake was aborted.
    pub fn is_failed(&self) -> (r: bool)
        ensures
            r == self@.stage is Failed,
    {
        self.session.is_failed()
    }

    /// Encrypts `plaintext` for the responder.
    pub fn encrypt(&mut self, plaintext: &[u8]) -> (r: Result<Vec<u8>, NoiseError>)
        ensures
            final(self)@.role == Role::Initiator,
            encrypt_spec(old(self)@, final(self)@, plaintext@, r),
    {
        proof {
            use_type_invariant(&*self);
        }
        let mut session = Session::placeholder(Role::Initiator);
        std::mem::swap(&mut self.session, &mut session);
        let r = session.encrypt(plaintext);
        self.session = session;
        r
    }

    /// Decrypts `ciphertext` from the responder.
    pub fn decrypt(&mut self, ciphertext: &[u8]) -> (r: Result<Vec<u8>, NoiseError>)
        ensures
            final(self)@.role == Role::Initiator,
            decrypt_spec(old(self)@, final(self)@, ciphertext@, r),
    {
        proof {
            use_type_invariant(&*self);
        }
        let mut session = Session::placeholder(Role::Initiator);
        std::mem::swap(&mut self.session, &mut session);
        let r = session.decrypt(ciphertext);
        self.session = session;
        r
    }
}

} // verus!
