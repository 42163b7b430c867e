//! The responding party: it reads the first handshake message.

use vstd::prelude::*;
use crate::error::NoiseError;
use crate::keys::Keypair;
use crate::pattern::{Role, DH_LEN};
use crate::session::{
    decrypt_spec, encrypt_spec, read_spec, write_spec, Session, SessionView, Stage,
};

verus! {

/// The responder of a Noise `XX` channel.
pub struct Responder {
    session: Session,
}

impl View for Responder {
    type V = SessionView;

    closed spec fn view(&self) -> SessionView {
        self.session@
    }
}

impl Responder {
    /// The session inside plays the responder.
    #[verifier::type_invariant]
    spec fn inv(&self) -> bool {
        self.session@.role == Role::Responder
    }

    /// The role this party plays.
    pub fn role(&self) -> (r: Role)
        ensures
            r == self@.role,
            r == Role::Responder,
    {
        proof {
            use_type_invariant(self);
        }
        self.session.role()
    }

    /// A responder with a freshly generated static key, waiting for the first
    /// message.
    pub fn new() -> (r: Result<Responder, NoiseError>)
        ensures
            r matches Ok(s) && s@.role == Role::Responder && s@.stage == (Stage::Handshaking {
                position: 0,
            }),
    {
        let keys = Keypair::generate()?;
        Responder::with_static_key(keys.private_key())
    }

    /// A responder whose static private key is `private`, waiting for the
    /// first message. A key of the wrong width is a configuration error.
    pub fn with_static_key(private: &[u8]) -> (r: Result<Responder, NoiseError>)
        ensures
            private@.len() != DH_LEN ==> r == Err::<Responder, NoiseError>(
                NoiseError::Configuration,
            ),
            private@.len() == DH_LEN ==> r is Ok,
            r matches Ok(s) ==> s@.role == Role::Responder && s@.stage == (Stage::Handshaking { position: 0 }),
    {
        match Session::new(Role::Responder, private) {
            Ok(session) => Ok(Responder { session }),
            Err(e) => Err(e),
        }
    }

    /// Reads the initiator's next handshake message and returns its payload.
    pub fn read_message(&mut self, msg: &[u8]) -> (r: Result<Vec<u8>, NoiseError>)
        ensures
            final(self)@.role == Role::Responder,
            read_spec(old(self)@, final(self)@, msg@, r),
    {
        proof {
            use_type_invariant(&*self);
        }
        let mut session = Session::placeholder(Role::Responder);
        std::mem::swap(&mut self.session, &mut session);
        let r = session.read_message(msg);
        self.session = session;
        r
    }

    /// Writes the next handshake message, with an empty payload.
    pub fn write_message(&mut self) -> (r: Result<Vec<u8>, NoiseError>)
        ensures
            final(self)@.role == Role::Responder,
            write_spec(old(self)@, final(self)@, Seq::empty(), r),
    {
        let empty: Vec<u8> = Vec::new();
        let r = self.write_message_with(empty.as_slice());
        assert(empty@ =~= Seq::<u8>::empty());
        r
    }

    /// Writes the next handshake message, carrying `payload`.
    pub fn write_message_with(&mut self, payload: &[u8]) -> (r: Result<Vec<u8>, NoiseError>)
        ensures
            final(self)@.role == Role::Responder,
            write_spec(old(self)@, final(self)@, payload@, r),
    {
        proof {
            use_type_invariant(&*self);
        }
        let mut session = Session::placeholder(Role::Responder);
        std::mem::swap(&mut self.session, &mut session);
        let r = session.write_message(payload);
        self.session = session;
        r
    }

    /// Whether the handshake is over and the transport phase has begun.
    pub fn is_complete(&self) -> (r: bool)
        ensures
            r == self@.stage is Transport,
    {
        self.session.is_complete()
    }

    /// Whether the handshake was aborted.
    pub fn is_failed(&self) -> (r: bool)
        ensures
            r == self@.stage is Failed,
    {
        self.session.is_failed()
    }

    /// Encrypts `plaintext` for the initiator.
    pub fn encrypt(&mut self, plaintext: &[u8]) -> (r: Result<Vec<u8>, NoiseError>)
        ensures
            final(self)@.role == Role::Responder,
            encrypt_spec(old(self)@, final(self)@, plaintext@, r),
    {
        proof {
            use_type_invariant(&*self);
        }
        let mut session = Session::placeholder(Role::Responder);
        std::mem::swap(&mut self.session, &mut session);
        let r = session.encrypt(plaintext);
        self.session = session;
        r
    }

    /// Decrypts `ciphertext` from the initiator.
    pub fn decrypt(&mut self, ciphertext: &[u8]) -> (r: Result<Vec<u8>, NoiseError>)
        ensures
            final(self)@.role == Role::Responder,
            decrypt_spec(old(self)@, final(self)@, ciphertext@, r),
    {
        proof {
            use_type_invariant(&*self);
        }
        let mut session = Session::placeholder(Role::Responder);
        std::mem::swap(&mut self.session, &mut session);
        let r = session.decrypt(ciphertext);
        self.session = session;
        r
    }
}

} // verus!
