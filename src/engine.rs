//! The cryptographic engine, `snow`: its types, and one wrapper for each of
//! its functions that the channel calls. Nothing here decides anything.

use vstd::prelude::*;
use crate::error::{EngineFailure, StateIssue};
use crate::pattern::{DH_LEN, MAX_MESSAGE_LEN, TAG_LEN};
use snow::error::StateProblem;

verus! {

#[verifier::external_type_specification]
#[verifier::external_body]
pub struct ExHandshakeState(snow::HandshakeState);

#[verifier::external_type_specification]
#[verifier::external_body]
pub struct ExTransportState(snow::TransportState);

#[verifier::external_type_specification]
#[verifier::external_body]
pub struct ExError(snow::Error);

#[verifier::external_type_specification]
#[verifier::external_body]
pub struct ExStateProblem(StateProblem);

/// Relies on the variants of `snow::Error`: each is carried over to the
/// variant of the same name.
#[verifier::external_body]
pub(crate) fn failure_of(e: snow::Error) -> (r: EngineFailure) {
    match e {
        snow::Error::Pattern(_) => EngineFailure::Pattern,
        snow::Error::Init(_) => EngineFailure::Init,
        snow::Error::Prereq(_) => EngineFailure::Prereq,
        snow::Error::State(p) => EngineFailure::State(issue_of(p)),
        snow::Error::Input => EngineFailure::Input,
        snow::Error::Dh => EngineFailure::Dh,
        snow::Error::Decrypt => EngineFailure::Decrypt,
        _ => EngineFailure::Other,
    }
}

/// Relies on the variants of `snow::error::StateProblem`: each is carried
/// over to the variant of the same name.
#[verifier::external_body]
fn issue_of(p: StateProblem) -> (r: StateIssue) {
    match p {
        StateProblem::MissingKeyMaterial => StateIssue::MissingKeyMaterial,
        StateProblem::MissingPsk => StateIssue::MissingPsk,
        StateProblem::NotTurnToWrite => StateIssue::NotTurnToWrite,
        StateProblem::NotTurnToRead => StateIssue::NotTurnToRead,
        StateProblem::HandshakeNotFinished => StateIssue::HandshakeNotFinished,
        StateProblem::HandshakeAlreadyFinished => StateIssue::HandshakeAlreadyFinished,
        StateProblem::OneWay => StateIssue::OneWay,
        StateProblem::StatelessTransportMode => StateIssue::StatelessTransportMode,
        StateProblem::Exhausted => StateIssue::Exhausted,
    }
}

/// Relies on `<snow::params::NoiseParams as FromStr>::from_str` and
/// `snow::Builder::generate_keypair`: a fresh random key pair for the suite's
/// DH function, as (private, public). The `XX` suite over Curve25519,
/// ChaChaPoly and BLAKE2s always parses, and its DH keys are 32 bytes wide.
#[verifier::external_body]
pub(crate) fn generate_keypair(name: &str) -> (r: Result<(Vec<u8>, Vec<u8>), snow::Error>)
    ensures
        name@ == "Noise_XX_25519_ChaChaPoly_BLAKE2s"@ ==> r is Ok,
        r matches Ok((p, q)) ==> (name@ == "Noise_XX_25519_ChaChaPoly_BLAKE2s"@ ==> p@.len()
            == DH_LEN && q@.len() == DH_LEN),
{
    snow::Builder::new(name.parse()?).generate_keypair().map(|k| (k.private, k.public))
}

/// Relies on `<snow::params::NoiseParams as FromStr>::from_str` and
/// `snow::Builder::build_initiator` with the local static private key set.
/// The `XX` suite over Curve25519, ChaChaPoly and BLAKE2s always parses and
/// builds from a 32-byte scalar; a longer key would panic when set.
#[verifier::external_body]
pub(crate) fn build_initiator(name: &str, key: &[u8]) -> (r: Result<
    snow::HandshakeState,
    snow::Error,
>)
    requires
        key@.len() == DH_LEN,
    ensures
        name@ == "Noise_XX_25519_ChaChaPoly_BLAKE2s"@ ==> r is Ok,
{
    snow::Builder::new(name.parse()?).local_private_key(key).build_initiator()
}

/// Relies on `<snow::params::NoiseParams as FromStr>::from_str` and
/// `snow::Builder::build_responder` with the local static private key set.
/// The `XX` suite over Curve25519, ChaChaPoly and BLAKE2s always parses and
/// builds from a 32-byte scalar; a longer key would panic when set.
#[verifier::external_body]
pub(crate) fn build_responder(name: &str, key: &[u8]) -> (r: Result<
    snow::HandshakeState,
    snow::Error,
>)
    requires
        key@.len() == DH_LEN,
    ensures
        name@ == "Noise_XX_25519_ChaChaPoly_BLAKE2s"@ ==> r is Ok,
{
    snow::Builder::new(name.parse()?).local_private_key(key).build_responder()
}

/// Relies on `snow::HandshakeState::write_message`: writes the next handshake
/// message into `out`, leaves its length alone, and reports how many bytes
/// it wrote, never more than the protocol's largest message. The engine
/// checks room for a static key before writing it but not for its tag, so
/// `out` must hold an ephemeral key and an encrypted static key.
#[verifier::external_body]
pub(crate) fn handshake_write(
    hs: &mut snow::HandshakeState,
    payload: &[u8],
    out: &mut Vec<u8>,
) -> (r: Result<usize, snow::Error>)
    requires
        old(out)@.len() >= 2 * DH_LEN + TAG_LEN,
    ensures
        final(out)@.len() == old(out)@.len(),
        r matches Ok(n) ==> n <= final(out)@.len() && n <= MAX_MESSAGE_LEN,
{
    hs.write_message(payload, out.as_mut_slice())
}

/// Relies on `snow::HandshakeState::read_message`: reads a handshake message,
/// writes its payload into `out`, leaves its length alone, and reports the
/// payload's length, which never exceeds the message's. An unencrypted
/// payload is copied whole, so `out` must be as long as the message.
#[verifier::external_body]
pub(crate) fn handshake_read(
    hs: &mut snow::HandshakeState,
    message: &[u8],
    out: &mut Vec<u8>,
) -> (r: Result<usize, snow::Error>)
    requires
        old(out)@.len() >= message@.len(),
    ensures
        final(out)@.len() == old(out)@.len(),
        r matches Ok(n) ==> n <= message@.len(),
{
    hs.read_message(message, out.as_mut_slice())
}

/// Relies on `snow::HandshakeState::into_transport_mode`: the split into the
/// two transport cipher states.
#[verifier::external_body]
pub(crate) fn into_transport(hs: snow::HandshakeState) -> (r: Result<
    snow::TransportState,
    snow::Error,
>) {
    hs.into_transport_mode()
}

/// Relies on `snow::TransportState::write_message`: on success the ciphertext
/// is the plaintext's length plus one tag, written into `out`, whose length
/// stays.
#[verifier::external_body]
pub(crate) fn transport_write(
    ts: &mut snow::TransportState,
    payload: &[u8],
    out: &mut Vec<u8>,
) -> (r: Result<usize, snow::Error>)
    ensures
        final(out)@.len() == old(out)@.len(),
        r matches Ok(n) ==> n == payload@.len() + TAG_LEN,
{
    ts.write_message(payload, out.as_mut_slice())
}

/// Relies on `snow::TransportState::read_message`: on success the plaintext
/// is the ciphertext's length less one tag, written into `out`, whose length
/// stays.
#[verifier::external_body]
pub(crate) fn transport_read(
    ts: &mut snow::TransportState,
    message: &[u8],
    out: &mut Vec<u8>,
) -> (r: Result<usize, snow::Error>)
    ensures
        final(out)@.len() == old(out)@.len(),
        r matches Ok(n) ==> n + TAG_LEN == message@.len(),
{
    ts.read_message(message, out.as_mut_slice())
}

} // verus!
