use noise_wasm::error::NoiseError;
use noise_wasm::initiator::Initiator;
use noise_wasm::keys::Keypair;
use noise_wasm::responder::Responder;

fn pair() -> (Initiator, Responder) {
    let a = Keypair::generate().unwrap();
    let b = Keypair::generate().unwrap();
    (
        Initiator::with_static_key(a.private_key()).unwrap(),
        Responder::with_static_key(b.private_key()).unwrap(),
    )
}

fn handshake(i: &mut Initiator, r: &mut Responder) {
    let m1 = i.write_message().unwrap();
    assert_eq!(m1.len(), 32);
    assert_eq!(r.read_message(&m1).unwrap(), Vec::<u8>::new());
    let m2 = r.write_message().unwrap();
    assert_eq!(m2.len(), 96);
    assert_eq!(i.read_message(&m2).unwrap(), Vec::<u8>::new());
    let m3 = i.write_message().unwrap();
    assert_eq!(m3.len(), 64);
    assert_eq!(r.read_message(&m3).unwrap(), Vec::<u8>::new());
}

#[test]
fn end_to_end_ping_pong() {
    let (mut i, mut r) = pair();
    assert!(!i.is_complete());
    assert!(!r.is_complete());
    handshake(&mut i, &mut r);
    assert!(i.is_complete());
    assert!(r.is_complete());
    let c = i.encrypt(b"ping").unwrap();
    assert_eq!(r.decrypt(&c).unwrap(), b"ping".to_vec());
    let c = r.encrypt(b"pong").unwrap();
    assert_eq!(i.decrypt(&c).unwrap(), b"pong".to_vec());
}

#[test]
fn keys_match_across_several_pairs() {
    for _ in 0..4 {
        let (mut i, mut r) = pair();
        handshake(&mut i, &mut r);
        let c = i.encrypt(b"to responder").unwrap();
        assert_eq!(r.decrypt(&c).unwrap(), b"to responder".to_vec());
        let c = r.encrypt(b"to initiator").unwrap();
        assert_eq!(i.decrypt(&c).unwrap(), b"to initiator".to_vec());
    }
}

#[test]
fn fresh_keys_from_new() {
    let mut i = Initiator::new().unwrap();
    let mut r = Responder::new().unwrap();
    let m1 = i.write_message().unwrap();
    r.read_message(&m1).unwrap();
    let m2 = r.write_message().unwrap();
    i.read_message(&m2).unwrap();
    let m3 = i.write_message().unwrap();
    r.read_message(&m3).unwrap();
    assert!(r.is_complete());
}

#[test]
fn round_trip_all_payload_sizes() {
    let (mut i, mut r) = pair();
    handshake(&mut i, &mut r);
    for n in [0usize, 1, 15, 16, 17, 1000, 65535 - 16] {
        let p: Vec<u8> = (0..n).map(|k| (k % 251) as u8).collect();
        let c = i.encrypt(&p).unwrap();
        assert_eq!(c.len(), n + 16);
        assert_eq!(r.decrypt(&c).unwrap(), p);
        let c = r.encrypt(&p).unwrap();
        assert_eq!(c.len(), n + 16);
        assert_eq!(i.decrypt(&c).unwrap(), p);
    }
}

#[test]
fn handshake_message_sizes() {
    let (mut i, mut r) = pair();
    let m1 = i.write_message().unwrap();
    assert_eq!(m1.len(), 32);
    r.read_message(&m1).unwrap();
    let m2 = r.write_message_with(b"hi").unwrap();
    assert_eq!(m2.len(), 96 + 2);
    assert_eq!(i.read_message(&m2).unwrap(), b"hi".to_vec());
    let m3 = i.write_message_with(b"abc").unwrap();
    assert_eq!(m3.len(), 64 + 3);
    assert_eq!(r.read_message(&m3).unwrap(), b"abc".to_vec());
}

#[test]
fn payload_in_first_message() {
    let (mut i, mut r) = pair();
    let m1 = i.write_message_with(b"hello").unwrap();
    assert_eq!(m1.len(), 32 + 5);
    assert_eq!(r.read_message(&m1).unwrap(), b"hello".to_vec());
}

#[test]
fn flipped_bit_in_second_message_fails() {
    for bit in [0usize, 7, 32 * 8 + 3, 95 * 8 + 7] {
        let (mut i, mut r) = pair();
        let m1 = i.write_message().unwrap();
        r.read_message(&m1).unwrap();
        let mut m2 = r.write_message().unwrap();
        m2[bit / 8] ^= 1 << (bit % 8);
        assert_eq!(i.read_message(&m2), Err(NoiseError::AuthenticationFailed));
    }
}

#[test]
fn flipped_bit_in_third_message_fails() {
    for bit in [0usize, 40 * 8 + 1, 63 * 8 + 7] {
        let (mut i, mut r) = pair();
        let m1 = i.write_message().unwrap();
        r.read_message(&m1).unwrap();
        let m2 = r.write_message().unwrap();
        i.read_message(&m2).unwrap();
        let mut m3 = i.write_message().unwrap();
        m3[bit / 8] ^= 1 << (bit % 8);
        assert_eq!(r.read_message(&m3), Err(NoiseError::AuthenticationFailed));
        assert!(r.is_failed());
    }
}

#[test]
fn flipped_bit_in_first_message_fails_later() {
    let (mut i, mut r) = pair();
    let mut m1 = i.write_message().unwrap();
    m1[5] ^= 0x10;
    r.read_message(&m1).unwrap();
    let m2 = r.write_message().unwrap();
    assert_eq!(i.read_message(&m2), Err(NoiseError::AuthenticationFailed));
}

#[test]
fn flipped_bit_in_transport_ciphertext_fails() {
    let (mut i, mut r) = pair();
    handshake(&mut i, &mut r);
    let c = i.encrypt(b"ping").unwrap();
    for bit in 0..(c.len() * 8) {
        let mut bad = c.clone();
        bad[bit / 8] ^= 1 << (bit % 8);
        assert_eq!(r.decrypt(&bad), Err(NoiseError::AuthenticationFailed));
    }
    assert_eq!(r.decrypt(&c).unwrap(), b"ping".to_vec());
}

#[test]
fn finished_handshake_refuses_messages() {
    let (mut i, mut r) = pair();
    handshake(&mut i, &mut r);
    assert_eq!(r.write_message(), Err(NoiseError::ProtocolViolation));
    assert_eq!(r.read_message(&[0u8; 48]), Err(NoiseError::ProtocolViolation));
    assert_eq!(i.write_message(), Err(NoiseError::ProtocolViolation));
    assert_eq!(i.read_message(&[0u8; 48]), Err(NoiseError::ProtocolViolation));
    assert!(r.is_complete());
    let c = r.encrypt(b"still works").unwrap();
    assert_eq!(i.decrypt(&c).unwrap(), b"still works".to_vec());
}

#[test]
fn truncated_ephemeral_key_is_malformed() {
    let (mut i, mut r) = pair();
    let m1 = i.write_message().unwrap();
    assert_eq!(r.read_message(&m1[..31]), Err(NoiseError::MalformedMessage));
    assert!(r.is_failed());
    assert_eq!(r.read_message(&m1), Err(NoiseError::ProtocolViolation));
    assert_eq!(r.write_message(), Err(NoiseError::ProtocolViolation));
    assert!(!r.is_complete());
}

#[test]
fn empty_first_message_is_malformed() {
    let (_, mut r) = pair();
    assert_eq!(r.read_message(&[]), Err(NoiseError::MalformedMessage));
}

#[test]
fn short_second_message_is_malformed() {
    let (mut i, mut r) = pair();
    let m1 = i.write_message().unwrap();
    r.read_message(&m1).unwrap();
    let m2 = r.write_message().unwrap();
    assert_eq!(i.read_message(&m2[..95]), Err(NoiseError::MalformedMessage));
}

#[test]
fn out_of_turn_is_a_protocol_violation() {
    let (mut i, mut r) = pair();
    assert_eq!(r.write_message(), Err(NoiseError::ProtocolViolation));
    assert!(r.is_failed());
    assert_eq!(i.read_message(&[0u8; 32]), Err(NoiseError::ProtocolViolation));
    assert!(i.is_failed());
}

#[test]
fn transport_before_handshake_is_refused() {
    let (mut i, mut r) = pair();
    assert_eq!(i.encrypt(b"x"), Err(NoiseError::ProtocolViolation));
    assert_eq!(r.decrypt(&[0u8; 20]), Err(NoiseError::ProtocolViolation));
    assert!(!i.is_failed());
}

#[test]
fn short_ciphertext_is_malformed() {
    let (mut i, mut r) = pair();
    handshake(&mut i, &mut r);
    assert_eq!(r.decrypt(&[0u8; 15]), Err(NoiseError::MalformedMessage));
    let c = i.encrypt(b"").unwrap();
    assert_eq!(c.len(), 16);
    assert_eq!(r.decrypt(&c).unwrap(), Vec::<u8>::new());
}

#[test]
fn oversized_plaintext_is_malformed() {
    let (mut i, mut r) = pair();
    handshake(&mut i, &mut r);
    let big = vec![0u8; 65535 - 15];
    assert_eq!(i.encrypt(&big), Err(NoiseError::MalformedMessage));
    let c = i.encrypt(b"after").unwrap();
    assert_eq!(r.decrypt(&c).unwrap(), b"after".to_vec());
}

#[test]
fn messages_decrypt_in_order() {
    let (mut i, mut r) = pair();
    handshake(&mut i, &mut r);
    let c0 = i.encrypt(b"zero").unwrap();
    let c1 = i.encrypt(b"one").unwrap();
    assert_ne!(c0, c1);
    assert_eq!(r.decrypt(&c1), Err(NoiseError::AuthenticationFailed));
    assert_eq!(r.decrypt(&c0).unwrap(), b"zero".to_vec());
    assert_eq!(r.decrypt(&c1).unwrap(), b"one".to_vec());
}

#[test]
fn same_plaintext_twice_differs() {
    let (mut i, mut r) = pair();
    handshake(&mut i, &mut r);
    let c0 = i.encrypt(b"same").unwrap();
    let c1 = i.encrypt(b"same").unwrap();
    assert_ne!(c0, c1);
    assert_eq!(r.decrypt(&c0).unwrap(), b"same".to_vec());
    assert_eq!(r.decrypt(&c1).unwrap(), b"same".to_vec());
}

#[test]
fn wrong_key_width_is_a_configuration_error() {
    assert!(matches!(Responder::with_static_key(&[1u8; 31]), Err(NoiseError::Configuration)));
    assert!(matches!(Initiator::with_static_key(&[1u8; 33]), Err(NoiseError::Configuration)));
    assert!(matches!(Responder::with_static_key(&[]), Err(NoiseError::Configuration)));
}

#[test]
fn generated_keys_have_full_width() {
    let k = Keypair::generate().unwrap();
    assert_eq!(k.private_key().len(), 32);
    assert_eq!(k.public_key().len(), 32);
    let k2 = Keypair::generate().unwrap();
    assert_ne!(k.private_key(), k2.private_key());
}

#[test]
fn any_full_width_key_builds() {
    for b in [0u8, 1, 0x7f, 0xff] {
        let r = Responder::with_static_key(&[b; 32]).unwrap();
        assert!(!r.is_complete());
        assert!(!r.is_failed());
        assert!(Initiator::with_static_key(&[b; 32]).is_ok());
    }
}
