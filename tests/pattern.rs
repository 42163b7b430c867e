use noise_wasm::error::{classify, EngineFailure, NoiseError, StateIssue};
use noise_wasm::pattern::{keyed_at, next_action, overhead, tokens, writer, Action, Role, Token};

#[test]
fn token_table() {
    assert_eq!(tokens(0), vec![Token::E]);
    assert_eq!(tokens(1), vec![Token::E, Token::EE, Token::S, Token::ES]);
    assert_eq!(tokens(2), vec![Token::S, Token::SE]);
}

#[test]
fn message_overheads() {
    assert_eq!(overhead(0), 32);
    assert_eq!(overhead(1), 96);
    assert_eq!(overhead(2), 64);
}

#[test]
fn keys_installed_from_second_message_on() {
    assert!(!keyed_at(0));
    assert!(!keyed_at(1));
    assert!(keyed_at(2));
}

#[test]
fn turns_alternate() {
    assert_eq!(writer(0), Role::Initiator);
    assert_eq!(writer(1), Role::Responder);
    assert_eq!(writer(2), Role::Initiator);
    assert_eq!(next_action(Role::Responder, 0), Action::ReadMessage);
    assert_eq!(next_action(Role::Initiator, 0), Action::WriteMessage);
    assert_eq!(next_action(Role::Responder, 1), Action::WriteMessage);
    assert_eq!(next_action(Role::Initiator, 2), Action::WriteMessage);
}

#[test]
fn engine_failures_classified() {
    assert_eq!(classify(EngineFailure::Decrypt), NoiseError::AuthenticationFailed);
    assert_eq!(classify(EngineFailure::Input), NoiseError::MalformedMessage);
    assert_eq!(classify(EngineFailure::Dh), NoiseError::MalformedMessage);
    assert_eq!(classify(EngineFailure::Pattern), NoiseError::Configuration);
    assert_eq!(classify(EngineFailure::Prereq), NoiseError::Configuration);
    assert_eq!(classify(EngineFailure::State(StateIssue::Exhausted)), NoiseError::NonceExhausted);
    assert_eq!(
        classify(EngineFailure::State(StateIssue::NotTurnToRead)),
        NoiseError::ProtocolViolation
    );
}

#[test]
fn error_messages() {
    assert_eq!(NoiseError::NonceExhausted.message(), "nonce exhausted");
    assert_eq!(NoiseError::Configuration.message(), "configuration error");
    assert_eq!(NoiseError::AuthenticationFailed.message(), "authentication failed");
}
