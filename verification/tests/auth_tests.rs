use port_proxy::auth::{Authenticator, HandshakeError};
use port_proxy::message::{id_to_bytes, ClientMessage, ServerMessage};

const CHALLENGE: u128 = 0x0123_4567_89ab_cdef_0011_2233_4455_6677;
const SECRET_TAG: &str = "5716f42f832d6857c795a88dd3b1b29776e4101549df49df4316d146b0d29e86";

#[test]
fn id_bytes_are_big_endian() {
    assert_eq!(
        id_to_bytes(CHALLENGE),
        vec![0x01, 0x23, 0x45, 0x67, 0x89, 0xab, 0xcd, 0xef, 0x00, 0x11, 0x22, 0x33, 0x44, 0x55, 0x66, 0x77]
    );
    assert_eq!(id_to_bytes(0), vec![0u8; 16]);
}

#[test]
fn encrypt_is_hex_hmac_of_challenge_under_hashed_secret() {
    let auth = Authenticator::new("secret");
    assert_eq!(auth.encrypt(CHALLENGE), SECRET_TAG);
}

#[test]
fn encrypt_with_empty_secret_and_zero_challenge() {
    let auth = Authenticator::new("");
    assert_eq!(
        auth.encrypt(0),
        "d12735575423a0e7f53a6191fd5ffe258d92297e771ff55f4ba8e4672bf05aba"
    );
}

#[test]
fn encrypt_hashes_the_utf8_bytes_of_the_secret() {
    let auth = Authenticator::new("密钥");
    assert_eq!(
        auth.encrypt(1),
        "84f0d75904bb9bd94ce0e058ca38cf8cadd8654a6a11cbef6c61d4f419607030"
    );
}

#[test]
fn tag_is_lowercase_hex_of_32_bytes() {
    let tag = Authenticator::new("k").encrypt(42);
    assert_eq!(tag.len(), 64);
    assert!(tag.chars().all(|c| c.is_ascii_digit() || ('a'..='f').contains(&c)));
}

#[test]
fn validate_accepts_own_tag() {
    let auth = Authenticator::new("secret");
    assert!(auth.validate(CHALLENGE, SECRET_TAG));
    assert!(auth.validate(7, &auth.encrypt(7)));
}

#[test]
fn validate_accepts_upper_case_tag() {
    let auth = Authenticator::new("secret");
    assert!(auth.validate(CHALLENGE, &SECRET_TAG.to_uppercase()));
}

#[test]
fn validate_rejects_other_challenge_or_secret() {
    let auth = Authenticator::new("secret");
    assert!(!auth.validate(CHALLENGE + 1, SECRET_TAG));
    let other = Authenticator::new("other");
    assert!(!other.validate(CHALLENGE, SECRET_TAG));
}

#[test]
fn validate_rejects_malformed_tags() {
    let auth = Authenticator::new("secret");
    assert!(!auth.validate(CHALLENGE, &SECRET_TAG[..63]));
    assert!(!auth.validate(CHALLENGE, &SECRET_TAG[..62]));
    assert!(!auth.validate(CHALLENGE, ""));
    let mut bad = SECRET_TAG.to_string();
    bad.replace_range(0..1, "g");
    assert!(!auth.validate(CHALLENGE, &bad));
    assert!(!auth.validate(CHALLENGE, &format!("{}00", SECRET_TAG)));
    assert!(!auth.validate(0, "zz"));
    assert!(!auth.validate(0, "abc"));
    assert!(!auth.validate(0, &auth.encrypt(0)[..62]));
}

#[test]
fn shared_secret_handshake_completes() {
    let server = Authenticator::new("shared");
    let client = Authenticator::new("shared");
    let answer = client
        .client_handshake(&Some(ServerMessage::Challenge(99)))
        .unwrap();
    assert_eq!(server.server_handshake(99, &Some(answer)), Ok(()));
}

#[test]
fn different_secrets_fail_the_handshake() {
    let server = Authenticator::new("shared");
    let client = Authenticator::new("guess");
    let answer = client
        .client_handshake(&Some(ServerMessage::Challenge(99)))
        .unwrap();
    assert_eq!(
        server.server_handshake(99, &Some(answer)),
        Err(HandshakeError::InvalidResponse)
    );
}

#[test]
fn server_handshake_rejects_other_messages() {
    let server = Authenticator::new("s");
    assert_eq!(
        server.server_handshake(1, &Some(ClientMessage::Hello(80))),
        Err(HandshakeError::UnexpectedMessage)
    );
    assert_eq!(server.server_handshake(1, &None), Err(HandshakeError::UnexpectedMessage));
}

#[test]
fn client_handshake_answers_only_challenges() {
    let client = Authenticator::new("s");
    assert_eq!(
        client.client_handshake(&Some(ServerMessage::Challenge(3))),
        Ok(ClientMessage::ChallengeResponse(client.encrypt(3)))
    );
    assert_eq!(
        client.client_handshake(&Some(ServerMessage::Hello(1))),
        Err(HandshakeError::UnexpectedMessage)
    );
    assert_eq!(client.client_handshake(&None), Err(HandshakeError::UnexpectedMessage));
}

#[test]
fn handshake_error_texts() {
    assert_eq!(HandshakeError::InvalidResponse.message(), "invalid challenge response");
    assert_eq!(HandshakeError::UnexpectedMessage.message(), "unexpected message");
}
