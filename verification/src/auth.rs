//! Challenge-response authentication. The server sends a random challenge;
//! the client answers with the HMAC of the challenge under a key both sides
//! derive from the shared secret; the server recomputes and compares.

use crate::crypto::{hmac_sha256, hmac_sha256_tag, hmac_sha256_verify, sha256, sha256_digest};
use crate::hexcode::{hex_char_value, hex_decode, hex_decoding, hex_encode, hex_encoding, is_hex_char, is_hex_text, lemma_hex_roundtrip};
use crate::message::{id_bytes, id_to_bytes, ClientMessage, ServerMessage};
use vstd::prelude::*;
use vstd::utf8::encode_utf8;

verus! {

/// The HMAC key derived from a secret: the SHA-256 digest of its UTF-8 bytes.
pub open spec fn derived_key(secret: Seq<char>) -> Seq<u8> {
    sha256_digest(encode_utf8(secret))
}

/// The answer to `challenge` under `key`: the lower-case hexadecimal text of
/// the HMAC-SHA-256 of the challenge's 16 bytes.
pub open spec fn response_tag(key: Seq<u8>, challenge: u128) -> Seq<char> {
    hex_encoding(hmac_sha256(key, id_bytes(challenge)))
}

/// Whether `tag` is an acceptable answer to `challenge` under `key`: it is
/// hexadecimal text (either case) of exactly the HMAC of the challenge.
pub open spec fn accepts(key: Seq<u8>, challenge: u128, tag: Seq<char>) -> bool {
    is_hex_text(tag) && hex_decoding(tag) == hmac_sha256(key, id_bytes(challenge))
}

/// Why a handshake failed on the side that checks a message.
#[derive(Debug, Clone, Copy, PartialEq, Eq)]
pub enum HandshakeError {
    /// The answer to the challenge is not the expected tag.
    InvalidResponse,
    /// The message that arrived is not the one the handshake expects.
    UnexpectedMessage,
}

impl HandshakeError {
    /// The text of the error.
    pub open spec fn text(self) -> Seq<char> {
        match self {
            HandshakeError::InvalidResponse => "invalid challenge response"@,
            HandshakeError::UnexpectedMessage => "unexpected message"@,
        }
    }

    /// The text of the error, as reported to the peer and in the logs.
    pub fn message(&self) -> (text: String)
        ensures
            text@ == self.text(),
    {
        match self {
            HandshakeError::InvalidResponse => String::from_str("invalid challenge response"),
            HandshakeError::UnexpectedMessage => String::from_str("unexpected message"),
        }
    }
}

/// The server's verdict on `reply`, the message that answers `challenge`.
pub open spec fn server_verdict(key: Seq<u8>, challenge: u128, reply: Option<ClientMessage>) -> Result<(), HandshakeError> {
    match reply {
        Some(ClientMessage::ChallengeResponse(tag)) => if accepts(key, challenge, tag@) {
            Ok(())
        } else {
            Err(HandshakeError::InvalidResponse)
        },
        _ => Err(HandshakeError::UnexpectedMessage),
    }
}

/// Holds the HMAC key derived from the shared secret.
pub struct Authenticator {
    key: Vec<u8>,
}

impl View for Authenticator {
    type V = Seq<u8>;

    closed spec fn view(&self) -> Seq<u8> {
        self.key@
    }
}

impl Authenticator {
    /// Derives the key from `secret`.
    pub fn new(secret: &str) -> (auth: Self)
        ensures
            auth@ == derived_key(secret@),
            auth@ == sha256_digest(encode_utf8(secret@)),
            auth@.len() == 32,
    {
        Authenticator { key: sha256(secret.as_bytes()) }
    }

    /// The answer to `challenge`: lower-case hexadecimal HMAC of its bytes.
    pub fn encrypt(&self, challenge: u128) -> (tag: String)
        ensures
            tag@ == response_tag(self@, challenge),
            tag@ == hex_encoding(hmac_sha256(self@, id_bytes(challenge))),
            tag@.len() == 64,
    {
        let data = id_to_bytes(challenge);
        let mac = hmac_sha256_tag(self.key.as_slice(), data.as_slice());
        hex_encode(mac.as_slice())
    }

    /// Whether `tag` answers `challenge`: it must decode as hexadecimal, and
    /// the bytes must be the HMAC of the challenge.
    pub fn validate(&self, challenge: u128, tag: &str) -> (valid: bool)
        ensures
            valid == accepts(self@, challenge, tag@),
            valid ==> tag@.len() == 64,
    {
        match hex_decode(tag) {
            Ok(decoded) => {
                let data = id_to_bytes(challenge);
                hmac_sha256_verify(self.key.as_slice(), data.as_slice(), decoded.as_slice())
            },
            Err(_) => false,
        }
    }

    /// The server's side of the handshake, once `Challenge(challenge)` has been
    /// sent: the verdict on `reply`, the message received next (`None` at the
    /// end of the stream).
    pub fn server_handshake(&self, challenge: u128, reply: &Option<ClientMessage>) -> (verdict: Result<(), HandshakeError>)
        ensures
            verdict == server_verdict(self@, challenge, *reply),
    {
        match reply {
            Some(ClientMessage::ChallengeResponse(tag)) => {
                if self.validate(challenge, tag.as_str()) {
                    Ok(())
                } else {
                    Err(HandshakeError::InvalidResponse)
                }
            },
            _ => Err(HandshakeError::UnexpectedMessage),
        }
    }

    /// The client's side of the handshake: the answer to send on receiving
    /// `msg` (`None` at the end of the stream). Only a challenge is answered.
    pub fn client_handshake(&self, msg: &Option<ServerMessage>) -> (answer: Result<ClientMessage, HandshakeError>)
        ensures
            match *msg {
                Some(ServerMessage::Challenge(challenge)) => answer matches Ok(ClientMessage::ChallengeResponse(tag))
                    && tag@ == response_tag(self@, challenge),
                _ => answer == Err::<ClientMessage, HandshakeError>(HandshakeError::UnexpectedMessage),
            },
    {
        match msg {
            Some(ServerMessage::Challenge(challenge)) => Ok(ClientMessage::ChallengeResponse(self.encrypt(*challenge))),
            _ => Err(HandshakeError::UnexpectedMessage),
        }
    }
}

/// The key is the SHA-256 digest of the whole UTF-8 encoding of the secret.
pub proof fn lemma_key_digests_whole_secret(secret: Seq<char>)
    ensures
        derived_key(secret) == sha256_digest(encode_utf8(secret)),
{
}

/// The answer is the lower-case hexadecimal HMAC-SHA-256, under the key, of
/// all 16 bytes of the challenge.
pub proof fn lemma_response_is_hex_hmac(key: Seq<u8>, challenge: u128)
    ensures
        response_tag(key, challenge) == hex_encoding(hmac_sha256(key, id_bytes(challenge))),
        id_bytes(challenge).len() == 16,
{
}

/// A server with secret `a` accepts the answer of a client with secret `b`
/// exactly when the HMACs of the challenge under the digests of the two whole
/// secrets coincide.
pub proof fn lemma_cross_secret_acceptance(a: Seq<char>, b: Seq<char>, challenge: u128)
    ensures
        accepts(derived_key(a), challenge, response_tag(derived_key(b), challenge)) <==> hmac_sha256(
            sha256_digest(encode_utf8(a)),
            id_bytes(challenge),
        ) == hmac_sha256(sha256_digest(encode_utf8(b)), id_bytes(challenge)),
{
    lemma_hex_roundtrip(hmac_sha256(derived_key(b), id_bytes(challenge)));
}

/// The answer computed with a key is accepted under the same key.
pub proof fn lemma_own_response_accepted(key: Seq<u8>, challenge: u128)
    ensures
        accepts(key, challenge, response_tag(key, challenge)),
{
    lemma_hex_roundtrip(hmac_sha256(key, id_bytes(challenge)));
}

/// Two sides that hold the same secret complete the handshake: the server
/// accepts the client's answer to any challenge.
pub proof fn lemma_shared_secret_handshake(server_secret: Seq<char>, client_secret: Seq<char>, challenge: u128, answer: ClientMessage)
    requires
        server_secret == client_secret,
        answer matches ClientMessage::ChallengeResponse(tag) && tag@ == response_tag(derived_key(client_secret), challenge),
    ensures
        server_verdict(derived_key(server_secret), challenge, Some(answer)) == Ok::<(), HandshakeError>(()),
{
    lemma_own_response_accepted(derived_key(client_secret), challenge);
}

/// `text` with the ASCII lower-case letters turned to upper case.
pub open spec fn ascii_upper(text: Seq<char>) -> Seq<char> {
    text.map_values(|c: char| if 97 <= c as u32 <= 122 { ((c as u32) - 32) as char } else { c })
}

/// The answer spelled in upper case is accepted too: the server decodes the
/// hexadecimal, it does not compare texts.
pub proof fn lemma_upper_case_response_accepted(key: Seq<u8>, challenge: u128)
    ensures
        accepts(key, challenge, ascii_upper(response_tag(key, challenge))),
{
    let bytes = hmac_sha256(key, id_bytes(challenge));
    let tag = response_tag(key, challenge);
    let upper = ascii_upper(tag);
    lemma_hex_roundtrip(bytes);
    assert forall|i: int| 0 <= i < tag.len() implies is_hex_char(#[trigger] upper[i]) && hex_char_value(upper[i]) == hex_char_value(tag[i]) by {
        assert(is_hex_char(tag[i]));
    }
    assert(hex_decoding(upper) =~= hex_decoding(tag)) by {
        assert forall|i: int| 0 <= i < hex_decoding(upper).len() implies hex_decoding(upper)[i] == hex_decoding(tag)[i] by {
            assert(0 <= 2 * i + 1 < tag.len());
            assert(hex_char_value(upper[2 * i]) == hex_char_value(tag[2 * i]));
            assert(hex_char_value(upper[2 * i + 1]) == hex_char_value(tag[2 * i + 1]));
        }
    }
}

/// The server accepts exactly the texts that decode to the same bytes as the
/// answer of a client with the same key: the answer itself, or the same
/// digits in another letter case.
pub proof fn lemma_accepted_tags(key: Seq<u8>, challenge: u128, tag: Seq<char>)
    ensures
        accepts(key, challenge, tag) <==> (is_hex_text(tag) && hex_decoding(tag) == hex_decoding(response_tag(key, challenge))),
{
    lemma_hex_roundtrip(hmac_sha256(key, id_bytes(challenge)));
}

} // verus!
