use vstd::prelude::*;

verus! {

/// The largest JSON frame, in bytes, that either side accepts on the stream.
pub const MAX_FRAME_LENGTH: usize = 256;

/// Messages the server sends. Identifiers (challenges and connection ids) are
/// UUIDs held as their 128-bit value.
#[derive(Debug, Clone, PartialEq, Eq)]
pub enum ServerMessage {
    Challenge(u128),
    Hello(u16),
    HeartBeat,
    Connection(u128),
    Error(String),
}

/// Messages the client sends.
#[derive(Debug, Clone, PartialEq, Eq)]
pub enum ClientMessage {
    ChallengeResponse(String),
    HeartBeat,
    Accept(u128),
    Hello(u16),
}

/// Byte `i` (0 <= i < 16) of the UUID whose value is `id`, most significant first.
pub open spec fn id_byte(id: u128, i: int) -> u8 {
    ((id >> ((120 - 8 * i) as u128)) & 0xffu128) as u8
}

/// The 16 bytes of the UUID whose value is `id`, most significant first
/// (the byte order of `Uuid::as_bytes`).
pub open spec fn id_bytes(id: u128) -> Seq<u8> {
    Seq::new(16, |i: int| id_byte(id, i))
}

/// Two ids with the same 16 bytes are the same id: every bit of the id
/// reaches the bytes.
pub proof fn lemma_id_bytes_injective(a: u128, b: u128)
    requires
        id_bytes(a) == id_bytes(b),
    ensures
        a == b,
{
    assert forall|i: int| 0 <= i < 16 implies id_byte(a, i) == id_byte(b, i) by {
        assert(id_bytes(a)[i] == id_bytes(b)[i]);
        assert(id_bytes(a)[i] == id_byte(a, i));
        assert(id_bytes(b)[i] == id_byte(b, i));
    }
    assert(id_byte(a, 0) == id_byte(b, 0));
    assert(id_byte(a, 1) == id_byte(b, 1));
    assert(id_byte(a, 2) == id_byte(b, 2));
    assert(id_byte(a, 3) == id_byte(b, 3));
    assert(id_byte(a, 4) == id_byte(b, 4));
    assert(id_byte(a, 5) == id_byte(b, 5));
    assert(id_byte(a, 6) == id_byte(b, 6));
    assert(id_byte(a, 7) == id_byte(b, 7));
    assert(id_byte(a, 8) == id_byte(b, 8));
    assert(id_byte(a, 9) == id_byte(b, 9));
    assert(id_byte(a, 10) == id_byte(b, 10));
    assert(id_byte(a, 11) == id_byte(b, 11));
    assert(id_byte(a, 12) == id_byte(b, 12));
    assert(id_byte(a, 13) == id_byte(b, 13));
    assert(id_byte(a, 14) == id_byte(b, 14));
    assert(id_byte(a, 15) == id_byte(b, 15));
    assert(a == b) by (bit_vector)
        requires
            ((a >> 120u128) & 0xffu128) as u8 == ((b >> 120u128) & 0xffu128) as u8,
            ((a >> 112u128) & 0xffu128) as u8 == ((b >> 112u128) & 0xffu128) as u8,
            ((a >> 104u128) & 0xffu128) as u8 == ((b >> 104u128) & 0xffu128) as u8,
            ((a >> 96u128) & 0xffu128) as u8 == ((b >> 96u128) & 0xffu128) as u8,
            ((a >> 88u128) & 0xffu128) as u8 == ((b >> 88u128) & 0xffu128) as u8,
            ((a >> 80u128) & 0xffu128) as u8 == ((b >> 80u128) & 0xffu128) as u8,
            ((a >> 72u128) & 0xffu128) as u8 == ((b >> 72u128) & 0xffu128) as u8,
            ((a >> 64u128) & 0xffu128) as u8 == ((b >> 64u128) & 0xffu128) as u8,
            ((a >> 56u128) & 0xffu128) as u8 == ((b >> 56u128) & 0xffu128) as u8,
            ((a >> 48u128) & 0xffu128) as u8 == ((b >> 48u128) & 0xffu128) as u8,
            ((a >> 40u128) & 0xffu128) as u8 == ((b >> 40u128) & 0xffu128) as u8,
            ((a >> 32u128) & 0xffu128) as u8 == ((b >> 32u128) & 0xffu128) as u8,
            ((a >> 24u128) & 0xffu128) as u8 == ((b >> 24u128) & 0xffu128) as u8,
            ((a >> 16u128) & 0xffu128) as u8 == ((b >> 16u128) & 0xffu128) as u8,
            ((a >> 8u128) & 0xffu128) as u8 == ((b >> 8u128) & 0xffu128) as u8,
            ((a >> 0u128) & 0xffu128) as u8 == ((b >> 0u128) & 0xffu128) as u8,
    ;
}

/// The bytes are in big-endian order: the last byte is the id's lowest byte,
/// and shifting the id down by a byte shifts its bytes one place later.
pub proof fn lemma_id_bytes_big_endian(a: u128)
    ensures
        id_bytes(a)[15] == (a % 256) as u8,
        forall|i: int| 0 <= i < 15 ==> #[trigger] id_bytes(a)[i] == id_bytes(a >> 8u128)[i + 1],
{
    assert(((a >> 0u128) & 0xffu128) as u8 == (a % 256) as u8) by (bit_vector);
    assert(
            ((a >> 120u128) & 0xffu128) as u8 == (((a >> 8u128) >> 112u128) & 0xffu128) as u8
            && ((a >> 112u128) & 0xffu128) as u8 == (((a >> 8u128) >> 104u128) & 0xffu128) as u8
            && ((a >> 104u128) & 0xffu128) as u8 == (((a >> 8u128) >> 96u128) & 0xffu128) as u8
            && ((a >> 96u128) & 0xffu128) as u8 == (((a >> 8u128) >> 88u128) & 0xffu128) as u8
            && ((a >> 88u128) & 0xffu128) as u8 == (((a >> 8u128) >> 80u128) & 0xffu128) as u8
            && ((a >> 80u128) & 0xffu128) as u8 == (((a >> 8u128) >> 72u128) & 0xffu128) as u8
            && ((a >> 72u128) & 0xffu128) as u8 == (((a >> 8u128) >> 64u128) & 0xffu128) as u8
            && ((a >> 64u128) & 0xffu128) as u8 == (((a >> 8u128) >> 56u128) & 0xffu128) as u8
            && ((a >> 56u128) & 0xffu128) as u8 == (((a >> 8u128) >> 48u128) & 0xffu128) as u8
            && ((a >> 48u128) & 0xffu128) as u8 == (((a >> 8u128) >> 40u128) & 0xffu128) as u8
            && ((a >> 40u128) & 0xffu128) as u8 == (((a >> 8u128) >> 32u128) & 0xffu128) as u8
            && ((a >> 32u128) & 0xffu128) as u8 == (((a >> 8u128) >> 24u128) & 0xffu128) as u8
            && ((a >> 24u128) & 0xffu128) as u8 == (((a >> 8u128) >> 16u128) & 0xffu128) as u8
            && ((a >> 16u128) & 0xffu128) as u8 == (((a >> 8u128) >> 8u128) & 0xffu128) as u8
            && ((a >> 8u128) & 0xffu128) as u8 == (((a >> 8u128) >> 0u128) & 0xffu128) as u8
    ) by (bit_vector);
    assert(id_bytes(a)[15] == id_byte(a, 15));
    assert forall|i: int| 0 <= i < 15 implies #[trigger] id_bytes(a)[i] == id_bytes(a >> 8u128)[i + 1] by {
        assert(id_bytes(a)[i] == id_byte(a, i));
        assert(id_bytes(a >> 8u128)[i + 1] == id_byte(a >> 8u128, i + 1));
        if i == 0 { assert(id_byte(a, 0) == id_byte(a >> 8u128, 1)); }
        if i == 1 { assert(id_byte(a, 1) == id_byte(a >> 8u128, 2)); }
        if i == 2 { assert(id_byte(a, 2) == id_byte(a >> 8u128, 3)); }
        if i == 3 { assert(id_byte(a, 3) == id_byte(a >> 8u128, 4)); }
        if i == 4 { assert(id_byte(a, 4) == id_byte(a >> 8u128, 5)); }
        if i == 5 { assert(id_byte(a, 5) == id_byte(a >> 8u128, 6)); }
        if i == 6 { assert(id_byte(a, 6) == id_byte(a >> 8u128, 7)); }
        if i == 7 { assert(id_byte(a, 7) == id_byte(a >> 8u128, 8)); }
        if i == 8 { assert(id_byte(a, 8) == id_byte(a >> 8u128, 9)); }
        if i == 9 { assert(id_byte(a, 9) == id_byte(a >> 8u128, 10)); }
        if i == 10 { assert(id_byte(a, 10) == id_byte(a >> 8u128, 11)); }
        if i == 11 { assert(id_byte(a, 11) == id_byte(a >> 8u128, 12)); }
        if i == 12 { assert(id_byte(a, 12) == id_byte(a >> 8u128, 13)); }
        if i == 13 { assert(id_byte(a, 13) == id_byte(a >> 8u128, 14)); }
        if i == 14 { assert(id_byte(a, 14) == id_byte(a >> 8u128, 15)); }
    }
}

/// The 16 bytes of the UUID `id`, most significant first.
pub fn id_to_bytes(id: u128) -> (bytes: Vec<u8>)
    ensures
        bytes@ == id_bytes(id),
{
    let mut bytes: Vec<u8> = Vec::new();
    let mut i: u128 = 0;
    while i < 16
        invariant
            i <= 16,
            bytes@.len() == i,
            forall|j: int| 0 <= j < i ==> bytes@[j] == id_byte(id, j),
        decreases 16 - i,
    {
        let shift: u128 = 120 - 8 * i;
        bytes.push(((id >> shift) & 0xffu128) as u8);
        i = i + 1;
    }
    assert(bytes@ =~= id_bytes(id));
    bytes
}

/// A UUID of version 4: version nibble 4 and variant bits `10`.
pub open spec fn is_v4_id(id: u128) -> bool {
    &&& (id >> 76u128) & 0xfu128 == 4
    &&& (id >> 62u128) & 3u128 == 2
}

/// Calls `uuid::Uuid::new_v4` and takes its 128-bit value. The UUID is random;
/// what holds of every outcome is that it has version 4 and the RFC variant.
#[verifier::external_body]
pub(crate) fn new_v4_id() -> (id: u128)
    ensures
        is_v4_id(id),
{
    uuid::Uuid::new_v4().as_u128()
}

} // verus!
