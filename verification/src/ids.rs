//! Event identifiers: UUIDs held as their 128-bit value, most significant
//! byte first, as the `uuid` crate orders them.

use vstd::prelude::*;

verus! {

/// The byte at position `i` (0 to 15) of the identifier, most significant first.
pub open spec fn id_byte(id: u128, i: int) -> u8 {
    ((id >> ((120 - 8 * i) as u128)) % 256) as u8
}

/// The hexadecimal digit at position `k` (0 to 31) of the identifier, most significant first.
pub open spec fn id_nibble(id: u128, k: int) -> int {
    ((id >> ((124 - 4 * k) as u128)) % 16) as int
}

/// The lower-case hexadecimal character of a digit from 0 to 15.
pub open spec fn hex_char(d: int) -> char {
    if d < 10 {
        (48 + d) as char
    } else {
        (87 + d) as char
    }
}

/// Whether position `i` of the hyphenated form holds a hyphen.
pub open spec fn is_hyphen_position(i: int) -> bool {
    i == 8 || i == 13 || i == 18 || i == 23
}

/// The digit shown at position `i` of the hyphenated form: `i` less the hyphens before it.
pub open spec fn digit_at_position(i: int) -> int {
    if i < 8 {
        i
    } else if i < 13 {
        i - 1
    } else if i < 18 {
        i - 2
    } else if i < 23 {
        i - 3
    } else {
        i - 4
    }
}

/// The hyphenated lower-case form `xxxxxxxx-xxxx-xxxx-xxxx-xxxxxxxxxxxx` of an identifier.
pub open spec fn hyphenated(id: u128) -> Seq<char> {
    Seq::new(
        36,
        |i: int|
            if is_hyphen_position(i) {
                '-'
            } else {
                hex_char(id_nibble(id, digit_at_position(i)))
            },
    )
}

/// The version field of an identifier (the high half of byte 6).
pub open spec fn id_version(id: u128) -> int {
    ((id >> 76u128) % 16) as int
}

/// The variant field of an identifier (the two high bits of byte 8).
pub open spec fn id_variant(id: u128) -> int {
    ((id >> 62u128) % 4) as int
}

/// Whether an identifier is a version 7 UUID of the RFC 9562 variant.
pub open spec fn is_v7(id: u128) -> bool {
    id_version(id) == 7 && id_variant(id) == 2
}

/// Formats an identifier as `uuid::Uuid`'s `Display` does.
///
/// Trusted: `Uuid::from_u128(id).to_string()`, which `uuid` writes as the
/// hyphenated lower-case hexadecimal form of the big-endian bytes.
#[verifier::external_body]
pub fn id_to_string(id: u128) -> (text: String)
    ensures
        text@ == hyphenated(id),
{
    uuid::Uuid::from_u128(id).to_string()
}

/// The sixteen bytes of an identifier, as `uuid::Uuid::as_bytes` gives them.
///
/// Trusted: `*Uuid::from_u128(id).as_bytes()`, which `uuid` stores as the
/// big-endian bytes of the value.
#[verifier::external_body]
pub fn id_to_bytes(id: u128) -> (bytes: [u8; 16])
    ensures
        forall|i: int| 0 <= i < 16 ==> #[trigger] bytes@[i] == id_byte(id, i),
{
    *uuid::Uuid::from_u128(id).as_bytes()
}

/// The sixteen bytes of an identifier, most significant first.
pub open spec fn id_key(id: u128) -> Seq<u8> {
    Seq::new(16, |i: int| id_byte(id, i))
}

/// Different identifiers have different bytes.
pub proof fn lemma_id_key_injective(a: u128, b: u128)
    requires
        a != b,
    ensures
        id_key(a) != id_key(b),
{
    if id_key(a) == id_key(b) {
        assert(id_key(a)[0] == id_key(b)[0]);
        assert(((a >> 120u128) % 256) as u8 == ((b >> 120u128) % 256) as u8);
        assert(id_key(a)[1] == id_key(b)[1]);
        assert(((a >> 112u128) % 256) as u8 == ((b >> 112u128) % 256) as u8);
        assert(id_key(a)[2] == id_key(b)[2]);
        assert(((a >> 104u128) % 256) as u8 == ((b >> 104u128) % 256) as u8);
        assert(id_key(a)[3] == id_key(b)[3]);
        assert(((a >> 96u128) % 256) as u8 == ((b >> 96u128) % 256) as u8);
        assert(id_key(a)[4] == id_key(b)[4]);
        assert(((a >> 88u128) % 256) as u8 == ((b >> 88u128) % 256) as u8);
        assert(id_key(a)[5] == id_key(b)[5]);
        assert(((a >> 80u128) % 256) as u8 == ((b >> 80u128) % 256) as u8);
        assert(id_key(a)[6] == id_key(b)[6]);
        assert(((a >> 72u128) % 256) as u8 == ((b >> 72u128) % 256) as u8);
        assert(id_key(a)[7] == id_key(b)[7]);
        assert(((a >> 64u128) % 256) as u8 == ((b >> 64u128) % 256) as u8);
        assert(id_key(a)[8] == id_key(b)[8]);
        assert(((a >> 56u128) % 256) as u8 == ((b >> 56u128) % 256) as u8);
        assert(id_key(a)[9] == id_key(b)[9]);
        assert(((a >> 48u128) % 256) as u8 == ((b >> 48u128) % 256) as u8);
        assert(id_key(a)[10] == id_key(b)[10]);
        assert(((a >> 40u128) % 256) as u8 == ((b >> 40u128) % 256) as u8);
        assert(id_key(a)[11] == id_key(b)[11]);
        assert(((a >> 32u128) % 256) as u8 == ((b >> 32u128) % 256) as u8);
        assert(id_key(a)[12] == id_key(b)[12]);
        assert(((a >> 24u128) % 256) as u8 == ((b >> 24u128) % 256) as u8);
        assert(id_key(a)[13] == id_key(b)[13]);
        assert(((a >> 16u128) % 256) as u8 == ((b >> 16u128) % 256) as u8);
        assert(id_key(a)[14] == id_key(b)[14]);
        assert(((a >> 8u128) % 256) as u8 == ((b >> 8u128) % 256) as u8);
        assert(id_key(a)[15] == id_key(b)[15]);
        assert(((a >> 0u128) % 256) as u8 == ((b >> 0u128) % 256) as u8);
        assert(a == b) by (bit_vector)
            requires
                ((a >> 120u128) % 256) as u8 == ((b >> 120u128) % 256) as u8,
                ((a >> 112u128) % 256) as u8 == ((b >> 112u128) % 256) as u8,
                ((a >> 104u128) % 256) as u8 == ((b >> 104u128) % 256) as u8,
                ((a >> 96u128) % 256) as u8 == ((b >> 96u128) % 256) as u8,
                ((a >> 88u128) % 256) as u8 == ((b >> 88u128) % 256) as u8,
                ((a >> 80u128) % 256) as u8 == ((b >> 80u128) % 256) as u8,
                ((a >> 72u128) % 256) as u8 == ((b >> 72u128) % 256) as u8,
                ((a >> 64u128) % 256) as u8 == ((b >> 64u128) % 256) as u8,
                ((a >> 56u128) % 256) as u8 == ((b >> 56u128) % 256) as u8,
                ((a >> 48u128) % 256) as u8 == ((b >> 48u128) % 256) as u8,
                ((a >> 40u128) % 256) as u8 == ((b >> 40u128) % 256) as u8,
                ((a >> 32u128) % 256) as u8 == ((b >> 32u128) % 256) as u8,
                ((a >> 24u128) % 256) as u8 == ((b >> 24u128) % 256) as u8,
                ((a >> 16u128) % 256) as u8 == ((b >> 16u128) % 256) as u8,
                ((a >> 8u128) % 256) as u8 == ((b >> 8u128) % 256) as u8,
                ((a >> 0u128) % 256) as u8 == ((b >> 0u128) % 256) as u8,
        ;
    }
}

/// Different digits have different characters.
proof fn lemma_hex_char_injective(d1: int, d2: int)
    requires
        0 <= d1 < 16,
        0 <= d2 < 16,
        hex_char(d1) == hex_char(d2),
    ensures
        d1 == d2,
{
    assert((hex_char(d1) as int) == (if d1 < 10 { 48 + d1 } else { 87 + d1 }));
    assert((hex_char(d2) as int) == (if d2 < 10 { 48 + d2 } else { 87 + d2 }));
}

/// Different identifiers have different hyphenated forms.
pub proof fn lemma_hyphenated_injective(a: u128, b: u128)
    requires
        a != b,
    ensures
        hyphenated(a) != hyphenated(b),
{
    if hyphenated(a) == hyphenated(b) {
        assert(hyphenated(a)[0] == hyphenated(b)[0]);
        lemma_hex_char_injective(id_nibble(a, 0), id_nibble(b, 0));
        assert((a >> 124u128) % 16 == (b >> 124u128) % 16);
        assert(hyphenated(a)[1] == hyphenated(b)[1]);
        lemma_hex_char_injective(id_nibble(a, 1), id_nibble(b, 1));
        assert((a >> 120u128) % 16 == (b >> 120u128) % 16);
        assert(hyphenated(a)[2] == hyphenated(b)[2]);
        lemma_hex_char_injective(id_nibble(a, 2), id_nibble(b, 2));
        assert((a >> 116u128) % 16 == (b >> 116u128) % 16);
        assert(hyphenated(a)[3] == hyphenated(b)[3]);
        lemma_hex_char_injective(id_nibble(a, 3), id_nibble(b, 3));
        assert((a >> 112u128) % 16 == (b >> 112u128) % 16);
        assert(hyphenated(a)[4] == hyphenated(b)[4]);
        lemma_hex_char_injective(id_nibble(a, 4), id_nibble(b, 4));
        assert((a >> 108u128) % 16 == (b >> 108u128) % 16);
        assert(hyphenated(a)[5] == hyphenated(b)[5]);
        lemma_hex_char_injective(id_nibble(a, 5), id_nibble(b, 5));
        assert((a >> 104u128) % 16 == (b >> 104u128) % 16);
        assert(hyphenated(a)[6] == hyphenated(b)[6]);
        lemma_hex_char_injective(id_nibble(a, 6), id_nibble(b, 6));
        assert((a >> 100u128) % 16 == (b >> 100u128) % 16);
        assert(hyphenated(a)[7] == hyphenated(b)[7]);
        lemma_hex_char_injective(id_nibble(a, 7), id_nibble(b, 7));
        assert((a >> 96u128) % 16 == (b >> 96u128) % 16);
        assert(hyphenated(a)[9] == hyphenated(b)[9]);
        lemma_hex_char_injective(id_nibble(a, 8), id_nibble(b, 8));
        assert((a >> 92u128) % 16 == (b >> 92u128) % 16);
        assert(hyphenated(a)[10] == hyphenated(b)[10]);
        lemma_hex_char_injective(id_nibble(a, 9), id_nibble(b, 9));
        assert((a >> 88u128) % 16 == (b >> 88u128) % 16);
        assert(hyphenated(a)[11] == hyphenated(b)[11]);
        lemma_hex_char_injective(id_nibble(a, 10), id_nibble(b, 10));
        assert((a >> 84u128) % 16 == (b >> 84u128) % 16);
        assert(hyphenated(a)[12] == hyphenated(b)[12]);
        lemma_hex_char_injective(id_nibble(a, 11), id_nibble(b, 11));
        assert((a >> 80u128) % 16 == (b >> 80u128) % 16);
        assert(hyphenated(a)[14] == hyphenated(b)[14]);
        lemma_hex_char_injective(id_nibble(a, 12), id_nibble(b, 12));
        assert((a >> 76u128) % 16 == (b >> 76u128) % 16);
        assert(hyphenated(a)[15] == hyphenated(b)[15]);
        lemma_hex_char_injective(id_nibble(a, 13), id_nibble(b, 13));
        assert((a >> 72u128) % 16 == (b >> 72u128) % 16);
        assert(hyphenated(a)[16] == hyphenated(b)[16]);
        lemma_hex_char_injective(id_nibble(a, 14), id_nibble(b, 14));
        assert((a >> 68u128) % 16 == (b >> 68u128) % 16);
        assert(hyphenated(a)[17] == hyphenated(b)[17]);
        lemma_hex_char_injective(id_nibble(a, 15), id_nibble(b, 15));
        assert((a >> 64u128) % 16 == (b >> 64u128) % 16);
        assert(hyphenated(a)[19] == hyphenated(b)[19]);
        lemma_hex_char_injective(id_nibble(a, 16), id_nibble(b, 16));
        assert((a >> 60u128) % 16 == (b >> 60u128) % 16);
        assert(hyphenated(a)[20] == hyphenated(b)[20]);
        lemma_hex_char_injective(id_nibble(a, 17), id_nibble(b, 17));
        assert((a >> 56u128) % 16 == (b >> 56u128) % 16);
        assert(hyphenated(a)[21] == hyphenated(b)[21]);
        lemma_hex_char_injective(id_nibble(a, 18), id_nibble(b, 18));
        assert((a >> 52u128) % 16 == (b >> 52u128) % 16);
        assert(hyphenated(a)[22] == hyphenated(b)[22]);
        lemma_hex_char_injective(id_nibble(a, 19), id_nibble(b, 19));
        assert((a >> 48u128) % 16 == (b >> 48u128) % 16);
        assert(hyphenated(a)[24] == hyphenated(b)[24]);
        lemma_hex_char_injective(id_nibble(a, 20), id_nibble(b, 20));
        assert((a >> 44u128) % 16 == (b >> 44u128) % 16);
        assert(hyphenated(a)[25] == hyphenated(b)[25]);
        lemma_hex_char_injective(id_nibble(a, 21), id_nibble(b, 21));
        assert((a >> 40u128) % 16 == (b >> 40u128) % 16);
        assert(hyphenated(a)[26] == hyphenated(b)[26]);
        lemma_hex_char_injective(id_nibble(a, 22), id_nibble(b, 22));
        assert((a >> 36u128) % 16 == (b >> 36u128) % 16);
        assert(hyphenated(a)[27] == hyphenated(b)[27]);
        lemma_hex_char_injective(id_nibble(a, 23), id_nibble(b, 23));
        assert((a >> 32u128) % 16 == (b >> 32u128) % 16);
        assert(hyphenated(a)[28] == hyphenated(b)[28]);
        lemma_hex_char_injective(id_nibble(a, 24), id_nibble(b, 24));
        assert((a >> 28u128) % 16 == (b >> 28u128) % 16);
        assert(hyphenated(a)[29] == hyphenated(b)[29]);
        lemma_hex_char_injective(id_nibble(a, 25), id_nibble(b, 25));
        assert((a >> 24u128) % 16 == (b >> 24u128) % 16);
        assert(hyphenated(a)[30] == hyphenated(b)[30]);
        lemma_hex_char_injective(id_nibble(a, 26), id_nibble(b, 26));
        assert((a >> 20u128) % 16 == (b >> 20u128) % 16);
        assert(hyphenated(a)[31] == hyphenated(b)[31]);
        lemma_hex_char_injective(id_nibble(a, 27), id_nibble(b, 27));
        assert((a >> 16u128) % 16 == (b >> 16u128) % 16);
        assert(hyphenated(a)[32] == hyphenated(b)[32]);
        lemma_hex_char_injective(id_nibble(a, 28), id_nibble(b, 28));
        assert((a >> 12u128) % 16 == (b >> 12u128) % 16);
        assert(hyphenated(a)[33] == hyphenated(b)[33]);
        lemma_hex_char_injective(id_nibble(a, 29), id_nibble(b, 29));
        assert((a >> 8u128) % 16 == (b >> 8u128) % 16);
        assert(hyphenated(a)[34] == hyphenated(b)[34]);
        lemma_hex_char_injective(id_nibble(a, 30), id_nibble(b, 30));
        assert((a >> 4u128) % 16 == (b >> 4u128) % 16);
        assert(hyphenated(a)[35] == hyphenated(b)[35]);
        lemma_hex_char_injective(id_nibble(a, 31), id_nibble(b, 31));
        assert((a >> 0u128) % 16 == (b >> 0u128) % 16);
        assert(a == b) by (bit_vector)
            requires
                (a >> 124u128) % 16 == (b >> 124u128) % 16,
                (a >> 120u128) % 16 == (b >> 120u128) % 16,
                (a >> 116u128) % 16 == (b >> 116u128) % 16,
                (a >> 112u128) % 16 == (b >> 112u128) % 16,
                (a >> 108u128) % 16 == (b >> 108u128) % 16,
                (a >> 104u128) % 16 == (b >> 104u128) % 16,
                (a >> 100u128) % 16 == (b >> 100u128) % 16,
                (a >> 96u128) % 16 == (b >> 96u128) % 16,
                (a >> 92u128) % 16 == (b >> 92u128) % 16,
                (a >> 88u128) % 16 == (b >> 88u128) % 16,
                (a >> 84u128) % 16 == (b >> 84u128) % 16,
                (a >> 80u128) % 16 == (b >> 80u128) % 16,
                (a >> 76u128) % 16 == (b >> 76u128) % 16,
                (a >> 72u128) % 16 == (b >> 72u128) % 16,
                (a >> 68u128) % 16 == (b >> 68u128) % 16,
                (a >> 64u128) % 16 == (b >> 64u128) % 16,
                (a >> 60u128) % 16 == (b >> 60u128) % 16,
                (a >> 56u128) % 16 == (b >> 56u128) % 16,
                (a >> 52u128) % 16 == (b >> 52u128) % 16,
                (a >> 48u128) % 16 == (b >> 48u128) % 16,
                (a >> 44u128) % 16 == (b >> 44u128) % 16,
                (a >> 40u128) % 16 == (b >> 40u128) % 16,
                (a >> 36u128) % 16 == (b >> 36u128) % 16,
                (a >> 32u128) % 16 == (b >> 32u128) % 16,
                (a >> 28u128) % 16 == (b >> 28u128) % 16,
                (a >> 24u128) % 16 == (b >> 24u128) % 16,
                (a >> 20u128) % 16 == (b >> 20u128) % 16,
                (a >> 16u128) % 16 == (b >> 16u128) % 16,
                (a >> 12u128) % 16 == (b >> 12u128) % 16,
                (a >> 8u128) % 16 == (b >> 8u128) % 16,
                (a >> 4u128) % 16 == (b >> 4u128) % 16,
                (a >> 0u128) % 16 == (b >> 0u128) % 16,
        ;
    }
}

/// A source of version 7 identifiers, with the last one it handed out.
///
/// `uuid::Uuid::now_v7` orders the identifiers it makes in one process by
/// their creation, so each one drawn here is greater than every earlier one.
pub struct V7Source {
    last: Ghost<u128>,
}

impl View for V7Source {
    type V = u128;

    /// The last identifier drawn, 0 before the first.
    closed spec fn view(&self) -> u128 {
        self.last@
    }
}

impl V7Source {
    /// A source that has drawn no identifier yet.
    pub fn new() -> (source: V7Source)
        ensures
            source@ == 0,
    {
        V7Source { last: Ghost(0) }
    }

    /// A fresh identifier from `uuid::Uuid::now_v7`.
    ///
    /// Trusted: `Uuid::now_v7().as_u128()`. Its value depends on the clock and
    /// on random bits. The contract states what holds of every outcome: it is
    /// a version 7 UUID of the RFC 9562 variant, which `uuid` sets whatever the
    /// time and the random bits, and it is greater than the source's last
    /// identifier, since `uuid` documents that the ids `now_v7` makes in one
    /// process are ordered by their creation (its shared context never lets the
    /// timestamp go back and increments its counter within a millisecond), and
    /// every version 7 UUID is greater than 0. The source then holds it as its
    /// last identifier. `uuid` panics when the system clock reads a time before
    /// the Unix epoch or when the system's random source fails; neither is a
    /// condition the library can test, so they are left unstated.
    #[verifier::external_body]
    pub fn next_id(&mut self) -> (id: u128)
        ensures
            is_v7(id),
            id > old(self)@,
            final(self)@ == id,
    {
        uuid::Uuid::now_v7().as_u128()
    }
}

} // verus!
