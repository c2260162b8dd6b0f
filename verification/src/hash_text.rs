use vstd::prelude::*;

verus! {

/// The lowercase hexadecimal digit of a value below sixteen.
pub open spec fn hex_digit(n: int) -> char {
    seq!['0', '1', '2', '3', '4', '5', '6', '7', '8', '9', 'a', 'b', 'c', 'd', 'e', 'f'][n]
}

/// The bytes written as lowercase hexadecimal, two digits per byte, high
/// digit first.
pub open spec fn hex_of(bytes: Seq<u8>) -> Seq<char> {
    Seq::new(
        2 * bytes.len(),
        |i: int|
            if i % 2 == 0 {
                hex_digit(bytes[i / 2] as int / 16)
            } else {
                hex_digit(bytes[i / 2] as int % 16)
            },
    )
}

/// The text of a hash: `0x` followed by all its bytes in lowercase hex.
pub open spec fn hash_text(hash: Seq<u8>) -> Seq<char> {
    seq!['0', 'x'] + hex_of(hash)
}

/// Formats the bytes as an `sp_core::H256` with `{:?}`: fixed-hash's `Debug`
/// writes `{:#x}`, and its `LowerHex` writes `0x` (for the alternate flag)
/// followed by every byte as `{:02x}`; the contract restates exactly that.
#[verifier::external_body]
fn h256_debug_text(bytes: [u8; 32]) -> (text: String)
    ensures
        text@ == hash_text(bytes@),
{
    format!("{:?}", sp_core::H256::from(bytes))
}

/// The text that a subscriber receives for a newly imported extrinsic: its
/// full hash, `0x` and 64 lowercase hex digits.
pub fn extrinsic_hash_text(hash: &[u8; 32]) -> (text: String)
    ensures
        text@ == hash_text(hash@),
        text@.len() == 66,
{
    let text = h256_debug_text(*hash);
    text
}

/// Distinct values below sixteen have distinct hex digits.
proof fn lemma_hex_digit_distinct(a: int, b: int)
    requires
        0 <= a < 16,
        0 <= b < 16,
        a != b,
    ensures
        hex_digit(a) != hex_digit(b),
{
    let digits = seq!['0', '1', '2', '3', '4', '5', '6', '7', '8', '9', 'a', 'b', 'c', 'd', 'e', 'f'];
    assert(digits[0] == '0' && digits[1] == '1' && digits[2] == '2' && digits[3] == '3'
        && digits[4] == '4' && digits[5] == '5' && digits[6] == '6' && digits[7] == '7'
        && digits[8] == '8' && digits[9] == '9' && digits[10] == 'a' && digits[11] == 'b'
        && digits[12] == 'c' && digits[13] == 'd' && digits[14] == 'e' && digits[15] == 'f');
}

/// The text of a hash is `0x` followed by two characters per byte, and two
/// hashes of the same length have the same text only if they are equal, so a
/// subscriber can tell every hash apart.
pub proof fn law_hash_text_is_faithful(a: Seq<u8>, b: Seq<u8>)
    requires
        a.len() == b.len(),
    ensures
        hash_text(a).len() == 2 + 2 * a.len(),
        hash_text(a)[0] == '0' && hash_text(a)[1] == 'x',
        hash_text(a) == hash_text(b) ==> a == b,
{
    if hash_text(a) == hash_text(b) {
        assert forall|i: int| 0 <= i < a.len() implies a[i] == b[i] by {
            let (x, y) = (a[i] as int, b[i] as int);
            assert(hash_text(a)[2 + 2 * i] == hash_text(b)[2 + 2 * i]);
            assert(hash_text(a)[3 + 2 * i] == hash_text(b)[3 + 2 * i]);
            assert((2 * i) % 2 == 0 && (2 * i) / 2 == i);
            assert((2 * i + 1) % 2 == 1 && (2 * i + 1) / 2 == i);
            assert(hex_of(a)[2 * i] == hex_digit(x / 16));
            assert(hex_of(b)[2 * i] == hex_digit(y / 16));
            assert(hex_of(a)[2 * i + 1] == hex_digit(x % 16));
            assert(hex_of(b)[2 * i + 1] == hex_digit(y % 16));
            if x / 16 != y / 16 {
                lemma_hex_digit_distinct(x / 16, y / 16);
            }
            if x % 16 != y % 16 {
                lemma_hex_digit_distinct(x % 16, y % 16);
            }
        }
        assert(a =~= b);
    }
}

/// A lowercase hexadecimal digit character.
pub open spec fn is_lower_hex_digit(c: char) -> bool {
    ('0' <= c && c <= '9') || ('a' <= c && c <= 'f')
}

/// The value of a lowercase hexadecimal digit character.
pub open spec fn hex_value(c: char) -> int {
    if '0' <= c && c <= '9' {
        c as int - '0' as int
    } else {
        c as int - 'a' as int + 10
    }
}

/// Every value below sixteen is written as a lowercase hex digit that reads
/// back as the value.
proof fn lemma_hex_digit_reads_back(n: int)
    requires
        0 <= n < 16,
    ensures
        is_lower_hex_digit(hex_digit(n)),
        hex_value(hex_digit(n)) == n,
{
    let digits = seq!['0', '1', '2', '3', '4', '5', '6', '7', '8', '9', 'a', 'b', 'c', 'd', 'e', 'f'];
    assert(digits[0] == '0' && digits[1] == '1' && digits[2] == '2' && digits[3] == '3'
        && digits[4] == '4' && digits[5] == '5' && digits[6] == '6' && digits[7] == '7'
        && digits[8] == '8' && digits[9] == '9' && digits[10] == 'a' && digits[11] == 'b'
        && digits[12] == 'c' && digits[13] == 'd' && digits[14] == 'e' && digits[15] == 'f');
}

/// After `0x`, the text of a hash holds, for each byte in order, two
/// lowercase hex digits, high digit first, that read back as the byte.
pub proof fn law_hash_text_reads_back(h: Seq<u8>)
    ensures
        forall|i: int|
            0 <= i < h.len() ==> is_lower_hex_digit(#[trigger] hash_text(h)[2 + 2 * i])
                && is_lower_hex_digit(hash_text(h)[3 + 2 * i]) && 16 * hex_value(
                hash_text(h)[2 + 2 * i],
            ) + hex_value(hash_text(h)[3 + 2 * i]) == h[i],
{
    assert forall|i: int| 0 <= i < h.len() implies is_lower_hex_digit(
        #[trigger] hash_text(h)[2 + 2 * i],
    ) && is_lower_hex_digit(hash_text(h)[3 + 2 * i]) && 16 * hex_value(hash_text(h)[2 + 2 * i])
        + hex_value(hash_text(h)[3 + 2 * i]) == h[i] by {
        let x = h[i] as int;
        assert((2 * i) % 2 == 0 && (2 * i) / 2 == i);
        assert((2 * i + 1) % 2 == 1 && (2 * i + 1) / 2 == i);
        assert(hash_text(h)[2 + 2 * i] == hex_of(h)[2 * i]);
        assert(hash_text(h)[3 + 2 * i] == hex_of(h)[2 * i + 1]);
        assert(hex_of(h)[2 * i] == hex_digit(x / 16));
        assert(hex_of(h)[2 * i + 1] == hex_digit(x % 16));
        lemma_hex_digit_reads_back(x / 16);
        lemma_hex_digit_reads_back(x % 16);
    }
}

} // verus!
