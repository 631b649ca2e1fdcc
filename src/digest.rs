use vstd::prelude::*;

verus! {

/// Number of bytes in a digest.
pub const DIGEST_LEN: usize = 32;

/// A lowercase hex digit for a value below sixteen.
pub open spec fn hex_char(v: int) -> char {
    if v < 10 {
        (v + '0' as int) as char
    } else {
        (v - 10 + 'a' as int) as char
    }
}

/// Whether `c` is a hex digit, of either case.
pub open spec fn is_hex_digit(c: char) -> bool {
    ('0' <= c && c <= '9') || ('a' <= c && c <= 'f') || ('A' <= c && c <= 'F')
}

/// The value of a hex digit.
pub open spec fn hex_value(c: char) -> int {
    if '0' <= c && c <= '9' {
        c as int - '0' as int
    } else if 'a' <= c && c <= 'f' {
        c as int - 'a' as int + 10
    } else {
        c as int - 'A' as int + 10
    }
}

/// Text that spells a digest: exactly two hex digits per byte.
pub open spec fn is_digest_hex(s: Seq<char>) -> bool {
    &&& s.len() == 2 * DIGEST_LEN
    &&& forall|i: int| 0 <= i < s.len() ==> #[trigger] is_hex_digit(s[i])
}

/// The bytes spelled by hex text, high digit first.
pub open spec fn decode_hex(s: Seq<char>) -> Seq<u8> {
    Seq::new(
        (s.len() / 2) as nat,
        |i: int| (16 * hex_value(s[2 * i]) + hex_value(s[2 * i + 1])) as u8,
    )
}

/// Lowercase hex text of some bytes, high digit first.
pub open spec fn encode_hex(b: Seq<u8>) -> Seq<char> {
    Seq::new(
        2 * b.len(),
        |i: int|
            if i % 2 == 0 {
                hex_char(b[i / 2] as int / 16)
            } else {
                hex_char(b[i / 2] as int % 16)
            },
    )
}

#[verifier::external_type_specification]
#[verifier::external_body]
pub struct ExHexError(blake3::HexError);

/// A 256-bit content digest.
#[derive(Clone, Copy, Debug)]
pub struct Digest {
    pub bytes: [u8; 32],
}

impl View for Digest {
    type V = Seq<u8>;

    open spec fn view(&self) -> Seq<u8> {
        self.bytes@
    }
}

/// Relies on blake3::Hash::from_hex: 64 hex digits of either case give the
/// 32 bytes they spell; any other length or byte is an error.
#[verifier::external_body]
fn blake3_from_hex(s: &str) -> (r: Result<[u8; 32], blake3::HexError>)
    ensures
        r is Ok <==> is_digest_hex(s@),
        r matches Ok(b) ==> b@ == decode_hex(s@),
{
    match blake3::Hash::from_hex(s) {
        Ok(h) => Ok(*h.as_bytes()),
        Err(e) => Err(e),
    }
}

/// Relies on blake3::Hash::to_hex: two lowercase hex digits per byte, in order.
#[verifier::external_body]
fn blake3_to_hex(b: &[u8; 32]) -> (r: String)
    ensures
        r@ == encode_hex(b@),
{
    blake3::Hash::from_bytes(*b).to_hex().to_string()
}

/// Relies on blake3's `PartialEq` for `Hash`: equal exactly when every byte is.
#[verifier::external_body]
fn blake3_eq(a: &[u8; 32], b: &[u8; 32]) -> (r: bool)
    ensures
        r == (a@ == b@),
{
    blake3::Hash::from_bytes(*a) == blake3::Hash::from_bytes(*b)
}

impl Digest {
    /// The digest spelled by `s`, or `None` when `s` is not 64 hex digits.
    pub fn from_hex(s: &str) -> (r: Option<Digest>)
        ensures
            r is Some <==> is_digest_hex(s@),
            r matches Some(d) ==> d@ == decode_hex(s@),
    {
        match blake3_from_hex(s) {
            Ok(b) => Some(Digest { bytes: b }),
            Err(_) => None,
        }
    }

    /// Lowercase hex text of the digest.
    pub fn to_hex(&self) -> (r: String)
        ensures
            r@ == encode_hex(self@),
            r@.len() == 2 * DIGEST_LEN,
    {
        blake3_to_hex(&self.bytes)
    }

    /// Whether two digests hold the same bytes.
    pub fn equals(&self, other: &Digest) -> (r: bool)
        ensures
            r == (self@ == other@),
    {
        blake3_eq(&self.bytes, &other.bytes)
    }
}

} // verus!
