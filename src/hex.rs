//! Lowercase hexadecimal text, the printable form of stored ciphertext, and
//! random bytes from the operating system.
use aes_gcm::aead::rand_core::RngCore;
use vstd::prelude::*;

verus! {

/// The symbol for a value below sixteen.
pub open spec fn hex_symbol(n: int) -> char {
    if n == 0 { '0' } else if n == 1 { '1' } else if n == 2 { '2' } else if n == 3 { '3' }
    else if n == 4 { '4' } else if n == 5 { '5' } else if n == 6 { '6' } else if n == 7 { '7' }
    else if n == 8 { '8' } else if n == 9 { '9' } else if n == 10 { 'a' } else if n == 11 { 'b' }
    else if n == 12 { 'c' } else if n == 13 { 'd' } else if n == 14 { 'e' } else { 'f' }
}

pub open spec fn is_hex_symbol(c: char) -> bool {
    ('0' <= c && c <= '9') || ('a' <= c && c <= 'f')
}

/// The value of a lowercase hexadecimal symbol.
pub open spec fn hex_value(c: char) -> int {
    if '0' <= c && c <= '9' { c as int - '0' as int } else { c as int - 'a' as int + 10 }
}

/// Two lowercase symbols per byte, high half first.
pub open spec fn hex_lower(b: Seq<u8>) -> Seq<char> {
    Seq::new(
        2 * b.len(),
        |i: int| if i % 2 == 0 { hex_symbol((b[i / 2] / 16) as int) } else { hex_symbol((b[i / 2] % 16) as int) },
    )
}

/// Text that is an encoding under `hex_lower`.
pub open spec fn is_hex_lower(s: Seq<char>) -> bool {
    s.len() % 2 == 0 && forall|i: int| 0 <= i < s.len() ==> is_hex_symbol(#[trigger] s[i])
}

/// The bytes that lowercase hexadecimal text stands for.
pub open spec fn hex_bytes(s: Seq<char>) -> Seq<u8> {
    Seq::new(
        s.len() / 2,
        |j: int| (16 * hex_value(s[2 * j]) + hex_value(s[2 * j + 1])) as u8,
    )
}

proof fn lemma_symbol_value(n: int)
    requires
        0 <= n < 16,
    ensures
        is_hex_symbol(hex_symbol(n)),
        hex_value(hex_symbol(n)) == n,
{
}

proof fn lemma_value_symbol(c: char)
    requires
        is_hex_symbol(c),
    ensures
        0 <= hex_value(c) < 16,
        hex_symbol(hex_value(c)) == c,
{
    assert('0' as int == 48 && 'a' as int == 97);
    if '0' <= c && c <= '9' {
        assert(c == '0' || c == '1' || c == '2' || c == '3' || c == '4' || c == '5' || c == '6'
            || c == '7' || c == '8' || c == '9');
    } else {
        assert(c == 'a' || c == 'b' || c == 'c' || c == 'd' || c == 'e' || c == 'f');
    }
}

proof fn lemma_split_byte(x: u8)
    ensures
        x == 16 * (x / 16) + x % 16,
        0 <= x / 16 < 16,
        0 <= x % 16 < 16,
{
}

proof fn lemma_join_byte(h: int, l: int)
    requires
        0 <= h < 16,
        0 <= l < 16,
    ensures
        ((16 * h + l) as u8) / 16 == h,
        ((16 * h + l) as u8) % 16 == l,
{
}

/// Encoding bytes and reading them back gives the same bytes.
pub proof fn lemma_hex_round_trip(b: Seq<u8>)
    ensures
        is_hex_lower(hex_lower(b)),
        hex_bytes(hex_lower(b)) == b,
{
    let s = hex_lower(b);
    assert forall|i: int| 0 <= i < s.len() implies is_hex_symbol(#[trigger] s[i]) by {
        lemma_split_byte(b[i / 2]);
        if i % 2 == 0 {
            lemma_symbol_value((b[i / 2] / 16) as int);
        } else {
            lemma_symbol_value((b[i / 2] % 16) as int);
        }
    }
    assert forall|j: int| 0 <= j < b.len() implies #[trigger] hex_bytes(s)[j] == b[j] by {
        lemma_split_byte(b[j]);
        lemma_symbol_value((b[j] / 16) as int);
        lemma_symbol_value((b[j] % 16) as int);
        assert((2 * j) / 2 == j && (2 * j + 1) / 2 == j && (2 * j) % 2 == 0 && (2 * j + 1) % 2
            == 1);
    }
    assert(hex_bytes(s) =~= b);
}

/// Well-formed hexadecimal text is the encoding of the bytes it stands for.
pub proof fn lemma_hex_text_round_trip(s: Seq<char>)
    requires
        is_hex_lower(s),
    ensures
        hex_lower(hex_bytes(s)) == s,
{
    let b = hex_bytes(s);
    assert forall|i: int| 0 <= i < s.len() implies #[trigger] hex_lower(b)[i] == s[i] by {
        let j = i / 2;
        assert(0 <= 2 * j && 2 * j + 1 < s.len());
        lemma_value_symbol(s[2 * j]);
        lemma_value_symbol(s[2 * j + 1]);
        lemma_join_byte(hex_value(s[2 * j]), hex_value(s[2 * j + 1]));
    }
    assert(hex_lower(b) =~= s);
}

/// Relies on data_encoding::HEXLOWER.encode: two lowercase symbols per byte,
/// high half first.
#[verifier::external_body]
pub(crate) fn hex_encode(b: &[u8]) -> (r: String)
    ensures
        r@ == hex_lower(b@),
{
    data_encoding::HEXLOWER.encode(b)
}

/// Relies on data_encoding::HEXLOWER.decode: it accepts exactly the texts of
/// even length over `0-9a-f`, and reads each pair of symbols as one byte.
#[verifier::external_body]
pub(crate) fn hex_decode(s: &str) -> (r: Option<Vec<u8>>)
    ensures
        r is Some <==> is_hex_lower(s@),
        r matches Some(v) ==> v@ == hex_bytes(s@),
{
    data_encoding::HEXLOWER.decode(s.as_bytes()).ok()
}

/// Relies on aes_gcm::aead::OsRng (rand_core's operating-system generator):
/// `try_fill_bytes` fills the whole buffer or reports failure.
#[verifier::external_body]
pub(crate) fn random_bytes(n: usize) -> (r: Option<Vec<u8>>)
    ensures
        r matches Some(v) ==> v@.len() == n,
{
    let mut buf = vec![0u8; n];
    aes_gcm::aead::OsRng.try_fill_bytes(&mut buf).ok().map(|_| buf)
}

} // verus!
