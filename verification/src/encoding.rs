//! Base64: the standard alphabet, with padding.

use vstd::prelude::*;

verus! {

/// The symbol for six bits, as a number below 64.
pub open spec fn symbol(n: int) -> char {
    if n < 26 {
        (('A' as int) + n) as char
    } else if n < 52 {
        (('a' as int) + n - 26) as char
    } else if n < 62 {
        (('0' as int) + n - 52) as char
    } else if n == 62 {
        '+'
    } else {
        '/'
    }
}

/// The bytes in base64: four symbols for every three bytes, with `=` in place of
/// the symbols that a last group of one or two bytes does not need.
pub open spec fn base64_encoded(bytes: Seq<u8>) -> Seq<char>
    decreases bytes.len(),
{
    if bytes.len() == 0 {
        seq![]
    } else if bytes.len() == 1 {
        let n = bytes[0] * 16;
        seq![symbol(n / 64), symbol(n % 64), '=', '=']
    } else if bytes.len() == 2 {
        let n = (bytes[0] * 256 + bytes[1]) * 4;
        seq![symbol(n / 4096), symbol(n / 64 % 64), symbol(n % 64), '=']
    } else {
        let n = bytes[0] * 65536 + bytes[1] * 256 + bytes[2];
        seq![symbol(n / 262144), symbol(n / 4096 % 64), symbol(n / 64 % 64), symbol(n % 64)]
            + base64_encoded(bytes.skip(3))
    }
}

/// The bytes that a text is the base64 of, if it is that of any.
pub open spec fn base64_decoded(text: Seq<char>) -> Option<Seq<u8>> {
    if exists|bytes: Seq<u8>| #[trigger] base64_encoded(bytes) == text {
        Some(choose|bytes: Seq<u8>| #[trigger] base64_encoded(bytes) == text)
    } else {
        None
    }
}

/// Whether a character can stand in base64.
pub open spec fn is_base64_char(c: char) -> bool {
    ||| 'A' <= c <= 'Z'
    ||| 'a' <= c <= 'z'
    ||| '0' <= c <= '9'
    ||| c == '+' || c == '/' || c == '='
}

proof fn lemma_symbol(n: int)
    requires
        0 <= n < 64,
    ensures
        is_base64_char(symbol(n)),
        symbol(n) != '=',
{
}

proof fn lemma_symbols_differ(m: int, n: int)
    requires
        0 <= m < 64,
        0 <= n < 64,
        symbol(m) == symbol(n),
    ensures
        m == n,
{
}

/// Base64 is made of its own characters alone.
pub proof fn lemma_base64_chars(bytes: Seq<u8>)
    ensures
        forall|i: int|
            0 <= i < base64_encoded(bytes).len() ==> is_base64_char(
                #[trigger] base64_encoded(bytes)[i],
            ),
    decreases bytes.len(),
{
    let text = base64_encoded(bytes);
    if bytes.len() == 1 {
        let n = bytes[0] * 16;
        lemma_symbol(n / 64);
        lemma_symbol(n % 64);
    } else if bytes.len() == 2 {
        let n = (bytes[0] * 256 + bytes[1]) * 4;
        lemma_symbol(n / 4096);
        lemma_symbol(n / 64 % 64);
        lemma_symbol(n % 64);
    } else if bytes.len() > 2 {
        let n = bytes[0] * 65536 + bytes[1] * 256 + bytes[2];
        lemma_symbol(n / 262144);
        lemma_symbol(n / 4096 % 64);
        lemma_symbol(n / 64 % 64);
        lemma_symbol(n % 64);
        lemma_base64_chars(bytes.skip(3));
        let rest = base64_encoded(bytes.skip(3));
        assert forall|i: int| 0 <= i < text.len() implies is_base64_char(#[trigger] text[i]) by {
            if i >= 4 {
                assert(text[i] == rest[i - 4]);
            }
        }
    }
}

/// The length of base64, and how many of its last characters are padding, tell
/// how many bytes it stands for.
proof fn lemma_last_group(bytes: Seq<u8>)
    ensures
        bytes.len() == 0 <==> base64_encoded(bytes).len() == 0,
        bytes.len() > 0 ==> base64_encoded(bytes).len() >= 4,
        bytes.len() == 1 <==> base64_encoded(bytes).len() >= 4 && base64_encoded(bytes)[2] == '=',
        bytes.len() == 2 <==> base64_encoded(bytes).len() >= 4 && base64_encoded(bytes)[2] != '='
            && base64_encoded(bytes)[3] == '=',
{
    if bytes.len() == 2 {
        let n = (bytes[0] * 256 + bytes[1]) * 4;
        lemma_symbol(n % 64);
    } else if bytes.len() > 2 {
        let n = bytes[0] * 65536 + bytes[1] * 256 + bytes[2];
        lemma_symbol(n / 64 % 64);
        lemma_symbol(n % 64);
    }
}

/// The symbols of a group tell its 24 bits.
proof fn lemma_group(m: int, n: int)
    requires
        0 <= m < 16777216,
        0 <= n < 16777216,
        symbol(m / 262144) == symbol(n / 262144),
        symbol(m / 4096 % 64) == symbol(n / 4096 % 64),
        symbol(m / 64 % 64) == symbol(n / 64 % 64),
        symbol(m % 64) == symbol(n % 64),
    ensures
        m == n,
{
    lemma_symbols_differ(m / 262144, n / 262144);
    lemma_symbols_differ(m / 4096 % 64, n / 4096 % 64);
    lemma_symbols_differ(m / 64 % 64, n / 64 % 64);
    lemma_symbols_differ(m % 64, n % 64);
    let (p, q) = (m / 64, n / 64);
    assert(m == p * 64 + m % 64 && n == q * 64 + n % 64);
    assert(m / 4096 == p / 64 && n / 4096 == q / 64);
    let (r, t) = (m / 4096, n / 4096);
    assert(p == r * 64 + p % 64 && q == t * 64 + q % 64);
    assert(m / 262144 == r / 64 && n / 262144 == t / 64);
    assert(r == r / 64 * 64 + r % 64 && t == t / 64 * 64 + t % 64);
}

/// The symbols of a last group of one or two bytes tell its bits.
proof fn lemma_short_group(m: int, n: int)
    requires
        0 <= m < 262144,
        0 <= n < 262144,
        symbol(m / 4096) == symbol(n / 4096),
        symbol(m / 64 % 64) == symbol(n / 64 % 64),
        symbol(m % 64) == symbol(n % 64),
    ensures
        m == n,
{
    assert(m / 262144 == 0 && n / 262144 == 0);
    assert(m / 4096 % 64 == m / 4096 && n / 4096 % 64 == n / 4096);
    lemma_group(m, n);
}

/// No two sequences of bytes have the same base64.
pub proof fn law_base64_is_unambiguous(a: Seq<u8>, b: Seq<u8>)
    requires
        base64_encoded(a) == base64_encoded(b),
    ensures
        a == b,
    decreases a.len(),
{
    let (s, t) = (base64_encoded(a), base64_encoded(b));
    lemma_last_group(a);
    lemma_last_group(b);
    if a.len() == 0 {
        assert(a =~= b);
    } else if a.len() == 1 {
        let (m, n) = (a[0] * 16, b[0] * 16);
        assert(s[0] == symbol(m / 64) && s[1] == symbol(m % 64));
        assert(t[0] == symbol(n / 64) && t[1] == symbol(n % 64));
        lemma_symbols_differ(m / 64, n / 64);
        lemma_symbols_differ(m % 64, n % 64);
        assert(a =~= b);
    } else if a.len() == 2 {
        let (m, n) = ((a[0] * 256 + a[1]) * 4, (b[0] * 256 + b[1]) * 4);
        assert(s[0] == symbol(m / 4096) && s[1] == symbol(m / 64 % 64) && s[2] == symbol(m % 64));
        assert(t[0] == symbol(n / 4096) && t[1] == symbol(n / 64 % 64) && t[2] == symbol(n % 64));
        lemma_short_group(m, n);
        assert(a =~= b);
    } else {
        lemma_first_group(a, b);
        assert(s.skip(4) =~= base64_encoded(a.skip(3)));
        assert(t.skip(4) =~= base64_encoded(b.skip(3)));
        law_base64_is_unambiguous(a.skip(3), b.skip(3));
        assert(a =~= a.take(3) + a.skip(3));
        assert(b =~= b.take(3) + b.skip(3));
    }
}

/// Where two sequences have the same base64, their first three bytes are the
/// same.
proof fn lemma_first_group(a: Seq<u8>, b: Seq<u8>)
    requires
        a.len() > 2,
        b.len() > 2,
        base64_encoded(a) == base64_encoded(b),
    ensures
        a.take(3) == b.take(3),
{
    let (s, t) = (base64_encoded(a), base64_encoded(b));
    let m = a[0] * 65536 + a[1] * 256 + a[2];
    let n = b[0] * 65536 + b[1] * 256 + b[2];
    assert(s[0] == symbol(m / 262144) && s[1] == symbol(m / 4096 % 64));
    assert(s[2] == symbol(m / 64 % 64) && s[3] == symbol(m % 64));
    assert(t[0] == symbol(n / 262144) && t[1] == symbol(n / 4096 % 64));
    assert(t[2] == symbol(n / 64 % 64) && t[3] == symbol(n % 64));
    lemma_group(m, n);
    assert(a.take(3) =~= b.take(3));
}

/// Decoding gives back the bytes that were encoded.
pub proof fn law_decoding_undoes_encoding(bytes: Seq<u8>)
    ensures
        base64_decoded(base64_encoded(bytes)) == Some(bytes),
{
    let chosen = choose|b: Seq<u8>| #[trigger] base64_encoded(b) == base64_encoded(bytes);
    law_base64_is_unambiguous(chosen, bytes);
}

} // verus!
