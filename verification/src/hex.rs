//! Upper-case hexadecimal encoding of byte strings.

use std::fmt::Write;
use vstd::prelude::*;

verus! {

/// The upper-case hexadecimal digit for a nibble (`n < 16`).
pub open spec fn hex_digit(n: int) -> char {
    if n < 10 {
        (n + 48) as char
    } else {
        (n + 55) as char
    }
}

/// The two upper-case hexadecimal digits of a byte, high nibble first.
pub open spec fn hex_pair(b: u8) -> Seq<char> {
    seq![hex_digit(b as int / 16), hex_digit(b as int % 16)]
}

/// The upper-case hexadecimal encoding of a byte string.
pub open spec fn hex_upper(bytes: Seq<u8>) -> Seq<char>
    decreases bytes.len(),
{
    if bytes.len() == 0 {
        Seq::empty()
    } else {
        hex_upper(bytes.drop_last()) + hex_pair(bytes.last())
    }
}

/// A character that `hex_upper` may produce.
pub open spec fn is_upper_hex_char(c: char) -> bool {
    ('0' <= c && c <= '9') || ('A' <= c && c <= 'F')
}

/// Appends the two upper-case digits of `b` to `s`, as the std format
/// `{:02X}` writes them. Calls `write!` on a `String`, whose `fmt::Write`
/// impl never fails.
#[verifier::external_body]
fn append_hex_byte(s: &mut String, b: u8)
    ensures
        final(s)@ == old(s)@ + hex_pair(b),
{
    write!(s, "{:02X}", b).unwrap();
}

/// Encodes `bytes` as upper-case hexadecimal, two digits per byte.
pub fn encode_hex(bytes: &[u8]) -> (s: String)
    ensures
        s@ == hex_upper(bytes@),
{
    let mut s = String::new();
    let n = bytes.len();
    let mut i: usize = 0;
    while i < n
        invariant
            n == bytes@.len(),
            i <= n,
            s@ == hex_upper(bytes@.take(i as int)),
        decreases n - i,
    {
        let b = bytes[i];
        append_hex_byte(&mut s, b);
        assert(bytes@.take(i as int + 1).drop_last() =~= bytes@.take(i as int));
        i = i + 1;
    }
    assert(bytes@.take(n as int) =~= bytes@);
    s
}

/// The encoding has exactly two characters per byte, each an upper-case
/// hexadecimal digit.
pub proof fn lemma_hex_upper_shape(bytes: Seq<u8>)
    ensures
        hex_upper(bytes).len() == 2 * bytes.len(),
        forall|i: int| 0 <= i < hex_upper(bytes).len() ==> is_upper_hex_char(#[trigger] hex_upper(bytes)[i]),
    decreases bytes.len(),
{
    if bytes.len() > 0 {
        lemma_hex_upper_shape(bytes.drop_last());
        let b = bytes.last();
        assert(is_upper_hex_char(hex_digit(b as int / 16)));
        assert(is_upper_hex_char(hex_digit(b as int % 16)));
    }
}

proof fn lemma_hex_digit_injective(a: int, b: int)
    requires
        0 <= a < 16,
        0 <= b < 16,
        hex_digit(a) == hex_digit(b),
    ensures
        a == b,
{
}

/// Two byte strings with the same encoding are equal: the encoding loses
/// nothing.
pub proof fn lemma_hex_upper_injective(a: Seq<u8>, b: Seq<u8>)
    requires
        hex_upper(a) == hex_upper(b),
    ensures
        a == b,
    decreases a.len(),
{
    lemma_hex_upper_shape(a);
    lemma_hex_upper_shape(b);
    if a.len() > 0 {
        let ea = hex_upper(a);
        let n = ea.len();
        lemma_hex_upper_shape(a.drop_last());
        lemma_hex_upper_shape(b.drop_last());
        assert(ea[n - 2] == hex_digit(a.last() as int / 16));
        assert(hex_upper(b)[n - 2] == hex_digit(b.last() as int / 16));
        assert(ea[n - 1] == hex_digit(a.last() as int % 16));
        assert(hex_upper(b)[n - 1] == hex_digit(b.last() as int % 16));
        lemma_hex_digit_injective(a.last() as int / 16, b.last() as int / 16);
        lemma_hex_digit_injective(a.last() as int % 16, b.last() as int % 16);
        assert(a.last() == b.last());
        assert(hex_upper(a.drop_last()) =~= ea.subrange(0, n - 2));
        assert(hex_upper(b.drop_last()) =~= hex_upper(b).subrange(0, n - 2));
        lemma_hex_upper_injective(a.drop_last(), b.drop_last());
        assert(a =~= a.drop_last().push(a.last()));
        assert(b =~= b.drop_last().push(b.last()));
    }
}

proof fn lemma_hex_digit_table(n: int)
    requires
        0 <= n < 16,
    ensures
        hex_digit(n) == "0123456789ABCDEF"@[n],
{
    reveal_strlit("0123456789ABCDEF");
    if n == 0 { assert(hex_digit(0) == '0'); }
    else if n == 1 { assert(hex_digit(1) == '1'); }
    else if n == 2 { assert(hex_digit(2) == '2'); }
    else if n == 3 { assert(hex_digit(3) == '3'); }
    else if n == 4 { assert(hex_digit(4) == '4'); }
    else if n == 5 { assert(hex_digit(5) == '5'); }
    else if n == 6 { assert(hex_digit(6) == '6'); }
    else if n == 7 { assert(hex_digit(7) == '7'); }
    else if n == 8 { assert(hex_digit(8) == '8'); }
    else if n == 9 { assert(hex_digit(9) == '9'); }
    else if n == 10 { assert(hex_digit(10) == 'A'); }
    else if n == 11 { assert(hex_digit(11) == 'B'); }
    else if n == 12 { assert(hex_digit(12) == 'C'); }
    else if n == 13 { assert(hex_digit(13) == 'D'); }
    else if n == 14 { assert(hex_digit(14) == 'E'); }
    else { assert(hex_digit(15) == 'F'); }
}

/// The encoding writes byte `i` at positions `2 i` and `2 i + 1`: its high
/// nibble, then its low nibble, each as a digit of `0123456789ABCDEF`.
pub proof fn lemma_hex_upper_digits(bytes: Seq<u8>)
    ensures
        hex_upper(bytes).len() == 2 * bytes.len(),
        forall|i: int|
            0 <= i < bytes.len() ==> {
                &&& hex_upper(bytes)[2 * i] == "0123456789ABCDEF"@[#[trigger] bytes[i] as int / 16]
                &&& hex_upper(bytes)[2 * i + 1] == "0123456789ABCDEF"@[bytes[i] as int % 16]
            },
    decreases bytes.len(),
{
    lemma_hex_upper_shape(bytes);
    if bytes.len() > 0 {
        let init = bytes.drop_last();
        lemma_hex_upper_digits(init);
        lemma_hex_upper_shape(init);
        let b = bytes.last();
        lemma_hex_digit_table(b as int / 16);
        lemma_hex_digit_table(b as int % 16);
        assert forall|i: int| 0 <= i < bytes.len() implies {
            &&& hex_upper(bytes)[2 * i] == "0123456789ABCDEF"@[#[trigger] bytes[i] as int / 16]
            &&& hex_upper(bytes)[2 * i + 1] == "0123456789ABCDEF"@[bytes[i] as int % 16]
        } by {
            if i < init.len() {
                assert(init[i] == bytes[i]);
            }
        }
    }
}

} // verus!
