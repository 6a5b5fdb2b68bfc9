//! Rendering of numbers and byte strings as text, as the trace diagnostics
//! print them.

use vstd::prelude::*;

verus! {

/// The lower-case hexadecimal digits, in order of value.
pub open spec fn hex_digits() -> Seq<char> {
    seq!['0', '1', '2', '3', '4', '5', '6', '7', '8', '9', 'a', 'b', 'c', 'd', 'e', 'f']
}

/// The decimal digits, in order of value.
pub open spec fn decimal_digits() -> Seq<char> {
    seq!['0', '1', '2', '3', '4', '5', '6', '7', '8', '9']
}

/// Two lower-case hexadecimal digits of a byte, high nibble first (`{:02x}`).
pub open spec fn hex_byte(b: u8) -> Seq<char> {
    seq![hex_digits()[(b / 16) as int], hex_digits()[(b % 16) as int]]
}

/// The bytes of `s` in order, each as two lower-case hexadecimal digits.
pub open spec fn hex_bytes(s: Seq<u8>) -> Seq<char>
    decreases s.len(),
{
    if s.len() == 0 {
        seq![]
    } else {
        hex_bytes(s.drop_last()) + hex_byte(s.last())
    }
}

/// The hexadecimal rendering of bytes holds only ASCII letters and digits.
pub proof fn lemma_hex_bytes_alphanumeric(s: Seq<u8>)
    ensures
        ascii_alphanumeric(hex_bytes(s)),
    decreases s.len(),
{
    if s.len() > 0 {
        lemma_hex_bytes_alphanumeric(s.drop_last());
        let b = s.last();
        assert(0 <= b / 16 < 16 && 0 <= b % 16 < 16);
        let h = hex_bytes(s);
        let front = hex_bytes(s.drop_last());
        assert forall|i: int| 0 <= i < h.len() implies ('a' <= #[trigger] h[i] <= 'z' || 'A' <= h[i]
            <= 'Z' || '0' <= h[i] <= '9') by {
            if i < front.len() {
                assert(h[i] == front[i]);
            } else {
                assert(h[i] == hex_byte(b)[i - front.len()]);
            }
        }
    }
}

/// The decimal representation of `n`, without leading zeros.
pub open spec fn decimal(n: nat) -> Seq<char>
    decreases n,
{
    if n < 10 {
        seq![decimal_digits()[n as int]]
    } else {
        decimal(n / 10) + seq![decimal_digits()[(n % 10) as int]]
    }
}

/// What Rust's `Debug` formatting prints for a string with the characters `s`
/// (the quoted, escaped form).
pub uninterp spec fn spec_debug_str(s: Seq<char>) -> Seq<char>;

/// Whether every character of `s` is an ASCII letter or digit.
pub open spec fn ascii_alphanumeric(s: Seq<char>) -> bool {
    forall|i: int|
        0 <= i < s.len() ==> ('a' <= #[trigger] s[i] <= 'z' || 'A' <= s[i] <= 'Z' || '0' <= s[i]
            <= '9')
}

/// Formats `s` with `Debug` for `str` (std's `<str as Debug>::fmt`).
///
/// The contract names the result: it is the `Debug` rendering of the
/// characters of `s`, a function of those characters alone. As std
/// documents (`char::escape_debug` leaves ASCII letters and digits as they
/// are), a string of ASCII letters and digits renders as itself in double
/// quotes.
#[verifier::external_body]
pub(crate) fn debug_str(s: &str) -> (r: String)
    ensures
        r@ == spec_debug_str(s@),
        ascii_alphanumeric(s@) ==> r@ == seq!['"'] + s@ + seq!['"'],
{
    format!("{:?}", s)
}

/// Appends the hexadecimal digit of value `d` to `out`.
pub fn push_hex_digit(out: &mut String, d: u8)
    requires
        d < 16,
    ensures
        final(out)@ == old(out)@.push(hex_digits()[d as int]),
{
    let digits = "0123456789abcdef";
    proof {
        reveal_strlit("0123456789abcdef");
        assert(digits@ =~= hex_digits());
    }
    let s = digits.substring_char(d as usize, d as usize + 1);
    assert(s@ =~= seq![hex_digits()[d as int]]);
    out.append(s);
}

/// Appends the decimal digit of value `d` to `out`.
pub fn push_decimal_digit(out: &mut String, d: u8)
    requires
        d < 10,
    ensures
        final(out)@ == old(out)@.push(decimal_digits()[d as int]),
{
    let digits = "0123456789";
    proof {
        reveal_strlit("0123456789");
        assert(digits@ =~= decimal_digits());
    }
    let s = digits.substring_char(d as usize, d as usize + 1);
    assert(s@ =~= seq![decimal_digits()[d as int]]);
    out.append(s);
}

/// Appends the two hexadecimal digits of `b` to `out`.
pub fn push_hex_byte(out: &mut String, b: u8)
    ensures
        final(out)@ == old(out)@ + hex_byte(b),
{
    push_hex_digit(out, b / 16);
    push_hex_digit(out, b % 16);
    assert(out@ =~= old(out)@ + hex_byte(b));
}

/// Appends the hexadecimal rendering of every byte of `bytes` to `out`.
pub fn push_hex_bytes(out: &mut String, bytes: &[u8])
    ensures
        final(out)@ == old(out)@ + hex_bytes(bytes@),
{
    let ghost start = out@;
    let n = bytes.len();
    let mut i: usize = 0;
    while i < n
        invariant
            n == bytes@.len(),
            i <= n,
            out@ == start + hex_bytes(bytes@.take(i as int)),
        decreases n - i,
    {
        push_hex_byte(out, bytes[i]);
        proof {
            assert(bytes@.take(i + 1).drop_last() =~= bytes@.take(i as int));
            assert(bytes@.take(i + 1).last() == bytes@[i as int]);
        }
        i = i + 1;
        assert(out@ =~= start + hex_bytes(bytes@.take(i as int)));
    }
    assert(bytes@.take(n as int) =~= bytes@);
}

/// Appends the decimal representation of `n` to `out`.
pub fn push_decimal(out: &mut String, n: u64)
    ensures
        final(out)@ == old(out)@ + decimal(n as nat),
    decreases n,
{
    if n < 10 {
        push_decimal_digit(out, n as u8);
        assert(out@ =~= old(out)@ + decimal(n as nat));
    } else {
        push_decimal(out, n / 10);
        push_decimal_digit(out, (n % 10) as u8);
        assert(out@ =~= old(out)@ + decimal(n as nat));
    }
}

/// Appends, in reverse order, the hexadecimal rendering of the bytes of
/// `bytes` in `[start, end)`: the little-endian bytes of a value read as a
/// big-endian number.
pub fn push_hex_bytes_reversed(out: &mut String, bytes: &[u8], start: usize, end: usize)
    requires
        start <= end <= bytes@.len(),
    ensures
        final(out)@ == old(out)@ + hex_bytes(bytes@.subrange(start as int, end as int).reverse()),
{
    let ghost begin = out@;
    let ghost seg = bytes@.subrange(start as int, end as int);
    let n = end - start;
    let mut k: usize = 0;
    while k < n
        invariant
            start <= end <= bytes@.len(),
            n == end - start,
            seg == bytes@.subrange(start as int, end as int),
            k <= n,
            out@ == begin + hex_bytes(seg.reverse().take(k as int)),
        decreases n - k,
    {
        let b = bytes[end - 1 - k];
        assert(seg.reverse()[k as int] == b);
        push_hex_byte(out, b);
        proof {
            assert(seg.reverse().take(k + 1).drop_last() =~= seg.reverse().take(k as int));
            assert(seg.reverse().take(k + 1).last() == b);
        }
        k = k + 1;
        assert(out@ =~= begin + hex_bytes(seg.reverse().take(k as int)));
    }
    assert(seg.reverse().take(n as int) =~= seg.reverse());
}

} // verus!
