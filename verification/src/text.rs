//! Building text one character at a time, and upper-case hexadecimal digits.

use vstd::prelude::*;
use vstd::string::*;

verus! {

/// `String::push` of the standard library: the string afterwards is the string
/// before with `ch` added at its end.
pub assume_specification[ String::push ](s: &mut String, ch: char)
    ensures
        final(s)@ == old(s)@.push(ch),
;

/// The upper-case hexadecimal digit that stands for `n`.
pub open spec fn hex_char(n: int) -> char
    recommends
        0 <= n < 16,
{
    "0123456789ABCDEF"@[n]
}

/// The two upper-case hexadecimal digits of a byte, high nibble first.
pub open spec fn hex_octet(byte: u8) -> Seq<char> {
    seq![hex_char(byte as int / 16), hex_char(byte as int % 16)]
}

/// The upper-case hexadecimal digit of a value below sixteen.
fn hex_digit(n: u8) -> (c: char)
    requires
        n < 16,
    ensures
        c == hex_char(n as int),
{
    proof {
        reveal_strlit("0123456789ABCDEF");
    }
    "0123456789ABCDEF".get_char(n as usize)
}

/// Appends the two hexadecimal digits of `byte` to `out`.
pub fn push_hex_octet(out: &mut String, byte: u8)
    ensures
        final(out)@ == old(out)@ + hex_octet(byte),
{
    let high: u8 = byte / 16;
    let low: u8 = byte % 16;
    out.push(hex_digit(high));
    out.push(hex_digit(low));
}

} // verus!
