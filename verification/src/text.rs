//! Rendering of numbers as text, for the log lines.

use vstd::prelude::*;
use vstd::string::*;

verus! {

/// The sixteen digits of lowercase hexadecimal, in order.
pub open spec fn digits() -> Seq<char> {
    seq!['0', '1', '2', '3', '4', '5', '6', '7', '8', '9', 'a', 'b', 'c', 'd', 'e', 'f']
}

/// The character for the digit `d`, for `d` below sixteen.
pub open spec fn digit_char(d: int) -> char
    recommends
        0 <= d < 16,
{
    digits()[d]
}

/// A byte in hexadecimal: `0x` and exactly two lowercase digits, so that
/// five is `0x05` and 255 is `0xff`.
pub open spec fn hex_text(byte: u8) -> Seq<char> {
    seq!['0', 'x', digit_char(byte as int / 16), digit_char(byte as int % 16)]
}

/// A number in decimal, without sign and without leading zeros.
pub open spec fn decimal_text(n: nat) -> Seq<char>
    decreases n,
{
    if n < 10 {
        seq![digit_char(n as int)]
    } else {
        decimal_text(n / 10).push(digit_char(n as int % 10))
    }
}

/// The number that the digit `c` stands for.
pub open spec fn digit_value(c: char) -> int
    recommends
        digits().contains(c),
{
    digits().index_of(c)
}

/// The number that a string of decimal digits stands for.
pub open spec fn decimal_value(text: Seq<char>) -> int
    decreases text.len(),
{
    if text.len() == 0 {
        0
    } else {
        decimal_value(text.drop_last()) * 10 + digit_value(text.last())
    }
}

/// Each digit character stands for the digit it was chosen for.
pub proof fn digit_reads_back(d: int)
    requires
        0 <= d < 16,
    ensures
        digit_value(digit_char(d)) == d,
{
    assert(digits()[d] == digit_char(d));
}

/// The hexadecimal text of a byte is `0x` and two digits, and the digits
/// stand for the byte: sixteen times the first, plus the second.
pub proof fn hex_text_reads_back(byte: u8)
    ensures
        hex_text(byte).len() == 4,
        hex_text(byte)[0] == '0',
        hex_text(byte)[1] == 'x',
        16 * digit_value(hex_text(byte)[2]) + digit_value(hex_text(byte)[3]) == byte,
{
    digit_reads_back(byte as int / 16);
    digit_reads_back(byte as int % 16);
}

/// The decimal text of a number stands for that number, and begins with a
/// zero only if the number is zero.
pub proof fn decimal_text_reads_back(n: nat)
    ensures
        decimal_text(n).len() >= 1,
        decimal_value(decimal_text(n)) == n,
        n > 0 ==> decimal_text(n)[0] != '0',
    decreases n,
{
    if n < 10 {
        digit_reads_back(n as int);
        assert(decimal_text(n).drop_last() =~= Seq::<char>::empty());
        assert(decimal_value(Seq::<char>::empty()) == 0);
    } else {
        decimal_text_reads_back(n / 10);
        digit_reads_back(n as int % 10);
        assert(decimal_text(n).drop_last() =~= decimal_text(n / 10));
    }
}

/// The one-character string for the digit `d`.
fn digit_str(d: u8) -> (s: &'static str)
    requires
        d < 16,
    ensures
        s@ == seq![digit_char(d as int)],
{
    proof {
        reveal_strlit("0");
        reveal_strlit("1");
        reveal_strlit("2");
        reveal_strlit("3");
        reveal_strlit("4");
        reveal_strlit("5");
        reveal_strlit("6");
        reveal_strlit("7");
        reveal_strlit("8");
        reveal_strlit("9");
        reveal_strlit("a");
        reveal_strlit("b");
        reveal_strlit("c");
        reveal_strlit("d");
        reveal_strlit("e");
        reveal_strlit("f");
    }
    let s = match d {
        0 => "0",
        1 => "1",
        2 => "2",
        3 => "3",
        4 => "4",
        5 => "5",
        6 => "6",
        7 => "7",
        8 => "8",
        9 => "9",
        10 => "a",
        11 => "b",
        12 => "c",
        13 => "d",
        14 => "e",
        _ => "f",
    };
    assert(s@ =~= seq![digit_char(d as int)]);
    s
}

/// Appends `byte` in hexadecimal to `out`.
pub fn push_hex(out: &mut String, byte: u8)
    ensures
        final(out)@ == old(out)@ + hex_text(byte),
{
    proof {
        reveal_strlit("0x");
    }
    out.append("0x");
    out.append(digit_str(byte / 16));
    out.append(digit_str(byte % 16));
}

/// Appends `n` in decimal to `out`.
pub fn push_decimal(out: &mut String, n: u16)
    ensures
        final(out)@ == old(out)@ + decimal_text(n as nat),
    decreases n,
{
    if n >= 10 {
        push_decimal(out, n / 10);
    }
    out.append(digit_str((n % 10) as u8));
    assert(out@ =~= old(out)@ + decimal_text(n as nat));
}

/// `byte` in hexadecimal, as a string of its own.
pub fn hex(byte: u8) -> (s: String)
    ensures
        s@ == hex_text(byte),
{
    let mut s = String::new();
    push_hex(&mut s, byte);
    s
}

/// `n` in decimal, as a string of its own.
pub fn decimal(n: u16) -> (s: String)
    ensures
        s@ == decimal_text(n as nat),
{
    let mut s = String::new();
    push_decimal(&mut s, n);
    s
}

} // verus!
