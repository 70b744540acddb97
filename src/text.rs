//! Text renderings of numbers and byte strings used in generated scripts.
use vstd::prelude::*;

verus! {

/// The character of a decimal digit.
pub open spec fn digit_char(d: u8) -> char {
    match d {
        0u8 => '0',
        1u8 => '1',
        2u8 => '2',
        3u8 => '3',
        4u8 => '4',
        5u8 => '5',
        6u8 => '6',
        7u8 => '7',
        8u8 => '8',
        _ => '9',
    }
}

/// The character of a lower-case hexadecimal digit.
pub open spec fn hex_char(d: u8) -> char {
    if d < 10 {
        digit_char(d)
    } else {
        match d {
            10u8 => 'a',
            11u8 => 'b',
            12u8 => 'c',
            13u8 => 'd',
            14u8 => 'e',
            _ => 'f',
        }
    }
}

/// A byte in decimal, without leading zeros.
pub open spec fn decimal_text(b: u8) -> Seq<char> {
    if b >= 100 {
        seq![digit_char(b / 100), digit_char((b / 10) % 10), digit_char(b % 10)]
    } else if b >= 10 {
        seq![digit_char(b / 10), digit_char(b % 10)]
    } else {
        seq![digit_char(b)]
    }
}

/// A natural number in decimal, without leading zeros.
pub open spec fn nat_text(n: nat) -> Seq<char>
    decreases n,
{
    if n < 10 {
        seq![digit_char(n as u8)]
    } else {
        nat_text(n / 10).push(digit_char((n % 10) as u8))
    }
}

/// Bytes as lower-case hexadecimal, two digits each.
pub open spec fn hex_text(b: Seq<u8>) -> Seq<char>
    decreases b.len(),
{
    if b.len() == 0 {
        Seq::empty()
    } else {
        hex_text(b.drop_last()) + seq![hex_char(b.last() / 16), hex_char(b.last() % 16)]
    }
}

/// A one-character string holding the digit `d`.
pub fn digit_str(d: u8) -> (r: &'static str)
    requires
        d < 10,
    ensures
        r@ == seq![digit_char(d)],
{
    proof {
        reveal_strlit("0");
        reveal_strlit("1");
        reveal_strlit("2");
        reveal_strlit("3");
        reveal_strlit("4");
        reveal_strlit("5");
        reveal_strlit("6");
        reveal_strlit("7");
        reveal_strlit("8");
        reveal_strlit("9");
    }
    let r = match d {
        0u8 => "0",
        1u8 => "1",
        2u8 => "2",
        3u8 => "3",
        4u8 => "4",
        5u8 => "5",
        6u8 => "6",
        7u8 => "7",
        8u8 => "8",
        _ => "9",
    };
    assert(r@ =~= seq![digit_char(d)]);
    r
}

/// A one-character string holding the hexadecimal digit `d`.
pub fn hex_digit_str(d: u8) -> (r: &'static str)
    requires
        d < 16,
    ensures
        r@ == seq![hex_char(d)],
{
    if d < 10 {
        return digit_str(d);
    }
    proof {
        reveal_strlit("a");
        reveal_strlit("b");
        reveal_strlit("c");
        reveal_strlit("d");
        reveal_strlit("e");
        reveal_strlit("f");
    }
    let r = match d {
        10u8 => "a",
        11u8 => "b",
        12u8 => "c",
        13u8 => "d",
        14u8 => "e",
        _ => "f",
    };
    assert(r@ =~= seq![hex_char(d)]);
    r
}

/// Appends a byte in decimal.
pub fn push_decimal(s: &mut String, b: u8)
    ensures
        final(s)@ == old(s)@ + decimal_text(b),
{
    if b >= 100 {
        s.append(digit_str(b / 100));
        s.append(digit_str((b / 10) % 10));
        s.append(digit_str(b % 10));
    } else if b >= 10 {
        s.append(digit_str(b / 10));
        s.append(digit_str(b % 10));
    } else {
        s.append(digit_str(b));
    }
    assert(final(s)@ =~= old(s)@ + decimal_text(b));
}

/// Appends a natural number in decimal.
pub fn push_nat(s: &mut String, n: usize)
    ensures
        final(s)@ == old(s)@ + nat_text(n as nat),
    decreases n,
{
    if n < 10 {
        s.append(digit_str(n as u8));
    } else {
        push_nat(s, n / 10);
        s.append(digit_str((n % 10) as u8));
    }
    assert(final(s)@ =~= old(s)@ + nat_text(n as nat));
}

/// Bytes as lower-case hexadecimal.
pub fn to_hex(b: &Vec<u8>) -> (r: String)
    ensures
        r@ == hex_text(b@),
{
    let mut s = String::new();
    let mut i: usize = 0;
    while i < b.len()
        invariant
            i <= b@.len(),
            s@ == hex_text(b@.subrange(0, i as int)),
        decreases b@.len() - i,
    {
        s.append(hex_digit_str(b[i] / 16));
        s.append(hex_digit_str(b[i] % 16));
        assert(b@.subrange(0, i + 1).drop_last() =~= b@.subrange(0, i as int));
        assert(s@ =~= hex_text(b@.subrange(0, i + 1)));
        i = i + 1;
    }
    assert(b@.subrange(0, b@.len() as int) =~= b@);
    s
}

} // verus!
