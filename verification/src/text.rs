//! Rendering of integers and lists as text.

use vstd::prelude::*;
use vstd::string::StringExecFns;

verus! {

/// The character of one digit below sixteen, lower case.
pub open spec fn digit_char(d: int) -> char {
    if d == 0 {
        '0'
    } else if d == 1 {
        '1'
    } else if d == 2 {
        '2'
    } else if d == 3 {
        '3'
    } else if d == 4 {
        '4'
    } else if d == 5 {
        '5'
    } else if d == 6 {
        '6'
    } else if d == 7 {
        '7'
    } else if d == 8 {
        '8'
    } else if d == 9 {
        '9'
    } else if d == 10 {
        'a'
    } else if d == 11 {
        'b'
    } else if d == 12 {
        'c'
    } else if d == 13 {
        'd'
    } else if d == 14 {
        'e'
    } else {
        'f'
    }
}

/// The decimal numeral of a natural number: most significant digit first,
/// without leading zeros; zero is the single digit `0`.
pub open spec fn decimal(n: nat) -> Seq<char>
    decreases n,
{
    if n < 10 {
        seq![digit_char(n as int)]
    } else {
        decimal(n / 10).push(digit_char((n % 10) as int))
    }
}

/// The lower-case hexadecimal numeral of a natural number, without prefix and
/// without leading zeros; zero is the single digit `0`.
pub open spec fn hexadecimal(n: nat) -> Seq<char>
    decreases n,
{
    if n < 16 {
        seq![digit_char(n as int)]
    } else {
        hexadecimal(n / 16).push(digit_char((n % 16) as int))
    }
}

/// The decimal numeral of an integer, with a leading minus sign below zero.
pub open spec fn signed_decimal(v: int) -> Seq<char> {
    if v < 0 {
        seq!['-'] + decimal((-v) as nat)
    } else {
        decimal(v as nat)
    }
}

/// The text of one digit.
fn digit_text(d: u64) -> (text: &'static str)
    requires
        d < 16,
    ensures
        text@ == seq![digit_char(d as int)],
{
    proof {
        reveal_strlit("0");
        reveal_strlit("1");
        reveal_strlit("2");
        reveal_strlit("3");
        reveal_strlit("4");
        reveal_strlit("5");
        reveal_strlit("6");
        reveal_strlit("7");
        reveal_strlit("8");
        reveal_strlit("9");
        reveal_strlit("a");
        reveal_strlit("b");
        reveal_strlit("c");
        reveal_strlit("d");
        reveal_strlit("e");
        reveal_strlit("f");
    }
    let text: &'static str = if d == 0 {
        "0"
    } else if d == 1 {
        "1"
    } else if d == 2 {
        "2"
    } else if d == 3 {
        "3"
    } else if d == 4 {
        "4"
    } else if d == 5 {
        "5"
    } else if d == 6 {
        "6"
    } else if d == 7 {
        "7"
    } else if d == 8 {
        "8"
    } else if d == 9 {
        "9"
    } else if d == 10 {
        "a"
    } else if d == 11 {
        "b"
    } else if d == 12 {
        "c"
    } else if d == 13 {
        "d"
    } else if d == 14 {
        "e"
    } else {
        "f"
    };
    assert(text@ =~= seq![digit_char(d as int)]);
    text
}

/// Appends the decimal numeral of `n` to `out`.
fn append_decimal(out: &mut String, n: u64)
    ensures
        final(out)@ == old(out)@ + decimal(n as nat),
    decreases n,
{
    if n >= 10 {
        append_decimal(out, n / 10);
    }
    out.append(digit_text(n % 10));
    assert(final(out)@ =~= old(out)@ + decimal(n as nat));
}

/// Appends the hexadecimal numeral of `n` to `out`.
fn append_hexadecimal(out: &mut String, n: u64)
    ensures
        final(out)@ == old(out)@ + hexadecimal(n as nat),
    decreases n,
{
    if n >= 16 {
        append_hexadecimal(out, n / 16);
    }
    out.append(digit_text(n % 16));
    assert(final(out)@ =~= old(out)@ + hexadecimal(n as nat));
}

/// Renders an unsigned integer in decimal.
pub fn decimal_text(n: u64) -> (text: String)
    ensures
        text@ == decimal(n as nat),
{
    let mut text: String = String::new();
    append_decimal(&mut text, n);
    assert(text@ =~= decimal(n as nat));
    text
}

/// Renders an unsigned integer in lower-case hexadecimal, without prefix.
pub fn hexadecimal_text(n: u64) -> (text: String)
    ensures
        text@ == hexadecimal(n as nat),
{
    let mut text: String = String::new();
    append_hexadecimal(&mut text, n);
    assert(text@ =~= hexadecimal(n as nat));
    text
}

/// The signed integer that a 64-bit register holds in two's complement.
pub open spec fn signed_value(raw: u64) -> int {
    if raw < 0x8000_0000_0000_0000 {
        raw as int
    } else {
        raw - 0x1_0000_0000_0000_0000
    }
}

/// The 64-bit register content that holds the signed integer `v` in two's
/// complement.
pub open spec fn register_of(v: int) -> u64
    recommends
        -0x8000_0000_0000_0000 <= v < 0x8000_0000_0000_0000,
{
    if v < 0 {
        (v + 0x1_0000_0000_0000_0000) as u64
    } else {
        v as u64
    }
}

/// Renders the content of a 64-bit register as a signed decimal integer.
pub fn signed_decimal_text(raw: u64) -> (text: String)
    ensures
        text@ == signed_decimal(signed_value(raw)),
{
    if raw < 0x8000_0000_0000_0000 {
        decimal_text(raw)
    } else {
        let magnitude: u64 = (u64::MAX - raw) + 1;
        let mut text: String = String::from_str("-");
        proof {
            reveal_strlit("-");
        }
        append_decimal(&mut text, magnitude);
        assert(text@ =~= signed_decimal(signed_value(raw)));
        text
    }
}

/// Renders a 32-bit signed integer in decimal.
pub fn int_text(v: i32) -> (text: String)
    ensures
        text@ == signed_decimal(v as int),
{
    if v >= 0 {
        decimal_text(v as u64)
    } else {
        let magnitude: u64 = (-(v as i64)) as u64;
        let mut text: String = String::from_str("-");
        proof {
            reveal_strlit("-");
        }
        append_decimal(&mut text, magnitude);
        assert(text@ =~= signed_decimal(v as int));
        text
    }
}

/// The parts in order, with the separator between each two neighbours.
pub open spec fn joined(parts: Seq<Seq<char>>, separator: Seq<char>) -> Seq<char>
    decreases parts.len(),
{
    if parts.len() == 0 {
        Seq::empty()
    } else if parts.len() == 1 {
        parts[0]
    } else {
        joined(parts.drop_last(), separator) + separator + parts.last()
    }
}

/// The views of a list of strings.
pub open spec fn views(parts: Seq<String>) -> Seq<Seq<char>> {
    parts.map_values(|part: String| part@)
}

/// Joins the parts with the separator between each two neighbours.
pub fn join(parts: &Vec<String>, separator: &str) -> (text: String)
    ensures
        text@ == joined(views(parts@), separator@),
{
    let mut text: String = String::new();
    let mut i: usize = 0;
    assert(views(parts@).take(0) =~= Seq::<Seq<char>>::empty());
    while i < parts.len()
        invariant
            i <= parts.len(),
            text@ == joined(views(parts@).take(i as int), separator@),
        decreases parts.len() - i,
    {
        let ghost before = views(parts@).take(i as int);
        let ghost after = views(parts@).take(i + 1);
        assert(after.drop_last() =~= before);
        assert(after.last() == parts@[i as int]@);
        if i > 0 {
            text.append(separator);
        }
        text.append(parts[i].as_str());
        assert(text@ =~= joined(after, separator@));
        i = i + 1;
    }
    assert(views(parts@).take(parts.len() as int) =~= views(parts@));
    text
}

/// The digit that a character stands for; -1 for a character that is no
/// lower-case digit below sixteen.
pub open spec fn digit_value(c: char) -> int {
    if c == '0' {
        0
    } else if c == '1' {
        1
    } else if c == '2' {
        2
    } else if c == '3' {
        3
    } else if c == '4' {
        4
    } else if c == '5' {
        5
    } else if c == '6' {
        6
    } else if c == '7' {
        7
    } else if c == '8' {
        8
    } else if c == '9' {
        9
    } else if c == 'a' {
        10
    } else if c == 'b' {
        11
    } else if c == 'c' {
        12
    } else if c == 'd' {
        13
    } else if c == 'e' {
        14
    } else if c == 'f' {
        15
    } else {
        -1
    }
}

/// The number that a numeral stands for in the given base.
pub open spec fn numeral_value(numeral: Seq<char>, base: int) -> int
    decreases numeral.len(),
{
    if numeral.len() == 0 {
        0
    } else {
        numeral_value(numeral.drop_last(), base) * base + digit_value(numeral.last())
    }
}

/// A digit reads back as itself.
pub proof fn lemma_digit_round_trip(d: int)
    requires
        0 <= d < 16,
    ensures
        digit_value(digit_char(d)) == d,
{
}

/// A hexadecimal numeral is canonical: it is not empty, it is made of the
/// digits `0` to `9` and `a` to `f` alone, it starts with `0` only where the
/// number is zero, and it reads back as the number.
pub proof fn lemma_hexadecimal_canonical(n: nat)
    ensures
        hexadecimal(n).len() >= 1,
        forall|i: int|
            0 <= i < hexadecimal(n).len() ==> 0 <= digit_value(#[trigger] hexadecimal(n)[i]) < 16,
        n > 0 ==> hexadecimal(n)[0] != '0',
        numeral_value(hexadecimal(n), 16) == n,
    decreases n,
{
    let numeral = hexadecimal(n);
    if n < 16 {
        lemma_digit_round_trip(n as int);
        assert(numeral.drop_last() =~= Seq::<char>::empty());
        assert(numeral_value(numeral.drop_last(), 16) == 0);
        assert(numeral.last() == digit_char(n as int));
    } else {
        lemma_hexadecimal_canonical(n / 16);
        lemma_digit_round_trip((n % 16) as int);
        assert(numeral.drop_last() =~= hexadecimal(n / 16));
        assert(numeral.last() == digit_char((n % 16) as int));
        assert(numeral[0] == hexadecimal(n / 16)[0]);
    }
    assert(numeral_value(numeral, 16) == numeral_value(numeral.drop_last(), 16) * 16
        + digit_value(numeral.last()));
}

/// A decimal numeral is canonical: it is not empty, it is made of the digits
/// `0` to `9` alone, it starts with `0` only where the number is zero, and it
/// reads back as the number.
pub proof fn lemma_decimal_canonical(n: nat)
    ensures
        decimal(n).len() >= 1,
        forall|i: int|
            0 <= i < decimal(n).len() ==> 0 <= digit_value(#[trigger] decimal(n)[i]) < 10,
        n > 0 ==> decimal(n)[0] != '0',
        numeral_value(decimal(n), 10) == n,
    decreases n,
{
    let numeral = decimal(n);
    if n < 10 {
        lemma_digit_round_trip(n as int);
        assert(numeral.drop_last() =~= Seq::<char>::empty());
        assert(numeral_value(numeral.drop_last(), 10) == 0);
        assert(numeral.last() == digit_char(n as int));
    } else {
        lemma_decimal_canonical(n / 10);
        lemma_digit_round_trip((n % 10) as int);
        assert(numeral.drop_last() =~= decimal(n / 10));
        assert(numeral.last() == digit_char((n % 10) as int));
        assert(numeral[0] == decimal(n / 10)[0]);
    }
    assert(numeral_value(numeral, 10) == numeral_value(numeral.drop_last(), 10) * 10
        + digit_value(numeral.last()));
}

/// Two's complement loses nothing: the register that holds a signed 64-bit
/// integer reads back as that integer.
pub proof fn lemma_signed_value_round_trip(v: int)
    requires
        -0x8000_0000_0000_0000 <= v < 0x8000_0000_0000_0000,
    ensures
        signed_value(register_of(v)) == v,
{
}

} // verus!
