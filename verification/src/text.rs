//! Decimal numerals as sequences of characters: what a numeral denotes, how a
//! number is written, and the executable reader and writer for both.

use vstd::prelude::*;

verus! {

/// Whether `c` is one of the ten decimal digits.
pub open spec fn is_digit(c: char) -> bool {
    '0' <= c && c <= '9'
}

/// The value of the decimal digit `c`.
pub open spec fn digit_value(c: char) -> nat
    recommends
        is_digit(c),
{
    (c as u32 - '0' as u32) as nat
}

/// The decimal digit whose value is `d`.
pub open spec fn digit_char(d: nat) -> char
    recommends
        d < 10,
{
    (d + '0' as u32) as char
}

/// Whether every character of `s` is a decimal digit.
pub open spec fn all_digits(s: Seq<char>) -> bool {
    forall|i: int| 0 <= i < s.len() ==> is_digit(#[trigger] s[i])
}

/// The number that the digits of `s` denote, most significant digit first.
/// The empty sequence denotes zero.
pub open spec fn digits_value(s: Seq<char>) -> nat
    decreases s.len(),
{
    if s.len() == 0 {
        0
    } else {
        digits_value(s.drop_last()) * 10 + digit_value(s.last())
    }
}

/// A numeral without the plus sign that may lead it.
pub open spec fn numeral_digits(s: Seq<char>) -> Seq<char> {
    if s.len() > 0 && s[0] == '+' {
        s.drop_first()
    } else {
        s
    }
}

/// The number that the numeral `s` denotes, if it is a numeral and denotes at
/// most `max`: an optional plus sign followed by one or more decimal digits
/// and nothing else. Leading zeros are accepted.
pub open spec fn numeral_value(s: Seq<char>, max: nat) -> Option<nat> {
    let digits = numeral_digits(s);
    if digits.len() > 0 && all_digits(digits) && digits_value(digits) <= max {
        Some(digits_value(digits))
    } else {
        None
    }
}

/// The byte that the numeral `s` denotes, if it denotes one.
pub open spec fn numeral_u8(s: Seq<char>) -> Option<u8> {
    match numeral_value(s, 255) {
        Some(n) => Some(n as u8),
        None => None,
    }
}

/// The shortest decimal writing of `n`.
pub open spec fn decimal(n: nat) -> Seq<char>
    decreases n,
{
    if n < 10 {
        seq![digit_char(n)]
    } else {
        decimal(n / 10).push(digit_char(n % 10))
    }
}

/// The decimal writing of `n`, filled with zeros on the left up to `width`
/// characters. A number that needs more than `width` digits keeps them all.
pub open spec fn padded_decimal(n: nat, width: nat) -> Seq<char> {
    let digits = decimal(n);
    if digits.len() >= width {
        digits
    } else {
        Seq::new((width - digits.len()) as nat, |i: int| '0') + digits
    }
}

/// A prefix of a run of digits denotes no more than the whole run.
pub proof fn lemma_prefix_value_le(s: Seq<char>, k: int)
    requires
        0 <= k <= s.len(),
    ensures
        digits_value(s.subrange(0, k)) <= digits_value(s),
    decreases s.len() - k,
{
    if k == s.len() {
        assert(s.subrange(0, k) =~= s);
    } else {
        let longer = s.subrange(0, k + 1);
        assert(longer.drop_last() =~= s.subrange(0, k));
        lemma_prefix_value_le(s, k + 1);
    }
}

/// The decimal writing of a number is a run of digits that denotes it.
pub proof fn lemma_decimal_denotes(n: nat)
    ensures
        decimal(n).len() >= 1,
        all_digits(decimal(n)),
        digits_value(decimal(n)) == n,
    decreases n,
{
    if n < 10 {
        let s = decimal(n);
        assert(digits_value(s.drop_last()) == 0);
    } else {
        lemma_decimal_denotes(n / 10);
        let s = decimal(n);
        assert(s.drop_last() =~= decimal(n / 10));
    }
}

/// Zeros in front of a run of digits change neither that it is a run of
/// digits nor what it denotes.
pub proof fn lemma_leading_zeros(zeros: nat, s: Seq<char>)
    requires
        all_digits(s),
    ensures
        all_digits(Seq::new(zeros, |i: int| '0') + s),
        digits_value(Seq::new(zeros, |i: int| '0') + s) == digits_value(s),
    decreases s.len(),
{
    let front = Seq::new(zeros, |i: int| '0');
    let whole = front + s;
    if s.len() == 0 {
        lemma_zeros_denote_zero(zeros);
    } else {
        assert(whole.drop_last() =~= front + s.drop_last());
        lemma_leading_zeros(zeros, s.drop_last());
    }
}

/// A run of zeros denotes zero.
pub proof fn lemma_zeros_denote_zero(zeros: nat)
    ensures
        digits_value(Seq::new(zeros, |i: int| '0')) == 0,
    decreases zeros,
{
    let run = Seq::new(zeros, |i: int| '0');
    if zeros > 0 {
        assert(run.drop_last() =~= Seq::new((zeros - 1) as nat, |i: int| '0'));
        lemma_zeros_denote_zero((zeros - 1) as nat);
    }
}

/// A number written in decimal, zero-filled or not, reads back as itself.
pub proof fn lemma_written_number_reads_back(n: nat, width: nat, max: nat)
    requires
        n <= max,
    ensures
        numeral_value(decimal(n), max) == Some(n),
        numeral_value(padded_decimal(n, width), max) == Some(n),
        all_digits(padded_decimal(n, width)),
        digits_value(padded_decimal(n, width)) == n,
        padded_decimal(n, width).len() == if decimal(n).len() >= width {
            decimal(n).len()
        } else {
            width
        },
{
    lemma_decimal_denotes(n);
    let plain = decimal(n);
    if plain.len() < width {
        lemma_leading_zeros((width - plain.len()) as nat, plain);
    }
}

/// A number below ten thousand is written in no more digits than its size
/// asks for.
pub proof fn lemma_decimal_len(n: nat)
    requires
        n < 10000,
    ensures
        n < 10 ==> decimal(n).len() == 1,
        10 <= n < 100 ==> decimal(n).len() == 2,
        100 <= n < 1000 ==> decimal(n).len() == 3,
        1000 <= n ==> decimal(n).len() == 4,
{
    reveal_with_fuel(decimal, 4);
}

/// The characters of `s`, in order.
pub fn chars_of(s: &str) -> (chars: Vec<char>)
    ensures
        chars@ == s@,
{
    let n = s.unicode_len();
    let mut chars: Vec<char> = Vec::new();
    let mut i: usize = 0;
    while i < n
        invariant
            n == s@.len(),
            i <= n,
            chars@ == s@.subrange(0, i as int),
        decreases n - i,
    {
        let c = s.get_char(i);
        chars.push(c);
        i = i + 1;
    }
    chars
}

/// Whether `a` and `b` hold the same characters.
pub fn same_text(a: &str, b: &str) -> (same: bool)
    ensures
        same == (a@ == b@),
{
    let left = String::from_str(a);
    let right = String::from_str(b);
    left == right
}

/// Reads the numeral that `chars` holds between `from` and `to` as a byte.
pub(crate) fn parse_u8(chars: &Vec<char>, from: usize, to: usize) -> (value: Option<u8>)
    requires
        from <= to <= chars.len(),
    ensures
        value == numeral_u8(chars@.subrange(from as int, to as int)),
{
    let ghost whole = chars@.subrange(from as int, to as int);
    let mut start: usize = from;
    if from < to && chars[from] == '+' {
        start = from + 1;
    }
    let ghost digits = chars@.subrange(start as int, to as int);
    if start == to {
        return None;
    }
    let mut acc: u16 = 0;
    let mut i: usize = start;
    while i < to
        invariant
            from <= start <= i <= to <= chars.len(),
            whole == chars@.subrange(from as int, to as int),
            digits == chars@.subrange(start as int, to as int),
            digits == numeral_digits(whole),
            all_digits(digits.subrange(0, i - start)),
            acc == digits_value(digits.subrange(0, i - start)),
            acc <= 255,
        decreases to - i,
    {
        let c = chars[i];
        assert(c == digits[i - start]);
        if c < '0' || c > '9' {
            return None;
        }
        let d: u16 = (c as u32 - '0' as u32) as u16;
        let next: u16 = acc * 10 + d;
        proof {
            let longer = digits.subrange(0, i - start + 1);
            assert(longer.drop_last() =~= digits.subrange(0, i - start));
            if next > 255 {
                lemma_prefix_value_le(digits, i - start + 1);
            }
        }
        if next > 255 {
            return None;
        }
        acc = next;
        i = i + 1;
    }
    assert(digits.subrange(0, to - start) =~= digits);
    Some(acc as u8)
}

/// The one-character text of the decimal digit whose value is `d`.
fn digit_text(d: u8) -> (text: &'static str)
    requires
        d < 10,
    ensures
        text@ == seq![digit_char(d as nat)],
{
    proof {
        reveal_strlit("0");
        reveal_strlit("1");
        reveal_strlit("2");
        reveal_strlit("3");
        reveal_strlit("4");
        reveal_strlit("5");
        reveal_strlit("6");
        reveal_strlit("7");
        reveal_strlit("8");
        reveal_strlit("9");
    }
    match d {
        0 => "0",
        1 => "1",
        2 => "2",
        3 => "3",
        4 => "4",
        5 => "5",
        6 => "6",
        7 => "7",
        8 => "8",
        _ => "9",
    }
}

/// The number of digits in the shortest decimal writing of `n`.
pub fn decimal_width(n: u128) -> (width: usize)
    ensures
        width == decimal(n as nat).len(),
        1 <= width <= 39,
{
    let mut width: usize = 1;
    let mut rest: u128 = n;
    let mut bound: u128 = u128::MAX;
    proof {
        lemma_bound_digits_step(bound);
    }
    while rest >= 10
        invariant
            decimal(n as nat).len() == decimal(rest as nat).len() + width - 1,
            1 <= width,
            rest <= bound,
            width + decimal_bound_digits(bound) <= 40,
        decreases rest,
    {
        proof {
            lemma_bound_digits_step(bound);
        }
        rest = rest / 10;
        bound = bound / 10;
        width = width + 1;
    }
    width
}

/// An upper bound on how many digits a number up to `bound` is written with.
spec fn decimal_bound_digits(bound: u128) -> nat
    decreases bound,
{
    if bound < 10 {
        1
    } else {
        1 + decimal_bound_digits(bound / 10)
    }
}

/// The bound loses a digit with each division by ten, and the greatest
/// number of 128 bits has 39 digits.
proof fn lemma_bound_digits_step(bound: u128)
    ensures
        bound >= 10 ==> decimal_bound_digits(bound) == 1 + decimal_bound_digits(bound / 10),
        decimal_bound_digits(u128::MAX) == 39,
{
    reveal_with_fuel(decimal_bound_digits, 40);
}

/// Appends the shortest decimal writing of `n` to `out`.
pub fn push_decimal(out: &mut String, n: u128)
    ensures
        final(out)@ == old(out)@ + decimal(n as nat),
    decreases n,
{
    if n >= 10 {
        push_decimal(out, n / 10);
    }
    out.append(digit_text((n % 10) as u8));
}

/// Appends the decimal writing of `n` to `out`, filled with zeros on the left
/// up to `width` characters.
pub fn push_padded_decimal(out: &mut String, n: u128, width: usize)
    ensures
        final(out)@ == old(out)@ + padded_decimal(n as nat, width as nat),
{
    let digits = decimal_width(n);
    let ghost before = out@;
    let mut filled: usize = digits;
    while filled < width
        invariant
            digits == decimal(n as nat).len(),
            digits <= filled,
            digits < width ==> filled <= width,
            digits >= width ==> filled == digits,
            out@ == before + Seq::new((filled - digits) as nat, |i: int| '0'),
        decreases width - filled,
    {
        proof {
            reveal_strlit("0");
        }
        out.append("0");
        filled = filled + 1;
    }
    push_decimal(out, n);
}

/// The decimal writing of the integer `v`, with a minus sign if it is
/// negative.
pub open spec fn signed_decimal(v: int) -> Seq<char> {
    if v < 0 {
        seq!['-'] + decimal((-v) as nat)
    } else {
        decimal(v as nat)
    }
}

/// Appends the decimal writing of `v` to `out`, with a minus sign if it is
/// negative.
pub fn push_signed_decimal(out: &mut String, v: i128)
    ensures
        final(out)@ == old(out)@ + signed_decimal(v as int),
{
    if v < 0 {
        proof {
            reveal_strlit("-");
        }
        out.append("-");
        let magnitude: u128 = (-(v + 1)) as u128 + 1;
        push_decimal(out, magnitude);
    } else {
        push_decimal(out, v as u128);
    }
}

/// The shortest decimal writing of `n`, as a string.
pub fn decimal_string(n: u128) -> (text: String)
    ensures
        text@ == decimal(n as nat),
{
    let mut text = String::new();
    push_decimal(&mut text, n);
    text
}

} // verus!
