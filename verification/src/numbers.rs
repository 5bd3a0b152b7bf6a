//! Numbers as text: decimal parsing and decimal and hexadecimal writing.

use vstd::prelude::*;

verus! {

pub open spec fn is_digit(c: char) -> bool {
    0x30 <= c as u32 <= 0x39
}

/// Value of a decimal digit character.
pub open spec fn digit_of(c: char) -> nat {
    (c as u32 - 0x30) as nat
}

pub open spec fn all_digits(s: Seq<char>) -> bool {
    forall|i: int| 0 <= i < s.len() ==> is_digit(#[trigger] s[i])
}

/// Value of a run of decimal digits, most significant first.
pub open spec fn digits_value(s: Seq<char>) -> nat
    decreases s.len(),
{
    if s.len() == 0 {
        0
    } else {
        digits_value(s.drop_last()) * 10 + digit_of(s.last())
    }
}

/// What an unsigned decimal text denotes: an optional `+`, then one or more
/// digits, the value at most `max`. Anything else denotes nothing.
pub open spec fn parse_unsigned(s: Seq<char>, max: nat) -> Option<nat> {
    let d = if s.len() > 0 && s[0] == '+' {
        s.skip(1)
    } else {
        s
    };
    if d.len() > 0 && all_digits(d) && digits_value(d) <= max {
        Some(digits_value(d))
    } else {
        None
    }
}

/// What a signed decimal text denotes: an optional `+` or `-`, then one or
/// more digits, the value within `min..=max`.
pub open spec fn parse_signed(s: Seq<char>, min: int, max: int) -> Option<int> {
    let negative = s.len() > 0 && s[0] == '-';
    let d = if s.len() > 0 && (s[0] == '+' || s[0] == '-') {
        s.skip(1)
    } else {
        s
    };
    let value = if negative {
        -(digits_value(d) as int)
    } else {
        digits_value(d) as int
    };
    if d.len() > 0 && all_digits(d) && min <= value <= max {
        Some(value)
    } else {
        None
    }
}

/// A prefix of a run of digits is worth no more than the whole run.
pub proof fn lemma_digits_prefix(s: Seq<char>, k: int)
    requires
        0 <= k <= s.len(),
    ensures
        digits_value(s.take(k)) <= digits_value(s),
    decreases s.len() - k,
{
    if k == s.len() {
        assert(s.take(k) == s);
    } else {
        lemma_digits_prefix(s.drop_last(), k);
        assert(s.drop_last().take(k) == s.take(k));
    }
}

/// The value of the digits `v[from..]`, where they are digits, at least one,
/// and worth at most `max`.
pub(crate) fn digits_to_u64(v: &[char], from: usize, max: u64) -> (r: Option<u64>)
    requires
        from <= v.len(),
    ensures
        r == ({
            let d = v@.skip(from as int);
            if d.len() > 0 && all_digits(d) && digits_value(d) <= max {
                Some(digits_value(d) as u64)
            } else {
                None
            }
        }),
{
    let ghost d = v@.skip(from as int);
    if from == v.len() {
        return None;
    }
    let mut acc: u64 = 0;
    let mut i: usize = from;
    while i < v.len()
        invariant
            from <= i <= v.len(),
            d == v@.skip(from as int),
            all_digits(d.take(i - from)),
            acc == digits_value(d.take(i - from)),
            acc <= max,
        decreases v.len() - i,
    {
        let c = v[i];
        let u: u32 = c as u32;
        assert(d[i - from] == c);
        if u < 0x30 || u > 0x39 {
            return None;
        }
        let digit: u64 = (u - 0x30) as u64;
        proof {
            let next = d.take(i - from + 1);
            assert(next.drop_last() == d.take(i - from));
            assert(next.last() == c);
            assert(digits_value(next) == acc * 10 + digit);
            assert forall|j: int| 0 <= j < next.len() implies is_digit(#[trigger] next[j]) by {
                if j < i - from {
                    assert(d.take(i - from)[j] == next[j]);
                }
            }
            lemma_digits_prefix(d, i - from + 1);
        }
        if digit > max {
            return None;
        }
        if acc > (max - digit) / 10 {
            assert(acc * 10 + digit > max) by (nonlinear_arith)
                requires
                    acc > (max - digit) / 10,
                    digit <= max,
            ;
            return None;
        }
        assert(acc * 10 + digit <= max) by (nonlinear_arith)
            requires
                acc <= (max - digit) / 10,
                digit <= max,
        ;
        acc = acc * 10 + digit;
        i += 1;
    }
    assert(d.take(d.len() as int) == d);
    Some(acc)
}

/// The number an unsigned decimal text denotes, if it is at most `max`.
pub fn parse_u64_up_to(v: &[char], max: u64) -> (r: Option<u64>)
    ensures
        r == match parse_unsigned(v@, max as nat) {
            Some(n) => Some(n as u64),
            None => None,
        },
{
    if v.len() > 0 && v[0] == '+' {
        digits_to_u64(v, 1, max)
    } else {
        assert(v@.skip(0) == v@);
        digits_to_u64(v, 0, max)
    }
}

/// The number a signed decimal text denotes, if it fits in 32 bits.
pub fn parse_i32(v: &[char]) -> (r: Option<i32>)
    ensures
        r == match parse_signed(v@, i32::MIN as int, i32::MAX as int) {
            Some(n) => Some(n as i32),
            None => None,
        },
{
    if v.len() > 0 && v[0] == '-' {
        match digits_to_u64(v, 1, 0x8000_0000) {
            Some(m) => {
                if m == 0x8000_0000 {
                    Some(i32::MIN)
                } else {
                    Some(-(m as i32))
                }
            },
            None => None,
        }
    } else if v.len() > 0 && v[0] == '+' {
        match digits_to_u64(v, 1, 0x7fff_ffff) {
            Some(m) => Some(m as i32),
            None => None,
        }
    } else {
        assert(v@.skip(0) == v@);
        match digits_to_u64(v, 0, 0x7fff_ffff) {
            Some(m) => Some(m as i32),
            None => None,
        }
    }
}

/// The character of a decimal digit.
pub open spec fn digit_char(d: nat) -> char {
    if d == 0 {
        '0'
    } else if d == 1 {
        '1'
    } else if d == 2 {
        '2'
    } else if d == 3 {
        '3'
    } else if d == 4 {
        '4'
    } else if d == 5 {
        '5'
    } else if d == 6 {
        '6'
    } else if d == 7 {
        '7'
    } else if d == 8 {
        '8'
    } else {
        '9'
    }
}

/// The character of a hexadecimal digit, lower case.
pub open spec fn hex_char(d: nat) -> char {
    if d < 10 {
        digit_char(d)
    } else if d == 10 {
        'a'
    } else if d == 11 {
        'b'
    } else if d == 12 {
        'c'
    } else if d == 13 {
        'd'
    } else if d == 14 {
        'e'
    } else {
        'f'
    }
}

/// Decimal digits of `n`, without leading zeros.
pub open spec fn decimal(n: nat) -> Seq<char>
    decreases n,
{
    if n < 10 {
        seq![digit_char(n)]
    } else {
        decimal(n / 10).push(digit_char(n % 10))
    }
}

/// Hexadecimal digits of `n`, lower case, without leading zeros.
pub open spec fn hexadecimal(n: nat) -> Seq<char>
    decreases n,
{
    if n < 16 {
        seq![hex_char(n)]
    } else {
        hexadecimal(n / 16).push(hex_char(n % 16))
    }
}

/// `s` filled up on the left with `fill` to at least `width` characters.
pub open spec fn padded(s: Seq<char>, width: nat, fill: char) -> Seq<char> {
    if s.len() >= width {
        s
    } else {
        Seq::new((width - s.len()) as nat, |i: int| fill) + s
    }
}

pub(crate) fn hex_digit(d: u8) -> (c: char)
    requires
        d < 16,
    ensures
        c == hex_char(d as nat),
{
    if d == 0 {
        '0'
    } else if d == 1 {
        '1'
    } else if d == 2 {
        '2'
    } else if d == 3 {
        '3'
    } else if d == 4 {
        '4'
    } else if d == 5 {
        '5'
    } else if d == 6 {
        '6'
    } else if d == 7 {
        '7'
    } else if d == 8 {
        '8'
    } else if d == 9 {
        '9'
    } else if d == 10 {
        'a'
    } else if d == 11 {
        'b'
    } else if d == 12 {
        'c'
    } else if d == 13 {
        'd'
    } else if d == 14 {
        'e'
    } else {
        'f'
    }
}

/// The decimal digits of `n`.
pub fn decimal_chars(n: u64) -> (out: Vec<char>)
    ensures
        out@ == decimal(n as nat),
    decreases n,
{
    if n < 10 {
        let mut out: Vec<char> = Vec::new();
        out.push(hex_digit(n as u8));
        assert(out@ =~= seq![digit_char(n as nat)]);
        out
    } else {
        let mut out = decimal_chars(n / 10);
        out.push(hex_digit((n % 10) as u8));
        out
    }
}

/// The hexadecimal digits of `n`, lower case.
pub fn hexadecimal_chars(n: u64) -> (out: Vec<char>)
    ensures
        out@ == hexadecimal(n as nat),
    decreases n,
{
    if n < 16 {
        let mut out: Vec<char> = Vec::new();
        out.push(hex_digit(n as u8));
        assert(out@ =~= seq![hex_char(n as nat)]);
        out
    } else {
        let mut out = hexadecimal_chars(n / 16);
        out.push(hex_digit((n % 16) as u8));
        out
    }
}

/// Appends `digits` to `out`, after as many `fill` as bring it to `width`.
pub fn append_padded(out: &mut Vec<char>, digits: &[char], width: usize, fill: char)
    ensures
        final(out)@ == old(out)@ + padded(digits@, width as nat, fill),
{
    let ghost start = out@;
    if digits.len() < width {
        let n: usize = width - digits.len();
        let mut i: usize = 0;
        while i < n
            invariant
                i <= n,
                out@ == start + Seq::new(i as nat, |k: int| fill),
            decreases n - i,
        {
            out.push(fill);
            assert(Seq::new(i as nat, |k: int| fill).push(fill) =~= Seq::new(
                (i + 1) as nat,
                |k: int| fill,
            ));
            i += 1;
        }
        crate::text::append_chars(out, digits);
        assert(out@ =~= start + (Seq::new(n as nat, |k: int| fill) + digits@));
    } else {
        crate::text::append_chars(out, digits);
    }
}

/// Appends `n` in decimal, zero-filled to `width` digits.
pub fn append_decimal(out: &mut Vec<char>, n: u64, width: usize)
    ensures
        final(out)@ == old(out)@ + padded(decimal(n as nat), width as nat, '0'),
{
    let d = decimal_chars(n);
    append_padded(out, d.as_slice(), width, '0');
}

/// Appends `n` in lower-case hexadecimal, zero-filled to `width` digits.
pub fn append_hexadecimal(out: &mut Vec<char>, n: u64, width: usize)
    ensures
        final(out)@ == old(out)@ + padded(hexadecimal(n as nat), width as nat, '0'),
{
    let d = hexadecimal_chars(n);
    append_padded(out, d.as_slice(), width, '0');
}

/// A digit character is a digit, and is worth the digit it was made from.
pub proof fn lemma_digit_char(d: nat)
    requires
        d < 10,
    ensures
        is_digit(digit_char(d)),
        digit_of(digit_char(d)) == d,
{
}

/// Adding a digit at the end multiplies the value by ten and adds the
/// digit.
pub proof fn lemma_digits_push(s: Seq<char>, c: char)
    ensures
        digits_value(s.push(c)) == digits_value(s) * 10 + digit_of(c),
{
    assert(s.push(c).drop_last() =~= s);
}

/// The decimal digits of a number are digits, at least one, and worth the
/// number.
pub proof fn lemma_decimal(n: nat)
    ensures
        decimal(n).len() >= 1,
        all_digits(decimal(n)),
        digits_value(decimal(n)) == n,
    decreases n,
{
    if n < 10 {
        lemma_digit_char(n);
        lemma_digits_push(Seq::empty(), digit_char(n));
        assert(Seq::<char>::empty().push(digit_char(n)) =~= decimal(n));
    } else {
        lemma_decimal(n / 10);
        lemma_digit_char(n % 10);
        lemma_digits_push(decimal(n / 10), digit_char(n % 10));
    }
}

/// Zeros in front of digits change neither that they are digits nor what
/// they are worth.
pub proof fn lemma_zero_padded(s: Seq<char>, width: nat)
    requires
        all_digits(s),
    ensures
        all_digits(padded(s, width, '0')),
        digits_value(padded(s, width, '0')) == digits_value(s),
        padded(s, width, '0').len() >= s.len(),
    decreases s.len(),
{
    let p = padded(s, width, '0');
    if s.len() < width {
        let zeros = Seq::new((width - s.len()) as nat, |i: int| '0');
        assert forall|i: int| 0 <= i < p.len() implies is_digit(#[trigger] p[i]) by {
            if i >= zeros.len() {
                assert(p[i] == s[i - zeros.len()]);
            }
        }
        lemma_zeros_then_digits(zeros, s);
    }
}

proof fn lemma_zeros_worth_nothing(zeros: Seq<char>)
    requires
        forall|i: int| 0 <= i < zeros.len() ==> zeros[i] == '0',
    ensures
        digits_value(zeros) == 0,
    decreases zeros.len(),
{
    if zeros.len() > 0 {
        lemma_zeros_worth_nothing(zeros.drop_last());
    }
}

proof fn lemma_zeros_then_digits(zeros: Seq<char>, s: Seq<char>)
    requires
        forall|i: int| 0 <= i < zeros.len() ==> zeros[i] == '0',
    ensures
        digits_value(zeros + s) == digits_value(s),
    decreases s.len(),
{
    if s.len() == 0 {
        assert(zeros + s =~= zeros);
        lemma_zeros_worth_nothing(zeros);
    } else {
        assert((zeros + s).drop_last() =~= zeros + s.drop_last());
        lemma_zeros_then_digits(zeros, s.drop_last());
    }
}

/// A number written in decimal and filled up with zeros reads back as the
/// number.
pub proof fn lemma_parse_of_written(n: nat, width: nat, max: nat)
    requires
        n <= max,
    ensures
        parse_unsigned(padded(decimal(n), width, '0'), max) == Some(n),
{
    lemma_decimal(n);
    lemma_zero_padded(decimal(n), width);
    let p = padded(decimal(n), width, '0');
    assert(is_digit(p[0]));
}

} // verus!
