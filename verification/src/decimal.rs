//! Decimal text of numbers: how block numbers, time stamps and object
//! generations are written into names, and how a generation is read back.

use vstd::prelude::*;

verus! {

/// The character of one decimal digit.
pub open spec fn digit_char(d: nat) -> char {
    (0x30 + d) as char
}

/// Whether `c` is one of the ASCII digits.
pub open spec fn is_digit(c: char) -> bool {
    '0' <= c && c <= '9'
}

/// The number that the ASCII digit `c` stands for.
pub open spec fn digit_value(c: char) -> nat {
    (c as nat - 0x30) as nat
}

/// `n` in decimal, without leading zeros.
pub open spec fn decimal_text(n: nat) -> Seq<char>
    decreases n,
{
    if n < 10 {
        seq![digit_char(n)]
    } else {
        decimal_text(n / 10).push(digit_char(n % 10))
    }
}

/// `n` in decimal, with zeros in front up to `width` characters.
pub open spec fn padded_text(n: nat, width: nat) -> Seq<char> {
    let text = decimal_text(n);
    if text.len() >= width {
        text
    } else {
        Seq::new((width - text.len()) as nat, |i: int| '0') + text
    }
}

/// The number that a run of digits stands for.
pub open spec fn text_value(s: Seq<char>) -> nat
    decreases s.len(),
{
    if s.len() == 0 {
        0
    } else {
        text_value(s.drop_last()) * 10 + digit_value(s.last())
    }
}

/// Ten to the power of `k`.
pub open spec fn power_of_ten(k: nat) -> nat
    decreases k,
{
    if k == 0 {
        1
    } else {
        10 * power_of_ten((k - 1) as nat)
    }
}

/// Whether `s` is made of digits alone.
pub open spec fn all_digits(s: Seq<char>) -> bool {
    forall|i: int| 0 <= i < s.len() ==> is_digit(#[trigger] s[i])
}

/// `n` in decimal, with a minus sign in front of a negative number.
pub open spec fn signed_text(n: int) -> Seq<char> {
    if n < 0 {
        seq!['-'] + decimal_text((-n) as nat)
    } else {
        decimal_text(n as nat)
    }
}

/// Whether `s` starts with a sign.
pub open spec fn has_sign(s: Seq<char>) -> bool {
    s.len() > 0 && (s[0] == '-' || s[0] == '+')
}

/// The part of `s` behind its sign, if it has one.
pub open spec fn unsigned_part(s: Seq<char>) -> Seq<char> {
    if has_sign(s) {
        s.skip(1)
    } else {
        s
    }
}

/// The integer that `s` writes: an optional sign, then one or more digits and
/// nothing else.
pub open spec fn parsed_integer(s: Seq<char>) -> Option<int> {
    let digits = unsigned_part(s);
    if digits.len() == 0 || !all_digits(digits) {
        None
    } else if s[0] == '-' {
        Some(-text_value(digits))
    } else {
        Some(text_value(digits) as int)
    }
}

/// The `i64` that `s` writes, if `s` writes an integer that fits.
pub open spec fn parsed_i64(s: Seq<char>) -> Option<i64> {
    match parsed_integer(s) {
        Some(n) if i64::MIN <= n <= i64::MAX => Some(n as i64),
        _ => None,
    }
}

/// Appends one digit to `out`.
fn push_digit(out: &mut String, d: u128)
    requires
        d < 10,
    ensures
        final(out)@ == old(out)@.push(digit_char(d as nat)),
{
    let text: &str = match d {
        0 => "0",
        1 => "1",
        2 => "2",
        3 => "3",
        4 => "4",
        5 => "5",
        6 => "6",
        7 => "7",
        8 => "8",
        _ => "9",
    };
    proof {
        reveal_strlit("0");
        reveal_strlit("1");
        reveal_strlit("2");
        reveal_strlit("3");
        reveal_strlit("4");
        reveal_strlit("5");
        reveal_strlit("6");
        reveal_strlit("7");
        reveal_strlit("8");
        reveal_strlit("9");
    }
    assert(text@ =~= seq![digit_char(d as nat)]);
    out.append(text);
    assert(old(out)@ + seq![digit_char(d as nat)] =~= old(out)@.push(digit_char(d as nat)));
}

/// Appends `n` in decimal to `out`.
pub fn push_decimal(out: &mut String, n: u128)
    ensures
        final(out)@ == old(out)@ + decimal_text(n as nat),
    decreases n,
{
    if n >= 10 {
        push_decimal(out, n / 10);
    }
    push_digit(out, n % 10);
}

/// How many digits `n` takes in decimal.
fn decimal_len(n: u128) -> (len: usize)
    ensures
        len == decimal_text(n as nat).len(),
        len <= 39,
{
    let mut rest: u128 = n;
    let mut len: usize = 1;
    proof {
        lemma_u128_len(n);
    }
    while rest >= 10
        invariant
            len + decimal_text(rest as nat).len() == decimal_text(n as nat).len() + 1,
            decimal_text(n as nat).len() <= 39,
        decreases rest,
    {
        proof {
            lemma_text_len((rest / 10) as nat, 0);
        }
        rest = rest / 10;
        len = len + 1;
    }
    len
}

/// Appends `n` in decimal to `out`, with zeros in front up to `width`
/// characters.
pub fn push_padded(out: &mut String, n: u128, width: usize)
    ensures
        final(out)@ == old(out)@ + padded_text(n as nat, width as nat),
{
    let len: usize = decimal_len(n);
    let mut filled: usize = len;
    while filled < width
        invariant
            len <= filled,
            filled <= width || filled == len,
            out@ == old(out)@ + Seq::new((filled - len) as nat, |i: int| '0'),
        decreases width - filled,
    {
        push_digit(out, 0);
        filled = filled + 1;
        assert(digit_char(0) == '0');
        assert(out@ =~= old(out)@ + Seq::new((filled - len) as nat, |i: int| '0'));
    }
    push_decimal(out, n);
    assert(out@ =~= old(out)@ + padded_text(n as nat, width as nat));
}

/// `n` in decimal, with a minus sign in front of a negative number.
pub fn signed_decimal(n: i64) -> (text: String)
    ensures
        text@ == signed_text(n as int),
{
    let mut text: String = String::new();
    if n < 0 {
        proof {
            reveal_strlit("-");
        }
        text.append("-");
        let magnitude: i128 = -(n as i128);
        push_decimal(&mut text, magnitude as u128);
        assert(text@ =~= signed_text(n as int));
    } else {
        push_decimal(&mut text, n as u128);
        assert(text@ =~= signed_text(n as int));
    }
    text
}

/// The characters of `s`.
pub fn chars_of(s: &str) -> (chars: Vec<char>)
    ensures
        chars@ == s@,
{
    let mut chars: Vec<char> = Vec::new();
    for c in it: s.chars()
        invariant
            it.seq() == s@,
            chars@ == s@.take(it.index()),
    {
        chars.push(c);
    }
    assert(s@.take(s@.len() as int) =~= s@);
    chars
}

/// Reads an `i64` from the whole of `s`: an optional sign, then digits. `None`
/// where `s` is anything else, or the number does not fit.
pub fn parse_i64(s: &str) -> (n: Option<i64>)
    ensures
        n == parsed_i64(s@),
{
    let chars: Vec<char> = chars_of(s);
    let negative: bool = chars.len() > 0 && chars[0] == '-';
    let signed: bool = negative || (chars.len() > 0 && chars[0] == '+');
    let start: usize = if signed { 1 } else { 0 };
    let ghost digits = unsigned_part(s@);
    assert(digits =~= s@.skip(start as int));
    if start == chars.len() {
        return None;
    }
    let mut value: i128 = 0;
    let mut i: usize = start;
    while i < chars.len()
        invariant
            chars@ == s@,
            start <= i <= chars.len(),
            start <= 1,
            digits == s@.skip(start as int),
            digits == unsigned_part(s@),
            value == text_value(digits.take(i - start)),
            0 <= value <= 0x8000_0000_0000_0000,
            forall|j: int| 0 <= j < i - start ==> is_digit(#[trigger] digits[j]),
        decreases chars.len() - i,
    {
        let c: char = chars[i];
        assert(c == digits[i - start]);
        if !('0' <= c && c <= '9') {
            return None;
        }
        let digit: u32 = c as u32 - 0x30;
        proof {
            lemma_take_value(digits, i - start);
        }
        value = value * 10 + digit as i128;
        if value > 0x8000_0000_0000_0000 {
            proof {
                lemma_prefix_value(digits, i + 1 - start);
            }
            return None;
        }
        i = i + 1;
    }
    assert(digits.take(digits.len() as int) =~= digits);
    if negative {
        Some((-value) as i64)
    } else if value <= 0x7fff_ffff_ffff_ffff {
        Some(value as i64)
    } else {
        None
    }
}

/// A decimal text is never empty, and a number below the `k`-th power of ten
/// takes at most `k` digits.
pub proof fn lemma_text_len(n: nat, k: nat)
    ensures
        decimal_text(n).len() >= 1,
        k >= 1 && n < power_of_ten(k) ==> decimal_text(n).len() <= k,
    decreases n,
{
    reveal_with_fuel(power_of_ten, 2);
    if n >= 10 && k >= 1 {
        lemma_text_len(n / 10, (k - 1) as nat);
    } else if n >= 10 {
        lemma_text_len(n / 10, 0);
    }
}

/// A `u128` takes at most 39 digits.
proof fn lemma_u128_len(n: u128)
    ensures
        1 <= decimal_text(n as nat).len() <= 39,
{
    assert(power_of_ten(39) > u128::MAX) by {
        reveal_with_fuel(power_of_ten, 40);
    }
    lemma_text_len(n as nat, 39);
}

/// One more digit behind a run of digits.
proof fn lemma_take_value(s: Seq<char>, k: int)
    requires
        0 <= k < s.len(),
    ensures
        text_value(s.take(k + 1)) == text_value(s.take(k)) * 10 + digit_value(s[k]),
{
    assert(s.take(k + 1).drop_last() =~= s.take(k));
}

/// A run of digits stands for no less than each of its prefixes.
proof fn lemma_prefix_value(s: Seq<char>, k: int)
    requires
        0 <= k <= s.len(),
    ensures
        text_value(s.take(k)) <= text_value(s),
    decreases s.len() - k,
{
    if k == s.len() {
        assert(s.take(k) =~= s);
    } else {
        lemma_take_value(s, k);
        lemma_prefix_value(s, k + 1);
    }
}

/// The decimal text of a number is a run of digits that stands for it.
pub proof fn lemma_decimal_text(n: nat)
    ensures
        decimal_text(n).len() >= 1,
        all_digits(decimal_text(n)),
        text_value(decimal_text(n)) == n,
    decreases n,
{
    reveal_with_fuel(text_value, 2);
    if n < 10 {
        assert(decimal_text(n).drop_last() =~= Seq::<char>::empty());
    } else {
        lemma_decimal_text(n / 10);
        assert(decimal_text(n).drop_last() =~= decimal_text(n / 10));
    }
}

/// Zeros in front of a run of digits do not change what it stands for.
proof fn lemma_leading_zeros(k: nat, s: Seq<char>)
    ensures
        text_value(Seq::new(k, |i: int| '0') + s) == text_value(s),
    decreases k + s.len(),
{
    let zeros = Seq::new(k, |i: int| '0');
    if s.len() > 0 {
        lemma_leading_zeros(k, s.drop_last());
        assert((zeros + s).drop_last() =~= zeros + s.drop_last());
    } else if k > 0 {
        lemma_leading_zeros((k - 1) as nat, s);
        assert((zeros + s).drop_last() =~= Seq::new((k - 1) as nat, |i: int| '0') + s);
    } else {
        assert(zeros + s =~= s);
    }
}

/// The padded text of a number is a run of digits that stands for it; it is at
/// least as long as the width, and no longer where the number fits the width.
pub proof fn lemma_padded_text(n: nat, width: nat)
    ensures
        padded_text(n, width).len() >= 1,
        padded_text(n, width).len() >= width,
        width >= 1 && n < power_of_ten(width) ==> padded_text(n, width).len() == width,
        all_digits(padded_text(n, width)),
        text_value(padded_text(n, width)) == n,
{
    lemma_decimal_text(n);
    lemma_text_len(n, width);
    let text = decimal_text(n);
    if text.len() < width {
        lemma_leading_zeros((width - text.len()) as nat, text);
    }
}

/// Reading back what was written: the text of an `i64` parses to that `i64`.
pub proof fn law_parse_undoes_signed_text(n: i64)
    ensures
        parsed_i64(signed_text(n as int)) == Some(n),
{
    let s = signed_text(n as int);
    if n < 0 {
        lemma_decimal_text((-(n as int)) as nat);
        assert(unsigned_part(s) =~= decimal_text((-(n as int)) as nat));
    } else {
        lemma_decimal_text(n as nat);
        assert(is_digit(s[0]));
    }
}

/// The last digit counts for itself, the digits before it for ten times what they
/// stand for.
pub proof fn law_digits_have_place_value(s: Seq<char>, c: char)
    requires
        '0' <= c <= '9',
    ensures
        text_value(Seq::empty()) == 0,
        text_value(s.push(c)) == text_value(s) * 10 + (c as int - '0' as int),
{
    assert(s.push(c).drop_last() =~= s);
}

/// A number of more than one digit does not start with a zero.
proof fn lemma_no_leading_zero(n: nat)
    ensures
        n >= 1 ==> decimal_text(n)[0] != '0',
    decreases n,
{
    lemma_decimal_text(n);
    if n >= 10 {
        lemma_no_leading_zero(n / 10);
        lemma_decimal_text(n / 10);
    }
}

/// The decimal text of a number is made of the digits from `0` to `9`, stands for
/// the number, and has no zero in front.
pub proof fn law_decimal_text_is_the_number(n: nat)
    ensures
        decimal_text(n).len() >= 1,
        forall|i: int|
            0 <= i < decimal_text(n).len() ==> '0' <= #[trigger] decimal_text(n)[i]
                && decimal_text(n)[i] <= '9',
        text_value(decimal_text(n)) == n,
        decimal_text(n).len() > 1 ==> decimal_text(n)[0] != '0',
{
    lemma_decimal_text(n);
    lemma_no_leading_zero(n);
    assert forall|i: int| 0 <= i < decimal_text(n).len() implies '0' <= #[trigger] decimal_text(
        n,
    )[i] && decimal_text(n)[i] <= '9' by {
        assert(is_digit(decimal_text(n)[i]));
    }
}

/// The padded text of a number is made of the digits from `0` to `9`, stands for
/// the number, and is as long as the width; it is longer only where the number
/// has more digits, and has no zero in front then.
pub proof fn law_padded_text_is_the_number(n: nat, width: nat)
    ensures
        padded_text(n, width).len() == if decimal_text(n).len() > width {
            decimal_text(n).len()
        } else {
            width
        },
        forall|i: int|
            0 <= i < padded_text(n, width).len() ==> '0' <= #[trigger] padded_text(n, width)[i]
                && padded_text(n, width)[i] <= '9',
        text_value(padded_text(n, width)) == n,
        width >= 1 && padded_text(n, width).len() > width ==> padded_text(n, width)[0] != '0',
{
    lemma_padded_text(n, width);
    law_decimal_text_is_the_number(n);
    assert forall|i: int| 0 <= i < padded_text(n, width).len() implies '0'
        <= #[trigger] padded_text(n, width)[i] && padded_text(n, width)[i] <= '9' by {
        assert(is_digit(padded_text(n, width)[i]));
    }
}

/// The text of a number is its decimal text, behind a minus sign where the number
/// is negative and behind nothing where it is not.
pub proof fn law_sign_stands_in_front(n: nat)
    ensures
        signed_text(n as int) == decimal_text(n),
        n > 0 ==> signed_text(-(n as int)).len() == decimal_text(n).len() + 1,
        n > 0 ==> signed_text(-(n as int))[0] == '-',
        n > 0 ==> signed_text(-(n as int)).skip(1) == decimal_text(n),
{
    if n > 0 {
        assert(signed_text(-(n as int)).skip(1) =~= decimal_text(n));
    }
}

/// Digits parse to the number that they stand for, if it fits: as they are, behind
/// a plus sign, and negated behind a minus sign.
pub proof fn law_signed_digits_parse(digits: Seq<char>)
    requires
        digits.len() > 0,
        forall|i: int| 0 <= i < digits.len() ==> '0' <= #[trigger] digits[i] && digits[i] <= '9',
    ensures
        ({
            let value = text_value(digits) as int;
            let fits = value <= 0x7fff_ffff_ffff_ffff;
            &&& parsed_i64(digits) == if fits {
                Some(value as i64)
            } else {
                None
            }
            &&& parsed_i64(seq!['+'] + digits) == if fits {
                Some(value as i64)
            } else {
                None
            }
            &&& parsed_i64(seq!['-'] + digits) == if value <= 0x8000_0000_0000_0000 {
                Some((-value) as i64)
            } else {
                None
            }
        }),
{
    assert(all_digits(digits));
    assert(is_digit(digits[0]));
    assert((seq!['+'] + digits).skip(1) =~= digits);
    assert((seq!['-'] + digits).skip(1) =~= digits);
}

/// Nothing else parses: not a text without a digit, and not one with a character
/// that is neither a digit nor a sign in front.
pub proof fn law_other_texts_do_not_parse(s: Seq<char>, i: int)
    requires
        s.len() == 0 || (s.len() == 1 && (s[0] == '+' || s[0] == '-')) || (0 <= i < s.len() && !(
        '0' <= s[i] && s[i] <= '9') && (i > 0 || (s[0] != '+' && s[0] != '-'))),
    ensures
        parsed_i64(s) is None,
{
    if s.len() > 1 || (s.len() == 1 && !has_sign(s)) {
        let digits = unsigned_part(s);
        let at = if has_sign(s) {
            i - 1
        } else {
            i
        };
        assert(digits[at] == s[i]);
        assert(!is_digit(digits[at]));
    }
}

/// Whether `a` comes before `b` in the order of their characters.
pub open spec fn sorts_before(a: Seq<char>, b: Seq<char>) -> bool {
    exists|k: int| #[trigger] differs_first_at(a, b, k) && a[k] < b[k]
}

/// Whether `a` and `b` agree up to position `k` and differ there.
pub open spec fn differs_first_at(a: Seq<char>, b: Seq<char>, k: int) -> bool {
    &&& 0 <= k < a.len()
    &&& k < b.len()
    &&& a.take(k) == b.take(k)
    &&& a[k] != b[k]
}

/// Runs of digits of one length sort as the numbers that they stand for.
pub proof fn lemma_digits_sort(a: Seq<char>, b: Seq<char>)
    requires
        a.len() == b.len(),
        all_digits(a),
        all_digits(b),
        text_value(a) < text_value(b),
    ensures
        sorts_before(a, b),
    decreases a.len(),
{
    let a1 = a.drop_last();
    let b1 = b.drop_last();
    let k = a.len() - 1;
    assert(is_digit(a[k]) && is_digit(b[k]));
    if text_value(a1) < text_value(b1) {
        lemma_digits_sort(a1, b1);
        let j = choose|j: int| #[trigger] differs_first_at(a1, b1, j) && a1[j] < b1[j];
        assert(a.take(j) =~= a1.take(j));
        assert(b.take(j) =~= b1.take(j));
        assert(differs_first_at(a, b, j));
    } else {
        assert(text_value(a1) == text_value(b1));
        lemma_digits_determined(a1, b1);
        assert(a.take(k) =~= a1);
        assert(b.take(k) =~= b1);
        assert(differs_first_at(a, b, k));
    }
}

/// Two runs of digits of one length that stand for one number are the same.
pub proof fn lemma_digits_determined(a: Seq<char>, b: Seq<char>)
    requires
        a.len() == b.len(),
        all_digits(a),
        all_digits(b),
        text_value(a) == text_value(b),
    ensures
        a == b,
    decreases a.len(),
{
    if a.len() > 0 {
        let k = a.len() - 1;
        assert(is_digit(a[k]) && is_digit(b[k]));
        lemma_digits_determined(a.drop_last(), b.drop_last());
        assert(a =~= a.drop_last().push(a[k]));
        assert(b =~= b.drop_last().push(b[k]));
    } else {
        assert(a =~= b);
    }
}

} // verus!
