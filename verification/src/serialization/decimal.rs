//! Numbers as decimal text: identifiers as plain digits, scalars as signed
//! decimals with an optional fraction and an optional exponent.

use vstd::prelude::*;
use vstd::string::{StrSliceExecFns, StringExecFns};
use crate::scalar::{saturated, Scalar, SCALE};

verus! {

/// Whether the character is one of the ten digits.
pub open spec fn is_digit(c: char) -> bool {
    '0' <= c <= '9'
}

/// The number that a digit stands for.
pub open spec fn digit_value(c: char) -> nat {
    (c as int - '0' as int) as nat
}

/// The digit that stands for a number below ten.
pub open spec fn digit_char(d: nat) -> char {
    if d == 0 {
        '0'
    } else if d == 1 {
        '1'
    } else if d == 2 {
        '2'
    } else if d == 3 {
        '3'
    } else if d == 4 {
        '4'
    } else if d == 5 {
        '5'
    } else if d == 6 {
        '6'
    } else if d == 7 {
        '7'
    } else if d == 8 {
        '8'
    } else {
        '9'
    }
}

/// Whether the text holds digits alone.
pub open spec fn all_digits(s: Seq<char>) -> bool {
    forall|i: int| 0 <= i < s.len() ==> is_digit(#[trigger] s[i])
}

/// The number that a text of digits denotes; zero for the empty text.
pub open spec fn natural(s: Seq<char>) -> nat
    decreases s.len(),
{
    if s.len() == 0 {
        0
    } else {
        natural(s.drop_last()) * 10 + digit_value(s.last())
    }
}

/// Ten to the power of `n`.
pub open spec fn pow10(n: nat) -> nat
    decreases n,
{
    if n == 0 {
        1
    } else {
        10 * pow10((n - 1) as nat)
    }
}

/// The digits of a number, without leading zeros; one zero for zero.
pub open spec fn natural_text(n: nat) -> Seq<char>
    decreases n,
{
    if n < 10 {
        seq![digit_char(n)]
    } else {
        natural_text(n / 10).push(digit_char(n % 10))
    }
}

/// The identifier that a text denotes: the text holds digits alone, at
/// least one, and the number they denote fits.
pub open spec fn index_of_text(s: Seq<char>) -> Option<usize> {
    if s.len() > 0 && all_digits(s) && natural(s) <= usize::MAX {
        Some(natural(s) as usize)
    } else {
        None
    }
}

/// A longer text of digits denotes no smaller number than its beginning.
pub proof fn lemma_natural_grows(s: Seq<char>, k: int)
    requires
        0 <= k <= s.len(),
    ensures
        natural(s.take(k)) <= natural(s),
    decreases s.len() - k,
{
    if k < s.len() {
        lemma_natural_grows(s, k + 1);
        assert(s.take(k + 1).drop_last() =~= s.take(k));
        assert(natural(s.take(k)) * 10 >= natural(s.take(k))) by (nonlinear_arith);
    } else {
        assert(s.take(k) =~= s);
    }
}

/// The digits of a number are digits, and denote the number.
pub proof fn lemma_natural_text(n: nat)
    ensures
        natural_text(n).len() > 0,
        all_digits(natural_text(n)),
        natural(natural_text(n)) == n,
    decreases n,
{
    if n < 10 {
        assert(natural_text(n).drop_last() =~= Seq::<char>::empty());
        assert(natural(natural_text(n)) == natural(Seq::<char>::empty()) * 10 + digit_value(
            digit_char(n),
        ));
    } else {
        lemma_natural_text(n / 10);
        assert(natural_text(n).drop_last() =~= natural_text(n / 10));
    }
}

/// The digits of a number other than zero begin with no zero.
pub proof fn lemma_natural_text_leads(n: nat)
    requires
        n >= 1,
    ensures
        natural_text(n)[0] != '0',
    decreases n,
{
    if n >= 10 {
        lemma_natural_text_leads(n / 10);
        lemma_natural_text(n / 10);
        assert(natural_text(n)[0] == natural_text(n / 10)[0]);
    }
}

/// The identifier that the digits of an identifier denote is that
/// identifier.
pub proof fn lemma_index_round_trip(n: usize)
    ensures
        index_of_text(natural_text(n as nat)) == Some(n),
{
    lemma_natural_text(n as nat);
}

/// The number that the digit stands for, if the character is a digit.
pub fn digit_of(c: char) -> (r: Option<u8>)
    ensures
        r == if is_digit(c) {
            Some(digit_value(c) as u8)
        } else {
            None
        },
{
    if '0' <= c && c <= '9' {
        Some((c as u32 - '0' as u32) as u8)
    } else {
        None
    }
}

/// The digit of a number below ten, as a text.
pub fn digit_text(d: u8) -> (r: &'static str)
    requires
        d < 10,
    ensures
        r@ == seq![digit_char(d as nat)],
{
    proof {
        reveal_strlit("0");
        reveal_strlit("1");
        reveal_strlit("2");
        reveal_strlit("3");
        reveal_strlit("4");
        reveal_strlit("5");
        reveal_strlit("6");
        reveal_strlit("7");
        reveal_strlit("8");
        reveal_strlit("9");
    }
    let r = if d == 0 {
        "0"
    } else if d == 1 {
        "1"
    } else if d == 2 {
        "2"
    } else if d == 3 {
        "3"
    } else if d == 4 {
        "4"
    } else if d == 5 {
        "5"
    } else if d == 6 {
        "6"
    } else if d == 7 {
        "7"
    } else if d == 8 {
        "8"
    } else {
        "9"
    };
    assert(r@ =~= seq![digit_char(d as nat)]);
    r
}

/// The identifier that the text denotes.
pub fn parse_index(text: &str) -> (r: Option<usize>)
    ensures
        r == index_of_text(text@),
{
    let n = text.unicode_len();
    if n == 0 {
        return None;
    }
    let mut acc: usize = 0;
    let mut i: usize = 0;
    while i < n
        invariant
            n == text@.len(),
            i <= n,
            all_digits(text@.take(i as int)),
            acc == natural(text@.take(i as int)),
        decreases n - i,
    {
        let d = match digit_of(text.get_char(i)) {
            Some(d) => d,
            None => {
                return None;
            },
        };
        proof {
            assert(text@.take(i + 1).drop_last() =~= text@.take(i as int));
            lemma_natural_grows(text@, i + 1);
        }
        let next = match acc.checked_mul(10) {
            Some(p) => match p.checked_add(d as usize) {
                Some(q) => q,
                None => {
                    return None;
                },
            },
            None => {
                return None;
            },
        };
        acc = next;
        i = i + 1;
    }
    assert(text@.take(n as int) =~= text@);
    Some(acc)
}

/// The digits of the number.
pub fn natural_string(n: u64) -> (r: String)
    ensures
        r@ == natural_text(n as nat),
    decreases n,
{
    if n < 10 {
        String::from_str(digit_text(n as u8))
    } else {
        let mut s = natural_string(n / 10);
        s.append(digit_text((n % 10) as u8));
        assert(s@ =~= natural_text(n as nat));
        s
    }
}

/// The digits of the identifier.
pub fn index_text(n: usize) -> (r: String)
    ensures
        r@ == natural_text(n as nat),
{
    natural_string(n as u64)
}

/// The place of the first character at or after `from` that is no digit.
pub open spec fn digits_end(s: Seq<char>, from: int) -> int
    decreases s.len() - from,
{
    if 0 <= from < s.len() && is_digit(s[from]) {
        digits_end(s, from + 1)
    } else {
        from
    }
}

/// Where the parts of a decimal text lie: the digits before the point
/// from `start` to `whole_end`, those after it from `fraction_start` to
/// `fraction_end`, those of the exponent from `exponent_start` to
/// `exponent_end`. A part that is absent is empty.
pub struct Layout {
    pub start: int,
    pub whole_end: int,
    pub fraction_start: int,
    pub fraction_end: int,
    pub exponent_negative: bool,
    pub exponent_start: int,
    pub exponent_end: int,
}

/// The layout of a decimal text: an optional minus sign, digits, then
/// optionally a point with digits after it, then optionally `e` or `E`, an
/// optional sign, and digits. `None` for any other text.
pub open spec fn layout_of(s: Seq<char>) -> Option<Layout> {
    let start: int = if s.len() > 0 && s[0] == '-' { 1 } else { 0 };
    let whole_end = digits_end(s, start);
    let has_fraction = whole_end < s.len() && s[whole_end] == '.';
    let fraction_start = if has_fraction { whole_end + 1 } else { whole_end };
    let fraction_end = digits_end(s, fraction_start);
    let has_exponent = fraction_end < s.len() && (s[fraction_end] == 'e' || s[fraction_end] == 'E');
    let sign_at = fraction_end + 1;
    let has_sign = sign_at < s.len() && (s[sign_at] == '-' || s[sign_at] == '+');
    let exponent_start = if has_sign { sign_at + 1 } else { sign_at };
    let exponent_end = digits_end(s, exponent_start);
    if whole_end == start || (has_fraction && fraction_end == fraction_start) {
        None
    } else if !has_exponent {
        if fraction_end == s.len() {
            Some(
                Layout {
                    start,
                    whole_end,
                    fraction_start,
                    fraction_end,
                    exponent_negative: false,
                    exponent_start: fraction_end,
                    exponent_end: fraction_end,
                },
            )
        } else {
            None
        }
    } else if exponent_end == exponent_start || exponent_end != s.len() {
        None
    } else {
        Some(
            Layout {
                start,
                whole_end,
                fraction_start,
                fraction_end,
                exponent_negative: has_sign && s[sign_at] == '-',
                exponent_start,
                exponent_end,
            },
        )
    }
}

/// The parts of a decimal: its sign, the digits before and after the
/// point, the number of those after it, and the exponent of ten.
pub struct Parts {
    pub negative: bool,
    pub digits: Seq<char>,
    pub fraction_len: nat,
    pub exponent: int,
}

/// The parts of a text with the given layout.
pub open spec fn parts_in(s: Seq<char>, l: Layout) -> Parts {
    let e = natural(s.subrange(l.exponent_start, l.exponent_end)) as int;
    Parts {
        negative: l.start == 1,
        digits: s.subrange(l.start, l.whole_end) + s.subrange(l.fraction_start, l.fraction_end),
        fraction_len: (l.fraction_end - l.fraction_start) as nat,
        exponent: if l.exponent_negative { -e } else { e },
    }
}

/// The parts of a decimal text; `None` for a text that is no decimal.
pub open spec fn parts_of(s: Seq<char>) -> Option<Parts> {
    match layout_of(s) {
        Some(l) => Some(parts_in(s, l)),
        None => None,
    }
}

/// `n` times ten to the power of `shift`, rounded down.
pub open spec fn scaled(n: nat, shift: int) -> nat {
    if shift >= 0 {
        n * pow10(shift as nat)
    } else {
        n / pow10((-shift) as nat)
    }
}

/// The scalar of the given parts: its magnitude rounded down to a whole
/// number of raw steps, saturating.
pub open spec fn scalar_of_parts(p: Parts) -> Scalar {
    let magnitude = scaled(natural(p.digits), 6 + p.exponent - p.fraction_len);
    saturated(if p.negative { -magnitude } else { magnitude as int })
}

/// The scalar that a decimal text denotes.
pub open spec fn scalar_of_text(s: Seq<char>) -> Option<Scalar> {
    match parts_of(s) {
        Some(p) => Some(scalar_of_parts(p)),
        None => None,
    }
}

/// The number denoted by the first `t` places of the digits, the digits
/// taken to be followed by zeros.
pub open spec fn shifted(digits: Seq<char>, t: int) -> nat {
    if t <= 0 {
        0
    } else if t <= digits.len() {
        natural(digits.take(t))
    } else {
        natural(digits) * pow10((t - digits.len()) as nat)
    }
}

/// The smaller of two numbers.
pub open spec fn least(a: nat, b: nat) -> nat {
    if a <= b { a } else { b }
}

/// A power of ten is at least one.
proof fn lemma_pow10_positive(n: nat)
    ensures
        pow10(n) >= 1,
    decreases n,
{
    if n > 0 {
        lemma_pow10_positive((n - 1) as nat);
    }
}

/// A greater power of ten is no less.
proof fn lemma_pow10_grows(a: nat, b: nat)
    requires
        a <= b,
    ensures
        pow10(a) <= pow10(b),
    decreases b,
{
    lemma_pow10_positive(a);
    if a < b {
        lemma_pow10_grows(a, (b - 1) as nat);
    }
}

/// Ten to the power of nineteen, written out.
proof fn lemma_pow10_nineteen()
    ensures
        pow10(19) == 10_000_000_000_000_000_000,
{
    reveal_with_fuel(pow10, 20);
}

/// A text of digits denotes a number below ten to the power of its length.
proof fn lemma_natural_below(s: Seq<char>)
    requires
        all_digits(s),
    ensures
        natural(s) < pow10(s.len()),
    decreases s.len(),
{
    if s.len() > 0 {
        lemma_natural_below(s.drop_last());
        assert(is_digit(s[s.len() - 1]));
    }
}

/// The beginning of a text of digits denotes the number of the whole text
/// with as many places cut off as the beginning lacks.
proof fn lemma_take_divides(s: Seq<char>, k: int)
    requires
        all_digits(s),
        0 <= k <= s.len(),
    ensures
        natural(s.take(k)) == natural(s) / pow10((s.len() - k) as nat),
    decreases s.len() - k,
{
    if k == s.len() {
        assert(s.take(k) =~= s);
        let e = (s.len() - k) as nat;
        assert(e == 0);
        assert(pow10(e) == 1);
        assert(natural(s) as int / 1 == natural(s));
    } else {
        lemma_take_divides(s, k + 1);
        let m = (s.len() - k - 1) as nat;
        lemma_pow10_positive(m);
        assert(s.take(k + 1).drop_last() =~= s.take(k));
        assert(is_digit(s[k]));
        assert(s.take(k + 1).last() == s[k]);
        let q = natural(s.take(k));
        let d = digit_value(s[k]);
        assert(natural(s.take(k + 1)) == q * 10 + d);
        assert((q * 10 + d) / 10 == q);
        vstd::arithmetic::div_mod::lemma_div_denominator(natural(s) as int, pow10(m) as int, 10);
        assert(pow10((m + 1) as nat) == 10 * pow10(m));
        assert(pow10(m) as int * 10 == pow10((m + 1) as nat));
        assert((s.len() - k) as nat == m + 1);
        assert((s.len() - (k + 1)) as nat == m);
        assert(natural(s.take(k + 1)) == natural(s) / pow10(m));
        assert(q == (natural(s) as int / pow10(m) as int) / 10);
        assert(q == natural(s) as int / (pow10(m) as int * 10));
        assert(q == natural(s) as int / (pow10((m + 1) as nat) as int));
        assert(q == natural(s) / pow10((m + 1) as nat));
        assert(natural(s.take(k)) == natural(s) / pow10((s.len() - k) as nat));
    }
}

/// What the first places of the digits denote is the number of the digits
/// times the power of ten that the places reach to.
proof fn lemma_shifted_is_scaled(digits: Seq<char>, shift: int)
    requires
        all_digits(digits),
    ensures
        shifted(digits, digits.len() + shift) == scaled(natural(digits), shift),
{
    let t = digits.len() + shift;
    let n = natural(digits);
    if shift > 0 {
        let e = (t - digits.len()) as nat;
        assert(e == shift as nat);
        if digits.len() == 0 {
            assert(n == 0);
            assert(0 * pow10(e) == 0);
        }
    } else if shift == 0 {
        assert(digits.take(t) =~= digits);
        assert(pow10(0) == 1);
        assert(n * 1 == n);
        if digits.len() == 0 {
            assert(n == 0);
        }
    } else if t >= 0 {
        lemma_take_divides(digits, t);
        let e = (digits.len() - t) as nat;
        assert(e == (-shift) as nat);
        if t == 0 {
            assert(digits.take(0) =~= Seq::<char>::empty());
        }
    } else {
        let e = (-shift) as nat;
        lemma_natural_below(digits);
        lemma_pow10_grows(digits.len(), e);
        vstd::arithmetic::div_mod::lemma_basic_div(n as int, pow10(e) as int);
        assert(n as int / pow10(e) as int == 0);
    }
}

/// An exponent beyond the length of the text by more than forty moves the
/// number as far as any greater one, as far as a scalar can tell.
proof fn lemma_far_exponent(digits: Seq<char>, shift: int, far: int)
    requires
        all_digits(digits),
        (46 <= shift <= far) || (far <= shift <= -34 - digits.len()),
    ensures
        least(scaled(natural(digits), shift), 0x8000_0000_0000_0000) == least(
            scaled(natural(digits), far),
            0x8000_0000_0000_0000,
        ),
{
    let n = natural(digits);
    if shift >= 0 {
        lemma_pow10_nineteen();
        lemma_pow10_grows(19, shift as nat);
        lemma_pow10_grows(19, far as nat);
        if n > 0 {
            assert(n * pow10(shift as nat) >= pow10(shift as nat)) by (nonlinear_arith)
                requires
                    n >= 1,
            {
            }
            assert(n * pow10(far as nat) >= pow10(far as nat)) by (nonlinear_arith)
                requires
                    n >= 1,
            {
            }
        } else {
            assert(0 * pow10(shift as nat) == 0);
            assert(0 * pow10(far as nat) == 0);
        }
    } else {
        lemma_natural_below(digits);
        lemma_pow10_grows(digits.len(), (-shift) as nat);
        lemma_pow10_grows(digits.len(), (-far) as nat);
        vstd::arithmetic::div_mod::lemma_basic_div(n as int, pow10((-shift) as nat) as int);
        vstd::arithmetic::div_mod::lemma_basic_div(n as int, pow10((-far) as nat) as int);
    }
}

/// One more place multiplies by ten and adds the digit of the place, or
/// nothing past the end of the digits.
proof fn lemma_shifted_step(digits: Seq<char>, t: int)
    requires
        all_digits(digits),
        0 <= t,
    ensures
        shifted(digits, t + 1) == shifted(digits, t) * 10 + (if t < digits.len() {
            digit_value(digits[t])
        } else {
            0
        }),
{
    let n = natural(digits);
    if t < digits.len() {
        let next = digits.take(t + 1);
        assert(next.drop_last() =~= digits.take(t));
        assert(next.last() == digits[t]);
        assert(natural(next) == natural(digits.take(t)) * 10 + digit_value(digits[t]));
        assert(shifted(digits, t + 1) == natural(next));
        if t == 0 {
            assert(digits.take(0) =~= Seq::<char>::empty());
            assert(natural(digits.take(0)) == 0);
        }
    } else {
        let k = (t - digits.len()) as nat;
        assert(shifted(digits, t + 1) == n * pow10(k + 1));
        assert(pow10(k + 1) == 10 * pow10(k));
        assert(n * (10 * pow10(k)) == n * pow10(k) * 10) by (nonlinear_arith);
        if k == 0 {
            assert(pow10(0) == 1);
            assert(n * 1 == n);
            if t == 0 {
                assert(digits =~= Seq::<char>::empty());
                assert(n == 0);
            } else {
                assert(digits.take(t) =~= digits);
                assert(shifted(digits, t) == n);
            }
        } else {
            assert(shifted(digits, t) == n * pow10(k));
        }
    }
}

/// The place of the first character at or after `from` that is no digit.
fn scan_digits(text: &str, n: usize, from: usize) -> (end: usize)
    requires
        n == text@.len(),
        from <= n,
    ensures
        end == digits_end(text@, from as int),
        from <= end <= n,
        all_digits(text@.subrange(from as int, end as int)),
{
    let mut i: usize = from;
    while i < n && digit_of(text.get_char(i)).is_some()
        invariant
            n == text@.len(),
            from <= i <= n,
            digits_end(text@, i as int) == digits_end(text@, from as int),
            all_digits(text@.subrange(from as int, i as int)),
        decreases n - i,
    {
        assert forall|j: int| 0 <= j < i + 1 - from implies is_digit(
            #[trigger] text@.subrange(from as int, i + 1)[j],
        ) by {
            if j < i - from {
                assert(text@.subrange(from as int, i as int)[j] == text@[from + j]);
            }
        }
        i = i + 1;
    }
    i
}

/// The number that the digits from `from` to `to` denote, or `cap` if that
/// is less.
fn capped_natural(text: &str, from: usize, to: usize, cap: u128) -> (r: u128)
    requires
        from <= to <= text@.len(),
        all_digits(text@.subrange(from as int, to as int)),
        0 < cap < 0x1_0000_0000_0000_0000_0000_0000,
    ensures
        r == least(natural(text@.subrange(from as int, to as int)), cap as nat),
{
    let ghost digits = text@.subrange(from as int, to as int);
    let mut acc: u128 = 0;
    let mut i: usize = from;
    while i < to
        invariant
            from <= i <= to <= text@.len(),
            digits == text@.subrange(from as int, to as int),
            all_digits(digits),
            0 < cap < 0x1_0000_0000_0000_0000_0000_0000,
            acc == least(natural(digits.take(i - from)), cap as nat),
        decreases to - i,
    {
        let c = text.get_char(i);
        proof {
            assert(digits[i - from] == c);
            assert(is_digit(digits[i - from]));
            assert(digits.take(i + 1 - from).drop_last() =~= digits.take(i - from));
        }
        let d = match digit_of(c) {
            Some(d) => d,
            None => 0,
        };
        let next: u128 = acc * 10 + d as u128;
        acc = if next > cap { cap } else { next };
        i = i + 1;
    }
    assert(digits.take(to - from) =~= digits);
    acc
}

/// The number that the first `keep` places denote of the digits from
/// `start` to `whole_end` and from `fraction_start` to `fraction_end`, the
/// digits taken to be followed by zeros; two to the power of 63 if that is
/// less.
fn leading(
    text: &str,
    start: usize,
    whole_end: usize,
    fraction_start: usize,
    fraction_end: usize,
    keep: i128,
) -> (acc: u128)
    requires
        start <= whole_end <= fraction_start <= fraction_end <= text@.len(),
        all_digits(
            text@.subrange(start as int, whole_end as int) + text@.subrange(
                fraction_start as int,
                fraction_end as int,
            ),
        ),
    ensures
        acc == least(
            shifted(
                text@.subrange(start as int, whole_end as int) + text@.subrange(
                    fraction_start as int,
                    fraction_end as int,
                ),
                keep as int,
            ),
            0x8000_0000_0000_0000,
        ),
{
    let ghost digits = text@.subrange(start as int, whole_end as int) + text@.subrange(
        fraction_start as int,
        fraction_end as int,
    );
    let whole_len: usize = whole_end - start;
    let fraction_len: usize = fraction_end - fraction_start;
    let mut acc: u128 = 0;
    let mut t: i128 = 0;
    while t < keep
        invariant
            start <= whole_end <= fraction_start <= fraction_end <= text@.len(),
            whole_len == whole_end - start,
            fraction_len == fraction_end - fraction_start,
            digits == text@.subrange(start as int, whole_end as int) + text@.subrange(
                fraction_start as int,
                fraction_end as int,
            ),
            all_digits(digits),
            0 <= t,
            t <= keep || keep < 0,
            keep < 0 ==> t == 0,
            acc == least(shifted(digits, t as int), 0x8000_0000_0000_0000),
        decreases keep - t,
    {
        let d: u8 = if t < whole_len as i128 {
            let c = text.get_char(start + t as usize);
            assert(digits[t as int] == c);
            assert(is_digit(digits[t as int]));
            match digit_of(c) {
                Some(d) => d,
                None => 0,
            }
        } else if t < whole_len as i128 + fraction_len as i128 {
            let c = text.get_char(fraction_start + (t as usize - whole_len));
            assert(digits[t as int] == c);
            assert(is_digit(digits[t as int]));
            match digit_of(c) {
                Some(d) => d,
                None => 0,
            }
        } else {
            0
        };
        proof {
            lemma_shifted_step(digits, t as int);
        }
        let next: u128 = acc * 10 + d as u128;
        acc = if next > 0x8000_0000_0000_0000 { 0x8000_0000_0000_0000 } else { next };
        t = t + 1;
    }
    acc
}

/// Where the parts of a decimal text lie.
pub struct Places {
    pub start: usize,
    pub whole_end: usize,
    pub fraction_start: usize,
    pub fraction_end: usize,
    pub exponent_negative: bool,
    pub exponent_start: usize,
    pub exponent_end: usize,
}

impl View for Places {
    type V = Layout;

    open spec fn view(&self) -> Layout {
        Layout {
            start: self.start as int,
            whole_end: self.whole_end as int,
            fraction_start: self.fraction_start as int,
            fraction_end: self.fraction_end as int,
            exponent_negative: self.exponent_negative,
            exponent_start: self.exponent_start as int,
            exponent_end: self.exponent_end as int,
        }
    }
}

/// Where the parts of the text lie, if it is a decimal.
pub fn places_of(text: &str) -> (r: Option<Places>)
    ensures
        match r {
            Some(p) => {
                &&& layout_of(text@) == Some(p@)
                &&& p.start <= p.whole_end <= p.fraction_start <= p.fraction_end
                    <= p.exponent_start <= p.exponent_end <= text@.len()
                &&& all_digits(text@.subrange(p.start as int, p.whole_end as int))
                &&& all_digits(text@.subrange(p.fraction_start as int, p.fraction_end as int))
                &&& all_digits(text@.subrange(p.exponent_start as int, p.exponent_end as int))
            },
            None => layout_of(text@) is None,
        },
{
    let n = text.unicode_len();
    let negative = n > 0 && text.get_char(0) == '-';
    let start: usize = if negative { 1 } else { 0 };
    let whole_end = scan_digits(text, n, start);
    if whole_end == start {
        return None;
    }
    let has_fraction = whole_end < n && text.get_char(whole_end) == '.';
    let fraction_start: usize = if has_fraction { whole_end + 1 } else { whole_end };
    let fraction_end = scan_digits(text, n, fraction_start);
    if has_fraction && fraction_end == fraction_start {
        return None;
    }
    let has_exponent = fraction_end < n && (text.get_char(fraction_end) == 'e' || text.get_char(
        fraction_end,
    ) == 'E');
    if !has_exponent {
        if fraction_end != n {
            return None;
        }
        assert(text@.subrange(fraction_end as int, fraction_end as int) =~= Seq::<char>::empty());
        return Some(
            Places {
                start,
                whole_end,
                fraction_start,
                fraction_end,
                exponent_negative: false,
                exponent_start: fraction_end,
                exponent_end: fraction_end,
            },
        );
    }
    let sign_at: usize = fraction_end + 1;
    let has_sign = sign_at < n && (text.get_char(sign_at) == '-' || text.get_char(sign_at) == '+');
    let exponent_negative = has_sign && text.get_char(sign_at) == '-';
    let exponent_start: usize = if has_sign { sign_at + 1 } else { sign_at };
    let exponent_end = scan_digits(text, n, exponent_start);
    if exponent_end == exponent_start || exponent_end != n {
        return None;
    }
    Some(
        Places {
            start,
            whole_end,
            fraction_start,
            fraction_end,
            exponent_negative,
            exponent_start,
            exponent_end,
        },
    )
}

/// The magnitude, in raw steps, of the decimal with the given places; two
/// to the power of 63 if that is less.
fn magnitude(text: &str, p: &Places) -> (m: u128)
    requires
        p.start <= p.whole_end <= p.fraction_start <= p.fraction_end <= p.exponent_start
            <= p.exponent_end <= text@.len(),
        all_digits(text@.subrange(p.start as int, p.whole_end as int)),
        all_digits(text@.subrange(p.fraction_start as int, p.fraction_end as int)),
        all_digits(text@.subrange(p.exponent_start as int, p.exponent_end as int)),
    ensures
        m == least(
            scaled(
                natural(parts_in(text@, p@).digits),
                6 + parts_in(text@, p@).exponent - parts_in(text@, p@).fraction_len,
            ),
            0x8000_0000_0000_0000,
        ),
{
    let ghost parts = parts_in(text@, p@);
    let ghost digits = parts.digits;
    let n = text.unicode_len();
    let far: u128 = n as u128 + 40;
    let exponent: u128 = capped_natural(text, p.exponent_start, p.exponent_end, far);
    let whole_len: usize = p.whole_end - p.start;
    let fraction_len: usize = p.fraction_end - p.fraction_start;
    let shift: i128 = if p.exponent_negative {
        6 - exponent as i128 - fraction_len as i128
    } else {
        6 + exponent as i128 - fraction_len as i128
    };
    let keep: i128 = whole_len as i128 + fraction_len as i128 + shift;
    proof {
        assert(digits.len() == whole_len + fraction_len);
        assert forall|j: int| 0 <= j < digits.len() implies is_digit(#[trigger] digits[j]) by {
            if j < whole_len {
                assert(text@.subrange(p.start as int, p.whole_end as int)[j] == digits[j]);
            } else {
                assert(text@.subrange(p.fraction_start as int, p.fraction_end as int)[j
                    - whole_len] == digits[j]);
            }
        }
        let true_shift = 6 + parts.exponent - parts.fraction_len;
        if true_shift != shift {
            lemma_far_exponent(digits, shift as int, true_shift);
        }
        lemma_shifted_is_scaled(digits, shift as int);
    }
    leading(text, p.start, p.whole_end, p.fraction_start, p.fraction_end, keep)
}

/// The scalar that the text denotes.
pub fn parse_scalar(text: &str) -> (r: Option<Scalar>)
    ensures
        r == scalar_of_text(text@),
{
    let places = match places_of(text) {
        Some(p) => p,
        None => {
            return None;
        },
    };
    let m = magnitude(text, &places);
    if places.start == 1 {
        Some(Scalar::from_raw(if m >= 0x8000_0000_0000_0000 { i64::MIN } else { -(m as i64) }))
    } else {
        Some(Scalar::from_raw(if m > i64::MAX as u128 { i64::MAX } else { m as i64 }))
    }
}

/// The six digits of a number below a million, with leading zeros.
pub open spec fn six_digits(f: nat) -> Seq<char> {
    seq![
        digit_char(f / 100_000 % 10),
        digit_char(f / 10_000 % 10),
        digit_char(f / 1_000 % 10),
        digit_char(f / 100 % 10),
        digit_char(f / 10 % 10),
        digit_char(f % 10),
    ]
}

/// The decimal text of a scalar of `raw` steps: a minus sign for a negative
/// one, the digits of the whole units, a point, and six digits of the
/// millionths.
pub open spec fn decimal_text(raw: int) -> Seq<char> {
    let m = (if raw < 0 { -raw } else { raw }) as nat;
    let body = natural_text(m / 1_000_000) + seq!['.'] + six_digits(m % 1_000_000);
    if raw < 0 {
        seq!['-'] + body
    } else {
        body
    }
}

/// The decimal text of the scalar.
pub fn scalar_text(s: Scalar) -> (r: String)
    ensures
        r@ == decimal_text(s.raw as int),
{
    proof {
        reveal_strlit("-");
        reveal_strlit(".");
    }
    let m: u64 = if s.raw < 0 { (-(s.raw as i128)) as u64 } else { s.raw as u64 };
    let f: u64 = m % 1_000_000;
    let mut out = if s.raw < 0 { String::from_str("-") } else { String::new() };
    let whole = natural_string(m / 1_000_000);
    out.append(whole.as_str());
    out.append(".");
    out.append(digit_text((f / 100_000 % 10) as u8));
    out.append(digit_text((f / 10_000 % 10) as u8));
    out.append(digit_text((f / 1_000 % 10) as u8));
    out.append(digit_text((f / 100 % 10) as u8));
    out.append(digit_text((f / 10 % 10) as u8));
    out.append(digit_text((f % 10) as u8));
    assert(out@ =~= decimal_text(s.raw as int));
    out
}

/// Digits from `from` up to a place `to` that holds no digit end at `to`.
proof fn lemma_digits_end(s: Seq<char>, from: int, to: int)
    requires
        0 <= from <= to <= s.len(),
        forall|i: int| from <= i < to ==> is_digit(#[trigger] s[i]),
        to == s.len() || !is_digit(s[to]),
    ensures
        digits_end(s, from) == to,
    decreases to - from,
{
    if from < to {
        lemma_digits_end(s, from + 1, to);
    }
}

/// The number of two texts of digits put together.
proof fn lemma_natural_joined(a: Seq<char>, b: Seq<char>)
    ensures
        natural(a + b) == natural(a) * pow10(b.len()) + natural(b),
    decreases b.len(),
{
    if b.len() == 0 {
        assert(a + b =~= a);
        assert(pow10(0) == 1);
        assert(natural(a) * 1 == natural(a));
    } else {
        lemma_natural_joined(a, b.drop_last());
        assert((a + b).drop_last() =~= a + b.drop_last());
        assert((a + b).last() == b.last());
        let k = (b.len() - 1) as nat;
        assert(pow10(b.len()) == 10 * pow10(k));
        assert((natural(a) * pow10(k) + natural(b.drop_last())) * 10 == natural(a) * (10 * pow10(
            k,
        )) + natural(b.drop_last()) * 10) by (nonlinear_arith);
    }
}

/// Six digits are digits, and denote their number.
proof fn lemma_six_digits(f: nat)
    requires
        f < 1_000_000,
    ensures
        six_digits(f).len() == 6,
        all_digits(six_digits(f)),
        natural(six_digits(f)) == f,
{
    let s = six_digits(f);
    let s5 = s.drop_last();
    let s4 = s5.drop_last();
    let s3 = s4.drop_last();
    let s2 = s3.drop_last();
    let s1 = s2.drop_last();
    assert(s1.drop_last() =~= Seq::<char>::empty());
    assert(natural(s1.drop_last()) == 0);
    assert(natural(s1) == f / 100_000 % 10);
    assert(natural(s2) == natural(s1) * 10 + f / 10_000 % 10);
    assert(natural(s3) == natural(s2) * 10 + f / 1_000 % 10);
    assert(natural(s4) == natural(s3) * 10 + f / 100 % 10);
    assert(natural(s5) == natural(s4) * 10 + f / 10 % 10);
    assert(natural(s) == natural(s5) * 10 + f % 10);
}

/// The scalar that the decimal text of a scalar denotes is that scalar.
pub proof fn lemma_scalar_round_trip(s: Scalar)
    ensures
        scalar_of_text(decimal_text(s.raw as int)) == Some(s),
        !decimal_text(s.raw as int).contains('e'),
        !decimal_text(s.raw as int).contains('E'),
{
    let raw = s.raw as int;
    let text = decimal_text(raw);
    let m = (if raw < 0 { -raw } else { raw }) as nat;
    let w = m / 1_000_000;
    let f = m % 1_000_000;
    let whole = natural_text(w);
    let six = six_digits(f);
    lemma_natural_text(w);
    lemma_six_digits(f);
    let start: int = if raw < 0 { 1 } else { 0 };
    let whole_end = start + whole.len();
    let fraction_start = whole_end + 1;
    let fraction_end = fraction_start + 6;
    assert(text.len() == fraction_end);
    assert forall|i: int| start <= i < whole_end implies is_digit(#[trigger] text[i]) by {
        assert(text[i] == whole[i - start]);
    }
    assert(text[whole_end] == '.');
    assert forall|i: int| fraction_start <= i < fraction_end implies is_digit(
        #[trigger] text[i],
    ) by {
        assert(text[i] == six[i - fraction_start]);
    }
    if raw >= 0 {
        assert(text[0] == whole[0]);
        assert(is_digit(whole[0]));
    }
    lemma_digits_end(text, start, whole_end);
    lemma_digits_end(text, fraction_start, fraction_end);
    let l = layout_of(text)->Some_0;
    assert(l.start == start && l.whole_end == whole_end && l.fraction_start == fraction_start
        && l.fraction_end == fraction_end && l.exponent_start == fraction_end && l.exponent_end
        == fraction_end);
    let p = parts_in(text, l);
    assert(text.subrange(start, whole_end) =~= whole);
    assert(text.subrange(fraction_start, fraction_end) =~= six);
    assert(text.subrange(fraction_end, fraction_end) =~= Seq::<char>::empty());
    assert(p.digits == whole + six);
    lemma_natural_joined(whole, six);
    assert(pow10(6) == 1_000_000) by {
        reveal_with_fuel(pow10, 7);
    }
    assert(natural(p.digits) == m);
    assert(p.exponent == 0);
    assert(pow10(0) == 1);
    assert(m * 1 == m);
    assert(scaled(m, 0) == m * pow10(0));
    assert forall|i: int| 0 <= i < text.len() implies text[i] != 'e' && text[i] != 'E' by {
        if start <= i < whole_end {
            assert(is_digit(text[i]));
        } else if fraction_start <= i < fraction_end {
            assert(is_digit(text[i]));
        }
    }
}

} // verus!
