//! Exact decimal quantities: prices, ratios and percentages.
//!
//! A [`Decimal`] counts hundred-millionths, so every value with at most eight
//! fractional digits between zero and a hundred million is held exactly and all
//! comparisons are integer comparisons.

use crate::text::{lemma_position_of, lemma_position_of_is, position_of};
use vstd::prelude::*;
use vstd::string::*;

verus! {

/// Number of fractional decimal digits that a [`Decimal`] holds.
pub const FRACTION_DIGITS: usize = 8;

/// How many units make up the value one.
pub const SCALE: u64 = 100_000_000;

/// The largest number of units a [`Decimal`] may hold: the value of a hundred
/// million.  Products of three such numbers of units, divided by a hundred
/// times the scale, still fit the widest machine integer, which is what the
/// comparison of ratios needs.
pub const MAX_UNITS: u64 = 10_000_000_000_000_000;

/// The largest whole part of a [`Decimal`].
pub const MAX_WHOLE: u64 = 100_000_000;

/// Ten to the power `n`.
pub open spec fn pow10(n: nat) -> nat
    decreases n,
{
    if n == 0 {
        1
    } else {
        10 * pow10((n - 1) as nat)
    }
}

/// Whether `c` is one of the ASCII digits `0` to `9`.
pub open spec fn is_digit(c: char) -> bool {
    '0' <= c <= '9'
}

/// The number a digit stands for.
pub open spec fn digit_value(c: char) -> nat {
    (c as u32 - '0' as u32) as nat
}

/// Whether every character of `s` is an ASCII digit.
pub open spec fn all_digits(s: Seq<char>) -> bool {
    forall|i: int| 0 <= i < s.len() ==> is_digit(#[trigger] s[i])
}

/// The number that a sequence of digits writes in base ten; zero for the
/// empty sequence.
pub open spec fn digits_value(s: Seq<char>) -> nat
    decreases s.len(),
{
    if s.len() == 0 {
        0
    } else {
        10 * digits_value(s.drop_last()) + digit_value(s.last())
    }
}

/// Position of the first full stop in `s`, or `s.len()` if there is none.
pub open spec fn dot_position(s: Seq<char>) -> int {
    position_of(s, '.')
}

/// The units written by a whole part and a fractional part, both digit
/// sequences, the fraction at most [`FRACTION_DIGITS`] long.
pub open spec fn units_of(whole: Seq<char>, fraction: Seq<char>) -> nat {
    digits_value(whole) * (SCALE as nat) + digits_value(fraction) * pow10(
        (FRACTION_DIGITS - fraction.len()) as nat,
    )
}

/// What a text denotes, in units.
///
/// The accepted texts are `DIGITS` and `DIGITS.DIGITS`: at least one digit on
/// each side of the full stop, at most eight behind it, no sign, exponent or
/// blank, and a value of at most a hundred million.  Every other text denotes
/// nothing.
pub open spec fn parse_units(s: Seq<char>) -> Option<nat> {
    let dot = dot_position(s);
    let whole = s.subrange(0, dot);
    let fraction = if dot < s.len() {
        s.subrange(dot + 1, s.len() as int)
    } else {
        Seq::<char>::empty()
    };
    if whole.len() >= 1 && all_digits(whole) && all_digits(fraction) && (dot < s.len()
        ==> 1 <= fraction.len() <= FRACTION_DIGITS) && units_of(whole, fraction) <= MAX_UNITS {
        Some(units_of(whole, fraction))
    } else {
        None
    }
}

/// A number written with `n` digits is below ten to the `n`.
pub proof fn lemma_digits_bound(s: Seq<char>)
    requires
        all_digits(s),
    ensures
        digits_value(s) < pow10(s.len()),
    decreases s.len(),
{
    if s.len() > 0 {
        let init = s.drop_last();
        assert forall|i: int| 0 <= i < init.len() implies is_digit(#[trigger] init[i]) by {
            assert(init[i] == s[i]);
        }
        lemma_digits_bound(init);
        assert(is_digit(s[s.len() - 1]));
    }
}

/// The number written by the first `k` digits is at most the number written
/// by all of them.
pub proof fn lemma_digits_prefix(s: Seq<char>, k: int)
    requires
        all_digits(s),
        0 <= k <= s.len(),
    ensures
        digits_value(s.subrange(0, k)) <= digits_value(s),
    decreases s.len() - k,
{
    if k == s.len() {
        assert(s.subrange(0, k) =~= s);
    } else {
        let init = s.drop_last();
        assert forall|i: int| 0 <= i < init.len() implies is_digit(#[trigger] init[i]) by {
            assert(init[i] == s[i]);
        }
        lemma_digits_prefix(init, k);
        assert(init.subrange(0, k) =~= s.subrange(0, k));
    }
}

/// The powers of ten up to the eighth.
pub proof fn lemma_pow10_values()
    ensures
        pow10(0) == 1,
        pow10(1) == 10,
        pow10(2) == 100,
        pow10(3) == 1_000,
        pow10(4) == 10_000,
        pow10(5) == 100_000,
        pow10(6) == 1_000_000,
        pow10(7) == 10_000_000,
        pow10(8) == 100_000_000,
{
    reveal_with_fuel(pow10, 10);
}

/// Position of the first full stop in an ASCII text, or its length.
fn find_dot(text: &str) -> (dot: usize)
    requires
        text.is_ascii(),
    ensures
        dot == dot_position(text@),
        dot <= text@.len(),
{
    broadcast use is_ascii_spec_bytes;

    let bytes = text.as_bytes();
    let n = bytes.len();
    let mut i: usize = 0;
    while i < n
        invariant
            text.is_ascii(),
            bytes@ == text.spec_bytes(),
            n == text@.len(),
            i <= n,
            forall|j: int| 0 <= j < i ==> #[trigger] text@[j] != '.',
        decreases n - i,
    {
        if bytes[i] == 46u8 {
            proof {
                lemma_position_of_is(text@, '.', i as int);
            }
            return i;
        }
        i += 1;
    }
    proof {
        lemma_position_of_is(text@, '.', n as int);
    }
    n
}

/// Reads the characters `from..to` of an ASCII text as a number in base ten:
/// `Some` exactly if all of them are digits and the number is at most
/// `limit`.
pub(crate) fn read_digits(text: &str, from: usize, to: usize, limit: u64) -> (r: Option<u64>)
    requires
        text.is_ascii(),
        from <= to <= text@.len(),
    ensures
        r is Some <==> all_digits(text@.subrange(from as int, to as int)) && digits_value(
            text@.subrange(from as int, to as int),
        ) <= limit,
        r is Some ==> r->0 == digits_value(text@.subrange(from as int, to as int)),
{
    broadcast use is_ascii_spec_bytes;

    let ghost whole = text@.subrange(from as int, to as int);
    let mut acc: u64 = 0;
    let mut i: usize = from;
    while i < to
        invariant
            text.is_ascii(),
            from <= i <= to <= text@.len(),
            whole == text@.subrange(from as int, to as int),
            all_digits(text@.subrange(from as int, i as int)),
            acc == digits_value(text@.subrange(from as int, i as int)),
            acc <= limit,
        decreases to - i,
    {
        let b = text.get_ascii(i);
        let ghost seen = text@.subrange(from as int, i as int);
        let ghost next_seen = text@.subrange(from as int, i + 1);
        if b < 48u8 || b > 57u8 {
            proof {
                assert(whole[i - from] == text@[i as int]);
                assert(!is_digit(whole[i - from]));
            }
            return None;
        }
        let digit = (b - 48u8) as u64;
        if acc > limit / 10 || digit > limit - acc * 10 {
            proof {
                assert(next_seen.drop_last() =~= seen);
                assert(next_seen.last() == text@[i as int]);
                assert(digits_value(next_seen) == 10 * acc + digit);
                if all_digits(whole) {
                    lemma_digits_prefix(whole, i + 1 - from);
                    assert(whole.subrange(0, i + 1 - from) =~= next_seen);
                }
            }
            return None;
        }
        let next = acc * 10 + digit;
        proof {
            assert(next_seen.drop_last() =~= seen);
            assert(next_seen.last() == text@[i as int]);
            assert forall|j: int| 0 <= j < next_seen.len() implies is_digit(
                #[trigger] next_seen[j],
            ) by {
                if j < seen.len() {
                    assert(next_seen[j] == seen[j]);
                }
            }
            assert(next == digits_value(next_seen));
        }
        acc = next;
        i += 1;
    }
    proof {
        assert(text@.subrange(from as int, i as int) =~= whole);
    }
    Some(acc)
}

/// Ten to the power `n`, for `n` up to eight.
fn power_of_ten(n: usize) -> (p: u64)
    requires
        n <= FRACTION_DIGITS,
    ensures
        p == pow10(n as nat),
{
    let mut p: u64 = 1;
    let mut i: usize = 0;
    proof {
        lemma_pow10_values();
    }
    while i < n
        invariant
            i <= n <= FRACTION_DIGITS,
            p == pow10(i as nat),
            p <= pow10(8),
            pow10(8) == 100_000_000,
        decreases n - i,
    {
        proof {
            lemma_pow10_monotone((i + 1) as nat, 8);
        }
        p = p * 10;
        i += 1;
    }
    p
}

/// Ten to the `a + b` is the product of ten to the `a` and ten to the `b`.
pub proof fn lemma_pow10_sum(a: nat, b: nat)
    ensures
        pow10(a) * pow10(b) == pow10(a + b),
    decreases a,
{
    if a > 0 {
        let a1 = (a - 1) as nat;
        lemma_pow10_sum(a1, b);
        let x = pow10(a1);
        let y = pow10(b);
        assert(pow10(a) == 10 * x);
        assert(a1 + b == (a + b - 1) as nat);
        assert(pow10(a + b) == 10 * pow10(a1 + b));
        assert(pow10(a1 + b) == x * y);
        assert(pow10(a) * y == 10 * (x * y)) by (nonlinear_arith)
            requires
                pow10(a) == 10 * x,
        ;
    } else {
        assert(a + b == b);
        assert(pow10(a) * pow10(b) == pow10(b)) by (nonlinear_arith)
            requires
                pow10(a) == 1,
        ;
    }
}

/// Powers of ten grow with the exponent.
pub proof fn lemma_pow10_monotone(a: nat, b: nat)
    requires
        a <= b,
    ensures
        pow10(a) <= pow10(b),
        pow10(a) >= 1,
    decreases b,
{
    if a < b {
        lemma_pow10_monotone(a, (b - 1) as nat);
    } else if a > 0 {
        lemma_pow10_monotone((a - 1) as nat, (a - 1) as nat);
    }
}

/// The character that writes a digit.
pub open spec fn digit_char(d: nat) -> char {
    (48 + d) as char
}

/// A number in base ten, without leading zeros; `0` for zero.
pub open spec fn number_text(n: nat) -> Seq<char>
    decreases n,
{
    if n < 10 {
        seq![digit_char(n)]
    } else {
        number_text(n / 10).push(digit_char(n % 10))
    }
}

/// The last `width` digits of a number in base ten, with leading zeros.
pub open spec fn padded_text(n: nat, width: nat) -> Seq<char>
    decreases width,
{
    if width == 0 {
        Seq::<char>::empty()
    } else {
        padded_text(n / 10, (width - 1) as nat).push(digit_char(n % 10))
    }
}

/// A fraction of `width` digits without its trailing zeros, but with at
/// least two digits.
pub open spec fn fraction_text(fraction: nat, width: nat) -> Seq<char>
    decreases width,
{
    if width > 2 && fraction % 10 == 0 {
        fraction_text(fraction / 10, (width - 1) as nat)
    } else {
        padded_text(fraction, width)
    }
}

/// How a decimal is written: the whole part, a full stop, and the fraction
/// with at least two digits and no further trailing zeros, as in `45000.50`,
/// `0.995` or `1.00`.
pub open spec fn decimal_text(units: nat) -> Seq<char> {
    number_text(units / (SCALE as nat)).push('.') + fraction_text(
        units % (SCALE as nat),
        FRACTION_DIGITS as nat,
    )
}

/// A number written in base ten consists of digits and reads back as
/// itself.
pub proof fn lemma_number_text(n: nat)
    ensures
        number_text(n).len() >= 1,
        all_digits(number_text(n)),
        digits_value(number_text(n)) == n,
    decreases n,
{
    if n >= 10 {
        lemma_number_text(n / 10);
        let t = number_text(n);
        assert(t.drop_last() =~= number_text(n / 10));
        assert(t.last() == digit_char(n % 10));
        assert forall|i: int| 0 <= i < t.len() implies is_digit(#[trigger] t[i]) by {
            if i < t.len() - 1 {
                assert(t[i] == number_text(n / 10)[i]);
            }
        }
    } else {
        let t = number_text(n);
        assert(t.drop_last() =~= Seq::<char>::empty());
        assert(digits_value(t.drop_last()) == 0);
    }
}

/// The last `width` digits of a number consist of digits and read back as
/// the number modulo ten to the `width`.
pub proof fn lemma_padded_text(n: nat, width: nat)
    ensures
        padded_text(n, width).len() == width,
        all_digits(padded_text(n, width)),
        digits_value(padded_text(n, width)) == n % pow10(width),
    decreases width,
{
    if width > 0 {
        let w = (width - 1) as nat;
        lemma_padded_text(n / 10, w);
        lemma_pow10_monotone(w, w);
        let t = padded_text(n, width);
        assert(t.drop_last() =~= padded_text(n / 10, w));
        assert(t.last() == digit_char(n % 10));
        assert forall|i: int| 0 <= i < t.len() implies is_digit(#[trigger] t[i]) by {
            if i < t.len() - 1 {
                assert(t[i] == padded_text(n / 10, w)[i]);
            }
        }
        let p = pow10(w);
        assert(pow10(width) == 10 * p);
        vstd::arithmetic::div_mod::lemma_mod_breakdown(n as int, 10, p as int);
    } else {
        assert(n % 1 == 0);
    }
}

/// A fraction without its trailing zeros consists of at least two digits and
/// stands for the same fraction.
pub proof fn lemma_fraction_text(fraction: nat, width: nat)
    requires
        2 <= width <= FRACTION_DIGITS,
        fraction < pow10(width),
    ensures
        2 <= fraction_text(fraction, width).len() <= width,
        all_digits(fraction_text(fraction, width)),
        digits_value(fraction_text(fraction, width)) * pow10(
            (FRACTION_DIGITS - fraction_text(fraction, width).len()) as nat,
        ) == fraction * pow10((FRACTION_DIGITS - width) as nat),
    decreases width,
{
    if width > 2 && fraction % 10 == 0 {
        let w = (width - 1) as nat;
        let p = pow10(w);
        assert(pow10(width) == 10 * p);
        assert(fraction / 10 < p);
        lemma_fraction_text(fraction / 10, w);
        let shift = pow10((FRACTION_DIGITS - width) as nat);
        assert(pow10((FRACTION_DIGITS - w) as nat) == 10 * shift);
        let tenth = fraction / 10;
        assert(fraction == 10 * tenth);
        assert(tenth * (10 * shift) == (10 * tenth) * shift) by (nonlinear_arith);
    } else {
        lemma_padded_text(fraction, width);
        vstd::arithmetic::div_mod::lemma_small_mod(fraction, pow10(width));
    }
}

/// What [`decimal_text`] writes, [`parse_units`] reads back as the same
/// value.
pub proof fn law_text_reads_back(units: nat)
    requires
        units <= MAX_UNITS,
    ensures
        parse_units(decimal_text(units)) == Some(units),
{
    let scale = SCALE as nat;
    let whole = number_text(units / scale);
    let fraction = fraction_text(units % scale, FRACTION_DIGITS as nat);
    let text = decimal_text(units);
    lemma_pow10_values();
    lemma_number_text(units / scale);
    lemma_fraction_text(units % scale, FRACTION_DIGITS as nat);
    assert(text =~= whole.push('.') + fraction);
    assert forall|j: int| 0 <= j < whole.len() implies #[trigger] text[j] != '.' by {
        assert(text[j] == whole[j]);
        assert(is_digit(whole[j]));
    }
    assert(text[whole.len() as int] == '.');
    lemma_position_of_is(text, '.', whole.len() as int);
    assert(text.subrange(0, whole.len() as int) =~= whole);
    assert(text.subrange(whole.len() as int + 1, text.len() as int) =~= fraction);
    let rest = units % scale;
    let one = pow10((FRACTION_DIGITS - FRACTION_DIGITS) as nat);
    assert(one == 1);
    assert(rest * one == rest) by (nonlinear_arith)
        requires
            one == 1,
    ;
    assert(digits_value(fraction) * pow10((FRACTION_DIGITS - fraction.len()) as nat) == rest);
    assert(digits_value(whole) == units / scale);
    vstd::arithmetic::div_mod::lemma_fundamental_div_mod(units as int, scale as int);
    assert(scale * (units / scale) == (units / scale) * scale) by (nonlinear_arith);
    assert(units_of(whole, fraction) == units);
}

/// Appends a number in base ten.
fn push_number(text: &mut String, n: u64)
    ensures
        final(text)@ == old(text)@ + number_text(n as nat),
    decreases n,
{
    if n >= 10 {
        push_number(text, n / 10);
    }
    let digit = (48 + (n % 10) as u8) as char;
    text.push(digit);
    proof {
        assert(text@ =~= old(text)@ + number_text(n as nat));
    }
}

/// Appends the last `width` digits of a number.
fn push_padded(text: &mut String, n: u64, width: usize)
    ensures
        final(text)@ == old(text)@ + padded_text(n as nat, width as nat),
    decreases width,
{
    if width > 0 {
        push_padded(text, n / 10, width - 1);
        let digit = (48 + (n % 10) as u8) as char;
        text.push(digit);
        proof {
            assert(text@ =~= old(text)@ + padded_text(n as nat, width as nat));
        }
    } else {
        proof {
            assert(text@ =~= old(text)@ + padded_text(n as nat, width as nat));
        }
    }
}

/// A non-negative decimal number with eight fractional digits, at most a
/// hundred million.
#[derive(Clone, Copy, Debug, PartialEq, Eq, Structural)]
pub struct Decimal {
    units: u64,
}

impl Decimal {
    #[verifier::type_invariant]
    spec fn within_range(self) -> bool {
        self.units <= MAX_UNITS
    }

    /// The value in hundred-millionths.
    pub closed spec fn units(self) -> nat {
        self.units as nat
    }

    /// Whether the value is one that a [`Decimal`] can hold; true of every
    /// value that executable code can reach.
    pub open spec fn wf(self) -> bool {
        self.units() <= MAX_UNITS
    }

    /// The value zero.
    pub fn zero() -> (d: Decimal)
        ensures
            d.units() == 0,
    {
        Decimal { units: 0 }
    }

    /// The value one.
    pub fn one() -> (d: Decimal)
        ensures
            d.units() == SCALE,
    {
        Decimal { units: SCALE }
    }

    /// The decimal that holds `units` hundred-millionths, if that is at most
    /// a hundred million.
    pub fn from_units(units: u64) -> (d: Option<Decimal>)
        ensures
            units <= MAX_UNITS ==> d is Some && d->0.units() == units,
            units > MAX_UNITS ==> d is None,
    {
        if units <= MAX_UNITS {
            Some(Decimal { units })
        } else {
            None
        }
    }

    /// Reads a decimal from text such as `45000`, `45000.50` or `0.995`.
    ///
    /// The result is `Some` exactly for the texts that [`parse_units`]
    /// accepts, and then holds the denoted value.
    pub fn parse(text: &str) -> (r: Option<Decimal>)
        ensures
            r is Some <==> parse_units(text@) is Some,
            r is Some ==> r->0.units() == parse_units(text@)->0,
    {
        broadcast use is_ascii_spec_bytes;

        let ghost s = text@;
        proof {
            lemma_position_of(s, '.');
            lemma_pow10_values();
        }
        let ghost d = dot_position(s);
        let ghost whole_part = s.subrange(0, d);
        let ghost fraction_part = if d < s.len() {
            s.subrange(d + 1, s.len() as int)
        } else {
            Seq::<char>::empty()
        };
        if !text.is_ascii() {
            proof {
                let i = choose|i: int| 0 <= i < s.len() && !('\0' <= #[trigger] s[i] <= '\u{7f}');
                if i < d {
                    assert(whole_part[i] == s[i]);
                } else {
                    assert(i > d);
                    assert(fraction_part[i - d - 1] == s[i]);
                }
            }
            return None;
        }
        let n = text.as_bytes().len();
        let dot = find_dot(text);
        if dot == 0 {
            return None;
        }
        let whole = match read_digits(text, 0, dot, MAX_WHOLE) {
            Some(w) => w,
            None => {
                proof {
                    if all_digits(whole_part) {
                        assert(digits_value(whole_part) * SCALE > MAX_UNITS) by (nonlinear_arith)
                            requires
                                digits_value(whole_part) > MAX_WHOLE,
                        ;
                    }
                }
                return None;
            },
        };
        let mut units: u64 = whole * SCALE;
        assert(units == digits_value(whole_part) * (SCALE as nat));
        if dot < n {
            let fraction_len = n - dot - 1;
            assert(fraction_part.len() == fraction_len);
            if fraction_len < 1 || fraction_len > FRACTION_DIGITS {
                return None;
            }
            let fraction = match read_digits(text, dot + 1, n, 99_999_999) {
                Some(f) => f,
                None => {
                    proof {
                        if all_digits(fraction_part) {
                            lemma_digits_bound(fraction_part);
                            lemma_pow10_monotone(fraction_part.len(), 8);
                        }
                    }
                    return None;
                },
            };
            let shift = power_of_ten(FRACTION_DIGITS - fraction_len);
            proof {
                lemma_digits_bound(fraction_part);
                lemma_pow10_monotone((FRACTION_DIGITS - fraction_len) as nat, 8);
                lemma_pow10_sum(fraction_len as nat, (FRACTION_DIGITS - fraction_len) as nat);
                assert(fraction * shift < pow10(8)) by (nonlinear_arith)
                    requires
                        fraction < pow10(fraction_len as nat),
                        shift == pow10((FRACTION_DIGITS - fraction_len) as nat),
                        pow10(fraction_len as nat) * pow10(
                            (FRACTION_DIGITS - fraction_len) as nat,
                        ) == pow10(8),
                        shift >= 1,
                ;
            }
            units = units + fraction * shift;
            assert(units == units_of(whole_part, fraction_part));
        } else {
            assert(fraction_part.len() == 0);
            assert(digits_value(fraction_part) == 0);
            assert(0 * pow10((FRACTION_DIGITS - 0) as nat) == 0);
            assert(units == units_of(whole_part, fraction_part));
        }
        if units > MAX_UNITS {
            return None;
        }
        Some(Decimal { units })
    }

    /// Appends the decimal to a text, written as [`decimal_text`] says.
    pub fn write_to(&self, text: &mut String)
        ensures
            final(text)@ == old(text)@ + decimal_text(self.units()),
    {
        proof {
            use_type_invariant(self);
        }
        let whole = self.units / SCALE;
        let mut fraction = self.units % SCALE;
        let mut width: usize = FRACTION_DIGITS;
        push_number(text, whole);
        text.push('.');
        while width > 2 && fraction % 10 == 0
            invariant
                2 <= width <= FRACTION_DIGITS,
                fraction_text(fraction as nat, width as nat) == fraction_text(
                    (self.units % SCALE) as nat,
                    FRACTION_DIGITS as nat,
                ),
            decreases width,
        {
            fraction = fraction / 10;
            width = width - 1;
        }
        push_padded(text, fraction, width);
        proof {
            assert(text@ =~= old(text)@ + decimal_text(self.units()));
        }
    }

    /// The decimal as text, written as [`decimal_text`] says.
    pub fn to_text(&self) -> (text: String)
        ensures
            text@ == decimal_text(self.units()),
    {
        let mut text = String::new();
        self.write_to(&mut text);
        proof {
            assert(Seq::<char>::empty() + decimal_text(self.units()) =~= decimal_text(
                self.units(),
            ));
        }
        text
    }

    /// A hundred times the value, if that is at most a hundred million.
    pub fn hundredfold(&self) -> (r: Option<Decimal>)
        ensures
            100 * self.units() <= MAX_UNITS ==> r is Some && r->0.units() == 100 * self.units(),
            100 * self.units() > MAX_UNITS ==> r is None,
    {
        proof {
            use_type_invariant(self);
        }
        let units = self.units * 100;
        if units <= MAX_UNITS {
            Some(Decimal { units })
        } else {
            None
        }
    }

    /// The value in hundred-millionths.
    pub fn to_units(&self) -> (units: u64)
        ensures
            units == self.units(),
            units <= MAX_UNITS,
    {
        proof {
            use_type_invariant(self);
        }
        self.units
    }
}

} // verus!
