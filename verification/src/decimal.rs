//! Non-negative fixed-point amounts with ten fractional digits, the range of
//! PostgreSQL `numeric(20, 10)`.

use vstd::prelude::*;

use crate::text::{chars_of, push_char};

verus! {

/// Ten fractional digits: one unit of `Decimal` is `1 / DECIMAL_SCALE`.
pub const DECIMAL_SCALE: u128 = 10_000_000_000;

/// The largest amount the database column can hold, in scaled units.
pub const MAX_SCALED_DECIMAL: u128 = 99_999_999_999_999_999_999;

#[derive(Debug, Clone, Copy, PartialEq, Eq, Structural)]
pub enum MeteringError {
    InvalidDecimal,
}

/// A non-negative amount, held as an integer count of `1 / DECIMAL_SCALE` units.
#[derive(Debug, Clone, Copy, PartialEq, Eq, Structural, PartialOrd, Ord, Hash)]
pub struct Decimal {
    pub(crate) scaled: u128,
}

/// The ASCII digit for `d` (meaningful for `d < 10`).
pub open spec fn digit_char(d: nat) -> char {
    ((d + 48) as u8) as char
}

/// The value of an ASCII digit character.
pub open spec fn digit_value(c: char) -> nat {
    ((c as u32) - 48) as nat
}

pub open spec fn is_digit(c: char) -> bool {
    '0' <= c && c <= '9'
}

pub open spec fn all_digits(s: Seq<char>) -> bool {
    forall|i: int| 0 <= i < s.len() ==> is_digit(#[trigger] s[i])
}

pub open spec fn pow10(n: nat) -> nat
    decreases n,
{
    if n == 0 {
        1
    } else {
        10 * pow10((n - 1) as nat)
    }
}

/// Decimal notation of `n` without leading zeros (`"0"` for zero).
pub open spec fn decimal_digits(n: nat) -> Seq<char>
    decreases n,
{
    if n < 10 {
        seq![digit_char(n)]
    } else {
        decimal_digits(n / 10).push(digit_char(n % 10))
    }
}

/// The last `width` decimal digits of `n`, left-padded with zeros.
pub open spec fn padded_digits(n: nat, width: nat) -> Seq<char>
    decreases width,
{
    if width == 0 {
        seq![]
    } else {
        padded_digits(n / 10, (width - 1) as nat).push(digit_char(n % 10))
    }
}

/// `s` without its trailing `'0'` characters.
pub open spec fn trim_trailing_zeros(s: Seq<char>) -> Seq<char>
    decreases s.len(),
{
    if s.len() > 0 && s.last() == '0' {
        trim_trailing_zeros(s.drop_last())
    } else {
        s
    }
}

/// The value of a string of decimal digits.
pub open spec fn digits_value(s: Seq<char>) -> nat
    decreases s.len(),
{
    if s.len() == 0 {
        0
    } else {
        digits_value(s.drop_last()) * 10 + digit_value(s.last())
    }
}

/// Canonical text of an amount of `v` scaled units: the integer part, then,
/// when the fraction is non-zero, a point and the fraction without trailing zeros.
pub open spec fn canonical_text(v: nat) -> Seq<char> {
    let integer = v / (DECIMAL_SCALE as nat);
    let fraction = v % (DECIMAL_SCALE as nat);
    if fraction == 0 {
        decimal_digits(integer)
    } else {
        decimal_digits(integer) + seq!['.'] + trim_trailing_zeros(padded_digits(fraction, 10))
    }
}

/// Display text of an amount: integer part, a point, and all ten fractional digits.
pub open spec fn fixed_text(v: nat) -> Seq<char> {
    decimal_digits(v / (DECIMAL_SCALE as nat)) + seq!['.'] + padded_digits(
        v % (DECIMAL_SCALE as nat),
        10,
    )
}

/// Index of the first `'.'` in `s`, or `s.len()` when there is none.
pub open spec fn dot_index(s: Seq<char>) -> nat
    decreases s.len(),
{
    if s.len() == 0 {
        0
    } else if s[0] == '.' {
        0
    } else {
        1 + dot_index(s.drop_first())
    }
}

/// The accepted text of an amount: one to ten digits, optionally followed by
/// a point and at most ten more digits; its value in scaled units.
pub open spec fn parse_decimal_text(s: Seq<char>) -> Option<nat> {
    let k = dot_index(s);
    let integer = s.take(k as int);
    let fraction = if k < s.len() {
        s.skip(k + 1int)
    } else {
        Seq::<char>::empty()
    };
    if 1 <= integer.len() <= 10 && all_digits(integer) && fraction.len() <= 10 && all_digits(
        fraction,
    ) {
        Some(
            digits_value(integer) * (DECIMAL_SCALE as nat) + digits_value(fraction) * pow10(
                (10 - fraction.len()) as nat,
            ),
        )
    } else {
        None
    }
}

impl View for Decimal {
    type V = nat;

    closed spec fn view(&self) -> nat {
        self.scaled as nat
    }
}

impl Default for Decimal {
    fn default() -> (d: Decimal)
        ensures
            d@ == 0,
    {
        Decimal { scaled: 0 }
    }
}

impl Decimal {
    #[verifier::type_invariant]
    pub(crate) open spec fn in_range(self) -> bool {
        self.scaled <= MAX_SCALED_DECIMAL
    }

    /// The amount zero.
    pub fn zero() -> (d: Decimal)
        ensures
            d@ == 0,
    {
        Decimal { scaled: 0 }
    }

    /// The largest amount the database can hold.
    pub fn max_value() -> (d: Decimal)
        ensures
            d@ == MAX_SCALED_DECIMAL,
    {
        Decimal { scaled: MAX_SCALED_DECIMAL }
    }

    /// Builds an amount from a count of scaled units.
    pub fn from_scaled(value: u128) -> (r: Result<Decimal, MeteringError>)
        ensures
            r is Ok <==> value <= MAX_SCALED_DECIMAL,
            r matches Ok(d) ==> d@ == value,
    {
        if value > MAX_SCALED_DECIMAL {
            return Err(MeteringError::InvalidDecimal);
        }
        Ok(Decimal { scaled: value })
    }

    pub fn scaled(self) -> (v: u128)
        ensures
            v == self@,
            v <= MAX_SCALED_DECIMAL,
    {
        proof {
            use_type_invariant(&self);
        }
        self.scaled
    }
}

/// Ten fraction digits: the scale is ten to the tenth.
pub proof fn lemma_pow10_scale()
    ensures
        pow10(10) == DECIMAL_SCALE,
        pow10(1) == 10,
{
    reveal_with_fuel(pow10, 11);
}

/// Powers of ten are positive.
pub proof fn lemma_pow10_positive(n: nat)
    ensures
        pow10(n) >= 1,
    decreases n,
{
    if n > 0 {
        lemma_pow10_positive((n - 1) as nat);
    }
}

/// Powers of ten multiply by adding exponents.
pub proof fn lemma_pow10_add(a: nat, b: nat)
    ensures
        pow10(a) * pow10(b) == pow10(a + b),
    decreases a,
{
    if a > 0 {
        let c = (a - 1) as nat;
        lemma_pow10_add(c, b);
        assert(pow10(c + b + 1) == 10 * pow10(c + b));
        assert(a + b == c + b + 1);
        assert(pow10(a) == 10 * pow10(c));
        assert(pow10(a) * pow10(b) == 10 * (pow10(c) * pow10(b))) by (nonlinear_arith)
            requires
                pow10(a) == 10 * pow10(c),
        ;
        assert(pow10(a) * pow10(b) == pow10(a + b));
    } else {
        assert(pow10(0) == 1);
        assert(1 * pow10(b) == pow10(b));
    }
}

/// Powers of ten grow with the exponent.
pub proof fn lemma_pow10_monotone(a: nat, b: nat)
    requires
        a <= b,
    ensures
        pow10(a) <= pow10(b),
    decreases b,
{
    if a < b {
        lemma_pow10_monotone(a, (b - 1) as nat);
        lemma_pow10_positive((b - 1) as nat);
    }
}

/// A string of `k` digits denotes a number below `10^k`.
pub proof fn lemma_digits_value_bound(s: Seq<char>)
    requires
        all_digits(s),
    ensures
        digits_value(s) < pow10(s.len()),
    decreases s.len(),
{
    if s.len() > 0 {
        let p = s.drop_last();
        assert(all_digits(p)) by {
            assert forall|i: int| 0 <= i < p.len() implies is_digit(#[trigger] p[i]) by {
                assert(p[i] == s[i]);
            }
        }
        lemma_digits_value_bound(p);
        assert(is_digit(s[s.len() - 1]));
        assert(digit_value(s.last()) <= 9);
        assert(pow10(s.len()) == 10 * pow10(p.len()));
        assert(digits_value(p) * 10 + digit_value(s.last()) < 10 * pow10(p.len())) by (nonlinear_arith)
            requires
                digits_value(p) < pow10(p.len()),
                digit_value(s.last()) <= 9,
        ;
    }
}

/// A digit's character reads back as the digit; only zero gives `'0'`.
pub proof fn lemma_digit_char_zero(d: nat)
    requires
        d < 10,
    ensures
        (digit_char(d) == '0') <==> d == 0,
        is_digit(digit_char(d)),
        digit_value(digit_char(d)) == d,
{
}

proof fn lemma_trim_padded_step(f: nat, w: nat)
    requires
        w >= 1,
        f % 10 == 0,
    ensures
        trim_trailing_zeros(padded_digits(f, w)) == trim_trailing_zeros(
            padded_digits(f / 10, (w - 1) as nat),
        ),
{
    lemma_digit_char_zero(0);
    let s = padded_digits(f / 10, (w - 1) as nat);
    assert(padded_digits(f, w) == s.push('0'));
    assert(s.push('0').drop_last() == s);
}

proof fn lemma_trim_padded_stop(f: nat, w: nat)
    requires
        w >= 1,
        f % 10 != 0,
    ensures
        trim_trailing_zeros(padded_digits(f, w)) == padded_digits(f, w),
{
    lemma_digit_char_zero(f % 10);
    let s = padded_digits(f / 10, (w - 1) as nat);
    assert(padded_digits(f, w) == s.push(digit_char(f % 10)));
}

proof fn lemma_dot_index(s: Seq<char>, k: nat)
    requires
        k <= s.len(),
        forall|j: int| 0 <= j < k ==> s[j] != '.',
        k == s.len() || s[k as int] == '.',
    ensures
        dot_index(s) == k,
    decreases k,
{
    if k > 0 {
        let t = s.drop_first();
        assert forall|j: int| 0 <= j < k - 1 implies t[j] != '.' by {
            assert(t[j] == s[j + 1]);
        }
        if (k as int) < s.len() {
            assert(t[k - 1] == s[k as int]);
        }
        lemma_dot_index(t, (k - 1) as nat);
        assert(s[0] != '.');
    }
}

proof fn lemma_decimal_digits(n: nat, k: nat)
    requires
        n < pow10(k),
        k >= 1,
    ensures
        all_digits(decimal_digits(n)),
        digits_value(decimal_digits(n)) == n,
        1 <= decimal_digits(n).len() <= k,
    decreases n,
{
    let s = decimal_digits(n);
    lemma_digit_char_zero(n % 10);
    if n < 10 {
        assert(s.drop_last() == Seq::<char>::empty());
        assert(s.last() == digit_char(n));
        assert(digits_value(Seq::<char>::empty()) == 0);
        assert(digits_value(s) == digits_value(s.drop_last()) * 10 + digit_value(s.last()));
    } else {
        assert(pow10(k) == 10 * pow10((k - 1) as nat));
        assert(k >= 2) by {
            if k == 1 {
                assert(pow10(0) == 1);
            }
        }
        lemma_decimal_digits(n / 10, (k - 1) as nat);
        let p = decimal_digits(n / 10);
        assert(s.drop_last() == p);
        assert(s.last() == digit_char(n % 10));
        assert(digits_value(s) == digits_value(p) * 10 + digit_value(s.last()));
        assert forall|i: int| 0 <= i < s.len() implies is_digit(#[trigger] s[i]) by {
            if i < p.len() {
                assert(s[i] == p[i]);
            }
        }
    }
}

proof fn lemma_padded_digits(n: nat, w: nat)
    requires
        n < pow10(w),
    ensures
        all_digits(padded_digits(n, w)),
        digits_value(padded_digits(n, w)) == n,
        padded_digits(n, w).len() == w,
    decreases w,
{
    let s = padded_digits(n, w);
    if w == 0 {
        assert(pow10(0) == 1);
    } else {
        lemma_digit_char_zero(n % 10);
        assert(pow10(w) == 10 * pow10((w - 1) as nat));
        lemma_padded_digits(n / 10, (w - 1) as nat);
        let p = padded_digits(n / 10, (w - 1) as nat);
        assert(s.drop_last() == p);
        assert forall|i: int| 0 <= i < s.len() implies is_digit(#[trigger] s[i]) by {
            if i < p.len() {
                assert(s[i] == p[i]);
            }
        }
    }
}

proof fn lemma_trim_zeros_value(s: Seq<char>)
    requires
        all_digits(s),
    ensures
        trim_trailing_zeros(s).len() <= s.len(),
        trim_trailing_zeros(s) == s.take(trim_trailing_zeros(s).len() as int),
        digits_value(trim_trailing_zeros(s)) * pow10(
            (s.len() - trim_trailing_zeros(s).len()) as nat,
        ) == digits_value(s),
    decreases s.len(),
{
    let t = trim_trailing_zeros(s);
    if s.len() > 0 && s.last() == '0' {
        let p = s.drop_last();
        assert(all_digits(p)) by {
            assert forall|i: int| 0 <= i < p.len() implies is_digit(#[trigger] p[i]) by {
                assert(p[i] == s[i]);
            }
        }
        lemma_trim_zeros_value(p);
        assert(t == trim_trailing_zeros(p));
        assert(p.take(t.len() as int) == s.take(t.len() as int));
        let e = (p.len() - t.len()) as nat;
        assert((s.len() - t.len()) as nat == e + 1);
        assert(pow10(e + 1) == 10 * pow10(e));
        assert(digit_value(s.last()) == 0);
        assert(digits_value(s) == digits_value(p) * 10);
        assert(digits_value(t) * pow10(e + 1) == 10 * (digits_value(t) * pow10(e)))
            by (nonlinear_arith)
            requires
                pow10(e + 1) == 10 * pow10(e),
        ;
        assert(digits_value(t) * pow10(e) == digits_value(p));
        assert(digits_value(t) * pow10(e + 1) == digits_value(s));
    } else {
        assert(s.take(s.len() as int) == s);
        assert(pow10(0) == 1);
        assert((s.len() - t.len()) as nat == 0);
        assert(digits_value(s) * 1 == digits_value(s));
    }
}

proof fn lemma_all_digits_no_dot(s: Seq<char>)
    requires
        all_digits(s),
    ensures
        dot_index(s) == s.len(),
{
    assert forall|j: int| 0 <= j < s.len() implies s[j] != '.' by {
        assert(is_digit(s[j]));
    }
    lemma_dot_index(s, s.len());
}

/// Reading back the canonical text of an amount gives the same amount.
pub proof fn lemma_canonical_round_trip(v: nat)
    requires
        v <= MAX_SCALED_DECIMAL,
    ensures
        parse_decimal_text(canonical_text(v)) == Some(v),
{
    lemma_pow10_scale();
    let scale = DECIMAL_SCALE as nat;
    let integer = v / scale;
    let fraction = v % scale;
    assert(integer < pow10(10)) by (nonlinear_arith)
        requires
            v <= MAX_SCALED_DECIMAL,
            integer == v / scale,
            scale == DECIMAL_SCALE,
            pow10(10) == DECIMAL_SCALE,
    ;
    lemma_decimal_digits(integer, 10);
    let d = decimal_digits(integer);
    lemma_all_digits_no_dot(d);
    assert(v == integer * scale + fraction);
    let s = canonical_text(v);
    if fraction == 0 {
        assert(s == d);
        assert(s.take(d.len() as int) == d);
        assert(digits_value(Seq::<char>::empty()) == 0);
        assert(pow10(10) == DECIMAL_SCALE);
    } else {
        lemma_padded_digits(fraction, 10);
        let p = padded_digits(fraction, 10);
        lemma_trim_zeros_value(p);
        let tz = trim_trailing_zeros(p);
        assert(s == d + seq!['.'] + tz);
        assert forall|j: int| 0 <= j < d.len() implies s[j] != '.' by {
            assert(s[j] == d[j]);
            assert(is_digit(d[j]));
        }
        assert(s[d.len() as int] == '.');
        lemma_dot_index(s, d.len());
        assert(s.take(d.len() as int) == d);
        assert(s.skip(d.len() + 1int) == tz);
        assert(all_digits(tz)) by {
            assert forall|j: int| 0 <= j < tz.len() implies is_digit(#[trigger] tz[j]) by {
                assert(tz[j] == p[j]);
            }
        }
    }
}

/// Reading back the display text of an amount, with all ten fractional digits,
/// gives the same amount.
pub proof fn lemma_fixed_round_trip(v: nat)
    requires
        v <= MAX_SCALED_DECIMAL,
    ensures
        parse_decimal_text(fixed_text(v)) == Some(v),
{
    lemma_pow10_scale();
    let scale = DECIMAL_SCALE as nat;
    let integer = v / scale;
    let fraction = v % scale;
    assert(integer < pow10(10)) by (nonlinear_arith)
        requires
            v <= MAX_SCALED_DECIMAL,
            integer == v / scale,
            scale == DECIMAL_SCALE,
            pow10(10) == DECIMAL_SCALE,
    ;
    lemma_decimal_digits(integer, 10);
    let d = decimal_digits(integer);
    assert(v == integer * scale + fraction);
    lemma_padded_digits(fraction, 10);
    let p = padded_digits(fraction, 10);
    let s = fixed_text(v);
    assert(s == d + seq!['.'] + p);
    assert forall|j: int| 0 <= j < d.len() implies s[j] != '.' by {
        assert(s[j] == d[j]);
        assert(is_digit(d[j]));
    }
    assert(s[d.len() as int] == '.');
    lemma_dot_index(s, d.len());
    assert(s.take(d.len() as int) == d);
    assert(s.skip(d.len() + 1int) == p);
    assert(pow10(0) == 1);
    assert(digits_value(p) * pow10(0) == digits_value(p));
}

/// Decimal notation is made of digits and reads back as the number it writes.
pub proof fn lemma_decimal_digits_value(n: nat)
    ensures
        all_digits(decimal_digits(n)),
        digits_value(decimal_digits(n)) == n,
        decimal_digits(n).len() >= 1,
    decreases n,
{
    let s = decimal_digits(n);
    lemma_digit_char_zero(n % 10);
    if n < 10 {
        assert(s.drop_last() == Seq::<char>::empty());
        assert(digits_value(Seq::<char>::empty()) == 0);
        assert(digits_value(s) == digits_value(s.drop_last()) * 10 + digit_value(s.last()));
    } else {
        lemma_decimal_digits_value(n / 10);
        let p = decimal_digits(n / 10);
        assert(s.drop_last() == p);
        assert(digits_value(s) == digits_value(p) * 10 + digit_value(s.last()));
        assert forall|i: int| 0 <= i < s.len() implies is_digit(#[trigger] s[i]) by {
            if i < p.len() {
                assert(s[i] == p[i]);
            }
        }
    }
}

/// Two numbers with the same decimal notation are equal.
pub proof fn lemma_decimal_digits_injective(a: nat, b: nat)
    requires
        decimal_digits(a) == decimal_digits(b),
    ensures
        a == b,
{
    lemma_decimal_digits_value(a);
    lemma_decimal_digits_value(b);
}

/// Decimal notation of an unsigned integer, without leading zeros.
pub fn u64_text(v: u64) -> (s: String)
    ensures
        s@ == decimal_digits(v as nat),
{
    let mut s = String::new();
    push_decimal_digits(&mut s, v as u128);
    s
}

fn digit_char_of(d: u128) -> (c: char)
    requires
        d < 10,
    ensures
        c == digit_char(d as nat),
{
    let b: u8 = (d as u8) + 48;
    b as char
}

/// Appends the decimal notation of `n`.
pub(crate) fn push_decimal_digits(s: &mut String, n: u128)
    ensures
        final(s)@ == old(s)@ + decimal_digits(n as nat),
    decreases n,
{
    if n >= 10 {
        push_decimal_digits(s, n / 10);
    }
    push_char(s, digit_char_of(n % 10));
    proof {
        if n >= 10 {
            assert(old(s)@ + decimal_digits((n / 10) as nat) + seq![digit_char((n % 10) as nat)]
                == old(s)@ + decimal_digits((n / 10) as nat).push(digit_char((n % 10) as nat)));
        }
    }
}

/// Appends the last `width` digits of `n`, left-padded with zeros.
fn push_padded_digits(s: &mut String, n: u128, width: u32)
    ensures
        final(s)@ == old(s)@ + padded_digits(n as nat, width as nat),
    decreases width,
{
    if width == 0 {
        assert(old(s)@ + padded_digits(n as nat, 0) == old(s)@);
        return ;
    }
    push_padded_digits(s, n / 10, width - 1);
    push_char(s, digit_char_of(n % 10));
    assert(old(s)@ + padded_digits((n / 10) as nat, (width - 1) as nat) + seq![
        digit_char((n % 10) as nat),
    ] == old(s)@ + padded_digits((n / 10) as nat, (width - 1) as nat).push(
        digit_char((n % 10) as nat),
    ));
}

/// The value of the digits `chars[lo..hi]`.
fn digits_value_of(chars: &Vec<char>, lo: usize, hi: usize) -> (r: u128)
    requires
        lo <= hi <= chars.len(),
        hi - lo <= 10,
        all_digits(chars@.subrange(lo as int, hi as int)),
    ensures
        r == digits_value(chars@.subrange(lo as int, hi as int)),
        r < pow10((hi - lo) as nat),
{
    let mut acc: u128 = 0;
    let mut i: usize = lo;
    proof {
        lemma_pow10_scale();
        lemma_pow10_monotone((hi - lo) as nat, 10);
    }
    while i < hi
        invariant
            lo <= i <= hi <= chars.len(),
            hi - lo <= 10,
            all_digits(chars@.subrange(lo as int, hi as int)),
            acc == digits_value(chars@.subrange(lo as int, i as int)),
            pow10((hi - lo) as nat) <= DECIMAL_SCALE,
        decreases hi - i,
    {
        let ghost prefix = chars@.subrange(lo as int, i as int);
        assert(all_digits(prefix)) by {
            assert forall|j: int| 0 <= j < prefix.len() implies is_digit(#[trigger] prefix[j]) by {
                assert(prefix[j] == chars@.subrange(lo as int, hi as int)[j]);
            }
        }
        proof {
            lemma_digits_value_bound(prefix);
            lemma_pow10_monotone(prefix.len(), (hi - lo) as nat);
        }
        assert(is_digit(chars@.subrange(lo as int, hi as int)[i - lo]));
        let c = chars[i];
        let d: u128 = ((c as u32) - 48) as u128;
        acc = acc * 10 + d;
        i = i + 1;
        assert(chars@.subrange(lo as int, i as int).drop_last() == prefix);
    }
    proof {
        let whole = chars@.subrange(lo as int, hi as int);
        lemma_digits_value_bound(whole);
    }
    acc
}

impl Decimal {
    /// Whole-amount subtraction that stops at zero.
    pub fn saturating_sub(self, other: Decimal) -> (r: Decimal)
        ensures
            r@ == if self@ >= other@ {
                self@ - other@
            } else {
                0
            },
    {
        proof {
            use_type_invariant(&self);
        }
        if self.scaled >= other.scaled {
            Decimal { scaled: self.scaled - other.scaled }
        } else {
            Decimal { scaled: 0 }
        }
    }

    /// Sum, or `None` when it exceeds the database range.
    pub fn checked_add(self, other: Decimal) -> (r: Option<Decimal>)
        ensures
            r is Some <==> self@ + other@ <= MAX_SCALED_DECIMAL,
            r matches Some(d) ==> d@ == self@ + other@,
    {
        proof {
            use_type_invariant(&self);
            use_type_invariant(&other);
        }
        let sum = self.scaled + other.scaled;
        if sum <= MAX_SCALED_DECIMAL {
            Some(Decimal { scaled: sum })
        } else {
            None
        }
    }

    /// Product at the database scale, truncated to ten fractional digits;
    /// `None` when it exceeds the database range.
    pub fn checked_mul(self, other: Decimal) -> (r: Option<Decimal>)
        ensures
            r is Some <==> (self@ * other@) / (DECIMAL_SCALE as nat) <= MAX_SCALED_DECIMAL,
            r matches Some(d) ==> d@ == (self@ * other@) / (DECIMAL_SCALE as nat),
    {
        proof {
            use_type_invariant(&self);
            use_type_invariant(&other);
        }
        let a = self.scaled;
        let b = other.scaled;
        match a.checked_mul(b) {
            Some(product) => {
                let value = product / DECIMAL_SCALE;
                if value <= MAX_SCALED_DECIMAL {
                    Some(Decimal { scaled: value })
                } else {
                    None
                }
            },
            None => {
                assert((a as nat * b as nat) / (DECIMAL_SCALE as nat) > MAX_SCALED_DECIMAL)
                    by (nonlinear_arith)
                    requires
                        a as nat * b as nat > u128::MAX,
                ;
                None
            },
        }
    }

    /// Quotient by a whole number, truncated to ten fractional digits;
    /// `None` for a zero divisor.
    pub fn checked_div_u64(self, divisor: u64) -> (r: Option<Decimal>)
        ensures
            r is Some <==> divisor != 0,
            r matches Some(d) ==> d@ == self@ / (divisor as nat),
    {
        proof {
            use_type_invariant(&self);
        }
        if divisor == 0 {
            return None;
        }
        let value = self.scaled / (divisor as u128);
        assert(value <= self.scaled) by (nonlinear_arith)
            requires
                value == self.scaled / (divisor as u128),
                divisor >= 1,
        ;
        Some(Decimal { scaled: value })
    }

    /// Canonical wire text: no trailing fractional zeros, no point for whole amounts.
    pub fn canonical(self) -> (s: String)
        ensures
            s@ == canonical_text(self@),
    {
        proof {
            use_type_invariant(&self);
            lemma_pow10_scale();
        }
        let integer = self.scaled / DECIMAL_SCALE;
        let fraction = self.scaled % DECIMAL_SCALE;
        let mut s = String::new();
        push_decimal_digits(&mut s, integer);
        if fraction != 0 {
            push_char(&mut s, '.');
            let mut f = fraction;
            let mut w: u32 = 10;
            while f % 10 == 0
                invariant
                    1 <= w <= 10,
                    0 < f < pow10(w as nat),
                    trim_trailing_zeros(padded_digits(fraction as nat, 10)) == trim_trailing_zeros(
                        padded_digits(f as nat, w as nat),
                    ),
                decreases w,
            {
                proof {
                    lemma_trim_padded_step(f as nat, w as nat);
                    assert(pow10(w as nat) == 10 * pow10((w - 1) as nat));
                    if w == 1 {
                        assert(pow10(0) == 1);
                    }
                }
                f = f / 10;
                w = w - 1;
            }
            proof {
                lemma_trim_padded_stop(f as nat, w as nat);
            }
            push_padded_digits(&mut s, f, w);
            assert(decimal_digits(integer as nat) + seq!['.'] + padded_digits(f as nat, w as nat)
                == canonical_text(self@));
        }
        s
    }

    /// Display text: integer part, a point and all ten fractional digits.
    pub fn to_fixed_string(self) -> (s: String)
        ensures
            s@ == fixed_text(self@),
    {
        proof {
            use_type_invariant(&self);
        }
        let mut s = String::new();
        push_decimal_digits(&mut s, self.scaled / DECIMAL_SCALE);
        push_char(&mut s, '.');
        push_padded_digits(&mut s, self.scaled % DECIMAL_SCALE, 10);
        s
    }

    /// Parses the text of a non-negative amount (the `FromStr` form).
    pub fn parse(value: &str) -> (r: Result<Decimal, MeteringError>)
        ensures
            r is Ok <==> parse_decimal_text(value@) is Some,
            r matches Ok(d) ==> parse_decimal_text(value@) == Some(d@),
    {
        let chars = chars_of(value);
        let n = chars.len();
        let mut k: usize = 0;
        while k < n && chars[k] != '.'
            invariant
                k <= n,
                n == chars@.len(),
                forall|j: int| 0 <= j < k ==> chars@[j] != '.',
            decreases n - k,
        {
            k = k + 1;
        }
        proof {
            lemma_dot_index(chars@, k as nat);
        }
        let frac_start = if k < n {
            k + 1
        } else {
            n
        };
        let ghost integer = chars@.take(k as int);
        let ghost fraction = if k < n {
            chars@.skip(k + 1)
        } else {
            Seq::<char>::empty()
        };
        assert(integer == chars@.subrange(0, k as int));
        assert(fraction == chars@.subrange(frac_start as int, n as int));
        assert(integer.len() == k);
        assert(fraction.len() == n - frac_start);
        assert(value@ == chars@);
        if k == 0 || k > 10 || n - frac_start > 10 {
            assert(parse_decimal_text(value@) is None);
            return Err(MeteringError::InvalidDecimal);
        }
        let mut i: usize = 0;
        while i < n
            invariant
                i <= n,
                n == chars@.len(),
                k <= n,
                frac_start <= n,
                frac_start == k || frac_start == k + 1,
                k < n ==> frac_start == k + 1,
                value@ == chars@,
                dot_index(chars@) == k,
                integer == chars@.take(k as int),
                fraction == (if k < n {
                    chars@.skip(k + 1)
                } else {
                    Seq::<char>::empty()
                }),
                integer == chars@.subrange(0, k as int),
                fraction == chars@.subrange(frac_start as int, n as int),
                forall|j: int| 0 <= j < i && j != k ==> is_digit(#[trigger] chars@[j]),
            decreases n - i,
        {
            if i != k && !('0' <= chars[i] && chars[i] <= '9') {
                proof {
                    if i < k {
                        assert(!is_digit(integer[i as int]));
                        assert(!all_digits(integer));
                    } else {
                        assert(!is_digit(fraction[i - frac_start]));
                        assert(!all_digits(fraction));
                    }
                    assert(parse_decimal_text(value@) is None);
                }
                return Err(MeteringError::InvalidDecimal);
            }
            i = i + 1;
        }
        assert(all_digits(integer)) by {
            assert forall|j: int| 0 <= j < integer.len() implies is_digit(#[trigger] integer[j]) by {
                assert(integer[j] == chars@[j]);
            }
        }
        assert(all_digits(fraction)) by {
            assert forall|j: int| 0 <= j < fraction.len() implies is_digit(#[trigger] fraction[j]) by {
                assert(fraction[j] == chars@[j + frac_start]);
            }
        }
        let whole = digits_value_of(&chars, 0, k);
        let frac = digits_value_of(&chars, frac_start, n);
        let frac_len = n - frac_start;
        let mut multiplier: u128 = 1;
        let mut j: usize = 0;
        while j < 10 - frac_len
            invariant
                j <= 10 - frac_len,
                frac_len <= 10,
                multiplier == pow10(j as nat),
            decreases 10 - frac_len - j,
        {
            proof {
                lemma_pow10_monotone(j as nat, 10);
                lemma_pow10_scale();
            }
            multiplier = multiplier * 10;
            j = j + 1;
        }
        proof {
            lemma_pow10_scale();
            lemma_pow10_monotone(k as nat, 10);
            lemma_pow10_add(frac_len as nat, (10 - frac_len) as nat);
            assert(frac * multiplier < DECIMAL_SCALE) by (nonlinear_arith)
                requires
                    frac < pow10(frac_len as nat),
                    multiplier == pow10((10 - frac_len) as nat),
                    pow10(frac_len as nat) * pow10((10 - frac_len) as nat) == DECIMAL_SCALE,
            ;
            assert(whole * DECIMAL_SCALE + frac * multiplier <= MAX_SCALED_DECIMAL) by (nonlinear_arith)
                requires
                    whole < DECIMAL_SCALE,
                    frac * multiplier < DECIMAL_SCALE,
            ;
        }
        Ok(Decimal { scaled: whole * DECIMAL_SCALE + frac * multiplier })
    }
}

} // verus!
