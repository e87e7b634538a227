//! Exact fixed-point amounts.
//!
//! An [`Amount`] is `mantissa × 10^-scale`, with the same range as a 96-bit
//! decimal: `|mantissa| < 2^96` and `scale <= 28`. Its mathematical value is
//! modelled as a whole number of `10^-28` units, so every exact operation is
//! stated as integer arithmetic on [`Amount::value`].

use vstd::prelude::*;

verus! {

/// Largest number of fractional digits an amount can carry.
pub const MAX_SCALE: u32 = 28;

/// Largest magnitude of a mantissa (`2^96 - 1`).
pub const MAX_MANTISSA: i128 = 79228162514264337593543950335;

/// Ten to the power `n`.
pub open spec fn pow10(n: nat) -> int
    decreases n,
{
    if n == 0 {
        1
    } else {
        10 * pow10((n - 1) as nat)
    }
}

pub proof fn lemma_pow10_pos(n: nat)
    ensures
        pow10(n) > 0,
    decreases n,
{
    if n > 0 {
        lemma_pow10_pos((n - 1) as nat);
    }
}

pub proof fn lemma_pow10_add(m: nat, n: nat)
    ensures
        pow10(m + n) == pow10(m) * pow10(n),
    decreases n,
{
    if n > 0 {
        lemma_pow10_add(m, (n - 1) as nat);
        assert(pow10(m + n) == 10 * pow10((m + n - 1) as nat));
        assert(pow10(m) * pow10(n) == pow10(m) * (10 * pow10((n - 1) as nat)));
        assert(pow10(m) * (10 * pow10((n - 1) as nat)) == 10 * (pow10(m) * pow10(
            (n - 1) as nat,
        ))) by (nonlinear_arith);
    }
}

pub proof fn lemma_pow10_mono(m: nat, n: nat)
    requires
        m <= n,
    ensures
        pow10(m) <= pow10(n),
    decreases n,
{
    lemma_pow10_pos(n);
    if m < n {
        lemma_pow10_mono(m, (n - 1) as nat);
        lemma_pow10_pos((n - 1) as nat);
    }
}

proof fn lemma_pow10_28()
    ensures
        pow10(28) == 10000000000000000000000000000,
{
    reveal_with_fuel(pow10, 29);
}

/// Sign of an integer: -1, 0 or 1.
pub open spec fn sign(x: int) -> int {
    if x < 0 {
        -1
    } else if x == 0 {
        0
    } else {
        1
    }
}

/// An exact decimal number `mantissa × 10^-scale`.
#[derive(Clone, Copy, Debug)]
pub struct Amount {
    pub mantissa: i128,
    pub scale: u32,
}

impl Amount {
    /// The mantissa and scale lie in the supported range.
    pub open spec fn wf(self) -> bool {
        self.scale <= MAX_SCALE && -MAX_MANTISSA <= self.mantissa <= MAX_MANTISSA
    }

    /// The value of the amount, counted in units of `10^-28`.
    pub open spec fn value(self) -> int {
        self.mantissa * pow10((MAX_SCALE - self.scale) as nat)
    }

    /// Whether the mantissa and scale lie in the supported range.
    pub fn in_range(&self) -> (r: bool)
        ensures
            r == self.wf(),
    {
        self.scale <= MAX_SCALE && -MAX_MANTISSA <= self.mantissa && self.mantissa <= MAX_MANTISSA
    }

    /// The amount zero.
    pub fn zero() -> (r: Amount)
        ensures
            r.wf(),
            r.value() == 0,
            r.mantissa == 0 && r.scale == 0,
    {
        Amount { mantissa: 0, scale: 0 }
    }

    /// The amount one.
    pub fn one() -> (r: Amount)
        ensures
            r.wf(),
            r.value() == pow10(28),
            r.mantissa == 1 && r.scale == 0,
    {
        Amount { mantissa: 1, scale: 0 }
    }

    /// `mantissa × 10^-scale`; both must lie in the supported range.
    pub fn new(mantissa: i128, scale: u32) -> (r: Amount)
        requires
            scale <= MAX_SCALE,
            -MAX_MANTISSA <= mantissa <= MAX_MANTISSA,
        ensures
            r.wf(),
            r.mantissa == mantissa && r.scale == scale,
    {
        Amount { mantissa, scale }
    }

    /// `mantissa × 10^-scale`, or `None` where either part is out of range.
    pub fn from_parts(mantissa: i128, scale: u32) -> (r: Option<Amount>)
        ensures
            r is Some <==> (scale <= MAX_SCALE && -MAX_MANTISSA <= mantissa <= MAX_MANTISSA),
            r matches Some(a) ==> a.wf() && a.mantissa == mantissa && a.scale == scale,
    {
        if scale <= MAX_SCALE && -MAX_MANTISSA <= mantissa && mantissa <= MAX_MANTISSA {
            Some(Amount { mantissa, scale })
        } else {
            None
        }
    }

    /// A whole number of units.
    pub fn from_int(n: i64) -> (r: Amount)
        ensures
            r.wf(),
            r.mantissa == n && r.scale == 0,
            r.value() == n * pow10(28),
    {
        Amount { mantissa: n as i128, scale: 0 }
    }

    pub fn is_zero(&self) -> (r: bool)
        requires
            self.wf(),
        ensures
            r == (self.value() == 0),
    {
        proof {
            lemma_value_sign(*self);
        }
        self.mantissa == 0
    }

    pub fn is_positive(&self) -> (r: bool)
        requires
            self.wf(),
        ensures
            r == (self.value() > 0),
    {
        proof {
            lemma_value_sign(*self);
        }
        self.mantissa > 0
    }

    pub fn is_negative(&self) -> (r: bool)
        requires
            self.wf(),
        ensures
            r == (self.value() < 0),
    {
        proof {
            lemma_value_sign(*self);
        }
        self.mantissa < 0
    }

    /// The sign of `self - other`: -1, 0 or 1.
    pub fn compare(&self, other: &Amount) -> (r: i8)
        requires
            self.wf(),
            other.wf(),
        ensures
            r as int == sign(self.value() - other.value()),
    {
        if self.scale <= other.scale {
            let c = compare_rescaled(self.mantissa, self.scale, other.mantissa, other.scale);
            c
        } else {
            let c = compare_rescaled(other.mantissa, other.scale, self.mantissa, self.scale);
            -c
        }
    }

    /// `self < other` by value.
    pub fn less_than(&self, other: &Amount) -> (r: bool)
        requires
            self.wf(),
            other.wf(),
        ensures
            r == (self.value() < other.value()),
    {
        self.compare(other) < 0
    }

    /// `self <= other` by value.
    pub fn at_most(&self, other: &Amount) -> (r: bool)
        requires
            self.wf(),
            other.wf(),
        ensures
            r == (self.value() <= other.value()),
    {
        self.compare(other) <= 0
    }

    /// `self == other` by value (`1.0` equals `1.00`).
    pub fn same_value(&self, other: &Amount) -> (r: bool)
        requires
            self.wf(),
            other.wf(),
        ensures
            r == (self.value() == other.value()),
    {
        self.compare(other) == 0
    }

    /// The exact sum, at the larger of the two scales; `None` where that sum
    /// does not fit in a mantissa.
    pub fn checked_add(&self, other: &Amount) -> (r: Option<Amount>)
        requires
            self.wf(),
            other.wf(),
        ensures
            r is Some <==> representable_at(
                self.value() + other.value(),
                max_scale_of(*self, *other),
            ),
            r matches Some(s) ==> s.wf() && s.value() == self.value() + other.value() && s.scale
                == max_scale_of(*self, *other),
    {
        if self.scale <= other.scale {
            add_rescaled(self.mantissa, self.scale, other.mantissa, other.scale)
        } else {
            add_rescaled(other.mantissa, other.scale, self.mantissa, self.scale)
        }
    }

    /// The exact difference, at the larger of the two scales; `None` where it
    /// does not fit in a mantissa.
    pub fn checked_sub(&self, other: &Amount) -> (r: Option<Amount>)
        requires
            self.wf(),
            other.wf(),
        ensures
            r is Some <==> representable_at(
                self.value() - other.value(),
                max_scale_of(*self, *other),
            ),
            r matches Some(s) ==> s.wf() && s.value() == self.value() - other.value() && s.scale
                == max_scale_of(*self, *other),
    {
        let neg = Amount { mantissa: -other.mantissa, scale: other.scale };
        proof {
            assert(neg.value() == -other.value()) by (nonlinear_arith)
                requires
                    neg.value() == neg.mantissa * pow10((MAX_SCALE - neg.scale) as nat),
                    other.value() == other.mantissa * pow10((MAX_SCALE - other.scale) as nat),
                    neg.mantissa == -other.mantissa,
                    neg.scale == other.scale,
            ;
        }
        self.checked_add(&neg)
    }

    /// The exact product: zero where either factor is zero, otherwise with
    /// the sum of the scales; `None` where that scale or the mantissa is out
    /// of range.
    pub fn checked_mul(&self, other: &Amount) -> (r: Option<Amount>)
        requires
            self.wf(),
            other.wf(),
        ensures
            r is Some <==> (self.value() == 0 || other.value() == 0 || (self.scale + other.scale
                <= MAX_SCALE && -MAX_MANTISSA <= self.mantissa * other.mantissa <= MAX_MANTISSA)),
            (self.value() == 0 || other.value() == 0) ==> r == Some(Amount { mantissa: 0, scale: 0 }),
            (self.value() != 0 && other.value() != 0 && r is Some) ==> r->Some_0.mantissa
                == self.mantissa * other.mantissa && r->Some_0.scale == self.scale + other.scale,
            r matches Some(p) ==> p.wf() && p.value() * pow10(28) == self.value() * other.value(),
    {
        proof {
            lemma_value_sign(*self);
            lemma_value_sign(*other);
        }
        if self.mantissa == 0 || other.mantissa == 0 {
            let z = Amount { mantissa: 0, scale: 0 };
            proof {
                lemma_value_sign(z);
                assert(z.value() == 0);
                assert(self.value() * other.value() == 0) by (nonlinear_arith)
                    requires
                        self.value() == 0 || other.value() == 0,
                ;
            }
            return Some(z);
        }
        if self.scale > MAX_SCALE - other.scale {
            return None;
        }
        match self.mantissa.checked_mul(other.mantissa) {
            None => {
                proof {
                    assert(self.mantissa * other.mantissa > MAX_MANTISSA
                        || self.mantissa * other.mantissa < -MAX_MANTISSA);
                }
                None
            },
            Some(m) => {
                if m > MAX_MANTISSA || m < -MAX_MANTISSA {
                    None
                } else {
                    let p = Amount { mantissa: m, scale: self.scale + other.scale };
                    proof {
                        lemma_product_value(*self, *other, p);
                    }
                    Some(p)
                }
            },
        }
    }
}

/// The larger of the two scales.
pub open spec fn max_scale_of(a: Amount, b: Amount) -> nat {
    if a.scale <= b.scale {
        b.scale as nat
    } else {
        a.scale as nat
    }
}

/// A value (in `10^-28` units) that is a whole number of `10^-scale` steps
/// whose count fits in a mantissa.
pub open spec fn representable_at(v: int, scale: nat) -> bool {
    &&& scale <= MAX_SCALE
    &&& v % pow10((MAX_SCALE - scale) as nat) == 0
    &&& -MAX_MANTISSA <= v / pow10((MAX_SCALE - scale) as nat) <= MAX_MANTISSA
}

pub proof fn lemma_value_sign(a: Amount)
    ensures
        sign(a.value()) == sign(a.mantissa as int),
{
    let p = pow10((MAX_SCALE - a.scale) as nat);
    lemma_pow10_pos((MAX_SCALE - a.scale) as nat);
    assert(sign(a.mantissa * p) == sign(a.mantissa as int)) by (nonlinear_arith)
        requires
            p > 0,
    ;
}

proof fn lemma_product_value(a: Amount, b: Amount, p: Amount)
    requires
        a.wf(),
        b.wf(),
        p.mantissa == a.mantissa * b.mantissa,
        p.scale == a.scale + b.scale,
        p.scale <= MAX_SCALE,
    ensures
        p.value() * pow10(28) == a.value() * b.value(),
{
    let da = (MAX_SCALE - a.scale) as nat;
    let db = (MAX_SCALE - b.scale) as nat;
    let dp = (MAX_SCALE - p.scale) as nat;
    lemma_pow10_add(da, db);
    lemma_pow10_add(dp, 28);
    assert(da + db == dp + 28);
    let (ma, mb) = (a.mantissa as int, b.mantissa as int);
    assert(p.value() * pow10(28) == ma * mb * pow10(dp) * pow10(28));
    assert(a.value() * b.value() == (ma * pow10(da)) * (mb * pow10(db)));
    assert((ma * pow10(da)) * (mb * pow10(db)) == ma * mb * (pow10(da) * pow10(db)))
        by (nonlinear_arith);
    assert(ma * mb * pow10(dp) * pow10(28) == ma * mb * (pow10(dp) * pow10(28)))
        by (nonlinear_arith);
}

/// `10^n` as a machine integer.
fn pow10_i128(n: u32) -> (r: i128)
    requires
        n <= MAX_SCALE,
    ensures
        r == pow10(n as nat),
        r > 0,
{
    let mut r: i128 = 1;
    let mut i: u32 = 0;
    while i < n
        invariant
            i <= n,
            n <= MAX_SCALE,
            r == pow10(i as nat),
        decreases n - i,
    {
        proof {
            let k: nat = (i + 1) as nat;
            lemma_pow10_mono(k, 28);
            lemma_pow10_28();
            assert(pow10(k) == 10 * pow10((k - 1) as nat));
            assert((k - 1) as nat == i as nat);
            lemma_pow10_pos(i as nat);
            assert(r * 10 <= 10000000000000000000000000000);
        }
        r = r * 10;
        i = i + 1;
    }
    proof {
        lemma_pow10_pos(n as nat);
    }
    r
}

/// Relates the value of a mantissa at scale `sa` to its rescaling at `sb >= sa`.
proof fn lemma_rescale(m: int, sa: nat, sb: nat)
    requires
        sa <= sb,
        sb <= MAX_SCALE,
    ensures
        m * pow10((MAX_SCALE - sa) as nat) == (m * pow10((sb - sa) as nat)) * pow10(
            (MAX_SCALE - sb) as nat,
        ),
{
    lemma_pow10_add((sb - sa) as nat, (MAX_SCALE - sb) as nat);
    assert((sb - sa) as nat + (MAX_SCALE - sb) as nat == (MAX_SCALE - sa) as nat);
    assert(m * (pow10((sb - sa) as nat) * pow10((MAX_SCALE - sb) as nat)) == (m * pow10(
        (sb - sa) as nat,
    )) * pow10((MAX_SCALE - sb) as nat)) by (nonlinear_arith);
}

/// Sign of `ma × 10^-sa - mb × 10^-sb` where `sa <= sb`.
fn compare_rescaled(ma: i128, sa: u32, mb: i128, sb: u32) -> (r: i8)
    requires
        sa <= sb <= MAX_SCALE,
        -MAX_MANTISSA <= ma <= MAX_MANTISSA,
        -MAX_MANTISSA <= mb <= MAX_MANTISSA,
    ensures
        r as int == sign(Amount { mantissa: ma, scale: sa }.value() - Amount {
            mantissa: mb,
            scale: sb,
        }.value()),
{
    let p = pow10_i128(sb - sa);
    let ghost x: int = ma * p;
    let ghost q = pow10((MAX_SCALE - sb) as nat);
    proof {
        lemma_rescale(ma as int, sa as nat, sb as nat);
        lemma_pow10_pos((MAX_SCALE - sb) as nat);
        assert(Amount { mantissa: ma, scale: sa }.value() == x * q);
        assert(Amount { mantissa: mb, scale: sb }.value() == mb * q);
        assert(sign(x * q - mb * q) == sign(x - mb)) by (nonlinear_arith)
            requires
                q > 0,
        ;
    }
    match ma.checked_mul(p) {
        Some(xa) => {
            if xa < mb {
                -1
            } else if xa == mb {
                0
            } else {
                1
            }
        },
        None => {
            // The rescaled mantissa lies beyond any mantissa, so its sign decides.
            proof {
                assert(ma != 0);
                if ma > 0 {
                    assert(x > i128::MAX) by (nonlinear_arith)
                        requires
                            x == ma * p,
                            ma > 0,
                            p > 0,
                            !(i128::MIN <= x <= i128::MAX),
                    ;
                } else {
                    assert(x < i128::MIN) by (nonlinear_arith)
                        requires
                            x == ma * p,
                            ma < 0,
                            p > 0,
                            !(i128::MIN <= x <= i128::MAX),
                    ;
                }
            }
            if ma > 0 {
                1
            } else {
                -1
            }
        },
    }
}

/// Exact sum of `ma × 10^-sa` and `mb × 10^-sb` at scale `sb`, where `sa <= sb`.
fn add_rescaled(ma: i128, sa: u32, mb: i128, sb: u32) -> (r: Option<Amount>)
    requires
        sa <= sb <= MAX_SCALE,
        -MAX_MANTISSA <= ma <= MAX_MANTISSA,
        -MAX_MANTISSA <= mb <= MAX_MANTISSA,
    ensures
        ({
            let a = Amount { mantissa: ma, scale: sa };
            let b = Amount { mantissa: mb, scale: sb };
            &&& r is Some <==> representable_at(a.value() + b.value(), sb as nat)
            &&& r matches Some(s) ==> s.wf() && s.value() == a.value() + b.value() && s.scale
                == sb
        }),
{
    let ghost a = Amount { mantissa: ma, scale: sa };
    let ghost b = Amount { mantissa: mb, scale: sb };
    let p = pow10_i128(sb - sa);
    let ghost x: int = ma * p;
    let ghost q = pow10((MAX_SCALE - sb) as nat);
    proof {
        lemma_rescale(ma as int, sa as nat, sb as nat);
        lemma_pow10_pos((MAX_SCALE - sb) as nat);
        assert(a.value() + b.value() == (x + mb) * q) by (nonlinear_arith)
            requires
                a.value() == x * q,
                b.value() == mb * q,
        ;
        lemma_div_exact(x + mb, q);
    }
    match ma.checked_mul(p) {
        None => {
            proof {
                assert(x > i128::MAX || x < i128::MIN);
            }
            None
        },
        Some(xa) => match xa.checked_add(mb) {
            None => None,
            Some(s) => {
                if s > MAX_MANTISSA || s < -MAX_MANTISSA {
                    None
                } else {
                    let r = Amount { mantissa: s, scale: sb };
                    Some(r)
                }
            },
        },
    }
}

impl PartialEq for Amount {
    /// Equality by value, so that `1.0 == 1.00`.
    fn eq(&self, other: &Amount) -> (r: bool) {
        if self.in_range() && other.in_range() {
            self.same_value(other)
        } else {
            self.mantissa == other.mantissa && self.scale == other.scale
        }
    }
}

impl vstd::std_specs::cmp::PartialEqSpecImpl for Amount {
    open spec fn obeys_eq_spec() -> bool {
        true
    }

    open spec fn eq_spec(&self, other: &Amount) -> bool {
        if self.wf() && other.wf() {
            self.value() == other.value()
        } else {
            self.mantissa == other.mantissa && self.scale == other.scale
        }
    }
}

/// `n / p` rounded to the nearest whole number, ties to the even one.
pub open spec fn half_even_quotient(n: nat, p: nat) -> nat
    recommends
        p > 0,
{
    let q = n / p;
    let rem = n % p;
    if 2 * rem > p || (2 * rem == p && q % 2 == 1) {
        q + 1
    } else {
        q
    }
}

/// `a` rounded to `dp` fractional digits, ties to even; unchanged where it
/// has no more than `dp` digits.
pub open spec fn rounded_to(a: Amount, dp: u32) -> Amount {
    if a.scale <= dp {
        a
    } else {
        let n = if a.mantissa < 0 {
            -a.mantissa
        } else {
            a.mantissa as int
        };
        let q = half_even_quotient(n as nat, pow10((a.scale - dp) as nat) as nat);
        Amount { mantissa: (if a.mantissa < 0 { -q } else { q as int }) as i128, scale: dp }
    }
}

/// Rounding keeps an amount that is not negative from becoming negative.
pub proof fn lemma_rounded_nonnegative(a: Amount, dp: u32)
    requires
        a.wf(),
        a.value() >= 0,
    ensures
        rounded_to(a, dp).value() >= 0,
{
    lemma_value_sign(a);
    lemma_value_sign(rounded_to(a, dp));
    if a.scale > dp {
        let n = a.mantissa as int;
        let p = pow10((a.scale - dp) as nat);
        lemma_pow10_pos((a.scale - dp) as nat);
        assert(n / p <= n) by (nonlinear_arith)
            requires
                n >= 0,
                p >= 1,
        ;
        assert(n / p >= 0) by (nonlinear_arith)
            requires
                n >= 0,
                p >= 1,
        ;
        let q = half_even_quotient(n as nat, p as nat);
        assert(0 <= q <= n + 1);
        assert(rounded_to(a, dp).mantissa >= 0);
    }
}

/// What `rust_decimal` gives for `a / b`, where it gives anything.
pub uninterp spec fn decimal_quotient(a: Amount, b: Amount) -> Option<Amount>;

/// The text `rust_decimal` prints for an amount.
pub uninterp spec fn decimal_text(a: Amount) -> Seq<char>;

/// The text `rust_decimal` prints for an amount with exactly two fractional digits.
pub uninterp spec fn decimal_text_2dp(a: Amount) -> Seq<char>;

/// The amount `rust_decimal` reads from a text, where it reads one.
pub uninterp spec fn parsed_decimal(s: Seq<char>) -> Option<Amount>;

/// Relies on rust_decimal's `Decimal::checked_div`: `None` for a zero divisor
/// or an overflow, otherwise a decimal in the 96-bit range; a zero dividend
/// gives `Decimal::ZERO`.
#[verifier::external_body]
pub(crate) fn decimal_div(a: &Amount, b: &Amount) -> (r: Option<Amount>)
    requires
        a.wf(),
        b.wf(),
    ensures
        r == decimal_quotient(*a, *b),
        b.value() == 0 ==> r is None,
        r matches Some(q) ==> q.wf(),
        (a.value() >= 0 && b.value() > 0 && r is Some) ==> r->Some_0.value() >= 0,
        (a.value() == 0 && b.value() != 0) ==> r == Some(Amount { mantissa: 0, scale: 0 }),
{
    let x = rust_decimal::Decimal::from_i128_with_scale(a.mantissa, a.scale);
    let y = rust_decimal::Decimal::from_i128_with_scale(b.mantissa, b.scale);
    x.checked_div(y).map(|q| Amount { mantissa: q.mantissa(), scale: q.scale() })
}

/// Relies on rust_decimal's `Decimal::round_dp`: banker's rounding to `dp`
/// fractional digits, leaving an amount with no more digits unchanged.
#[verifier::external_body]
pub(crate) fn decimal_round_dp(a: &Amount, dp: u32) -> (r: Amount)
    requires
        a.wf(),
    ensures
        r == rounded_to(*a, dp),
        r.wf(),
{
    let d = rust_decimal::Decimal::from_i128_with_scale(a.mantissa, a.scale).round_dp(dp);
    Amount { mantissa: d.mantissa(), scale: d.scale() }
}

/// Relies on rust_decimal's `Display` for `Decimal`: plain decimal notation.
#[verifier::external_body]
pub(crate) fn decimal_to_string(a: &Amount) -> (r: String)
    requires
        a.wf(),
    ensures
        r@ == decimal_text(*a),
{
    rust_decimal::Decimal::from_i128_with_scale(a.mantissa, a.scale).to_string()
}

/// Relies on rust_decimal's `Display` for `Decimal` with precision 2.
#[verifier::external_body]
pub(crate) fn decimal_to_string_2dp(a: &Amount) -> (r: String)
    requires
        a.wf(),
    ensures
        r@ == decimal_text_2dp(*a),
{
    format!("{:.2}", rust_decimal::Decimal::from_i128_with_scale(a.mantissa, a.scale))
}

/// Relies on rust_decimal's `FromStr` for `Decimal`: `Some` exactly where it
/// parses, and then a decimal in the 96-bit range.
#[verifier::external_body]
pub(crate) fn decimal_from_str(s: &str) -> (r: Option<Amount>)
    ensures
        r == parsed_decimal(s@),
        r matches Some(a) ==> a.wf(),
{
    match <rust_decimal::Decimal as std::str::FromStr>::from_str(s) {
        Ok(d) => Some(Amount { mantissa: d.mantissa(), scale: d.scale() }),
        Err(_) => None,
    }
}

impl Amount {
    /// Reads an amount written in decimal notation (`"1000.50"`).
    pub fn parse(s: &str) -> (r: Option<Amount>)
        ensures
            r == parsed_decimal(s@),
            r matches Some(a) ==> a.wf(),
    {
        decimal_from_str(s)
    }

    /// The amount in plain decimal notation.
    pub fn to_text(&self) -> (r: String)
        requires
            self.wf(),
        ensures
            r@ == decimal_text(*self),
    {
        decimal_to_string(self)
    }
}

/// Rounds to two fractional digits (cents), ties to even.
pub fn round_currency(value: Amount) -> (r: Amount)
    requires
        value.wf(),
    ensures
        r == rounded_to(value, 2),
        r.wf(),
{
    decimal_round_dp(&value, 2)
}

/// Rounds to `decimal_places` fractional digits, ties to even.
pub fn round_to(value: Amount, decimal_places: u32) -> (r: Amount)
    requires
        value.wf(),
    ensures
        r == rounded_to(value, decimal_places),
        r.wf(),
{
    decimal_round_dp(&value, decimal_places)
}

/// Two amounts are equal by value.
pub fn are_equal(a: Amount, b: Amount) -> (r: bool)
    requires
        a.wf(),
        b.wf(),
    ensures
        r == (a.value() == b.value()),
{
    a.same_value(&b)
}

/// `"<code> <amount with two fractional digits>"`, e.g. `"USD 1000.50"`.
pub fn format_currency(value: Amount, currency_code: &str) -> (r: String)
    requires
        value.wf(),
    ensures
        r@ == currency_code@ + " "@ + decimal_text_2dp(value),
{
    let digits = decimal_to_string_2dp(&value);
    let r = String::from_str(currency_code).concat(" ").concat(digits.as_str());
    r
}

proof fn lemma_div_exact(v: int, q: int)
    requires
        q > 0,
    ensures
        (v * q) % q == 0,
        (v * q) / q == v,
{
    vstd::arithmetic::div_mod::lemma_mod_multiples_basic(v, q);
    vstd::arithmetic::div_mod::lemma_div_multiples_vanish(v, q);
}

} // verus!
