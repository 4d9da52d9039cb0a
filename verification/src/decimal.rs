//! Decimal numbers as a mantissa and a scale, the shape in which
//! `rust_decimal` holds them, and the canonical rating scale.

use vstd::prelude::*;

verus! {

/// The largest number of digits after the decimal point.
pub const MAX_SCALE: u32 = 28;

/// The largest mantissa, 2^96 - 1; the smallest is its negation.
pub const MAX_MANTISSA: i128 = 0xFFFF_FFFF_FFFF_FFFF_FFFF_FFFF;

/// The upper end of the canonical rating scale; its lower end is 0.
pub const CANONICAL_MAX: i128 = 100;

/// Mantissa and scale of the saturating product of two decimals, each given
/// by its mantissa and its scale.
pub uninterp spec fn decimal_saturating_product(
    left_mantissa: int,
    left_scale: int,
    right_mantissa: int,
    right_scale: int,
) -> (int, int);

/// Ten to the power `n`.
pub open spec fn pow10(n: nat) -> int
    decreases n,
{
    if n == 0 {
        1
    } else {
        10 * pow10((n - 1) as nat)
    }
}

/// The decimal number `mantissa / 10^scale`.
#[derive(Clone, Copy, Debug, PartialEq, Eq, Structural)]
pub struct DecimalValue {
    mantissa: i128,
    scale: u32,
}

impl DecimalValue {
    #[verifier::type_invariant]
    closed spec fn representable(self) -> bool {
        Self::in_range(self.mantissa as int, self.scale as int)
    }

    /// The digits of the number, as a signed integer.
    pub closed spec fn mantissa(self) -> int {
        self.mantissa as int
    }

    /// How many of the digits stand after the decimal point.
    pub closed spec fn scale(self) -> int {
        self.scale as int
    }

    /// The decimal with this mantissa and scale.
    pub closed spec fn with_parts(mantissa: int, scale: int) -> DecimalValue {
        DecimalValue { mantissa: mantissa as i128, scale: scale as u32 }
    }

    /// Whether a decimal with these parts exists.
    pub open spec fn in_range(mantissa: int, scale: int) -> bool {
        -MAX_MANTISSA <= mantissa <= MAX_MANTISSA && 0 <= scale <= MAX_SCALE
    }

    /// `with_parts` is inverse to `mantissa` and `scale`.
    pub proof fn lemma_with_parts(mantissa: int, scale: int)
        requires
            i128::MIN <= mantissa <= i128::MAX,
            0 <= scale <= u32::MAX,
        ensures
            Self::with_parts(mantissa, scale).mantissa() == mantissa,
            Self::with_parts(mantissa, scale).scale() == scale,
    {
    }

    /// A decimal is determined by its mantissa and its scale.
    pub proof fn lemma_parts_determine(a: DecimalValue, b: DecimalValue)
        requires
            a.mantissa() == b.mantissa(),
            a.scale() == b.scale(),
        ensures
            a == b,
    {
    }

    /// The decimal `mantissa / 10^scale`, if its parts are in range.
    pub fn from_i128_with_scale(mantissa: i128, scale: u32) -> (value: Option<DecimalValue>)
        ensures
            value is Some <==> Self::in_range(mantissa as int, scale as int),
            value is Some ==> value->0 == Self::with_parts(mantissa as int, scale as int),
    {
        if -MAX_MANTISSA <= mantissa && mantissa <= MAX_MANTISSA && scale <= MAX_SCALE {
            Some(DecimalValue { mantissa, scale })
        } else {
            None
        }
    }

    /// The whole number `n`.
    pub fn whole(n: i64) -> (value: DecimalValue)
        ensures
            value == Self::with_parts(n as int, 0),
    {
        DecimalValue { mantissa: n as i128, scale: 0 }
    }

    /// The digits of the number, as a signed integer.
    pub fn to_mantissa(&self) -> (mantissa: i128)
        ensures
            mantissa == self.mantissa(),
            Self::in_range(self.mantissa(), self.scale()),
    {
        proof {
            use_type_invariant(self);
        }
        self.mantissa
    }

    /// How many of the digits stand after the decimal point.
    pub fn to_scale(&self) -> (scale: u32)
        ensures
            scale == self.scale(),
            Self::in_range(self.mantissa(), self.scale()),
    {
        proof {
            use_type_invariant(self);
        }
        self.scale
    }

    /// Whether the number lies on the canonical rating scale, from 0 to 100.
    pub open spec fn is_canonical(self) -> bool {
        0 <= self.mantissa() <= CANONICAL_MAX * pow10(self.scale() as nat)
    }

    /// The number itself where it lies on the canonical scale, else the end
    /// of the scale that it went beyond.
    pub open spec fn spec_clamp_to_canonical(self) -> DecimalValue {
        if self.mantissa() < 0 {
            Self::with_parts(0, 0)
        } else if self.mantissa() > CANONICAL_MAX * pow10(self.scale() as nat) {
            Self::with_parts(CANONICAL_MAX as int, 0)
        } else {
            self
        }
    }

    /// Brings a number onto the canonical rating scale: what lies below 0
    /// becomes 0, what lies above 100 becomes 100.
    pub fn clamp_to_canonical(self) -> (clamped: DecimalValue)
        ensures
            clamped == self.spec_clamp_to_canonical(),
            clamped.is_canonical(),
    {
        proof {
            use_type_invariant(self);
            lemma_pow10_bounds(self.scale as nat);
            reveal_with_fuel(pow10, 1);
        }
        if self.mantissa < 0 {
            DecimalValue { mantissa: 0, scale: 0 }
        } else {
            let unit = pow10_exec(self.scale);
            if self.mantissa > CANONICAL_MAX * unit {
                DecimalValue { mantissa: CANONICAL_MAX, scale: 0 }
            } else {
                self
            }
        }
    }

    /// A rating on a source's scale as it reads on the canonical scale:
    /// the saturating product with the source's multiplier, clamped.
    pub open spec fn spec_to_canonical_scale(self, multiplier: DecimalValue) -> DecimalValue {
        let product = decimal_saturating_product(
            self.mantissa(),
            self.scale(),
            multiplier.mantissa(),
            multiplier.scale(),
        );
        Self::with_parts(product.0, product.1).spec_clamp_to_canonical()
    }

    /// Rescales a rating from a source's scale to the canonical one. The
    /// multiplication saturates, and a product beyond the scale is clamped
    /// to its nearer end, so no rating fails.
    pub fn to_canonical_scale(self, multiplier: DecimalValue) -> (rating: DecimalValue)
        ensures
            rating == self.spec_to_canonical_scale(multiplier),
            rating.is_canonical(),
    {
        let product = saturating_mul(self, multiplier);
        proof {
            let named = decimal_saturating_product(
                self.mantissa(),
                self.scale(),
                multiplier.mantissa(),
                multiplier.scale(),
            );
            Self::lemma_parts_determine(product, Self::with_parts(named.0, named.1));
        }
        product.clamp_to_canonical()
    }
}

/// Whatever the number, clamping brings it onto the canonical scale; so
/// does rescaling, whatever the product comes to.
pub proof fn lemma_clamped_is_canonical(value: DecimalValue, multiplier: DecimalValue)
    ensures
        value.spec_clamp_to_canonical().is_canonical(),
        value.spec_to_canonical_scale(multiplier).is_canonical(),
{
    DecimalValue::lemma_with_parts(0, 0);
    DecimalValue::lemma_with_parts(CANONICAL_MAX as int, 0);
    reveal_with_fuel(pow10, 1);
}

/// Powers of ten are positive and grow with the exponent; up to the largest
/// scale they stay below 10^28.
pub proof fn lemma_pow10_bounds(n: nat)
    requires
        n <= MAX_SCALE,
    ensures
        1 <= pow10(n) <= 10_000_000_000_000_000_000_000_000_000,
    decreases MAX_SCALE - n,
{
    if n == MAX_SCALE {
        assert(pow10(28) == 10_000_000_000_000_000_000_000_000_000) by {
            reveal_with_fuel(pow10, 29);
        }
    } else {
        lemma_pow10_bounds(n + 1);
        assert(pow10(n + 1) == 10 * pow10(n));
        lemma_pow10_positive(n);
    }
}

/// Every power of ten is at least 1.
pub proof fn lemma_pow10_positive(n: nat)
    ensures
        pow10(n) >= 1,
    decreases n,
{
    if n > 0 {
        lemma_pow10_positive((n - 1) as nat);
    }
}

fn pow10_exec(n: u32) -> (p: i128)
    requires
        n <= MAX_SCALE,
    ensures
        p == pow10(n as nat),
{
    let mut p: i128 = 1;
    let mut i: u32 = 0;
    while i < n
        invariant
            i <= n <= MAX_SCALE,
            p == pow10(i as nat),
        decreases n - i,
    {
        proof {
            lemma_pow10_bounds((i + 1) as nat);
        }
        p = p * 10;
        i = i + 1;
    }
    p
}

/// `rust_decimal`: `Decimal::from_i128_with_scale`, `Decimal::saturating_mul`,
/// `Decimal::mantissa` and `Decimal::scale`. The product is computed by the
/// crate, rounding where the digits do not fit and stopping at the largest
/// or smallest decimal on overflow; the contract gives its mantissa and
/// scale a name and says no more. The result is a decimal of the crate, so
/// its parts are in range.
#[verifier::external_body]
fn saturating_mul(left: DecimalValue, right: DecimalValue) -> (product: DecimalValue)
    ensures
        (product.mantissa(), product.scale()) == decimal_saturating_product(
            left.mantissa(),
            left.scale(),
            right.mantissa(),
            right.scale(),
        ),
        DecimalValue::in_range(product.mantissa(), product.scale()),
{
    let a = rust_decimal::Decimal::from_i128_with_scale(left.mantissa, left.scale);
    let b = rust_decimal::Decimal::from_i128_with_scale(right.mantissa, right.scale);
    let p = a.saturating_mul(b);
    DecimalValue { mantissa: p.mantissa(), scale: p.scale() }
}

} // verus!
