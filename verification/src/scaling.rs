//! Mapping of a raw battery byte onto another band of integers.

use vstd::prelude::*;

verus! {

/// `value` held to the closed band from `low` to `high`.
pub open spec fn clamp_to(value: int, low: int, high: int) -> int {
    if value < low {
        low
    } else if value > high {
        high
    } else {
        value
    }
}

/// `quotient` is the integer nearest to `num / den`, the larger one of the
/// two where `num / den` lies halfway between them.
pub open spec fn is_nearest(quotient: int, num: int, den: int) -> bool {
    2 * num - den < 2 * (quotient * den) <= 2 * num + den
}

/// The integer nearest to `num / den` for a positive `den`; halves go up.
pub open spec fn round_half_up(num: int, den: int) -> int {
    (num + den / 2) / den
}

/// The value that `scale` computes.
///
/// `value` is first held to the band `[min_before, max_before]`, then carried
/// linearly onto `[min_after, max_after]` and rounded to the nearest integer.
/// A band of a single point has no slope: its image is `min_after`.
pub open spec fn scale_spec(
    value: int,
    min_before: int,
    max_before: int,
    min_after: int,
    max_after: int,
) -> int {
    if min_before == max_before {
        min_after
    } else {
        min_after + round_half_up(
            (clamp_to(value, min_before, max_before) - min_before) * (max_after - min_after),
            max_before - min_before,
        )
    }
}

/// `round_half_up` is the one integer that `is_nearest` accepts.
pub proof fn lemma_round_half_up_is_nearest(num: int, den: int)
    requires
        den > 0,
    ensures
        is_nearest(round_half_up(num, den), num, den),
        forall|q: int| is_nearest(q, num, den) ==> q == round_half_up(num, den),
{
    let half = den / 2;
    let q = round_half_up(num, den);
    assert(is_nearest(q, num, den)) by (nonlinear_arith)
        requires
            den > 0,
            half == den / 2,
            q == (num + half) / den,
    {
        let r = (num + half) % den;
        assert(num + half == den * q + r);
        assert(0 <= r < den);
        assert(den == 2 * half + den % 2);
    }
    assert forall|other: int| is_nearest(other, num, den) implies other == q by {
        assert(other == q) by (nonlinear_arith)
            requires
                den > 0,
                2 * num - den < 2 * (q * den) <= 2 * num + den,
                2 * num - den < 2 * (other * den) <= 2 * num + den,
        {
            if other < q {
                assert((other + 1) * den <= q * den);
            } else if other > q {
                assert((q + 1) * den <= other * den);
            }
        }
    }
}

/// Rounding keeps the order of two numerators over one denominator.
pub proof fn lemma_round_half_up_is_ordered(low: int, high: int, den: int)
    requires
        low <= high,
        den > 0,
    ensures
        round_half_up(low, den) <= round_half_up(high, den),
{
    vstd::arithmetic::div_mod::lemma_div_is_ordered(low + den / 2, high + den / 2, den);
}

/// A whole multiple of the denominator is divided without a remainder.
pub proof fn lemma_round_half_up_of_multiple(factor: int, den: int)
    requires
        den > 0,
    ensures
        round_half_up(factor * den, den) == factor,
{
    lemma_round_half_up_is_nearest(factor * den, den);
    assert(is_nearest(factor, factor * den, den));
}

/// The image lies in the band `[min_after, max_after]`.
pub proof fn lemma_scale_within_band(
    value: int,
    min_before: int,
    max_before: int,
    min_after: int,
    max_after: int,
)
    requires
        min_before <= max_before,
        min_after <= max_after,
    ensures
        min_after <= scale_spec(value, min_before, max_before, min_after, max_after) <= max_after,
{
    if min_before < max_before {
        let offset = clamp_to(value, min_before, max_before) - min_before;
        let span = max_before - min_before;
        let width = max_after - min_after;
        assert(0 <= offset * width <= width * span) by (nonlinear_arith)
            requires
                0 <= offset <= span,
                0 <= width,
        ;
        lemma_round_half_up_is_ordered(0, offset * width, span);
        lemma_round_half_up_is_ordered(offset * width, width * span, span);
        lemma_round_half_up_of_multiple(0, span);
        lemma_round_half_up_of_multiple(width, span);
    }
}

/// A larger raw value never gives a smaller image.
pub proof fn lemma_scale_monotonic(
    low: int,
    high: int,
    min_before: int,
    max_before: int,
    min_after: int,
    max_after: int,
)
    requires
        low <= high,
        min_before <= max_before,
        min_after <= max_after,
    ensures
        scale_spec(low, min_before, max_before, min_after, max_after) <= scale_spec(
            high,
            min_before,
            max_before,
            min_after,
            max_after,
        ),
{
    if min_before < max_before {
        let low_offset = clamp_to(low, min_before, max_before) - min_before;
        let high_offset = clamp_to(high, min_before, max_before) - min_before;
        let width = max_after - min_after;
        assert(low_offset * width <= high_offset * width) by (nonlinear_arith)
            requires
                low_offset <= high_offset,
                0 <= width,
        ;
        lemma_round_half_up_is_ordered(
            low_offset * width,
            high_offset * width,
            max_before - min_before,
        );
    }
}

/// The ends of the first band are carried onto the ends of the second, and
/// so is every value beyond them.
pub proof fn lemma_scale_ends(
    value: int,
    min_before: int,
    max_before: int,
    min_after: int,
    max_after: int,
)
    requires
        min_before <= max_before,
        min_after <= max_after,
    ensures
        value <= min_before ==> scale_spec(value, min_before, max_before, min_after, max_after)
            == min_after,
        value >= max_before && min_before < max_before ==> scale_spec(
            value,
            min_before,
            max_before,
            min_after,
            max_after,
        ) == max_after,
{
    if min_before < max_before {
        let span = max_before - min_before;
        let width = max_after - min_after;
        assert(0 * width == 0 * span && span * width == width * span) by (nonlinear_arith);
        lemma_round_half_up_of_multiple(0, span);
        lemma_round_half_up_of_multiple(width, span);
    }
}

/// A value outside the first band has the image of the band's nearer end.
pub proof fn lemma_scale_clamps_input(
    value: int,
    min_before: int,
    max_before: int,
    min_after: int,
    max_after: int,
)
    requires
        min_before <= max_before,
    ensures
        scale_spec(value, min_before, max_before, min_after, max_after) == scale_spec(
            clamp_to(value, min_before, max_before),
            min_before,
            max_before,
            min_after,
            max_after,
        ),
{
}

/// The image is the integer nearest to the exact point on the line through
/// the ends of the two bands.
pub proof fn lemma_scale_is_nearest(
    value: int,
    min_before: int,
    max_before: int,
    min_after: int,
    max_after: int,
)
    requires
        min_before < max_before,
        min_after <= max_after,
    ensures
        is_nearest(
            scale_spec(value, min_before, max_before, min_after, max_after) - min_after,
            (clamp_to(value, min_before, max_before) - min_before) * (max_after - min_after),
            max_before - min_before,
        ),
{
    lemma_round_half_up_is_nearest(
        (clamp_to(value, min_before, max_before) - min_before) * (max_after - min_after),
        max_before - min_before,
    );
}

/// Maps `value` from the band `[min_before, max_before]` onto the band
/// `[min_after, max_after]`: values outside the first band count as its
/// nearer end, the image is rounded to the nearest integer.
pub fn scale(value: u8, min_before: u8, max_before: u8, min_after: u8, max_after: u8) -> (out: u8)
    requires
        min_before <= max_before,
        min_after <= max_after,
    ensures
        out == scale_spec(
            value as int,
            min_before as int,
            max_before as int,
            min_after as int,
            max_after as int,
        ),
        min_after <= out <= max_after,
{
    if min_before == max_before {
        return min_after;
    }
    let held: u8 = if value < min_before {
        min_before
    } else if value > max_before {
        max_before
    } else {
        value
    };
    let offset: u32 = (held - min_before) as u32;
    let span: u32 = (max_before - min_before) as u32;
    let width: u32 = (max_after - min_after) as u32;
    assert(offset * width <= 255 * 255) by (nonlinear_arith)
        requires
            offset <= 255,
            width <= 255,
    ;
    proof {
        lemma_scale_within_band(
            value as int,
            min_before as int,
            max_before as int,
            min_after as int,
            max_after as int,
        );
    }
    let rounded: u32 = (offset * width + span / 2) / span;
    min_after + rounded as u8
}

/// Largest value of a battery level in percent.
pub const PERCENT_MAX: u8 = 100;

/// How a headset model encodes its battery level in the raw byte.
#[derive(Clone, Copy, Debug, PartialEq, Eq, Structural)]
pub enum Scaling {
    /// The raw byte is the level in percent.
    Identity,
    /// The raw byte counts steps from 0 to `levels`, the full charge.
    DiscreteLevels { levels: u8 },
    /// The raw byte runs linearly from `min`, empty, to `max`, full.
    LinearOffset { min: u8, max: u8 },
}

impl Scaling {
    /// The band of raw values is not reversed.
    pub open spec fn well_formed(self) -> bool {
        match self {
            Scaling::Identity => true,
            Scaling::DiscreteLevels { levels } => true,
            Scaling::LinearOffset { min, max } => min <= max,
        }
    }

    /// The level that the raw byte `raw` stands for.
    pub open spec fn apply_spec(self, raw: u8) -> int {
        match self {
            Scaling::Identity => raw as int,
            Scaling::DiscreteLevels { levels } => scale_spec(
                raw as int,
                0,
                levels as int,
                0,
                PERCENT_MAX as int,
            ),
            Scaling::LinearOffset { min, max } => scale_spec(
                raw as int,
                min as int,
                max as int,
                0,
                PERCENT_MAX as int,
            ),
        }
    }

    /// Tells whether the band of raw values is not reversed.
    pub fn is_well_formed(self) -> (sound: bool)
        ensures
            sound == self.well_formed(),
    {
        match self {
            Scaling::Identity => true,
            Scaling::DiscreteLevels { levels } => true,
            Scaling::LinearOffset { min, max } => min <= max,
        }
    }

    /// Decodes the raw byte `raw`.
    ///
    /// Only `Identity` hands the byte on as it came, so only there can the
    /// result exceed `PERCENT_MAX`.
    pub fn apply(self, raw: u8) -> (level: u8)
        requires
            self.well_formed(),
        ensures
            level == self.apply_spec(raw),
            self != Scaling::Identity ==> level <= PERCENT_MAX,
    {
        match self {
            Scaling::Identity => raw,
            Scaling::DiscreteLevels { levels } => scale(raw, 0, levels, 0, PERCENT_MAX),
            Scaling::LinearOffset { min, max } => scale(raw, min, max, 0, PERCENT_MAX),
        }
    }
}

/// A larger raw byte never decodes to a smaller level, and the level of a
/// scaled model is no more than `PERCENT_MAX`.
pub proof fn lemma_apply_monotonic(scaling: Scaling, low: u8, high: u8)
    requires
        scaling.well_formed(),
        low <= high,
    ensures
        scaling.apply_spec(low) <= scaling.apply_spec(high),
        scaling != Scaling::Identity ==> 0 <= scaling.apply_spec(high) <= PERCENT_MAX,
{
    match scaling {
        Scaling::Identity => {},
        Scaling::DiscreteLevels { levels } => {
            lemma_scale_monotonic(low as int, high as int, 0, levels as int, 0, PERCENT_MAX as int);
            lemma_scale_within_band(high as int, 0, levels as int, 0, PERCENT_MAX as int);
        },
        Scaling::LinearOffset { min, max } => {
            lemma_scale_monotonic(
                low as int,
                high as int,
                min as int,
                max as int,
                0,
                PERCENT_MAX as int,
            );
            lemma_scale_within_band(high as int, min as int, max as int, 0, PERCENT_MAX as int);
        },
    }
}

} // verus!
