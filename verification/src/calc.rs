//! The ingredient weight engine.
//!
//! Given a batch of ingredient records and a drink count, the engine fills in
//! the weight in grams to pour of each ingredient.  A single-ingredient batch
//! is weighed directly from its category's regression formula; a larger batch
//! distributes the total pour over the ingredients in proportion to their
//! "parts", taking the first ingredient as the scaling reference.
//!
//! All quantities are decimal fixed point ([`Fixed`]), and every function's
//! contract pins its result exactly over the spec functions below.  The
//! engine validates its inputs up front and fails atomically: on any error
//! the batch is left untouched.

use crate::fixed::{add_spec, div_spec, fadd, fdiv, fmul, mul_spec, sat64, Fixed, SCALE};
use crate::math::{exp_pos, exp_spec, ln_pos, ln_spec};
use crate::types::{category_of_label, match_category, Category};
use vstd::arithmetic::div_mod::{
    lemma_div_is_ordered, lemma_div_is_ordered_by_denominator, lemma_div_multiples_vanish,
    lemma_div_non_zero, lemma_div_nonincreasing, lemma_div_pos_is_pos,
    lemma_fundamental_div_mod, lemma_fundamental_div_mod_converse_div,
    lemma_mod_multiples_basic,
};
use vstd::arithmetic::mul::{lemma_mul_inequality, lemma_mul_nonnegative};
use vstd::prelude::*;

verus! {

/// Why a batch computation failed.
#[derive(Clone, Copy, Debug, PartialEq, Eq, Structural)]
pub enum CalcError {
    /// The ingredient batch was empty.
    EmptyInput,
    /// A numeric input was outside the supported range: a drink count or a
    /// "parts" share of zero, or an alcohol percentage of zero or above one
    /// hundred.
    InvalidInput,
}

/// One ingredient of a recipe.  The caller supplies `alc_type`,
/// `percentage` and `parts`; the engine fills the remaining fields.
#[derive(Clone, Debug)]
pub struct IngredientData {
    /// Ingredient-type label, classified by [`match_category`].
    pub alc_type: String,
    /// Alcohol by volume, in percent.
    pub percentage: Fixed,
    /// Relative share of this ingredient against the others.
    pub parts: Fixed,
    /// Grams per milliliter, derived from weight and serving volume.
    pub density: Fixed,
    /// Reference serving volume in milliliters.
    pub volume: Fixed,
    /// Computed pour weight in grams.
    pub weight: Fixed,
    /// Unnormalized weight before the batch-wide scaling.
    pub intermediate_weight: Fixed,
}

impl Default for IngredientData {
    /// An empty record: no label, all quantities zero.
    fn default() -> (r: IngredientData)
        ensures
            r.alc_type@ == Seq::<char>::empty(),
            r.percentage.raw == 0,
            r.parts.raw == 0,
            r.density.raw == 0,
            r.volume.raw == 0,
            r.weight.raw == 0,
            r.intermediate_weight.raw == 0,
    {
        IngredientData {
            alc_type: String::new(),
            percentage: Fixed { raw: 0 },
            parts: Fixed { raw: 0 },
            density: Fixed { raw: 0 },
            volume: Fixed { raw: 0 },
            weight: Fixed { raw: 0 },
            intermediate_weight: Fixed { raw: 0 },
        }
    }
}

/// Largest alcohol percentage the engine accepts.
pub const MAX_PERCENTAGE: u64 = 100;

/// Powers of ten.
pub open spec fn pow10(n: nat) -> int
    decreases n,
{
    if n == 0 {
        1
    } else {
        10 * pow10((n - 1) as nat)
    }
}

/// Raw result of rounding `x` raw units to `place` decimal places, half
/// away from zero, saturating at the largest representable multiple of the
/// rounding step.
pub open spec fn round_spec(x: int, place: nat) -> int {
    let m = pow10(place);
    let step = (SCALE as int) / m;
    let t = (x * m + (SCALE as int) / 2) / (SCALE as int);
    if t > (u64::MAX as int) / step {
        ((u64::MAX as int) / step) * step
    } else if t < 0 {
        0
    } else {
        t * step
    }
}

/// Rounds a weight to `place` decimal places, half away from zero.
pub fn round_to_place(raw: Fixed, place: u32) -> (r: Fixed)
    requires
        place <= 9,
    ensures
        r.raw == round_spec(raw.raw as int, place as nat),
{
    let m: u64 = if place == 0 {
        1
    } else if place == 1 {
        10
    } else if place == 2 {
        100
    } else if place == 3 {
        1_000
    } else if place == 4 {
        10_000
    } else if place == 5 {
        100_000
    } else if place == 6 {
        1_000_000
    } else if place == 7 {
        10_000_000
    } else if place == 8 {
        100_000_000
    } else {
        1_000_000_000
    };
    proof {
        reveal_with_fuel(pow10, 11);
        assert(m == pow10(place as nat));
    }
    let step: u64 = SCALE / m;
    proof {
        lemma_div_non_zero(SCALE as int, m as int);
        assert((raw.raw as int) * (m as int) <= u64::MAX * 1_000_000_000) by (nonlinear_arith)
            requires
                raw.raw <= u64::MAX,
                m <= 1_000_000_000,
        ;
        lemma_mul_nonnegative(raw.raw as int, m as int);
        lemma_div_pos_is_pos((raw.raw as int) * (m as int) + (SCALE as int) / 2, SCALE as int);
    }
    let wide: u128 = ((raw.raw as u128) * (m as u128) + (SCALE / 2) as u128) / (SCALE as u128);
    let cap: u128 = (u64::MAX / step) as u128;
    let t: u128 = if wide > cap {
        cap
    } else {
        wide
    };
    proof {
        lemma_fundamental_div_mod(u64::MAX as int, step as int);
        lemma_mul_inequality(t as int, (u64::MAX as int) / (step as int), step as int);
    }
    Fixed { raw: (t as u64) * step }
}

/// Code the engine uses for a category when selecting the serving-volume
/// convention.
pub open spec fn cat_code(c: Category) -> int {
    match c {
        Category::Carbonated => 1,
        Category::Liqueur => 2,
        Category::Hard => 3,
    }
}

/// Raw per-standard-serving weight in grams of an ingredient of category
/// `c` at alcohol percentage `p` (raw units), from the category's
/// regression formula:
///
/// - Carbonated: `1772.6 * p^(-0.996)`
/// - Liqueur: `235.94 * e^(-0.044 * p)`
/// - Hard: `3062.9 * p^(-1.161)`
///
/// The powers are computed as `e^(k * ln p)`, with the logarithm taken of
/// `p` or of its reciprocal so that its fixed-point argument stays at one
/// or above.
pub open spec fn weight_raw_spec(c: Category, p: int) -> int {
    match c {
        Category::Carbonated => power_weight_spec(1_772_600_000_000, 996_000_000, p),
        Category::Liqueur => div_spec(235_940_000_000, exp_spec(mul_spec(44_000_000, p))),
        Category::Hard => power_weight_spec(3_062_900_000_000, 1_161_000_000, p),
    }
}

/// Raw value of `coefficient * p^(-k)`, `k` given in raw units.
pub open spec fn power_weight_spec(coefficient: int, k: int, p: int) -> int {
    if p >= SCALE {
        div_spec(coefficient, exp_spec(mul_spec(k, ln_spec(p))))
    } else {
        mul_spec(coefficient, exp_spec(mul_spec(k, ln_spec(div_spec(SCALE as int, p)))))
    }
}

/// Raw reference serving volume in milliliters for category code `code` at
/// alcohol percentage `p` (raw units): a 44.355 mL shot defined at 40
/// percent for hard liquors and liqueurs, a 354.84 mL serving defined at 5
/// percent for carbonated drinks, scaled to the actual percentage.
pub open spec fn volume_raw_spec(code: int, p: int) -> int {
    if code == 1 {
        mul_spec(div_spec(5_000_000_000, p), 354_840_000_000)
    } else if code == 2 || code == 3 {
        mul_spec(div_spec(40_000_000_000, p), 44_355_000_000)
    } else {
        0
    }
}

/// Classifies an ingredient and computes its per-standard-serving weight.
/// Returns the category code alongside the weight, which is always
/// positive.
pub fn calc_ingred_weight(alc_type: &str, percentage: Fixed) -> (r: (u32, Fixed))
    requires
        1 <= percentage.raw <= MAX_PERCENTAGE * SCALE,
    ensures
        r.0 == cat_code(category_of_label(alc_type@)),
        r.1.raw == weight_raw_spec(category_of_label(alc_type@), percentage.raw as int),
        r.1.raw >= 1,
{
    let cat = match_category(alc_type);
    match cat {
        Category::Carbonated => (
            1,
            power_weight(
                Fixed { raw: 1_772_600_000_000 },
                Fixed { raw: 996_000_000 },
                percentage,
            ),
        ),
        Category::Liqueur => {
            let e = exp_pos(fmul(Fixed { raw: 44_000_000 }, percentage));
            let w = fdiv(Fixed { raw: 235_940_000_000 }, e);
            proof {
                assert(235_940_000_000int * (SCALE as int)
                    == 235_940_000_000_000_000_000int) by (nonlinear_arith);
                lemma_div_non_zero(235_940_000_000int * (SCALE as int), e.raw as int);
            }
            (2, w)
        },
        Category::Hard => (
            3,
            power_weight(
                Fixed { raw: 3_062_900_000_000 },
                Fixed { raw: 1_161_000_000 },
                percentage,
            ),
        ),
    }
}

/// Computes `coefficient * p^(-k)` through the fixed-point exponential and
/// logarithm.
fn power_weight(coefficient: Fixed, k: Fixed, p: Fixed) -> (r: Fixed)
    requires
        1 <= p.raw,
        20 * SCALE <= coefficient.raw,
    ensures
        r.raw == power_weight_spec(coefficient.raw as int, k.raw as int, p.raw as int),
        r.raw >= 1,
{
    if p.raw >= SCALE {
        let e = exp_pos(fmul(k, ln_pos(p)));
        let w = fdiv(coefficient, e);
        proof {
            let c = coefficient.raw as int;
            let s = SCALE as int;
            assert(c * s >= 20_000_000_000_000_000_000int) by (nonlinear_arith)
                requires
                    c >= 20_000_000_000,
                    s == 1_000_000_000,
            ;
            lemma_div_non_zero(c * s, e.raw as int);
        }
        w
    } else {
        let inv = fdiv(Fixed { raw: SCALE }, p);
        proof {
            let s = SCALE as int;
            assert(s * s == 1_000_000_000_000_000_000int) by (nonlinear_arith)
                requires
                    s == 1_000_000_000,
            ;
            lemma_div_nonincreasing(s * s, p.raw as int);
            lemma_div_is_ordered_by_denominator(s * s, p.raw as int, s - 1);
            assert(1_000_000_001int * 999_999_999int == 999_999_999_999_999_999int)
                by (nonlinear_arith);
            lemma_fundamental_div_mod_converse_div(
                1_000_000_000_000_000_000int,
                999_999_999int,
                1_000_000_001int,
                1int,
            );
            assert((s * s) / (s - 1) >= s);
        }
        let e = exp_pos(fmul(k, ln_pos(inv)));
        let w = fmul(coefficient, e);
        proof {
            let c = coefficient.raw as int;
            let ev = e.raw as int;
            let s = SCALE as int;
            assert(c * ev >= c * s) by (nonlinear_arith)
                requires
                    c >= 0,
                    ev >= s,
            ;
            lemma_div_is_ordered(c * s, c * ev, s);
            lemma_div_multiples_vanish(c, s);
        }
        w
    }
}

/// Computes the reference serving volume for category code `code` at
/// alcohol percentage `p`.  For the three codes the engine produces, the
/// volume is always positive.
pub fn calc_volume(alc_type: u32, percentage: Fixed) -> (r: Fixed)
    requires
        1 <= percentage.raw <= MAX_PERCENTAGE * SCALE,
    ensures
        r.raw == volume_raw_spec(alc_type as int, percentage.raw as int),
        1 <= alc_type <= 3 ==> r.raw >= 1,
{
    if alc_type == 1 {
        let d = fdiv(Fixed { raw: 5_000_000_000 }, percentage);
        let v = fmul(d, Fixed { raw: 354_840_000_000 });
        proof {
            lemma_volume_positive(5_000_000_000, 354_840_000_000, percentage.raw as int);
        }
        v
    } else if alc_type == 2 || alc_type == 3 {
        let d = fdiv(Fixed { raw: 40_000_000_000 }, percentage);
        let v = fmul(d, Fixed { raw: 44_355_000_000 });
        proof {
            lemma_volume_positive(40_000_000_000, 44_355_000_000, percentage.raw as int);
        }
        v
    } else {
        Fixed { raw: 0 }
    }
}

/// The category an ingredient record is classified to.
pub open spec fn item_category(d: IngredientData) -> Category {
    category_of_label(d.alc_type@)
}

/// Raw per-standard-serving weight of an ingredient record.
pub open spec fn item_weight(d: IngredientData) -> int {
    weight_raw_spec(item_category(d), d.percentage.raw as int)
}

/// Raw reference serving volume of an ingredient record.
pub open spec fn item_volume(d: IngredientData) -> int {
    volume_raw_spec(cat_code(item_category(d)), d.percentage.raw as int)
}

/// Raw density of an ingredient record: weight per serving volume.
pub open spec fn item_density(d: IngredientData) -> int {
    div_spec(item_weight(d), item_volume(d))
}

/// Raw intermediate weight of ingredient `i` of a batch: the first
/// ingredient anchors at its own per-serving weight, every other one scales
/// the reference volume by the ratio of parts and converts to weight
/// through its own density.
pub open spec fn item_intermediate(s: Seq<IngredientData>, i: int) -> int {
    if i == 0 {
        item_weight(s[0])
    } else {
        mul_spec(
            div_spec(mul_spec(item_volume(s[0]), s[i].parts.raw as int), s[0].parts.raw as int),
            item_density(s[i]),
        )
    }
}

/// Ingredient `i` of a batch with its derived fields filled in and its
/// final weight still holding the per-serving weight.
pub open spec fn measured_item(s: Seq<IngredientData>, i: int) -> IngredientData {
    IngredientData {
        density: (Fixed { raw: item_density(s[i]) as u64 }),
        volume: (Fixed { raw: item_volume(s[i]) as u64 }),
        weight: (Fixed { raw: item_weight(s[i]) as u64 }),
        intermediate_weight: (Fixed { raw: item_intermediate(s, i) as u64 }),
        ..s[i]
    }
}

/// A batch with every ingredient measured.
pub open spec fn measured_seq(s: Seq<IngredientData>) -> Seq<IngredientData> {
    Seq::new(s.len(), |i: int| measured_item(s, i))
}

/// Fixed-point sum over a measured batch of each intermediate weight
/// divided by the per-serving weight.
pub open spec fn scalar_sum_spec(s: Seq<IngredientData>) -> int
    decreases s.len(),
{
    if s.len() == 0 {
        0
    } else {
        add_spec(
            scalar_sum_spec(s.drop_last()),
            div_spec(s.last().intermediate_weight.raw as int, s.last().weight.raw as int),
        )
    }
}

/// Raw batch scalar normalizing the intermediate weights to the drink
/// count.
pub open spec fn batch_scalar(s: Seq<IngredientData>, drinks: Fixed) -> int {
    div_spec(drinks.raw as int, scalar_sum_spec(measured_seq(s)))
}

/// Whether one ingredient's numeric inputs are in the supported range: the
/// percentage positive and at most one hundred, and, when the batch has
/// more than one ingredient, the parts positive.
pub open spec fn ingredient_ready(d: IngredientData, multi: bool) -> bool {
    &&& 1 <= d.percentage.raw
    &&& d.percentage.raw <= MAX_PERCENTAGE * SCALE
    &&& (multi ==> d.parts.raw >= 1)
}

/// Whether a whole batch and the drink count are in the supported range.
pub open spec fn batch_ready(s: Seq<IngredientData>, drinks: Fixed) -> bool {
    &&& drinks.raw >= 1
    &&& forall|i: int| 0 <= i < s.len() ==> ingredient_ready(#[trigger] s[i], s.len() > 1)
}

/// Result of the single-ingredient path: only the weight is written, with
/// the per-serving weight scaled by the drink count and rounded to one
/// decimal place.
pub open spec fn single_weights_spec(s: Seq<IngredientData>, drinks: Fixed) -> Seq<
    IngredientData,
> {
    s.update(
        0,
        IngredientData {
            weight: (
            Fixed { raw: round_spec(mul_spec(drinks.raw as int, item_weight(s[0])), 1) as u64 }
            ),
            ..s[0]
        },
    )
}

/// Result of the multi-ingredient path: every ingredient measured, then
/// every intermediate weight scaled by the batch scalar and rounded to one
/// decimal place.
pub open spec fn multi_weights_spec(s: Seq<IngredientData>, drinks: Fixed) -> Seq<
    IngredientData,
> {
    Seq::new(
        s.len(),
        |i: int|
            IngredientData {
                weight: (
                Fixed {
                    raw: round_spec(
                        mul_spec(batch_scalar(s, drinks), item_intermediate(s, i)),
                        1,
                    ) as u64,
                }
                ),
                ..measured_item(s, i)
            },
    )
}

/// What a ready batch holds after the engine has run.
pub open spec fn weights_spec(s: Seq<IngredientData>, drinks: Fixed) -> Seq<IngredientData> {
    if s.len() == 1 {
        single_weights_spec(s, drinks)
    } else {
        multi_weights_spec(s, drinks)
    }
}

/// The scaled reference volume `mul_spec(div_spec(abv, p), reference)` is
/// at least one raw unit whenever the percentage is in the supported
/// range.
proof fn lemma_volume_positive(abv: int, reference: int, p: int)
    requires
        5_000_000_000 <= abv,
        44_355_000_000 <= reference,
        1 <= p <= MAX_PERCENTAGE * SCALE,
    ensures
        mul_spec(div_spec(abv, p), reference) >= 1,
{
    let s = SCALE as int;
    let d = (abv * s) / p;
    assert(abv * s >= 5_000_000_000_000_000_000int) by (nonlinear_arith)
        requires
            abv >= 5_000_000_000,
            s == 1_000_000_000,
    ;
    lemma_div_is_ordered_by_denominator(abv * s, p, 100_000_000_000int);
    lemma_div_is_ordered(5_000_000_000_000_000_000int, abv * s, 100_000_000_000int);
    assert(50_000_000int * 100_000_000_000int == 5_000_000_000_000_000_000int)
        by (nonlinear_arith);
    lemma_fundamental_div_mod_converse_div(
        5_000_000_000_000_000_000int,
        100_000_000_000int,
        50_000_000int,
        0int,
    );
    assert(d >= 50_000_000);
    let dv = div_spec(abv, p);
    assert(dv >= 50_000_000);
    assert(dv * reference >= 2_217_750_000_000_000_000int) by (nonlinear_arith)
        requires
            dv >= 50_000_000,
            reference >= 44_355_000_000,
    ;
    lemma_div_is_ordered(2_217_750_000_000_000_000int, dv * reference, s);
    assert(2_217_750_000_000_000_000int / s >= 1) by {
        lemma_div_non_zero(2_217_750_000_000_000_000int, s);
    }
}

/// The sum over a batch is bounded below by its first term, and is never
/// negative.
proof fn lemma_scalar_sum_first(s: Seq<IngredientData>)
    requires
        forall|i: int| 0 <= i < s.len() ==> #[trigger] s[i].weight.raw >= 1,
    ensures
        scalar_sum_spec(s) >= 0,
        s.len() >= 1 ==> scalar_sum_spec(s) >= div_spec(
            s[0].intermediate_weight.raw as int,
            s[0].weight.raw as int,
        ),
    decreases s.len(),
{
    if s.len() == 0 {
    } else {
        let last = s.last();
        lemma_mul_nonnegative(last.intermediate_weight.raw as int, SCALE as int);
        lemma_div_pos_is_pos(
            (last.intermediate_weight.raw as int) * (SCALE as int),
            last.weight.raw as int,
        );
        lemma_scalar_sum_first(s.drop_last());
        if s.len() >= 2 {
            assert(s.drop_last()[0] == s[0]);
        }
    }
}

/// Computes the batch scalar: the drink count divided by the sum over the
/// measured batch of each intermediate weight relative to one standard
/// serving.
pub fn calc_scalar(data: &Vec<IngredientData>, num_drinks: Fixed) -> (r: Fixed)
    requires
        forall|i: int| 0 <= i < data@.len() ==> #[trigger] data@[i].weight.raw >= 1,
        scalar_sum_spec(data@) >= 1,
    ensures
        r.raw == div_spec(num_drinks.raw as int, scalar_sum_spec(data@)),
{
    let mut sum = Fixed { raw: 0 };
    let mut i: usize = 0;
    let n = data.len();
    while i < n
        invariant
            i <= n,
            n == data@.len(),
            forall|j: int| 0 <= j < n ==> #[trigger] data@[j].weight.raw >= 1,
            sum.raw == scalar_sum_spec(data@.subrange(0, i as int)),
        decreases n - i,
    {
        let term = fdiv(data[i].intermediate_weight, data[i].weight);
        sum = fadd(sum, term);
        proof {
            let pre = data@.subrange(0, i as int);
            let post = data@.subrange(0, i + 1 as int);
            assert(post.drop_last() =~= pre);
            assert(post.last() == data@[i as int]);
        }
        i = i + 1;
    }
    proof {
        assert(data@.subrange(0, n as int) =~= data@);
    }
    fdiv(num_drinks, sum)
}

/// Rounding to one decimal place always lands on a whole number of tenths.
proof fn lemma_round_one_decimal(x: int)
    ensures
        round_spec(x, 1) % 100_000_000 == 0,
        0 <= round_spec(x, 1) <= u64::MAX,
{
    reveal_with_fuel(pow10, 2);
    assert(100_000_000int * 10int == 1_000_000_000int) by (nonlinear_arith);
    lemma_fundamental_div_mod_converse_div(SCALE as int, 10int, 100_000_000int, 0int);
    assert((SCALE as int) / pow10(1) == 100_000_000);
    let step = 100_000_000int;
    let cap = (u64::MAX as int) / step;
    let t = (x * 10 + (SCALE as int) / 2) / (SCALE as int);
    lemma_fundamental_div_mod(u64::MAX as int, step);
    lemma_mul_nonnegative(cap, step);
    if t > cap {
        lemma_mod_multiples_basic(cap, step);
    } else if t < 0 {
    } else {
        lemma_mod_multiples_basic(t, step);
        lemma_mul_nonnegative(t, step);
        lemma_mul_inequality(t, cap, step);
    }
}

/// Every weight the engine writes is a whole number of tenths of a gram:
/// both paths round to one decimal place.
pub proof fn lemma_weights_one_decimal(s: Seq<IngredientData>, drinks: Fixed)
    requires
        s.len() >= 1,
    ensures
        forall|i: int|
            0 <= i < weights_spec(s, drinks).len() ==> (#[trigger] weights_spec(
                s,
                drinks,
            )[i].weight.raw) as int % 100_000_000 == 0,
{
    let w = weights_spec(s, drinks);
    assert forall|i: int| 0 <= i < w.len() implies (#[trigger] w[i].weight.raw) as int
        % 100_000_000 == 0 by {
        if s.len() == 1 {
            lemma_round_one_decimal(mul_spec(drinks.raw as int, item_weight(s[0])));
        } else {
            lemma_round_one_decimal(
                mul_spec(batch_scalar(s, drinks), item_intermediate(s, i)),
            );
        }
    }
}

/// Fills in the pour weight of every ingredient of the batch for the given
/// drink count.
///
/// The call is atomic: it validates the batch up front and, on any error,
/// leaves it untouched.  An empty batch fails with
/// [`CalcError::EmptyInput`]; a drink count of zero, a percentage of zero
/// or above one hundred, or — in a batch of several ingredients — a parts
/// share of zero fails with [`CalcError::InvalidInput`].  Otherwise the
/// call succeeds and the batch holds exactly [`weights_spec`] of its old
/// value, every weight rounded to one decimal place.
#[verifier::rlimit(100)]
pub fn calc_weights(data: &mut Vec<IngredientData>, num_drinks: Fixed) -> (r: Result<(), CalcError>)
    ensures
        old(data)@.len() == 0 ==> r == Err::<(), CalcError>(CalcError::EmptyInput),
        old(data)@.len() > 0 && !batch_ready(old(data)@, num_drinks) ==> r == Err::<(), CalcError>(CalcError::InvalidInput),
        r is Err ==> final(data)@ == old(data)@,
        old(data)@.len() > 0 && batch_ready(old(data)@, num_drinks) ==> r == Ok::<(), CalcError>(()),
        r is Ok ==> final(data)@ == weights_spec(old(data)@, num_drinks),
        r is Ok ==> forall|i: int|
            0 <= i < final(data)@.len() ==> #[trigger] final(data)@[i].weight.raw as int
                % 100_000_000 == 0,
{
    if data.is_empty() {
        return Err(CalcError::EmptyInput);
    }
    if num_drinks.raw < 1 {
        return Err(CalcError::InvalidInput);
    }
    let n = data.len();
    let multi = n > 1;
    let mut i: usize = 0;
    while i < n
        invariant
            i <= n,
            n == data@.len(),
            multi == (n > 1),
            data@ == old(data)@,
            forall|j: int| 0 <= j < i ==> ingredient_ready(#[trigger] data@[j], multi),
        decreases n - i,
    {
        let p = data[i].percentage.raw;
        if p < 1 || p > MAX_PERCENTAGE * SCALE || (multi && data[i].parts.raw < 1) {
            return Err(CalcError::InvalidInput);
        }
        i = i + 1;
    }
    assert(batch_ready(old(data)@, num_drinks));

    if n == 1 {
        let r = calc_ingred_weight(&data[0].alc_type, data[0].percentage);
        let scaled = fmul(num_drinks, r.1);
        let rounded = round_to_place(scaled, 1);
        data[0].weight = rounded;
        proof {
            assert(data@ =~= single_weights_spec(old(data)@, num_drinks));
            lemma_weights_one_decimal(old(data)@, num_drinks);
        }
        return Ok(());
    }
    calc_weights_multi(data, num_drinks);
    proof {
        lemma_weights_one_decimal(old(data)@, num_drinks);
    }
    Ok(())
}

/// The multi-ingredient path: measures every ingredient, computes the batch
/// scalar, and writes the scaled, rounded weights.
fn calc_weights_multi(data: &mut Vec<IngredientData>, num_drinks: Fixed)
    requires
        old(data)@.len() >= 2,
        batch_ready(old(data)@, num_drinks),
    ensures
        final(data)@ == multi_weights_spec(old(data)@, num_drinks),
{
    let n = data.len();
    let mut v0 = Fixed { raw: 0 };
    let mut parts0 = Fixed { raw: 1 };
    let mut i: usize = 0;
    while i < n
        invariant
            i <= n,
            n >= 2,
            n == data@.len(),
            n == old(data)@.len(),
            batch_ready(old(data)@, num_drinks),
            forall|j: int| i <= j < n ==> data@[j] == old(data)@[j],
            forall|j: int| 0 <= j < i ==> data@[j] == measured_item(old(data)@, j),
            forall|j: int| 0 <= j < i ==> #[trigger] data@[j].weight.raw >= 1,
            forall|j: int|
                0 <= j < i ==> (#[trigger] data@[j].weight.raw) as int == item_weight(
                    old(data)@[j],
                ),
            forall|j: int|
                0 <= j < i ==> (#[trigger] data@[j].intermediate_weight.raw) as int
                    == item_intermediate(old(data)@, j),
            i >= 1 ==> v0.raw as int == item_volume(old(data)@[0]) && parts0 == old(data)@[0].parts,
        decreases n - i,
    {
        let r = calc_ingred_weight(&data[i].alc_type, data[i].percentage);
        let w = r.1;
        let v = calc_volume(r.0, data[i].percentage);
        let d = fdiv(w, v);
        let iw = if i == 0 {
            w
        } else {
            fmul(fdiv(fmul(v0, data[i].parts), parts0), d)
        };
        data[i].weight = w;
        data[i].volume = v;
        data[i].density = d;
        data[i].intermediate_weight = iw;
        if i == 0 {
            v0 = v;
            parts0 = data[i].parts;
        }
        i = i + 1;
    }
    proof {
        assert(data@ =~= measured_seq(old(data)@));
        let m = measured_seq(old(data)@);
        let w0 = data@[0].weight.raw as int;
        assert(w0 >= 1);
        assert(m[0].intermediate_weight.raw as int == w0);
        assert(m[0].weight.raw as int == w0);
        lemma_div_multiples_vanish(SCALE as int, w0);
        assert((w0 * (SCALE as int)) / w0 == SCALE) by {
            assert(w0 * (SCALE as int) == (SCALE as int) * w0) by (nonlinear_arith);
            lemma_div_multiples_vanish(SCALE as int, w0);
        }
        assert(div_spec(m[0].intermediate_weight.raw as int, m[0].weight.raw as int)
            == SCALE as int);
        lemma_scalar_sum_first(m);
    }
    let scalar = calc_scalar(data, num_drinks);
    let mut i: usize = 0;
    while i < n
        invariant
            i <= n,
            n >= 2,
            n == data@.len(),
            n == old(data)@.len(),
            scalar.raw as int == batch_scalar(old(data)@, num_drinks),
            forall|j: int| i <= j < n ==> data@[j] == measured_item(old(data)@, j),
            forall|j: int|
                i <= j < n ==> (#[trigger] data@[j].intermediate_weight.raw) as int
                    == item_intermediate(old(data)@, j),
            forall|j: int| 0 <= j < i ==> data@[j] == multi_weights_spec(
                old(data)@,
                num_drinks,
            )[j],
        decreases n - i,
    {
        let scaled = fmul(scalar, data[i].intermediate_weight);
        let rounded = round_to_place(scaled, 1);
        data[i].weight = rounded;
        i = i + 1;
    }
    proof {
        assert(data@ =~= multi_weights_spec(old(data)@, num_drinks));
    }
}

/// Raw single-ingredient weight before rounding: the per-serving weight of
/// category `c` at percentage `p` scaled by the drink count.
pub open spec fn single_unrounded_spec(c: Category, p: int, drinks_raw: int) -> int {
    mul_spec(drinks_raw, weight_raw_spec(c, p))
}

/// Before rounding, the single-ingredient weight is exactly linear in a
/// whole-number drink count: serving `factor` times as many drinks weighs
/// `factor` times as much, as long as the total stays representable.
pub proof fn lemma_single_weight_linear(c: Category, p: int, count: nat, factor: nat)
    requires
        factor * count * weight_raw_spec(c, p) <= u64::MAX,
    ensures
        single_unrounded_spec(c, p, ((factor * count) as int) * (SCALE as int)) == factor
            * single_unrounded_spec(c, p, (count as int) * (SCALE as int)),
{
    let w = weight_raw_spec(c, p);
    let s = SCALE as int;
    assert(0 <= w <= u64::MAX);
    if factor == 0 {
        assert(mul_spec(0 * s, w) == sat64((0 * s) * w / s));
        assert((0 * s) * w == 0) by (nonlinear_arith);
    } else {
        let f = factor as int;
        let k = count as int;
        let cw = k * w;
        let fcw = (f * k) * w;
        assert((k * s) * w == s * (k * w)) by (nonlinear_arith);
        assert(((f * k) * s) * w == s * ((f * k) * w)) by (nonlinear_arith);
        lemma_mul_nonnegative(k, w);
        lemma_mul_nonnegative(f * k, w);
        lemma_div_multiples_vanish(cw, s);
        lemma_div_multiples_vanish(fcw, s);
        assert((f * k) * w == f * (k * w)) by (nonlinear_arith);
        assert(k * w <= (f * k) * w) by (nonlinear_arith)
            requires
                f >= 1,
                k >= 0,
                w >= 0,
        ;
    }
}

/// Whether two ingredient records carry the same caller-supplied inputs.
pub open spec fn same_inputs(a: IngredientData, b: IngredientData) -> bool {
    a.alc_type == b.alc_type && a.percentage == b.percentage && a.parts == b.parts
}

/// Running the engine a second time over its own output, with the same
/// drink count, changes nothing: the engine reads only the label, the
/// percentage and the parts of each ingredient, and it preserves all
/// three.
pub proof fn lemma_calc_weights_idempotent(s: Seq<IngredientData>, drinks: Fixed)
    requires
        s.len() >= 1,
    ensures
        weights_spec(weights_spec(s, drinks), drinks) == weights_spec(s, drinks),
{
    let t = weights_spec(s, drinks);
    if s.len() == 1 {
        assert(t.len() == 1);
        assert(same_inputs(t[0], s[0]));
        assert(item_weight(t[0]) == item_weight(s[0]));
        assert(weights_spec(t, drinks) =~= t);
    } else {
        assert(t.len() == s.len());
        assert(forall|i: int| 0 <= i < s.len() ==> same_inputs(#[trigger] t[i], s[i]));
        assert forall|i: int| 0 <= i < s.len() implies measured_item(t, i) == measured_item(
            s,
            i,
        ) && item_intermediate(t, i) == item_intermediate(s, i) by {
            assert(item_weight(t[i]) == item_weight(s[i]));
            assert(item_volume(t[i]) == item_volume(s[i]));
            assert(item_volume(t[0]) == item_volume(s[0]));
        }
        assert(measured_seq(t) =~= measured_seq(s));
        assert(batch_scalar(t, drinks) == batch_scalar(s, drinks));
        assert(weights_spec(t, drinks) =~= t);
    }
}

} // verus!
