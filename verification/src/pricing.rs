//! Base prices by breed and the appraisal of a cow from its feeding record.

use vstd::prelude::*;
use crate::constants::{
    FORGET_FINE, HALLIKAR_PRICE, HEREFORD_PRICE, HOLSTEIN_PRICE, JERSEY_PRICE, LATE_REWARD,
    LIMOUSIN_PRICE, ON_TIME_REWARD, PRECISION_100_PERCENT, SIMMENTAL_PRICE, STROOPS_PER_UNIT,
};
use crate::enums::CowBreed;
use crate::types::{CowData, CowFeedingStats};

verus! {

/// The price table, in native units.
pub open spec fn base_price_in_units(breed: CowBreed) -> int {
    match breed {
        CowBreed::Jersey => 1000,
        CowBreed::Limousin => 1000,
        CowBreed::Hallikar => 1000,
        CowBreed::Hereford => 5000,
        CowBreed::Holstein => 15000,
        CowBreed::Simmental => 15000,
    }
}

/// The price table, in stroops.
pub open spec fn base_price_in_stroops(breed: CowBreed) -> int {
    base_price_in_units(breed) * 10_000_000
}

/// What a cow of the given breed costs, in stroops.
pub fn get_cow_base_price_in_stroops(breed: &CowBreed) -> (price: i128)
    ensures
        price == base_price_in_stroops(*breed),
        price > 0,
{
    let cow_price_in_native_token: i128 = match breed {
        CowBreed::Jersey => JERSEY_PRICE,
        CowBreed::Limousin => LIMOUSIN_PRICE,
        CowBreed::Hallikar => HALLIKAR_PRICE,
        CowBreed::Hereford => HEREFORD_PRICE,
        CowBreed::Holstein => HOLSTEIN_PRICE,
        CowBreed::Simmental => SIMMENTAL_PRICE,
    };
    cow_price_in_native_token * STROOPS_PER_UNIT
}

/// The quotient of `x` by a positive `d`, rounded toward zero.
pub open spec fn div_toward_zero(x: int, d: int) -> int {
    if x >= 0 {
        x / d
    } else {
        -((-x) / d)
    }
}

/// The change of price that a feeding record earns, in hundredths of a
/// percent: rewards less fines, and never less than minus the whole price.
pub open spec fn appraisal_multiplier(stats: CowFeedingStats) -> int {
    let raw = stats.on_time * 50 + stats.late * 25 - stats.forget * 100;
    if raw < -10_000 {
        -10_000
    } else {
        raw
    }
}

/// The appraised price: the base price plus its share by the multiplier,
/// the share rounded toward zero.
pub open spec fn appraisal_price(stats: CowFeedingStats, base_price: int) -> int {
    base_price + div_toward_zero(base_price * appraisal_multiplier(stats), 10_000)
}

/// Whether the appraisal of `base_price` can be computed in 128 bits.
pub open spec fn appraisal_fits(stats: CowFeedingStats, base_price: int) -> bool {
    &&& i128::MIN <= base_price * appraisal_multiplier(stats) <= i128::MAX
    &&& i128::MIN <= appraisal_price(stats, base_price) <= i128::MAX
}

/// What the cow is worth, given the base price of its breed.
pub fn get_cow_appraisal_price(cow_data: &CowData, cow_base_price: i128) -> (price: i128)
    requires
        appraisal_fits(cow_data.feeding_stats, cow_base_price as int),
    ensures
        price == appraisal_price(cow_data.feeding_stats, cow_base_price as int),
{
    let on_time_rewards: i128 = (cow_data.feeding_stats.on_time as i128) * ON_TIME_REWARD;
    let late_rewards: i128 = (cow_data.feeding_stats.late as i128) * LATE_REWARD;
    let forget_fines: i128 = (cow_data.feeding_stats.forget as i128) * FORGET_FINE;
    let mut rewards_fines_multiplier: i128 = on_time_rewards + late_rewards - forget_fines;
    if rewards_fines_multiplier < -PRECISION_100_PERCENT {
        rewards_fines_multiplier = -PRECISION_100_PERCENT;
    }
    let product: i128 = cow_base_price * rewards_fines_multiplier;
    let rewards_or_fines: i128 = product / PRECISION_100_PERCENT;
    cow_base_price + rewards_or_fines
}

/// Rounding toward zero keeps the order of the numerators.
pub proof fn div_toward_zero_is_monotone(x: int, y: int, d: int)
    requires
        x <= y,
        d > 0,
    ensures
        div_toward_zero(x, d) <= div_toward_zero(y, d),
{
    if x >= 0 {
        assert(x / d <= y / d) by (nonlinear_arith)
            requires
                0 <= x <= y,
                d > 0,
        ;
    } else if y < 0 {
        assert((-y) / d <= (-x) / d) by (nonlinear_arith)
            requires
                0 <= -y <= -x,
                d > 0,
        ;
    } else {
        assert((-x) / d >= 0) by (nonlinear_arith)
            requires
                -x >= 0,
                d > 0,
        ;
        assert(y / d >= 0) by (nonlinear_arith)
            requires
                y >= 0,
                d > 0,
        ;
    }
}

/// A whole multiple of the divisor is divided without rounding.
pub proof fn div_toward_zero_of_multiple(q: int, d: int)
    requires
        d > 0,
    ensures
        div_toward_zero(q * d, d) == q,
{
    if q >= 0 {
        assert(q * d >= 0 && (q * d) / d == q) by (nonlinear_arith)
            requires
                q >= 0,
                d > 0,
        ;
    } else {
        assert(q * d < 0 && (-(q * d)) / d == -q) by (nonlinear_arith)
            requires
                q < 0,
                d > 0,
        ;
    }
}

/// The price of a base that is not negative grows, or stays, with the multiplier.
proof fn price_follows_multiplier(a: CowFeedingStats, b: CowFeedingStats, base_price: int)
    requires
        base_price >= 0,
        appraisal_multiplier(a) <= appraisal_multiplier(b),
    ensures
        appraisal_price(a, base_price) <= appraisal_price(b, base_price),
{
    let ma = appraisal_multiplier(a);
    let mb = appraisal_multiplier(b);
    assert(base_price * ma <= base_price * mb) by (nonlinear_arith)
        requires
            base_price >= 0,
            ma <= mb,
    ;
    div_toward_zero_is_monotone(base_price * ma, base_price * mb, 10_000);
}

/// A cow that was fed on time more often, with the other counters as they
/// were, is worth at least as much, whatever base price (not negative) it has.
pub proof fn appraisal_grows_with_on_time(
    stats: CowFeedingStats,
    on_time: u32,
    base_price: int,
)
    requires
        base_price >= 0,
        stats.on_time <= on_time,
    ensures
        appraisal_price(stats, base_price) <= appraisal_price(
            CowFeedingStats { on_time, ..stats },
            base_price,
        ),
{
    price_follows_multiplier(stats, CowFeedingStats { on_time, ..stats }, base_price);
}

/// A cow that was forgotten more often, with the other counters as they
/// were, is worth at most as much, whatever base price (not negative) it has.
pub proof fn appraisal_falls_with_forget(stats: CowFeedingStats, forget: u32, base_price: int)
    requires
        base_price >= 0,
        stats.forget <= forget,
    ensures
        appraisal_price(CowFeedingStats { forget, ..stats }, base_price) <= appraisal_price(
            stats,
            base_price,
        ),
{
    price_follows_multiplier(CowFeedingStats { forget, ..stats }, stats, base_price);
}

/// The appraisal of a base price that is not negative is never negative: at
/// worst, with the multiplier at its floor, it is 0.
pub proof fn appraisal_is_never_negative(stats: CowFeedingStats, base_price: int)
    requires
        base_price >= 0,
    ensures
        appraisal_price(stats, base_price) >= 0,
        appraisal_multiplier(stats) == -10_000 ==> appraisal_price(stats, base_price) == 0,
{
    let m = appraisal_multiplier(stats);
    assert(base_price * (-10_000) <= base_price * m) by (nonlinear_arith)
        requires
            base_price >= 0,
            -10_000 <= m,
    ;
    div_toward_zero_of_multiple(-base_price, 10_000);
    div_toward_zero_is_monotone(base_price * (-10_000), base_price * m, 10_000);
}

/// The appraisal of a breed's base price always fits in 128 bits, so that
/// every cow of the farm can be appraised.
pub proof fn appraisal_of_a_breed_fits(stats: CowFeedingStats, breed: CowBreed)
    ensures
        appraisal_fits(stats, base_price_in_stroops(breed)),
        appraisal_price(stats, base_price_in_stroops(breed)) >= 0,
{
    let base = base_price_in_stroops(breed);
    let m = appraisal_multiplier(stats);
    assert(base * (-10_000) <= base * m <= base * 322_122_547_125) by (nonlinear_arith)
        requires
            base > 0,
            -10_000 <= m <= 322_122_547_125,
    ;
    assert(base * 322_122_547_125 <= 150_000_000_000 * 322_122_547_125) by (nonlinear_arith)
        requires
            0 < base <= 150_000_000_000,
    ;
    assert(base * (-10_000) >= 150_000_000_000 * (-10_000)) by (nonlinear_arith)
        requires
            0 < base <= 150_000_000_000,
    ;
    appraisal_is_never_negative(stats, base);
    let top: int = 48_318_382_068_750_000_000_000;
    div_toward_zero_of_multiple(4_831_838_206_875_000_000, 10_000);
    div_toward_zero_is_monotone(base * m, top, 10_000);
}

} // verus!
