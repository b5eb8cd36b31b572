use crate::fixed::{clamp, round_div, round_div_sat, UNIT};
use crate::jobs::Job;
use crate::processors::{DaemonPenalty, ProcessorState};
use crate::random::draw_in;
use vstd::prelude::*;

verus! {

/// Credits charged per unit of power draw each day.
pub const ELECTRICITY_RATE: u64 = 4;

/// Slowest speed a duration is computed with (millionths).
pub const MIN_SPEED: u64 = 100_000;

/// Milliseconds a job of `base_time` takes at `speed`, stretched by `multiplier`
/// (both millionths): rounded, at least 1.
pub open spec fn duration_spec(base_time: int, speed: int, multiplier: int) -> int {
    clamp(round_div(base_time * multiplier, vstd::math::max(speed, MIN_SPEED as int)), 1, u64::MAX as int)
}

pub open spec fn penalty_multiplier(penalty: Option<&DaemonPenalty>) -> int {
    match penalty {
        Some(p) => p.time_multiplier as int,
        None => UNIT as int,
    }
}

pub open spec fn penalty_quality(penalty: Option<&DaemonPenalty>) -> int {
    match penalty {
        Some(p) => p.quality as int,
        None => 0,
    }
}

/// Quality of a finished job, for a noise draw in `[-4, 4]`.
pub open spec fn quality_spec(target: int, bias: int, noise: int, penalty: int) -> int {
    clamp(target + bias + noise + penalty, 0, 100)
}

/// `base_reward * (0.7 + quality / 200)`, rounded.
pub open spec fn payout_spec(base_reward: int, quality: int) -> int {
    clamp(round_div(base_reward * (140 + quality), 200), 0, u64::MAX as int)
}

pub open spec fn passive_income_spec(stored: int) -> int {
    if stored == 0 {
        0
    } else {
        vstd::math::max(1, round_div(stored, 20))
    }
}

pub open spec fn upkeep_sum(ps: Seq<ProcessorState>) -> int
    decreases ps.len(),
{
    if ps.len() == 0 {
        0
    } else {
        upkeep_sum(ps.drop_last()) + ps.last().upkeep_cost
    }
}

pub open spec fn power_sum(ps: Seq<ProcessorState>) -> int
    decreases ps.len(),
{
    if ps.len() == 0 {
        0
    } else {
        power_sum(ps.drop_last()) + ps.last().last_power_draw
    }
}

pub open spec fn electricity_spec(ps: Seq<ProcessorState>) -> int {
    clamp(round_div(ELECTRICITY_RATE * power_sum(ps), UNIT as int), 0, u64::MAX as int)
}

pub fn assignment_duration_ms(
    job: &Job,
    processor: &ProcessorState,
    penalty: Option<&DaemonPenalty>,
) -> (r: u64)
    ensures
        r == duration_spec(
            job.base_time_ms as int,
            processor.speed as int,
            penalty_multiplier(penalty),
        ),
{
    let multiplier: u64 = match penalty {
        Some(p) => p.time_multiplier as u64,
        None => UNIT,
    };
    let speed: u64 = if (processor.speed as u64) < MIN_SPEED { MIN_SPEED } else { processor.speed as u64 };
    assert(job.base_time_ms as u128 * multiplier as u128 <= u64::MAX as u128 * 0x1_0000_0000)
        by (nonlinear_arith)
        requires
            job.base_time_ms <= u64::MAX,
            multiplier < 0x1_0000_0000,
    ;
    let n: u128 = job.base_time_ms as u128 * multiplier as u128;
    let d = round_div_sat(n, speed as u128);
    if d < 1 { 1 } else { d }
}

/// The quality of a job finished with the given noise draw.
pub fn quality_for_noise(
    job: &Job,
    processor: &ProcessorState,
    penalty: Option<&DaemonPenalty>,
    noise: i8,
) -> (r: u8)
    ensures
        r == quality_spec(
            job.quality_target as int,
            processor.quality_bias as int,
            noise as int,
            penalty_quality(penalty),
        ),
{
    let mut quality: i16 = job.quality_target as i16 + processor.quality_bias as i16 + noise as i16;
    match penalty {
        Some(p) => {
            quality = quality + p.quality as i16;
        },
        None => {},
    }
    if quality < 0 {
        0
    } else if quality > 100 {
        100
    } else {
        quality as u8
    }
}

/// The quality of a finished job, with noise drawn uniformly from `[-4, 4]`.
pub fn roll_quality(
    job: &Job,
    processor: &ProcessorState,
    penalty: Option<&DaemonPenalty>,
    rng: &mut rand::rngs::StdRng,
) -> (r: u8)
    ensures
        exists|noise: int|
            -4 <= noise <= 4 && r == quality_spec(
                job.quality_target as int,
                processor.quality_bias as int,
                noise,
                penalty_quality(penalty),
            ),
{
    let noise: i8 = draw_in(rng, 0, 9) as i8 - 4;
    quality_for_noise(job, processor, penalty, noise)
}

pub fn payout_for_quality(job: &Job, quality: u8) -> (r: u64)
    ensures
        r == payout_spec(job.base_reward as int, quality as int),
{
    assert(job.base_reward as u128 * (140 + quality as u128) <= u64::MAX as u128 * 0x1_0000_0000)
        by (nonlinear_arith)
        requires
            job.base_reward <= u64::MAX,
            quality < 256,
    ;
    let n: u128 = job.base_reward as u128 * (140 + quality as u128);
    round_div_sat(n, 200)
}

pub fn upkeep_total(processors: &[ProcessorState]) -> (r: u64)
    ensures
        r == vstd::math::min(upkeep_sum(processors@), u64::MAX as int),
{
    let mut total: u64 = 0;
    let mut i: usize = 0;
    while i < processors.len()
        invariant
            0 <= i <= processors@.len(),
            total == vstd::math::min(upkeep_sum(processors@.take(i as int)), u64::MAX as int),
        decreases processors@.len() - i,
    {
        proof {
            assert(processors@.take(i + 1).drop_last() =~= processors@.take(i as int));
            assert(upkeep_sum(processors@.take(i as int)) >= 0) by {
                lemma_upkeep_sum_nonneg(processors@.take(i as int));
            }
        }
        total = total.saturating_add(processors[i].upkeep_cost);
        i = i + 1;
    }
    assert(processors@.take(processors@.len() as int) =~= processors@);
    total
}

proof fn lemma_upkeep_sum_nonneg(ps: Seq<ProcessorState>)
    ensures
        upkeep_sum(ps) >= 0,
    decreases ps.len(),
{
    if ps.len() > 0 {
        lemma_upkeep_sum_nonneg(ps.drop_last());
    }
}

pub proof fn lemma_power_sum_nonneg(ps: Seq<ProcessorState>)
    ensures
        power_sum(ps) >= 0,
{
    lemma_power_sum_bounds(ps);
}

proof fn lemma_power_sum_bounds(ps: Seq<ProcessorState>)
    ensures
        0 <= power_sum(ps) <= ps.len() * u64::MAX,
    decreases ps.len(),
{
    if ps.len() > 0 {
        lemma_power_sum_bounds(ps.drop_last());
        assert(ps.len() * u64::MAX == (ps.len() - 1) * u64::MAX + u64::MAX) by (nonlinear_arith);
    }
}

/// Cap on the running sum of power draws; any sum beyond it costs `u64::MAX`.
const POWER_SUM_CAP: u128 = 0x400_0000_0000_0000_0000_0000;

pub fn electricity_cost(processors: &[ProcessorState]) -> (r: u64)
    ensures
        r == electricity_spec(processors@),
{
    let mut draw: u128 = 0;
    let mut i: usize = 0;
    while i < processors.len()
        invariant
            0 <= i <= processors@.len(),
            draw == vstd::math::min(power_sum(processors@.take(i as int)), POWER_SUM_CAP as int),
        decreases processors@.len() - i,
    {
        proof {
            assert(processors@.take(i + 1).drop_last() =~= processors@.take(i as int));
            lemma_power_sum_bounds(processors@.take(i as int));
        }
        let next: u128 = draw + processors[i].last_power_draw as u128;
        draw = if next > POWER_SUM_CAP { POWER_SUM_CAP } else { next };
        i = i + 1;
    }
    assert(processors@.take(processors@.len() as int) =~= processors@);
    assert(draw <= POWER_SUM_CAP);
    let cost = round_div_sat(4 * draw, UNIT as u128);
    proof {
        lemma_power_sum_bounds(processors@);
        if power_sum(processors@) > POWER_SUM_CAP {
            assert(round_div(4 * POWER_SUM_CAP, UNIT as int) > u64::MAX);
            assert(round_div(4 * power_sum(processors@), UNIT as int) >= round_div(
                4 * POWER_SUM_CAP,
                UNIT as int,
            )) by (nonlinear_arith)
                requires
                    power_sum(processors@) > POWER_SUM_CAP,
            ;
        }
    }
    cost
}

pub fn passive_income(stored_data: u64) -> (r: u64)
    ensures
        r == passive_income_spec(stored_data as int),
{
    if stored_data == 0 {
        0
    } else {
        assert((2 * stored_data + 20) / 40 <= stored_data) by (nonlinear_arith)
            requires
                stored_data >= 1,
        ;
        let income = round_div_sat(stored_data as u128, 20);
        if income < 1 { 1 } else { income }
    }
}

proof fn lemma_band_linear(b: int, n: int, p: int)
    requires
        b >= 0,
        140 * b <= n <= 240 * b,
        400 * p <= 2 * n + 200 < 400 * p + 400,
    ensures
        10 * p + 5 >= 7 * b,
        10 * p <= 12 * b + 5,
        b % 10 == 0 ==> 7 * b <= 10 * p <= 12 * b,
{
    if b % 10 == 0 {
        let k = b / 10;
        assert(b == 10 * k);
        assert(400 * p > 280 * b - 200);
        assert(p > 7 * k - 1);
        assert(400 * p <= 480 * b + 200);
        assert(p < 12 * k + 1);
    }
}

/// A payout lies within half a credit of the band from 0.7 to 1.2 times the base
/// reward, and inside the band itself when the base reward is a multiple of ten.
pub proof fn lemma_payout_band(base_reward: u64, quality: u8)
    requires
        quality <= 100,
    ensures
        10 * payout_spec(base_reward as int, quality as int) + 5 >= 7 * base_reward,
        10 * payout_spec(base_reward as int, quality as int) <= 12 * base_reward + 5,
        base_reward % 10 == 0 ==> 7 * base_reward <= 10 * payout_spec(
            base_reward as int,
            quality as int,
        ) <= 12 * base_reward,
{
    let b = base_reward as int;
    let q = quality as int;
    let n = b * (140 + q);
    assert(140 * b <= n <= 240 * b) by (nonlinear_arith)
        requires
            n == b * (140 + q),
            0 <= q <= 100,
            b >= 0,
    ;
    let p = (2 * n + 200) / 400;
    vstd::arithmetic::div_mod::lemma_fundamental_div_mod(2 * n + 200, 400);
    assert(400 * p <= 2 * n + 200 < 400 * p + 400);
    lemma_band_linear(b, n, p);
    assert(round_div(n, 200) == p);
}

} // verus!
