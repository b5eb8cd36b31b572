use crate::random::draw_in;
use vstd::prelude::*;

verus! {

pub const GENERAL_TAG: &'static str = "GENERAL";

pub const SIMD_TAG: &'static str = "SIMD";

/// A billable unit of work.
#[derive(Debug, Clone)]
pub struct Job {
    pub id: u64,
    pub name: String,
    pub tag: String,
    pub base_time_ms: u64,
    pub base_reward: u64,
    pub quality_target: u8,
    pub data_output: u64,
}

/// The character of a decimal digit.
pub open spec fn digit_char(d: nat) -> char {
    if d == 0 { '0' }
    else if d == 1 { '1' }
    else if d == 2 { '2' }
    else if d == 3 { '3' }
    else if d == 4 { '4' }
    else if d == 5 { '5' }
    else if d == 6 { '6' }
    else if d == 7 { '7' }
    else if d == 8 { '8' }
    else { '9' }
}

/// The decimal notation of `n`, without leading zeros.
pub open spec fn decimal(n: nat) -> Seq<char>
    decreases n,
{
    if n < 10 {
        seq![digit_char(n)]
    } else {
        decimal(n / 10).push(digit_char(n % 10))
    }
}

/// Relies on `format!` with `{}` on a `u64`, which writes its decimal notation
/// after the prefix.
#[verifier::external_body]
fn numbered_name(prefix: &str, id: u64) -> (r: String)
    ensures
        r@ == prefix@ + decimal(id as nat),
{
    format!("{prefix}{id}")
}

/// Whether two pieces of text are equal.
pub fn same_text(a: &str, b: &str) -> (r: bool)
    ensures
        r == (a@ == b@),
{
    let x: String = a.to_owned();
    let y: String = b.to_owned();
    x == y
}

/// What holds of every job drawn for the general tag with this id.
pub open spec fn general_job_drawn(j: Job, id: u64) -> bool {
    &&& j.id == id
    &&& j.name@ == "General Task #"@ + decimal(id as nat)
    &&& j.tag@ == GENERAL_TAG@
    &&& 4_000 <= j.base_time_ms < 9_000
    &&& 70 <= j.base_reward < 140
    &&& 55 <= j.quality_target < 85
    &&& 12 <= j.data_output < 32
}

/// What holds of every job drawn for the SIMD tag with this id.
pub open spec fn simd_job_drawn(j: Job, id: u64) -> bool {
    &&& j.id == id
    &&& j.name@ == "SIMD Workload #"@ + decimal(id as nat)
    &&& j.tag@ == SIMD_TAG@
    &&& 6_000 <= j.base_time_ms < 13_000
    &&& 160 <= j.base_reward < 260
    &&& 65 <= j.quality_target < 95
    &&& 36 <= j.data_output < 72
}

/// The job with these drawn values: a SIMD workload when `simd` is set, a general
/// task otherwise.
pub fn job_from_draws(
    id: u64,
    simd: bool,
    base_time_ms: u64,
    base_reward: u64,
    quality_target: u8,
    data_output: u64,
) -> (r: Job)
    ensures
        r.id == id,
        r.base_time_ms == base_time_ms,
        r.base_reward == base_reward,
        r.quality_target == quality_target,
        r.data_output == data_output,
        simd ==> r.name@ == "SIMD Workload #"@ + decimal(id as nat) && r.tag@ == SIMD_TAG@,
        !simd ==> r.name@ == "General Task #"@ + decimal(id as nat) && r.tag@ == GENERAL_TAG@,
{
    let (name, tag) = if simd {
        (numbered_name("SIMD Workload #", id), SIMD_TAG.to_owned())
    } else {
        (numbered_name("General Task #", id), GENERAL_TAG.to_owned())
    };
    Job { id, name, tag, base_time_ms, base_reward, quality_target, data_output }
}

pub fn generate_general_job(id: u64, rng: &mut rand::rngs::StdRng) -> (r: Job)
    ensures
        general_job_drawn(r, id),
{
    let base_time_ms = draw_in(rng, 4_000, 9_000);
    let base_reward = draw_in(rng, 70, 140);
    let quality_target = draw_in(rng, 55, 85) as u8;
    let data_output = draw_in(rng, 12, 32);
    job_from_draws(id, false, base_time_ms, base_reward, quality_target, data_output)
}

pub fn generate_simd_job(id: u64, rng: &mut rand::rngs::StdRng) -> (r: Job)
    ensures
        simd_job_drawn(r, id),
{
    let base_time_ms = draw_in(rng, 6_000, 13_000);
    let base_reward = draw_in(rng, 160, 260);
    let quality_target = draw_in(rng, 65, 95) as u8;
    let data_output = draw_in(rng, 36, 72);
    job_from_draws(id, true, base_time_ms, base_reward, quality_target, data_output)
}

/// Draws a job of the SIMD kind for that tag and a general job for any other.
pub fn generate_job_with_tag(id: u64, tag: &str, rng: &mut rand::rngs::StdRng) -> (r: Job)
    ensures
        tag@ == SIMD_TAG@ ==> simd_job_drawn(r, id),
        tag@ != SIMD_TAG@ ==> general_job_drawn(r, id),
{
    if same_text(tag, SIMD_TAG) {
        generate_simd_job(id, rng)
    } else {
        generate_general_job(id, rng)
    }
}

} // verus!
