use crate::fixed::{clamp, UNIT};
use crate::jobs::{same_text, Job, GENERAL_TAG};
use crate::random::draw_in;
use vstd::prelude::*;

verus! {

pub const DEFAULT_RELIABILITY: u32 = 995_000;

pub const DEFAULT_COOLING_CAP: u8 = 3;

pub const DEFAULT_REPLACE_RATIO: u32 = 350_000;

pub const DEFAULT_POWER_DRAW: u32 = 4_200_000;

pub const DEFAULT_HEAT_OUTPUT: u32 = 1_000_000;

pub const DEFAULT_PURCHASE_COST: u64 = 180;

/// Reliability lost per unit of heat, in millionths.
pub const HEAT_FAILURE_MULTIPLIER: u64 = 120_000;

/// Extra power drawn per cooling level, in millionths.
pub const ELECTRIC_COOLING_FACTOR: u64 = 50_000;

/// Highest reliability a job evaluation can report.
pub const MAX_RELIABILITY: u64 = 999_000;

pub fn default_reliability_base() -> (r: u32)
    ensures
        r == DEFAULT_RELIABILITY,
{
    DEFAULT_RELIABILITY
}

pub fn default_cooling_cap() -> (r: u8)
    ensures
        r == DEFAULT_COOLING_CAP,
{
    DEFAULT_COOLING_CAP
}

pub fn default_replace_cost_ratio() -> (r: u32)
    ensures
        r == DEFAULT_REPLACE_RATIO,
{
    DEFAULT_REPLACE_RATIO
}

pub fn default_power_draw_base() -> (r: u32)
    ensures
        r == DEFAULT_POWER_DRAW,
{
    DEFAULT_POWER_DRAW
}

pub fn default_heat_output_base() -> (r: u32)
    ensures
        r == DEFAULT_HEAT_OUTPUT,
{
    DEFAULT_HEAT_OUTPUT
}

pub fn default_purchase_cost() -> (r: u64)
    ensures
        r == DEFAULT_PURCHASE_COST,
{
    DEFAULT_PURCHASE_COST
}

/// Units hold to their cooling minimums unless told otherwise.
pub fn default_honor_cooling() -> (r: bool)
    ensures
        r,
{
    true
}

/// The cost of automation: a quality delta and a duration multiplier (millionths).
#[derive(Debug, Clone, Copy, PartialEq, Eq, Structural)]
pub struct DaemonPenalty {
    pub quality: i8,
    pub time_multiplier: u32,
}

impl Default for DaemonPenalty {
    fn default() -> (r: Self)
        ensures
            r.quality == -5,
            r.time_multiplier == 1_100_000,
    {
        DaemonPenalty { quality: -5, time_multiplier: 1_100_000 }
    }
}

#[derive(Debug, Clone, Copy, PartialEq, Eq, Structural)]
pub enum DaemonMode {
    Off,
    Assist,
    Auto,
}

impl Default for DaemonMode {
    fn default() -> (r: Self)
        ensures
            r == DaemonMode::Off,
    {
        DaemonMode::Off
    }
}

/// The job a processor runs and its progress.
#[derive(Debug, Clone)]
pub struct ProcessorWork {
    pub job: Job,
    pub remaining_ms: u64,
    pub total_ms: u64,
    pub daemon_penalty: Option<DaemonPenalty>,
    pub overheating: bool,
}

#[derive(Debug, Clone)]
pub enum ProcessorStatus {
    Idle,
    Working(ProcessorWork),
    BurntOut,
    Destroyed,
}

impl Default for ProcessorStatus {
    fn default() -> (r: Self)
        ensures
            r is Idle,
    {
        ProcessorStatus::Idle
    }
}

/// A value attached to one instruction tag (millionths).
#[derive(Debug, Clone)]
pub struct TagModifier {
    pub tag: String,
    pub value: i32,
}

/// The value of the first entry for `tag`, or 0 when there is none.
pub open spec fn tag_value(mods: Seq<TagModifier>, tag: Seq<char>) -> int
    decreases mods.len(),
{
    if mods.len() == 0 {
        0
    } else if mods[0].tag@ == tag {
        mods[0].value as int
    } else {
        tag_value(mods.drop_first(), tag)
    }
}

/// No two entries name the same tag: the entries form a map from tag to value.
pub open spec fn modifiers_wf(mods: Seq<TagModifier>) -> bool {
    forall|i: int, j: int| 0 <= i < j < mods.len() ==> #[trigger] mods[i].tag@ != #[trigger] mods[j].tag@
}

/// In a well-formed list, the value of a tag is the one its entry holds.
pub proof fn lemma_tag_value_of_entry(mods: Seq<TagModifier>, i: int)
    requires
        modifiers_wf(mods),
        0 <= i < mods.len(),
    ensures
        tag_value(mods, mods[i].tag@) == mods[i].value,
    decreases mods.len(),
{
    if i > 0 {
        assert(mods[0].tag@ != mods[i].tag@);
        let rest = mods.drop_first();
        assert(rest[i - 1] == mods[i]);
        assert forall|a: int, b: int| 0 <= a < b < rest.len() implies #[trigger] rest[a].tag@ != #[trigger] rest[b].tag@ by {
            assert(rest[a] == mods[a + 1]);
            assert(rest[b] == mods[b + 1]);
        }
        lemma_tag_value_of_entry(rest, i - 1);
    }
}

/// A tag without an entry has value zero.
pub proof fn lemma_tag_value_absent(mods: Seq<TagModifier>, tag: Seq<char>)
    requires
        forall|i: int| 0 <= i < mods.len() ==> #[trigger] mods[i].tag@ != tag,
    ensures
        tag_value(mods, tag) == 0,
    decreases mods.len(),
{
    if mods.len() > 0 {
        let rest = mods.drop_first();
        assert forall|i: int| 0 <= i < rest.len() implies #[trigger] rest[i].tag@ != tag by {
            assert(rest[i] == mods[i + 1]);
        }
        lemma_tag_value_absent(rest, tag);
    }
}

/// A simulated compute unit. Fractional fields are in millionths of a unit.
#[derive(Debug, Clone)]
pub struct ProcessorState {
    pub name: String,
    pub speed: u32,
    pub quality_bias: i8,
    pub instruction_set: Vec<String>,
    pub upkeep_cost: u64,
    pub status: ProcessorStatus,
    pub reliability_base: u32,
    pub cooling_required: bool,
    pub cooling_level: u8,
    pub cooling_cap: u8,
    pub hardening_level: u8,
    pub requires_cooling_min: u8,
    pub finite_lifespan: bool,
    pub mttf_ticks: u64,
    pub wear: u64,
    pub fragility: u32,
    pub replace_cost_ratio: u32,
    pub power_draw_base: u32,
    pub power_draw_mod: Vec<TagModifier>,
    pub heat_output_base: u32,
    pub purchase_cost: u64,
    pub daemon_mode: DaemonMode,
    pub daemon_unlocked: bool,
    pub daemon_affinity: Vec<TagModifier>,
    pub daemon_priority: i32,
    pub honor_cooling_mins: bool,
    pub daemon_penalty: DaemonPenalty,
    pub last_reliability: u32,
    pub last_heat: i64,
    pub last_power_draw: u64,
    pub last_effective_cooling: u8,
}

/// What a processor reports about running a job under current conditions.
#[derive(Debug, Clone, Copy)]
pub struct JobEvaluation {
    pub reliability: u32,
    pub heat: i64,
    pub effective_cooling: u8,
    pub hazard_penalty: u32,
    pub power_draw: u64,
}

/// A job that finished, with the penalty it ran under.
#[derive(Debug, Clone)]
pub struct CompletedJob {
    pub job: Job,
    pub daemon_penalty: Option<DaemonPenalty>,
}

#[derive(Debug, Clone)]
pub enum ProcessorEvent {
    Completed(CompletedJob),
    BurntOut { job: Job },
    Destroyed { job: Job },
}

#[derive(Debug, Clone, PartialEq, Eq)]
pub enum AssignmentError {
    InvalidProcessor,
    ProcessorBusy,
    IncompatibleInstruction(String),
    ProcessorInoperative,
}

// ---- evaluation model ----

pub open spec fn effective_cooling_spec(level: int, cap: int, bonus: int) -> int {
    clamp(vstd::math::min(level + bonus, cap + bonus), 0, 255)
}

/// `n / d` rounded toward zero, for a positive `d`.
pub open spec fn signed_div(n: int, d: int) -> int {
    if n >= 0 {
        n / d
    } else {
        -((-n) / d)
    }
}

/// Share of heat removed by a cooling level (millionths).
pub open spec fn cooling_reduction_spec(level: int) -> int {
    if level == 0 {
        0
    } else if level == 1 {
        250_000
    } else if level == 2 {
        450_000
    } else {
        600_000 + 50_000 * (level - 3)
    }
}

/// Reliability gained from a cooling level (millionths).
pub open spec fn cooling_bonus_spec(level: int) -> int {
    if level == 0 {
        0
    } else if level == 1 {
        10_000
    } else if level == 2 {
        20_000
    } else {
        30_000 + 5_000 * (level - 3)
    }
}

pub open spec fn hazardous_tag(tag: Seq<char>) -> bool {
    tag == "RADIATION"@ || tag == "ANGEL"@ || tag == "SURVEILLANCE"@
}

/// Per-tick reliability hazard of a tag (millionths).
pub open spec fn tag_hazard_spec(tag: Seq<char>) -> int {
    if tag == "RADIATION"@ {
        20_000
    } else if tag == "ANGEL"@ {
        30_000
    } else if tag == "SURVEILLANCE"@ {
        10_000
    } else if tag == "SIMD"@ {
        15_000
    } else {
        0
    }
}

/// Share of a tag's hazard left after hardening (millionths).
pub open spec fn hardening_spec(level: int, tag: Seq<char>) -> int {
    if hazardous_tag(tag) {
        vstd::math::max(1_000_000 - 200_000 * level, 200_000)
    } else {
        vstd::math::max(1_000_000 - 50_000 * level, 500_000)
    }
}

impl ProcessorState {
    pub open spec fn eff_cooling(&self, bonus: int) -> int {
        effective_cooling_spec(self.cooling_level as int, self.cooling_cap as int, bonus)
    }

    /// `1 + load modifier` for the tag, never below zero (millionths).
    pub open spec fn load_factor(&self, tag: Seq<char>) -> int {
        vstd::math::max(UNIT as int + tag_value(self.power_draw_mod@, tag), 0)
    }

    /// Cooling levels missing below the unit's required minimum.
    pub open spec fn cooling_deficit(&self, bonus: int) -> int {
        vstd::math::max(self.requires_cooling_min as int - self.eff_cooling(bonus), 0)
    }

    pub open spec fn cooling_missing(&self, bonus: int) -> bool {
        self.cooling_required && self.eff_cooling(bonus) == 0
    }

    /// `1 + load modifier` for the tag (millionths); negative below -100%.
    pub open spec fn load_shift(&self, tag: Seq<char>) -> int {
        UNIT as int + tag_value(self.power_draw_mod@, tag)
    }

    /// `1 - cooling reduction` (millionths); negative from cooling level 24 on.
    pub open spec fn cooling_factor(&self, bonus: int) -> int {
        UNIT as int - cooling_reduction_spec(self.eff_cooling(bonus))
    }

    /// `heat_output_base * (1 + load) * (1 - reduction)` (millionths), rounded
    /// toward zero.
    pub open spec fn base_heat(&self, tag: Seq<char>, bonus: int) -> int {
        signed_div(
            self.heat_output_base as int * self.load_shift(tag) * self.cooling_factor(bonus),
            UNIT as int * UNIT as int,
        )
    }

    /// Heat while running a job of `tag` (millionths); it may be negative.
    pub open spec fn heat_of(&self, tag: Seq<char>, bonus: int) -> int {
        self.base_heat(tag, bonus) + (if self.cooling_missing(bonus) {
            1_200_000int
        } else {
            0int
        }) + 800_000 * self.cooling_deficit(bonus)
    }

    pub open spec fn hazard_of(&self, tag: Seq<char>) -> int {
        tag_hazard_spec(tag) * hardening_spec(self.hardening_level as int, tag) / UNIT as int
    }

    /// Reliability before it is limited to `[0, MAX_RELIABILITY]` (millionths).
    pub open spec fn raw_reliability(&self, tag: Seq<char>, bonus: int) -> int {
        let heat = vstd::math::max(self.heat_of(tag, bonus), 0);
        self.reliability_base as int - heat * HEAT_FAILURE_MULTIPLIER as int / UNIT as int
            - self.hazard_of(tag)
            + cooling_bonus_spec(self.eff_cooling(bonus)) - (if self.cooling_missing(bonus) {
            250_000int
        } else {
            0int
        }) - 150_000 * self.cooling_deficit(bonus) - self.fragility as int * heat / UNIT as int
    }

    pub open spec fn reliability_of(&self, tag: Seq<char>, bonus: int) -> int {
        clamp(self.raw_reliability(tag, bonus), 0, MAX_RELIABILITY as int)
    }

    pub open spec fn power_of(&self, tag: Seq<char>, bonus: int) -> int {
        self.power_draw_base as int * self.load_factor(tag) * (UNIT as int
            + ELECTRIC_COOLING_FACTOR as int * self.eff_cooling(bonus)) / (UNIT as int * UNIT as int)
    }

    pub open spec fn idle_power_spec(&self) -> int {
        self.power_draw_base as int * (UNIT as int + ELECTRIC_COOLING_FACTOR as int
            * self.cooling_level as int) / UNIT as int
    }

    /// Whether `e` is what `evaluate_job` reports for a job of `tag`.
    pub open spec fn evaluates(&self, e: JobEvaluation, tag: Seq<char>, bonus: int) -> bool {
        &&& e.effective_cooling == self.eff_cooling(bonus)
        &&& e.heat == self.heat_of(tag, bonus)
        &&& e.hazard_penalty == self.hazard_of(tag)
        &&& e.reliability == self.reliability_of(tag, bonus)
        &&& e.power_draw == self.power_of(tag, bonus)
    }

    /// The unit's per-tag power modifiers and affinities each name a tag at most once.
    pub open spec fn wf(&self) -> bool {
        modifiers_wf(self.power_draw_mod@) && modifiers_wf(self.daemon_affinity@)
    }

    pub open spec fn supports_spec(&self, tag: Seq<char>) -> bool {
        exists|i: int| 0 <= i < self.instruction_set@.len() && #[trigger] self.instruction_set@[i]@ == tag
    }

    pub open spec fn is_idle_spec(&self) -> bool {
        self.status is Idle
    }

    pub open spec fn is_functional_spec(&self) -> bool {
        !(self.status is BurntOut || self.status is Destroyed)
    }

    /// Wear added by one tick of `delta` ms on a job of `tag` (millionths).
    pub open spec fn wear_increment(&self, tag: Seq<char>, bonus: int, delta: int) -> int {
        delta * UNIT as int / self.mttf_ticks as int + vstd::math::max(self.heat_of(tag, bonus), 0) * delta
            / 2_000_000
            + self.hazard_of(tag) / 20
    }

    /// The display snapshot taken while a job of `tag` runs.
    pub open spec fn with_snapshot(self, tag: Seq<char>, bonus: int) -> ProcessorState {
        ProcessorState {
            last_reliability: self.reliability_of(tag, bonus) as u32,
            last_heat: self.heat_of(tag, bonus) as i64,
            last_effective_cooling: self.eff_cooling(bonus) as u8,
            last_power_draw: self.power_of(tag, bonus) as u64,
            ..self
        }
    }

    pub open spec fn ages(&self) -> bool {
        self.finite_lifespan && self.mttf_ticks > 0
    }

    /// One tick of `delta` ms, where `roll` (millionths, below one unit) is the
    /// random draw that decides a burnout: the state after it and its event.
    pub open spec fn advance_spec(self, delta: u64, roll: u32, bonus: u8) -> (
        ProcessorState,
        Option<ProcessorEvent>,
    ) {
        match self.status {
            ProcessorStatus::Idle => (
                ProcessorState { last_power_draw: self.idle_power_spec() as u64, ..self },
                None,
            ),
            ProcessorStatus::Working(w) => {
                let tag = w.job.tag@;
                let b = bonus as int;
                let snap = self.with_snapshot(tag, b);
                let rel = self.reliability_of(tag, b);
                if rel == 0 || roll > rel {
                    (
                        ProcessorState { status: ProcessorStatus::BurntOut, ..snap },
                        Some(ProcessorEvent::BurntOut { job: w.job }),
                    )
                } else {
                    let worn = if self.ages() {
                        ProcessorState {
                            wear: vstd::math::min(
                                self.wear + self.wear_increment(tag, b, delta as int),
                                u64::MAX as int,
                            ) as u64,
                            ..snap
                        }
                    } else {
                        snap
                    };
                    if self.ages() && worn.wear >= UNIT {
                        (
                            ProcessorState { status: ProcessorStatus::Destroyed, ..worn },
                            Some(ProcessorEvent::Destroyed { job: w.job }),
                        )
                    } else if w.remaining_ms > delta {
                        (
                            ProcessorState {
                                status: ProcessorStatus::Working(
                                    ProcessorWork {
                                        remaining_ms: (w.remaining_ms - delta) as u64,
                                        overheating: self.heat_of(tag, b) > UNIT
                                            || self.cooling_deficit(b) > 0,
                                        ..w
                                    },
                                ),
                                ..worn
                            },
                            None,
                        )
                    } else {
                        (
                            ProcessorState { status: ProcessorStatus::Idle, ..worn },
                            Some(
                                ProcessorEvent::Completed(
                                    CompletedJob { job: w.job, daemon_penalty: w.daemon_penalty },
                                ),
                            ),
                        )
                    }
                }
            },
            _ => (self, None),
        }
    }
}

pub fn effective_cooling_level(level: u8, cap: u8, bonus: u8) -> (r: u8)
    ensures
        r == effective_cooling_spec(level as int, cap as int, bonus as int),
{
    let effective: u16 = level as u16 + bonus as u16;
    let max_allowed: u16 = cap as u16 + bonus as u16;
    let m: u16 = if effective < max_allowed { effective } else { max_allowed };
    if m > 255 { 255 } else { m as u8 }
}

pub fn cooling_reduction(level: u8) -> (r: u64)
    ensures
        r == cooling_reduction_spec(level as int),
{
    match level {
        0 => 0,
        1 => 250_000,
        2 => 450_000,
        other => 600_000 + 50_000 * (other - 3) as u64,
    }
}

pub fn cooling_reliability_bonus(level: u8) -> (r: u64)
    ensures
        r == cooling_bonus_spec(level as int),
{
    match level {
        0 => 0,
        1 => 10_000,
        2 => 20_000,
        other => 30_000 + 5_000 * (other - 3) as u64,
    }
}

pub fn tag_hazard(tag: &str) -> (r: u64)
    ensures
        r == tag_hazard_spec(tag@),
        r <= 30_000,
{
    if same_text(tag, "RADIATION") {
        20_000
    } else if same_text(tag, "ANGEL") {
        30_000
    } else if same_text(tag, "SURVEILLANCE") {
        10_000
    } else if same_text(tag, "SIMD") {
        15_000
    } else {
        0
    }
}

pub fn hardening_multiplier(level: u8, tag: &str) -> (r: u64)
    ensures
        r == hardening_spec(level as int, tag@),
        r <= 1_000_000,
{
    if same_text(tag, "RADIATION") || same_text(tag, "ANGEL") || same_text(tag, "SURVEILLANCE") {
        let cut: u64 = 200_000 * level as u64;
        if cut >= 800_000 { 200_000 } else { 1_000_000 - cut }
    } else {
        let cut: u64 = 50_000 * level as u64;
        if cut >= 500_000 { 500_000 } else { 1_000_000 - cut }
    }
}

/// The modifier recorded for `tag`, or 0.
pub fn load_modifier(mods: &Vec<TagModifier>, tag: &str) -> (r: i32)
    ensures
        r == tag_value(mods@, tag@),
{
    let t: String = tag.to_owned();
    let mut i: usize = 0;
    assert(mods@.subrange(0, mods@.len() as int) =~= mods@);
    while i < mods.len()
        invariant
            0 <= i <= mods@.len(),
            t@ == tag@,
            tag_value(mods@, tag@) == tag_value(mods@.subrange(i as int, mods@.len() as int), tag@),
        decreases mods@.len() - i,
    {
        proof {
            let rest = mods@.subrange(i as int, mods@.len() as int);
            assert(rest.drop_first() =~= mods@.subrange(i + 1, mods@.len() as int));
        }
        if mods[i].tag == t {
            return mods[i].value;
        }
        i = i + 1;
    }
    0
}

} // verus!

verus! {

impl ProcessorState {
    /// `1 + load modifier` for `tag`, floored at zero (millionths).
    fn load_factor_for(&self, tag: &str) -> (r: u64)
        ensures
            r == self.load_factor(tag@),
            r < 0x1_0000_0000u64,
    {
        let load = load_modifier(&self.power_draw_mod, tag);
        let shifted: i64 = load as i64 + UNIT as i64;
        if shifted < 0 { 0 } else { shifted as u64 }
    }

    fn base_heat_for(&self, tag: &str, cooling_bonus_levels: u8) -> (r: i64)
        ensures
            r == self.base_heat(tag@, cooling_bonus_levels as int),
            -0x4_0000_0000_0000i64 <= r <= 0x4_0000_0000_0000i64,
    {
        let e = effective_cooling_level(self.cooling_level, self.cooling_cap, cooling_bonus_levels);
        let red = cooling_reduction(e);
        let load = load_modifier(&self.power_draw_mod, tag);
        let shift: i64 = load as i64 + UNIT as i64;
        let cool: i64 = UNIT as i64 - red as i64;
        let negative = (shift < 0) != (cool < 0);
        let ms: u128 = if shift < 0 { (-shift) as u128 } else { shift as u128 };
        let mc: u128 = if cool < 0 { (-cool) as u128 } else { cool as u128 };
        let hb: u128 = self.heat_output_base as u128;
        assert(hb * ms <= 0x1_0000_0000u128 * 0x1_0000_0000u128) by (nonlinear_arith)
            requires
                hb < 0x1_0000_0000u128,
                ms < 0x1_0000_0000u128,
        ;
        assert(hb * ms * mc <= 0x1_0000_0000u128 * 0x1_0000_0000u128 * 0x100_0000u128)
            by (nonlinear_arith)
            requires
                hb * ms <= 0x1_0000_0000u128 * 0x1_0000_0000u128,
                mc <= 0x100_0000u128,
        ;
        let mag: u128 = hb * ms * mc;
        let q: u128 = mag / 1_000_000_000_000u128;
        assert(q <= 0x4_0000_0000_0000u128) by (nonlinear_arith)
            requires
                q == mag as int / 1_000_000_000_000int,
                mag <= 0x1_0000_0000u128 * 0x1_0000_0000u128 * 0x100_0000u128,
        ;
        proof {
            let n = self.heat_output_base as int * shift as int * cool as int;
            assert(n == if negative { -(mag as int) } else { mag as int }) by (nonlinear_arith)
                requires
                    n == self.heat_output_base as int * shift as int * cool as int,
                    hb == self.heat_output_base,
                    hb >= 0,
                    ms == if shift < 0 { -shift } else { shift as int },
                    mc == if cool < 0 { -cool } else { cool as int },
                    negative == ((shift < 0) != (cool < 0)),
                    mag == hb * ms * mc,
            ;
        }
        if negative { -(q as i64) } else { q as i64 }
    }

    fn heat_for(&self, tag: &str, cooling_bonus_levels: u8) -> (r: i64)
        ensures
            r == self.heat_of(tag@, cooling_bonus_levels as int),
            -0x4_0000_0000_0000i64 <= r <= 0x10_0000_0000_0000i64,
    {
        let e = effective_cooling_level(self.cooling_level, self.cooling_cap, cooling_bonus_levels);
        let mut heat: i64 = self.base_heat_for(tag, cooling_bonus_levels);
        if self.cooling_required && e == 0 {
            heat = heat + 1_200_000;
        }
        if self.requires_cooling_min > e {
            heat = heat + 800_000 * (self.requires_cooling_min - e) as i64;
        }
        heat
    }

    fn hazard_for(&self, tag: &str) -> (r: u32)
        ensures
            r == self.hazard_of(tag@),
    {
        let h = tag_hazard(tag);
        let m = hardening_multiplier(self.hardening_level, tag);
        assert(h * m <= 30_000_000_000u64) by (nonlinear_arith)
            requires
                h <= 30_000,
                m <= 1_000_000,
        ;
        assert(h * m / 1_000_000 <= 30_000) by (nonlinear_arith)
            requires
                h * m <= 30_000_000_000u64,
        ;
        (h * m / UNIT) as u32
    }

    fn reliability_for(&self, tag: &str, cooling_bonus_levels: u8, heat: i64) -> (r: u32)
        requires
            heat == self.heat_of(tag@, cooling_bonus_levels as int),
            heat <= 0x10_0000_0000_0000i64,
        ensures
            r == self.reliability_of(tag@, cooling_bonus_levels as int),
    {
        let e = effective_cooling_level(self.cooling_level, self.cooling_cap, cooling_bonus_levels);
        let hazard = self.hazard_for(tag);
        let bonus = cooling_reliability_bonus(e);
        let h: u128 = if heat < 0 { 0 } else { heat as u128 };
        let fr: u128 = self.fragility as u128;
        assert(fr * h <= 0x1_0000_0000u128 * 0x10_0000_0000_0000u128) by (nonlinear_arith)
            requires
                fr < 0x1_0000_0000u128,
                h <= 0x10_0000_0000_0000u128,
        ;
        let mut rel: i128 = self.reliability_base as i128;
        rel = rel - (h * 120_000 / 1_000_000) as i128;
        rel = rel - hazard as i128;
        rel = rel + bonus as i128;
        if self.cooling_required && e == 0 {
            rel = rel - 250_000;
        }
        if self.requires_cooling_min > e {
            rel = rel - 150_000 * (self.requires_cooling_min - e) as i128;
        }
        rel = rel - (fr * h / 1_000_000) as i128;
        if rel < 0 {
            0
        } else if rel > MAX_RELIABILITY as i128 {
            MAX_RELIABILITY as u32
        } else {
            rel as u32
        }
    }

    fn power_for(&self, tag: &str, cooling_bonus_levels: u8) -> (r: u64)
        ensures
            r == self.power_of(tag@, cooling_bonus_levels as int),
    {
        let e = effective_cooling_level(self.cooling_level, self.cooling_cap, cooling_bonus_levels);
        let load_factor: u128 = self.load_factor_for(tag) as u128;
        let pb: u128 = self.power_draw_base as u128;
        let cf: u128 = 1_000_000u128 + 50_000u128 * e as u128;
        assert(pb * load_factor <= 0x1_0000_0000u128 * 0x1_0000_0000u128) by (nonlinear_arith)
            requires
                pb < 0x1_0000_0000u128,
                load_factor < 0x1_0000_0000u128,
        ;
        assert(pb * load_factor * cf <= 0x1_0000_0000u128 * 0x1_0000_0000u128 * 14_000_000u128)
            by (nonlinear_arith)
            requires
                pb * load_factor <= 0x1_0000_0000u128 * 0x1_0000_0000u128,
                cf <= 14_000_000u128,
        ;
        let power: u128 = pb * load_factor * cf / 1_000_000_000_000u128;
        assert(power <= 0x1_0000_0000u128 * 0x1_0000_0000u128 * 14u128) by (nonlinear_arith)
            requires
                power == pb * load_factor * cf / 1_000_000_000_000int,
                pb * load_factor * cf <= 0x1_0000_0000u128 * 0x1_0000_0000u128 * 14_000_000u128,
        ;
        power as u64
    }

    pub fn evaluate_job(&self, job: &Job, cooling_bonus_levels: u8) -> (r: JobEvaluation)
        ensures
            self.evaluates(r, job.tag@, cooling_bonus_levels as int),
            r.heat <= 0x10_0000_0000_0000i64,
    {
        let tag = job.tag.as_str();
        let heat = self.heat_for(tag, cooling_bonus_levels);
        JobEvaluation {
            reliability: self.reliability_for(tag, cooling_bonus_levels, heat),
            heat,
            effective_cooling: effective_cooling_level(
                self.cooling_level,
                self.cooling_cap,
                cooling_bonus_levels,
            ),
            hazard_penalty: self.hazard_for(tag),
            power_draw: self.power_for(tag, cooling_bonus_levels),
        }
    }

    pub fn idle_power_draw(&self) -> (r: u64)
        ensures
            r == self.idle_power_spec(),
    {
        let factor: u64 = UNIT + ELECTRIC_COOLING_FACTOR * self.cooling_level as u64;
        assert(self.power_draw_base as u64 * factor <= 0x1_0000_0000u64 * 14_000_000u64)
            by (nonlinear_arith)
            requires
                self.power_draw_base < 0x1_0000_0000u64,
                factor <= 14_000_000u64,
        ;
        self.power_draw_base as u64 * factor / UNIT
    }

    pub fn is_idle(&self) -> (r: bool)
        ensures
            r == self.is_idle_spec(),
    {
        match self.status {
            ProcessorStatus::Idle => true,
            _ => false,
        }
    }

    pub fn is_functional(&self) -> (r: bool)
        ensures
            r == self.is_functional_spec(),
    {
        match self.status {
            ProcessorStatus::BurntOut | ProcessorStatus::Destroyed => false,
            _ => true,
        }
    }

    pub fn supports(&self, tag: &str) -> (r: bool)
        ensures
            r == self.supports_spec(tag@),
    {
        let t: String = tag.to_owned();
        let mut i: usize = 0;
        while i < self.instruction_set.len()
            invariant
                0 <= i <= self.instruction_set@.len(),
                t@ == tag@,
                forall|j: int| 0 <= j < i ==> self.instruction_set@[j]@ != tag@,
            decreases self.instruction_set@.len() - i,
        {
            if self.instruction_set[i] == t {
                return true;
            }
            i = i + 1;
        }
        false
    }

    /// The unit after starting `job`, which will take `total_ms`.
    pub open spec fn assigned(self, job: Job, total_ms: u64, daemon_penalty: Option<DaemonPenalty>) -> ProcessorState {
        ProcessorState {
            status: ProcessorStatus::Working(
                ProcessorWork { job, remaining_ms: total_ms, total_ms, daemon_penalty, overheating: false },
            ),
            last_power_draw: self.idle_power_spec() as u64,
            ..self
        }
    }

    /// Starts `job`, which will take `total_ms`.
    pub fn assign(&mut self, job: Job, total_ms: u64, daemon_penalty: Option<DaemonPenalty>)
        ensures
            *final(self) == old(self).assigned(job, total_ms, daemon_penalty),
    {
        self.status = ProcessorStatus::Working(
            ProcessorWork { job, remaining_ms: total_ms, total_ms, daemon_penalty, overheating: false },
        );
        self.last_power_draw = self.idle_power_draw();
    }

    /// One tick of `delta_ms`, where `roll` stands for a uniform draw in `[0, 1)`
    /// in millionths: a working unit burns out when the roll exceeds its reliability.
    pub fn advance(&mut self, delta_ms: u64, roll: u32, cooling_bonus_levels: u8) -> (r: Option<
        ProcessorEvent,
    >)
        ensures
            (*final(self), r) == old(self).advance_spec(delta_ms, roll, cooling_bonus_levels),
    {
        let mut status = ProcessorStatus::Idle;
        std::mem::swap(&mut self.status, &mut status);
        match status {
            ProcessorStatus::Idle => {
                self.last_power_draw = self.idle_power_draw();
                None
            },
            ProcessorStatus::BurntOut => {
                self.status = ProcessorStatus::BurntOut;
                None
            },
            ProcessorStatus::Destroyed => {
                self.status = ProcessorStatus::Destroyed;
                None
            },
            ProcessorStatus::Working(mut work) => {
                let ev = self.evaluate_job(&work.job, cooling_bonus_levels);
                self.last_reliability = ev.reliability;
                self.last_heat = ev.heat;
                self.last_effective_cooling = ev.effective_cooling;
                self.last_power_draw = ev.power_draw;
                if ev.reliability == 0 || roll > ev.reliability {
                    self.status = ProcessorStatus::BurntOut;
                    return Some(ProcessorEvent::BurntOut { job: work.job });
                }
                if self.finite_lifespan && self.mttf_ticks > 0 {
                    let base_wear: u128 = delta_ms as u128 * UNIT as u128 / self.mttf_ticks as u128;
                    let hp: u128 = if ev.heat < 0 { 0 } else { ev.heat as u128 };
                    assert(hp * delta_ms as u128 <= 0x10_0000_0000_0000u128
                        * 0x1_0000_0000_0000_0000u128) by (nonlinear_arith)
                        requires
                            hp <= 0x10_0000_0000_0000u128,
                            delta_ms < 0x1_0000_0000_0000_0000u128,
                    ;
                    let heat_wear: u128 = hp * delta_ms as u128 / 2_000_000;
                    let hazard_wear: u128 = ev.hazard_penalty as u128 / 20;
                    let total: u128 = self.wear as u128 + base_wear + heat_wear + hazard_wear;
                    self.wear = if total > u64::MAX as u128 { u64::MAX } else { total as u64 };
                    if self.wear >= UNIT {
                        self.status = ProcessorStatus::Destroyed;
                        return Some(ProcessorEvent::Destroyed { job: work.job });
                    }
                }
                if work.remaining_ms > delta_ms {
                    work.remaining_ms = work.remaining_ms - delta_ms;
                    work.overheating = ev.heat > UNIT as i64 || self.requires_cooling_min
                        > ev.effective_cooling;
                    self.status = ProcessorStatus::Working(work);
                    None
                } else {
                    let done = CompletedJob { job: work.job, daemon_penalty: work.daemon_penalty };
                    self.status = ProcessorStatus::Idle;
                    Some(ProcessorEvent::Completed(done))
                }
            },
        }
    }

    /// One tick of `delta_ms`; a burnout roll is drawn from `rng` only for a working
    /// unit whose reliability is above zero, the only case the roll decides.
    pub fn tick(
        &mut self,
        delta_ms: u64,
        rng: &mut rand::rngs::StdRng,
        cooling_bonus_levels: u8,
    ) -> (r: Option<ProcessorEvent>)
        ensures
            exists|roll: u32|
                roll < UNIT && (*final(self), r) == old(self).advance_spec(
                    delta_ms,
                    roll,
                    cooling_bonus_levels,
                ),
    {
        let roll: u32 = match &self.status {
            ProcessorStatus::Working(work) => {
                if self.evaluate_job(&work.job, cooling_bonus_levels).reliability > 0 {
                    draw_in(rng, 0, UNIT) as u32
                } else {
                    0
                }
            },
            _ => 0,
        };
        self.advance(delta_ms, roll, cooling_bonus_levels)
    }

    pub fn remaining_and_total(&self) -> (r: Option<(u64, u64)>)
        ensures
            match self.status {
                ProcessorStatus::Working(w) => r == Some((w.remaining_ms, w.total_ms)),
                _ => r is None,
            },
    {
        match &self.status {
            ProcessorStatus::Working(work) => Some((work.remaining_ms, work.total_ms)),
            _ => None,
        }
    }

    /// Restores the unit to service: idle, without wear, with a fresh snapshot.
    pub fn replace(&mut self)
        ensures
            *final(self) == (ProcessorState {
                status: ProcessorStatus::Idle,
                wear: 0,
                last_heat: 0,
                last_reliability: old(self).reliability_base,
                last_effective_cooling: old(self).cooling_level,
                last_power_draw: old(self).idle_power_spec() as u64,
                ..*old(self)
            }),
    {
        self.status = ProcessorStatus::Idle;
        self.wear = 0;
        self.last_heat = 0;
        self.last_reliability = self.reliability_base;
        self.last_effective_cooling = self.cooling_level;
        self.last_power_draw = self.idle_power_draw();
    }

    pub fn reliability_display(&self) -> (r: u32)
        ensures
            r == self.last_reliability,
    {
        self.last_reliability
    }

    pub fn heat_display(&self) -> (r: i64)
        ensures
            r == self.last_heat,
    {
        self.last_heat
    }

    pub fn cooling_cap(&self) -> (r: u8)
        ensures
            r == self.cooling_cap,
    {
        self.cooling_cap
    }

    pub fn last_power_draw(&self) -> (r: u64)
        ensures
            r == self.last_power_draw,
    {
        self.last_power_draw
    }

    /// Fills fields that a stored unit may lack and refreshes the display snapshot.
    pub open spec fn with_runtime_defaults(self) -> ProcessorState {
        let p = ProcessorState {
            cooling_cap: if self.cooling_cap == 0 { DEFAULT_COOLING_CAP } else { self.cooling_cap },
            replace_cost_ratio: if self.replace_cost_ratio == 0 {
                DEFAULT_REPLACE_RATIO
            } else {
                self.replace_cost_ratio
            },
            reliability_base: if self.reliability_base == 0 {
                DEFAULT_RELIABILITY
            } else {
                self.reliability_base
            },
            power_draw_base: if self.power_draw_base == 0 {
                DEFAULT_POWER_DRAW
            } else {
                self.power_draw_base
            },
            heat_output_base: if self.heat_output_base == 0 {
                DEFAULT_HEAT_OUTPUT
            } else {
                self.heat_output_base
            },
            purchase_cost: if self.purchase_cost == 0 {
                DEFAULT_PURCHASE_COST
            } else {
                self.purchase_cost
            },
            ..self
        };
        ProcessorState {
            last_reliability: p.reliability_base,
            last_heat: 0,
            last_effective_cooling: p.cooling_level,
            last_power_draw: p.idle_power_spec() as u64,
            ..p
        }
    }

    pub fn ensure_runtime_defaults(&mut self)
        ensures
            *final(self) == old(self).with_runtime_defaults(),
            old(self).wf() ==> final(self).wf(),
    {
        if self.cooling_cap == 0 {
            self.cooling_cap = DEFAULT_COOLING_CAP;
        }
        if self.replace_cost_ratio == 0 {
            self.replace_cost_ratio = DEFAULT_REPLACE_RATIO;
        }
        if self.reliability_base == 0 {
            self.reliability_base = DEFAULT_RELIABILITY;
        }
        if self.power_draw_base == 0 {
            self.power_draw_base = DEFAULT_POWER_DRAW;
        }
        if self.heat_output_base == 0 {
            self.heat_output_base = DEFAULT_HEAT_OUTPUT;
        }
        if self.purchase_cost == 0 {
            self.purchase_cost = DEFAULT_PURCHASE_COST;
        }
        self.last_reliability = self.reliability_base;
        self.last_heat = 0;
        self.last_effective_cooling = self.cooling_level;
        self.last_power_draw = self.idle_power_draw();
    }

    /// Whether this is the unit every new game starts with.
    pub open spec fn is_starter(&self) -> bool {
        &&& self.name@ == "Model F12-Scalar"@
        &&& self.speed == UNIT
        &&& self.quality_bias == 0
        &&& self.instruction_set@.len() == 1
        &&& self.instruction_set@[0]@ == GENERAL_TAG@
        &&& self.upkeep_cost == 8
        &&& self.status is Idle
        &&& self.reliability_base == DEFAULT_RELIABILITY
        &&& !self.cooling_required
        &&& self.cooling_level == 0
        &&& self.cooling_cap == DEFAULT_COOLING_CAP
        &&& self.hardening_level == 0
        &&& self.requires_cooling_min == 0
        &&& !self.finite_lifespan
        &&& self.mttf_ticks == 0
        &&& self.wear == 0
        &&& self.fragility == 0
        &&& self.replace_cost_ratio == DEFAULT_REPLACE_RATIO
        &&& self.power_draw_base == DEFAULT_POWER_DRAW
        &&& self.power_draw_mod@.len() == 0
        &&& self.heat_output_base == DEFAULT_HEAT_OUTPUT
        &&& self.purchase_cost == DEFAULT_PURCHASE_COST
        &&& self.daemon_mode == DaemonMode::Off
        &&& !self.daemon_unlocked
        &&& self.daemon_affinity@.len() == 0
        &&& self.daemon_priority == 0
        &&& self.honor_cooling_mins
        &&& self.daemon_penalty.quality == -5
        &&& self.daemon_penalty.time_multiplier == 1_100_000
        &&& self.last_reliability == DEFAULT_RELIABILITY
        &&& self.last_heat == 0
        &&& self.last_power_draw == DEFAULT_POWER_DRAW
        &&& self.last_effective_cooling == 0
    }

    /// The unit every new game starts with.
    pub fn starter() -> (r: Self)
        ensures
            r.is_starter(),
            r.wf(),
    {
        let mut processor = ProcessorState {
            name: "Model F12-Scalar".to_owned(),
            speed: UNIT as u32,
            quality_bias: 0,
            instruction_set: vec![GENERAL_TAG.to_owned()],
            upkeep_cost: 8,
            status: ProcessorStatus::Idle,
            reliability_base: DEFAULT_RELIABILITY,
            cooling_required: false,
            cooling_level: 0,
            cooling_cap: DEFAULT_COOLING_CAP,
            hardening_level: 0,
            requires_cooling_min: 0,
            finite_lifespan: false,
            mttf_ticks: 0,
            wear: 0,
            fragility: 0,
            replace_cost_ratio: DEFAULT_REPLACE_RATIO,
            power_draw_base: DEFAULT_POWER_DRAW,
            power_draw_mod: Vec::new(),
            heat_output_base: DEFAULT_HEAT_OUTPUT,
            purchase_cost: DEFAULT_PURCHASE_COST,
            daemon_mode: DaemonMode::Off,
            daemon_unlocked: false,
            daemon_affinity: Vec::new(),
            daemon_priority: 0,
            honor_cooling_mins: true,
            daemon_penalty: DaemonPenalty::default(),
            last_reliability: DEFAULT_RELIABILITY,
            last_heat: 0,
            last_power_draw: DEFAULT_POWER_DRAW as u64,
            last_effective_cooling: 0,
        };
        processor.ensure_runtime_defaults();
        assert(processor.power_draw_base == DEFAULT_POWER_DRAW && processor.cooling_level == 0);
        assert(DEFAULT_POWER_DRAW as int * (UNIT as int + ELECTRIC_COOLING_FACTOR as int * 0)
            / UNIT as int == DEFAULT_POWER_DRAW) by (nonlinear_arith);
        assert(processor.idle_power_spec() == DEFAULT_POWER_DRAW);
        processor
    }
}

/// A tick leaves the unit's modifier lists as they were.
pub proof fn lemma_tick_keeps_wf(p: ProcessorState, delta: u64, roll: u32, bonus: u8)
    ensures
        p.advance_spec(delta, roll, bonus).0.wf() == p.wf(),
{
}

/// A tick never lowers a unit's wear.
pub proof fn lemma_tick_keeps_wear(p: ProcessorState, delta: u64, roll: u32, bonus: u8)
    ensures
        p.advance_spec(delta, roll, bonus).0.wear >= p.wear,
{
}

/// A working unit whose evaluated reliability is zero burns out on its next tick,
/// whatever the random draw, and the job it ran is lost with it.
pub proof fn lemma_zero_reliability_burns_out(p: ProcessorState, delta: u64, roll: u32, bonus: u8)
    requires
        p.status is Working,
        p.reliability_of(p.status->Working_0.job.tag@, bonus as int) == 0,
    ensures
        p.advance_spec(delta, roll, bonus).0.status is BurntOut,
        p.advance_spec(delta, roll, bonus).1 == Some(
            ProcessorEvent::BurntOut { job: p.status->Working_0.job },
        ),
{
}

} // verus!
