use crate::data_storage::DataStorage;
use crate::fixed::{clamp, round_div, round_div_sat, UNIT};
use crate::game::{texts, Game, GameState, DAY_DURATION_MS};
use crate::jobs::SIMD_TAG;
use crate::messages::GameMessage;
use crate::processors::{DaemonPenalty, ProcessorState, ProcessorStatus};
use crate::store::{
    is_catalog_item, item_action, item_base_cost, item_cost_step, item_max_purchases, store_index_for,
    store_item, PurchaseError, StoreItem, StoreAction, MAX_HARDENING, SPEED_STEP, STORAGE_EXPANSION, STORE_LEN,
};
use vstd::prelude::*;

verus! {

/// Lowest time multiplier daemon firmware eases the penalty to (millionths).
pub const FIRMWARE_MIN_MULTIPLIER: u32 = 1_020_000;

/// Time multiplier taken off the penalty by daemon firmware (millionths).
pub const FIRMWARE_MULTIPLIER_CUT: u32 = 20_000;

/// Worst quality delta left after daemon firmware.
pub const FIRMWARE_QUALITY_FLOOR: i8 = -3;

/// What replacing `p` costs: nothing for a working unit, else its purchase cost
/// times its replacement ratio, rounded, at least 1.
pub open spec fn replace_cost_spec(p: ProcessorState) -> int {
    if p.is_functional_spec() {
        0
    } else {
        vstd::math::max(
            1,
            clamp(
                round_div(p.purchase_cost as int * p.replace_cost_ratio as int, UNIT as int),
                0,
                u64::MAX as int,
            ),
        )
    }
}

/// Sum of the replacement costs of the units named `name`.
pub open spec fn model_cost(ps: Seq<ProcessorState>, name: Seq<char>) -> int
    decreases ps.len(),
{
    if ps.len() == 0 {
        0
    } else {
        model_cost(ps.drop_last(), name) + if ps.last().name@ == name {
            replace_cost_spec(ps.last())
        } else {
            0
        }
    }
}

/// Whether the optional unit index names unit `j`.
pub open spec fn targets(pi: Option<usize>, j: int) -> bool {
    match pi {
        Some(k) => k as int == j,
        None => false,
    }
}

pub open spec fn needs_processor(a: StoreAction) -> bool {
    a == StoreAction::ReplaceProcessor || a == StoreAction::ReplaceModel || a
        == StoreAction::UpgradeCooling || a == StoreAction::UpgradeHardening || a
        == StoreAction::InstallDaemonFirmware
}

/// Whether a purchase of an item with this action counts toward its limit.
pub open spec fn counted(a: StoreAction) -> bool {
    a != StoreAction::ReplaceProcessor && a != StoreAction::ReplaceModel
}

impl ProcessorState {
    /// The unit restored to service by `replace`.
    pub open spec fn replaced(self) -> ProcessorState {
        ProcessorState {
            status: ProcessorStatus::Idle,
            wear: 0,
            last_heat: 0,
            last_reliability: self.reliability_base,
            last_effective_cooling: self.cooling_level,
            last_power_draw: self.idle_power_spec() as u64,
            ..self
        }
    }

    /// The penalty once daemon firmware eased it.
    pub open spec fn eased_penalty(self) -> DaemonPenalty {
        DaemonPenalty {
            quality: vstd::math::max(self.daemon_penalty.quality as int, FIRMWARE_QUALITY_FLOOR as int) as i8,
            time_multiplier: vstd::math::max(
                self.daemon_penalty.time_multiplier - FIRMWARE_MULTIPLIER_CUT,
                FIRMWARE_MIN_MULTIPLIER as int,
            ) as u32,
        }
    }

    /// Whether `q` is this unit after it gained `tag`, when it lacked it.
    pub open spec fn gains_tag(self, q: ProcessorState, tag: Seq<char>) -> bool {
        &&& q == (ProcessorState { instruction_set: q.instruction_set, ..self })
        &&& texts(q.instruction_set@) == if self.supports_spec(tag) {
            texts(self.instruction_set@)
        } else {
            texts(self.instruction_set@).push(tag)
        }
    }

    /// Whether `q` is this unit after a purchase with action `a`; `selected` tells
    /// whether it is the unit chosen for it, `model` the name of that unit.
    pub open spec fn purchase_turns_into(
        self,
        q: ProcessorState,
        a: StoreAction,
        selected: bool,
        model: Seq<char>,
    ) -> bool {
        match a {
            StoreAction::IncreaseSpeed => q == (ProcessorState {
                speed: vstd::math::min(self.speed + SPEED_STEP, u32::MAX as int) as u32,
                ..self
            }),
            StoreAction::ImproveQuality => q == (ProcessorState {
                quality_bias: vstd::math::min(self.quality_bias + 1, i8::MAX as int) as i8,
                ..self
            }),
            StoreAction::UnlockInstructionSet => self.gains_tag(q, SIMD_TAG@),
            StoreAction::UpgradeCooling => q == if selected {
                (ProcessorState {
                    cooling_level: (self.cooling_level + 1) as u8,
                    ..self
                }).with_runtime_defaults()
            } else {
                self
            },
            StoreAction::UpgradeHardening => q == if selected {
                ProcessorState { hardening_level: (self.hardening_level + 1) as u8, ..self }
            } else {
                self
            },
            StoreAction::InstallDaemonFirmware => q == if selected {
                ProcessorState {
                    daemon_unlocked: true,
                    daemon_penalty: self.eased_penalty(),
                    ..self
                }
            } else {
                self
            },
            StoreAction::ReplaceProcessor => q == if selected {
                self.replaced()
            } else {
                self
            },
            StoreAction::ReplaceModel => q == if self.name@ == model
                && !self.is_functional_spec() {
                self.replaced()
            } else {
                self
            },
            _ => q == self,
        }
    }
}

impl Game {
    /// The unit a purchase targets, if the index names one.
    pub open spec fn selected(&self, pi: Option<usize>) -> Option<ProcessorState> {
        match pi {
            Some(i) => if i < self.state.processors@.len() {
                Some(self.state.processors@[i as int])
            } else {
                None
            },
            None => None,
        }
    }

    /// How often item `index` was bought (0 when the counter is missing).
    pub open spec fn purchase_count(&self, index: int) -> int {
        if 0 <= index < self.state.store_purchases@.len() {
            self.state.store_purchases@[index] as int
        } else {
            0
        }
    }

    pub open spec fn model_cost_of(&self, name: Seq<char>) -> int {
        vstd::math::min(model_cost(self.state.processors@, name), u64::MAX as int)
    }

    /// The live price of item `index` for the selected unit, or `None` when it
    /// cannot be bought (sold out, at its cap, already installed, unit healthy,
    /// nothing selected).
    pub open spec fn cost_spec(&self, index: int, pi: Option<usize>) -> Option<u64> {
        let a = item_action(index);
        let base = item_base_cost(index) as int;
        let step = item_cost_step(index) as int;
        if index < 0 || index >= STORE_LEN {
            None
        } else if a == StoreAction::UnlockInstructionSet && self.state.is_unlocked(SIMD_TAG@) {
            None
        } else if needs_processor(a) {
            match self.selected(pi) {
                None => None,
                Some(p) => if a == StoreAction::ReplaceProcessor {
                    if replace_cost_spec(p) == 0 {
                        None
                    } else {
                        Some(replace_cost_spec(p) as u64)
                    }
                } else if a == StoreAction::ReplaceModel {
                    if self.model_cost_of(p.name@) == 0 {
                        None
                    } else {
                        Some(self.model_cost_of(p.name@) as u64)
                    }
                } else if a == StoreAction::UpgradeCooling {
                    if p.cooling_level >= p.cooling_cap {
                        None
                    } else {
                        Some((base + step * p.cooling_level) as u64)
                    }
                } else if a == StoreAction::UpgradeHardening {
                    if p.hardening_level >= MAX_HARDENING {
                        None
                    } else {
                        Some((base + step * p.hardening_level) as u64)
                    }
                } else {
                    if p.daemon_unlocked {
                        None
                    } else {
                        Some((base + step * vstd::math::max(p.daemon_priority as int, 0)) as u64)
                    }
                },
            }
        } else {
            match item_max_purchases(index) {
                Some(m) => if self.purchase_count(index) >= m {
                    None
                } else {
                    Some((base + step * self.purchase_count(index)) as u64)
                },
                None => Some((base + step * self.purchase_count(index)) as u64),
            }
        }
    }

    /// Why buying item `index` fails, checked in this order: 1 unknown item, 2 sold
    /// out, 3 instruction set already unlocked, 4 no unit selected, 5 unit healthy,
    /// 6 no unit of the model to replace, 7 upgrade at its cap, 8 firmware already
    /// installed, 9 too few credits; 0 when it succeeds.
    pub open spec fn purchase_refusal(&self, index: int, pi: Option<usize>) -> int {
        let a = item_action(index);
        let p = self.selected(pi)->Some_0;
        if index < 0 || index >= STORE_LEN {
            1
        } else if a == StoreAction::UnlockInstructionSet && self.state.is_unlocked(SIMD_TAG@) {
            3
        } else if item_max_purchases(index) is Some && self.purchase_count(index)
            >= item_max_purchases(index)->Some_0 {
            2
        } else if needs_processor(a) && self.selected(pi) is None {
            4
        } else if a == StoreAction::ReplaceProcessor && replace_cost_spec(p) == 0 {
            5
        } else if a == StoreAction::ReplaceModel && self.model_cost_of(p.name@) == 0 {
            6
        } else if a == StoreAction::UpgradeCooling && p.cooling_level >= p.cooling_cap {
            7
        } else if a == StoreAction::UpgradeHardening && p.hardening_level >= MAX_HARDENING {
            7
        } else if a == StoreAction::InstallDaemonFirmware && p.daemon_unlocked {
            8
        } else if self.state.credits < self.cost_spec(index, pi)->Some_0 {
            9
        } else {
            0
        }
    }

    /// Whether `e` is the error for refusal `k` at price `cost`.
    pub open spec fn is_purchase_error(e: PurchaseError, k: int, cost: u64) -> bool {
        match e {
            PurchaseError::InvalidItem => k == 1,
            PurchaseError::MaxedOut { .. } => k == 2,
            PurchaseError::InstructionAlreadyUnlocked { tag } => k == 3 && tag@ == SIMD_TAG@,
            PurchaseError::ProcessorSelectionRequired => k == 4,
            PurchaseError::ProcessorHealthy => k == 5,
            PurchaseError::NoMatchingProcessors => k == 6,
            PurchaseError::UpgradeAtCap => k == 7,
            PurchaseError::DaemonAlreadyInstalled => k == 8,
            PurchaseError::InsufficientCredits { cost: c } => k == 9 && c == cost,
        }
    }

    /// Whether `after` is this game once the action of item `index` was applied to
    /// unit `pi`, leaving credits, purchase counters and the log aside.
    pub open spec fn action_applied(&self, after: &Game, index: int, pi: Option<usize>) -> bool {
        let a = item_action(index);
        let s = self.state;
        let t = after.state;
        let model = self.selected(pi)->Some_0.name@;
        &&& t.jobs == s.jobs
        &&& t.daemon_unlocked == s.daemon_unlocked
        &&& t.daemon_enabled == s.daemon_enabled
        &&& t.job_counter == s.job_counter
        &&& t.storage == if a == StoreAction::ExpandStorage {
            DataStorage {
                capacity: vstd::math::min(s.storage.capacity + STORAGE_EXPANSION, u64::MAX as int) as u64,
                ..s.storage
            }
        } else {
            s.storage
        }
        &&& t.thermal_paste_timer_ms == if a == StoreAction::ApplyThermalPaste {
            DAY_DURATION_MS
        } else {
            s.thermal_paste_timer_ms
        }
        &&& if a == StoreAction::UnlockInstructionSet {
            texts(t.unlocked_tags@) == texts(s.unlocked_tags@).push(SIMD_TAG@)
        } else {
            t.unlocked_tags == s.unlocked_tags
        }
        &&& t.processors@.len() == s.processors@.len()
        &&& forall|j: int|
            0 <= j < s.processors@.len() ==> s.processors@[j].purchase_turns_into(
                #[trigger] t.processors@[j],
                a,
                targets(pi, j),
                model,
            )
        &&& after.same_clocks(self)
    }

    /// Whether `after` is this game once item `index` was bought for unit `pi`.
    pub open spec fn purchase_applied(&self, after: &Game, index: int, pi: Option<usize>) -> bool {
        let cost = self.cost_spec(index, pi)->Some_0;
        let s = self.state;
        let t = after.state;
        &&& self.action_applied(after, index, pi)
        &&& t.credits == s.credits - cost
        &&& t.store_purchases@ == if counted(item_action(index)) && index < s.store_purchases@.len() {
            s.store_purchases@.update(
                index,
                vstd::math::min(s.store_purchases@[index] + 1, u32::MAX as int) as u32,
            )
        } else {
            s.store_purchases@
        }
        &&& after.log().len() > 0
        &&& after.log().last() matches GameMessage::Purchased { cost: c, .. } && c == cost
    }
}

pub fn replacement_cost_for_processor(processor: &ProcessorState) -> (r: u64)
    ensures
        r == replace_cost_spec(*processor),
{
    if processor.is_functional() {
        return 0;
    }
    assert(processor.purchase_cost as u128 * processor.replace_cost_ratio as u128 <= u64::MAX as u128
        * 0x1_0000_0000) by (nonlinear_arith)
        requires
            processor.purchase_cost <= u64::MAX,
            processor.replace_cost_ratio < 0x1_0000_0000u64,
    ;
    let base = round_div_sat(
        processor.purchase_cost as u128 * processor.replace_cost_ratio as u128,
        UNIT as u128,
    );
    if base < 1 { 1 } else { base }
}

proof fn lemma_model_cost_nonneg(ps: Seq<ProcessorState>, name: Seq<char>)
    ensures
        model_cost(ps, name) >= 0,
    decreases ps.len(),
{
    if ps.len() > 0 {
        lemma_model_cost_nonneg(ps.drop_last(), name);
    }
}

impl Game {
    fn replacement_cost_for_model(&self, name: &String) -> (r: u64)
        ensures
            r == self.model_cost_of(name@),
    {
        let mut total: u64 = 0;
        let mut i: usize = 0;
        while i < self.state.processors.len()
            invariant
                0 <= i <= self.state.processors@.len(),
                total == vstd::math::min(
                    model_cost(self.state.processors@.take(i as int), name@),
                    u64::MAX as int,
                ),
            decreases self.state.processors@.len() - i,
        {
            proof {
                assert(self.state.processors@.take(i + 1).drop_last() =~= self.state.processors@.take(
                    i as int,
                ));
                lemma_model_cost_nonneg(self.state.processors@.take(i as int), name@);
            }
            if self.state.processors[i].name == *name {
                let c = replacement_cost_for_processor(&self.state.processors[i]);
                total = total.saturating_add(c);
            }
            i = i + 1;
        }
        assert(self.state.processors@.take(self.state.processors@.len() as int) =~= self.state.processors@);
        total
    }

    /// The store catalog.
    pub fn store_items(&self) -> (r: Vec<StoreItem>)
        ensures
            r@.len() == STORE_LEN,
            forall|i: int| 0 <= i < STORE_LEN ==> is_catalog_item(#[trigger] r@[i], i),
    {
        crate::store::store_items()
    }

    pub fn item_cost(&self, index: usize, processor_index: Option<usize>) -> (r: Option<u64>)
        ensures
            r == self.cost_spec(index as int, processor_index),
    {
        let item = match store_item(index) {
            Some(item) => item,
            None => return None,
        };
        let selected: Option<&ProcessorState> = match processor_index {
            Some(i) => if i < self.state.processors.len() {
                Some(&self.state.processors[i])
            } else {
                None
            },
            None => None,
        };
        match item.action {
            StoreAction::ReplaceProcessor => {
                let processor = selected?;
                let cost = replacement_cost_for_processor(processor);
                if cost == 0 { None } else { Some(cost) }
            },
            StoreAction::ReplaceModel => {
                let processor = selected?;
                let cost = self.replacement_cost_for_model(&processor.name);
                if cost == 0 { None } else { Some(cost) }
            },
            StoreAction::UpgradeCooling => {
                let processor = selected?;
                if processor.cooling_level >= processor.cooling_cap {
                    return None;
                }
                Some(item.base_cost + item.cost_step * processor.cooling_level as u64)
            },
            StoreAction::UpgradeHardening => {
                let processor = selected?;
                if processor.hardening_level >= MAX_HARDENING {
                    return None;
                }
                Some(item.base_cost + item.cost_step * processor.hardening_level as u64)
            },
            StoreAction::InstallDaemonFirmware => {
                let processor = selected?;
                if processor.daemon_unlocked {
                    return None;
                }
                let priority: u64 = if processor.daemon_priority < 0 {
                    0
                } else {
                    processor.daemon_priority as u64
                };
                Some(item.base_cost + item.cost_step * priority)
            },
            _ => {
                if item.action == StoreAction::UnlockInstructionSet && self.is_instruction_unlocked(
                    SIMD_TAG,
                ) {
                    return None;
                }
                let purchases: u64 = if index < self.state.store_purchases.len() {
                    self.state.store_purchases[index] as u64
                } else {
                    0
                };
                match item.max_purchases {
                    Some(max) => if purchases >= max as u64 {
                        None
                    } else {
                        Some(item.base_cost + item.cost_step * purchases)
                    },
                    None => Some(item.base_cost + item.cost_step * purchases),
                }
            },
        }
    }
}

/// Raises the unit's cooling by one level.
fn upgrade_cooling(p: &mut ProcessorState)
    requires
        old(p).cooling_level < old(p).cooling_cap,
    ensures
        *final(p) == (ProcessorState {
            cooling_level: (old(p).cooling_level + 1) as u8,
            ..*old(p)
        }).with_runtime_defaults(),
{
    p.cooling_level = p.cooling_level + 1;
    p.ensure_runtime_defaults();
}

/// Adds `tag` to every unit that lacks it.
fn add_tag_to_fleet(ps: &mut Vec<ProcessorState>, tag: &str)
    ensures
        final(ps)@.len() == old(ps)@.len(),
        forall|j: int| 0 <= j < old(ps)@.len() ==> old(ps)@[j].gains_tag(#[trigger] final(ps)@[j], tag@),
{
    let mut i: usize = 0;
    while i < ps.len()
        invariant
            0 <= i <= ps@.len(),
            ps@.len() == old(ps)@.len(),
            forall|j: int| 0 <= j < i ==> old(ps)@[j].gains_tag(#[trigger] ps@[j], tag@),
            forall|j: int| i <= j < ps@.len() ==> #[trigger] ps@[j] == old(ps)@[j],
        decreases ps@.len() - i,
    {
        if !ps[i].supports(tag) {
            let t: String = tag.to_owned();
            ps[i].instruction_set.push(t);
            assert(texts(ps@[i as int].instruction_set@) =~= texts(old(ps)@[i as int].instruction_set@).push(tag@));
        }
        i = i + 1;
    }
}

/// Speeds every unit up by one tuning step.
fn tune_fleet_speed(ps: &mut Vec<ProcessorState>)
    ensures
        final(ps)@.len() == old(ps)@.len(),
        forall|j: int|
            0 <= j < old(ps)@.len() ==> old(ps)@[j].purchase_turns_into(
                #[trigger] final(ps)@[j],
                StoreAction::IncreaseSpeed,
                false,
                Seq::empty(),
            ),
{
    let mut i: usize = 0;
    while i < ps.len()
        invariant
            0 <= i <= ps@.len(),
            ps@.len() == old(ps)@.len(),
            forall|j: int|
                0 <= j < i ==> old(ps)@[j].purchase_turns_into(
                    #[trigger] ps@[j],
                    StoreAction::IncreaseSpeed,
                    false,
                    Seq::empty(),
                ),
            forall|j: int| i <= j < ps@.len() ==> #[trigger] ps@[j] == old(ps)@[j],
        decreases ps@.len() - i,
    {
        let speed = ps[i].speed.saturating_add(SPEED_STEP);
        ps[i].speed = speed;
        i = i + 1;
    }
}

/// Raises every unit's quality bias by one.
fn calibrate_fleet(ps: &mut Vec<ProcessorState>)
    ensures
        final(ps)@.len() == old(ps)@.len(),
        forall|j: int|
            0 <= j < old(ps)@.len() ==> old(ps)@[j].purchase_turns_into(
                #[trigger] final(ps)@[j],
                StoreAction::ImproveQuality,
                false,
                Seq::empty(),
            ),
{
    let mut i: usize = 0;
    while i < ps.len()
        invariant
            0 <= i <= ps@.len(),
            ps@.len() == old(ps)@.len(),
            forall|j: int|
                0 <= j < i ==> old(ps)@[j].purchase_turns_into(
                    #[trigger] ps@[j],
                    StoreAction::ImproveQuality,
                    false,
                    Seq::empty(),
                ),
            forall|j: int| i <= j < ps@.len() ==> #[trigger] ps@[j] == old(ps)@[j],
        decreases ps@.len() - i,
    {
        let bias: i8 = if ps[i].quality_bias < i8::MAX { ps[i].quality_bias + 1 } else { i8::MAX };
        ps[i].quality_bias = bias;
        i = i + 1;
    }
}

/// Replaces every out-of-service unit named `name`; returns how many.
fn replace_fleet(ps: &mut Vec<ProcessorState>, name: &String) -> (count: u64)
    ensures
        final(ps)@.len() == old(ps)@.len(),
        forall|j: int|
            0 <= j < old(ps)@.len() ==> old(ps)@[j].purchase_turns_into(
                #[trigger] final(ps)@[j],
                StoreAction::ReplaceModel,
                false,
                name@,
            ),
{
    let mut count: u64 = 0;
    let mut i: usize = 0;
    while i < ps.len()
        invariant
            0 <= i <= ps@.len(),
            ps@.len() == old(ps)@.len(),
            forall|j: int|
                0 <= j < i ==> old(ps)@[j].purchase_turns_into(
                    #[trigger] ps@[j],
                    StoreAction::ReplaceModel,
                    false,
                    name@,
                ),
            forall|j: int| i <= j < ps@.len() ==> #[trigger] ps@[j] == old(ps)@[j],
        decreases ps@.len() - i,
    {
        if ps[i].name == *name && !ps[i].is_functional() {
            ps[i].replace();
            count = count.saturating_add(1);
        }
        i = i + 1;
    }
    count
}

impl Game {
    /// Unlocks `tag` for the game and every unit; false when it already was.
    pub fn unlock_instruction_tag(&mut self, tag: &str) -> (r: bool)
        ensures
            r == !old(self).state.is_unlocked(tag@),
            !r ==> final(self).state == old(self).state,
            r ==> final(self).state == (GameState {
                processors: final(self).state.processors,
                unlocked_tags: final(self).state.unlocked_tags,
                ..old(self).state
            }) && texts(final(self).state.unlocked_tags@) == texts(old(self).state.unlocked_tags@).push(tag@)
                && final(self).state.processors@.len() == old(self).state.processors@.len()
                && forall|j: int|
                0 <= j < old(self).state.processors@.len() ==> old(self).state.processors@[j].gains_tag(
                    #[trigger] final(self).state.processors@[j],
                    tag@,
                ),
            final(self).log() == old(self).log(),
            final(self).same_clocks(old(self)),
    {
        if self.is_instruction_unlocked(tag) {
            return false;
        }
        self.state.unlocked_tags.push(tag.to_owned());
        assert(texts(self.state.unlocked_tags@) =~= texts(old(self).state.unlocked_tags@).push(tag@));
        add_tag_to_fleet(&mut self.state.processors, tag);
        true
    }

    /// The item, the targeted unit (0 when none is needed) and the price of a
    /// purchase that passes every check; the error of the first check it fails.
    fn check_purchase(&self, index: usize, processor_index: Option<usize>) -> (r: Result<
        (StoreItem, usize, u64),
        PurchaseError,
    >)
        ensures
            self.purchase_refusal(index as int, processor_index) != 0 ==> (r matches Err(e)
                && Self::is_purchase_error(
                e,
                self.purchase_refusal(index as int, processor_index),
                self.cost_spec(index as int, processor_index)->Some_0,
            )),
            self.purchase_refusal(index as int, processor_index) == 0 ==> (r matches Ok(
                (item, sel, cost),
            ) && is_catalog_item(item, index as int) && self.cost_spec(
                index as int,
                processor_index,
            ) == Some(cost) && (needs_processor(item.action) ==> processor_index == Some(sel)
                && sel < self.state.processors@.len())),
    {
        let item = match store_item(index) {
            Some(item) => item,
            None => return Err(PurchaseError::InvalidItem),
        };
        if item.action == StoreAction::UnlockInstructionSet && self.is_instruction_unlocked(
            SIMD_TAG,
        ) {
            return Err(PurchaseError::InstructionAlreadyUnlocked { tag: SIMD_TAG.to_owned() });
        }
        let purchases: u32 = match self.store_purchases(index) {
            Some(n) => n,
            None => 0,
        };
        match item.max_purchases {
            Some(max) => {
                if purchases >= max {
                    return Err(PurchaseError::MaxedOut { item: item.name });
                }
            },
            None => {},
        }
        let needs = item.action == StoreAction::ReplaceProcessor || item.action
            == StoreAction::ReplaceModel || item.action == StoreAction::UpgradeCooling
            || item.action == StoreAction::UpgradeHardening || item.action
            == StoreAction::InstallDaemonFirmware;
        let selected: usize = match processor_index {
            Some(i) => if i < self.state.processors.len() {
                i
            } else if needs {
                return Err(PurchaseError::ProcessorSelectionRequired);
            } else {
                0
            },
            None => if needs {
                return Err(PurchaseError::ProcessorSelectionRequired);
            } else {
                0
            },
        };
        match item.action {
            StoreAction::ReplaceProcessor => {
                if replacement_cost_for_processor(&self.state.processors[selected]) == 0 {
                    return Err(PurchaseError::ProcessorHealthy);
                }
            },
            StoreAction::ReplaceModel => {
                if self.replacement_cost_for_model(&self.state.processors[selected].name) == 0 {
                    return Err(PurchaseError::NoMatchingProcessors);
                }
            },
            StoreAction::UpgradeCooling => {
                if self.state.processors[selected].cooling_level
                    >= self.state.processors[selected].cooling_cap {
                    return Err(PurchaseError::UpgradeAtCap);
                }
            },
            StoreAction::UpgradeHardening => {
                if self.state.processors[selected].hardening_level >= MAX_HARDENING {
                    return Err(PurchaseError::UpgradeAtCap);
                }
            },
            StoreAction::InstallDaemonFirmware => {
                if self.state.processors[selected].daemon_unlocked {
                    return Err(PurchaseError::DaemonAlreadyInstalled);
                }
            },
            _ => {},
        }
        let cost = match self.item_cost(index, processor_index) {
            Some(c) => c,
            None => return Err(PurchaseError::InvalidItem),
        };
        if self.state.credits < cost {
            return Err(PurchaseError::InsufficientCredits { cost });
        }
        Ok((item, selected, cost))
    }

    /// Applies the action of catalog item `index` to unit `selected`.
    fn apply_action(&mut self, item: StoreItem, index: usize, selected: usize, processor_index: Option<usize>)
        requires
            index < STORE_LEN,
            is_catalog_item(item, index as int),
            needs_processor(item.action) ==> processor_index == Some(selected) && selected
                < old(self).state.processors@.len(),
            item.action == StoreAction::UnlockInstructionSet ==> !old(self).state.is_unlocked(SIMD_TAG@),
            item.action == StoreAction::UpgradeCooling ==> old(self).state.processors@[selected as int].cooling_level
                < old(self).state.processors@[selected as int].cooling_cap,
            item.action == StoreAction::UpgradeHardening ==> old(self).state.processors@[selected as int].hardening_level
                < MAX_HARDENING,
        ensures
            old(self).action_applied(final(self), index as int, processor_index),
            final(self).state.credits == old(self).state.credits,
            final(self).state.store_purchases == old(self).state.store_purchases,
    {
        match item.action {
            StoreAction::IncreaseSpeed => {
                tune_fleet_speed(&mut self.state.processors);
                self.push_message(GameMessage::SpeedTuned);
            },
            StoreAction::ImproveQuality => {
                calibrate_fleet(&mut self.state.processors);
                self.push_message(GameMessage::QualityCalibrated);
            },
            StoreAction::ExpandStorage => {
                let room = u64::MAX - self.state.storage.capacity;
                let extra = if room < STORAGE_EXPANSION { room } else { STORAGE_EXPANSION };
                self.state.storage.expand(extra);
                let capacity = self.state.storage.capacity;
                self.push_message(GameMessage::StorageExpanded { capacity });
            },
            StoreAction::UnlockInstructionSet => {
                if self.unlock_instruction_tag(SIMD_TAG) {
                    self.push_message(GameMessage::InstructionIntegrated { tag: SIMD_TAG.to_owned() });
                    self.push_message(GameMessage::AdvancedStreamUnlocked);
                }
            },
            StoreAction::UpgradeCooling => {
                upgrade_cooling(&mut self.state.processors[selected]);
                let level = self.state.processors[selected].cooling_level;
                let processor_name = self.state.processors[selected].name.clone();
                self.push_message(GameMessage::CoolingUpgraded { processor_name, level });
            },
            StoreAction::UpgradeHardening => {
                let level = self.state.processors[selected].hardening_level + 1;
                self.state.processors[selected].hardening_level = level;
                let processor_name = self.state.processors[selected].name.clone();
                self.push_message(GameMessage::HardeningUpgraded { processor_name, level });
            },
            StoreAction::ApplyThermalPaste => {
                self.state.thermal_paste_timer_ms = DAY_DURATION_MS;
                self.push_message(GameMessage::ThermalPasteApplied);
            },
            StoreAction::InstallDaemonFirmware => {
                let old_penalty = self.state.processors[selected].daemon_penalty;
                let quality: i8 = if old_penalty.quality < FIRMWARE_QUALITY_FLOOR {
                    FIRMWARE_QUALITY_FLOOR
                } else {
                    old_penalty.quality
                };
                let cut: u32 = if old_penalty.time_multiplier < FIRMWARE_MULTIPLIER_CUT {
                    0
                } else {
                    old_penalty.time_multiplier - FIRMWARE_MULTIPLIER_CUT
                };
                let time_multiplier: u32 = if cut < FIRMWARE_MIN_MULTIPLIER {
                    FIRMWARE_MIN_MULTIPLIER
                } else {
                    cut
                };
                self.state.processors[selected].daemon_unlocked = true;
                self.state.processors[selected].daemon_penalty = DaemonPenalty { quality, time_multiplier };
                let processor_name = self.state.processors[selected].name.clone();
                self.push_message(GameMessage::FirmwareInstalled { processor_name });
            },
            StoreAction::ReplaceProcessor => {
                self.state.processors[selected].replace();
                let processor_name = self.state.processors[selected].name.clone();
                self.push_message(GameMessage::ChassisReplaced { processor_name });
            },
            StoreAction::ReplaceModel => {
                let name = self.state.processors[selected].name.clone();
                let count = replace_fleet(&mut self.state.processors, &name);
                self.push_message(GameMessage::FleetReplaced { count, processor_name: name });
            },
        }
        proof {
            let a = item.action;
            if needs_processor(a) && a != StoreAction::ReplaceModel {
                let model = old(self).selected(processor_index)->Some_0.name@;
                assert forall|j: int| 0 <= j < old(self).state.processors@.len() implies old(
                    self,
                ).state.processors@[j].purchase_turns_into(
                    #[trigger] self.state.processors@[j],
                    a,
                    targets(processor_index, j),
                    model,
                ) by {
                    if j != selected as int {
                        assert(self.state.processors@[j] == old(self).state.processors@[j]);
                    }
                }
            }
        }
    }

    /// Buys item `index`, for unit `processor_index` where the item needs one. Every
    /// check comes before any change: a refused purchase changes nothing.
    pub fn purchase_item(&mut self, index: usize, processor_index: Option<usize>) -> (r: Result<
        (),
        PurchaseError,
    >)
        ensures
            old(self).purchase_refusal(index as int, processor_index) != 0 ==> (r matches Err(e)
                && Self::is_purchase_error(
                e,
                old(self).purchase_refusal(index as int, processor_index),
                old(self).cost_spec(index as int, processor_index)->Some_0,
            )) && final(self).state == old(self).state && final(self).log() == old(self).log()
                && final(self).same_clocks(old(self)),
            old(self).purchase_refusal(index as int, processor_index) == 0 ==> r is Ok && old(
                self,
            ).purchase_applied(final(self), index as int, processor_index),
    {
        let (item, selected, cost) = match self.check_purchase(index, processor_index) {
            Ok(found) => found,
            Err(e) => return Err(e),
        };
        self.state.credits = self.state.credits - cost;
        self.apply_action(item, index, selected, processor_index);
        if item.action != StoreAction::ReplaceProcessor && item.action != StoreAction::ReplaceModel
            && index < self.state.store_purchases.len() {
            let n = self.state.store_purchases[index];
            self.state.store_purchases.set(index, n.saturating_add(1));
        }
        self.push_message(GameMessage::Purchased { item_name: item.name, cost });
        Ok(())
    }

    /// Buys a replacement chassis for unit `index`.
    pub fn replace_processor_direct(&mut self, index: usize) -> (r: Result<(), PurchaseError>)
        ensures
            old(self).purchase_refusal(8, Some(index)) != 0 ==> (r matches Err(e)
                && Self::is_purchase_error(
                e,
                old(self).purchase_refusal(8, Some(index)),
                old(self).cost_spec(8, Some(index))->Some_0,
            )) && final(self).state == old(self).state && final(self).log() == old(self).log(),
            old(self).purchase_refusal(8, Some(index)) == 0 ==> r is Ok && old(self).purchase_applied(
                final(self),
                8,
                Some(index),
            ),
    {
        let store_index = match store_index_for(StoreAction::ReplaceProcessor) {
            Some(i) => i,
            None => return Err(PurchaseError::InvalidItem),
        };
        self.purchase_item(store_index, Some(index))
    }

    /// Replaces every out-of-service unit of the model of unit `index`.
    pub fn replace_model_direct(&mut self, index: usize) -> (r: Result<(), PurchaseError>)
        ensures
            old(self).purchase_refusal(9, Some(index)) != 0 ==> (r matches Err(e)
                && Self::is_purchase_error(
                e,
                old(self).purchase_refusal(9, Some(index)),
                old(self).cost_spec(9, Some(index))->Some_0,
            )) && final(self).state == old(self).state && final(self).log() == old(self).log(),
            old(self).purchase_refusal(9, Some(index)) == 0 ==> r is Ok && old(self).purchase_applied(
                final(self),
                9,
                Some(index),
            ),
    {
        let store_index = match store_index_for(StoreAction::ReplaceModel) {
            Some(i) => i,
            None => return Err(PurchaseError::InvalidItem),
        };
        self.purchase_item(store_index, Some(index))
    }
}

/// Index of the instruction microcode in the catalog.
pub const MICROCODE_INDEX: usize = 3;

/// Once the SIMD instruction set is unlocked, the microcode has no price and buying
/// it is refused as already unlocked.
pub proof fn lemma_unlocked_microcode_refused(g: Game, pi: Option<usize>)
    requires
        g.state.is_unlocked(SIMD_TAG@),
    ensures
        g.purchase_refusal(MICROCODE_INDEX as int, pi) == 3,
        g.cost_spec(MICROCODE_INDEX as int, pi) is None,
{
}

/// An instruction set is never unlocked twice: after the microcode was bought, the
/// tag is unlocked exactly once and every further purchase fails as already unlocked.
pub proof fn lemma_microcode_bought_once(before: Game, after: Game, pi: Option<usize>, again: Option<usize>)
    requires
        before.purchase_refusal(MICROCODE_INDEX as int, pi) == 0,
        before.purchase_applied(&after, MICROCODE_INDEX as int, pi),
    ensures
        after.state.is_unlocked(SIMD_TAG@),
        forall|i: int, j: int|
            0 <= i < j < after.state.unlocked_tags@.len() ==> !(
            #[trigger] texts(after.state.unlocked_tags@)[i] == SIMD_TAG@ && #[trigger] texts(
                after.state.unlocked_tags@,
            )[j] == SIMD_TAG@),
        after.purchase_refusal(MICROCODE_INDEX as int, again) == 3,
{
    let t = texts(before.state.unlocked_tags@);
    let u = texts(after.state.unlocked_tags@);
    assert(u == t.push(SIMD_TAG@));
    assert(u[t.len() as int] == SIMD_TAG@);
    assert forall|i: int, j: int| 0 <= i < j < after.state.unlocked_tags@.len() implies !(
        #[trigger] texts(after.state.unlocked_tags@)[i] == SIMD_TAG@ && #[trigger] texts(
            after.state.unlocked_tags@,
        )[j] == SIMD_TAG@) by {
        if u[i] == SIMD_TAG@ && u[j] == SIMD_TAG@ {
            assert(u[i] == t[i]);
            assert(t.contains(SIMD_TAG@));
        }
    }
    lemma_unlocked_microcode_refused(after, again);
}

} // verus!
