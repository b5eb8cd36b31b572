use crate::economy::{
    quality_spec, electricity_spec, passive_income, passive_income_spec, payout_for_quality, payout_spec,
    roll_quality, upkeep_sum,
};
use crate::data_storage::DataStorage;
use crate::game::{
    log_push, texts, Game, GameState, DAEMON_UNLOCK_CREDITS, DAY_DURATION_MS, JOB_SPAWN_INTERVAL_MS,
    MAX_JOBS,
};
use crate::jobs::{general_job_drawn, generate_job_with_tag, simd_job_drawn, Job, GENERAL_TAG, SIMD_TAG};
use crate::messages::GameMessage;
use crate::processors::{CompletedJob, ProcessorEvent, ProcessorState};
use crate::random::draw_in;
use vstd::prelude::*;

verus! {

/// Weight of the general tag in the job stream.
pub const GENERAL_TAG_WEIGHT: usize = 4;

/// Weight of every other unlocked tag in the job stream.
pub const ADVANCED_TAG_WEIGHT: usize = 2;

/// The log after appending each of `ms` in order.
pub open spec fn log_push_all(log: Seq<GameMessage>, ms: Seq<GameMessage>) -> Seq<GameMessage>
    decreases ms.len(),
{
    if ms.len() == 0 {
        log
    } else {
        log_push(log_push_all(log, ms.drop_last()), ms.last())
    }
}

/// The log entries announcing the `k` jobs of `jobs` from position `from` on.
pub open spec fn new_job_entries(jobs: Seq<Job>, from: int, k: int) -> Seq<GameMessage> {
    Seq::new(
        k as nat,
        |i: int| GameMessage::NewJob { job_name: jobs[from + i].name, tag: jobs[from + i].tag },
    )
}

/// Credits and log after paying a day's costs of `total` from `credits`.
pub open spec fn after_costs(credits: u64, log: Seq<GameMessage>, upkeep: u64, electricity: u64) -> (u64, Seq<GameMessage>) {
    let total = vstd::math::min(upkeep + electricity, u64::MAX as int) as u64;
    if total == 0 {
        (credits, log)
    } else if credits >= total {
        ((credits - total) as u64, log_push(log, GameMessage::UpkeepPaid { upkeep, electricity }))
    } else {
        (0, log_push(log, GameMessage::TreasuryDepleted { total }))
    }
}

/// Credits and log after the day's passive income on `stored` data.
pub open spec fn after_income(credits: u64, log: Seq<GameMessage>, stored: u64) -> (u64, Seq<GameMessage>) {
    let income = passive_income_spec(stored as int);
    if income > 0 {
        (
            vstd::math::min(credits + income, u64::MAX as int) as u64,
            log_push(log, GameMessage::PassiveIncome { amount: income as u64 }),
        )
    } else {
        (credits, log)
    }
}

impl Game {
    /// Whether some unit supports `tag`.
    pub open spec fn fleet_supports(&self, tag: Seq<char>) -> bool {
        fleet_supports_tag(self.state.processors@, tag)
    }

    /// The credits and log a day cycle leaves.
    pub open spec fn day_cycle_spec(&self) -> (u64, Seq<GameMessage>) {
        let upkeep = vstd::math::min(upkeep_sum(self.state.processors@), u64::MAX as int) as u64;
        let electricity = electricity_spec(self.state.processors@) as u64;
        let paid = after_costs(self.state.credits, self.log(), upkeep, electricity);
        after_income(paid.0, paid.1, self.state.storage.stored)
    }

    /// Pays upkeep and electricity (never below zero credits) and then the passive
    /// income of stored data.
    pub fn apply_daily_cycle(&mut self)
        ensures
            final(self).state == (GameState { credits: final(self).state.credits, ..old(self).state }),
            (final(self).state.credits, final(self).log()) == old(self).day_cycle_spec(),
            final(self).same_clocks(old(self)),
    {
        let upkeep = self.total_upkeep();
        let electricity = self.total_electricity_cost();
        let total = upkeep.saturating_add(electricity);
        if total > 0 {
            if self.state.credits >= total {
                self.state.credits = self.state.credits - total;
                self.push_message(GameMessage::UpkeepPaid { upkeep, electricity });
            } else {
                self.state.credits = 0;
                self.push_message(GameMessage::TreasuryDepleted { total });
            }
        }
        let passive = passive_income(self.state.storage.stored);
        if passive > 0 {
            self.state.credits = self.state.credits.saturating_add(passive);
            self.push_message(GameMessage::PassiveIncome { amount: passive });
        }
    }

    fn fleet_supports_exec(&self, tag: &str) -> (r: bool)
        ensures
            r == self.fleet_supports(tag@),
    {
        let mut i: usize = 0;
        while i < self.state.processors.len()
            invariant
                0 <= i <= self.state.processors@.len(),
                forall|j: int| 0 <= j < i ==> !(#[trigger] self.state.processors@[j]).supports_spec(tag@),
            decreases self.state.processors@.len() - i,
        {
            if self.state.processors[i].supports(tag) {
                return true;
            }
            i = i + 1;
        }
        false
    }

    /// The pool the next job's tag is drawn from, uniformly: every unlocked tag some
    /// unit supports, the general tag four times and every other twice.
    pub open spec fn tag_pool(&self) -> Seq<Seq<char>> {
        pool_of(self.state.processors@, self.state.unlocked_tags@)
    }

    /// For each entry of the pool, the position of its tag among the unlocked tags.
    fn pool_indices(&self) -> (r: Vec<usize>)
        ensures
            r@.len() == self.tag_pool().len(),
            forall|k: int|
                0 <= k < r@.len() ==> #[trigger] r@[k] < self.state.unlocked_tags@.len()
                    && self.state.unlocked_tags@[r@[k] as int]@ == self.tag_pool()[k],
    {
        let tags = &self.state.unlocked_tags;
        let mut pool: Vec<usize> = Vec::new();
        let mut i: usize = 0;
        assert(tags@.take(0) =~= Seq::<String>::empty());
        while i < tags.len()
            invariant
                0 <= i <= tags@.len(),
                tags == &self.state.unlocked_tags,
                pool@.len() == pool_of(self.state.processors@, tags@.take(i as int)).len(),
                forall|k: int|
                    0 <= k < pool@.len() ==> #[trigger] pool@[k] < i && tags@[pool@[k] as int]@
                        == pool_of(self.state.processors@, tags@.take(i as int))[k],
            decreases tags@.len() - i,
        {
            let ghost prev = pool_of(self.state.processors@, tags@.take(i as int));
            let ghost t = tags@[i as int]@;
            proof {
                assert(tags@.take(i + 1).drop_last() =~= tags@.take(i as int));
                assert(tags@.take(i + 1).last() == tags@[i as int]);
            }
            let weight: usize = if !self.fleet_supports_exec(tags[i].as_str()) {
                0
            } else if same_tag(&tags[i], GENERAL_TAG) {
                GENERAL_TAG_WEIGHT
            } else {
                ADVANCED_TAG_WEIGHT
            };
            assert(weight == tag_weight(self.state.processors@, t));
            let ghost fresh = prev + Seq::new(weight as nat, |q: int| t);
            assert forall|k: int| 0 <= k < pool@.len() implies #[trigger] pool@[k] <= i && tags@[pool@[k] as int]@
                == fresh[k] by {
                assert(fresh[k] == prev[k]);
            }
            let mut w: usize = 0;
            while w < weight
                invariant
                    fresh == prev + Seq::new(weight as nat, |q: int| t),
                    t == tags@[i as int]@,
                    0 <= w <= weight,
                    i < tags@.len(),
                    pool@.len() == prev.len() + w,
                    forall|k: int|
                        0 <= k < pool@.len() ==> #[trigger] pool@[k] <= i && tags@[pool@[k] as int]@
                            == fresh[k],
                decreases weight - w,
            {
                pool.push(i);
                assert(fresh[pool@.len() - 1] == t);
                w = w + 1;
            }
            assert(pool_of(self.state.processors@, tags@.take(i + 1)) == fresh);
            i = i + 1;
        }
        assert(tags@.take(tags@.len() as int) =~= tags@);
        pool
    }

    /// Entry `at` of the tag pool.
    pub fn tag_at(&self, at: u64) -> (r: String)
        requires
            at < self.tag_pool().len(),
        ensures
            r@ == self.tag_pool()[at as int],
    {
        let pool = self.pool_indices();
        self.state.unlocked_tags[pool[at as usize]].clone()
    }

    /// Draws the tag of the next job uniformly from the tag pool; the general tag
    /// when the pool is empty.
    pub fn choose_job_tag(&mut self) -> (r: String)
        ensures
            final(self).state == old(self).state,
            final(self).log() == old(self).log(),
            final(self).same_clocks(old(self)),
            old(self).tag_pool().len() == 0 ==> r@ == GENERAL_TAG@,
            old(self).tag_pool().len() > 0 ==> exists|at: int|
                0 <= at < old(self).tag_pool().len() && r@ == #[trigger] old(self).tag_pool()[at],
            r@ == GENERAL_TAG@ || (old(self).state.is_unlocked(r@) && old(self).fleet_supports(r@)),
    {
        let size = self.pool_indices().len();
        if size == 0 {
            GENERAL_TAG.to_owned()
        } else {
            let ghost g = *self;
            let at = draw_in(&mut self.rng, 0, size as u64);
            assert(self.tag_pool() == g.tag_pool());
            let r = self.tag_at(at);
            proof {
                lemma_pool_entries(g.state.processors@, g.state.unlocked_tags@, at as int);
            }
            r
        }
    }

    /// Posts a new job when the board has room.
    pub fn spawn_job_if_possible(&mut self)
        ensures
            old(self).state.jobs@.len() >= MAX_JOBS ==> final(self).state == old(self).state
                && final(self).log() == old(self).log(),
            old(self).state.jobs@.len() < MAX_JOBS ==> {
                let id = vstd::math::min(old(self).state.job_counter + 1, u64::MAX as int) as u64;
                let job = final(self).state.jobs@.last();
                &&& final(self).state == (GameState {
                    jobs: final(self).state.jobs,
                    job_counter: id,
                    ..old(self).state
                })
                &&& final(self).state.jobs@ == old(self).state.jobs@.push(job)
                &&& drawn_from_pool(old(self).tag_pool(), job, id)
                &&& final(self).log() == log_push(old(self).log(), GameMessage::NewJob { job_name: job.name, tag: job.tag })
            },
            final(self).same_clocks(old(self)),
    {
        if self.state.jobs.len() >= MAX_JOBS {
            return;
        }
        self.state.job_counter = self.state.job_counter.saturating_add(1);
        let tag = self.choose_job_tag();
        proof {
            reveal_strlit("GENERAL");
            reveal_strlit("SIMD");
            assert(GENERAL_TAG@ != SIMD_TAG@) by {
                assert(GENERAL_TAG@.len() != SIMD_TAG@.len());
            }
        }
        let job = generate_job_with_tag(self.state.job_counter, tag.as_str(), &mut self.rng);
        proof {
            let pool = old(self).tag_pool();
            if pool.len() > 0 {
                let at = choose|at: int| 0 <= at < pool.len() && tag@ == #[trigger] pool[at];
                assert(0 <= at < pool.len() && if pool[at] == SIMD_TAG@ {
                    simd_job_drawn(job, self.state.job_counter)
                } else {
                    general_job_drawn(job, self.state.job_counter)
                });
            }
        }
        let job_name = job.name.clone();
        let job_tag = job.tag.clone();
        self.state.jobs.push(job);
        self.push_message(GameMessage::NewJob { job_name, tag: job_tag });
    }
}

/// Whether a stored tag reads `tag`.
fn same_tag(a: &String, tag: &str) -> (r: bool)
    ensures
        r == (a@ == tag@),
{
    crate::jobs::same_text(a.as_str(), tag)
}

impl CompletedJob {
    /// The quality delta of the penalty the job ran under.
    pub open spec fn quality_delta(&self) -> int {
        match self.daemon_penalty {
            Some(p) => p.quality as int,
            None => 0,
        }
    }
}

/// Credits, storage and log: what settling events changes.
pub type Ledger = (u64, DataStorage, Seq<GameMessage>);

/// The ledger after paying for `job`, finished on the unit named `processor_name`
/// with `quality`, and storing what fits of its data.
pub open spec fn settle_completion_spec(acc: Ledger, processor_name: String, job: Job, quality: int) -> Ledger {
    let payout = payout_spec(job.base_reward as int, quality);
    let absorbed = vstd::math::min(job.data_output as int, acc.1.free_spec() as int);
    let storage = DataStorage { stored: (acc.1.stored + absorbed) as u64, ..acc.1 };
    let log = if absorbed < job.data_output {
        log_push(acc.2, GameMessage::StorageOverflow { lost: (job.data_output - absorbed) as u64 })
    } else {
        acc.2
    };
    (
        vstd::math::min(acc.0 + payout, u64::MAX as int) as u64,
        storage,
        log_push(
            log,
            GameMessage::JobCompleted {
                job_name: job.name,
                processor_name,
                quality: quality as u8,
                payout: payout as u64,
            },
        ),
    )
}

/// The ledger after settling event `ev` of unit `idx`; `noise` is the quality draw
/// of a completion.
pub open spec fn settle_event(
    ps: Seq<ProcessorState>,
    acc: Ledger,
    idx: usize,
    ev: ProcessorEvent,
    noise: int,
) -> Ledger {
    if idx >= ps.len() {
        acc
    } else {
        let p = ps[idx as int];
        match ev {
            ProcessorEvent::Completed(done) => settle_completion_spec(
                acc,
                p.name,
                done.job,
                quality_spec(done.job.quality_target as int, p.quality_bias as int, noise, done.quality_delta()),
            ),
            ProcessorEvent::BurntOut { job } => (
                acc.0,
                acc.1,
                log_push(acc.2, GameMessage::BurntOut { processor_name: p.name, job_name: job.name }),
            ),
            ProcessorEvent::Destroyed { job } => (
                acc.0,
                acc.1,
                log_push(acc.2, GameMessage::Destroyed { processor_name: p.name, job_name: job.name }),
            ),
        }
    }
}

/// The ledger after settling `events` in order, the `j`-th with noise `noises[j]`.
pub open spec fn settle_all(
    ps: Seq<ProcessorState>,
    acc: Ledger,
    events: Seq<(usize, ProcessorEvent)>,
    noises: Seq<int>,
) -> Ledger
    decreases events.len(),
{
    if events.len() == 0 {
        acc
    } else {
        let prev = settle_all(ps, acc, events.drop_last(), noises);
        settle_event(ps, prev, events.last().0, events.last().1, noises[events.len() - 1])
    }
}

/// The events of one tick of every unit of `ps`, unit `i` drawing `rolls[i]`, in
/// unit order.
pub open spec fn events_of(ps: Seq<ProcessorState>, delta: u64, rolls: Seq<u32>, bonus: u8) -> Seq<
    (usize, ProcessorEvent),
>
    decreases ps.len(),
{
    if ps.len() == 0 {
        Seq::empty()
    } else {
        let prev = events_of(ps.drop_last(), delta, rolls, bonus);
        let i = ps.len() - 1;
        match ps[i].advance_spec(delta, rolls[i], bonus).1 {
            Some(e) => prev.push((i as usize, e)),
            None => prev,
        }
    }
}

/// Settling a completed job pays between 0.7 and 1.2 times its base reward, within
/// half a credit, whatever the quality draw; exactly inside that band when the base
/// reward is a multiple of ten. Credits must have room for the payout. The storage
/// takes what fits of the job's data.
pub proof fn lemma_settled_payout_band(
    ps: Seq<ProcessorState>,
    acc: Ledger,
    idx: usize,
    done: CompletedJob,
    noise: int,
)
    requires
        idx < ps.len(),
        acc.0 + 2 * done.job.base_reward <= u64::MAX,
    ensures
        ({
            let b = done.job.base_reward as int;
            let paid = settle_event(ps, acc, idx, ProcessorEvent::Completed(done), noise).0 - acc.0;
            &&& 10 * paid + 5 >= 7 * b
            &&& 10 * paid <= 12 * b + 5
            &&& b % 10 == 0 ==> 7 * b <= 10 * paid <= 12 * b
            &&& settle_event(ps, acc, idx, ProcessorEvent::Completed(done), noise).1.stored
                == acc.1.stored + vstd::math::min(done.job.data_output as int, acc.1.free_spec() as int)
            &&& settle_event(ps, acc, idx, ProcessorEvent::Completed(done), noise).1.capacity
                == acc.1.capacity
        }),
{
    let p = ps[idx as int];
    let q = quality_spec(done.job.quality_target as int, p.quality_bias as int, noise, done.quality_delta());
    crate::economy::lemma_payout_band(done.job.base_reward, q as u8);
    assert(q as u8 as int == q);
}

proof fn lemma_settle_all_noises(
    ps: Seq<ProcessorState>,
    acc: Ledger,
    events: Seq<(usize, ProcessorEvent)>,
    n1: Seq<int>,
    n2: Seq<int>,
)
    requires
        forall|j: int| 0 <= j < events.len() ==> n1[j] == n2[j],
    ensures
        settle_all(ps, acc, events, n1) == settle_all(ps, acc, events, n2),
    decreases events.len(),
{
    if events.len() > 0 {
        lemma_settle_all_noises(ps, acc, events.drop_last(), n1, n2);
    }
}

/// Settling keeps the storage capacity and never overfills the storage.
proof fn lemma_settle_all_storage(
    ps: Seq<ProcessorState>,
    acc: Ledger,
    events: Seq<(usize, ProcessorEvent)>,
    noises: Seq<int>,
)
    ensures
        settle_all(ps, acc, events, noises).1.capacity == acc.1.capacity,
        acc.1.wf() ==> settle_all(ps, acc, events, noises).1.wf(),
    decreases events.len(),
{
    if events.len() > 0 {
        lemma_settle_all_storage(ps, acc, events.drop_last(), noises);
    }
}

impl Game {
    /// The ledger of this game.
    pub open spec fn ledger(&self) -> Ledger {
        (self.state.credits, self.state.storage, self.log())
    }

    /// Pays for a completed job of the given quality and stores its data.
    pub fn settle_completion(&mut self, processor_name: String, job: Job, quality: u8)
        ensures
            final(self).state == (GameState {
                credits: final(self).state.credits,
                storage: final(self).state.storage,
                ..old(self).state
            }),
            final(self).ledger() == settle_completion_spec(old(self).ledger(), processor_name, job, quality as int),
            final(self).same_clocks(old(self)),
    {
        let payout = payout_for_quality(&job, quality);
        self.state.credits = self.state.credits.saturating_add(payout);
        let stored = self.state.storage.store(job.data_output);
        if stored < job.data_output {
            let lost = job.data_output - stored;
            self.push_message(GameMessage::StorageOverflow { lost });
        }
        self.push_message(
            GameMessage::JobCompleted { job_name: job.name, processor_name, quality, payout },
        );
    }

    /// Rolls the quality of a completed job and settles it.
    fn resolve_completed_job(&mut self, processor_index: usize, completed: CompletedJob)
        ensures
            final(self).state == (GameState {
                credits: final(self).state.credits,
                storage: final(self).state.storage,
                ..old(self).state
            }),
            exists|noise: int|
                -4 <= noise <= 4 && final(self).ledger() == #[trigger] settle_event(
                    old(self).state.processors@,
                    old(self).ledger(),
                    processor_index,
                    ProcessorEvent::Completed(completed),
                    noise,
                ),
            final(self).same_clocks(old(self)),
    {
        if processor_index >= self.state.processors.len() {
            assert(self.ledger() == settle_event(
                self.state.processors@,
                self.ledger(),
                processor_index,
                ProcessorEvent::Completed(completed),
                0,
            ));
            return;
        }
        let ghost c = completed;
        let quality = match &completed.daemon_penalty {
            Some(p) => roll_quality(&completed.job, &self.state.processors[processor_index], Some(p), &mut self.rng),
            None => roll_quality(&completed.job, &self.state.processors[processor_index], None, &mut self.rng),
        };
        let ghost target = completed.job.quality_target as int;
        let ghost bias = self.state.processors@[processor_index as int].quality_bias as int;
        let ghost delta = completed.quality_delta();
        assert(exists|noise: int| -4 <= noise <= 4 && quality == quality_spec(target, bias, noise, delta));
        let ghost noise = choose|noise: int| -4 <= noise <= 4 && quality == quality_spec(target, bias, noise, delta);
        let name = self.state.processors[processor_index].name.clone();
        self.settle_completion(name, completed.job, quality);
        assert(self.ledger() == settle_event(
            old(self).state.processors@,
            old(self).ledger(),
            processor_index,
            ProcessorEvent::Completed(c),
            noise,
        ));
    }

    fn handle_burnout(&mut self, processor_index: usize, job: Job)
        ensures
            final(self).state == old(self).state,
            final(self).same_clocks(old(self)),
            final(self).ledger() == settle_event(
                old(self).state.processors@,
                old(self).ledger(),
                processor_index,
                ProcessorEvent::BurntOut { job },
                0,
            ),
    {
        if processor_index < self.state.processors.len() {
            let processor_name = self.state.processors[processor_index].name.clone();
            self.push_message(GameMessage::BurntOut { processor_name, job_name: job.name });
        }
    }

    fn handle_destruction(&mut self, processor_index: usize, job: Job)
        ensures
            final(self).state == old(self).state,
            final(self).same_clocks(old(self)),
            final(self).ledger() == settle_event(
                old(self).state.processors@,
                old(self).ledger(),
                processor_index,
                ProcessorEvent::Destroyed { job },
                0,
            ),
    {
        if processor_index < self.state.processors.len() {
            let processor_name = self.state.processors[processor_index].name.clone();
            self.push_message(GameMessage::Destroyed { processor_name, job_name: job.name });
        }
    }

    /// Whether `after` is this game once every unit ticked `delta_ms`, unit `i`
    /// drawing burnout roll `rolls[i]`, and the events were settled in unit order
    /// with quality draws `noises`.
    pub open spec fn ticked_with(&self, after: &Game, delta_ms: u64, rolls: Seq<u32>, noises: Seq<int>) -> bool {
        let ps = self.state.processors@;
        let bonus = self.paste_bonus() as u8;
        &&& rolls.len() == ps.len()
        &&& forall|i: int| 0 <= i < rolls.len() ==> #[trigger] rolls[i] < crate::fixed::UNIT
        &&& forall|j: int| 0 <= j < noises.len() ==> -4 <= #[trigger] noises[j] <= 4
        &&& after.state.processors@.len() == ps.len()
        &&& forall|i: int|
            0 <= i < ps.len() ==> #[trigger] after.state.processors@[i] == ps[i].advance_spec(
                delta_ms,
                rolls[i],
                bonus,
            ).0
        &&& after.ledger() == settle_all(
            after.state.processors@,
            self.ledger(),
            events_of(ps, delta_ms, rolls, bonus),
            noises,
        )
    }

    /// Whether `after` is this game once every unit ticked `delta_ms` and the
    /// events were settled; nothing happens for a zero delta.
    pub open spec fn ticked_all(&self, after: &Game, delta_ms: u64) -> bool {
        &&& after.state == (GameState {
            processors: after.state.processors,
            credits: after.state.credits,
            storage: after.state.storage,
            ..self.state
        })
        &&& delta_ms == 0 ==> after.state == self.state && after.log() == self.log()
        &&& delta_ms > 0 ==> exists|rolls: Seq<u32>, noises: Seq<int>|
            #[trigger] self.ticked_with(after, delta_ms, rolls, noises)
        &&& after.state.processors@.len() == self.state.processors@.len()
        &&& after.state.storage.capacity == self.state.storage.capacity
        &&& self.state.storage.wf() ==> after.state.storage.wf()
        &&& after.same_clocks(self)
    }

    /// Advances every unit by `delta_ms`, then pays out, logs and stores what
    /// their events bring.
    pub fn tick_processors(&mut self, delta_ms: u64)
        ensures
            old(self).ticked_all(final(self), delta_ms),
    {
        if delta_ms == 0 {
            return;
        }
        let bonus: u8 = if self.state.thermal_paste_timer_ms > 0 { 1 } else { 0 };
        let ghost orig = *self;
        let ghost ps0 = orig.state.processors@;
        let ghost mut rolls: Seq<u32> = Seq::empty();
        let mut events: Vec<(usize, ProcessorEvent)> = Vec::new();
        let mut i: usize = 0;
        assert(ps0.take(0) =~= Seq::<ProcessorState>::empty());
        while i < self.state.processors.len()
            invariant
                0 <= i <= self.state.processors@.len(),
                bonus == orig.paste_bonus(),
                ps0 == orig.state.processors@,
                self.state.processors@.len() == ps0.len(),
                rolls.len() == i,
                forall|j: int| 0 <= j < i ==> #[trigger] rolls[j] < crate::fixed::UNIT,
                forall|j: int|
                    0 <= j < i ==> #[trigger] self.state.processors@[j] == ps0[j].advance_spec(
                        delta_ms,
                        rolls[j],
                        bonus,
                    ).0,
                forall|j: int| i <= j < self.state.processors@.len() ==> #[trigger] self.state.processors@[j]
                    == ps0[j],
                events@ == events_of(ps0.take(i as int), delta_ms, rolls, bonus),
                self.state == (GameState { processors: self.state.processors, ..orig.state }),
                self.same_clocks(&orig),
                self.log() == orig.log(),
            decreases self.state.processors@.len() - i,
        {
            let ghost before = self.state.processors@[i as int];
            let event = self.state.processors[i].tick(delta_ms, &mut self.rng, bonus);
            let ghost roll = choose|roll: u32|
                roll < crate::fixed::UNIT && (self.state.processors@[i as int], event) == before.advance_spec(
                    delta_ms,
                    roll,
                    bonus,
                );
            proof {
                let r2 = rolls.push(roll);
                assert(ps0.take(i + 1).drop_last() =~= ps0.take(i as int));
                assert(ps0.take(i + 1)[i as int] == ps0[i as int]);
                lemma_events_of_rolls(ps0.take(i as int), delta_ms, rolls, r2, bonus);
                rolls = r2;
            }
            match event {
                Some(e) => events.push((i, e)),
                None => {},
            }
            i = i + 1;
        }
        assert(ps0.take(ps0.len() as int) =~= ps0);
        let ghost all = events@;
        let ghost ticked = *self;
        let ghost mut noises: Seq<int> = Seq::empty();
        let ghost mut k: int = 0;
        while events.len() > 0
            invariant
                0 <= k <= all.len(),
                events@ == all.subrange(k, all.len() as int),
                noises.len() == k,
                forall|j: int| 0 <= j < noises.len() ==> -4 <= #[trigger] noises[j] <= 4,
                self.state == (GameState {
                    credits: self.state.credits,
                    storage: self.state.storage,
                    ..ticked.state
                }),
                self.ledger() == settle_all(ticked.state.processors@, orig.ledger(), all.take(k), noises),
                self.same_clocks(&orig),
            decreases events@.len(),
        {
            let ghost before = *self;
            assert(events@[0] == all[k]);
            let (index, event) = events.remove(0);
            let ghost ev = event;
            let ghost mut nk: int = 0;
            match event {
                ProcessorEvent::Completed(done) => {
                    self.resolve_completed_job(index, done);
                    proof {
                        nk = choose|noise: int|
                            -4 <= noise <= 4 && self.ledger() == #[trigger] settle_event(
                                before.state.processors@,
                                before.ledger(),
                                index,
                                ev,
                                noise,
                            );
                    }
                },
                ProcessorEvent::BurntOut { job } => self.handle_burnout(index, job),
                ProcessorEvent::Destroyed { job } => self.handle_destruction(index, job),
            }
            proof {
                let n2 = noises.push(nk);
                lemma_settle_all_noises(ticked.state.processors@, orig.ledger(), all.take(k), noises, n2);
                assert(all.take(k + 1).drop_last() =~= all.take(k));
                assert(all.take(k + 1).last() == all[k]);
                noises = n2;
                k = k + 1;
                assert(events@ =~= all.subrange(k, all.len() as int));
            }
        }
        proof {
            assert(all.take(all.len() as int) =~= all);
            lemma_settle_all_storage(ticked.state.processors@, orig.ledger(), all, noises);
            assert(orig.ticked_with(self, delta_ms, rolls, noises));
        }
    }
}

proof fn lemma_events_of_rolls(
    ps: Seq<ProcessorState>,
    delta: u64,
    r1: Seq<u32>,
    r2: Seq<u32>,
    bonus: u8,
)
    requires
        forall|j: int| 0 <= j < ps.len() ==> r1[j] == r2[j],
    ensures
        events_of(ps, delta, r1, bonus) == events_of(ps, delta, r2, bonus),
    decreases ps.len(),
{
    if ps.len() > 0 {
        lemma_events_of_rolls(ps.drop_last(), delta, r1, r2, bonus);
    }
}

impl Game {
    /// Whether `after` is this game once the thermal paste ran down `delta_ms`.
    pub open spec fn paste_run(&self, after: &Game, delta_ms: u64) -> bool {
        &&& after.state == (GameState {
            thermal_paste_timer_ms: after.state.thermal_paste_timer_ms,
            ..self.state
        })
        &&& after.state.thermal_paste_timer_ms == if delta_ms
            >= self.state.thermal_paste_timer_ms {
            0
        } else {
            (self.state.thermal_paste_timer_ms - delta_ms) as u64
        }
        &&& after.log() == if self.state.thermal_paste_timer_ms > 0 && delta_ms
            >= self.state.thermal_paste_timer_ms {
            log_push(self.log(), GameMessage::ThermalPasteExpired)
        } else {
            self.log()
        }
        &&& after.same_clocks(self)
    }

    /// Runs the thermal paste down by `delta_ms`, logging when it runs out.
    fn countdown_paste(&mut self, delta_ms: u64)
        ensures
            old(self).paste_run(final(self), delta_ms),
    {
        if self.state.thermal_paste_timer_ms > 0 && delta_ms > 0 {
            if delta_ms >= self.state.thermal_paste_timer_ms {
                self.state.thermal_paste_timer_ms = 0;
                self.push_message(GameMessage::ThermalPasteExpired);
            } else {
                self.state.thermal_paste_timer_ms = self.state.thermal_paste_timer_ms - delta_ms;
            }
        }
    }

    /// Whether `after` is this game once the daemon unlock was checked.
    pub open spec fn unlock_checked(&self, after: &Game) -> bool {
        &&& !self.state.daemon_unlocked && self.state.credits >= DAEMON_UNLOCK_CREDITS ==> {
            &&& after.state == (GameState {
                daemon_unlocked: true,
                processors: after.state.processors,
                ..self.state
            })
            &&& after.state.processors@.len() == self.state.processors@.len()
            &&& forall|i: int|
                0 <= i < self.state.processors@.len() ==> #[trigger] after.state.processors@[i]
                    == (ProcessorState { daemon_unlocked: true, ..self.state.processors@[i] })
            &&& after.log() == log_push(self.log(), GameMessage::DaemonUnlocked)
        }
        &&& !(!self.state.daemon_unlocked && self.state.credits >= DAEMON_UNLOCK_CREDITS)
            ==> after.state == self.state && after.log() == self.log()
        &&& after.same_clocks(self)
    }

    /// Unlocks the daemon for good, and for every unit, once credits reach the threshold.
    fn check_daemon_unlock(&mut self)
        ensures
            old(self).unlock_checked(final(self)),
    {
        if !self.state.daemon_unlocked && self.state.credits >= DAEMON_UNLOCK_CREDITS {
            self.state.daemon_unlocked = true;
            let mut i: usize = 0;
            while i < self.state.processors.len()
                invariant
                    0 <= i <= self.state.processors@.len(),
                    self.state.processors@.len() == old(self).state.processors@.len(),
                    forall|j: int| 0 <= j < i ==> #[trigger] self.state.processors@[j]
                        == (ProcessorState { daemon_unlocked: true, ..old(self).state.processors@[j] }),
                    forall|j: int| i <= j < self.state.processors@.len() ==> #[trigger] self.state.processors@[j]
                        == old(self).state.processors@[j],
                    self.state == (GameState {
                        daemon_unlocked: true,
                        processors: self.state.processors,
                        ..old(self).state
                    }),
                    self.log() == old(self).log(),
                    self.same_clocks(old(self)),
                decreases self.state.processors@.len() - i,
            {
                self.state.processors[i].daemon_unlocked = true;
                i = i + 1;
            }
            self.push_message(GameMessage::DaemonUnlocked);
        }
    }

    /// Whether `j` is a job the spawner may post under `id`.
    pub open spec fn postable(&self, j: Job, id: int) -> bool {
        drawn_from_pool(self.tag_pool(), j, id as u64)
    }

    /// Whether `after` is this game once the spawn clock ran `delta` ms: one job
    /// posted per elapsed interval while the board has room.
    pub open spec fn spawned(&self, after: &Game, delta: u64) -> bool {
        let clock = vstd::math::min(self.job_spawn_timer + delta, u64::MAX as int);
        let due = clock / JOB_SPAWN_INTERVAL_MS as int;
        let n = self.state.jobs@.len() as int;
        let k = if n >= MAX_JOBS { 0 } else { vstd::math::min(due, MAX_JOBS - n) };
        &&& after.job_spawn_timer == clock % JOB_SPAWN_INTERVAL_MS as int
        &&& after.day_timer == self.day_timer
        &&& after.state == (GameState {
            jobs: after.state.jobs,
            job_counter: after.state.job_counter,
            ..self.state
        })
        &&& after.state.jobs@.len() == n + k
        &&& after.state.jobs@.subrange(0, n) == self.state.jobs@
        &&& after.state.job_counter == vstd::math::min(self.state.job_counter + k, u64::MAX as int)
        &&& forall|i: int|
            0 <= i < k ==> self.postable(
                #[trigger] after.state.jobs@[n + i],
                vstd::math::min(self.state.job_counter + i + 1, u64::MAX as int),
            )
        &&& after.log() == log_push_all(self.log(), new_job_entries(after.state.jobs@, n, k))
    }

    fn spawn_due_jobs(&mut self, delta_ms: u64)
        ensures
            old(self).spawned(final(self), delta_ms),
    {
        let spawn_clock = self.job_spawn_timer.saturating_add(delta_ms);
        let spawns = spawn_clock / JOB_SPAWN_INTERVAL_MS;
        self.job_spawn_timer = spawn_clock % JOB_SPAWN_INTERVAL_MS;
        let ghost start = *old(self);
        let ghost n0 = start.state.jobs@.len() as int;
        let mut n: u64 = 0;
        assert(self.state.jobs@.subrange(0, n0) =~= start.state.jobs@);
        assert(new_job_entries(self.state.jobs@, n0, 0) =~= Seq::<GameMessage>::empty());
        while n < spawns && self.state.jobs.len() < MAX_JOBS
            invariant
                n <= spawns,
                start == *old(self),
                n0 == start.state.jobs@.len(),
                n0 < MAX_JOBS ==> self.state.jobs@.len() == n0 + n && n0 + n <= MAX_JOBS,
                spawn_clock == vstd::math::min(start.job_spawn_timer + delta_ms, u64::MAX as int),
                spawns == spawn_clock / JOB_SPAWN_INTERVAL_MS,
                n0 >= MAX_JOBS ==> n == 0 && self.state.jobs@.len() == n0,
                self.state.jobs@.subrange(0, n0) == start.state.jobs@,
                self.state.job_counter == vstd::math::min(start.state.job_counter + n, u64::MAX as int),
                forall|i: int|
                    0 <= i < n ==> start.postable(
                        #[trigger] self.state.jobs@[n0 + i],
                        vstd::math::min(start.state.job_counter + i + 1, u64::MAX as int),
                    ),
                self.log() == log_push_all(start.log(), new_job_entries(self.state.jobs@, n0, n as int)),
                self.state == (GameState {
                    jobs: self.state.jobs,
                    job_counter: self.state.job_counter,
                    ..start.state
                }),
                self.job_spawn_timer == spawn_clock % JOB_SPAWN_INTERVAL_MS,
                self.day_timer == start.day_timer,
            decreases spawns - n,
        {
            let ghost before = *self;
            self.spawn_job_if_possible();
            proof {
                let m = self.state.jobs@.len() - 1;
                assert(self.state.jobs@.subrange(0, n0) =~= start.state.jobs@) by {
                    assert(self.state.jobs@.subrange(0, n0) =~= before.state.jobs@.subrange(0, n0));
                }
                assert forall|i: int| 0 <= i < n + 1 implies start.postable(
                    #[trigger] self.state.jobs@[n0 + i],
                    vstd::math::min(start.state.job_counter + i + 1, u64::MAX as int),
                ) by {
                    if i < n {
                        assert(self.state.jobs@[n0 + i] == before.state.jobs@[n0 + i]);
                    }
                }
                assert(new_job_entries(self.state.jobs@, n0, n + 1).drop_last() =~= new_job_entries(
                    before.state.jobs@,
                    n0,
                    n as int,
                ));
            }
            n = n + 1;
        }
    }

    /// The credits and log a day cycle leaves when it starts from `credits` and `log`.
    pub open spec fn day_step(&self, credits: u64, log: Seq<GameMessage>) -> (u64, Seq<GameMessage>) {
        let upkeep = vstd::math::min(upkeep_sum(self.state.processors@), u64::MAX as int) as u64;
        let electricity = electricity_spec(self.state.processors@) as u64;
        let paid = after_costs(credits, log, upkeep, electricity);
        after_income(paid.0, paid.1, self.state.storage.stored)
    }

    /// The credits and log after `days` day cycles.
    pub open spec fn days_run(&self, credits: u64, log: Seq<GameMessage>, days: nat) -> (u64, Seq<GameMessage>)
        decreases days,
    {
        if days == 0 {
            (credits, log)
        } else {
            let prev = self.days_run(credits, log, (days - 1) as nat);
            self.day_step(prev.0, prev.1)
        }
    }

    /// Whether `after` is this game once the day clock ran `delta` ms: one day
    /// cycle per elapsed day.
    pub open spec fn days_passed(&self, after: &Game, delta: u64) -> bool {
        let clock = vstd::math::min(self.day_timer + delta, u64::MAX as int);
        &&& after.day_timer == clock % DAY_DURATION_MS as int
        &&& after.job_spawn_timer == self.job_spawn_timer
        &&& after.state == (GameState { credits: after.state.credits, ..self.state })
        &&& (after.state.credits, after.log()) == self.days_run(
            self.state.credits,
            self.log(),
            (clock / DAY_DURATION_MS as int) as nat,
        )
    }

    fn run_due_days(&mut self, delta_ms: u64)
        ensures
            old(self).days_passed(final(self), delta_ms),
    {
        let day_clock = self.day_timer.saturating_add(delta_ms);
        let days = day_clock / DAY_DURATION_MS;
        self.day_timer = day_clock % DAY_DURATION_MS;
        let ghost start = *old(self);
        let mut d: u64 = 0;
        while d < days
            invariant
                d <= days,
                start == *old(self),
                self.state == (GameState { credits: self.state.credits, ..start.state }),
                (self.state.credits, self.log()) == start.days_run(
                    start.state.credits,
                    start.log(),
                    d as nat,
                ),
                self.job_spawn_timer == start.job_spawn_timer,
                self.day_timer == day_clock % DAY_DURATION_MS,
            decreases days - d,
        {
            self.apply_daily_cycle();
            d = d + 1;
        }
    }

    /// Whether `after` is this game once its units ticked `delta` ms, the thermal
    /// paste ran down, the daemon unlock was checked and the automation pass ran.
    pub open spec fn ticks_then_settles(&self, after: &Game, delta: u64) -> bool {
        exists|ticked: Game, cooled: Game, checked: Game|
            #![trigger self.ticked_all(&ticked, delta), ticked.paste_run(&cooled, delta), cooled.unlock_checked(&checked)]
            self.ticked_all(&ticked, delta) && ticked.paste_run(&cooled, delta) && cooled.unlock_checked(
                &checked,
            ) && checked.daemon_passed(after)
    }

    /// Advances the whole simulation by `delta_ms`: job spawns, day cycles, unit
    /// ticks, the thermal paste, the daemon unlock and the automation pass.
    pub fn update(&mut self, delta_ms: u64)
        ensures
            final(self).job_spawn_timer == vstd::math::min(
                old(self).job_spawn_timer + delta_ms,
                u64::MAX as int,
            ) % JOB_SPAWN_INTERVAL_MS as int,
            final(self).day_timer == vstd::math::min(old(self).day_timer + delta_ms, u64::MAX as int)
                % DAY_DURATION_MS as int,
            final(self).state.thermal_paste_timer_ms == if delta_ms
                >= old(self).state.thermal_paste_timer_ms {
                0
            } else {
                (old(self).state.thermal_paste_timer_ms - delta_ms) as u64
            },
            final(self).state.daemon_unlocked == (old(self).state.daemon_unlocked
                || final(self).state.credits >= DAEMON_UNLOCK_CREDITS),
            final(self).state.daemon_unlocked && !old(self).state.daemon_unlocked ==> forall|i: int|
                0 <= i < final(self).state.processors@.len()
                    ==> #[trigger] final(self).state.processors@[i].daemon_unlocked,
            final(self).state.processors@.len() == old(self).state.processors@.len(),
            old(self).state.jobs@.len() <= MAX_JOBS ==> final(self).state.jobs@.len() <= MAX_JOBS,
            final(self).state.job_counter >= old(self).state.job_counter,
            final(self).state.unlocked_tags == old(self).state.unlocked_tags,
            final(self).state.store_purchases == old(self).state.store_purchases,
            final(self).state.daemon_enabled == old(self).state.daemon_enabled,
            final(self).state.storage.capacity == old(self).state.storage.capacity,
            old(self).state.storage.wf() ==> final(self).state.storage.wf(),
            exists|spawned: Game, aged: Game|
                #![trigger old(self).spawned(&spawned, delta_ms), spawned.days_passed(&aged, delta_ms)]
                old(self).spawned(&spawned, delta_ms) && spawned.days_passed(&aged, delta_ms)
                    && aged.ticks_then_settles(final(self), delta_ms),
    {
        self.spawn_due_jobs(delta_ms);
        let ghost spawned = *self;
        self.run_due_days(delta_ms);
        let ghost aged = *self;
        self.tick_processors(delta_ms);
        let ghost ticked = *self;
        self.countdown_paste(delta_ms);
        let ghost cooled = *self;
        self.check_daemon_unlock();
        let ghost unlocked = *self;
        self.try_daemon_assignment();
        proof {
            let m = (unlocked.state.processors@, unlocked.state.jobs@, unlocked.log());
            let order = choose|order: Seq<usize>|
                crate::daemon::is_auto_order(unlocked.state.processors@, order) && (
                    self.state.processors@,
                    self.state.jobs@,
                    self.log(),
                ) == crate::daemon::daemon_run(m, order, unlocked.paste_bonus());
            crate::daemon::lemma_daemon_run_keeps_unlock(m, order, unlocked.paste_bonus());
            assert(aged.ticked_all(&ticked, delta_ms) && ticked.paste_run(&cooled, delta_ms)
                && cooled.unlock_checked(&unlocked) && unlocked.daemon_passed(self));
            assert(aged.ticks_then_settles(self, delta_ms));
            assert(old(self).spawned(&spawned, delta_ms) && spawned.days_passed(&aged, delta_ms));
        }
    }
}

} // verus!

verus! {

/// Whether `job` is a job generated under `id` for a tag drawn from `pool`: a SIMD
/// job for the SIMD tag, a general job for any other tag or an empty pool.
pub open spec fn drawn_from_pool(pool: Seq<Seq<char>>, job: Job, id: u64) -> bool {
    if pool.len() == 0 {
        general_job_drawn(job, id)
    } else {
        exists|at: int|
            0 <= at < pool.len() && if #[trigger] pool[at] == SIMD_TAG@ {
                simd_job_drawn(job, id)
            } else {
                general_job_drawn(job, id)
            }
    }
}

/// Whether some unit of `ps` supports `tag`.
pub open spec fn fleet_supports_tag(ps: Seq<ProcessorState>, tag: Seq<char>) -> bool {
    exists|i: int| 0 <= i < ps.len() && #[trigger] ps[i].supports_spec(tag)
}

/// How often `t` stands in the job stream's pool: four times for the general tag,
/// twice for any other, never when no unit supports it.
pub open spec fn tag_weight(ps: Seq<ProcessorState>, t: Seq<char>) -> nat {
    if !fleet_supports_tag(ps, t) {
        0
    } else if t == GENERAL_TAG@ {
        GENERAL_TAG_WEIGHT as nat
    } else {
        ADVANCED_TAG_WEIGHT as nat
    }
}

/// The weighted pool built from `tags`, in order, for the fleet `ps`.
pub open spec fn pool_of(ps: Seq<ProcessorState>, tags: Seq<String>) -> Seq<Seq<char>>
    decreases tags.len(),
{
    if tags.len() == 0 {
        Seq::empty()
    } else {
        let t = tags.last()@;
        pool_of(ps, tags.drop_last()) + Seq::new(tag_weight(ps, t), |k: int| t)
    }
}

/// Every entry of a pool is one of the tags it was built from that some unit supports.
proof fn lemma_pool_entries(ps: Seq<ProcessorState>, tags: Seq<String>, k: int)
    requires
        0 <= k < pool_of(ps, tags).len(),
    ensures
        fleet_supports_tag(ps, pool_of(ps, tags)[k]),
        texts(tags).contains(pool_of(ps, tags)[k]),
    decreases tags.len(),
{
    let prev = pool_of(ps, tags.drop_last());
    let t = tags.last()@;
    if k < prev.len() {
        lemma_pool_entries(ps, tags.drop_last(), k);
        let w = choose|w: int| 0 <= w < texts(tags.drop_last()).len() && texts(tags.drop_last())[w] == prev[k];
        assert(texts(tags)[w] == prev[k]);
    } else {
        assert(pool_of(ps, tags)[k] == t);
        assert(texts(tags)[tags.len() - 1] == t);
    }
}

} // verus!
