use crate::data_storage::DataStorage;
use crate::economy::{assignment_duration_ms, duration_spec};
use crate::jobs::{Job, GENERAL_TAG};
use crate::messages::GameMessage;
use crate::processors::{AssignmentError, DaemonPenalty, ProcessorState};
use crate::store::STORE_LEN;
use vstd::prelude::*;

verus! {

/// Most jobs the board holds.
pub const MAX_JOBS: usize = 5;

/// Most entries the message log keeps.
pub const MAX_MESSAGES: usize = 8;

/// Milliseconds between job spawns.
pub const JOB_SPAWN_INTERVAL_MS: u64 = 6_000;

/// Milliseconds in one day cycle.
pub const DAY_DURATION_MS: u64 = 18_000;

/// Credits that, once reached, unlock daemon automation for good.
pub const DAEMON_UNLOCK_CREDITS: u64 = 500;

pub const STARTING_CREDITS: u64 = 120;

/// Seed of the random source of a new game until `reseed` replaces it.
pub const DEFAULT_SEED: u64 = 0;

pub const STARTING_CAPACITY: u64 = 120;

/// The text of each string in `v`.
pub open spec fn texts(v: Seq<String>) -> Seq<Seq<char>> {
    v.map_values(|s: String| s@)
}

/// The log after appending `m`, dropping the oldest entry when it is full.
pub open spec fn log_push(log: Seq<GameMessage>, m: GameMessage) -> Seq<GameMessage> {
    if log.len() >= MAX_MESSAGES {
        log.drop_first().push(m)
    } else {
        log.push(m)
    }
}

/// A set of tags extended, in order, by each of `tags` that it lacks.
pub open spec fn extend_tags(set: Seq<Seq<char>>, tags: Seq<Seq<char>>) -> Seq<Seq<char>>
    decreases tags.len(),
{
    if tags.len() == 0 {
        set
    } else {
        let s = extend_tags(set, tags.drop_last());
        if s.contains(tags.last()) {
            s
        } else {
            s.push(tags.last())
        }
    }
}

/// Everything the game persists.
#[derive(Debug, Clone)]
pub struct GameState {
    pub credits: u64,
    pub processors: Vec<ProcessorState>,
    pub jobs: Vec<Job>,
    pub storage: DataStorage,
    pub daemon_unlocked: bool,
    pub daemon_enabled: bool,
    pub thermal_paste_timer_ms: u64,
    pub job_counter: u64,
    pub unlocked_tags: Vec<String>,
    pub store_purchases: Vec<u32>,
}

impl GameState {
    pub open spec fn is_unlocked(&self, tag: Seq<char>) -> bool {
        texts(self.unlocked_tags@).contains(tag)
    }
}

pub fn default_store_purchases() -> (r: Vec<u32>)
    ensures
        r@ == Seq::new(STORE_LEN as nat, |i: int| 0u32),
{
    let r = vec![0u32; STORE_LEN];
    assert(r@ =~= Seq::new(STORE_LEN as nat, |i: int| 0u32));
    r
}

pub fn default_unlocked_tags() -> (r: Vec<String>)
    ensures
        texts(r@) == seq![GENERAL_TAG@],
{
    let r = vec![GENERAL_TAG.to_owned()];
    assert(texts(r@) =~= seq![GENERAL_TAG@]);
    r
}

impl Default for GameState {
    fn default() -> (r: Self)
        ensures
            r.credits == STARTING_CREDITS,
            r.processors@.len() == 1,
            r.processors@[0].is_starter(),
            r.jobs@.len() == 0,
            r.storage == (DataStorage { capacity: STARTING_CAPACITY, stored: 0 }),
            !r.daemon_unlocked,
            !r.daemon_enabled,
            r.thermal_paste_timer_ms == 0,
            r.job_counter == 0,
            texts(r.unlocked_tags@) == seq![GENERAL_TAG@],
            r.store_purchases@ == Seq::new(STORE_LEN as nat, |i: int| 0u32),
    {
        GameState {
            credits: STARTING_CREDITS,
            processors: vec![ProcessorState::starter()],
            jobs: Vec::new(),
            storage: DataStorage::new(STARTING_CAPACITY),
            daemon_unlocked: false,
            daemon_enabled: false,
            thermal_paste_timer_ms: 0,
            job_counter: 0,
            unlocked_tags: default_unlocked_tags(),
            store_purchases: default_store_purchases(),
        }
    }
}

/// The simulation engine: the state plus its clocks, random source and log.
pub struct Game {
    pub state: GameState,
    pub job_spawn_timer: u64,
    pub day_timer: u64,
    pub rng: rand::rngs::StdRng,
    pub messages: std::collections::VecDeque<GameMessage>,
}

impl Game {
    /// The message log, oldest first.
    pub open spec fn log(&self) -> Seq<GameMessage> {
        self.messages@
    }

    /// Milliseconds since the last job spawn.
    pub open spec fn spawn_clock(&self) -> u64 {
        self.job_spawn_timer
    }

    /// Milliseconds since the last day cycle.
    pub open spec fn day_clock(&self) -> u64 {
        self.day_timer
    }

    /// Whether both games show the same clocks.
    pub open spec fn same_clocks(&self, other: &Game) -> bool {
        self.spawn_clock() == other.spawn_clock() && self.day_clock() == other.day_clock()
    }

    pub(crate) fn push_message(&mut self, message: GameMessage)
        ensures
            final(self).state == old(self).state,
            final(self).same_clocks(old(self)),
            final(self).log() == log_push(old(self).log(), message),
    {
        if self.messages.len() >= MAX_MESSAGES {
            self.messages.pop_front();
        }
        self.messages.push_back(message);
        proof {
            if old(self).messages@.len() >= MAX_MESSAGES {
                assert(self.messages@ =~= old(self).messages@.drop_first().push(message));
            }
        }
    }

    pub fn fresh() -> (r: Self)
        ensures
            r.state.credits == STARTING_CREDITS,
            r.state.processors@.len() == 1,
            r.state.processors@[0].is_starter(),
            r.state.jobs@.len() == 0,
            r.state.storage == (DataStorage { capacity: STARTING_CAPACITY, stored: 0 }),
            !r.state.daemon_unlocked,
            !r.state.daemon_enabled,
            r.state.thermal_paste_timer_ms == 0,
            r.state.job_counter == 0,
            texts(r.state.unlocked_tags@) == seq![GENERAL_TAG@],
            r.state.store_purchases@ == Seq::new(STORE_LEN as nat, |i: int| 0u32),
            r.spawn_clock() == 0,
            r.day_clock() == 0,
            r.log().len() == 0,
    {
        let state = GameState::default();
        Game {
            state,
            job_spawn_timer: 0,
            day_timer: 0,
            rng: crate::random::seeded_rng(DEFAULT_SEED),
            messages: std::collections::VecDeque::new(),
        }
    }

    /// Replaces the random source by one seeded with `seed`, so that runs repeat.
    pub fn reseed(&mut self, seed: u64)
        ensures
            final(self).state == old(self).state,
            final(self).log() == old(self).log(),
            final(self).same_clocks(old(self)),
    {
        self.rng = crate::random::seeded_rng(seed);
    }

    pub fn messages(&self) -> (r: &std::collections::VecDeque<GameMessage>)
        ensures
            r@ == self.log(),
    {
        &self.messages
    }

    /// Appends free text to the log.
    pub fn add_message(&mut self, message: String)
        ensures
            final(self).state == old(self).state,
            final(self).same_clocks(old(self)),
            final(self).log() == log_push(old(self).log(), GameMessage::Text(message)),
    {
        self.push_message(GameMessage::Text(message));
    }

    /// Removes and returns the job at `index` of the board.
    pub fn take_job(&mut self, index: usize) -> (r: Option<Job>)
        ensures
            index < old(self).state.jobs@.len() ==> r == Some(old(self).state.jobs@[index as int])
                && final(self).state == (GameState {
                jobs: final(self).state.jobs,
                ..old(self).state
            }) && final(self).state.jobs@ == old(self).state.jobs@.remove(index as int),
            index >= old(self).state.jobs@.len() ==> r is None && final(self).state == old(self).state,
            final(self).same_clocks(old(self)),
            final(self).log() == old(self).log(),
    {
        if index < self.state.jobs.len() {
            Some(self.state.jobs.remove(index))
        } else {
            None
        }
    }

    /// Puts a job back at the front of the board, or discards it when the board is full.
    pub fn return_job(&mut self, job: Job)
        ensures
            final(self).same_clocks(old(self)),
            old(self).state.jobs@.len() >= MAX_JOBS ==> final(self).state == old(self).state
                && final(self).log() == log_push(old(self).log(), GameMessage::JobDiscarded),
            old(self).state.jobs@.len() < MAX_JOBS ==> final(self).state == (GameState {
                jobs: final(self).state.jobs,
                ..old(self).state
            }) && final(self).state.jobs@ == seq![job] + old(self).state.jobs@ && final(self).log() == old(self).log(),
    {
        if self.state.jobs.len() >= MAX_JOBS {
            self.push_message(GameMessage::JobDiscarded);
        } else {
            self.state.jobs.insert(0, job);
            assert(self.state.jobs@ =~= seq![job] + old(self).state.jobs@);
        }
    }

    /// Why `job` of `tag` cannot go to processor `i` now, if it cannot: 1 for an
    /// invalid index, 2 for a busy unit, 3 for a missing instruction, 4 for a unit out
    /// of service, checked in that order; 0 when it can.
    pub open spec fn assign_refusal(&self, tag: Seq<char>, i: int) -> int {
        if i < 0 || i >= self.state.processors@.len() {
            1
        } else if !self.state.processors@[i].is_idle_spec() {
            2
        } else if !self.state.processors@[i].supports_spec(tag) {
            3
        } else if !self.state.processors@[i].is_functional_spec() {
            4
        } else {
            0
        }
    }

    /// Whether `e` is the error that stands for refusal `k`.
    pub open spec fn is_refusal(e: AssignmentError, k: int, tag: Seq<char>) -> bool {
        match e {
            AssignmentError::InvalidProcessor => k == 1,
            AssignmentError::ProcessorBusy => k == 2,
            AssignmentError::IncompatibleInstruction(t) => k == 3 && t@ == tag,
            AssignmentError::ProcessorInoperative => k == 4,
        }
    }

    /// How long `job` takes on `p`, with the daemon's penalty when `daemon` is set.
    pub open spec fn assign_duration(p: ProcessorState, job: Job, daemon: bool) -> u64 {
        duration_spec(
            job.base_time_ms as int,
            p.speed as int,
            if daemon {
                p.daemon_penalty.time_multiplier as int
            } else {
                crate::fixed::UNIT as int
            },
        ) as u64
    }

    pub open spec fn assign_penalty(p: ProcessorState, daemon: bool) -> Option<DaemonPenalty> {
        if daemon {
            Some(p.daemon_penalty)
        } else {
            None
        }
    }

    /// Whether `after` is this game once processor `i` took `job`, with the log entry
    /// that reports it.
    pub open spec fn assigned_to(&self, after: &Game, job: Job, i: int, daemon: bool) -> bool {
        let p = self.state.processors@[i];
        let d = Self::assign_duration(p, job, daemon);
        &&& after.state.processors@ == self.state.processors@.update(
            i,
            p.assigned(job, d, Self::assign_penalty(p, daemon)),
        )
        &&& after.state == (GameState { processors: after.state.processors, ..self.state })
        &&& after.log() == log_push(
            self.log(),
            GameMessage::Assigned {
                job_name: job.name,
                processor_name: p.name,
                duration_ms: d,
                daemon,
            },
        )
        &&& after.same_clocks(self)
    }

    /// Hands `job` to processor `processor_index`; on refusal the job comes back
    /// with the error.
    pub fn assign_or_return(&mut self, job: Job, processor_index: usize, daemon: bool) -> (r: Result<
        (),
        (AssignmentError, Job),
    >)
        ensures
            old(self).assign_refusal(job.tag@, processor_index as int) != 0 ==> (r matches Err(
                (e, j),
            ) && j == job && Self::is_refusal(
                e,
                old(self).assign_refusal(job.tag@, processor_index as int),
                job.tag@,
            )) && final(self).state == old(self).state && final(self).log() == old(self).log(),
            old(self).assign_refusal(job.tag@, processor_index as int) == 0 ==> r is Ok
                && old(self).assigned_to(final(self), job, processor_index as int, daemon),
            final(self).same_clocks(old(self)),
    {
        if processor_index >= self.state.processors.len() {
            return Err((AssignmentError::InvalidProcessor, job));
        }
        let busy = !self.state.processors[processor_index].is_idle();
        if busy {
            return Err((AssignmentError::ProcessorBusy, job));
        }
        if !self.state.processors[processor_index].supports(job.tag.as_str()) {
            let tag = job.tag.clone();
            return Err((AssignmentError::IncompatibleInstruction(tag), job));
        }
        if !self.state.processors[processor_index].is_functional() {
            return Err((AssignmentError::ProcessorInoperative, job));
        }
        let penalty: Option<DaemonPenalty> = if daemon {
            Some(self.state.processors[processor_index].daemon_penalty)
        } else {
            None
        };
        let duration_ms = match penalty {
            Some(p) => assignment_duration_ms(&job, &self.state.processors[processor_index], Some(&p)),
            None => assignment_duration_ms(&job, &self.state.processors[processor_index], None),
        };
        let job_name = job.name.clone();
        let processor_name = self.state.processors[processor_index].name.clone();
        self.state.processors[processor_index].assign(job, duration_ms, penalty);
        self.push_message(
            GameMessage::Assigned { job_name, processor_name, duration_ms, daemon },
        );
        Ok(())
    }

    pub fn assign_job_to_processor(&mut self, job: Job, processor_index: usize, daemon: bool) -> (r:
        Result<(), AssignmentError>)
        ensures
            old(self).assign_refusal(job.tag@, processor_index as int) != 0 ==> (r matches Err(e)
                && Self::is_refusal(
                e,
                old(self).assign_refusal(job.tag@, processor_index as int),
                job.tag@,
            )) && final(self).state == old(self).state && final(self).log() == old(self).log()
                && final(self).same_clocks(old(self)),
            old(self).assign_refusal(job.tag@, processor_index as int) == 0 ==> r is Ok
                && old(self).assigned_to(final(self), job, processor_index as int, daemon),
    {
        match self.assign_or_return(job, processor_index, daemon) {
            Ok(()) => Ok(()),
            Err((e, _)) => Err(e),
        }
    }

    pub fn is_instruction_unlocked(&self, tag: &str) -> (r: bool)
        ensures
            r == self.state.is_unlocked(tag@),
    {
        let t: String = tag.to_owned();
        let mut i: usize = 0;
        while i < self.state.unlocked_tags.len()
            invariant
                0 <= i <= self.state.unlocked_tags@.len(),
                t@ == tag@,
                forall|j: int| 0 <= j < i ==> self.state.unlocked_tags@[j]@ != tag@,
            decreases self.state.unlocked_tags@.len() - i,
        {
            if self.state.unlocked_tags[i] == t {
                assert(texts(self.state.unlocked_tags@)[i as int] == tag@);
                return true;
            }
            i = i + 1;
        }
        assert(!texts(self.state.unlocked_tags@).contains(tag@)) by {
            if texts(self.state.unlocked_tags@).contains(tag@) {
                let k = choose|k: int| 0 <= k < texts(self.state.unlocked_tags@).len() && texts(self.state.unlocked_tags@)[k] == tag@;
                assert(self.state.unlocked_tags@[k]@ == tag@);
            }
        }
        false
    }

    pub fn thermal_paste_active(&self) -> (r: bool)
        ensures
            r == (self.state.thermal_paste_timer_ms > 0),
    {
        self.state.thermal_paste_timer_ms > 0
    }

    /// Share of the spawn interval elapsed, in thousandths.
    pub fn job_spawn_progress(&self) -> (r: u64)
        ensures
            r == vstd::math::min(self.job_spawn_timer * 1000 / JOB_SPAWN_INTERVAL_MS as int, 1000),
    {
        let t: u128 = self.job_spawn_timer as u128 * 1000 / JOB_SPAWN_INTERVAL_MS as u128;
        if t > 1000 { 1000 } else { t as u64 }
    }

    /// Share of the day elapsed, in thousandths.
    pub fn day_progress(&self) -> (r: u64)
        ensures
            r == vstd::math::min(self.day_timer * 1000 / DAY_DURATION_MS as int, 1000),
    {
        let t: u128 = self.day_timer as u128 * 1000 / DAY_DURATION_MS as u128;
        if t > 1000 { 1000 } else { t as u64 }
    }

    pub fn store_purchases(&self, index: usize) -> (r: Option<u32>)
        ensures
            index < self.state.store_purchases@.len() ==> r == Some(self.state.store_purchases@[index as int]),
            index >= self.state.store_purchases@.len() ==> r is None,
    {
        if index < self.state.store_purchases.len() {
            Some(self.state.store_purchases[index])
        } else {
            None
        }
    }

    pub fn total_upkeep(&self) -> (r: u64)
        ensures
            r == vstd::math::min(crate::economy::upkeep_sum(self.state.processors@), u64::MAX as int),
    {
        crate::economy::upkeep_total(self.state.processors.as_slice())
    }

    pub fn total_electricity_cost(&self) -> (r: u64)
        ensures
            r == crate::economy::electricity_spec(self.state.processors@),
    {
        crate::economy::electricity_cost(self.state.processors.as_slice())
    }

    /// Sum of the units' last power draw (millionths), saturating.
    pub fn total_power_draw(&self) -> (r: u64)
        ensures
            r == vstd::math::min(crate::economy::power_sum(self.state.processors@), u64::MAX as int),
    {
        let mut total: u64 = 0;
        let mut i: usize = 0;
        while i < self.state.processors.len()
            invariant
                0 <= i <= self.state.processors@.len(),
                total == vstd::math::min(
                    crate::economy::power_sum(self.state.processors@.take(i as int)),
                    u64::MAX as int,
                ),
            decreases self.state.processors@.len() - i,
        {
            proof {
                assert(self.state.processors@.take(i + 1).drop_last() =~= self.state.processors@.take(i as int));
                crate::economy::lemma_power_sum_nonneg(self.state.processors@.take(i as int));
            }
            total = total.saturating_add(self.state.processors[i].last_power_draw);
            i = i + 1;
        }
        assert(self.state.processors@.take(self.state.processors@.len() as int) =~= self.state.processors@);
        total
    }
}

/// Whether unit `q` is unit `p` as a loaded game restores it: runtime defaults
/// filled, the daemon unlocked when the game has it, and every unlocked tag added.
pub open spec fn restored(p: ProcessorState, q: ProcessorState, daemon: bool, tags: Seq<Seq<char>>) -> bool {
    &&& q == (ProcessorState {
        instruction_set: q.instruction_set,
        daemon_unlocked: p.daemon_unlocked || daemon,
        ..p.with_runtime_defaults()
    })
    &&& texts(q.instruction_set@) == extend_tags(texts(p.instruction_set@), tags)
}

proof fn lemma_push_contains(s: Seq<Seq<char>>, x: Seq<char>, t: Seq<char>)
    ensures
        s.push(x).contains(t) == (s.contains(t) || x == t),
{
    if x == t {
        assert(s.push(x)[s.len() as int] == x);
    }
    if s.contains(t) {
        let w = choose|w: int| 0 <= w < s.len() && s[w] == t;
        assert(s.push(x)[w] == t);
    }
    if s.push(x).contains(t) {
        let w = choose|w: int| 0 <= w < s.push(x).len() && s.push(x)[w] == t;
        if w < s.len() {
            assert(s[w] == t);
        }
    }
}

proof fn lemma_supports_texts(p: ProcessorState, tag: Seq<char>)
    ensures
        p.supports_spec(tag) == texts(p.instruction_set@).contains(tag),
{
    if texts(p.instruction_set@).contains(tag) {
        let k = choose|k: int| 0 <= k < texts(p.instruction_set@).len() && texts(p.instruction_set@)[k] == tag;
        assert(p.instruction_set@[k]@ == tag);
    }
    if p.supports_spec(tag) {
        let k = choose|k: int| 0 <= k < p.instruction_set@.len() && #[trigger] p.instruction_set@[k]@ == tag;
        assert(texts(p.instruction_set@)[k] == tag);
    }
}

/// Adds to the unit, in order, each of `tags` it lacks.
fn add_missing_tags(p: &mut ProcessorState, tags: &Vec<String>)
    ensures
        *final(p) == (ProcessorState { instruction_set: final(p).instruction_set, ..*old(p) }),
        texts(final(p).instruction_set@) == extend_tags(texts(old(p).instruction_set@), texts(tags@)),
{
    let mut j: usize = 0;
    assert(texts(tags@).take(0) =~= Seq::<Seq<char>>::empty());
    while j < tags.len()
        invariant
            0 <= j <= tags@.len(),
            *p == (ProcessorState { instruction_set: p.instruction_set, ..*old(p) }),
            texts(p.instruction_set@) == extend_tags(texts(old(p).instruction_set@), texts(tags@).take(j as int)),
        decreases tags@.len() - j,
    {
        proof {
            assert(texts(tags@).take(j + 1).drop_last() =~= texts(tags@).take(j as int));
            assert(texts(tags@).take(j + 1).last() == tags@[j as int]@);
            lemma_supports_texts(*p, tags@[j as int]@);
        }
        if !p.supports(tags[j].as_str()) {
            let t = tags[j].clone();
            let ghost before = texts(p.instruction_set@);
            p.instruction_set.push(t);
            assert(texts(p.instruction_set@) =~= before.push(tags@[j as int]@));
        }
        j = j + 1;
    }
    assert(texts(tags@).take(tags@.len() as int) =~= texts(tags@));
}

impl Game {
    /// Starts a game from a stored state: purchase counters padded to the catalog,
    /// automation switched off, the general tag ensured first among the unlocked
    /// tags, and every unit restored (see `restored`).
    pub fn from_state(state: GameState) -> (r: Self)
        ensures
            r.state.credits == state.credits,
            r.state.jobs == state.jobs,
            r.state.storage == state.storage,
            r.state.daemon_unlocked == state.daemon_unlocked,
            !r.state.daemon_enabled,
            r.state.thermal_paste_timer_ms == state.thermal_paste_timer_ms,
            r.state.job_counter == state.job_counter,
            r.state.store_purchases@ == if state.store_purchases@.len() < STORE_LEN {
                state.store_purchases@ + Seq::new(
                    (STORE_LEN - state.store_purchases@.len()) as nat,
                    |i: int| 0u32,
                )
            } else {
                state.store_purchases@
            },
            texts(r.state.unlocked_tags@) == if texts(state.unlocked_tags@).contains(GENERAL_TAG@) {
                texts(state.unlocked_tags@)
            } else {
                seq![GENERAL_TAG@] + texts(state.unlocked_tags@)
            },
            r.state.processors@.len() == state.processors@.len(),
            forall|i: int|
                0 <= i < state.processors@.len() ==> restored(
                    state.processors@[i],
                    #[trigger] r.state.processors@[i],
                    state.daemon_unlocked,
                    texts(r.state.unlocked_tags@),
                ),
            r.job_spawn_timer == 0,
            r.day_timer == 0,
            r.log().len() == 0,
    {
        let mut state = state;
        let ghost orig = state;
        while state.store_purchases.len() < STORE_LEN
            invariant
                state.store_purchases@.len() <= STORE_LEN || state.store_purchases@ == orig.store_purchases@,
                orig.store_purchases@.len() < STORE_LEN ==> state.store_purchases@ == orig.store_purchases@
                    + Seq::new(
                    (state.store_purchases@.len() - orig.store_purchases@.len()) as nat,
                    |i: int| 0u32,
                ),
                state.store_purchases@.len() >= orig.store_purchases@.len(),
                orig.store_purchases@.len() >= STORE_LEN ==> state.store_purchases@ == orig.store_purchases@,
                state == (GameState { store_purchases: state.store_purchases, ..orig }),
            decreases STORE_LEN - state.store_purchases@.len(),
        {
            let ghost before = state.store_purchases@;
            state.store_purchases.push(0);
            assert(state.store_purchases@ =~= orig.store_purchases@ + Seq::new(
                (state.store_purchases@.len() - orig.store_purchases@.len()) as nat,
                |i: int| 0u32,
            ));
        }
        state.daemon_enabled = false;
        let mut has_general = false;
        let mut j: usize = 0;
        while j < state.unlocked_tags.len()
            invariant
                0 <= j <= state.unlocked_tags@.len(),
                has_general == texts(state.unlocked_tags@).take(j as int).contains(GENERAL_TAG@),
            decreases state.unlocked_tags@.len() - j,
        {
            proof {
                assert(texts(state.unlocked_tags@).take(j + 1) =~= texts(state.unlocked_tags@).take(j as int).push(
                    state.unlocked_tags@[j as int]@,
                ));
                lemma_push_contains(
                    texts(state.unlocked_tags@).take(j as int),
                    state.unlocked_tags@[j as int]@,
                    GENERAL_TAG@,
                );
            }
            if crate::jobs::same_text(state.unlocked_tags[j].as_str(), GENERAL_TAG) {
                has_general = true;
            }
            j = j + 1;
        }
        assert(texts(state.unlocked_tags@).take(state.unlocked_tags@.len() as int) =~= texts(state.unlocked_tags@));
        if !has_general {
            state.unlocked_tags.insert(0, GENERAL_TAG.to_owned());
            assert(texts(state.unlocked_tags@) =~= seq![GENERAL_TAG@] + texts(orig.unlocked_tags@));
        }
        let ghost loaded = state;
        let mut i: usize = 0;
        while i < state.processors.len()
            invariant
                0 <= i <= state.processors@.len(),
                state.processors@.len() == orig.processors@.len(),
                state == (GameState { processors: state.processors, ..loaded }),
                loaded.daemon_unlocked == orig.daemon_unlocked,
                forall|k: int|
                    0 <= k < i ==> restored(
                        orig.processors@[k],
                        #[trigger] state.processors@[k],
                        orig.daemon_unlocked,
                        texts(loaded.unlocked_tags@),
                    ),
                forall|k: int| i <= k < state.processors@.len() ==> #[trigger] state.processors@[k] == orig.processors@[k],
            decreases state.processors@.len() - i,
        {
            state.processors[i].ensure_runtime_defaults();
            if state.daemon_unlocked {
                state.processors[i].daemon_unlocked = true;
            }
            add_missing_tags(&mut state.processors[i], &state.unlocked_tags);
            i = i + 1;
        }
        Game { state, job_spawn_timer: 0, day_timer: 0, rng: crate::random::seeded_rng(DEFAULT_SEED), messages: std::collections::VecDeque::new() }
    }
}

} // verus!
