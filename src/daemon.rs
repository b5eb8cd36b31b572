use crate::economy::duration_spec;
use crate::fixed::UNIT;
use crate::game::{log_push, Game, GameState};
use crate::jobs::{same_text, Job, GENERAL_TAG};
use crate::messages::GameMessage;
use crate::processors::{DaemonMode, ProcessorState, load_modifier, tag_value};
use vstd::prelude::*;

verus! {

/// Lowest reliability at which the daemon takes a job on its own (millionths).
pub const AUTO_RELIABILITY_FLOOR: u32 = 350_000;

/// Lowest reliability at which a job is suggested (millionths).
pub const ASSIST_RELIABILITY_FLOOR: u32 = 300_000;

/// Highest heat the daemon accepts when it honours cooling minimums (millionths).
pub const AUTO_HEAT_LIMIT: u64 = 1_800_000;

/// Reliability at which the safety term of a score is zero (millionths).
pub const SAFETY_PIVOT: u32 = 700_000;

/// A job the assist mode proposes for an idle unit.
#[derive(Debug, Clone, Copy)]
pub struct AssistSuggestion {
    pub job_index: usize,
    pub eta_ms: u64,
    pub reliability: u32,
    pub heat: i64,
}

/// The score of `job` on `p`, or `None` when it is not a candidate. With `auto` the
/// daemon's rules apply: its penalty stretches the duration, the tag affinity and a
/// safety term count, the reliability floor is higher and heat is limited. Scores
/// are twice the reward per millisecond, in millionths, plus those terms.
pub open spec fn job_score(p: ProcessorState, job: Job, bonus: int, auto: bool) -> Option<int> {
    let tag = job.tag@;
    let rel = p.reliability_of(tag, bonus);
    let floor = if auto { AUTO_RELIABILITY_FLOOR } else { ASSIST_RELIABILITY_FLOOR };
    let duration = duration_spec(
        job.base_time_ms as int,
        p.speed as int,
        if auto { p.daemon_penalty.time_multiplier as int } else { UNIT as int },
    );
    if !p.supports_spec(tag) {
        None
    } else if p.honor_cooling_mins && p.requires_cooling_min > p.eff_cooling(bonus) && tag
        != GENERAL_TAG@ {
        None
    } else if rel < floor {
        None
    } else if auto && p.honor_cooling_mins && p.heat_of(tag, bonus) > AUTO_HEAT_LIMIT {
        None
    } else if auto {
        Some(2 * job.base_reward * UNIT / duration + 2 * tag_value(p.daemon_affinity@, tag) + rel
            - SAFETY_PIVOT)
    } else {
        Some(2 * job.base_reward * UNIT / duration)
    }
}

/// Index of the first job with the highest score among `jobs`, if any is a candidate.
pub open spec fn best_job(p: ProcessorState, jobs: Seq<Job>, bonus: int, auto: bool) -> Option<int>
    decreases jobs.len(),
{
    if jobs.len() == 0 {
        None
    } else {
        let prev = best_job(p, jobs.drop_last(), bonus, auto);
        let i = jobs.len() - 1;
        match job_score(p, jobs[i], bonus, auto) {
            None => prev,
            Some(sc) => match prev {
                None => Some(i),
                Some(b) => if sc > job_score(p, jobs[b], bonus, auto)->Some_0 {
                    Some(i)
                } else {
                    prev
                },
            },
        }
    }
}

/// The score of `job` on `p`, or `None` when it is not a candidate.
pub fn score_job(p: &ProcessorState, job: &Job, bonus: u8, auto: bool) -> (r: Option<i128>)
    ensures
        r matches Some(x) ==> job_score(*p, *job, bonus as int, auto) == Some(x as int),
        r is None ==> job_score(*p, *job, bonus as int, auto) is None,
{
    let tag = job.tag.as_str();
    if !p.supports(tag) {
        return None;
    }
    let ev = p.evaluate_job(job, bonus);
    if p.honor_cooling_mins && p.requires_cooling_min > ev.effective_cooling && !same_text(
        tag,
        GENERAL_TAG,
    ) {
        return None;
    }
    let floor = if auto { AUTO_RELIABILITY_FLOOR } else { ASSIST_RELIABILITY_FLOOR };
    if ev.reliability < floor {
        return None;
    }
    if auto && p.honor_cooling_mins && ev.heat > AUTO_HEAT_LIMIT as i64 {
        return None;
    }
    let duration = if auto {
        crate::economy::assignment_duration_ms(job, p, Some(&p.daemon_penalty))
    } else {
        crate::economy::assignment_duration_ms(job, p, None)
    };
    let num: u128 = 2 * job.base_reward as u128 * UNIT as u128;
    let base: u128 = num / duration as u128;
    assert(base <= num) by (nonlinear_arith)
        requires
            base == num as int / duration as int,
            duration >= 1,
    ;
    if auto {
        let affinity = load_modifier(&p.daemon_affinity, tag);
        Some(base as i128 + 2 * affinity as i128 + ev.reliability as i128 - SAFETY_PIVOT as i128)
    } else {
        Some(base as i128)
    }
}

/// The first best-scoring job for `p` on the board, with its evaluation.
pub fn pick_job(p: &ProcessorState, jobs: &Vec<Job>, bonus: u8, auto: bool) -> (r: Option<usize>)
    ensures
        match r {
            Some(i) => best_job(*p, jobs@, bonus as int, auto) == Some(i as int),
            None => best_job(*p, jobs@, bonus as int, auto) is None,
        },
{
    let mut best: Option<usize> = None;
    let mut best_score: i128 = 0;
    let mut i: usize = 0;
    while i < jobs.len()
        invariant
            0 <= i <= jobs@.len(),
            match best {
                Some(b) => best_job(*p, jobs@.take(i as int), bonus as int, auto) == Some(b as int)
                    && b < i && job_score(*p, jobs@[b as int], bonus as int, auto) == Some(
                    best_score as int,
                ),
                None => best_job(*p, jobs@.take(i as int), bonus as int, auto) is None,
            },
        decreases jobs@.len() - i,
    {
        proof {
            assert(jobs@.take(i + 1).drop_last() =~= jobs@.take(i as int));
            assert(jobs@.take(i + 1)[i as int] == jobs@[i as int]);
            match best {
                Some(b) => {
                    assert(jobs@.take(i + 1)[b as int] == jobs@[b as int]);
                },
                None => {},
            }
        }
        match score_job(p, &jobs[i], bonus, auto) {
            Some(sc) => {
                let better = match best {
                    Some(_) => sc > best_score,
                    None => true,
                };
                if better {
                    best = Some(i);
                    best_score = sc;
                }
            },
            None => {},
        }
        i = i + 1;
    }
    assert(jobs@.take(jobs@.len() as int) =~= jobs@);
    best
}

/// A chosen job is on the board and a candidate.
pub proof fn lemma_best_job_candidate(p: ProcessorState, jobs: Seq<Job>, bonus: int, auto: bool)
    ensures
        best_job(p, jobs, bonus, auto) matches Some(j) ==> 0 <= j < jobs.len() && job_score(
            p,
            jobs[j],
            bonus,
            auto,
        ) is Some,
    decreases jobs.len(),
{
    if jobs.len() > 0 {
        lemma_best_job_candidate(p, jobs.drop_last(), bonus, auto);
    }
}

pub open spec fn auto_eligible(p: ProcessorState) -> bool {
    p.daemon_unlocked && p.daemon_mode == DaemonMode::Auto && p.is_idle_spec() && p.is_functional_spec()
}

pub open spec fn assist_ready(p: ProcessorState) -> bool {
    p.daemon_unlocked && p.daemon_mode == DaemonMode::Assist && p.is_idle_spec() && p.is_functional_spec()
}

/// Whether unit `a` takes its turn before unit `b`: higher priority first, then
/// higher speed, then the earlier unit.
pub open spec fn precedes(ps: Seq<ProcessorState>, a: int, b: int) -> bool {
    let pa = ps[a];
    let pb = ps[b];
    pa.daemon_priority > pb.daemon_priority || (pa.daemon_priority == pb.daemon_priority && (
    pa.speed > pb.speed || (pa.speed == pb.speed && a < b)))
}

/// Whether `order` lists the units the daemon serves, each once, in turn order.
pub open spec fn is_auto_order(ps: Seq<ProcessorState>, order: Seq<usize>) -> bool {
    &&& forall|k: int| 0 <= k < order.len() ==> #[trigger] order[k] < ps.len() && auto_eligible(ps[order[k] as int])
    &&& forall|i: int| 0 <= i < ps.len() && auto_eligible(#[trigger] ps[i]) ==> order.contains(i as usize)
    &&& forall|a: int, b: int| 0 <= a < b < order.len() ==> precedes(ps, #[trigger] order[a] as int, #[trigger] order[b] as int)
}

fn precedes_exec(ps: &Vec<ProcessorState>, a: usize, b: usize) -> (r: bool)
    requires
        a < ps@.len(),
        b < ps@.len(),
    ensures
        r == precedes(ps@, a as int, b as int),
{
    let pa = &ps[a];
    let pb = &ps[b];
    pa.daemon_priority > pb.daemon_priority || (pa.daemon_priority == pb.daemon_priority && (
    pa.speed > pb.speed || (pa.speed == pb.speed && a < b)))
}

fn auto_eligible_exec(p: &ProcessorState) -> (r: bool)
    ensures
        r == auto_eligible(*p),
{
    p.daemon_unlocked && p.daemon_mode == DaemonMode::Auto && p.is_idle() && p.is_functional()
}

/// The units the daemon serves, in turn order.
pub fn auto_order(ps: &Vec<ProcessorState>) -> (r: Vec<usize>)
    ensures
        is_auto_order(ps@, r@),
{
    let mut order: Vec<usize> = Vec::new();
    let mut i: usize = 0;
    while i < ps.len()
        invariant
            0 <= i <= ps@.len(),
            forall|k: int| 0 <= k < order@.len() ==> #[trigger] order@[k] < i && auto_eligible(ps@[order@[k] as int]),
            forall|x: int| 0 <= x < i && auto_eligible(#[trigger] ps@[x]) ==> order@.contains(x as usize),
            forall|a: int, b: int| 0 <= a < b < order@.len() ==> precedes(ps@, #[trigger] order@[a] as int, #[trigger] order@[b] as int),
        decreases ps@.len() - i,
    {
        if auto_eligible_exec(&ps[i]) {
            let mut k: usize = 0;
            while k < order.len() && !precedes_exec(ps, i, order[k])
                invariant
                    0 <= k <= order@.len(),
                    i < ps@.len(),
                    forall|q: int| 0 <= q < order@.len() ==> #[trigger] order@[q] < i,
                    forall|q: int| 0 <= q < k ==> precedes(ps@, #[trigger] order@[q] as int, i as int),
                decreases order@.len() - k,
            {
                k = k + 1;
            }
            proof {
                if k < order@.len() {
                    assert forall|q: int| k <= q < order@.len() implies precedes(ps@, i as int, #[trigger] order@[q] as int) by {
                        if q > k {
                            assert(precedes(ps@, order@[k as int] as int, order@[q] as int));
                        }
                    }
                }
            }
            let ghost before = order@;
            order.insert(k, i);
            proof {
                assert(order@ == before.insert(k as int, i));
                assert forall|a: int, b: int| 0 <= a < b < order@.len() implies precedes(ps@, #[trigger] order@[a] as int, #[trigger] order@[b] as int) by {
                    if a < k && b == k {
                    } else if a < k && b > k {
                        assert(order@[a] == before[a]);
                        assert(order@[b] == before[b - 1]);
                    } else if a == k {
                        assert(order@[b] == before[b - 1]);
                    } else if a > k {
                        assert(order@[a] == before[a - 1]);
                        assert(order@[b] == before[b - 1]);
                    } else {
                        assert(order@[a] == before[a]);
                        assert(order@[b] == before[b]);
                    }
                }
                assert forall|x: int| 0 <= x < i + 1 && auto_eligible(#[trigger] ps@[x]) implies order@.contains(x as usize) by {
                    if x == i {
                        assert(order@[k as int] == i);
                    } else {
                        assert(before.contains(x as usize));
                        let w = choose|w: int| 0 <= w < before.len() && before[w] == x as usize;
                        if w < k {
                            assert(order@[w] == x as usize);
                        } else {
                            assert(order@[w + 1] == x as usize);
                        }
                    }
                }
            }
        } else {
            proof {
                assert forall|x: int| 0 <= x < i + 1 && auto_eligible(#[trigger] ps@[x]) implies order@.contains(x as usize) by {
                    if x < i {
                    }
                }
            }
        }
        i = i + 1;
    }
    order
}

/// The board model the daemon pass works on: units, jobs and the log.
pub type Board = (Seq<ProcessorState>, Seq<Job>, Seq<GameMessage>);

/// One turn of the daemon pass for unit `idx`: it takes its best job, if any.
pub open spec fn daemon_step(m: Board, idx: int, bonus: int) -> Board {
    let ps = m.0;
    let jobs = m.1;
    if jobs.len() == 0 {
        m
    } else {
        match best_job(ps[idx], jobs, bonus, true) {
            None => m,
            Some(j) => {
                let p = ps[idx];
                let job = jobs[j];
                let d = Game::assign_duration(p, job, true);
                (
                    ps.update(idx, p.assigned(job, d, Some(p.daemon_penalty))),
                    jobs.remove(j),
                    log_push(
                        m.2,
                        GameMessage::Assigned {
                            job_name: job.name,
                            processor_name: p.name,
                            duration_ms: d,
                            daemon: true,
                        },
                    ),
                )
            },
        }
    }
}

/// The daemon pass over the units of `order`, in that order.
pub open spec fn daemon_run(m: Board, order: Seq<usize>, bonus: int) -> Board
    decreases order.len(),
{
    if order.len() == 0 {
        m
    } else {
        daemon_step(daemon_run(m, order.drop_last(), bonus), order.last() as int, bonus)
    }
}

/// The daemon pass keeps the number of units and never takes jobs it was not given;
/// it leaves the daemon flag of every unit as it was.
pub proof fn lemma_daemon_run_keeps_unlock(m: Board, order: Seq<usize>, bonus: int)
    requires
        forall|k: int| 0 <= k < order.len() ==> #[trigger] order[k] < m.0.len(),
    ensures
        daemon_run(m, order, bonus).0.len() == m.0.len(),
        daemon_run(m, order, bonus).1.len() <= m.1.len(),
        forall|i: int|
            0 <= i < m.0.len() ==> (#[trigger] daemon_run(m, order, bonus).0[i]).daemon_unlocked
                == m.0[i].daemon_unlocked,
    decreases order.len(),
{
    if order.len() > 0 {
        assert forall|k: int| 0 <= k < order.drop_last().len() implies #[trigger] order.drop_last()[k] < m.0.len() by {
            assert(order.drop_last()[k] == order[k]);
        }
        lemma_daemon_run_keeps_unlock(m, order.drop_last(), bonus);
        let prev = daemon_run(m, order.drop_last(), bonus);
        lemma_best_job_candidate(prev.0[order.last() as int], prev.1, bonus, true);
    }
}

impl Game {
    /// Cooling levels the thermal paste adds while it lasts.
    pub open spec fn paste_bonus(&self) -> int {
        if self.state.thermal_paste_timer_ms > 0 {
            1
        } else {
            0
        }
    }

    fn cooling_bonus(&self) -> (r: u8)
        ensures
            r == self.paste_bonus(),
    {
        if self.state.thermal_paste_timer_ms > 0 { 1 } else { 0 }
    }

    /// The job the daemon would give unit `processor_index`.
    pub fn choose_daemon_job(&self, processor_index: usize, cooling_bonus_levels: u8) -> (r: Option<usize>)
        ensures
            processor_index >= self.state.processors@.len() ==> r is None,
            processor_index < self.state.processors@.len() ==> match r {
                Some(i) => best_job(
                    self.state.processors@[processor_index as int],
                    self.state.jobs@,
                    cooling_bonus_levels as int,
                    true,
                ) == Some(i as int),
                None => best_job(
                    self.state.processors@[processor_index as int],
                    self.state.jobs@,
                    cooling_bonus_levels as int,
                    true,
                ) is None,
            },
    {
        if processor_index >= self.state.processors.len() {
            return None;
        }
        pick_job(&self.state.processors[processor_index], &self.state.jobs, cooling_bonus_levels, true)
    }

    /// The assist mode's proposal for unit `index`, if it is ready for one.
    pub open spec fn suggestion_spec(&self, index: int) -> Option<AssistSuggestion> {
        let ps = self.state.processors@;
        let b = self.paste_bonus();
        if index < 0 || index >= ps.len() || !assist_ready(ps[index]) || self.state.jobs@.len() == 0 {
            None
        } else {
            match best_job(ps[index], self.state.jobs@, b, false) {
                None => None,
                Some(j) => {
                    let p = ps[index];
                    let tag = self.state.jobs@[j].tag@;
                    Some(
                        AssistSuggestion {
                            job_index: j as usize,
                            eta_ms: Game::assign_duration(p, self.state.jobs@[j], false),
                            reliability: p.reliability_of(tag, b) as u32,
                            heat: p.heat_of(tag, b) as i64,
                        },
                    )
                },
            }
        }
    }

    pub fn assist_suggestion(&self, index: usize) -> (r: Option<AssistSuggestion>)
        ensures
            r == self.suggestion_spec(index as int),
    {
        if index >= self.state.processors.len() {
            return None;
        }
        let p = &self.state.processors[index];
        if !(p.daemon_unlocked && p.daemon_mode == DaemonMode::Assist && p.is_idle() && p.is_functional()) {
            return None;
        }
        if self.state.jobs.len() == 0 {
            return None;
        }
        let bonus = self.cooling_bonus();
        match pick_job(p, &self.state.jobs, bonus, false) {
            None => None,
            Some(j) => {
                proof {
                    lemma_best_job_candidate(*p, self.state.jobs@, bonus as int, false);
                }
                let job = &self.state.jobs[j];
                let ev = p.evaluate_job(job, bonus);
                let eta_ms = crate::economy::assignment_duration_ms(job, p, None);
                Some(AssistSuggestion { job_index: j, eta_ms, reliability: ev.reliability, heat: ev.heat })
            },
        }
    }

    /// Whether `after` is this game once unit `i` took job `j` of the board.
    pub open spec fn took_from_board(&self, after: &Game, j: int, i: int, daemon: bool) -> bool {
        let p = self.state.processors@[i];
        let job = self.state.jobs@[j];
        let d = Self::assign_duration(p, job, daemon);
        &&& after.state.processors@ == self.state.processors@.update(
            i,
            p.assigned(job, d, Self::assign_penalty(p, daemon)),
        )
        &&& after.state.jobs@ == self.state.jobs@.remove(j)
        &&& after.state == (crate::game::GameState {
            processors: after.state.processors,
            jobs: after.state.jobs,
            ..self.state
        })
        &&& after.log() == log_push(
            self.log(),
            GameMessage::Assigned { job_name: job.name, processor_name: p.name, duration_ms: d, daemon },
        )
        &&& after.same_clocks(self)
    }

    /// Starts the suggested job on unit `processor_index`; false, with a log entry
    /// saying why, when there is nothing to accept.
    pub fn accept_assist_suggestion(&mut self, processor_index: usize) -> (r: bool)
        ensures
            r == (old(self).suggestion_spec(processor_index as int) is Some),
            r ==> old(self).took_from_board(
                final(self),
                old(self).suggestion_spec(processor_index as int)->Some_0.job_index as int,
                processor_index as int,
                false,
            ),
            !r ==> final(self).state == old(self).state && final(self).same_clocks(old(self))
                && final(self).log().len() > 0,
    {
        if processor_index >= self.state.processors.len() {
            self.push_message(GameMessage::SelectValidProcessor);
            return false;
        }
        let name = self.state.processors[processor_index].name.clone();
        if !self.state.processors[processor_index].daemon_unlocked
            || self.state.processors[processor_index].daemon_mode != DaemonMode::Assist {
            self.push_message(GameMessage::NotInAssistMode { processor_name: name });
            return false;
        }
        if !self.state.processors[processor_index].is_functional() {
            self.push_message(GameMessage::OfflineForSuggestions { processor_name: name });
            return false;
        }
        if !self.state.processors[processor_index].is_idle() {
            self.push_message(GameMessage::AlreadyWorking { processor_name: name });
            return false;
        }
        proof {
            lemma_best_job_candidate(
                self.state.processors@[processor_index as int],
                self.state.jobs@,
                self.paste_bonus(),
                false,
            );
        }
        let suggestion = match self.assist_suggestion(processor_index) {
            Some(s) => s,
            None => {
                self.push_message(GameMessage::NoSuggestion { processor_name: name });
                return false;
            },
        };
        if suggestion.job_index >= self.state.jobs.len() {
            self.push_message(GameMessage::SuggestionGone);
            return false;
        }
        let ghost mid = *self;
        let job = self.state.jobs.remove(suggestion.job_index);
        assert(self.state.processors@ == mid.state.processors@);
        match self.assign_or_return(job, processor_index, false) {
            Ok(()) => true,
            Err((e, job)) => {
                let at = if suggestion.job_index < self.state.jobs.len() {
                    suggestion.job_index
                } else {
                    self.state.jobs.len()
                };
                self.state.jobs.insert(at, job);
                self.push_message(GameMessage::AssistFailed { error: e });
                false
            },
        }
    }

    /// Whether `after` is this game once the automation pass ran.
    pub open spec fn daemon_passed(&self, after: &Game) -> bool {
        &&& exists|order: Seq<usize>|
            is_auto_order(self.state.processors@, order) && (
            after.state.processors@,
            after.state.jobs@,
            after.log()
        ) == daemon_run(
            (self.state.processors@, self.state.jobs@, self.log()),
            order,
            self.paste_bonus()
        )
        &&& after.state == (crate::game::GameState {
            processors: after.state.processors,
            jobs: after.state.jobs,
            ..self.state
        })
        &&& after.same_clocks(self)
    }

    /// The automation pass: each unit in Auto mode, in turn order, takes its best job.
    pub fn try_daemon_assignment(&mut self)
        ensures
            old(self).daemon_passed(final(self)),
    {
        let bonus = self.cooling_bonus();
        let order = auto_order(&self.state.processors);
        let ghost orig = *self;
        let ghost start: Board = (orig.state.processors@, orig.state.jobs@, orig.log());
        let mut k: usize = 0;
        assert(order@.take(0) =~= Seq::<usize>::empty());
        while k < order.len()
            invariant
                0 <= k <= order@.len(),
                bonus == orig.paste_bonus(),
                is_auto_order(orig.state.processors@, order@),
                (self.state.processors@, self.state.jobs@, self.log()) == daemon_run(
                    start,
                    order@.take(k as int),
                    bonus as int,
                ),
                self.state.processors@.len() == orig.state.processors@.len(),
                forall|q: int|
                    k <= q < order@.len() ==> #[trigger] self.state.processors@[order@[q] as int]
                        == orig.state.processors@[order@[q] as int],
                self.state == (crate::game::GameState {
                    processors: self.state.processors,
                    jobs: self.state.jobs,
                    ..orig.state
                }),
                self.same_clocks(&orig),
                self.paste_bonus() == orig.paste_bonus(),
            decreases order@.len() - k,
        {
            let idx = order[k];
            proof {
                assert(order@.take(k + 1).drop_last() =~= order@.take(k as int));
                assert(order@.take(k + 1).last() == idx);
                assert(idx < orig.state.processors@.len());
                assert(auto_eligible(orig.state.processors@[idx as int]));
            }
            if self.state.jobs.len() > 0 {
                match self.choose_daemon_job(idx, bonus) {
                    Some(j) => {
                        proof {
                            lemma_best_job_candidate(
                                self.state.processors@[idx as int],
                                self.state.jobs@,
                                bonus as int,
                                true,
                            );
                        }
                        let job = self.state.jobs.remove(j);
                        match self.assign_or_return(job, idx, true) {
                            Ok(()) => {},
                            Err((e, _)) => {
                                self.push_message(GameMessage::DaemonFailed { error: e });
                            },
                        }
                    },
                    None => {},
                }
            }
            proof {
                assert forall|q: int| k + 1 <= q < order@.len() implies #[trigger] self.state.processors@[order@[q] as int]
                    == orig.state.processors@[order@[q] as int] by {
                    assert(precedes(orig.state.processors@, order@[k as int] as int, order@[q] as int));
                }
            }
            k = k + 1;
        }
        assert(order@.take(order@.len() as int) =~= order@);
    }
}

/// The next automation mode: Off, Assist, Auto, then Off again.
pub open spec fn next_mode(m: DaemonMode) -> DaemonMode {
    match m {
        DaemonMode::Off => DaemonMode::Assist,
        DaemonMode::Assist => DaemonMode::Auto,
        DaemonMode::Auto => DaemonMode::Off,
    }
}

impl Game {
    /// Moves unit `index` to its next automation mode, when the daemon is unlocked
    /// for the game and the unit and the unit is in service; logs the outcome.
    pub fn cycle_daemon_mode(&mut self, index: usize)
        ensures
            ({
                let ps = old(self).state.processors@;
                if index >= ps.len() {
                    final(self).state == old(self).state && final(self).log() == log_push(
                        old(self).log(),
                        GameMessage::SelectValidProcessor,
                    )
                } else if !old(self).state.daemon_unlocked || !ps[index as int].daemon_unlocked {
                    final(self).state == old(self).state && final(self).log() == log_push(
                        old(self).log(),
                        GameMessage::LacksFirmware { processor_name: ps[index as int].name },
                    )
                } else if !ps[index as int].is_functional_spec() {
                    final(self).state == old(self).state && final(self).log() == log_push(
                        old(self).log(),
                        GameMessage::OfflineForModeChange { processor_name: ps[index as int].name },
                    )
                } else {
                    let q = ProcessorState {
                        daemon_mode: next_mode(ps[index as int].daemon_mode),
                        ..ps[index as int]
                    };
                    &&& final(self).state == (GameState {
                        processors: final(self).state.processors,
                        ..old(self).state
                    })
                    &&& final(self).state.processors@ == ps.update(index as int, q)
                    &&& final(self).log() == log_push(
                        old(self).log(),
                        GameMessage::ModeChanged { processor_name: q.name, mode: q.daemon_mode },
                    )
                }
            }),
            final(self).same_clocks(old(self)),
    {
        if index >= self.state.processors.len() {
            self.push_message(GameMessage::SelectValidProcessor);
            return;
        }
        let processor_name = self.state.processors[index].name.clone();
        if !self.state.daemon_unlocked || !self.state.processors[index].daemon_unlocked {
            self.push_message(GameMessage::LacksFirmware { processor_name });
        } else if !self.state.processors[index].is_functional() {
            self.push_message(GameMessage::OfflineForModeChange { processor_name });
        } else {
            let mode = match self.state.processors[index].daemon_mode {
                DaemonMode::Off => DaemonMode::Assist,
                DaemonMode::Assist => DaemonMode::Auto,
                DaemonMode::Auto => DaemonMode::Off,
            };
            self.state.processors[index].daemon_mode = mode;
            self.push_message(GameMessage::ModeChanged { processor_name, mode });
        }
    }

    /// Flips whether unit `index` holds to its cooling minimums when the daemon
    /// assigns work.
    pub fn toggle_honor_cooling(&mut self, index: usize)
        ensures
            ({
                let ps = old(self).state.processors@;
                if index < ps.len() {
                    let q = ProcessorState {
                        honor_cooling_mins: !ps[index as int].honor_cooling_mins,
                        ..ps[index as int]
                    };
                    &&& final(self).state == (GameState {
                        processors: final(self).state.processors,
                        ..old(self).state
                    })
                    &&& final(self).state.processors@ == ps.update(index as int, q)
                    &&& final(self).log() == log_push(
                        old(self).log(),
                        GameMessage::CoolingPolicy { processor_name: q.name, honor: q.honor_cooling_mins },
                    )
                } else {
                    final(self).state == old(self).state && final(self).log() == log_push(
                        old(self).log(),
                        GameMessage::SelectValidProcessor,
                    )
                }
            }),
            final(self).same_clocks(old(self)),
    {
        if index >= self.state.processors.len() {
            self.push_message(GameMessage::SelectValidProcessor);
            return;
        }
        let honor = !self.state.processors[index].honor_cooling_mins;
        self.state.processors[index].honor_cooling_mins = honor;
        let processor_name = self.state.processors[index].name.clone();
        self.push_message(GameMessage::CoolingPolicy { processor_name, honor });
    }
}

} // verus!
