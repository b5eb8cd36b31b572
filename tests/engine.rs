use rand::rngs::StdRng;
use rand::{Rng, SeedableRng};
use babel_array::app::{apply_command, App, Command, FocusTarget};
use babel_array::data_storage::DataStorage;
use babel_array::economy::{
    assignment_duration_ms, electricity_cost, passive_income, payout_for_quality, quality_for_noise,
    upkeep_total,
};
use babel_array::game::Game;
use babel_array::jobs::{job_from_draws, generate_general_job, generate_job_with_tag, Job, GENERAL_TAG, SIMD_TAG};
use babel_array::messages::GameMessage;
use babel_array::processors::{
    AssignmentError, DaemonMode, DaemonPenalty, ProcessorEvent, ProcessorState, ProcessorStatus,
    ProcessorWork,
};
use babel_array::purchase::replacement_cost_for_processor;
use babel_array::store::PurchaseError;

fn job(tag: &str, time: u64, reward: u64) -> Job {
    Job {
        id: 9,
        name: "Contract".to_string(),
        tag: tag.to_string(),
        base_time_ms: time,
        base_reward: reward,
        quality_target: 60,
        data_output: 20,
    }
}

fn working(p: &mut ProcessorState, j: Job, remaining: u64) {
    p.status = ProcessorStatus::Working(ProcessorWork {
        job: j,
        remaining_ms: remaining,
        total_ms: remaining,
        daemon_penalty: None,
        overheating: false,
    });
}

#[test]
fn fresh_game_spawns_one_job_after_six_seconds() {
    let mut game = Game::fresh();
    assert_eq!(game.state.processors.len(), 1);
    assert_eq!(game.state.credits, 120);
    assert!(game.state.jobs.is_empty());
    game.update(6_000);
    assert_eq!(game.state.jobs.len(), 1);
    assert_eq!(game.state.job_counter, 1);
    assert_eq!(game.state.jobs[0].id, 1);
    assert_eq!(game.state.jobs[0].name, "General Task #1");
    assert_eq!(game.job_spawn_timer, 0);
}

#[test]
fn busy_processor_rejects_assignment_and_board_stays() {
    let mut game = Game::fresh();
    game.state.jobs.push(job(GENERAL_TAG, 5_000, 100));
    let first = game.take_job(0).expect("job");
    game.assign_job_to_processor(first, 0, false).expect("idle unit takes it");
    game.state.jobs.push(job(GENERAL_TAG, 4_000, 90));
    let before = game.state.jobs.len();
    let second = job(GENERAL_TAG, 4_000, 90);
    let r = game.assign_job_to_processor(second, 0, false);
    assert_eq!(r, Err(AssignmentError::ProcessorBusy));
    assert_eq!(game.state.jobs.len(), before);
}

#[test]
fn assignment_errors_in_order() {
    let mut game = Game::fresh();
    assert_eq!(
        game.assign_job_to_processor(job(GENERAL_TAG, 1_000, 10), 3, false),
        Err(AssignmentError::InvalidProcessor)
    );
    assert_eq!(
        game.assign_job_to_processor(job(SIMD_TAG, 1_000, 10), 0, false),
        Err(AssignmentError::IncompatibleInstruction(SIMD_TAG.to_string()))
    );
    game.state.processors[0].status = ProcessorStatus::BurntOut;
    assert_eq!(
        game.assign_job_to_processor(job(GENERAL_TAG, 1_000, 10), 0, false),
        Err(AssignmentError::ProcessorBusy)
    );
}

#[test]
fn daemon_assignment_applies_penalty() {
    let mut game = Game::fresh();
    game.assign_job_to_processor(job(GENERAL_TAG, 5_000, 100), 0, true).unwrap();
    assert_eq!(game.state.processors[0].remaining_and_total(), Some((5_500, 5_500)));
}

#[test]
fn zero_reliability_always_burns_out() {
    for roll in [0u32, 1, 500_000, 999_999] {
        let mut p = ProcessorState::starter();
        p.reliability_base = 0;
        working(&mut p, job(GENERAL_TAG, 5_000, 100), 100);
        let ev = p.advance(10, roll, 0);
        assert!(matches!(ev, Some(ProcessorEvent::BurntOut { .. })));
        assert!(matches!(p.status, ProcessorStatus::BurntOut));
    }
    let mut p = ProcessorState::starter();
    p.reliability_base = 0;
    working(&mut p, job(GENERAL_TAG, 5_000, 100), 100);
    let mut rng = StdRng::seed_from_u64(11);
    let ev = p.tick(10, &mut rng, 0);
    assert!(matches!(ev, Some(ProcessorEvent::BurntOut { .. })));
}

#[test]
fn failure_check_precedes_completion() {
    let mut p = ProcessorState::starter();
    working(&mut p, job(GENERAL_TAG, 5_000, 100), 10);
    let ev = p.advance(100, 999_999, 0);
    assert!(matches!(ev, Some(ProcessorEvent::BurntOut { .. })));
    let mut q = ProcessorState::starter();
    working(&mut q, job(GENERAL_TAG, 5_000, 100), 10);
    let ev = q.advance(100, 0, 0);
    assert!(matches!(ev, Some(ProcessorEvent::Completed(_))));
    assert!(q.is_idle());
}

#[test]
fn working_tick_counts_down_and_snapshots() {
    let mut p = ProcessorState::starter();
    working(&mut p, job(GENERAL_TAG, 5_000, 100), 1_000);
    assert!(p.advance(100, 0, 0).is_none());
    assert_eq!(p.remaining_and_total(), Some((900, 1_000)));
    assert_eq!(p.reliability_display(), 875_000);
    assert_eq!(p.heat_display(), 1_000_000);
    assert_eq!(p.last_power_draw(), 4_200_000);
}

#[test]
fn wear_grows_and_destroys_then_replace_clears_it() {
    let mut p = ProcessorState::starter();
    p.finite_lifespan = true;
    p.mttf_ticks = 1_000;
    working(&mut p, job(GENERAL_TAG, 5_000, 100), 10_000);
    assert!(p.advance(100, 0, 0).is_none());
    assert_eq!(p.wear, 100_000 + 50);
    let ev = p.advance(1_000, 0, 0);
    assert!(matches!(ev, Some(ProcessorEvent::Destroyed { .. })));
    assert!(!p.is_functional());
    p.replace();
    assert_eq!(p.wear, 0);
    assert!(p.is_idle());
}

#[test]
fn daily_cycle_floors_credits_at_zero() {
    let mut game = Game::fresh();
    game.state.credits = 10;
    game.state.processors[0].upkeep_cost = 33;
    assert_eq!(game.total_upkeep() + game.total_electricity_cost(), 50);
    game.apply_daily_cycle();
    assert_eq!(game.state.credits, 0);
    assert!(matches!(
        game.messages().back(),
        Some(GameMessage::TreasuryDepleted { total: 50 })
    ));
}

#[test]
fn daily_cycle_pays_and_adds_dividend() {
    let mut game = Game::fresh();
    game.state.credits = 100;
    game.state.storage.stored = 40;
    game.apply_daily_cycle();
    assert_eq!(game.state.credits, 100 - 25 + 2);
}

#[test]
fn replacing_non_functional_unit_costs_sixty_three() {
    let mut game = Game::fresh();
    game.state.credits = 100;
    game.state.processors[0].purchase_cost = 180;
    game.state.processors[0].replace_cost_ratio = 350_000;
    game.state.processors[0].status = ProcessorStatus::Destroyed;
    game.state.processors[0].wear = 1_200_000;
    assert_eq!(replacement_cost_for_processor(&game.state.processors[0]), 63);
    game.replace_processor_direct(0).unwrap();
    assert_eq!(game.state.credits, 37);
    assert!(game.state.processors[0].is_idle());
    assert_eq!(game.state.processors[0].wear, 0);
}

#[test]
fn replacing_healthy_unit_is_refused() {
    let mut game = Game::fresh();
    assert_eq!(game.replace_processor_direct(0), Err(PurchaseError::ProcessorHealthy));
    assert_eq!(game.replace_model_direct(0), Err(PurchaseError::NoMatchingProcessors));
}

#[test]
fn model_replacement_covers_fleet() {
    let mut game = Game::fresh();
    game.state.credits = 1_000;
    game.state.processors.push(ProcessorState::starter());
    game.state.processors.push(ProcessorState::starter());
    game.state.processors[0].status = ProcessorStatus::BurntOut;
    game.state.processors[2].status = ProcessorStatus::Destroyed;
    assert_eq!(game.item_cost(9, Some(1)), Some(126));
    game.replace_model_direct(1).unwrap();
    assert_eq!(game.state.credits, 1_000 - 126);
    assert!(game.state.processors.iter().all(|p| p.is_idle()));
}

#[test]
fn failed_purchase_changes_nothing() {
    let mut game = Game::fresh();
    game.state.credits = 50;
    let before_speed = game.state.processors[0].speed;
    let r = game.purchase_item(0, None);
    assert_eq!(r, Err(PurchaseError::InsufficientCredits { cost: 120 }));
    assert_eq!(game.state.credits, 50);
    assert_eq!(game.state.processors[0].speed, before_speed);
    assert_eq!(game.state.store_purchases[0], 0);
    assert!(game.messages().is_empty());
}

#[test]
fn purchase_errors_for_each_refusal() {
    let mut game = Game::fresh();
    game.state.credits = 10_000;
    assert_eq!(game.purchase_item(10, None), Err(PurchaseError::InvalidItem));
    assert_eq!(game.purchase_item(4, None), Err(PurchaseError::ProcessorSelectionRequired));
    assert_eq!(game.purchase_item(5, Some(4)), Err(PurchaseError::ProcessorSelectionRequired));
    game.purchase_item(7, Some(0)).unwrap();
    assert_eq!(game.purchase_item(7, Some(0)), Err(PurchaseError::DaemonAlreadyInstalled));
    let p = &game.state.processors[0];
    assert!(p.daemon_unlocked);
    assert_eq!(p.daemon_penalty, DaemonPenalty { quality: -3, time_multiplier: 1_080_000 });
    for _ in 0..3 {
        game.purchase_item(5, Some(0)).unwrap();
    }
    assert_eq!(game.state.processors[0].hardening_level, 3);
    assert_eq!(game.purchase_item(5, Some(0)), Err(PurchaseError::UpgradeAtCap));
}

#[test]
fn unlocked_instruction_cannot_be_bought_again() {
    let mut game = Game::fresh();
    game.state.credits = 1_000;
    game.state.unlocked_tags.push(SIMD_TAG.to_string());
    assert_eq!(
        game.purchase_item(3, None),
        Err(PurchaseError::InstructionAlreadyUnlocked { tag: SIMD_TAG.to_string() })
    );
    assert_eq!(game.item_cost(3, None), None);
    assert_eq!(game.state.credits, 1_000);
}

#[test]
fn sold_out_microcode_without_unlock_is_maxed_out() {
    let mut game = Game::fresh();
    game.state.credits = 1_000;
    game.state.store_purchases[3] = 1;
    assert!(matches!(game.purchase_item(3, None), Err(PurchaseError::MaxedOut { .. })));
    assert_eq!(game.item_cost(3, None), None);
}

#[test]
fn fleet_buffs_and_storage_expansion() {
    let mut game = Game::fresh();
    game.state.credits = 1_000;
    game.purchase_item(0, None).unwrap();
    assert_eq!(game.state.processors[0].speed, 1_050_000);
    assert_eq!(game.item_cost(0, None), Some(165));
    game.purchase_item(1, None).unwrap();
    assert_eq!(game.state.processors[0].quality_bias, 1);
    game.purchase_item(2, None).unwrap();
    assert_eq!(game.state.storage.capacity, 200);
    game.purchase_item(6, None).unwrap();
    assert_eq!(game.state.thermal_paste_timer_ms, 18_000);
    assert!(game.thermal_paste_active());
    assert_eq!(game.state.credits, 1_000 - 120 - 140 - 100 - 60);
}

#[test]
fn thermal_paste_expires_with_message() {
    let mut game = Game::fresh();
    game.state.thermal_paste_timer_ms = 50;
    game.update(100);
    assert_eq!(game.state.thermal_paste_timer_ms, 0);
    assert!(game
        .messages()
        .iter()
        .any(|m| matches!(m, GameMessage::ThermalPasteExpired)));
}

#[test]
fn daemon_unlocks_at_threshold_and_auto_assigns() {
    let mut game = Game::fresh();
    game.state.credits = 500;
    game.update(0);
    assert!(game.state.daemon_unlocked);
    assert!(game.state.processors[0].daemon_unlocked);
    game.state.processors[0].daemon_mode = DaemonMode::Auto;
    game.state.jobs.push(job(GENERAL_TAG, 5_000, 100));
    game.state.jobs.push(job(GENERAL_TAG, 2_000, 100));
    game.try_daemon_assignment();
    assert_eq!(game.state.jobs.len(), 1);
    assert_eq!(game.state.jobs[0].base_time_ms, 5_000);
    assert_eq!(game.state.processors[0].remaining_and_total(), Some((2_200, 2_200)));
}

#[test]
fn storage_overflow_accounts_for_capacity() {
    let mut s = DataStorage::new(100);
    assert_eq!(s.store(70), 70);
    assert_eq!(s.free_capacity(), 30);
    let absorbed = s.store(50);
    assert_eq!(absorbed, 30);
    assert_eq!(s.free_capacity(), 0);
    assert_eq!(s.stored, 100);
    s.expand(20);
    assert_eq!(s.free_capacity(), 20);
}

#[test]
fn economy_formulas() {
    let j = job(GENERAL_TAG, 5_000, 100);
    assert_eq!(payout_for_quality(&j, 0), 70);
    assert_eq!(payout_for_quality(&j, 100), 120);
    assert_eq!(payout_for_quality(&j, 60), 100);
    let small = job(GENERAL_TAG, 5_000, 3);
    assert_eq!(payout_for_quality(&small, 0), 2);
    assert_eq!(passive_income(0), 0);
    assert_eq!(passive_income(5), 1);
    assert_eq!(passive_income(40), 2);
    assert_eq!(passive_income(50), 3);
    let mut p = ProcessorState::starter();
    assert_eq!(assignment_duration_ms(&j, &p, None), 5_000);
    p.speed = 2_000_000;
    assert_eq!(assignment_duration_ms(&j, &p, None), 2_500);
    p.speed = 0;
    assert_eq!(assignment_duration_ms(&j, &p, None), 50_000);
    let pen = DaemonPenalty::default();
    p.speed = 1_000_000;
    assert_eq!(assignment_duration_ms(&j, &p, Some(&pen)), 5_500);
    assert_eq!(quality_for_noise(&j, &p, None, -4), 56);
    assert_eq!(quality_for_noise(&j, &p, Some(&pen), 4), 59);
    let ps = vec![ProcessorState::starter(), ProcessorState::starter()];
    assert_eq!(upkeep_total(&ps), 16);
    assert_eq!(electricity_cost(&ps), 34);
}

#[test]
fn evaluation_of_hazardous_hot_job() {
    let mut p = ProcessorState::starter();
    p.instruction_set.push("RADIATION".to_string());
    p.cooling_level = 2;
    p.requires_cooling_min = 3;
    p.hardening_level = 1;
    let e = p.evaluate_job(&job("RADIATION", 1_000, 10), 0);
    assert_eq!(e.effective_cooling, 2);
    assert_eq!(e.heat, 550_000 + 800_000);
    assert_eq!(e.hazard_penalty, 16_000);
    assert_eq!(e.reliability, 995_000 - 162_000 - 16_000 + 20_000 - 150_000);
    assert_eq!(e.power_draw, 4_620_000);
    let bonus = p.evaluate_job(&job("RADIATION", 1_000, 10), 1);
    assert_eq!(bonus.effective_cooling, 3);
}

#[test]
fn generated_jobs_stay_in_ranges() {
    let mut rng = StdRng::seed_from_u64(11);
    for id in 1..20u64 {
        let g = generate_general_job(id, &mut rng);
        assert_eq!(g.id, id);
        assert_eq!(g.name, format!("General Task #{id}"));
        assert_eq!(g.tag, GENERAL_TAG);
        assert!((4_000..9_000).contains(&g.base_time_ms));
        assert!((70..140).contains(&g.base_reward));
        assert!((55..85).contains(&g.quality_target));
        assert!((12..32).contains(&g.data_output));
        let s = generate_job_with_tag(id, SIMD_TAG, &mut rng);
        assert_eq!(s.tag, SIMD_TAG);
        assert_eq!(s.name, format!("SIMD Workload #{id}"));
        assert!((160..260).contains(&s.base_reward));
    }
}

#[test]
fn loaded_state_is_restored() {
    let mut state = Game::fresh().state;
    state.unlocked_tags = vec![SIMD_TAG.to_string()];
    state.store_purchases = vec![2];
    state.daemon_unlocked = true;
    state.daemon_enabled = true;
    state.processors[0].cooling_cap = 0;
    let game = Game::from_state(state);
    assert_eq!(game.state.unlocked_tags, vec![GENERAL_TAG.to_string(), SIMD_TAG.to_string()]);
    assert_eq!(game.state.store_purchases, vec![2, 0, 0, 0, 0, 0, 0, 0, 0, 0]);
    assert!(!game.state.daemon_enabled);
    let p = &game.state.processors[0];
    assert!(p.daemon_unlocked);
    assert_eq!(p.cooling_cap, 3);
    assert!(p.supports(SIMD_TAG));
    assert_eq!(p.instruction_set.len(), 2);
}

#[test]
fn return_job_goes_to_front_until_board_full() {
    let mut game = Game::fresh();
    for t in 0..5u64 {
        game.return_job(job(GENERAL_TAG, 1_000 + t, 10));
    }
    assert_eq!(game.state.jobs.len(), 5);
    assert_eq!(game.state.jobs[0].base_time_ms, 1_004);
    game.return_job(job(GENERAL_TAG, 1, 10));
    assert_eq!(game.state.jobs.len(), 5);
    assert!(matches!(game.messages().back(), Some(GameMessage::JobDiscarded)));
}

#[test]
fn commands_drive_selection_and_assignment() {
    let mut game = Game::fresh();
    let mut app = App::new();
    game.state.jobs.push(job(GENERAL_TAG, 5_000, 100));
    game.state.jobs.push(job(GENERAL_TAG, 6_000, 100));
    assert!(!apply_command(&mut app, &mut game, Command::Down));
    assert_eq!(app.selected_job, 1);
    assert!(!apply_command(&mut app, &mut game, Command::Down));
    assert_eq!(app.selected_job, 0);
    assert!(!apply_command(&mut app, &mut game, Command::Up));
    assert_eq!(app.selected_job, 1);
    apply_command(&mut app, &mut game, Command::Enter);
    assert!(app.pending_job.is_some());
    assert_eq!(game.state.jobs.len(), 1);
    assert_eq!(app.selected_job, 0);
    apply_command(&mut app, &mut game, Command::NextFocus);
    assert_eq!(app.focus(), FocusTarget::Processors);
    apply_command(&mut app, &mut game, Command::Enter);
    assert!(app.pending_job.is_none());
    assert!(matches!(game.state.processors[0].status, ProcessorStatus::Working(_)));
    assert!(apply_command(&mut app, &mut game, Command::Quit));
    apply_command(&mut app, &mut game, Command::ToggleStore);
    assert!(app.store_open);
    assert!(!apply_command(&mut app, &mut game, Command::Quit));
    assert!(apply_command(&mut app, &mut game, Command::ForceQuit));
    apply_command(&mut app, &mut game, Command::Back);
    assert!(!app.store_open);
}

#[test]
fn app_selection_helpers() {
    let mut app = App::new();
    app.selected_job = 7;
    app.clamp_job_selection(3);
    assert_eq!(app.selected_job, 2);
    app.clamp_job_selection(0);
    assert_eq!(app.selected_job, 0);
    app.selected_processor = 4;
    app.clamp_processor_selection(2);
    assert_eq!(app.selected_processor, 1);
    app.selected_store_item = 12;
    app.clamp_store_selection(10);
    assert_eq!(app.selected_store_item, 9);
    app.toggle_store();
    assert!(app.store_open);
    assert_eq!(app.selected_store_item, 0);
    app.set_focus(FocusTarget::Processors);
    app.next_focus();
    assert_eq!(app.focus(), FocusTarget::Jobs);
}

#[test]
fn toggling_cooling_policy_flips_flag() {
    let mut game = Game::fresh();
    assert!(game.state.processors[0].honor_cooling_mins);
    game.toggle_honor_cooling(0);
    assert!(!game.state.processors[0].honor_cooling_mins);
    game.toggle_honor_cooling(5);
    assert!(matches!(game.messages().back(), Some(GameMessage::SelectValidProcessor)));
}

#[test]
fn progress_fractions_in_thousandths() {
    let mut game = Game::fresh();
    game.update(3_000);
    assert_eq!(game.job_spawn_progress(), 500);
    assert_eq!(game.day_progress(), 166);
}

#[test]
fn seeded_games_repeat() {
    let mut a = Game::fresh();
    let mut b = Game::fresh();
    a.reseed(42);
    b.reseed(42);
    a.update(6_000);
    b.update(6_000);
    assert_eq!(a.state.jobs[0].base_time_ms, b.state.jobs[0].base_time_ms);
    assert_eq!(a.state.jobs[0].base_reward, b.state.jobs[0].base_reward);
    assert_eq!(a.state.jobs[0].data_output, b.state.jobs[0].data_output);
}

#[test]
fn tag_pool_weights_general_four_and_simd_two() {
    let mut game = Game::fresh();
    game.state.unlocked_tags.push(SIMD_TAG.to_string());
    game.state.unlocked_tags.push("RADIATION".to_string());
    game.state.processors[0].instruction_set.push(SIMD_TAG.to_string());
    let picks: Vec<String> = (0..6).map(|at| game.tag_at(at)).collect();
    assert_eq!(picks, vec!["GENERAL", "GENERAL", "GENERAL", "GENERAL", "SIMD", "SIMD"]);
    let mut seen_simd = false;
    game.reseed(3);
    for _ in 0..200 {
        let t = game.choose_job_tag();
        assert!(t == GENERAL_TAG || t == SIMD_TAG);
        seen_simd |= t == SIMD_TAG;
    }
    assert!(seen_simd);
}

#[test]
fn empty_tag_pool_draws_general() {
    let mut game = Game::fresh();
    game.state.processors[0].instruction_set.clear();
    assert_eq!(game.choose_job_tag(), GENERAL_TAG);
}

#[test]
fn job_from_draws_keeps_values() {
    let g = job_from_draws(7, false, 5_000, 99, 60, 20);
    assert_eq!(g.name, "General Task #7");
    assert_eq!(g.tag, GENERAL_TAG);
    assert_eq!((g.base_time_ms, g.base_reward, g.quality_target, g.data_output), (5_000, 99, 60, 20));
    let s = job_from_draws(12, true, 7_000, 200, 70, 40);
    assert_eq!(s.name, "SIMD Workload #12");
    assert_eq!(s.tag, SIMD_TAG);
}

#[test]
fn refused_mode_change_logs_one_message() {
    let mut game = Game::fresh();
    game.cycle_daemon_mode(0);
    assert_eq!(game.messages().len(), 1);
    assert!(matches!(game.messages()[0], GameMessage::LacksFirmware { .. }));
    assert_eq!(game.state.processors[0].daemon_mode, DaemonMode::Off);
    game.cycle_daemon_mode(3);
    assert_eq!(game.messages().len(), 2);
    assert!(matches!(game.messages()[1], GameMessage::SelectValidProcessor));
}

#[test]
fn quitting_changes_nothing() {
    let mut game = Game::fresh();
    let mut app = App::new();
    game.state.jobs.push(job(GENERAL_TAG, 5_000, 100));
    assert!(apply_command(&mut app, &mut game, Command::ForceQuit));
    assert_eq!(game.state.jobs.len(), 1);
    assert!(game.messages().is_empty());
    assert!(app.pending_job.is_none() && !app.store_open && app.selected_job == 0);
}

#[test]
fn settled_payout_stays_in_band() {
    let mut game = Game::fresh();
    game.state.credits = 0;
    for quality in [0u8, 50, 100] {
        let before = game.state.credits;
        game.settle_completion("unit".to_string(), job(GENERAL_TAG, 1_000, 140), quality);
        let paid = game.state.credits - before;
        assert!((98..=168).contains(&paid));
    }
}

#[test]
fn negative_load_gives_negative_heat() {
    let mut p = ProcessorState::starter();
    p.power_draw_mod.push(babel_array::processors::TagModifier { tag: GENERAL_TAG.to_string(), value: -2_000_000 });
    let e = p.evaluate_job(&job(GENERAL_TAG, 1_000, 10), 0);
    assert_eq!(e.heat, -1_000_000);
    assert_eq!(e.reliability, 995_000);
    assert_eq!(e.power_draw, 0);
}

#[test]
fn moving_up_past_the_end_wraps_to_start() {
    let mut game = Game::fresh();
    let mut app = App::new();
    game.state.jobs.push(job(GENERAL_TAG, 5_000, 100));
    game.state.jobs.push(job(GENERAL_TAG, 6_000, 100));
    app.selected_job = 5;
    app.move_selection(&game, false);
    assert_eq!(app.selected_job, 0);
    app.selected_job = 2;
    app.move_selection(&game, false);
    assert_eq!(app.selected_job, 1);
}

#[test]
fn idle_tick_draws_nothing() {
    let mut a = StdRng::seed_from_u64(5);
    let mut b = StdRng::seed_from_u64(5);
    let mut p = ProcessorState::starter();
    assert!(p.tick(100, &mut a, 0).is_none());
    assert_eq!(a.gen_range(0..1_000_000u64), b.gen_range(0..1_000_000u64));
}
