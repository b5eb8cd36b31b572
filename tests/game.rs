use babel_array::daemon::AssistSuggestion;
use babel_array::game::Game;
use babel_array::jobs::{Job, GENERAL_TAG, SIMD_TAG};
use babel_array::processors::{DaemonMode, ProcessorStatus};
use babel_array::store::{store_items, PurchaseError, StoreAction};

#[test]
fn purchasing_microcode_unlocks_simd_tag() {
    let mut game = Game::fresh();
    game.state.credits = 1_000;
    let idx = store_items()
        .iter()
        .position(|item| matches!(item.action, StoreAction::UnlockInstructionSet))
        .expect("microcode item present");
    let cost = game
        .item_cost(idx, None)
        .expect("microcode should be purchasable");

    assert!(!game.is_instruction_unlocked(SIMD_TAG));
    game.purchase_item(idx, None)
        .expect("purchase should succeed");

    assert!(game.is_instruction_unlocked(SIMD_TAG));
    assert!(game.state.unlocked_tags.iter().any(|tag| tag == SIMD_TAG));
    assert!(
        game.state
            .processors
            .iter()
            .all(|processor| processor.supports(SIMD_TAG))
    );
    assert_eq!(game.store_purchases(idx), Some(1));
    assert_eq!(game.state.credits, 1_000 - cost);
    assert_eq!(
        game.purchase_item(idx, None),
        Err(PurchaseError::InstructionAlreadyUnlocked { tag: SIMD_TAG.to_string() })
    );
    assert_eq!(game.state.credits, 1_000 - cost);
    assert_eq!(game.item_cost(idx, None), None);
    assert_eq!(game.state.unlocked_tags.iter().filter(|tag| *tag == SIMD_TAG).count(), 1);
}

#[test]
fn replacing_burnt_out_processor_spends_credits() {
    let mut game = Game::fresh();
    game.state.credits = 500;
    let processor = &mut game.state.processors[0];
    processor.status = ProcessorStatus::BurntOut;
    let ratio = processor.replace_cost_ratio as f64 / 1_000_000.0;
    let expected_cost = ((processor.purchase_cost as f64) * ratio).round() as u64;

    game.replace_processor_direct(0)
        .expect("replacement should succeed");

    assert_eq!(game.state.credits, 500 - expected_cost);
    assert!(matches!(
        game.state.processors[0].status,
        ProcessorStatus::Idle
    ));
    assert!((game.state.processors[0].wear as f64) <= f64::EPSILON);
}

#[test]
fn cycling_daemon_mode_traverses_states() {
    let mut game = Game::fresh();
    game.state.daemon_unlocked = true;
    let processor = &mut game.state.processors[0];
    processor.daemon_unlocked = true;

    assert_eq!(processor.daemon_mode, DaemonMode::Off);
    game.cycle_daemon_mode(0);
    assert_eq!(game.state.processors[0].daemon_mode, DaemonMode::Assist);
    game.cycle_daemon_mode(0);
    assert_eq!(game.state.processors[0].daemon_mode, DaemonMode::Auto);
    game.cycle_daemon_mode(0);
    assert_eq!(game.state.processors[0].daemon_mode, DaemonMode::Off);
}

#[test]
fn cooling_upgrade_respects_cap() {
    let mut game = Game::fresh();
    game.state.credits = 1_000;
    let processor_index = 0;
    let cooling_idx = store_items()
        .iter()
        .position(|item| item.action == StoreAction::UpgradeCooling)
        .expect("cooling kit present");

    game.purchase_item(cooling_idx, Some(processor_index))
        .expect("upgrade should succeed");
    assert_eq!(game.state.processors[processor_index].cooling_level, 1);

    game.purchase_item(cooling_idx, Some(processor_index))
        .expect("second upgrade should succeed");
    game.purchase_item(cooling_idx, Some(processor_index))
        .expect("third upgrade should succeed");

    assert_eq!(game.state.processors[processor_index].cooling_level, 3);
    assert!(matches!(
        game.purchase_item(cooling_idx, Some(processor_index)),
        Err(PurchaseError::UpgradeAtCap)
    ));
}

#[test]
fn assist_mode_assigns_suggested_job() {
    let mut game = Game::fresh();
    game.state.daemon_unlocked = true;
    let processor = &mut game.state.processors[0];
    processor.daemon_unlocked = true;
    processor.daemon_mode = DaemonMode::Assist;

    game.state.jobs.push(Job {
        id: 42,
        name: "Assist Contract".to_string(),
        tag: GENERAL_TAG.to_string(),
        base_time_ms: 5_000,
        base_reward: 150,
        quality_target: 60,
        data_output: 30,
    });

    assert!(game.accept_assist_suggestion(0));
    assert!(game.state.jobs.is_empty());
    assert!(matches!(
        game.state.processors[0].status,
        ProcessorStatus::Working(_)
    ));
}

#[test]
fn assist_suggestion_reports_eta_and_evaluation() {
    let mut game = Game::fresh();
    game.state.daemon_unlocked = true;
    game.state.processors[0].daemon_unlocked = true;
    game.state.processors[0].daemon_mode = DaemonMode::Assist;
    game.state.jobs.push(job("slow", GENERAL_TAG, 9_000, 100));
    game.state.jobs.push(job("fast", GENERAL_TAG, 3_000, 100));
    let s: AssistSuggestion = game.assist_suggestion(0).expect("suggestion");
    assert_eq!(s.job_index, 1);
    assert_eq!(s.eta_ms, 3_000);
    assert_eq!(s.reliability, 875_000);
    assert_eq!(s.heat, 1_000_000);
}

#[test]
fn assist_suggestion_needs_assist_mode() {
    let mut game = Game::fresh();
    game.state.jobs.push(job("a", GENERAL_TAG, 5_000, 100));
    assert!(game.assist_suggestion(0).is_none());
    assert!(!game.accept_assist_suggestion(0));
    assert_eq!(game.state.jobs.len(), 1);
    assert!(game.assist_suggestion(7).is_none());
}

fn job(name: &str, tag: &str, time: u64, reward: u64) -> Job {
    Job {
        id: 1,
        name: name.to_string(),
        tag: tag.to_string(),
        base_time_ms: time,
        base_reward: reward,
        quality_target: 60,
        data_output: 20,
    }
}
