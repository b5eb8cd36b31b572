use crate::processors::{AssignmentError, DaemonMode};
use crate::store::PurchaseError;
use vstd::prelude::*;

verus! {

/// An entry of the game's message log. The display layer turns it into text.
#[derive(Debug, Clone)]
pub enum GameMessage {
    /// Free text handed in from outside the engine.
    Text(String),
    NewJob { job_name: String, tag: String },
    JobDiscarded,
    Assigned { job_name: String, processor_name: String, duration_ms: u64, daemon: bool },
    JobCompleted { job_name: String, processor_name: String, quality: u8, payout: u64 },
    StorageOverflow { lost: u64 },
    BurntOut { processor_name: String, job_name: String },
    Destroyed { processor_name: String, job_name: String },
    UpkeepPaid { upkeep: u64, electricity: u64 },
    TreasuryDepleted { total: u64 },
    PassiveIncome { amount: u64 },
    ThermalPasteExpired,
    DaemonUnlocked,
    DaemonFailed { error: AssignmentError },
    SpeedTuned,
    QualityCalibrated,
    StorageExpanded { capacity: u64 },
    InstructionIntegrated { tag: String },
    AdvancedStreamUnlocked,
    CoolingUpgraded { processor_name: String, level: u8 },
    HardeningUpgraded { processor_name: String, level: u8 },
    ThermalPasteApplied,
    FirmwareInstalled { processor_name: String },
    ChassisReplaced { processor_name: String },
    FleetReplaced { count: u64, processor_name: String },
    Purchased { item_name: &'static str, cost: u64 },
    SelectValidProcessor,
    NotInAssistMode { processor_name: String },
    OfflineForSuggestions { processor_name: String },
    AlreadyWorking { processor_name: String },
    NoSuggestion { processor_name: String },
    SuggestionGone,
    AssistFailed { error: AssignmentError },
    LacksFirmware { processor_name: String },
    OfflineForModeChange { processor_name: String },
    ModeChanged { processor_name: String, mode: DaemonMode },
    CoolingPolicy { processor_name: String, honor: bool },
    PurchaseFailed { reason: PurchaseError },
    AssignmentFailed { error: AssignmentError },
    ReplacementFailed { reason: PurchaseError },
    PendingJobWaiting,
    JobQueued { job_name: String },
    NoJobsToQueue,
    NoProcessors,
    NoProcessorsToReplace,
    FocusUnitForAutomation,
    FocusUnitForReplacement,
}

} // verus!
