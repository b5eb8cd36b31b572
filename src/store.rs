use vstd::prelude::*;

verus! {

/// What buying a store item does.
#[derive(Debug, Clone, Copy, PartialEq, Eq, Structural)]
pub enum StoreAction {
    IncreaseSpeed,
    ImproveQuality,
    ExpandStorage,
    /// Unlocks the SIMD instruction set for every processor and the job stream.
    UnlockInstructionSet,
    UpgradeCooling,
    UpgradeHardening,
    ApplyThermalPaste,
    ReplaceProcessor,
    ReplaceModel,
    InstallDaemonFirmware,
}

/// An entry of the store catalog.
#[derive(Debug, Clone, Copy)]
pub struct StoreItem {
    pub name: &'static str,
    pub description: &'static str,
    pub base_cost: u64,
    pub cost_step: u64,
    pub action: StoreAction,
    pub max_purchases: Option<u32>,
}

#[derive(Debug, Clone, PartialEq, Eq)]
pub enum PurchaseError {
    InsufficientCredits { cost: u64 },
    InvalidItem,
    MaxedOut { item: &'static str },
    InstructionAlreadyUnlocked { tag: String },
    ProcessorSelectionRequired,
    ProcessorHealthy,
    NoMatchingProcessors,
    UpgradeAtCap,
    DaemonAlreadyInstalled,
}

/// Number of entries in the store catalog.
pub const STORE_LEN: usize = 10;

/// Highest hardening level a processor can reach.
pub const MAX_HARDENING: u8 = 3;

/// Capacity added by one storage expansion.
pub const STORAGE_EXPANSION: u64 = 80;

/// Speed added to every processor by one clock tuning (millionths).
pub const SPEED_STEP: u32 = 50_000;

pub open spec fn item_action(i: int) -> StoreAction {
    if i == 0 {
        StoreAction::IncreaseSpeed
    } else if i == 1 {
        StoreAction::ImproveQuality
    } else if i == 2 {
        StoreAction::ExpandStorage
    } else if i == 3 {
        StoreAction::UnlockInstructionSet
    } else if i == 4 {
        StoreAction::UpgradeCooling
    } else if i == 5 {
        StoreAction::UpgradeHardening
    } else if i == 6 {
        StoreAction::ApplyThermalPaste
    } else if i == 7 {
        StoreAction::InstallDaemonFirmware
    } else if i == 8 {
        StoreAction::ReplaceProcessor
    } else {
        StoreAction::ReplaceModel
    }
}

pub open spec fn item_base_cost(i: int) -> u64 {
    if i == 0 {
        120
    } else if i == 1 {
        140
    } else if i == 2 {
        100
    } else if i == 3 {
        260
    } else if i == 4 {
        90
    } else if i == 5 {
        140
    } else if i == 6 {
        60
    } else if i == 7 {
        180
    } else {
        0
    }
}

pub open spec fn item_cost_step(i: int) -> u64 {
    if i == 0 {
        45
    } else if i == 1 {
        60
    } else if i == 2 {
        55
    } else if i == 3 {
        0
    } else if i == 4 {
        35
    } else if i == 5 {
        55
    } else if i == 6 {
        20
    } else if i == 7 {
        80
    } else {
        0
    }
}

pub open spec fn item_max_purchases(i: int) -> Option<u32> {
    if i == 3 {
        Some(1)
    } else {
        None
    }
}

/// Whether `item` is entry `i` of the catalog (its texts aside).
pub open spec fn is_catalog_item(item: StoreItem, i: int) -> bool {
    &&& item.action == item_action(i)
    &&& item.base_cost == item_base_cost(i)
    &&& item.cost_step == item_cost_step(i)
    &&& item.max_purchases == item_max_purchases(i)
}

/// Entry `index` of the catalog, if there is one.
pub fn store_item(index: usize) -> (r: Option<StoreItem>)
    ensures
        index < STORE_LEN <==> r is Some,
        r matches Some(item) ==> is_catalog_item(item, index as int),
{
    match index {
        0 => Some(StoreItem {
            name: "Clock Tuning",
            description: "Trim execution cycles for all processors (+0.05 speed each purchase).",
            base_cost: 120,
            cost_step: 45,
            action: StoreAction::IncreaseSpeed,
            max_purchases: None,
        }),
        1 => Some(StoreItem {
            name: "Precision Calibration",
            description: "Improve processor quality bias (+1 each purchase).",
            base_cost: 140,
            cost_step: 60,
            action: StoreAction::ImproveQuality,
            max_purchases: None,
        }),
        2 => Some(StoreItem {
            name: "Storage Array Expansion",
            description: "Increase data capacity by +80 units.",
            base_cost: 100,
            cost_step: 55,
            action: StoreAction::ExpandStorage,
            max_purchases: None,
        }),
        3 => Some(StoreItem {
            name: "Instruction Microcode",
            description: "Install SIMD microcode; unlocks advanced job stream and adds support to processors.",
            base_cost: 260,
            cost_step: 0,
            action: StoreAction::UnlockInstructionSet,
            max_purchases: Some(1),
        }),
        4 => Some(StoreItem {
            name: "Cooling Kit",
            description: "Install additional cooling on the selected processor (+1 level up to cap).",
            base_cost: 90,
            cost_step: 35,
            action: StoreAction::UpgradeCooling,
            max_purchases: None,
        }),
        5 => Some(StoreItem {
            name: "Hardening Module",
            description: "Radiation shielding and error correction for the selected processor (+1 hardening).",
            base_cost: 140,
            cost_step: 55,
            action: StoreAction::UpgradeHardening,
            max_purchases: None,
        }),
        6 => Some(StoreItem {
            name: "Service-Grade Thermal Paste",
            description: "Refreshes thermal interface material for the day (temporary +1 cooling level).",
            base_cost: 60,
            cost_step: 20,
            action: StoreAction::ApplyThermalPaste,
            max_purchases: None,
        }),
        7 => Some(StoreItem {
            name: "Daemon Microcode",
            description: "Unlock automation firmware for the selected processor and ease penalties.",
            base_cost: 180,
            cost_step: 80,
            action: StoreAction::InstallDaemonFirmware,
            max_purchases: None,
        }),
        8 => Some(StoreItem {
            name: "Replace Selected Unit",
            description: "Swap the highlighted processor chassis at the model's service rate.",
            base_cost: 0,
            cost_step: 0,
            action: StoreAction::ReplaceProcessor,
            max_purchases: None,
        }),
        9 => Some(StoreItem {
            name: "Replace Model Fleet",
            description: "Replace all burnt or destroyed units of the selected model at bulk rate.",
            base_cost: 0,
            cost_step: 0,
            action: StoreAction::ReplaceModel,
            max_purchases: None,
        }),
        _ => None,
    }
}

/// The whole catalog, in order.
pub fn store_items() -> (r: Vec<StoreItem>)
    ensures
        r@.len() == STORE_LEN,
        forall|i: int| 0 <= i < STORE_LEN ==> is_catalog_item(#[trigger] r@[i], i),
{
    let mut items: Vec<StoreItem> = Vec::new();
    let mut i: usize = 0;
    while i < STORE_LEN
        invariant
            0 <= i <= STORE_LEN,
            items@.len() == i,
            forall|j: int| 0 <= j < i ==> is_catalog_item(#[trigger] items@[j], j),
        decreases STORE_LEN - i,
    {
        match store_item(i) {
            Some(item) => items.push(item),
            None => {},
        }
        i = i + 1;
    }
    items
}

/// Position of the first catalog entry with `action`.
pub fn store_index_for(action: StoreAction) -> (r: Option<usize>)
    ensures
        match r {
            Some(i) => i < STORE_LEN && item_action(i as int) == action && forall|j: int|
                0 <= j < i ==> item_action(j) != action,
            None => forall|j: int| 0 <= j < STORE_LEN ==> item_action(j) != action,
        },
{
    let mut i: usize = 0;
    while i < STORE_LEN
        invariant
            0 <= i <= STORE_LEN,
            forall|j: int| 0 <= j < i ==> item_action(j) != action,
        decreases STORE_LEN - i,
    {
        match store_item(i) {
            Some(item) => {
                if item.action == action {
                    return Some(i);
                }
            },
            None => {},
        }
        i = i + 1;
    }
    None
}

} // verus!
