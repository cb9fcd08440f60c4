//! Quests: the journal, questgivers, offers, definitions and turn-in dialogs.
use vstd::prelude::*;
use std::collections::BTreeMap;
use crate::ids::EntityId;

verus! {

/// Progress on an active quest.
#[derive(Clone, Debug)]
pub struct QuestProgress {
    pub complete: bool,
    pub objectives: Vec<u32>,
}

/// A quest a giver offers, with the giver's icon for it.
#[derive(Clone, Copy, Debug, PartialEq, Eq, Structural)]
pub struct QuestOffer {
    pub giver: EntityId,
    pub icon: u32,
}

/// Where a turn-in dialog stands.
#[derive(Clone, Copy, Debug, PartialEq, Eq, Structural)]
pub enum QuestTurnInStage {
    RequestItems { can_complete: bool },
    OfferReward { reward_choices: u32 },
}

/// An open turn-in dialog.
#[derive(Clone, Copy, Debug, PartialEq, Eq, Structural)]
pub struct QuestTurnInDialog {
    pub giver: EntityId,
    pub stage: QuestTurnInStage,
}

/// What a kill or use objective targets.
#[derive(Clone, Copy, Debug, PartialEq, Eq, Structural)]
pub enum QuestTargetKind {
    Creature,
    GameObject,
}

/// A kill or use objective of a quest, in objective slot `slot`.
#[derive(Clone, Debug)]
pub struct QuestTargetObjective {
    pub slot: usize,
    pub kind: QuestTargetKind,
    pub entry: u32,
    pub required: u32,
    pub item_drop: u32,
    pub text: String,
}

/// An item a quest requires.
#[derive(Clone, Copy, Debug, PartialEq, Eq, Structural)]
pub struct QuestItemObjective {
    pub item: u32,
    pub required: u32,
}

/// A quest as the server describes it. The point of interest is given where the server
/// gives a valid one; its coordinates are f32 bit patterns.
#[derive(Clone, Debug)]
pub struct QuestDefinition {
    pub quest: u32,
    pub title: String,
    pub poi_map: Option<u32>,
    pub poi_x: Option<u32>,
    pub poi_y: Option<u32>,
    pub targets: Vec<QuestTargetObjective>,
    pub items: Vec<QuestItemObjective>,
}

/// The quest journal and questgiver knowledge.
#[derive(Clone, Debug)]
pub struct QuestState {
    pub active: BTreeMap<u32, QuestProgress>,
    pub completed: Vec<u32>,
    /// Questgiver GUID to status.
    pub giver_status: BTreeMap<u64, u8>,
    pub offers: BTreeMap<u32, QuestOffer>,
    pub definitions: BTreeMap<u32, QuestDefinition>,
    pub turn_in: BTreeMap<u32, QuestTurnInDialog>,
}

} // verus!
