//! Observations of the server's state, as the protocol adapters report them.
use vstd::prelude::*;
use std::collections::BTreeMap;
use crate::domain::WorldPosition;
use crate::ids::EntityId;
use crate::state::auras::AuraInstance;
use crate::state::capabilities::{RuneState, TalentRank};
use crate::state::entities::EntityState;
use crate::state::inventory::{AuctionState, InventoryItemInstance, LootOwnership, MailboxState, TradeState};
use crate::state::quests::{QuestDefinition, QuestTurnInDialog};
use crate::state::world::{GroupState, TransportState};

verus! {

/// One fact the server made known. Times are milliseconds of the wall clock.
#[derive(Clone, Debug)]
pub enum ProtocolObservation {
    Authenticated { realm: Option<String> },
    EnteredWorld { character_guid: u64, position: Option<WorldPosition> },
    LeftWorld,
    PlayerPosition { position: WorldPosition, moving: bool, flags: u32, client_time: u32 },
    ControlledMover { mover: Option<EntityId>, position: Option<WorldPosition>, flags: u32 },
    Transport { state: TransportState },
    ControlledAbilities { mover: EntityId, spells: Vec<u32> },
    PetControl { pet: Option<EntityId> },
    CastFailed { spell: u32, reason: u8, target: Option<EntityId> },
    CastStarted { caster: EntityId, spell: u32, started_at_ms: u64, ends_at_ms: u64 },
    CastFinished { caster: EntityId, spell: u32 },
    CastUpdated { caster: EntityId, ends_at_ms: u64 },
    CorpseLocation { position: Option<WorldPosition> },
    CorpseReclaimDelay { ready_at_ms: u64 },
    EntityUpsert { entity: EntityState },
    EntityRemoved { entity: EntityId },
    InventoryCount { item: u32, count: u32 },
    InventoryInstances { items: Vec<InventoryItemInstance> },
    InventoryFreeSlots { count: u16 },
    EquippedRangedItem { item: Option<u32> },
    EquippedItems { items: Option<BTreeMap<u8, u32>> },
    Money { copper: u64 },
    LootOpened { target: EntityId, ownership: LootOwnership },
    LootClosed { ownership: LootOwnership },
    VendorOpened { vendor: EntityId },
    VendorClosed,
    Trade(TradeState),
    Auction(AuctionState),
    Mailbox(MailboxState),
    QuestGiverStatus { giver: EntityId, status: u8 },
    QuestGiverListReceived { giver: EntityId, offer_count: u8 },
    QuestOffer { giver: EntityId, quest: u32, icon: u32 },
    QuestAccepted { quest: u32 },
    QuestDefinition { definition: QuestDefinition },
    QuestTurnInDialog { quest: u32, dialog: QuestTurnInDialog },
    QuestProgress { quest: u32, objectives: Vec<u32>, complete: bool },
    QuestRemoved { quest: u32 },
    QuestCompleted { quest: u32 },
    SpellKnown { spell: u32 },
    SpellCooldown { spell: u32, ready_at_ms: u64 },
    SpellGlobalCooldown { spell: u32, started_at_ms: u64 },
    PlayerRunes { runes: Option<Vec<RuneState>> },
    ComboPoints { target: Option<EntityId>, points: Option<u8> },
    PlayerClass { class_id: u8 },
    PlayerTalents { group_count: Option<u8>, active_group: Option<u8>, talents: Vec<TalentRank> },
    AuraSnapshot { entity: EntityId, auras: Vec<AuraInstance> },
    AuraSlot { entity: EntityId, slot: u8, aura: Option<AuraInstance> },
    Skill { skill: u32, current: u16, max: u16 },
    ProfessionSnapshot { skills: BTreeMap<u32, (u16, u16)>, slots: BTreeMap<usize, u32> },
    RecipeKnown { recipe: u32 },
    ProfessionFlags { cooking: bool, first_aid: bool, fishing: bool },
    Group(GroupState),
    Desync { reason: String },
    Resynchronized,
    Raw { opcode: u32, body: Vec<u8> },
}

/// Keep an otherwise unhandled packet as evidence; raw observations grant no gameplay
/// authority.
pub fn raw(opcode: u32, body: &[u8]) -> (r: ProtocolObservation)
    ensures
        r matches ProtocolObservation::Raw { opcode: o, body: b } && o == opcode && b@ == body@,
{
    let mut copy: Vec<u8> = Vec::new();
    crate::bytes::extend_bytes(&mut copy, body);
    assert(copy@ =~= body@);
    ProtocolObservation::Raw { opcode, body: copy }
}

} // verus!
