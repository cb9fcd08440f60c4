//! The whole authoritative state, and what one reduction step reports.
use vstd::prelude::*;
use std::collections::{BTreeMap, BTreeSet};
use crate::ids::{EntityId, StateRevision};
use crate::state::auras::AuraState;
use crate::state::capabilities::CapabilityState;
use crate::state::entities::{Entities, PetState};
use crate::state::inventory::{AuctionState, InventoryState, MailboxState, TradeState};
use crate::state::quests::QuestState;
use crate::state::world::{
    ControlState, DesyncState, GroupLifecycle, GroupState, LifeState, PositionState, ProfessionState,
    SessionState, TransportState,
};

verus! {

/// A cast in progress.
#[derive(Clone, Copy, Debug, PartialEq, Eq, Structural)]
pub struct ActiveCastState {
    pub spell: u32,
    pub started_at_ms: u64,
    pub ends_at_ms: u64,
}

/// Everything the server has made known, with a revision that every reduction step advances.
#[derive(Clone, Debug)]
pub struct AuthoritativeState {
    pub auras: AuraState,
    pub revision: StateRevision,
    pub session: SessionState,
    pub position: PositionState,
    pub transport: TransportState,
    pub entities: Entities,
    pub inventory: InventoryState,
    pub life: LifeState,
    pub quests: QuestState,
    pub professions: ProfessionState,
    pub pet: PetState,
    pub group: GroupState,
    pub capabilities: CapabilityState,
    pub control: ControlState,
    pub desync: DesyncState,
    /// Casts in progress by caster GUID.
    pub active_casts: BTreeMap<u64, ActiveCastState>,
}

/// A part of the authoritative state.
#[derive(Clone, Copy, Debug, PartialEq, Eq, Structural)]
pub enum StateSection {
    Session,
    Position,
    Control,
    Auras,
    Life,
    Entities,
    Inventory,
    Quests,
    Capabilities,
    Professions,
    Group,
    Desync,
}

impl StateSection {
    /// The section's name.
    pub fn name(&self) -> (r: &'static str)
        ensures
            r@ == (match *self {
                StateSection::Session => "session"@,
                StateSection::Position => "position"@,
                StateSection::Control => "control"@,
                StateSection::Auras => "auras"@,
                StateSection::Life => "life"@,
                StateSection::Entities => "entities"@,
                StateSection::Inventory => "inventory"@,
                StateSection::Quests => "quests"@,
                StateSection::Capabilities => "capabilities"@,
                StateSection::Professions => "professions"@,
                StateSection::Group => "group"@,
                StateSection::Desync => "desync"@,
            }),
    {
        match self {
            StateSection::Session => "session",
            StateSection::Position => "position",
            StateSection::Control => "control",
            StateSection::Auras => "auras",
            StateSection::Life => "life",
            StateSection::Entities => "entities",
            StateSection::Inventory => "inventory",
            StateSection::Quests => "quests",
            StateSection::Capabilities => "capabilities",
            StateSection::Professions => "professions",
            StateSection::Group => "group",
            StateSection::Desync => "desync",
        }
    }
}

/// What one reduction step changed: the sections it wrote, the entities it touched and the
/// new revision.
#[derive(Clone, Debug)]
pub struct StateDelta {
    pub changed: Vec<StateSection>,
    pub touched_entities: Vec<EntityId>,
    pub revision: StateRevision,
}

/// Whether a state is the state before anything is known.
pub open spec fn is_initial_state(s: AuthoritativeState) -> bool {
    &&& s.auras.by_entity@ == Map::<u64, BTreeMap<u8, crate::state::auras::AuraInstance>>::empty()
    &&& s.revision == StateRevision(0)
    &&& !s.session.authenticated && s.session.realm is None && !s.session.in_world && s.session.character_guid is None
    &&& s.position == PositionState { player: None, moving: false, flags: 0, client_time: 0 }
    &&& s.transport == TransportState { attached: None, transport: None, relative_position: None, relative_orientation: None, transport_time: None }
    &&& s.entities.0@ == Map::<u64, crate::state::entities::EntityState>::empty()
    &&& s.inventory.items@ == Map::<u32, u32>::empty()
    &&& s.inventory.instances@ == Map::<u64, crate::state::inventory::InventoryItemInstance>::empty()
    &&& s.inventory.free_slots == 0 && s.inventory.money == 0
    &&& s.inventory.loot_generation == 0 && s.inventory.bot_loot_generation == 0
    &&& s.inventory.current_loot is None && s.inventory.current_loot_owner is None && s.inventory.vendor is None
    &&& s.inventory.equipped_ranged_item is None
    &&& s.inventory.trade.partner is None && !s.inventory.trade.open && s.inventory.trade.generation == 0
    &&& s.life == LifeState { corpse: None, reclaim_ready_at_ms: 0, recovery_generation: 0 }
    &&& s.quests.active@ == Map::<u32, crate::state::quests::QuestProgress>::empty()
    &&& s.quests.completed@ == Seq::<u32>::empty()
    &&& s.quests.giver_status@ == Map::<u64, u8>::empty()
    &&& s.quests.offers@ == Map::<u32, crate::state::quests::QuestOffer>::empty()
    &&& s.pet == PetState { control_known: false, guid: None }
    &&& s.capabilities.class_id is None
    &&& s.capabilities.spells@ == Set::<u32>::empty()
    &&& s.control.mover is None && s.control.mover_position is None
    &&& !s.desync.suspect && s.desync.reasons@ == Seq::<String>::empty()
    &&& s.active_casts@ == Map::<u64, ActiveCastState>::empty()
}

impl AuthoritativeState {
    /// The state before anything is known.
    pub fn new() -> (r: Self)
        ensures
            is_initial_state(r),
    {
        AuthoritativeState {
            auras: AuraState::empty(),
            revision: StateRevision(0),
            session: SessionState { authenticated: false, realm: None, in_world: false, character_guid: None },
            position: PositionState { player: None, moving: false, flags: 0, client_time: 0 },
            transport: TransportState { attached: None, transport: None, relative_position: None, relative_orientation: None, transport_time: None },
            entities: Entities(BTreeMap::new()),
            inventory: InventoryState {
                items: BTreeMap::new(),
                instances: BTreeMap::new(),
                free_slots: 0,
                equipped_ranged_item: None,
                equipped_items: BTreeMap::new(),
                equipment_slots_authoritative: false,
                equipment_authoritative: false,
                money: 0,
                loot_generation: 0,
                bot_loot_generation: 0,
                current_loot: None,
                current_loot_owner: None,
                vendor: None,
                trade: TradeState {
                    generation: 0,
                    partner: None,
                    our_items: BTreeMap::new(),
                    their_items: BTreeMap::new(),
                    our_money: 0,
                    their_money: 0,
                    open: false,
                },
                auction: AuctionState { query_generation: 0, listings: BTreeMap::new() },
                mailbox: MailboxState { generation: 0, mails: BTreeMap::new() },
            },
            life: LifeState { corpse: None, reclaim_ready_at_ms: 0, recovery_generation: 0 },
            quests: QuestState {
                active: BTreeMap::new(),
                completed: Vec::new(),
                giver_status: BTreeMap::new(),
                offers: BTreeMap::new(),
                definitions: BTreeMap::new(),
                turn_in: BTreeMap::new(),
            },
            professions: ProfessionState {
                known: false,
                skills: BTreeMap::new(),
                slots: BTreeMap::new(),
                known_recipes: BTreeSet::new(),
                primary_professions: BTreeSet::new(),
                cooking: false,
                first_aid: false,
                fishing: false,
            },
            pet: PetState { control_known: false, guid: None },
            group: GroupState {
                generation: 0,
                members: Vec::new(),
                leader: None,
                raid: false,
                lifecycle: GroupLifecycle::Solo,
                encounter_target: None,
            },
            capabilities: CapabilityState {
                class_id: None,
                talent_group_count: None,
                active_talent_group: None,
                active_talents: Vec::new(),
                specialization_tree: None,
                spells: BTreeSet::new(),
                spell_cooldowns: BTreeMap::new(),
                items: BTreeSet::new(),
                can_fish: false,
                mounted: false,
            },
            control: ControlState::released(),
            desync: DesyncState { suspect: false, reasons: Vec::new() },
            active_casts: BTreeMap::new(),
        }
    }
}

} // verus!
