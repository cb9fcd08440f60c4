//! Session, position, control, transport, life, group, desync and profession state.
use vstd::prelude::*;
use std::collections::{BTreeMap, BTreeSet};
use crate::domain::{Vec3, WorldPosition, f32_bits_finite, is_finite_bits};
use crate::ids::EntityId;

verus! {

broadcast use vstd::std_specs::btree::group_btree_axioms;

/// Login and world-entry state.
#[derive(Clone, Debug)]
pub struct SessionState {
    pub authenticated: bool,
    pub realm: Option<String>,
    pub in_world: bool,
    pub character_guid: Option<u64>,
}

/// The player's position as the server last confirmed it.
#[derive(Clone, Copy, Debug, PartialEq, Eq, Structural)]
pub struct PositionState {
    pub player: Option<WorldPosition>,
    pub moving: bool,
    pub flags: u32,
    pub client_time: u32,
}

/// The mover the player controls where it is not the player (a vehicle or a charmed unit).
#[derive(Clone, Debug)]
pub struct ControlState {
    /// `None` means normal player movement.
    pub mover: Option<EntityId>,
    pub mover_position: Option<WorldPosition>,
    pub movement_flags: u32,
    /// Abilities exposed by the controlled unit's action bar.
    pub abilities: BTreeSet<u32>,
}

impl ControlState {
    /// The position that movement acts on: the controlled mover's where there is one,
    /// else the player's.
    pub fn active_position(&self, player: Option<WorldPosition>) -> (r: Option<WorldPosition>)
        ensures
            r == if self.mover_position is Some { self.mover_position } else { player },
    {
        match self.mover_position {
            Some(p) => Some(p),
            None => player,
        }
    }

    /// No controlled mover, no abilities.
    pub fn released() -> (r: Self)
        ensures
            r.mover is None,
            r.mover_position is None,
            r.movement_flags == 0,
            r.abilities@ == Set::<u32>::empty(),
    {
        ControlState { mover: None, mover_position: None, movement_flags: 0, abilities: BTreeSet::new() }
    }
}

/// Passenger state from a parsed movement observation; orientation is an f32 bit pattern.
/// Missing transport identity or relative coordinates stay missing.
#[derive(Clone, Copy, Debug, PartialEq, Eq, Structural)]
pub struct TransportState {
    pub attached: Option<bool>,
    pub transport: Option<EntityId>,
    pub relative_position: Option<Vec3>,
    pub relative_orientation: Option<u32>,
    pub transport_time: Option<u32>,
}

/// Whether the server has confirmed that the player rides `transport`, with finite relative
/// coordinates and orientation.
pub open spec fn authoritative_attachment(t: TransportState, transport: EntityId) -> bool {
    &&& t.attached == Some(true)
    &&& t.transport == Some(transport)
    &&& t.relative_position matches Some(p) && p.finite()
    &&& t.relative_orientation matches Some(o) && f32_bits_finite(o)
}

impl TransportState {
    /// Whether the server has confirmed that the player rides `transport`.
    pub fn has_authoritative_attachment(&self, transport: EntityId) -> (r: bool)
        ensures
            r == authoritative_attachment(*self, transport),
    {
        let attached = match self.attached {
            Some(a) => a,
            None => false,
        };
        let same = match self.transport {
            Some(t) => t.0 == transport.0,
            None => false,
        };
        let position = match self.relative_position {
            Some(p) => p.is_finite(),
            None => false,
        };
        let orientation = match self.relative_orientation {
            Some(o) => is_finite_bits(o),
            None => false,
        };
        attached && same && position && orientation
    }
}

/// Death and corpse recovery.
#[derive(Clone, Copy, Debug, PartialEq, Eq, Structural)]
pub struct LifeState {
    pub corpse: Option<WorldPosition>,
    pub reclaim_ready_at_ms: u64,
    pub recovery_generation: u64,
}

/// A member of the player's group.
#[derive(Clone, Debug)]
pub struct GroupMember {
    pub entity: EntityId,
    pub name: String,
    pub role: Option<String>,
    pub online: bool,
}

/// Where the player's group is in its life.
#[derive(Clone, Copy, Debug, PartialEq, Eq, Structural)]
pub enum GroupLifecycle {
    Solo,
    Forming,
    Active,
    Leaving,
}

/// The player's group.
#[derive(Clone, Debug)]
pub struct GroupState {
    pub generation: u64,
    pub members: Vec<GroupMember>,
    pub leader: Option<EntityId>,
    pub raid: bool,
    pub lifecycle: GroupLifecycle,
    pub encounter_target: Option<EntityId>,
}

/// Whether the local state is suspected to have drifted from the server's, and why.
#[derive(Clone, Debug)]
pub struct DesyncState {
    pub suspect: bool,
    pub reasons: Vec<String>,
}

/// Skills and professions.
#[derive(Clone, Debug)]
pub struct ProfessionState {
    /// True after the client has supplied the complete skill-info field.
    pub known: bool,
    /// Skill line to (current, maximum).
    pub skills: BTreeMap<u32, (u16, u16)>,
    /// Skill slot to skill line, including empty slots left out of `skills`.
    pub slots: BTreeMap<usize, u32>,
    pub known_recipes: BTreeSet<u32>,
    pub primary_professions: BTreeSet<u32>,
    pub cooking: bool,
    pub first_aid: bool,
    pub fishing: bool,
}

/// The current value of a skill, 0 where the skill is unknown.
pub open spec fn skill_value(skills: Map<u32, (u16, u16)>, skill: u32) -> u16 {
    if skills.contains_key(skill) { skills[skill].0 } else { 0 }
}

impl ProfessionState {
    /// The current value of a skill, 0 where it is unknown.
    pub fn skill(&self, skill: u32) -> (r: u16)
        ensures
            r == skill_value(self.skills@, skill),
    {
        match self.skills.get(&skill) {
            Some(v) => v.0,
            None => 0,
        }
    }
}

} // verus!
