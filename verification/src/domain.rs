//! Gameplay domain values: positions, commands, validity stamps and missions.
//! Floating-point coordinates are carried as their IEEE-754 single-precision bit patterns.
use vstd::prelude::*;
use crate::ids::{ActionId, EntityId, MissionId, MovementEpoch, OwnershipGeneration, StateRevision, WorkerGeneration};

verus! {

/// Whether an IEEE-754 single-precision bit pattern is a finite number.
pub open spec fn f32_bits_finite(bits: u32) -> bool {
    (bits >> 23u32) & 0xFFu32 != 0xFFu32
}

/// Whether an IEEE-754 single-precision bit pattern is finite.
pub fn is_finite_bits(bits: u32) -> (r: bool)
    ensures
        r == f32_bits_finite(bits),
{
    (bits >> 23u32) & 0xFFu32 != 0xFFu32
}

/// Whether an IEEE-754 single-precision bit pattern is zero (of either sign).
pub open spec fn f32_bits_zero(bits: u32) -> bool {
    bits & 0x7FFF_FFFFu32 == 0
}

/// A point in world space, as single-precision bit patterns.
#[derive(Clone, Copy, Debug, PartialEq, Eq, Structural)]
pub struct Vec3 {
    pub x: u32,
    pub y: u32,
    pub z: u32,
}

impl Vec3 {
    /// Whether all three coordinates are finite.
    pub open spec fn finite(self) -> bool {
        f32_bits_finite(self.x) && f32_bits_finite(self.y) && f32_bits_finite(self.z)
    }

    /// Whether all three coordinates are finite.
    pub fn is_finite(self) -> (r: bool)
        ensures
            r == self.finite(),
    {
        is_finite_bits(self.x) && is_finite_bits(self.y) && is_finite_bits(self.z)
    }
}

/// A position on a map with a facing.
#[derive(Clone, Copy, Debug, PartialEq, Eq, Structural)]
pub struct WorldPosition {
    pub map: u32,
    pub point: Vec3,
    pub orientation: u32,
}

/// Whether an IEEE-754 single-precision bit pattern is a NaN.
pub open spec fn f32_bits_nan(bits: u32) -> bool {
    !f32_bits_finite(bits) && bits & 0x007F_FFFFu32 != 0
}

/// Equality of two single-precision numbers given by their bit patterns, as `==` on the
/// numbers: a NaN equals nothing, not even itself, and the two zeros are equal.
pub open spec fn f32_eq(a: u32, b: u32) -> bool {
    !f32_bits_nan(a) && !f32_bits_nan(b) && (a == b || (f32_bits_zero(a) && f32_bits_zero(b)))
}

/// Equality of two points, coordinate by coordinate as numbers.
pub open spec fn vec3_eq(a: Vec3, b: Vec3) -> bool {
    f32_eq(a.x, b.x) && f32_eq(a.y, b.y) && f32_eq(a.z, b.z)
}

/// Equality of two positions: the same map, and equal points and facings as numbers.
pub open spec fn position_eq(a: WorldPosition, b: WorldPosition) -> bool {
    a.map == b.map && vec3_eq(a.point, b.point) && f32_eq(a.orientation, b.orientation)
}

/// Equality of two optional positions.
pub open spec fn opt_position_eq(a: Option<WorldPosition>, b: Option<WorldPosition>) -> bool {
    match (a, b) {
        (Some(x), Some(y)) => position_eq(x, y),
        (None, None) => true,
        _ => false,
    }
}

/// Whether no number of a position is a NaN.
pub open spec fn position_has_no_nan(p: WorldPosition) -> bool {
    !f32_bits_nan(p.point.x) && !f32_bits_nan(p.point.y) && !f32_bits_nan(p.point.z) && !f32_bits_nan(p.orientation)
}

/// Equality of two single-precision numbers given by their bit patterns (see [`f32_eq`]).
pub fn f32_bits_eq(a: u32, b: u32) -> (r: bool)
    ensures
        r == f32_eq(a, b),
{
    let a_nan = !is_finite_bits(a) && a & 0x007F_FFFFu32 != 0;
    let b_nan = !is_finite_bits(b) && b & 0x007F_FFFFu32 != 0;
    !a_nan && !b_nan && (a == b || (a & 0x7FFF_FFFFu32 == 0 && b & 0x7FFF_FFFFu32 == 0))
}

/// Equality of two positions (see [`position_eq`]).
pub fn same_world_position(a: WorldPosition, b: WorldPosition) -> (r: bool)
    ensures
        r == position_eq(a, b),
{
    a.map == b.map && f32_bits_eq(a.point.x, b.point.x) && f32_bits_eq(a.point.y, b.point.y)
        && f32_bits_eq(a.point.z, b.point.z) && f32_bits_eq(a.orientation, b.orientation)
}

/// Equality of two optional positions (see [`opt_position_eq`]).
pub fn same_opt_position(a: Option<WorldPosition>, b: Option<WorldPosition>) -> (r: bool)
    ensures
        r == opt_position_eq(a, b),
{
    match (a, b) {
        (Some(x), Some(y)) => same_world_position(x, y),
        (None, None) => true,
        _ => false,
    }
}

/// A position equals itself where none of its numbers is a NaN.
pub proof fn lemma_position_eq_reflexive(p: WorldPosition)
    requires
        position_has_no_nan(p),
    ensures
        position_eq(p, p),
{
}

/// A gameplay action that the bot asks the proxy to send upstream.
#[derive(Clone, Debug, PartialEq, Eq)]
pub enum GameplayCommand {
    Raw { opcode: u32, body: Vec<u8> },
    QueryQuestGivers,
    QueryQuest { quest: u32 },
    Interact(EntityId),
    UseGameObject(EntityId),
    CastGameObject { spell: u32, target: EntityId, report_use: bool },
    UseItemInstance {
        item: u32,
        item_guid: EntityId,
        backpack_slot: u8,
        spell: u32,
        target: Option<EntityId>,
        cast_count: u8,
    },
    Attack(EntityId),
    Loot(EntityId),
    AcceptQuest { quest: u32, giver: EntityId },
    TurnInQuest { quest: u32, giver: EntityId },
    RequestQuestReward { quest: u32, giver: EntityId },
    ChooseQuestReward { quest: u32, giver: EntityId, reward: u32 },
    MaintainBuff { spell: u32, target: EntityId },
    Cast { spell: u32, target: Option<EntityId> },
    VehicleCast { spell: u32, target: Option<EntityId> },
    FaceDirection { orientation: u32 },
    ReleaseSpirit,
    QueryCorpse,
    ReclaimCorpse { player: EntityId },
    MoveTo(Vec3),
    StopMovement,
}

/// Whether a command moves or turns the character.
pub open spec fn is_locomotion(c: GameplayCommand) -> bool {
    c is MoveTo || c is FaceDirection || c is StopMovement
}

impl GameplayCommand {
    /// Whether the command moves or turns the character.
    pub fn locomotion(&self) -> (r: bool)
        ensures
            r == is_locomotion(*self),
    {
        match self {
            GameplayCommand::MoveTo(_) | GameplayCommand::FaceDirection { .. } | GameplayCommand::StopMovement => true,
            _ => false,
        }
    }
}

/// Revisions an action was planned against.
#[derive(Clone, Copy, Debug, PartialEq, Eq, Structural)]
pub struct ValidityStamp {
    pub state: StateRevision,
    pub mission: u64,
    pub permission: u64,
    pub worker: WorkerGeneration,
    pub ownership: OwnershipGeneration,
    pub movement: MovementEpoch,
}

/// A validated action ready for the transport gate.
#[derive(Clone, Debug)]
pub struct SendableAction {
    pub id: ActionId,
    pub stamp: ValidityStamp,
    pub command: GameplayCommand,
}

/// Group role requested for a party or raid mission.
#[derive(Clone, Copy, Debug, PartialEq, Eq, Structural)]
pub enum GroupRole {
    Tank,
    Healer,
    Melee,
    Ranged,
    Support,
}

/// What a mission asks the bot to do.
#[derive(Clone, Debug, PartialEq, Eq)]
pub enum MissionIntent {
    Quest,
    Gather { resource: String },
    Grind { target: String },
    Goal { goal: String },
    Party { role: GroupRole },
    Raid { role: GroupRole },
}

/// Permission to move.
pub const PERMISSION_MOVE: u32 = 1;
/// Permission to fight.
pub const PERMISSION_COMBAT: u32 = 2;
/// Permission to act in a group.
pub const PERMISSION_GROUP: u32 = 4;
/// Permission to loot.
pub const PERMISSION_LOOT: u32 = 8;
/// Permission to maintain buffs and supplies.
pub const PERMISSION_MAINTENANCE: u32 = 16;

/// A mission request. `permissions` is set where the request fixes them; `None` keeps the
/// defaults of the mission planner for the intent.
#[derive(Clone, Debug, PartialEq, Eq)]
pub struct Mission {
    pub id: MissionId,
    pub intent: MissionIntent,
    pub permissions: Option<u32>,
}

} // verus!
