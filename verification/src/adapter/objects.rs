//! World objects as the object-update processor keeps them, and their projection into
//! entity observations. Floating-point field values are carried as f32 bit patterns.
use vstd::prelude::*;
use crate::domain::{Vec3, WorldPosition};
use crate::ids::EntityId;
use crate::state::entities::{EntityKind, EntityState, EntityView, text_view};
use crate::state::observation::ProtocolObservation;

verus! {

/// Two 16-bit halves of a field.
#[derive(Clone, Copy, Debug, PartialEq, Eq, Structural)]
pub struct ShortPair {
    pub low: i16,
    pub high: i16,
}

/// The value of an update field.
#[derive(Debug)]
pub enum FieldValue {
    Integer(i32),
    IntegerArray(Vec<Option<i32>>),
    Long(u64),
    LongArray(Vec<Option<u64>>),
    Float(u32),
    FloatArray(Vec<Option<u32>>),
    Bytes(u32),
    BytesArray(Vec<Option<u32>>),
    TwoShorts(ShortPair),
    TwoShortsArray(Vec<Option<ShortPair>>),
    Custom(Vec<FieldValue>),
    CustomArray(Vec<Vec<Option<FieldValue>>>),
    /// A field without a value.
    Empty,
}

/// The type of a world object.
#[derive(Clone, Copy, Debug, PartialEq, Eq, Structural)]
pub enum ObjectTypeId {
    /// No type was sent.
    Unset,
    Object,
    Item,
    Container,
    Unit,
    Player,
    GameObject,
    DynamicObject,
    Corpse,
}

/// What the unit accessors of the object processor report (meaningful for units and
/// players only).
#[derive(Clone, Copy, Debug, PartialEq, Eq, Structural)]
pub struct UnitValues {
    pub health: Option<u32>,
    pub max_health: Option<u32>,
    pub power: Option<u32>,
    pub max_power: Option<u32>,
    pub power_type: Option<u8>,
    pub level: Option<u32>,
    pub npc_flags: Option<u32>,
}

/// A world object as far as the projection reads it.
#[derive(Debug)]
pub struct ObjectRecord {
    pub guid: u64,
    pub type_id: ObjectTypeId,
    pub entry: Option<u32>,
    pub position: Option<Vec3>,
    pub facing: Option<u32>,
    /// The name the name registry gives the object, where it gives one.
    pub name: Option<String>,
    pub unit: UnitValues,
    pub base_health: Option<FieldValue>,
    pub base_mana: Option<FieldValue>,
    pub power_cost_modifier: Option<FieldValue>,
    pub power_cost_multiplier: Option<FieldValue>,
    pub base_attack_time: Option<FieldValue>,
    pub bytes2: Option<FieldValue>,
    pub aura_state: Option<FieldValue>,
    pub target: Option<FieldValue>,
}

/// Whether an object type has unit fields.
pub open spec fn has_unit_fields(t: ObjectTypeId) -> bool {
    t == ObjectTypeId::Unit || t == ObjectTypeId::Player
}

/// Whether every slot of an array is present and the array has `n` slots.
pub open spec fn all_present<T>(values: Seq<Option<T>>, n: nat) -> bool {
    values.len() == n && forall|i: int| 0 <= i < values.len() ==> (#[trigger] values[i]) is Some
}

/// The present values of an array.
pub open spec fn present_values<T>(values: Seq<Option<T>>) -> Seq<T> {
    values.map_values(|v: Option<T>| v->0)
}

/// The values of an array of exactly `n` slots, all present; `None` otherwise.
pub fn complete_array<T: Copy>(values: &[Option<T>], n: usize) -> (r: Option<Vec<T>>)
    ensures
        all_present(values@, n as nat) <==> r is Some,
        r matches Some(v) ==> v@ == present_values(values@),
{
    if values.len() != n {
        return None;
    }
    let mut out: Vec<T> = Vec::new();
    let mut i: usize = 0;
    while i < values.len()
        invariant
            i <= values@.len(),
            forall|j: int| 0 <= j < i ==> (#[trigger] values@[j]) is Some,
            out@ == present_values(values@.subrange(0, i as int)),
        decreases values@.len() - i,
    {
        match values[i] {
            Some(v) => {
                out.push(v);
                assert(out@ =~= present_values(values@.subrange(0, i + 1)));
            },
            None => {
                return None;
            },
        }
        i = i + 1;
    }
    assert(values@.subrange(0, values@.len() as int) =~= values@);
    Some(out)
}

/// The values of an array of exactly `n` slots, all present and none negative, as unsigned
/// values; `None` otherwise.
pub fn complete_unsigned_array(values: &[Option<i32>], n: usize) -> (r: Option<Vec<u32>>)
    ensures
        (all_present(values@, n as nat) && forall|i: int| 0 <= i < values@.len() ==> (#[trigger] values@[i])->0 >= 0)
            <==> r is Some,
        r matches Some(v) ==> v@ == present_values(values@).map_values(|x: i32| x as u32),
{
    if values.len() != n {
        return None;
    }
    let mut out: Vec<u32> = Vec::new();
    let mut i: usize = 0;
    while i < values.len()
        invariant
            i <= values@.len(),
            forall|j: int| 0 <= j < i ==> (#[trigger] values@[j]) is Some && values@[j]->0 >= 0,
            out@ == present_values(values@.subrange(0, i as int)).map_values(|x: i32| x as u32),
        decreases values@.len() - i,
    {
        match values[i] {
            Some(v) => {
                if v < 0 {
                    return None;
                }
                out.push(v as u32);
                assert(out@ =~= present_values(values@.subrange(0, i + 1)).map_values(|x: i32| x as u32));
            },
            None => {
                return None;
            },
        }
        i = i + 1;
    }
    assert(values@.subrange(0, values@.len() as int) =~= values@);
    Some(out)
}

/// The first `n` slots of an array with absent or missing slots read as the default.
pub open spec fn padded<T>(values: Seq<Option<T>>, n: nat, default: T) -> Seq<T> {
    Seq::new(n, |i: int| if i < values.len() && values[i] is Some { values[i]->0 } else { default })
}

fn padded_array<T: Copy>(values: &[Option<T>], n: usize, default: T) -> (r: Vec<T>)
    ensures
        r@ == padded(values@, n as nat, default),
{
    let mut out: Vec<T> = Vec::new();
    let mut i: usize = 0;
    while i < n
        invariant
            i <= n,
            out@ == padded(values@, i as nat, default),
        decreases n - i,
    {
        let v = if i < values.len() {
            match values[i] {
                Some(x) => x,
                None => default,
            }
        } else {
            default
        };
        out.push(v);
        assert(out@ =~= padded(values@, (i + 1) as nat, default));
        i = i + 1;
    }
    out
}

/// An integer field's value where it is not negative, as unsigned.
pub open spec fn unsigned_of(f: Option<FieldValue>) -> Option<u32> {
    match f {
        Some(FieldValue::Integer(v)) => if v >= 0 { Some(v as u32) } else { None },
        _ => None,
    }
}

fn unsigned_field(f: &Option<FieldValue>) -> (r: Option<u32>)
    ensures
        r == unsigned_of(*f),
{
    match f {
        Some(FieldValue::Integer(v)) => if *v >= 0 { Some(*v as u32) } else { None },
        _ => None,
    }
}

/// The entity kind of an object type.
pub open spec fn kind_of(t: ObjectTypeId) -> EntityKind {
    match t {
        ObjectTypeId::GameObject => EntityKind::GameObject,
        ObjectTypeId::Unit => EntityKind::Unit,
        ObjectTypeId::Player => EntityKind::Player,
        _ => EntityKind::Unknown,
    }
}

/// The shapeshift form: the top byte of the second bytes field; a player without that
/// field is in no form (0); a unit without it has an unknown form.
pub open spec fn shapeshift_of(t: ObjectTypeId, bytes2: Option<FieldValue>) -> Option<u8> {
    match bytes2 {
        Some(FieldValue::Bytes(v)) => Some((v >> 24u32) as u8),
        None => if t == ObjectTypeId::Player { Some(0) } else { None },
        _ => None,
    }
}

/// The unit's target: a nonzero GUID in the target field.
pub open spec fn target_of(f: Option<FieldValue>) -> Option<EntityId> {
    match f {
        Some(FieldValue::Long(v)) => if v != 0 { Some(EntityId(v)) } else { None },
        _ => None,
    }
}

/// A (current, maximum) pair where both are known.
pub open spec fn zip_of(a: Option<u32>, b: Option<u32>) -> Option<(u32, u32)> {
    match (a, b) {
        (Some(x), Some(y)) => Some((x, y)),
        _ => None,
    }
}

/// Whether the power-cost arrays of an entity are what its object gives: for a player, the
/// seven slots with unset slots as zero; for others, the seven slots where all are set.
pub open spec fn power_costs_match(o: ObjectRecord, e: EntityState) -> bool {
    if o.type_id == ObjectTypeId::Player {
        &&& e.power_cost_modifiers matches Some(v) && v@ == padded(match o.power_cost_modifier {
            Some(FieldValue::IntegerArray(a)) => a@,
            _ => Seq::empty(),
        }, 7, 0i32)
        &&& e.power_cost_multipliers matches Some(v) && v@ == padded(match o.power_cost_multiplier {
            Some(FieldValue::FloatArray(a)) => a@,
            _ => Seq::empty(),
        }, 7, 0u32)
    } else {
        &&& match o.power_cost_modifier {
            Some(FieldValue::IntegerArray(a)) => if all_present(a@, 7) {
                e.power_cost_modifiers matches Some(v) && v@ == present_values(a@)
            } else {
                e.power_cost_modifiers is None
            },
            _ => e.power_cost_modifiers is None,
        }
        &&& match o.power_cost_multiplier {
            Some(FieldValue::FloatArray(a)) => if all_present(a@, 7) {
                e.power_cost_multipliers matches Some(v) && v@ == present_values(a@)
            } else {
                e.power_cost_multipliers is None
            },
            _ => e.power_cost_multipliers is None,
        }
    }
}

/// Whether the base attack times of an entity are what its object gives: both slots set
/// and not negative.
pub open spec fn attack_times_match(o: ObjectRecord, e: EntityState) -> bool {
    match o.base_attack_time {
        Some(FieldValue::IntegerArray(a)) =>
            if all_present(a@, 2) && forall|i: int| 0 <= i < a@.len() ==> (#[trigger] a@[i])->0 >= 0 {
                e.base_attack_time_ms matches Some(v) && v@ == present_values(a@).map_values(|x: i32| x as u32)
            } else {
                e.base_attack_time_ms is None
            },
        _ => e.base_attack_time_ms is None,
    }
}

/// Whether an entity is the projection of an object on map `map_id`.
pub open spec fn projects_to(o: ObjectRecord, map_id: u32, e: EntityState) -> bool {
    let unit = has_unit_fields(o.type_id);
    &&& e.id == EntityId(o.guid)
    &&& e.entry == (match o.entry { Some(x) => x, None => 0 })
    &&& e.kind == kind_of(o.type_id)
    &&& e.name == o.name
    &&& e.position == (match o.position {
        Some(p) => Some(WorldPosition { map: map_id, point: p, orientation: match o.facing { Some(f) => f, None => 0 } }),
        None => None,
    })
    &&& e.health == (if unit { zip_of(o.unit.health, o.unit.max_health) } else { None })
    &&& e.power == (if unit { zip_of(o.unit.power, o.unit.max_power) } else { None })
    &&& e.power_type == (if unit { o.unit.power_type } else { None })
    &&& e.level == (if unit { o.unit.level } else { None })
    &&& e.base_health == unsigned_of(o.base_health)
    &&& e.base_mana == unsigned_of(o.base_mana)
    &&& power_costs_match(o, e)
    &&& attack_times_match(o, e)
    &&& e.shapeshift_form == shapeshift_of(o.type_id, o.bytes2)
    &&& e.aura_state == unsigned_of(o.aura_state)
    &&& e.target == target_of(o.target)
    &&& !e.hostile
    &&& e.interactable == (if o.type_id == ObjectTypeId::GameObject {
        true
    } else if unit {
        (match o.unit.npc_flags { Some(f) => f, None => 0 }) != 0
    } else {
        false
    })
}

/// The power-cost modifiers an object gives: for a player, the seven slots with unset slots
/// as zero; for others, the seven slots where all are set.
pub open spec fn modifiers_of(o: ObjectRecord) -> Option<Seq<i32>> {
    if o.type_id == ObjectTypeId::Player {
        Some(padded(match o.power_cost_modifier {
            Some(FieldValue::IntegerArray(a)) => a@,
            _ => Seq::empty(),
        }, 7, 0i32))
    } else {
        match o.power_cost_modifier {
            Some(FieldValue::IntegerArray(a)) => if all_present(a@, 7) { Some(present_values(a@)) } else { None },
            _ => None,
        }
    }
}

/// The power-cost multipliers (bit patterns) an object gives, as for the modifiers.
pub open spec fn multipliers_of(o: ObjectRecord) -> Option<Seq<u32>> {
    if o.type_id == ObjectTypeId::Player {
        Some(padded(match o.power_cost_multiplier {
            Some(FieldValue::FloatArray(a)) => a@,
            _ => Seq::empty(),
        }, 7, 0u32))
    } else {
        match o.power_cost_multiplier {
            Some(FieldValue::FloatArray(a)) => if all_present(a@, 7) { Some(present_values(a@)) } else { None },
            _ => None,
        }
    }
}

/// The base attack times an object gives: both slots set and not negative.
pub open spec fn attack_times_of(o: ObjectRecord) -> Option<Seq<u32>> {
    match o.base_attack_time {
        Some(FieldValue::IntegerArray(a)) =>
            if all_present(a@, 2) && forall|i: int| 0 <= i < a@.len() ==> (#[trigger] a@[i])->0 >= 0 {
                Some(present_values(a@).map_values(|x: i32| x as u32))
            } else {
                None
            },
        _ => None,
    }
}

/// The position of an object on map `map_id`.
pub open spec fn position_of(o: ObjectRecord, map_id: u32) -> Option<WorldPosition> {
    match o.position {
        Some(p) => Some(WorldPosition { map: map_id, point: p, orientation: match o.facing { Some(f) => f, None => 0 } }),
        None => None,
    }
}

/// The entity an object projects to on map `map_id`, as a value.
pub open spec fn projected(o: ObjectRecord, map_id: u32) -> EntityView {
    let unit = has_unit_fields(o.type_id);
    EntityView {
        id: EntityId(o.guid),
        entry: match o.entry { Some(x) => x, None => 0 },
        kind: kind_of(o.type_id),
        name: text_view(o.name),
        position: position_of(o, map_id),
        health: if unit { zip_of(o.unit.health, o.unit.max_health) } else { None },
        power: if unit { zip_of(o.unit.power, o.unit.max_power) } else { None },
        power_type: if unit { o.unit.power_type } else { None },
        level: if unit { o.unit.level } else { None },
        base_health: unsigned_of(o.base_health),
        base_mana: unsigned_of(o.base_mana),
        power_cost_modifiers: modifiers_of(o),
        power_cost_multipliers: multipliers_of(o),
        base_attack_time_ms: attack_times_of(o),
        shapeshift_form: shapeshift_of(o.type_id, o.bytes2),
        aura_state: unsigned_of(o.aura_state),
        target: target_of(o.target),
        hostile: false,
        interactable: if o.type_id == ObjectTypeId::GameObject {
            true
        } else if unit {
            (match o.unit.npc_flags { Some(f) => f, None => 0 }) != 0
        } else {
            false
        },
    }
}

fn power_cost_modifiers(o: &ObjectRecord) -> (r: Option<Vec<i32>>)
    ensures
        if o.type_id == ObjectTypeId::Player {
            r matches Some(v) && v@ == padded(match o.power_cost_modifier {
                Some(FieldValue::IntegerArray(a)) => a@,
                _ => Seq::empty(),
            }, 7, 0i32)
        } else {
            match o.power_cost_modifier {
                Some(FieldValue::IntegerArray(a)) => if all_present(a@, 7) {
                    r matches Some(v) && v@ == present_values(a@)
                } else {
                    r is None
                },
                _ => r is None,
            }
        },
{
    let player = matches!(o.type_id, ObjectTypeId::Player);
    match &o.power_cost_modifier {
        Some(FieldValue::IntegerArray(a)) => if player {
            Some(padded_array(a.as_slice(), 7, 0i32))
        } else {
            complete_array(a.as_slice(), 7)
        },
        _ => if player {
            let empty: Vec<Option<i32>> = Vec::new();
            Some(padded_array(empty.as_slice(), 7, 0i32))
        } else {
            None
        },
    }
}

fn power_cost_multipliers(o: &ObjectRecord) -> (r: Option<Vec<u32>>)
    ensures
        if o.type_id == ObjectTypeId::Player {
            r matches Some(v) && v@ == padded(match o.power_cost_multiplier {
                Some(FieldValue::FloatArray(a)) => a@,
                _ => Seq::empty(),
            }, 7, 0u32)
        } else {
            match o.power_cost_multiplier {
                Some(FieldValue::FloatArray(a)) => if all_present(a@, 7) {
                    r matches Some(v) && v@ == present_values(a@)
                } else {
                    r is None
                },
                _ => r is None,
            }
        },
{
    let player = matches!(o.type_id, ObjectTypeId::Player);
    match &o.power_cost_multiplier {
        Some(FieldValue::FloatArray(a)) => if player {
            Some(padded_array(a.as_slice(), 7, 0u32))
        } else {
            complete_array(a.as_slice(), 7)
        },
        _ => if player {
            let empty: Vec<Option<u32>> = Vec::new();
            Some(padded_array(empty.as_slice(), 7, 0u32))
        } else {
            None
        },
    }
}

/// Project a world object into an entity on map `map_id`.
pub fn object_to_entity(object: &ObjectRecord, map_id: u32) -> (r: EntityState)
    ensures
        projects_to(*object, map_id, r),
        r@ == projected(*object, map_id),
{
    let unit = matches!(object.type_id, ObjectTypeId::Unit) || matches!(object.type_id, ObjectTypeId::Player);
    let position = match object.position {
        Some(p) => Some(WorldPosition {
            map: map_id,
            point: p,
            orientation: match object.facing {
                Some(f) => f,
                None => 0,
            },
        }),
        None => None,
    };
    let health = if unit {
        match (object.unit.health, object.unit.max_health) {
            (Some(a), Some(b)) => Some((a, b)),
            _ => None,
        }
    } else {
        None
    };
    let power = if unit {
        match (object.unit.power, object.unit.max_power) {
            (Some(a), Some(b)) => Some((a, b)),
            _ => None,
        }
    } else {
        None
    };
    let modifiers = power_cost_modifiers(object);
    let multipliers = power_cost_multipliers(object);
    let attack_times = match &object.base_attack_time {
        Some(FieldValue::IntegerArray(a)) => complete_unsigned_array(a.as_slice(), 2),
        _ => None,
    };
    let shapeshift_form = match &object.bytes2 {
        Some(FieldValue::Bytes(v)) => Some((*v >> 24u32) as u8),
        None => if matches!(object.type_id, ObjectTypeId::Player) { Some(0u8) } else { None },
        _ => None,
    };
    let target = match &object.target {
        Some(FieldValue::Long(v)) => if *v != 0 { Some(EntityId(*v)) } else { None },
        _ => None,
    };
    let interactable = if matches!(object.type_id, ObjectTypeId::GameObject) {
        true
    } else if unit {
        match object.unit.npc_flags {
            Some(f) => f != 0,
            None => false,
        }
    } else {
        false
    };
    let kind = match object.type_id {
        ObjectTypeId::GameObject => EntityKind::GameObject,
        ObjectTypeId::Unit => EntityKind::Unit,
        ObjectTypeId::Player => EntityKind::Player,
        _ => EntityKind::Unknown,
    };
    let base_health = unsigned_field(&object.base_health);
    let base_mana = unsigned_field(&object.base_mana);
    let aura_state = unsigned_field(&object.aura_state);
    EntityState {
        id: EntityId(object.guid),
        entry: match object.entry {
            Some(e) => e,
            None => 0,
        },
        kind,
        name: match &object.name {
            Some(n) => Some(n.clone()),
            None => None,
        },
        position,
        health,
        power,
        power_type: if unit { object.unit.power_type } else { None },
        level: if unit { object.unit.level } else { None },
        base_health,
        base_mana,
        power_cost_modifiers: modifiers,
        power_cost_multipliers: multipliers,
        base_attack_time_ms: attack_times,
        shapeshift_form,
        aura_state,
        target,
        hostile: false,
        interactable,
    }
}

/// The upsert observation of a world object on map `map_id`.
pub fn upsert_object(object: &ObjectRecord, map_id: u32) -> (r: ProtocolObservation)
    ensures
        r matches ProtocolObservation::EntityUpsert { entity } && projects_to(*object, map_id, entity),
{
    ProtocolObservation::EntityUpsert { entity: object_to_entity(object, map_id) }
}

} // verus!
