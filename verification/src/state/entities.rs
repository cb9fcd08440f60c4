//! Entities seen in the world, and the player's pet.
use vstd::prelude::*;
use std::collections::BTreeMap;
use crate::domain::{f32_bits_eq, f32_bits_nan, f32_eq, opt_position_eq, position_has_no_nan, same_opt_position, WorldPosition};
use crate::ids::EntityId;

verus! {

broadcast use vstd::std_specs::btree::group_btree_axioms;

/// What kind of object an entity is.
#[derive(Clone, Copy, Debug, PartialEq, Eq, Structural)]
pub enum EntityKind {
    Unknown,
    Unit,
    Player,
    GameObject,
}

/// What is known of one entity. Power-cost multipliers are f32 bit patterns.
#[derive(Clone, Debug)]
pub struct EntityState {
    pub id: EntityId,
    pub entry: u32,
    pub kind: EntityKind,
    pub name: Option<String>,
    pub position: Option<WorldPosition>,
    pub health: Option<(u32, u32)>,
    pub power: Option<(u32, u32)>,
    pub power_type: Option<u8>,
    pub level: Option<u32>,
    pub base_health: Option<u32>,
    pub base_mana: Option<u32>,
    pub power_cost_modifiers: Option<Vec<i32>>,
    pub power_cost_multipliers: Option<Vec<u32>>,
    pub base_attack_time_ms: Option<Vec<u32>>,
    pub shapeshift_form: Option<u8>,
    pub aura_state: Option<u32>,
    pub target: Option<EntityId>,
    pub hostile: bool,
    pub interactable: bool,
}

/// An entity as a value: its name and lists as sequences.
pub struct EntityView {
    pub id: EntityId,
    pub entry: u32,
    pub kind: EntityKind,
    pub name: Option<Seq<char>>,
    pub position: Option<WorldPosition>,
    pub health: Option<(u32, u32)>,
    pub power: Option<(u32, u32)>,
    pub power_type: Option<u8>,
    pub level: Option<u32>,
    pub base_health: Option<u32>,
    pub base_mana: Option<u32>,
    pub power_cost_modifiers: Option<Seq<i32>>,
    pub power_cost_multipliers: Option<Seq<u32>>,
    pub base_attack_time_ms: Option<Seq<u32>>,
    pub shapeshift_form: Option<u8>,
    pub aura_state: Option<u32>,
    pub target: Option<EntityId>,
    pub hostile: bool,
    pub interactable: bool,
}

/// A string option as a sequence option.
pub open spec fn text_view(s: Option<String>) -> Option<Seq<char>> {
    match s {
        Some(t) => Some(t@),
        None => None,
    }
}

/// A list option as a sequence option.
pub open spec fn list_view<T>(v: Option<Vec<T>>) -> Option<Seq<T>> {
    match v {
        Some(x) => Some(x@),
        None => None,
    }
}

impl View for EntityState {
    type V = EntityView;

    open spec fn view(&self) -> EntityView {
        EntityView {
            id: self.id,
            entry: self.entry,
            kind: self.kind,
            name: text_view(self.name),
            position: self.position,
            health: self.health,
            power: self.power,
            power_type: self.power_type,
            level: self.level,
            base_health: self.base_health,
            base_mana: self.base_mana,
            power_cost_modifiers: list_view(self.power_cost_modifiers),
            power_cost_multipliers: list_view(self.power_cost_multipliers),
            base_attack_time_ms: list_view(self.base_attack_time_ms),
            shapeshift_form: self.shapeshift_form,
            aura_state: self.aura_state,
            target: self.target,
            hostile: self.hostile,
            interactable: self.interactable,
        }
    }
}

fn same_i32s(x: &Vec<i32>, y: &Vec<i32>) -> (r: bool)
    ensures
        r == (x@ == y@),
{
    if x.len() != y.len() {
        return false;
    }
    let mut i: usize = 0;
    while i < x.len()
        invariant
            i <= x@.len(),
            x@.len() == y@.len(),
            forall|j: int| 0 <= j < i ==> x@[j] == y@[j],
        decreases x@.len() - i,
    {
        if x[i] != y[i] {
            assert(x@[i as int] != y@[i as int]);
            return false;
        }
        i = i + 1;
    }
    assert(x@ =~= y@);
    true
}

/// Whether two lists hold the same values.
pub fn same_u32s(x: &Vec<u32>, y: &Vec<u32>) -> (r: bool)
    ensures
        r == (x@ == y@),
{
    if x.len() != y.len() {
        return false;
    }
    let mut i: usize = 0;
    while i < x.len()
        invariant
            i <= x@.len(),
            x@.len() == y@.len(),
            forall|j: int| 0 <= j < i ==> x@[j] == y@[j],
        decreases x@.len() - i,
    {
        if x[i] != y[i] {
            assert(x@[i as int] != y@[i as int]);
            return false;
        }
        i = i + 1;
    }
    assert(x@ =~= y@);
    true
}

fn same_i32_list(a: &Option<Vec<i32>>, b: &Option<Vec<i32>>) -> (r: bool)
    ensures
        r == (list_view(*a) == list_view(*b)),
{
    match (a, b) {
        (Some(x), Some(y)) => same_i32s(x, y),
        (None, None) => true,
        _ => false,
    }
}

fn same_u32_list(a: &Option<Vec<u32>>, b: &Option<Vec<u32>>) -> (r: bool)
    ensures
        r == (list_view(*a) == list_view(*b)),
{
    match (a, b) {
        (Some(x), Some(y)) => same_u32s(x, y),
        (None, None) => true,
        _ => false,
    }
}

/// Equality of two lists of single-precision numbers (bit patterns), element by element as
/// numbers.
pub open spec fn f32s_eq(x: Seq<u32>, y: Seq<u32>) -> bool {
    x.len() == y.len() && forall|i: int| 0 <= i < x.len() ==> f32_eq(#[trigger] x[i], y[i])
}

/// Equality of two optional lists of single-precision numbers.
pub open spec fn opt_f32s_eq(a: Option<Seq<u32>>, b: Option<Seq<u32>>) -> bool {
    match (a, b) {
        (Some(x), Some(y)) => f32s_eq(x, y),
        (None, None) => true,
        _ => false,
    }
}

fn same_f32s(x: &Vec<u32>, y: &Vec<u32>) -> (r: bool)
    ensures
        r == f32s_eq(x@, y@),
{
    if x.len() != y.len() {
        return false;
    }
    let mut i: usize = 0;
    while i < x.len()
        invariant
            i <= x@.len(),
            x@.len() == y@.len(),
            forall|j: int| 0 <= j < i ==> f32_eq(#[trigger] x@[j], y@[j]),
        decreases x@.len() - i,
    {
        if !f32_bits_eq(x[i], y[i]) {
            assert(!f32_eq(x@[i as int], y@[i as int]));
            return false;
        }
        i = i + 1;
    }
    true
}

fn same_f32_list(a: &Option<Vec<u32>>, b: &Option<Vec<u32>>) -> (r: bool)
    ensures
        r == opt_f32s_eq(list_view(*a), list_view(*b)),
{
    match (a, b) {
        (Some(x), Some(y)) => same_f32s(x, y),
        (None, None) => true,
        _ => false,
    }
}

/// Equality of two entities as `==` on them: numbers of a position and power-cost
/// multipliers compare as numbers, everything else by value.
pub open spec fn entity_eq(a: EntityView, b: EntityView) -> bool {
    &&& a.id == b.id && a.entry == b.entry && a.kind == b.kind && a.name == b.name
    &&& opt_position_eq(a.position, b.position)
    &&& a.health == b.health && a.power == b.power && a.power_type == b.power_type && a.level == b.level
    &&& a.base_health == b.base_health && a.base_mana == b.base_mana
    &&& a.power_cost_modifiers == b.power_cost_modifiers
    &&& opt_f32s_eq(a.power_cost_multipliers, b.power_cost_multipliers)
    &&& a.base_attack_time_ms == b.base_attack_time_ms
    &&& a.shapeshift_form == b.shapeshift_form && a.aura_state == b.aura_state && a.target == b.target
    &&& a.hostile == b.hostile && a.interactable == b.interactable
}

/// Whether no number of an entity is a NaN.
pub open spec fn entity_has_no_nan(e: EntityView) -> bool {
    &&& (e.position matches Some(p) ==> position_has_no_nan(p))
    &&& (e.power_cost_multipliers matches Some(m) ==> forall|i: int| 0 <= i < m.len() ==> !f32_bits_nan(#[trigger] m[i]))
}

/// An entity equals itself where none of its numbers is a NaN.
pub proof fn lemma_entity_eq_reflexive(e: EntityView)
    requires
        entity_has_no_nan(e),
    ensures
        entity_eq(e, e),
{
}

/// A copy of a list.
pub fn copy_u32s(v: &Vec<u32>) -> (r: Vec<u32>)
    ensures
        r@ == v@,
{
    let mut r: Vec<u32> = Vec::new();
    let mut i: usize = 0;
    while i < v.len()
        invariant
            i <= v@.len(),
            r@ == v@.subrange(0, i as int),
        decreases v@.len() - i,
    {
        r.push(v[i]);
        i = i + 1;
        assert(r@ =~= v@.subrange(0, i as int));
    }
    assert(r@ =~= v@);
    r
}

fn copy_i32s(v: &Vec<i32>) -> (r: Vec<i32>)
    ensures
        r@ == v@,
{
    let mut r: Vec<i32> = Vec::new();
    let mut i: usize = 0;
    while i < v.len()
        invariant
            i <= v@.len(),
            r@ == v@.subrange(0, i as int),
        decreases v@.len() - i,
    {
        r.push(v[i]);
        i = i + 1;
        assert(r@ =~= v@.subrange(0, i as int));
    }
    assert(r@ =~= v@);
    r
}

/// A copy of an entity.
pub fn copy_entity(e: &EntityState) -> (r: EntityState)
    ensures
        r@ == e@,
{
    EntityState {
        id: e.id,
        entry: e.entry,
        kind: e.kind,
        name: match &e.name {
            Some(n) => Some(n.clone()),
            None => None,
        },
        position: e.position,
        health: e.health,
        power: e.power,
        power_type: e.power_type,
        level: e.level,
        base_health: e.base_health,
        base_mana: e.base_mana,
        power_cost_modifiers: match &e.power_cost_modifiers {
            Some(v) => Some(copy_i32s(v)),
            None => None,
        },
        power_cost_multipliers: match &e.power_cost_multipliers {
            Some(v) => Some(copy_u32s(v)),
            None => None,
        },
        base_attack_time_ms: match &e.base_attack_time_ms {
            Some(v) => Some(copy_u32s(v)),
            None => None,
        },
        shapeshift_form: e.shapeshift_form,
        aura_state: e.aura_state,
        target: e.target,
        hostile: e.hostile,
        interactable: e.interactable,
    }
}

/// Whether two entities hold the same values (see [`entity_eq`]).
pub fn same_entity(a: &EntityState, b: &EntityState) -> (r: bool)
    ensures
        r == entity_eq(a@, b@),
{
    let names = match (&a.name, &b.name) {
        (Some(x), Some(y)) => *x == *y,
        (None, None) => true,
        _ => false,
    };
    let positions = same_opt_position(a.position, b.position);
    let health = match (a.health, b.health) {
        (Some(x), Some(y)) => x.0 == y.0 && x.1 == y.1,
        (None, None) => true,
        _ => false,
    };
    let power = match (a.power, b.power) {
        (Some(x), Some(y)) => x.0 == y.0 && x.1 == y.1,
        (None, None) => true,
        _ => false,
    };
    let power_type = match (a.power_type, b.power_type) {
        (Some(x), Some(y)) => x == y,
        (None, None) => true,
        _ => false,
    };
    let level = match (a.level, b.level) {
        (Some(x), Some(y)) => x == y,
        (None, None) => true,
        _ => false,
    };
    let base_health = match (a.base_health, b.base_health) {
        (Some(x), Some(y)) => x == y,
        (None, None) => true,
        _ => false,
    };
    let base_mana = match (a.base_mana, b.base_mana) {
        (Some(x), Some(y)) => x == y,
        (None, None) => true,
        _ => false,
    };
    let form = match (a.shapeshift_form, b.shapeshift_form) {
        (Some(x), Some(y)) => x == y,
        (None, None) => true,
        _ => false,
    };
    let aura_state = match (a.aura_state, b.aura_state) {
        (Some(x), Some(y)) => x == y,
        (None, None) => true,
        _ => false,
    };
    let target = match (a.target, b.target) {
        (Some(x), Some(y)) => x == y,
        (None, None) => true,
        _ => false,
    };
    let modifiers = same_i32_list(&a.power_cost_modifiers, &b.power_cost_modifiers);
    let multipliers = same_f32_list(&a.power_cost_multipliers, &b.power_cost_multipliers);
    let attack = same_u32_list(&a.base_attack_time_ms, &b.base_attack_time_ms);
    a.id == b.id && a.entry == b.entry && a.kind == b.kind && names && positions && health && power
        && power_type && level && base_health && base_mana && modifiers && multipliers && attack
        && form && aura_state && target && a.hostile == b.hostile && a.interactable == b.interactable
}

/// A placeholder for an entity known only by its GUID (a questgiver seen through a status
/// packet), which the player can interact with.
pub open spec fn placeholder_entity(id: EntityId) -> EntityState {
    EntityState {
        id,
        entry: 0,
        kind: EntityKind::Unknown,
        name: None,
        position: None,
        health: None,
        power: None,
        power_type: None,
        level: None,
        base_health: None,
        base_mana: None,
        power_cost_modifiers: None,
        power_cost_multipliers: None,
        base_attack_time_ms: None,
        shapeshift_form: None,
        aura_state: None,
        target: None,
        hostile: false,
        interactable: true,
    }
}

impl EntityState {
    /// An interactable placeholder for an entity known only by its GUID.
    pub fn placeholder(id: EntityId) -> (r: Self)
        ensures
            r == placeholder_entity(id),
    {
        EntityState {
            id,
            entry: 0,
            kind: EntityKind::Unknown,
            name: None,
            position: None,
            health: None,
            power: None,
            power_type: None,
            level: None,
            base_health: None,
            base_mana: None,
            power_cost_modifiers: None,
            power_cost_multipliers: None,
            base_attack_time_ms: None,
            shapeshift_form: None,
            aura_state: None,
            target: None,
            hostile: false,
            interactable: true,
        }
    }

    /// Whether the entity is known to be dead: its current health is known and zero.
    pub open spec fn dead(&self) -> bool {
        self.health matches Some((current, _)) && current == 0
    }

    /// Whether the entity is known to be dead.
    pub fn is_dead(&self) -> (r: bool)
        ensures
            r == self.dead(),
    {
        match self.health {
            Some((current, _)) => current == 0,
            None => false,
        }
    }
}

/// The entities in view, by GUID.
#[derive(Clone, Debug)]
pub struct Entities(pub BTreeMap<u64, EntityState>);

/// Server-confirmed state of the player's controllable pet.
#[derive(Clone, Copy, Debug, PartialEq, Eq, Structural)]
pub struct PetState {
    /// False until the server confirms pet presence or absence.
    pub control_known: bool,
    pub guid: Option<EntityId>,
}

/// Whether the player has a live pet: `None` until the server has confirmed pet presence or
/// absence; otherwise whether there is a pet that is not known to be dead.
pub open spec fn active_pet(pet: PetState, entities: Map<u64, EntityState>) -> Option<bool> {
    if !pet.control_known {
        None
    } else {
        match pet.guid {
            None => Some(false),
            Some(g) => Some(!(entities.contains_key(g.0) && entities[g.0].dead())),
        }
    }
}

impl PetState {
    /// Whether the player has a live pet; `None` where the server has not confirmed pet
    /// presence or absence.
    pub fn has_active_pet(&self, entities: &Entities) -> (r: Option<bool>)
        ensures
            r == active_pet(*self, entities.0@),
    {
        if !self.control_known {
            return None;
        }
        match self.guid {
            None => Some(false),
            Some(g) => match entities.0.get(&g.0) {
                Some(e) => Some(!e.is_dead()),
                None => Some(true),
            },
        }
    }
}

} // verus!
