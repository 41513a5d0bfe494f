//! The weapon model: a variant-tagged record with optional attributes, built
//! through constructors and fluent configuration methods.

use crate::entities::{Attribute, AttributeKind, EntityRecords, InsertIfSome, SpawnQueue};
use vstd::prelude::*;

verus! {

/// The identity of a weapon, fixed when the weapon is constructed.
#[derive(Debug, Clone, Copy, PartialEq, Eq, Structural)]
pub struct WeaponId {
    pub id: u32,
}

/// The level required to wield a weapon.
#[derive(Debug, Clone, Copy, PartialEq, Eq, Structural)]
pub struct Level(pub u32);

/// The magic level required to wield a weapon.
#[derive(Debug, Clone, Copy, PartialEq, Eq, Structural)]
pub struct MagicLevel(pub u32);

/// The mana a weapon consumes.
#[derive(Debug, Clone, Copy, PartialEq, Eq, Structural)]
pub struct Mana(pub u32);

/// The damage a wand deals. Nothing orders `min` and `max`.
#[derive(Debug, Clone, Copy, PartialEq, Eq, Structural)]
pub struct WandDamageRange {
    pub min: u32,
    pub max: u32,
}

/// The chance that a distance weapon breaks.
#[derive(Debug, Clone, Copy, PartialEq, Eq, Structural)]
pub struct DistanceBreakChance(pub u32);

/// Marks a weapon as a wand.
#[derive(Debug, Clone, Copy, PartialEq, Eq, Structural)]
pub struct WandWeapon;

/// Marks a weapon as a melee weapon.
#[derive(Debug, Clone, Copy, PartialEq, Eq, Structural)]
pub struct MeleeWeapon;

/// Marks a weapon as a distance weapon.
#[derive(Debug, Clone, Copy, PartialEq, Eq, Structural)]
pub struct DistanceWeapon;

impl Default for WeaponId {
    fn default() -> (zero: WeaponId)
        ensures
            zero == (WeaponId { id: 0 }),
    {
        WeaponId { id: 0 }
    }
}

impl Default for Level {
    fn default() -> (zero: Level)
        ensures
            zero == Level(0),
    {
        Level(0)
    }
}

impl Default for MagicLevel {
    fn default() -> (zero: MagicLevel)
        ensures
            zero == MagicLevel(0),
    {
        MagicLevel(0)
    }
}

impl Default for Mana {
    fn default() -> (zero: Mana)
        ensures
            zero == Mana(0),
    {
        Mana(0)
    }
}

impl Default for WandDamageRange {
    fn default() -> (zero: WandDamageRange)
        ensures
            zero == (WandDamageRange { min: 0, max: 0 }),
    {
        WandDamageRange { min: 0, max: 0 }
    }
}

impl Default for DistanceBreakChance {
    fn default() -> (zero: DistanceBreakChance)
        ensures
            zero == DistanceBreakChance(0),
    {
        DistanceBreakChance(0)
    }
}

/// The three mutually exclusive variants of a weapon.
#[derive(Debug, Clone, Copy, PartialEq, Eq, Structural)]
pub enum WeaponKind {
    Wand,
    Melee,
    Distance,
}

/// What a weapon is: its identity, its variant, and the optional attributes
/// that have been set on it.
pub struct WeaponView {
    pub id: u32,
    pub kind: WeaponKind,
    pub level: Option<Level>,
    pub magic_level: Option<MagicLevel>,
    pub mana: Option<Mana>,
    pub damage_range: Option<WandDamageRange>,
    pub break_chance: Option<DistanceBreakChance>,
}

impl WeaponView {
    /// A weapon of the given variant on which no optional attribute is set.
    pub open spec fn fresh(kind: WeaponKind, id: u32) -> WeaponView {
        WeaponView {
            id,
            kind,
            level: None,
            magic_level: None,
            mana: None,
            damage_range: None,
            break_chance: None,
        }
    }

    /// Whether the entity made from this weapon carries a record of `kind`:
    /// its identity always, the marker of its own variant, and each optional
    /// attribute that has been set.
    pub open spec fn has(self, kind: AttributeKind) -> bool {
        match kind {
            AttributeKind::Id => true,
            AttributeKind::Wand => self.kind == WeaponKind::Wand,
            AttributeKind::Distance => self.kind == WeaponKind::Distance,
            AttributeKind::Melee => self.kind == WeaponKind::Melee,
            AttributeKind::Level => self.level is Some,
            AttributeKind::MagicLevel => self.magic_level is Some,
            AttributeKind::Mana => self.mana is Some,
            AttributeKind::DamageRange => self.damage_range is Some,
            AttributeKind::BreakChance => self.break_chance is Some,
        }
    }

    /// The record of `kind` that the entity made from this weapon carries,
    /// where it carries one.
    pub open spec fn attribute(self, kind: AttributeKind) -> Attribute {
        match kind {
            AttributeKind::Id => Attribute::Id(WeaponId { id: self.id }),
            AttributeKind::Wand => Attribute::Wand(WandWeapon),
            AttributeKind::Distance => Attribute::Distance(DistanceWeapon),
            AttributeKind::Melee => Attribute::Melee(MeleeWeapon),
            AttributeKind::Level => Attribute::Level(self.level->Some_0),
            AttributeKind::MagicLevel => Attribute::MagicLevel(self.magic_level->Some_0),
            AttributeKind::Mana => Attribute::Mana(self.mana->Some_0),
            AttributeKind::DamageRange => Attribute::DamageRange(self.damage_range->Some_0),
            AttributeKind::BreakChance => Attribute::BreakChance(self.break_chance->Some_0),
        }
    }

    /// This weapon with its level set and everything else as it was.
    pub open spec fn with_level(self, value: u32) -> WeaponView {
        WeaponView { level: Some(Level(value)), ..self }
    }

    /// This weapon with its magic level set and everything else as it was.
    pub open spec fn with_magic_level(self, value: u32) -> WeaponView {
        WeaponView { magic_level: Some(MagicLevel(value)), ..self }
    }

    /// This weapon with its mana set and everything else as it was.
    pub open spec fn with_mana(self, value: u32) -> WeaponView {
        WeaponView { mana: Some(Mana(value)), ..self }
    }

    /// This weapon with its damage range set and everything else as it was.
    pub open spec fn with_damage_range(self, min: u32, max: u32) -> WeaponView {
        WeaponView { damage_range: Some(WandDamageRange { min, max }), ..self }
    }

    /// This weapon with its break chance set and everything else as it was.
    pub open spec fn with_break_chance(self, value: u32) -> WeaponView {
        WeaponView { break_chance: Some(DistanceBreakChance(value)), ..self }
    }
}

/// The records attached to the entity that a weapon becomes.
pub open spec fn attributes_of(weapon: WeaponView) -> Map<AttributeKind, Attribute> {
    Map::new(|kind: AttributeKind| weapon.has(kind), |kind: AttributeKind| weapon.attribute(kind))
}

/// The records that materializing a weapon attaches, in the order in which it
/// attaches them: the identity, the variant marker, then each optional
/// attribute that is set.
pub open spec fn records_of(weapon: WeaponView) -> Seq<Attribute> {
    seq![Attribute::Id(WeaponId { id: weapon.id })] + (if weapon.kind == WeaponKind::Wand {
        seq![Attribute::Wand(WandWeapon)]
    } else {
        seq![]
    }) + (if weapon.kind == WeaponKind::Distance {
        seq![Attribute::Distance(DistanceWeapon)]
    } else {
        seq![]
    }) + (if weapon.kind == WeaponKind::Melee {
        seq![Attribute::Melee(MeleeWeapon)]
    } else {
        seq![]
    }) + (match weapon.level {
        Some(level) => seq![Attribute::Level(level)],
        None => seq![],
    }) + (match weapon.magic_level {
        Some(magic_level) => seq![Attribute::MagicLevel(magic_level)],
        None => seq![],
    }) + (match weapon.mana {
        Some(mana) => seq![Attribute::Mana(mana)],
        None => seq![],
    }) + (match weapon.damage_range {
        Some(damage_range) => seq![Attribute::DamageRange(damage_range)],
        None => seq![],
    }) + (match weapon.break_chance {
        Some(break_chance) => seq![Attribute::BreakChance(break_chance)],
        None => seq![],
    })
}

/// How many variant markers are among the attached records.
pub open spec fn marker_count(attributes: Map<AttributeKind, Attribute>) -> nat {
    let wand: nat = if attributes.contains_key(AttributeKind::Wand) {
        1
    } else {
        0
    };
    let melee: nat = if attributes.contains_key(AttributeKind::Melee) {
        1
    } else {
        0
    };
    let distance: nat = if attributes.contains_key(AttributeKind::Distance) {
        1
    } else {
        0
    };
    wand + melee + distance
}

/// A weapon under construction. Exactly one of the three variant markers is
/// set; every other attribute may or may not be present.
pub struct Weapon {
    id: u32,
    wand: Option<WandWeapon>,
    distance: Option<DistanceWeapon>,
    melee: Option<MeleeWeapon>,
    level: Option<Level>,
    magic_level: Option<MagicLevel>,
    mana: Option<Mana>,
    damage_range: Option<WandDamageRange>,
    break_chance: Option<DistanceBreakChance>,
}

impl View for Weapon {
    type V = WeaponView;

    closed spec fn view(&self) -> WeaponView {
        WeaponView {
            id: self.id,
            kind: if self.wand is Some {
                WeaponKind::Wand
            } else if self.melee is Some {
                WeaponKind::Melee
            } else {
                WeaponKind::Distance
            },
            level: self.level,
            magic_level: self.magic_level,
            mana: self.mana,
            damage_range: self.damage_range,
            break_chance: self.break_chance,
        }
    }
}

impl Weapon {
    /// Precisely one variant marker is set.
    #[verifier::type_invariant]
    spec fn one_marker(self) -> bool {
        ||| self.wand is Some && self.distance is None && self.melee is None
        ||| self.wand is None && self.distance is Some && self.melee is None
        ||| self.wand is None && self.distance is None && self.melee is Some
    }

    /// A wand with the given identity and no optional attribute.
    pub fn new_wand(id: u32) -> (weapon: Weapon)
        ensures
            weapon@ == WeaponView::fresh(WeaponKind::Wand, id),
    {
        Weapon {
            id,
            wand: Some(WandWeapon),
            distance: None,
            melee: None,
            level: None,
            magic_level: None,
            mana: None,
            damage_range: None,
            break_chance: None,
        }
    }

    /// A distance weapon with the given identity and no optional attribute.
    pub fn new_distance(id: u32) -> (weapon: Weapon)
        ensures
            weapon@ == WeaponView::fresh(WeaponKind::Distance, id),
    {
        Weapon {
            id,
            wand: None,
            distance: Some(DistanceWeapon),
            melee: None,
            level: None,
            magic_level: None,
            mana: None,
            damage_range: None,
            break_chance: None,
        }
    }

    /// A melee weapon with the given identity and no optional attribute.
    pub fn new_melee(id: u32) -> (weapon: Weapon)
        ensures
            weapon@ == WeaponView::fresh(WeaponKind::Melee, id),
    {
        Weapon {
            id,
            wand: None,
            distance: None,
            melee: Some(MeleeWeapon),
            level: None,
            magic_level: None,
            mana: None,
            damage_range: None,
            break_chance: None,
        }
    }

    /// Sets the level and leaves everything else as it was.
    pub fn level(self, value: u32) -> (weapon: Weapon)
        ensures
            weapon@ == self@.with_level(value),
    {
        proof {
            use_type_invariant(&self);
        }
        let mut weapon = self;
        weapon.level = Some(Level(value));
        weapon
    }

    /// Sets the magic level and leaves everything else as it was.
    pub fn magic_level(self, value: u32) -> (weapon: Weapon)
        ensures
            weapon@ == self@.with_magic_level(value),
    {
        proof {
            use_type_invariant(&self);
        }
        let mut weapon = self;
        weapon.magic_level = Some(MagicLevel(value));
        weapon
    }

    /// Sets the mana and leaves everything else as it was.
    pub fn mana(self, value: u32) -> (weapon: Weapon)
        ensures
            weapon@ == self@.with_mana(value),
    {
        proof {
            use_type_invariant(&self);
        }
        let mut weapon = self;
        weapon.mana = Some(Mana(value));
        weapon
    }

    /// Sets the damage range and leaves everything else as it was. Any pair
    /// of bounds is accepted, whatever their order.
    pub fn damage_range(self, value_min: u32, value_max: u32) -> (weapon: Weapon)
        ensures
            weapon@ == self@.with_damage_range(value_min, value_max),
    {
        proof {
            use_type_invariant(&self);
        }
        let mut weapon = self;
        weapon.damage_range = Some(WandDamageRange { min: value_min, max: value_max });
        weapon
    }

    /// Sets the break chance and leaves everything else as it was.
    pub fn break_chance(self, value: u32) -> (weapon: Weapon)
        ensures
            weapon@ == self@.with_break_chance(value),
    {
        proof {
            use_type_invariant(&self);
        }
        let mut weapon = self;
        weapon.break_chance = Some(DistanceBreakChance(value));
        weapon
    }
}

/// Spawning weapons as entities.
pub trait WeaponCommand {
    /// The records of the entities spawned so far, oldest first.
    spec fn spawned(&self) -> Seq<Seq<Attribute>>;

    /// Spawns one entity for `weapon`. The entity carries the weapon's
    /// identity, the marker of its variant and one record for each optional
    /// attribute that is set on the weapon, and no other record.
    fn spawn_weapon(&mut self, weapon: Weapon)
        ensures
            final(self).spawned() == old(self).spawned().push(records_of(weapon@)),
    ;
}

impl WeaponCommand for SpawnQueue {
    open spec fn spawned(&self) -> Seq<Seq<Attribute>> {
        self@
    }

    fn spawn_weapon(&mut self, weapon: Weapon) {
        proof {
            use_type_invariant(&weapon);
        }
        let entity = EntityRecords::new().insert(WeaponId { id: weapon.id }).insert_if_some(
            weapon.wand,
        ).insert_if_some(weapon.distance).insert_if_some(weapon.melee).insert_if_some(
            weapon.level,
        ).insert_if_some(weapon.magic_level).insert_if_some(weapon.mana).insert_if_some(
            weapon.damage_range,
        ).insert_if_some(weapon.break_chance);
        assert(entity@ =~= records_of(weapon@));
        self.spawn(entity);
    }
}

} // verus!
