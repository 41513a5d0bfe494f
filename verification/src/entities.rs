//! Entities as the materialization step leaves them: for each entity the
//! attribute records attached to it, at most one of each kind.

use crate::weapons::{
    DistanceBreakChance, DistanceWeapon, Level, MagicLevel, Mana, MeleeWeapon, WandDamageRange,
    WandWeapon, WeaponId,
};
use vstd::prelude::*;

verus! {

/// The kinds of attribute record. An entity holds at most one record of a
/// kind.
#[derive(Debug, Clone, Copy, PartialEq, Eq, Structural)]
pub enum AttributeKind {
    Id,
    Wand,
    Distance,
    Melee,
    Level,
    MagicLevel,
    Mana,
    DamageRange,
    BreakChance,
}

/// One attribute record, ready to be attached to an entity.
#[derive(Debug, Clone, Copy, PartialEq, Eq, Structural)]
pub enum Attribute {
    Id(WeaponId),
    Wand(WandWeapon),
    Distance(DistanceWeapon),
    Melee(MeleeWeapon),
    Level(Level),
    MagicLevel(MagicLevel),
    Mana(Mana),
    DamageRange(WandDamageRange),
    BreakChance(DistanceBreakChance),
}

impl Attribute {
    /// The kind of this record.
    pub open spec fn spec_kind(self) -> AttributeKind {
        match self {
            Attribute::Id(_) => AttributeKind::Id,
            Attribute::Wand(_) => AttributeKind::Wand,
            Attribute::Distance(_) => AttributeKind::Distance,
            Attribute::Melee(_) => AttributeKind::Melee,
            Attribute::Level(_) => AttributeKind::Level,
            Attribute::MagicLevel(_) => AttributeKind::MagicLevel,
            Attribute::Mana(_) => AttributeKind::Mana,
            Attribute::DamageRange(_) => AttributeKind::DamageRange,
            Attribute::BreakChance(_) => AttributeKind::BreakChance,
        }
    }

    /// The kind of this record.
    #[verifier::when_used_as_spec(spec_kind)]
    pub fn kind(self) -> (kind: AttributeKind)
        ensures
            kind == self.spec_kind(),
    {
        match self {
            Attribute::Id(_) => AttributeKind::Id,
            Attribute::Wand(_) => AttributeKind::Wand,
            Attribute::Distance(_) => AttributeKind::Distance,
            Attribute::Melee(_) => AttributeKind::Melee,
            Attribute::Level(_) => AttributeKind::Level,
            Attribute::MagicLevel(_) => AttributeKind::MagicLevel,
            Attribute::Mana(_) => AttributeKind::Mana,
            Attribute::DamageRange(_) => AttributeKind::DamageRange,
            Attribute::BreakChance(_) => AttributeKind::BreakChance,
        }
    }
}

/// A value that can be attached to an entity as an attribute record.
pub trait AttributeRecord: Sized {
    /// The record that this value becomes.
    spec fn attribute(self) -> Attribute;

    /// Turns the value into its record.
    fn into_attribute(self) -> (record: Attribute)
        ensures
            record == self.attribute(),
    ;
}

impl AttributeRecord for WeaponId {
    open spec fn attribute(self) -> Attribute {
        Attribute::Id(self)
    }

    fn into_attribute(self) -> (record: Attribute) {
        Attribute::Id(self)
    }
}

impl AttributeRecord for WandWeapon {
    open spec fn attribute(self) -> Attribute {
        Attribute::Wand(self)
    }

    fn into_attribute(self) -> (record: Attribute) {
        Attribute::Wand(self)
    }
}

impl AttributeRecord for DistanceWeapon {
    open spec fn attribute(self) -> Attribute {
        Attribute::Distance(self)
    }

    fn into_attribute(self) -> (record: Attribute) {
        Attribute::Distance(self)
    }
}

impl AttributeRecord for MeleeWeapon {
    open spec fn attribute(self) -> Attribute {
        Attribute::Melee(self)
    }

    fn into_attribute(self) -> (record: Attribute) {
        Attribute::Melee(self)
    }
}

impl AttributeRecord for Level {
    open spec fn attribute(self) -> Attribute {
        Attribute::Level(self)
    }

    fn into_attribute(self) -> (record: Attribute) {
        Attribute::Level(self)
    }
}

impl AttributeRecord for MagicLevel {
    open spec fn attribute(self) -> Attribute {
        Attribute::MagicLevel(self)
    }

    fn into_attribute(self) -> (record: Attribute) {
        Attribute::MagicLevel(self)
    }
}

impl AttributeRecord for Mana {
    open spec fn attribute(self) -> Attribute {
        Attribute::Mana(self)
    }

    fn into_attribute(self) -> (record: Attribute) {
        Attribute::Mana(self)
    }
}

impl AttributeRecord for WandDamageRange {
    open spec fn attribute(self) -> Attribute {
        Attribute::DamageRange(self)
    }

    fn into_attribute(self) -> (record: Attribute) {
        Attribute::DamageRange(self)
    }
}

impl AttributeRecord for DistanceBreakChance {
    open spec fn attribute(self) -> Attribute {
        Attribute::BreakChance(self)
    }

    fn into_attribute(self) -> (record: Attribute) {
        Attribute::BreakChance(self)
    }
}

/// What is attached after `records` have been attached in order: a record
/// replaces an earlier one of its kind.
pub open spec fn attached(records: Seq<Attribute>) -> Map<AttributeKind, Attribute>
    decreases records.len(),
{
    if records.len() == 0 {
        Map::empty()
    } else {
        attached(records.drop_last()).insert(records.last().kind(), records.last())
    }
}

/// Every attached record is filed under its own kind.
pub proof fn attached_under_own_kind(records: Seq<Attribute>, kind: AttributeKind)
    requires
        attached(records).dom().contains(kind),
    ensures
        attached(records)[kind].kind() == kind,
    decreases records.len(),
{
    if records.len() > 0 && records.last().kind() != kind {
        attached_under_own_kind(records.drop_last(), kind);
    }
}

/// Attaching one more record files it under its kind, in place of what was
/// there.
pub proof fn attached_push(records: Seq<Attribute>, record: Attribute)
    ensures
        attached(records.push(record)) == attached(records).insert(record.kind(), record),
{
    assert(records.push(record).drop_last() =~= records);
}

/// Attaching one run of records after another leaves what the first run
/// left, but for the kinds that the second run attaches again.
pub proof fn attached_concat(first: Seq<Attribute>, second: Seq<Attribute>)
    ensures
        attached(first + second) == attached(first).union_prefer_right(attached(second)),
    decreases second.len(),
{
    if second.len() == 0 {
        assert(first + second =~= first);
        assert(attached(first).union_prefer_right(attached(second)) =~= attached(first));
    } else {
        attached_concat(first, second.drop_last());
        assert((first + second).drop_last() =~= first + second.drop_last());
        assert(attached(first + second) =~= attached(first).union_prefer_right(attached(second)));
    }
}

/// The attribute records of one entity, in the order in which they were
/// attached.
pub struct EntityRecords {
    records: Vec<Attribute>,
}

impl View for EntityRecords {
    type V = Seq<Attribute>;

    closed spec fn view(&self) -> Seq<Attribute> {
        self.records@
    }
}

/// Attaches a record to an entity only where there is one to attach.
pub trait InsertIfSome: Sized {
    /// The records attached to the entity so far, oldest first.
    spec fn inserted(&self) -> Seq<Attribute>;

    /// Attaches `component` if it is present and changes nothing if it is
    /// absent.
    fn insert_if_some<T: AttributeRecord>(self, component: Option<T>) -> (entity: Self)
        ensures
            entity.inserted() == match component {
                Some(c) => self.inserted().push(c.attribute()),
                None => self.inserted(),
            },
    ;
}

impl EntityRecords {
    /// What is attached to the entity, by kind.
    pub open spec fn attributes(&self) -> Map<AttributeKind, Attribute> {
        attached(self@)
    }

    /// An entity to which nothing is attached yet.
    pub fn new() -> (entity: EntityRecords)
        ensures
            entity@ == Seq::<Attribute>::empty(),
    {
        EntityRecords { records: Vec::new() }
    }

    /// Attaches `component`. It takes the place of a record of the same kind
    /// if the entity has one.
    pub fn insert<T: AttributeRecord>(self, component: T) -> (entity: EntityRecords)
        ensures
            entity@ == self@.push(component.attribute()),
            entity.attributes() == self.attributes().insert(
                component.attribute().kind(),
                component.attribute(),
            ),
    {
        let mut entity = self;
        let record = component.into_attribute();
        entity.records.push(record);
        proof {
            attached_push(self@, record);
        }
        entity
    }

    /// The record of the given kind, if one is attached.
    pub fn get(&self, kind: AttributeKind) -> (found: Option<Attribute>)
        ensures
            found == if self.attributes().contains_key(kind) {
                Some(self.attributes()[kind])
            } else {
                None
            },
    {
        let mut found: Option<Attribute> = None;
        let count = self.records.len();
        for i in 0..count
            invariant
                count == self.records@.len(),
                found == if attached(self.records@.take(i as int)).contains_key(kind) {
                    Some(attached(self.records@.take(i as int))[kind])
                } else {
                    None
                },
        {
            let record = self.records[i];
            assert(self.records@.take(i + 1).drop_last() =~= self.records@.take(i as int));
            if record.kind() == kind {
                found = Some(record);
            }
        }
        assert(self.records@.take(count as int) =~= self.records@);
        found
    }

    /// The records in the order in which they were attached.
    pub fn records(&self) -> (records: &Vec<Attribute>)
        ensures
            records@ == self@,
    {
        &self.records
    }
}

impl InsertIfSome for EntityRecords {
    open spec fn inserted(&self) -> Seq<Attribute> {
        self@
    }

    fn insert_if_some<T: AttributeRecord>(self, component: Option<T>) -> (entity: Self) {
        if let Some(c) = component {
            self.insert(c)
        } else {
            self
        }
    }
}

/// The records of each entity of a run.
pub open spec fn views(entities: Seq<EntityRecords>) -> Seq<Seq<Attribute>> {
    Seq::new(entities.len(), |i: int| entities[i]@)
}

/// The entities that have been spawned, oldest first.
pub struct SpawnQueue {
    entities: Vec<EntityRecords>,
}

impl View for SpawnQueue {
    type V = Seq<Seq<Attribute>>;

    closed spec fn view(&self) -> Seq<Seq<Attribute>> {
        views(self.entities@)
    }
}

impl SpawnQueue {
    /// A queue in which nothing has been spawned.
    pub fn new() -> (queue: SpawnQueue)
        ensures
            queue@ == Seq::<Seq<Attribute>>::empty(),
    {
        SpawnQueue { entities: Vec::new() }
    }

    /// Spawns `entity` as the newest entity.
    pub fn spawn(&mut self, entity: EntityRecords)
        ensures
            final(self)@ == old(self)@.push(entity@),
    {
        self.entities.push(entity);
    }

    /// The number of entities spawned so far.
    pub fn len(&self) -> (count: usize)
        ensures
            count == self@.len(),
    {
        self.entities.len()
    }

    /// The spawned entities, oldest first.
    pub fn entities(&self) -> (entities: &Vec<EntityRecords>)
        ensures
            views(entities@) == self@,
    {
        &self.entities
    }
}

} // verus!
