//! What holds of every weapon however it was configured, and of the entity it
//! becomes.

use crate::entities::{attached, attached_concat, Attribute, AttributeKind};
use crate::rune_context::{vm_runtime, vm_unit, RuneContext};
use crate::weapons::{
    attributes_of, marker_count, records_of, DistanceBreakChance, DistanceWeapon, Level,
    MagicLevel, Mana, MeleeWeapon, WandDamageRange, WandWeapon, WeaponId, WeaponKind, WeaponView,
};
use vstd::prelude::*;

verus! {

/// One call of a configuration method, with its arguments.
pub enum Setting {
    Level(u32),
    MagicLevel(u32),
    Mana(u32),
    DamageRange(u32, u32),
    BreakChance(u32),
}

impl Setting {
    /// The kind of attribute that the call sets.
    pub open spec fn kind(self) -> AttributeKind {
        match self {
            Setting::Level(_) => AttributeKind::Level,
            Setting::MagicLevel(_) => AttributeKind::MagicLevel,
            Setting::Mana(_) => AttributeKind::Mana,
            Setting::DamageRange(_, _) => AttributeKind::DamageRange,
            Setting::BreakChance(_) => AttributeKind::BreakChance,
        }
    }

    /// The record that the call leaves on the weapon.
    pub open spec fn record(self) -> Attribute {
        match self {
            Setting::Level(value) => Attribute::Level(Level(value)),
            Setting::MagicLevel(value) => Attribute::MagicLevel(MagicLevel(value)),
            Setting::Mana(value) => Attribute::Mana(Mana(value)),
            Setting::DamageRange(min, max) => Attribute::DamageRange(WandDamageRange { min, max }),
            Setting::BreakChance(value) => Attribute::BreakChance(DistanceBreakChance(value)),
        }
    }
}

/// The marker record that belongs to a variant.
pub open spec fn marker_of(kind: WeaponKind) -> AttributeKind {
    match kind {
        WeaponKind::Wand => AttributeKind::Wand,
        WeaponKind::Melee => AttributeKind::Melee,
        WeaponKind::Distance => AttributeKind::Distance,
    }
}

/// The weapon after one configuration call.
pub open spec fn configure(weapon: WeaponView, setting: Setting) -> WeaponView {
    match setting {
        Setting::Level(value) => weapon.with_level(value),
        Setting::MagicLevel(value) => weapon.with_magic_level(value),
        Setting::Mana(value) => weapon.with_mana(value),
        Setting::DamageRange(min, max) => weapon.with_damage_range(min, max),
        Setting::BreakChance(value) => weapon.with_break_chance(value),
    }
}

/// The weapon after a chain of configuration calls, made in order.
pub open spec fn configure_all(weapon: WeaponView, settings: Seq<Setting>) -> WeaponView
    decreases settings.len(),
{
    if settings.len() == 0 {
        weapon
    } else {
        configure(configure_all(weapon, settings.drop_last()), settings.last())
    }
}

/// Whether some call of the chain sets an attribute of the given kind.
pub open spec fn sets(settings: Seq<Setting>, attribute: AttributeKind) -> bool {
    exists|i: int| 0 <= i < settings.len() && (#[trigger] settings[i]).kind() == attribute
}

/// The place of a kind in the order in which records are attached.
spec fn rank(kind: AttributeKind) -> int {
    match kind {
        AttributeKind::Id => 0,
        AttributeKind::Wand => 1,
        AttributeKind::Distance => 2,
        AttributeKind::Melee => 3,
        AttributeKind::Level => 4,
        AttributeKind::MagicLevel => 5,
        AttributeKind::Mana => 6,
        AttributeKind::DamageRange => 7,
        AttributeKind::BreakChance => 8,
    }
}

/// No kind occurs twice among `records`, and every kind that occurs comes
/// before `bound` in the order of attachment.
spec fn distinct_below(records: Seq<Attribute>, bound: int) -> bool {
    &&& forall|i: int| 0 <= i < records.len() ==> rank(#[trigger] records[i].kind()) < bound
    &&& forall|i: int, j: int|
        0 <= i < j < records.len() ==> (#[trigger] records[i]).kind() != (
        #[trigger] records[j]).kind()
}

/// Records stay distinct when at most one record of the next kind follows.
proof fn distinct_with_next(records: Seq<Attribute>, next: Seq<Attribute>, bound: int)
    requires
        distinct_below(records, bound),
        next.len() <= 1,
        next.len() == 1 ==> rank(next[0].kind()) == bound,
    ensures
        distinct_below(records + next, bound + 1),
{
    if next.len() == 0 {
        assert(records + next =~= records);
    } else {
        assert(records + next =~= records.push(next[0]));
    }
}

/// The records that materializing a weapon attaches at one step: the
/// identity first, then the markers, then the optional attributes.
spec fn step(weapon: WeaponView, at: int) -> Seq<Attribute> {
    if at == 0 {
        seq![Attribute::Id(WeaponId { id: weapon.id })]
    } else if at == 1 {
        if weapon.kind == WeaponKind::Wand {
            seq![Attribute::Wand(WandWeapon)]
        } else {
            seq![]
        }
    } else if at == 2 {
        if weapon.kind == WeaponKind::Distance {
            seq![Attribute::Distance(DistanceWeapon)]
        } else {
            seq![]
        }
    } else if at == 3 {
        if weapon.kind == WeaponKind::Melee {
            seq![Attribute::Melee(MeleeWeapon)]
        } else {
            seq![]
        }
    } else if at == 4 {
        match weapon.level {
            Some(level) => seq![Attribute::Level(level)],
            None => seq![],
        }
    } else if at == 5 {
        match weapon.magic_level {
            Some(magic_level) => seq![Attribute::MagicLevel(magic_level)],
            None => seq![],
        }
    } else if at == 6 {
        match weapon.mana {
            Some(mana) => seq![Attribute::Mana(mana)],
            None => seq![],
        }
    } else if at == 7 {
        match weapon.damage_range {
            Some(damage_range) => seq![Attribute::DamageRange(damage_range)],
            None => seq![],
        }
    } else {
        match weapon.break_chance {
            Some(break_chance) => seq![Attribute::BreakChance(break_chance)],
            None => seq![],
        }
    }
}

/// The records attached by the steps before `upto`.
spec fn steps(weapon: WeaponView, upto: int) -> Seq<Attribute>
    decreases upto,
{
    if upto <= 0 {
        seq![]
    } else {
        steps(weapon, upto - 1) + step(weapon, upto - 1)
    }
}

/// The attributes of a weapon whose kinds come before `bound` in the order of
/// attachment.
spec fn attributes_below(weapon: WeaponView, bound: int) -> Map<AttributeKind, Attribute> {
    Map::new(
        |kind: AttributeKind| weapon.has(kind) && rank(kind) < bound,
        |kind: AttributeKind| weapon.attribute(kind),
    )
}

/// A step attaches the record of its own kind if the weapon has one, and
/// nothing else.
proof fn step_attaches_its_kind(weapon: WeaponView, at: int)
    requires
        0 <= at < 9,
    ensures
        step(weapon, at).len() <= 1,
        step(weapon, at).len() == 1 ==> rank(step(weapon, at)[0].kind()) == at,
        attributes_below(weapon, at).union_prefer_right(attached(step(weapon, at)))
            == attributes_below(weapon, at + 1),
{
    let records = step(weapon, at);
    if records.len() == 1 {
        assert(attached(records.drop_last()) == Map::<AttributeKind, Attribute>::empty());
    }
    assert(attributes_below(weapon, at).union_prefer_right(attached(records))
        =~= attributes_below(weapon, at + 1));
}

/// The steps before `upto` attach the weapon's attributes of the kinds that
/// come before `upto`, each once.
proof fn steps_attach_attributes_below(weapon: WeaponView, upto: int)
    requires
        0 <= upto <= 9,
    ensures
        attached(steps(weapon, upto)) == attributes_below(weapon, upto),
        distinct_below(steps(weapon, upto), upto),
    decreases upto,
{
    if upto == 0 {
        assert(attached(steps(weapon, upto)) =~= attributes_below(weapon, upto));
    } else {
        steps_attach_attributes_below(weapon, upto - 1);
        step_attaches_its_kind(weapon, upto - 1);
        attached_concat(steps(weapon, upto - 1), step(weapon, upto - 1));
        distinct_with_next(steps(weapon, upto - 1), step(weapon, upto - 1), upto - 1);
    }
}

/// The nine steps together attach the records of a weapon.
proof fn steps_are_records(weapon: WeaponView)
    ensures
        steps(weapon, 9) == records_of(weapon),
{
    assert(steps(weapon, 0) =~= seq![]);
    assert(steps(weapon, 1) =~= step(weapon, 0));
    assert(steps(weapon, 2) == steps(weapon, 1) + step(weapon, 1));
    assert(steps(weapon, 3) == steps(weapon, 2) + step(weapon, 2));
    assert(steps(weapon, 4) == steps(weapon, 3) + step(weapon, 3));
    assert(steps(weapon, 5) == steps(weapon, 4) + step(weapon, 4));
    assert(steps(weapon, 6) == steps(weapon, 5) + step(weapon, 5));
    assert(steps(weapon, 7) == steps(weapon, 6) + step(weapon, 6));
    assert(steps(weapon, 8) == steps(weapon, 7) + step(weapon, 7));
    assert(steps(weapon, 9) == steps(weapon, 8) + step(weapon, 8));
}

/// The records that materializing a weapon attaches leave on the entity
/// exactly the attributes of the weapon.
pub proof fn records_attach_attributes(weapon: WeaponView)
    ensures
        attached(records_of(weapon)) == attributes_of(weapon),
{
    steps_are_records(weapon);
    steps_attach_attributes_below(weapon, 9);
    assert(attributes_below(weapon, 9) =~= attributes_of(weapon));
}

/// Materializing a weapon attaches no kind of record twice, so that no record
/// replaces another.
pub proof fn records_are_distinct(weapon: WeaponView)
    ensures
        forall|i: int, j: int|
            0 <= i < j < records_of(weapon).len() ==> (#[trigger] records_of(weapon)[i]).kind()
                != (#[trigger] records_of(weapon)[j]).kind(),
{
    steps_are_records(weapon);
    steps_attach_attributes_below(weapon, 9);
}

/// The entity that a weapon becomes carries exactly one variant marker, the
/// one of the weapon's variant.
pub proof fn exactly_one_marker(weapon: WeaponView)
    ensures
        marker_count(attributes_of(weapon)) == 1,
        attributes_of(weapon).contains_key(marker_of(weapon.kind)),
{
}

/// Every record of the entity that a weapon becomes is filed under its own
/// kind, and the identity record holds the weapon's identity.
pub proof fn records_match_their_kind(weapon: WeaponView, attribute: AttributeKind)
    requires
        attributes_of(weapon).contains_key(attribute),
    ensures
        attributes_of(weapon)[attribute].kind() == attribute,
        attributes_of(weapon).contains_key(AttributeKind::Id),
        attributes_of(weapon)[AttributeKind::Id] == Attribute::Id(
            crate::weapons::WeaponId { id: weapon.id },
        ),
{
}

/// A chain of configuration calls changes neither the identity nor the
/// variant of a weapon.
pub proof fn configuring_keeps_identity(weapon: WeaponView, settings: Seq<Setting>)
    ensures
        configure_all(weapon, settings).id == weapon.id,
        configure_all(weapon, settings).kind == weapon.kind,
    decreases settings.len(),
{
    if settings.len() > 0 {
        configuring_keeps_identity(weapon, settings.drop_last());
    }
}

/// After a chain of configuration calls a weapon's entity carries a record of
/// a kind if and only if the weapon's entity carried it before or one of the
/// calls sets it.
pub proof fn attached_iff_carried_or_set(
    weapon: WeaponView,
    settings: Seq<Setting>,
    attribute: AttributeKind,
)
    ensures
        attributes_of(configure_all(weapon, settings)).contains_key(attribute) <==> (attributes_of(
            weapon,
        ).contains_key(attribute) || sets(settings, attribute)),
    decreases settings.len(),
{
    if settings.len() > 0 {
        let earlier = settings.drop_last();
        attached_iff_carried_or_set(weapon, earlier, attribute);
        configuring_keeps_identity(weapon, earlier);
        if sets(earlier, attribute) {
            let i = choose|i: int| 0 <= i < earlier.len() && (#[trigger] earlier[i]).kind() == attribute;
            assert(settings[i].kind() == attribute);
        }
        if settings.last().kind() == attribute {
            assert(settings[settings.len() - 1].kind() == attribute);
        }
        if sets(settings, attribute) {
            let i = choose|i: int|
                0 <= i < settings.len() && (#[trigger] settings[i]).kind() == attribute;
            if i < earlier.len() {
                assert(earlier[i].kind() == attribute);
            }
        }
    }
}

/// A weapon fresh from a constructor and then configured becomes an entity
/// that carries its identity, the marker of its variant, and a record of an
/// optional kind if and only if a configuration method of that kind was
/// called on it: nothing is missing and nothing is spurious.
pub proof fn attached_iff_configured(
    kind: WeaponKind,
    id: u32,
    settings: Seq<Setting>,
    attribute: AttributeKind,
)
    ensures
        attributes_of(configure_all(WeaponView::fresh(kind, id), settings)).contains_key(attribute)
            <==> (attribute == AttributeKind::Id || attribute == marker_of(kind) || sets(
            settings,
            attribute,
        )),
        attached(records_of(configure_all(WeaponView::fresh(kind, id), settings))).contains_key(
            attribute,
        ) <==> (attribute == AttributeKind::Id || attribute == marker_of(kind) || sets(
            settings,
            attribute,
        )),
{
    attached_iff_carried_or_set(WeaponView::fresh(kind, id), settings, attribute);
    records_attach_attributes(configure_all(WeaponView::fresh(kind, id), settings));
}

/// The record that an entity carries for a configured attribute is the one
/// that the last call of that kind left.
pub proof fn attached_record_is_last_set(weapon: WeaponView, settings: Seq<Setting>, last: int)
    requires
        0 <= last < settings.len(),
        forall|later: int|
            last < later < settings.len() ==> (#[trigger] settings[later]).kind()
                != settings[last].kind(),
    ensures
        attributes_of(configure_all(weapon, settings)).contains_key(settings[last].kind()),
        attributes_of(configure_all(weapon, settings))[settings[last].kind()]
            == settings[last].record(),
    decreases settings.len(),
{
    if last < settings.len() - 1 {
        let earlier = settings.drop_last();
        assert(settings[settings.len() - 1].kind() != settings[last].kind());
        assert forall|later: int| last < later < earlier.len() implies (#[trigger] earlier[later]).kind()
            != earlier[last].kind() by {
            assert(settings[later].kind() != settings[last].kind());
        }
        attached_record_is_last_set(weapon, earlier, last);
    }
}

/// Two virtual machines made by one context are bound to the same runtime
/// linkage and to the same compiled unit.
pub proof fn machines_share_program(context: RuneContext, first: rune::Vm, second: rune::Vm)
    requires
        vm_runtime(first) == context.runtime(),
        vm_unit(first) == context.unit(),
        vm_runtime(second) == context.runtime(),
        vm_unit(second) == context.unit(),
    ensures
        vm_runtime(first) == vm_runtime(second),
        vm_unit(first) == vm_unit(second),
{
}

} // verus!
