//! Tags: the properties that items and materials can have, and the wider
//! tag that each belongs to.

use vstd::prelude::*;

verus! {

#[derive(Clone, Copy, Debug, PartialEq, Eq, Structural)]
pub enum Tag {
    Ammunition,
    Animate,
    Armor,
    Beverage,
    Burning,
    Cold,
    Conductive,
    Consumable,
    Container,
    Explosive,
    FinesseWeapon,
    Flammable,
    Food,
    Frozen,
    Gas,
    GasContainer,
    HeavyArmor,
    HeavyWeapon,
    Hot,
    Indestructible,
    LightArmor,
    LightWeapon,
    Liquid,
    LiquidContainer,
    LoadingWeapon,
    Lockable,
    MartialMeleeWeapon,
    MartialRangedWeapon,
    MediumArmor,
    Organic,
    Openable,
    Poisonous,
    Powder,
    RangedWeapon,
    ReachWeapon,
    Shield,
    SimpleMeleeWeapon,
    SimpleRangedWeapon,
    Solid,
    SolidContainer,
    SpecialWeapon,
    ThrownWeapon,
    Transparent,
    TwoHandedWeapon,
    VersatileWeapon,
    Weapon,
    Wettable,
}

/// The wider tag that a tag belongs to, if it has one: what has a tag has its
/// parent too.
pub open spec fn parent_of(tag: Tag) -> Option<Tag> {
    match tag {
        Tag::Ammunition => Some(Tag::Weapon),
        Tag::Animate => None,
        Tag::Armor => None,
        Tag::Beverage => Some(Tag::Consumable),
        Tag::Burning => Some(Tag::Hot),
        Tag::Cold => None,
        Tag::Conductive => None,
        Tag::Consumable => None,
        Tag::Container => None,
        Tag::Explosive => None,
        Tag::FinesseWeapon => Some(Tag::Weapon),
        Tag::Flammable => None,
        Tag::Food => Some(Tag::Consumable),
        Tag::Frozen => Some(Tag::Cold),
        Tag::Gas => None,
        Tag::GasContainer => Some(Tag::Container),
        Tag::HeavyArmor => Some(Tag::Armor),
        Tag::HeavyWeapon => Some(Tag::Weapon),
        Tag::Hot => None,
        Tag::Indestructible => None,
        Tag::LightArmor => Some(Tag::Armor),
        Tag::LightWeapon => Some(Tag::Weapon),
        Tag::Liquid => None,
        Tag::LiquidContainer => Some(Tag::Container),
        Tag::LoadingWeapon => Some(Tag::Weapon),
        Tag::Lockable => None,
        Tag::MartialMeleeWeapon => Some(Tag::Weapon),
        Tag::MartialRangedWeapon => Some(Tag::Weapon),
        Tag::MediumArmor => Some(Tag::Armor),
        Tag::Organic => None,
        Tag::Openable => None,
        Tag::Poisonous => None,
        Tag::Powder => Some(Tag::Solid),
        Tag::RangedWeapon => Some(Tag::Weapon),
        Tag::ReachWeapon => Some(Tag::Weapon),
        Tag::Shield => Some(Tag::Armor),
        Tag::SimpleMeleeWeapon => Some(Tag::Weapon),
        Tag::SimpleRangedWeapon => Some(Tag::Weapon),
        Tag::Solid => None,
        Tag::SolidContainer => Some(Tag::Container),
        Tag::SpecialWeapon => Some(Tag::Weapon),
        Tag::ThrownWeapon => Some(Tag::Weapon),
        Tag::Transparent => None,
        Tag::TwoHandedWeapon => Some(Tag::Weapon),
        Tag::VersatileWeapon => Some(Tag::Weapon),
        Tag::Weapon => None,
        Tag::Wettable => None,
    }
}

pub fn tag_parent(tag: Tag) -> (parent: Option<Tag>)
    ensures
        parent == parent_of(tag),
{
    match tag {
        Tag::Ammunition => Some(Tag::Weapon),
        Tag::Animate => None,
        Tag::Armor => None,
        Tag::Beverage => Some(Tag::Consumable),
        Tag::Burning => Some(Tag::Hot),
        Tag::Cold => None,
        Tag::Conductive => None,
        Tag::Consumable => None,
        Tag::Container => None,
        Tag::Explosive => None,
        Tag::FinesseWeapon => Some(Tag::Weapon),
        Tag::Flammable => None,
        Tag::Food => Some(Tag::Consumable),
        Tag::Frozen => Some(Tag::Cold),
        Tag::Gas => None,
        Tag::GasContainer => Some(Tag::Container),
        Tag::HeavyArmor => Some(Tag::Armor),
        Tag::HeavyWeapon => Some(Tag::Weapon),
        Tag::Hot => None,
        Tag::Indestructible => None,
        Tag::LightArmor => Some(Tag::Armor),
        Tag::LightWeapon => Some(Tag::Weapon),
        Tag::Liquid => None,
        Tag::LiquidContainer => Some(Tag::Container),
        Tag::LoadingWeapon => Some(Tag::Weapon),
        Tag::Lockable => None,
        Tag::MartialMeleeWeapon => Some(Tag::Weapon),
        Tag::MartialRangedWeapon => Some(Tag::Weapon),
        Tag::MediumArmor => Some(Tag::Armor),
        Tag::Organic => None,
        Tag::Openable => None,
        Tag::Poisonous => None,
        Tag::Powder => Some(Tag::Solid),
        Tag::RangedWeapon => Some(Tag::Weapon),
        Tag::ReachWeapon => Some(Tag::Weapon),
        Tag::Shield => Some(Tag::Armor),
        Tag::SimpleMeleeWeapon => Some(Tag::Weapon),
        Tag::SimpleRangedWeapon => Some(Tag::Weapon),
        Tag::Solid => None,
        Tag::SolidContainer => Some(Tag::Container),
        Tag::SpecialWeapon => Some(Tag::Weapon),
        Tag::ThrownWeapon => Some(Tag::Weapon),
        Tag::Transparent => None,
        Tag::TwoHandedWeapon => Some(Tag::Weapon),
        Tag::VersatileWeapon => Some(Tag::Weapon),
        Tag::Weapon => None,
        Tag::Wettable => None,
    }
}

/// Whether a tag is `ancestor` itself or belongs to it through its chain of
/// parents. No chain is longer than two steps.
pub open spec fn is_a(tag: Tag, ancestor: Tag) -> bool {
    ||| tag == ancestor
    ||| parent_of(tag) == Some(ancestor)
    ||| (parent_of(tag) matches Some(parent) && parent_of(parent) == Some(ancestor))
}

/// Follows the parents of a tag to see whether it belongs to another.
pub fn tag_is_a(tag: Tag, ancestor: Tag) -> (belongs: bool)
    ensures
        belongs == is_a(tag, ancestor),
{
    if tag == ancestor {
        return true;
    }
    match tag_parent(tag) {
        None => false,
        Some(parent) => {
            if parent == ancestor {
                true
            } else {
                match tag_parent(parent) {
                    None => false,
                    Some(grandparent) => grandparent == ancestor,
                }
            }
        },
    }
}

/// No tag is its own parent, and the parent of a parent has no parent: the
/// chains of parents end after two steps at most.
pub proof fn lemma_parents_end(tag: Tag)
    ensures
        parent_of(tag) != Some(tag),
        parent_of(tag) matches Some(parent) ==> (parent_of(parent) matches Some(grandparent)
            ==> parent_of(grandparent) is None),
{
}

} // verus!
