//! The static game data schema: plain definitions of actors, items and
//! skills, with no behaviour of their own.

use vstd::prelude::*;

verus! {

/// The element of an attack or a resistance.
#[derive(Clone, Copy, Debug, PartialEq, Eq, Hash)]
pub enum Element {
    Fire,
    Ice,
    Wind,
    Earth,
    Thunder,
    Water,
    Hate,
    Love,
}

/// A base or derived actor parameter.
#[derive(Clone, Copy, Debug, PartialEq, Eq, Hash)]
pub enum Parameter {
    Str,
    Vit,
    Int,
    Wis,
    Dex,
    Agi,
    Mhp,
    Mmp,
    MaxAp,
    Atk,
    Mat,
    Def,
    Mdf,
    Hrg,
    Mrg,
    Arg,
    Ssr,
    Sdr,
}

/// An extra parameter, given as a rate.
#[derive(Clone, Copy, Debug, PartialEq, Eq, Hash)]
pub enum ExParameter {
    Eva,
    Cri,
    Cnt,
    Mrf,
}

/// A special parameter, given as a rate.
#[derive(Clone, Copy, Debug, PartialEq, Eq, Hash)]
pub enum SpParameter {
    Hit,
    Tgr,
    Rec,
    Mcr,
    Acr,
    Pdr,
    Mdr,
    Dmr,
}

/// The school a skill belongs to.
#[derive(Clone, Copy, Debug, PartialEq, Eq, Hash)]
pub enum SkillType {
    Common,
    Auramancy,
    Animancy,
    Astromancy,
}

/// The kind of a weapon.
#[derive(Clone, Copy, Debug, PartialEq, Eq, Hash)]
pub enum WeaponType {
    Axe,
    Sword,
    Spear,
}

/// The kind of a piece of armour.
#[derive(Clone, Copy, Debug, PartialEq, Eq, Hash)]
pub enum ArmorType {
    Helmet,
    Body,
    Legs,
    Boots,
}

/// Where on an actor a piece of equipment is worn.
#[derive(Clone, Copy, Debug, PartialEq, Eq, PartialOrd, Ord, Hash)]
pub enum EquipSlot {
    Head,
    Body,
    Legs,
    Feet,
    LeftHand,
    RightHand,
    Ring,
    Necklace,
}

/// Whether an item is a regular item or a key item.
#[derive(Clone, Copy, Debug, PartialEq, Eq, Hash)]
pub enum ItemType {
    Regular,
    Key,
}

/// Whom a usable item or skill targets.
#[derive(Clone, Copy, Debug, PartialEq, Eq, Hash)]
pub enum Scope {
    Noone,
    User,
    OnePerson,
    WholeParty,
    OneOrWholeParty,
    Everyone,
}

/// When a usable item or skill can be used.
#[derive(Clone, Copy, Debug, PartialEq, Eq, Hash)]
pub enum Occasion {
    Always,
    Battle,
    Menu,
    Never,
}

/// How a usable item or skill decides whether it hits.
#[derive(Clone, Copy, Debug, PartialEq, Eq, Hash)]
pub enum HitType {
    CertainHit,
    PhysicalAttack,
    MagicalAttack,
}

/// What a usable item or skill does to its target's resources.
#[derive(Clone, Copy, Debug, PartialEq, Eq, Hash)]
pub enum DamageType {
    NoDamage,
    HpDamage,
    MpDamage,
    ApDamage,
    HpRecovery,
    MpRecovery,
    ApRecovery,
    HpDrain,
    MpDrain,
    ApDrain,
}

/// A playable character's definition.
pub struct Actor {
    pub class: usize,
    pub initial_level: i32,
    pub max_level: i32,
    pub character_sprite_filename: String,
    pub face_sprite_filename: String,
    pub equipment: std::collections::BTreeMap<EquipSlot, usize>,
}

} // verus!
