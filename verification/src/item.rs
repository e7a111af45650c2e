//! The catalogue of items: their kinds and what they cost.

use vstd::prelude::*;
use crate::entity::EntityID;
use crate::tag::Tag;

verus! {

/// An item and where it is.
#[derive(Clone, Copy, Debug, PartialEq, Eq, Structural)]
pub struct Item {
    pub item_type: ItemType,
    pub location: ItemLocation,
}

/// Where an item is: held by an entity, or lying in the world.
#[derive(Clone, Copy, Debug, PartialEq, Eq, Structural)]
pub enum ItemLocation {
    Entity(EntityID),
    World,
}

#[derive(Clone, Copy, Debug, PartialEq, Eq, Structural)]
pub enum ItemType {
    Abacus,
    Amulet,
    Arrow,
    ArrowBundle,
    Backpack,
    Bagpipes,
    BallBearing,
    BallBearingBundle,
    Barrel,
    Basket,
    BatteringRam,
    Battleaxe,
    Bedroll,
    Bell,
    Blanket,
    BlockAndTackle,
    Blowgun,
    BlowgunNeedle,
    BlowgunNeedleBundle,
    Book,
    Bottle,
    BreastplateArmor,
    Bucket,
    Caltrop,
    CaltropBundle,
    Candle,
    Chain,
    ChainMailArmor,
    ChainShirtArmor,
    Chalk,
    Chest,
    ClimbersKit,
    ClothesCommon,
    ClothesCostume,
    ClothesFine,
    ClothesTraveler,
    Club,
    Coin,
    ComponentPouch,
    CrossbowBolt,
    CrossbowBoltBundle,
    CrossbowBoltCase,
    Crowbar,
    Crystal,
    Dagger,
    Dart,
    Drum,
    Emblem,
    FishingTackle,
    Flail,
    Flask,
    Flute,
    Glaive,
    GrapplingHook,
    Greataxe,
    Greatclub,
    Greatsword,
    Halberd,
    HalfPlateArmor,
    Hammer,
    Handaxe,
    HandCrossbow,
    HealersKit,
    HeavyCrossbow,
    HideArmor,
    Horn,
    Hourglass,
    HuntingTrap,
    Ink,
    Javelin,
    Jug,
    Ladder,
    Lamp,
    Lance,
    Lantern,
    LeatherArmor,
    LightCrossbow,
    LightHammer,
    Lock,
    Longbow,
    Longsword,
    Lute,
    Lyre,
    Mace,
    MagnifyingGlass,
    Manacles,
    MapCase,
    Maul,
    MessKit,
    Mirror,
    Morningstar,
    Net,
    Orb,
    PaddedArmor,
    PanFlute,
    Paper,
    Parchment,
    Pen,
    Perfume,
    Pickaxe,
    Pike,
    Piton,
    PlateArmor,
    Pole,
    Pot,
    Pouch,
    Quarterstaff,
    Quiver,
    Rapier,
    Rations,
    Reliquary,
    Ring,
    RingMailArmor,
    Robes,
    Rod,
    Rope,
    Sack,
    Scale,
    ScaleMailArmor,
    Scimitar,
    Shield,
    Shortbow,
    Shortsword,
    Shovel,
    Sickle,
    Sledgehammer,
    Sling,
    SlingBullet,
    SlingBulletBundle,
    Soap,
    Spear,
    Spellbook,
    Spike,
    SpikeBundle,
    SplintArmor,
    Spyglass,
    Staff,
    StuddedLeatherArmor,
    Tent,
    Tinderbox,
    Torch,
    Totem,
    Trident,
    Vial,
    Violin,
    Wand,
    Warhammer,
    WarPick,
    Waterskin,
    Wax,
    Whetstone,
    Whip,
    Whistle,
}

#[derive(Clone, Copy, Debug, PartialEq, Eq, Structural)]
pub enum CoinType {
    Copper,
    Silver,
    Electrum,
    Gold,
    Platinum,
}

/// A number of coins of one kind.
#[derive(Clone, Copy, Debug, PartialEq, Eq, Structural)]
pub struct CurrencyAmount {
    amount: u32,
    coin_type: CoinType,
}

impl CurrencyAmount {
    /// The number of coins.
    pub closed spec fn spec_amount(self) -> u32 {
        self.amount
    }

    /// The kind of the coins.
    pub closed spec fn spec_coin_type(self) -> CoinType {
        self.coin_type
    }

    pub fn new(amount: u32, coin_type: CoinType) -> (price: Self)
        ensures
            price.spec_amount() == amount,
            price.spec_coin_type() == coin_type,
    {
        Self { amount, coin_type }
    }

    /// No coins at all, counted in copper.
    pub fn zero() -> (price: Self)
        ensures
            price.spec_amount() == 0,
            price.spec_coin_type() == CoinType::Copper,
    {
        Self { amount: 0, coin_type: CoinType::Copper }
    }

    pub fn amount(&self) -> (amount: u32)
        ensures
            amount == self.spec_amount(),
    {
        self.amount
    }

    pub fn coin_type(&self) -> (coin_type: CoinType)
        ensures
            coin_type == self.spec_coin_type(),
    {
        self.coin_type
    }
}

/// The price list: for each kind of item the number of coins it costs and
/// their kind. What has no price of its own costs no copper.
pub open spec fn price_of(item_type: ItemType) -> (u32, CoinType) {
    match item_type {
        ItemType::Abacus => (2, CoinType::Gold),
        ItemType::Amulet => (5, CoinType::Gold),
        ItemType::Arrow => (5, CoinType::Copper),
        ItemType::ArrowBundle => (1, CoinType::Gold),
        ItemType::Backpack => (2, CoinType::Gold),
        ItemType::Bagpipes => (30, CoinType::Gold),
        ItemType::BallBearing => (0, CoinType::Copper),
        ItemType::BallBearingBundle => (1, CoinType::Gold),
        ItemType::Barrel => (2, CoinType::Gold),
        ItemType::Basket => (4, CoinType::Silver),
        ItemType::BatteringRam => (4, CoinType::Gold),
        ItemType::Battleaxe => (10, CoinType::Gold),
        ItemType::Bedroll => (1, CoinType::Gold),
        ItemType::Bell => (1, CoinType::Gold),
        ItemType::Blanket => (5, CoinType::Silver),
        ItemType::BlockAndTackle => (1, CoinType::Gold),
        ItemType::Blowgun => (10, CoinType::Gold),
        ItemType::BlowgunNeedle => (2, CoinType::Copper),
        ItemType::BlowgunNeedleBundle => (1, CoinType::Gold),
        ItemType::Book => (25, CoinType::Gold),
        ItemType::Bottle => (2, CoinType::Gold),
        ItemType::BreastplateArmor => (400, CoinType::Gold),
        ItemType::Bucket => (5, CoinType::Copper),
        ItemType::Caltrop => (5, CoinType::Copper),
        ItemType::CaltropBundle => (1, CoinType::Gold),
        ItemType::Candle => (1, CoinType::Copper),
        ItemType::Chain => (5, CoinType::Gold),
        ItemType::ChainMailArmor => (75, CoinType::Gold),
        ItemType::ChainShirtArmor => (50, CoinType::Gold),
        ItemType::Chalk => (1, CoinType::Copper),
        ItemType::Chest => (5, CoinType::Gold),
        ItemType::ClimbersKit => (25, CoinType::Gold),
        ItemType::ClothesCommon => (5, CoinType::Silver),
        ItemType::ClothesCostume => (5, CoinType::Gold),
        ItemType::ClothesFine => (15, CoinType::Gold),
        ItemType::ClothesTraveler => (2, CoinType::Gold),
        ItemType::Club => (1, CoinType::Silver),
        ItemType::Coin => (0, CoinType::Copper),
        ItemType::ComponentPouch => (25, CoinType::Gold),
        ItemType::CrossbowBolt => (5, CoinType::Copper),
        ItemType::CrossbowBoltBundle => (1, CoinType::Gold),
        ItemType::CrossbowBoltCase => (1, CoinType::Gold),
        ItemType::Crowbar => (2, CoinType::Gold),
        ItemType::Crystal => (10, CoinType::Gold),
        ItemType::Dagger => (2, CoinType::Gold),
        ItemType::Dart => (5, CoinType::Copper),
        ItemType::Drum => (6, CoinType::Gold),
        ItemType::Emblem => (5, CoinType::Gold),
        ItemType::FishingTackle => (1, CoinType::Gold),
        ItemType::Flail => (10, CoinType::Gold),
        ItemType::Flask => (2, CoinType::Copper),
        ItemType::Flute => (2, CoinType::Gold),
        ItemType::Glaive => (20, CoinType::Gold),
        ItemType::GrapplingHook => (2, CoinType::Gold),
        ItemType::Greataxe => (30, CoinType::Gold),
        ItemType::Greatclub => (2, CoinType::Silver),
        ItemType::Greatsword => (50, CoinType::Gold),
        ItemType::Halberd => (20, CoinType::Gold),
        ItemType::HalfPlateArmor => (750, CoinType::Gold),
        ItemType::Hammer => (1, CoinType::Gold),
        ItemType::Handaxe => (5, CoinType::Gold),
        ItemType::HandCrossbow => (75, CoinType::Gold),
        ItemType::HealersKit => (5, CoinType::Gold),
        ItemType::HeavyCrossbow => (50, CoinType::Gold),
        ItemType::HideArmor => (10, CoinType::Gold),
        ItemType::Horn => (3, CoinType::Gold),
        ItemType::Hourglass => (25, CoinType::Gold),
        ItemType::HuntingTrap => (5, CoinType::Gold),
        ItemType::Ink => (10, CoinType::Gold),
        ItemType::Javelin => (5, CoinType::Silver),
        ItemType::Jug => (2, CoinType::Copper),
        ItemType::Ladder => (1, CoinType::Silver),
        ItemType::Lamp => (5, CoinType::Silver),
        ItemType::Lance => (10, CoinType::Gold),
        ItemType::Lantern => (5, CoinType::Gold),
        ItemType::LeatherArmor => (10, CoinType::Gold),
        ItemType::LightCrossbow => (25, CoinType::Gold),
        ItemType::LightHammer => (2, CoinType::Gold),
        ItemType::Lock => (10, CoinType::Gold),
        ItemType::Longbow => (50, CoinType::Gold),
        ItemType::Longsword => (15, CoinType::Gold),
        ItemType::Lute => (35, CoinType::Gold),
        ItemType::Lyre => (30, CoinType::Gold),
        ItemType::Mace => (5, CoinType::Gold),
        ItemType::MagnifyingGlass => (100, CoinType::Gold),
        ItemType::Manacles => (2, CoinType::Gold),
        ItemType::MapCase => (1, CoinType::Gold),
        ItemType::Maul => (10, CoinType::Gold),
        ItemType::MessKit => (2, CoinType::Silver),
        ItemType::Mirror => (5, CoinType::Gold),
        ItemType::Morningstar => (15, CoinType::Gold),
        ItemType::Net => (1, CoinType::Gold),
        ItemType::Orb => (20, CoinType::Gold),
        ItemType::PaddedArmor => (5, CoinType::Gold),
        ItemType::PanFlute => (12, CoinType::Gold),
        ItemType::Paper => (2, CoinType::Silver),
        ItemType::Parchment => (1, CoinType::Silver),
        ItemType::Pen => (2, CoinType::Copper),
        ItemType::Perfume => (5, CoinType::Gold),
        ItemType::Pickaxe => (2, CoinType::Gold),
        ItemType::Pike => (5, CoinType::Gold),
        ItemType::Piton => (5, CoinType::Copper),
        ItemType::PlateArmor => (1500, CoinType::Gold),
        ItemType::Pole => (5, CoinType::Copper),
        ItemType::Pot => (2, CoinType::Gold),
        ItemType::Pouch => (5, CoinType::Silver),
        ItemType::Quarterstaff => (2, CoinType::Silver),
        ItemType::Quiver => (1, CoinType::Gold),
        ItemType::Rapier => (25, CoinType::Gold),
        ItemType::Rations => (5, CoinType::Silver),
        ItemType::Reliquary => (5, CoinType::Gold),
        ItemType::Ring => (5, CoinType::Gold),
        ItemType::RingMailArmor => (30, CoinType::Gold),
        ItemType::Robes => (1, CoinType::Gold),
        ItemType::Rod => (10, CoinType::Gold),
        ItemType::Rope => (1, CoinType::Gold),
        ItemType::Sack => (1, CoinType::Copper),
        ItemType::Scale => (5, CoinType::Gold),
        ItemType::ScaleMailArmor => (50, CoinType::Gold),
        ItemType::Scimitar => (25, CoinType::Gold),
        ItemType::Shield => (10, CoinType::Gold),
        ItemType::Shortbow => (25, CoinType::Gold),
        ItemType::Shortsword => (10, CoinType::Gold),
        ItemType::Shovel => (2, CoinType::Gold),
        ItemType::Sickle => (1, CoinType::Gold),
        ItemType::Sledgehammer => (2, CoinType::Gold),
        ItemType::Sling => (1, CoinType::Silver),
        ItemType::SlingBullet => (0, CoinType::Copper),
        ItemType::SlingBulletBundle => (4, CoinType::Copper),
        ItemType::Soap => (2, CoinType::Copper),
        ItemType::Spear => (1, CoinType::Gold),
        ItemType::Spellbook => (50, CoinType::Gold),
        ItemType::Spike => (10, CoinType::Copper),
        ItemType::SpikeBundle => (1, CoinType::Gold),
        ItemType::SplintArmor => (200, CoinType::Gold),
        ItemType::Spyglass => (1000, CoinType::Gold),
        ItemType::Staff => (5, CoinType::Gold),
        ItemType::StuddedLeatherArmor => (45, CoinType::Gold),
        ItemType::Tent => (2, CoinType::Gold),
        ItemType::Tinderbox => (5, CoinType::Silver),
        ItemType::Torch => (1, CoinType::Copper),
        ItemType::Totem => (1, CoinType::Gold),
        ItemType::Trident => (5, CoinType::Gold),
        ItemType::Vial => (1, CoinType::Gold),
        ItemType::Violin => (30, CoinType::Gold),
        ItemType::Wand => (10, CoinType::Gold),
        ItemType::Warhammer => (15, CoinType::Gold),
        ItemType::WarPick => (5, CoinType::Gold),
        ItemType::Waterskin => (2, CoinType::Silver),
        ItemType::Wax => (5, CoinType::Silver),
        ItemType::Whetstone => (1, CoinType::Copper),
        ItemType::Whip => (2, CoinType::Gold),
        ItemType::Whistle => (5, CoinType::Copper),
    }
}

pub fn get_cost(item_type: ItemType) -> (price: CurrencyAmount)
    ensures
        price.spec_amount() == price_of(item_type).0,
        price.spec_coin_type() == price_of(item_type).1,
{
    let (amount, coin_type): (u32, CoinType) = match item_type {
        ItemType::Abacus => (2, CoinType::Gold),
        ItemType::Amulet => (5, CoinType::Gold),
        ItemType::Arrow => (5, CoinType::Copper),
        ItemType::ArrowBundle => (1, CoinType::Gold),
        ItemType::Backpack => (2, CoinType::Gold),
        ItemType::Bagpipes => (30, CoinType::Gold),
        ItemType::BallBearing => (0, CoinType::Copper),
        ItemType::BallBearingBundle => (1, CoinType::Gold),
        ItemType::Barrel => (2, CoinType::Gold),
        ItemType::Basket => (4, CoinType::Silver),
        ItemType::BatteringRam => (4, CoinType::Gold),
        ItemType::Battleaxe => (10, CoinType::Gold),
        ItemType::Bedroll => (1, CoinType::Gold),
        ItemType::Bell => (1, CoinType::Gold),
        ItemType::Blanket => (5, CoinType::Silver),
        ItemType::BlockAndTackle => (1, CoinType::Gold),
        ItemType::Blowgun => (10, CoinType::Gold),
        ItemType::BlowgunNeedle => (2, CoinType::Copper),
        ItemType::BlowgunNeedleBundle => (1, CoinType::Gold),
        ItemType::Book => (25, CoinType::Gold),
        ItemType::Bottle => (2, CoinType::Gold),
        ItemType::BreastplateArmor => (400, CoinType::Gold),
        ItemType::Bucket => (5, CoinType::Copper),
        ItemType::Caltrop => (5, CoinType::Copper),
        ItemType::CaltropBundle => (1, CoinType::Gold),
        ItemType::Candle => (1, CoinType::Copper),
        ItemType::Chain => (5, CoinType::Gold),
        ItemType::ChainMailArmor => (75, CoinType::Gold),
        ItemType::ChainShirtArmor => (50, CoinType::Gold),
        ItemType::Chalk => (1, CoinType::Copper),
        ItemType::Chest => (5, CoinType::Gold),
        ItemType::ClimbersKit => (25, CoinType::Gold),
        ItemType::ClothesCommon => (5, CoinType::Silver),
        ItemType::ClothesCostume => (5, CoinType::Gold),
        ItemType::ClothesFine => (15, CoinType::Gold),
        ItemType::ClothesTraveler => (2, CoinType::Gold),
        ItemType::Club => (1, CoinType::Silver),
        ItemType::Coin => (0, CoinType::Copper),
        ItemType::ComponentPouch => (25, CoinType::Gold),
        ItemType::CrossbowBolt => (5, CoinType::Copper),
        ItemType::CrossbowBoltBundle => (1, CoinType::Gold),
        ItemType::CrossbowBoltCase => (1, CoinType::Gold),
        ItemType::Crowbar => (2, CoinType::Gold),
        ItemType::Crystal => (10, CoinType::Gold),
        ItemType::Dagger => (2, CoinType::Gold),
        ItemType::Dart => (5, CoinType::Copper),
        ItemType::Drum => (6, CoinType::Gold),
        ItemType::Emblem => (5, CoinType::Gold),
        ItemType::FishingTackle => (1, CoinType::Gold),
        ItemType::Flail => (10, CoinType::Gold),
        ItemType::Flask => (2, CoinType::Copper),
        ItemType::Flute => (2, CoinType::Gold),
        ItemType::Glaive => (20, CoinType::Gold),
        ItemType::GrapplingHook => (2, CoinType::Gold),
        ItemType::Greataxe => (30, CoinType::Gold),
        ItemType::Greatclub => (2, CoinType::Silver),
        ItemType::Greatsword => (50, CoinType::Gold),
        ItemType::Halberd => (20, CoinType::Gold),
        ItemType::HalfPlateArmor => (750, CoinType::Gold),
        ItemType::Hammer => (1, CoinType::Gold),
        ItemType::Handaxe => (5, CoinType::Gold),
        ItemType::HandCrossbow => (75, CoinType::Gold),
        ItemType::HealersKit => (5, CoinType::Gold),
        ItemType::HeavyCrossbow => (50, CoinType::Gold),
        ItemType::HideArmor => (10, CoinType::Gold),
        ItemType::Horn => (3, CoinType::Gold),
        ItemType::Hourglass => (25, CoinType::Gold),
        ItemType::HuntingTrap => (5, CoinType::Gold),
        ItemType::Ink => (10, CoinType::Gold),
        ItemType::Javelin => (5, CoinType::Silver),
        ItemType::Jug => (2, CoinType::Copper),
        ItemType::Ladder => (1, CoinType::Silver),
        ItemType::Lamp => (5, CoinType::Silver),
        ItemType::Lance => (10, CoinType::Gold),
        ItemType::Lantern => (5, CoinType::Gold),
        ItemType::LeatherArmor => (10, CoinType::Gold),
        ItemType::LightCrossbow => (25, CoinType::Gold),
        ItemType::LightHammer => (2, CoinType::Gold),
        ItemType::Lock => (10, CoinType::Gold),
        ItemType::Longbow => (50, CoinType::Gold),
        ItemType::Longsword => (15, CoinType::Gold),
        ItemType::Lute => (35, CoinType::Gold),
        ItemType::Lyre => (30, CoinType::Gold),
        ItemType::Mace => (5, CoinType::Gold),
        ItemType::MagnifyingGlass => (100, CoinType::Gold),
        ItemType::Manacles => (2, CoinType::Gold),
        ItemType::MapCase => (1, CoinType::Gold),
        ItemType::Maul => (10, CoinType::Gold),
        ItemType::MessKit => (2, CoinType::Silver),
        ItemType::Mirror => (5, CoinType::Gold),
        ItemType::Morningstar => (15, CoinType::Gold),
        ItemType::Net => (1, CoinType::Gold),
        ItemType::Orb => (20, CoinType::Gold),
        ItemType::PaddedArmor => (5, CoinType::Gold),
        ItemType::PanFlute => (12, CoinType::Gold),
        ItemType::Paper => (2, CoinType::Silver),
        ItemType::Parchment => (1, CoinType::Silver),
        ItemType::Pen => (2, CoinType::Copper),
        ItemType::Perfume => (5, CoinType::Gold),
        ItemType::Pickaxe => (2, CoinType::Gold),
        ItemType::Pike => (5, CoinType::Gold),
        ItemType::Piton => (5, CoinType::Copper),
        ItemType::PlateArmor => (1500, CoinType::Gold),
        ItemType::Pole => (5, CoinType::Copper),
        ItemType::Pot => (2, CoinType::Gold),
        ItemType::Pouch => (5, CoinType::Silver),
        ItemType::Quarterstaff => (2, CoinType::Silver),
        ItemType::Quiver => (1, CoinType::Gold),
        ItemType::Rapier => (25, CoinType::Gold),
        ItemType::Rations => (5, CoinType::Silver),
        ItemType::Reliquary => (5, CoinType::Gold),
        ItemType::Ring => (5, CoinType::Gold),
        ItemType::RingMailArmor => (30, CoinType::Gold),
        ItemType::Robes => (1, CoinType::Gold),
        ItemType::Rod => (10, CoinType::Gold),
        ItemType::Rope => (1, CoinType::Gold),
        ItemType::Sack => (1, CoinType::Copper),
        ItemType::Scale => (5, CoinType::Gold),
        ItemType::ScaleMailArmor => (50, CoinType::Gold),
        ItemType::Scimitar => (25, CoinType::Gold),
        ItemType::Shield => (10, CoinType::Gold),
        ItemType::Shortbow => (25, CoinType::Gold),
        ItemType::Shortsword => (10, CoinType::Gold),
        ItemType::Shovel => (2, CoinType::Gold),
        ItemType::Sickle => (1, CoinType::Gold),
        ItemType::Sledgehammer => (2, CoinType::Gold),
        ItemType::Sling => (1, CoinType::Silver),
        ItemType::SlingBullet => (0, CoinType::Copper),
        ItemType::SlingBulletBundle => (4, CoinType::Copper),
        ItemType::Soap => (2, CoinType::Copper),
        ItemType::Spear => (1, CoinType::Gold),
        ItemType::Spellbook => (50, CoinType::Gold),
        ItemType::Spike => (10, CoinType::Copper),
        ItemType::SpikeBundle => (1, CoinType::Gold),
        ItemType::SplintArmor => (200, CoinType::Gold),
        ItemType::Spyglass => (1000, CoinType::Gold),
        ItemType::Staff => (5, CoinType::Gold),
        ItemType::StuddedLeatherArmor => (45, CoinType::Gold),
        ItemType::Tent => (2, CoinType::Gold),
        ItemType::Tinderbox => (5, CoinType::Silver),
        ItemType::Torch => (1, CoinType::Copper),
        ItemType::Totem => (1, CoinType::Gold),
        ItemType::Trident => (5, CoinType::Gold),
        ItemType::Vial => (1, CoinType::Gold),
        ItemType::Violin => (30, CoinType::Gold),
        ItemType::Wand => (10, CoinType::Gold),
        ItemType::Warhammer => (15, CoinType::Gold),
        ItemType::WarPick => (5, CoinType::Gold),
        ItemType::Waterskin => (2, CoinType::Silver),
        ItemType::Wax => (5, CoinType::Silver),
        ItemType::Whetstone => (1, CoinType::Copper),
        ItemType::Whip => (2, CoinType::Gold),
        ItemType::Whistle => (5, CoinType::Copper),
    };
    CurrencyAmount::new(amount, coin_type)
}

/// The tags of a kind of item: an arrow is ammunition, and no other kind has
/// a tag yet.
pub open spec fn tags_of(item_type: ItemType) -> Seq<Tag> {
    if item_type == ItemType::Arrow {
        seq![Tag::Ammunition]
    } else {
        Seq::empty()
    }
}

pub fn item_tags(item_type: ItemType) -> (tags: Vec<Tag>)
    ensures
        tags@ == tags_of(item_type),
{
    let mut tags: Vec<Tag> = Vec::new();
    match item_type {
        ItemType::Arrow => {
            tags.push(Tag::Ammunition);
        },
        _ => {},
    }
    tags
}

} // verus!
