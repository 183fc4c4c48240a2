//! Items, their effects, and their conversion from the items data file.
use vstd::prelude::*;
use crate::enums::{EffectTarget, ItemType, Rarity};
use crate::strs::{str_eq, str_lowercase, to_lowercase};

verus! {

/// A single effect applied when an item is used or equipped.
#[derive(Debug)]
pub struct Effect {
    pub target: EffectTarget,
    pub name: String,
    pub amount: i32,
}

/// A game item with stat/skill/trait effects.
#[derive(Debug)]
pub struct Item {
    pub name: String,
    pub desc: String,
    pub item_type: ItemType,
    pub badness: i32,
    pub special: String,
    pub cost: i32,
    pub rarity: Rarity,
    pub infinite: bool,
    pub girl_buy_chance: i32,
    pub effects: Vec<Effect>,
}

/// Model of an effect.
pub struct EffectView {
    pub target: EffectTarget,
    pub name: Seq<char>,
    pub amount: i32,
}

/// Model of an item.
pub struct ItemView {
    pub name: Seq<char>,
    pub desc: Seq<char>,
    pub item_type: ItemType,
    pub badness: i32,
    pub special: Seq<char>,
    pub cost: i32,
    pub rarity: Rarity,
    pub infinite: bool,
    pub girl_buy_chance: i32,
    pub effects: Seq<EffectView>,
}

impl View for Effect {
    type V = EffectView;

    open spec fn view(&self) -> EffectView {
        EffectView { target: self.target, name: self.name@, amount: self.amount }
    }
}

impl View for Item {
    type V = ItemView;

    open spec fn view(&self) -> ItemView {
        ItemView {
            name: self.name@,
            desc: self.desc@,
            item_type: self.item_type,
            badness: self.badness,
            special: self.special@,
            cost: self.cost,
            rarity: self.rarity,
            infinite: self.infinite,
            girl_buy_chance: self.girl_buy_chance,
            effects: self.effects@.map_values(|e: Effect| e@),
        }
    }
}

/// The models of a list of items.
pub open spec fn items_view(items: Seq<Item>) -> Seq<ItemView> {
    items.map_values(|i: Item| i@)
}

/// An effect as written in the items data file.
#[derive(Debug)]
pub struct EffectXml {
    pub what: String,
    pub name: String,
    pub amount: i32,
}

/// An item as written in the items data file (text fields as found).
#[derive(Debug)]
pub struct ItemXml {
    pub name: String,
    pub desc: String,
    pub item_type: String,
    pub badness: i32,
    pub special: String,
    pub cost: i32,
    pub rarity: String,
    pub infinite: String,
    pub girl_buy_chance: i32,
    pub effects: Vec<EffectXml>,
}

/// The items data file.
#[derive(Debug)]
pub struct ItemsXml {
    pub items: Vec<ItemXml>,
}

/// Item type named in the data file; unknown names are `Misc`.
pub open spec fn item_type_from_str(s: Seq<char>) -> ItemType {
    if s == "Food"@ {
        ItemType::Food
    } else if s == "Ring"@ {
        ItemType::Ring
    } else if s == "Necklace"@ {
        ItemType::Necklace
    } else if s == "Dress"@ {
        ItemType::Dress
    } else if s == "Underwear"@ {
        ItemType::Underwear
    } else if s == "Shoes"@ {
        ItemType::Shoes
    } else if s == "Hat"@ {
        ItemType::Hat
    } else if s == "Helmet"@ {
        ItemType::Helmet
    } else if s == "SmallWeapon"@ {
        ItemType::SmallWeapon
    } else if s == "LargeWeapon"@ {
        ItemType::LargeWeapon
    } else if s == "Armor"@ {
        ItemType::Armor
    } else if s == "Shield"@ {
        ItemType::Shield
    } else if s == "Consumable"@ {
        ItemType::Consumable
    } else if s == "Makeup"@ {
        ItemType::Makeup
    } else {
        ItemType::Misc
    }
}

/// Rarity named in the data file; unknown names are `Common`.
pub open spec fn rarity_from_str(s: Seq<char>) -> Rarity {
    if s == "Shop50"@ {
        Rarity::Shop50
    } else if s == "Shop25"@ {
        Rarity::Shop25
    } else if s == "Shop05"@ {
        Rarity::Shop05
    } else if s == "Catacomb15"@ {
        Rarity::Catacomb15
    } else if s == "ScriptOnly"@ {
        Rarity::ScriptOnly
    } else if s == "Reward"@ {
        Rarity::Reward
    } else {
        Rarity::Common
    }
}

/// Effect target named in the data file; unknown names are `Stat`.
pub open spec fn effect_target_from_str(s: Seq<char>) -> EffectTarget {
    if s == "Skill"@ {
        EffectTarget::Skill
    } else if s == "Trait"@ {
        EffectTarget::Trait
    } else {
        EffectTarget::Stat
    }
}

/// Whether a lower-cased flag text means true ("true" or "1").
pub open spec fn is_true_text(lower: Seq<char>) -> bool {
    lower == "true"@ || lower == "1"@
}

/// Item type named in the data file; unknown names are `Misc`.
pub fn item_type_from_name(s: &str) -> (t: ItemType)
    ensures
        t == item_type_from_str(s@),
{
    if str_eq(s, "Food") {
        ItemType::Food
    } else if str_eq(s, "Ring") {
        ItemType::Ring
    } else if str_eq(s, "Necklace") {
        ItemType::Necklace
    } else if str_eq(s, "Dress") {
        ItemType::Dress
    } else if str_eq(s, "Underwear") {
        ItemType::Underwear
    } else if str_eq(s, "Shoes") {
        ItemType::Shoes
    } else if str_eq(s, "Hat") {
        ItemType::Hat
    } else if str_eq(s, "Helmet") {
        ItemType::Helmet
    } else if str_eq(s, "SmallWeapon") {
        ItemType::SmallWeapon
    } else if str_eq(s, "LargeWeapon") {
        ItemType::LargeWeapon
    } else if str_eq(s, "Armor") {
        ItemType::Armor
    } else if str_eq(s, "Shield") {
        ItemType::Shield
    } else if str_eq(s, "Consumable") {
        ItemType::Consumable
    } else if str_eq(s, "Makeup") {
        ItemType::Makeup
    } else {
        ItemType::Misc
    }
}

/// Rarity named in the data file; unknown names are `Common`.
pub fn rarity_from_name(s: &str) -> (r: Rarity)
    ensures
        r == rarity_from_str(s@),
{
    if str_eq(s, "Shop50") {
        Rarity::Shop50
    } else if str_eq(s, "Shop25") {
        Rarity::Shop25
    } else if str_eq(s, "Shop05") {
        Rarity::Shop05
    } else if str_eq(s, "Catacomb15") {
        Rarity::Catacomb15
    } else if str_eq(s, "ScriptOnly") {
        Rarity::ScriptOnly
    } else if str_eq(s, "Reward") {
        Rarity::Reward
    } else {
        Rarity::Common
    }
}

/// Effect target named in the data file; unknown names are `Stat`.
pub fn effect_target_from_name(s: &str) -> (t: EffectTarget)
    ensures
        t == effect_target_from_str(s@),
{
    if str_eq(s, "Skill") {
        EffectTarget::Skill
    } else if str_eq(s, "Trait") {
        EffectTarget::Trait
    } else {
        EffectTarget::Stat
    }
}

/// The name of an item type in the data file.
pub open spec fn item_type_name(t: ItemType) -> Seq<char> {
    match t {
        ItemType::Food => "Food"@,
        ItemType::Ring => "Ring"@,
        ItemType::Necklace => "Necklace"@,
        ItemType::Dress => "Dress"@,
        ItemType::Underwear => "Underwear"@,
        ItemType::Shoes => "Shoes"@,
        ItemType::Hat => "Hat"@,
        ItemType::Helmet => "Helmet"@,
        ItemType::SmallWeapon => "SmallWeapon"@,
        ItemType::LargeWeapon => "LargeWeapon"@,
        ItemType::Armor => "Armor"@,
        ItemType::Shield => "Shield"@,
        ItemType::Consumable => "Consumable"@,
        ItemType::Makeup => "Makeup"@,
        ItemType::Misc => "Misc"@,
    }
}
/// The name of an item type in the data file (see `item_type_name`).
pub fn item_type_to_str(t: ItemType) -> (s: &'static str)
    ensures
        s@ == item_type_name(t),
{
    match t {
        ItemType::Food => "Food",
        ItemType::Ring => "Ring",
        ItemType::Necklace => "Necklace",
        ItemType::Dress => "Dress",
        ItemType::Underwear => "Underwear",
        ItemType::Shoes => "Shoes",
        ItemType::Hat => "Hat",
        ItemType::Helmet => "Helmet",
        ItemType::SmallWeapon => "SmallWeapon",
        ItemType::LargeWeapon => "LargeWeapon",
        ItemType::Armor => "Armor",
        ItemType::Shield => "Shield",
        ItemType::Consumable => "Consumable",
        ItemType::Makeup => "Makeup",
        ItemType::Misc => "Misc",
    }
}
/// The name of a rarity in the data file.
pub open spec fn rarity_name(t: Rarity) -> Seq<char> {
    match t {
        Rarity::Common => "Common"@,
        Rarity::Shop50 => "Shop50"@,
        Rarity::Shop25 => "Shop25"@,
        Rarity::Shop05 => "Shop05"@,
        Rarity::Catacomb15 => "Catacomb15"@,
        Rarity::ScriptOnly => "ScriptOnly"@,
        Rarity::Reward => "Reward"@,
    }
}
/// The name of a rarity in the data file (see `rarity_name`).
pub fn rarity_to_str(t: Rarity) -> (s: &'static str)
    ensures
        s@ == rarity_name(t),
{
    match t {
        Rarity::Common => "Common",
        Rarity::Shop50 => "Shop50",
        Rarity::Shop25 => "Shop25",
        Rarity::Shop05 => "Shop05",
        Rarity::Catacomb15 => "Catacomb15",
        Rarity::ScriptOnly => "ScriptOnly",
        Rarity::Reward => "Reward",
    }
}
/// The name of an effect target in the data file.
pub open spec fn effect_target_name(t: EffectTarget) -> Seq<char> {
    match t {
        EffectTarget::Stat => "Stat"@,
        EffectTarget::Skill => "Skill"@,
        EffectTarget::Trait => "Trait"@,
    }
}
/// The name of an effect target in the data file (see `effect_target_name`).
pub fn effect_target_to_str(t: EffectTarget) -> (s: &'static str)
    ensures
        s@ == effect_target_name(t),
{
    match t {
        EffectTarget::Stat => "Stat",
        EffectTarget::Skill => "Skill",
        EffectTarget::Trait => "Trait",
    }
}
/// Reading back the name written for an item type gives the same type.
pub proof fn law_item_type_name_round_trip(t: ItemType)
    ensures
        item_type_from_str(item_type_name(t)) == t,
{
    match t {
        ItemType::Food => {
            reveal_strlit("Food");
        },
        ItemType::Ring => {
            reveal_strlit("Ring");
            reveal_strlit("Food");
            assert("Ring"@[0] != "Food"@[0]);
        },
        ItemType::Necklace => {
            reveal_strlit("Necklace");
            reveal_strlit("Food");
            assert("Necklace"@.len() != "Food"@.len());
            reveal_strlit("Ring");
            assert("Necklace"@.len() != "Ring"@.len());
        },
        ItemType::Dress => {
            reveal_strlit("Dress");
            reveal_strlit("Food");
            assert("Dress"@.len() != "Food"@.len());
            reveal_strlit("Ring");
            assert("Dress"@.len() != "Ring"@.len());
            reveal_strlit("Necklace");
            assert("Dress"@.len() != "Necklace"@.len());
        },
        ItemType::Underwear => {
            reveal_strlit("Underwear");
            reveal_strlit("Food");
            assert("Underwear"@.len() != "Food"@.len());
            reveal_strlit("Ring");
            assert("Underwear"@.len() != "Ring"@.len());
            reveal_strlit("Necklace");
            assert("Underwear"@.len() != "Necklace"@.len());
            reveal_strlit("Dress");
            assert("Underwear"@.len() != "Dress"@.len());
        },
        ItemType::Shoes => {
            reveal_strlit("Shoes");
            reveal_strlit("Food");
            assert("Shoes"@.len() != "Food"@.len());
            reveal_strlit("Ring");
            assert("Shoes"@.len() != "Ring"@.len());
            reveal_strlit("Necklace");
            assert("Shoes"@.len() != "Necklace"@.len());
            reveal_strlit("Dress");
            assert("Shoes"@[0] != "Dress"@[0]);
            reveal_strlit("Underwear");
            assert("Shoes"@.len() != "Underwear"@.len());
        },
        ItemType::Hat => {
            reveal_strlit("Hat");
            reveal_strlit("Food");
            assert("Hat"@.len() != "Food"@.len());
            reveal_strlit("Ring");
            assert("Hat"@.len() != "Ring"@.len());
            reveal_strlit("Necklace");
            assert("Hat"@.len() != "Necklace"@.len());
            reveal_strlit("Dress");
            assert("Hat"@.len() != "Dress"@.len());
            reveal_strlit("Underwear");
            assert("Hat"@.len() != "Underwear"@.len());
            reveal_strlit("Shoes");
            assert("Hat"@.len() != "Shoes"@.len());
        },
        ItemType::Helmet => {
            reveal_strlit("Helmet");
            reveal_strlit("Food");
            assert("Helmet"@.len() != "Food"@.len());
            reveal_strlit("Ring");
            assert("Helmet"@.len() != "Ring"@.len());
            reveal_strlit("Necklace");
            assert("Helmet"@.len() != "Necklace"@.len());
            reveal_strlit("Dress");
            assert("Helmet"@.len() != "Dress"@.len());
            reveal_strlit("Underwear");
            assert("Helmet"@.len() != "Underwear"@.len());
            reveal_strlit("Shoes");
            assert("Helmet"@.len() != "Shoes"@.len());
            reveal_strlit("Hat");
            assert("Helmet"@.len() != "Hat"@.len());
        },
        ItemType::SmallWeapon => {
            reveal_strlit("SmallWeapon");
            reveal_strlit("Food");
            assert("SmallWeapon"@.len() != "Food"@.len());
            reveal_strlit("Ring");
            assert("SmallWeapon"@.len() != "Ring"@.len());
            reveal_strlit("Necklace");
            assert("SmallWeapon"@.len() != "Necklace"@.len());
            reveal_strlit("Dress");
            assert("SmallWeapon"@.len() != "Dress"@.len());
            reveal_strlit("Underwear");
            assert("SmallWeapon"@.len() != "Underwear"@.len());
            reveal_strlit("Shoes");
            assert("SmallWeapon"@.len() != "Shoes"@.len());
            reveal_strlit("Hat");
            assert("SmallWeapon"@.len() != "Hat"@.len());
            reveal_strlit("Helmet");
            assert("SmallWeapon"@.len() != "Helmet"@.len());
        },
        ItemType::LargeWeapon => {
            reveal_strlit("LargeWeapon");
            reveal_strlit("Food");
            assert("LargeWeapon"@.len() != "Food"@.len());
            reveal_strlit("Ring");
            assert("LargeWeapon"@.len() != "Ring"@.len());
            reveal_strlit("Necklace");
            assert("LargeWeapon"@.len() != "Necklace"@.len());
            reveal_strlit("Dress");
            assert("LargeWeapon"@.len() != "Dress"@.len());
            reveal_strlit("Underwear");
            assert("LargeWeapon"@.len() != "Underwear"@.len());
            reveal_strlit("Shoes");
            assert("LargeWeapon"@.len() != "Shoes"@.len());
            reveal_strlit("Hat");
            assert("LargeWeapon"@.len() != "Hat"@.len());
            reveal_strlit("Helmet");
            assert("LargeWeapon"@.len() != "Helmet"@.len());
            reveal_strlit("SmallWeapon");
            assert("LargeWeapon"@[0] != "SmallWeapon"@[0]);
        },
        ItemType::Armor => {
            reveal_strlit("Armor");
            reveal_strlit("Food");
            assert("Armor"@.len() != "Food"@.len());
            reveal_strlit("Ring");
            assert("Armor"@.len() != "Ring"@.len());
            reveal_strlit("Necklace");
            assert("Armor"@.len() != "Necklace"@.len());
            reveal_strlit("Dress");
            assert("Armor"@[0] != "Dress"@[0]);
            reveal_strlit("Underwear");
            assert("Armor"@.len() != "Underwear"@.len());
            reveal_strlit("Shoes");
            assert("Armor"@[0] != "Shoes"@[0]);
            reveal_strlit("Hat");
            assert("Armor"@.len() != "Hat"@.len());
            reveal_strlit("Helmet");
            assert("Armor"@.len() != "Helmet"@.len());
            reveal_strlit("SmallWeapon");
            assert("Armor"@.len() != "SmallWeapon"@.len());
            reveal_strlit("LargeWeapon");
            assert("Armor"@.len() != "LargeWeapon"@.len());
        },
        ItemType::Shield => {
            reveal_strlit("Shield");
            reveal_strlit("Food");
            assert("Shield"@.len() != "Food"@.len());
            reveal_strlit("Ring");
            assert("Shield"@.len() != "Ring"@.len());
            reveal_strlit("Necklace");
            assert("Shield"@.len() != "Necklace"@.len());
            reveal_strlit("Dress");
            assert("Shield"@.len() != "Dress"@.len());
            reveal_strlit("Underwear");
            assert("Shield"@.len() != "Underwear"@.len());
            reveal_strlit("Shoes");
            assert("Shield"@.len() != "Shoes"@.len());
            reveal_strlit("Hat");
            assert("Shield"@.len() != "Hat"@.len());
            reveal_strlit("Helmet");
            assert("Shield"@[0] != "Helmet"@[0]);
            reveal_strlit("SmallWeapon");
            assert("Shield"@.len() != "SmallWeapon"@.len());
            reveal_strlit("LargeWeapon");
            assert("Shield"@.len() != "LargeWeapon"@.len());
            reveal_strlit("Armor");
            assert("Shield"@.len() != "Armor"@.len());
        },
        ItemType::Consumable => {
            reveal_strlit("Consumable");
            reveal_strlit("Food");
            assert("Consumable"@.len() != "Food"@.len());
            reveal_strlit("Ring");
            assert("Consumable"@.len() != "Ring"@.len());
            reveal_strlit("Necklace");
            assert("Consumable"@.len() != "Necklace"@.len());
            reveal_strlit("Dress");
            assert("Consumable"@.len() != "Dress"@.len());
            reveal_strlit("Underwear");
            assert("Consumable"@.len() != "Underwear"@.len());
            reveal_strlit("Shoes");
            assert("Consumable"@.len() != "Shoes"@.len());
            reveal_strlit("Hat");
            assert("Consumable"@.len() != "Hat"@.len());
            reveal_strlit("Helmet");
            assert("Consumable"@.len() != "Helmet"@.len());
            reveal_strlit("SmallWeapon");
            assert("Consumable"@.len() != "SmallWeapon"@.len());
            reveal_strlit("LargeWeapon");
            assert("Consumable"@.len() != "LargeWeapon"@.len());
            reveal_strlit("Armor");
            assert("Consumable"@.len() != "Armor"@.len());
            reveal_strlit("Shield");
            assert("Consumable"@.len() != "Shield"@.len());
        },
        ItemType::Makeup => {
            reveal_strlit("Makeup");
            reveal_strlit("Food");
            assert("Makeup"@.len() != "Food"@.len());
            reveal_strlit("Ring");
            assert("Makeup"@.len() != "Ring"@.len());
            reveal_strlit("Necklace");
            assert("Makeup"@.len() != "Necklace"@.len());
            reveal_strlit("Dress");
            assert("Makeup"@.len() != "Dress"@.len());
            reveal_strlit("Underwear");
            assert("Makeup"@.len() != "Underwear"@.len());
            reveal_strlit("Shoes");
            assert("Makeup"@.len() != "Shoes"@.len());
            reveal_strlit("Hat");
            assert("Makeup"@.len() != "Hat"@.len());
            reveal_strlit("Helmet");
            assert("Makeup"@[0] != "Helmet"@[0]);
            reveal_strlit("SmallWeapon");
            assert("Makeup"@.len() != "SmallWeapon"@.len());
            reveal_strlit("LargeWeapon");
            assert("Makeup"@.len() != "LargeWeapon"@.len());
            reveal_strlit("Armor");
            assert("Makeup"@.len() != "Armor"@.len());
            reveal_strlit("Shield");
            assert("Makeup"@[0] != "Shield"@[0]);
            reveal_strlit("Consumable");
            assert("Makeup"@.len() != "Consumable"@.len());
        },
        ItemType::Misc => {
            reveal_strlit("Misc");
            reveal_strlit("Food");
            assert("Misc"@[0] != "Food"@[0]);
            reveal_strlit("Ring");
            assert("Misc"@[0] != "Ring"@[0]);
            reveal_strlit("Necklace");
            assert("Misc"@.len() != "Necklace"@.len());
            reveal_strlit("Dress");
            assert("Misc"@.len() != "Dress"@.len());
            reveal_strlit("Underwear");
            assert("Misc"@.len() != "Underwear"@.len());
            reveal_strlit("Shoes");
            assert("Misc"@.len() != "Shoes"@.len());
            reveal_strlit("Hat");
            assert("Misc"@.len() != "Hat"@.len());
            reveal_strlit("Helmet");
            assert("Misc"@.len() != "Helmet"@.len());
            reveal_strlit("SmallWeapon");
            assert("Misc"@.len() != "SmallWeapon"@.len());
            reveal_strlit("LargeWeapon");
            assert("Misc"@.len() != "LargeWeapon"@.len());
            reveal_strlit("Armor");
            assert("Misc"@.len() != "Armor"@.len());
            reveal_strlit("Shield");
            assert("Misc"@.len() != "Shield"@.len());
            reveal_strlit("Consumable");
            assert("Misc"@.len() != "Consumable"@.len());
            reveal_strlit("Makeup");
            assert("Misc"@.len() != "Makeup"@.len());
        },
    }
}
/// Reading back the name written for a rarity gives the same rarity.
pub proof fn law_rarity_name_round_trip(t: Rarity)
    ensures
        rarity_from_str(rarity_name(t)) == t,
{
    match t {
        Rarity::Common => {
            reveal_strlit("Common");
            reveal_strlit("Shop50");
            assert("Common"@[0] != "Shop50"@[0]);
            reveal_strlit("Shop25");
            assert("Common"@[0] != "Shop25"@[0]);
            reveal_strlit("Shop05");
            assert("Common"@[0] != "Shop05"@[0]);
            reveal_strlit("Catacomb15");
            assert("Common"@.len() != "Catacomb15"@.len());
            reveal_strlit("ScriptOnly");
            assert("Common"@.len() != "ScriptOnly"@.len());
            reveal_strlit("Reward");
            assert("Common"@[0] != "Reward"@[0]);
        },
        Rarity::Shop50 => {
            reveal_strlit("Shop50");
        },
        Rarity::Shop25 => {
            reveal_strlit("Shop25");
            reveal_strlit("Shop50");
            assert("Shop25"@[4] != "Shop50"@[4]);
        },
        Rarity::Shop05 => {
            reveal_strlit("Shop05");
            reveal_strlit("Shop50");
            assert("Shop05"@[4] != "Shop50"@[4]);
            reveal_strlit("Shop25");
            assert("Shop05"@[4] != "Shop25"@[4]);
        },
        Rarity::Catacomb15 => {
            reveal_strlit("Catacomb15");
            reveal_strlit("Shop50");
            assert("Catacomb15"@.len() != "Shop50"@.len());
            reveal_strlit("Shop25");
            assert("Catacomb15"@.len() != "Shop25"@.len());
            reveal_strlit("Shop05");
            assert("Catacomb15"@.len() != "Shop05"@.len());
        },
        Rarity::ScriptOnly => {
            reveal_strlit("ScriptOnly");
            reveal_strlit("Shop50");
            assert("ScriptOnly"@.len() != "Shop50"@.len());
            reveal_strlit("Shop25");
            assert("ScriptOnly"@.len() != "Shop25"@.len());
            reveal_strlit("Shop05");
            assert("ScriptOnly"@.len() != "Shop05"@.len());
            reveal_strlit("Catacomb15");
            assert("ScriptOnly"@[0] != "Catacomb15"@[0]);
        },
        Rarity::Reward => {
            reveal_strlit("Reward");
            reveal_strlit("Shop50");
            assert("Reward"@[0] != "Shop50"@[0]);
            reveal_strlit("Shop25");
            assert("Reward"@[0] != "Shop25"@[0]);
            reveal_strlit("Shop05");
            assert("Reward"@[0] != "Shop05"@[0]);
            reveal_strlit("Catacomb15");
            assert("Reward"@.len() != "Catacomb15"@.len());
            reveal_strlit("ScriptOnly");
            assert("Reward"@.len() != "ScriptOnly"@.len());
        },
    }
}
/// Reading back the name written for an effect target gives the same target.
pub proof fn law_effect_target_name_round_trip(t: EffectTarget)
    ensures
        effect_target_from_str(effect_target_name(t)) == t,
{
    match t {
        EffectTarget::Stat => {
            reveal_strlit("Stat");
            reveal_strlit("Skill");
            assert("Stat"@.len() != "Skill"@.len());
            reveal_strlit("Trait");
            assert("Stat"@.len() != "Trait"@.len());
        },
        EffectTarget::Skill => {
            reveal_strlit("Skill");
        },
        EffectTarget::Trait => {
            reveal_strlit("Trait");
            reveal_strlit("Skill");
            assert("Trait"@[0] != "Skill"@[0]);
        },
    }
}

/// Whether a flag text means true: its lower-case form is "true" or "1".
pub fn parse_flag_text(s: &str) -> (b: bool)
    ensures
        b == is_true_text(str_lowercase(s@)),
{
    let lower = to_lowercase(s);
    str_eq(lower.as_str(), "true") || str_eq(lower.as_str(), "1")
}

/// What converting an item of the data file gives.
pub open spec fn item_from_xml(x: ItemXml) -> ItemView {
    ItemView {
        name: x.name@,
        desc: x.desc@,
        item_type: item_type_from_str(x.item_type@),
        badness: x.badness,
        special: x.special@,
        cost: x.cost,
        rarity: rarity_from_str(x.rarity@),
        infinite: is_true_text(str_lowercase(x.infinite@)),
        girl_buy_chance: x.girl_buy_chance,
        effects: x.effects@.map_values(
            |e: EffectXml| EffectView { target: effect_target_from_str(e.what@), name: e.name@, amount: e.amount },
        ),
    }
}

impl ItemXml {
    /// Convert an item of the data file into a game item.
    pub fn into_item(self) -> (item: Item)
        ensures
            item@ == item_from_xml(self),
    {
        let item_type = item_type_from_name(self.item_type.as_str());
        let rarity = rarity_from_name(self.rarity.as_str());
        let infinite = parse_flag_text(self.infinite.as_str());
        let mut effects: Vec<Effect> = Vec::new();
        let n = self.effects.len();
        let mut i: usize = 0;
        while i < n
            invariant
                n == self.effects@.len(),
                i <= n,
                effects@.len() == i,
                forall|j: int|
                    0 <= j < i ==> #[trigger] effects@[j]@ == (EffectView {
                        target: effect_target_from_str(self.effects@[j].what@),
                        name: self.effects@[j].name@,
                        amount: self.effects@[j].amount,
                    }),
            decreases n - i,
        {
            let e = &self.effects[i];
            let target = effect_target_from_name(e.what.as_str());
            effects.push(Effect { target, name: e.name.clone(), amount: e.amount });
            i = i + 1;
        }
        let item = Item {
            name: self.name,
            desc: self.desc,
            item_type,
            badness: self.badness,
            special: self.special,
            cost: self.cost,
            rarity,
            infinite,
            girl_buy_chance: self.girl_buy_chance,
            effects,
        };
        assert(item@.effects =~= item_from_xml(self).effects);
        item
    }
}

} // verus!
