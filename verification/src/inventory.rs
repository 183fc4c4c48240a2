//! A girl's inventory: adding, removing, equipping and unequipping items, the
//! effects items have, and girls buying items for themselves.
use vstd::prelude::*;
use crate::enums::{EffectTarget, ItemType, Skill, Stat};
use crate::girl::{Girl, GirlView, MAX_INVENTORY};
use crate::girls::{stat_min, stat_max, GirlManager};
use crate::item::{EffectView, Item, ItemView, items_view};
use crate::strs::{eq_ignore_ascii_case, eq_ignore_ascii_case_spec, str_eq, str_lowercase, to_lowercase};

verus! {

/// The stat a lower-cased name stands for, if any.
pub open spec fn stat_for_lower(l: Seq<char>) -> Option<Stat> {
    if l == "charisma"@ {
        Some(Stat::Charisma)
    } else if l == "happiness"@ {
        Some(Stat::Happiness)
    } else if l == "libido"@ {
        Some(Stat::Libido)
    } else if l == "constitution"@ {
        Some(Stat::Constitution)
    } else if l == "intelligence"@ {
        Some(Stat::Intelligence)
    } else if l == "confidence"@ {
        Some(Stat::Confidence)
    } else if l == "mana"@ {
        Some(Stat::Mana)
    } else if l == "agility"@ {
        Some(Stat::Agility)
    } else if l == "fame"@ {
        Some(Stat::Fame)
    } else if l == "level"@ {
        Some(Stat::Level)
    } else if l == "askprice"@ {
        Some(Stat::AskPrice)
    } else if l == "ask price"@ {
        Some(Stat::AskPrice)
    } else if l == "houseperc"@ {
        Some(Stat::HousePerc)
    } else if l == "house percentage"@ {
        Some(Stat::HousePerc)
    } else if l == "exp"@ {
        Some(Stat::Exp)
    } else if l == "experience"@ {
        Some(Stat::Exp)
    } else if l == "age"@ {
        Some(Stat::Age)
    } else if l == "obedience"@ {
        Some(Stat::Obedience)
    } else if l == "spirit"@ {
        Some(Stat::Spirit)
    } else if l == "beauty"@ {
        Some(Stat::Beauty)
    } else if l == "tiredness"@ {
        Some(Stat::Tiredness)
    } else if l == "health"@ {
        Some(Stat::Health)
    } else if l == "pcfear"@ {
        Some(Stat::PCFear)
    } else if l == "fear"@ {
        Some(Stat::PCFear)
    } else if l == "pclove"@ {
        Some(Stat::PCLove)
    } else if l == "love"@ {
        Some(Stat::PCLove)
    } else if l == "pchate"@ {
        Some(Stat::PCHate)
    } else if l == "hate"@ {
        Some(Stat::PCHate)
    } else {
        None
    }
}

/// The stat a lower-cased name stands for, if any.
pub fn stat_from_lowercase(l: &str) -> (r: Option<Stat>)
    ensures
        r == stat_for_lower(l@),
{
    if str_eq(l, "charisma") {
        Some(Stat::Charisma)
    } else if str_eq(l, "happiness") {
        Some(Stat::Happiness)
    } else if str_eq(l, "libido") {
        Some(Stat::Libido)
    } else if str_eq(l, "constitution") {
        Some(Stat::Constitution)
    } else if str_eq(l, "intelligence") {
        Some(Stat::Intelligence)
    } else if str_eq(l, "confidence") {
        Some(Stat::Confidence)
    } else if str_eq(l, "mana") {
        Some(Stat::Mana)
    } else if str_eq(l, "agility") {
        Some(Stat::Agility)
    } else if str_eq(l, "fame") {
        Some(Stat::Fame)
    } else if str_eq(l, "level") {
        Some(Stat::Level)
    } else if str_eq(l, "askprice") {
        Some(Stat::AskPrice)
    } else if str_eq(l, "ask price") {
        Some(Stat::AskPrice)
    } else if str_eq(l, "houseperc") {
        Some(Stat::HousePerc)
    } else if str_eq(l, "house percentage") {
        Some(Stat::HousePerc)
    } else if str_eq(l, "exp") {
        Some(Stat::Exp)
    } else if str_eq(l, "experience") {
        Some(Stat::Exp)
    } else if str_eq(l, "age") {
        Some(Stat::Age)
    } else if str_eq(l, "obedience") {
        Some(Stat::Obedience)
    } else if str_eq(l, "spirit") {
        Some(Stat::Spirit)
    } else if str_eq(l, "beauty") {
        Some(Stat::Beauty)
    } else if str_eq(l, "tiredness") {
        Some(Stat::Tiredness)
    } else if str_eq(l, "health") {
        Some(Stat::Health)
    } else if str_eq(l, "pcfear") {
        Some(Stat::PCFear)
    } else if str_eq(l, "fear") {
        Some(Stat::PCFear)
    } else if str_eq(l, "pclove") {
        Some(Stat::PCLove)
    } else if str_eq(l, "love") {
        Some(Stat::PCLove)
    } else if str_eq(l, "pchate") {
        Some(Stat::PCHate)
    } else if str_eq(l, "hate") {
        Some(Stat::PCHate)
    } else {
        None
    }
}

/// Resolve a stat name, ignoring case as `str::to_lowercase` does.
pub fn stat_from_name(name: &str) -> (r: Option<Stat>)
    ensures
        r == stat_for_lower(str_lowercase(name@)),
{
    let lower = to_lowercase(name);
    stat_from_lowercase(lower.as_str())
}
/// The skill a lower-cased name stands for, if any.
pub open spec fn skill_for_lower(l: Seq<char>) -> Option<Skill> {
    if l == "anal"@ {
        Some(Skill::Anal)
    } else if l == "magic"@ {
        Some(Skill::Magic)
    } else if l == "bdsm"@ {
        Some(Skill::BDSM)
    } else if l == "normalsex"@ {
        Some(Skill::NormalSex)
    } else if l == "normal sex"@ {
        Some(Skill::NormalSex)
    } else if l == "sex"@ {
        Some(Skill::NormalSex)
    } else if l == "beastiality"@ {
        Some(Skill::Beastiality)
    } else if l == "bestiality"@ {
        Some(Skill::Beastiality)
    } else if l == "group"@ {
        Some(Skill::Group)
    } else if l == "lesbian"@ {
        Some(Skill::Lesbian)
    } else if l == "service"@ {
        Some(Skill::Service)
    } else if l == "strip"@ {
        Some(Skill::Strip)
    } else if l == "stripping"@ {
        Some(Skill::Strip)
    } else if l == "combat"@ {
        Some(Skill::Combat)
    } else {
        None
    }
}

/// The skill a lower-cased name stands for, if any.
pub fn skill_from_lowercase(l: &str) -> (r: Option<Skill>)
    ensures
        r == skill_for_lower(l@),
{
    if str_eq(l, "anal") {
        Some(Skill::Anal)
    } else if str_eq(l, "magic") {
        Some(Skill::Magic)
    } else if str_eq(l, "bdsm") {
        Some(Skill::BDSM)
    } else if str_eq(l, "normalsex") {
        Some(Skill::NormalSex)
    } else if str_eq(l, "normal sex") {
        Some(Skill::NormalSex)
    } else if str_eq(l, "sex") {
        Some(Skill::NormalSex)
    } else if str_eq(l, "beastiality") {
        Some(Skill::Beastiality)
    } else if str_eq(l, "bestiality") {
        Some(Skill::Beastiality)
    } else if str_eq(l, "group") {
        Some(Skill::Group)
    } else if str_eq(l, "lesbian") {
        Some(Skill::Lesbian)
    } else if str_eq(l, "service") {
        Some(Skill::Service)
    } else if str_eq(l, "strip") {
        Some(Skill::Strip)
    } else if str_eq(l, "stripping") {
        Some(Skill::Strip)
    } else if str_eq(l, "combat") {
        Some(Skill::Combat)
    } else {
        None
    }
}

/// Resolve a skill name, ignoring case as `str::to_lowercase` does.
pub fn skill_from_name(name: &str) -> (r: Option<Skill>)
    ensures
        r == skill_for_lower(str_lowercase(name@)),
{
    let lower = to_lowercase(name);
    skill_from_lowercase(lower.as_str())
}
/// How many items of a type a girl can have equipped at once (0: cannot be equipped).
pub open spec fn max_slots(t: ItemType) -> nat {
    match t {
        ItemType::Ring => 8,
        ItemType::Dress | ItemType::Underwear | ItemType::Shoes | ItemType::Hat | ItemType::Helmet
        | ItemType::Necklace | ItemType::Armor => 1,
        ItemType::SmallWeapon | ItemType::LargeWeapon | ItemType::Shield => 2,
        ItemType::Food | ItemType::Makeup | ItemType::Consumable => 0,
        ItemType::Misc => 0,
    }
}

/// Whether items of the type are consumed on use.
pub open spec fn is_consumable_spec(t: ItemType) -> bool {
    t == ItemType::Food || t == ItemType::Makeup || t == ItemType::Consumable
}

/// Maximum count per item type a girl can equip.
pub fn max_equip_slots(item_type: ItemType) -> (n: usize)
    ensures
        n == max_slots(item_type),
{
    match item_type {
        ItemType::Ring => 8,
        ItemType::Dress | ItemType::Underwear | ItemType::Shoes | ItemType::Hat | ItemType::Helmet
        | ItemType::Necklace | ItemType::Armor => 1,
        ItemType::SmallWeapon | ItemType::LargeWeapon | ItemType::Shield => 2,
        ItemType::Food | ItemType::Makeup | ItemType::Consumable => 0,
        ItemType::Misc => 0,
    }
}

/// Returns true if the item type is consumed on use (removed from the inventory).
pub fn is_consumable(item_type: ItemType) -> (b: bool)
    ensures
        b == is_consumable_spec(item_type),
{
    match item_type {
        ItemType::Food | ItemType::Makeup | ItemType::Consumable => true,
        _ => false,
    }
}

/// Inventory slot `i` holds an equipped, known item of type `t`.
pub open spec fn counts(g: GirlView, items: Seq<ItemView>, t: ItemType, i: int) -> bool {
    &&& 0 <= i < g.inventory.len()
    &&& i < g.equipped.len()
    &&& g.equipped[i]
    &&& (g.inventory[i] as int) < items.len()
    &&& items[g.inventory[i] as int].item_type == t
}

/// Number of the first `n` inventory slots that count for type `t`.
pub open spec fn count_equipped(g: GirlView, items: Seq<ItemView>, t: ItemType, n: int) -> nat
    decreases n,
{
    if n <= 0 {
        0
    } else {
        count_equipped(g, items, t, n - 1) + if counts(g, items, t, n - 1) {
            1nat
        } else {
            0nat
        }
    }
}

/// The last of the first `n` inventory slots that counts for type `t`.
pub open spec fn last_equipped(g: GirlView, items: Seq<ItemView>, t: ItemType, n: int) -> Option<int>
    decreases n,
{
    if n <= 0 {
        None
    } else if counts(g, items, t, n - 1) {
        Some(n - 1)
    } else {
        last_equipped(g, items, t, n - 1)
    }
}

/// Count how many items of a given type a girl has equipped.
pub fn count_equipped_of_type(girl: &Girl, items: &[Item], item_type: ItemType) -> (n: usize)
    ensures
        n == count_equipped(girl@, items_view(items@), item_type, girl@.inventory.len() as int),
{
    let ghost iv = items_view(items@);
    let mut n: usize = 0;
    let mut i: usize = 0;
    while i < girl.inventory.len()
        invariant
            iv == items_view(items@),
            i <= girl@.inventory.len(),
            n == count_equipped(girl@, iv, item_type, i as int),
            n <= i,
        decreases girl@.inventory.len() - i,
    {
        let id = girl.inventory[i];
        if i < girl.equipped.len() && girl.equipped[i] && id < items.len() && items[id].item_type == item_type {
            n = n + 1;
        }
        i = i + 1;
    }
    n
}

/// What checking whether an item type can be equipped answers.
#[derive(Debug, PartialEq, Eq, Structural, Clone, Copy)]
pub enum EquipCheck {
    SlotFree,
    Consumable,
    CannotEquip,
    SlotsFull,
    ForceUnequip(usize),
}

/// Whether a girl can equip an item of type `t`; with `force` and all slots
/// taken, the last equipped slot of that type to take off first.
pub open spec fn can_equip_spec(g: GirlView, items: Seq<ItemView>, t: ItemType, force: bool) -> EquipCheck {
    let max = max_slots(t);
    if max == 0 {
        if is_consumable_spec(t) {
            EquipCheck::Consumable
        } else {
            EquipCheck::CannotEquip
        }
    } else if count_equipped(g, items, t, g.inventory.len() as int) < max {
        EquipCheck::SlotFree
    } else if force {
        match last_equipped(g, items, t, g.inventory.len() as int) {
            Some(i) => EquipCheck::ForceUnequip(i as usize),
            None => EquipCheck::SlotsFull,
        }
    } else {
        EquipCheck::SlotsFull
    }
}

/// Check if a girl can equip an item of the given type.
/// If `force` is true and slots are full, returns the inventory index to unequip first.
pub fn can_equip(girl: &Girl, items: &[Item], item_type: ItemType, force: bool) -> (c: EquipCheck)
    ensures
        c == can_equip_spec(girl@, items_view(items@), item_type, force),
        c matches EquipCheck::ForceUnequip(i) ==> counts(girl@, items_view(items@), item_type, i as int),
{
    let ghost iv = items_view(items@);
    let max = max_equip_slots(item_type);
    if max == 0 {
        if is_consumable(item_type) {
            return EquipCheck::Consumable;
        }
        return EquipCheck::CannotEquip;
    }
    let count = count_equipped_of_type(girl, items, item_type);
    if count < max {
        return EquipCheck::SlotFree;
    }
    if force {
        let mut i = girl.inventory.len();
        while i > 0
            invariant
                iv == items_view(items@),
                force,
                max == max_slots(item_type),
                max != 0,
                count_equipped(girl@, iv, item_type, girl@.inventory.len() as int) >= max,
                i <= girl@.inventory.len(),
                last_equipped(girl@, iv, item_type, girl@.inventory.len() as int) == last_equipped(
                    girl@,
                    iv,
                    item_type,
                    i as int,
                ),
            decreases i,
        {
            let j = i - 1;
            let id = girl.inventory[j];
            if j < girl.equipped.len() && girl.equipped[j] && id < items.len() && items[id].item_type == item_type {
                return EquipCheck::ForceUnequip(j);
            }
            i = j;
        }
    }
    EquipCheck::SlotsFull
}

/// The effect of one item effect on a girl; `reverse` undoes it (negated
/// amounts, trait added and removed the other way round).
pub open spec fn apply_effect(g: GirlView, e: EffectView, temp: bool, reverse: bool) -> GirlView {
    let amount: int = if reverse {
        -e.amount
    } else {
        e.amount as int
    };
    match e.target {
        EffectTarget::Stat => match stat_for_lower(str_lowercase(e.name)) {
            Some(s) => if temp {
                g.add_temp_stat(s, amount)
            } else {
                g.add_stat(s, amount)
            },
            None => g,
        },
        EffectTarget::Skill => match skill_for_lower(str_lowercase(e.name)) {
            Some(k) => if temp {
                g.add_temp_skill(k, amount)
            } else {
                g.add_skill(k, amount)
            },
            None => g,
        },
        EffectTarget::Trait => if (e.amount > 0) != reverse {
            g.with_trait(e.name)
        } else {
            g.without_trait(e.name)
        },
    }
}

/// The effects applied in order.
pub open spec fn apply_effects_spec(g: GirlView, effs: Seq<EffectView>, temp: bool, reverse: bool) -> GirlView
    decreases effs.len(),
{
    if effs.len() == 0 {
        g
    } else {
        apply_effect(apply_effects_spec(g, effs.drop_last(), temp, reverse), effs.last(), temp, reverse)
    }
}

/// An effect whose amount can be negated without overflow wherever the
/// reversal negates it (a stat or skill effect with a known name).
pub open spec fn effect_reversible(e: EffectView) -> bool {
    let named = match e.target {
        EffectTarget::Stat => stat_for_lower(str_lowercase(e.name)) is Some,
        EffectTarget::Skill => skill_for_lower(str_lowercase(e.name)) is Some,
        EffectTarget::Trait => false,
    };
    named ==> e.amount != i32::MIN
}

/// Every effect of the list can be reversed without overflow.
pub open spec fn effects_reversible(effs: Seq<EffectView>) -> bool {
    forall|i: int| 0 <= i < effs.len() ==> effect_reversible(#[trigger] effs[i])
}

/// Whether an item's `special` marks its effects as temporary.
pub open spec fn is_temporary_item(it: ItemView) -> bool {
    eq_ignore_ascii_case_spec(it.special, "temporary"@)
}

/// Apply item effects to a girl.
pub fn apply_effects(girl: &mut Girl, item: &Item, temporary: bool)
    ensures
        final(girl)@ == apply_effects_spec(old(girl)@, item@.effects, temporary, false),
{
    let ghost effs = item@.effects;
    let mut i: usize = 0;
    while i < item.effects.len()
        invariant
            effs == item@.effects,
            i <= effs.len(),
            girl@ == apply_effects_spec(old(girl)@, effs.take(i as int), temporary, false),
        decreases effs.len() - i,
    {
        let effect = &item.effects[i];
        assert(effs[i as int] == effect@);
        match effect.target {
            EffectTarget::Stat => {
                match stat_from_name(effect.name.as_str()) {
                    Some(stat) => {
                        if temporary {
                            GirlManager::update_temp_stat(girl, stat, effect.amount);
                        } else {
                            GirlManager::update_stat(girl, stat, effect.amount);
                        }
                    },
                    None => {},
                }
            },
            EffectTarget::Skill => {
                match skill_from_name(effect.name.as_str()) {
                    Some(skill) => {
                        if temporary {
                            GirlManager::update_temp_skill(girl, skill, effect.amount);
                        } else {
                            GirlManager::update_skill(girl, skill, effect.amount);
                        }
                    },
                    None => {},
                }
            },
            EffectTarget::Trait => {
                if effect.amount > 0 {
                    GirlManager::add_trait(girl, effect.name.as_str());
                } else {
                    GirlManager::remove_trait(girl, effect.name.as_str());
                }
            },
        }
        assert(effs.take(i + 1).drop_last() =~= effs.take(i as int));
        i = i + 1;
    }
    assert(effs.take(effs.len() as int) =~= effs);
}

/// Reverse item effects (on unequip).
pub fn reverse_effects(girl: &mut Girl, item: &Item, temporary: bool)
    requires
        effects_reversible(item@.effects),
    ensures
        final(girl)@ == apply_effects_spec(old(girl)@, item@.effects, temporary, true),
{
    let ghost effs = item@.effects;
    let mut i: usize = 0;
    while i < item.effects.len()
        invariant
            effs == item@.effects,
            effects_reversible(effs),
            i <= effs.len(),
            girl@ == apply_effects_spec(old(girl)@, effs.take(i as int), temporary, true),
        decreases effs.len() - i,
    {
        let effect = &item.effects[i];
        assert(effs[i as int] == effect@);
        assert(effect_reversible(effs[i as int]));
        match effect.target {
            EffectTarget::Stat => {
                match stat_from_name(effect.name.as_str()) {
                    Some(stat) => {
                        if temporary {
                            GirlManager::update_temp_stat(girl, stat, -effect.amount);
                        } else {
                            GirlManager::update_stat(girl, stat, -effect.amount);
                        }
                    },
                    None => {},
                }
            },
            EffectTarget::Skill => {
                match skill_from_name(effect.name.as_str()) {
                    Some(skill) => {
                        if temporary {
                            GirlManager::update_temp_skill(girl, skill, -effect.amount);
                        } else {
                            GirlManager::update_skill(girl, skill, -effect.amount);
                        }
                    },
                    None => {},
                }
            },
            EffectTarget::Trait => {
                if effect.amount > 0 {
                    GirlManager::remove_trait(girl, effect.name.as_str());
                } else {
                    GirlManager::add_trait(girl, effect.name.as_str());
                }
            },
        }
        assert(effs.take(i + 1).drop_last() =~= effs.take(i as int));
        i = i + 1;
    }
    assert(effs.take(effs.len() as int) =~= effs);
}

/// Whether the item's `special` marks its effects as temporary.
fn item_is_temporary(item: &Item) -> (b: bool)
    ensures
        b == is_temporary_item(item@),
{
    eq_ignore_ascii_case(item.special.as_str(), "temporary")
}

/// Add an item to a girl's inventory. Returns false if the inventory is full.
pub fn add_item(girl: &mut Girl, item_id: usize) -> (ok: bool)
    ensures
        ok == (old(girl)@.inventory.len() < MAX_INVENTORY),
        ok ==> final(girl)@ == (GirlView {
            inventory: old(girl)@.inventory.push(item_id),
            equipped: old(girl)@.equipped.push(false),
            ..old(girl)@
        }),
        !ok ==> final(girl)@ == old(girl)@,
{
    if girl.inventory.len() >= MAX_INVENTORY {
        return false;
    }
    girl.inventory.push(item_id);
    girl.equipped.push(false);
    true
}

/// Rust's `/` on integers: the quotient rounded toward zero.
pub open spec fn trunc_div(a: int, b: int) -> int {
    if a >= 0 {
        a / b
    } else {
        -((-a) / b)
    }
}

proof fn lemma_effect_keeps_inventory(g: GirlView, e: EffectView, temp: bool, reverse: bool)
    ensures
        apply_effect(g, e, temp, reverse).inventory == g.inventory,
        apply_effect(g, e, temp, reverse).equipped == g.equipped,
{
}

/// Applying effects changes neither the inventory nor the equipped flags.
pub proof fn lemma_effects_keep_inventory(g: GirlView, effs: Seq<EffectView>, temp: bool, reverse: bool)
    ensures
        apply_effects_spec(g, effs, temp, reverse).inventory == g.inventory,
        apply_effects_spec(g, effs, temp, reverse).equipped == g.equipped,
    decreases effs.len(),
{
    if effs.len() > 0 {
        lemma_effects_keep_inventory(g, effs.drop_last(), temp, reverse);
        lemma_effect_keeps_inventory(apply_effects_spec(g, effs.drop_last(), temp, reverse), effs.last(), temp, reverse);
    }
}

/// The girl after taking off the item in `slot`, and whether it was taken off.
pub open spec fn unequip_spec(g: GirlView, items: Seq<ItemView>, slot: int) -> (GirlView, bool) {
    if slot >= g.equipped.len() || !g.equipped[slot] {
        (g, false)
    } else {
        let id = g.inventory[slot] as int;
        if id >= items.len() {
            (g, false)
        } else {
            let it = items[id];
            let g2 = apply_effects_spec(g, it.effects, is_temporary_item(it), true);
            (GirlView { equipped: g2.equipped.update(slot, false), ..g2 }, true)
        }
    }
}

/// Taking off the item in `slot` runs without panicking: an equipped slot lies
/// within the inventory, and its item's effects can be negated.
pub open spec fn unequip_safe(g: GirlView, items: Seq<ItemView>, slot: int) -> bool {
    (0 <= slot < g.equipped.len() && g.equipped[slot]) ==> (slot < g.inventory.len() && ((g.inventory[slot] as int)
        < items.len() ==> effects_reversible(items[g.inventory[slot] as int].effects)))
}

/// Unequip an item at the given inventory slot, reversing its effects.
pub fn unequip(girl: &mut Girl, items: &[Item], slot: usize) -> (ok: bool)
    requires
        unequip_safe(old(girl)@, items_view(items@), slot as int),
    ensures
        (final(girl)@, ok) == unequip_spec(old(girl)@, items_view(items@), slot as int),
{
    let ghost iv = items_view(items@);
    if slot >= girl.equipped.len() || !girl.equipped[slot] {
        return false;
    }
    let item_id = girl.inventory[slot];
    if item_id >= items.len() {
        return false;
    }
    let item = &items[item_id];
    assert(iv[item_id as int] == item@);
    let is_temporary = item_is_temporary(item);
    reverse_effects(girl, item, is_temporary);
    proof {
        lemma_effects_keep_inventory(old(girl)@, item@.effects, is_temporary, true);
    }
    girl.equipped.set(slot, false);
    true
}

/// The girl with the equipped flags extended by `false` to cover `slot`.
pub open spec fn pad_equipped(g: GirlView, slot: int) -> GirlView {
    if g.equipped.len() <= slot {
        GirlView {
            equipped: g.equipped + Seq::new((slot + 1 - g.equipped.len()) as nat, |i: int| false),
            ..g
        }
    } else {
        g
    }
}

/// The girl after trying to equip the item in `slot`, and whether it worked.
pub open spec fn equip_spec(g0: GirlView, items: Seq<ItemView>, slot: int, force: bool) -> (GirlView, bool) {
    if slot >= g0.inventory.len() {
        (g0, false)
    } else {
        let g = pad_equipped(g0, slot);
        if g.equipped[slot] {
            (g, false)
        } else {
            let id = g.inventory[slot] as int;
            if id >= items.len() {
                (g, false)
            } else {
                let it = items[id];
                match can_equip_spec(g, items, it.item_type, force) {
                    EquipCheck::SlotFree => {
                        let g2 = apply_effects_spec(g, it.effects, is_temporary_item(it), false);
                        (GirlView { equipped: g2.equipped.update(slot, true), ..g2 }, true)
                    },
                    EquipCheck::Consumable => {
                        let g2 = apply_effects_spec(g, it.effects, false, false);
                        (GirlView { inventory: g2.inventory.remove(slot), equipped: g2.equipped.remove(slot), ..g2 }, true)
                    },
                    EquipCheck::ForceUnequip(u) => {
                        let g1 = unequip_spec(g, items, u as int).0;
                        let g2 = apply_effects_spec(g1, it.effects, is_temporary_item(it), false);
                        (GirlView { equipped: g2.equipped.update(slot, true), ..g2 }, true)
                    },
                    _ => (g, false),
                }
            }
        }
    }
}

/// Equipping the item in `slot` runs without panicking: an item that has to
/// make room takes off one whose effects can be negated.
pub open spec fn equip_safe(g0: GirlView, items: Seq<ItemView>, slot: int, force: bool) -> bool {
    slot < g0.inventory.len() ==> {
        let g = pad_equipped(g0, slot);
        (!g.equipped[slot] && (g.inventory[slot] as int) < items.len()) ==> match can_equip_spec(
            g,
            items,
            items[g.inventory[slot] as int].item_type,
            force,
        ) {
            EquipCheck::ForceUnequip(u) => unequip_safe(g, items, u as int),
            _ => true,
        }
    }
}

/// Equip the item at the given inventory slot, applying its effects to the
/// girl. A consumable is used up: its effects apply and it leaves the inventory.
pub fn equip(girl: &mut Girl, items: &[Item], slot: usize, force: bool) -> (ok: bool)
    requires
        equip_safe(old(girl)@, items_view(items@), slot as int, force),
    ensures
        (final(girl)@, ok) == equip_spec(old(girl)@, items_view(items@), slot as int, force),
{
    let ghost iv = items_view(items@);
    if slot >= girl.inventory.len() {
        return false;
    }
    let ghost g0 = girl@;
    if girl.equipped.len() <= slot {
        let ghost n0 = girl.equipped@.len();
        while girl.equipped.len() <= slot
            invariant
                n0 <= girl.equipped@.len() <= slot + 1,
                n0 <= slot,
                g0 == old(girl)@,
                n0 == g0.equipped.len(),
                girl@ == (GirlView {
                    equipped: g0.equipped + Seq::new((girl.equipped@.len() - n0) as nat, |i: int| false),
                    ..g0
                }),
            decreases slot + 1 - girl.equipped@.len(),
        {
            girl.equipped.push(false);
            assert(girl@.equipped =~= g0.equipped + Seq::new((girl.equipped@.len() - n0) as nat, |i: int| false));
        }
    }
    assert(girl@ =~= pad_equipped(g0, slot as int));
    if girl.equipped[slot] {
        return false;
    }
    let item_id = girl.inventory[slot];
    if item_id >= items.len() {
        return false;
    }
    let item = &items[item_id];
    assert(iv[item_id as int] == item@);
    let check = can_equip(girl, items, item.item_type, force);
    match check {
        EquipCheck::SlotFree => {},
        EquipCheck::Consumable => {
            apply_effects(girl, item, false);
            proof {
                lemma_effects_keep_inventory(pad_equipped(g0, slot as int), item@.effects, false, false);
            }
            girl.inventory.remove(slot);
            girl.equipped.remove(slot);
            return true;
        },
        EquipCheck::ForceUnequip(unequip_slot) => {
            unequip(girl, items, unequip_slot);
            proof {
                let g = pad_equipped(g0, slot as int);
                let it = iv[g.inventory[unequip_slot as int] as int];
                lemma_effects_keep_inventory(g, it.effects, is_temporary_item(it), true);
            }
        },
        EquipCheck::SlotsFull | EquipCheck::CannotEquip => {
            return false;
        },
    }
    let ghost g1 = girl@;
    let is_temporary = item_is_temporary(item);
    apply_effects(girl, item, is_temporary);
    proof {
        lemma_effects_keep_inventory(g1, item@.effects, is_temporary, false);
    }
    girl.equipped.set(slot, true);
    true
}

/// The girl after removing the item in `slot` (taken off first if equipped),
/// and whether there was such a slot.
pub open spec fn remove_item_spec(g: GirlView, items: Seq<ItemView>, slot: int) -> (GirlView, bool) {
    if slot >= g.inventory.len() {
        (g, false)
    } else {
        let g1 = if slot < g.equipped.len() && g.equipped[slot] {
            unequip_spec(g, items, slot).0
        } else {
            g
        };
        (
            GirlView {
                inventory: g1.inventory.remove(slot),
                equipped: if slot < g1.equipped.len() {
                    g1.equipped.remove(slot)
                } else {
                    g1.equipped
                },
                ..g1
            },
            true,
        )
    }
}

/// Remove an item from a girl's inventory by slot index; unequips it first if equipped.
pub fn remove_item(girl: &mut Girl, items: &[Item], slot: usize) -> (ok: bool)
    requires
        slot < old(girl)@.inventory.len() ==> unequip_safe(old(girl)@, items_view(items@), slot as int),
    ensures
        (final(girl)@, ok) == remove_item_spec(old(girl)@, items_view(items@), slot as int),
{
    let ghost iv = items_view(items@);
    if slot >= girl.inventory.len() {
        return false;
    }
    if slot < girl.equipped.len() && girl.equipped[slot] {
        unequip(girl, items, slot);
        proof {
            let g = old(girl)@;
            if (g.inventory[slot as int] as int) < iv.len() {
                let it = iv[g.inventory[slot as int] as int];
                lemma_effects_keep_inventory(g, it.effects, is_temporary_item(it), true);
            }
        }
    }
    girl.inventory.remove(slot);
    if slot < girl.equipped.len() {
        girl.equipped.remove(slot);
    }
    true
}

/// Calculate the happiness a girl gets from receiving an item:
/// cost / 20, less the item's badness when positive, within -10..=15.
pub fn happiness_from_item(item: &Item) -> (h: i32)
    requires
        item.badness > 0 ==> trunc_div(item.cost as int, 20) - item.badness >= i32::MIN,
    ensures
        h == crate::girls::clamp(
            trunc_div(item.cost as int, 20) - if item.badness > 0 {
                item.badness as int
            } else {
                0
            },
            -10,
            15,
        ),
{
    let mut happy = item.cost / 20;
    if item.badness > 0 {
        happy = happy - item.badness;
    }
    if happy < -10 {
        -10
    } else if happy > 15 {
        15
    } else {
        happy
    }
}

/// The cheapest equipped item of type `t` among the first `n` slots (the
/// first such slot when costs tie, and only items cheaper than `i32::MAX`),
/// with its cost; `i32::MAX` when there is none.
pub open spec fn worst_scan(g: GirlView, items: Seq<ItemView>, t: ItemType, n: int) -> (Option<int>, int)
    decreases n,
{
    if n <= 0 {
        (None, i32::MAX as int)
    } else {
        let prev = worst_scan(g, items, t, n - 1);
        if counts(g, items, t, n - 1) && (items[g.inventory[n - 1] as int].cost as int) < prev.1 {
            (Some(n - 1), items[g.inventory[n - 1] as int].cost as int)
        } else {
            prev
        }
    }
}

/// Whether buying item `id` first sells an equipped item of the same type to make room:
/// all slots of the type are taken and there is an equipped one to sell.
pub open spec fn buy_must_sell(g: GirlView, items: Seq<ItemView>, id: int) -> bool {
    let t = items[id].item_type;
    &&& max_slots(t) > 0
    &&& count_equipped(g, items, t, g.inventory.len() as int) >= max_slots(t)
    &&& worst_scan(g, items, t, g.inventory.len() as int).0 is Some
}

/// A girl buying item `id` with `gold`: the girl after, her gold after, and
/// whether she bought it and it ended up equipped. She refuses an unknown item, one she cannot afford,
/// or, with the type's slots all taken, one no dearer than the cheapest she
/// wears of that type; otherwise she sells that cheapest one for half its
/// cost, pays, and equips the new item (forcing room), unless her inventory
/// is full, in which case she is refunded. An item that cannot be worn (a
/// misc item) is kept and paid for, but not reported as bought.
pub open spec fn buy_spec(g: GirlView, items: Seq<ItemView>, id: int, gold: int) -> (GirlView, int, bool) {
    if id >= items.len() {
        (g, gold, false)
    } else if gold < items[id].cost {
        (g, gold, false)
    } else {
        let it = items[id];
        let sell = buy_must_sell(g, items, id);
        let w = worst_scan(g, items, it.item_type, g.inventory.len() as int);
        if sell && !(w.1 < it.cost) {
            (g, gold, false)
        } else {
            let g1 = if sell {
                remove_item_spec(g, items, w.0->0).0
            } else {
                g
            };
            let gold1 = if sell {
                gold + trunc_div(w.1, 2)
            } else {
                gold
            };
            if g1.inventory.len() >= MAX_INVENTORY {
                (g1, gold1, false)
            } else {
                let g2 = GirlView { inventory: g1.inventory.push(id as usize), equipped: g1.equipped.push(false), ..g1 };
                let e = equip_spec(g2, items, g2.inventory.len() - 1, true);
                (e.0, gold1 - it.cost, e.1)
            }
        }
    }
}

/// Whether the girl turns the purchase down: an unknown item, too little
/// gold, all the type's slots taken by items no cheaper than it, or (with
/// nothing to sell) a full inventory.
pub open spec fn purchase_refused(g: GirlView, items: Seq<ItemView>, id: int, gold: int) -> bool {
    ||| id >= items.len()
    ||| gold < items[id].cost
    ||| {
        let sell = buy_must_sell(g, items, id);
        let w = worst_scan(g, items, items[id].item_type, g.inventory.len() as int);
        ||| sell && !(w.1 < items[id].cost)
        ||| !sell && g.inventory.len() >= MAX_INVENTORY
    }
}

proof fn lemma_worst_scan_in_range(g: GirlView, items: Seq<ItemView>, t: ItemType, n: int)
    ensures
        worst_scan(g, items, t, n).0 matches Some(j) ==> 0 <= j < n,
    decreases n,
{
    if n > 0 {
        lemma_worst_scan_in_range(g, items, t, n - 1);
    }
}

proof fn lemma_remove_item_shortens(g: GirlView, items: Seq<ItemView>, slot: int)
    requires
        0 <= slot < g.inventory.len(),
    ensures
        remove_item_spec(g, items, slot).0.inventory.len() == g.inventory.len() - 1,
{
    if slot < g.equipped.len() && g.equipped[slot] {
        let id = g.inventory[slot] as int;
        if id < items.len() {
            lemma_effects_keep_inventory(g, items[id].effects, is_temporary_item(items[id]), true);
        }
    }
}

/// A purchase the girl turns down leaves her and her gold as they were, and
/// is not reported as bought; one she goes through with costs her the item's
/// price (less half the cost of an item she sells to make room).
pub proof fn law_refused_purchase_changes_nothing(g: GirlView, items: Seq<ItemView>, id: int, gold: int)
    requires
        0 <= id,
        g.inventory.len() <= MAX_INVENTORY,
    ensures
        purchase_refused(g, items, id, gold) ==> buy_spec(g, items, id, gold) == (g, gold, false),
        !purchase_refused(g, items, id, gold) ==> buy_spec(g, items, id, gold).1 == gold - items[id].cost + (
        if buy_must_sell(g, items, id) {
            trunc_div(worst_scan(g, items, items[id].item_type, g.inventory.len() as int).1, 2)
        } else {
            0
        }),
{
    if !purchase_refused(g, items, id, gold) && buy_must_sell(g, items, id) {
        let w = worst_scan(g, items, items[id].item_type, g.inventory.len() as int);
        lemma_worst_scan_in_range(g, items, items[id].item_type, g.inventory.len() as int);
        lemma_remove_item_shortens(g, items, w.0->0);
    }
}

/// Buying item `id` runs without panicking: the gold sums stay within `i32`,
/// the item sold can be taken off, and equipping the new one can make room.
pub open spec fn buy_safe(g: GirlView, items: Seq<ItemView>, id: int, gold: int) -> bool {
    (id < items.len() && gold >= items[id].cost) ==> {
        let it = items[id];
        let sell = buy_must_sell(g, items, id);
        let w = worst_scan(g, items, it.item_type, g.inventory.len() as int);
        !(sell && !(w.1 < it.cost)) ==> {
            let gold1 = if sell {
                gold + trunc_div(w.1, 2)
            } else {
                gold
            };
            let g1 = if sell {
                remove_item_spec(g, items, w.0->0).0
            } else {
                g
            };
            &&& sell ==> i32::MIN <= gold1 <= i32::MAX
            &&& sell ==> unequip_safe(g, items, w.0->0)
            &&& i32::MIN <= gold1 - it.cost <= i32::MAX
            &&& g1.inventory.len() < MAX_INVENTORY ==> equip_safe(
                GirlView { inventory: g1.inventory.push(id as usize), equipped: g1.equipped.push(false), ..g1 },
                items,
                g1.inventory.len() as int,
                true,
            )
        }
    }
}

/// Girl auto-buys an item: the purchase and its attempt to equip it are
/// made as `buy_spec` says. Returns true if the girl bought and equipped the item.
pub fn girl_buy_item(girl: &mut Girl, items: &[Item], item_id: usize, girl_gold: &mut i32) -> (bought: bool)
    requires
        buy_safe(old(girl)@, items_view(items@), item_id as int, *old(girl_gold) as int),
    ensures
        (final(girl)@, *final(girl_gold) as int, bought) == buy_spec(
            old(girl)@,
            items_view(items@),
            item_id as int,
            *old(girl_gold) as int,
        ),
{
    let ghost iv = items_view(items@);
    let ghost g0 = girl@;
    if item_id >= items.len() {
        return false;
    }
    let item = &items[item_id];
    assert(iv[item_id as int] == item@);
    if *girl_gold < item.cost {
        return false;
    }
    let ghost w = worst_scan(g0, iv, item.item_type, g0.inventory.len() as int);
    let max = max_equip_slots(item.item_type);
    if max > 0 {
        let count = count_equipped_of_type(girl, items, item.item_type);
        if count >= max {
            let mut worst_slot: Option<usize> = None;
            let mut worst_cost: i32 = i32::MAX;
            let mut i: usize = 0;
            while i < girl.inventory.len()
                invariant
                    iv == items_view(items@),
                    *girl == *old(girl),
                    g0 == girl@,
                    i <= g0.inventory.len(),
                    worst_scan(g0, iv, item.item_type, i as int) == (
                        match worst_slot {
                            Some(s) => Some(s as int),
                            None => None::<int>,
                        },
                        worst_cost as int,
                    ),
                decreases g0.inventory.len() - i,
            {
                let inv_id = girl.inventory[i];
                if i < girl.equipped.len() && girl.equipped[i] && inv_id < items.len() && items[inv_id].item_type
                    == item.item_type && items[inv_id].cost < worst_cost {
                    worst_cost = items[inv_id].cost;
                    worst_slot = Some(i);
                }
                i = i + 1;
            }
            match worst_slot {
                Some(slot) => {
                    if worst_cost < item.cost {
                        *girl_gold = *girl_gold + worst_cost / 2;
                        remove_item(girl, items, slot);
                    } else {
                        return false;
                    }
                },
                None => {},
            }
        }
    }
    *girl_gold = *girl_gold - item.cost;
    if !add_item(girl, item_id) {
        *girl_gold = *girl_gold + item.cost;
        return false;
    }
    let slot = girl.inventory.len() - 1;
    equip(girl, items, slot, true)
}


/// A girl model whose stat and skill lists have the lengths a girl has.
pub open spec fn well_shaped(g: GirlView) -> bool {
    &&& g.stats.len() == 22
    &&& g.stat_mods.len() == 22
    &&& g.temp_stats.len() == 22
    &&& g.skills.len() == 10
    &&& g.skill_mods.len() == 10
    &&& g.temp_skills.len() == 10
}

/// The signed amount an effect applies in the given direction.
pub open spec fn signed_amount(e: EffectView, reverse: bool) -> int {
    if reverse {
        -e.amount
    } else {
        e.amount as int
    }
}

/// One effect changes a stat or skill by exactly its amount: it is no trait
/// effect, and the changed value stays within the range (of the stat, of
/// 0..=100 for a skill, of `i32` for a temporary change).
pub open spec fn effect_step_exact(g: GirlView, e: EffectView, temp: bool, reverse: bool) -> bool {
    let a = signed_amount(e, reverse);
    match e.target {
        EffectTarget::Stat => match stat_for_lower(str_lowercase(e.name)) {
            Some(s) => if temp {
                i32::MIN <= g.temp_stats[s.spec_code()] + a <= i32::MAX
            } else {
                stat_min(s) <= g.stats[s.spec_code()] + a <= stat_max(s)
            },
            None => true,
        },
        EffectTarget::Skill => match skill_for_lower(str_lowercase(e.name)) {
            Some(k) => if temp {
                i32::MIN <= g.temp_skills[k.spec_code()] + a <= i32::MAX
            } else {
                0 <= g.skills[k.spec_code()] + a <= 100
            },
            None => true,
        },
        EffectTarget::Trait => false,
    }
}

/// Every effect of the list, applied in order, changes its stat or skill by exactly its amount.
pub open spec fn effects_exact(g: GirlView, effs: Seq<EffectView>, temp: bool, reverse: bool) -> bool
    decreases effs.len(),
{
    effs.len() == 0 || (effects_exact(g, effs.drop_last(), temp, reverse) && effect_step_exact(
        apply_effects_spec(g, effs.drop_last(), temp, reverse),
        effs.last(),
        temp,
        reverse,
    ))
}

/// How much the effects change a given stat (`skill == false`) or skill, in
/// total, when they apply to the temporary values or not.
pub open spec fn total_delta(effs: Seq<EffectView>, skill: bool, code: int, temp_target: bool, temp: bool, reverse: bool) -> int
    decreases effs.len(),
{
    if effs.len() == 0 {
        0
    } else {
        let e = effs.last();
        let hit = temp == temp_target && match e.target {
            EffectTarget::Stat => !skill && match stat_for_lower(str_lowercase(e.name)) {
                Some(s) => s.spec_code() == code,
                None => false,
            },
            EffectTarget::Skill => skill && match skill_for_lower(str_lowercase(e.name)) {
                Some(k) => k.spec_code() == code,
                None => false,
            },
            EffectTarget::Trait => false,
        };
        total_delta(effs.drop_last(), skill, code, temp_target, temp, reverse) + if hit {
            signed_amount(e, reverse)
        } else {
            0
        }
    }
}

/// The girl with every stat and skill value moved by the effects' total changes.
pub open spec fn shifted(g: GirlView, effs: Seq<EffectView>, temp: bool, reverse: bool) -> GirlView {
    GirlView {
        stats: Seq::new(22, |c: int| (g.stats[c] + total_delta(effs, false, c, false, temp, reverse)) as i32),
        temp_stats: Seq::new(22, |c: int| (g.temp_stats[c] + total_delta(effs, false, c, true, temp, reverse)) as i32),
        skills: Seq::new(10, |c: int| (g.skills[c] + total_delta(effs, true, c, false, temp, reverse)) as i32),
        temp_skills: Seq::new(10, |c: int| (g.temp_skills[c] + total_delta(effs, true, c, true, temp, reverse)) as i32),
        ..g
    }
}

proof fn lemma_stat_codes(s: Stat)
    ensures
        0 <= s.spec_code() < 22,
{
}

proof fn lemma_skill_codes(k: Skill)
    ensures
        0 <= k.spec_code() < 10,
{
}

/// The effects' total changes keep every value within `i32`.
pub open spec fn totals_fit(g: GirlView, effs: Seq<EffectView>, temp: bool, reverse: bool) -> bool {
    &&& forall|c: int| 0 <= c < 22 ==> i32::MIN <= g.stats[c] + #[trigger] total_delta(effs, false, c, false, temp, reverse) <= i32::MAX
    &&& forall|c: int| 0 <= c < 22 ==> i32::MIN <= g.temp_stats[c] + #[trigger] total_delta(effs, false, c, true, temp, reverse) <= i32::MAX
    &&& forall|c: int| 0 <= c < 10 ==> i32::MIN <= g.skills[c] + #[trigger] total_delta(effs, true, c, false, temp, reverse) <= i32::MAX
    &&& forall|c: int| 0 <= c < 10 ==> i32::MIN <= g.temp_skills[c] + #[trigger] total_delta(effs, true, c, true, temp, reverse) <= i32::MAX
}

proof fn lemma_step_shift(g: GirlView, effs: Seq<EffectView>, temp: bool, reverse: bool)
    requires
        well_shaped(g),
        effs.len() > 0,
        totals_fit(g, effs.drop_last(), temp, reverse),
        effect_step_exact(shifted(g, effs.drop_last(), temp, reverse), effs.last(), temp, reverse),
    ensures
        apply_effect(shifted(g, effs.drop_last(), temp, reverse), effs.last(), temp, reverse) == shifted(
            g,
            effs,
            temp,
            reverse,
        ),
        totals_fit(g, effs, temp, reverse),
{
    let init = effs.drop_last();
    let h = shifted(g, init, temp, reverse);
    let e = effs.last();
    let r = shifted(g, effs, temp, reverse);
    let x = apply_effect(h, e, temp, reverse);
    match e.target {
        EffectTarget::Stat => match stat_for_lower(str_lowercase(e.name)) {
            Some(st) => {
                lemma_stat_codes(st);
                if temp {
                    assert(x.temp_stats =~= r.temp_stats);
                    assert(x.stats =~= r.stats);
                } else {
                    assert(x.stats =~= r.stats);
                    assert(x.temp_stats =~= r.temp_stats);
                }
                assert(x.skills =~= r.skills);
                assert(x.temp_skills =~= r.temp_skills);
            },
            None => {
                assert(x.stats =~= r.stats);
                assert(x.temp_stats =~= r.temp_stats);
                assert(x.skills =~= r.skills);
                assert(x.temp_skills =~= r.temp_skills);
            },
        },
        EffectTarget::Skill => match skill_for_lower(str_lowercase(e.name)) {
            Some(k) => {
                lemma_skill_codes(k);
                if temp {
                    assert(x.temp_skills =~= r.temp_skills);
                    assert(x.skills =~= r.skills);
                } else {
                    assert(x.skills =~= r.skills);
                    assert(x.temp_skills =~= r.temp_skills);
                }
                assert(x.stats =~= r.stats);
                assert(x.temp_stats =~= r.temp_stats);
            },
            None => {
                assert(x.stats =~= r.stats);
                assert(x.temp_stats =~= r.temp_stats);
                assert(x.skills =~= r.skills);
                assert(x.temp_skills =~= r.temp_skills);
            },
        },
        EffectTarget::Trait => {},
    }
    assert(x =~= r);
    assert forall|c: int| 0 <= c < 22 implies i32::MIN <= g.stats[c] + #[trigger] total_delta(effs, false, c, false, temp, reverse) <= i32::MAX by {
        assert(i32::MIN <= g.stats[c] + total_delta(init, false, c, false, temp, reverse) <= i32::MAX);
        assert(x.stats[c] == r.stats[c]);
    }
    assert forall|c: int| 0 <= c < 22 implies i32::MIN <= g.temp_stats[c] + #[trigger] total_delta(effs, false, c, true, temp, reverse) <= i32::MAX by {
        assert(i32::MIN <= g.temp_stats[c] + total_delta(init, false, c, true, temp, reverse) <= i32::MAX);
        assert(x.temp_stats[c] == r.temp_stats[c]);
    }
    assert forall|c: int| 0 <= c < 10 implies i32::MIN <= g.skills[c] + #[trigger] total_delta(effs, true, c, false, temp, reverse) <= i32::MAX by {
        assert(i32::MIN <= g.skills[c] + total_delta(init, true, c, false, temp, reverse) <= i32::MAX);
        assert(x.skills[c] == r.skills[c]);
    }
    assert forall|c: int| 0 <= c < 10 implies i32::MIN <= g.temp_skills[c] + #[trigger] total_delta(effs, true, c, true, temp, reverse) <= i32::MAX by {
        assert(i32::MIN <= g.temp_skills[c] + total_delta(init, true, c, true, temp, reverse) <= i32::MAX);
        assert(x.temp_skills[c] == r.temp_skills[c]);
    }
}

proof fn lemma_exact_effects_shift(g: GirlView, effs: Seq<EffectView>, temp: bool, reverse: bool)
    requires
        well_shaped(g),
        effects_exact(g, effs, temp, reverse),
    ensures
        apply_effects_spec(g, effs, temp, reverse) == shifted(g, effs, temp, reverse),
        totals_fit(g, effs, temp, reverse),
    decreases effs.len(),
{
    if effs.len() == 0 {
        assert(shifted(g, effs, temp, reverse).stats =~= g.stats);
        assert(shifted(g, effs, temp, reverse).temp_stats =~= g.temp_stats);
        assert(shifted(g, effs, temp, reverse).skills =~= g.skills);
        assert(shifted(g, effs, temp, reverse).temp_skills =~= g.temp_skills);
        assert(shifted(g, effs, temp, reverse) =~= g);
    } else {
        lemma_exact_effects_shift(g, effs.drop_last(), temp, reverse);
        lemma_step_shift(g, effs, temp, reverse);
    }
}

proof fn lemma_delta_reverse(effs: Seq<EffectView>, skill: bool, code: int, temp_target: bool, temp: bool)
    ensures
        total_delta(effs, skill, code, temp_target, temp, true) == -total_delta(
            effs,
            skill,
            code,
            temp_target,
            temp,
            false,
        ),
    decreases effs.len(),
{
    if effs.len() > 0 {
        lemma_delta_reverse(effs.drop_last(), skill, code, temp_target, temp);
    }
}

/// Reversing the effects of an item right after applying them gives the girl
/// back as she was, when every step of both passes changes its stat or skill
/// by exactly its amount (no trait effects, no value pressed against an end
/// of its range).
pub proof fn law_effects_undone(g: GirlView, effs: Seq<EffectView>, temp: bool)
    requires
        well_shaped(g),
        effects_exact(g, effs, temp, false),
        effects_exact(apply_effects_spec(g, effs, temp, false), effs, temp, true),
    ensures
        apply_effects_spec(apply_effects_spec(g, effs, temp, false), effs, temp, true) == g,
{
    lemma_exact_effects_shift(g, effs, temp, false);
    let f = shifted(g, effs, temp, false);
    assert(well_shaped(f));
    lemma_exact_effects_shift(f, effs, temp, true);
    let b = shifted(f, effs, temp, true);
    assert forall|c: int| 0 <= c < 22 implies #[trigger] b.stats[c] == g.stats[c] by {
        lemma_delta_reverse(effs, false, c, false, temp);
        assert(i32::MIN <= g.stats[c] + total_delta(effs, false, c, false, temp, false) <= i32::MAX);
    }
    assert forall|c: int| 0 <= c < 22 implies #[trigger] b.temp_stats[c] == g.temp_stats[c] by {
        lemma_delta_reverse(effs, false, c, true, temp);
        assert(i32::MIN <= g.temp_stats[c] + total_delta(effs, false, c, true, temp, false) <= i32::MAX);
    }
    assert forall|c: int| 0 <= c < 10 implies #[trigger] b.skills[c] == g.skills[c] by {
        lemma_delta_reverse(effs, true, c, false, temp);
        assert(i32::MIN <= g.skills[c] + total_delta(effs, true, c, false, temp, false) <= i32::MAX);
    }
    assert forall|c: int| 0 <= c < 10 implies #[trigger] b.temp_skills[c] == g.temp_skills[c] by {
        lemma_delta_reverse(effs, true, c, true, temp);
        assert(i32::MIN <= g.temp_skills[c] + total_delta(effs, true, c, true, temp, false) <= i32::MAX);
    }
    assert(b.stats =~= g.stats);
    assert(b.temp_stats =~= g.temp_stats);
    assert(b.skills =~= g.skills);
    assert(b.temp_skills =~= g.temp_skills);
    assert(b =~= g);
}

proof fn lemma_effect_ignores_equipped(g: GirlView, eq: Seq<bool>, e: EffectView, temp: bool, reverse: bool)
    ensures
        apply_effect(GirlView { equipped: eq, ..g }, e, temp, reverse) == (GirlView {
            equipped: eq,
            ..apply_effect(g, e, temp, reverse)
        }),
{
    let ge = GirlView { equipped: eq, ..g };
    match e.target {
        EffectTarget::Trait => {
            if (e.amount > 0) != reverse {
                assert(apply_effect(ge, e, temp, reverse) =~= (GirlView { equipped: eq, ..apply_effect(g, e, temp, reverse) }));
            } else {
                assert(apply_effect(ge, e, temp, reverse) =~= (GirlView { equipped: eq, ..apply_effect(g, e, temp, reverse) }));
            }
        },
        _ => {
            assert(apply_effect(ge, e, temp, reverse) =~= (GirlView { equipped: eq, ..apply_effect(g, e, temp, reverse) }));
        },
    }
}

proof fn lemma_effects_ignore_equipped(g: GirlView, eq: Seq<bool>, effs: Seq<EffectView>, temp: bool, reverse: bool)
    ensures
        apply_effects_spec(GirlView { equipped: eq, ..g }, effs, temp, reverse) == (GirlView {
            equipped: eq,
            ..apply_effects_spec(g, effs, temp, reverse)
        }),
    decreases effs.len(),
{
    if effs.len() > 0 {
        lemma_effects_ignore_equipped(g, eq, effs.drop_last(), temp, reverse);
        let h = apply_effects_spec(g, effs.drop_last(), temp, reverse);
        lemma_effect_ignores_equipped(h, eq, effs.last(), temp, reverse);
    }
}

/// Taking an item off right after putting it on gives the girl back as she
/// was: for an item that fits in a free slot, whose effects change their
/// stats and skills by exactly their amounts both ways (see `law_effects_undone`).
pub proof fn law_equip_then_unequip(g: GirlView, items: Seq<ItemView>, slot: int, force: bool)
    requires
        well_shaped(g),
        0 <= slot < g.inventory.len(),
        slot < g.equipped.len(),
        !g.equipped[slot],
        (g.inventory[slot] as int) < items.len(),
        can_equip_spec(g, items, items[g.inventory[slot] as int].item_type, force) == EquipCheck::SlotFree,
        effects_exact(
            g,
            items[g.inventory[slot] as int].effects,
            is_temporary_item(items[g.inventory[slot] as int]),
            false,
        ),
        effects_exact(
            apply_effects_spec(
                g,
                items[g.inventory[slot] as int].effects,
                is_temporary_item(items[g.inventory[slot] as int]),
                false,
            ),
            items[g.inventory[slot] as int].effects,
            is_temporary_item(items[g.inventory[slot] as int]),
            true,
        ),
    ensures
        equip_spec(g, items, slot, force).1,
        unequip_spec(equip_spec(g, items, slot, force).0, items, slot) == (g, true),
{
    let it = items[g.inventory[slot] as int];
    let t = is_temporary_item(it);
    assert(pad_equipped(g, slot) == g);
    let g2 = apply_effects_spec(g, it.effects, t, false);
    lemma_effects_keep_inventory(g, it.effects, t, false);
    let g1 = GirlView { equipped: g2.equipped.update(slot, true), ..g2 };
    assert(equip_spec(g, items, slot, force) == (g1, true));
    lemma_effects_ignore_equipped(g2, g1.equipped, it.effects, t, true);
    assert(g1 == GirlView { equipped: g1.equipped, ..g2 });
    law_effects_undone(g, it.effects, t);
    let g3 = apply_effects_spec(g1, it.effects, t, true);
    assert(g3 == GirlView { equipped: g1.equipped, ..g });
    assert(g3.equipped.update(slot, false) =~= g.equipped);
    assert((GirlView { equipped: g3.equipped.update(slot, false), ..g3 }) =~= g);
}

proof fn lemma_count_one_change(g1: GirlView, g2: GirlView, items: Seq<ItemView>, t: ItemType, n: int, k: int)
    requires
        0 <= k,
        forall|i: int| 0 <= i < n && i != k ==> counts(g1, items, t, i) == counts(g2, items, t, i),
    ensures
        count_equipped(g2, items, t, n) + (if k < n && counts(g1, items, t, k) { 1int } else { 0int })
            == count_equipped(g1, items, t, n) + (if k < n && counts(g2, items, t, k) { 1int } else { 0int }),
    decreases n,
{
    if n > 0 {
        lemma_count_one_change(g1, g2, items, t, n - 1, k);
    }
}

proof fn lemma_last_equipped(g: GirlView, items: Seq<ItemView>, t: ItemType, n: int)
    ensures
        count_equipped(g, items, t, n) > 0 ==> last_equipped(g, items, t, n) is Some,
        last_equipped(g, items, t, n) matches Some(u) ==> {
            &&& 0 <= u < n
            &&& counts(g, items, t, u)
            &&& forall|j: int| u < j < n ==> !#[trigger] counts(g, items, t, j)
        },
    decreases n,
{
    if n > 0 {
        lemma_last_equipped(g, items, t, n - 1);
    }
}

/// Equipping an item whose type has slots never takes a girl past the number
/// of slots of that type: it succeeds exactly when a slot is free or it may
/// make room, and then the item is on. Making room takes off the last
/// equipped item of that type in her inventory, and the count stays at the
/// limit.
pub proof fn law_equip_respects_slot_limit(g: GirlView, items: Seq<ItemView>, slot: int, force: bool)
    requires
        g.equipped.len() == g.inventory.len(),
        g.inventory.len() <= usize::MAX,
        0 <= slot < g.inventory.len(),
        !g.equipped[slot],
        (g.inventory[slot] as int) < items.len(),
        max_slots(items[g.inventory[slot] as int].item_type) > 0,
        count_equipped(g, items, items[g.inventory[slot] as int].item_type, g.inventory.len() as int)
            <= max_slots(items[g.inventory[slot] as int].item_type),
    ensures
        ({
            let t = items[g.inventory[slot] as int].item_type;
            let n = g.inventory.len() as int;
            let (g2, ok) = equip_spec(g, items, slot, force);
            &&& ok == (count_equipped(g, items, t, n) < max_slots(t) || force)
            &&& !ok ==> g2 == g
            &&& ok ==> g2.inventory == g.inventory && g2.equipped[slot]
                && count_equipped(g2, items, t, n) <= max_slots(t)
            &&& ok && count_equipped(g, items, t, n) == max_slots(t) ==> {
                &&& last_equipped(g, items, t, n) matches Some(u)
                &&& counts(g, items, t, u)
                &&& forall|j: int| u < j < n ==> !#[trigger] counts(g, items, t, j)
                &&& !g2.equipped[u]
                &&& count_equipped(g2, items, t, n) == max_slots(t)
            }
        }),
{
    let it = items[g.inventory[slot] as int];
    let t = it.item_type;
    let tmp = is_temporary_item(it);
    let n = g.inventory.len() as int;
    assert(pad_equipped(g, slot) == g);
    lemma_last_equipped(g, items, t, n);
    if count_equipped(g, items, t, n) < max_slots(t) {
        let ga = apply_effects_spec(g, it.effects, tmp, false);
        lemma_effects_keep_inventory(g, it.effects, tmp, false);
        let gf = GirlView { equipped: ga.equipped.update(slot, true), ..ga };
        assert(equip_spec(g, items, slot, force) == (gf, true));
        lemma_count_one_change(g, gf, items, t, n, slot);
    } else if force {
        let u = last_equipped(g, items, t, n).unwrap();
        let ur = items[g.inventory[u] as int];
        let gr = apply_effects_spec(g, ur.effects, is_temporary_item(ur), true);
        lemma_effects_keep_inventory(g, ur.effects, is_temporary_item(ur), true);
        let g1 = GirlView { equipped: gr.equipped.update(u, false), ..gr };
        assert(can_equip_spec(g, items, t, force) == EquipCheck::ForceUnequip(u as usize));
        assert((u as usize) as int == u);
        assert(unequip_spec(g, items, u).0 == g1);
        lemma_count_one_change(g, g1, items, t, n, u);
        let ga = apply_effects_spec(g1, it.effects, tmp, false);
        lemma_effects_keep_inventory(g1, it.effects, tmp, false);
        let gf = GirlView { equipped: ga.equipped.update(slot, true), ..ga };
        assert(equip_spec(g, items, slot, force) == (gf, true));
        assert(!counts(g1, items, t, slot));
        lemma_count_one_change(g1, gf, items, t, n, slot);
    }
}

/// Equipping with force when every slot of the item's type is taken always
/// succeeds: the last equipped item of that type in her inventory is taken
/// off (its effects reversed as `unequip` does), the new item is put on (its
/// effects applied), and the count of that type stays exactly at the limit.
pub proof fn law_forced_equip_keeps_count_at_limit(g: GirlView, items: Seq<ItemView>, slot: int)
    requires
        g.equipped.len() == g.inventory.len(),
        g.inventory.len() <= usize::MAX,
        0 <= slot < g.inventory.len(),
        !g.equipped[slot],
        (g.inventory[slot] as int) < items.len(),
        max_slots(items[g.inventory[slot] as int].item_type) > 0,
        count_equipped(g, items, items[g.inventory[slot] as int].item_type, g.inventory.len() as int)
            == max_slots(items[g.inventory[slot] as int].item_type),
    ensures
        ({
            let it = items[g.inventory[slot] as int];
            let t = it.item_type;
            let n = g.inventory.len() as int;
            let (g2, ok) = equip_spec(g, items, slot, true);
            &&& ok
            &&& last_equipped(g, items, t, n) matches Some(u)
            &&& counts(g, items, t, u)
            &&& forall|j: int| u < j < n ==> !#[trigger] counts(g, items, t, j)
            &&& unequip_spec(g, items, u).1
            &&& g2 == ({
                let g1 = unequip_spec(g, items, u).0;
                let ga = apply_effects_spec(g1, it.effects, is_temporary_item(it), false);
                GirlView { equipped: ga.equipped.update(slot, true), ..ga }
            })
            &&& !g2.equipped[u]
            &&& g2.equipped[slot]
            &&& count_equipped(g2, items, t, n) == max_slots(t)
        }),
{
    let t = items[g.inventory[slot] as int].item_type;
    let n = g.inventory.len() as int;
    law_equip_respects_slot_limit(g, items, slot, true);
    lemma_last_equipped(g, items, t, n);
    let u = last_equipped(g, items, t, n).unwrap();
    assert(pad_equipped(g, slot) == g);
    assert(can_equip_spec(g, items, t, true) == EquipCheck::ForceUnequip(u as usize));
    assert((u as usize) as int == u);
}

/// An item added to a girl's inventory and then removed from its slot leaves
/// her as she was, when her equipped flags cover her inventory and it has room.
pub proof fn law_add_then_remove_item(g: GirlView, items: Seq<ItemView>, id: usize)
    requires
        g.equipped.len() == g.inventory.len(),
        g.inventory.len() < MAX_INVENTORY,
    ensures
        remove_item_spec(
            GirlView { inventory: g.inventory.push(id), equipped: g.equipped.push(false), ..g },
            items,
            g.inventory.len() as int,
        ) == (g, true),
{
    let g1 = GirlView { inventory: g.inventory.push(id), equipped: g.equipped.push(false), ..g };
    assert(g1.inventory.remove(g.inventory.len() as int) =~= g.inventory);
    assert(g1.equipped.remove(g.inventory.len() as int) =~= g.equipped);
    assert(remove_item_spec(g1, items, g.inventory.len() as int).0 =~= g);
}

} // verus!
