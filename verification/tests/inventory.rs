use wmrust::enums::{EffectTarget, ItemType, Rarity, Stat};
use wmrust::girl::Girl;
use wmrust::girls::GirlManager;
use wmrust::inventory::{
    add_item, can_equip, count_equipped_of_type, equip, girl_buy_item, happiness_from_item, remove_item, unequip, EquipCheck,
};
use wmrust::item::{Effect, Item};

fn make_ring(name: &str, stat: &str, amount: i32) -> Item {
    Item {
        name: name.to_string(),
        desc: String::new(),
        item_type: ItemType::Ring,
        badness: 0,
        special: String::new(),
        cost: 100,
        rarity: Rarity::Common,
        infinite: false,
        girl_buy_chance: 0,
        effects: vec![Effect { target: EffectTarget::Stat, name: stat.to_string(), amount }],
    }
}

#[test]
fn test_equip_unequip_ring() {
    let items = vec![make_ring("Ring of Power", "Charisma", 10)];
    let mut girl = Girl::default();
    add_item(&mut girl, 0);

    let base = GirlManager::get_stat(&girl, Stat::Charisma);
    equip(&mut girl, &items, 0, false);
    assert!(girl.equipped[0]);
    assert_eq!(GirlManager::get_stat(&girl, Stat::Charisma), base + 10);

    unequip(&mut girl, &items, 0);
    assert!(!girl.equipped[0]);
    assert_eq!(GirlManager::get_stat(&girl, Stat::Charisma), base);
}

#[test]
fn test_ring_slot_limit() {
    let items: Vec<Item> = (0..9).map(|i| make_ring(&format!("Ring {i}"), "Charisma", 1)).collect();
    let mut girl = Girl::default();
    // Add and equip 8 rings
    for id in 0..8 {
        add_item(&mut girl, id);
        assert!(equip(&mut girl, &items, id, false));
    }
    // 9th ring should fail without force
    add_item(&mut girl, 8);
    assert!(!equip(&mut girl, &items, 8, false));
}

#[test]
fn test_consumable_removed() {
    let items = vec![Item {
        name: "Healing Food".to_string(),
        desc: String::new(),
        item_type: ItemType::Food,
        badness: 0,
        special: String::new(),
        cost: 10,
        rarity: Rarity::Common,
        infinite: false,
        girl_buy_chance: 0,
        effects: vec![Effect { target: EffectTarget::Stat, name: "Health".to_string(), amount: 20 }],
    }];
    let mut girl = Girl::default();
    let base_hp = GirlManager::get_stat(&girl, Stat::Health);
    add_item(&mut girl, 0);
    equip(&mut girl, &items, 0, false);
    // Item consumed — removed from inventory
    assert!(girl.inventory.is_empty());
    assert_eq!(GirlManager::get_stat(&girl, Stat::Health), base_hp + 20);
}

#[test]
fn test_happiness_from_item() {
    let item = make_ring("Cheap Ring", "Charisma", 1);
    assert_eq!(happiness_from_item(&item), 5); // 100/20 = 5
}

#[test]
fn happiness_clamped_and_badness() {
    let mut item = make_ring("Dear Ring", "Charisma", 1);
    item.cost = 1000;
    assert_eq!(happiness_from_item(&item), 15);
    item.cost = 100;
    item.badness = 30;
    assert_eq!(happiness_from_item(&item), -10);
    item.badness = 2;
    assert_eq!(happiness_from_item(&item), 3);
}

#[test]
fn ring_slots_and_force() {
    let items: Vec<Item> = (0..9).map(|i| make_ring(&format!("Ring {i}"), "Charisma", 1)).collect();
    let mut girl = Girl::default();
    for id in 0..9 {
        add_item(&mut girl, id);
    }
    for slot in 0..8 {
        assert!(equip(&mut girl, &items, slot, false));
    }
    assert_eq!(can_equip(&girl, &items, ItemType::Ring, false), EquipCheck::SlotsFull);
    assert_eq!(can_equip(&girl, &items, ItemType::Ring, true), EquipCheck::ForceUnequip(7));
    assert!(equip(&mut girl, &items, 8, true));
    assert!(!girl.equipped[7]);
    assert!(girl.equipped[8]);
    assert_eq!(GirlManager::get_stat(&girl, Stat::Charisma), 8);
}

#[test]
fn inventory_full_and_remove() {
    let items = vec![make_ring("Ring", "Charisma", 5)];
    let mut girl = Girl::default();
    for _ in 0..40 {
        assert!(add_item(&mut girl, 0));
    }
    assert!(!add_item(&mut girl, 0));
    assert!(equip(&mut girl, &items, 3, false));
    assert_eq!(GirlManager::get_stat(&girl, Stat::Charisma), 5);
    assert!(remove_item(&mut girl, &items, 3));
    assert_eq!(GirlManager::get_stat(&girl, Stat::Charisma), 0);
    assert_eq!(girl.inventory.len(), 39);
    assert!(!remove_item(&mut girl, &items, 39));
}

#[test]
fn add_then_remove_leaves_girl_unchanged() {
    let items = vec![make_ring("Ring", "Charisma", 5)];
    let mut girl = Girl::default();
    add_item(&mut girl, 0);
    remove_item(&mut girl, &items, 0);
    assert!(girl.inventory.is_empty());
    assert!(girl.equipped.is_empty());
}

#[test]
fn misc_items_cannot_be_equipped() {
    let mut item = make_ring("Junk", "Charisma", 5);
    item.item_type = ItemType::Misc;
    let items = vec![item];
    let mut girl = Girl::default();
    add_item(&mut girl, 0);
    assert_eq!(can_equip(&girl, &items, ItemType::Misc, false), EquipCheck::CannotEquip);
    assert!(!equip(&mut girl, &items, 0, false));
    assert!(!unequip(&mut girl, &items, 0));
}

#[test]
fn effect_names_ignore_case() {
    let items = vec![make_ring("Ring", "cHaRiSmA", 7)];
    let mut girl = Girl::default();
    add_item(&mut girl, 0);
    assert!(equip(&mut girl, &items, 0, false));
    assert_eq!(GirlManager::get_stat(&girl, Stat::Charisma), 7);
}

#[test]
fn buying_reports_only_equipped_items() {
    let mut trinket = make_ring("Trinket", "Charisma", 0);
    trinket.item_type = ItemType::Misc;
    trinket.cost = 30;
    let items = vec![make_ring("Ring", "Charisma", 5), trinket];
    let mut girl = Girl::default();
    let mut gold = 200;
    assert!(girl_buy_item(&mut girl, &items, 0, &mut gold));
    assert_eq!(gold, 100);
    assert!(girl.equipped[0]);
    // a misc item is kept and paid for, but it cannot be worn
    assert!(!girl_buy_item(&mut girl, &items, 1, &mut gold));
    assert_eq!(gold, 70);
    assert_eq!(girl.inventory, vec![0, 1]);
    assert!(!girl.equipped[1]);
    // unknown item or too little gold: nothing changes
    assert!(!girl_buy_item(&mut girl, &items, 5, &mut gold));
    assert!(!girl_buy_item(&mut girl, &items, 0, &mut gold));
    assert_eq!(gold, 70);
    assert_eq!(girl.inventory.len(), 2);
}

#[test]
fn forced_equip_keeps_ring_count_at_limit() {
    let items: Vec<Item> = (0..10).map(|i| make_ring(&format!("Ring {i}"), "Charisma", 1)).collect();
    let mut girl = Girl::default();
    for id in 0..10 {
        add_item(&mut girl, id);
    }
    for slot in 0..8 {
        assert!(equip(&mut girl, &items, slot, false));
    }
    assert!(!equip(&mut girl, &items, 9, false));
    assert_eq!(count_equipped_of_type(&girl, &items, ItemType::Ring), 8);
    assert!(equip(&mut girl, &items, 9, true));
    assert!(!girl.equipped[7]);
    assert!(girl.equipped[9]);
    assert!(!girl.equipped[8]);
    assert_eq!(count_equipped_of_type(&girl, &items, ItemType::Ring), 8);
}
