use wmrust::editor::{EditorApp, GirlsTab, ItemsTab, Tab, TraitsTab};
use wmrust::enums::{GangMission, ItemType, Rarity, Skill, Stat, Status};
use wmrust::gangs::{Gang, GangManager};
use wmrust::girl::{Girl, GirlXml, GirlsXml, TraitXml};
use wmrust::girls::{stat_range, GirlManager};
use wmrust::lua_text::{int_to_string, lua_escape, skill_name, stat_name, stat_or_skill_name};
use wmrust::player::Player;
use wmrust::strs::eq_ignore_ascii_case;
use wmrust::traits::TraitDef;
use wmrust::triggers::TriggerSystem;

#[test]
fn stats_stay_in_range_and_changes_undo() {
    let mut g = Girl::default();
    GirlManager::update_stat(&mut g, Stat::Happiness, 30);
    GirlManager::update_stat(&mut g, Stat::Happiness, -30);
    assert_eq!(GirlManager::get_stat(&g, Stat::Happiness), 0);
    GirlManager::update_stat(&mut g, Stat::Health, 250);
    assert_eq!(g.stats[Stat::Health as usize], 100);
    GirlManager::update_stat(&mut g, Stat::Health, -500);
    assert_eq!(g.stats[Stat::Health as usize], 0);
    GirlManager::update_stat(&mut g, Stat::Exp, 40000);
    assert_eq!(GirlManager::get_stat(&g, Stat::Exp), 32000);
    // age is at least 18
    assert_eq!(GirlManager::get_stat(&g, Stat::Age), 18);
    assert_eq!(stat_range(Stat::Level), (0, 255));
    assert_eq!(stat_range(Stat::Charisma), (0, 100));
}

#[test]
fn effective_stats_add_mods_and_temp() {
    let mut g = Girl::default();
    g.stats[Stat::Charisma as usize] = 50;
    g.stat_mods[Stat::Charisma as usize] = 20;
    GirlManager::update_temp_stat(&mut g, Stat::Charisma, 40);
    assert_eq!(GirlManager::get_stat(&g, Stat::Charisma), 100);
    GirlManager::update_temp_stat(&mut g, Stat::Charisma, -45);
    assert_eq!(GirlManager::get_stat(&g, Stat::Charisma), 65);
    GirlManager::update_temp_stat(&mut g, Stat::Charisma, i32::MIN);
    assert_eq!(g.temp_stats[Stat::Charisma as usize], i32::MIN);

    GirlManager::update_skill(&mut g, Skill::Magic, 120);
    assert_eq!(GirlManager::get_skill(&g, Skill::Magic), 100);
    GirlManager::update_temp_skill(&mut g, Skill::Magic, -30);
    assert_eq!(GirlManager::get_skill(&g, Skill::Magic), 70);

    let mgr = GirlManager::new();
    assert!(mgr.stat_check(&g, Stat::Charisma, 0));
    g.stats[Stat::Beauty as usize] = 60;
    assert!(mgr.stat_check(&g, Stat::Beauty, 60));
    assert!(!mgr.stat_check(&g, Stat::Beauty, 61));
}

#[test]
fn traits_and_status() {
    let mut g = Girl::default();
    GirlManager::add_trait(&mut g, "Strong");
    GirlManager::add_trait(&mut g, "Strong");
    GirlManager::add_trait(&mut g, "Meek");
    assert_eq!(g.traits, vec!["Strong".to_string(), "Meek".to_string()]);
    assert!(GirlManager::has_trait(&g, "Meek"));
    GirlManager::remove_trait(&mut g, "Strong");
    assert!(!GirlManager::has_trait(&g, "Strong"));
    assert_eq!(g.traits, vec!["Meek".to_string()]);
    GirlManager::remove_trait(&mut g, "Missing");
    assert_eq!(g.traits.len(), 1);

    g.status.statuses = vec![Status::Poisoned, Status::Slave, Status::Poisoned];
    assert!(GirlManager::has_status(&g, Status::Poisoned));
    GirlManager::remove_status(&mut g, Status::Poisoned);
    assert!(!GirlManager::has_status(&g, Status::Poisoned));
    assert_eq!(g.status.statuses, vec![Status::Slave]);
}

#[test]
fn girl_manager_collection() {
    let mut mgr = GirlManager::default();
    let mut a = Girl::default();
    a.name = "A".to_string();
    let mut b = Girl::default();
    b.name = "B".to_string();
    assert_eq!(mgr.add_girl(a), 0);
    assert_eq!(mgr.add_girl(b), 1);
    assert_eq!(mgr.get_girl(1).unwrap().name, "B");
    assert!(mgr.get_girl(2).is_none());
    if let Some(g) = mgr.get_girl_mut(0) {
        g.name = "A2".to_string();
    }
    assert_eq!(mgr.girls[0].name, "A2");
    assert!(mgr.get_girl_mut(9).is_none());
    let removed = mgr.remove_girl(0).unwrap();
    assert_eq!(removed.name, "A2");
    assert_eq!(mgr.girls.len(), 1);
    assert!(mgr.remove_girl(5).is_none());
}

fn record(name: &str, traits: &[&str]) -> GirlXml {
    GirlXml {
        name: name.to_string(),
        desc: String::new(),
        gold: 10,
        charisma: 1,
        happiness: 2,
        libido: 3,
        constitution: 4,
        intelligence: 5,
        confidence: 6,
        mana: 7,
        agility: 8,
        fame: 9,
        level: 10,
        ask_price: 11,
        house: 12,
        exp: 13,
        age: 20,
        obedience: 15,
        spirit: 16,
        beauty: 17,
        tiredness: 18,
        health: 19,
        pc_fear: 20,
        pc_love: 21,
        pc_hate: 22,
        anal: 1,
        magic: 2,
        bdsm: 3,
        normal_sex: 4,
        beastiality: 5,
        group: 6,
        lesbian: 7,
        service: 8,
        strip: 9,
        combat: 10,
        status: String::new(),
        traits: traits.iter().map(|t| TraitXml { name: t.to_string() }).collect(),
    }
}

#[test]
fn girls_load_from_records() {
    let mut mgr = GirlManager::new();
    mgr.add_girl(Girl::default());
    mgr.load_girls_from_xml(GirlsXml { girls: vec![record("Hong Meiling", &["Strong"]), record("Other", &[])] });
    assert_eq!(mgr.girls.len(), 3);
    assert_eq!(mgr.girls[1].name, "Hong Meiling");
    assert_eq!(mgr.girls[1].stats[Stat::PCHate as usize], 22);
    assert_eq!(mgr.girls[1].skills[Skill::Combat as usize], 10);
    assert_eq!(mgr.girls[1].traits, vec!["Strong".to_string()]);
    assert_eq!(mgr.girls[2].name, "Other");
    assert!(mgr.girls[2].traits.is_empty());
}

#[test]
fn gang_hiring_and_missions() {
    let mut mgr = GangManager::new();
    mgr.recruit_list.push(Gang { name: "Reds".to_string(), ..Gang::default() });
    mgr.recruit_list.push(Gang { name: "Blues".to_string(), ..Gang::default() });
    assert!(!mgr.hire_gang(5));
    assert!(mgr.hire_gang(1));
    assert_eq!(mgr.recruit_list.len(), 1);
    assert_eq!(mgr.hired_gangs.len(), 1);
    assert_eq!(mgr.hired_gangs[0].name, "Blues");
    assert!(mgr.hired_gangs[0].hired);
    mgr.set_mission(0, GangMission::Extortion);
    assert_eq!(mgr.hired_gangs[0].mission, GangMission::Extortion);
    mgr.set_mission(3, GangMission::Kidnap);
    mgr.fire_gang(0);
    assert!(mgr.hired_gangs.is_empty());
    mgr.fire_gang(0);
    assert_eq!(GangManager::default().recruit_list.len(), 0);

    let mage = Gang { combat_skill: 20, magic_skill: 70, ..Gang::default() };
    assert_eq!(mage.attack_skill(), 70);
    assert_eq!(Gang::default().attack_skill(), 50);
}

#[test]
fn editor_lists() {
    let mut girls = GirlsTab::default();
    girls.add_girl();
    girls.add_girl();
    assert_eq!(girls.girls[1].name, "New Girl 2");
    assert_eq!(girls.girls[1].stats[Stat::Health as usize], 100);
    assert_eq!(girls.girls[1].stats[Stat::Happiness as usize], 50);
    assert_eq!(girls.girls[1].stats[Stat::Age as usize], 18);
    assert_eq!(girls.selected, Some(1));
    assert!(girls.dirty);
    girls.remove_girl();
    assert_eq!(girls.girls.len(), 1);
    assert_eq!(girls.selected, Some(0));
    girls.remove_girl();
    assert!(girls.girls.is_empty());
    assert_eq!(girls.selected, None);
    girls.remove_girl();
    assert!(girls.girls.is_empty());

    let mut items = ItemsTab::default();
    items.add_item();
    items.add_item();
    items.add_item();
    assert_eq!(items.items[2].name, "New Item 3");
    assert_eq!(items.items[2].item_type, ItemType::Misc);
    assert_eq!(items.items[2].rarity, Rarity::Common);
    items.selected = Some(1);
    items.remove_item();
    assert_eq!(items.selected, Some(1));
    assert_eq!(items.items[1].name, "New Item 3");

    let mut traits = TraitsTab::default();
    traits.traits_list.push(TraitDef { name: "Meek".to_string(), description: "Shy".to_string() });
    traits.add_trait();
    assert_eq!(traits.traits_list[1].name, "New Trait 2");
    assert!(traits.traits_list[1].description.is_empty());
    traits.remove_trait();
    assert_eq!(traits.selected, Some(0));

    let app = EditorApp::default();
    assert_eq!(app.tab, Tab::Girls);
}

#[test]
fn small_defaults() {
    let p = Player::default();
    assert_eq!(p.name, "Nameless");
    assert_eq!(p.house_perc, 60);
    assert_eq!(p.disposition, 0);
    assert_eq!(Player::limit100(250), 100);
    assert_eq!(Player::limit100(-101), -100);
    assert_eq!(Player::limit100(42), 42);
    let t = TriggerSystem::new();
    assert!(t.triggers.is_empty() && t.queue.is_empty());
    assert!(TriggerSystem::default().triggers.is_empty());
}

#[test]
fn text_helpers() {
    assert!(eq_ignore_ascii_case("Charisma", "CHARISMA"));
    assert!(!eq_ignore_ascii_case("Charisma", "Charism"));
    assert_eq!(int_to_string(-305), "-305");
    assert_eq!(int_to_string(0), "0");
    let raw: Vec<char> = "a\"b\\c\nd".chars().collect();
    assert_eq!(lua_escape(&raw), "a\\\"b\\\\c\\nd");
    assert_eq!(stat_name(18), "Health");
    assert_eq!(stat_name(99), "Unknown");
    assert_eq!(skill_name(9), "Combat");
    assert_eq!(stat_or_skill_name(23), "Magic");
    assert_eq!(stat_or_skill_name(0), "Charisma");
}

#[test]
fn editor_load_save_status() {
    let mut girls = GirlsTab::default();
    girls.dirty = true;
    girls.take_loaded(vec![Girl::default(), Girl::default()], "Characters/Girls.girlsx");
    assert_eq!(girls.status_msg, "Loaded 2 girls from Characters/Girls.girlsx");
    assert_eq!(girls.selected, Some(0));
    assert!(!girls.dirty);
    girls.add_girl();
    girls.mark_saved("out.girlsx");
    assert_eq!(girls.status_msg, "Saved 3 girls to out.girlsx");
    assert!(!girls.dirty);
    girls.take_loaded(Vec::new(), "empty.girlsx");
    assert_eq!(girls.selected, None);

    let mut items = ItemsTab::default();
    items.take_loaded(Vec::new(), "Data/Items.itemsx");
    assert_eq!(items.status_msg, "Loaded 0 items from Data/Items.itemsx");
    assert_eq!(items.selected, None);
    items.mark_saved("x.itemsx");
    assert_eq!(items.status_msg, "Saved 0 items to x.itemsx");

    let mut traits = TraitsTab::default();
    traits.take_loaded(vec![TraitDef { name: "Meek".to_string(), description: String::new() }], "t.traits");
    assert_eq!(traits.status_msg, "Loaded 1 traits from t.traits");
    assert_eq!(traits.selected, Some(0));
    traits.mark_saved("t2.traits");
    assert_eq!(traits.status_msg, "Saved 1 traits to t2.traits");
}

#[test]
fn editor_trait_and_effect_edits() {
    let mut tab = GirlsTab::default();
    tab.trait_defs = vec![
        TraitDef { name: "Meek".to_string(), description: String::new() },
        TraitDef { name: "Strong".to_string(), description: String::new() },
        TraitDef { name: "Cute".to_string(), description: String::new() },
    ];
    tab.add_girl();
    tab.dirty = false;
    tab.girls[0].traits.push("Strong".to_string());
    assert_eq!(tab.trait_choices(0), vec![0, 2]);
    tab.add_chosen_trait(0);
    assert!(!tab.dirty);
    tab.new_trait_name = "Strong".to_string();
    tab.add_chosen_trait(0);
    assert!(!tab.dirty);
    assert!(tab.new_trait_name.is_empty());
    assert_eq!(tab.girls[0].traits, vec!["Strong".to_string()]);
    tab.new_trait_name = "Cute".to_string();
    tab.add_chosen_trait(0);
    assert!(tab.dirty);
    assert_eq!(tab.girls[0].traits, vec!["Strong".to_string(), "Cute".to_string()]);
    assert_eq!(tab.trait_choices(0), vec![0]);
    tab.dirty = false;
    tab.remove_girl_trait(0, 0);
    assert_eq!(tab.girls[0].traits, vec!["Cute".to_string()]);
    assert!(tab.dirty);

    let mut items = ItemsTab::default();
    items.add_item();
    items.add_item();
    items.add_effect(1);
    items.add_effect(1);
    items.items[1].effects[0].name = "Charisma".to_string();
    assert_eq!(items.items[1].effects.len(), 2);
    assert!(items.items[0].effects.is_empty());
    items.remove_effect(1, 0);
    assert_eq!(items.items[1].effects.len(), 1);
    assert!(items.items[1].effects[0].name.is_empty());
}
