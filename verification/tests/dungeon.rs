use wmrust::dungeon::{DungeonManager, TortureRolls};
use wmrust::enums::{DungeonReason, Skill, Stat, Status};
use wmrust::girl::Girl;
use wmrust::girls::GirlManager;

fn make_dungeon_girl() -> Girl {
    let mut g = Girl::default();
    g.name = "Prisoner".to_string();
    g.stats[Stat::Health as usize] = 80;
    g.stats[Stat::Happiness as usize] = 50;
    g.stats[Stat::Spirit as usize] = 50;
    g.stats[Stat::Obedience as usize] = 20;
    g.stats[Stat::Confidence as usize] = 50;
    g
}

fn calm_rolls() -> TortureRolls {
    TortureRolls {
        injury: 99,
        hp_loss: 5,
        scar: 99,
        scar_kind: 0,
        miscarriage: 99,
        broken_will: 99,
        masochist: 99,
        mind_fucked: 99,
    }
}

#[test]
fn test_add_release() {
    let mut dm = DungeonManager::new();
    dm.add_girl(make_dungeon_girl(), DungeonReason::GirlCaptured);
    assert_eq!(dm.num_inmates(), 1);
    let girl = dm.release(0);
    assert!(girl.is_some());
    assert_eq!(dm.num_inmates(), 0);
}

#[test]
fn test_process_week_stat_changes() {
    let mut dm = DungeonManager::new();
    let girl = make_dungeon_girl();
    let initial_obed = girl.stats[Stat::Obedience as usize];
    dm.add_girl(girl, DungeonReason::GirlCaptured);
    dm.process_week();

    let g = &dm.inmates[0].girl;
    // Free, fed: obedience should increase
    assert!(g.stats[Stat::Obedience as usize] > initial_obed);
}

#[test]
fn test_torture() {
    let mut dm = DungeonManager::new();
    dm.add_girl(make_dungeon_girl(), DungeonReason::GirlCaptured);
    let mut rng = rand::thread_rng();
    let events = dm.torture(0, 1, true, &mut rng);
    assert!(!events.is_empty());

    // Obedience should have increased from torture
    let obed = GirlManager::get_stat(&dm.inmates[0].girl, Stat::Obedience);
    assert!(obed > 20);
}

#[test]
fn test_customer_health_loss() {
    let mut dm = DungeonManager::new();
    dm.add_customer(DungeonReason::CustomerNoPay);
    dm.inmates[0].fed = false;

    let pre_health = GirlManager::get_stat(&dm.inmates[0].girl, Stat::Health);
    dm.process_week();
    let post_health = GirlManager::get_stat(&dm.inmates[0].girl, Stat::Health);
    assert!(post_health < pre_health, "Starved customer should lose health");
}

#[test]
fn released_customer_gives_no_girl() {
    let mut dm = DungeonManager::default();
    dm.add_customer(DungeonReason::CustomerBeatGirl);
    assert!(dm.release(0).is_none());
    assert_eq!(dm.num_inmates(), 0);
    assert!(dm.release(3).is_none());
}

#[test]
fn released_girl_is_the_one_added() {
    let mut dm = DungeonManager::new();
    dm.add_customer(DungeonReason::CustomerNoPay);
    dm.add_girl(make_dungeon_girl(), DungeonReason::GirlKidnapped);
    let girl = dm.release(1).unwrap();
    assert_eq!(girl.name, "Prisoner");
    assert_eq!(girl.stats[Stat::Health as usize], 80);
    assert_eq!(dm.num_inmates(), 1);
    assert!(dm.inmates[0].is_customer);
}

#[test]
fn customer_prisoner_fields() {
    let mut dm = DungeonManager::new();
    dm.add_customer(DungeonReason::CustomerSpy);
    let c = &dm.inmates[0];
    assert_eq!(c.girl.name, "Customer");
    assert_eq!(c.girl.stats[Stat::Health as usize], 100);
    assert_eq!(c.weeks, 0);
    assert!(c.is_customer && c.fed);
}

#[test]
fn girl_inmates_skips_customers() {
    let mut dm = DungeonManager::new();
    dm.add_customer(DungeonReason::CustomerNoPay);
    dm.add_girl(make_dungeon_girl(), DungeonReason::GirlCaptured);
    dm.add_customer(DungeonReason::CustomerNoPay);
    dm.add_girl(make_dungeon_girl(), DungeonReason::GirlKidnapped);
    let girls = dm.girl_inmates();
    let positions: Vec<usize> = girls.iter().map(|(i, _)| *i).collect();
    assert_eq!(positions, vec![1, 3]);
    assert_eq!(girls[1].1.reason, DungeonReason::GirlKidnapped);
}

#[test]
fn week_removes_the_dead_and_counts_weeks() {
    let mut dm = DungeonManager::new();
    let mut dead = make_dungeon_girl();
    dead.stats[Stat::Health as usize] = 0;
    dm.add_girl(dead, DungeonReason::GirlCaptured);
    dm.add_girl(make_dungeon_girl(), DungeonReason::GirlCaptured);
    dm.process_week();
    assert_eq!(dm.num_inmates(), 1);
    assert_eq!(dm.inmates[0].weeks, 1);
}

#[test]
fn week_fed_free_girl_exact_changes() {
    let mut dm = DungeonManager::new();
    dm.add_girl(make_dungeon_girl(), DungeonReason::GirlCaptured);
    dm.process_week();
    let g = &dm.inmates[0].girl;
    assert_eq!(g.stats[Stat::Obedience as usize], 21);
    assert_eq!(g.stats[Stat::Confidence as usize], 49);
    assert_eq!(g.stats[Stat::Happiness as usize], 45);
    assert_eq!(g.stats[Stat::Health as usize], 81);
    assert_eq!(g.stats[Stat::PCFear as usize], 4);
    assert_eq!(g.skills[Skill::BDSM as usize], 1);
}

#[test]
fn week_starved_slave_exact_changes() {
    let mut dm = DungeonManager::new();
    let mut girl = make_dungeon_girl();
    girl.status.statuses.push(Status::Slave);
    dm.add_girl(girl, DungeonReason::GirlCaptured);
    dm.inmates[0].fed = false;
    dm.process_week();
    let g = &dm.inmates[0].girl;
    assert_eq!(g.stats[Stat::Obedience as usize], 22);
    assert_eq!(g.stats[Stat::Health as usize], 75);
    assert_eq!(g.stats[Stat::Tiredness as usize], 1);
    assert_eq!(g.skills[Skill::BDSM as usize], 2);
}

#[test]
fn starved_customer_loses_exactly_five() {
    let mut dm = DungeonManager::new();
    dm.add_customer(DungeonReason::CustomerNoPay);
    dm.inmates[0].fed = false;
    dm.process_week();
    assert_eq!(dm.inmates[0].girl.stats[Stat::Health as usize], 95);
}

#[test]
fn heavy_torture_with_calm_draws() {
    let mut dm = DungeonManager::new();
    dm.add_girl(make_dungeon_girl(), DungeonReason::GirlCaptured);
    let events = dm.torture_with_rolls(0, 1, true, &calm_rolls());
    assert_eq!(events, vec!["Heavy torture applied".to_string()]);
    let g = &dm.inmates[0].girl;
    assert!(g.tortured_today);
    assert_eq!(g.stats[Stat::Obedience as usize], 30);
    assert_eq!(g.stats[Stat::Health as usize], 75);
    assert_eq!(g.stats[Stat::PCFear as usize], 7);
    // A second session the same day does nothing.
    assert!(dm.torture_with_rolls(0, 1, true, &calm_rolls()).is_empty());
}

#[test]
fn light_torture_and_injury() {
    let mut dm = DungeonManager::new();
    let mut girl = make_dungeon_girl();
    girl.stats[Stat::Health as usize] = 10;
    girl.status.statuses.push(Status::Pregnant);
    girl.weeks_pregnant = 5;
    dm.add_girl(girl, DungeonReason::GirlCaptured);
    let rolls = TortureRolls { injury: 0, hp_loss: 7, scar: 0, scar_kind: 1, miscarriage: 0, ..calm_rolls() };
    let events = dm.torture_with_rolls(0, 1, false, &rolls);
    assert_eq!(
        events,
        vec![
            "Light torture applied (low health)".to_string(),
            "Girl received cool scars".to_string(),
            "Girl suffered a miscarriage".to_string(),
            "Girl was injured: -7 HP".to_string(),
        ]
    );
    let g = &dm.inmates[0].girl;
    assert_eq!(g.stats[Stat::Health as usize], 3);
    assert_eq!(g.stats[Stat::Obedience as usize], 24);
    assert!(g.traits.contains(&"Cool Scars".to_string()));
    assert!(g.status.statuses.is_empty());
    assert_eq!(g.weeks_pregnant, 0);
}

#[test]
fn torture_trait_gains() {
    let mut dm = DungeonManager::new();
    let mut girl = make_dungeon_girl();
    girl.stats[Stat::Health as usize] = 5;
    girl.stats[Stat::Spirit as usize] = 5;
    girl.skills[Skill::BDSM as usize] = 40;
    dm.add_girl(girl, DungeonReason::GirlCaptured);
    let rolls = TortureRolls { broken_will: 0, masochist: 0, mind_fucked: 0, ..calm_rolls() };
    let events = dm.torture_with_rolls(0, 1, true, &rolls);
    assert_eq!(events.len(), 4);
    assert_eq!(events[1], "Girl's will has been broken!");
    assert_eq!(events[2], "Girl has become a masochist");
    assert_eq!(events[3], "Girl has been mind fucked");
    let g = &dm.inmates[0].girl;
    assert!(GirlManager::has_trait(g, "Broken Will"));
    assert!(GirlManager::has_trait(g, "Masochist"));
    assert!(GirlManager::has_trait(g, "Mind Fucked"));
}

#[test]
fn torture_skips_customers_and_bad_index() {
    let mut dm = DungeonManager::new();
    dm.add_customer(DungeonReason::CustomerNoPay);
    assert!(dm.torture_with_rolls(0, 1, true, &calm_rolls()).is_empty());
    assert!(dm.torture_with_rolls(5, 1, true, &calm_rolls()).is_empty());
    assert!(!dm.inmates[0].girl.tortured_today);
}

#[test]
fn second_torture_same_day_refused() {
    let mut dm = DungeonManager::new();
    dm.add_girl(make_dungeon_girl(), DungeonReason::GirlCaptured);
    let first = dm.torture_with_rolls(0, 1, true, &calm_rolls());
    assert!(!first.is_empty());
    assert!(dm.inmates[0].girl.tortured_today);
    let stats = dm.inmates[0].girl.stats.clone();
    let skills = dm.inmates[0].girl.skills.clone();
    let traits = dm.inmates[0].girl.traits.clone();
    let mut rng = rand::thread_rng();
    assert!(dm.torture(0, 1, true, &mut rng).is_empty());
    assert!(dm.torture_with_rolls(0, 1, false, &calm_rolls()).is_empty());
    assert_eq!(dm.inmates[0].girl.stats, stats);
    assert_eq!(dm.inmates[0].girl.skills, skills);
    assert_eq!(dm.inmates[0].girl.traits, traits);
}
