use wmrust::rivals::{AttackRolls, IncomeRolls, Rival, RivalManager, SpawnRolls, SpendRolls, UpkeepRolls};

#[test]
fn test_rival_income() {
    let mut rng = rand::thread_rng();
    let rival = Rival::default();
    let income = rival.calculate_income(&mut rng);
    assert!(income > 0);
}

#[test]
fn test_rival_death() {
    let mut rival = Rival::default();
    rival.num_brothels = 0;
    assert!(rival.is_dead());

    let mut rival2 = Rival::default();
    rival2.gold = 0;
    assert!(rival2.is_dead());
}

#[test]
fn rival_with_defaults_is_alive() {
    let rival = Rival::default();
    assert!(!rival.is_dead());
    let mut no_girls = Rival::default();
    no_girls.num_girls = 0;
    assert!(no_girls.is_dead());
}

#[test]
fn rival_max_girls_is_twenty_per_brothel() {
    let mut rival = Rival::default();
    assert_eq!(rival.max_girls(), 20);
    rival.num_brothels = 3;
    assert_eq!(rival.max_girls(), 60);
    rival.num_brothels = 0;
    assert_eq!(rival.max_girls(), 0);
}

#[test]
fn rival_income_for_given_draws() {
    let rival = Rival::default();
    let d = IncomeRolls { girl_pay: 100, girl_mult: 2, cust_base: 3, cust_mult: 1, gambling: 0, bar: 0, theft: 50 };
    assert_eq!(rival.income_with_rolls(&d), 250);

    let mut rich = Rival::default();
    rich.num_bars = 2;
    rich.num_gambling_halls = 1;
    rich.businesses_extort = 10;
    // customers = (3 + 8) * 1 = 11
    let d2 = IncomeRolls { girl_pay: 100, girl_mult: 1, cust_base: 3, cust_mult: 1, gambling: 500, bar: 150, theft: 0 };
    assert_eq!(rich.income_with_rolls(&d2), 100 + 500 + 2 * 150 + 200);
}

#[test]
fn rival_spending_for_given_draws() {
    let mut rival = Rival::default();
    let d = SpendRolls { girls: 3, gangs: 2, bar: 10, hall: 0 };
    let events = rival.spending_with_rolls(&d);
    assert!(events.is_empty());
    assert_eq!(rival.num_girls, 11);
    assert_eq!(rival.num_gangs, 5);
    assert_eq!(rival.num_bars, 1);
    assert_eq!(rival.num_gambling_halls, 0);
    assert_eq!(rival.gold, 5000 - 1650 - 2500);
    assert_eq!(rival.bribe_rate, 0);
}

#[test]
fn rival_opens_brothel_when_full() {
    let mut rival = Rival::with_name("Evil Corp".to_string());
    rival.num_girls = 20;
    rival.gold = 30000;
    let d = SpendRolls { girls: 6, gangs: 0, bar: 50, hall: 99 };
    let events = rival.spending_with_rolls(&d);
    assert_eq!(events, vec!["Evil Corp opened a new brothel".to_string()]);
    assert_eq!(rival.num_brothels, 2);
    assert_eq!(rival.num_girls, 26);
    assert_eq!(rival.gold, 30000 - 20000 - 3300);
    assert_eq!(rival.bribe_rate, 50);
}

#[test]
fn rival_process_spending_keeps_gold() {
    let mut rng = rand::thread_rng();
    for _ in 0..50 {
        let mut rival = Rival::default();
        let _ = rival.process_spending(&mut rng);
        assert!(rival.gold >= 0);
        assert!(rival.num_gangs <= 8);
    }
}

#[test]
fn rival_attack_wins() {
    let mut rival = Rival::with_name("Evil Corp".to_string());
    let d = AttackRolls { attack: 10, win: 0, destroyed: 2, plunder: 500 };
    let (stolen, events) = rival.attack_with_rolls(&d);
    assert_eq!(stolen, 545);
    assert_eq!(
        events,
        vec![
            "Evil Corp attacked and destroyed 2 territories".to_string(),
            "Evil Corp plundered 545 gold".to_string()
        ]
    );
    assert_eq!(rival.num_gangs, 3);
}

#[test]
fn rival_attack_repelled_or_skipped() {
    let mut rival = Rival::with_name("Evil Corp".to_string());
    let d = AttackRolls { attack: 10, win: 1, destroyed: 2, plunder: 500 };
    let (stolen, events) = rival.attack_with_rolls(&d);
    assert_eq!(stolen, 0);
    assert_eq!(events, vec!["Evil Corp attacked but was repelled".to_string()]);
    assert_eq!(rival.num_gangs, 2);

    let quiet = AttackRolls { attack: 80, win: 0, destroyed: 1, plunder: 0 };
    let (stolen, events) = rival.attack_with_rolls(&quiet);
    assert_eq!(stolen, 0);
    assert!(events.is_empty());

    let mut no_gangs = Rival::default();
    no_gangs.num_gangs = 0;
    let mut rng = rand::thread_rng();
    let (stolen, events) = no_gangs.process_attack(&mut rng);
    assert_eq!(stolen, 0);
    assert!(events.is_empty());
}

#[test]
fn rival_settle_week_caps_profit() {
    let mut rival = Rival::default();
    rival.settle_week(20000, 5000);
    assert_eq!(rival.gold, 10000);
    let mut poor = Rival::default();
    poor.settle_week(1000, 3000);
    assert_eq!(poor.gold, 3000);
}

#[test]
fn rival_manager_add_remove() {
    let mut mgr = RivalManager::new();
    mgr.add_rival(Rival::with_name("A".to_string()));
    mgr.add_rival(Rival::with_name("B".to_string()));
    mgr.remove_rival(5);
    assert_eq!(mgr.rivals.len(), 2);
    mgr.remove_rival(0);
    assert_eq!(mgr.rivals.len(), 1);
    assert_eq!(mgr.rivals[0].name, "B");
}

#[test]
fn rival_manager_removes_dead() {
    let mut mgr = RivalManager::default();
    mgr.add_rival(Rival::with_name("A".to_string()));
    let mut broke = Rival::with_name("B".to_string());
    broke.gold = 0;
    mgr.add_rival(broke);
    mgr.add_rival(Rival::with_name("C".to_string()));
    mgr.remove_dead();
    let names: Vec<String> = mgr.rivals.iter().map(|r| r.name.clone()).collect();
    assert_eq!(names, vec!["A".to_string(), "C".to_string()]);
}

#[test]
fn rival_takeover_threshold() {
    let mut mgr = RivalManager::new();
    for _ in 0..10 {
        mgr.add_rival(Rival::default());
    }
    assert!(!mgr.check_takeover());
    mgr.add_rival(Rival::default());
    assert!(mgr.check_takeover());
}

#[test]
fn rival_spawn_names() {
    let mut mgr = RivalManager::new();
    let none: Vec<String> = Vec::new();
    mgr.spawn_with_rolls(&none, &SpawnRolls { spawn: 10, number: 123, pick: 0 });
    assert_eq!(mgr.rivals.len(), 1);
    assert_eq!(mgr.rivals[0].name, "Rival #123");
    assert_eq!(mgr.rivals[0].gold, 5000);

    let names = vec!["Alpha".to_string(), "Beta".to_string()];
    mgr.spawn_with_rolls(&names, &SpawnRolls { spawn: 29, number: 100, pick: 1 });
    assert_eq!(mgr.rivals[1].name, "Beta");

    mgr.spawn_with_rolls(&names, &SpawnRolls { spawn: 30, number: 100, pick: 0 });
    assert_eq!(mgr.rivals.len(), 2);

    let mut rng = rand::thread_rng();
    for _ in 0..20 {
        mgr.maybe_spawn_rival(&names, &mut rng);
    }
    for r in &mgr.rivals[2..] {
        assert!(r.name == "Alpha" || r.name == "Beta");
    }
}

#[test]
fn rival_upkeep_before_tax() {
    let rival = Rival::default();
    // rooms 20 + girls 40 + gangs 270
    assert_eq!(rival.upkeep_with_rolls(&UpkeepRolls { gambling_loss: 10, bar_supplies: 0 }), 330);
    let mut big = Rival::default();
    big.num_bars = 2;
    big.num_gambling_halls = 1;
    big.bribe_rate = 50;
    let d = UpkeepRolls { gambling_loss: 100, bar_supplies: 20 };
    assert_eq!(big.upkeep_with_rolls(&d), 20 + 40 + 50 + 40 + 80 + 100 + 2 * 50 + 270);
    let mut rng = rand::thread_rng();
    let u = big.calculate_base_upkeep(&mut rng);
    assert!(u >= 20 + 40 + 50 + 40 + 80 + 10 + 60 + 270);
    assert!(u <= 20 + 40 + 50 + 40 + 80 + 500 + 2 * 129 + 270);
}
