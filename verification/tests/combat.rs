use wmrust::combat::{gang_brawl, gang_brawl_with, girl_vs_gang, girl_vs_gang_with, player_combat, player_combat_with};
use wmrust::enums::{Skill, Stat};
use wmrust::gangs::Gang;
use wmrust::girl::Girl;

#[test]
fn test_gang_brawl() {
    let mut rng = rand::thread_rng();
    let mut atk = Gang {
        num_members: 10,
        combat_skill: 60,
        ..Gang::default()
    };
    let mut def = Gang {
        num_members: 10,
        combat_skill: 40,
        ..Gang::default()
    };
    let mut atk_potions = 5;
    let mut def_potions = 5;

    let result = gang_brawl(
        &mut atk,
        &mut def,
        &mut atk_potions,
        &mut def_potions,
        1,
        &mut rng,
    );
    assert!(
        atk.num_members + def.num_members < 20,
        "Some casualties expected"
    );
    assert!(result.attacker_casualties >= 0);
    assert!(result.defender_casualties >= 0);
}

fn duelist(members: i32, skill: i32) -> Gang {
    Gang { num_members: members, combat_skill: skill, constitution: 0, ..Gang::default() }
}

#[test]
fn brawl_attacker_wipes_out_defender() {
    let mut atk = duelist(1, 60);
    let mut def = duelist(1, 40);
    let mut ap = 0;
    let mut dp = 0;
    // the attacker hits ten times for 10, the defender always misses
    let mut draws: Vec<i32> = Vec::new();
    for _ in 0..9 {
        draws.push(0);
        draws.push(99);
    }
    draws.push(0);
    let result = gang_brawl_with(&mut atk, &mut def, &mut ap, &mut dp, 1, &draws);
    assert!(result.attacker_won);
    assert_eq!(result.attacker_casualties, 0);
    assert_eq!(result.defender_casualties, 1);
    assert!(result.events.is_empty());
    assert_eq!(atk.num_members, 1);
    assert_eq!(def.num_members, 0);
    assert_eq!(atk.combat_skill, 62);
    assert_eq!(def.combat_skill, 40);
    assert!(atk.saw_combat && def.saw_combat);
}

#[test]
fn brawl_attackers_flee() {
    let mut atk = duelist(2, 50);
    let mut def = duelist(2, 50);
    let mut ap = 0;
    let mut dp = 0;
    // the attacker's goon falls after ten blows, then the attackers flee
    let mut draws: Vec<i32> = Vec::new();
    for _ in 0..10 {
        draws.push(99);
        draws.push(0);
    }
    draws.push(0);
    let result = gang_brawl_with(&mut atk, &mut def, &mut ap, &mut dp, 1, &draws);
    assert!(!result.attacker_won);
    assert_eq!(result.attacker_casualties, 1);
    assert_eq!(result.defender_casualties, 0);
    assert_eq!(result.events, vec!["Attackers fled!".to_string()]);
    assert_eq!(def.combat_skill, 52);
    assert_eq!(atk.combat_skill, 50);
}

#[test]
fn incorporeal_girl_phases_through() {
    let mut girl = Girl::default();
    girl.traits.push("Incorporial".to_string());
    let mut gang = Gang { num_members: 10, ..Gang::default() };
    let mut potions = 3;
    let result = girl_vs_gang_with(&mut girl, &mut gang, &mut potions, 1, &[0, 50, 10, 99, 39], &[]);
    assert!(result.attacker_won);
    assert_eq!(result.events, vec!["Girl is incorporeal - phased through attackers!".to_string()]);
    assert_eq!(gang.num_members, 2);
    assert_eq!(potions, 3);

    let mut rng = rand::thread_rng();
    let mut gang2 = Gang { num_members: 10, ..Gang::default() };
    let r2 = girl_vs_gang(&mut girl, &mut gang2, &mut potions, 1, &mut rng);
    assert!(r2.attacker_won);
    assert!(gang2.num_members <= 5);
}

#[test]
fn girl_vs_gang_random_keeps_counts_sane() {
    let mut rng = rand::thread_rng();
    for _ in 0..20 {
        let mut girl = Girl::default();
        girl.stats[Stat::Health as usize] = 100;
        girl.skills[Skill::Combat as usize] = 80;
        let mut gang = Gang::default();
        let mut potions = 2;
        let result = girl_vs_gang(&mut girl, &mut gang, &mut potions, 1, &mut rng);
        assert!(gang.num_members >= 0 && gang.num_members <= 5);
        assert!(result.defender_casualties >= 0 && result.defender_casualties <= 5);
        assert!(potions >= 0 && potions <= 2);
        assert!(gang.saw_combat);
    }
}

#[test]
fn player_beats_weak_girl() {
    let mut girl = Girl::default();
    girl.stats[Stat::Health as usize] = 30;
    // she misses, he hits and she fails to dodge: 10 damage brings her to 20
    let won = player_combat_with(&mut girl, 1, &[50, 0, 0]);
    assert!(won);
    assert_eq!(girl.stats[Stat::Health as usize], 20);
}

#[test]
fn strong_girl_beats_player() {
    let mut girl = Girl::default();
    girl.stats[Stat::Health as usize] = 100;
    girl.skills[Skill::Combat as usize] = 100;
    // she hits for 15 each round, he always misses: after six rounds he is down to 10
    let mut draws: Vec<i32> = Vec::new();
    for _ in 0..6 {
        draws.push(0);
        draws.push(99);
        draws.push(99);
    }
    let won = player_combat_with(&mut girl, 1, &draws);
    assert!(!won);
    assert_eq!(girl.stats[Stat::Health as usize], 100);
}

#[test]
fn player_always_beats_incorporeal_girl() {
    let mut girl = Girl::default();
    girl.stats[Stat::Health as usize] = 70;
    girl.traits.push("Incorporial".to_string());
    let mut rng = rand::thread_rng();
    assert!(player_combat(&mut girl, 1, &mut rng));
    assert_eq!(girl.stats[Stat::Health as usize], 70);
    assert!(player_combat_with(&mut girl, 1, &[]));
}

#[test]
fn fights_never_use_potions_they_lack() {
    let mut rng = rand::thread_rng();
    for _ in 0..20 {
        let mut atk = Gang { num_members: 6, combat_skill: 55, ..Gang::default() };
        let mut def = Gang { num_members: 6, combat_skill: 45, ..Gang::default() };
        let mut ap = 3;
        let mut dp = 0;
        let _ = gang_brawl(&mut atk, &mut def, &mut ap, &mut dp, 2, &mut rng);
        assert!((0..=3).contains(&ap));
        assert_eq!(dp, 0);

        let mut girl = Girl::default();
        girl.stats[Stat::Health as usize] = 100;
        girl.skills[Skill::Magic as usize] = 90;
        let mut gang = Gang::default();
        let mut potions = 4;
        let _ = girl_vs_gang(&mut girl, &mut gang, &mut potions, 1, &mut rng);
        assert!((0..=4).contains(&potions));
    }
}
