use wmrust::enums::{JobType, Skill, Stat};
use wmrust::girl::Girl;
use wmrust::jobs::{JobBarmaid, JobResting, JobResult, JobTraining};

#[test]
fn test_barmaid_earns() {
    let mut girl = Girl::default();
    girl.stats[Stat::Beauty as usize] = 50;
    girl.stats[Stat::Charisma as usize] = 50;
    let mut rng = rand::thread_rng();

    let result = JobBarmaid.process(&mut girl, &mut rng);
    assert!(result.gold_earned > 0);
}

#[test]
fn test_resting_heals() {
    let mut girl = Girl::default();
    girl.stats[Stat::Health as usize] = 50;
    girl.stats[Stat::Tiredness as usize] = 80;
    let mut rng = rand::thread_rng();

    let _result = JobResting.process(&mut girl, &mut rng);
    assert!(girl.stats[Stat::Health as usize] >= 60);
    assert!(girl.stats[Stat::Tiredness as usize] <= 60);
}

#[test]
fn test_training_gives_xp() {
    let mut girl = Girl::default();
    let initial_exp = girl.stats[Stat::Exp as usize];
    let mut rng = rand::thread_rng();

    // Run many times to ensure at least some XP gained
    for _ in 0..20 {
        let _ = JobTraining.process(&mut girl, &mut rng);
    }
    assert!(girl.stats[Stat::Exp as usize] > initial_exp);
}

#[test]
fn barmaid_shift_for_given_draws() {
    let mut girl = Girl::default();
    girl.stats[Stat::Beauty as usize] = 50;
    girl.stats[Stat::Charisma as usize] = 50;
    let result = JobBarmaid.process_with(&mut girl, &[10, 20]);
    assert_eq!(result.gold_earned, 25);
    assert_eq!(result.events, vec!["She worked as a barmaid.".to_string()]);
    assert_eq!(girl.stats[Stat::Fame as usize], 1);
    assert_eq!(girl.stats[Stat::Exp as usize], 5);
    assert_eq!(girl.skills[Skill::Service as usize], 3);
    assert_eq!(girl.stats[Stat::Happiness as usize], 1);
    assert_eq!(girl.stats[Stat::Tiredness as usize], 8);
    assert_eq!(girl.temp_stats[Stat::Libido as usize], 1);
    assert_eq!(JobBarmaid.job_type(), JobType::Barmaid);
}

#[test]
fn barmaid_harassed_quick_learner() {
    let mut girl = Girl::default();
    girl.stats[Stat::Happiness as usize] = 10;
    girl.traits.push("Quick Learner".to_string());
    let result = JobBarmaid.process_with(&mut girl, &[0, 3]);
    assert_eq!(result.gold_earned, 15);
    assert_eq!(
        result.events,
        vec!["A patron harassed her.".to_string(), "She worked as a barmaid.".to_string()]
    );
    assert_eq!(girl.stats[Stat::Happiness as usize], 7);
    assert_eq!(girl.stats[Stat::Exp as usize], 8);
    assert_eq!(girl.skills[Skill::Service as usize], 4);
}

#[test]
fn resting_shift_for_given_draws() {
    let mut girl = Girl::default();
    girl.stats[Stat::Health as usize] = 50;
    girl.stats[Stat::Tiredness as usize] = 80;
    let result = JobResting.process_with(&mut girl, &[70]);
    assert_eq!(girl.stats[Stat::Health as usize], 60);
    assert_eq!(girl.stats[Stat::Tiredness as usize], 60);
    assert_eq!(girl.stats[Stat::Happiness as usize], 15);
    assert_eq!(girl.stats[Stat::Mana as usize], 10);
    assert_eq!(girl.stats[Stat::Exp as usize], 1);
    assert_eq!(result.events, vec!["She rested and recovered.".to_string()]);
    assert_eq!(
        result.stat_changes,
        vec![(Stat::Tiredness, -20), (Stat::Happiness, 15), (Stat::Health, 10)]
    );

    let mut shopper = Girl::default();
    let result = JobResting.process_with(&mut shopper, &[10]);
    assert_eq!(shopper.stats[Stat::Happiness as usize], 18);
    assert_eq!(
        result.events,
        vec!["She rested and recovered.".to_string(), "She went shopping.".to_string()]
    );
    // tiredness does not go below zero
    assert_eq!(shopper.stats[Stat::Tiredness as usize], 0);
}

#[test]
fn training_shift_for_given_draws() {
    let mut girl = Girl::default();
    let result = JobTraining.process_with(&mut girl, &[60, 0, 2, 5]);
    assert_eq!(girl.stats[Stat::Charisma as usize], 3);
    assert_eq!(girl.stats[Stat::Exp as usize], 5);
    assert_eq!(girl.stats[Stat::Tiredness as usize], 10);
    assert_eq!(result.stat_changes, vec![(Stat::Charisma, 3)]);
    assert_eq!(result.events, vec!["Trained Charisma +3.".to_string()]);

    let mut other = Girl::default();
    let result = JobTraining.process_with(&mut other, &[60, 3, 0, 3]);
    assert_eq!(other.skills[Skill::Anal as usize], 1);
    assert_eq!(result.skill_changes, vec![(Skill::Anal, 1)]);
    assert_eq!(other.stats[Stat::Exp as usize], 3);

    let mut idle = Girl::default();
    let result = JobTraining.process_with(&mut idle, &[10, 0, 0, 3]);
    assert_eq!(result.events, vec!["Training was uneventful.".to_string()]);
    assert_eq!(idle.stats[Stat::Exp as usize], 0);
    assert_eq!(JobTraining.job_type(), JobType::Training);
    assert_eq!(JobResting.job_type(), JobType::Resting);
}

#[test]
fn job_result_starts_empty() {
    let r = JobResult::new();
    assert_eq!(r.gold_earned, 0);
    assert!(r.events.is_empty());
    assert!(r.stat_changes.is_empty());
    assert!(r.skill_changes.is_empty());
}
