use wmrust::enums::{JobType, Shift, Stat, Status};
use wmrust::girl::Girl;
use wmrust::turn::{IncomeKind, TurnEvents, TurnProcessor};

#[test]
fn shift_jobs() {
    let mut g = Girl::default();
    assert_eq!(TurnProcessor::shift_job(&g, Shift::Day), Some(JobType::Resting));
    g.job_day = Some(JobType::Barmaid);
    g.job_night = Some(JobType::InDungeon);
    assert_eq!(TurnProcessor::shift_job(&g, Shift::Day), Some(JobType::Barmaid));
    assert_eq!(TurnProcessor::shift_job(&g, Shift::Night), None);
    g.job_day = Some(JobType::Runaway);
    assert_eq!(TurnProcessor::shift_job(&g, Shift::Day), None);
}

#[test]
fn income_accounts() {
    assert_eq!(TurnProcessor::income_kind(JobType::WhoreStreets), IncomeKind::StreetWork);
    assert_eq!(TurnProcessor::income_kind(JobType::Singer), IncomeKind::BarIncome);
    assert_eq!(TurnProcessor::income_kind(JobType::Dealer), IncomeKind::GamblingProfits);
    assert_eq!(TurnProcessor::income_kind(JobType::CameraMage), IncomeKind::MovieIncome);
    assert_eq!(TurnProcessor::income_kind(JobType::WhoreBrothel), IncomeKind::BrothelWork);
    assert_eq!(TurnProcessor::income_kind(JobType::Training), IncomeKind::BrothelWork);
}

#[test]
fn filthiness_rules() {
    assert_eq!(TurnProcessor::filthiness_after(JobType::Cleaning, 12), 7);
    assert_eq!(TurnProcessor::filthiness_after(JobType::Cleaning, 3), 0);
    assert_eq!(TurnProcessor::filthiness_after(JobType::Resting, 3), 3);
    assert_eq!(TurnProcessor::filthiness_after(JobType::Barmaid, 3), 4);
    assert_eq!(TurnProcessor::girl_event("Ann", "She rested."), "[Ann] She rested.");
}

#[test]
fn rest_and_recover() {
    let mut g = Girl::default();
    g.stats[Stat::Health as usize] = 50;
    g.job_day = Some(JobType::Barmaid);
    g.job_night = Some(JobType::Singer);
    TurnProcessor::auto_rest(&mut g);
    assert_eq!(g.job_day, Some(JobType::Resting));
    assert_eq!(g.job_night, Some(JobType::Resting));
    assert_eq!(g.prev_job_day, Some(JobType::Barmaid));
    assert_eq!(g.prev_job_night, Some(JobType::Singer));
    // still hurt: nothing more changes
    TurnProcessor::auto_rest(&mut g);
    assert_eq!(g.prev_job_day, Some(JobType::Barmaid));
    g.stats[Stat::Health as usize] = 90;
    TurnProcessor::auto_rest(&mut g);
    assert_eq!(g.job_day, Some(JobType::Barmaid));
    assert_eq!(g.job_night, Some(JobType::Singer));
    assert_eq!(g.prev_job_day, None);
    assert_eq!(g.prev_job_night, None);

    let mut tired = Girl::default();
    tired.stats[Stat::Health as usize] = 100;
    tired.stats[Stat::Tiredness as usize] = 81;
    TurnProcessor::auto_rest(&mut tired);
    assert_eq!(tired.job_day, Some(JobType::Resting));
    assert_eq!(tired.prev_job_day, None);
}

#[test]
fn aging_and_pregnancy() {
    let mut g = Girl::default();
    g.stats[Stat::Age as usize] = 20;
    TurnProcessor::age_girl(&mut g, 51);
    assert_eq!(g.stats[Stat::Age as usize], 20);
    TurnProcessor::age_girl(&mut g, 104);
    assert_eq!(g.stats[Stat::Age as usize], 21);

    let mut a = Girl::default();
    a.name = "Ann".to_string();
    a.weeks_pregnant = 39;
    a.status.statuses = vec![Status::Pregnant, Status::Slave];
    let mut b = Girl::default();
    b.name = "Bea".to_string();
    b.weeks_pregnant = 5;
    let c = Girl::default();
    let mut girls = vec![a, b, c];
    let mut events = TurnEvents::default();
    TurnProcessor::progress_pregnancies(&mut girls, &mut events);
    assert_eq!(events.events, vec!["Ann gave birth!".to_string()]);
    assert_eq!(girls[0].weeks_pregnant, 0);
    assert_eq!(girls[0].status.statuses, vec![Status::Slave]);
    assert_eq!(girls[1].weeks_pregnant, 6);
    assert_eq!(girls[2].weeks_pregnant, 0);
}

#[test]
fn runaways() {
    let mut events = TurnEvents::default();
    let mut slave = Girl::default();
    slave.name = "Sal".to_string();
    slave.status.statuses = vec![Status::Slave];
    // chance 5 + (70 - 50) / 2 - 30 / 10 = 12
    TurnProcessor::runaway_check(&mut slave, 70, 30, 12, &mut events);
    assert!(events.events.is_empty());
    TurnProcessor::runaway_check(&mut slave, 70, 30, 11, &mut events);
    assert_eq!(slave.job_day, Some(JobType::Runaway));
    assert_eq!(slave.job_night, Some(JobType::Runaway));
    assert_eq!(events.events, vec!["Sal ran away!".to_string()]);
    // already gone: left alone
    TurnProcessor::runaway_check(&mut slave, 100, 0, 0, &mut events);
    assert_eq!(events.events.len(), 1);

    let mut free = Girl::default();
    free.name = "Fay".to_string();
    free.stats[Stat::Happiness as usize] = 50;
    TurnProcessor::runaway_check(&mut free, 50, 0, 0, &mut events);
    assert_eq!(events.events.len(), 1);
    TurnProcessor::runaway_check(&mut free, 60, 0, 5, &mut events);
    assert_eq!(free.stats[Stat::Happiness as usize], 30);
    assert_eq!(free.job_day, None);
    assert_eq!(events.events[1], "Fay is threatening to leave!");
}

#[test]
fn disease_check_rule() {
    let mut events = TurnEvents::default();
    let mut g = Girl::default();
    g.name = "Ann".to_string();
    g.stats[Stat::Health as usize] = 10;
    TurnProcessor::disease_check(&mut g, 1, &mut events);
    assert!(g.traits.is_empty());
    TurnProcessor::disease_check(&mut g, 0, &mut events);
    assert_eq!(g.traits, vec!["Chlamydia".to_string()]);
    assert_eq!(events.events, vec!["Ann contracted chlamydia!".to_string()]);
    let mut healthy = Girl::default();
    healthy.stats[Stat::Health as usize] = 11;
    TurnProcessor::disease_check(&mut healthy, 0, &mut events);
    assert!(healthy.traits.is_empty());
    assert_eq!(events.events.len(), 1);
}
