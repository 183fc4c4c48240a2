//! Girls' jobs: what one shift of each job does to a girl and earns. Every
//! job reads the girl and a few draws (chances and amounts); `process_with`
//! takes the draws, `process` draws them from a random generator.
use vstd::prelude::*;
use crate::enums::{JobType, Skill, Stat, Status};
use crate::girl::{string_views, Girl, GirlView};
use crate::girls::GirlManager;
use crate::lua_text::{int_str, push_int, skill_name, skill_name_spec, stat_name, stat_name_spec};
use crate::rng::roll_i32;

verus! {

/// Result of processing a single girl's job for one shift.
#[derive(Debug)]
pub struct JobResult {
    pub gold_earned: i32,
    pub events: Vec<String>,
    pub stat_changes: Vec<(Stat, i32)>,
    pub skill_changes: Vec<(Skill, i32)>,
}

impl JobResult {
    /// No gold, no events, no recorded changes.
    pub fn new() -> (r: JobResult)
        ensures
            r.gold_earned == 0,
            r.events@.len() == 0,
            r.stat_changes@.len() == 0,
            r.skill_changes@.len() == 0,
    {
        JobResult { gold_earned: 0, events: Vec::new(), stat_changes: Vec::new(), skill_changes: Vec::new() }
    }
}

impl Default for JobResult {
    fn default() -> (r: JobResult)
        ensures
            r.gold_earned == 0,
            r.events@.len() == 0,
            r.stat_changes@.len() == 0,
            r.skill_changes@.len() == 0,
    {
        JobResult::new()
    }
}

/// A girl and the result of a shift so far: gold earned, events, and the
/// stat and skill changes recorded.
#[verifier::ext_equal]
pub struct JobState {
    pub girl: GirlView,
    pub gold: int,
    pub events: Seq<Seq<char>>,
    pub stat_changes: Seq<(Stat, i32)>,
    pub skill_changes: Seq<(Skill, i32)>,
}

/// The model of a girl and a job result.
pub open spec fn job_state(g: GirlView, r: JobResult) -> JobState {
    JobState {
        girl: g,
        gold: r.gold_earned as int,
        events: string_views(r.events@),
        stat_changes: r.stat_changes@,
        skill_changes: r.skill_changes@,
    }
}

/// The start of a shift: the girl as she is, nothing earned or reported.
pub open spec fn job_start(g: GirlView) -> JobState {
    JobState { girl: g, gold: 0, events: Seq::empty(), stat_changes: Seq::empty(), skill_changes: Seq::empty() }
}

/// The shift with the girl changed.
pub open spec fn with_girl(s: JobState, g: GirlView) -> JobState {
    JobState { girl: g, ..s }
}

/// The shift with the gold earned set.
pub open spec fn with_gold(s: JobState, gold: int) -> JobState {
    JobState { gold, ..s }
}

/// The shift with one more event.
pub open spec fn with_event(s: JobState, e: Seq<char>) -> JobState {
    JobState { events: s.events.push(e), ..s }
}

/// The shift with one more recorded stat change.
pub open spec fn with_stat_change(s: JobState, st: Stat, amount: int) -> JobState {
    JobState { stat_changes: s.stat_changes.push((st, amount as i32)), ..s }
}

/// The shift with one more recorded skill change.
pub open spec fn with_skill_change(s: JobState, sk: Skill, amount: int) -> JobState {
    JobState { skill_changes: s.skill_changes.push((sk, amount as i32)), ..s }
}

/// The larger of two integers.
pub open spec fn max_int(a: int, b: int) -> int {
    if a > b {
        a
    } else {
        b
    }
}

/// The stat picked by a training draw: Charisma, Constitution, Libido.
pub open spec fn training_stat(i: int) -> Stat {
    if i == 0 {
        Stat::Charisma
    } else if i == 1 {
        Stat::Constitution
    } else {
        Stat::Libido
    }
}

/// The skill picked by a training draw past the stats, in skill order.
pub open spec fn training_skill(i: int) -> Skill {
    if i == 0 {
        Skill::Anal
    } else if i == 1 {
        Skill::Magic
    } else if i == 2 {
        Skill::BDSM
    } else if i == 3 {
        Skill::NormalSex
    } else if i == 4 {
        Skill::Beastiality
    } else if i == 5 {
        Skill::Group
    } else if i == 6 {
        Skill::Lesbian
    } else if i == 7 {
        Skill::Service
    } else if i == 8 {
        Skill::Strip
    } else {
        Skill::Combat
    }
}

/// The stat a good potion raises: Charisma, Beauty, Constitution, Intelligence.
pub open spec fn potion_stat(i: int) -> Stat {
    if i == 0 {
        Stat::Charisma
    } else if i == 1 {
        Stat::Beauty
    } else if i == 2 {
        Stat::Constitution
    } else {
        Stat::Intelligence
    }
}

/// The event of a training gain: `Trained <name> +<gain>.`
pub open spec fn trained_text(name: Seq<char>, gain: int) -> Seq<char> {
    "Trained "@ + name + " +"@ + int_str(gain) + "."@
}

fn imax(a: i32, b: i32) -> (r: i32)
    ensures
        r == max_int(a as int, b as int),
{
    if a > b {
        a
    } else {
        b
    }
}

fn training_stat_exec(i: i32) -> (s: Stat)
    ensures
        s == training_stat(i as int),
{
    if i == 0 {
        Stat::Charisma
    } else if i == 1 {
        Stat::Constitution
    } else {
        Stat::Libido
    }
}

fn training_skill_exec(i: i32) -> (s: Skill)
    ensures
        s == training_skill(i as int),
{
    if i == 0 {
        Skill::Anal
    } else if i == 1 {
        Skill::Magic
    } else if i == 2 {
        Skill::BDSM
    } else if i == 3 {
        Skill::NormalSex
    } else if i == 4 {
        Skill::Beastiality
    } else if i == 5 {
        Skill::Group
    } else if i == 6 {
        Skill::Lesbian
    } else if i == 7 {
        Skill::Service
    } else if i == 8 {
        Skill::Strip
    } else {
        Skill::Combat
    }
}

fn potion_stat_exec(i: i32) -> (s: Stat)
    ensures
        s == potion_stat(i as int),
{
    if i == 0 {
        Stat::Charisma
    } else if i == 1 {
        Stat::Beauty
    } else if i == 2 {
        Stat::Constitution
    } else {
        Stat::Intelligence
    }
}

fn push_text(events: &mut Vec<String>, text: &str)
    ensures
        string_views(final(events)@) == string_views(old(events)@).push(text@),
{
    events.push(String::from_str(text));
    assert(string_views(events@) =~= string_views(old(events)@).push(text@));
}

fn push_number_text(events: &mut Vec<String>, pre: &str, n: i32, post: &str)
    ensures
        string_views(final(events)@) == string_views(old(events)@).push(pre@ + int_str(n as int) + post@),
{
    let mut s = String::from_str(pre);
    push_int(&mut s, n as i64);
    s.append(post);
    events.push(s);
    assert(string_views(events@) =~= string_views(old(events)@).push(pre@ + int_str(n as int) + post@));
}

fn push_trained(events: &mut Vec<String>, name: &str, gain: i32)
    ensures
        string_views(final(events)@) == string_views(old(events)@).push(trained_text(name@, gain as int)),
{
    let mut s = String::from_str("Trained ");
    s.append(name);
    s.append(" +");
    push_int(&mut s, gain as i64);
    s.append(".");
    events.push(s);
    assert(string_views(events@) =~= string_views(old(events)@).push(trained_text(name@, gain as int)));
}

fn push_label_text(events: &mut Vec<String>, pre: &str, name: &str, post: &str)
    ensures
        string_views(final(events)@) == string_views(old(events)@).push(pre@ + name@ + post@),
{
    let mut s = String::from_str(pre);
    s.append(name);
    s.append(post);
    events.push(s);
    assert(string_views(events@) =~= string_views(old(events)@).push(pre@ + name@ + post@));
}

/// Resting: she recovers (tiredness -20, happiness +15, health +10, mana +10, a little libido and experience), and goes shopping (happiness +3) at a draw under 50.
#[derive(Debug)]
pub struct JobResting;

/// What the resting job does to a girl with the given draws.
pub open spec fn resting_outcome(g: GirlView, d: Seq<i32>) -> JobState {
    let s0 = job_start(g);
    let s1 = with_girl(s0, s0.girl.add_stat(Stat::Tiredness, -20));
    let s2 = with_girl(s1, s1.girl.add_stat(Stat::Happiness, 15));
    let s3 = with_girl(s2, s2.girl.add_stat(Stat::Health, 10));
    let s4 = with_girl(s3, s3.girl.add_stat(Stat::Mana, 10));
    let s5 = with_girl(s4, s4.girl.add_temp_stat(Stat::Libido, 5));
    let s6 = with_girl(s5, s5.girl.add_stat(Stat::Exp, 1));
    let s7 = with_stat_change(s6, Stat::Tiredness, -20);
    let s8 = with_stat_change(s7, Stat::Happiness, 15);
    let s9 = with_stat_change(s8, Stat::Health, 10);
    let s10 = with_event(s9, "She rested and recovered."@);
    let s11 = if (d[0] as int) < 50 {
        let s12 = with_girl(s10, s10.girl.add_stat(Stat::Happiness, 3));
        let s13 = with_event(s12, "She went shopping."@);
        s13
    } else {
        s10
    };
    s11
}

/// The draws of the resting job, each in the range it is drawn from.
pub open spec fn resting_draws(g: GirlView, d: Seq<i32>) -> bool {
    d.len() == 1
    && 0 <= d[0] < 100
}

impl JobResting {
    /// The job this processes.
    pub fn job_type(&self) -> (t: JobType)
        ensures
            t == JobType::Resting,
    {
        JobType::Resting
    }

    /// One shift of the job with the given draws (see `resting_outcome`).
    pub fn process_with(&self, girl: &mut Girl, d: &[i32]) -> (result: JobResult)
        requires
            resting_draws(old(girl)@, d@),
        ensures
            job_state(final(girl)@, result) == resting_outcome(old(girl)@, d@),
    {
        let mut result = JobResult::new();
        GirlManager::update_stat(girl, Stat::Tiredness, -20);
        GirlManager::update_stat(girl, Stat::Happiness, 15);
        GirlManager::update_stat(girl, Stat::Health, 10);
        GirlManager::update_stat(girl, Stat::Mana, 10);
        GirlManager::update_temp_stat(girl, Stat::Libido, 5);
        GirlManager::update_stat(girl, Stat::Exp, 1);
        result.stat_changes.push((Stat::Tiredness, -20));
        result.stat_changes.push((Stat::Happiness, 15));
        result.stat_changes.push((Stat::Health, 10));
        push_text(&mut result.events, "She rested and recovered.");
        if d[0] < 50 {
            GirlManager::update_stat(girl, Stat::Happiness, 3);
            push_text(&mut result.events, "She went shopping.");
        }
        result
    }

    /// One shift of the job with draws from `rng`: the outcome of `process_with` for some draws in range.
    pub fn process(&self, girl: &mut Girl, rng: &mut rand::rngs::ThreadRng) -> (result: JobResult)
        ensures
            exists|d: Seq<i32>| resting_draws(old(girl)@, d) && job_state(final(girl)@, result) == #[trigger] resting_outcome(old(girl)@, d),
    {
        let mut d: Vec<i32> = Vec::new();
        d.push(roll_i32(rng, 0, 100));
        self.process_with(girl, d.as_slice())
    }
}

/// Training alone: she tires and gains a little libido; at a draw under 50 nothing more happens, otherwise a picked stat (Charisma, Constitution, Libido) or skill gains 1 to 3, and she gains 3 to 7 experience.
#[derive(Debug)]
pub struct JobTraining;

/// What the training job does to a girl with the given draws.
pub open spec fn training_outcome(g: GirlView, d: Seq<i32>) -> JobState {
    let s0 = job_start(g);
    let con = s0.girl.stat(Stat::Constitution);
    let tiredness = max_int(10 - con / 10, 0);
    let s1 = with_girl(s0, s0.girl.add_stat(Stat::Tiredness, tiredness));
    let s2 = with_girl(s1, s1.girl.add_temp_stat(Stat::Libido, 2));
    let s3 = if (d[0] as int) < 50 {
        let s4 = with_event(s2, "Training was uneventful."@);
        s4
    } else {
        let gain = 1 + (d[2] as int);
        let s5 = if d[1] < 3 {
            let st = training_stat(d[1] as int);
            let t = with_stat_change(with_girl(s2, s2.girl.add_stat(st, gain)), st, gain);
            with_event(t, trained_text(stat_name_spec(st.spec_code() as i32), gain))
        } else {
            let sk = training_skill(d[1] - 3);
            let t = with_skill_change(with_girl(s2, s2.girl.add_skill(sk, gain)), sk, gain);
            with_event(t, trained_text(skill_name_spec(sk.spec_code() as i32), gain))
        };
        let s6 = with_girl(s5, s5.girl.add_stat(Stat::Exp, (d[3] as int)));
        s6
    };
    s3
}

/// The draws of the training job, each in the range it is drawn from.
pub open spec fn training_draws(g: GirlView, d: Seq<i32>) -> bool {
    d.len() == 4
    && 0 <= d[0] < 100
    && 0 <= d[1] < 13
    && 0 <= d[2] < 3
    && 3 <= d[3] < 8
}

impl JobTraining {
    /// The job this processes.
    pub fn job_type(&self) -> (t: JobType)
        ensures
            t == JobType::Training,
    {
        JobType::Training
    }

    /// One shift of the job with the given draws (see `training_outcome`).
    pub fn process_with(&self, girl: &mut Girl, d: &[i32]) -> (result: JobResult)
        requires
            training_draws(old(girl)@, d@),
        ensures
            job_state(final(girl)@, result) == training_outcome(old(girl)@, d@),
    {
        let mut result = JobResult::new();
        let con: i32 = GirlManager::get_stat(girl, Stat::Constitution);
        let tiredness: i32 = imax(10 - con / 10, 0);
        GirlManager::update_stat(girl, Stat::Tiredness, tiredness);
        GirlManager::update_temp_stat(girl, Stat::Libido, 2);
        if d[0] < 50 {
            push_text(&mut result.events, "Training was uneventful.");
        } else {
            let gain: i32 = 1 + d[2];
            if d[1] < 3 {
                let st = training_stat_exec(d[1]);
                GirlManager::update_stat(girl, st, gain);
                result.stat_changes.push((st, gain));
                push_trained(&mut result.events, stat_name(st.code() as i32), gain);
            } else {
                let sk = training_skill_exec(d[1] - 3);
                GirlManager::update_skill(girl, sk, gain);
                result.skill_changes.push((sk, gain));
                push_trained(&mut result.events, skill_name(sk.code() as i32), gain);
            }
            GirlManager::update_stat(girl, Stat::Exp, d[3]);
        }
        result
    }

    /// One shift of the job with draws from `rng`: the outcome of `process_with` for some draws in range.
    pub fn process(&self, girl: &mut Girl, rng: &mut rand::rngs::ThreadRng) -> (result: JobResult)
        ensures
            exists|d: Seq<i32>| training_draws(old(girl)@, d) && job_state(final(girl)@, result) == #[trigger] training_outcome(old(girl)@, d),
    {
        let mut d: Vec<i32> = Vec::new();
        d.push(roll_i32(rng, 0, 100));
        d.push(roll_i32(rng, 0, 13));
        d.push(roll_i32(rng, 0, 3));
        d.push(roll_i32(rng, 3, 8));
        self.process_with(girl, d.as_slice())
    }
}

/// Cleaning: she tires, gains 2 experience, earns 5, and gains a point of service at a draw under 30.
#[derive(Debug)]
pub struct JobCleaning;

/// What the cleaning job does to a girl with the given draws.
pub open spec fn cleaning_outcome(g: GirlView, d: Seq<i32>) -> JobState {
    let s0 = job_start(g);
    let tiredness = max_int(10 - s0.girl.stat(Stat::Constitution) / 10, 1);
    let s1 = with_girl(s0, s0.girl.add_stat(Stat::Tiredness, tiredness));
    let s2 = with_girl(s1, s1.girl.add_stat(Stat::Exp, 2));
    let s3 = with_gold(s2, 5);
    let s4 = with_event(s3, "She cleaned the building."@);
    let s5 = if (d[0] as int) < 30 {
        let s6 = with_girl(s4, s4.girl.add_skill(Skill::Service, 1));
        let s7 = with_skill_change(s6, Skill::Service, 1);
        s7
    } else {
        s4
    };
    s5
}

/// The draws of the cleaning job, each in the range it is drawn from.
pub open spec fn cleaning_draws(g: GirlView, d: Seq<i32>) -> bool {
    d.len() == 1
    && 0 <= d[0] < 100
}

impl JobCleaning {
    /// The job this processes.
    pub fn job_type(&self) -> (t: JobType)
        ensures
            t == JobType::Cleaning,
    {
        JobType::Cleaning
    }

    /// One shift of the job with the given draws (see `cleaning_outcome`).
    pub fn process_with(&self, girl: &mut Girl, d: &[i32]) -> (result: JobResult)
        requires
            cleaning_draws(old(girl)@, d@),
        ensures
            job_state(final(girl)@, result) == cleaning_outcome(old(girl)@, d@),
    {
        let mut result = JobResult::new();
        let tiredness: i32 = imax(10 - GirlManager::get_stat(girl, Stat::Constitution) / 10, 1);
        GirlManager::update_stat(girl, Stat::Tiredness, tiredness);
        GirlManager::update_stat(girl, Stat::Exp, 2);
        result.gold_earned = 5;
        push_text(&mut result.events, "She cleaned the building.");
        if d[0] < 30 {
            GirlManager::update_skill(girl, Skill::Service, 1);
            result.skill_changes.push((Skill::Service, 1));
        }
        result
    }

    /// One shift of the job with draws from `rng`: the outcome of `process_with` for some draws in range.
    pub fn process(&self, girl: &mut Girl, rng: &mut rand::rngs::ThreadRng) -> (result: JobResult)
        ensures
            exists|d: Seq<i32>| cleaning_draws(old(girl)@, d) && job_state(final(girl)@, result) == #[trigger] cleaning_outcome(old(girl)@, d),
    {
        let mut d: Vec<i32> = Vec::new();
        d.push(roll_i32(rng, 0, 100));
        self.process_with(girl, d.as_slice())
    }
}

/// Security: she tires, gains 3 experience, keeps the building secure when her combat exceeds 50, gains a point of combat at a draw under 20, and earns 10.
#[derive(Debug)]
pub struct JobSecurity;

/// What the security job does to a girl with the given draws.
pub open spec fn security_outcome(g: GirlView, d: Seq<i32>) -> JobState {
    let s0 = job_start(g);
    let tiredness = max_int(8 - s0.girl.stat(Stat::Constitution) / 12, 1);
    let s1 = with_girl(s0, s0.girl.add_stat(Stat::Tiredness, tiredness));
    let s2 = with_girl(s1, s1.girl.add_stat(Stat::Exp, 3));
    let combat = s2.girl.skill(Skill::Combat);
    let s3 = if combat > 50 {
        let s4 = with_event(s2, "She kept the building secure."@);
        s4
    } else {
        let s5 = with_event(s2, "She did her best to keep watch."@);
        s5
    };
    let s6 = if (d[0] as int) < 20 {
        let s7 = with_girl(s3, s3.girl.add_skill(Skill::Combat, 1));
        let s8 = with_skill_change(s7, Skill::Combat, 1);
        s8
    } else {
        s3
    };
    let s9 = with_gold(s6, 10);
    s9
}

/// The draws of the security job, each in the range it is drawn from.
pub open spec fn security_draws(g: GirlView, d: Seq<i32>) -> bool {
    d.len() == 1
    && 0 <= d[0] < 100
}

impl JobSecurity {
    /// The job this processes.
    pub fn job_type(&self) -> (t: JobType)
        ensures
            t == JobType::Security,
    {
        JobType::Security
    }

    /// One shift of the job with the given draws (see `security_outcome`).
    pub fn process_with(&self, girl: &mut Girl, d: &[i32]) -> (result: JobResult)
        requires
            security_draws(old(girl)@, d@),
        ensures
            job_state(final(girl)@, result) == security_outcome(old(girl)@, d@),
    {
        let mut result = JobResult::new();
        let tiredness: i32 = imax(8 - GirlManager::get_stat(girl, Stat::Constitution) / 12, 1);
        GirlManager::update_stat(girl, Stat::Tiredness, tiredness);
        GirlManager::update_stat(girl, Stat::Exp, 3);
        let combat: i32 = GirlManager::get_skill(girl, Skill::Combat);
        if combat > 50 {
            push_text(&mut result.events, "She kept the building secure.");
        } else {
            push_text(&mut result.events, "She did her best to keep watch.");
        }
        if d[0] < 20 {
            GirlManager::update_skill(girl, Skill::Combat, 1);
            result.skill_changes.push((Skill::Combat, 1));
        }
        result.gold_earned = 10;
        result
    }

    /// One shift of the job with draws from `rng`: the outcome of `process_with` for some draws in range.
    pub fn process(&self, girl: &mut Girl, rng: &mut rand::rngs::ThreadRng) -> (result: JobResult)
        ensures
            exists|d: Seq<i32>| security_draws(old(girl)@, d) && job_state(final(girl)@, result) == #[trigger] security_outcome(old(girl)@, d),
    {
        let mut d: Vec<i32> = Vec::new();
        d.push(roll_i32(rng, 0, 100));
        self.process_with(girl, d.as_slice())
    }
}

/// Advertising: she tires and gains 2 experience; her effectiveness is the mean of charisma and beauty; above 50 she gains fame at a draw under 20, and she gains a point of service at a draw under 25.
#[derive(Debug)]
pub struct JobAdvertising;

/// What the advertising job does to a girl with the given draws.
pub open spec fn advertising_outcome(g: GirlView, d: Seq<i32>) -> JobState {
    let s0 = job_start(g);
    let tiredness = max_int(6 - s0.girl.stat(Stat::Constitution) / 15, 1);
    let s1 = with_girl(s0, s0.girl.add_stat(Stat::Tiredness, tiredness));
    let s2 = with_girl(s1, s1.girl.add_stat(Stat::Exp, 2));
    let charisma = s2.girl.stat(Stat::Charisma);
    let beauty = s2.girl.stat(Stat::Beauty);
    let effectiveness = (charisma + beauty) / 2;
    let s3 = with_event(s2, "She advertised (effectiveness: "@ + int_str(effectiveness) + ")."@);
    let s4 = if effectiveness > 50 && (d[0] as int) < 20 {
        let s5 = with_girl(s3, s3.girl.add_stat(Stat::Fame, 1));
        s5
    } else {
        s3
    };
    let s6 = if (d[1] as int) < 25 {
        let s7 = with_girl(s4, s4.girl.add_skill(Skill::Service, 1));
        s7
    } else {
        s4
    };
    s6
}

/// The draws of the advertising job, each in the range it is drawn from.
pub open spec fn advertising_draws(g: GirlView, d: Seq<i32>) -> bool {
    d.len() == 2
    && 0 <= d[0] < 100
    && 0 <= d[1] < 100
}

impl JobAdvertising {
    /// The job this processes.
    pub fn job_type(&self) -> (t: JobType)
        ensures
            t == JobType::Advertising,
    {
        JobType::Advertising
    }

    /// One shift of the job with the given draws (see `advertising_outcome`).
    pub fn process_with(&self, girl: &mut Girl, d: &[i32]) -> (result: JobResult)
        requires
            advertising_draws(old(girl)@, d@),
        ensures
            job_state(final(girl)@, result) == advertising_outcome(old(girl)@, d@),
    {
        let mut result = JobResult::new();
        let tiredness: i32 = imax(6 - GirlManager::get_stat(girl, Stat::Constitution) / 15, 1);
        GirlManager::update_stat(girl, Stat::Tiredness, tiredness);
        GirlManager::update_stat(girl, Stat::Exp, 2);
        let charisma: i32 = GirlManager::get_stat(girl, Stat::Charisma);
        let beauty: i32 = GirlManager::get_stat(girl, Stat::Beauty);
        let effectiveness: i32 = (charisma + beauty) / 2;
        push_number_text(&mut result.events, "She advertised (effectiveness: ", effectiveness, ").");
        if effectiveness > 50 && d[0] < 20 {
            GirlManager::update_stat(girl, Stat::Fame, 1);
        }
        if d[1] < 25 {
            GirlManager::update_skill(girl, Skill::Service, 1);
        }
        result
    }

    /// One shift of the job with draws from `rng`: the outcome of `process_with` for some draws in range.
    pub fn process(&self, girl: &mut Girl, rng: &mut rand::rngs::ThreadRng) -> (result: JobResult)
        ensures
            exists|d: Seq<i32>| advertising_draws(old(girl)@, d) && job_state(final(girl)@, result) == #[trigger] advertising_outcome(old(girl)@, d),
    {
        let mut d: Vec<i32> = Vec::new();
        d.push(roll_i32(rng, 0, 100));
        d.push(roll_i32(rng, 0, 100));
        self.process_with(girl, d.as_slice())
    }
}

/// Matron: she tires, gains 3 experience and earns 15.
#[derive(Debug)]
pub struct JobMatron;

/// What the matron job does to a girl with the given draws.
pub open spec fn matron_outcome(g: GirlView, d: Seq<i32>) -> JobState {
    let s0 = job_start(g);
    let tiredness = max_int(5 - s0.girl.stat(Stat::Constitution) / 20, 1);
    let s1 = with_girl(s0, s0.girl.add_stat(Stat::Tiredness, tiredness));
    let s2 = with_girl(s1, s1.girl.add_stat(Stat::Exp, 3));
    let s3 = with_event(s2, "She supervised the other girls."@);
    let s4 = with_gold(s3, 15);
    s4
}

/// The draws of the matron job, each in the range it is drawn from.
pub open spec fn matron_draws(g: GirlView, d: Seq<i32>) -> bool {
    d.len() == 0
}

impl JobMatron {
    /// The job this processes.
    pub fn job_type(&self) -> (t: JobType)
        ensures
            t == JobType::Matron,
    {
        JobType::Matron
    }

    /// One shift of the job with the given draws (see `matron_outcome`).
    pub fn process_with(&self, girl: &mut Girl, d: &[i32]) -> (result: JobResult)
        requires
            matron_draws(old(girl)@, d@),
        ensures
            job_state(final(girl)@, result) == matron_outcome(old(girl)@, d@),
    {
        let mut result = JobResult::new();
        let tiredness: i32 = imax(5 - GirlManager::get_stat(girl, Stat::Constitution) / 20, 1);
        GirlManager::update_stat(girl, Stat::Tiredness, tiredness);
        GirlManager::update_stat(girl, Stat::Exp, 3);
        push_text(&mut result.events, "She supervised the other girls.");
        result.gold_earned = 15;
        result
    }

    /// One shift of the job with draws from `rng`: the outcome of `process_with` for some draws in range.
    pub fn process(&self, girl: &mut Girl, rng: &mut rand::rngs::ThreadRng) -> (result: JobResult)
        ensures
            exists|d: Seq<i32>| matron_draws(old(girl)@, d) && job_state(final(girl)@, result) == #[trigger] matron_outcome(old(girl)@, d),
    {
        let mut d: Vec<i32> = Vec::new();
        self.process_with(girl, d.as_slice())
    }
}

/// Torturer: she tires and gains 2 experience.
#[derive(Debug)]
pub struct JobTorturer;

/// What the torturer job does to a girl with the given draws.
pub open spec fn torturer_outcome(g: GirlView, d: Seq<i32>) -> JobState {
    let s0 = job_start(g);
    let tiredness = max_int(8 - s0.girl.stat(Stat::Constitution) / 12, 1);
    let s1 = with_girl(s0, s0.girl.add_stat(Stat::Tiredness, tiredness));
    let s2 = with_girl(s1, s1.girl.add_stat(Stat::Exp, 2));
    let s3 = with_event(s2, "She worked as torturer."@);
    s3
}

/// The draws of the torturer job, each in the range it is drawn from.
pub open spec fn torturer_draws(g: GirlView, d: Seq<i32>) -> bool {
    d.len() == 0
}

impl JobTorturer {
    /// The job this processes.
    pub fn job_type(&self) -> (t: JobType)
        ensures
            t == JobType::Torturer,
    {
        JobType::Torturer
    }

    /// One shift of the job with the given draws (see `torturer_outcome`).
    pub fn process_with(&self, girl: &mut Girl, d: &[i32]) -> (result: JobResult)
        requires
            torturer_draws(old(girl)@, d@),
        ensures
            job_state(final(girl)@, result) == torturer_outcome(old(girl)@, d@),
    {
        let mut result = JobResult::new();
        let tiredness: i32 = imax(8 - GirlManager::get_stat(girl, Stat::Constitution) / 12, 1);
        GirlManager::update_stat(girl, Stat::Tiredness, tiredness);
        GirlManager::update_stat(girl, Stat::Exp, 2);
        push_text(&mut result.events, "She worked as torturer.");
        result
    }

    /// One shift of the job with draws from `rng`: the outcome of `process_with` for some draws in range.
    pub fn process(&self, girl: &mut Girl, rng: &mut rand::rngs::ThreadRng) -> (result: JobResult)
        ensures
            exists|d: Seq<i32>| torturer_draws(old(girl)@, d) && job_state(final(girl)@, result) == #[trigger] torturer_outcome(old(girl)@, d),
    {
        let mut d: Vec<i32> = Vec::new();
        self.process_with(girl, d.as_slice())
    }
}

/// Exploring the catacombs: she tires and earns 10 to 29 plus half her better of combat and magic; at a draw under 20 she is hurt for 5 to 19 health; she gains a point of combat at a draw under 30 and 3 to 7 experience.
#[derive(Debug)]
pub struct JobExploreCatacombs;

/// What the explore catacombs job does to a girl with the given draws.
pub open spec fn explore_catacombs_outcome(g: GirlView, d: Seq<i32>) -> JobState {
    let s0 = job_start(g);
    let tiredness = max_int(12 - s0.girl.stat(Stat::Constitution) / 10, 2);
    let s1 = with_girl(s0, s0.girl.add_stat(Stat::Tiredness, tiredness));
    let combat = s1.girl.skill(Skill::Combat);
    let magic = s1.girl.skill(Skill::Magic);
    let best = max_int(combat, magic);
    let gold = (d[0] as int) + best / 2;
    let s2 = with_gold(s1, gold);
    let s3 = if (d[1] as int) < 20 {
        let dmg = (d[2] as int);
        let s4 = with_girl(s2, s2.girl.add_stat(Stat::Health, -dmg));
        let s5 = with_event(s4, "She was injured in the catacombs (-"@ + int_str(dmg) + " health)."@);
        s5
    } else {
        let s6 = with_event(s2, "She explored the catacombs and found "@ + int_str(gold) + " gold."@);
        s6
    };
    let s7 = if (d[3] as int) < 30 {
        let s8 = with_girl(s3, s3.girl.add_skill(Skill::Combat, 1));
        s8
    } else {
        s3
    };
    let s9 = with_girl(s7, s7.girl.add_stat(Stat::Exp, (d[4] as int)));
    s9
}

/// The draws of the explore catacombs job, each in the range it is drawn from.
pub open spec fn explore_catacombs_draws(g: GirlView, d: Seq<i32>) -> bool {
    d.len() == 5
    && 10 <= d[0] < 30
    && 0 <= d[1] < 100
    && 5 <= d[2] < 20
    && 0 <= d[3] < 100
    && 3 <= d[4] < 8
}

impl JobExploreCatacombs {
    /// The job this processes.
    pub fn job_type(&self) -> (t: JobType)
        ensures
            t == JobType::ExploreCatacombs,
    {
        JobType::ExploreCatacombs
    }

    /// One shift of the job with the given draws (see `explore_catacombs_outcome`).
    pub fn process_with(&self, girl: &mut Girl, d: &[i32]) -> (result: JobResult)
        requires
            explore_catacombs_draws(old(girl)@, d@),
        ensures
            job_state(final(girl)@, result) == explore_catacombs_outcome(old(girl)@, d@),
    {
        let mut result = JobResult::new();
        let tiredness: i32 = imax(12 - GirlManager::get_stat(girl, Stat::Constitution) / 10, 2);
        GirlManager::update_stat(girl, Stat::Tiredness, tiredness);
        let combat: i32 = GirlManager::get_skill(girl, Skill::Combat);
        let magic: i32 = GirlManager::get_skill(girl, Skill::Magic);
        let best: i32 = imax(combat, magic);
        let gold: i32 = d[0] + best / 2;
        result.gold_earned = gold;
        if d[1] < 20 {
            let dmg: i32 = d[2];
            GirlManager::update_stat(girl, Stat::Health, -dmg);
            push_number_text(&mut result.events, "She was injured in the catacombs (-", dmg, " health).");
        } else {
            push_number_text(&mut result.events, "She explored the catacombs and found ", gold, " gold.");
        }
        if d[3] < 30 {
            GirlManager::update_skill(girl, Skill::Combat, 1);
        }
        GirlManager::update_stat(girl, Stat::Exp, d[4]);
        result
    }

    /// One shift of the job with draws from `rng`: the outcome of `process_with` for some draws in range.
    pub fn process(&self, girl: &mut Girl, rng: &mut rand::rngs::ThreadRng) -> (result: JobResult)
        ensures
            exists|d: Seq<i32>| explore_catacombs_draws(old(girl)@, d) && job_state(final(girl)@, result) == #[trigger] explore_catacombs_outcome(old(girl)@, d),
    {
        let mut d: Vec<i32> = Vec::new();
        d.push(roll_i32(rng, 10, 30));
        d.push(roll_i32(rng, 0, 100));
        d.push(roll_i32(rng, 5, 20));
        d.push(roll_i32(rng, 0, 100));
        d.push(roll_i32(rng, 3, 8));
        self.process_with(girl, d.as_slice())
    }
}

/// Beast capture: she tires; she captures a beast at a draw under 30 plus a third of her combat; at a draw under 15 a beast hurts her for 3 to 11 health; she gains 3 experience.
#[derive(Debug)]
pub struct JobBeastCapture;

/// What the beast capture job does to a girl with the given draws.
pub open spec fn beast_capture_outcome(g: GirlView, d: Seq<i32>) -> JobState {
    let s0 = job_start(g);
    let tiredness = max_int(10 - s0.girl.stat(Stat::Constitution) / 10, 2);
    let s1 = with_girl(s0, s0.girl.add_stat(Stat::Tiredness, tiredness));
    let combat = s1.girl.skill(Skill::Combat);
    let s2 = if (d[0] as int) < 30 + combat / 3 {
        let s3 = with_event(s1, "She captured a beast!"@);
        s3
    } else {
        let s4 = with_event(s1, "She failed to capture any beasts."@);
        s4
    };
    let s5 = if (d[1] as int) < 15 {
        let dmg = (d[2] as int);
        let s6 = with_girl(s2, s2.girl.add_stat(Stat::Health, -dmg));
        let s7 = with_event(s6, "A beast injured her (-"@ + int_str(dmg) + " health)."@);
        s7
    } else {
        s2
    };
    let s8 = with_girl(s5, s5.girl.add_stat(Stat::Exp, 3));
    s8
}

/// The draws of the beast capture job, each in the range it is drawn from.
pub open spec fn beast_capture_draws(g: GirlView, d: Seq<i32>) -> bool {
    d.len() == 3
    && 0 <= d[0] < 100
    && 0 <= d[1] < 100
    && 3 <= d[2] < 12
}

impl JobBeastCapture {
    /// The job this processes.
    pub fn job_type(&self) -> (t: JobType)
        ensures
            t == JobType::BeastCapture,
    {
        JobType::BeastCapture
    }

    /// One shift of the job with the given draws (see `beast_capture_outcome`).
    pub fn process_with(&self, girl: &mut Girl, d: &[i32]) -> (result: JobResult)
        requires
            beast_capture_draws(old(girl)@, d@),
        ensures
            job_state(final(girl)@, result) == beast_capture_outcome(old(girl)@, d@),
    {
        let mut result = JobResult::new();
        let tiredness: i32 = imax(10 - GirlManager::get_stat(girl, Stat::Constitution) / 10, 2);
        GirlManager::update_stat(girl, Stat::Tiredness, tiredness);
        let combat: i32 = GirlManager::get_skill(girl, Skill::Combat);
        if d[0] < 30 + combat / 3 {
            push_text(&mut result.events, "She captured a beast!");
        } else {
            push_text(&mut result.events, "She failed to capture any beasts.");
        }
        if d[1] < 15 {
            let dmg: i32 = d[2];
            GirlManager::update_stat(girl, Stat::Health, -dmg);
            push_number_text(&mut result.events, "A beast injured her (-", dmg, " health).");
        }
        GirlManager::update_stat(girl, Stat::Exp, 3);
        result
    }

    /// One shift of the job with draws from `rng`: the outcome of `process_with` for some draws in range.
    pub fn process(&self, girl: &mut Girl, rng: &mut rand::rngs::ThreadRng) -> (result: JobResult)
        ensures
            exists|d: Seq<i32>| beast_capture_draws(old(girl)@, d) && job_state(final(girl)@, result) == #[trigger] beast_capture_outcome(old(girl)@, d),
    {
        let mut d: Vec<i32> = Vec::new();
        d.push(roll_i32(rng, 0, 100));
        d.push(roll_i32(rng, 0, 100));
        d.push(roll_i32(rng, 3, 12));
        self.process_with(girl, d.as_slice())
    }
}

/// Beast carer: she tires, gains a point of beastiality at a draw under 20, and 2 experience.
#[derive(Debug)]
pub struct JobBeastCarer;

/// What the beast carer job does to a girl with the given draws.
pub open spec fn beast_carer_outcome(g: GirlView, d: Seq<i32>) -> JobState {
    let s0 = job_start(g);
    let tiredness = max_int(6 - s0.girl.stat(Stat::Constitution) / 15, 1);
    let s1 = with_girl(s0, s0.girl.add_stat(Stat::Tiredness, tiredness));
    let s2 = with_event(s1, "She cared for the beasts."@);
    let s3 = if (d[0] as int) < 20 {
        let s4 = with_girl(s2, s2.girl.add_skill(Skill::Beastiality, 1));
        s4
    } else {
        s2
    };
    let s5 = with_girl(s3, s3.girl.add_stat(Stat::Exp, 2));
    s5
}

/// The draws of the beast carer job, each in the range it is drawn from.
pub open spec fn beast_carer_draws(g: GirlView, d: Seq<i32>) -> bool {
    d.len() == 1
    && 0 <= d[0] < 100
}

impl JobBeastCarer {
    /// The job this processes.
    pub fn job_type(&self) -> (t: JobType)
        ensures
            t == JobType::BeastCarer,
    {
        JobType::BeastCarer
    }

    /// One shift of the job with the given draws (see `beast_carer_outcome`).
    pub fn process_with(&self, girl: &mut Girl, d: &[i32]) -> (result: JobResult)
        requires
            beast_carer_draws(old(girl)@, d@),
        ensures
            job_state(final(girl)@, result) == beast_carer_outcome(old(girl)@, d@),
    {
        let mut result = JobResult::new();
        let tiredness: i32 = imax(6 - GirlManager::get_stat(girl, Stat::Constitution) / 15, 1);
        GirlManager::update_stat(girl, Stat::Tiredness, tiredness);
        push_text(&mut result.events, "She cared for the beasts.");
        if d[0] < 20 {
            GirlManager::update_skill(girl, Skill::Beastiality, 1);
        }
        GirlManager::update_stat(girl, Stat::Exp, 2);
        result
    }

    /// One shift of the job with draws from `rng`: the outcome of `process_with` for some draws in range.
    pub fn process(&self, girl: &mut Girl, rng: &mut rand::rngs::ThreadRng) -> (result: JobResult)
        ensures
            exists|d: Seq<i32>| beast_carer_draws(old(girl)@, d) && job_state(final(girl)@, result) == #[trigger] beast_carer_outcome(old(girl)@, d),
    {
        let mut d: Vec<i32> = Vec::new();
        d.push(roll_i32(rng, 0, 100));
        self.process_with(girl, d.as_slice())
    }
}

/// Finding reagents: she earns 10 plus a fifth of intelligence and magic, tires, gains 3 experience; at a draw under 10 she is hurt for 2 to 7 health; she gains a point of magic at a draw under 20.
#[derive(Debug)]
pub struct JobFindRegents;

/// What the find regents job does to a girl with the given draws.
pub open spec fn find_regents_outcome(g: GirlView, d: Seq<i32>) -> JobState {
    let s0 = job_start(g);
    let intelligence = s0.girl.stat(Stat::Intelligence);
    let magic = s0.girl.skill(Skill::Magic);
    let s1 = with_gold(s0, 10 + (intelligence + magic) / 5);
    let tiredness = max_int(8 - s1.girl.stat(Stat::Constitution) / 12, 1);
    let s2 = with_girl(s1, s1.girl.add_stat(Stat::Tiredness, tiredness));
    let s3 = with_girl(s2, s2.girl.add_stat(Stat::Exp, 3));
    let s4 = if (d[0] as int) < 10 {
        let dmg = (d[1] as int);
        let s5 = with_girl(s3, s3.girl.add_stat(Stat::Health, -dmg));
        let s6 = with_event(s5, "She was injured while foraging (-"@ + int_str(dmg) + " health)."@);
        s6
    } else {
        let s7 = with_event(s3, "She found reagents for the lab."@);
        s7
    };
    let s8 = if (d[2] as int) < 20 {
        let s9 = with_girl(s4, s4.girl.add_skill(Skill::Magic, 1));
        s9
    } else {
        s4
    };
    s8
}

/// The draws of the find regents job, each in the range it is drawn from.
pub open spec fn find_regents_draws(g: GirlView, d: Seq<i32>) -> bool {
    d.len() == 3
    && 0 <= d[0] < 100
    && 2 <= d[1] < 8
    && 0 <= d[2] < 100
}

impl JobFindRegents {
    /// The job this processes.
    pub fn job_type(&self) -> (t: JobType)
        ensures
            t == JobType::FindRegents,
    {
        JobType::FindRegents
    }

    /// One shift of the job with the given draws (see `find_regents_outcome`).
    pub fn process_with(&self, girl: &mut Girl, d: &[i32]) -> (result: JobResult)
        requires
            find_regents_draws(old(girl)@, d@),
        ensures
            job_state(final(girl)@, result) == find_regents_outcome(old(girl)@, d@),
    {
        let mut result = JobResult::new();
        let intelligence: i32 = GirlManager::get_stat(girl, Stat::Intelligence);
        let magic: i32 = GirlManager::get_skill(girl, Skill::Magic);
        result.gold_earned = 10 + (intelligence + magic) / 5;
        let tiredness: i32 = imax(8 - GirlManager::get_stat(girl, Stat::Constitution) / 12, 1);
        GirlManager::update_stat(girl, Stat::Tiredness, tiredness);
        GirlManager::update_stat(girl, Stat::Exp, 3);
        if d[0] < 10 {
            let dmg: i32 = d[1];
            GirlManager::update_stat(girl, Stat::Health, -dmg);
            push_number_text(&mut result.events, "She was injured while foraging (-", dmg, " health).");
        } else {
            push_text(&mut result.events, "She found reagents for the lab.");
        }
        if d[2] < 20 {
            GirlManager::update_skill(girl, Skill::Magic, 1);
        }
        result
    }

    /// One shift of the job with draws from `rng`: the outcome of `process_with` for some draws in range.
    pub fn process(&self, girl: &mut Girl, rng: &mut rand::rngs::ThreadRng) -> (result: JobResult)
        ensures
            exists|d: Seq<i32>| find_regents_draws(old(girl)@, d) && job_state(final(girl)@, result) == #[trigger] find_regents_outcome(old(girl)@, d),
    {
        let mut d: Vec<i32> = Vec::new();
        d.push(roll_i32(rng, 0, 100));
        d.push(roll_i32(rng, 2, 8));
        d.push(roll_i32(rng, 0, 100));
        self.process_with(girl, d.as_slice())
    }
}

/// Brewing potions: she earns 20 plus a quarter of intelligence and magic, spends 15 mana, tires, gains 4 experience, and a point of magic at a draw under 25.
#[derive(Debug)]
pub struct JobBrewPotions;

/// What the brew potions job does to a girl with the given draws.
pub open spec fn brew_potions_outcome(g: GirlView, d: Seq<i32>) -> JobState {
    let s0 = job_start(g);
    let intelligence = s0.girl.stat(Stat::Intelligence);
    let magic = s0.girl.skill(Skill::Magic);
    let s1 = with_gold(s0, 20 + (intelligence + magic) / 4);
    let s2 = with_girl(s1, s1.girl.add_stat(Stat::Mana, -15));
    let tiredness = max_int(6 - s2.girl.stat(Stat::Constitution) / 15, 1);
    let s3 = with_girl(s2, s2.girl.add_stat(Stat::Tiredness, tiredness));
    let s4 = with_girl(s3, s3.girl.add_stat(Stat::Exp, 4));
    let s5 = if (d[0] as int) < 25 {
        let s6 = with_girl(s4, s4.girl.add_skill(Skill::Magic, 1));
        s6
    } else {
        s4
    };
    let s7 = with_event(s5, "She brewed potions."@);
    s7
}

/// The draws of the brew potions job, each in the range it is drawn from.
pub open spec fn brew_potions_draws(g: GirlView, d: Seq<i32>) -> bool {
    d.len() == 1
    && 0 <= d[0] < 100
}

impl JobBrewPotions {
    /// The job this processes.
    pub fn job_type(&self) -> (t: JobType)
        ensures
            t == JobType::BrewPotions,
    {
        JobType::BrewPotions
    }

    /// One shift of the job with the given draws (see `brew_potions_outcome`).
    pub fn process_with(&self, girl: &mut Girl, d: &[i32]) -> (result: JobResult)
        requires
            brew_potions_draws(old(girl)@, d@),
        ensures
            job_state(final(girl)@, result) == brew_potions_outcome(old(girl)@, d@),
    {
        let mut result = JobResult::new();
        let intelligence: i32 = GirlManager::get_stat(girl, Stat::Intelligence);
        let magic: i32 = GirlManager::get_skill(girl, Skill::Magic);
        result.gold_earned = 20 + (intelligence + magic) / 4;
        GirlManager::update_stat(girl, Stat::Mana, -15);
        let tiredness: i32 = imax(6 - GirlManager::get_stat(girl, Stat::Constitution) / 15, 1);
        GirlManager::update_stat(girl, Stat::Tiredness, tiredness);
        GirlManager::update_stat(girl, Stat::Exp, 4);
        if d[0] < 25 {
            GirlManager::update_skill(girl, Skill::Magic, 1);
        }
        push_text(&mut result.events, "She brewed potions.");
        result
    }

    /// One shift of the job with draws from `rng`: the outcome of `process_with` for some draws in range.
    pub fn process(&self, girl: &mut Girl, rng: &mut rand::rngs::ThreadRng) -> (result: JobResult)
        ensures
            exists|d: Seq<i32>| brew_potions_draws(old(girl)@, d) && job_state(final(girl)@, result) == #[trigger] brew_potions_outcome(old(girl)@, d),
    {
        let mut d: Vec<i32> = Vec::new();
        d.push(roll_i32(rng, 0, 100));
        self.process_with(girl, d.as_slice())
    }
}

/// Potion tester: she earns 15, tires and gains 2 experience; at a draw under 15 a potion hurts her for 3 to 9 health; otherwise at a draw under 20 a potion raises a picked stat (Charisma, Beauty, Constitution, Intelligence) by 1 to 3.
#[derive(Debug)]
pub struct JobPotionTester;

/// What the potion tester job does to a girl with the given draws.
pub open spec fn potion_tester_outcome(g: GirlView, d: Seq<i32>) -> JobState {
    let s0 = job_start(g);
    let s1 = with_gold(s0, 15);
    let tiredness = max_int(5 - s1.girl.stat(Stat::Constitution) / 20, 1);
    let s2 = with_girl(s1, s1.girl.add_stat(Stat::Tiredness, tiredness));
    let s3 = with_girl(s2, s2.girl.add_stat(Stat::Exp, 2));
    let s4 = if (d[0] as int) < 15 {
        let dmg = (d[1] as int);
        let s5 = with_girl(s3, s3.girl.add_stat(Stat::Health, -dmg));
        let s6 = with_event(s5, "She had a bad reaction to a potion (-"@ + int_str(dmg) + " health)."@);
        s6
    } else {
        let s7 = if (d[2] as int) < 20 {
            let s8 = {
                let st = potion_stat(d[3] as int);
                let t = with_girl(s3, s3.girl.add_stat(st, d[4] as int));
                with_event(t, "A potion boosted her "@ + stat_name_spec(st.spec_code() as i32) + "!"@)
            };
            s8
        } else {
            let s9 = with_event(s3, "She tested potions without incident."@);
            s9
        };
        s7
    };
    s4
}

/// The draws of the potion tester job, each in the range it is drawn from.
pub open spec fn potion_tester_draws(g: GirlView, d: Seq<i32>) -> bool {
    d.len() == 5
    && 0 <= d[0] < 100
    && 3 <= d[1] < 10
    && 0 <= d[2] < 100
    && 0 <= d[3] < 4
    && 1 <= d[4] < 4
}

impl JobPotionTester {
    /// The job this processes.
    pub fn job_type(&self) -> (t: JobType)
        ensures
            t == JobType::PotionTester,
    {
        JobType::PotionTester
    }

    /// One shift of the job with the given draws (see `potion_tester_outcome`).
    pub fn process_with(&self, girl: &mut Girl, d: &[i32]) -> (result: JobResult)
        requires
            potion_tester_draws(old(girl)@, d@),
        ensures
            job_state(final(girl)@, result) == potion_tester_outcome(old(girl)@, d@),
    {
        let mut result = JobResult::new();
        result.gold_earned = 15;
        let tiredness: i32 = imax(5 - GirlManager::get_stat(girl, Stat::Constitution) / 20, 1);
        GirlManager::update_stat(girl, Stat::Tiredness, tiredness);
        GirlManager::update_stat(girl, Stat::Exp, 2);
        if d[0] < 15 {
            let dmg: i32 = d[1];
            GirlManager::update_stat(girl, Stat::Health, -dmg);
            push_number_text(&mut result.events, "She had a bad reaction to a potion (-", dmg, " health).");
        } else {
            if d[2] < 20 {
                let st = potion_stat_exec(d[3]);
                GirlManager::update_stat(girl, st, d[4]);
                push_label_text(&mut result.events, "A potion boosted her ", stat_name(st.code() as i32), "!");
            } else {
                push_text(&mut result.events, "She tested potions without incident.");
            }
        }
        result
    }

    /// One shift of the job with draws from `rng`: the outcome of `process_with` for some draws in range.
    pub fn process(&self, girl: &mut Girl, rng: &mut rand::rngs::ThreadRng) -> (result: JobResult)
        ensures
            exists|d: Seq<i32>| potion_tester_draws(old(girl)@, d) && job_state(final(girl)@, result) == #[trigger] potion_tester_outcome(old(girl)@, d),
    {
        let mut d: Vec<i32> = Vec::new();
        d.push(roll_i32(rng, 0, 100));
        d.push(roll_i32(rng, 3, 10));
        d.push(roll_i32(rng, 0, 100));
        d.push(roll_i32(rng, 0, 4));
        d.push(roll_i32(rng, 1, 4));
        self.process_with(girl, d.as_slice())
    }
}

/// Fighting beasts: she wins at a draw under 30 plus half her better of combat and magic, earning 30 plus that half and gaining fame at a draw under 30; losing costs 5 to 19 health; she tires, gains 3 to 7 experience, and a point of combat at a draw under 30.
#[derive(Debug)]
pub struct JobFightBeasts;

/// What the fight beasts job does to a girl with the given draws.
pub open spec fn fight_beasts_outcome(g: GirlView, d: Seq<i32>) -> JobState {
    let s0 = job_start(g);
    let combat = s0.girl.skill(Skill::Combat);
    let magic = s0.girl.skill(Skill::Magic);
    let best = max_int(combat, magic);
    let s1 = if (d[0] as int) < 30 + best / 2 {
        let s2 = with_gold(s0, 30 + best / 2);
        let s3 = with_event(s2, "She defeated the beast!"@);
        let s4 = if (d[1] as int) < 30 {
            let s5 = with_girl(s3, s3.girl.add_stat(Stat::Fame, 1));
            s5
        } else {
            s3
        };
        s4
    } else {
        let dmg = (d[2] as int);
        let s6 = with_girl(s0, s0.girl.add_stat(Stat::Health, -dmg));
        let s7 = with_event(s6, "She lost the fight (-"@ + int_str(dmg) + " health)."@);
        s7
    };
    let tiredness = max_int(12 - s1.girl.stat(Stat::Constitution) / 10, 2);
    let s8 = with_girl(s1, s1.girl.add_stat(Stat::Tiredness, tiredness));
    let s9 = with_girl(s8, s8.girl.add_stat(Stat::Exp, (d[3] as int)));
    let s10 = if (d[4] as int) < 30 {
        let s11 = with_girl(s9, s9.girl.add_skill(Skill::Combat, 1));
        s11
    } else {
        s9
    };
    s10
}

/// The draws of the fight beasts job, each in the range it is drawn from.
pub open spec fn fight_beasts_draws(g: GirlView, d: Seq<i32>) -> bool {
    d.len() == 5
    && 0 <= d[0] < 100
    && 0 <= d[1] < 100
    && 5 <= d[2] < 20
    && 3 <= d[3] < 8
    && 0 <= d[4] < 100
}

impl JobFightBeasts {
    /// The job this processes.
    pub fn job_type(&self) -> (t: JobType)
        ensures
            t == JobType::FightBeasts,
    {
        JobType::FightBeasts
    }

    /// One shift of the job with the given draws (see `fight_beasts_outcome`).
    pub fn process_with(&self, girl: &mut Girl, d: &[i32]) -> (result: JobResult)
        requires
            fight_beasts_draws(old(girl)@, d@),
        ensures
            job_state(final(girl)@, result) == fight_beasts_outcome(old(girl)@, d@),
    {
        let mut result = JobResult::new();
        let combat: i32 = GirlManager::get_skill(girl, Skill::Combat);
        let magic: i32 = GirlManager::get_skill(girl, Skill::Magic);
        let best: i32 = imax(combat, magic);
        if d[0] < 30 + best / 2 {
            result.gold_earned = 30 + best / 2;
            push_text(&mut result.events, "She defeated the beast!");
            if d[1] < 30 {
                GirlManager::update_stat(girl, Stat::Fame, 1);
            }
        } else {
            let dmg: i32 = d[2];
            GirlManager::update_stat(girl, Stat::Health, -dmg);
            push_number_text(&mut result.events, "She lost the fight (-", dmg, " health).");
        }
        let tiredness: i32 = imax(12 - GirlManager::get_stat(girl, Stat::Constitution) / 10, 2);
        GirlManager::update_stat(girl, Stat::Tiredness, tiredness);
        GirlManager::update_stat(girl, Stat::Exp, d[3]);
        if d[4] < 30 {
            GirlManager::update_skill(girl, Skill::Combat, 1);
        }
        result
    }

    /// One shift of the job with draws from `rng`: the outcome of `process_with` for some draws in range.
    pub fn process(&self, girl: &mut Girl, rng: &mut rand::rngs::ThreadRng) -> (result: JobResult)
        ensures
            exists|d: Seq<i32>| fight_beasts_draws(old(girl)@, d) && job_state(final(girl)@, result) == #[trigger] fight_beasts_outcome(old(girl)@, d),
    {
        let mut d: Vec<i32> = Vec::new();
        d.push(roll_i32(rng, 0, 100));
        d.push(roll_i32(rng, 0, 100));
        d.push(roll_i32(rng, 5, 20));
        d.push(roll_i32(rng, 3, 8));
        d.push(roll_i32(rng, 0, 100));
        self.process_with(girl, d.as_slice())
    }
}

/// Wrestling: with the mean of combat and agility as her strength, she wins at a draw under 30 plus half of it, earning 25 plus a third; losing costs 2 to 9 health; she tires, gains 3 to 5 experience, and a point of combat at a draw under 25.
#[derive(Debug)]
pub struct JobWrestle;

/// What the wrestle job does to a girl with the given draws.
pub open spec fn wrestle_outcome(g: GirlView, d: Seq<i32>) -> JobState {
    let s0 = job_start(g);
    let combat = s0.girl.skill(Skill::Combat);
    let agility = s0.girl.stat(Stat::Agility);
    let best = (combat + agility) / 2;
    let s1 = if (d[0] as int) < 30 + best / 2 {
        let s2 = with_gold(s0, 25 + best / 3);
        let s3 = with_event(s2, "She won the wrestling match!"@);
        s3
    } else {
        let dmg = (d[1] as int);
        let s4 = with_girl(s0, s0.girl.add_stat(Stat::Health, -dmg));
        let s5 = with_event(s4, "She lost the wrestling match."@);
        s5
    };
    let tiredness = max_int(10 - s1.girl.stat(Stat::Constitution) / 10, 2);
    let s6 = with_girl(s1, s1.girl.add_stat(Stat::Tiredness, tiredness));
    let s7 = with_girl(s6, s6.girl.add_stat(Stat::Exp, (d[2] as int)));
    let s8 = if (d[3] as int) < 25 {
        let s9 = with_girl(s7, s7.girl.add_skill(Skill::Combat, 1));
        s9
    } else {
        s7
    };
    s8
}

/// The draws of the wrestle job, each in the range it is drawn from.
pub open spec fn wrestle_draws(g: GirlView, d: Seq<i32>) -> bool {
    d.len() == 4
    && 0 <= d[0] < 100
    && 2 <= d[1] < 10
    && 3 <= d[2] < 6
    && 0 <= d[3] < 100
}

impl JobWrestle {
    /// The job this processes.
    pub fn job_type(&self) -> (t: JobType)
        ensures
            t == JobType::Wrestle,
    {
        JobType::Wrestle
    }

    /// One shift of the job with the given draws (see `wrestle_outcome`).
    pub fn process_with(&self, girl: &mut Girl, d: &[i32]) -> (result: JobResult)
        requires
            wrestle_draws(old(girl)@, d@),
        ensures
            job_state(final(girl)@, result) == wrestle_outcome(old(girl)@, d@),
    {
        let mut result = JobResult::new();
        let combat: i32 = GirlManager::get_skill(girl, Skill::Combat);
        let agility: i32 = GirlManager::get_stat(girl, Stat::Agility);
        let best: i32 = (combat + agility) / 2;
        if d[0] < 30 + best / 2 {
            result.gold_earned = 25 + best / 3;
            push_text(&mut result.events, "She won the wrestling match!");
        } else {
            let dmg: i32 = d[1];
            GirlManager::update_stat(girl, Stat::Health, -dmg);
            push_text(&mut result.events, "She lost the wrestling match.");
        }
        let tiredness: i32 = imax(10 - GirlManager::get_stat(girl, Stat::Constitution) / 10, 2);
        GirlManager::update_stat(girl, Stat::Tiredness, tiredness);
        GirlManager::update_stat(girl, Stat::Exp, d[2]);
        if d[3] < 25 {
            GirlManager::update_skill(girl, Skill::Combat, 1);
        }
        result
    }

    /// One shift of the job with draws from `rng`: the outcome of `process_with` for some draws in range.
    pub fn process(&self, girl: &mut Girl, rng: &mut rand::rngs::ThreadRng) -> (result: JobResult)
        ensures
            exists|d: Seq<i32>| wrestle_draws(old(girl)@, d) && job_state(final(girl)@, result) == #[trigger] wrestle_outcome(old(girl)@, d),
    {
        let mut d: Vec<i32> = Vec::new();
        d.push(roll_i32(rng, 0, 100));
        d.push(roll_i32(rng, 2, 10));
        d.push(roll_i32(rng, 3, 6));
        d.push(roll_i32(rng, 0, 100));
        self.process_with(girl, d.as_slice())
    }
}

/// Fighting to the death: she wins at a draw under 20 plus half her better of combat and magic, earning 50 plus that skill and 2 fame; losing costs 15 to 39 health; she tires, gains 5 to 11 experience and 1 to 3 combat.
#[derive(Debug)]
pub struct JobFightToDeath;

/// What the fight to death job does to a girl with the given draws.
pub open spec fn fight_to_death_outcome(g: GirlView, d: Seq<i32>) -> JobState {
    let s0 = job_start(g);
    let combat = s0.girl.skill(Skill::Combat);
    let magic = s0.girl.skill(Skill::Magic);
    let best = max_int(combat, magic);
    let s1 = if (d[0] as int) < 20 + best / 2 {
        let s2 = with_gold(s0, 50 + best);
        let s3 = with_girl(s2, s2.girl.add_stat(Stat::Fame, 2));
        let s4 = with_event(s3, "She killed her opponent in the arena!"@);
        s4
    } else {
        let dmg = (d[1] as int);
        let s5 = with_girl(s0, s0.girl.add_stat(Stat::Health, -dmg));
        let s6 = with_event(s5, "She was badly injured in the arena (-"@ + int_str(dmg) + " health)."@);
        s6
    };
    let tiredness = max_int(15 - s1.girl.stat(Stat::Constitution) / 8, 3);
    let s7 = with_girl(s1, s1.girl.add_stat(Stat::Tiredness, tiredness));
    let s8 = with_girl(s7, s7.girl.add_stat(Stat::Exp, (d[2] as int)));
    let s9 = with_girl(s8, s8.girl.add_skill(Skill::Combat, (d[3] as int)));
    s9
}

/// The draws of the fight to death job, each in the range it is drawn from.
pub open spec fn fight_to_death_draws(g: GirlView, d: Seq<i32>) -> bool {
    d.len() == 4
    && 0 <= d[0] < 100
    && 15 <= d[1] < 40
    && 5 <= d[2] < 12
    && 1 <= d[3] < 4
}

impl JobFightToDeath {
    /// The job this processes.
    pub fn job_type(&self) -> (t: JobType)
        ensures
            t == JobType::FightToDeath,
    {
        JobType::FightToDeath
    }

    /// One shift of the job with the given draws (see `fight_to_death_outcome`).
    pub fn process_with(&self, girl: &mut Girl, d: &[i32]) -> (result: JobResult)
        requires
            fight_to_death_draws(old(girl)@, d@),
        ensures
            job_state(final(girl)@, result) == fight_to_death_outcome(old(girl)@, d@),
    {
        let mut result = JobResult::new();
        let combat: i32 = GirlManager::get_skill(girl, Skill::Combat);
        let magic: i32 = GirlManager::get_skill(girl, Skill::Magic);
        let best: i32 = imax(combat, magic);
        if d[0] < 20 + best / 2 {
            result.gold_earned = 50 + best;
            GirlManager::update_stat(girl, Stat::Fame, 2);
            push_text(&mut result.events, "She killed her opponent in the arena!");
        } else {
            let dmg: i32 = d[1];
            GirlManager::update_stat(girl, Stat::Health, -dmg);
            push_number_text(&mut result.events, "She was badly injured in the arena (-", dmg, " health).");
        }
        let tiredness: i32 = imax(15 - GirlManager::get_stat(girl, Stat::Constitution) / 8, 3);
        GirlManager::update_stat(girl, Stat::Tiredness, tiredness);
        GirlManager::update_stat(girl, Stat::Exp, d[2]);
        GirlManager::update_skill(girl, Skill::Combat, d[3]);
        result
    }

    /// One shift of the job with draws from `rng`: the outcome of `process_with` for some draws in range.
    pub fn process(&self, girl: &mut Girl, rng: &mut rand::rngs::ThreadRng) -> (result: JobResult)
        ensures
            exists|d: Seq<i32>| fight_to_death_draws(old(girl)@, d) && job_state(final(girl)@, result) == #[trigger] fight_to_death_outcome(old(girl)@, d),
    {
        let mut d: Vec<i32> = Vec::new();
        d.push(roll_i32(rng, 0, 100));
        d.push(roll_i32(rng, 15, 40));
        d.push(roll_i32(rng, 5, 12));
        d.push(roll_i32(rng, 1, 4));
        self.process_with(girl, d.as_slice())
    }
}

/// Fighting volunteers: she wins at a draw under 35 plus half her combat, earning 20 plus a third of it; losing costs 3 to 11 health; she tires, gains 3 to 6 experience, and a point of combat at a draw under 30.
#[derive(Debug)]
pub struct JobFightVolunteers;

/// What the fight volunteers job does to a girl with the given draws.
pub open spec fn fight_volunteers_outcome(g: GirlView, d: Seq<i32>) -> JobState {
    let s0 = job_start(g);
    let combat = s0.girl.skill(Skill::Combat);
    let s1 = if (d[0] as int) < 35 + combat / 2 {
        let s2 = with_gold(s0, 20 + combat / 3);
        let s3 = with_event(s2, "She beat the volunteer!"@);
        s3
    } else {
        let dmg = (d[1] as int);
        let s4 = with_girl(s0, s0.girl.add_stat(Stat::Health, -dmg));
        let s5 = with_event(s4, "She lost to the volunteer."@);
        s5
    };
    let tiredness = max_int(10 - s1.girl.stat(Stat::Constitution) / 10, 2);
    let s6 = with_girl(s1, s1.girl.add_stat(Stat::Tiredness, tiredness));
    let s7 = with_girl(s6, s6.girl.add_stat(Stat::Exp, (d[2] as int)));
    let s8 = if (d[3] as int) < 30 {
        let s9 = with_girl(s7, s7.girl.add_skill(Skill::Combat, 1));
        s9
    } else {
        s7
    };
    s8
}

/// The draws of the fight volunteers job, each in the range it is drawn from.
pub open spec fn fight_volunteers_draws(g: GirlView, d: Seq<i32>) -> bool {
    d.len() == 4
    && 0 <= d[0] < 100
    && 3 <= d[1] < 12
    && 3 <= d[2] < 7
    && 0 <= d[3] < 100
}

impl JobFightVolunteers {
    /// The job this processes.
    pub fn job_type(&self) -> (t: JobType)
        ensures
            t == JobType::FightVolunteers,
    {
        JobType::FightVolunteers
    }

    /// One shift of the job with the given draws (see `fight_volunteers_outcome`).
    pub fn process_with(&self, girl: &mut Girl, d: &[i32]) -> (result: JobResult)
        requires
            fight_volunteers_draws(old(girl)@, d@),
        ensures
            job_state(final(girl)@, result) == fight_volunteers_outcome(old(girl)@, d@),
    {
        let mut result = JobResult::new();
        let combat: i32 = GirlManager::get_skill(girl, Skill::Combat);
        if d[0] < 35 + combat / 2 {
            result.gold_earned = 20 + combat / 3;
            push_text(&mut result.events, "She beat the volunteer!");
        } else {
            let dmg: i32 = d[1];
            GirlManager::update_stat(girl, Stat::Health, -dmg);
            push_text(&mut result.events, "She lost to the volunteer.");
        }
        let tiredness: i32 = imax(10 - GirlManager::get_stat(girl, Stat::Constitution) / 10, 2);
        GirlManager::update_stat(girl, Stat::Tiredness, tiredness);
        GirlManager::update_stat(girl, Stat::Exp, d[2]);
        if d[3] < 30 {
            GirlManager::update_skill(girl, Skill::Combat, 1);
        }
        result
    }

    /// One shift of the job with draws from `rng`: the outcome of `process_with` for some draws in range.
    pub fn process(&self, girl: &mut Girl, rng: &mut rand::rngs::ThreadRng) -> (result: JobResult)
        ensures
            exists|d: Seq<i32>| fight_volunteers_draws(old(girl)@, d) && job_state(final(girl)@, result) == #[trigger] fight_volunteers_outcome(old(girl)@, d),
    {
        let mut d: Vec<i32> = Vec::new();
        d.push(roll_i32(rng, 0, 100));
        d.push(roll_i32(rng, 3, 12));
        d.push(roll_i32(rng, 3, 7));
        d.push(roll_i32(rng, 0, 100));
        self.process_with(girl, d.as_slice())
    }
}

/// Collecting bets: she earns 15 plus a quarter of charisma and intelligence, tires, gains 2 experience, and a point of service at a draw under 25.
#[derive(Debug)]
pub struct JobCollectBets;

/// What the collect bets job does to a girl with the given draws.
pub open spec fn collect_bets_outcome(g: GirlView, d: Seq<i32>) -> JobState {
    let s0 = job_start(g);
    let charisma = s0.girl.stat(Stat::Charisma);
    let intelligence = s0.girl.stat(Stat::Intelligence);
    let s1 = with_gold(s0, 15 + (charisma + intelligence) / 4);
    let tiredness = max_int(5 - s1.girl.stat(Stat::Constitution) / 20, 1);
    let s2 = with_girl(s1, s1.girl.add_stat(Stat::Tiredness, tiredness));
    let s3 = with_girl(s2, s2.girl.add_stat(Stat::Exp, 2));
    let s4 = if (d[0] as int) < 25 {
        let s5 = with_girl(s3, s3.girl.add_skill(Skill::Service, 1));
        s5
    } else {
        s3
    };
    let s6 = with_event(s4, "She collected bets at the arena."@);
    s6
}

/// The draws of the collect bets job, each in the range it is drawn from.
pub open spec fn collect_bets_draws(g: GirlView, d: Seq<i32>) -> bool {
    d.len() == 1
    && 0 <= d[0] < 100
}

impl JobCollectBets {
    /// The job this processes.
    pub fn job_type(&self) -> (t: JobType)
        ensures
            t == JobType::CollectBets,
    {
        JobType::CollectBets
    }

    /// One shift of the job with the given draws (see `collect_bets_outcome`).
    pub fn process_with(&self, girl: &mut Girl, d: &[i32]) -> (result: JobResult)
        requires
            collect_bets_draws(old(girl)@, d@),
        ensures
            job_state(final(girl)@, result) == collect_bets_outcome(old(girl)@, d@),
    {
        let mut result = JobResult::new();
        let charisma: i32 = GirlManager::get_stat(girl, Stat::Charisma);
        let intelligence: i32 = GirlManager::get_stat(girl, Stat::Intelligence);
        result.gold_earned = 15 + (charisma + intelligence) / 4;
        let tiredness: i32 = imax(5 - GirlManager::get_stat(girl, Stat::Constitution) / 20, 1);
        GirlManager::update_stat(girl, Stat::Tiredness, tiredness);
        GirlManager::update_stat(girl, Stat::Exp, 2);
        if d[0] < 25 {
            GirlManager::update_skill(girl, Skill::Service, 1);
        }
        push_text(&mut result.events, "She collected bets at the arena.");
        result
    }

    /// One shift of the job with draws from `rng`: the outcome of `process_with` for some draws in range.
    pub fn process(&self, girl: &mut Girl, rng: &mut rand::rngs::ThreadRng) -> (result: JobResult)
        ensures
            exists|d: Seq<i32>| collect_bets_draws(old(girl)@, d) && job_state(final(girl)@, result) == #[trigger] collect_bets_outcome(old(girl)@, d),
    {
        let mut d: Vec<i32> = Vec::new();
        d.push(roll_i32(rng, 0, 100));
        self.process_with(girl, d.as_slice())
    }
}

/// Doctor: she earns 20 plus a quarter of intelligence and magic, tires, gains 4 experience, and a point of magic at a draw under 20.
#[derive(Debug)]
pub struct JobDoctor;

/// What the doctor job does to a girl with the given draws.
pub open spec fn doctor_outcome(g: GirlView, d: Seq<i32>) -> JobState {
    let s0 = job_start(g);
    let intelligence = s0.girl.stat(Stat::Intelligence);
    let magic = s0.girl.skill(Skill::Magic);
    let s1 = with_gold(s0, 20 + (intelligence + magic) / 4);
    let tiredness = max_int(6 - s1.girl.stat(Stat::Constitution) / 15, 1);
    let s2 = with_girl(s1, s1.girl.add_stat(Stat::Tiredness, tiredness));
    let s3 = with_girl(s2, s2.girl.add_stat(Stat::Exp, 4));
    let s4 = if (d[0] as int) < 20 {
        let s5 = with_girl(s3, s3.girl.add_skill(Skill::Magic, 1));
        s5
    } else {
        s3
    };
    let s6 = with_event(s4, "She worked as the clinic doctor."@);
    s6
}

/// The draws of the doctor job, each in the range it is drawn from.
pub open spec fn doctor_draws(g: GirlView, d: Seq<i32>) -> bool {
    d.len() == 1
    && 0 <= d[0] < 100
}

impl JobDoctor {
    /// The job this processes.
    pub fn job_type(&self) -> (t: JobType)
        ensures
            t == JobType::Doctor,
    {
        JobType::Doctor
    }

    /// One shift of the job with the given draws (see `doctor_outcome`).
    pub fn process_with(&self, girl: &mut Girl, d: &[i32]) -> (result: JobResult)
        requires
            doctor_draws(old(girl)@, d@),
        ensures
            job_state(final(girl)@, result) == doctor_outcome(old(girl)@, d@),
    {
        let mut result = JobResult::new();
        let intelligence: i32 = GirlManager::get_stat(girl, Stat::Intelligence);
        let magic: i32 = GirlManager::get_skill(girl, Skill::Magic);
        result.gold_earned = 20 + (intelligence + magic) / 4;
        let tiredness: i32 = imax(6 - GirlManager::get_stat(girl, Stat::Constitution) / 15, 1);
        GirlManager::update_stat(girl, Stat::Tiredness, tiredness);
        GirlManager::update_stat(girl, Stat::Exp, 4);
        if d[0] < 20 {
            GirlManager::update_skill(girl, Skill::Magic, 1);
        }
        push_text(&mut result.events, "She worked as the clinic doctor.");
        result
    }

    /// One shift of the job with draws from `rng`: the outcome of `process_with` for some draws in range.
    pub fn process(&self, girl: &mut Girl, rng: &mut rand::rngs::ThreadRng) -> (result: JobResult)
        ensures
            exists|d: Seq<i32>| doctor_draws(old(girl)@, d) && job_state(final(girl)@, result) == #[trigger] doctor_outcome(old(girl)@, d),
    {
        let mut d: Vec<i32> = Vec::new();
        d.push(roll_i32(rng, 0, 100));
        self.process_with(girl, d.as_slice())
    }
}

/// Abortion: her pregnancy and insemination end, she loses 10 health, 15 happiness and 5 spirit, and it costs 50.
#[derive(Debug)]
pub struct JobGetAbort;

/// What the get abort job does to a girl with the given draws.
pub open spec fn get_abort_outcome(g: GirlView, d: Seq<i32>) -> JobState {
    let s0 = job_start(g);
    let s1 = with_girl(s0, s0.girl.without_status(Status::Pregnant));
    let s2 = with_girl(s1, s1.girl.without_status(Status::PregnantByPlayer));
    let s3 = with_girl(s2, s2.girl.without_status(Status::Inseminated));
    let s4 = with_girl(s3, GirlView { weeks_pregnant: 0, ..s3.girl });
    let s5 = with_girl(s4, s4.girl.add_stat(Stat::Health, -10));
    let s6 = with_girl(s5, s5.girl.add_stat(Stat::Happiness, -15));
    let s7 = with_girl(s6, s6.girl.add_stat(Stat::Spirit, -5));
    let s8 = with_gold(s7, -50);
    let s9 = with_event(s8, "She had an abortion."@);
    s9
}

/// The draws of the get abort job, each in the range it is drawn from.
pub open spec fn get_abort_draws(g: GirlView, d: Seq<i32>) -> bool {
    d.len() == 0
}

impl JobGetAbort {
    /// The job this processes.
    pub fn job_type(&self) -> (t: JobType)
        ensures
            t == JobType::GetAbort,
    {
        JobType::GetAbort
    }

    /// One shift of the job with the given draws (see `get_abort_outcome`).
    pub fn process_with(&self, girl: &mut Girl, d: &[i32]) -> (result: JobResult)
        requires
            get_abort_draws(old(girl)@, d@),
        ensures
            job_state(final(girl)@, result) == get_abort_outcome(old(girl)@, d@),
    {
        let mut result = JobResult::new();
        GirlManager::remove_status(girl, Status::Pregnant);
        GirlManager::remove_status(girl, Status::PregnantByPlayer);
        GirlManager::remove_status(girl, Status::Inseminated);
        girl.weeks_pregnant = 0;
        GirlManager::update_stat(girl, Stat::Health, -10);
        GirlManager::update_stat(girl, Stat::Happiness, -15);
        GirlManager::update_stat(girl, Stat::Spirit, -5);
        result.gold_earned = -50;
        push_text(&mut result.events, "She had an abortion.");
        result
    }

    /// One shift of the job with draws from `rng`: the outcome of `process_with` for some draws in range.
    pub fn process(&self, girl: &mut Girl, rng: &mut rand::rngs::ThreadRng) -> (result: JobResult)
        ensures
            exists|d: Seq<i32>| get_abort_draws(old(girl)@, d) && job_state(final(girl)@, result) == #[trigger] get_abort_outcome(old(girl)@, d),
    {
        let mut d: Vec<i32> = Vec::new();
        self.process_with(girl, d.as_slice())
    }
}

/// Cosmetic surgery: she gains 1 to 4 beauty, loses 15 health, tires by 20, and it costs 100.
#[derive(Debug)]
pub struct JobPhysicalSurgery;

/// What the physical surgery job does to a girl with the given draws.
pub open spec fn physical_surgery_outcome(g: GirlView, d: Seq<i32>) -> JobState {
    let s0 = job_start(g);
    let beauty_gain = (d[0] as int);
    let s1 = with_girl(s0, s0.girl.add_stat(Stat::Beauty, beauty_gain));
    let s2 = with_girl(s1, s1.girl.add_stat(Stat::Health, -15));
    let s3 = with_girl(s2, s2.girl.add_stat(Stat::Tiredness, 20));
    let s4 = with_gold(s3, -100);
    let s5 = with_event(s4, "She had cosmetic surgery (+"@ + int_str(beauty_gain) + " beauty)."@);
    s5
}

/// The draws of the physical surgery job, each in the range it is drawn from.
pub open spec fn physical_surgery_draws(g: GirlView, d: Seq<i32>) -> bool {
    d.len() == 1
    && 1 <= d[0] < 5
}

impl JobPhysicalSurgery {
    /// The job this processes.
    pub fn job_type(&self) -> (t: JobType)
        ensures
            t == JobType::PhysicalSurgery,
    {
        JobType::PhysicalSurgery
    }

    /// One shift of the job with the given draws (see `physical_surgery_outcome`).
    pub fn process_with(&self, girl: &mut Girl, d: &[i32]) -> (result: JobResult)
        requires
            physical_surgery_draws(old(girl)@, d@),
        ensures
            job_state(final(girl)@, result) == physical_surgery_outcome(old(girl)@, d@),
    {
        let mut result = JobResult::new();
        let beauty_gain: i32 = d[0];
        GirlManager::update_stat(girl, Stat::Beauty, beauty_gain);
        GirlManager::update_stat(girl, Stat::Health, -15);
        GirlManager::update_stat(girl, Stat::Tiredness, 20);
        result.gold_earned = -100;
        push_number_text(&mut result.events, "She had cosmetic surgery (+", beauty_gain, " beauty).");
        result
    }

    /// One shift of the job with draws from `rng`: the outcome of `process_with` for some draws in range.
    pub fn process(&self, girl: &mut Girl, rng: &mut rand::rngs::ThreadRng) -> (result: JobResult)
        ensures
            exists|d: Seq<i32>| physical_surgery_draws(old(girl)@, d) && job_state(final(girl)@, result) == #[trigger] physical_surgery_outcome(old(girl)@, d),
    {
        let mut d: Vec<i32> = Vec::new();
        d.push(roll_i32(rng, 1, 5));
        self.process_with(girl, d.as_slice())
    }
}

/// Healing: she regains 10 plus a fifth of her magic in health, rests 10, spends 10 mana, gains 2 experience; with magic above 50, a draw under half her magic cures her diseases (AIDS, Chlamydia, Syphilis) and poisoning.
#[derive(Debug)]
pub struct JobHealing;

/// What the healing job does to a girl with the given draws.
pub open spec fn healing_outcome(g: GirlView, d: Seq<i32>) -> JobState {
    let s0 = job_start(g);
    let magic = s0.girl.skill(Skill::Magic);
    let heal = 10 + magic / 5;
    let s1 = with_girl(s0, s0.girl.add_stat(Stat::Health, heal));
    let s2 = with_girl(s1, s1.girl.add_stat(Stat::Tiredness, -10));
    let s3 = with_girl(s2, s2.girl.add_stat(Stat::Mana, -10));
    let s4 = with_girl(s3, s3.girl.add_stat(Stat::Exp, 2));
    let s5 = if magic > 50 && (d[0] as int) < magic / 2 {
        let s6 = with_girl(s4, s4.girl.without_trait("AIDS"@));
        let s7 = with_girl(s6, s6.girl.without_trait("Chlamydia"@));
        let s8 = with_girl(s7, s7.girl.without_trait("Syphilis"@));
        let s9 = with_girl(s8, s8.girl.without_status(Status::Poisoned));
        let s10 = with_girl(s9, s9.girl.without_status(Status::BadlyPoisoned));
        let s11 = with_event(s10, "She was cured of her ailments!"@);
        s11
    } else {
        let s12 = with_event(s4, "She received healing."@);
        s12
    };
    s5
}

/// The draws of the healing job, each in the range it is drawn from.
pub open spec fn healing_draws(g: GirlView, d: Seq<i32>) -> bool {
    d.len() == 1
    && 0 <= d[0] < 100
}

impl JobHealing {
    /// The job this processes.
    pub fn job_type(&self) -> (t: JobType)
        ensures
            t == JobType::Healing,
    {
        JobType::Healing
    }

    /// One shift of the job with the given draws (see `healing_outcome`).
    pub fn process_with(&self, girl: &mut Girl, d: &[i32]) -> (result: JobResult)
        requires
            healing_draws(old(girl)@, d@),
        ensures
            job_state(final(girl)@, result) == healing_outcome(old(girl)@, d@),
    {
        let mut result = JobResult::new();
        let magic: i32 = GirlManager::get_skill(girl, Skill::Magic);
        let heal: i32 = 10 + magic / 5;
        GirlManager::update_stat(girl, Stat::Health, heal);
        GirlManager::update_stat(girl, Stat::Tiredness, -10);
        GirlManager::update_stat(girl, Stat::Mana, -10);
        GirlManager::update_stat(girl, Stat::Exp, 2);
        if magic > 50 && d[0] < magic / 2 {
            GirlManager::remove_trait(girl, "AIDS");
            GirlManager::remove_trait(girl, "Chlamydia");
            GirlManager::remove_trait(girl, "Syphilis");
            GirlManager::remove_status(girl, Status::Poisoned);
            GirlManager::remove_status(girl, Status::BadlyPoisoned);
            push_text(&mut result.events, "She was cured of her ailments!");
        } else {
            push_text(&mut result.events, "She received healing.");
        }
        result
    }

    /// One shift of the job with draws from `rng`: the outcome of `process_with` for some draws in range.
    pub fn process(&self, girl: &mut Girl, rng: &mut rand::rngs::ThreadRng) -> (result: JobResult)
        ensures
            exists|d: Seq<i32>| healing_draws(old(girl)@, d) && job_state(final(girl)@, result) == #[trigger] healing_outcome(old(girl)@, d),
    {
        let mut d: Vec<i32> = Vec::new();
        d.push(roll_i32(rng, 0, 100));
        self.process_with(girl, d.as_slice())
    }
}

/// Repair shop: she earns 15 plus a quarter of intelligence, tires, gains 3 experience, and a point of service at a draw under 20.
#[derive(Debug)]
pub struct JobRepairShop;

/// What the repair shop job does to a girl with the given draws.
pub open spec fn repair_shop_outcome(g: GirlView, d: Seq<i32>) -> JobState {
    let s0 = job_start(g);
    let intelligence = s0.girl.stat(Stat::Intelligence);
    let s1 = with_gold(s0, 15 + intelligence / 4);
    let tiredness = max_int(6 - s1.girl.stat(Stat::Constitution) / 15, 1);
    let s2 = with_girl(s1, s1.girl.add_stat(Stat::Tiredness, tiredness));
    let s3 = with_girl(s2, s2.girl.add_stat(Stat::Exp, 3));
    let s4 = if (d[0] as int) < 20 {
        let s5 = with_girl(s3, s3.girl.add_skill(Skill::Service, 1));
        s5
    } else {
        s3
    };
    let s6 = with_event(s4, "She repaired equipment."@);
    s6
}

/// The draws of the repair shop job, each in the range it is drawn from.
pub open spec fn repair_shop_draws(g: GirlView, d: Seq<i32>) -> bool {
    d.len() == 1
    && 0 <= d[0] < 100
}

impl JobRepairShop {
    /// The job this processes.
    pub fn job_type(&self) -> (t: JobType)
        ensures
            t == JobType::RepairShop,
    {
        JobType::RepairShop
    }

    /// One shift of the job with the given draws (see `repair_shop_outcome`).
    pub fn process_with(&self, girl: &mut Girl, d: &[i32]) -> (result: JobResult)
        requires
            repair_shop_draws(old(girl)@, d@),
        ensures
            job_state(final(girl)@, result) == repair_shop_outcome(old(girl)@, d@),
    {
        let mut result = JobResult::new();
        let intelligence: i32 = GirlManager::get_stat(girl, Stat::Intelligence);
        result.gold_earned = 15 + intelligence / 4;
        let tiredness: i32 = imax(6 - GirlManager::get_stat(girl, Stat::Constitution) / 15, 1);
        GirlManager::update_stat(girl, Stat::Tiredness, tiredness);
        GirlManager::update_stat(girl, Stat::Exp, 3);
        if d[0] < 20 {
            GirlManager::update_skill(girl, Skill::Service, 1);
        }
        push_text(&mut result.events, "She repaired equipment.");
        result
    }

    /// One shift of the job with draws from `rng`: the outcome of `process_with` for some draws in range.
    pub fn process(&self, girl: &mut Girl, rng: &mut rand::rngs::ThreadRng) -> (result: JobResult)
        ensures
            exists|d: Seq<i32>| repair_shop_draws(old(girl)@, d) && job_state(final(girl)@, result) == #[trigger] repair_shop_outcome(old(girl)@, d),
    {
        let mut d: Vec<i32> = Vec::new();
        d.push(roll_i32(rng, 0, 100));
        self.process_with(girl, d.as_slice())
    }
}

/// Collecting donations: she earns 5 plus a sixth of charisma and beauty, tires, gains 2 experience, and a point of service at a draw under 25.
#[derive(Debug)]
pub struct JobCollectDonations;

/// What the collect donations job does to a girl with the given draws.
pub open spec fn collect_donations_outcome(g: GirlView, d: Seq<i32>) -> JobState {
    let s0 = job_start(g);
    let charisma = s0.girl.stat(Stat::Charisma);
    let beauty = s0.girl.stat(Stat::Beauty);
    let s1 = with_gold(s0, 5 + (charisma + beauty) / 6);
    let tiredness = max_int(6 - s1.girl.stat(Stat::Constitution) / 15, 1);
    let s2 = with_girl(s1, s1.girl.add_stat(Stat::Tiredness, tiredness));
    let s3 = with_girl(s2, s2.girl.add_stat(Stat::Exp, 2));
    let s4 = if (d[0] as int) < 25 {
        let s5 = with_girl(s3, s3.girl.add_skill(Skill::Service, 1));
        s5
    } else {
        s3
    };
    let s6 = with_event(s4, "She collected donations."@);
    s6
}

/// The draws of the collect donations job, each in the range it is drawn from.
pub open spec fn collect_donations_draws(g: GirlView, d: Seq<i32>) -> bool {
    d.len() == 1
    && 0 <= d[0] < 100
}

impl JobCollectDonations {
    /// The job this processes.
    pub fn job_type(&self) -> (t: JobType)
        ensures
            t == JobType::CollectDonations,
    {
        JobType::CollectDonations
    }

    /// One shift of the job with the given draws (see `collect_donations_outcome`).
    pub fn process_with(&self, girl: &mut Girl, d: &[i32]) -> (result: JobResult)
        requires
            collect_donations_draws(old(girl)@, d@),
        ensures
            job_state(final(girl)@, result) == collect_donations_outcome(old(girl)@, d@),
    {
        let mut result = JobResult::new();
        let charisma: i32 = GirlManager::get_stat(girl, Stat::Charisma);
        let beauty: i32 = GirlManager::get_stat(girl, Stat::Beauty);
        result.gold_earned = 5 + (charisma + beauty) / 6;
        let tiredness: i32 = imax(6 - GirlManager::get_stat(girl, Stat::Constitution) / 15, 1);
        GirlManager::update_stat(girl, Stat::Tiredness, tiredness);
        GirlManager::update_stat(girl, Stat::Exp, 2);
        if d[0] < 25 {
            GirlManager::update_skill(girl, Skill::Service, 1);
        }
        push_text(&mut result.events, "She collected donations.");
        result
    }

    /// One shift of the job with draws from `rng`: the outcome of `process_with` for some draws in range.
    pub fn process(&self, girl: &mut Girl, rng: &mut rand::rngs::ThreadRng) -> (result: JobResult)
        ensures
            exists|d: Seq<i32>| collect_donations_draws(old(girl)@, d) && job_state(final(girl)@, result) == #[trigger] collect_donations_outcome(old(girl)@, d),
    {
        let mut d: Vec<i32> = Vec::new();
        d.push(roll_i32(rng, 0, 100));
        self.process_with(girl, d.as_slice())
    }
}

/// Feeding the poor: it costs 10; she tires, gains 3 happiness and 2 experience, and a point of service at a draw under 20.
#[derive(Debug)]
pub struct JobFeedPoor;

/// What the feed poor job does to a girl with the given draws.
pub open spec fn feed_poor_outcome(g: GirlView, d: Seq<i32>) -> JobState {
    let s0 = job_start(g);
    let s1 = with_gold(s0, -10);
    let tiredness = max_int(7 - s1.girl.stat(Stat::Constitution) / 14, 1);
    let s2 = with_girl(s1, s1.girl.add_stat(Stat::Tiredness, tiredness));
    let s3 = with_girl(s2, s2.girl.add_stat(Stat::Happiness, 3));
    let s4 = with_girl(s3, s3.girl.add_stat(Stat::Exp, 2));
    let s5 = if (d[0] as int) < 20 {
        let s6 = with_girl(s4, s4.girl.add_skill(Skill::Service, 1));
        s6
    } else {
        s4
    };
    let s7 = with_event(s5, "She fed the poor."@);
    s7
}

/// The draws of the feed poor job, each in the range it is drawn from.
pub open spec fn feed_poor_draws(g: GirlView, d: Seq<i32>) -> bool {
    d.len() == 1
    && 0 <= d[0] < 100
}

impl JobFeedPoor {
    /// The job this processes.
    pub fn job_type(&self) -> (t: JobType)
        ensures
            t == JobType::FeedPoor,
    {
        JobType::FeedPoor
    }

    /// One shift of the job with the given draws (see `feed_poor_outcome`).
    pub fn process_with(&self, girl: &mut Girl, d: &[i32]) -> (result: JobResult)
        requires
            feed_poor_draws(old(girl)@, d@),
        ensures
            job_state(final(girl)@, result) == feed_poor_outcome(old(girl)@, d@),
    {
        let mut result = JobResult::new();
        result.gold_earned = -10;
        let tiredness: i32 = imax(7 - GirlManager::get_stat(girl, Stat::Constitution) / 14, 1);
        GirlManager::update_stat(girl, Stat::Tiredness, tiredness);
        GirlManager::update_stat(girl, Stat::Happiness, 3);
        GirlManager::update_stat(girl, Stat::Exp, 2);
        if d[0] < 20 {
            GirlManager::update_skill(girl, Skill::Service, 1);
        }
        push_text(&mut result.events, "She fed the poor.");
        result
    }

    /// One shift of the job with draws from `rng`: the outcome of `process_with` for some draws in range.
    pub fn process(&self, girl: &mut Girl, rng: &mut rand::rngs::ThreadRng) -> (result: JobResult)
        ensures
            exists|d: Seq<i32>| feed_poor_draws(old(girl)@, d) && job_state(final(girl)@, result) == #[trigger] feed_poor_outcome(old(girl)@, d),
    {
        let mut d: Vec<i32> = Vec::new();
        d.push(roll_i32(rng, 0, 100));
        self.process_with(girl, d.as_slice())
    }
}

/// Making items: she earns 10 plus a quarter of intelligence, tires, gains 3 experience, and a point of service at a draw under 30.
#[derive(Debug)]
pub struct JobMakeItems;

/// What the make items job does to a girl with the given draws.
pub open spec fn make_items_outcome(g: GirlView, d: Seq<i32>) -> JobState {
    let s0 = job_start(g);
    let intelligence = s0.girl.stat(Stat::Intelligence);
    let s1 = with_gold(s0, 10 + intelligence / 4);
    let tiredness = max_int(7 - s1.girl.stat(Stat::Constitution) / 14, 1);
    let s2 = with_girl(s1, s1.girl.add_stat(Stat::Tiredness, tiredness));
    let s3 = with_girl(s2, s2.girl.add_stat(Stat::Exp, 3));
    let s4 = if (d[0] as int) < 30 {
        let s5 = with_girl(s3, s3.girl.add_skill(Skill::Service, 1));
        s5
    } else {
        s3
    };
    let s6 = with_event(s4, "She made items."@);
    s6
}

/// The draws of the make items job, each in the range it is drawn from.
pub open spec fn make_items_draws(g: GirlView, d: Seq<i32>) -> bool {
    d.len() == 1
    && 0 <= d[0] < 100
}

impl JobMakeItems {
    /// The job this processes.
    pub fn job_type(&self) -> (t: JobType)
        ensures
            t == JobType::MakeItems,
    {
        JobType::MakeItems
    }

    /// One shift of the job with the given draws (see `make_items_outcome`).
    pub fn process_with(&self, girl: &mut Girl, d: &[i32]) -> (result: JobResult)
        requires
            make_items_draws(old(girl)@, d@),
        ensures
            job_state(final(girl)@, result) == make_items_outcome(old(girl)@, d@),
    {
        let mut result = JobResult::new();
        let intelligence: i32 = GirlManager::get_stat(girl, Stat::Intelligence);
        result.gold_earned = 10 + intelligence / 4;
        let tiredness: i32 = imax(7 - GirlManager::get_stat(girl, Stat::Constitution) / 14, 1);
        GirlManager::update_stat(girl, Stat::Tiredness, tiredness);
        GirlManager::update_stat(girl, Stat::Exp, 3);
        if d[0] < 30 {
            GirlManager::update_skill(girl, Skill::Service, 1);
        }
        push_text(&mut result.events, "She made items.");
        result
    }

    /// One shift of the job with draws from `rng`: the outcome of `process_with` for some draws in range.
    pub fn process(&self, girl: &mut Girl, rng: &mut rand::rngs::ThreadRng) -> (result: JobResult)
        ensures
            exists|d: Seq<i32>| make_items_draws(old(girl)@, d) && job_state(final(girl)@, result) == #[trigger] make_items_outcome(old(girl)@, d),
    {
        let mut d: Vec<i32> = Vec::new();
        d.push(roll_i32(rng, 0, 100));
        self.process_with(girl, d.as_slice())
    }
}

/// Selling items: she earns 15 plus a quarter of charisma and service, tires, gains 3 experience, and a point of service at a draw under 30.
#[derive(Debug)]
pub struct JobSellItems;

/// What the sell items job does to a girl with the given draws.
pub open spec fn sell_items_outcome(g: GirlView, d: Seq<i32>) -> JobState {
    let s0 = job_start(g);
    let charisma = s0.girl.stat(Stat::Charisma);
    let service = s0.girl.skill(Skill::Service);
    let s1 = with_gold(s0, 15 + (charisma + service) / 4);
    let tiredness = max_int(5 - s1.girl.stat(Stat::Constitution) / 20, 1);
    let s2 = with_girl(s1, s1.girl.add_stat(Stat::Tiredness, tiredness));
    let s3 = with_girl(s2, s2.girl.add_stat(Stat::Exp, 3));
    let s4 = if (d[0] as int) < 30 {
        let s5 = with_girl(s3, s3.girl.add_skill(Skill::Service, 1));
        s5
    } else {
        s3
    };
    let s6 = with_event(s4, "She sold items."@);
    s6
}

/// The draws of the sell items job, each in the range it is drawn from.
pub open spec fn sell_items_draws(g: GirlView, d: Seq<i32>) -> bool {
    d.len() == 1
    && 0 <= d[0] < 100
}

impl JobSellItems {
    /// The job this processes.
    pub fn job_type(&self) -> (t: JobType)
        ensures
            t == JobType::SellItems,
    {
        JobType::SellItems
    }

    /// One shift of the job with the given draws (see `sell_items_outcome`).
    pub fn process_with(&self, girl: &mut Girl, d: &[i32]) -> (result: JobResult)
        requires
            sell_items_draws(old(girl)@, d@),
        ensures
            job_state(final(girl)@, result) == sell_items_outcome(old(girl)@, d@),
    {
        let mut result = JobResult::new();
        let charisma: i32 = GirlManager::get_stat(girl, Stat::Charisma);
        let service: i32 = GirlManager::get_skill(girl, Skill::Service);
        result.gold_earned = 15 + (charisma + service) / 4;
        let tiredness: i32 = imax(5 - GirlManager::get_stat(girl, Stat::Constitution) / 20, 1);
        GirlManager::update_stat(girl, Stat::Tiredness, tiredness);
        GirlManager::update_stat(girl, Stat::Exp, 3);
        if d[0] < 30 {
            GirlManager::update_skill(girl, Skill::Service, 1);
        }
        push_text(&mut result.events, "She sold items.");
        result
    }

    /// One shift of the job with draws from `rng`: the outcome of `process_with` for some draws in range.
    pub fn process(&self, girl: &mut Girl, rng: &mut rand::rngs::ThreadRng) -> (result: JobResult)
        ensures
            exists|d: Seq<i32>| sell_items_draws(old(girl)@, d) && job_state(final(girl)@, result) == #[trigger] sell_items_outcome(old(girl)@, d),
    {
        let mut d: Vec<i32> = Vec::new();
        d.push(roll_i32(rng, 0, 100));
        self.process_with(girl, d.as_slice())
    }
}

/// Community service: she tires, gains 2 happiness and 2 experience, and a point of service at a draw under 20.
#[derive(Debug)]
pub struct JobCommunityService;

/// What the community service job does to a girl with the given draws.
pub open spec fn community_service_outcome(g: GirlView, d: Seq<i32>) -> JobState {
    let s0 = job_start(g);
    let tiredness = max_int(7 - s0.girl.stat(Stat::Constitution) / 14, 1);
    let s1 = with_girl(s0, s0.girl.add_stat(Stat::Tiredness, tiredness));
    let s2 = with_girl(s1, s1.girl.add_stat(Stat::Happiness, 2));
    let s3 = with_girl(s2, s2.girl.add_stat(Stat::Exp, 2));
    let s4 = if (d[0] as int) < 20 {
        let s5 = with_girl(s3, s3.girl.add_skill(Skill::Service, 1));
        s5
    } else {
        s3
    };
    let s6 = with_event(s4, "She performed community service."@);
    s6
}

/// The draws of the community service job, each in the range it is drawn from.
pub open spec fn community_service_draws(g: GirlView, d: Seq<i32>) -> bool {
    d.len() == 1
    && 0 <= d[0] < 100
}

impl JobCommunityService {
    /// The job this processes.
    pub fn job_type(&self) -> (t: JobType)
        ensures
            t == JobType::CommunityService,
    {
        JobType::CommunityService
    }

    /// One shift of the job with the given draws (see `community_service_outcome`).
    pub fn process_with(&self, girl: &mut Girl, d: &[i32]) -> (result: JobResult)
        requires
            community_service_draws(old(girl)@, d@),
        ensures
            job_state(final(girl)@, result) == community_service_outcome(old(girl)@, d@),
    {
        let mut result = JobResult::new();
        let tiredness: i32 = imax(7 - GirlManager::get_stat(girl, Stat::Constitution) / 14, 1);
        GirlManager::update_stat(girl, Stat::Tiredness, tiredness);
        GirlManager::update_stat(girl, Stat::Happiness, 2);
        GirlManager::update_stat(girl, Stat::Exp, 2);
        if d[0] < 20 {
            GirlManager::update_skill(girl, Skill::Service, 1);
        }
        push_text(&mut result.events, "She performed community service.");
        result
    }

    /// One shift of the job with draws from `rng`: the outcome of `process_with` for some draws in range.
    pub fn process(&self, girl: &mut Girl, rng: &mut rand::rngs::ThreadRng) -> (result: JobResult)
        ensures
            exists|d: Seq<i32>| community_service_draws(old(girl)@, d) && job_state(final(girl)@, result) == #[trigger] community_service_outcome(old(girl)@, d),
    {
        let mut d: Vec<i32> = Vec::new();
        d.push(roll_i32(rng, 0, 100));
        self.process_with(girl, d.as_slice())
    }
}

/// Viras plants: she earns 20 plus a third of her beastiality, loses 2 spirit and some libido, tires, gains 3 experience, and a point of beastiality at a draw under 20.
#[derive(Debug)]
pub struct JobVirasPlantFucker;

/// What the viras plant fucker job does to a girl with the given draws.
pub open spec fn viras_plant_fucker_outcome(g: GirlView, d: Seq<i32>) -> JobState {
    let s0 = job_start(g);
    let beastiality = s0.girl.skill(Skill::Beastiality);
    let s1 = with_gold(s0, 20 + beastiality / 3);
    let s2 = with_girl(s1, s1.girl.add_stat(Stat::Spirit, -2));
    let s3 = with_girl(s2, s2.girl.add_temp_stat(Stat::Libido, -5));
    let tiredness = max_int(10 - s3.girl.stat(Stat::Constitution) / 10, 2);
    let s4 = with_girl(s3, s3.girl.add_stat(Stat::Tiredness, tiredness));
    let s5 = with_girl(s4, s4.girl.add_stat(Stat::Exp, 3));
    let s6 = if (d[0] as int) < 20 {
        let s7 = with_girl(s5, s5.girl.add_skill(Skill::Beastiality, 1));
        s7
    } else {
        s5
    };
    let s8 = with_event(s6, "She worked with the Viras plants."@);
    s8
}

/// The draws of the viras plant fucker job, each in the range it is drawn from.
pub open spec fn viras_plant_fucker_draws(g: GirlView, d: Seq<i32>) -> bool {
    d.len() == 1
    && 0 <= d[0] < 100
}

impl JobVirasPlantFucker {
    /// The job this processes.
    pub fn job_type(&self) -> (t: JobType)
        ensures
            t == JobType::VirasPlantFucker,
    {
        JobType::VirasPlantFucker
    }

    /// One shift of the job with the given draws (see `viras_plant_fucker_outcome`).
    pub fn process_with(&self, girl: &mut Girl, d: &[i32]) -> (result: JobResult)
        requires
            viras_plant_fucker_draws(old(girl)@, d@),
        ensures
            job_state(final(girl)@, result) == viras_plant_fucker_outcome(old(girl)@, d@),
    {
        let mut result = JobResult::new();
        let beastiality: i32 = GirlManager::get_skill(girl, Skill::Beastiality);
        result.gold_earned = 20 + beastiality / 3;
        GirlManager::update_stat(girl, Stat::Spirit, -2);
        GirlManager::update_temp_stat(girl, Stat::Libido, -5);
        let tiredness: i32 = imax(10 - GirlManager::get_stat(girl, Stat::Constitution) / 10, 2);
        GirlManager::update_stat(girl, Stat::Tiredness, tiredness);
        GirlManager::update_stat(girl, Stat::Exp, 3);
        if d[0] < 20 {
            GirlManager::update_skill(girl, Skill::Beastiality, 1);
        }
        push_text(&mut result.events, "She worked with the Viras plants.");
        result
    }

    /// One shift of the job with draws from `rng`: the outcome of `process_with` for some draws in range.
    pub fn process(&self, girl: &mut Girl, rng: &mut rand::rngs::ThreadRng) -> (result: JobResult)
        ensures
            exists|d: Seq<i32>| viras_plant_fucker_draws(old(girl)@, d) && job_state(final(girl)@, result) == #[trigger] viras_plant_fucker_outcome(old(girl)@, d),
    {
        let mut d: Vec<i32> = Vec::new();
        d.push(roll_i32(rng, 0, 100));
        self.process_with(girl, d.as_slice())
    }
}

/// Shroud growing: she earns 20 plus a quarter of intelligence, tires, gains 2 experience, and a point of magic at a draw under 15.
#[derive(Debug)]
pub struct JobShroudGrower;

/// What the shroud grower job does to a girl with the given draws.
pub open spec fn shroud_grower_outcome(g: GirlView, d: Seq<i32>) -> JobState {
    let s0 = job_start(g);
    let intelligence = s0.girl.stat(Stat::Intelligence);
    let s1 = with_gold(s0, 20 + intelligence / 4);
    let tiredness = max_int(6 - s1.girl.stat(Stat::Constitution) / 15, 1);
    let s2 = with_girl(s1, s1.girl.add_stat(Stat::Tiredness, tiredness));
    let s3 = with_girl(s2, s2.girl.add_stat(Stat::Exp, 2));
    let s4 = if (d[0] as int) < 15 {
        let s5 = with_girl(s3, s3.girl.add_skill(Skill::Magic, 1));
        s5
    } else {
        s3
    };
    let s6 = with_event(s4, "She grew Shroud mushrooms."@);
    s6
}

/// The draws of the shroud grower job, each in the range it is drawn from.
pub open spec fn shroud_grower_draws(g: GirlView, d: Seq<i32>) -> bool {
    d.len() == 1
    && 0 <= d[0] < 100
}

impl JobShroudGrower {
    /// The job this processes.
    pub fn job_type(&self) -> (t: JobType)
        ensures
            t == JobType::ShroudGrower,
    {
        JobType::ShroudGrower
    }

    /// One shift of the job with the given draws (see `shroud_grower_outcome`).
    pub fn process_with(&self, girl: &mut Girl, d: &[i32]) -> (result: JobResult)
        requires
            shroud_grower_draws(old(girl)@, d@),
        ensures
            job_state(final(girl)@, result) == shroud_grower_outcome(old(girl)@, d@),
    {
        let mut result = JobResult::new();
        let intelligence: i32 = GirlManager::get_stat(girl, Stat::Intelligence);
        result.gold_earned = 20 + intelligence / 4;
        let tiredness: i32 = imax(6 - GirlManager::get_stat(girl, Stat::Constitution) / 15, 1);
        GirlManager::update_stat(girl, Stat::Tiredness, tiredness);
        GirlManager::update_stat(girl, Stat::Exp, 2);
        if d[0] < 15 {
            GirlManager::update_skill(girl, Skill::Magic, 1);
        }
        push_text(&mut result.events, "She grew Shroud mushrooms.");
        result
    }

    /// One shift of the job with draws from `rng`: the outcome of `process_with` for some draws in range.
    pub fn process(&self, girl: &mut Girl, rng: &mut rand::rngs::ThreadRng) -> (result: JobResult)
        ensures
            exists|d: Seq<i32>| shroud_grower_draws(old(girl)@, d) && job_state(final(girl)@, result) == #[trigger] shroud_grower_outcome(old(girl)@, d),
    {
        let mut d: Vec<i32> = Vec::new();
        d.push(roll_i32(rng, 0, 100));
        self.process_with(girl, d.as_slice())
    }
}

/// Fairy dust: she earns 25 plus a fifth of intelligence and magic, spends 10 mana, tires, gains 3 experience, and a point of magic at a draw under 20.
#[derive(Debug)]
pub struct JobFairyDuster;

/// What the fairy duster job does to a girl with the given draws.
pub open spec fn fairy_duster_outcome(g: GirlView, d: Seq<i32>) -> JobState {
    let s0 = job_start(g);
    let intelligence = s0.girl.stat(Stat::Intelligence);
    let magic = s0.girl.skill(Skill::Magic);
    let s1 = with_gold(s0, 25 + (intelligence + magic) / 5);
    let s2 = with_girl(s1, s1.girl.add_stat(Stat::Mana, -10));
    let tiredness = max_int(6 - s2.girl.stat(Stat::Constitution) / 15, 1);
    let s3 = with_girl(s2, s2.girl.add_stat(Stat::Tiredness, tiredness));
    let s4 = with_girl(s3, s3.girl.add_stat(Stat::Exp, 3));
    let s5 = if (d[0] as int) < 20 {
        let s6 = with_girl(s4, s4.girl.add_skill(Skill::Magic, 1));
        s6
    } else {
        s4
    };
    let s7 = with_event(s5, "She processed Fairy Dust."@);
    s7
}

/// The draws of the fairy duster job, each in the range it is drawn from.
pub open spec fn fairy_duster_draws(g: GirlView, d: Seq<i32>) -> bool {
    d.len() == 1
    && 0 <= d[0] < 100
}

impl JobFairyDuster {
    /// The job this processes.
    pub fn job_type(&self) -> (t: JobType)
        ensures
            t == JobType::FairyDuster,
    {
        JobType::FairyDuster
    }

    /// One shift of the job with the given draws (see `fairy_duster_outcome`).
    pub fn process_with(&self, girl: &mut Girl, d: &[i32]) -> (result: JobResult)
        requires
            fairy_duster_draws(old(girl)@, d@),
        ensures
            job_state(final(girl)@, result) == fairy_duster_outcome(old(girl)@, d@),
    {
        let mut result = JobResult::new();
        let intelligence: i32 = GirlManager::get_stat(girl, Stat::Intelligence);
        let magic: i32 = GirlManager::get_skill(girl, Skill::Magic);
        result.gold_earned = 25 + (intelligence + magic) / 5;
        GirlManager::update_stat(girl, Stat::Mana, -10);
        let tiredness: i32 = imax(6 - GirlManager::get_stat(girl, Stat::Constitution) / 15, 1);
        GirlManager::update_stat(girl, Stat::Tiredness, tiredness);
        GirlManager::update_stat(girl, Stat::Exp, 3);
        if d[0] < 20 {
            GirlManager::update_skill(girl, Skill::Magic, 1);
        }
        push_text(&mut result.events, "She processed Fairy Dust.");
        result
    }

    /// One shift of the job with draws from `rng`: the outcome of `process_with` for some draws in range.
    pub fn process(&self, girl: &mut Girl, rng: &mut rand::rngs::ThreadRng) -> (result: JobResult)
        ensures
            exists|d: Seq<i32>| fairy_duster_draws(old(girl)@, d) && job_state(final(girl)@, result) == #[trigger] fairy_duster_outcome(old(girl)@, d),
    {
        let mut d: Vec<i32> = Vec::new();
        d.push(roll_i32(rng, 0, 100));
        self.process_with(girl, d.as_slice())
    }
}

/// Drug dealing: she earns 30 plus a quarter of charisma and intelligence, tires and gains 3 experience; at a draw under 5 she is nearly caught and earns nothing; she gains a point of service at a draw under 20.
#[derive(Debug)]
pub struct JobDrugDealer;

/// What the drug dealer job does to a girl with the given draws.
pub open spec fn drug_dealer_outcome(g: GirlView, d: Seq<i32>) -> JobState {
    let s0 = job_start(g);
    let charisma = s0.girl.stat(Stat::Charisma);
    let intelligence = s0.girl.stat(Stat::Intelligence);
    let s1 = with_gold(s0, 30 + (charisma + intelligence) / 4);
    let tiredness = max_int(5 - s1.girl.stat(Stat::Constitution) / 20, 1);
    let s2 = with_girl(s1, s1.girl.add_stat(Stat::Tiredness, tiredness));
    let s3 = with_girl(s2, s2.girl.add_stat(Stat::Exp, 3));
    let s4 = if (d[0] as int) < 5 {
        let s5 = with_gold(s3, 0);
        let s6 = with_event(s5, "She was nearly caught dealing drugs!"@);
        s6
    } else {
        let s7 = with_event(s3, "She dealt drugs."@);
        s7
    };
    let s8 = if (d[1] as int) < 20 {
        let s9 = with_girl(s4, s4.girl.add_skill(Skill::Service, 1));
        s9
    } else {
        s4
    };
    s8
}

/// The draws of the drug dealer job, each in the range it is drawn from.
pub open spec fn drug_dealer_draws(g: GirlView, d: Seq<i32>) -> bool {
    d.len() == 2
    && 0 <= d[0] < 100
    && 0 <= d[1] < 100
}

impl JobDrugDealer {
    /// The job this processes.
    pub fn job_type(&self) -> (t: JobType)
        ensures
            t == JobType::DrugDealer,
    {
        JobType::DrugDealer
    }

    /// One shift of the job with the given draws (see `drug_dealer_outcome`).
    pub fn process_with(&self, girl: &mut Girl, d: &[i32]) -> (result: JobResult)
        requires
            drug_dealer_draws(old(girl)@, d@),
        ensures
            job_state(final(girl)@, result) == drug_dealer_outcome(old(girl)@, d@),
    {
        let mut result = JobResult::new();
        let charisma: i32 = GirlManager::get_stat(girl, Stat::Charisma);
        let intelligence: i32 = GirlManager::get_stat(girl, Stat::Intelligence);
        result.gold_earned = 30 + (charisma + intelligence) / 4;
        let tiredness: i32 = imax(5 - GirlManager::get_stat(girl, Stat::Constitution) / 20, 1);
        GirlManager::update_stat(girl, Stat::Tiredness, tiredness);
        GirlManager::update_stat(girl, Stat::Exp, 3);
        if d[0] < 5 {
            result.gold_earned = 0;
            push_text(&mut result.events, "She was nearly caught dealing drugs!");
        } else {
            push_text(&mut result.events, "She dealt drugs.");
        }
        if d[1] < 20 {
            GirlManager::update_skill(girl, Skill::Service, 1);
        }
        result
    }

    /// One shift of the job with draws from `rng`: the outcome of `process_with` for some draws in range.
    pub fn process(&self, girl: &mut Girl, rng: &mut rand::rngs::ThreadRng) -> (result: JobResult)
        ensures
            exists|d: Seq<i32>| drug_dealer_draws(old(girl)@, d) && job_state(final(girl)@, result) == #[trigger] drug_dealer_outcome(old(girl)@, d),
    {
        let mut d: Vec<i32> = Vec::new();
        d.push(roll_i32(rng, 0, 100));
        d.push(roll_i32(rng, 0, 100));
        self.process_with(girl, d.as_slice())
    }
}

/// Customer service: she earns 10 plus a fifth of service and charisma, tires, gains 3 experience, and a point of service at a draw under 30.
#[derive(Debug)]
pub struct JobCustomerService;

/// What the customer service job does to a girl with the given draws.
pub open spec fn customer_service_outcome(g: GirlView, d: Seq<i32>) -> JobState {
    let s0 = job_start(g);
    let service = s0.girl.skill(Skill::Service);
    let charisma = s0.girl.stat(Stat::Charisma);
    let s1 = with_gold(s0, 10 + (service + charisma) / 5);
    let tiredness = max_int(6 - s1.girl.stat(Stat::Constitution) / 15, 1);
    let s2 = with_girl(s1, s1.girl.add_stat(Stat::Tiredness, tiredness));
    let s3 = with_girl(s2, s2.girl.add_stat(Stat::Exp, 3));
    let s4 = if (d[0] as int) < 30 {
        let s5 = with_girl(s3, s3.girl.add_skill(Skill::Service, 1));
        s5
    } else {
        s3
    };
    let s6 = with_event(s4, "She provided customer service."@);
    s6
}

/// The draws of the customer service job, each in the range it is drawn from.
pub open spec fn customer_service_draws(g: GirlView, d: Seq<i32>) -> bool {
    d.len() == 1
    && 0 <= d[0] < 100
}

impl JobCustomerService {
    /// The job this processes.
    pub fn job_type(&self) -> (t: JobType)
        ensures
            t == JobType::CustomerService,
    {
        JobType::CustomerService
    }

    /// One shift of the job with the given draws (see `customer_service_outcome`).
    pub fn process_with(&self, girl: &mut Girl, d: &[i32]) -> (result: JobResult)
        requires
            customer_service_draws(old(girl)@, d@),
        ensures
            job_state(final(girl)@, result) == customer_service_outcome(old(girl)@, d@),
    {
        let mut result = JobResult::new();
        let service: i32 = GirlManager::get_skill(girl, Skill::Service);
        let charisma: i32 = GirlManager::get_stat(girl, Stat::Charisma);
        result.gold_earned = 10 + (service + charisma) / 5;
        let tiredness: i32 = imax(6 - GirlManager::get_stat(girl, Stat::Constitution) / 15, 1);
        GirlManager::update_stat(girl, Stat::Tiredness, tiredness);
        GirlManager::update_stat(girl, Stat::Exp, 3);
        if d[0] < 30 {
            GirlManager::update_skill(girl, Skill::Service, 1);
        }
        push_text(&mut result.events, "She provided customer service.");
        result
    }

    /// One shift of the job with draws from `rng`: the outcome of `process_with` for some draws in range.
    pub fn process(&self, girl: &mut Girl, rng: &mut rand::rngs::ThreadRng) -> (result: JobResult)
        ensures
            exists|d: Seq<i32>| customer_service_draws(old(girl)@, d) && job_state(final(girl)@, result) == #[trigger] customer_service_outcome(old(girl)@, d),
    {
        let mut d: Vec<i32> = Vec::new();
        d.push(roll_i32(rng, 0, 100));
        self.process_with(girl, d.as_slice())
    }
}

/// Whoring in the gambling hall: 1 to 3 customers pay her ask price (at least 1) each, plus a 30 hall bonus; she gains 1 to 3 normal sex, loses 4 libido per customer, tires and gains 4 experience.
#[derive(Debug)]
pub struct JobWhoreGambHall;

/// What the whore gamb hall job does to a girl with the given draws.
pub open spec fn whore_gamb_hall_outcome(g: GirlView, d: Seq<i32>) -> JobState {
    let s0 = job_start(g);
    let ask = s0.girl.stat(Stat::AskPrice);
    let ask_price = max_int(ask, 1);
    let num = (d[0] as int);
    let s1 = with_gold(s0, ask_price * num + 30);
    let s2 = with_girl(s1, s1.girl.add_skill(Skill::NormalSex, (d[1] as int)));
    let s3 = with_girl(s2, s2.girl.add_temp_stat(Stat::Libido, -4 * num));
    let tiredness = max_int(10 - s3.girl.stat(Stat::Constitution) / 10, 1);
    let s4 = with_girl(s3, s3.girl.add_stat(Stat::Tiredness, tiredness));
    let s5 = with_girl(s4, s4.girl.add_stat(Stat::Exp, 4));
    let s6 = with_event(s5, "She slept with "@ + int_str(num) + " gambling hall customers."@);
    s6
}

/// The draws of the whore gamb hall job, each in the range it is drawn from.
pub open spec fn whore_gamb_hall_draws(g: GirlView, d: Seq<i32>) -> bool {
    d.len() == 2
    && 1 <= d[0] < 4
    && 1 <= d[1] < 4
}

impl JobWhoreGambHall {
    /// The job this processes.
    pub fn job_type(&self) -> (t: JobType)
        ensures
            t == JobType::WhoreGambHall,
    {
        JobType::WhoreGambHall
    }

    /// One shift of the job with the given draws (see `whore_gamb_hall_outcome`).
    pub fn process_with(&self, girl: &mut Girl, d: &[i32]) -> (result: JobResult)
        requires
            whore_gamb_hall_draws(old(girl)@, d@),
        ensures
            job_state(final(girl)@, result) == whore_gamb_hall_outcome(old(girl)@, d@),
    {
        let mut result = JobResult::new();
        let ask: i32 = GirlManager::get_stat(girl, Stat::AskPrice);
        let ask_price: i32 = imax(ask, 1);
        let num: i32 = d[0];
        result.gold_earned = ask_price * num + 30;
        GirlManager::update_skill(girl, Skill::NormalSex, d[1]);
        GirlManager::update_temp_stat(girl, Stat::Libido, -4 * num);
        let tiredness: i32 = imax(10 - GirlManager::get_stat(girl, Stat::Constitution) / 10, 1);
        GirlManager::update_stat(girl, Stat::Tiredness, tiredness);
        GirlManager::update_stat(girl, Stat::Exp, 4);
        push_number_text(&mut result.events, "She slept with ", num, " gambling hall customers.");
        result
    }

    /// One shift of the job with draws from `rng`: the outcome of `process_with` for some draws in range.
    pub fn process(&self, girl: &mut Girl, rng: &mut rand::rngs::ThreadRng) -> (result: JobResult)
        ensures
            exists|d: Seq<i32>| whore_gamb_hall_draws(old(girl)@, d) && job_state(final(girl)@, result) == #[trigger] whore_gamb_hall_outcome(old(girl)@, d),
    {
        let mut d: Vec<i32> = Vec::new();
        d.push(roll_i32(rng, 1, 4));
        d.push(roll_i32(rng, 1, 4));
        self.process_with(girl, d.as_slice())
    }
}

/// Dealer: she earns 15 plus a third of intelligence, tires, gains 3 experience, and a point of service at a draw under 25.
#[derive(Debug)]
pub struct JobDealer;

/// What the dealer job does to a girl with the given draws.
pub open spec fn dealer_outcome(g: GirlView, d: Seq<i32>) -> JobState {
    let s0 = job_start(g);
    let intelligence = s0.girl.stat(Stat::Intelligence);
    let s1 = with_gold(s0, 15 + intelligence / 3);
    let tiredness = max_int(5 - s1.girl.stat(Stat::Constitution) / 20, 1);
    let s2 = with_girl(s1, s1.girl.add_stat(Stat::Tiredness, tiredness));
    let s3 = with_girl(s2, s2.girl.add_stat(Stat::Exp, 3));
    let s4 = if (d[0] as int) < 25 {
        let s5 = with_girl(s3, s3.girl.add_skill(Skill::Service, 1));
        s5
    } else {
        s3
    };
    let s6 = with_event(s4, "She dealt cards at the gambling hall."@);
    s6
}

/// The draws of the dealer job, each in the range it is drawn from.
pub open spec fn dealer_draws(g: GirlView, d: Seq<i32>) -> bool {
    d.len() == 1
    && 0 <= d[0] < 100
}

impl JobDealer {
    /// The job this processes.
    pub fn job_type(&self) -> (t: JobType)
        ensures
            t == JobType::Dealer,
    {
        JobType::Dealer
    }

    /// One shift of the job with the given draws (see `dealer_outcome`).
    pub fn process_with(&self, girl: &mut Girl, d: &[i32]) -> (result: JobResult)
        requires
            dealer_draws(old(girl)@, d@),
        ensures
            job_state(final(girl)@, result) == dealer_outcome(old(girl)@, d@),
    {
        let mut result = JobResult::new();
        let intelligence: i32 = GirlManager::get_stat(girl, Stat::Intelligence);
        result.gold_earned = 15 + intelligence / 3;
        let tiredness: i32 = imax(5 - GirlManager::get_stat(girl, Stat::Constitution) / 20, 1);
        GirlManager::update_stat(girl, Stat::Tiredness, tiredness);
        GirlManager::update_stat(girl, Stat::Exp, 3);
        if d[0] < 25 {
            GirlManager::update_skill(girl, Skill::Service, 1);
        }
        push_text(&mut result.events, "She dealt cards at the gambling hall.");
        result
    }

    /// One shift of the job with draws from `rng`: the outcome of `process_with` for some draws in range.
    pub fn process(&self, girl: &mut Girl, rng: &mut rand::rngs::ThreadRng) -> (result: JobResult)
        ensures
            exists|d: Seq<i32>| dealer_draws(old(girl)@, d) && job_state(final(girl)@, result) == #[trigger] dealer_outcome(old(girl)@, d),
    {
        let mut d: Vec<i32> = Vec::new();
        d.push(roll_i32(rng, 0, 100));
        self.process_with(girl, d.as_slice())
    }
}

/// Entertainment: she earns 15 plus a fifth of charisma and beauty, tires, gains 3 experience, and a point of fame at a draw under 20.
#[derive(Debug)]
pub struct JobEntertainment;

/// What the entertainment job does to a girl with the given draws.
pub open spec fn entertainment_outcome(g: GirlView, d: Seq<i32>) -> JobState {
    let s0 = job_start(g);
    let charisma = s0.girl.stat(Stat::Charisma);
    let beauty = s0.girl.stat(Stat::Beauty);
    let s1 = with_gold(s0, 15 + (charisma + beauty) / 5);
    let tiredness = max_int(6 - s1.girl.stat(Stat::Constitution) / 15, 1);
    let s2 = with_girl(s1, s1.girl.add_stat(Stat::Tiredness, tiredness));
    let s3 = with_girl(s2, s2.girl.add_stat(Stat::Exp, 3));
    let s4 = if (d[0] as int) < 20 {
        let s5 = with_girl(s3, s3.girl.add_stat(Stat::Fame, 1));
        s5
    } else {
        s3
    };
    let s6 = with_event(s4, "She entertained the gambling hall patrons."@);
    s6
}

/// The draws of the entertainment job, each in the range it is drawn from.
pub open spec fn entertainment_draws(g: GirlView, d: Seq<i32>) -> bool {
    d.len() == 1
    && 0 <= d[0] < 100
}

impl JobEntertainment {
    /// The job this processes.
    pub fn job_type(&self) -> (t: JobType)
        ensures
            t == JobType::Entertainment,
    {
        JobType::Entertainment
    }

    /// One shift of the job with the given draws (see `entertainment_outcome`).
    pub fn process_with(&self, girl: &mut Girl, d: &[i32]) -> (result: JobResult)
        requires
            entertainment_draws(old(girl)@, d@),
        ensures
            job_state(final(girl)@, result) == entertainment_outcome(old(girl)@, d@),
    {
        let mut result = JobResult::new();
        let charisma: i32 = GirlManager::get_stat(girl, Stat::Charisma);
        let beauty: i32 = GirlManager::get_stat(girl, Stat::Beauty);
        result.gold_earned = 15 + (charisma + beauty) / 5;
        let tiredness: i32 = imax(6 - GirlManager::get_stat(girl, Stat::Constitution) / 15, 1);
        GirlManager::update_stat(girl, Stat::Tiredness, tiredness);
        GirlManager::update_stat(girl, Stat::Exp, 3);
        if d[0] < 20 {
            GirlManager::update_stat(girl, Stat::Fame, 1);
        }
        push_text(&mut result.events, "She entertained the gambling hall patrons.");
        result
    }

    /// One shift of the job with draws from `rng`: the outcome of `process_with` for some draws in range.
    pub fn process(&self, girl: &mut Girl, rng: &mut rand::rngs::ThreadRng) -> (result: JobResult)
        ensures
            exists|d: Seq<i32>| entertainment_draws(old(girl)@, d) && job_state(final(girl)@, result) == #[trigger] entertainment_outcome(old(girl)@, d),
    {
        let mut d: Vec<i32> = Vec::new();
        d.push(roll_i32(rng, 0, 100));
        self.process_with(girl, d.as_slice())
    }
}

/// XXX entertainment: she earns 25 plus a quarter of charisma and beauty, loses 3 libido, tires, gains 4 experience, and a point of strip at a draw under 35.
#[derive(Debug)]
pub struct JobXXXEntertainment;

/// What the xxx entertainment job does to a girl with the given draws.
pub open spec fn xxx_entertainment_outcome(g: GirlView, d: Seq<i32>) -> JobState {
    let s0 = job_start(g);
    let charisma = s0.girl.stat(Stat::Charisma);
    let beauty = s0.girl.stat(Stat::Beauty);
    let s1 = with_gold(s0, 25 + (charisma + beauty) / 4);
    let s2 = with_girl(s1, s1.girl.add_temp_stat(Stat::Libido, -3));
    let tiredness = max_int(8 - s2.girl.stat(Stat::Constitution) / 12, 1);
    let s3 = with_girl(s2, s2.girl.add_stat(Stat::Tiredness, tiredness));
    let s4 = with_girl(s3, s3.girl.add_stat(Stat::Exp, 4));
    let s5 = if (d[0] as int) < 35 {
        let s6 = with_girl(s4, s4.girl.add_skill(Skill::Strip, 1));
        s6
    } else {
        s4
    };
    let s7 = with_event(s5, "She performed XXX entertainment."@);
    s7
}

/// The draws of the xxx entertainment job, each in the range it is drawn from.
pub open spec fn xxx_entertainment_draws(g: GirlView, d: Seq<i32>) -> bool {
    d.len() == 1
    && 0 <= d[0] < 100
}

impl JobXXXEntertainment {
    /// The job this processes.
    pub fn job_type(&self) -> (t: JobType)
        ensures
            t == JobType::XXXEntertainment,
    {
        JobType::XXXEntertainment
    }

    /// One shift of the job with the given draws (see `xxx_entertainment_outcome`).
    pub fn process_with(&self, girl: &mut Girl, d: &[i32]) -> (result: JobResult)
        requires
            xxx_entertainment_draws(old(girl)@, d@),
        ensures
            job_state(final(girl)@, result) == xxx_entertainment_outcome(old(girl)@, d@),
    {
        let mut result = JobResult::new();
        let charisma: i32 = GirlManager::get_stat(girl, Stat::Charisma);
        let beauty: i32 = GirlManager::get_stat(girl, Stat::Beauty);
        result.gold_earned = 25 + (charisma + beauty) / 4;
        GirlManager::update_temp_stat(girl, Stat::Libido, -3);
        let tiredness: i32 = imax(8 - GirlManager::get_stat(girl, Stat::Constitution) / 12, 1);
        GirlManager::update_stat(girl, Stat::Tiredness, tiredness);
        GirlManager::update_stat(girl, Stat::Exp, 4);
        if d[0] < 35 {
            GirlManager::update_skill(girl, Skill::Strip, 1);
        }
        push_text(&mut result.events, "She performed XXX entertainment.");
        result
    }

    /// One shift of the job with draws from `rng`: the outcome of `process_with` for some draws in range.
    pub fn process(&self, girl: &mut Girl, rng: &mut rand::rngs::ThreadRng) -> (result: JobResult)
        ensures
            exists|d: Seq<i32>| xxx_entertainment_draws(old(girl)@, d) && job_state(final(girl)@, result) == #[trigger] xxx_entertainment_outcome(old(girl)@, d),
    {
        let mut d: Vec<i32> = Vec::new();
        d.push(roll_i32(rng, 0, 100));
        self.process_with(girl, d.as_slice())
    }
}

/// Barmaid: base pay 5, then bar work; she tires. Bar work: she earns 10 plus a draw under a quarter of her beauty and charisma (at least 1); she gains fame, experience and service (8 and 4 when a quick learner, 2 and 2 when a slow one, else 5 and 3) and libido (3 for a nymphomaniac, else 1); at a draw under 6 a patron harasses her (happiness -3), under 26 she enjoys it (happiness +1).
#[derive(Debug)]
pub struct JobBarmaid;

/// What the barmaid job does to a girl with the given draws.
pub open spec fn barmaid_outcome(g: GirlView, d: Seq<i32>) -> JobState {
    let s0 = job_start(g);
    let s1 = with_gold(s0, 5);
    let s2 = with_gold(s1, s1.gold + 10 + (d[0] as int));
    let skill_gain = if s2.girl.has_trait("Quick Learner"@) { 4 } else if s2.girl.has_trait("Slow Learner"@) { 2 } else { 3 };
    let xp_gain = if s2.girl.has_trait("Quick Learner"@) { 8 } else if s2.girl.has_trait("Slow Learner"@) { 2 } else { 5 };
    let libido = if s2.girl.has_trait("Nymphomaniac"@) { 3 } else { 1 };
    let s3 = with_girl(s2, s2.girl.add_stat(Stat::Fame, 1));
    let s4 = with_girl(s3, s3.girl.add_stat(Stat::Exp, xp_gain));
    let s5 = with_girl(s4, s4.girl.add_skill(Skill::Service, skill_gain));
    let s6 = with_girl(s5, s5.girl.add_temp_stat(Stat::Libido, libido));
    let s7 = if (d[1] as int) < 6 {
        let s8 = with_girl(s6, s6.girl.add_stat(Stat::Happiness, -3));
        let s9 = with_event(s8, "A patron harassed her."@);
        s9
    } else {
        let s10 = if (d[1] as int) < 26 {
            let s11 = with_girl(s6, s6.girl.add_stat(Stat::Happiness, 1));
            s11
        } else {
            s6
        };
        s10
    };
    let tiredness = max_int(8 - s7.girl.stat(Stat::Constitution) / 12, 1);
    let s12 = with_girl(s7, s7.girl.add_stat(Stat::Tiredness, tiredness));
    let s13 = with_event(s12, "She worked as a barmaid."@);
    s13
}

/// The draws of the barmaid job, each in the range it is drawn from.
pub open spec fn barmaid_draws(g: GirlView, d: Seq<i32>) -> bool {
    d.len() == 2
    && 0 <= d[0] < max_int((g.stat(Stat::Beauty) + g.stat(Stat::Charisma)) / 4, 1)
    && 0 <= d[1] < 100
}

impl JobBarmaid {
    /// The job this processes.
    pub fn job_type(&self) -> (t: JobType)
        ensures
            t == JobType::Barmaid,
    {
        JobType::Barmaid
    }

    /// One shift of the job with the given draws (see `barmaid_outcome`).
    pub fn process_with(&self, girl: &mut Girl, d: &[i32]) -> (result: JobResult)
        requires
            barmaid_draws(old(girl)@, d@),
        ensures
            job_state(final(girl)@, result) == barmaid_outcome(old(girl)@, d@),
    {
        let mut result = JobResult::new();
        result.gold_earned = 5;
        result.gold_earned = result.gold_earned + 10 + d[0];
        let skill_gain: i32 = if GirlManager::has_trait(girl, "Quick Learner") { 4 } else if GirlManager::has_trait(girl, "Slow Learner") { 2 } else { 3 };
        let xp_gain: i32 = if GirlManager::has_trait(girl, "Quick Learner") { 8 } else if GirlManager::has_trait(girl, "Slow Learner") { 2 } else { 5 };
        let libido: i32 = if GirlManager::has_trait(girl, "Nymphomaniac") { 3 } else { 1 };
        GirlManager::update_stat(girl, Stat::Fame, 1);
        GirlManager::update_stat(girl, Stat::Exp, xp_gain);
        GirlManager::update_skill(girl, Skill::Service, skill_gain);
        GirlManager::update_temp_stat(girl, Stat::Libido, libido);
        if d[1] < 6 {
            GirlManager::update_stat(girl, Stat::Happiness, -3);
            push_text(&mut result.events, "A patron harassed her.");
        } else {
            if d[1] < 26 {
                GirlManager::update_stat(girl, Stat::Happiness, 1);
            }
        }
        let tiredness: i32 = imax(8 - GirlManager::get_stat(girl, Stat::Constitution) / 12, 1);
        GirlManager::update_stat(girl, Stat::Tiredness, tiredness);
        push_text(&mut result.events, "She worked as a barmaid.");
        result
    }

    /// One shift of the job with draws from `rng`: the outcome of `process_with` for some draws in range.
    pub fn process(&self, girl: &mut Girl, rng: &mut rand::rngs::ThreadRng) -> (result: JobResult)
        ensures
            exists|d: Seq<i32>| barmaid_draws(old(girl)@, d) && job_state(final(girl)@, result) == #[trigger] barmaid_outcome(old(girl)@, d),
    {
        let mut d: Vec<i32> = Vec::new();
        let lo: i32 = 0;
        let hi: i32 = imax((GirlManager::get_stat(girl, Stat::Beauty) + GirlManager::get_stat(girl, Stat::Charisma)) / 4, 1);
        d.push(roll_i32(rng, lo, hi));
        d.push(roll_i32(rng, 0, 100));
        self.process_with(girl, d.as_slice())
    }
}

/// Waitress: base pay 15, then bar work; she tires. Bar work: she earns 10 plus a draw under a quarter of her beauty and charisma (at least 1); she gains fame, experience and service (8 and 4 when a quick learner, 2 and 2 when a slow one, else 5 and 3) and libido (3 for a nymphomaniac, else 1); at a draw under 6 a patron harasses her (happiness -3), under 26 she enjoys it (happiness +1).
#[derive(Debug)]
pub struct JobWaitress;

/// What the waitress job does to a girl with the given draws.
pub open spec fn waitress_outcome(g: GirlView, d: Seq<i32>) -> JobState {
    let s0 = job_start(g);
    let s1 = with_gold(s0, 15);
    let s2 = with_gold(s1, s1.gold + 10 + (d[0] as int));
    let skill_gain = if s2.girl.has_trait("Quick Learner"@) { 4 } else if s2.girl.has_trait("Slow Learner"@) { 2 } else { 3 };
    let xp_gain = if s2.girl.has_trait("Quick Learner"@) { 8 } else if s2.girl.has_trait("Slow Learner"@) { 2 } else { 5 };
    let libido = if s2.girl.has_trait("Nymphomaniac"@) { 3 } else { 1 };
    let s3 = with_girl(s2, s2.girl.add_stat(Stat::Fame, 1));
    let s4 = with_girl(s3, s3.girl.add_stat(Stat::Exp, xp_gain));
    let s5 = with_girl(s4, s4.girl.add_skill(Skill::Service, skill_gain));
    let s6 = with_girl(s5, s5.girl.add_temp_stat(Stat::Libido, libido));
    let s7 = if (d[1] as int) < 6 {
        let s8 = with_girl(s6, s6.girl.add_stat(Stat::Happiness, -3));
        let s9 = with_event(s8, "A patron harassed her."@);
        s9
    } else {
        let s10 = if (d[1] as int) < 26 {
            let s11 = with_girl(s6, s6.girl.add_stat(Stat::Happiness, 1));
            s11
        } else {
            s6
        };
        s10
    };
    let tiredness = max_int(8 - s7.girl.stat(Stat::Constitution) / 12, 1);
    let s12 = with_girl(s7, s7.girl.add_stat(Stat::Tiredness, tiredness));
    let s13 = with_event(s12, "She worked as a waitress."@);
    s13
}

/// The draws of the waitress job, each in the range it is drawn from.
pub open spec fn waitress_draws(g: GirlView, d: Seq<i32>) -> bool {
    d.len() == 2
    && 0 <= d[0] < max_int((g.stat(Stat::Beauty) + g.stat(Stat::Charisma)) / 4, 1)
    && 0 <= d[1] < 100
}

impl JobWaitress {
    /// The job this processes.
    pub fn job_type(&self) -> (t: JobType)
        ensures
            t == JobType::Waitress,
    {
        JobType::Waitress
    }

    /// One shift of the job with the given draws (see `waitress_outcome`).
    pub fn process_with(&self, girl: &mut Girl, d: &[i32]) -> (result: JobResult)
        requires
            waitress_draws(old(girl)@, d@),
        ensures
            job_state(final(girl)@, result) == waitress_outcome(old(girl)@, d@),
    {
        let mut result = JobResult::new();
        result.gold_earned = 15;
        result.gold_earned = result.gold_earned + 10 + d[0];
        let skill_gain: i32 = if GirlManager::has_trait(girl, "Quick Learner") { 4 } else if GirlManager::has_trait(girl, "Slow Learner") { 2 } else { 3 };
        let xp_gain: i32 = if GirlManager::has_trait(girl, "Quick Learner") { 8 } else if GirlManager::has_trait(girl, "Slow Learner") { 2 } else { 5 };
        let libido: i32 = if GirlManager::has_trait(girl, "Nymphomaniac") { 3 } else { 1 };
        GirlManager::update_stat(girl, Stat::Fame, 1);
        GirlManager::update_stat(girl, Stat::Exp, xp_gain);
        GirlManager::update_skill(girl, Skill::Service, skill_gain);
        GirlManager::update_temp_stat(girl, Stat::Libido, libido);
        if d[1] < 6 {
            GirlManager::update_stat(girl, Stat::Happiness, -3);
            push_text(&mut result.events, "A patron harassed her.");
        } else {
            if d[1] < 26 {
                GirlManager::update_stat(girl, Stat::Happiness, 1);
            }
        }
        let tiredness: i32 = imax(8 - GirlManager::get_stat(girl, Stat::Constitution) / 12, 1);
        GirlManager::update_stat(girl, Stat::Tiredness, tiredness);
        push_text(&mut result.events, "She worked as a waitress.");
        result
    }

    /// One shift of the job with draws from `rng`: the outcome of `process_with` for some draws in range.
    pub fn process(&self, girl: &mut Girl, rng: &mut rand::rngs::ThreadRng) -> (result: JobResult)
        ensures
            exists|d: Seq<i32>| waitress_draws(old(girl)@, d) && job_state(final(girl)@, result) == #[trigger] waitress_outcome(old(girl)@, d),
    {
        let mut d: Vec<i32> = Vec::new();
        let lo: i32 = 0;
        let hi: i32 = imax((GirlManager::get_stat(girl, Stat::Beauty) + GirlManager::get_stat(girl, Stat::Charisma)) / 4, 1);
        d.push(roll_i32(rng, lo, hi));
        d.push(roll_i32(rng, 0, 100));
        self.process_with(girl, d.as_slice())
    }
}

/// Bar stripper: base pay 30, then bar work; she tires and gains a point of strip at a draw under 40. Bar work: she earns 10 plus a draw under a quarter of her beauty and charisma (at least 1); she gains fame, experience and service (8 and 4 when a quick learner, 2 and 2 when a slow one, else 5 and 3) and libido (3 for a nymphomaniac, else 1); at a draw under 6 a patron harasses her (happiness -3), under 26 she enjoys it (happiness +1).
#[derive(Debug)]
pub struct JobStripper;

/// What the stripper job does to a girl with the given draws.
pub open spec fn stripper_outcome(g: GirlView, d: Seq<i32>) -> JobState {
    let s0 = job_start(g);
    let s1 = with_gold(s0, 30);
    let s2 = with_gold(s1, s1.gold + 10 + (d[0] as int));
    let skill_gain = if s2.girl.has_trait("Quick Learner"@) { 4 } else if s2.girl.has_trait("Slow Learner"@) { 2 } else { 3 };
    let xp_gain = if s2.girl.has_trait("Quick Learner"@) { 8 } else if s2.girl.has_trait("Slow Learner"@) { 2 } else { 5 };
    let libido = if s2.girl.has_trait("Nymphomaniac"@) { 3 } else { 1 };
    let s3 = with_girl(s2, s2.girl.add_stat(Stat::Fame, 1));
    let s4 = with_girl(s3, s3.girl.add_stat(Stat::Exp, xp_gain));
    let s5 = with_girl(s4, s4.girl.add_skill(Skill::Service, skill_gain));
    let s6 = with_girl(s5, s5.girl.add_temp_stat(Stat::Libido, libido));
    let s7 = if (d[1] as int) < 6 {
        let s8 = with_girl(s6, s6.girl.add_stat(Stat::Happiness, -3));
        let s9 = with_event(s8, "A patron harassed her."@);
        s9
    } else {
        let s10 = if (d[1] as int) < 26 {
            let s11 = with_girl(s6, s6.girl.add_stat(Stat::Happiness, 1));
            s11
        } else {
            s6
        };
        s10
    };
    let tiredness = max_int(7 - s7.girl.stat(Stat::Constitution) / 14, 1);
    let s12 = with_girl(s7, s7.girl.add_stat(Stat::Tiredness, tiredness));
    let s13 = if (d[2] as int) < 40 {
        let s14 = with_girl(s12, s12.girl.add_skill(Skill::Strip, 1));
        s14
    } else {
        s12
    };
    let s15 = with_event(s13, "She stripped at the bar."@);
    s15
}

/// The draws of the stripper job, each in the range it is drawn from.
pub open spec fn stripper_draws(g: GirlView, d: Seq<i32>) -> bool {
    d.len() == 3
    && 0 <= d[0] < max_int((g.stat(Stat::Beauty) + g.stat(Stat::Charisma)) / 4, 1)
    && 0 <= d[1] < 100
    && 0 <= d[2] < 100
}

impl JobStripper {
    /// The job this processes.
    pub fn job_type(&self) -> (t: JobType)
        ensures
            t == JobType::Stripper,
    {
        JobType::Stripper
    }

    /// One shift of the job with the given draws (see `stripper_outcome`).
    pub fn process_with(&self, girl: &mut Girl, d: &[i32]) -> (result: JobResult)
        requires
            stripper_draws(old(girl)@, d@),
        ensures
            job_state(final(girl)@, result) == stripper_outcome(old(girl)@, d@),
    {
        let mut result = JobResult::new();
        result.gold_earned = 30;
        result.gold_earned = result.gold_earned + 10 + d[0];
        let skill_gain: i32 = if GirlManager::has_trait(girl, "Quick Learner") { 4 } else if GirlManager::has_trait(girl, "Slow Learner") { 2 } else { 3 };
        let xp_gain: i32 = if GirlManager::has_trait(girl, "Quick Learner") { 8 } else if GirlManager::has_trait(girl, "Slow Learner") { 2 } else { 5 };
        let libido: i32 = if GirlManager::has_trait(girl, "Nymphomaniac") { 3 } else { 1 };
        GirlManager::update_stat(girl, Stat::Fame, 1);
        GirlManager::update_stat(girl, Stat::Exp, xp_gain);
        GirlManager::update_skill(girl, Skill::Service, skill_gain);
        GirlManager::update_temp_stat(girl, Stat::Libido, libido);
        if d[1] < 6 {
            GirlManager::update_stat(girl, Stat::Happiness, -3);
            push_text(&mut result.events, "A patron harassed her.");
        } else {
            if d[1] < 26 {
                GirlManager::update_stat(girl, Stat::Happiness, 1);
            }
        }
        let tiredness: i32 = imax(7 - GirlManager::get_stat(girl, Stat::Constitution) / 14, 1);
        GirlManager::update_stat(girl, Stat::Tiredness, tiredness);
        if d[2] < 40 {
            GirlManager::update_skill(girl, Skill::Strip, 1);
        }
        push_text(&mut result.events, "She stripped at the bar.");
        result
    }

    /// One shift of the job with draws from `rng`: the outcome of `process_with` for some draws in range.
    pub fn process(&self, girl: &mut Girl, rng: &mut rand::rngs::ThreadRng) -> (result: JobResult)
        ensures
            exists|d: Seq<i32>| stripper_draws(old(girl)@, d) && job_state(final(girl)@, result) == #[trigger] stripper_outcome(old(girl)@, d),
    {
        let mut d: Vec<i32> = Vec::new();
        let lo: i32 = 0;
        let hi: i32 = imax((GirlManager::get_stat(girl, Stat::Beauty) + GirlManager::get_stat(girl, Stat::Charisma)) / 4, 1);
        d.push(roll_i32(rng, lo, hi));
        d.push(roll_i32(rng, 0, 100));
        d.push(roll_i32(rng, 0, 100));
        self.process_with(girl, d.as_slice())
    }
}

/// Whoring in the bar: 1 or 2 customers pay her ask price (at least 1) each on top of a 30 bar bonus; for each she loses 4 libido and gains 1 to 3 normal sex (at a draw under 70) or anal; then bar work; she tires. Bar work: she earns 10 plus a draw under a quarter of her beauty and charisma (at least 1); she gains fame, experience and service (8 and 4 when a quick learner, 2 and 2 when a slow one, else 5 and 3) and libido (3 for a nymphomaniac, else 1); at a draw under 6 a patron harasses her (happiness -3), under 26 she enjoys it (happiness +1).
#[derive(Debug)]
pub struct JobWhoreBar;

/// What the whore bar job does to a girl with the given draws.
pub open spec fn whore_bar_outcome(g: GirlView, d: Seq<i32>) -> JobState {
    let s0 = job_start(g);
    let ask = s0.girl.stat(Stat::AskPrice);
    let ask_price = max_int(ask, 1);
    let num = (d[0] as int);
    let s1 = with_girl(s0, s0.girl.add_temp_stat(Stat::Libido, -4));
    let s2 = if (d[1] as int) < 70 {
        let s3 = with_girl(s1, s1.girl.add_skill(Skill::NormalSex, (d[2] as int)));
        s3
    } else {
        let s4 = with_girl(s1, s1.girl.add_skill(Skill::Anal, (d[2] as int)));
        s4
    };
    let s5 = if num >= 2 {
        let s6 = with_girl(s2, s2.girl.add_temp_stat(Stat::Libido, -4));
        let s7 = if (d[3] as int) < 70 {
            let s8 = with_girl(s6, s6.girl.add_skill(Skill::NormalSex, (d[4] as int)));
            s8
        } else {
            let s9 = with_girl(s6, s6.girl.add_skill(Skill::Anal, (d[4] as int)));
            s9
        };
        s7
    } else {
        s2
    };
    let s10 = with_gold(s5, s5.gold + 10 + (d[5] as int));
    let skill_gain = if s10.girl.has_trait("Quick Learner"@) { 4 } else if s10.girl.has_trait("Slow Learner"@) { 2 } else { 3 };
    let xp_gain = if s10.girl.has_trait("Quick Learner"@) { 8 } else if s10.girl.has_trait("Slow Learner"@) { 2 } else { 5 };
    let libido = if s10.girl.has_trait("Nymphomaniac"@) { 3 } else { 1 };
    let s11 = with_girl(s10, s10.girl.add_stat(Stat::Fame, 1));
    let s12 = with_girl(s11, s11.girl.add_stat(Stat::Exp, xp_gain));
    let s13 = with_girl(s12, s12.girl.add_skill(Skill::Service, skill_gain));
    let s14 = with_girl(s13, s13.girl.add_temp_stat(Stat::Libido, libido));
    let s15 = if (d[6] as int) < 6 {
        let s16 = with_girl(s14, s14.girl.add_stat(Stat::Happiness, -3));
        let s17 = with_event(s16, "A patron harassed her."@);
        s17
    } else {
        let s18 = if (d[6] as int) < 26 {
            let s19 = with_girl(s14, s14.girl.add_stat(Stat::Happiness, 1));
            s19
        } else {
            s14
        };
        s18
    };
    let s20 = with_gold(s15, s15.gold + 30 + ask_price * num);
    let tiredness = max_int(10 - s20.girl.stat(Stat::Constitution) / 10, 1);
    let s21 = with_girl(s20, s20.girl.add_stat(Stat::Tiredness, tiredness));
    let s22 = with_event(s21, "She worked the bar and slept with "@ + int_str(num) + " customers."@);
    s22
}

/// The draws of the whore bar job, each in the range it is drawn from.
pub open spec fn whore_bar_draws(g: GirlView, d: Seq<i32>) -> bool {
    d.len() == 7
    && 1 <= d[0] < 3
    && 0 <= d[1] < 100
    && 1 <= d[2] < 4
    && 0 <= d[3] < 100
    && 1 <= d[4] < 4
    && 0 <= d[5] < max_int((g.stat(Stat::Beauty) + g.stat(Stat::Charisma)) / 4, 1)
    && 0 <= d[6] < 100
}

impl JobWhoreBar {
    /// The job this processes.
    pub fn job_type(&self) -> (t: JobType)
        ensures
            t == JobType::WhoreBar,
    {
        JobType::WhoreBar
    }

    /// One shift of the job with the given draws (see `whore_bar_outcome`).
    pub fn process_with(&self, girl: &mut Girl, d: &[i32]) -> (result: JobResult)
        requires
            whore_bar_draws(old(girl)@, d@),
        ensures
            job_state(final(girl)@, result) == whore_bar_outcome(old(girl)@, d@),
    {
        let mut result = JobResult::new();
        let ask: i32 = GirlManager::get_stat(girl, Stat::AskPrice);
        let ask_price: i32 = imax(ask, 1);
        let num: i32 = d[0];
        GirlManager::update_temp_stat(girl, Stat::Libido, -4);
        if d[1] < 70 {
            GirlManager::update_skill(girl, Skill::NormalSex, d[2]);
        } else {
            GirlManager::update_skill(girl, Skill::Anal, d[2]);
        }
        if num >= 2 {
            GirlManager::update_temp_stat(girl, Stat::Libido, -4);
            if d[3] < 70 {
                GirlManager::update_skill(girl, Skill::NormalSex, d[4]);
            } else {
                GirlManager::update_skill(girl, Skill::Anal, d[4]);
            }
        }
        result.gold_earned = result.gold_earned + 10 + d[5];
        let skill_gain: i32 = if GirlManager::has_trait(girl, "Quick Learner") { 4 } else if GirlManager::has_trait(girl, "Slow Learner") { 2 } else { 3 };
        let xp_gain: i32 = if GirlManager::has_trait(girl, "Quick Learner") { 8 } else if GirlManager::has_trait(girl, "Slow Learner") { 2 } else { 5 };
        let libido: i32 = if GirlManager::has_trait(girl, "Nymphomaniac") { 3 } else { 1 };
        GirlManager::update_stat(girl, Stat::Fame, 1);
        GirlManager::update_stat(girl, Stat::Exp, xp_gain);
        GirlManager::update_skill(girl, Skill::Service, skill_gain);
        GirlManager::update_temp_stat(girl, Stat::Libido, libido);
        if d[6] < 6 {
            GirlManager::update_stat(girl, Stat::Happiness, -3);
            push_text(&mut result.events, "A patron harassed her.");
        } else {
            if d[6] < 26 {
                GirlManager::update_stat(girl, Stat::Happiness, 1);
            }
        }
        assert(ask_price * num <= 20000) by (nonlinear_arith)
            requires
                1 <= ask_price <= 10000,
                1 <= num <= 2,
        ;
        result.gold_earned = result.gold_earned + 30 + ask_price * num;
        let tiredness: i32 = imax(10 - GirlManager::get_stat(girl, Stat::Constitution) / 10, 1);
        GirlManager::update_stat(girl, Stat::Tiredness, tiredness);
        push_number_text(&mut result.events, "She worked the bar and slept with ", num, " customers.");
        result
    }

    /// One shift of the job with draws from `rng`: the outcome of `process_with` for some draws in range.
    pub fn process(&self, girl: &mut Girl, rng: &mut rand::rngs::ThreadRng) -> (result: JobResult)
        ensures
            exists|d: Seq<i32>| whore_bar_draws(old(girl)@, d) && job_state(final(girl)@, result) == #[trigger] whore_bar_outcome(old(girl)@, d),
    {
        let mut d: Vec<i32> = Vec::new();
        d.push(roll_i32(rng, 1, 3));
        d.push(roll_i32(rng, 0, 100));
        d.push(roll_i32(rng, 1, 4));
        d.push(roll_i32(rng, 0, 100));
        d.push(roll_i32(rng, 1, 4));
        let lo: i32 = 0;
        let hi: i32 = imax((GirlManager::get_stat(girl, Stat::Beauty) + GirlManager::get_stat(girl, Stat::Charisma)) / 4, 1);
        d.push(roll_i32(rng, lo, hi));
        d.push(roll_i32(rng, 0, 100));
        self.process_with(girl, d.as_slice())
    }
}

/// Singer: she earns 20 plus a fifth of charisma and beauty, tires, gains 3 experience, and with charisma above 50 a point of fame at a draw under 30.
#[derive(Debug)]
pub struct JobSinger;

/// What the singer job does to a girl with the given draws.
pub open spec fn singer_outcome(g: GirlView, d: Seq<i32>) -> JobState {
    let s0 = job_start(g);
    let charisma = s0.girl.stat(Stat::Charisma);
    let beauty = s0.girl.stat(Stat::Beauty);
    let s1 = with_gold(s0, 20 + (charisma + beauty) / 5);
    let tiredness = max_int(6 - s1.girl.stat(Stat::Constitution) / 15, 1);
    let s2 = with_girl(s1, s1.girl.add_stat(Stat::Tiredness, tiredness));
    let s3 = with_girl(s2, s2.girl.add_stat(Stat::Exp, 3));
    let s4 = if charisma > 50 && (d[0] as int) < 30 {
        let s5 = with_girl(s3, s3.girl.add_stat(Stat::Fame, 1));
        s5
    } else {
        s3
    };
    let s6 = with_event(s4, "She sang at the bar."@);
    s6
}

/// The draws of the singer job, each in the range it is drawn from.
pub open spec fn singer_draws(g: GirlView, d: Seq<i32>) -> bool {
    d.len() == 1
    && 0 <= d[0] < 100
}

impl JobSinger {
    /// The job this processes.
    pub fn job_type(&self) -> (t: JobType)
        ensures
            t == JobType::Singer,
    {
        JobType::Singer
    }

    /// One shift of the job with the given draws (see `singer_outcome`).
    pub fn process_with(&self, girl: &mut Girl, d: &[i32]) -> (result: JobResult)
        requires
            singer_draws(old(girl)@, d@),
        ensures
            job_state(final(girl)@, result) == singer_outcome(old(girl)@, d@),
    {
        let mut result = JobResult::new();
        let charisma: i32 = GirlManager::get_stat(girl, Stat::Charisma);
        let beauty: i32 = GirlManager::get_stat(girl, Stat::Beauty);
        result.gold_earned = 20 + (charisma + beauty) / 5;
        let tiredness: i32 = imax(6 - GirlManager::get_stat(girl, Stat::Constitution) / 15, 1);
        GirlManager::update_stat(girl, Stat::Tiredness, tiredness);
        GirlManager::update_stat(girl, Stat::Exp, 3);
        if charisma > 50 && d[0] < 30 {
            GirlManager::update_stat(girl, Stat::Fame, 1);
        }
        push_text(&mut result.events, "She sang at the bar.");
        result
    }

    /// One shift of the job with draws from `rng`: the outcome of `process_with` for some draws in range.
    pub fn process(&self, girl: &mut Girl, rng: &mut rand::rngs::ThreadRng) -> (result: JobResult)
        ensures
            exists|d: Seq<i32>| singer_draws(old(girl)@, d) && job_state(final(girl)@, result) == #[trigger] singer_outcome(old(girl)@, d),
    {
        let mut d: Vec<i32> = Vec::new();
        d.push(roll_i32(rng, 0, 100));
        self.process_with(girl, d.as_slice())
    }
}

/// Beast scene (beastiality, pay 40); she loses a point of spirit. Filming: she earns the base pay plus half the scene skill, a quarter of beauty and a fifth of fame; she tires, loses 3 libido, gains 1 to 4 of the skill (1 to 3 normally, 0 or 1 when a slow learner), 3 to 7 experience, and fame at a draw under 40.
#[derive(Debug)]
pub struct JobFilmBeast;

/// What the film beast job does to a girl with the given draws.
pub open spec fn film_beast_outcome(g: GirlView, d: Seq<i32>) -> JobState {
    let s0 = job_start(g);
    let skill_val = s0.girl.skill(Skill::Beastiality);
    let beauty = s0.girl.stat(Stat::Beauty);
    let fame = s0.girl.stat(Stat::Fame);
    let s1 = with_gold(s0, 40 + skill_val / 2 + beauty / 4 + fame / 5);
    let tiredness = max_int(8 - s1.girl.stat(Stat::Constitution) / 12, 1);
    let s2 = with_girl(s1, s1.girl.add_stat(Stat::Tiredness, tiredness));
    let s3 = with_girl(s2, s2.girl.add_temp_stat(Stat::Libido, -3));
    let s4 = with_girl(s3, s3.girl.add_skill(Skill::Beastiality, (d[0] as int)));
    let s5 = with_girl(s4, s4.girl.add_stat(Stat::Exp, (d[1] as int)));
    let s6 = if (d[2] as int) < 40 {
        let s7 = with_girl(s5, s5.girl.add_stat(Stat::Fame, 1));
        s7
    } else {
        s5
    };
    let s8 = with_girl(s6, s6.girl.add_stat(Stat::Spirit, -1));
    let s9 = with_event(s8, "She filmed a beast scene."@);
    s9
}

/// The draws of the film beast job, each in the range it is drawn from.
pub open spec fn film_beast_draws(g: GirlView, d: Seq<i32>) -> bool {
    d.len() == 3
    && if g.has_trait("Quick Learner"@) { 1int } else if g.has_trait("Slow Learner"@) { 0int } else { 1int } <= d[0] < if g.has_trait("Quick Learner"@) { 5int } else if g.has_trait("Slow Learner"@) { 2int } else { 4int }
    && 3 <= d[1] < 8
    && 0 <= d[2] < 100
}

impl JobFilmBeast {
    /// The job this processes.
    pub fn job_type(&self) -> (t: JobType)
        ensures
            t == JobType::FilmBeast,
    {
        JobType::FilmBeast
    }

    /// One shift of the job with the given draws (see `film_beast_outcome`).
    pub fn process_with(&self, girl: &mut Girl, d: &[i32]) -> (result: JobResult)
        requires
            film_beast_draws(old(girl)@, d@),
        ensures
            job_state(final(girl)@, result) == film_beast_outcome(old(girl)@, d@),
    {
        let mut result = JobResult::new();
        let skill_val: i32 = GirlManager::get_skill(girl, Skill::Beastiality);
        let beauty: i32 = GirlManager::get_stat(girl, Stat::Beauty);
        let fame: i32 = GirlManager::get_stat(girl, Stat::Fame);
        result.gold_earned = 40 + skill_val / 2 + beauty / 4 + fame / 5;
        let tiredness: i32 = imax(8 - GirlManager::get_stat(girl, Stat::Constitution) / 12, 1);
        GirlManager::update_stat(girl, Stat::Tiredness, tiredness);
        GirlManager::update_temp_stat(girl, Stat::Libido, -3);
        GirlManager::update_skill(girl, Skill::Beastiality, d[0]);
        GirlManager::update_stat(girl, Stat::Exp, d[1]);
        if d[2] < 40 {
            GirlManager::update_stat(girl, Stat::Fame, 1);
        }
        GirlManager::update_stat(girl, Stat::Spirit, -1);
        push_text(&mut result.events, "She filmed a beast scene.");
        result
    }

    /// One shift of the job with draws from `rng`: the outcome of `process_with` for some draws in range.
    pub fn process(&self, girl: &mut Girl, rng: &mut rand::rngs::ThreadRng) -> (result: JobResult)
        ensures
            exists|d: Seq<i32>| film_beast_draws(old(girl)@, d) && job_state(final(girl)@, result) == #[trigger] film_beast_outcome(old(girl)@, d),
    {
        let mut d: Vec<i32> = Vec::new();
        let lo: i32 = if GirlManager::has_trait(girl, "Quick Learner") { 1 } else if GirlManager::has_trait(girl, "Slow Learner") { 0 } else { 1 };
        let hi: i32 = if GirlManager::has_trait(girl, "Quick Learner") { 5 } else if GirlManager::has_trait(girl, "Slow Learner") { 2 } else { 4 };
        d.push(roll_i32(rng, lo, hi));
        d.push(roll_i32(rng, 3, 8));
        d.push(roll_i32(rng, 0, 100));
        self.process_with(girl, d.as_slice())
    }
}

/// Sex scene (normal sex, pay 35). Filming: she earns the base pay plus half the scene skill, a quarter of beauty and a fifth of fame; she tires, loses 3 libido, gains 1 to 4 of the skill (1 to 3 normally, 0 or 1 when a slow learner), 3 to 7 experience, and fame at a draw under 40.
#[derive(Debug)]
pub struct JobFilmSex;

/// What the film sex job does to a girl with the given draws.
pub open spec fn film_sex_outcome(g: GirlView, d: Seq<i32>) -> JobState {
    let s0 = job_start(g);
    let skill_val = s0.girl.skill(Skill::NormalSex);
    let beauty = s0.girl.stat(Stat::Beauty);
    let fame = s0.girl.stat(Stat::Fame);
    let s1 = with_gold(s0, 35 + skill_val / 2 + beauty / 4 + fame / 5);
    let tiredness = max_int(8 - s1.girl.stat(Stat::Constitution) / 12, 1);
    let s2 = with_girl(s1, s1.girl.add_stat(Stat::Tiredness, tiredness));
    let s3 = with_girl(s2, s2.girl.add_temp_stat(Stat::Libido, -3));
    let s4 = with_girl(s3, s3.girl.add_skill(Skill::NormalSex, (d[0] as int)));
    let s5 = with_girl(s4, s4.girl.add_stat(Stat::Exp, (d[1] as int)));
    let s6 = if (d[2] as int) < 40 {
        let s7 = with_girl(s5, s5.girl.add_stat(Stat::Fame, 1));
        s7
    } else {
        s5
    };
    let s8 = with_event(s6, "She filmed a sex scene."@);
    s8
}

/// The draws of the film sex job, each in the range it is drawn from.
pub open spec fn film_sex_draws(g: GirlView, d: Seq<i32>) -> bool {
    d.len() == 3
    && if g.has_trait("Quick Learner"@) { 1int } else if g.has_trait("Slow Learner"@) { 0int } else { 1int } <= d[0] < if g.has_trait("Quick Learner"@) { 5int } else if g.has_trait("Slow Learner"@) { 2int } else { 4int }
    && 3 <= d[1] < 8
    && 0 <= d[2] < 100
}

impl JobFilmSex {
    /// The job this processes.
    pub fn job_type(&self) -> (t: JobType)
        ensures
            t == JobType::FilmSex,
    {
        JobType::FilmSex
    }

    /// One shift of the job with the given draws (see `film_sex_outcome`).
    pub fn process_with(&self, girl: &mut Girl, d: &[i32]) -> (result: JobResult)
        requires
            film_sex_draws(old(girl)@, d@),
        ensures
            job_state(final(girl)@, result) == film_sex_outcome(old(girl)@, d@),
    {
        let mut result = JobResult::new();
        let skill_val: i32 = GirlManager::get_skill(girl, Skill::NormalSex);
        let beauty: i32 = GirlManager::get_stat(girl, Stat::Beauty);
        let fame: i32 = GirlManager::get_stat(girl, Stat::Fame);
        result.gold_earned = 35 + skill_val / 2 + beauty / 4 + fame / 5;
        let tiredness: i32 = imax(8 - GirlManager::get_stat(girl, Stat::Constitution) / 12, 1);
        GirlManager::update_stat(girl, Stat::Tiredness, tiredness);
        GirlManager::update_temp_stat(girl, Stat::Libido, -3);
        GirlManager::update_skill(girl, Skill::NormalSex, d[0]);
        GirlManager::update_stat(girl, Stat::Exp, d[1]);
        if d[2] < 40 {
            GirlManager::update_stat(girl, Stat::Fame, 1);
        }
        push_text(&mut result.events, "She filmed a sex scene.");
        result
    }

    /// One shift of the job with draws from `rng`: the outcome of `process_with` for some draws in range.
    pub fn process(&self, girl: &mut Girl, rng: &mut rand::rngs::ThreadRng) -> (result: JobResult)
        ensures
            exists|d: Seq<i32>| film_sex_draws(old(girl)@, d) && job_state(final(girl)@, result) == #[trigger] film_sex_outcome(old(girl)@, d),
    {
        let mut d: Vec<i32> = Vec::new();
        let lo: i32 = if GirlManager::has_trait(girl, "Quick Learner") { 1 } else if GirlManager::has_trait(girl, "Slow Learner") { 0 } else { 1 };
        let hi: i32 = if GirlManager::has_trait(girl, "Quick Learner") { 5 } else if GirlManager::has_trait(girl, "Slow Learner") { 2 } else { 4 };
        d.push(roll_i32(rng, lo, hi));
        d.push(roll_i32(rng, 3, 8));
        d.push(roll_i32(rng, 0, 100));
        self.process_with(girl, d.as_slice())
    }
}

/// Anal scene (anal, pay 40); she loses a point of spirit. Filming: she earns the base pay plus half the scene skill, a quarter of beauty and a fifth of fame; she tires, loses 3 libido, gains 1 to 4 of the skill (1 to 3 normally, 0 or 1 when a slow learner), 3 to 7 experience, and fame at a draw under 40.
#[derive(Debug)]
pub struct JobFilmAnal;

/// What the film anal job does to a girl with the given draws.
pub open spec fn film_anal_outcome(g: GirlView, d: Seq<i32>) -> JobState {
    let s0 = job_start(g);
    let skill_val = s0.girl.skill(Skill::Anal);
    let beauty = s0.girl.stat(Stat::Beauty);
    let fame = s0.girl.stat(Stat::Fame);
    let s1 = with_gold(s0, 40 + skill_val / 2 + beauty / 4 + fame / 5);
    let tiredness = max_int(8 - s1.girl.stat(Stat::Constitution) / 12, 1);
    let s2 = with_girl(s1, s1.girl.add_stat(Stat::Tiredness, tiredness));
    let s3 = with_girl(s2, s2.girl.add_temp_stat(Stat::Libido, -3));
    let s4 = with_girl(s3, s3.girl.add_skill(Skill::Anal, (d[0] as int)));
    let s5 = with_girl(s4, s4.girl.add_stat(Stat::Exp, (d[1] as int)));
    let s6 = if (d[2] as int) < 40 {
        let s7 = with_girl(s5, s5.girl.add_stat(Stat::Fame, 1));
        s7
    } else {
        s5
    };
    let s8 = with_girl(s6, s6.girl.add_stat(Stat::Spirit, -1));
    let s9 = with_event(s8, "She filmed an anal scene."@);
    s9
}

/// The draws of the film anal job, each in the range it is drawn from.
pub open spec fn film_anal_draws(g: GirlView, d: Seq<i32>) -> bool {
    d.len() == 3
    && if g.has_trait("Quick Learner"@) { 1int } else if g.has_trait("Slow Learner"@) { 0int } else { 1int } <= d[0] < if g.has_trait("Quick Learner"@) { 5int } else if g.has_trait("Slow Learner"@) { 2int } else { 4int }
    && 3 <= d[1] < 8
    && 0 <= d[2] < 100
}

impl JobFilmAnal {
    /// The job this processes.
    pub fn job_type(&self) -> (t: JobType)
        ensures
            t == JobType::FilmAnal,
    {
        JobType::FilmAnal
    }

    /// One shift of the job with the given draws (see `film_anal_outcome`).
    pub fn process_with(&self, girl: &mut Girl, d: &[i32]) -> (result: JobResult)
        requires
            film_anal_draws(old(girl)@, d@),
        ensures
            job_state(final(girl)@, result) == film_anal_outcome(old(girl)@, d@),
    {
        let mut result = JobResult::new();
        let skill_val: i32 = GirlManager::get_skill(girl, Skill::Anal);
        let beauty: i32 = GirlManager::get_stat(girl, Stat::Beauty);
        let fame: i32 = GirlManager::get_stat(girl, Stat::Fame);
        result.gold_earned = 40 + skill_val / 2 + beauty / 4 + fame / 5;
        let tiredness: i32 = imax(8 - GirlManager::get_stat(girl, Stat::Constitution) / 12, 1);
        GirlManager::update_stat(girl, Stat::Tiredness, tiredness);
        GirlManager::update_temp_stat(girl, Stat::Libido, -3);
        GirlManager::update_skill(girl, Skill::Anal, d[0]);
        GirlManager::update_stat(girl, Stat::Exp, d[1]);
        if d[2] < 40 {
            GirlManager::update_stat(girl, Stat::Fame, 1);
        }
        GirlManager::update_stat(girl, Stat::Spirit, -1);
        push_text(&mut result.events, "She filmed an anal scene.");
        result
    }

    /// One shift of the job with draws from `rng`: the outcome of `process_with` for some draws in range.
    pub fn process(&self, girl: &mut Girl, rng: &mut rand::rngs::ThreadRng) -> (result: JobResult)
        ensures
            exists|d: Seq<i32>| film_anal_draws(old(girl)@, d) && job_state(final(girl)@, result) == #[trigger] film_anal_outcome(old(girl)@, d),
    {
        let mut d: Vec<i32> = Vec::new();
        let lo: i32 = if GirlManager::has_trait(girl, "Quick Learner") { 1 } else if GirlManager::has_trait(girl, "Slow Learner") { 0 } else { 1 };
        let hi: i32 = if GirlManager::has_trait(girl, "Quick Learner") { 5 } else if GirlManager::has_trait(girl, "Slow Learner") { 2 } else { 4 };
        d.push(roll_i32(rng, lo, hi));
        d.push(roll_i32(rng, 3, 8));
        d.push(roll_i32(rng, 0, 100));
        self.process_with(girl, d.as_slice())
    }
}

/// Lesbian scene (lesbian, pay 30). Filming: she earns the base pay plus half the scene skill, a quarter of beauty and a fifth of fame; she tires, loses 3 libido, gains 1 to 4 of the skill (1 to 3 normally, 0 or 1 when a slow learner), 3 to 7 experience, and fame at a draw under 40.
#[derive(Debug)]
pub struct JobFilmLesbian;

/// What the film lesbian job does to a girl with the given draws.
pub open spec fn film_lesbian_outcome(g: GirlView, d: Seq<i32>) -> JobState {
    let s0 = job_start(g);
    let skill_val = s0.girl.skill(Skill::Lesbian);
    let beauty = s0.girl.stat(Stat::Beauty);
    let fame = s0.girl.stat(Stat::Fame);
    let s1 = with_gold(s0, 30 + skill_val / 2 + beauty / 4 + fame / 5);
    let tiredness = max_int(8 - s1.girl.stat(Stat::Constitution) / 12, 1);
    let s2 = with_girl(s1, s1.girl.add_stat(Stat::Tiredness, tiredness));
    let s3 = with_girl(s2, s2.girl.add_temp_stat(Stat::Libido, -3));
    let s4 = with_girl(s3, s3.girl.add_skill(Skill::Lesbian, (d[0] as int)));
    let s5 = with_girl(s4, s4.girl.add_stat(Stat::Exp, (d[1] as int)));
    let s6 = if (d[2] as int) < 40 {
        let s7 = with_girl(s5, s5.girl.add_stat(Stat::Fame, 1));
        s7
    } else {
        s5
    };
    let s8 = with_event(s6, "She filmed a lesbian scene."@);
    s8
}

/// The draws of the film lesbian job, each in the range it is drawn from.
pub open spec fn film_lesbian_draws(g: GirlView, d: Seq<i32>) -> bool {
    d.len() == 3
    && if g.has_trait("Quick Learner"@) { 1int } else if g.has_trait("Slow Learner"@) { 0int } else { 1int } <= d[0] < if g.has_trait("Quick Learner"@) { 5int } else if g.has_trait("Slow Learner"@) { 2int } else { 4int }
    && 3 <= d[1] < 8
    && 0 <= d[2] < 100
}

impl JobFilmLesbian {
    /// The job this processes.
    pub fn job_type(&self) -> (t: JobType)
        ensures
            t == JobType::FilmLesbian,
    {
        JobType::FilmLesbian
    }

    /// One shift of the job with the given draws (see `film_lesbian_outcome`).
    pub fn process_with(&self, girl: &mut Girl, d: &[i32]) -> (result: JobResult)
        requires
            film_lesbian_draws(old(girl)@, d@),
        ensures
            job_state(final(girl)@, result) == film_lesbian_outcome(old(girl)@, d@),
    {
        let mut result = JobResult::new();
        let skill_val: i32 = GirlManager::get_skill(girl, Skill::Lesbian);
        let beauty: i32 = GirlManager::get_stat(girl, Stat::Beauty);
        let fame: i32 = GirlManager::get_stat(girl, Stat::Fame);
        result.gold_earned = 30 + skill_val / 2 + beauty / 4 + fame / 5;
        let tiredness: i32 = imax(8 - GirlManager::get_stat(girl, Stat::Constitution) / 12, 1);
        GirlManager::update_stat(girl, Stat::Tiredness, tiredness);
        GirlManager::update_temp_stat(girl, Stat::Libido, -3);
        GirlManager::update_skill(girl, Skill::Lesbian, d[0]);
        GirlManager::update_stat(girl, Stat::Exp, d[1]);
        if d[2] < 40 {
            GirlManager::update_stat(girl, Stat::Fame, 1);
        }
        push_text(&mut result.events, "She filmed a lesbian scene.");
        result
    }

    /// One shift of the job with draws from `rng`: the outcome of `process_with` for some draws in range.
    pub fn process(&self, girl: &mut Girl, rng: &mut rand::rngs::ThreadRng) -> (result: JobResult)
        ensures
            exists|d: Seq<i32>| film_lesbian_draws(old(girl)@, d) && job_state(final(girl)@, result) == #[trigger] film_lesbian_outcome(old(girl)@, d),
    {
        let mut d: Vec<i32> = Vec::new();
        let lo: i32 = if GirlManager::has_trait(girl, "Quick Learner") { 1 } else if GirlManager::has_trait(girl, "Slow Learner") { 0 } else { 1 };
        let hi: i32 = if GirlManager::has_trait(girl, "Quick Learner") { 5 } else if GirlManager::has_trait(girl, "Slow Learner") { 2 } else { 4 };
        d.push(roll_i32(rng, lo, hi));
        d.push(roll_i32(rng, 3, 8));
        d.push(roll_i32(rng, 0, 100));
        self.process_with(girl, d.as_slice())
    }
}

/// Bondage scene (BDSM, pay 40); she loses a point of spirit. Filming: she earns the base pay plus half the scene skill, a quarter of beauty and a fifth of fame; she tires, loses 3 libido, gains 1 to 4 of the skill (1 to 3 normally, 0 or 1 when a slow learner), 3 to 7 experience, and fame at a draw under 40.
#[derive(Debug)]
pub struct JobFilmBondage;

/// What the film bondage job does to a girl with the given draws.
pub open spec fn film_bondage_outcome(g: GirlView, d: Seq<i32>) -> JobState {
    let s0 = job_start(g);
    let skill_val = s0.girl.skill(Skill::BDSM);
    let beauty = s0.girl.stat(Stat::Beauty);
    let fame = s0.girl.stat(Stat::Fame);
    let s1 = with_gold(s0, 40 + skill_val / 2 + beauty / 4 + fame / 5);
    let tiredness = max_int(8 - s1.girl.stat(Stat::Constitution) / 12, 1);
    let s2 = with_girl(s1, s1.girl.add_stat(Stat::Tiredness, tiredness));
    let s3 = with_girl(s2, s2.girl.add_temp_stat(Stat::Libido, -3));
    let s4 = with_girl(s3, s3.girl.add_skill(Skill::BDSM, (d[0] as int)));
    let s5 = with_girl(s4, s4.girl.add_stat(Stat::Exp, (d[1] as int)));
    let s6 = if (d[2] as int) < 40 {
        let s7 = with_girl(s5, s5.girl.add_stat(Stat::Fame, 1));
        s7
    } else {
        s5
    };
    let s8 = with_girl(s6, s6.girl.add_stat(Stat::Spirit, -1));
    let s9 = with_event(s8, "She filmed a bondage scene."@);
    s9
}

/// The draws of the film bondage job, each in the range it is drawn from.
pub open spec fn film_bondage_draws(g: GirlView, d: Seq<i32>) -> bool {
    d.len() == 3
    && if g.has_trait("Quick Learner"@) { 1int } else if g.has_trait("Slow Learner"@) { 0int } else { 1int } <= d[0] < if g.has_trait("Quick Learner"@) { 5int } else if g.has_trait("Slow Learner"@) { 2int } else { 4int }
    && 3 <= d[1] < 8
    && 0 <= d[2] < 100
}

impl JobFilmBondage {
    /// The job this processes.
    pub fn job_type(&self) -> (t: JobType)
        ensures
            t == JobType::FilmBondage,
    {
        JobType::FilmBondage
    }

    /// One shift of the job with the given draws (see `film_bondage_outcome`).
    pub fn process_with(&self, girl: &mut Girl, d: &[i32]) -> (result: JobResult)
        requires
            film_bondage_draws(old(girl)@, d@),
        ensures
            job_state(final(girl)@, result) == film_bondage_outcome(old(girl)@, d@),
    {
        let mut result = JobResult::new();
        let skill_val: i32 = GirlManager::get_skill(girl, Skill::BDSM);
        let beauty: i32 = GirlManager::get_stat(girl, Stat::Beauty);
        let fame: i32 = GirlManager::get_stat(girl, Stat::Fame);
        result.gold_earned = 40 + skill_val / 2 + beauty / 4 + fame / 5;
        let tiredness: i32 = imax(8 - GirlManager::get_stat(girl, Stat::Constitution) / 12, 1);
        GirlManager::update_stat(girl, Stat::Tiredness, tiredness);
        GirlManager::update_temp_stat(girl, Stat::Libido, -3);
        GirlManager::update_skill(girl, Skill::BDSM, d[0]);
        GirlManager::update_stat(girl, Stat::Exp, d[1]);
        if d[2] < 40 {
            GirlManager::update_stat(girl, Stat::Fame, 1);
        }
        GirlManager::update_stat(girl, Stat::Spirit, -1);
        push_text(&mut result.events, "She filmed a bondage scene.");
        result
    }

    /// One shift of the job with draws from `rng`: the outcome of `process_with` for some draws in range.
    pub fn process(&self, girl: &mut Girl, rng: &mut rand::rngs::ThreadRng) -> (result: JobResult)
        ensures
            exists|d: Seq<i32>| film_bondage_draws(old(girl)@, d) && job_state(final(girl)@, result) == #[trigger] film_bondage_outcome(old(girl)@, d),
    {
        let mut d: Vec<i32> = Vec::new();
        let lo: i32 = if GirlManager::has_trait(girl, "Quick Learner") { 1 } else if GirlManager::has_trait(girl, "Slow Learner") { 0 } else { 1 };
        let hi: i32 = if GirlManager::has_trait(girl, "Quick Learner") { 5 } else if GirlManager::has_trait(girl, "Slow Learner") { 2 } else { 4 };
        d.push(roll_i32(rng, lo, hi));
        d.push(roll_i32(rng, 3, 8));
        d.push(roll_i32(rng, 0, 100));
        self.process_with(girl, d.as_slice())
    }
}

/// Fluffer: she earns 15 plus a third of service, tires, gains 2 experience, loses 2 libido, and a point of service at a draw under 30.
#[derive(Debug)]
pub struct JobFluffer;

/// What the fluffer job does to a girl with the given draws.
pub open spec fn fluffer_outcome(g: GirlView, d: Seq<i32>) -> JobState {
    let s0 = job_start(g);
    let service = s0.girl.skill(Skill::Service);
    let s1 = with_gold(s0, 15 + service / 3);
    let tiredness = max_int(6 - s1.girl.stat(Stat::Constitution) / 15, 1);
    let s2 = with_girl(s1, s1.girl.add_stat(Stat::Tiredness, tiredness));
    let s3 = with_girl(s2, s2.girl.add_stat(Stat::Exp, 2));
    let s4 = with_girl(s3, s3.girl.add_temp_stat(Stat::Libido, -2));
    let s5 = if (d[0] as int) < 30 {
        let s6 = with_girl(s4, s4.girl.add_skill(Skill::Service, 1));
        s6
    } else {
        s4
    };
    let s7 = with_event(s5, "She worked as a fluffer."@);
    s7
}

/// The draws of the fluffer job, each in the range it is drawn from.
pub open spec fn fluffer_draws(g: GirlView, d: Seq<i32>) -> bool {
    d.len() == 1
    && 0 <= d[0] < 100
}

impl JobFluffer {
    /// The job this processes.
    pub fn job_type(&self) -> (t: JobType)
        ensures
            t == JobType::Fluffer,
    {
        JobType::Fluffer
    }

    /// One shift of the job with the given draws (see `fluffer_outcome`).
    pub fn process_with(&self, girl: &mut Girl, d: &[i32]) -> (result: JobResult)
        requires
            fluffer_draws(old(girl)@, d@),
        ensures
            job_state(final(girl)@, result) == fluffer_outcome(old(girl)@, d@),
    {
        let mut result = JobResult::new();
        let service: i32 = GirlManager::get_skill(girl, Skill::Service);
        result.gold_earned = 15 + service / 3;
        let tiredness: i32 = imax(6 - GirlManager::get_stat(girl, Stat::Constitution) / 15, 1);
        GirlManager::update_stat(girl, Stat::Tiredness, tiredness);
        GirlManager::update_stat(girl, Stat::Exp, 2);
        GirlManager::update_temp_stat(girl, Stat::Libido, -2);
        if d[0] < 30 {
            GirlManager::update_skill(girl, Skill::Service, 1);
        }
        push_text(&mut result.events, "She worked as a fluffer.");
        result
    }

    /// One shift of the job with draws from `rng`: the outcome of `process_with` for some draws in range.
    pub fn process(&self, girl: &mut Girl, rng: &mut rand::rngs::ThreadRng) -> (result: JobResult)
        ensures
            exists|d: Seq<i32>| fluffer_draws(old(girl)@, d) && job_state(final(girl)@, result) == #[trigger] fluffer_outcome(old(girl)@, d),
    {
        let mut d: Vec<i32> = Vec::new();
        d.push(roll_i32(rng, 0, 100));
        self.process_with(girl, d.as_slice())
    }
}

/// Camera mage: she earns 20 plus a third of magic, spends 15 mana, tires, gains 3 experience, and a point of magic at a draw under 25.
#[derive(Debug)]
pub struct JobCameraMage;

/// What the camera mage job does to a girl with the given draws.
pub open spec fn camera_mage_outcome(g: GirlView, d: Seq<i32>) -> JobState {
    let s0 = job_start(g);
    let magic = s0.girl.skill(Skill::Magic);
    let s1 = with_gold(s0, 20 + magic / 3);
    let s2 = with_girl(s1, s1.girl.add_stat(Stat::Mana, -15));
    let tiredness = max_int(5 - s2.girl.stat(Stat::Constitution) / 20, 1);
    let s3 = with_girl(s2, s2.girl.add_stat(Stat::Tiredness, tiredness));
    let s4 = with_girl(s3, s3.girl.add_stat(Stat::Exp, 3));
    let s5 = if (d[0] as int) < 25 {
        let s6 = with_girl(s4, s4.girl.add_skill(Skill::Magic, 1));
        s6
    } else {
        s4
    };
    let s7 = with_event(s5, "She operated the crystal camera."@);
    s7
}

/// The draws of the camera mage job, each in the range it is drawn from.
pub open spec fn camera_mage_draws(g: GirlView, d: Seq<i32>) -> bool {
    d.len() == 1
    && 0 <= d[0] < 100
}

impl JobCameraMage {
    /// The job this processes.
    pub fn job_type(&self) -> (t: JobType)
        ensures
            t == JobType::CameraMage,
    {
        JobType::CameraMage
    }

    /// One shift of the job with the given draws (see `camera_mage_outcome`).
    pub fn process_with(&self, girl: &mut Girl, d: &[i32]) -> (result: JobResult)
        requires
            camera_mage_draws(old(girl)@, d@),
        ensures
            job_state(final(girl)@, result) == camera_mage_outcome(old(girl)@, d@),
    {
        let mut result = JobResult::new();
        let magic: i32 = GirlManager::get_skill(girl, Skill::Magic);
        result.gold_earned = 20 + magic / 3;
        GirlManager::update_stat(girl, Stat::Mana, -15);
        let tiredness: i32 = imax(5 - GirlManager::get_stat(girl, Stat::Constitution) / 20, 1);
        GirlManager::update_stat(girl, Stat::Tiredness, tiredness);
        GirlManager::update_stat(girl, Stat::Exp, 3);
        if d[0] < 25 {
            GirlManager::update_skill(girl, Skill::Magic, 1);
        }
        push_text(&mut result.events, "She operated the crystal camera.");
        result
    }

    /// One shift of the job with draws from `rng`: the outcome of `process_with` for some draws in range.
    pub fn process(&self, girl: &mut Girl, rng: &mut rand::rngs::ThreadRng) -> (result: JobResult)
        ensures
            exists|d: Seq<i32>| camera_mage_draws(old(girl)@, d) && job_state(final(girl)@, result) == #[trigger] camera_mage_outcome(old(girl)@, d),
    {
        let mut d: Vec<i32> = Vec::new();
        d.push(roll_i32(rng, 0, 100));
        self.process_with(girl, d.as_slice())
    }
}

/// Crystal purifier: she earns 15 plus a quarter of magic and intelligence, spends 10 mana, tires, gains 3 experience, and a point of magic at a draw under 20.
#[derive(Debug)]
pub struct JobCrystalPurifier;

/// What the crystal purifier job does to a girl with the given draws.
pub open spec fn crystal_purifier_outcome(g: GirlView, d: Seq<i32>) -> JobState {
    let s0 = job_start(g);
    let magic = s0.girl.skill(Skill::Magic);
    let intelligence = s0.girl.stat(Stat::Intelligence);
    let s1 = with_gold(s0, 15 + (magic + intelligence) / 4);
    let s2 = with_girl(s1, s1.girl.add_stat(Stat::Mana, -10));
    let tiredness = max_int(5 - s2.girl.stat(Stat::Constitution) / 20, 1);
    let s3 = with_girl(s2, s2.girl.add_stat(Stat::Tiredness, tiredness));
    let s4 = with_girl(s3, s3.girl.add_stat(Stat::Exp, 3));
    let s5 = if (d[0] as int) < 20 {
        let s6 = with_girl(s4, s4.girl.add_skill(Skill::Magic, 1));
        s6
    } else {
        s4
    };
    let s7 = with_event(s5, "She purified crystals for filming."@);
    s7
}

/// The draws of the crystal purifier job, each in the range it is drawn from.
pub open spec fn crystal_purifier_draws(g: GirlView, d: Seq<i32>) -> bool {
    d.len() == 1
    && 0 <= d[0] < 100
}

impl JobCrystalPurifier {
    /// The job this processes.
    pub fn job_type(&self) -> (t: JobType)
        ensures
            t == JobType::CrystalPurifier,
    {
        JobType::CrystalPurifier
    }

    /// One shift of the job with the given draws (see `crystal_purifier_outcome`).
    pub fn process_with(&self, girl: &mut Girl, d: &[i32]) -> (result: JobResult)
        requires
            crystal_purifier_draws(old(girl)@, d@),
        ensures
            job_state(final(girl)@, result) == crystal_purifier_outcome(old(girl)@, d@),
    {
        let mut result = JobResult::new();
        let magic: i32 = GirlManager::get_skill(girl, Skill::Magic);
        let intelligence: i32 = GirlManager::get_stat(girl, Stat::Intelligence);
        result.gold_earned = 15 + (magic + intelligence) / 4;
        GirlManager::update_stat(girl, Stat::Mana, -10);
        let tiredness: i32 = imax(5 - GirlManager::get_stat(girl, Stat::Constitution) / 20, 1);
        GirlManager::update_stat(girl, Stat::Tiredness, tiredness);
        GirlManager::update_stat(girl, Stat::Exp, 3);
        if d[0] < 20 {
            GirlManager::update_skill(girl, Skill::Magic, 1);
        }
        push_text(&mut result.events, "She purified crystals for filming.");
        result
    }

    /// One shift of the job with draws from `rng`: the outcome of `process_with` for some draws in range.
    pub fn process(&self, girl: &mut Girl, rng: &mut rand::rngs::ThreadRng) -> (result: JobResult)
        ensures
            exists|d: Seq<i32>| crystal_purifier_draws(old(girl)@, d) && job_state(final(girl)@, result) == #[trigger] crystal_purifier_outcome(old(girl)@, d),
    {
        let mut d: Vec<i32> = Vec::new();
        d.push(roll_i32(rng, 0, 100));
        self.process_with(girl, d.as_slice())
    }
}
/// Resting heals: the girl's base health rises by 10 and her tiredness falls
/// by 20, each kept within 0..=100, whatever the draw.
pub proof fn law_resting_heals(g: GirlView, d: Seq<i32>)
    requires
        g.stats.len() == 22,
    ensures
        resting_outcome(g, d).girl.stats[Stat::Health.spec_code()] == crate::girls::clamp(
            g.stats[Stat::Health.spec_code()] + 10,
            0,
            100,
        ),
        resting_outcome(g, d).girl.stats[Stat::Tiredness.spec_code()] == crate::girls::clamp(
            g.stats[Stat::Tiredness.spec_code()] - 20,
            0,
            100,
        ),
{
}

/// Training that is not uneventful always gives experience (3 to 7), until
/// experience reaches its maximum.
pub proof fn law_training_gives_experience(g: GirlView, d: Seq<i32>)
    requires
        g.stats.len() == 22,
        training_draws(g, d),
        d[0] >= 50,
        0 <= g.stats[Stat::Exp.spec_code()] < 32000,
    ensures
        training_outcome(g, d).girl.stats[Stat::Exp.spec_code()] > g.stats[Stat::Exp.spec_code()],
{
}

/// A barmaid always earns something: her base pay of 5 plus at least 10 from the bar.
pub proof fn law_barmaid_earns(g: GirlView, d: Seq<i32>)
    requires
        barmaid_draws(g, d),
    ensures
        barmaid_outcome(g, d).gold >= 15,
{
}

/// Bar work pays 10 plus the bar draw on top of each bar job's own pay: a
/// barmaid earns 5 + 10 + the draw, a waitress 15 + 10 + the draw (so at
/// least 25), a bar stripper 30 + 10 + the draw, and a bar whore 10 + the
/// draw + 30 + her asking price (at least 1) per customer.
pub proof fn law_bar_work_pays(g: GirlView, d: Seq<i32>)
    ensures
        barmaid_draws(g, d) ==> barmaid_outcome(g, d).gold == 15 + d[0],
        waitress_draws(g, d) ==> waitress_outcome(g, d).gold == 25 + d[0] && waitress_outcome(g, d).gold >= 25,
        stripper_draws(g, d) ==> stripper_outcome(g, d).gold == 40 + d[0],
        whore_bar_draws(g, d) ==> whore_bar_outcome(g, d).gold == 40 + d[5] + max_int(g.stat(Stat::AskPrice), 1)
            * d[0],
{
}

/// What the jobs find_regents, brew_potions, potion_tester pay, from the girl's stats and
/// skills at the start of the shift, whatever the draws.
#[verifier::spinoff_prover]
pub proof fn law_pay_of_find_regents(g: GirlView, d: Seq<i32>)
    ensures
        find_regents_draws(g, d) ==> find_regents_outcome(g, d).gold == 10 + (g.stat(Stat::Intelligence) + g.skill(Skill::Magic)) / 5,
        brew_potions_draws(g, d) ==> brew_potions_outcome(g, d).gold == 20 + (g.stat(Stat::Intelligence) + g.skill(Skill::Magic)) / 4,
        potion_tester_draws(g, d) ==> potion_tester_outcome(g, d).gold == 15,
{
}

/// What the jobs collect_bets, doctor, repair_shop pay, from the girl's stats and
/// skills at the start of the shift, whatever the draws.
#[verifier::spinoff_prover]
pub proof fn law_pay_of_collect_bets(g: GirlView, d: Seq<i32>)
    ensures
        collect_bets_draws(g, d) ==> collect_bets_outcome(g, d).gold == 15 + (g.stat(Stat::Charisma) + g.stat(Stat::Intelligence)) / 4,
        doctor_draws(g, d) ==> doctor_outcome(g, d).gold == 20 + (g.stat(Stat::Intelligence) + g.skill(Skill::Magic)) / 4,
        repair_shop_draws(g, d) ==> repair_shop_outcome(g, d).gold == 15 + g.stat(Stat::Intelligence) / 4,
{
}

/// What the jobs collect_donations, feed_poor, make_items pay, from the girl's stats and
/// skills at the start of the shift, whatever the draws.
#[verifier::spinoff_prover]
pub proof fn law_pay_of_collect_donations(g: GirlView, d: Seq<i32>)
    ensures
        collect_donations_draws(g, d) ==> collect_donations_outcome(g, d).gold == 5 + (g.stat(Stat::Charisma) + g.stat(Stat::Beauty)) / 6,
        feed_poor_draws(g, d) ==> feed_poor_outcome(g, d).gold == -10,
        make_items_draws(g, d) ==> make_items_outcome(g, d).gold == 10 + g.stat(Stat::Intelligence) / 4,
{
}

/// What the jobs sell_items, viras_plant_fucker, shroud_grower pay, from the girl's stats and
/// skills at the start of the shift, whatever the draws.
#[verifier::spinoff_prover]
pub proof fn law_pay_of_sell_items(g: GirlView, d: Seq<i32>)
    ensures
        sell_items_draws(g, d) ==> sell_items_outcome(g, d).gold == 15 + (g.stat(Stat::Charisma) + g.skill(Skill::Service)) / 4,
        viras_plant_fucker_draws(g, d) ==> viras_plant_fucker_outcome(g, d).gold == 20 + g.skill(Skill::Beastiality) / 3,
        shroud_grower_draws(g, d) ==> shroud_grower_outcome(g, d).gold == 20 + g.stat(Stat::Intelligence) / 4,
{
}

/// What the jobs fairy_duster, drug_dealer, customer_service pay, from the girl's stats and
/// skills at the start of the shift (a drug dealer nearly caught, at a first
/// draw under 5, earns nothing).
#[verifier::spinoff_prover]
pub proof fn law_pay_of_fairy_duster(g: GirlView, d: Seq<i32>)
    ensures
        fairy_duster_draws(g, d) ==> fairy_duster_outcome(g, d).gold == 25 + (g.stat(Stat::Intelligence) + g.skill(Skill::Magic)) / 5,
        drug_dealer_draws(g, d) ==> drug_dealer_outcome(g, d).gold == if d[0] < 5 {
            0
        } else {
            30 + (g.stat(Stat::Charisma) + g.stat(Stat::Intelligence)) / 4
        },
        customer_service_draws(g, d) ==> customer_service_outcome(g, d).gold == 10 + (g.skill(Skill::Service) + g.stat(Stat::Charisma)) / 5,
{
}

/// What the jobs dealer, entertainment, xxx_entertainment pay, from the girl's stats and
/// skills at the start of the shift, whatever the draws.
#[verifier::spinoff_prover]
pub proof fn law_pay_of_dealer(g: GirlView, d: Seq<i32>)
    ensures
        dealer_draws(g, d) ==> dealer_outcome(g, d).gold == 15 + g.stat(Stat::Intelligence) / 3,
        entertainment_draws(g, d) ==> entertainment_outcome(g, d).gold == 15 + (g.stat(Stat::Charisma) + g.stat(Stat::Beauty)) / 5,
        xxx_entertainment_draws(g, d) ==> xxx_entertainment_outcome(g, d).gold == 25 + (g.stat(Stat::Charisma) + g.stat(Stat::Beauty)) / 4,
{
}

/// What the jobs singer, film_beast, film_sex pay, from the girl's stats and
/// skills at the start of the shift, whatever the draws.
#[verifier::spinoff_prover]
pub proof fn law_pay_of_singer(g: GirlView, d: Seq<i32>)
    ensures
        singer_draws(g, d) ==> singer_outcome(g, d).gold == 20 + (g.stat(Stat::Charisma) + g.stat(Stat::Beauty)) / 5,
        film_beast_draws(g, d) ==> film_beast_outcome(g, d).gold == 40 + g.skill(Skill::Beastiality) / 2 + g.stat(Stat::Beauty) / 4 + g.stat(Stat::Fame) / 5,
        film_sex_draws(g, d) ==> film_sex_outcome(g, d).gold == 35 + g.skill(Skill::NormalSex) / 2 + g.stat(Stat::Beauty) / 4 + g.stat(Stat::Fame) / 5,
{
}

/// What the jobs film_anal, film_lesbian, film_bondage pay, from the girl's stats and
/// skills at the start of the shift, whatever the draws.
#[verifier::spinoff_prover]
pub proof fn law_pay_of_film_anal(g: GirlView, d: Seq<i32>)
    ensures
        film_anal_draws(g, d) ==> film_anal_outcome(g, d).gold == 40 + g.skill(Skill::Anal) / 2 + g.stat(Stat::Beauty) / 4 + g.stat(Stat::Fame) / 5,
        film_lesbian_draws(g, d) ==> film_lesbian_outcome(g, d).gold == 30 + g.skill(Skill::Lesbian) / 2 + g.stat(Stat::Beauty) / 4 + g.stat(Stat::Fame) / 5,
        film_bondage_draws(g, d) ==> film_bondage_outcome(g, d).gold == 40 + g.skill(Skill::BDSM) / 2 + g.stat(Stat::Beauty) / 4 + g.stat(Stat::Fame) / 5,
{
}

/// What the jobs fluffer, camera_mage, crystal_purifier pay, from the girl's stats and
/// skills at the start of the shift, whatever the draws.
#[verifier::spinoff_prover]
pub proof fn law_pay_of_fluffer(g: GirlView, d: Seq<i32>)
    ensures
        fluffer_draws(g, d) ==> fluffer_outcome(g, d).gold == 15 + g.skill(Skill::Service) / 3,
        camera_mage_draws(g, d) ==> camera_mage_outcome(g, d).gold == 20 + g.skill(Skill::Magic) / 3,
        crystal_purifier_draws(g, d) ==> crystal_purifier_outcome(g, d).gold == 15 + (g.skill(Skill::Magic) + g.stat(Stat::Intelligence)) / 4,
{
}


} // verus!
