//! The weekly turn: the rules it applies to each girl (which job she works
//! in a shift, resting when hurt or tired, pregnancy, aging, running away),
//! how a job's gold is booked, how the brothel gets dirty, and the events it
//! reports.
use vstd::prelude::*;
use crate::enums::{JobType, Shift, Stat, Status};
use crate::girl::{string_views, Girl, GirlView};
use crate::girls::GirlManager;
use crate::inventory::trunc_div;

verus! {

/// Events generated during turn processing.
#[derive(Debug)]
pub struct TurnEvents {
    pub events: Vec<String>,
}

impl Default for TurnEvents {
    fn default() -> (e: TurnEvents)
        ensures
            e.events@.len() == 0,
    {
        TurnEvents { events: Vec::new() }
    }
}

/// Processes a week of game simulation: reset, pre-shift updates, day shift,
/// night shift, end of week.
#[derive(Debug)]
pub struct TurnProcessor;

/// The income account a job's earnings are booked to.
#[derive(Debug, Clone, Copy, PartialEq, Eq, Structural)]
pub enum IncomeKind {
    BrothelWork,
    StreetWork,
    BarIncome,
    GamblingProfits,
    MovieIncome,
}

/// The job a girl works in a shift: her assigned job, resting when she has
/// none; none at all in the dungeon or on the run.
pub open spec fn shift_job_spec(g: GirlView, shift: Shift) -> Option<JobType> {
    let assigned = match shift {
        Shift::Day => g.job_day,
        Shift::Night => g.job_night,
    };
    let job = match assigned {
        Some(j) => j,
        None => JobType::Resting,
    };
    if job == JobType::InDungeon || job == JobType::Runaway {
        None
    } else {
        Some(job)
    }
}

/// The account of a job's earnings: street whoring, the bar jobs, the
/// gambling hall's service jobs and the film jobs have their own; everything
/// else is brothel work.
pub open spec fn income_kind_spec(job: JobType) -> IncomeKind {
    match job {
        JobType::WhoreStreets => IncomeKind::StreetWork,
        JobType::Barmaid | JobType::Waitress | JobType::Stripper | JobType::WhoreBar | JobType::Singer => {
            IncomeKind::BarIncome
        },
        JobType::Dealer | JobType::CustomerService | JobType::Entertainment | JobType::XXXEntertainment => {
            IncomeKind::GamblingProfits
        },
        JobType::FilmBeast | JobType::FilmSex | JobType::FilmAnal | JobType::FilmLesbian | JobType::FilmBondage
        | JobType::Fluffer | JobType::CameraMage | JobType::CrystalPurifier => IncomeKind::MovieIncome,
        _ => IncomeKind::BrothelWork,
    }
}

/// The brothel's filthiness after a girl's shift: cleaning takes 5 off (not
/// below 0); any job but resting and cleaning adds 1.
pub open spec fn filthiness_after_spec(job: JobType, filthiness: int) -> int {
    let f1 = if job == JobType::Cleaning {
        if filthiness - 5 > 0 {
            filthiness - 5
        } else {
            0
        }
    } else {
        filthiness
    };
    if job != JobType::Resting && job != JobType::Cleaning {
        f1 + 1
    } else {
        f1
    }
}

/// Whether the girl is hurt or tired enough to be sent to rest: health under
/// 80 or tiredness over 80.
pub open spec fn needs_rest(g: GirlView) -> bool {
    g.stat(Stat::Health) < 80 || g.stat(Stat::Tiredness) > 80
}

/// The pre-shift rest rule. A girl who needs rest is put to resting in each
/// shift where she is not resting yet, her job there remembered. A girl who
/// does not, but rests by day with a remembered day job, gets both
/// remembered jobs back (the memory is cleared).
pub open spec fn auto_rest_spec(g: GirlView) -> GirlView {
    if needs_rest(g) {
        let g1 = if g.job_day != Some(JobType::Resting) {
            GirlView { prev_job_day: g.job_day, job_day: Some(JobType::Resting), ..g }
        } else {
            g
        };
        if g1.job_night != Some(JobType::Resting) {
            GirlView { prev_job_night: g1.job_night, job_night: Some(JobType::Resting), ..g1 }
        } else {
            g1
        }
    } else if g.job_day == Some(JobType::Resting) && g.prev_job_day is Some {
        GirlView { job_day: g.prev_job_day, prev_job_day: None, job_night: g.prev_job_night, prev_job_night: None, ..g }
    } else {
        g
    }
}

/// A week of pregnancy: a pregnant girl (weeks counted above 0) is one week
/// further; at 40 weeks she gives birth, the count goes back to 0 and the
/// pregnancy conditions are cleared. Also whether she gave birth.
pub open spec fn pregnancy_week_spec(g: GirlView) -> (GirlView, bool) {
    if g.weeks_pregnant > 0 {
        if g.weeks_pregnant + 1 >= 40 {
            (
                GirlView { weeks_pregnant: 0, ..g }.without_status(Status::Pregnant).without_status(
                    Status::PregnantByPlayer,
                ).without_status(Status::Inseminated),
                true,
            )
        } else {
            (GirlView { weeks_pregnant: (g.weeks_pregnant + 1) as i32, ..g }, false)
        }
    } else {
        (g, false)
    }
}

/// The birth announcements of a week, in the girls' order.
pub open spec fn births(gs: Seq<GirlView>) -> Seq<Seq<char>>
    decreases gs.len(),
{
    if gs.len() == 0 {
        Seq::empty()
    } else {
        births(gs.drop_last()) + if pregnancy_week_spec(gs.last()).1 {
            seq![gs.last().name + " gave birth!"@]
        } else {
            Seq::empty()
        }
    }
}

/// Every girl's pregnancy count can go one week further within `i32`.
pub open spec fn pregnancies_fit(gs: Seq<GirlView>) -> bool {
    forall|i: int| 0 <= i < gs.len() ==> (#[trigger] gs[i]).weeks_pregnant < i32::MAX
}

/// The disease check of the pre-shift updates: a girl with 10 health or less
/// catches chlamydia at a percent draw under 1, and it is reported.
pub open spec fn disease_check_spec(g: GirlView, draw: int) -> (GirlView, Seq<Seq<char>>) {
    if g.stat(Stat::Health) <= 10 && draw < 1 {
        (g.with_trait("Chlamydia"@), seq![g.name + " contracted chlamydia!"@])
    } else {
        (g, Seq::empty())
    }
}

/// The chance (in percent) that a rebellious girl tries to escape: 5 plus
/// half her rebelliousness above 50, less a tenth of the guards' power, not
/// below 0.
pub open spec fn escape_chance(rebel: int, guard_power: int) -> int {
    let c = 5 + (rebel - 50) / 2 - trunc_div(guard_power, 10);
    if c > 0 {
        c
    } else {
        0
    }
}

/// The outcome of a runaway check: a girl already on the run, or not more
/// than 50 rebellious, is left alone; otherwise, at a draw under her escape
/// chance, a slave runs away (both shifts) and a free girl threatens to
/// leave (happiness -20). The event, if any, comes with it.
pub open spec fn runaway_spec(g: GirlView, rebel: int, guard_power: int, draw: int) -> (GirlView, Seq<Seq<char>>) {
    if g.job_day == Some(JobType::Runaway) || rebel <= 50 || draw >= escape_chance(rebel, guard_power) {
        (g, Seq::empty())
    } else if g.has_status(Status::Slave) {
        (
            GirlView { job_day: Some(JobType::Runaway), job_night: Some(JobType::Runaway), ..g },
            seq![g.name + " ran away!"@],
        )
    } else {
        (g.add_stat(Stat::Happiness, -20), seq![g.name + " is threatening to leave!"@])
    }
}

fn is_job(j: Option<JobType>, t: JobType) -> (r: bool)
    ensures
        r == (j == Some(t)),
{
    match j {
        Some(x) => x == t,
        None => false,
    }
}

fn name_then(name: &String, text: &str) -> (s: String)
    ensures
        s@ == name@ + text@,
{
    let mut s = name.clone();
    s.append(text);
    s
}

fn push_event(events: &mut TurnEvents, text: String)
    ensures
        string_views(final(events).events@) == string_views(old(events).events@).push(text@),
{
    events.events.push(text);
    assert(string_views(events.events@) =~= string_views(old(events).events@).push(text@));
}

impl TurnProcessor {
    /// The job a girl works in a shift (see `shift_job_spec`).
    pub fn shift_job(girl: &Girl, shift: Shift) -> (job: Option<JobType>)
        ensures
            job == shift_job_spec(girl@, shift),
    {
        let assigned = match shift {
            Shift::Day => girl.job_day,
            Shift::Night => girl.job_night,
        };
        let job = match assigned {
            Some(j) => j,
            None => JobType::Resting,
        };
        match job {
            JobType::InDungeon | JobType::Runaway => None,
            _ => Some(job),
        }
    }

    /// The account a job's earnings are booked to (see `income_kind_spec`).
    pub fn income_kind(job: JobType) -> (k: IncomeKind)
        ensures
            k == income_kind_spec(job),
    {
        match job {
            JobType::WhoreStreets => IncomeKind::StreetWork,
            JobType::Barmaid | JobType::Waitress | JobType::Stripper | JobType::WhoreBar | JobType::Singer => {
                IncomeKind::BarIncome
            },
            JobType::Dealer | JobType::CustomerService | JobType::Entertainment | JobType::XXXEntertainment => {
                IncomeKind::GamblingProfits
            },
            JobType::FilmBeast | JobType::FilmSex | JobType::FilmAnal | JobType::FilmLesbian
            | JobType::FilmBondage | JobType::Fluffer | JobType::CameraMage | JobType::CrystalPurifier => {
                IncomeKind::MovieIncome
            },
            _ => IncomeKind::BrothelWork,
        }
    }

    /// The brothel's filthiness after a girl's shift (see `filthiness_after_spec`).
    pub fn filthiness_after(job: JobType, filthiness: i32) -> (f: i32)
        requires
            job == JobType::Cleaning ==> filthiness >= i32::MIN + 5,
            job != JobType::Resting && job != JobType::Cleaning ==> filthiness < i32::MAX,
        ensures
            f == filthiness_after_spec(job, filthiness as int),
    {
        let mut f = filthiness;
        if job == JobType::Cleaning {
            f = if f - 5 > 0 {
                f - 5
            } else {
                0
            };
        }
        if job != JobType::Resting && job != JobType::Cleaning {
            f = f + 1;
        }
        f
    }

    /// A job event, tagged with the girl's name: `[name] event`.
    pub fn girl_event(name: &str, event: &str) -> (s: String)
        ensures
            s@ == "["@ + name@ + "] "@ + event@,
    {
        let mut s = String::from_str("[");
        s.append(name);
        s.append("] ");
        s.append(event);
        proof {
            reveal_strlit("[");
            reveal_strlit("] ");
        }
        s
    }

    /// The pre-shift rest rule (see `auto_rest_spec`).
    pub fn auto_rest(girl: &mut Girl)
        ensures
            final(girl)@ == auto_rest_spec(old(girl)@),
    {
        let health = GirlManager::get_stat(girl, Stat::Health);
        let tiredness = GirlManager::get_stat(girl, Stat::Tiredness);
        if health < 80 || tiredness > 80 {
            if !is_job(girl.job_day, JobType::Resting) {
                girl.prev_job_day = girl.job_day;
                girl.job_day = Some(JobType::Resting);
            }
            if !is_job(girl.job_night, JobType::Resting) {
                girl.prev_job_night = girl.job_night;
                girl.job_night = Some(JobType::Resting);
            }
        } else if is_job(girl.job_day, JobType::Resting) && girl.prev_job_day.is_some() {
            girl.job_day = girl.prev_job_day;
            girl.prev_job_day = None;
            girl.job_night = girl.prev_job_night;
            girl.prev_job_night = None;
        }
    }

    /// A girl grows a year older (age +1) in the weeks that are a multiple of 52.
    pub fn age_girl(girl: &mut Girl, week: u32)
        ensures
            final(girl)@ == if week % 52 == 0 {
                old(girl)@.add_stat(Stat::Age, 1)
            } else {
                old(girl)@
            },
    {
        if week % 52 == 0 {
            GirlManager::update_stat(girl, Stat::Age, 1);
        }
    }

    /// A week of pregnancy for one girl (see `pregnancy_week_spec`); returns
    /// whether she gave birth.
    pub fn pregnancy_week(girl: &mut Girl) -> (gave_birth: bool)
        requires
            old(girl).weeks_pregnant < i32::MAX,
        ensures
            (final(girl)@, gave_birth) == pregnancy_week_spec(old(girl)@),
    {
        if girl.weeks_pregnant > 0 {
            girl.weeks_pregnant = girl.weeks_pregnant + 1;
            if girl.weeks_pregnant >= 40 {
                girl.weeks_pregnant = 0;
                GirlManager::remove_status(girl, Status::Pregnant);
                GirlManager::remove_status(girl, Status::PregnantByPlayer);
                GirlManager::remove_status(girl, Status::Inseminated);
                return true;
            }
        }
        false
    }

    /// The end-of-week pregnancy step for every girl, in order; each birth is
    /// announced (`<name> gave birth!`).
    pub fn progress_pregnancies(girls: &mut Vec<Girl>, events: &mut TurnEvents)
        requires
            pregnancies_fit(old(girls)@.map_values(|g: Girl| g@)),
        ensures
            final(girls)@.len() == old(girls)@.len(),
            forall|i: int|
                0 <= i < old(girls)@.len() ==> (#[trigger] final(girls)@[i])@ == pregnancy_week_spec(
                    old(girls)@[i]@,
                ).0,
            string_views(final(events).events@) == string_views(old(events).events@) + births(
                old(girls)@.map_values(|g: Girl| g@),
            ),
    {
        let ghost orig = girls@.map_values(|g: Girl| g@);
        let ghost ev0 = string_views(events.events@);
        let mut rest: Vec<Girl> = Vec::new();
        std::mem::swap(&mut rest, girls);
        let ghost all = rest@;
        let n = rest.len();
        let mut k: usize = 0;
        while rest.len() > 0
            invariant
                all.map_values(|g: Girl| g@) == orig,
                pregnancies_fit(orig),
                n == all.len(),
                k + rest@.len() == n,
                rest@ == all.subrange(k as int, n as int),
                girls@.len() == k,
                forall|i: int| 0 <= i < k ==> (#[trigger] girls@[i])@ == pregnancy_week_spec(all[i]@).0,
                string_views(events.events@) == ev0 + births(orig.take(k as int)),
            decreases rest.len(),
        {
            let mut g = rest.remove(0);
            assert(g == all[k as int]);
            assert(rest@ =~= all.subrange(k + 1, n as int));
            assert(orig[k as int] == g@);
            let ghost before = g@;
            let born = Self::pregnancy_week(&mut g);
            assert(orig.take(k + 1).drop_last() =~= orig.take(k as int));
            assert(orig.take(k + 1).last() == before);
            if born {
                let text = name_then(&g.name, " gave birth!");
                proof {
                    assert(g@.name == before.name) by {
                        assert(before.weeks_pregnant + 1 >= 40);
                    }
                }
                push_event(events, text);
                assert(string_views(events.events@) =~= ev0 + births(orig.take(k + 1)));
            } else {
                assert(births(orig.take(k + 1)) =~= births(orig.take(k as int)));
            }
            let ghost pre = girls@;
            girls.push(g);
            assert forall|i: int| 0 <= i < k + 1 implies (#[trigger] girls@[i])@ == pregnancy_week_spec(all[i]@).0 by {
                if i < k {
                    assert(girls@[i] == pre[i]);
                }
            }
            k = k + 1;
        }
        assert(orig.take(n as int) =~= orig);
    }

    /// The disease check for one girl with a percent draw (see `disease_check_spec`).
    pub fn disease_check(girl: &mut Girl, draw: i32, events: &mut TurnEvents)
        ensures
            final(girl)@ == disease_check_spec(old(girl)@, draw as int).0,
            string_views(final(events).events@) == string_views(old(events).events@) + disease_check_spec(
                old(girl)@,
                draw as int,
            ).1,
    {
        if GirlManager::get_stat(girl, Stat::Health) <= 10 && draw < 1 {
            proof {
                reveal_strlit("Chlamydia");
            }
            GirlManager::add_trait(girl, "Chlamydia");
            let text = name_then(&girl.name, " contracted chlamydia!");
            push_event(events, text);
            assert(string_views(events.events@) =~= string_views(old(events).events@) + disease_check_spec(
                old(girl)@,
                draw as int,
            ).1);
        } else {
            assert(string_views(events.events@) =~= string_views(old(events).events@) + Seq::<Seq<char>>::empty());
        }
    }

    /// A runaway check for one girl, given her rebelliousness, the guards'
    /// power and a percent draw (see `runaway_spec`); the event, if any, is added.
    pub fn runaway_check(girl: &mut Girl, rebel: i32, guard_power: i32, draw: i32, events: &mut TurnEvents)
        ensures
            final(girl)@ == runaway_spec(old(girl)@, rebel as int, guard_power as int, draw as int).0,
            string_views(final(events).events@) == string_views(old(events).events@) + runaway_spec(
                old(girl)@,
                rebel as int,
                guard_power as int,
                draw as int,
            ).1,
    {
        if is_job(girl.job_day, JobType::Runaway) || rebel <= 50 {
            assert(string_views(events.events@) =~= string_views(old(events).events@) + Seq::<Seq<char>>::empty());
            return;
        }
        let chance: i32 = 5 + (rebel - 50) / 2 - guard_power / 10;
        let adjusted: i32 = if chance > 0 {
            chance
        } else {
            0
        };
        if draw < adjusted {
            if GirlManager::has_status(girl, Status::Slave) {
                girl.job_day = Some(JobType::Runaway);
                girl.job_night = Some(JobType::Runaway);
                let text = name_then(&girl.name, " ran away!");
                push_event(events, text);
            } else {
                let text = name_then(&girl.name, " is threatening to leave!");
                GirlManager::update_stat(girl, Stat::Happiness, -20);
                push_event(events, text);
            }
            assert(string_views(events.events@) =~= string_views(old(events).events@) + runaway_spec(
                old(girl)@,
                rebel as int,
                guard_power as int,
                draw as int,
            ).1);
        } else {
            assert(string_views(events.events@) =~= string_views(old(events).events@) + Seq::<Seq<char>>::empty());
        }
    }
}

/// A girl sent to rest because she was hurt or tired gets her day and night
/// jobs back once she has recovered.
pub proof fn law_rest_then_recovery_restores_jobs(g: GirlView, h: GirlView)
    requires
        g.job_day is Some,
        g.job_day != Some(JobType::Resting),
        g.job_night != Some(JobType::Resting),
        needs_rest(g),
        h.job_day == auto_rest_spec(g).job_day,
        h.job_night == auto_rest_spec(g).job_night,
        h.prev_job_day == auto_rest_spec(g).prev_job_day,
        h.prev_job_night == auto_rest_spec(g).prev_job_night,
        !needs_rest(h),
    ensures
        auto_rest_spec(g).job_day == Some(JobType::Resting),
        auto_rest_spec(g).job_night == Some(JobType::Resting),
        auto_rest_spec(h).job_day == g.job_day,
        auto_rest_spec(h).job_night == g.job_night,
{
}

/// A girl on the run, or one not more than 50 rebellious, never changes in a
/// runaway check; and no check ever makes a free girl a runaway.
pub proof fn law_runaway_only_slaves_run(g: GirlView, rebel: int, guard_power: int, draw: int)
    ensures
        (g.job_day == Some(JobType::Runaway) || rebel <= 50) ==> runaway_spec(g, rebel, guard_power, draw).0 == g,
        !g.has_status(Status::Slave) ==> runaway_spec(g, rebel, guard_power, draw).0.job_day == g.job_day,
{
}

} // verus!
