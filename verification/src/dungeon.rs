//! The dungeon: prisoners held there, their weekly treatment, and torture.
use vstd::prelude::*;
use crate::enums::{DungeonReason, Skill, Stat, Status};
use crate::girl::{blank_view, string_views, Girl, GirlView};
use crate::girls::GirlManager;
use crate::lua_text::{int_str, push_int};
use crate::rng::roll_i32;

verus! {

/// A prisoner in the dungeon.
#[derive(Debug)]
pub struct DungeonInmate {
    pub girl: Girl,
    pub reason: DungeonReason,
    pub weeks: u32,
    pub is_customer: bool,
    pub fed: bool,
}

/// Model of a prisoner.
pub struct InmateView {
    pub girl: GirlView,
    pub reason: DungeonReason,
    pub weeks: u32,
    pub is_customer: bool,
    pub fed: bool,
}

impl View for DungeonInmate {
    type V = InmateView;

    open spec fn view(&self) -> InmateView {
        InmateView {
            girl: self.girl@,
            reason: self.reason,
            weeks: self.weeks,
            is_customer: self.is_customer,
            fed: self.fed,
        }
    }
}

/// The models of a list of prisoners.
pub open spec fn inmates_view(v: Seq<DungeonInmate>) -> Seq<InmateView> {
    v.map_values(|i: DungeonInmate| i@)
}

/// Manages the dungeon/prison.
#[derive(Debug)]
pub struct DungeonManager {
    pub inmates: Vec<DungeonInmate>,
}

/// The model of a customer taken prisoner: a blank girl named "Customer" with base health 100.
pub open spec fn customer_view() -> GirlView {
    GirlView {
        name: "Customer"@,
        stats: blank_view().stats.update(Stat::Health.spec_code(), 100i32),
        ..blank_view()
    }
}

/// A prisoner is still alive: effective health above zero.
pub open spec fn is_alive(i: InmateView) -> bool {
    i.girl.stat(Stat::Health) > 0
}

/// A week in the dungeon for a customer: starved customers lose 5 health.
pub open spec fn customer_week(g: GirlView, fed: bool) -> GirlView {
    if fed {
        g
    } else {
        g.add_stat(Stat::Health, -5)
    }
}

/// A week in the dungeon for a fed slave.
pub open spec fn fed_slave_week(g: GirlView) -> GirlView {
    g.add_stat(Stat::Confidence, -2).add_stat(Stat::Obedience, 2).add_stat(Stat::Spirit, -2).add_stat(
        Stat::PCHate,
        1,
    ).add_stat(Stat::PCLove, -1).add_stat(Stat::PCFear, 4).add_stat(Stat::Tiredness, -10).add_stat(
        Stat::Happiness,
        -1,
    ).add_stat(Stat::Health, 4).add_stat(Stat::Mana, 5).add_skill(Skill::BDSM, 1)
}

/// A week in the dungeon for a fed free girl.
pub open spec fn fed_free_week(g: GirlView) -> GirlView {
    g.add_stat(Stat::Confidence, -1).add_stat(Stat::Obedience, 1).add_stat(Stat::Spirit, -1).add_stat(
        Stat::PCHate,
        1,
    ).add_stat(Stat::PCLove, -4).add_stat(Stat::PCFear, 4).add_stat(Stat::Tiredness, -10).add_stat(
        Stat::Happiness,
        -5,
    ).add_stat(Stat::Health, 1).add_stat(Stat::Mana, 5).add_skill(Skill::BDSM, 1)
}

/// A week in the dungeon for a starved slave.
pub open spec fn starved_slave_week(g: GirlView) -> GirlView {
    g.add_stat(Stat::Confidence, -2).add_stat(Stat::Obedience, 2).add_stat(Stat::Spirit, -2).add_stat(
        Stat::PCHate,
        1,
    ).add_stat(Stat::PCLove, -2).add_stat(Stat::PCFear, 4).add_stat(Stat::Tiredness, 1).add_stat(
        Stat::Happiness,
        -3,
    ).add_stat(Stat::Health, -5).add_stat(Stat::Mana, 1).add_skill(Skill::BDSM, 2)
}

/// A week in the dungeon for a starved free girl.
pub open spec fn starved_free_week(g: GirlView) -> GirlView {
    g.add_stat(Stat::Confidence, -2).add_stat(Stat::Obedience, 2).add_stat(Stat::Spirit, -2).add_stat(
        Stat::PCHate,
        4,
    ).add_stat(Stat::PCLove, -5).add_stat(Stat::PCFear, 6).add_stat(Stat::Tiredness, 2).add_stat(
        Stat::Happiness,
        -5,
    ).add_stat(Stat::Health, -5).add_stat(Stat::Mana, 1).add_skill(Skill::BDSM, 2)
}

/// A week in the dungeon for one prisoner: one more week served, and the
/// stat changes for customers, fed or starved slaves, fed or starved free girls.
pub open spec fn inmate_week(i: InmateView) -> InmateView {
    let g = i.girl;
    let g2 = if i.is_customer {
        customer_week(g, i.fed)
    } else if i.fed {
        if g.has_status(Status::Slave) {
            fed_slave_week(g)
        } else {
            fed_free_week(g)
        }
    } else {
        if g.has_status(Status::Slave) {
            starved_slave_week(g)
        } else {
            starved_free_week(g)
        }
    };
    InmateView { girl: g2, weeks: (i.weeks + 1) as u32, ..i }
}

/// The dungeon after a week: the dead taken out, every other prisoner's week applied, order kept.
pub open spec fn dungeon_week(s: Seq<InmateView>) -> Seq<InmateView>
    decreases s.len(),
{
    if s.len() == 0 {
        s
    } else {
        let head = if is_alive(s[0]) {
            seq![inmate_week(s[0])]
        } else {
            Seq::empty()
        };
        head + dungeon_week(s.drop_first())
    }
}

/// The weekly update can count one more week for every living prisoner.
pub open spec fn week_counts_fit(s: Seq<InmateView>) -> bool {
    forall|i: int| 0 <= i < s.len() && is_alive(#[trigger] s[i]) ==> s[i].weeks < u32::MAX
}

fn apply_inmate_week(inmate: &mut DungeonInmate)
    requires
        old(inmate).weeks < u32::MAX,
    ensures
        final(inmate)@ == inmate_week(old(inmate)@),
{
    inmate.weeks = inmate.weeks + 1;
    if inmate.is_customer {
        if !inmate.fed {
            GirlManager::update_stat(&mut inmate.girl, Stat::Health, -5);
        }
        return;
    }
    let is_slave = GirlManager::has_status(&inmate.girl, Status::Slave);
    let g = &mut inmate.girl;
    if inmate.fed {
        if is_slave {
            GirlManager::update_stat(g, Stat::Confidence, -2);
            GirlManager::update_stat(g, Stat::Obedience, 2);
            GirlManager::update_stat(g, Stat::Spirit, -2);
            GirlManager::update_stat(g, Stat::PCHate, 1);
            GirlManager::update_stat(g, Stat::PCLove, -1);
            GirlManager::update_stat(g, Stat::PCFear, 4);
            GirlManager::update_stat(g, Stat::Tiredness, -10);
            GirlManager::update_stat(g, Stat::Happiness, -1);
            GirlManager::update_stat(g, Stat::Health, 4);
            GirlManager::update_stat(g, Stat::Mana, 5);
            GirlManager::update_skill(g, Skill::BDSM, 1);
        } else {
            GirlManager::update_stat(g, Stat::Confidence, -1);
            GirlManager::update_stat(g, Stat::Obedience, 1);
            GirlManager::update_stat(g, Stat::Spirit, -1);
            GirlManager::update_stat(g, Stat::PCHate, 1);
            GirlManager::update_stat(g, Stat::PCLove, -4);
            GirlManager::update_stat(g, Stat::PCFear, 4);
            GirlManager::update_stat(g, Stat::Tiredness, -10);
            GirlManager::update_stat(g, Stat::Happiness, -5);
            GirlManager::update_stat(g, Stat::Health, 1);
            GirlManager::update_stat(g, Stat::Mana, 5);
            GirlManager::update_skill(g, Skill::BDSM, 1);
        }
    } else {
        if is_slave {
            GirlManager::update_stat(g, Stat::Confidence, -2);
            GirlManager::update_stat(g, Stat::Obedience, 2);
            GirlManager::update_stat(g, Stat::Spirit, -2);
            GirlManager::update_stat(g, Stat::PCHate, 1);
            GirlManager::update_stat(g, Stat::PCLove, -2);
            GirlManager::update_stat(g, Stat::PCFear, 4);
            GirlManager::update_stat(g, Stat::Tiredness, 1);
            GirlManager::update_stat(g, Stat::Happiness, -3);
            GirlManager::update_stat(g, Stat::Health, -5);
            GirlManager::update_stat(g, Stat::Mana, 1);
            GirlManager::update_skill(g, Skill::BDSM, 2);
        } else {
            GirlManager::update_stat(g, Stat::Confidence, -2);
            GirlManager::update_stat(g, Stat::Obedience, 2);
            GirlManager::update_stat(g, Stat::Spirit, -2);
            GirlManager::update_stat(g, Stat::PCHate, 4);
            GirlManager::update_stat(g, Stat::PCLove, -5);
            GirlManager::update_stat(g, Stat::PCFear, 6);
            GirlManager::update_stat(g, Stat::Tiredness, 2);
            GirlManager::update_stat(g, Stat::Happiness, -5);
            GirlManager::update_stat(g, Stat::Health, -5);
            GirlManager::update_stat(g, Stat::Mana, 1);
            GirlManager::update_skill(g, Skill::BDSM, 2);
        }
    }
}

impl DungeonManager {
    /// An empty dungeon.
    pub fn new() -> (d: DungeonManager)
        ensures
            d.inmates@.len() == 0,
    {
        DungeonManager { inmates: Vec::new() }
    }

    /// Add a girl to the dungeon: fed, no weeks served yet.
    pub fn add_girl(&mut self, girl: Girl, reason: DungeonReason)
        ensures
            final(self).inmates@ == old(self).inmates@.push(
                DungeonInmate { girl, reason, weeks: 0, is_customer: false, fed: true },
            ),
            inmates_view(final(self).inmates@) == inmates_view(old(self).inmates@).push(
                InmateView { girl: girl@, reason, weeks: 0, is_customer: false, fed: true },
            ),
    {
        self.inmates.push(DungeonInmate { girl, reason, weeks: 0, is_customer: false, fed: true });
        assert(inmates_view(self.inmates@) =~= inmates_view(old(self).inmates@).push(
            InmateView { girl: girl@, reason, weeks: 0, is_customer: false, fed: true },
        ));
    }

    /// Add a customer prisoner: a blank girl named "Customer" with 100 health, fed.
    pub fn add_customer(&mut self, reason: DungeonReason)
        ensures
            inmates_view(final(self).inmates@) == inmates_view(old(self).inmates@).push(
                InmateView { girl: customer_view(), reason, weeks: 0, is_customer: true, fed: true },
            ),
    {
        let mut girl = Girl::new_blank();
        girl.name = String::from_str("Customer");
        girl.stats[Stat::Health.code()] = 100;
        proof {
            reveal_strlit("Customer");
        }
        assert(girl@ =~= customer_view());
        self.inmates.push(DungeonInmate { girl, reason, weeks: 0, is_customer: true, fed: true });
        assert(inmates_view(self.inmates@) =~= inmates_view(old(self).inmates@).push(
            InmateView { girl: customer_view(), reason, weeks: 0, is_customer: true, fed: true },
        ));
    }
}


/// The positions of the girls (not customers) among the prisoners, in order.
pub open spec fn girl_positions(s: Seq<InmateView>) -> Seq<int>
    decreases s.len(),
{
    if s.len() == 0 {
        Seq::empty()
    } else {
        let r = girl_positions(s.drop_last());
        if s.last().is_customer {
            r
        } else {
            r.push(s.len() - 1)
        }
    }
}

impl DungeonManager {
    /// Release the prisoner at `index`: she leaves the dungeon, and a girl
    /// (not a customer) is handed back. Out of range, nothing happens.
    pub fn release(&mut self, index: usize) -> (r: Option<Girl>)
        ensures
            index < old(self).inmates@.len() ==> {
                &&& final(self).inmates@ == old(self).inmates@.remove(index as int)
                &&& r == if old(self).inmates@[index as int].is_customer {
                    None
                } else {
                    Some(old(self).inmates@[index as int].girl)
                }
            },
            index >= old(self).inmates@.len() ==> r is None && final(self).inmates@ == old(self).inmates@,
    {
        if index < self.inmates.len() {
            let inmate = self.inmates.remove(index);
            if !inmate.is_customer {
                Some(inmate.girl)
            } else {
                None
            }
        } else {
            None
        }
    }

    /// Total number of prisoners.
    pub fn num_inmates(&self) -> (n: usize)
        ensures
            n == self.inmates@.len(),
    {
        self.inmates.len()
    }

    /// The girl prisoners (not customers), each with her position, in order.
    pub fn girl_inmates(&self) -> (r: Vec<(usize, &DungeonInmate)>)
        ensures
            r@.len() == girl_positions(inmates_view(self.inmates@)).len(),
            forall|k: int|
                0 <= k < r@.len() ==> {
                    &&& #[trigger] r@[k].0 == girl_positions(inmates_view(self.inmates@))[k]
                    &&& *r@[k].1 == self.inmates@[r@[k].0 as int]
                },
    {
        let ghost s = inmates_view(self.inmates@);
        let mut r: Vec<(usize, &DungeonInmate)> = Vec::new();
        let n = self.inmates.len();
        let mut i: usize = 0;
        while i < n
            invariant
                n == self.inmates@.len(),
                s == inmates_view(self.inmates@),
                0 <= i <= n,
                r@.len() == girl_positions(s.take(i as int)).len(),
                forall|k: int|
                    0 <= k < r@.len() ==> {
                        &&& #[trigger] r@[k].0 == girl_positions(s.take(i as int))[k]
                        &&& *r@[k].1 == self.inmates@[r@[k].0 as int]
                    },
            decreases n - i,
        {
            assert(s.take(i + 1).drop_last() =~= s.take(i as int));
            assert(s.take(i + 1).last() == s[i as int]);
            let inmate = &self.inmates[i];
            if !inmate.is_customer {
                r.push((i, inmate));
            }
            i = i + 1;
        }
        assert(s.take(n as int) =~= s);
        r
    }

    /// One week in the dungeon: the dead are taken out first, then every
    /// remaining prisoner serves one more week with its stat changes (see
    /// `inmate_week`); the order of the prisoners is kept.
    pub fn process_week(&mut self)
        requires
            week_counts_fit(inmates_view(old(self).inmates@)),
        ensures
            inmates_view(final(self).inmates@) == dungeon_week(inmates_view(old(self).inmates@)),
    {
        let mut rest: Vec<DungeonInmate> = Vec::new();
        std::mem::swap(&mut rest, &mut self.inmates);
        let ghost orig = inmates_view(rest@);
        assert(inmates_view(self.inmates@) =~= Seq::<InmateView>::empty());
        while rest.len() > 0
            invariant
                inmates_view(self.inmates@) + dungeon_week(inmates_view(rest@)) == dungeon_week(orig),
                week_counts_fit(inmates_view(rest@)),
            decreases rest.len(),
        {
            let ghost before = inmates_view(rest@);
            let mut inmate = rest.remove(0);
            assert(inmates_view(rest@) =~= before.drop_first());
            assert(before[0] == inmate@);
            let ghost done = inmates_view(self.inmates@);
            if GirlManager::get_stat(&inmate.girl, Stat::Health) > 0 {
                apply_inmate_week(&mut inmate);
                self.inmates.push(inmate);
                assert(inmates_view(self.inmates@) =~= done.push(inmate@));
                assert(done.push(inmate@) + dungeon_week(before.drop_first()) =~= done + dungeon_week(before));
            } else {
                assert(dungeon_week(before) =~= dungeon_week(before.drop_first()));
            }
            assert forall|i: int| 0 <= i < inmates_view(rest@).len() && is_alive(#[trigger] inmates_view(rest@)[i]) implies inmates_view(rest@)[i].weeks < u32::MAX by {
                assert(inmates_view(rest@)[i] == before[i + 1]);
            }
        }
        assert(dungeon_week(inmates_view(rest@)) =~= Seq::<InmateView>::empty());
        assert(inmates_view(self.inmates@) =~= inmates_view(self.inmates@) + Seq::<InmateView>::empty());
    }
}


/// The random draws of one torture session, each as `gen_range` would give it:
/// `injury`, `scar`, `miscarriage`, `broken_will`, `masochist` and `mind_fucked`
/// in 0..100, `hp_loss` in 5..=14, `scar_kind` in 0..3.
#[derive(Debug, Clone, Copy)]
pub struct TortureRolls {
    pub injury: i32,
    pub hp_loss: i32,
    pub scar: i32,
    pub scar_kind: i32,
    pub miscarriage: i32,
    pub broken_will: i32,
    pub masochist: i32,
    pub mind_fucked: i32,
}

/// Each draw lies in the range it is drawn from.
pub open spec fn rolls_in_range(r: TortureRolls) -> bool {
    &&& 0 <= r.injury < 100
    &&& 5 <= r.hp_loss < 15
    &&& 0 <= r.scar < 100
    &&& 0 <= r.scar_kind < 3
    &&& 0 <= r.miscarriage < 100
    &&& 0 <= r.broken_will < 100
    &&& 0 <= r.masochist < 100
    &&& 0 <= r.mind_fucked < 100
}

/// Heavy torture, for a girl with more than 10 health.
pub open spec fn heavy_torture(g: GirlView) -> GirlView {
    g.add_stat(Stat::Health, -5).add_stat(Stat::Happiness, -5).add_stat(Stat::Constitution, 1).add_stat(
        Stat::Confidence,
        -5,
    ).add_stat(Stat::Obedience, 10).add_stat(Stat::Spirit, -5).add_stat(Stat::Tiredness, -5).add_stat(
        Stat::PCHate,
        3,
    ).add_stat(Stat::PCLove, -5).add_stat(Stat::PCFear, 7).add_skill(Skill::BDSM, 1)
}

/// Safer torture, for a girl with 10 health or less.
pub open spec fn light_torture(g: GirlView) -> GirlView {
    g.add_stat(Stat::Happiness, -2).add_stat(Stat::Confidence, -2).add_stat(Stat::Obedience, 4).add_stat(
        Stat::Spirit,
        -2,
    ).add_stat(Stat::Tiredness, -2).add_stat(Stat::PCHate, 1).add_stat(Stat::PCLove, -2).add_stat(
        Stat::PCFear,
        3,
    )
}

/// Injury chance in percent: 3, doubled for a Fragile girl, then halved (rounding down) for a Tough one.
pub open spec fn injury_chance(g: GirlView) -> int {
    let c = if g.has_trait("Fragile"@) {
        6int
    } else {
        3int
    };
    if g.has_trait("Tough"@) {
        c / 2
    } else {
        c
    }
}

/// The scar trait for a scar draw: 0 small, 1 cool, anything else horrific.
pub open spec fn scar_trait(kind: int) -> Seq<char> {
    if kind == 0 {
        "Small Scars"@
    } else if kind == 1 {
        "Cool Scars"@
    } else {
        "Horrific Scars"@
    }
}

/// The event reported for a scar draw.
pub open spec fn scar_event(kind: int) -> Seq<char> {
    if kind == 0 {
        "Girl received small scars"@
    } else if kind == 1 {
        "Girl received cool scars"@
    } else {
        "Girl received horrific scars"@
    }
}

/// Whether the girl is pregnant, by anyone.
pub open spec fn is_pregnant(g: GirlView) -> bool {
    g.has_status(Status::Pregnant) || g.has_status(Status::PregnantByPlayer)
}

/// The event reported for an injury costing `hp` health.
pub open spec fn injury_event(hp: int) -> Seq<char> {
    "Girl was injured: -"@ + int_str(hp) + " HP"@
}

/// The injury step: when the injury draw is under the chance, she loses
/// `hp_loss` health, may take a scar, may miscarry, and the injury is reported.
pub open spec fn injure(g: GirlView, ev: Seq<Seq<char>>, chance: int, r: TortureRolls) -> (GirlView, Seq<Seq<char>>) {
    if r.injury < chance {
        let g1 = g.add_stat(Stat::Health, -r.hp_loss);
        let (g2, ev2) = if r.scar < chance * 2 {
            (g1.with_trait(scar_trait(r.scar_kind as int)), ev.push(scar_event(r.scar_kind as int)))
        } else {
            (g1, ev)
        };
        let (g3, ev3) = if chance * 2 > r.miscarriage && is_pregnant(g2) {
            (
                GirlView {
                    weeks_pregnant: 0,
                    ..g2.without_status(Status::Pregnant).without_status(Status::PregnantByPlayer)
                },
                ev2.push("Girl suffered a miscarriage"@),
            )
        } else {
            (g2, ev2)
        };
        (g3, ev3.push(injury_event(r.hp_loss as int)))
    } else {
        (g, ev)
    }
}

/// A trait-gain chance: halved (toward zero) when a girl, not the player, tortures.
pub open spec fn gain_chance(base: int, girl_torturer: bool) -> int {
    if girl_torturer {
        crate::inventory::trunc_div(base, 2)
    } else {
        base
    }
}

/// A possible trait gain: when eligible, the draw is under the chance and she
/// lacks the trait, she gains it and the event is reported.
pub open spec fn maybe_gain(
    g: GirlView,
    ev: Seq<Seq<char>>,
    eligible: bool,
    chance: int,
    roll: int,
    name: Seq<char>,
    event: Seq<char>,
) -> (GirlView, Seq<Seq<char>>) {
    if eligible && roll < chance && !g.has_trait(name) {
        (g.with_trait(name), ev.push(event))
    } else {
        (g, ev)
    }
}

/// The week modifier of the trait-gain chances: weeks served (as `i32`) times the torture modifier.
pub open spec fn week_mod(i: InmateView, torture_mod: i32) -> int {
    (i.weeks as i32) * torture_mod
}

/// The stat changes of a session: heavy above 10 health, light otherwise, with the event that says which.
pub open spec fn torture_stats(g0: GirlView) -> (GirlView, Seq<Seq<char>>) {
    if g0.stat(Stat::Health) > 10 {
        (heavy_torture(g0), seq!["Heavy torture applied"@])
    } else {
        (light_torture(g0), seq!["Light torture applied (low health)"@])
    }
}

/// The girl and events after the stat changes and the injury step.
pub open spec fn torture_before_gains(i: InmateView, r: TortureRolls) -> (GirlView, Seq<Seq<char>>) {
    let (g1, ev1) = torture_stats(GirlView { tortured_today: true, ..i.girl });
    injure(g1, ev1, injury_chance(g1), r)
}

/// Whether the masochist or the mind-fucked chance is computed (each adds 10 to the week modifier).
pub open spec fn late_gains_checked(g: GirlView) -> bool {
    g.skill(Skill::BDSM) > 30 || g.stat(Stat::Health) < 10
}

/// The arithmetic of a session stays within `i32`, as the game computes it.
pub open spec fn torture_fits(i: InmateView, torture_mod: i32, r: TortureRolls) -> bool {
    let wm = week_mod(i, torture_mod);
    &&& i32::MIN <= wm <= i32::MAX
    &&& late_gains_checked(torture_before_gains(i, r).0) ==> wm + 10 <= i32::MAX
}

/// The trait-gain step after the injury step, with week modifier `wm`:
/// Broken Will (spirit and health under 20), Masochist (BDSM over 30) and
/// Mind Fucked (health under 10), in that order.
pub open spec fn trait_gains(g2: GirlView, ev2: Seq<Seq<char>>, wm: int, girl_t: bool, r: TortureRolls) -> (GirlView, Seq<Seq<char>>) {
    let spirit = g2.stat(Stat::Spirit);
    let health = g2.stat(Stat::Health);
    let (g3, ev3) = maybe_gain(
        g2,
        ev2,
        spirit < 20 && health < 20,
        gain_chance(5 + crate::inventory::trunc_div(wm, 2), girl_t),
        r.broken_will as int,
        "Broken Will"@,
        "Girl's will has been broken!"@,
    );
    let (g4, ev4) = maybe_gain(
        g3,
        ev3,
        g3.skill(Skill::BDSM) > 30,
        gain_chance(10 + wm, girl_t),
        r.masochist as int,
        "Masochist"@,
        "Girl has become a masochist"@,
    );
    maybe_gain(
        g4,
        ev4,
        health < 10,
        gain_chance(10 + wm, girl_t),
        r.mind_fucked as int,
        "Mind Fucked"@,
        "Girl has been mind fucked"@,
    )
}

/// One torture session on a prisoner girl, with the given draws: the girl
/// afterwards, and the events reported, in order.
pub open spec fn torture_girl(i: InmateView, torture_mod: i32, is_player: bool, r: TortureRolls) -> (GirlView, Seq<Seq<char>>) {
    let (g2, ev2) = torture_before_gains(i, r);
    trait_gains(g2, ev2, week_mod(i, torture_mod), !is_player, r)
}

/// Whether a session on the prisoner at `index` goes ahead: she exists, is no
/// customer and was not tortured today.
pub open spec fn torture_proceeds(s: Seq<InmateView>, index: int) -> bool {
    0 <= index < s.len() && !s[index].is_customer && !s[index].girl.tortured_today
}

/// The outcome of a torture request with the given draws: the prisoners before
/// and after, and the events. A request that does not go ahead changes nothing
/// and reports nothing.
pub open spec fn torture_result(
    before: Seq<InmateView>,
    after: Seq<InmateView>,
    events: Seq<Seq<char>>,
    index: int,
    torture_mod: i32,
    is_player: bool,
    r: TortureRolls,
) -> bool {
    if torture_proceeds(before, index) {
        let (g, ev) = torture_girl(before[index], torture_mod, is_player, r);
        &&& after == before.update(index, InmateView { girl: g, ..before[index] })
        &&& events == ev
    } else {
        &&& after == before
        &&& events.len() == 0
    }
}

fn push_event(events: &mut Vec<String>, text: &str)
    ensures
        string_views(final(events)@) == string_views(old(events)@).push(text@),
{
    events.push(String::from_str(text));
    assert(string_views(events@) =~= string_views(old(events)@).push(text@));
}

fn half_toward_zero(x: i32) -> (r: i32)
    ensures
        r == crate::inventory::trunc_div(x as int, 2),
{
    x / 2
}

fn gain_trait(
    girl: &mut Girl,
    events: &mut Vec<String>,
    eligible: bool,
    chance: i32,
    roll: i32,
    name: &str,
    event: &str,
)
    ensures
        ({
            let (g, ev) = maybe_gain(
                old(girl)@,
                string_views(old(events)@),
                eligible,
                chance as int,
                roll as int,
                name@,
                event@,
            );
            final(girl)@ == g && string_views(final(events)@) == ev
        }),
{
    if eligible && roll < chance && !GirlManager::has_trait(girl, name) {
        GirlManager::add_trait(girl, name);
        push_event(events, event);
    }
}

fn torture_injury(girl: &mut Girl, events: &mut Vec<String>, chance: i32, rolls: &TortureRolls)
    requires
        0 <= chance <= 6,
        rolls.hp_loss > i32::MIN,
    ensures
        ({
            let (g, ev) = injure(old(girl)@, string_views(old(events)@), chance as int, *rolls);
            final(girl)@ == g && string_views(final(events)@) == ev
        }),
{
    if rolls.injury < chance {
        let hp_loss = rolls.hp_loss;
        GirlManager::update_stat(girl, Stat::Health, -hp_loss);
        if rolls.scar < chance * 2 {
            proof {
                reveal_strlit("Small Scars");
                reveal_strlit("Cool Scars");
                reveal_strlit("Horrific Scars");
            }
            if rolls.scar_kind == 0 {
                GirlManager::add_trait(girl, "Small Scars");
                push_event(events, "Girl received small scars");
            } else if rolls.scar_kind == 1 {
                GirlManager::add_trait(girl, "Cool Scars");
                push_event(events, "Girl received cool scars");
            } else {
                GirlManager::add_trait(girl, "Horrific Scars");
                push_event(events, "Girl received horrific scars");
            }
        }
        if chance * 2 > rolls.miscarriage && (GirlManager::has_status(girl, Status::Pregnant)
            || GirlManager::has_status(girl, Status::PregnantByPlayer)) {
            GirlManager::remove_status(girl, Status::Pregnant);
            GirlManager::remove_status(girl, Status::PregnantByPlayer);
            girl.weeks_pregnant = 0;
            push_event(events, "Girl suffered a miscarriage");
        }
        let mut text = String::from_str("Girl was injured: -");
        crate::lua_text::push_int(&mut text, hp_loss as i64);
        text.append(" HP");
        proof {
            reveal_strlit("Girl was injured: -");
            reveal_strlit(" HP");
        }
        assert(text@ =~= injury_event(hp_loss as int));
        let ghost pre = events@;
        events.push(text);
        assert(string_views(events@) =~= string_views(pre).push(injury_event(hp_loss as int)));
    }
}

fn apply_torture_stats(girl: &mut Girl, events: &mut Vec<String>)
    requires
        old(events)@.len() == 0,
    ensures
        ({
            let (g, ev) = torture_stats(old(girl)@);
            final(girl)@ == g && string_views(final(events)@) == ev
        }),
{
    assert(string_views(events@) =~= Seq::<Seq<char>>::empty());
    if GirlManager::get_stat(girl, Stat::Health) > 10 {
        GirlManager::update_stat(girl, Stat::Health, -5);
        GirlManager::update_stat(girl, Stat::Happiness, -5);
        GirlManager::update_stat(girl, Stat::Constitution, 1);
        GirlManager::update_stat(girl, Stat::Confidence, -5);
        GirlManager::update_stat(girl, Stat::Obedience, 10);
        GirlManager::update_stat(girl, Stat::Spirit, -5);
        GirlManager::update_stat(girl, Stat::Tiredness, -5);
        GirlManager::update_stat(girl, Stat::PCHate, 3);
        GirlManager::update_stat(girl, Stat::PCLove, -5);
        GirlManager::update_stat(girl, Stat::PCFear, 7);
        GirlManager::update_skill(girl, Skill::BDSM, 1);
        push_event(events, "Heavy torture applied");
    } else {
        GirlManager::update_stat(girl, Stat::Happiness, -2);
        GirlManager::update_stat(girl, Stat::Confidence, -2);
        GirlManager::update_stat(girl, Stat::Obedience, 4);
        GirlManager::update_stat(girl, Stat::Spirit, -2);
        GirlManager::update_stat(girl, Stat::Tiredness, -2);
        GirlManager::update_stat(girl, Stat::PCHate, 1);
        GirlManager::update_stat(girl, Stat::PCLove, -2);
        GirlManager::update_stat(girl, Stat::PCFear, 3);
        push_event(events, "Light torture applied (low health)");
    }
}

fn injury_chance_of(girl: &Girl) -> (c: i32)
    ensures
        c == injury_chance(girl@),
        0 <= c <= 6,
{
    proof {
        reveal_strlit("Fragile");
        reveal_strlit("Tough");
    }
    let mut injury_chance: i32 = 3;
    if GirlManager::has_trait(girl, "Fragile") {
        injury_chance = injury_chance * 2;
    }
    if GirlManager::has_trait(girl, "Tough") {
        injury_chance = injury_chance / 2;
    }
    injury_chance
}

fn gain_chance_of(base: i32, girl_torturer: bool) -> (c: i32)
    ensures
        c == gain_chance(base as int, girl_torturer),
{
    if girl_torturer {
        half_toward_zero(base)
    } else {
        base
    }
}

fn apply_trait_gains(girl: &mut Girl, events: &mut Vec<String>, week_mod: i32, girl_torturer: bool, rolls: &TortureRolls)
    requires
        late_gains_checked(old(girl)@) ==> week_mod + 10 <= i32::MAX,
    ensures
        ({
            let (g, ev) = trait_gains(old(girl)@, string_views(old(events)@), week_mod as int, girl_torturer, *rolls);
            final(girl)@ == g && string_views(final(events)@) == ev
        }),
{
    proof {
        reveal_strlit("Broken Will");
        reveal_strlit("Masochist");
        reveal_strlit("Mind Fucked");
    }
    let spirit = GirlManager::get_stat(girl, Stat::Spirit);
    let cur_health = GirlManager::get_stat(girl, Stat::Health);
    let bdsm0 = GirlManager::get_skill(girl, Skill::BDSM);
    let eligible = spirit < 20 && cur_health < 20;
    let mut chance: i32 = 0;
    if eligible {
        chance = gain_chance_of(5 + half_toward_zero(week_mod), girl_torturer);
    }
    gain_trait(girl, events, eligible, chance, rolls.broken_will, "Broken Will", "Girl's will has been broken!");
    let bdsm = GirlManager::get_skill(girl, Skill::BDSM);
    assert(bdsm == bdsm0);
    let eligible = bdsm > 30;
    let mut chance: i32 = 0;
    if eligible {
        chance = gain_chance_of(10 + week_mod, girl_torturer);
    }
    gain_trait(girl, events, eligible, chance, rolls.masochist, "Masochist", "Girl has become a masochist");
    let eligible = cur_health < 10;
    let mut chance: i32 = 0;
    if eligible {
        chance = gain_chance_of(10 + week_mod, girl_torturer);
    }
    gain_trait(girl, events, eligible, chance, rolls.mind_fucked, "Mind Fucked", "Girl has been mind fucked");
}

impl DungeonManager {
    /// Torture the prisoner at `index` with the given draws (see `torture_girl`),
    /// and report what happened. Nothing happens to a customer, to a girl
    /// already tortured today, or out of range.
    pub fn torture_with_rolls(
        &mut self,
        index: usize,
        torture_mod: i32,
        is_player_torturing: bool,
        rolls: &TortureRolls,
    ) -> (events: Vec<String>)
        requires
            torture_proceeds(inmates_view(old(self).inmates@), index as int) ==> torture_fits(
                inmates_view(old(self).inmates@)[index as int],
                torture_mod,
                *rolls,
            ),
            rolls.hp_loss > i32::MIN,
        ensures
            torture_result(
                inmates_view(old(self).inmates@),
                inmates_view(final(self).inmates@),
                string_views(events@),
                index as int,
                torture_mod,
                is_player_torturing,
                *rolls,
            ),
    {
        let mut events: Vec<String> = Vec::new();
        assert(string_views(events@) =~= Seq::<Seq<char>>::empty());
        if index >= self.inmates.len() {
            return events;
        }
        if self.inmates[index].is_customer || self.inmates[index].girl.tortured_today {
            return events;
        }
        let ghost iv = inmates_view(self.inmates@)[index as int];
        let mut inmate = self.inmates.remove(index);
        assert(inmate@ == iv);
        inmate.girl.tortured_today = true;
        apply_torture_stats(&mut inmate.girl, &mut events);
        let chance = injury_chance_of(&inmate.girl);
        torture_injury(&mut inmate.girl, &mut events, chance, rolls);
        assert((inmate.girl@, string_views(events@)) == torture_before_gains(iv, *rolls));
        let week_mod: i32 = (inmate.weeks as i32) * torture_mod;
        apply_trait_gains(&mut inmate.girl, &mut events, week_mod, !is_player_torturing, rolls);
        let ghost g = inmate.girl@;
        self.inmates.insert(index, inmate);
        assert(inmates_view(self.inmates@) =~= inmates_view(old(self).inmates@).update(
            index as int,
            InmateView { girl: g, ..iv },
        ));
        events
    }
}

impl DungeonManager {
    /// Torture the prisoner at `index`, drawing the session's chances from
    /// `rng`; returns the events describing what happened. Whatever the draws,
    /// the outcome is that of `torture_with_rolls` for some draws in range.
    pub fn torture(
        &mut self,
        index: usize,
        torture_mod: i32,
        is_player_torturing: bool,
        rng: &mut rand::rngs::ThreadRng,
    ) -> (events: Vec<String>)
        requires
            torture_proceeds(inmates_view(old(self).inmates@), index as int) ==> forall|r: TortureRolls|
                rolls_in_range(r) ==> #[trigger] torture_fits(
                    inmates_view(old(self).inmates@)[index as int],
                    torture_mod,
                    r,
                ),
        ensures
            exists|r: TortureRolls|
                rolls_in_range(r) && #[trigger] torture_result(
                    inmates_view(old(self).inmates@),
                    inmates_view(final(self).inmates@),
                    string_views(events@),
                    index as int,
                    torture_mod,
                    is_player_torturing,
                    r,
                ),
    {
        let rolls = TortureRolls {
            injury: roll_i32(rng, 0, 100),
            hp_loss: roll_i32(rng, 5, 15),
            scar: roll_i32(rng, 0, 100),
            scar_kind: roll_i32(rng, 0, 3),
            miscarriage: roll_i32(rng, 0, 100),
            broken_will: roll_i32(rng, 0, 100),
            masochist: roll_i32(rng, 0, 100),
            mind_fucked: roll_i32(rng, 0, 100),
        };
        assert(rolls_in_range(rolls));
        let events = self.torture_with_rolls(index, torture_mod, is_player_torturing, &rolls);
        events
    }
}

/// A girl put in the dungeon and released from her place at once comes back
/// as she went in, and the dungeon is as it was.
pub proof fn law_release_added_girl(s: Seq<DungeonInmate>, girl: Girl, reason: DungeonReason)
    ensures
        ({
            let s2 = s.push(DungeonInmate { girl, reason, weeks: 0, is_customer: false, fed: true });
            &&& s2.remove(s.len() as int) == s
            &&& !s2[s.len() as int].is_customer
            &&& s2[s.len() as int].girl == girl
        }),
{
    let s2 = s.push(DungeonInmate { girl, reason, weeks: 0, is_customer: false, fed: true });
    assert(s2.remove(s.len() as int) =~= s);
}

/// A week in the dungeon never adds prisoners; when every prisoner is alive,
/// each one stays, in place, and serves her week.
pub proof fn law_week_keeps_the_living(s: Seq<InmateView>)
    ensures
        dungeon_week(s).len() <= s.len(),
        (forall|i: int| 0 <= i < s.len() ==> is_alive(#[trigger] s[i])) ==> {
            &&& dungeon_week(s).len() == s.len()
            &&& forall|i: int| 0 <= i < s.len() ==> #[trigger] dungeon_week(s)[i] == inmate_week(s[i])
        },
    decreases s.len(),
{
    if s.len() > 0 {
        let t = s.drop_first();
        law_week_keeps_the_living(t);
        if forall|i: int| 0 <= i < s.len() ==> is_alive(#[trigger] s[i]) {
            assert(forall|i: int| 0 <= i < t.len() ==> is_alive(#[trigger] t[i]) ==> true);
            assert forall|i: int| 0 <= i < t.len() implies is_alive(#[trigger] t[i]) by {
                assert(t[i] == s[i + 1]);
            }
            assert(is_alive(s[0]));
            assert forall|i: int| 0 <= i < s.len() implies #[trigger] dungeon_week(s)[i] == inmate_week(s[i]) by {
                if i > 0 {
                    assert(dungeon_week(t)[i - 1] == inmate_week(t[i - 1]));
                }
            }
        }
    }
}

/// The positions in `s` of the prisoners that satisfy `p`, in order.
pub open spec fn positions_where(s: Seq<InmateView>, p: spec_fn(InmateView) -> bool) -> Seq<int>
    decreases s.len(),
{
    if s.len() == 0 {
        Seq::empty()
    } else {
        let r = positions_where(s.drop_last(), p);
        if p(s.last()) {
            r.push(s.len() - 1)
        } else {
            r
        }
    }
}

/// `positions_where` lists every position whose prisoner satisfies `p`,
/// exactly once, in increasing order, and no other.
pub proof fn lemma_positions_exact(s: Seq<InmateView>, p: spec_fn(InmateView) -> bool)
    ensures
        forall|k: int|
            0 <= k < positions_where(s, p).len() ==> 0 <= #[trigger] positions_where(s, p)[k] < s.len() && p(
                s[positions_where(s, p)[k]],
            ),
        forall|k: int, l: int|
            0 <= k < l < positions_where(s, p).len() ==> #[trigger] positions_where(s, p)[k]
                < #[trigger] positions_where(s, p)[l],
        forall|i: int| 0 <= i < s.len() && p(#[trigger] s[i]) ==> positions_where(s, p).contains(i),
    decreases s.len(),
{
    if s.len() > 0 {
        let t = s.drop_last();
        lemma_positions_exact(t, p);
        let r = positions_where(t, p);
        assert forall|k: int| 0 <= k < r.len() implies s[r[k]] == t[r[k]] by {}
        if p(s.last()) {
            let q = r.push(s.len() - 1);
            assert forall|i: int| 0 <= i < s.len() && p(#[trigger] s[i]) implies q.contains(i) by {
                if i < s.len() - 1 {
                    assert(t[i] == s[i]);
                    assert(r.contains(i));
                    let k = choose|k: int| 0 <= k < r.len() && r[k] == i;
                    assert(q[k] == i);
                } else {
                    assert(q[r.len() as int] == i);
                }
            }
        } else {
            assert forall|i: int| 0 <= i < s.len() && p(#[trigger] s[i]) implies r.contains(i) by {
                assert(i < s.len() - 1);
                assert(t[i] == s[i]);
            }
        }
    }
}

/// A prisoner who is a girl, not a customer.
pub open spec fn is_girl_inmate(i: InmateView) -> bool {
    !i.is_customer
}

/// The listing of girl prisoners gives every girl (not customer) prisoner's
/// position exactly once, in increasing order, and no customer's.
pub proof fn law_girl_inmates_exact(s: Seq<InmateView>)
    ensures
        girl_positions(s) == positions_where(s, |i: InmateView| is_girl_inmate(i)),
        forall|k: int|
            0 <= k < girl_positions(s).len() ==> 0 <= #[trigger] girl_positions(s)[k] < s.len()
                && !s[girl_positions(s)[k]].is_customer,
        forall|k: int, l: int|
            0 <= k < l < girl_positions(s).len() ==> #[trigger] girl_positions(s)[k] < #[trigger] girl_positions(
                s,
            )[l],
        forall|i: int| 0 <= i < s.len() && !(#[trigger] s[i]).is_customer ==> girl_positions(s).contains(i),
    decreases s.len(),
{
    let p = |i: InmateView| is_girl_inmate(i);
    if s.len() > 0 {
        law_girl_inmates_exact(s.drop_last());
    }
    assert(girl_positions(s) =~= positions_where(s, p));
    lemma_positions_exact(s, p);
    assert forall|i: int| 0 <= i < s.len() && !(#[trigger] s[i]).is_customer implies girl_positions(s).contains(i) by {
        assert(p(s[i]));
    }
}

proof fn lemma_dungeon_week_push(s: Seq<InmateView>, x: InmateView)
    ensures
        dungeon_week(s.push(x)) == dungeon_week(s) + if is_alive(x) {
            seq![inmate_week(x)]
        } else {
            Seq::empty()
        },
    decreases s.len(),
{
    if s.len() == 0 {
        assert(s.push(x).drop_first() =~= Seq::<InmateView>::empty());
        assert(dungeon_week(s.push(x).drop_first()) =~= Seq::<InmateView>::empty());
        assert(dungeon_week(s) =~= Seq::<InmateView>::empty());
        assert(s.push(x)[0] == x);
        assert(dungeon_week(s.push(x)) =~= dungeon_week(s) + if is_alive(x) {
            seq![inmate_week(x)]
        } else {
            Seq::empty()
        });
    } else {
        lemma_dungeon_week_push(s.drop_first(), x);
        assert(s.push(x).drop_first() =~= s.drop_first().push(x));
        assert(s.push(x)[0] == s[0]);
        let head = if is_alive(s[0]) {
            seq![inmate_week(s[0])]
        } else {
            Seq::<InmateView>::empty()
        };
        let tail = if is_alive(x) {
            seq![inmate_week(x)]
        } else {
            Seq::<InmateView>::empty()
        };
        assert(head + (dungeon_week(s.drop_first()) + tail) =~= (head + dungeon_week(s.drop_first())) + tail);
    }
}

/// The positions of the prisoners that are alive, in order.
pub open spec fn living_positions(s: Seq<InmateView>) -> Seq<int> {
    positions_where(s, |i: InmateView| is_alive(i))
}

proof fn lemma_living_positions_step(s: Seq<InmateView>)
    requires
        s.len() > 0,
    ensures
        living_positions(s) == if is_alive(s.last()) {
            living_positions(s.drop_last()).push(s.len() - 1)
        } else {
            living_positions(s.drop_last())
        },
        forall|k: int|
            0 <= k < living_positions(s.drop_last()).len() ==> 0 <= #[trigger] living_positions(s.drop_last())[k]
                < s.len() - 1,
{
    lemma_positions_exact(s.drop_last(), |i: InmateView| is_alive(i));
}

/// A week in the dungeon keeps exactly the prisoners alive at its start, in
/// their order, each one having served her week (see `inmate_week`); which
/// positions those are, `lemma_positions_exact` tells.
pub proof fn law_week_keeps_exactly_the_living(s: Seq<InmateView>)
    ensures
        dungeon_week(s).len() == living_positions(s).len(),
        forall|k: int|
            0 <= k < dungeon_week(s).len() ==> #[trigger] dungeon_week(s)[k] == inmate_week(s[living_positions(s)[k]]),
    decreases s.len(),
{
    if s.len() > 0 {
        let t = s.drop_last();
        law_week_keeps_exactly_the_living(t);
        lemma_dungeon_week_push(t, s.last());
        assert(t.push(s.last()) =~= s);
        lemma_living_positions_step(s);
        let r = living_positions(t);
        assert forall|k: int| 0 <= k < dungeon_week(s).len() implies #[trigger] dungeon_week(s)[k] == inmate_week(
            s[living_positions(s)[k]],
        ) by {
            if k < r.len() {
                assert(dungeon_week(s)[k] == dungeon_week(t)[k]);
                assert(living_positions(s)[k] == r[k]);
                assert(s[r[k]] == t[r[k]]);
            } else {
                assert(living_positions(s)[k] == s.len() - 1);
            }
        }
    }
}

/// A starved customer loses 5 health a week, down to nothing; a fed one keeps it.
pub proof fn law_starved_customer_loses_health(i: InmateView)
    requires
        i.is_customer,
        i.girl.stats.len() == 22,
    ensures
        inmate_week(i).girl.stats[Stat::Health.spec_code()] == if i.fed {
            i.girl.stats[Stat::Health.spec_code()] as int
        } else {
            crate::girls::clamp(i.girl.stats[Stat::Health.spec_code()] - 5, 0, 100)
        },
{
}

/// How much a week in the dungeon changes a stat of a prisoner who is no
/// customer, by whether she was fed and whether she is a slave.
pub open spec fn prisoner_week_change(fed: bool, slave: bool, s: Stat) -> int {
    match s {
        Stat::Confidence => if fed && !slave { -1 } else { -2 },
        Stat::Obedience => if fed && !slave { 1 } else { 2 },
        Stat::Spirit => if fed && !slave { -1 } else { -2 },
        Stat::PCHate => if !fed && !slave { 4 } else { 1 },
        Stat::PCLove => if fed { if slave { -1 } else { -4 } } else { if slave { -2 } else { -5 } },
        Stat::PCFear => if !fed && !slave { 6 } else { 4 },
        Stat::Tiredness => if fed { -10 } else { if slave { 1 } else { 2 } },
        Stat::Happiness => if fed { if slave { -1 } else { -5 } } else { if slave { -3 } else { -5 } },
        Stat::Health => if fed { if slave { 4 } else { 1 } } else { -5 },
        Stat::Mana => if fed { 5 } else { 1 },
        _ => 0,
    }
}

/// The stats after `fed_slave_week`, by the table of `prisoner_week_change`.
proof fn lemma_fed_slave_week_stats(g: GirlView, s: Stat)
    requires
        g.stats.len() == 22,
        g.skills.len() == 10,
    ensures
        fed_slave_week(g).stats[s.spec_code()] == if prisoner_week_change(true, true, s) == 0 {
            g.stats[s.spec_code()] as int
        } else {
            crate::girls::clamp(g.stats[s.spec_code()] + prisoner_week_change(true, true, s), 0, 100)
        },
        fed_slave_week(g).stats.len() == 22,
        fed_slave_week(g) == (GirlView { stats: fed_slave_week(g).stats, skills: fed_slave_week(g).skills, ..g }),
{
    let c = s.spec_code();
    let g1 = g.add_stat(Stat::Confidence, -2);
    assert(g1.stats[c] == if c == Stat::Confidence.spec_code() { crate::girls::clamp(g.stats[c] + -2, 0, 100) } else { g.stats[c] as int });
    assert(g1.stats.len() == 22);
    let g2 = g1.add_stat(Stat::Obedience, 2);
    assert(g2.stats[c] == if c == Stat::Obedience.spec_code() { crate::girls::clamp(g1.stats[c] + 2, 0, 100) } else { g1.stats[c] as int });
    assert(g2.stats.len() == 22);
    let g3 = g2.add_stat(Stat::Spirit, -2);
    assert(g3.stats[c] == if c == Stat::Spirit.spec_code() { crate::girls::clamp(g2.stats[c] + -2, 0, 100) } else { g2.stats[c] as int });
    assert(g3.stats.len() == 22);
    let g4 = g3.add_stat(Stat::PCHate, 1);
    assert(g4.stats[c] == if c == Stat::PCHate.spec_code() { crate::girls::clamp(g3.stats[c] + 1, 0, 100) } else { g3.stats[c] as int });
    assert(g4.stats.len() == 22);
    let g5 = g4.add_stat(Stat::PCLove, -1);
    assert(g5.stats[c] == if c == Stat::PCLove.spec_code() { crate::girls::clamp(g4.stats[c] + -1, 0, 100) } else { g4.stats[c] as int });
    assert(g5.stats.len() == 22);
    let g6 = g5.add_stat(Stat::PCFear, 4);
    assert(g6.stats[c] == if c == Stat::PCFear.spec_code() { crate::girls::clamp(g5.stats[c] + 4, 0, 100) } else { g5.stats[c] as int });
    assert(g6.stats.len() == 22);
    let g7 = g6.add_stat(Stat::Tiredness, -10);
    assert(g7.stats[c] == if c == Stat::Tiredness.spec_code() { crate::girls::clamp(g6.stats[c] + -10, 0, 100) } else { g6.stats[c] as int });
    assert(g7.stats.len() == 22);
    let g8 = g7.add_stat(Stat::Happiness, -1);
    assert(g8.stats[c] == if c == Stat::Happiness.spec_code() { crate::girls::clamp(g7.stats[c] + -1, 0, 100) } else { g7.stats[c] as int });
    assert(g8.stats.len() == 22);
    let g9 = g8.add_stat(Stat::Health, 4);
    assert(g9.stats[c] == if c == Stat::Health.spec_code() { crate::girls::clamp(g8.stats[c] + 4, 0, 100) } else { g8.stats[c] as int });
    assert(g9.stats.len() == 22);
    let g10 = g9.add_stat(Stat::Mana, 5);
    assert(g10.stats[c] == if c == Stat::Mana.spec_code() { crate::girls::clamp(g9.stats[c] + 5, 0, 100) } else { g9.stats[c] as int });
    assert(g10.stats.len() == 22);
    let g11 = g10.add_skill(Skill::BDSM, 1);
    assert(g11.stats == g10.stats);
    assert(fed_slave_week(g) == g11);
    assert(fed_slave_week(g) =~= (GirlView { stats: fed_slave_week(g).stats, skills: fed_slave_week(g).skills, ..g }));
}


/// The stats after `fed_free_week`, by the table of `prisoner_week_change`.
proof fn lemma_fed_free_week_stats(g: GirlView, s: Stat)
    requires
        g.stats.len() == 22,
        g.skills.len() == 10,
    ensures
        fed_free_week(g).stats[s.spec_code()] == if prisoner_week_change(true, false, s) == 0 {
            g.stats[s.spec_code()] as int
        } else {
            crate::girls::clamp(g.stats[s.spec_code()] + prisoner_week_change(true, false, s), 0, 100)
        },
        fed_free_week(g).stats.len() == 22,
        fed_free_week(g) == (GirlView { stats: fed_free_week(g).stats, skills: fed_free_week(g).skills, ..g }),
{
    let c = s.spec_code();
    let g1 = g.add_stat(Stat::Confidence, -1);
    assert(g1.stats[c] == if c == Stat::Confidence.spec_code() { crate::girls::clamp(g.stats[c] + -1, 0, 100) } else { g.stats[c] as int });
    assert(g1.stats.len() == 22);
    let g2 = g1.add_stat(Stat::Obedience, 1);
    assert(g2.stats[c] == if c == Stat::Obedience.spec_code() { crate::girls::clamp(g1.stats[c] + 1, 0, 100) } else { g1.stats[c] as int });
    assert(g2.stats.len() == 22);
    let g3 = g2.add_stat(Stat::Spirit, -1);
    assert(g3.stats[c] == if c == Stat::Spirit.spec_code() { crate::girls::clamp(g2.stats[c] + -1, 0, 100) } else { g2.stats[c] as int });
    assert(g3.stats.len() == 22);
    let g4 = g3.add_stat(Stat::PCHate, 1);
    assert(g4.stats[c] == if c == Stat::PCHate.spec_code() { crate::girls::clamp(g3.stats[c] + 1, 0, 100) } else { g3.stats[c] as int });
    assert(g4.stats.len() == 22);
    let g5 = g4.add_stat(Stat::PCLove, -4);
    assert(g5.stats[c] == if c == Stat::PCLove.spec_code() { crate::girls::clamp(g4.stats[c] + -4, 0, 100) } else { g4.stats[c] as int });
    assert(g5.stats.len() == 22);
    let g6 = g5.add_stat(Stat::PCFear, 4);
    assert(g6.stats[c] == if c == Stat::PCFear.spec_code() { crate::girls::clamp(g5.stats[c] + 4, 0, 100) } else { g5.stats[c] as int });
    assert(g6.stats.len() == 22);
    let g7 = g6.add_stat(Stat::Tiredness, -10);
    assert(g7.stats[c] == if c == Stat::Tiredness.spec_code() { crate::girls::clamp(g6.stats[c] + -10, 0, 100) } else { g6.stats[c] as int });
    assert(g7.stats.len() == 22);
    let g8 = g7.add_stat(Stat::Happiness, -5);
    assert(g8.stats[c] == if c == Stat::Happiness.spec_code() { crate::girls::clamp(g7.stats[c] + -5, 0, 100) } else { g7.stats[c] as int });
    assert(g8.stats.len() == 22);
    let g9 = g8.add_stat(Stat::Health, 1);
    assert(g9.stats[c] == if c == Stat::Health.spec_code() { crate::girls::clamp(g8.stats[c] + 1, 0, 100) } else { g8.stats[c] as int });
    assert(g9.stats.len() == 22);
    let g10 = g9.add_stat(Stat::Mana, 5);
    assert(g10.stats[c] == if c == Stat::Mana.spec_code() { crate::girls::clamp(g9.stats[c] + 5, 0, 100) } else { g9.stats[c] as int });
    assert(g10.stats.len() == 22);
    let g11 = g10.add_skill(Skill::BDSM, 1);
    assert(g11.stats == g10.stats);
    assert(fed_free_week(g) == g11);
    assert(fed_free_week(g) =~= (GirlView { stats: fed_free_week(g).stats, skills: fed_free_week(g).skills, ..g }));
}


/// The stats after `starved_slave_week`, by the table of `prisoner_week_change`.
proof fn lemma_starved_slave_week_stats(g: GirlView, s: Stat)
    requires
        g.stats.len() == 22,
        g.skills.len() == 10,
    ensures
        starved_slave_week(g).stats[s.spec_code()] == if prisoner_week_change(false, true, s) == 0 {
            g.stats[s.spec_code()] as int
        } else {
            crate::girls::clamp(g.stats[s.spec_code()] + prisoner_week_change(false, true, s), 0, 100)
        },
        starved_slave_week(g).stats.len() == 22,
        starved_slave_week(g) == (GirlView { stats: starved_slave_week(g).stats, skills: starved_slave_week(g).skills, ..g }),
{
    let c = s.spec_code();
    let g1 = g.add_stat(Stat::Confidence, -2);
    assert(g1.stats[c] == if c == Stat::Confidence.spec_code() { crate::girls::clamp(g.stats[c] + -2, 0, 100) } else { g.stats[c] as int });
    assert(g1.stats.len() == 22);
    let g2 = g1.add_stat(Stat::Obedience, 2);
    assert(g2.stats[c] == if c == Stat::Obedience.spec_code() { crate::girls::clamp(g1.stats[c] + 2, 0, 100) } else { g1.stats[c] as int });
    assert(g2.stats.len() == 22);
    let g3 = g2.add_stat(Stat::Spirit, -2);
    assert(g3.stats[c] == if c == Stat::Spirit.spec_code() { crate::girls::clamp(g2.stats[c] + -2, 0, 100) } else { g2.stats[c] as int });
    assert(g3.stats.len() == 22);
    let g4 = g3.add_stat(Stat::PCHate, 1);
    assert(g4.stats[c] == if c == Stat::PCHate.spec_code() { crate::girls::clamp(g3.stats[c] + 1, 0, 100) } else { g3.stats[c] as int });
    assert(g4.stats.len() == 22);
    let g5 = g4.add_stat(Stat::PCLove, -2);
    assert(g5.stats[c] == if c == Stat::PCLove.spec_code() { crate::girls::clamp(g4.stats[c] + -2, 0, 100) } else { g4.stats[c] as int });
    assert(g5.stats.len() == 22);
    let g6 = g5.add_stat(Stat::PCFear, 4);
    assert(g6.stats[c] == if c == Stat::PCFear.spec_code() { crate::girls::clamp(g5.stats[c] + 4, 0, 100) } else { g5.stats[c] as int });
    assert(g6.stats.len() == 22);
    let g7 = g6.add_stat(Stat::Tiredness, 1);
    assert(g7.stats[c] == if c == Stat::Tiredness.spec_code() { crate::girls::clamp(g6.stats[c] + 1, 0, 100) } else { g6.stats[c] as int });
    assert(g7.stats.len() == 22);
    let g8 = g7.add_stat(Stat::Happiness, -3);
    assert(g8.stats[c] == if c == Stat::Happiness.spec_code() { crate::girls::clamp(g7.stats[c] + -3, 0, 100) } else { g7.stats[c] as int });
    assert(g8.stats.len() == 22);
    let g9 = g8.add_stat(Stat::Health, -5);
    assert(g9.stats[c] == if c == Stat::Health.spec_code() { crate::girls::clamp(g8.stats[c] + -5, 0, 100) } else { g8.stats[c] as int });
    assert(g9.stats.len() == 22);
    let g10 = g9.add_stat(Stat::Mana, 1);
    assert(g10.stats[c] == if c == Stat::Mana.spec_code() { crate::girls::clamp(g9.stats[c] + 1, 0, 100) } else { g9.stats[c] as int });
    assert(g10.stats.len() == 22);
    let g11 = g10.add_skill(Skill::BDSM, 2);
    assert(g11.stats == g10.stats);
    assert(starved_slave_week(g) == g11);
    assert(starved_slave_week(g) =~= (GirlView { stats: starved_slave_week(g).stats, skills: starved_slave_week(g).skills, ..g }));
}


/// The stats after `starved_free_week`, by the table of `prisoner_week_change`.
proof fn lemma_starved_free_week_stats(g: GirlView, s: Stat)
    requires
        g.stats.len() == 22,
        g.skills.len() == 10,
    ensures
        starved_free_week(g).stats[s.spec_code()] == if prisoner_week_change(false, false, s) == 0 {
            g.stats[s.spec_code()] as int
        } else {
            crate::girls::clamp(g.stats[s.spec_code()] + prisoner_week_change(false, false, s), 0, 100)
        },
        starved_free_week(g).stats.len() == 22,
        starved_free_week(g) == (GirlView { stats: starved_free_week(g).stats, skills: starved_free_week(g).skills, ..g }),
{
    let c = s.spec_code();
    let g1 = g.add_stat(Stat::Confidence, -2);
    assert(g1.stats[c] == if c == Stat::Confidence.spec_code() { crate::girls::clamp(g.stats[c] + -2, 0, 100) } else { g.stats[c] as int });
    assert(g1.stats.len() == 22);
    let g2 = g1.add_stat(Stat::Obedience, 2);
    assert(g2.stats[c] == if c == Stat::Obedience.spec_code() { crate::girls::clamp(g1.stats[c] + 2, 0, 100) } else { g1.stats[c] as int });
    assert(g2.stats.len() == 22);
    let g3 = g2.add_stat(Stat::Spirit, -2);
    assert(g3.stats[c] == if c == Stat::Spirit.spec_code() { crate::girls::clamp(g2.stats[c] + -2, 0, 100) } else { g2.stats[c] as int });
    assert(g3.stats.len() == 22);
    let g4 = g3.add_stat(Stat::PCHate, 4);
    assert(g4.stats[c] == if c == Stat::PCHate.spec_code() { crate::girls::clamp(g3.stats[c] + 4, 0, 100) } else { g3.stats[c] as int });
    assert(g4.stats.len() == 22);
    let g5 = g4.add_stat(Stat::PCLove, -5);
    assert(g5.stats[c] == if c == Stat::PCLove.spec_code() { crate::girls::clamp(g4.stats[c] + -5, 0, 100) } else { g4.stats[c] as int });
    assert(g5.stats.len() == 22);
    let g6 = g5.add_stat(Stat::PCFear, 6);
    assert(g6.stats[c] == if c == Stat::PCFear.spec_code() { crate::girls::clamp(g5.stats[c] + 6, 0, 100) } else { g5.stats[c] as int });
    assert(g6.stats.len() == 22);
    let g7 = g6.add_stat(Stat::Tiredness, 2);
    assert(g7.stats[c] == if c == Stat::Tiredness.spec_code() { crate::girls::clamp(g6.stats[c] + 2, 0, 100) } else { g6.stats[c] as int });
    assert(g7.stats.len() == 22);
    let g8 = g7.add_stat(Stat::Happiness, -5);
    assert(g8.stats[c] == if c == Stat::Happiness.spec_code() { crate::girls::clamp(g7.stats[c] + -5, 0, 100) } else { g7.stats[c] as int });
    assert(g8.stats.len() == 22);
    let g9 = g8.add_stat(Stat::Health, -5);
    assert(g9.stats[c] == if c == Stat::Health.spec_code() { crate::girls::clamp(g8.stats[c] + -5, 0, 100) } else { g8.stats[c] as int });
    assert(g9.stats.len() == 22);
    let g10 = g9.add_stat(Stat::Mana, 1);
    assert(g10.stats[c] == if c == Stat::Mana.spec_code() { crate::girls::clamp(g9.stats[c] + 1, 0, 100) } else { g9.stats[c] as int });
    assert(g10.stats.len() == 22);
    let g11 = g10.add_skill(Skill::BDSM, 2);
    assert(g11.stats == g10.stats);
    assert(starved_free_week(g) == g11);
    assert(starved_free_week(g) =~= (GirlView { stats: starved_free_week(g).stats, skills: starved_free_week(g).skills, ..g }));
}


/// A week in the dungeon for a prisoner who is no customer changes each stat
/// by the table of `prisoner_week_change` (the changed stats kept within
/// 0..=100), raises BDSM by 1 when fed and by 2 when starved, and leaves the
/// rest of her as she was. So a fed prisoner never loses health (a fed slave
/// gains 4 and sheds 10 tiredness), while a starved one loses 5.
pub proof fn law_prisoner_week_changes(i: InmateView)
    requires
        !i.is_customer,
        i.girl.stats.len() == 22,
        i.girl.skills.len() == 10,
    ensures
        ({
            let g = i.girl;
            let g2 = inmate_week(i).girl;
            let slave = g.has_status(Status::Slave);
            &&& forall|s: Stat| #[trigger] g2.stats[s.spec_code()] == if prisoner_week_change(i.fed, slave, s) == 0 {
                g.stats[s.spec_code()] as int
            } else {
                crate::girls::clamp(g.stats[s.spec_code()] + prisoner_week_change(i.fed, slave, s), 0, 100)
            }
            &&& g2.skills[Skill::BDSM.spec_code()] == crate::girls::clamp(
                g.skills[Skill::BDSM.spec_code()] + if i.fed { 1int } else { 2int },
                0,
                100,
            )
            &&& forall|k: Skill| k != Skill::BDSM ==> #[trigger] g2.skills[k.spec_code()] == g.skills[k.spec_code()]
            &&& g2 == GirlView { stats: g2.stats, skills: g2.skills, ..g }
            &&& i.fed && 0 <= g.stats[Stat::Health.spec_code()] <= 100 ==> g2.stats[Stat::Health.spec_code()]
                >= g.stats[Stat::Health.spec_code()]
            &&& !i.fed ==> g2.stats[Stat::Health.spec_code()] == crate::girls::clamp(
                g.stats[Stat::Health.spec_code()] - 5,
                0,
                100,
            )
        }),
{
    let g = i.girl;
    let g2 = inmate_week(i).girl;
    let slave = g.has_status(Status::Slave);
    assert forall|s: Stat| #[trigger] g2.stats[s.spec_code()] == if prisoner_week_change(i.fed, slave, s) == 0 {
        g.stats[s.spec_code()] as int
    } else {
        crate::girls::clamp(g.stats[s.spec_code()] + prisoner_week_change(i.fed, slave, s), 0, 100)
    } by {
        if i.fed {
            if slave {
                lemma_fed_slave_week_stats(g, s);
            } else {
                lemma_fed_free_week_stats(g, s);
            }
        } else {
            if slave {
                lemma_starved_slave_week_stats(g, s);
            } else {
                lemma_starved_free_week_stats(g, s);
            }
        }
    }
    if i.fed {
        if slave {
            lemma_fed_slave_week_stats(g, Stat::Health);
        } else {
            lemma_fed_free_week_stats(g, Stat::Health);
        }
    } else {
        if slave {
            lemma_starved_slave_week_stats(g, Stat::Health);
        } else {
            lemma_starved_free_week_stats(g, Stat::Health);
        }
    }
}

proof fn lemma_fed_slave_week_obedience(g: GirlView)
    requires
        g.stats.len() == 22,
        0 <= g.stats[Stat::Obedience.spec_code()] < 100,
    ensures
        fed_slave_week(g).stats[Stat::Obedience.spec_code()] > g.stats[Stat::Obedience.spec_code()],
{
    let c = Stat::Obedience.spec_code();
    let g1 = g.add_stat(Stat::Confidence, -2);
    assert(g1.stats[c] == g.stats[c]);
    assert(g1.stats.len() == 22);
    let g2 = g1.add_stat(Stat::Obedience, 2);
    assert(g2.stats[c] > g.stats[c]);
    assert(g2.stats.len() == 22);
    let g3 = g2.add_stat(Stat::Spirit, -2);
    assert(g3.stats[c] == g2.stats[c]);
    assert(g3.stats.len() == 22);
    let g4 = g3.add_stat(Stat::PCHate, 1);
    assert(g4.stats[c] == g3.stats[c]);
    assert(g4.stats.len() == 22);
    let g5 = g4.add_stat(Stat::PCLove, -1);
    assert(g5.stats[c] == g4.stats[c]);
    assert(g5.stats.len() == 22);
    let g6 = g5.add_stat(Stat::PCFear, 4);
    assert(g6.stats[c] == g5.stats[c]);
    assert(g6.stats.len() == 22);
    let g7 = g6.add_stat(Stat::Tiredness, -10);
    assert(g7.stats[c] == g6.stats[c]);
    assert(g7.stats.len() == 22);
    let g8 = g7.add_stat(Stat::Happiness, -1);
    assert(g8.stats[c] == g7.stats[c]);
    assert(g8.stats.len() == 22);
    let g9 = g8.add_stat(Stat::Health, 4);
    assert(g9.stats[c] == g8.stats[c]);
    assert(g9.stats.len() == 22);
    let g10 = g9.add_stat(Stat::Mana, 5);
    assert(g10.stats[c] == g9.stats[c]);
    assert(g10.stats.len() == 22);
    let g11 = g10.add_skill(Skill::BDSM, 1);
    assert(g11.stats[c] == g10.stats[c]);
    assert(g11.stats.len() == 22);
    assert(fed_slave_week(g) == g11);
}

proof fn lemma_fed_free_week_obedience(g: GirlView)
    requires
        g.stats.len() == 22,
        0 <= g.stats[Stat::Obedience.spec_code()] < 100,
    ensures
        fed_free_week(g).stats[Stat::Obedience.spec_code()] > g.stats[Stat::Obedience.spec_code()],
{
    let c = Stat::Obedience.spec_code();
    let g1 = g.add_stat(Stat::Confidence, -1);
    assert(g1.stats[c] == g.stats[c]);
    assert(g1.stats.len() == 22);
    let g2 = g1.add_stat(Stat::Obedience, 1);
    assert(g2.stats[c] > g.stats[c]);
    assert(g2.stats.len() == 22);
    let g3 = g2.add_stat(Stat::Spirit, -1);
    assert(g3.stats[c] == g2.stats[c]);
    assert(g3.stats.len() == 22);
    let g4 = g3.add_stat(Stat::PCHate, 1);
    assert(g4.stats[c] == g3.stats[c]);
    assert(g4.stats.len() == 22);
    let g5 = g4.add_stat(Stat::PCLove, -4);
    assert(g5.stats[c] == g4.stats[c]);
    assert(g5.stats.len() == 22);
    let g6 = g5.add_stat(Stat::PCFear, 4);
    assert(g6.stats[c] == g5.stats[c]);
    assert(g6.stats.len() == 22);
    let g7 = g6.add_stat(Stat::Tiredness, -10);
    assert(g7.stats[c] == g6.stats[c]);
    assert(g7.stats.len() == 22);
    let g8 = g7.add_stat(Stat::Happiness, -5);
    assert(g8.stats[c] == g7.stats[c]);
    assert(g8.stats.len() == 22);
    let g9 = g8.add_stat(Stat::Health, 1);
    assert(g9.stats[c] == g8.stats[c]);
    assert(g9.stats.len() == 22);
    let g10 = g9.add_stat(Stat::Mana, 5);
    assert(g10.stats[c] == g9.stats[c]);
    assert(g10.stats.len() == 22);
    let g11 = g10.add_skill(Skill::BDSM, 1);
    assert(g11.stats[c] == g10.stats[c]);
    assert(g11.stats.len() == 22);
    assert(fed_free_week(g) == g11);
}

proof fn lemma_starved_slave_week_obedience(g: GirlView)
    requires
        g.stats.len() == 22,
        0 <= g.stats[Stat::Obedience.spec_code()] < 100,
    ensures
        starved_slave_week(g).stats[Stat::Obedience.spec_code()] > g.stats[Stat::Obedience.spec_code()],
{
    let c = Stat::Obedience.spec_code();
    let g1 = g.add_stat(Stat::Confidence, -2);
    assert(g1.stats[c] == g.stats[c]);
    assert(g1.stats.len() == 22);
    let g2 = g1.add_stat(Stat::Obedience, 2);
    assert(g2.stats[c] > g.stats[c]);
    assert(g2.stats.len() == 22);
    let g3 = g2.add_stat(Stat::Spirit, -2);
    assert(g3.stats[c] == g2.stats[c]);
    assert(g3.stats.len() == 22);
    let g4 = g3.add_stat(Stat::PCHate, 1);
    assert(g4.stats[c] == g3.stats[c]);
    assert(g4.stats.len() == 22);
    let g5 = g4.add_stat(Stat::PCLove, -2);
    assert(g5.stats[c] == g4.stats[c]);
    assert(g5.stats.len() == 22);
    let g6 = g5.add_stat(Stat::PCFear, 4);
    assert(g6.stats[c] == g5.stats[c]);
    assert(g6.stats.len() == 22);
    let g7 = g6.add_stat(Stat::Tiredness, 1);
    assert(g7.stats[c] == g6.stats[c]);
    assert(g7.stats.len() == 22);
    let g8 = g7.add_stat(Stat::Happiness, -3);
    assert(g8.stats[c] == g7.stats[c]);
    assert(g8.stats.len() == 22);
    let g9 = g8.add_stat(Stat::Health, -5);
    assert(g9.stats[c] == g8.stats[c]);
    assert(g9.stats.len() == 22);
    let g10 = g9.add_stat(Stat::Mana, 1);
    assert(g10.stats[c] == g9.stats[c]);
    assert(g10.stats.len() == 22);
    let g11 = g10.add_skill(Skill::BDSM, 2);
    assert(g11.stats[c] == g10.stats[c]);
    assert(g11.stats.len() == 22);
    assert(starved_slave_week(g) == g11);
}

proof fn lemma_starved_free_week_obedience(g: GirlView)
    requires
        g.stats.len() == 22,
        0 <= g.stats[Stat::Obedience.spec_code()] < 100,
    ensures
        starved_free_week(g).stats[Stat::Obedience.spec_code()] > g.stats[Stat::Obedience.spec_code()],
{
    let c = Stat::Obedience.spec_code();
    let g1 = g.add_stat(Stat::Confidence, -2);
    assert(g1.stats[c] == g.stats[c]);
    assert(g1.stats.len() == 22);
    let g2 = g1.add_stat(Stat::Obedience, 2);
    assert(g2.stats[c] > g.stats[c]);
    assert(g2.stats.len() == 22);
    let g3 = g2.add_stat(Stat::Spirit, -2);
    assert(g3.stats[c] == g2.stats[c]);
    assert(g3.stats.len() == 22);
    let g4 = g3.add_stat(Stat::PCHate, 4);
    assert(g4.stats[c] == g3.stats[c]);
    assert(g4.stats.len() == 22);
    let g5 = g4.add_stat(Stat::PCLove, -5);
    assert(g5.stats[c] == g4.stats[c]);
    assert(g5.stats.len() == 22);
    let g6 = g5.add_stat(Stat::PCFear, 6);
    assert(g6.stats[c] == g5.stats[c]);
    assert(g6.stats.len() == 22);
    let g7 = g6.add_stat(Stat::Tiredness, 2);
    assert(g7.stats[c] == g6.stats[c]);
    assert(g7.stats.len() == 22);
    let g8 = g7.add_stat(Stat::Happiness, -5);
    assert(g8.stats[c] == g7.stats[c]);
    assert(g8.stats.len() == 22);
    let g9 = g8.add_stat(Stat::Health, -5);
    assert(g9.stats[c] == g8.stats[c]);
    assert(g9.stats.len() == 22);
    let g10 = g9.add_stat(Stat::Mana, 1);
    assert(g10.stats[c] == g9.stats[c]);
    assert(g10.stats.len() == 22);
    let g11 = g10.add_skill(Skill::BDSM, 2);
    assert(g11.stats[c] == g10.stats[c]);
    assert(g11.stats.len() == 22);
    assert(starved_free_week(g) == g11);
}

/// Every girl prisoner's obedience rises each week until it reaches its maximum.
pub proof fn law_prisoner_obedience_rises(i: InmateView)
    requires
        !i.is_customer,
        i.girl.stats.len() == 22,
        0 <= i.girl.stats[Stat::Obedience.spec_code()] < 100,
    ensures
        inmate_week(i).girl.stats[Stat::Obedience.spec_code()] > i.girl.stats[Stat::Obedience.spec_code()],
{
    if i.fed {
        if i.girl.has_status(Status::Slave) {
            lemma_fed_slave_week_obedience(i.girl);
        } else {
            lemma_fed_free_week_obedience(i.girl);
        }
    } else {
        if i.girl.has_status(Status::Slave) {
            lemma_starved_slave_week_obedience(i.girl);
        } else {
            lemma_starved_free_week_obedience(i.girl);
        }
    }
}

/// A torture session that goes ahead raises the girl's obedience (by 10, or by
/// 4 when her health is low) until it reaches its maximum; the injury and the
/// traits it may bring leave it alone.
pub proof fn law_torture_raises_obedience(i: InmateView, torture_mod: i32, is_player: bool, r: TortureRolls)
    requires
        i.girl.stats.len() == 22,
        0 <= i.girl.stats[Stat::Obedience.spec_code()] < 100,
    ensures
        torture_girl(i, torture_mod, is_player, r).0.stats[Stat::Obedience.spec_code()] > i.girl.stats[Stat::Obedience.spec_code()],
{
    let c = Stat::Obedience.spec_code();
    let (g1, ev1) = torture_stats(GirlView { tortured_today: true, ..i.girl });
    assert(g1.stats[c] > i.girl.stats[c]);
    let (g2, ev2) = injure(g1, ev1, injury_chance(g1), r);
    assert(g2.stats[c] == g1.stats[c]);
}

/// How a torture session changes a stat before any injury: heavily for a
/// girl with more than 10 health, lightly otherwise.
pub open spec fn torture_stat_change(heavy: bool, s: Stat) -> int {
    match s {
        Stat::Confidence => if heavy { -5 } else { -2 },
        Stat::Constitution => if heavy { 1 } else { 0 },
        Stat::Happiness => if heavy { -5 } else { -2 },
        Stat::Health => if heavy { -5 } else { 0 },
        Stat::Obedience => if heavy { 10 } else { 4 },
        Stat::PCFear => if heavy { 7 } else { 3 },
        Stat::PCHate => if heavy { 3 } else { 1 },
        Stat::PCLove => if heavy { -5 } else { -2 },
        Stat::Spirit => if heavy { -5 } else { -2 },
        Stat::Tiredness => if heavy { -5 } else { -2 },
        _ => 0,
    }
}

proof fn lemma_heavy_torture_stats(g: GirlView, s: Stat)
    requires
        g.stats.len() == 22,
    ensures
        heavy_torture(g).stats[s.spec_code()] == if torture_stat_change(true, s) == 0 {
            g.stats[s.spec_code()] as int
        } else {
            crate::girls::clamp(g.stats[s.spec_code()] + torture_stat_change(true, s), 0, 100)
        },
{
    let c = s.spec_code();
    let g1 = g.add_stat(Stat::Health, -5);
    assert(g1.stats[c] == if c == Stat::Health.spec_code() { crate::girls::clamp(g.stats[c] + -5, 0, 100) } else { g.stats[c] as int });
    assert(g1.stats.len() == 22);
    let g2 = g1.add_stat(Stat::Happiness, -5);
    assert(g2.stats[c] == if c == Stat::Happiness.spec_code() { crate::girls::clamp(g1.stats[c] + -5, 0, 100) } else { g1.stats[c] as int });
    assert(g2.stats.len() == 22);
    let g3 = g2.add_stat(Stat::Constitution, 1);
    assert(g3.stats[c] == if c == Stat::Constitution.spec_code() { crate::girls::clamp(g2.stats[c] + 1, 0, 100) } else { g2.stats[c] as int });
    assert(g3.stats.len() == 22);
    let g4 = g3.add_stat(Stat::Confidence, -5);
    assert(g4.stats[c] == if c == Stat::Confidence.spec_code() { crate::girls::clamp(g3.stats[c] + -5, 0, 100) } else { g3.stats[c] as int });
    assert(g4.stats.len() == 22);
    let g5 = g4.add_stat(Stat::Obedience, 10);
    assert(g5.stats[c] == if c == Stat::Obedience.spec_code() { crate::girls::clamp(g4.stats[c] + 10, 0, 100) } else { g4.stats[c] as int });
    assert(g5.stats.len() == 22);
    let g6 = g5.add_stat(Stat::Spirit, -5);
    assert(g6.stats[c] == if c == Stat::Spirit.spec_code() { crate::girls::clamp(g5.stats[c] + -5, 0, 100) } else { g5.stats[c] as int });
    assert(g6.stats.len() == 22);
    let g7 = g6.add_stat(Stat::Tiredness, -5);
    assert(g7.stats[c] == if c == Stat::Tiredness.spec_code() { crate::girls::clamp(g6.stats[c] + -5, 0, 100) } else { g6.stats[c] as int });
    assert(g7.stats.len() == 22);
    let g8 = g7.add_stat(Stat::PCHate, 3);
    assert(g8.stats[c] == if c == Stat::PCHate.spec_code() { crate::girls::clamp(g7.stats[c] + 3, 0, 100) } else { g7.stats[c] as int });
    assert(g8.stats.len() == 22);
    let g9 = g8.add_stat(Stat::PCLove, -5);
    assert(g9.stats[c] == if c == Stat::PCLove.spec_code() { crate::girls::clamp(g8.stats[c] + -5, 0, 100) } else { g8.stats[c] as int });
    assert(g9.stats.len() == 22);
    let g10 = g9.add_stat(Stat::PCFear, 7);
    assert(g10.stats[c] == if c == Stat::PCFear.spec_code() { crate::girls::clamp(g9.stats[c] + 7, 0, 100) } else { g9.stats[c] as int });
    assert(g10.stats.len() == 22);
    let g11 = g10.add_skill(Skill::BDSM, 1);
    assert(g11.stats == g10.stats);
    assert(heavy_torture(g) == g11);
}

proof fn lemma_light_torture_stats(g: GirlView, s: Stat)
    requires
        g.stats.len() == 22,
    ensures
        light_torture(g).stats[s.spec_code()] == if torture_stat_change(false, s) == 0 {
            g.stats[s.spec_code()] as int
        } else {
            crate::girls::clamp(g.stats[s.spec_code()] + torture_stat_change(false, s), 0, 100)
        },
{
    let c = s.spec_code();
    let g1 = g.add_stat(Stat::Happiness, -2);
    assert(g1.stats[c] == if c == Stat::Happiness.spec_code() { crate::girls::clamp(g.stats[c] + -2, 0, 100) } else { g.stats[c] as int });
    assert(g1.stats.len() == 22);
    let g2 = g1.add_stat(Stat::Confidence, -2);
    assert(g2.stats[c] == if c == Stat::Confidence.spec_code() { crate::girls::clamp(g1.stats[c] + -2, 0, 100) } else { g1.stats[c] as int });
    assert(g2.stats.len() == 22);
    let g3 = g2.add_stat(Stat::Obedience, 4);
    assert(g3.stats[c] == if c == Stat::Obedience.spec_code() { crate::girls::clamp(g2.stats[c] + 4, 0, 100) } else { g2.stats[c] as int });
    assert(g3.stats.len() == 22);
    let g4 = g3.add_stat(Stat::Spirit, -2);
    assert(g4.stats[c] == if c == Stat::Spirit.spec_code() { crate::girls::clamp(g3.stats[c] + -2, 0, 100) } else { g3.stats[c] as int });
    assert(g4.stats.len() == 22);
    let g5 = g4.add_stat(Stat::Tiredness, -2);
    assert(g5.stats[c] == if c == Stat::Tiredness.spec_code() { crate::girls::clamp(g4.stats[c] + -2, 0, 100) } else { g4.stats[c] as int });
    assert(g5.stats.len() == 22);
    let g6 = g5.add_stat(Stat::PCHate, 1);
    assert(g6.stats[c] == if c == Stat::PCHate.spec_code() { crate::girls::clamp(g5.stats[c] + 1, 0, 100) } else { g5.stats[c] as int });
    assert(g6.stats.len() == 22);
    let g7 = g6.add_stat(Stat::PCLove, -2);
    assert(g7.stats[c] == if c == Stat::PCLove.spec_code() { crate::girls::clamp(g6.stats[c] + -2, 0, 100) } else { g6.stats[c] as int });
    assert(g7.stats.len() == 22);
    let g8 = g7.add_stat(Stat::PCFear, 3);
    assert(g8.stats[c] == if c == Stat::PCFear.spec_code() { crate::girls::clamp(g7.stats[c] + 3, 0, 100) } else { g7.stats[c] as int });
    assert(g8.stats.len() == 22);
    assert(light_torture(g) == g8);
}

proof fn lemma_gains_keep_stats(g2: GirlView, ev2: Seq<Seq<char>>, wm: int, girl_t: bool, r: TortureRolls)
    ensures
        trait_gains(g2, ev2, wm, girl_t, r).0.stats == g2.stats,
{
}

/// A torture session changes the girl's stats by the table of
/// `torture_stat_change` (each kept within 0..=100): a girl with more than 10
/// health is tortured heavily (5 health lost, obedience up by 10), one with
/// 10 or less lightly (no health lost, obedience up by 4). The injury that may
/// follow (at an injury draw under 6 at most) costs only health, and the
/// trait gains change no stat.
pub proof fn law_torture_stat_changes(i: InmateView, torture_mod: i32, is_player: bool, r: TortureRolls, s: Stat)
    requires
        i.girl.stats.len() == 22,
    ensures
        ({
            let heavy = i.girl.stat(Stat::Health) > 10;
            let old_v = i.girl.stats[s.spec_code()] as int;
            let new_v = torture_girl(i, torture_mod, is_player, r).0.stats[s.spec_code()] as int;
            let expected = if torture_stat_change(heavy, s) == 0 {
                old_v
            } else {
                crate::girls::clamp(old_v + torture_stat_change(heavy, s), 0, 100)
            };
            &&& (s != Stat::Health || r.injury >= 6) ==> new_v == expected
        }),
{
    let g0 = GirlView { tortured_today: true, ..i.girl };
    let (g1, ev1) = torture_stats(g0);
    if g0.stat(Stat::Health) > 10 {
        lemma_heavy_torture_stats(g0, s);
    } else {
        lemma_light_torture_stats(g0, s);
    }
    let (g2, ev2) = torture_before_gains(i, r);
    assert(injury_chance(g1) <= 6);
    if s != Stat::Health || r.injury >= 6 {
        assert(g2.stats[s.spec_code()] == g1.stats[s.spec_code()]);
    }
    lemma_gains_keep_stats(g2, ev2, week_mod(i, torture_mod), !is_player, r);
}

proof fn lemma_push_other(t: Seq<Seq<char>>, x: Seq<char>, y: Seq<char>)
    requires
        x != y,
    ensures
        t.push(x).contains(y) == t.contains(y),
{
    if t.push(x).contains(y) {
        let k = choose|k: int| 0 <= k < t.push(x).len() && t.push(x)[k] == y;
        assert(k < t.len());
        assert(t[k] == y);
    }
    if t.contains(y) {
        let k = choose|k: int| 0 <= k < t.len() && t[k] == y;
        assert(t.push(x)[k] == y);
    }
}

proof fn lemma_session_keeps_trait(i: InmateView, r: TortureRolls, name: Seq<char>)
    requires
        name != "Small Scars"@,
        name != "Cool Scars"@,
        name != "Horrific Scars"@,
    ensures
        torture_before_gains(i, r).0.has_trait(name) == i.girl.has_trait(name),
{
    let (g1, ev1) = torture_stats(GirlView { tortured_today: true, ..i.girl });
    assert(g1.traits == i.girl.traits);
    lemma_push_other(g1.traits, scar_trait(r.scar_kind as int), name);
}

proof fn lemma_gain_names_differ()
    ensures
        "Broken Will"@ != "Small Scars"@,
        "Broken Will"@ != "Cool Scars"@,
        "Broken Will"@ != "Horrific Scars"@,
        "Masochist"@ != "Small Scars"@,
        "Masochist"@ != "Cool Scars"@,
        "Masochist"@ != "Horrific Scars"@,
        "Mind Fucked"@ != "Small Scars"@,
        "Mind Fucked"@ != "Cool Scars"@,
        "Mind Fucked"@ != "Horrific Scars"@,
        "Masochist"@ != "Broken Will"@,
        "Mind Fucked"@ != "Broken Will"@,
        "Mind Fucked"@ != "Masochist"@,
{
    reveal_strlit("Broken Will");
    reveal_strlit("Masochist");
    reveal_strlit("Mind Fucked");
    reveal_strlit("Small Scars");
    reveal_strlit("Cool Scars");
    reveal_strlit("Horrific Scars");
    assert("Broken Will"@[0] != "Small Scars"@[0]);
    assert("Mind Fucked"@[0] != "Small Scars"@[0]);
    assert("Mind Fucked"@[0] != "Broken Will"@[0]);
    assert("Masochist"@.len() == 9);
    assert("Cool Scars"@.len() == 10);
    assert("Horrific Scars"@.len() == 14);
}

proof fn lemma_trait_gains_conditions(g2: GirlView, ev2: Seq<Seq<char>>, wm: int, girl_t: bool, r: TortureRolls)
    ensures
        ({
            let g = trait_gains(g2, ev2, wm, girl_t, r).0;
            &&& g.stat(Stat::Health) == g2.stat(Stat::Health)
            &&& g.stat(Stat::Spirit) == g2.stat(Stat::Spirit)
            &&& g.skill(Skill::BDSM) == g2.skill(Skill::BDSM)
            &&& g.has_trait("Broken Will"@) ==> g2.has_trait("Broken Will"@) || (g2.stat(Stat::Spirit) < 20
                && g2.stat(Stat::Health) < 20)
            &&& g.has_trait("Masochist"@) ==> g2.has_trait("Masochist"@) || g2.skill(Skill::BDSM) > 30
            &&& g.has_trait("Mind Fucked"@) ==> g2.has_trait("Mind Fucked"@) || g2.stat(Stat::Health) < 10
            &&& g2.has_trait("Broken Will"@) ==> g.has_trait("Broken Will"@)
            &&& g2.has_trait("Masochist"@) ==> g.has_trait("Masochist"@)
            &&& g2.has_trait("Mind Fucked"@) ==> g.has_trait("Mind Fucked"@)
        }),
{
    lemma_gain_names_differ();
    let bw = "Broken Will"@;
    let ma = "Masochist"@;
    let mf = "Mind Fucked"@;
    let (g3, ev3) = maybe_gain(
        g2,
        ev2,
        g2.stat(Stat::Spirit) < 20 && g2.stat(Stat::Health) < 20,
        gain_chance(5 + crate::inventory::trunc_div(wm, 2), girl_t),
        r.broken_will as int,
        bw,
        "Girl's will has been broken!"@,
    );
    lemma_push_other(g2.traits, bw, ma);
    lemma_push_other(g2.traits, bw, mf);
    let (g4, ev4) = maybe_gain(
        g3,
        ev3,
        g3.skill(Skill::BDSM) > 30,
        gain_chance(10 + wm, girl_t),
        r.masochist as int,
        ma,
        "Girl has become a masochist"@,
    );
    lemma_push_other(g3.traits, ma, bw);
    lemma_push_other(g3.traits, ma, mf);
    let (g5, ev5) = maybe_gain(
        g4,
        ev4,
        g2.stat(Stat::Health) < 10,
        gain_chance(10 + wm, girl_t),
        r.mind_fucked as int,
        mf,
        "Girl has been mind fucked"@,
    );
    lemma_push_other(g4.traits, mf, bw);
    lemma_push_other(g4.traits, mf, ma);
    assert(trait_gains(g2, ev2, wm, girl_t, r).0 == g5);
}

/// A torture session gives a girl a trait only when she qualifies after the
/// session's stat changes: Broken Will when both her health and her spirit
/// are under 20 (so a girl left with 20 health or more, or 20 spirit or more,
/// never gains it), Masochist when her BDSM is over 30, Mind Fucked when her
/// health is under 10. A trait she had she keeps.
pub proof fn law_torture_gains_need_qualifying(
    i: InmateView,
    torture_mod: i32,
    is_player: bool,
    r: TortureRolls,
)
    ensures
        ({
            let g = torture_girl(i, torture_mod, is_player, r).0;
            &&& !i.girl.has_trait("Broken Will"@) && g.has_trait("Broken Will"@) ==> g.stat(Stat::Health) < 20
                && g.stat(Stat::Spirit) < 20
            &&& (g.stat(Stat::Health) >= 20 || g.stat(Stat::Spirit) >= 20) ==> (g.has_trait("Broken Will"@)
                == i.girl.has_trait("Broken Will"@))
            &&& !i.girl.has_trait("Masochist"@) && g.has_trait("Masochist"@) ==> g.skill(Skill::BDSM) > 30
            &&& !i.girl.has_trait("Mind Fucked"@) && g.has_trait("Mind Fucked"@) ==> g.stat(Stat::Health) < 10
        }),
{
    lemma_gain_names_differ();
    lemma_session_keeps_trait(i, r, "Broken Will"@);
    lemma_session_keeps_trait(i, r, "Masochist"@);
    lemma_session_keeps_trait(i, r, "Mind Fucked"@);
    let (g2, ev2) = torture_before_gains(i, r);
    lemma_trait_gains_conditions(g2, ev2, week_mod(i, torture_mod), !is_player, r);
}

/// A torture session leaves the girl marked as tortured today.
proof fn lemma_torture_marks_girl(i: InmateView, torture_mod: i32, is_player: bool, r: TortureRolls)
    ensures
        torture_girl(i, torture_mod, is_player, r).0.tortured_today,
{
    let (g1, ev1) = torture_stats(GirlView { tortured_today: true, ..i.girl });
    assert(g1.tortured_today);
    let (g2, ev2) = injure(g1, ev1, injury_chance(g1), r);
    assert(g2.tortured_today);
}

/// Torture happens at most once a day: a request on a customer or out of
/// range changes nothing and reports nothing, and after a first request a
/// second one on the same place, whatever its draws, is refused, changes
/// nothing and reports nothing.
pub proof fn law_second_torture_refused(
    before: Seq<InmateView>,
    mid: Seq<InmateView>,
    after: Seq<InmateView>,
    ev1: Seq<Seq<char>>,
    ev2: Seq<Seq<char>>,
    index: int,
    torture_mod1: i32,
    torture_mod2: i32,
    is_player1: bool,
    is_player2: bool,
    r1: TortureRolls,
    r2: TortureRolls,
)
    requires
        torture_result(before, mid, ev1, index, torture_mod1, is_player1, r1),
        torture_result(mid, after, ev2, index, torture_mod2, is_player2, r2),
    ensures
        (index < 0 || index >= before.len() || before[index].is_customer) ==> mid == before && ev1.len() == 0,
        !torture_proceeds(mid, index),
        after == mid,
        ev2.len() == 0,
{
    if torture_proceeds(before, index) {
        lemma_torture_marks_girl(before[index], torture_mod1, is_player1, r1);
        assert(mid[index].girl.tortured_today);
    }
}

impl Default for DungeonManager {
    fn default() -> (m: DungeonManager)
        ensures
            m.inmates@.len() == 0,
    {
        DungeonManager::new()
    }
}

} // verus!
