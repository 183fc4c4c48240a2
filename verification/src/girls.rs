//! The collection of girls, and the rules by which a girl's stats, skills,
//! traits and status conditions are read and changed.
use vstd::prelude::*;
use crate::enums::{Skill, Stat, Status};
use crate::girl::{girl_from_xml, Girl, GirlView, GirlsXml};
use crate::strs::str_eq;

verus! {

/// `v` limited to the closed range `[lo, hi]`.
pub open spec fn clamp(v: int, lo: int, hi: int) -> int {
    if v < lo {
        lo
    } else if v > hi {
        hi
    } else {
        v
    }
}

/// `v` limited to the range of `i32`.
pub open spec fn sat_i32(v: int) -> i32 {
    clamp(v, i32::MIN as int, i32::MAX as int) as i32
}

/// Lowest value a stat can take (the editor's slider ranges).
pub open spec fn stat_min(s: Stat) -> int {
    match s {
        Stat::Age => 18,
        _ => 0,
    }
}

/// Highest value a stat can take (the editor's slider ranges).
pub open spec fn stat_max(s: Stat) -> int {
    match s {
        Stat::Level => 255,
        Stat::AskPrice => 10000,
        Stat::Exp => 32000,
        Stat::Age => 99,
        _ => 100,
    }
}

/// Skills range over 0 to 100.
pub open spec fn skill_max() -> int {
    100
}

/// The sequence `s` with every occurrence of `x` taken out, order kept.
pub open spec fn remove_all<T>(s: Seq<T>, x: T) -> Seq<T>
    decreases s.len(),
{
    if s.len() == 0 {
        s
    } else {
        let r = remove_all(s.drop_last(), x);
        if s.last() == x {
            r
        } else {
            r.push(s.last())
        }
    }
}

/// The first index at which `x` occurs in `s` (meaningful when `s` contains `x`).
pub open spec fn first_index<T>(s: Seq<T>, x: T) -> int {
    choose|i: int| 0 <= i < s.len() && s[i] == x && forall|j: int| 0 <= j < i ==> s[j] != x
}

impl GirlView {
    /// The effective value of a stat: base plus modifiers plus temporary change, within the stat's range.
    pub open spec fn stat(self, s: Stat) -> int {
        let c = s.spec_code();
        clamp(self.stats[c] + self.stat_mods[c] + self.temp_stats[c], stat_min(s), stat_max(s))
    }

    /// The effective value of a skill: base plus modifiers plus temporary change, within 0..=100.
    pub open spec fn skill(self, k: Skill) -> int {
        let c = k.spec_code();
        clamp(self.skills[c] + self.skill_mods[c] + self.temp_skills[c], 0, skill_max())
    }

    /// The girl after a permanent stat change of `amount`, the base kept within the stat's range.
    pub open spec fn add_stat(self, s: Stat, amount: int) -> GirlView {
        let c = s.spec_code();
        GirlView {
            stats: self.stats.update(c, clamp(self.stats[c] + amount, stat_min(s), stat_max(s)) as i32),
            ..self
        }
    }

    /// The girl after a temporary stat change of `amount` (saturating at the `i32` range).
    pub open spec fn add_temp_stat(self, s: Stat, amount: int) -> GirlView {
        let c = s.spec_code();
        GirlView { temp_stats: self.temp_stats.update(c, sat_i32(self.temp_stats[c] + amount)), ..self }
    }

    /// The girl after a permanent skill change of `amount`, the base kept within 0..=100.
    pub open spec fn add_skill(self, k: Skill, amount: int) -> GirlView {
        let c = k.spec_code();
        GirlView { skills: self.skills.update(c, clamp(self.skills[c] + amount, 0, skill_max()) as i32), ..self }
    }

    /// The girl after a temporary skill change of `amount` (saturating at the `i32` range).
    pub open spec fn add_temp_skill(self, k: Skill, amount: int) -> GirlView {
        let c = k.spec_code();
        GirlView { temp_skills: self.temp_skills.update(c, sat_i32(self.temp_skills[c] + amount)), ..self }
    }

    /// Whether the girl has the named trait.
    pub open spec fn has_trait(self, name: Seq<char>) -> bool {
        self.traits.contains(name)
    }

    /// The girl with the named trait added at the end, unless she already has it.
    pub open spec fn with_trait(self, name: Seq<char>) -> GirlView {
        if self.has_trait(name) {
            self
        } else {
            GirlView { traits: self.traits.push(name), ..self }
        }
    }

    /// The girl with the first occurrence of the named trait taken out, if she has it.
    pub open spec fn without_trait(self, name: Seq<char>) -> GirlView {
        if self.has_trait(name) {
            GirlView { traits: self.traits.remove(first_index(self.traits, name)), ..self }
        } else {
            self
        }
    }

    /// Whether the girl carries the status condition.
    pub open spec fn has_status(self, st: Status) -> bool {
        self.statuses.contains(st)
    }

    /// The girl with every occurrence of the status condition taken out.
    pub open spec fn without_status(self, st: Status) -> GirlView {
        GirlView { statuses: remove_all(self.statuses, st), ..self }
    }
}

/// `v` limited to `[lo, hi]`.
pub fn clamp_i64(v: i64, lo: i64, hi: i64) -> (r: i64)
    requires
        lo <= hi,
    ensures
        r == clamp(v as int, lo as int, hi as int),
{
    if v < lo {
        lo
    } else if v > hi {
        hi
    } else {
        v
    }
}

/// The range of a stat, as in `stat_min` / `stat_max`.
pub fn stat_range(s: Stat) -> (r: (i64, i64))
    ensures
        r.0 == stat_min(s),
        r.1 == stat_max(s),
{
    match s {
        Stat::Level => (0, 255),
        Stat::AskPrice => (0, 10000),
        Stat::Exp => (0, 32000),
        Stat::Age => (18, 99),
        _ => (0, 100),
    }
}

/// Manages the collection of all girls in the game.
#[derive(Debug)]
pub struct GirlManager {
    pub girls: Vec<Girl>,
}

impl GirlManager {
    /// An empty collection.
    pub fn new() -> (m: GirlManager)
        ensures
            m.girls@.len() == 0,
    {
        GirlManager { girls: Vec::new() }
    }

    /// Append a girl; her id is her position.
    pub fn add_girl(&mut self, girl: Girl) -> (id: usize)
        ensures
            id == old(self).girls@.len(),
            final(self).girls@ == old(self).girls@.push(girl),
    {
        let id = self.girls.len();
        self.girls.push(girl);
        id
    }

    /// The girl with the given id, if there is one.
    pub fn get_girl(&self, id: usize) -> (r: Option<&Girl>)
        ensures
            id < self.girls@.len() ==> r == Some(&self.girls@[id as int]),
            id >= self.girls@.len() ==> r is None,
    {
        if id < self.girls.len() {
            Some(&self.girls[id])
        } else {
            None
        }
    }

    /// Take the girl with the given id out of the collection, if there is one.
    pub fn remove_girl(&mut self, id: usize) -> (r: Option<Girl>)
        ensures
            id < old(self).girls@.len() ==> r == Some(old(self).girls@[id as int])
                && final(self).girls@ == old(self).girls@.remove(id as int),
            id >= old(self).girls@.len() ==> r is None && final(self).girls@ == old(self).girls@,
    {
        if id < self.girls.len() {
            Some(self.girls.remove(id))
        } else {
            None
        }
    }

    /// Mutable access to the girl with the given id, if there is one.
    pub fn get_girl_mut(&mut self, id: usize) -> (r: Option<&mut Girl>)
        ensures
            id < old(self).girls@.len() ==> r is Some && *r->0 == old(self).girls@[id as int]
                && final(self).girls@ == old(self).girls@.update(id as int, *final(r->0)),
            id >= old(self).girls@.len() ==> r is None && final(self).girls@ == old(self).girls@,
    {
        if id < self.girls.len() {
            Some(&mut self.girls[id])
        } else {
            None
        }
    }

    /// Add every girl of the girls data file, converted (see `girl_from_xml`), in file order.
    pub fn load_girls_from_xml(&mut self, xml: GirlsXml)
        ensures
            final(self).girls@.len() == old(self).girls@.len() + xml.girls@.len(),
            final(self).girls@.take(old(self).girls@.len() as int) == old(self).girls@,
            forall|i: int|
                0 <= i < xml.girls@.len() ==> (#[trigger] final(self).girls@[old(self).girls@.len() + i])@
                    == girl_from_xml(xml.girls@[i]),
    {
        let ghost orig = xml.girls@;
        let ghost start = self.girls@.len();
        let mut rest = xml.girls;
        let total = rest.len();
        let mut k: usize = 0;
        while rest.len() > 0
            invariant
                orig.len() == total,
                rest@ == orig.subrange(k as int, orig.len() as int),
                k <= orig.len(),
                self.girls@.len() == start + k,
                self.girls@.take(start as int) == old(self).girls@,
                start == old(self).girls@.len(),
                forall|i: int| 0 <= i < k ==> (#[trigger] self.girls@[start + i])@ == girl_from_xml(orig[i]),
            decreases rest.len(),
        {
            let x = rest.remove(0);
            assert(x == orig[k as int]);
            assert(rest@ =~= orig.subrange(k + 1, orig.len() as int));
            let g = x.into_girl();
            let ghost pre = self.girls@;
            self.girls.push(g);
            assert(self.girls@.take(start as int) =~= pre.take(start as int));
            assert forall|i: int| 0 <= i < k + 1 implies (#[trigger] self.girls@[start + i])@ == girl_from_xml(
                orig[i],
            ) by {
                if i < k {
                    assert(self.girls@[start + i] == pre[start + i]);
                }
            }
            k = k + 1;
        }
    }

    /// Whether the girl's effective stat reaches the threshold.
    pub fn stat_check(&self, girl: &Girl, stat: Stat, threshold: i32) -> (r: bool)
        ensures
            r == (girl@.stat(stat) >= threshold),
    {
        Self::get_stat(girl, stat) >= threshold
    }

    /// The effective value of a stat (see `GirlView::stat`).
    pub fn get_stat(girl: &Girl, stat: Stat) -> (r: i32)
        ensures
            r == girl@.stat(stat),
    {
        let c = stat.code();
        let (lo, hi) = stat_range(stat);
        let v = girl.stats[c] as i64 + girl.stat_mods[c] as i64 + girl.temp_stats[c] as i64;
        clamp_i64(v, lo, hi) as i32
    }

    /// Change a stat permanently by `amount`, keeping the base within the stat's range.
    pub fn update_stat(girl: &mut Girl, stat: Stat, amount: i32)
        ensures
            final(girl)@ == old(girl)@.add_stat(stat, amount as int),
    {
        let c = stat.code();
        let (lo, hi) = stat_range(stat);
        let v = clamp_i64(girl.stats[c] as i64 + amount as i64, lo, hi);
        girl.stats[c] = v as i32;
    }

    /// Change a stat temporarily by `amount` (saturating).
    pub fn update_temp_stat(girl: &mut Girl, stat: Stat, amount: i32)
        ensures
            final(girl)@ == old(girl)@.add_temp_stat(stat, amount as int),
    {
        let c = stat.code();
        let v = clamp_i64(girl.temp_stats[c] as i64 + amount as i64, i32::MIN as i64, i32::MAX as i64);
        girl.temp_stats[c] = v as i32;
    }

    /// The effective value of a skill (see `GirlView::skill`).
    pub fn get_skill(girl: &Girl, skill: Skill) -> (r: i32)
        ensures
            r == girl@.skill(skill),
    {
        let c = skill.code();
        let v = girl.skills[c] as i64 + girl.skill_mods[c] as i64 + girl.temp_skills[c] as i64;
        clamp_i64(v, 0, 100) as i32
    }

    /// Change a skill permanently by `amount`, keeping the base within 0..=100.
    pub fn update_skill(girl: &mut Girl, skill: Skill, amount: i32)
        ensures
            final(girl)@ == old(girl)@.add_skill(skill, amount as int),
    {
        let c = skill.code();
        let v = clamp_i64(girl.skills[c] as i64 + amount as i64, 0, 100);
        girl.skills[c] = v as i32;
    }

    /// Change a skill temporarily by `amount` (saturating).
    pub fn update_temp_skill(girl: &mut Girl, skill: Skill, amount: i32)
        ensures
            final(girl)@ == old(girl)@.add_temp_skill(skill, amount as int),
    {
        let c = skill.code();
        let v = clamp_i64(girl.temp_skills[c] as i64 + amount as i64, i32::MIN as i64, i32::MAX as i64);
        girl.temp_skills[c] = v as i32;
    }

    /// Whether the girl has the named trait.
    pub fn has_trait(girl: &Girl, trait_name: &str) -> (r: bool)
        ensures
            r == girl@.has_trait(trait_name@),
    {
        let n = girl.traits.len();
        let mut i: usize = 0;
        while i < n
            invariant
                n == girl.traits@.len(),
                0 <= i <= n,
                forall|j: int| 0 <= j < i ==> girl@.traits[j] != trait_name@,
            decreases n - i,
        {
            if str_eq(girl.traits[i].as_str(), trait_name) {
                assert(girl@.traits[i as int] == trait_name@);
                return true;
            }
            i = i + 1;
        }
        false
    }

    /// Add the named trait unless the girl already has it.
    pub fn add_trait(girl: &mut Girl, trait_name: &str)
        ensures
            final(girl)@ == old(girl)@.with_trait(trait_name@),
    {
        if !Self::has_trait(girl, trait_name) {
            let s = String::from_str(trait_name);
            girl.traits.push(s);
            assert(girl@.traits =~= old(girl)@.traits.push(trait_name@));
        }
    }

    /// Take out the first occurrence of the named trait, if the girl has it.
    pub fn remove_trait(girl: &mut Girl, trait_name: &str)
        ensures
            final(girl)@ == old(girl)@.without_trait(trait_name@),
    {
        let n = girl.traits.len();
        let mut i: usize = 0;
        while i < n
            invariant
                n == girl.traits@.len(),
                0 <= i <= n,
                *girl == *old(girl),
                forall|j: int| 0 <= j < i ==> girl@.traits[j] != trait_name@,
            decreases n - i,
        {
            if str_eq(girl.traits[i].as_str(), trait_name) {
                let ghost t = old(girl)@.traits;
                assert(t[i as int] == trait_name@);
                assert(t.contains(trait_name@));
                let ghost fi = first_index(t, trait_name@);
                assert(fi == i) by {
                    if fi < i {
                    } else if fi > i {
                    }
                }
                girl.traits.remove(i);
                assert(girl@.traits =~= t.remove(i as int));
                return;
            }
            i = i + 1;
        }
    }

    /// Whether the girl carries the status condition.
    pub fn has_status(girl: &Girl, st: Status) -> (r: bool)
        ensures
            r == girl@.has_status(st),
    {
        let n = girl.status.statuses.len();
        let mut i: usize = 0;
        while i < n
            invariant
                n == girl.status.statuses@.len(),
                0 <= i <= n,
                forall|j: int| 0 <= j < i ==> girl@.statuses[j] != st,
            decreases n - i,
        {
            if girl.status.statuses[i] == st {
                assert(girl@.statuses[i as int] == st);
                return true;
            }
            i = i + 1;
        }
        false
    }

    /// Take out every occurrence of the status condition.
    pub fn remove_status(girl: &mut Girl, st: Status)
        ensures
            final(girl)@ == old(girl)@.without_status(st),
    {
        let ghost s = girl.status.statuses@;
        let mut kept: Vec<Status> = Vec::new();
        let n = girl.status.statuses.len();
        let mut i: usize = 0;
        while i < n
            invariant
                n == s.len(),
                s == girl.status.statuses@,
                *girl == *old(girl),
                0 <= i <= n,
                kept@ == remove_all(s.take(i as int), st),
            decreases n - i,
        {
            let x = girl.status.statuses[i];
            assert(s.take(i + 1).drop_last() =~= s.take(i as int));
            if x != st {
                kept.push(x);
            }
            i = i + 1;
        }
        assert(s.take(n as int) =~= s);
        girl.status.statuses = kept;
    }
}

/// A permanent stat change followed by the opposite change gives the girl
/// back as she was, when neither change reaches an end of the stat's range.
pub proof fn law_stat_change_undone(g: GirlView, s: Stat, amount: int)
    requires
        g.stats.len() == 22,
        stat_min(s) <= g.stats[s.spec_code()] <= stat_max(s),
        stat_min(s) <= g.stats[s.spec_code()] + amount <= stat_max(s),
    ensures
        g.add_stat(s, amount).add_stat(s, -amount) == g,
{
    let c = s.spec_code();
    assert(g.add_stat(s, amount).add_stat(s, -amount).stats =~= g.stats);
    assert(g.add_stat(s, amount).add_stat(s, -amount) =~= g);
}

/// A permanent skill change followed by the opposite change gives the girl
/// back as she was, when neither change leaves 0..=100.
pub proof fn law_skill_change_undone(g: GirlView, k: Skill, amount: int)
    requires
        g.skills.len() == 10,
        0 <= g.skills[k.spec_code()] <= 100,
        0 <= g.skills[k.spec_code()] + amount <= 100,
    ensures
        g.add_skill(k, amount).add_skill(k, -amount) == g,
{
    assert(g.add_skill(k, amount).add_skill(k, -amount).skills =~= g.skills);
    assert(g.add_skill(k, amount).add_skill(k, -amount) =~= g);
}

/// After any permanent stat change the stat's base lies within its range,
/// and the effective value of every stat always does.
pub proof fn law_stats_stay_in_range(g: GirlView, s: Stat, t: Stat, amount: int)
    requires
        g.stats.len() == 22,
    ensures
        stat_min(s) <= g.add_stat(s, amount).stats[s.spec_code()] <= stat_max(s),
        stat_min(t) <= g.stat(t) <= stat_max(t),
{
}

/// After any permanent skill change the skill's base lies within 0..=100,
/// and the effective value of every skill always does.
pub proof fn law_skills_stay_in_range(g: GirlView, k: Skill, j: Skill, amount: int)
    requires
        g.skills.len() == 10,
    ensures
        0 <= g.add_skill(k, amount).skills[k.spec_code()] <= 100,
        0 <= g.skill(j) <= 100,
{
}

/// Adding a trait makes the girl have it; adding it again changes nothing.
pub proof fn law_add_trait(g: GirlView, name: Seq<char>)
    ensures
        g.with_trait(name).has_trait(name),
        g.with_trait(name).with_trait(name) == g.with_trait(name),
{
    if !g.has_trait(name) {
        assert(g.with_trait(name).traits[g.traits.len() as int] == name);
    }
}

/// Removing a trait she did not have before it was added gives the girl back as she was.
pub proof fn law_add_then_remove_trait(g: GirlView, name: Seq<char>)
    requires
        !g.has_trait(name),
    ensures
        g.with_trait(name).without_trait(name) == g,
{
    let t = g.traits.push(name);
    assert(t[g.traits.len() as int] == name);
    assert(t.contains(name));
    let fi = first_index(t, name);
    assert(fi == g.traits.len()) by {
        if fi < g.traits.len() {
            assert(g.traits[fi] == name);
        }
    }
    assert(t.remove(fi) =~= g.traits);
    assert(g.with_trait(name).without_trait(name) =~= g);
}

proof fn lemma_remove_all_absent<T>(s: Seq<T>, x: T)
    ensures
        !remove_all(s, x).contains(x),
    decreases s.len(),
{
    if s.len() > 0 {
        lemma_remove_all_absent(s.drop_last(), x);
        let r = remove_all(s.drop_last(), x);
        if s.last() != x {
            assert forall|i: int| 0 <= i < r.push(s.last()).len() implies r.push(s.last())[i] != x by {
                if i < r.len() {
                    assert(r[i] != x);
                }
            }
        }
    }
}

/// After a status condition is removed the girl no longer carries it.
pub proof fn law_removed_status_gone(g: GirlView, st: Status)
    ensures
        !g.without_status(st).has_status(st),
{
    lemma_remove_all_absent(g.statuses, st);
}

/// A girl added to the collection is found under the id she was given, and
/// taking her out again leaves the collection as it was.
pub proof fn law_added_girl_found(girls: Seq<Girl>, g: Girl)
    ensures
        girls.push(g)[girls.len() as int] == g,
        girls.push(g).remove(girls.len() as int) == girls,
{
    assert(girls.push(g).remove(girls.len() as int) =~= girls);
}

impl Default for GirlManager {
    fn default() -> (m: GirlManager)
        ensures
            m.girls@.len() == 0,
    {
        GirlManager::new()
    }
}

} // verus!
