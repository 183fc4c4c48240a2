//! The girl data model and its conversion from the girls data file.
use vstd::prelude::*;
use crate::enums::{ActionType, JobType, Skill, Stat, Status};

verus! {

/// Number of per-girl script flags.
pub const NUM_GIRL_FLAGS: usize = 30;

/// Maximum traits a girl can have.
pub const MAX_TRAITS: usize = 60;

/// Maximum inventory slots per girl.
pub const MAX_INVENTORY: usize = 40;

/// Status flags of a girl.
#[derive(Debug)]
pub struct GirlStatus {
    pub statuses: Vec<Status>,
}

/// A child belonging to a girl.
#[derive(Debug, Clone, Copy)]
pub struct Child {
    pub is_girl: bool,
    pub age_weeks: u32,
    pub grown: bool,
}

/// Complete girl data model.
#[derive(Debug)]
pub struct Girl {
    pub name: String,
    pub realname: String,
    pub desc: String,
    // Core stats & skills, indexed by `Stat::code` / `Skill::code`
    pub stats: [i32; 22],
    pub stat_mods: [i32; 22],
    pub temp_stats: [i32; 22],
    pub skills: [i32; 10],
    pub skill_mods: [i32; 10],
    pub temp_skills: [i32; 10],
    // Traits
    pub traits: Vec<String>,
    pub remembered_traits: Vec<String>,
    // Status
    pub status: GirlStatus,
    pub virgin: bool,
    pub use_anti_preg: bool,
    pub withdrawals: u8,
    // Jobs
    pub job_day: Option<JobType>,
    pub job_night: Option<JobType>,
    pub prev_job_day: Option<JobType>,
    pub prev_job_night: Option<JobType>,
    // Enjoyment of action types, indexed by action type
    pub enjoyment: [i32; 12],
    // Inventory (item ids into the global item list) and equipped flags per slot
    pub inventory: Vec<usize>,
    pub equipped: Vec<bool>,
    // Pregnancy / life
    pub weeks_pregnant: i32,
    pub preg_cooldown: i32,
    pub weeks_past: u32,
    pub birthday: u32,
    pub num_customers: u64,
    pub money: i32,
    pub accommodation_level: u8,
    pub pay: i32,
    // Run away / spotted
    pub run_away: u8,
    pub spotted: u8,
    pub tortured_today: bool,
    pub just_gave_birth: bool,
    // Per-girl script flags
    pub flags: [bool; 30],
    pub days_unhappy: u8,
    pub fetish_types: u64,
    pub children: Vec<Child>,
}

/// The names of a list of strings, as character sequences.
pub open spec fn string_views(v: Seq<String>) -> Seq<Seq<char>> {
    v.map_values(|s: String| s@)
}

/// The mathematical model of a girl: every field, with strings and lists as sequences.
#[verifier::ext_equal]
pub struct GirlView {
    pub name: Seq<char>,
    pub realname: Seq<char>,
    pub desc: Seq<char>,
    pub stats: Seq<i32>,
    pub stat_mods: Seq<i32>,
    pub temp_stats: Seq<i32>,
    pub skills: Seq<i32>,
    pub skill_mods: Seq<i32>,
    pub temp_skills: Seq<i32>,
    pub traits: Seq<Seq<char>>,
    pub remembered_traits: Seq<Seq<char>>,
    pub statuses: Seq<Status>,
    pub virgin: bool,
    pub use_anti_preg: bool,
    pub withdrawals: u8,
    pub job_day: Option<JobType>,
    pub job_night: Option<JobType>,
    pub prev_job_day: Option<JobType>,
    pub prev_job_night: Option<JobType>,
    pub enjoyment: Seq<i32>,
    pub inventory: Seq<usize>,
    pub equipped: Seq<bool>,
    pub weeks_pregnant: i32,
    pub preg_cooldown: i32,
    pub weeks_past: u32,
    pub birthday: u32,
    pub num_customers: u64,
    pub money: i32,
    pub accommodation_level: u8,
    pub pay: i32,
    pub run_away: u8,
    pub spotted: u8,
    pub tortured_today: bool,
    pub just_gave_birth: bool,
    pub flags: Seq<bool>,
    pub days_unhappy: u8,
    pub fetish_types: u64,
    pub children: Seq<Child>,
}

impl View for Girl {
    type V = GirlView;

    open spec fn view(&self) -> GirlView {
        GirlView {
            name: self.name@,
            realname: self.realname@,
            desc: self.desc@,
            stats: self.stats@,
            stat_mods: self.stat_mods@,
            temp_stats: self.temp_stats@,
            skills: self.skills@,
            skill_mods: self.skill_mods@,
            temp_skills: self.temp_skills@,
            traits: string_views(self.traits@),
            remembered_traits: string_views(self.remembered_traits@),
            statuses: self.status.statuses@,
            virgin: self.virgin,
            use_anti_preg: self.use_anti_preg,
            withdrawals: self.withdrawals,
            job_day: self.job_day,
            job_night: self.job_night,
            prev_job_day: self.prev_job_day,
            prev_job_night: self.prev_job_night,
            enjoyment: self.enjoyment@,
            inventory: self.inventory@,
            equipped: self.equipped@,
            weeks_pregnant: self.weeks_pregnant,
            preg_cooldown: self.preg_cooldown,
            weeks_past: self.weeks_past,
            birthday: self.birthday,
            num_customers: self.num_customers,
            money: self.money,
            accommodation_level: self.accommodation_level,
            pay: self.pay,
            run_away: self.run_away,
            spotted: self.spotted,
            tortured_today: self.tortured_today,
            just_gave_birth: self.just_gave_birth,
            flags: self.flags@,
            days_unhappy: self.days_unhappy,
            fetish_types: self.fetish_types,
            children: self.children@,
        }
    }
}

/// The model of a freshly defaulted girl: empty texts and lists, every number zero, every flag off.
pub open spec fn blank_view() -> GirlView {
    GirlView {
        name: Seq::empty(),
        realname: Seq::empty(),
        desc: Seq::empty(),
        stats: Seq::new(22, |i: int| 0i32),
        stat_mods: Seq::new(22, |i: int| 0i32),
        temp_stats: Seq::new(22, |i: int| 0i32),
        skills: Seq::new(10, |i: int| 0i32),
        skill_mods: Seq::new(10, |i: int| 0i32),
        temp_skills: Seq::new(10, |i: int| 0i32),
        traits: Seq::empty(),
        remembered_traits: Seq::empty(),
        statuses: Seq::empty(),
        virgin: false,
        use_anti_preg: false,
        withdrawals: 0,
        job_day: None,
        job_night: None,
        prev_job_day: None,
        prev_job_night: None,
        enjoyment: Seq::new(12, |i: int| 0i32),
        inventory: Seq::empty(),
        equipped: Seq::empty(),
        weeks_pregnant: 0,
        preg_cooldown: 0,
        weeks_past: 0,
        birthday: 0,
        num_customers: 0,
        money: 0,
        accommodation_level: 0,
        pay: 0,
        run_away: 0,
        spotted: 0,
        tortured_today: false,
        just_gave_birth: false,
        flags: Seq::new(30, |i: int| false),
        days_unhappy: 0,
        fetish_types: 0,
        children: Seq::empty(),
    }
}

impl Girl {
    /// A girl with empty text fields and every number, flag and list at zero/empty.
    pub fn new_blank() -> (g: Girl)
        ensures
            g@ == blank_view(),
    {
        let g = Girl {
            name: String::new(),
            realname: String::new(),
            desc: String::new(),
            stats: [0i32; 22],
            stat_mods: [0i32; 22],
            temp_stats: [0i32; 22],
            skills: [0i32; 10],
            skill_mods: [0i32; 10],
            temp_skills: [0i32; 10],
            traits: Vec::new(),
            remembered_traits: Vec::new(),
            status: GirlStatus { statuses: Vec::new() },
            virgin: false,
            use_anti_preg: false,
            withdrawals: 0,
            job_day: None,
            job_night: None,
            prev_job_day: None,
            prev_job_night: None,
            enjoyment: [0i32; 12],
            inventory: Vec::new(),
            equipped: Vec::new(),
            weeks_pregnant: 0,
            preg_cooldown: 0,
            weeks_past: 0,
            birthday: 0,
            num_customers: 0,
            money: 0,
            accommodation_level: 0,
            pay: 0,
            run_away: 0,
            spotted: 0,
            tortured_today: false,
            just_gave_birth: false,
            flags: [false; 30],
            days_unhappy: 0,
            fetish_types: 0,
            children: Vec::new(),
        };
        assert(g.stats@ =~= Seq::new(22, |i: int| 0i32));
        assert(g.stat_mods@ =~= Seq::new(22, |i: int| 0i32));
        assert(g.temp_stats@ =~= Seq::new(22, |i: int| 0i32));
        assert(g.skills@ =~= Seq::new(10, |i: int| 0i32));
        assert(g.skill_mods@ =~= Seq::new(10, |i: int| 0i32));
        assert(g.temp_skills@ =~= Seq::new(10, |i: int| 0i32));
        assert(g.enjoyment@ =~= Seq::new(12, |i: int| 0i32));
        assert(g.flags@ =~= Seq::new(30, |i: int| false));
        assert(g@.traits =~= Seq::<Seq<char>>::empty());
        assert(g@.remembered_traits =~= Seq::<Seq<char>>::empty());
        assert(g@ =~= blank_view());
        g
    }
}

impl Default for Girl {
    fn default() -> (g: Girl)
        ensures
            g@ == blank_view(),
    {
        Girl::new_blank()
    }
}


/// The girls data file: a list of girl records.
#[derive(Debug)]
pub struct GirlsXml {
    pub girls: Vec<GirlXml>,
}

/// A trait named in a girl record.
#[derive(Debug)]
pub struct TraitXml {
    pub name: String,
}

/// One girl record of the girls data file: name, description, gold, the 22
/// stats and 10 skills in their declaration order, status text and traits.
#[derive(Debug)]
pub struct GirlXml {
    pub name: String,
    pub desc: String,
    pub gold: i32,
    pub charisma: i32,
    pub happiness: i32,
    pub libido: i32,
    pub constitution: i32,
    pub intelligence: i32,
    pub confidence: i32,
    pub mana: i32,
    pub agility: i32,
    pub fame: i32,
    pub level: i32,
    pub ask_price: i32,
    pub house: i32,
    pub exp: i32,
    pub age: i32,
    pub obedience: i32,
    pub spirit: i32,
    pub beauty: i32,
    pub tiredness: i32,
    pub health: i32,
    pub pc_fear: i32,
    pub pc_love: i32,
    pub pc_hate: i32,
    pub anal: i32,
    pub magic: i32,
    pub bdsm: i32,
    pub normal_sex: i32,
    pub beastiality: i32,
    pub group: i32,
    pub lesbian: i32,
    pub service: i32,
    pub strip: i32,
    pub combat: i32,
    pub status: String,
    pub traits: Vec<TraitXml>,
}

/// The names of a list of trait records.
pub open spec fn trait_names(v: Seq<TraitXml>) -> Seq<Seq<char>> {
    v.map_values(|t: TraitXml| t.name@)
}

/// The girl a record describes: a blank girl with the record's name (also as
/// real name), description, gold as money, stats, skills and trait names.
/// The status text is read but changes nothing.
pub open spec fn girl_from_xml(x: GirlXml) -> GirlView {
    GirlView {
        name: x.name@,
        realname: x.name@,
        desc: x.desc@,
        money: x.gold,
        stats: seq![x.charisma, x.happiness, x.libido, x.constitution, x.intelligence, x.confidence, x.mana, x.agility, x.fame, x.level, x.ask_price, x.house, x.exp, x.age, x.obedience, x.spirit, x.beauty, x.tiredness, x.health, x.pc_fear, x.pc_love, x.pc_hate],
        skills: seq![x.anal, x.magic, x.bdsm, x.normal_sex, x.beastiality, x.group, x.lesbian, x.service, x.strip, x.combat],
        traits: trait_names(x.traits@),
        ..blank_view()
    }
}

impl GirlXml {
    /// Convert from the record to a girl (see `girl_from_xml`).
    pub fn into_girl(self) -> (g: Girl)
        ensures
            g@ == girl_from_xml(self),
    {
        let mut girl = Girl::new_blank();
        let mut traits: Vec<String> = Vec::new();
        let n = self.traits.len();
        let mut i: usize = 0;
        while i < n
            invariant
                n == self.traits@.len(),
                0 <= i <= n,
                string_views(traits@) == trait_names(self.traits@).take(i as int),
            decreases n - i,
        {
            let ghost pre = traits@;
            traits.push(self.traits[i].name.clone());
            assert(string_views(traits@) =~= string_views(pre).push(self.traits@[i as int].name@));
            assert(trait_names(self.traits@).take(i + 1) =~= trait_names(self.traits@).take(i as int).push(
                self.traits@[i as int].name@,
            ));
            i = i + 1;
        }
        assert(trait_names(self.traits@).take(n as int) =~= trait_names(self.traits@));
        girl.realname = self.name.clone();
        girl.name = self.name;
        girl.desc = self.desc;
        girl.money = self.gold;
        girl.stats = [self.charisma, self.happiness, self.libido, self.constitution, self.intelligence, self.confidence, self.mana, self.agility, self.fame, self.level, self.ask_price, self.house, self.exp, self.age, self.obedience, self.spirit, self.beauty, self.tiredness, self.health, self.pc_fear, self.pc_love, self.pc_hate];
        girl.skills = [self.anal, self.magic, self.bdsm, self.normal_sex, self.beastiality, self.group, self.lesbian, self.service, self.strip, self.combat];
        girl.traits = traits;
        assert(girl@.stats =~= girl_from_xml(self).stats);
        assert(girl@.skills =~= girl_from_xml(self).skills);
        assert(girl@ =~= girl_from_xml(self));
        girl
    }
}

} // verus!
