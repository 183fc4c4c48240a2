//! Customers visiting the brothels.
use vstd::prelude::*;
use crate::rng::{roll_i32, roll_usize};
use crate::enums::Skill;

verus! {

/// Wealth class of a customer.
#[derive(Debug, Clone, Copy, PartialEq, Eq, Structural)]
pub enum CustomerClass {
    Poor,
    Middle,
    Rich,
}

/// A single customer visiting a brothel.
#[derive(Debug, Clone)]
pub struct Customer {
    pub class: CustomerClass,
    pub money: i32,
    pub is_group: bool,
    pub group_size: i32,
    pub is_female: bool,
    pub is_official: bool,
    pub fetish: i32,
    /// Skill code of the customer's sex preference.
    pub preferred_skill: i32,
    /// General stat values (combat, appearance, ...).
    pub stats: [i32; 10],
}

impl Default for Customer {
    fn default() -> (c: Customer)
        ensures
            c.class == CustomerClass::Poor,
            c.money == 50,
            !c.is_group,
            c.group_size == 1,
            !c.is_female,
            !c.is_official,
            c.fetish == 0,
            c.preferred_skill == 3,
            c.stats@ == Seq::new(10, |i: int| 50i32),
    {
        let c = Customer {
            class: CustomerClass::Poor,
            money: 50,
            is_group: false,
            group_size: 1,
            is_female: false,
            is_official: false,
            fetish: 0,
            preferred_skill: 3,
            stats: [50; 10],
        };
        assert(c.stats@ =~= Seq::new(10, |i: int| 50i32));
        c
    }
}

/// The random draws that make one customer (see `customer_rolls_in_range`).
#[derive(Debug, Clone, Copy)]
pub struct CustomerRolls {
    pub group: i32,
    pub group_size: i32,
    pub female: i32,
    pub stats: [i32; 10],
    pub class: i32,
    pub money: i32,
    pub official: i32,
    pub fetish: i32,
    pub preference: usize,
    pub female_preference: i32,
}

/// The wealth class a class draw gives: under 50 poor, under 85 middle, else rich.
pub open spec fn class_of(roll: int) -> CustomerClass {
    if roll < 50 {
        CustomerClass::Poor
    } else if roll < 85 {
        CustomerClass::Middle
    } else {
        CustomerClass::Rich
    }
}

/// The money range of a class: 20..=120 poor, 60..=260 middle, 600..=2600 rich.
pub open spec fn money_range(c: CustomerClass) -> (int, int) {
    match c {
        CustomerClass::Poor => (20, 120),
        CustomerClass::Middle => (60, 260),
        CustomerClass::Rich => (600, 2600),
    }
}

/// The sex skills a customer may prefer: Anal, BDSM, NormalSex, Beastiality, Group, Lesbian.
pub open spec fn sex_skills() -> Seq<i32> {
    seq![0i32, 2, 3, 4, 5, 6]
}

/// Each draw lies in the range it is drawn from.
pub open spec fn customer_rolls_in_range(d: CustomerRolls) -> bool {
    let (lo, hi) = money_range(class_of(d.class as int));
    &&& 0 <= d.group < 100
    &&& 1 <= d.group_size <= 3
    &&& 0 <= d.female < 100
    &&& forall|i: int| 0 <= i < 10 ==> 0 <= #[trigger] d.stats@[i] < 81
    &&& 0 <= d.class < 100
    &&& lo <= d.money <= hi
    &&& 0 <= d.official < 100
    &&& 0 <= d.fetish < 15
    &&& d.preference < 6
    &&& 0 <= d.female_preference < 2
}

/// The customer the draws make: a group (of the drawn size) at 4%, female at
/// 15%, stats 20 above their draws, class and money, official at 1%, the
/// fetish, and a preferred skill, Lesbian or Beastiality for a woman.
pub open spec fn customer_of(c: Customer, d: CustomerRolls) -> bool {
    let female = d.female < 15;
    &&& c.is_group == (d.group < 4)
    &&& c.group_size == if d.group < 4 {
        d.group_size
    } else {
        1
    }
    &&& c.is_female == female
    &&& c.stats@ == d.stats@.map_values(|s: i32| (s + 20) as i32)
    &&& c.class == class_of(d.class as int)
    &&& c.money == d.money
    &&& c.is_official == (d.official == 0)
    &&& c.fetish == d.fetish
    &&& c.preferred_skill == if female {
        if d.female_preference == 0 {
            6i32
        } else {
            4i32
        }
    } else {
        sex_skills()[d.preference as int]
    }
}

/// Customer generation for brothels.
#[derive(Debug)]
pub struct CustomerGenerator {
    pub num_customers_per_brothel: Vec<i32>,
}

impl CustomerGenerator {
    /// No counts yet.
    pub fn new() -> (g: CustomerGenerator)
        ensures
            g.num_customers_per_brothel@.len() == 0,
    {
        CustomerGenerator { num_customers_per_brothel: Vec::new() }
    }

    /// Get the customer count for a specific brothel; 0 for one without a count.
    pub fn get_customers(&self, brothel_id: usize) -> (n: i32)
        ensures
            brothel_id < self.num_customers_per_brothel@.len() ==> n == self.num_customers_per_brothel@[brothel_id as int],
            brothel_id >= self.num_customers_per_brothel@.len() ==> n == 0,
    {
        if brothel_id < self.num_customers_per_brothel.len() {
            self.num_customers_per_brothel[brothel_id]
        } else {
            0
        }
    }

    /// The customer the given draws make (see `customer_of`).
    pub fn customer_with_rolls(d: &CustomerRolls) -> (c: Customer)
        requires
            customer_rolls_in_range(*d),
        ensures
            customer_of(c, *d),
    {
        let mut c = Customer::default();
        if d.group < 4 {
            c.is_group = true;
            c.group_size = d.group_size;
        }
        c.is_female = d.female < 15;
        let mut stats: [i32; 10] = [0; 10];
        let mut i: usize = 0;
        while i < 10
            invariant
                0 <= i <= 10,
                customer_rolls_in_range(*d),
                stats@.len() == 10,
                forall|j: int| 0 <= j < i ==> #[trigger] stats@[j] == d.stats@[j] + 20,
            decreases 10 - i,
        {
            stats[i] = d.stats[i] + 20;
            i = i + 1;
        }
        assert(stats@ =~= d.stats@.map_values(|s: i32| (s + 20) as i32));
        c.stats = stats;
        if d.class < 50 {
            c.class = CustomerClass::Poor;
        } else if d.class < 85 {
            c.class = CustomerClass::Middle;
        } else {
            c.class = CustomerClass::Rich;
        }
        c.money = d.money;
        c.is_official = d.official == 0;
        c.fetish = d.fetish;
        let skills: [i32; 6] = [0, 2, 3, 4, 5, 6];
        assert(skills@ =~= sex_skills());
        c.preferred_skill = skills[d.preference];
        if c.is_female {
            if d.female_preference == 0 {
                c.preferred_skill = 6;
            } else {
                c.preferred_skill = 4;
            }
        }
        c
    }

    /// Generate a single customer with draws from `rng`: the customer of some
    /// draws in range (see `customer_of`).
    pub fn generate_customer(rng: &mut rand::rngs::ThreadRng) -> (c: Customer)
        ensures
            exists|d: CustomerRolls| customer_rolls_in_range(d) && #[trigger] customer_of(c, d),
    {
        let group = roll_i32(rng, 0, 100);
        let mut group_size: i32 = 1;
        if group < 4 {
            group_size = roll_i32(rng, 1, 4);
        }
        let female = roll_i32(rng, 0, 100);
        let mut stats: [i32; 10] = [0; 10];
        let mut i: usize = 0;
        while i < 10
            invariant
                0 <= i <= 10,
                stats@.len() == 10,
                forall|j: int| 0 <= j < 10 ==> 0 <= #[trigger] stats@[j] < 81,
            decreases 10 - i,
        {
            stats[i] = roll_i32(rng, 0, 81);
            i = i + 1;
        }
        let class = roll_i32(rng, 0, 100);
        let money = if class < 50 {
            roll_i32(rng, 20, 121)
        } else if class < 85 {
            roll_i32(rng, 60, 261)
        } else {
            roll_i32(rng, 600, 2601)
        };
        let official = roll_i32(rng, 0, 100);
        let fetish = roll_i32(rng, 0, 15);
        let preference = roll_usize(rng, 0, 6);
        let mut female_preference: i32 = 0;
        if female < 15 {
            female_preference = roll_i32(rng, 0, 2);
        }
        let d = CustomerRolls {
            group,
            group_size,
            female,
            stats,
            class,
            money,
            official,
            fetish,
            preference,
            female_preference,
        };
        assert(customer_rolls_in_range(d));
        Self::customer_with_rolls(&d)
    }
}

/// Every customer made from draws in range has money to spend, a group of
/// one to three, and general stats from 20 to 100.
pub proof fn law_customer_ranges(c: Customer, d: CustomerRolls)
    requires
        customer_rolls_in_range(d),
        customer_of(c, d),
    ensures
        c.money > 0,
        1 <= c.group_size <= 3,
        forall|i: int| 0 <= i < 10 ==> 20 <= #[trigger] c.stats@[i] <= 100,
{
    assert forall|i: int| 0 <= i < 10 implies 20 <= #[trigger] c.stats@[i] <= 100 by {
        assert(0 <= d.stats@[i] < 81);
    }
}

/// A customer prefers a sex skill. A man's preference draw picks, in order,
/// Anal, BDSM, NormalSex, Beastiality, Group or Lesbian, so every sex skill
/// can come up and Magic, Service, Strip and Combat never do; a woman prefers
/// Lesbian or Beastiality.
pub proof fn law_customer_prefers_a_sex_skill(c: Customer, d: CustomerRolls)
    requires
        customer_rolls_in_range(d),
        customer_of(c, d),
    ensures
        c.preferred_skill != Skill::Magic.spec_code(),
        c.preferred_skill != Skill::Service.spec_code(),
        c.preferred_skill != Skill::Strip.spec_code(),
        c.preferred_skill != Skill::Combat.spec_code(),
        !c.is_female ==> {
            &&& d.preference == 0 ==> c.preferred_skill == Skill::Anal.spec_code()
            &&& d.preference == 1 ==> c.preferred_skill == Skill::BDSM.spec_code()
            &&& d.preference == 2 ==> c.preferred_skill == Skill::NormalSex.spec_code()
            &&& d.preference == 3 ==> c.preferred_skill == Skill::Beastiality.spec_code()
            &&& d.preference == 4 ==> c.preferred_skill == Skill::Group.spec_code()
            &&& d.preference == 5 ==> c.preferred_skill == Skill::Lesbian.spec_code()
        },
        c.is_female ==> {
            &&& d.female_preference == 0 ==> c.preferred_skill == Skill::Lesbian.spec_code()
            &&& d.female_preference != 0 ==> c.preferred_skill == Skill::Beastiality.spec_code()
        },
{
}

/// The draws decide a customer as follows: a class draw under 50 makes her
/// poor with 20 to 120 gold, under 85 middle with 60 to 260, else rich with
/// 600 to 2600; a group comes at a group draw under 4 (with the drawn size, 1
/// to 3), a woman at a draw under 15, an official at a draw of 0, and every
/// stat is its draw plus 20.
pub proof fn law_customer_from_draws(c: Customer, d: CustomerRolls)
    requires
        customer_rolls_in_range(d),
        customer_of(c, d),
    ensures
        d.class < 50 ==> c.class == CustomerClass::Poor && 20 <= c.money <= 120,
        50 <= d.class < 85 ==> c.class == CustomerClass::Middle && 60 <= c.money <= 260,
        85 <= d.class ==> c.class == CustomerClass::Rich && 600 <= c.money <= 2600,
        c.money == d.money,
        c.is_group <==> d.group < 4,
        c.is_group ==> c.group_size == d.group_size,
        !c.is_group ==> c.group_size == 1,
        c.is_female <==> d.female < 15,
        c.is_official <==> d.official == 0,
        c.fetish == d.fetish,
        forall|i: int| 0 <= i < 10 ==> #[trigger] c.stats@[i] == d.stats@[i] + 20,
{
}

impl Default for CustomerGenerator {
    fn default() -> (m: CustomerGenerator)
        ensures
            m.num_customers_per_brothel@.len() == 0,
    {
        CustomerGenerator::new()
    }
}

} // verus!
