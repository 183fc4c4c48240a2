//! Rival organizations: their weekly income, spending and attacks, and the
//! list of rivals.
use vstd::prelude::*;
use crate::girl::string_views;
use crate::lua_text::{int_str, push_int};
use crate::rng::{roll_i32, roll_i64, roll_usize};

verus! {

/// A rival gang/organization.
#[derive(Debug)]
pub struct Rival {
    pub name: String,
    pub power: i32,
    pub gold: i64,
    pub num_gangs: i32,
    pub num_brothels: i32,
    pub num_girls: i32,
    pub num_bars: i32,
    pub num_gambling_halls: i32,
    pub businesses_extort: i32,
    pub bribe_rate: i32,
    pub influence: i32,
}

/// Every field of `r` but the name holds its default value.
pub open spec fn has_default_stats(r: Rival) -> bool {
    &&& r.power == 50
    &&& r.gold == 5000
    &&& r.num_gangs == 3
    &&& r.num_brothels == 1
    &&& r.num_girls == 8
    &&& r.num_bars == 0
    &&& r.num_gambling_halls == 0
    &&& r.businesses_extort == 0
    &&& r.bribe_rate == 0
    &&& r.influence == 0
}

impl Default for Rival {
    fn default() -> (r: Rival)
        ensures
            r.name@ == Seq::<char>::empty(),
            has_default_stats(r),
    {
        Rival::with_name(String::new())
    }
}

/// Maximum girls of a rival: 20 per brothel.
pub open spec fn max_girls_of(r: Rival) -> int {
    20 * r.num_brothels
}

/// The brothel count is small enough for 20 girls per brothel to be counted in `i32`.
pub open spec fn brothels_fit(r: Rival) -> bool {
    -107374182 <= r.num_brothels <= 107374182
}

/// A rival is dead when it has no brothel, no girl or no gold left.
pub open spec fn is_dead_spec(r: Rival) -> bool {
    r.num_brothels <= 0 || r.num_girls <= 0 || r.gold <= 0
}

/// The random draws of a week's income, each as `gen_range` would give it
/// (see `income_rolls_in_range`).
#[derive(Debug, Clone, Copy)]
pub struct IncomeRolls {
    pub girl_pay: i64,
    pub girl_mult: i64,
    pub cust_base: i64,
    pub cust_mult: i64,
    pub gambling: i64,
    pub bar: i64,
    pub theft: i64,
}

/// Whether the girls earn anything: the girls' top rate exceeds the floor, which is positive.
pub open spec fn girls_earn(r: Rival) -> bool {
    r.num_girls * 80 > max_girls_of(r) && max_girls_of(r) > 0
}

/// The customer estimate of the week: (draw + girls) times the multiplier, none without girls.
pub open spec fn customers_of(r: Rival, d: IncomeRolls) -> int {
    if r.num_girls > 0 {
        (d.cust_base + r.num_girls) * d.cust_mult
    } else {
        0
    }
}

/// Each draw that the income uses lies in the range it is drawn from.
pub open spec fn income_rolls_in_range(r: Rival, d: IncomeRolls) -> bool {
    let c = customers_of(r, d);
    &&& girls_earn(r) ==> max_girls_of(r) <= d.girl_pay <= r.num_girls * 80 && 1 <= d.girl_mult <= 2
    &&& r.num_girls > 0 ==> 0 <= d.cust_base < r.num_girls && 1 <= d.cust_mult <= 2
    &&& r.num_gambling_halls > 0 && c > 0 ==> c * 5 <= d.gambling <= c * 100
    &&& r.num_bars > 0 && c > 0 ==> c * 10 <= d.bar <= c * 20
    &&& 0 <= d.theft < 600
}

/// The income terms, in the order they are added: girls, gambling, bar, extortion, theft.
pub open spec fn income_terms(r: Rival, d: IncomeRolls) -> Seq<int> {
    let c = customers_of(r, d);
    seq![
        if girls_earn(r) {
            d.girl_pay * d.girl_mult
        } else {
            0
        },
        if r.num_gambling_halls > 0 && c > 0 {
            r.num_gambling_halls * d.gambling
        } else {
            0
        },
        if r.num_bars > 0 && c > 0 {
            r.num_bars * d.bar
        } else {
            0
        },
        r.businesses_extort * 20,
        d.theft as int,
    ]
}

/// The weekly income: the sum of the terms.
pub open spec fn income_of(r: Rival, d: IncomeRolls) -> int {
    let t = income_terms(r, d);
    t[0] + t[1] + t[2] + t[3] + t[4]
}

/// Every term and every running sum of the income fits in `i64`.
pub open spec fn income_fits(r: Rival, d: IncomeRolls) -> bool {
    let t = income_terms(r, d);
    &&& r.num_girls > 0 ==> i64::MIN <= d.cust_base + r.num_girls <= i64::MAX
    &&& i64::MIN <= customers_of(r, d) <= i64::MAX
    &&& forall|k: int| 0 <= k < 5 ==> i64::MIN <= #[trigger] t[k] <= i64::MAX
    &&& i64::MIN <= t[0] + t[1] <= i64::MAX
    &&& i64::MIN <= t[0] + t[1] + t[2] <= i64::MAX
    &&& i64::MIN <= t[0] + t[1] + t[2] + t[3] <= i64::MAX
    &&& i64::MIN <= t[0] + t[1] + t[2] + t[3] + t[4] <= i64::MAX
}

/// The random draws of a week's spending (see `spending_rolls_in_range`).
#[derive(Debug, Clone, Copy)]
pub struct SpendRolls {
    pub girls: i32,
    pub gangs: i32,
    pub bar: i32,
    pub hall: i32,
}

/// Girls bought 1..=6, gangs hired 0..=5, the bar and hall chances 0..100.
pub open spec fn spending_rolls_in_range(d: SpendRolls) -> bool {
    1 <= d.girls <= 6 && 0 <= d.gangs <= 5 && 0 <= d.bar < 100 && 0 <= d.hall < 100
}

/// The rival after opening a new brothel, when it may (full of girls, fewer
/// than 6 brothels, 20000 gold): one more brothel, 20000 gold less.
pub open spec fn opens_brothel(r: Rival) -> bool {
    r.num_girls >= max_girls_of(r) && r.num_brothels < 6 && r.gold >= 20000
}

/// The smaller of two integers.
pub open spec fn min_int(a: int, b: int) -> int {
    if a < b {
        a
    } else {
        b
    }
}

/// The stages of a week's spending, as successive rivals.
pub open spec fn after_brothel(r: Rival) -> Rival {
    if opens_brothel(r) {
        Rival { num_brothels: (r.num_brothels + 1) as i32, gold: (r.gold - 20000) as i64, ..r }
    } else {
        r
    }
}

/// Girls the rival tries to buy: the draw, at most the room left.
pub open spec fn girls_to_buy(r1: Rival, d: SpendRolls) -> int {
    min_int(d.girls as int, max_girls_of(r1) - r1.num_girls)
}

/// After buying girls at 550 each, when there is room and gold for all.
pub open spec fn after_girls(r1: Rival, d: SpendRolls) -> Rival {
    let n = girls_to_buy(r1, d);
    if n > 0 && r1.gold >= n * 550 {
        Rival { num_girls: (r1.num_girls + n) as i32, gold: (r1.gold - n * 550) as i64, ..r1 }
    } else {
        r1
    }
}

/// After hiring gangs: up to 8 in all.
pub open spec fn after_gangs(r2: Rival, d: SpendRolls) -> Rival {
    if r2.num_gangs < 8 {
        Rival { num_gangs: (r2.num_gangs + min_int(d.gangs as int, 8 - r2.num_gangs)) as i32, ..r2 }
    } else {
        r2
    }
}

/// After buying a bar (2500 gold, fewer than 3, 30% chance) and a gambling
/// hall (15000 gold, fewer than 2, 20% chance).
pub open spec fn after_buildings(r3: Rival, d: SpendRolls) -> Rival {
    let r4 = if r3.gold >= 2500 && r3.num_bars < 3 && d.bar < 30 {
        Rival { num_bars: (r3.num_bars + 1) as i32, gold: (r3.gold - 2500) as i64, ..r3 }
    } else {
        r3
    };
    if r4.gold >= 15000 && r4.num_gambling_halls < 2 && d.hall < 20 {
        Rival { num_gambling_halls: (r4.num_gambling_halls + 1) as i32, gold: (r4.gold - 15000) as i64, ..r4 }
    } else {
        r4
    }
}

/// The rival after a week's spending: brothel, girls, gangs, buildings, then
/// 50 more in bribes when it holds more than 1000 gold.
pub open spec fn spending_of(r: Rival, d: SpendRolls) -> Rival {
    let r5 = after_buildings(after_gangs(after_girls(after_brothel(r), d), d), d);
    if r5.gold > 1000 {
        Rival { bribe_rate: (r5.bribe_rate + 50) as i32, ..r5 }
    } else {
        r5
    }
}

/// The events of a week's spending: a new brothel is reported.
pub open spec fn spending_events(r: Rival) -> Seq<Seq<char>> {
    if opens_brothel(r) {
        seq![r.name@ + " opened a new brothel"@]
    } else {
        Seq::empty()
    }
}

/// The spending arithmetic stays within `i32` for every draw in range.
pub open spec fn spending_fits(r: Rival) -> bool {
    &&& -107374182 <= r.num_brothels <= 107374181
    &&& i32::MIN <= max_girls_of(after_brothel(r)) - r.num_girls <= i32::MAX
    &&& r.num_gangs >= 8 - i32::MAX
    &&& r.bribe_rate <= i32::MAX - 50
}

/// The random draws of an attack (see `attack_rolls_in_range`).
#[derive(Debug, Clone, Copy)]
pub struct AttackRolls {
    pub attack: i32,
    pub win: i32,
    pub destroyed: i32,
    pub plunder: i32,
}

/// Attack and plunder chances 0..100 and 0..2000, the coin 0..2, territories 1..=3.
pub open spec fn attack_rolls_in_range(d: AttackRolls) -> bool {
    0 <= d.attack < 100 && 0 <= d.win < 2 && 1 <= d.destroyed <= 3 && 0 <= d.plunder < 2000
}

/// Whether the rival attacks: it has gangs, and the 70% chance comes up.
pub open spec fn attacks(r: Rival, d: AttackRolls) -> bool {
    r.num_gangs > 0 && d.attack < 70
}

/// The outcome of an attack: gold stolen, events, and the rival's gangs after it.
pub open spec fn attack_of(r: Rival, d: AttackRolls) -> (int, Seq<Seq<char>>, i32) {
    if !attacks(r, d) {
        (0, Seq::empty(), r.num_gangs)
    } else if d.win == 0 {
        let stolen = d.plunder + 45;
        (
            stolen,
            seq![
                r.name@ + " attacked and destroyed "@ + int_str(d.destroyed as int) + " territories"@,
                r.name@ + " plundered "@ + int_str(stolen) + " gold"@,
            ],
            r.num_gangs,
        )
    } else {
        (
            0,
            seq![r.name@ + " attacked but was repelled"@],
            if r.num_gangs - 1 > 0 {
                (r.num_gangs - 1) as i32
            } else {
                0i32
            },
        )
    }
}

/// `name` followed by `text`.
fn name_and(name: &String, text: &str) -> (s: String)
    ensures
        s@ == name@ + text@,
{
    let mut s = name.clone();
    s.append(text);
    s
}

/// `name`, `a`, the number, then `b`.
fn name_num_text(name: &String, a: &str, n: i64, b: &str) -> (s: String)
    requires
        n > i64::MIN,
    ensures
        s@ == name@ + a@ + int_str(n as int) + b@,
{
    let mut s = name.clone();
    s.append(a);
    push_int(&mut s, n);
    s.append(b);
    s
}

impl Rival {
    /// A rival with the given name and every other field at its default value.
    pub fn with_name(name: String) -> (r: Rival)
        ensures
            r.name == name,
            has_default_stats(r),
    {
        Rival {
            name,
            power: 50,
            gold: 5000,
            num_gangs: 3,
            num_brothels: 1,
            num_girls: 8,
            num_bars: 0,
            num_gambling_halls: 0,
            businesses_extort: 0,
            bribe_rate: 0,
            influence: 0,
        }
    }

    /// Maximum girls = 20 * num_brothels.
    pub fn max_girls(&self) -> (m: i32)
        requires
            brothels_fit(*self),
        ensures
            m == max_girls_of(*self),
    {
        20 * self.num_brothels
    }

    /// Check if rival is dead (0 brothels OR 0 girls OR 0 gold).
    pub fn is_dead(&self) -> (d: bool)
        ensures
            d == is_dead_spec(*self),
    {
        self.num_brothels <= 0 || self.num_girls <= 0 || self.gold <= 0
    }

    /// The weekly income for the given draws (see `income_of`).
    pub fn income_with_rolls(&self, d: &IncomeRolls) -> (income: i64)
        requires
            brothels_fit(*self),
            income_fits(*self, *d),
        ensures
            income == income_of(*self, *d),
    {
        let ghost t = income_terms(*self, *d);
        let mut income: i64 = 0;
        let max_gi = self.num_girls as i64 * 80;
        let min_gi = self.max_girls() as i64;
        if max_gi > min_gi && min_gi > 0 {
            assert(t[0] == d.girl_pay * d.girl_mult);
            income = income + d.girl_pay * d.girl_mult;
        }
        assert(income == t[0]);
        let customers: i64 = if self.num_girls > 0 {
            (d.cust_base + self.num_girls as i64) * d.cust_mult
        } else {
            0
        };
        if self.num_gambling_halls > 0 && customers > 0 {
            assert(t[1] == self.num_gambling_halls * d.gambling);
            income = income + self.num_gambling_halls as i64 * d.gambling;
        }
        assert(income == t[0] + t[1]);
        if self.num_bars > 0 && customers > 0 {
            assert(t[2] == self.num_bars * d.bar);
            income = income + self.num_bars as i64 * d.bar;
        }
        assert(income == t[0] + t[1] + t[2]);
        assert(t[3] == self.businesses_extort * 20);
        income = income + self.businesses_extort as i64 * 20;
        assert(t[4] == d.theft);
        income = income + d.theft;
        income
    }

    /// Calculate weekly income with draws from `rng`: the income for some
    /// draws in range (see `income_of`).
    pub fn calculate_income(&self, rng: &mut rand::rngs::ThreadRng) -> (income: i64)
        requires
            brothels_fit(*self),
            forall|d: IncomeRolls| income_rolls_in_range(*self, d) ==> #[trigger] income_fits(*self, d),
        ensures
            exists|d: IncomeRolls| income_rolls_in_range(*self, d) && income == #[trigger] income_of(*self, d),
    {
        let max_gi = self.num_girls as i64 * 80;
        let min_gi = self.max_girls() as i64;
        let mut girl_pay: i64 = 0;
        let mut girl_mult: i64 = 0;
        if max_gi > min_gi && min_gi > 0 {
            girl_pay = roll_i64(rng, min_gi, max_gi + 1);
            girl_mult = roll_i64(rng, 1, 3);
        }
        let mut cust_base: i64 = 0;
        let mut cust_mult: i64 = 0;
        let mut customers: i64 = 0;
        if self.num_girls > 0 {
            cust_base = roll_i64(rng, 0, self.num_girls as i64);
            cust_mult = roll_i64(rng, 1, 3);
            assert((cust_base + self.num_girls as i64) * cust_mult <= 2 * (2 * 2147483647)) by (nonlinear_arith)
                requires
                    0 <= cust_base < self.num_girls,
                    1 <= cust_mult <= 2,
                    self.num_girls <= 2147483647,
            ;
            customers = (cust_base + self.num_girls as i64) * cust_mult;
        }
        let mut gambling: i64 = 0;
        if self.num_gambling_halls > 0 && customers > 0 {
            gambling = roll_i64(rng, customers * 5, customers * 100 + 1);
        }
        let mut bar: i64 = 0;
        if self.num_bars > 0 && customers > 0 {
            bar = roll_i64(rng, customers * 10, customers * 20 + 1);
        }
        let theft = roll_i64(rng, 0, 600);
        let d = IncomeRolls { girl_pay, girl_mult, cust_base, cust_mult, gambling, bar, theft };
        assert(customers == customers_of(*self, d));
        assert(income_rolls_in_range(*self, d));
        assert(income_fits(*self, d));
        self.income_with_rolls(&d)
    }

    /// The week's upkeep before tax for the given draws (see `upkeep_before_tax`).
    pub fn upkeep_with_rolls(&self, d: &UpkeepRolls) -> (upkeep: i64)
        requires
            brothels_fit(*self),
            upkeep_rolls_in_range(*d),
        ensures
            upkeep == upkeep_before_tax(*self, *d),
    {
        let mut upkeep: i64 = 0;
        upkeep = upkeep + self.max_girls() as i64;
        upkeep = upkeep + self.num_girls as i64 * 5;
        upkeep = upkeep + self.bribe_rate as i64;
        upkeep = upkeep + self.num_bars as i64 * 20;
        upkeep = upkeep + self.num_gambling_halls as i64 * 80;
        if self.num_gambling_halls > 0 {
            assert(self.num_gambling_halls * d.gambling_loss <= 2147483647 * 500) by (nonlinear_arith)
                requires
                    0 < self.num_gambling_halls <= 2147483647,
                    10 <= d.gambling_loss <= 500,
            ;
            upkeep = upkeep + self.num_gambling_halls as i64 * d.gambling_loss;
        }
        if self.num_bars > 0 {
            assert(self.num_bars * (d.bar_supplies + 30) <= 2147483647 * 130) by (nonlinear_arith)
                requires
                    0 < self.num_bars <= 2147483647,
                    0 <= d.bar_supplies < 100,
            ;
            upkeep = upkeep + self.num_bars as i64 * (d.bar_supplies + 30);
        }
        upkeep = upkeep + self.num_gangs as i64 * 90;
        upkeep
    }

    /// The week's upkeep before tax with draws from `rng`: that of some draws
    /// in range (see `upkeep_before_tax`). The tax on top of it is reckoned
    /// in floating point by the caller.
    pub fn calculate_base_upkeep(&self, rng: &mut rand::rngs::ThreadRng) -> (upkeep: i64)
        requires
            brothels_fit(*self),
        ensures
            exists|d: UpkeepRolls| upkeep_rolls_in_range(d) && upkeep == #[trigger] upkeep_before_tax(*self, d),
    {
        let mut gambling_loss: i64 = 10;
        if self.num_gambling_halls > 0 {
            gambling_loss = roll_i64(rng, 10, 501);
        }
        let mut bar_supplies: i64 = 0;
        if self.num_bars > 0 {
            bar_supplies = roll_i64(rng, 0, 100);
        }
        let d = UpkeepRolls { gambling_loss, bar_supplies };
        self.upkeep_with_rolls(&d)
    }

    /// A week's spending for the given draws (see `spending_of`); returns the events.
    pub fn spending_with_rolls(&mut self, d: &SpendRolls) -> (events: Vec<String>)
        requires
            spending_fits(*old(self)),
            spending_rolls_in_range(*d),
        ensures
            *final(self) == spending_of(*old(self), *d),
            string_views(events@) == spending_events(*old(self)),
    {
        let ghost r0 = *self;
        let mut events: Vec<String> = Vec::new();
        if self.num_girls >= self.max_girls() && self.num_brothels < 6 && self.gold >= 20000 {
            self.num_brothels = self.num_brothels + 1;
            self.gold = self.gold - 20000;
            events.push(name_and(&self.name, " opened a new brothel"));
        }
        assert(string_views(events@) =~= spending_events(r0));
        assert(*self == after_brothel(r0));
        let room = self.max_girls() - self.num_girls;
        let girls_to_buy = if d.girls < room {
            d.girls
        } else {
            room
        };
        if girls_to_buy > 0 {
            let cost = girls_to_buy as i64 * 550;
            if self.gold >= cost {
                self.num_girls = self.num_girls + girls_to_buy;
                self.gold = self.gold - cost;
            }
        }
        assert(*self == after_girls(after_brothel(r0), *d));
        if self.num_gangs < 8 {
            let left = 8 - self.num_gangs;
            let new_gangs = if d.gangs < left {
                d.gangs
            } else {
                left
            };
            self.num_gangs = self.num_gangs + new_gangs;
        }
        if self.gold >= 2500 && self.num_bars < 3 && d.bar < 30 {
            self.num_bars = self.num_bars + 1;
            self.gold = self.gold - 2500;
        }
        if self.gold >= 15000 && self.num_gambling_halls < 2 && d.hall < 20 {
            self.num_gambling_halls = self.num_gambling_halls + 1;
            self.gold = self.gold - 15000;
        }
        if self.gold > 1000 {
            self.bribe_rate = self.bribe_rate + 50;
        }
        events
    }

    /// Process weekly AI spending with draws from `rng`. Returns events.
    /// The outcome is that of `spending_with_rolls` for some draws in range.
    pub fn process_spending(&mut self, rng: &mut rand::rngs::ThreadRng) -> (events: Vec<String>)
        requires
            spending_fits(*old(self)),
        ensures
            exists|d: SpendRolls| spending_rolls_in_range(d) && *final(self) == #[trigger] spending_of(*old(self), d),
            string_views(events@) == spending_events(*old(self)),
    {
        let d = SpendRolls {
            girls: roll_i32(rng, 1, 7),
            gangs: roll_i32(rng, 0, 6),
            bar: roll_i32(rng, 0, 100),
            hall: roll_i32(rng, 0, 100),
        };
        self.spending_with_rolls(&d)
    }

    /// A rival attack for the given draws (see `attack_of`): returns the gold stolen and the events.
    pub fn attack_with_rolls(&mut self, d: &AttackRolls) -> (r: (i64, Vec<String>))
        requires
            attack_rolls_in_range(*d),
        ensures
            r.0 == attack_of(*old(self), *d).0,
            string_views(r.1@) == attack_of(*old(self), *d).1,
            *final(self) == (Rival { num_gangs: attack_of(*old(self), *d).2, ..*old(self) }),
    {
        let mut events: Vec<String> = Vec::new();
        assert(string_views(events@) =~= Seq::<Seq<char>>::empty());
        if self.num_gangs <= 0 {
            return (0, events);
        }
        if d.attack >= 70 {
            return (0, events);
        }
        if d.win == 0 {
            events.push(name_num_text(&self.name, " attacked and destroyed ", d.destroyed as i64, " territories"));
            let gold_stolen = (d.plunder + 45) as i64;
            events.push(name_num_text(&self.name, " plundered ", gold_stolen, " gold"));
            let ghost (_, ev, _) = attack_of(*old(self), *d);
            assert(string_views(events@) =~= ev);
            (gold_stolen, events)
        } else {
            events.push(name_and(&self.name, " attacked but was repelled"));
            let ghost (_, ev, _) = attack_of(*old(self), *d);
            assert(string_views(events@) =~= ev);
            self.num_gangs = if self.num_gangs - 1 > 0 {
                self.num_gangs - 1
            } else {
                0
            };
            (0, events)
        }
    }

    /// Process rival attack action with draws from `rng`. Returns (gold_stolen,
    /// events): the outcome of `attack_with_rolls` for some draws in range.
    pub fn process_attack(&mut self, rng: &mut rand::rngs::ThreadRng) -> (r: (i64, Vec<String>))
        ensures
            exists|d: AttackRolls|
                attack_rolls_in_range(d) && #[trigger] attack_of(*old(self), d) == (
                    r.0 as int,
                    string_views(r.1@),
                    final(self).num_gangs,
                ) && *final(self) == (Rival { num_gangs: final(self).num_gangs, ..*old(self) }),
    {
        let d = AttackRolls {
            attack: roll_i32(rng, 0, 100),
            win: roll_i32(rng, 0, 2),
            destroyed: roll_i32(rng, 1, 4),
            plunder: roll_i32(rng, 0, 2000),
        };
        let r = self.attack_with_rolls(&d);
        assert(attack_of(*old(self), d) == (r.0 as int, string_views(r.1@), self.num_gangs));
        r
    }

    /// Settle a week's finances: the profit (income less upkeep) is added to
    /// the gold, and 10000 of it is taken back when the profit exceeds 10000.
    pub fn settle_week(&mut self, income: i64, upkeep: i64)
        requires
            i64::MIN <= income - upkeep <= i64::MAX,
            i64::MIN <= old(self).gold + (income - upkeep) <= i64::MAX,
            income - upkeep > 10000 ==> old(self).gold + (income - upkeep) - 10000 >= i64::MIN,
        ensures
            *final(self) == (Rival {
                gold: (old(self).gold + (income - upkeep) - if income - upkeep > 10000 {
                    10000int
                } else {
                    0
                }) as i64,
                ..*old(self)
            }),
    {
        self.gold = self.gold + (income - upkeep);
        if income - upkeep > 10000 {
            self.gold = self.gold - 10000;
        }
    }
}

/// The random draws of a week's upkeep before tax: the gambling losses per
/// hall (10..=500) and the bar supplies per bar (0..100, plus 30).
#[derive(Debug, Clone, Copy)]
pub struct UpkeepRolls {
    pub gambling_loss: i64,
    pub bar_supplies: i64,
}

/// Each upkeep draw lies in the range it is drawn from.
pub open spec fn upkeep_rolls_in_range(d: UpkeepRolls) -> bool {
    10 <= d.gambling_loss <= 500 && 0 <= d.bar_supplies < 100
}

/// A week's upkeep before tax: rooms for the girls the brothels hold, 5 per
/// girl, the bribes, 20 per bar and 80 per gambling hall, the halls'
/// gambling losses and the bars' supplies, and 90 per gang.
pub open spec fn upkeep_before_tax(r: Rival, d: UpkeepRolls) -> int {
    max_girls_of(r) + r.num_girls * 5 + r.bribe_rate + r.num_bars * 20 + r.num_gambling_halls * 80 + (
    if r.num_gambling_halls > 0 {
        r.num_gambling_halls * d.gambling_loss
    } else {
        0
    }) + (if r.num_bars > 0 {
        r.num_bars * (d.bar_supplies + 30)
    } else {
        0
    }) + r.num_gangs * 90
}

/// Manages all rival organizations.
#[derive(Debug)]
pub struct RivalManager {
    pub rivals: Vec<Rival>,
}

/// The sum of the rivals' powers.
pub open spec fn total_power(s: Seq<Rival>) -> int
    decreases s.len(),
{
    if s.len() == 0 {
        0
    } else {
        total_power(s.drop_last()) + s.last().power
    }
}

/// Every running sum of the powers fits in `i32`.
pub open spec fn power_sums_fit(s: Seq<Rival>) -> bool {
    forall|k: int| 0 <= k <= s.len() ==> i32::MIN <= #[trigger] total_power(s.take(k)) <= i32::MAX
}

/// The rivals that are not dead, in order.
pub open spec fn living(s: Seq<Rival>) -> Seq<Rival>
    decreases s.len(),
{
    if s.len() == 0 {
        s
    } else {
        let r = living(s.drop_last());
        if is_dead_spec(s.last()) {
            r
        } else {
            r.push(s.last())
        }
    }
}

/// The random draws of a spawn (see `spawn_rolls_in_range`).
#[derive(Debug, Clone, Copy)]
pub struct SpawnRolls {
    pub spawn: i32,
    pub number: i32,
    pub pick: usize,
}

/// The spawn chance 0..100, the number 100..999, the pick within the names.
pub open spec fn spawn_rolls_in_range(d: SpawnRolls, names: Seq<String>) -> bool {
    0 <= d.spawn < 100 && 100 <= d.number < 999 && (names.len() > 0 ==> d.pick < names.len())
}

/// The name of a new rival: `Rival #` and the number when no names are
/// given, else the picked name.
pub open spec fn spawn_name(d: SpawnRolls, names: Seq<String>) -> Seq<char> {
    if names.len() == 0 {
        "Rival #"@ + int_str(d.number as int)
    } else {
        names[d.pick as int]@
    }
}

/// The rivals after a possible spawn: a new default rival with the spawn
/// name is added when the 30% chance comes up.
pub open spec fn spawned(old_rivals: Seq<Rival>, new_rivals: Seq<Rival>, d: SpawnRolls, names: Seq<String>) -> bool {
    if d.spawn < 30 {
        &&& new_rivals.len() == old_rivals.len() + 1
        &&& new_rivals.take(old_rivals.len() as int) == old_rivals
        &&& new_rivals.last().name@ == spawn_name(d, names)
        &&& has_default_stats(new_rivals.last())
    } else {
        new_rivals == old_rivals
    }
}

impl RivalManager {
    /// No rivals.
    pub fn new() -> (m: RivalManager)
        ensures
            m.rivals@.len() == 0,
    {
        RivalManager { rivals: Vec::new() }
    }

    /// Add a rival at the end.
    pub fn add_rival(&mut self, rival: Rival)
        ensures
            final(self).rivals@ == old(self).rivals@.push(rival),
    {
        self.rivals.push(rival);
    }

    /// Remove the rival at `index`, if there is one.
    pub fn remove_rival(&mut self, index: usize)
        ensures
            index < old(self).rivals@.len() ==> final(self).rivals@ == old(self).rivals@.remove(index as int),
            index >= old(self).rivals@.len() ==> final(self).rivals@ == old(self).rivals@,
    {
        if index < self.rivals.len() {
            self.rivals.remove(index);
        }
    }

    /// Take out the dead rivals, keeping the order of the others.
    pub fn remove_dead(&mut self)
        ensures
            final(self).rivals@ == living(old(self).rivals@),
    {
        let ghost orig = self.rivals@;
        let mut rest: Vec<Rival> = Vec::new();
        std::mem::swap(&mut rest, &mut self.rivals);
        let mut kept: Vec<Rival> = Vec::new();
        let ghost mut taken: Seq<Rival> = Seq::empty();
        while rest.len() > 0
            invariant
                taken + rest@ == orig,
                kept@ == living(taken),
            decreases rest.len(),
        {
            let r = rest.remove(0);
            let dead = r.is_dead();
            proof {
                assert(taken.push(r) + rest@ =~= orig);
                assert(taken.push(r).drop_last() =~= taken);
                taken = taken.push(r);
            }
            if !dead {
                kept.push(r);
            }
        }
        assert(taken =~= orig);
        self.rivals = kept;
    }

    /// Check if player has been taken over: the rivals' powers together exceed 500.
    pub fn check_takeover(&self) -> (t: bool)
        requires
            power_sums_fit(self.rivals@),
        ensures
            t == (total_power(self.rivals@) > 500),
    {
        let mut total: i32 = 0;
        let mut i: usize = 0;
        while i < self.rivals.len()
            invariant
                power_sums_fit(self.rivals@),
                0 <= i <= self.rivals@.len(),
                total == total_power(self.rivals@.take(i as int)),
            decreases self.rivals@.len() - i,
        {
            assert(self.rivals@.take(i + 1).drop_last() =~= self.rivals@.take(i as int));
            assert(i32::MIN <= total_power(self.rivals@.take(i + 1)) <= i32::MAX);
            total = total + self.rivals[i].power;
            i = i + 1;
        }
        assert(self.rivals@.take(i as int) =~= self.rivals@);
        total > 500
    }

    /// A possible new rival for the given draws (see `spawned`).
    pub fn spawn_with_rolls(&mut self, rival_names: &[String], d: &SpawnRolls)
        requires
            spawn_rolls_in_range(*d, rival_names@),
        ensures
            spawned(old(self).rivals@, final(self).rivals@, *d, rival_names@),
    {
        if d.spawn < 30 {
            let name = if rival_names.len() == 0 {
                let mut s = String::from_str("Rival #");
                push_int(&mut s, d.number as i64);
                proof {
                    reveal_strlit("Rival #");
                }
                s
            } else {
                rival_names[d.pick].clone()
            };
            self.add_rival(Rival::with_name(name));
            assert(self.rivals@.take(old(self).rivals@.len() as int) =~= old(self).rivals@);
        }
    }

    /// 30% chance per week to spawn a new rival post-game-win, with draws
    /// from `rng`: the outcome of `spawn_with_rolls` for some draws in range.
    pub fn maybe_spawn_rival(&mut self, rival_names: &[String], rng: &mut rand::rngs::ThreadRng)
        ensures
            exists|d: SpawnRolls|
                spawn_rolls_in_range(d, rival_names@) && #[trigger] spawned(
                    old(self).rivals@,
                    final(self).rivals@,
                    d,
                    rival_names@,
                ),
    {
        let spawn = roll_i32(rng, 0, 100);
        let mut number: i32 = 100;
        let mut pick: usize = 0;
        if spawn < 30 {
            if rival_names.len() == 0 {
                number = roll_i32(rng, 100, 999);
            } else {
                pick = roll_usize(rng, 0, rival_names.len());
            }
        }
        let d = SpawnRolls { spawn, number, pick };
        self.spawn_with_rolls(rival_names, &d);
    }
}

/// After the dead are taken out, no dead rival remains.
pub proof fn law_no_dead_rival_remains(s: Seq<Rival>)
    ensures
        forall|i: int| 0 <= i < living(s).len() ==> !is_dead_spec(#[trigger] living(s)[i]),
    decreases s.len(),
{
    if s.len() > 0 {
        law_no_dead_rival_remains(s.drop_last());
        let r = living(s.drop_last());
        if !is_dead_spec(s.last()) {
            assert forall|i: int| 0 <= i < living(s).len() implies !is_dead_spec(#[trigger] living(s)[i]) by {
                if i < r.len() {
                    assert(living(s)[i] == r[i]);
                }
            }
        }
    }
}

/// A rival never spends gold it does not have: with no debt before a week's
/// spending, it has none after.
pub proof fn law_spending_keeps_gold(r: Rival, d: SpendRolls)
    requires
        r.gold >= 0,
        spending_rolls_in_range(d),
    ensures
        spending_of(r, d).gold >= 0,
{
}

/// A week's spending keeps a rival within its limits: at most 6 brothels,
/// 8 gangs, 3 bars and 2 gambling halls (or as many as it had already), and
/// no more girls than its brothels hold (or as many as it had already).
pub proof fn law_spending_respects_limits(r: Rival, d: SpendRolls)
    requires
        spending_rolls_in_range(d),
    ensures
        spending_of(r, d).num_brothels <= max_int(r.num_brothels as int, 6),
        spending_of(r, d).num_gangs <= max_int(r.num_gangs as int, 8),
        spending_of(r, d).num_bars <= max_int(r.num_bars as int, 3),
        spending_of(r, d).num_gambling_halls <= max_int(r.num_gambling_halls as int, 2),
        spending_of(r, d).num_girls <= max_int(r.num_girls as int, max_girls_of(spending_of(r, d))),
{
}

/// The larger of two integers.
pub open spec fn max_int(a: int, b: int) -> int {
    if a > b {
        a
    } else {
        b
    }
}

impl Default for RivalManager {
    fn default() -> (m: RivalManager)
        ensures
            m.rivals@.len() == 0,
    {
        RivalManager::new()
    }
}

} // verus!
