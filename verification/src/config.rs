//! The game configuration: the sections of the configuration file that hold
//! whole numbers, flags and texts, the file's records, and the reading of
//! their values.
use vstd::prelude::*;
use crate::lua_text::{digit_char, int_str, nat_str};
use crate::strs::{str_eq, str_lowercase, to_lowercase};

verus! {

/// Starting conditions of a new game.
#[derive(Debug, Clone)]
pub struct InitialConfig {
    pub gold: i32,
    pub girl_meet: i32,
    pub slave_house_perc: i32,
    pub auto_use_items: bool,
    pub torture_trait_week_mod: i32,
}

impl Default for InitialConfig {
    fn default() -> (c: InitialConfig)
        ensures
            c.gold == 4000,
            c.girl_meet == 30,
            c.slave_house_perc == 100,
            !c.auto_use_items,
            c.torture_trait_week_mod == 1,
    {
        InitialConfig {
            gold: 4000,
            girl_meet: 30,
            slave_house_perc: 100,
            auto_use_items: false,
            torture_trait_week_mod: 1,
        }
    }
}

/// Gang recruitment settings.
#[derive(Debug, Clone)]
pub struct GangsConfig {
    pub max_recruit_list: i32,
    pub start_random: i32,
    pub start_boosted: i32,
    pub init_member_min: i32,
    pub init_member_max: i32,
    pub chance_remove_unwanted: i32,
    pub add_new_weekly_min: i32,
    pub add_new_weekly_max: i32,
}

impl Default for GangsConfig {
    fn default() -> (c: GangsConfig)
        ensures
            c.max_recruit_list == 12,
            c.start_random == 2,
            c.start_boosted == 2,
            c.init_member_min == 1,
            c.init_member_max == 10,
            c.chance_remove_unwanted == 33,
            c.add_new_weekly_min == 0,
            c.add_new_weekly_max == 3,
    {
        GangsConfig {
            max_recruit_list: 12,
            start_random: 2,
            start_boosted: 2,
            init_member_min: 1,
            init_member_max: 10,
            chance_remove_unwanted: 33,
            add_new_weekly_min: 0,
            add_new_weekly_max: 3,
        }
    }
}

/// Item settings: automatic equipping for combat, and the colour of each rarity.
#[derive(Debug, Clone)]
pub struct ItemsConfig {
    pub auto_combat_equip: bool,
    pub rarity_colors: [String; 7],
}

impl Default for ItemsConfig {
    fn default() -> (c: ItemsConfig)
        ensures
            c.auto_combat_equip,
            c.rarity_colors@.map_values(|s: String| s@) == seq![
                "#000000"@,
                "#000050"@,
                "#0000A0"@,
                "#0000F0"@,
                "#004000"@,
                "#006000"@,
                "#006000"@,
            ],
    {
        let c = ItemsConfig {
            auto_combat_equip: true,
            rarity_colors: [
                String::from_str("#000000"),
                String::from_str("#000050"),
                String::from_str("#0000A0"),
                String::from_str("#0000F0"),
                String::from_str("#004000"),
                String::from_str("#006000"),
                String::from_str("#006000"),
            ],
        };
        assert(c.rarity_colors@.map_values(|s: String| s@) =~= seq![
            "#000000"@,
            "#000050"@,
            "#0000A0"@,
            "#0000F0"@,
            "#004000"@,
            "#006000"@,
            "#006000"@,
        ]);
        c
    }
}

/// Font settings.
#[derive(Debug, Clone)]
pub struct FontsConfig {
    pub normal: String,
    pub fixed: String,
    pub antialias: bool,
}

impl Default for FontsConfig {
    fn default() -> (c: FontsConfig)
        ensures
            c.normal@ == "DejaVuSans.ttf"@,
            c.fixed@ == "DejaVuSansMono.ttf"@,
            c.antialias,
    {
        FontsConfig {
            normal: String::from_str("DejaVuSans.ttf"),
            fixed: String::from_str("DejaVuSansMono.ttf"),
            antialias: true,
        }
    }
}

/// Logging switches.
#[derive(Debug, Clone)]
pub struct DebugConfig {
    pub log_all: bool,
    pub log_items: bool,
    pub log_girls: bool,
    pub log_rgirls: bool,
    pub log_fonts: bool,
    pub log_torture: bool,
}

impl Default for DebugConfig {
    fn default() -> (c: DebugConfig)
        ensures
            !c.log_all && !c.log_items && !c.log_girls && !c.log_rgirls && !c.log_fonts && !c.log_torture,
    {
        DebugConfig {
            log_all: false,
            log_items: false,
            log_girls: false,
            log_rgirls: false,
            log_fonts: false,
            log_torture: false,
        }
    }
}

/// The configuration file: each section is optional.
#[derive(Debug)]
pub struct ConfigXml {
    pub initial: Option<InitialXml>,
    pub income: Option<IncomeXml>,
    pub expenses: Option<ExpensesXml>,
    pub gambling: Option<GamblingXml>,
    pub tax: Option<TaxXml>,
    pub pregnancy: Option<PregnancyXml>,
    pub gangs: Option<GangsXml>,
    pub prostitution: Option<ProstitutionXml>,
    pub items: Option<ItemsXmlSection>,
    pub fonts: Option<FontsXml>,
    pub debug: Option<DebugXml>,
}

/// The `Initial` section as the file holds it.
#[derive(Debug)]
pub struct InitialXml {
    pub gold: Option<String>,
    pub girl_meet: Option<String>,
    pub slave_house_perc: Option<String>,
    pub auto_use_items: Option<String>,
    pub torture_trait_week_mod: Option<String>,
}

/// The `Income` section as the file holds it.
#[derive(Debug)]
pub struct IncomeXml {
    pub extortion: Option<String>,
    pub brothel_work: Option<String>,
    pub street_work: Option<String>,
    pub movie_income: Option<String>,
    pub stripper_work: Option<String>,
    pub barmaid_work: Option<String>,
    pub slave_sales: Option<String>,
    pub item_sales: Option<String>,
}

/// The `Expenses` section as the file holds it.
#[derive(Debug)]
pub struct ExpensesXml {
    pub training: Option<String>,
    pub movie_cost: Option<String>,
    pub actress_wages: Option<String>,
    pub goon_wages: Option<String>,
    pub matron_wages: Option<String>,
    pub girl_support: Option<String>,
    pub consumables: Option<String>,
    pub items: Option<String>,
    pub slaves_bought: Option<String>,
    pub buy_brothel: Option<String>,
    pub brothel_support: Option<String>,
    pub bar_support: Option<String>,
    pub casino_support: Option<String>,
    pub bribes: Option<String>,
    pub fines: Option<String>,
    pub advertising: Option<String>,
}

/// The `Gambling` section as the file holds it.
#[derive(Debug)]
pub struct GamblingXml {
    pub odds: Option<String>,
    pub base: Option<String>,
    pub spread: Option<String>,
    pub house_factor: Option<String>,
    pub customer_factor: Option<String>,
}

/// The `Tax` section as the file holds it.
#[derive(Debug)]
pub struct TaxXml {
    pub rate: Option<String>,
    pub minimum: Option<String>,
    pub laundry: Option<String>,
}

/// The `Pregnancy` section as the file holds it.
#[derive(Debug)]
pub struct PregnancyXml {
    pub player_chance: Option<String>,
    pub customer_chance: Option<String>,
    pub monster_chance: Option<String>,
    pub good_sex_factor: Option<String>,
    pub chance_of_girl: Option<String>,
    pub weeks_pregnant: Option<String>,
    pub weeks_till_grown: Option<String>,
    pub cool_down: Option<String>,
}

/// The `Gangs` section as the file holds it.
#[derive(Debug)]
pub struct GangsXml {
    pub max_recruit_list: Option<String>,
    pub start_random: Option<String>,
    pub start_boosted: Option<String>,
    pub init_member_min: Option<String>,
    pub init_member_max: Option<String>,
    pub chance_remove_unwanted: Option<String>,
    pub add_new_weekly_min: Option<String>,
    pub add_new_weekly_max: Option<String>,
}

/// The `Prostitution` section as the file holds it.
#[derive(Debug)]
pub struct ProstitutionXml {
    pub rape_brothel: Option<String>,
    pub rape_street: Option<String>,
}

/// The `Items` section as the file holds it.
#[derive(Debug)]
pub struct ItemsXmlSection {
    pub auto_combat_equip: Option<String>,
    pub rarity_color_0: Option<String>,
    pub rarity_color_1: Option<String>,
    pub rarity_color_2: Option<String>,
    pub rarity_color_3: Option<String>,
    pub rarity_color_4: Option<String>,
    pub rarity_color_5: Option<String>,
    pub rarity_color_6: Option<String>,
}

/// The `Fonts` section as the file holds it.
#[derive(Debug)]
pub struct FontsXml {
    pub normal: Option<String>,
    pub fixed: Option<String>,
    pub antialias: Option<String>,
}

/// The `Debug` section as the file holds it.
#[derive(Debug)]
pub struct DebugXml {
    pub log_all: Option<String>,
    pub log_items: Option<String>,
    pub log_girls: Option<String>,
    pub log_rgirls: Option<String>,
    pub log_fonts: Option<String>,
    pub log_torture: Option<String>,
}

/// `s` with every trailing `%` taken off.
pub open spec fn strip_percent(s: Seq<char>) -> Seq<char>
    decreases s.len(),
{
    if s.len() > 0 && s.last() == '%' {
        strip_percent(s.drop_last())
    } else {
        s
    }
}

/// An ASCII decimal digit.
pub open spec fn is_digit(c: char) -> bool {
    '0' <= c && c <= '9'
}

/// Every character of `s` is a decimal digit.
pub open spec fn all_digits(s: Seq<char>) -> bool {
    forall|i: int| 0 <= i < s.len() ==> is_digit(#[trigger] s[i])
}

/// The decimal value of a string of digits.
pub open spec fn digits_value(s: Seq<char>) -> int
    decreases s.len(),
{
    if s.len() == 0 {
        0
    } else {
        digits_value(s.drop_last()) * 10 + (s.last() as int - '0' as int)
    }
}

/// The integer a text denotes as `i32::from_str` documents it: an optional
/// `+` or `-` sign followed by one or more decimal digits, nothing else.
pub open spec fn int_text_value(s: Seq<char>) -> Option<int> {
    if s.len() > 0 && (s[0] == '+' || s[0] == '-') {
        let d = s.drop_first();
        if d.len() > 0 && all_digits(d) {
            Some(
                if s[0] == '-' {
                    -digits_value(d)
                } else {
                    digits_value(d)
                },
            )
        } else {
            None
        }
    } else if s.len() > 0 && all_digits(s) {
        Some(digits_value(s))
    } else {
        None
    }
}

/// A configuration number: trailing `%` signs taken off, then read as an
/// `i32`; `None` when the rest is no integer or does not fit.
pub open spec fn config_int(s: Seq<char>) -> Option<i32> {
    match int_text_value(strip_percent(s)) {
        Some(v) => if i32::MIN <= v <= i32::MAX {
            Some(v as i32)
        } else {
            None
        },
        None => None,
    }
}

/// A configuration flag: `true`/`1` and `false`/`0`, in any case.
pub open spec fn config_bool(s: Seq<char>) -> Option<bool> {
    let l = str_lowercase(s);
    if l == "true"@ || l == "1"@ {
        Some(true)
    } else if l == "false"@ || l == "0"@ {
        Some(false)
    } else {
        None
    }
}

proof fn lemma_digits_value_nonneg(s: Seq<char>)
    requires
        all_digits(s),
    ensures
        digits_value(s) >= 0,
    decreases s.len(),
{
    if s.len() > 0 {
        assert(is_digit(s[s.len() - 1]));
        lemma_digits_value_nonneg(s.drop_last());
    }
}

proof fn lemma_digits_value_grows(s: Seq<char>, k: int)
    requires
        all_digits(s),
        0 <= k <= s.len(),
    ensures
        digits_value(s.take(k)) <= digits_value(s),
    decreases s.len() - k,
{
    if k < s.len() {
        assert(s.drop_last().take(k) =~= s.take(k));
        lemma_digits_value_grows(s.drop_last(), k);
        lemma_digits_value_nonneg(s.drop_last());
        assert(is_digit(s[s.len() - 1]));
    } else {
        assert(s.take(k) =~= s);
    }
}

proof fn lemma_digit_char(d: int)
    requires
        0 <= d < 10,
    ensures
        is_digit(digit_char(d)),
        digit_char(d) as int - '0' as int == d,
{
}

proof fn lemma_nat_str_digits(n: nat)
    ensures
        nat_str(n).len() > 0,
        all_digits(nat_str(n)),
        digits_value(nat_str(n)) == n,
    decreases n,
{
    lemma_digit_char((n % 10) as int);
    if n < 10 {
        lemma_digit_char(n as int);
        assert(nat_str(n).drop_last() =~= Seq::<char>::empty());
        assert(digits_value(Seq::<char>::empty()) == 0);
        assert(nat_str(n).last() == digit_char(n as int));
        assert(digits_value(nat_str(n)) == n);
    } else {
        lemma_nat_str_digits(n / 10);
        let s = nat_str(n);
        assert(s.drop_last() == nat_str(n / 10));
        assert(s.last() == digit_char((n % 10) as int));
        assert((n / 10) * 10 + n % 10 == n) by (nonlinear_arith);
        assert(digits_value(s) == digits_value(s.drop_last()) * 10 + (s.last() as int - '0' as int));
        assert(digits_value(s.drop_last()) == n / 10);
        assert(s.last() as int - '0' as int == n % 10);
        assert(digits_value(s) == n);
        assert forall|i: int| 0 <= i < s.len() implies is_digit(#[trigger] s[i]) by {
            if i < s.len() - 1 {
                assert(s[i] == nat_str(n / 10)[i]);
            }
        }
    }
}

/// A number written out in decimal reads back as itself: the text `{}`
/// gives for an `i32` is a configuration number with that value.
pub proof fn law_int_text_round_trip(v: i32)
    ensures
        config_int(int_str(v as int)) == Some(v),
{
    let s = int_str(v as int);
    if v < 0 {
        let m: nat = (-v) as nat;
        lemma_nat_str_digits(m);
        assert(s.drop_first() =~= nat_str(m));
        assert(s.last() == nat_str(m).last());
        assert(is_digit(nat_str(m)[nat_str(m).len() - 1]));
    } else {
        lemma_nat_str_digits(v as nat);
        assert(is_digit(s[0]));
        assert(is_digit(s[s.len() - 1]));
    }
    assert(strip_percent(s) == s);
}

fn strip_percent_len(s: &str) -> (n: usize)
    ensures
        n <= s@.len(),
        strip_percent(s@) == s@.take(n as int),
{
    let mut n = s.unicode_len();
    assert(s@.take(n as int) =~= s@);
    while n > 0 && s.get_char(n - 1) == '%'
        invariant
            n <= s@.len(),
            strip_percent(s@) == strip_percent(s@.take(n as int)),
        decreases n,
    {
        assert(s@.take(n as int).drop_last() =~= s@.take(n - 1));
        n = n - 1;
    }
    n
}

/// Read a configuration number (see `config_int`).
pub fn parse_i32(s: &str) -> (r: Option<i32>)
    ensures
        r == config_int(s@),
{
    let n = strip_percent_len(s);
    let ghost t = s@.take(n as int);
    if n == 0 {
        return None;
    }
    let c0 = s.get_char(0);
    assert(t[0] == c0);
    let neg = c0 == '-';
    let start: usize = if c0 == '+' || c0 == '-' {
        1
    } else {
        0
    };
    if start == n {
        return None;
    }
    let ghost d = t.subrange(start as int, n as int);
    assert(start == 1 ==> d =~= t.drop_first());
    assert(start == 0 ==> d =~= t);
    let mut acc: i64 = 0;
    let mut i: usize = start;
    while i < n
        invariant
            start <= i <= n <= s@.len(),
            t == s@.take(n as int),
            t == strip_percent(s@),
            t.len() == n,
            t[0] == c0,
            neg == (c0 == '-'),
            start <= 1,
            start == 1 <==> (c0 == '+' || c0 == '-'),
            start == 1 ==> d == t.drop_first(),
            start == 0 ==> d == t,
            d == t.subrange(start as int, n as int),
            all_digits(d.take(i - start)),
            acc == digits_value(d.take(i - start)),
            0 <= acc <= 2147483648,
        decreases n - i,
    {
        let c = s.get_char(i);
        assert(c == d[i - start]);
        if !('0' <= c && c <= '9') {
            assert(!all_digits(d));
            return None;
        }
        let dv = (c as u32 - '0' as u32) as i64;
        assert(d.take(i + 1 - start).drop_last() =~= d.take(i - start));
        acc = acc * 10 + dv;
        assert(d.take(i + 1 - start).last() == c);
        assert(acc == digits_value(d.take(i + 1 - start)));
        assert(all_digits(d.take(i + 1 - start)));
        if acc > 2147483648 {
            proof {
                if all_digits(d) {
                    lemma_digits_value_grows(d, i + 1 - start);
                    assert(digits_value(d) > 2147483648);
                    if start == 1 {
                        assert(t.drop_first() == d);
                        assert(int_text_value(t) == Some(
                            if c0 == '-' {
                                -digits_value(d)
                            } else {
                                digits_value(d)
                            },
                        ));
                    } else {
                        assert(d == t);
                        assert(all_digits(t));
                        assert(t.len() > 0);
                        assert(!(t[0] == '+' || t[0] == '-'));
                        assert(int_text_value(t) == Some(digits_value(d)));
                    }
                } else {
                    assert(int_text_value(t) is None);
                }
            }
            return None;
        }
        i = i + 1;
    }
    assert(d.take(n - start) =~= d);
    if neg {
        Some((-acc) as i32)
    } else if acc <= 2147483647 {
        Some(acc as i32)
    } else {
        None
    }
}

/// Read a percentage as a whole number; the same reading as `parse_i32`.
pub fn parse_percent(s: &str) -> (r: Option<i32>)
    ensures
        r == config_int(s@),
{
    parse_i32(s)
}

/// Read a configuration flag (see `config_bool`).
pub fn parse_bool(s: &str) -> (r: Option<bool>)
    ensures
        r == config_bool(s@),
{
    let l = to_lowercase(s);
    let ls = l.as_str();
    if str_eq(ls, "true") || str_eq(ls, "1") {
        Some(true)
    } else if str_eq(ls, "false") || str_eq(ls, "0") {
        Some(false)
    } else {
        None
    }
}

/// The number an optional entry gives, if any.
pub open spec fn entry_int(e: Option<String>) -> Option<i32> {
    match e {
        Some(s) => config_int(s@),
        None => None,
    }
}

/// The flag an optional entry gives, if any.
pub open spec fn entry_bool(e: Option<String>) -> Option<bool> {
    match e {
        Some(s) => config_bool(s@),
        None => None,
    }
}

/// `old` replaced by the entry's number when it gives one.
pub open spec fn or_int(e: Option<String>, old: i32) -> i32 {
    match entry_int(e) {
        Some(v) => v,
        None => old,
    }
}

/// `old` replaced by the entry's flag when it gives one.
pub open spec fn or_bool(e: Option<String>, old: bool) -> bool {
    match entry_bool(e) {
        Some(v) => v,
        None => old,
    }
}

/// Read an optional numeric entry.
pub fn read_int(e: &Option<String>) -> (r: Option<i32>)
    ensures
        r == entry_int(*e),
{
    match e {
        Some(s) => parse_i32(s.as_str()),
        None => None,
    }
}

/// Read an optional flag entry.
pub fn read_bool(e: &Option<String>) -> (r: Option<bool>)
    ensures
        r == entry_bool(*e),
{
    match e {
        Some(s) => parse_bool(s.as_str()),
        None => None,
    }
}

fn set_int(field: &mut i32, e: &Option<String>)
    ensures
        *final(field) == or_int(*e, *old(field)),
{
    if let Some(v) = read_int(e) {
        *field = v;
    }
}

fn set_bool(field: &mut bool, e: &Option<String>)
    ensures
        *final(field) == or_bool(*e, *old(field)),
{
    if let Some(v) = read_bool(e) {
        *field = v;
    }
}

impl InitialConfig {
    /// Take over every entry of the `Initial` section that reads well; the
    /// others keep their value.
    pub fn apply(&mut self, x: &InitialXml)
        ensures
            final(self).gold == or_int(x.gold, old(self).gold),
            final(self).girl_meet == or_int(x.girl_meet, old(self).girl_meet),
            final(self).slave_house_perc == or_int(x.slave_house_perc, old(self).slave_house_perc),
            final(self).auto_use_items == or_bool(x.auto_use_items, old(self).auto_use_items),
            final(self).torture_trait_week_mod == or_int(
                x.torture_trait_week_mod,
                old(self).torture_trait_week_mod,
            ),
    {
        set_int(&mut self.gold, &x.gold);
        set_int(&mut self.girl_meet, &x.girl_meet);
        set_int(&mut self.slave_house_perc, &x.slave_house_perc);
        set_bool(&mut self.auto_use_items, &x.auto_use_items);
        set_int(&mut self.torture_trait_week_mod, &x.torture_trait_week_mod);
    }
}

impl GangsConfig {
    /// Take over every entry of the `Gangs` section that reads well; the
    /// others keep their value.
    pub fn apply(&mut self, x: &GangsXml)
        ensures
            final(self).max_recruit_list == or_int(x.max_recruit_list, old(self).max_recruit_list),
            final(self).start_random == or_int(x.start_random, old(self).start_random),
            final(self).start_boosted == or_int(x.start_boosted, old(self).start_boosted),
            final(self).init_member_min == or_int(x.init_member_min, old(self).init_member_min),
            final(self).init_member_max == or_int(x.init_member_max, old(self).init_member_max),
            final(self).chance_remove_unwanted == or_int(
                x.chance_remove_unwanted,
                old(self).chance_remove_unwanted,
            ),
            final(self).add_new_weekly_min == or_int(x.add_new_weekly_min, old(self).add_new_weekly_min),
            final(self).add_new_weekly_max == or_int(x.add_new_weekly_max, old(self).add_new_weekly_max),
    {
        set_int(&mut self.max_recruit_list, &x.max_recruit_list);
        set_int(&mut self.start_random, &x.start_random);
        set_int(&mut self.start_boosted, &x.start_boosted);
        set_int(&mut self.init_member_min, &x.init_member_min);
        set_int(&mut self.init_member_max, &x.init_member_max);
        set_int(&mut self.chance_remove_unwanted, &x.chance_remove_unwanted);
        set_int(&mut self.add_new_weekly_min, &x.add_new_weekly_min);
        set_int(&mut self.add_new_weekly_max, &x.add_new_weekly_max);
    }
}

/// The colour entries of the `Items` section, in rarity order.
pub open spec fn color_entries(x: ItemsXmlSection) -> Seq<Option<String>> {
    seq![
        x.rarity_color_0,
        x.rarity_color_1,
        x.rarity_color_2,
        x.rarity_color_3,
        x.rarity_color_4,
        x.rarity_color_5,
        x.rarity_color_6,
    ]
}

impl ItemsConfig {
    /// Take over the `Items` section: the flag when it reads well, and each
    /// colour that is present; the others keep their value.
    pub fn apply(&mut self, x: &ItemsXmlSection)
        ensures
            final(self).auto_combat_equip == or_bool(x.auto_combat_equip, old(self).auto_combat_equip),
            forall|i: int|
                0 <= i < 7 ==> (#[trigger] final(self).rarity_colors@[i])@ == match color_entries(*x)[i] {
                    Some(c) => c@,
                    None => old(self).rarity_colors@[i]@,
                },
    {
        set_bool(&mut self.auto_combat_equip, &x.auto_combat_equip);
        let colors = [
            &x.rarity_color_0,
            &x.rarity_color_1,
            &x.rarity_color_2,
            &x.rarity_color_3,
            &x.rarity_color_4,
            &x.rarity_color_5,
            &x.rarity_color_6,
        ];
        let ghost before = self.rarity_colors@;
        let mut i: usize = 0;
        while i < 7
            invariant
                0 <= i <= 7,
                colors@.len() == 7,
                forall|j: int| 0 <= j < 7 ==> *(#[trigger] colors@[j]) == color_entries(*x)[j],
                self.rarity_colors@.len() == 7,
                self.auto_combat_equip == or_bool(x.auto_combat_equip, old(self).auto_combat_equip),
                before.len() == 7,
                forall|j: int|
                    0 <= j < 7 ==> (#[trigger] self.rarity_colors@[j])@ == if j < i {
                        match color_entries(*x)[j] {
                            Some(c) => c@,
                            None => before[j]@,
                        }
                    } else {
                        before[j]@
                    },
            decreases 7 - i,
        {
            if let Some(c) = colors[i] {
                self.rarity_colors.set(i, c.clone());
            }
            i = i + 1;
        }
    }
}

impl FontsConfig {
    /// Take over the `Fonts` section: the font names that are present, and
    /// the flag when it reads well; the others keep their value.
    pub fn apply(&mut self, x: FontsXml)
        ensures
            final(self).normal@ == match x.normal {
                Some(v) => v@,
                None => old(self).normal@,
            },
            final(self).fixed@ == match x.fixed {
                Some(v) => v@,
                None => old(self).fixed@,
            },
            final(self).antialias == or_bool(x.antialias, old(self).antialias),
    {
        set_bool(&mut self.antialias, &x.antialias);
        if let Some(v) = x.normal {
            self.normal = v;
        }
        if let Some(v) = x.fixed {
            self.fixed = v;
        }
    }
}

impl DebugConfig {
    /// Take over every flag of the `Debug` section that reads well; the
    /// others keep their value.
    pub fn apply(&mut self, x: &DebugXml)
        ensures
            final(self).log_all == or_bool(x.log_all, old(self).log_all),
            final(self).log_items == or_bool(x.log_items, old(self).log_items),
            final(self).log_girls == or_bool(x.log_girls, old(self).log_girls),
            final(self).log_rgirls == or_bool(x.log_rgirls, old(self).log_rgirls),
            final(self).log_fonts == or_bool(x.log_fonts, old(self).log_fonts),
            final(self).log_torture == or_bool(x.log_torture, old(self).log_torture),
    {
        set_bool(&mut self.log_all, &x.log_all);
        set_bool(&mut self.log_items, &x.log_items);
        set_bool(&mut self.log_girls, &x.log_girls);
        set_bool(&mut self.log_rgirls, &x.log_rgirls);
        set_bool(&mut self.log_fonts, &x.log_fonts);
        set_bool(&mut self.log_torture, &x.log_torture);
    }
}

/// An entry that is missing, or whose text does not read as a number or a
/// flag, keeps the setting as it was; one that reads replaces it. So a section
/// with every entry missing, or a file without the section, leaves the
/// defaults (every `apply` sets each field by `or_int` or `or_bool`).
pub proof fn law_unread_entries_keep_values(e: Option<String>, v: i32, b: bool)
    ensures
        e is None ==> entry_int(e) is None && entry_bool(e) is None,
        entry_int(e) is None ==> or_int(e, v) == v,
        entry_bool(e) is None ==> or_bool(e, b) == b,
        entry_int(e) matches Some(n) ==> or_int(e, v) == n,
        entry_bool(e) matches Some(f) ==> or_bool(e, b) == f,
{
}

} // verus!
