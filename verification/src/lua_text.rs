//! Text pieces of the Lua output: decimal numbers, escaped strings and the
//! names that script codes stand for.
use vstd::prelude::*;
use crate::strs::push_char;

verus! {

/// The decimal digit character for `d` in 0..=9.
pub open spec fn digit_char(d: int) -> char {
    if d == 0 {
        '0'
    } else if d == 1 {
        '1'
    } else if d == 2 {
        '2'
    } else if d == 3 {
        '3'
    } else if d == 4 {
        '4'
    } else if d == 5 {
        '5'
    } else if d == 6 {
        '6'
    } else if d == 7 {
        '7'
    } else if d == 8 {
        '8'
    } else {
        '9'
    }
}

/// Decimal digits of a natural number, without leading zeros ("0" for zero).
pub open spec fn nat_str(n: nat) -> Seq<char>
    decreases n,
{
    if n < 10 {
        seq![digit_char(n as int)]
    } else {
        nat_str(n / 10).push(digit_char((n % 10) as int))
    }
}

/// Decimal form of an integer, as `{}` formats it: a minus sign for negatives.
pub open spec fn int_str(v: int) -> Seq<char> {
    if v < 0 {
        seq!['-'] + nat_str((-v) as nat)
    } else {
        nat_str(v as nat)
    }
}

fn digit(d: u64) -> (c: char)
    requires
        d < 10,
    ensures
        c == digit_char(d as int),
{
    match d {
        0 => '0',
        1 => '1',
        2 => '2',
        3 => '3',
        4 => '4',
        5 => '5',
        6 => '6',
        7 => '7',
        8 => '8',
        _ => '9',
    }
}

/// Append the decimal digits of `n`.
pub fn push_nat(out: &mut String, n: u64)
    ensures
        final(out)@ == old(out)@ + nat_str(n as nat),
    decreases n,
{
    if n >= 10 {
        push_nat(out, n / 10);
    }
    push_char(out, digit(n % 10));
    proof {
        if n >= 10 {
            assert(final(out)@ =~= old(out)@ + nat_str(n as nat));
        } else {
            assert(final(out)@ =~= old(out)@ + nat_str(n as nat));
        }
    }
}

/// Append the decimal form of `v`.
pub fn push_int(out: &mut String, v: i64)
    requires
        v > i64::MIN,
    ensures
        final(out)@ == old(out)@ + int_str(v as int),
{
    if v < 0 {
        push_char(out, '-');
        push_nat(out, (-v) as u64);
        assert(final(out)@ =~= old(out)@ + int_str(v as int));
    } else {
        push_nat(out, v as u64);
    }
}

/// The decimal form of `v`, as a new string.
pub fn int_to_string(v: i64) -> (s: String)
    requires
        v > i64::MIN,
    ensures
        s@ == int_str(v as int),
{
    let mut s = String::new();
    push_int(&mut s, v);
    assert(s@ =~= int_str(v as int));
    s
}

/// How one character is written inside a double-quoted Lua string.
pub open spec fn escape_char(c: char) -> Seq<char> {
    if c == '\\' {
        seq!['\\', '\\']
    } else if c == '"' {
        seq!['\\', '"']
    } else if c == '\n' {
        seq!['\\', 'n']
    } else {
        seq![c]
    }
}

/// A text escaped for a double-quoted Lua string: backslash, double quote and
/// newline get a backslash form, every other character stays.
pub open spec fn lua_escape_spec(s: Seq<char>) -> Seq<char>
    decreases s.len(),
{
    if s.len() == 0 {
        Seq::empty()
    } else {
        lua_escape_spec(s.drop_last()) + escape_char(s.last())
    }
}

/// Append `s` escaped for a double-quoted Lua string.
pub fn push_escaped(out: &mut String, s: &Vec<char>)
    ensures
        final(out)@ == old(out)@ + lua_escape_spec(s@),
{
    let ghost start = out@;
    let mut i: usize = 0;
    assert(s@.take(0) =~= Seq::<char>::empty());
    while i < s.len()
        invariant
            i <= s@.len(),
            out@ == start + lua_escape_spec(s@.take(i as int)),
        decreases s.len() - i,
    {
        let c = s[i];
        if c == '\\' {
            push_char(out, '\\');
            push_char(out, '\\');
        } else if c == '"' {
            push_char(out, '\\');
            push_char(out, '"');
        } else if c == '\n' {
            push_char(out, '\\');
            push_char(out, 'n');
        } else {
            push_char(out, c);
        }
        assert(s@.take(i + 1).drop_last() =~= s@.take(i as int));
        assert(out@ =~= start + lua_escape_spec(s@.take(i + 1)));
        i = i + 1;
    }
    assert(s@.take(s@.len() as int) =~= s@);
}

/// Escape a text for a double-quoted Lua string.
pub fn lua_escape(s: &Vec<char>) -> (r: String)
    ensures
        r@ == lua_escape_spec(s@),
{
    let mut r = String::new();
    push_escaped(&mut r, s);
    assert(r@ =~= lua_escape_spec(s@));
    r
}

/// Stat name for a stat code (0..=21), "Unknown" otherwise.
pub open spec fn stat_name_spec(idx: i32) -> Seq<char> {
    if idx == 0 {
        "Charisma"@
    } else if idx == 1 {
        "Happiness"@
    } else if idx == 2 {
        "Libido"@
    } else if idx == 3 {
        "Constitution"@
    } else if idx == 4 {
        "Intelligence"@
    } else if idx == 5 {
        "Confidence"@
    } else if idx == 6 {
        "Mana"@
    } else if idx == 7 {
        "Agility"@
    } else if idx == 8 {
        "Fame"@
    } else if idx == 9 {
        "Level"@
    } else if idx == 10 {
        "AskPrice"@
    } else if idx == 11 {
        "HousePerc"@
    } else if idx == 12 {
        "Exp"@
    } else if idx == 13 {
        "Age"@
    } else if idx == 14 {
        "Obedience"@
    } else if idx == 15 {
        "Spirit"@
    } else if idx == 16 {
        "Beauty"@
    } else if idx == 17 {
        "Tiredness"@
    } else if idx == 18 {
        "Health"@
    } else if idx == 19 {
        "PCFear"@
    } else if idx == 20 {
        "PCLove"@
    } else if idx == 21 {
        "PCHate"@
    } else {
        "Unknown"@
    }
}

/// Stat name for a stat code (0..=21), "Unknown" otherwise.
pub fn stat_name(idx: i32) -> (r: &'static str)
    ensures
        r@ == stat_name_spec(idx),
{
    match idx {
        0 => "Charisma",
        1 => "Happiness",
        2 => "Libido",
        3 => "Constitution",
        4 => "Intelligence",
        5 => "Confidence",
        6 => "Mana",
        7 => "Agility",
        8 => "Fame",
        9 => "Level",
        10 => "AskPrice",
        11 => "HousePerc",
        12 => "Exp",
        13 => "Age",
        14 => "Obedience",
        15 => "Spirit",
        16 => "Beauty",
        17 => "Tiredness",
        18 => "Health",
        19 => "PCFear",
        20 => "PCLove",
        21 => "PCHate",
        _ => "Unknown",
    }
}

/// Skill name for a skill code (0..=9), "Unknown" otherwise.
pub open spec fn skill_name_spec(idx: i32) -> Seq<char> {
    if idx == 0 {
        "Anal"@
    } else if idx == 1 {
        "Magic"@
    } else if idx == 2 {
        "BDSM"@
    } else if idx == 3 {
        "NormalSex"@
    } else if idx == 4 {
        "Beastiality"@
    } else if idx == 5 {
        "Group"@
    } else if idx == 6 {
        "Lesbian"@
    } else if idx == 7 {
        "Service"@
    } else if idx == 8 {
        "Strip"@
    } else if idx == 9 {
        "Combat"@
    } else {
        "Unknown"@
    }
}

/// Skill name for a skill code (0..=9), "Unknown" otherwise.
pub fn skill_name(idx: i32) -> (r: &'static str)
    ensures
        r@ == skill_name_spec(idx),
{
    match idx {
        0 => "Anal",
        1 => "Magic",
        2 => "BDSM",
        3 => "NormalSex",
        4 => "Beastiality",
        5 => "Group",
        6 => "Lesbian",
        7 => "Service",
        8 => "Strip",
        9 => "Combat",
        _ => "Unknown",
    }
}

/// Name for a combined stat-or-skill code: 0..=21 are stats, 22 and up are skills.
pub open spec fn stat_or_skill_name_spec(idx: i32) -> Seq<char> {
    if idx >= 22 {
        skill_name_spec((idx - 22) as i32)
    } else {
        stat_name_spec(idx)
    }
}

/// Name for a combined stat-or-skill code: 0..=21 are stats, 22 and up are skills.
pub fn stat_or_skill_name(idx: i32) -> (r: &'static str)
    ensures
        r@ == stat_or_skill_name_spec(idx),
{
    if idx >= 22 {
        skill_name(idx - 22)
    } else {
        stat_name(idx)
    }
}

/// Lua comparison operator for a comparison code ("==" for unknown codes).
pub open spec fn comparison_op_spec(sel: i32) -> Seq<char> {
    if sel == 1 {
        "<"@
    } else if sel == 2 {
        "<="@
    } else if sel == 3 {
        ">"@
    } else if sel == 4 {
        ">="@
    } else if sel == 5 {
        "~="@
    } else {
        "=="@
    }
}

/// Lua comparison operator for a comparison code ("==" for unknown codes).
pub fn comparison_op(sel: i32) -> (r: &'static str)
    ensures
        r@ == comparison_op_spec(sel),
{
    match sel {
        0 => "==",
        1 => "<",
        2 => "<=",
        3 => ">",
        4 => ">=",
        5 => "~=",
        _ => "==",
    }
}

/// Quoted reason for a customer put in the dungeon.
pub open spec fn dungeon_cust_reason_spec(sel: i32) -> Seq<char> {
    if sel == 0 {
        "\"NoPay\""@
    } else if sel == 1 {
        "\"BeatGirl\""@
    } else {
        "\"Unknown\""@
    }
}

/// Quoted reason for a customer put in the dungeon.
pub fn dungeon_cust_reason(sel: i32) -> (r: &'static str)
    ensures
        r@ == dungeon_cust_reason_spec(sel),
{
    match sel {
        0 => "\"NoPay\"",
        1 => "\"BeatGirl\"",
        _ => "\"Unknown\"",
    }
}

/// Quoted reason for a girl put in the dungeon.
pub open spec fn dungeon_girl_reason_spec(sel: i32) -> Seq<char> {
    if sel == 0 {
        "\"Kidnapped\""@
    } else if sel == 1 {
        "\"Captured\""@
    } else {
        "\"Unknown\""@
    }
}

/// Quoted reason for a girl put in the dungeon.
pub fn dungeon_girl_reason(sel: i32) -> (r: &'static str)
    ensures
        r@ == dungeon_girl_reason_spec(sel),
{
    match sel {
        0 => "\"Kidnapped\"",
        1 => "\"Captured\"",
        _ => "\"Unknown\"",
    }
}

} // verus!
