//! The binary `.script` format of the game's scripts: parsing it, and rewriting it as Lua source.
//!
//! File layout (all integers little-endian `i32`):
//! `num_actions`, then per action `action_type`, `num_entries`, then per entry
//! `entry_type`, `value`, one byte `var`, and, for a text entry (`entry_type == 1`)
//! with `value > 0`, `value` bytes of text (possibly NUL-padded).
use vstd::prelude::*;
use vstd::slice::slice_subrange;
use crate::strs::push_char;
use crate::lua_text::{
    comparison_op, comparison_op_spec, dungeon_cust_reason, dungeon_cust_reason_spec, dungeon_girl_reason,
    dungeon_girl_reason_spec, int_str, lua_escape_spec, push_escaped, push_int, skill_name, skill_name_spec,
    stat_name, stat_name_spec, stat_or_skill_name, stat_or_skill_name_spec,
};

verus! {

/// Entry type code of a text entry.
pub const ENTRY_TYPE_TEXT: i32 = 1;

/// A single entry of a script action.
#[derive(Debug)]
pub struct ScriptEntry {
    pub entry_type: i32,
    /// Length for a text entry; value, selection or flag otherwise.
    pub value: i32,
    /// 1 = the value is an index into the script's variables.
    pub var: u8,
    pub text: Option<Vec<char>>,
}

/// A single script action.
#[derive(Debug)]
pub struct ScriptAction {
    pub action_type: i32,
    pub entries: Vec<ScriptEntry>,
}

/// Errors of converting a script.
#[derive(Debug, Clone, Copy, PartialEq, Eq)]
pub enum ConvertError {
    /// The data ended in the middle of a value.
    UnexpectedEof,
    /// An action code that has no Lua form (the code truncated to a byte).
    UnknownOpcode(u8),
}

/// Outcome of a conversion step: a value, an error to report, or an input
/// that cannot be converted at all, on which a plain conversion would panic.
#[derive(Debug)]
pub enum Converted<T> {
    Done(T),
    Failed(ConvertError),
    Panics,
}

/// Model of an entry.
pub struct EntryView {
    pub entry_type: i32,
    pub value: i32,
    pub var: u8,
    pub text: Option<Seq<char>>,
}

/// Model of an action.
pub struct ActionView {
    pub action_type: i32,
    pub entries: Seq<EntryView>,
}

impl View for ScriptEntry {
    type V = EntryView;

    open spec fn view(&self) -> EntryView {
        EntryView {
            entry_type: self.entry_type,
            value: self.value,
            var: self.var,
            text: match self.text {
                Some(t) => Some(t@),
                None => None,
            },
        }
    }
}

impl View for ScriptAction {
    type V = ActionView;

    open spec fn view(&self) -> ActionView {
        ActionView { action_type: self.action_type, entries: self.entries@.map_values(|e: ScriptEntry| e@) }
    }
}

/// The models of a list of actions.
pub open spec fn actions_view(v: Seq<ScriptAction>) -> Seq<ActionView> {
    v.map_values(|a: ScriptAction| a@)
}

/// Characters that `String::from_utf8_lossy` gives for a byte sequence.
pub uninterp spec fn utf8_lossy(bytes: Seq<u8>) -> Seq<char>;

/// Calls `String::from_utf8_lossy` and lists the characters of the result.
/// Its result depends on the bytes alone; what it is (UTF-8 decoding with
/// U+FFFD for invalid sequences) is named `utf8_lossy`, not spelled out.
#[verifier::external_body]
fn decode_lossy(bytes: &[u8]) -> (r: Vec<char>)
    ensures
        r@ == utf8_lossy(bytes@),
{
    String::from_utf8_lossy(bytes).chars().collect()
}

/// `s` with all trailing NUL characters taken off.
pub open spec fn trim_trailing_nul(s: Seq<char>) -> Seq<char>
    decreases s.len(),
{
    if s.len() > 0 && s.last() == '\0' {
        trim_trailing_nul(s.drop_last())
    } else {
        s
    }
}

/// Outcome of reading a part of the file: the value and the position after it,
/// the end of the data reached early, or an input on which reading panics
/// (a negative count handed to `Vec::with_capacity`).
pub enum Parsed<T> {
    Done(T, int),
    Eof,
    Panic,
}

/// The `i32` whose little-endian bytes start at `p`.
pub open spec fn le_i32(d: Seq<u8>, p: int) -> i32 {
    let u = d[p] as int + d[p + 1] as int * 256 + d[p + 2] as int * 65536 + d[p + 3] as int * 16777216;
    if u < 0x8000_0000 {
        u as i32
    } else {
        (u - 0x1_0000_0000) as i32
    }
}

/// Read one entry at `p`.
pub open spec fn parse_entry(d: Seq<u8>, p: int) -> Parsed<EntryView> {
    if p + 9 > d.len() {
        Parsed::Eof
    } else {
        let t = le_i32(d, p);
        let v = le_i32(d, p + 4);
        let var = d[p + 8];
        let q = p + 9;
        if t == ENTRY_TYPE_TEXT && v > 0 {
            if q + v > d.len() {
                Parsed::Eof
            } else {
                Parsed::Done(
                    EntryView {
                        entry_type: t,
                        value: v,
                        var,
                        text: Some(trim_trailing_nul(utf8_lossy(d.subrange(q, q + v)))),
                    },
                    q + v,
                )
            }
        } else {
            Parsed::Done(EntryView { entry_type: t, value: v, var, text: None }, q)
        }
    }
}

/// `acc` put in front of a parsed list.
pub open spec fn prepend<T>(acc: Seq<T>, r: Parsed<Seq<T>>) -> Parsed<Seq<T>> {
    match r {
        Parsed::Done(s, q) => Parsed::Done(acc + s, q),
        Parsed::Eof => Parsed::Eof,
        Parsed::Panic => Parsed::Panic,
    }
}

/// Read `k` entries at `p`.
pub open spec fn parse_entries(d: Seq<u8>, p: int, k: int) -> Parsed<Seq<EntryView>>
    decreases k,
{
    if k <= 0 {
        Parsed::Done(Seq::empty(), p)
    } else {
        match parse_entry(d, p) {
            Parsed::Done(e, q) => prepend(seq![e], parse_entries(d, q, k - 1)),
            Parsed::Eof => Parsed::Eof,
            Parsed::Panic => Parsed::Panic,
        }
    }
}

/// Read one action at `p`.
pub open spec fn parse_action(d: Seq<u8>, p: int) -> Parsed<ActionView> {
    if p + 8 > d.len() {
        Parsed::Eof
    } else {
        let t = le_i32(d, p);
        let n = le_i32(d, p + 4);
        if n < 0 {
            Parsed::Panic
        } else {
            match parse_entries(d, p + 8, n as int) {
                Parsed::Done(es, q) => Parsed::Done(ActionView { action_type: t, entries: es }, q),
                Parsed::Eof => Parsed::Eof,
                Parsed::Panic => Parsed::Panic,
            }
        }
    }
}

/// Read `k` actions at `p`.
pub open spec fn parse_actions(d: Seq<u8>, p: int, k: int) -> Parsed<Seq<ActionView>>
    decreases k,
{
    if k <= 0 {
        Parsed::Done(Seq::empty(), p)
    } else {
        match parse_action(d, p) {
            Parsed::Done(a, q) => prepend(seq![a], parse_actions(d, q, k - 1)),
            Parsed::Eof => Parsed::Eof,
            Parsed::Panic => Parsed::Panic,
        }
    }
}

/// Read a whole script: the action count, then the actions. Bytes after the
/// last action are ignored.
pub open spec fn parse_script_spec(d: Seq<u8>) -> Parsed<Seq<ActionView>> {
    if d.len() < 4 {
        Parsed::Eof
    } else {
        let n = le_i32(d, 0);
        if n < 0 {
            Parsed::Panic
        } else {
            parse_actions(d, 4, n as int)
        }
    }
}

proof fn lemma_prepend_push<T>(acc: Seq<T>, x: T, r: Parsed<Seq<T>>)
    ensures
        prepend(acc, prepend(seq![x], r)) == prepend(acc.push(x), r),
{
    match r {
        Parsed::Done(s, q) => {
            assert(acc + (seq![x] + s) =~= acc.push(x) + s);
        },
        _ => {},
    }
}

/// Read a little-endian `i32` at `*pos`, advancing the position.
pub fn read_i32(data: &[u8], pos: &mut usize) -> (r: Result<i32, ConvertError>)
    ensures
        *old(pos) + 4 <= data@.len() ==> r == Ok::<i32, ConvertError>(le_i32(data@, *old(pos) as int))
            && *final(pos) == *old(pos) + 4,
        *old(pos) + 4 > data@.len() ==> r == Err::<i32, ConvertError>(ConvertError::UnexpectedEof),
{
    let p = *pos;
    if data.len() < 4 || p > data.len() - 4 {
        return Err(ConvertError::UnexpectedEof);
    }
    let u: u32 = data[p] as u32 + data[p + 1] as u32 * 256 + data[p + 2] as u32 * 65536 + data[p + 3] as u32
        * 16777216;
    let v: i32 = if u < 0x8000_0000 {
        u as i32
    } else {
        (u as i64 - 0x1_0000_0000i64) as i32
    };
    *pos = p + 4;
    Ok(v)
}

/// Read one byte at `*pos`, advancing the position.
pub fn read_u8(data: &[u8], pos: &mut usize) -> (r: Result<u8, ConvertError>)
    ensures
        *old(pos) < data@.len() ==> r == Ok::<u8, ConvertError>(data@[*old(pos) as int])
            && *final(pos) == *old(pos) + 1,
        *old(pos) >= data@.len() ==> r == Err::<u8, ConvertError>(ConvertError::UnexpectedEof),
{
    let p = *pos;
    if p >= data.len() {
        return Err(ConvertError::UnexpectedEof);
    }
    *pos = p + 1;
    Ok(data[p])
}

/// The characters with all trailing NUL characters taken off.
fn trim_nul(v: &Vec<char>) -> (r: Vec<char>)
    ensures
        r@ == trim_trailing_nul(v@),
{
    let mut end = v.len();
    assert(v@.take(end as int) =~= v@);
    while end > 0 && v[end - 1] == '\0'
        invariant
            end <= v@.len(),
            trim_trailing_nul(v@) == trim_trailing_nul(v@.take(end as int)),
        decreases end,
    {
        assert(v@.take(end as int).drop_last() =~= v@.take(end - 1));
        end = end - 1;
    }
    let mut r: Vec<char> = Vec::new();
    let mut i: usize = 0;
    while i < end
        invariant
            end <= v@.len(),
            i <= end,
            r@ == v@.take(i as int),
        decreases end - i,
    {
        r.push(v[i]);
        assert(v@.take(i + 1) =~= v@.take(i as int).push(v@[i as int]));
        i = i + 1;
    }
    assert(v@.take(end as int) =~= r@);
    r
}

/// Read one entry at `*pos`.
fn parse_entry_exec(data: &[u8], pos: &mut usize) -> (r: Result<ScriptEntry, ConvertError>)
    ensures
        match parse_entry(data@, *old(pos) as int) {
            Parsed::Done(e, q) => r matches Ok(x) && x@ == e && *final(pos) == q,
            Parsed::Eof => r == Err::<ScriptEntry, ConvertError>(ConvertError::UnexpectedEof),
            Parsed::Panic => false,
        },
{
    let p0 = *pos;
    let entry_type = read_i32(data, pos)?;
    let value = read_i32(data, pos)?;
    let var = read_u8(data, pos)?;
    let text = if entry_type == ENTRY_TYPE_TEXT && value > 0 {
        let len = value as usize;
        let q = *pos;
        if q > data.len() || len > data.len() - q {
            return Err(ConvertError::UnexpectedEof);
        }
        let bytes = slice_subrange(data, q, q + len);
        let chars = decode_lossy(bytes);
        *pos = q + len;
        Some(trim_nul(&chars))
    } else {
        None
    };
    Ok(ScriptEntry { entry_type, value, var, text })
}

/// Read one action at `*pos`.
fn parse_action_exec(data: &[u8], pos: &mut usize) -> (r: Converted<ScriptAction>)
    ensures
        match parse_action(data@, *old(pos) as int) {
            Parsed::Done(a, q) => r matches Converted::Done(x) && x@ == a && *final(pos) == q,
            Parsed::Eof => r matches Converted::Failed(e) && e == ConvertError::UnexpectedEof,
            Parsed::Panic => r is Panics,
        },
{
    let ghost p0 = *pos as int;
    let action_type = match read_i32(data, pos) {
        Ok(v) => v,
        Err(e) => return Converted::Failed(e),
    };
    let num_entries = match read_i32(data, pos) {
        Ok(v) => v,
        Err(e) => return Converted::Failed(e),
    };
    if num_entries < 0 {
        return Converted::Panics;
    }
    let ghost d = data@;
    let ghost start = *pos as int;
    let mut entries: Vec<ScriptEntry> = Vec::new();
    let mut i: i32 = 0;
    while i < num_entries
        invariant
            d == data@,
            0 <= i <= num_entries,
            start == p0 + 8,
            p0 == *old(pos) as int,
            p0 + 8 <= d.len(),
            num_entries == le_i32(d, p0 + 4),
            action_type == le_i32(d, p0),
            parse_entries(d, start, num_entries as int) == prepend(
                entries@.map_values(|e: ScriptEntry| e@),
                parse_entries(d, *pos as int, num_entries - i),
            ),
        decreases num_entries - i,
    {
        let ghost before = *pos as int;
        let ghost acc = entries@.map_values(|e: ScriptEntry| e@);
        let e = match parse_entry_exec(data, pos) {
            Ok(e) => e,
            Err(err) => {
                assert(parse_entries(d, before, num_entries - i) is Eof);
                assert(parse_entries(d, start, num_entries as int) is Eof);
                assert(num_entries >= 0 && le_i32(d, p0 + 4) == num_entries);
                assert(parse_action(d, p0) is Eof);
                return Converted::Failed(err);
            },
        };
        proof {
            lemma_prepend_push(acc, e@, parse_entries(d, *pos as int, num_entries - i - 1));
        }
        entries.push(e);
        assert(entries@.map_values(|e: ScriptEntry| e@) =~= acc.push(e@));
        i = i + 1;
    }
    assert(entries@.map_values(|e: ScriptEntry| e@) + Seq::<EntryView>::empty() =~= entries@.map_values(
        |e: ScriptEntry| e@,
    ));
    Converted::Done(ScriptAction { action_type, entries })
}

/// Parse the binary `.script` format, telling apart the inputs that cannot
/// be parsed at all: a negative action or entry count, which no list can be
/// made for (`Vec::with_capacity` panics on it).
pub fn parse_script_outcome(data: &[u8]) -> (r: Converted<Vec<ScriptAction>>)
    ensures
        match parse_script_spec(data@) {
            Parsed::Done(acts, _) => r matches Converted::Done(v) && actions_view(v@) == acts,
            Parsed::Eof => r matches Converted::Failed(e) && e == ConvertError::UnexpectedEof,
            Parsed::Panic => r is Panics,
        },
{
    let mut pos: usize = 0;
    let num_actions = match read_i32(data, &mut pos) {
        Ok(v) => v,
        Err(e) => return Converted::Failed(e),
    };
    if num_actions < 0 {
        return Converted::Panics;
    }
    let ghost d = data@;
    let mut actions: Vec<ScriptAction> = Vec::new();
    let mut i: i32 = 0;
    while i < num_actions
        invariant
            d == data@,
            0 <= i <= num_actions,
            d.len() >= 4,
            num_actions == le_i32(d, 0),
            parse_actions(d, 4, num_actions as int) == prepend(
                actions_view(actions@),
                parse_actions(d, pos as int, num_actions - i),
            ),
        decreases num_actions - i,
    {
        let ghost acc = actions_view(actions@);
        let ghost before = pos as int;
        let a = match parse_action_exec(data, &mut pos) {
            Converted::Done(a) => a,
            Converted::Failed(err) => {
                assert(parse_actions(d, before, num_actions - i) is Eof);
                assert(parse_actions(d, 4, num_actions as int) is Eof);
                assert(parse_script_spec(d) is Eof);
                return Converted::Failed(err);
            },
            Converted::Panics => {
                assert(parse_actions(d, before, num_actions - i) is Panic);
                assert(parse_actions(d, 4, num_actions as int) is Panic);
                return Converted::Panics;
            },
        };
        proof {
            lemma_prepend_push(acc, a@, parse_actions(d, pos as int, num_actions - i - 1));
        }
        actions.push(a);
        assert(actions_view(actions@) =~= acc.push(a@));
        i = i + 1;
    }
    assert(actions_view(actions@) + Seq::<ActionView>::empty() =~= actions_view(actions@));
    Converted::Done(actions)
}

/// Parse the binary `.script` format into its list of actions.
pub fn parse_script(data: &[u8]) -> (r: Result<Vec<ScriptAction>, ConvertError>)
    requires
        !(parse_script_spec(data@) is Panic),
    ensures
        match parse_script_spec(data@) {
            Parsed::Done(acts, _) => r matches Ok(v) && actions_view(v@) == acts,
            Parsed::Eof => r == Err::<Vec<ScriptAction>, ConvertError>(ConvertError::UnexpectedEof),
            Parsed::Panic => false,
        },
{
    match parse_script_outcome(data) {
        Converted::Done(v) => Ok(v),
        Converted::Failed(e) => Err(e),
        Converted::Panics => Err(ConvertError::UnexpectedEof),
    }
}

/// Number of entries an action code reads (an action with fewer panics on indexing).
pub open spec fn entries_needed(t: i32) -> int {
    if t == 0 {
        0
    } else if t == 1 {
        0
    } else if t == 2 {
        0
    } else if t == 3 {
        0
    } else if t == 4 {
        0
    } else if t == 5 {
        2
    } else if t == 6 {
        0
    } else if t == 7 {
        2
    } else if t == 8 {
        3
    } else if t == 9 {
        3
    } else if t == 10 {
        0
    } else if t == 11 {
        0
    } else if t == 12 {
        1
    } else if t == 13 {
        2
    } else if t == 14 {
        1
    } else if t == 15 {
        1
    } else if t == 16 {
        1
    } else if t == 17 {
        3
    } else if t == 18 {
        5
    } else if t == 19 {
        2
    } else if t == 20 {
        2
    } else if t == 21 {
        2
    } else if t == 22 {
        6
    } else if t == 23 {
        0
    } else if t == 24 {
        2
    } else if t == 25 {
        0
    } else if t == 26 {
        0
    } else if t == 27 {
        1
    } else if t == 28 {
        1
    } else if t == 29 {
        3
    } else if t == 30 {
        0
    } else if t == 31 {
        3
    } else if t == 32 {
        3
    } else if t == 33 {
        0
    } else if t == 34 {
        0
    } else if t == 35 {
        0
    } else if t == 36 {
        0
    } else if t == 37 {
        0
    } else if t == 38 {
        0
    } else if t == 39 {
        0
    } else if t == 40 {
        0
    } else {
        0
    }
}

/// The Lua text of one action (every code except 5 and 24, which `piece` gives).
pub open spec fn plain_piece(a: ActionView) -> Seq<char> {
    let t = a.action_type;
    if t <= 9 {
        plain_piece_0(a)
    } else if t <= 17 {
        plain_piece_1(a)
    } else if t <= 26 {
        plain_piece_2(a)
    } else if t <= 33 {
        plain_piece_3(a)
    } else if t <= 40 {
        plain_piece_4(a)
    } else {
        Seq::<char>::empty()
    }
}

/// The Lua text of an action with a code in 0..=9 (except 5 and 24).
pub open spec fn plain_piece_0(a: ActionView) -> Seq<char> {
    let es = a.entries;
    let t = a.action_type;
    if t == 0 {
        "wm.message(\""@ + lua_escape_spec(first_text(a, ""@)) + "\", 0)\n"@
    } else if t == 1 {
        "-- init block\n"@
    } else if t == 2 {
        "-- end init\n\n"@
    } else if t == 3 {
        "return -- end script\n"@
    } else if t == 4 {
        "coroutine.yield(\"restart\")\n"@
    } else if t == 6 {
        Seq::<char>::empty()
    } else if t == 7 {
        "vars["@ + val_spec(es[0]) + "] = "@ + val_spec(es[1]) + "\n"@
    } else if t == 8 {
        "vars["@ + val_spec(es[0]) + "] = math.random("@ + val_spec(es[1]) + ", "@ + val_spec(es[2]) + ")\n"@
    } else if t == 9 {
        "if vars["@ + val_spec(es[0]) + "] "@ + comparison_op_spec(es[1].value) + " "@ + val_spec(es[2]) + " then\n"@
    } else {
        Seq::<char>::empty()
    }
}

/// The Lua text of an action with a code in 10..=17 (except 5 and 24).
pub open spec fn plain_piece_1(a: ActionView) -> Seq<char> {
    let es = a.entries;
    let t = a.action_type;
    if t == 10 {
        "else\n"@
    } else if t == 11 {
        "end\n"@
    } else if t == 12 {
        "wm.activate_choice("@ + val_spec(es[0]) + ")\n"@
    } else if t == 13 {
        "if wm.get_choice("@ + val_spec(es[0]) + ") == "@ + val_spec(es[1]) + " then\n"@
    } else if t == 14 {
        "wm.player.set_suspicion("@ + val_spec(es[0]) + ")\n"@
    } else if t == 15 {
        "wm.player.set_disposition("@ + val_spec(es[0]) + ")\n"@
    } else if t == 16 {
        "wm.global.set_flag("@ + val_spec(es[0]) + ", false)\n"@
    } else if t == 17 {
        "wm.dungeon.add_customer("@ + dungeon_cust_reason_spec(es[0].value) + ", "@ + val_spec(es[1]) + ", "@ + val_spec(es[2]) + ")\n"@
    } else {
        Seq::<char>::empty()
    }
}

/// The Lua text of an action with a code in 18..=26 (except 5 and 24).
pub open spec fn plain_piece_2(a: ActionView) -> Seq<char> {
    let es = a.entries;
    let t = a.action_type;
    if t == 18 {
        "wm.dungeon.add_random_girl("@ + dungeon_girl_reason_spec(es[0].value) + ", "@ + val_spec(es[1]) + ", "@ + val_spec(es[2]) + ", "@ + val_spec(es[3]) + ", "@ + val_spec(es[4]) + ")\n"@
    } else if t == 19 {
        "wm.global.set_flag("@ + int_str(es[0].value as int) + ", "@ + int_str(es[1].value as int) + ")\n"@
    } else if t == 20 {
        "wm.girl.set_flag("@ + val_spec(es[0]) + ", "@ + val_spec(es[1]) + ")\n"@
    } else if t == 21 {
        "wm.add_gold(math.random("@ + val_spec(es[0]) + ", "@ + val_spec(es[1]) + "))\n"@
    } else if t == 22 {
        "wm.dungeon.add_random_girls("@ + val_spec(es[0]) + ", "@ + dungeon_girl_reason_spec(es[1].value) + ", "@ + val_spec(es[2]) + ", "@ + val_spec(es[3]) + ", "@ + val_spec(es[4]) + ", "@ + val_spec(es[5]) + ")\n"@
    } else if t == 23 {
        "wm.girl.add_to_brothel()\n"@
    } else if t == 25 {
        "wm.girl.player_rape()\n"@
    } else if t == 26 {
        "wm.give_random_special_item()\n"@
    } else {
        Seq::<char>::empty()
    }
}

/// The Lua text of an action with a code in 27..=33 (except 5 and 24).
pub open spec fn plain_piece_3(a: ActionView) -> Seq<char> {
    let es = a.entries;
    let t = a.action_type;
    if t == 27 {
        "if wm.girl.pass_skill_check(\""@ + skill_name_spec(es[0].value) + "\") then\n"@
    } else if t == 28 {
        "if wm.girl.pass_stat_check(\""@ + stat_name_spec(es[0].value) + "\") then\n"@
    } else if t == 29 {
        "if wm.girl.get_flag("@ + val_spec(es[0]) + ") "@ + comparison_op_spec(es[1].value) + " "@ + val_spec(es[2]) + " then\n"@
    } else if t == 30 {
        "wm.game_over()\n"@
    } else if t == 31 {
        "if wm.girl.get_stat(\""@ + stat_name_spec(es[0].value) + "\") "@ + comparison_op_spec(es[1].value) + " "@ + val_spec(es[2]) + " then\n"@
    } else if t == 32 {
        "if wm.girl.get_skill(\""@ + skill_name_spec(es[0].value) + "\") "@ + comparison_op_spec(es[1].value) + " "@ + val_spec(es[2]) + " then\n"@
    } else if t == 33 {
        "if wm.girl.has_trait(\""@ + lua_escape_spec(first_text(a, "Unknown"@)) + "\") then\n"@
    } else {
        Seq::<char>::empty()
    }
}

/// The Lua text of an action with a code in 34..=40 (except 5 and 24).
pub open spec fn plain_piece_4(a: ActionView) -> Seq<char> {
    let es = a.entries;
    let t = a.action_type;
    if t == 34 {
        "wm.girl.torture()\n"@
    } else if t == 35 {
        "wm.girl.scold()\n"@
    } else if t == 36 {
        "wm.girl.normal_sex()\n"@
    } else if t == 37 {
        "wm.girl.beast_sex()\n"@
    } else if t == 38 {
        "wm.girl.anal_sex()\n"@
    } else if t == 39 {
        "wm.girl.bdsm_sex()\n"@
    } else if t == 40 {
        "if not wm.girl.disobey_check() then\n"@
    } else {
        Seq::<char>::empty()
    }
}


/// How an entry's value is written: `vars[v]` when it names a variable, the number otherwise.
pub open spec fn val_spec(e: EntryView) -> Seq<char> {
    if e.var == 1 {
        "vars["@ + int_str(e.value as int) + "]"@
    } else {
        int_str(e.value as int)
    }
}

/// The text of the action's first entry, or `default` when it has none.
pub open spec fn first_text(a: ActionView, default: Seq<char>) -> Seq<char> {
    if a.entries.len() > 0 && a.entries[0].text is Some {
        a.entries[0].text->0
    } else {
        default
    }
}

proof fn lemma_escape_plain(s: Seq<char>)
    requires
        forall|i: int| 0 <= i < s.len() ==> s[i] != '\\' && s[i] != '"' && s[i] != '\n',
    ensures
        lua_escape_spec(s) == s,
    decreases s.len(),
{
    if s.len() > 0 {
        lemma_escape_plain(s.drop_last());
        assert(lua_escape_spec(s) =~= s);
    }
}

proof fn lemma_unknown_plain()
    ensures
        lua_escape_spec("Unknown"@) == "Unknown"@,
{
    reveal_strlit("Unknown");
    lemma_escape_plain("Unknown"@);
}

proof fn lemma_empty_plain()
    ensures
        lua_escape_spec(""@) == ""@,
{
    reveal_strlit("");
    lemma_escape_plain(""@);
}

/// Append how an entry's value is written.
fn push_val(out: &mut String, e: &ScriptEntry)
    ensures
        final(out)@ == old(out)@ + val_spec(e@),
{
    if e.var == 1 {
        out.append("vars[");
        push_int(out, e.value as i64);
        out.append("]");
    } else {
        push_int(out, e.value as i64);
    }
}

/// How an entry's value is written (see `val_spec`), as a new string.
pub fn val_expr(e: &ScriptEntry) -> (s: String)
    ensures
        s@ == val_spec(e@),
{
    let mut s = String::new();
    push_val(&mut s, e);
    assert(s@ =~= val_spec(e@));
    s
}

/// Append the escaped text of the action's first entry, or `default`.
fn push_first_text_escaped(out: &mut String, a: &ScriptAction, default: &str)
    requires
        lua_escape_spec(default@) == default@,
    ensures
        final(out)@ == old(out)@ + lua_escape_spec(first_text(a@, default@)),
{
    if a.entries.len() > 0 {
        match &a.entries[0].text {
            Some(t) => {
                push_escaped(out, t);
                return;
            },
            None => {},
        }
    }
    out.append(default);
}

/// The quoted choice lines of a choice box: for each of the `k` actions after
/// `start` that exist, its escaped first text.
pub open spec fn choice_lines(acts: Seq<ActionView>, start: int, k: int) -> Seq<char>
    decreases k,
{
    if k <= 0 {
        Seq::empty()
    } else {
        choice_lines(acts, start, k - 1) + choice_line(acts, start + k - 1)
    }
}

/// One quoted choice line, or nothing past the end of the actions.
pub open spec fn choice_line(acts: Seq<ActionView>, idx: int) -> Seq<char> {
    if 0 <= idx < acts.len() {
        "    \""@ + lua_escape_spec(first_text(acts[idx], ""@)) + "\",\n"@
    } else {
        Seq::empty()
    }
}

/// What converting one action gives: text and how many following actions it
/// consumes, an unknown code, or a panic (too few entries, or a negative
/// choice count).
pub enum Step {
    Emit(Seq<char>, nat),
    Unknown(u8),
    Panic,
}

/// Converting action `i` of `acts`.
pub open spec fn piece(acts: Seq<ActionView>, i: int) -> Step {
    let a = acts[i];
    let t = a.action_type;
    let es = a.entries;
    if !(0 <= t <= 40) {
        Step::Unknown(t as u8)
    } else if es.len() < entries_needed(t) {
        Step::Panic
    } else if t == 5 {
        let num = es[1].value;
        if num < 0 {
            Step::Panic
        } else {
            Step::Emit(
                "wm.choice_box("@ + val_spec(es[0]) + ", {\n"@ + choice_lines(acts, i + 1, num as int)
                    + "})\n"@,
                num as nat,
            )
        }
    } else if t == 24 {
        let idx = es[0].value;
        if idx >= 22 {
            Step::Emit(
                "wm.girl.set_skill(\""@ + stat_or_skill_name_spec(idx) + "\", "@ + val_spec(es[1]) + ")\n"@,
                0,
            )
        } else {
            Step::Emit(
                "wm.girl.set_stat(\""@ + stat_or_skill_name_spec(idx) + "\", "@ + val_spec(es[1]) + ")\n"@,
                0,
            )
        }
    } else {
        Step::Emit(plain_piece(a), 0)
    }
}

/// Result of converting a list of actions: Lua text, an unknown code, or a panic.
pub enum LuaOut {
    Text(Seq<char>),
    Unknown(u8),
    Panic,
}

/// Converting the actions from position `i` on.
pub open spec fn lua_body(acts: Seq<ActionView>, i: int) -> LuaOut
    decreases acts.len() - i,
{
    if i < 0 || i >= acts.len() {
        LuaOut::Text(Seq::empty())
    } else {
        match piece(acts, i) {
            Step::Emit(t, skip) => {
                let j = if i + 1 + skip > acts.len() {
                    acts.len() as int
                } else {
                    i + 1 + skip
                };
                match lua_body(acts, j) {
                    LuaOut::Text(r) => LuaOut::Text(t + r),
                    other => other,
                }
            },
            Step::Unknown(c) => LuaOut::Unknown(c),
            Step::Panic => LuaOut::Panic,
        }
    }
}

/// The header every converted script starts with.
pub open spec fn lua_header() -> Seq<char> {
    "-- Auto-converted from .script binary format\n"@ + "local vars = {}\n"@
        + "for i = 0, 19 do vars[i] = 0 end\n\n"@
}

/// Converting a whole list of actions: the header, then each action in order.
pub open spec fn lua_spec(acts: Seq<ActionView>) -> LuaOut {
    match lua_body(acts, 0) {
        LuaOut::Text(b) => LuaOut::Text(lua_header() + b),
        other => other,
    }
}

/// `x` put in front of a conversion result.
pub open spec fn lua_prefix(x: Seq<char>, r: LuaOut) -> LuaOut {
    match r {
        LuaOut::Text(b) => LuaOut::Text(x + b),
        other => other,
    }
}

/// Append the Lua text of action `i` and return how many following actions it consumes.
fn emit_action(actions: &[ScriptAction], i: usize, out: &mut String) -> (r: Converted<usize>)
    requires
        i < actions@.len(),
    ensures
        match piece(actions_view(actions@), i as int) {
            Step::Emit(t, skip) => r matches Converted::Done(k) && k == skip && skip <= i32::MAX
                && final(out)@ == old(out)@ + t,
            Step::Unknown(c) => r matches Converted::Failed(e) && e == ConvertError::UnknownOpcode(c),
            Step::Panic => r is Panics,
        },
{
    let ghost acts = actions_view(actions@);
    let a = &actions[i];
    assert(acts[i as int] == a@);
    let t = a.action_type;
    if t < 0 || t > 40 {
        return Converted::Failed(ConvertError::UnknownOpcode(t as u8));
    }
    if a.entries.len() < entries_needed_exec(t) {
        return Converted::Panics;
    }
    if t == 5 && a.entries[1].value < 0 {
        return Converted::Panics;
    }
    if t == 5 {
        let ghost start = out@;
        push_val_head(out, &a.entries[0]);
        let num = a.entries[1].value;
        let mut j: i32 = 0;
        while j < num
            invariant
                0 <= j <= num,
                i < actions@.len(),
                a == &actions@[i as int],
                a@.entries.len() >= 2,
                num == a@.entries[1].value,
                acts == actions_view(actions@),
                out@ == start + "wm.choice_box("@ + val_spec(a@.entries[0]) + ", {\n"@ + choice_lines(
                    acts,
                    i + 1,
                    j as int,
                ),
            decreases num - j,
        {
            let ghost before = out@;
            if (j as usize) < actions.len() - i - 1 {
                let idx = i + 1 + j as usize;
                assert(acts[idx as int] == actions@[idx as int]@);
                out.append("    \"");
                proof {
                    lemma_empty_plain();
                }
                push_first_text_escaped(out, &actions[idx], "");
                out.append("\",\n");
            }
            assert(out@ =~= before + choice_line(acts, i + 1 + j));
            j = j + 1;
        }
        out.append("})\n");
        return Converted::Done(num as usize);
    }
    if t == 24 {
        let idx = a.entries[0].value;
        if idx >= 22 {
            out.append("wm.girl.set_skill(\"");
        } else {
            out.append("wm.girl.set_stat(\"");
        }
        out.append(stat_or_skill_name(idx));
        out.append("\", ");
        push_val(out, &a.entries[1]);
        out.append(")\n");
        return Converted::Done(0);
    }
    emit_plain(a, out);
    Converted::Done(0)
}

/// Append `wm.choice_box(<id>, {` and a newline.
fn push_val_head(out: &mut String, e: &ScriptEntry)
    ensures
        final(out)@ == old(out)@ + "wm.choice_box("@ + val_spec(e@) + ", {\n"@,
{
    out.append("wm.choice_box(");
    push_val(out, e);
    out.append(", {\n");
}

/// Convert parsed script actions into Lua source code, telling apart the
/// inputs that cannot be converted at all (an action with too few entries
/// for its code, or a choice box with a negative count).
pub fn lua_outcome(actions: &[ScriptAction]) -> (r: Converted<String>)
    ensures
        match lua_spec(actions_view(actions@)) {
            LuaOut::Text(t) => r matches Converted::Done(s) && s@ == t,
            LuaOut::Unknown(c) => r matches Converted::Failed(e) && e == ConvertError::UnknownOpcode(c),
            LuaOut::Panic => r is Panics,
        },
{
    let ghost acts = actions_view(actions@);
    let mut out = String::new();
    out.append("-- Auto-converted from .script binary format\n");
    out.append("local vars = {}\n");
    out.append("for i = 0, 19 do vars[i] = 0 end\n\n");
    assert(out@ =~= lua_header());
    let mut i: usize = 0;
    while i < actions.len()
        invariant
            acts == actions_view(actions@),
            i <= actions@.len(),
            lua_spec(acts) == lua_prefix(out@, lua_body(acts, i as int)),
        decreases actions@.len() - i,
    {
        let ghost before = out@;
        let step = emit_action(actions, i, &mut out);
        match step {
            Converted::Done(skip) => {
                let ghost t = out@.subrange(before.len() as int, out@.len() as int);
                assert(out@ =~= before + t);
                proof {
                    match piece(acts, i as int) {
                        Step::Emit(tt, sk) => {
                            assert(tt =~= t);
                            assert(sk == skip as nat);
                        },
                        _ => {},
                    }
                }
                assert(piece(acts, i as int) == Step::Emit(t, skip as nat));
                let next = if skip >= actions.len() - i {
                    actions.len()
                } else {
                    i + 1 + skip
                };
                assert(lua_prefix(before, lua_body(acts, i as int)) == lua_prefix(out@, lua_body(acts, next as int))) by {
                    match lua_body(acts, next as int) {
                        LuaOut::Text(rr) => {
                            assert(before + (t + rr) =~= out@ + rr);
                        },
                        _ => {},
                    }
                }
                i = next;
            },
            Converted::Failed(e) => {
                return Converted::Failed(e);
            },
            Converted::Panics => {
                return Converted::Panics;
            },
        }
    }
    assert(out@ + Seq::<char>::empty() =~= out@);
    Converted::Done(out)
}

/// Convert parsed script actions into Lua source code.
pub fn actions_to_lua(actions: &[ScriptAction]) -> (r: Result<String, ConvertError>)
    requires
        !(lua_spec(actions_view(actions@)) is Panic),
    ensures
        match lua_spec(actions_view(actions@)) {
            LuaOut::Text(t) => r matches Ok(s) && s@ == t,
            LuaOut::Unknown(c) => r == Err::<String, ConvertError>(ConvertError::UnknownOpcode(c)),
            LuaOut::Panic => false,
        },
{
    match lua_outcome(actions) {
        Converted::Done(s) => Ok(s),
        Converted::Failed(e) => Err(e),
        Converted::Panics => Err(ConvertError::UnexpectedEof),
    }
}

/// Convert the bytes of a `.script` file to Lua source.
pub fn convert_script_data(data: &[u8]) -> (r: Converted<String>)
    ensures
        match parse_script_spec(data@) {
            Parsed::Done(acts, _) => match lua_spec(acts) {
                LuaOut::Text(t) => r matches Converted::Done(s) && s@ == t,
                LuaOut::Unknown(c) => r matches Converted::Failed(e) && e == ConvertError::UnknownOpcode(c),
                LuaOut::Panic => r is Panics,
            },
            Parsed::Eof => r matches Converted::Failed(e) && e == ConvertError::UnexpectedEof,
            Parsed::Panic => r is Panics,
        },
{
    match parse_script_outcome(data) {
        Converted::Done(actions) => lua_outcome(actions.as_slice()),
        Converted::Failed(e) => Converted::Failed(e),
        Converted::Panics => Converted::Panics,
    }
}

/// Number of entries an action code reads.
fn entries_needed_exec(t: i32) -> (n: usize)
    ensures
        n == entries_needed(t),
{
    match t {
        5 | 7 | 13 | 19 | 20 | 21 | 24 => 2,
        8 | 9 | 17 | 29 | 31 | 32 => 3,
        12 | 14 | 15 | 16 | 27 | 28 => 1,
        18 => 5,
        22 => 6,
        _ => 0,
    }
}

/// Append the Lua text of one action whose code is neither 5 nor 24.
fn emit_plain(a: &ScriptAction, out: &mut String)
    requires
        0 <= a.action_type <= 40,
        a.action_type != 5 && a.action_type != 24,
        a@.entries.len() >= entries_needed(a.action_type),
    ensures
        final(out)@ == old(out)@ + plain_piece(a@),
{
    let t = a.action_type;
    if t <= 9 {
        emit_plain_0(a, out);
    } else if t <= 17 {
        emit_plain_1(a, out);
    } else if t <= 26 {
        emit_plain_2(a, out);
    } else if t <= 33 {
        emit_plain_3(a, out);
    } else if t <= 40 {
        emit_plain_4(a, out);
    }
}

fn emit_plain_0(a: &ScriptAction, out: &mut String)
    requires
        0 <= a.action_type <= 9,
        a.action_type != 5 && a.action_type != 24,
        a@.entries.len() >= entries_needed(a.action_type),
    ensures
        final(out)@ == old(out)@ + plain_piece_0(a@),
{
    let es = &a.entries;
    let ghost ev = a@.entries;
    let ghost start = out@;
    match a.action_type {
        0 => {
            out.append("wm.message(\"");
            proof {
                lemma_empty_plain();
            }
            push_first_text_escaped(out, a, "");
            out.append("\", 0)\n");
            assert(out@ =~= start + plain_piece_0(a@));
        },
        1 => {
            out.append("-- init block\n");
            assert(out@ =~= start + plain_piece_0(a@));
        },
        2 => {
            out.append("-- end init\n\n");
            assert(out@ =~= start + plain_piece_0(a@));
        },
        3 => {
            out.append("return -- end script\n");
            assert(out@ =~= start + plain_piece_0(a@));
        },
        4 => {
            out.append("coroutine.yield(\"restart\")\n");
            assert(out@ =~= start + plain_piece_0(a@));
        },
        6 => {

            assert(out@ =~= start + plain_piece_0(a@));
        },
        7 => {
            out.append("vars[");
            push_val(out, &es[0]);
            out.append("] = ");
            push_val(out, &es[1]);
            out.append("\n");
            assert(out@ =~= start + plain_piece_0(a@));
        },
        8 => {
            out.append("vars[");
            push_val(out, &es[0]);
            out.append("] = math.random(");
            push_val(out, &es[1]);
            out.append(", ");
            push_val(out, &es[2]);
            out.append(")\n");
            assert(out@ =~= start + plain_piece_0(a@));
        },
        9 => {
            out.append("if vars[");
            push_val(out, &es[0]);
            out.append("] ");
            out.append(comparison_op(es[1].value));
            out.append(" ");
            push_val(out, &es[2]);
            out.append(" then\n");
            assert(out@ =~= start + plain_piece_0(a@));
        },
        _ => {},
    }
}

fn emit_plain_1(a: &ScriptAction, out: &mut String)
    requires
        10 <= a.action_type <= 17,
        a.action_type != 5 && a.action_type != 24,
        a@.entries.len() >= entries_needed(a.action_type),
    ensures
        final(out)@ == old(out)@ + plain_piece_1(a@),
{
    let es = &a.entries;
    let ghost ev = a@.entries;
    let ghost start = out@;
    match a.action_type {
        10 => {
            out.append("else\n");
            assert(out@ =~= start + plain_piece_1(a@));
        },
        11 => {
            out.append("end\n");
            assert(out@ =~= start + plain_piece_1(a@));
        },
        12 => {
            out.append("wm.activate_choice(");
            push_val(out, &es[0]);
            out.append(")\n");
            assert(out@ =~= start + plain_piece_1(a@));
        },
        13 => {
            out.append("if wm.get_choice(");
            push_val(out, &es[0]);
            out.append(") == ");
            push_val(out, &es[1]);
            out.append(" then\n");
            assert(out@ =~= start + plain_piece_1(a@));
        },
        14 => {
            out.append("wm.player.set_suspicion(");
            push_val(out, &es[0]);
            out.append(")\n");
            assert(out@ =~= start + plain_piece_1(a@));
        },
        15 => {
            out.append("wm.player.set_disposition(");
            push_val(out, &es[0]);
            out.append(")\n");
            assert(out@ =~= start + plain_piece_1(a@));
        },
        16 => {
            out.append("wm.global.set_flag(");
            push_val(out, &es[0]);
            out.append(", false)\n");
            assert(out@ =~= start + plain_piece_1(a@));
        },
        17 => {
            out.append("wm.dungeon.add_customer(");
            out.append(dungeon_cust_reason(es[0].value));
            out.append(", ");
            push_val(out, &es[1]);
            out.append(", ");
            push_val(out, &es[2]);
            out.append(")\n");
            assert(out@ =~= start + plain_piece_1(a@));
        },
        _ => {},
    }
}

fn emit_plain_2(a: &ScriptAction, out: &mut String)
    requires
        18 <= a.action_type <= 26,
        a.action_type != 5 && a.action_type != 24,
        a@.entries.len() >= entries_needed(a.action_type),
    ensures
        final(out)@ == old(out)@ + plain_piece_2(a@),
{
    let es = &a.entries;
    let ghost ev = a@.entries;
    let ghost start = out@;
    match a.action_type {
        18 => {
            out.append("wm.dungeon.add_random_girl(");
            out.append(dungeon_girl_reason(es[0].value));
            out.append(", ");
            push_val(out, &es[1]);
            out.append(", ");
            push_val(out, &es[2]);
            out.append(", ");
            push_val(out, &es[3]);
            out.append(", ");
            push_val(out, &es[4]);
            out.append(")\n");
            assert(out@ =~= start + plain_piece_2(a@));
        },
        19 => {
            out.append("wm.global.set_flag(");
            push_int(out, es[0].value as i64);
            out.append(", ");
            push_int(out, es[1].value as i64);
            out.append(")\n");
            assert(out@ =~= start + plain_piece_2(a@));
        },
        20 => {
            out.append("wm.girl.set_flag(");
            push_val(out, &es[0]);
            out.append(", ");
            push_val(out, &es[1]);
            out.append(")\n");
            assert(out@ =~= start + plain_piece_2(a@));
        },
        21 => {
            out.append("wm.add_gold(math.random(");
            push_val(out, &es[0]);
            out.append(", ");
            push_val(out, &es[1]);
            out.append("))\n");
            assert(out@ =~= start + plain_piece_2(a@));
        },
        22 => {
            out.append("wm.dungeon.add_random_girls(");
            push_val(out, &es[0]);
            out.append(", ");
            out.append(dungeon_girl_reason(es[1].value));
            out.append(", ");
            push_val(out, &es[2]);
            out.append(", ");
            push_val(out, &es[3]);
            out.append(", ");
            push_val(out, &es[4]);
            out.append(", ");
            push_val(out, &es[5]);
            out.append(")\n");
            assert(out@ =~= start + plain_piece_2(a@));
        },
        23 => {
            out.append("wm.girl.add_to_brothel()\n");
            assert(out@ =~= start + plain_piece_2(a@));
        },
        25 => {
            out.append("wm.girl.player_rape()\n");
            assert(out@ =~= start + plain_piece_2(a@));
        },
        26 => {
            out.append("wm.give_random_special_item()\n");
            assert(out@ =~= start + plain_piece_2(a@));
        },
        _ => {},
    }
}

fn emit_plain_3(a: &ScriptAction, out: &mut String)
    requires
        27 <= a.action_type <= 33,
        a.action_type != 5 && a.action_type != 24,
        a@.entries.len() >= entries_needed(a.action_type),
    ensures
        final(out)@ == old(out)@ + plain_piece_3(a@),
{
    let es = &a.entries;
    let ghost ev = a@.entries;
    let ghost start = out@;
    match a.action_type {
        27 => {
            out.append("if wm.girl.pass_skill_check(\"");
            out.append(skill_name(es[0].value));
            out.append("\") then\n");
            assert(out@ =~= start + plain_piece_3(a@));
        },
        28 => {
            out.append("if wm.girl.pass_stat_check(\"");
            out.append(stat_name(es[0].value));
            out.append("\") then\n");
            assert(out@ =~= start + plain_piece_3(a@));
        },
        29 => {
            out.append("if wm.girl.get_flag(");
            push_val(out, &es[0]);
            out.append(") ");
            out.append(comparison_op(es[1].value));
            out.append(" ");
            push_val(out, &es[2]);
            out.append(" then\n");
            assert(out@ =~= start + plain_piece_3(a@));
        },
        30 => {
            out.append("wm.game_over()\n");
            assert(out@ =~= start + plain_piece_3(a@));
        },
        31 => {
            out.append("if wm.girl.get_stat(\"");
            out.append(stat_name(es[0].value));
            out.append("\") ");
            out.append(comparison_op(es[1].value));
            out.append(" ");
            push_val(out, &es[2]);
            out.append(" then\n");
            assert(out@ =~= start + plain_piece_3(a@));
        },
        32 => {
            out.append("if wm.girl.get_skill(\"");
            out.append(skill_name(es[0].value));
            out.append("\") ");
            out.append(comparison_op(es[1].value));
            out.append(" ");
            push_val(out, &es[2]);
            out.append(" then\n");
            assert(out@ =~= start + plain_piece_3(a@));
        },
        33 => {
            out.append("if wm.girl.has_trait(\"");
            proof {
                lemma_unknown_plain();
            }
            push_first_text_escaped(out, a, "Unknown");
            out.append("\") then\n");
            assert(out@ =~= start + plain_piece_3(a@));
        },
        _ => {},
    }
}

fn emit_plain_4(a: &ScriptAction, out: &mut String)
    requires
        34 <= a.action_type <= 40,
        a.action_type != 5 && a.action_type != 24,
        a@.entries.len() >= entries_needed(a.action_type),
    ensures
        final(out)@ == old(out)@ + plain_piece_4(a@),
{
    let es = &a.entries;
    let ghost ev = a@.entries;
    let ghost start = out@;
    match a.action_type {
        34 => {
            out.append("wm.girl.torture()\n");
            assert(out@ =~= start + plain_piece_4(a@));
        },
        35 => {
            out.append("wm.girl.scold()\n");
            assert(out@ =~= start + plain_piece_4(a@));
        },
        36 => {
            out.append("wm.girl.normal_sex()\n");
            assert(out@ =~= start + plain_piece_4(a@));
        },
        37 => {
            out.append("wm.girl.beast_sex()\n");
            assert(out@ =~= start + plain_piece_4(a@));
        },
        38 => {
            out.append("wm.girl.anal_sex()\n");
            assert(out@ =~= start + plain_piece_4(a@));
        },
        39 => {
            out.append("wm.girl.bdsm_sex()\n");
            assert(out@ =~= start + plain_piece_4(a@));
        },
        40 => {
            out.append("if not wm.girl.disobey_check() then\n");
            assert(out@ =~= start + plain_piece_4(a@));
        },
        _ => {},
    }
}

/// Every script that converts begins with the header, and a script without
/// actions converts to the header alone.
pub proof fn law_converted_script_has_header(acts: Seq<ActionView>)
    ensures
        lua_spec(acts) matches LuaOut::Text(t) ==> t.take(lua_header().len() as int) == lua_header(),
        acts.len() == 0 ==> lua_spec(acts) == LuaOut::Text(lua_header()),
{
    if let LuaOut::Text(b) = lua_body(acts, 0) {
        assert((lua_header() + b).take(lua_header().len() as int) =~= lua_header());
    }
    if acts.len() == 0 {
        assert(lua_header() + Seq::<char>::empty() =~= lua_header());
    }
}

/// The position conversion moves on to after action `i`: past the choice
/// lines of a choice box, else the next action.
pub open spec fn next_reached(acts: Seq<ActionView>, i: int) -> int {
    let a = acts[i];
    if a.action_type == 5 && a.entries[1].value >= 0 {
        if i + 1 + a.entries[1].value > acts.len() {
            acts.len() as int
        } else {
            i + 1 + a.entries[1].value
        }
    } else {
        i + 1
    }
}

/// The first action code outside the known ones among the actions that
/// conversion reaches from position `i`, if there is one.
pub open spec fn first_unknown_code(acts: Seq<ActionView>, i: int) -> Option<i32>
    decreases acts.len() - i,
{
    if i < 0 || i >= acts.len() {
        None
    } else if !(0 <= acts[i].action_type <= 40) {
        Some(acts[i].action_type)
    } else {
        first_unknown_code(acts, next_reached(acts, i))
    }
}

/// Every action with a known code that conversion reaches from position `i`
/// has the entries its code reads, and every choice box among them a
/// count that is not negative.
pub open spec fn reached_entries_suffice(acts: Seq<ActionView>, i: int) -> bool
    decreases acts.len() - i,
{
    if i < 0 || i >= acts.len() {
        true
    } else if !(0 <= acts[i].action_type <= 40) {
        true
    } else {
        &&& acts[i].entries.len() >= entries_needed(acts[i].action_type)
        &&& (acts[i].action_type == 5 ==> acts[i].entries[1].value >= 0)
        &&& reached_entries_suffice(acts, next_reached(acts, i))
    }
}

proof fn lemma_body_outcome(acts: Seq<ActionView>, i: int)
    requires
        0 <= i,
        reached_entries_suffice(acts, i),
    ensures
        match first_unknown_code(acts, i) {
            None => lua_body(acts, i) is Text,
            Some(t) => lua_body(acts, i) == LuaOut::Unknown(t as u8),
        },
    decreases acts.len() - i,
{
    if i < acts.len() && 0 <= acts[i].action_type <= 40 {
        lemma_body_outcome(acts, next_reached(acts, i));
    }
}

/// Conversion of actions that have the entries their codes read succeeds
/// exactly when every action it reaches has a known code; otherwise it fails
/// with the first unknown code it reaches. It never panics on such actions.
pub proof fn law_conversion_succeeds_iff_codes_known(acts: Seq<ActionView>)
    requires
        reached_entries_suffice(acts, 0),
    ensures
        !(lua_spec(acts) is Panic),
        (lua_spec(acts) is Text) <==> (first_unknown_code(acts, 0) is None),
        first_unknown_code(acts, 0) matches Some(t) ==> lua_spec(acts) == LuaOut::Unknown(t as u8),
{
    lemma_body_outcome(acts, 0);
}

proof fn lemma_single_action(a: ActionView)
    ensures
        lua_spec(seq![a]) == match piece(seq![a], 0) {
            Step::Emit(t, _) => LuaOut::Text(lua_header() + t),
            Step::Unknown(c) => LuaOut::Unknown(c),
            Step::Panic => LuaOut::Panic,
        },
{
    let acts = seq![a];
    assert(lua_body(acts, 1) == LuaOut::Text(Seq::<char>::empty()));
    if let Step::Emit(t, _) = piece(acts, 0) {
        assert(t + Seq::<char>::empty() =~= t);
    }
}

/// What a script of one action converts to, for codes 0 to 9 (a choice box, code 5, takes the actions after it and is left out): after the
/// header, the Lua statement of the code with the action's entries in their
/// order (for a code that reads entries, when the action has them).
pub proof fn law_single_action_codes_0_to_9(a: ActionView)
    ensures
        ({
            &&& a.action_type == 0 ==> lua_spec(seq![a]) == LuaOut::Text(lua_header() + ("wm.message(\""@ + lua_escape_spec(first_text(a, ""@)) + "\", 0)\n"@))
            &&& a.action_type == 1 ==> lua_spec(seq![a]) == LuaOut::Text(lua_header() + ("-- init block\n"@))
            &&& a.action_type == 2 ==> lua_spec(seq![a]) == LuaOut::Text(lua_header() + ("-- end init\n\n"@))
            &&& a.action_type == 3 ==> lua_spec(seq![a]) == LuaOut::Text(lua_header() + ("return -- end script\n"@))
            &&& a.action_type == 4 ==> lua_spec(seq![a]) == LuaOut::Text(lua_header() + ("coroutine.yield(\"restart\")\n"@))
            &&& a.action_type == 6 ==> lua_spec(seq![a]) == LuaOut::Text(lua_header() + (Seq::<char>::empty()))
            &&& a.action_type == 7 && a.entries.len() >= 2 ==> lua_spec(seq![a]) == LuaOut::Text(lua_header() + ("vars["@ + val_spec(a.entries[0]) + "] = "@ + val_spec(a.entries[1]) + "\n"@))
            &&& a.action_type == 8 && a.entries.len() >= 3 ==> lua_spec(seq![a]) == LuaOut::Text(lua_header() + ("vars["@ + val_spec(a.entries[0]) + "] = math.random("@ + val_spec(a.entries[1]) + ", "@ + val_spec(a.entries[2]) + ")\n"@))
            &&& a.action_type == 9 && a.entries.len() >= 3 ==> lua_spec(seq![a]) == LuaOut::Text(lua_header() + ("if vars["@ + val_spec(a.entries[0]) + "] "@ + comparison_op_spec(a.entries[1].value) + " "@ + val_spec(a.entries[2]) + " then\n"@))
        }),
{
    lemma_single_action(a);
    let es = a.entries;
    let t = a.action_type;
    if 0 <= t <= 40 && t != 5 && t != 24 && es.len() >= entries_needed(t) {
        assert(lua_spec(seq![a]) == LuaOut::Text(lua_header() + plain_piece(a)));
    }
}

/// What a script of one action converts to, for codes 10 to 17: after the
/// header, the Lua statement of the code with the action's entries in their
/// order (for a code that reads entries, when the action has them).
pub proof fn law_single_action_codes_10_to_17(a: ActionView)
    ensures
        ({
            &&& a.action_type == 10 ==> lua_spec(seq![a]) == LuaOut::Text(lua_header() + ("else\n"@))
            &&& a.action_type == 11 ==> lua_spec(seq![a]) == LuaOut::Text(lua_header() + ("end\n"@))
            &&& a.action_type == 12 && a.entries.len() >= 1 ==> lua_spec(seq![a]) == LuaOut::Text(lua_header() + ("wm.activate_choice("@ + val_spec(a.entries[0]) + ")\n"@))
            &&& a.action_type == 13 && a.entries.len() >= 2 ==> lua_spec(seq![a]) == LuaOut::Text(lua_header() + ("if wm.get_choice("@ + val_spec(a.entries[0]) + ") == "@ + val_spec(a.entries[1]) + " then\n"@))
            &&& a.action_type == 14 && a.entries.len() >= 1 ==> lua_spec(seq![a]) == LuaOut::Text(lua_header() + ("wm.player.set_suspicion("@ + val_spec(a.entries[0]) + ")\n"@))
            &&& a.action_type == 15 && a.entries.len() >= 1 ==> lua_spec(seq![a]) == LuaOut::Text(lua_header() + ("wm.player.set_disposition("@ + val_spec(a.entries[0]) + ")\n"@))
            &&& a.action_type == 16 && a.entries.len() >= 1 ==> lua_spec(seq![a]) == LuaOut::Text(lua_header() + ("wm.global.set_flag("@ + val_spec(a.entries[0]) + ", false)\n"@))
            &&& a.action_type == 17 && a.entries.len() >= 3 ==> lua_spec(seq![a]) == LuaOut::Text(lua_header() + ("wm.dungeon.add_customer("@ + dungeon_cust_reason_spec(a.entries[0].value) + ", "@ + val_spec(a.entries[1]) + ", "@ + val_spec(a.entries[2]) + ")\n"@))
        }),
{
    lemma_single_action(a);
    let es = a.entries;
    let t = a.action_type;
    if 0 <= t <= 40 && t != 5 && t != 24 && es.len() >= entries_needed(t) {
        assert(lua_spec(seq![a]) == LuaOut::Text(lua_header() + plain_piece(a)));
    }
}

/// What a script of one action converts to, for codes 18 to 26 (code 24 sets a skill from 22 on, a stat below): after the
/// header, the Lua statement of the code with the action's entries in their
/// order (for a code that reads entries, when the action has them).
pub proof fn law_single_action_codes_18_to_26(a: ActionView)
    ensures
        ({
            &&& a.action_type == 18 && a.entries.len() >= 5 ==> lua_spec(seq![a]) == LuaOut::Text(lua_header() + ("wm.dungeon.add_random_girl("@ + dungeon_girl_reason_spec(a.entries[0].value) + ", "@ + val_spec(a.entries[1]) + ", "@ + val_spec(a.entries[2]) + ", "@ + val_spec(a.entries[3]) + ", "@ + val_spec(a.entries[4]) + ")\n"@))
            &&& a.action_type == 19 && a.entries.len() >= 2 ==> lua_spec(seq![a]) == LuaOut::Text(lua_header() + ("wm.global.set_flag("@ + int_str(a.entries[0].value as int) + ", "@ + int_str(a.entries[1].value as int) + ")\n"@))
            &&& a.action_type == 20 && a.entries.len() >= 2 ==> lua_spec(seq![a]) == LuaOut::Text(lua_header() + ("wm.girl.set_flag("@ + val_spec(a.entries[0]) + ", "@ + val_spec(a.entries[1]) + ")\n"@))
            &&& a.action_type == 21 && a.entries.len() >= 2 ==> lua_spec(seq![a]) == LuaOut::Text(lua_header() + ("wm.add_gold(math.random("@ + val_spec(a.entries[0]) + ", "@ + val_spec(a.entries[1]) + "))\n"@))
            &&& a.action_type == 22 && a.entries.len() >= 6 ==> lua_spec(seq![a]) == LuaOut::Text(lua_header() + ("wm.dungeon.add_random_girls("@ + val_spec(a.entries[0]) + ", "@ + dungeon_girl_reason_spec(a.entries[1].value) + ", "@ + val_spec(a.entries[2]) + ", "@ + val_spec(a.entries[3]) + ", "@ + val_spec(a.entries[4]) + ", "@ + val_spec(a.entries[5]) + ")\n"@))
            &&& a.action_type == 23 ==> lua_spec(seq![a]) == LuaOut::Text(lua_header() + ("wm.girl.add_to_brothel()\n"@))
            &&& a.action_type == 25 ==> lua_spec(seq![a]) == LuaOut::Text(lua_header() + ("wm.girl.player_rape()\n"@))
            &&& a.action_type == 26 ==> lua_spec(seq![a]) == LuaOut::Text(lua_header() + ("wm.give_random_special_item()\n"@))
            &&& a.action_type == 24 && a.entries.len() >= 2 && a.entries[0].value >= 22 ==> lua_spec(seq![a]) == LuaOut::Text(lua_header() + ("wm.girl.set_skill(\""@ + stat_or_skill_name_spec(a.entries[0].value) + "\", "@ + val_spec(a.entries[1]) + ")\n"@))
            &&& a.action_type == 24 && a.entries.len() >= 2 && a.entries[0].value < 22 ==> lua_spec(seq![a]) == LuaOut::Text(lua_header() + ("wm.girl.set_stat(\""@ + stat_or_skill_name_spec(a.entries[0].value) + "\", "@ + val_spec(a.entries[1]) + ")\n"@))
        }),
{
    lemma_single_action(a);
    let es = a.entries;
    let t = a.action_type;
    if 0 <= t <= 40 && t != 5 && t != 24 && es.len() >= entries_needed(t) {
        assert(lua_spec(seq![a]) == LuaOut::Text(lua_header() + plain_piece(a)));
    }
}

/// What a script of one action converts to, for codes 27 to 33: after the
/// header, the Lua statement of the code with the action's entries in their
/// order (for a code that reads entries, when the action has them).
pub proof fn law_single_action_codes_27_to_33(a: ActionView)
    ensures
        ({
            &&& a.action_type == 27 && a.entries.len() >= 1 ==> lua_spec(seq![a]) == LuaOut::Text(lua_header() + ("if wm.girl.pass_skill_check(\""@ + skill_name_spec(a.entries[0].value) + "\") then\n"@))
            &&& a.action_type == 28 && a.entries.len() >= 1 ==> lua_spec(seq![a]) == LuaOut::Text(lua_header() + ("if wm.girl.pass_stat_check(\""@ + stat_name_spec(a.entries[0].value) + "\") then\n"@))
            &&& a.action_type == 29 && a.entries.len() >= 3 ==> lua_spec(seq![a]) == LuaOut::Text(lua_header() + ("if wm.girl.get_flag("@ + val_spec(a.entries[0]) + ") "@ + comparison_op_spec(a.entries[1].value) + " "@ + val_spec(a.entries[2]) + " then\n"@))
            &&& a.action_type == 30 ==> lua_spec(seq![a]) == LuaOut::Text(lua_header() + ("wm.game_over()\n"@))
            &&& a.action_type == 31 && a.entries.len() >= 3 ==> lua_spec(seq![a]) == LuaOut::Text(lua_header() + ("if wm.girl.get_stat(\""@ + stat_name_spec(a.entries[0].value) + "\") "@ + comparison_op_spec(a.entries[1].value) + " "@ + val_spec(a.entries[2]) + " then\n"@))
            &&& a.action_type == 32 && a.entries.len() >= 3 ==> lua_spec(seq![a]) == LuaOut::Text(lua_header() + ("if wm.girl.get_skill(\""@ + skill_name_spec(a.entries[0].value) + "\") "@ + comparison_op_spec(a.entries[1].value) + " "@ + val_spec(a.entries[2]) + " then\n"@))
            &&& a.action_type == 33 ==> lua_spec(seq![a]) == LuaOut::Text(lua_header() + ("if wm.girl.has_trait(\""@ + lua_escape_spec(first_text(a, "Unknown"@)) + "\") then\n"@))
        }),
{
    lemma_single_action(a);
    let es = a.entries;
    let t = a.action_type;
    if 0 <= t <= 40 && t != 5 && t != 24 && es.len() >= entries_needed(t) {
        assert(lua_spec(seq![a]) == LuaOut::Text(lua_header() + plain_piece(a)));
    }
}

/// What a script of one action converts to, for codes 34 to 40: after the
/// header, the Lua statement of the code with the action's entries in their
/// order (for a code that reads entries, when the action has them).
pub proof fn law_single_action_codes_34_to_40(a: ActionView)
    ensures
        ({
            &&& a.action_type == 34 ==> lua_spec(seq![a]) == LuaOut::Text(lua_header() + ("wm.girl.torture()\n"@))
            &&& a.action_type == 35 ==> lua_spec(seq![a]) == LuaOut::Text(lua_header() + ("wm.girl.scold()\n"@))
            &&& a.action_type == 36 ==> lua_spec(seq![a]) == LuaOut::Text(lua_header() + ("wm.girl.normal_sex()\n"@))
            &&& a.action_type == 37 ==> lua_spec(seq![a]) == LuaOut::Text(lua_header() + ("wm.girl.beast_sex()\n"@))
            &&& a.action_type == 38 ==> lua_spec(seq![a]) == LuaOut::Text(lua_header() + ("wm.girl.anal_sex()\n"@))
            &&& a.action_type == 39 ==> lua_spec(seq![a]) == LuaOut::Text(lua_header() + ("wm.girl.bdsm_sex()\n"@))
            &&& a.action_type == 40 ==> lua_spec(seq![a]) == LuaOut::Text(lua_header() + ("if not wm.girl.disobey_check() then\n"@))
        }),
{
    lemma_single_action(a);
    let es = a.entries;
    let t = a.action_type;
    if 0 <= t <= 40 && t != 5 && t != 24 && es.len() >= entries_needed(t) {
        assert(lua_spec(seq![a]) == LuaOut::Text(lua_header() + plain_piece(a)));
    }
}

/// A script of one action with an unknown code fails with that code.
pub proof fn law_single_action_codes_unknown(a: ActionView)
    ensures
        ({
            &&& !(0 <= a.action_type <= 40) ==> lua_spec(seq![a]) == LuaOut::Unknown(a.action_type as u8)
        }),
{
    lemma_single_action(a);
}

/// A script whose action count is zero parses to no actions.
pub proof fn law_empty_script_parses(data: Seq<u8>)
    requires
        data.len() >= 4,
        data[0] == 0 && data[1] == 0 && data[2] == 0 && data[3] == 0,
    ensures
        parse_script_spec(data) matches Parsed::Done(acts, _) && acts.len() == 0,
{
    assert(le_i32(data, 0) == 0);
}

} // verus!
