//! Trait definitions and their plain-text file format: alternating lines,
//! a trait's name, then its description.
use vstd::prelude::*;
use crate::strs::push_char;

verus! {

/// A trait definition: its name and description.
#[derive(Debug)]
pub struct TraitDef {
    pub name: String,
    pub description: String,
}

/// The pieces of `s` between line feeds, each with the flag that tells
/// whether a line feed ended it; the last piece is never so ended.
pub open spec fn pieces(s: Seq<char>) -> Seq<(Seq<char>, bool)>
    decreases s.len(),
{
    if s.len() == 0 {
        seq![(Seq::empty(), false)]
    } else {
        let p = pieces(s.drop_last());
        if s.last() == '\n' {
            p.update(p.len() - 1, (p.last().0, true)).push((Seq::empty(), false))
        } else {
            p.update(p.len() - 1, (p.last().0.push(s.last()), false))
        }
    }
}

/// A line with its ending taken off: a carriage return just before the line
/// feed that ended it goes too.
pub open spec fn strip_ending(p: (Seq<char>, bool)) -> Seq<char> {
    if p.1 && p.0.len() > 0 && p.0.last() == '\r' {
        p.0.drop_last()
    } else {
        p.0
    }
}

/// The lines of a text as `str::lines` documents them: split at `\n` or
/// `\r\n`, endings not included, the final line ending optional (so no
/// empty last line after a final line feed), and no lines in an empty text.
pub open spec fn text_lines(s: Seq<char>) -> Seq<Seq<char>> {
    let p = pieces(s);
    let kept = if p.last().0.len() == 0 {
        p.drop_last()
    } else {
        p
    };
    kept.map_values(|q: (Seq<char>, bool)| strip_ending(q))
}

/// The characters that `char::is_whitespace` accepts (Unicode `White_Space`).
pub open spec fn is_ws(c: char) -> bool {
    let u = c as u32;
    ||| 0x09 <= u <= 0x0d
    ||| u == 0x20
    ||| u == 0x85
    ||| u == 0xa0
    ||| u == 0x1680
    ||| 0x2000 <= u <= 0x200a
    ||| u == 0x2028
    ||| u == 0x2029
    ||| u == 0x202f
    ||| u == 0x205f
    ||| u == 0x3000
}

/// `s` without its leading white space.
pub open spec fn trim_start(s: Seq<char>) -> Seq<char>
    decreases s.len(),
{
    if s.len() > 0 && is_ws(s[0]) {
        trim_start(s.drop_first())
    } else {
        s
    }
}

/// `s` without its trailing white space.
pub open spec fn trim_end(s: Seq<char>) -> Seq<char>
    decreases s.len(),
{
    if s.len() > 0 && is_ws(s.last()) {
        trim_end(s.drop_last())
    } else {
        s
    }
}

/// `s` without leading and trailing white space, as `str::trim` documents it.
pub open spec fn trim(s: Seq<char>) -> Seq<char> {
    trim_end(trim_start(s))
}

/// The trait definitions a text holds: the lines taken in pairs (name, then
/// description), each trimmed; a pair whose trimmed name is empty is skipped,
/// and a last unpaired line is ignored.
pub open spec fn traits_of_lines(lines: Seq<Seq<char>>) -> Seq<(Seq<char>, Seq<char>)>
    decreases lines.len(),
{
    if lines.len() < 2 {
        Seq::empty()
    } else {
        let rest = traits_of_lines(lines.subrange(2, lines.len() as int));
        let name = trim(lines[0]);
        if name.len() == 0 {
            rest
        } else {
            seq![(name, trim(lines[1]))] + rest
        }
    }
}

/// The model of a trait definition: name and description as characters.
pub open spec fn trait_def_view(t: TraitDef) -> (Seq<char>, Seq<char>) {
    (t.name@, t.description@)
}

/// Every trait definition read from a text has a name.
pub proof fn law_trait_names_not_empty(lines: Seq<Seq<char>>)
    ensures
        forall|i: int| 0 <= i < traits_of_lines(lines).len() ==> (#[trigger] traits_of_lines(lines)[i]).0.len() > 0,
    decreases lines.len(),
{
    if lines.len() >= 2 {
        let rest = lines.subrange(2, lines.len() as int);
        law_trait_names_not_empty(rest);
        let r = traits_of_lines(rest);
        if trim(lines[0]).len() > 0 {
            assert forall|i: int| 0 <= i < traits_of_lines(lines).len() implies (#[trigger] traits_of_lines(lines)[i]).0.len() > 0 by {
                if i > 0 {
                    assert(traits_of_lines(lines)[i] == r[i - 1]);
                }
            }
        }
    }
}

fn is_ws_exec(c: char) -> (b: bool)
    ensures
        b == is_ws(c),
{
    let u = c as u32;
    (0x09 <= u && u <= 0x0d) || u == 0x20 || u == 0x85 || u == 0xa0 || u == 0x1680 || (0x2000 <= u
        && u <= 0x200a) || u == 0x2028 || u == 0x2029 || u == 0x202f || u == 0x205f || u == 0x3000
}

proof fn lemma_trim_start_skip(s: Seq<char>, i: int)
    requires
        0 <= i <= s.len(),
        forall|j: int| 0 <= j < i ==> is_ws(#[trigger] s[j]),
    ensures
        trim_start(s) == trim_start(s.subrange(i, s.len() as int)),
    decreases i,
{
    if i > 0 {
        assert(s.drop_first().subrange(i - 1, s.drop_first().len() as int) =~= s.subrange(i, s.len() as int));
        lemma_trim_start_skip(s.drop_first(), i - 1);
    } else {
        assert(s.subrange(0, s.len() as int) =~= s);
    }
}

proof fn lemma_trim_end_skip(s: Seq<char>, k: int)
    requires
        0 <= k <= s.len(),
        forall|j: int| k <= j < s.len() ==> is_ws(#[trigger] s[j]),
    ensures
        trim_end(s) == trim_end(s.subrange(0, k)),
    decreases s.len() - k,
{
    if k < s.len() {
        assert(s.drop_last().subrange(0, k) =~= s.subrange(0, k));
        lemma_trim_end_skip(s.drop_last(), k);
    } else {
        assert(s.subrange(0, k) =~= s);
    }
}

/// The characters of `s` without leading and trailing white space.
fn trim_chars(s: &Vec<char>) -> (r: Vec<char>)
    ensures
        r@ == trim(s@),
{
    let n = s.len();
    let mut a: usize = 0;
    while a < n && is_ws_exec(s[a])
        invariant
            n == s@.len(),
            0 <= a <= n,
            forall|j: int| 0 <= j < a ==> is_ws(#[trigger] s@[j]),
        decreases n - a,
    {
        a = a + 1;
    }
    proof {
        lemma_trim_start_skip(s@, a as int);
    }
    let ghost t = s@.subrange(a as int, n as int);
    let mut b: usize = n;
    while b > a && is_ws_exec(s[b - 1])
        invariant
            n == s@.len(),
            0 <= a <= b <= n,
            t == s@.subrange(a as int, n as int),
            forall|j: int| b - a <= j < t.len() ==> is_ws(#[trigger] t[j]),
        decreases b,
    {
        b = b - 1;
    }
    proof {
        lemma_trim_end_skip(t, b - a);
        if a < n {
            assert(!is_ws(t[0]));
        }
        assert(trim_start(t) == t);
        let u = t.subrange(0, b - a);
        if u.len() > 0 {
            assert(u.last() == s@[b - 1]);
        }
        assert(trim_end(u) == u);
    }
    let mut r: Vec<char> = Vec::new();
    let mut i: usize = a;
    while i < b
        invariant
            n == s@.len(),
            a <= i <= b <= n,
            r@ == s@.subrange(a as int, i as int),
        decreases b - i,
    {
        r.push(s[i]);
        assert(r@ =~= s@.subrange(a as int, i + 1));
        i = i + 1;
    }
    assert(r@ =~= t.subrange(0, b - a));
    r
}

proof fn lemma_pieces_nonempty(s: Seq<char>)
    ensures
        pieces(s).len() >= 1,
        !pieces(s).last().1,
    decreases s.len(),
{
    if s.len() > 0 {
        lemma_pieces_nonempty(s.drop_last());
    }
}

/// The lines of a text (see `text_lines`), as character vectors.
#[verifier::spinoff_prover]
fn split_lines(text: &str) -> (r: Vec<Vec<char>>)
    ensures
        r@.map_values(|v: Vec<char>| v@) == text_lines(text@),
{
    let n = text.unicode_len();
    let ghost s = text@;
    // Finished pieces, the current piece, and whether each finished piece ended with a line feed.
    let mut done: Vec<Vec<char>> = Vec::new();
    let mut cur: Vec<char> = Vec::new();
    let mut i: usize = 0;
    while i < n
        invariant
            n == s.len(),
            s == text@,
            0 <= i <= n,
            pieces(s.take(i as int)).len() == done@.len() + 1,
            forall|k: int|
                0 <= k < done@.len() ==> (#[trigger] done@[k])@ == pieces(s.take(i as int))[k].0
                    && pieces(s.take(i as int))[k].1,
            cur@ == pieces(s.take(i as int)).last().0,
            !pieces(s.take(i as int)).last().1,
        decreases n - i,
    {
        let c = text.get_char(i);
        assert(s.take(i + 1).drop_last() =~= s.take(i as int));
        assert(s.take(i + 1).last() == c);
        proof {
            lemma_pieces_nonempty(s.take(i as int));
        }
        let ghost p0 = pieces(s.take(i as int));
        let ghost olddone = done@;
        if c == '\n' {
            let mut piece: Vec<char> = Vec::new();
            std::mem::swap(&mut piece, &mut cur);
            done.push(piece);
            assert(pieces(s.take(i + 1)) == p0.update(p0.len() - 1, (p0.last().0, true)).push(
                (Seq::<char>::empty(), false),
            ));
            assert forall|k: int| 0 <= k < done@.len() implies (#[trigger] done@[k])@ == pieces(
                s.take(i + 1),
            )[k].0 && pieces(s.take(i + 1))[k].1 by {
                if k < olddone.len() {
                    assert(done@[k] == olddone[k]);
                }
            }
        } else {
            cur.push(c);
            assert(pieces(s.take(i + 1)) == p0.update(p0.len() - 1, (p0.last().0.push(c), false)));
            assert forall|k: int| 0 <= k < done@.len() implies (#[trigger] done@[k])@ == pieces(
                s.take(i + 1),
            )[k].0 && pieces(s.take(i + 1))[k].1 by {
                assert(done@[k] == olddone[k]);
            }
        }
        i = i + 1;
    }
    assert(s.take(n as int) =~= s);
    let ghost p = pieces(s);
    proof {
        lemma_pieces_nonempty(s);
    }
    // Line feeds are taken off already; a carriage return before one goes too.
    let mut r: Vec<Vec<char>> = Vec::new();
    let m = done.len();
    let mut k: usize = 0;
    while k < m
        invariant
            m == done@.len(),
            p.len() == m + 1,
            forall|j: int| 0 <= j < m ==> (#[trigger] done@[j])@ == p[j].0 && p[j].1,
            0 <= k <= m,
            r@.len() == k,
            forall|j: int| 0 <= j < k ==> (#[trigger] r@[j])@ == strip_ending(p[j]),
        decreases m - k,
    {
        let line = &done[k];
        let len = line.len();
        let mut out: Vec<char> = Vec::new();
        let keep = if len > 0 && line[len - 1] == '\r' {
            len - 1
        } else {
            len
        };
        let mut j: usize = 0;
        while j < keep
            invariant
                keep <= len == line@.len(),
                0 <= j <= keep,
                out@ == line@.take(j as int),
            decreases keep - j,
        {
            out.push(line[j]);
            assert(out@ =~= line@.take(j + 1));
            j = j + 1;
        }
        assert(out@ =~= strip_ending(p[k as int]));
        r.push(out);
        k = k + 1;
    }
    if cur.len() > 0 {
        r.push(cur);
    }
    proof {
        let kept = if p.last().0.len() == 0 {
            p.drop_last()
        } else {
            p
        };
        assert(r@.map_values(|v: Vec<char>| v@) =~= kept.map_values(|q: (Seq<char>, bool)| strip_ending(q)));
    }
    r
}

fn chars_to_string(v: &Vec<char>) -> (s: String)
    ensures
        s@ == v@,
{
    let mut s = String::new();
    let mut i: usize = 0;
    while i < v.len()
        invariant
            0 <= i <= v@.len(),
            s@ == v@.take(i as int),
        decreases v@.len() - i,
    {
        push_char(&mut s, v[i]);
        assert(s@ =~= v@.take(i + 1));
        i = i + 1;
    }
    assert(v@.take(v@.len() as int) =~= v@);
    s
}

/// The plain-text form of trait definitions: for each, its name line and
/// then its description line, each ended by a line feed.
pub open spec fn traits_text(defs: Seq<(Seq<char>, Seq<char>)>) -> Seq<char>
    decreases defs.len(),
{
    if defs.len() == 0 {
        Seq::empty()
    } else {
        traits_text(defs.drop_last()) + defs.last().0 + "\n"@ + defs.last().1 + "\n"@
    }
}

/// Write trait definitions in the plain-text format (see `traits_text`).
pub fn format_traits(defs: &[TraitDef]) -> (s: String)
    ensures
        s@ == traits_text(defs@.map_values(|t: TraitDef| trait_def_view(t))),
{
    let ghost v = defs@.map_values(|t: TraitDef| trait_def_view(t));
    let mut s = String::new();
    let mut i: usize = 0;
    while i < defs.len()
        invariant
            0 <= i <= defs@.len(),
            v == defs@.map_values(|t: TraitDef| trait_def_view(t)),
            s@ == traits_text(v.take(i as int)),
        decreases defs@.len() - i,
    {
        assert(v.take(i + 1).drop_last() =~= v.take(i as int));
        s.append(defs[i].name.as_str());
        s.append("\n");
        s.append(defs[i].description.as_str());
        s.append("\n");
        i = i + 1;
    }
    assert(v.take(i as int) =~= v);
    s
}

/// Parse trait definitions from the plain-text format (see `traits_of_lines`).
pub fn parse_traits(text: &str) -> (r: Vec<TraitDef>)
    ensures
        r@.map_values(|t: TraitDef| trait_def_view(t)) == traits_of_lines(text_lines(text@)),
{
    let lines = split_lines(text);
    let ghost ls = lines@.map_values(|v: Vec<char>| v@);
    let mut traits: Vec<TraitDef> = Vec::new();
    let mut i: usize = 0;
    let n = lines.len();
    assert(ls.subrange(0, n as int) =~= ls);
    assert(traits@.map_values(|t: TraitDef| trait_def_view(t)) =~= Seq::<(Seq<char>, Seq<char>)>::empty());
    assert(Seq::<(Seq<char>, Seq<char>)>::empty() + traits_of_lines(ls) =~= traits_of_lines(ls));
    while i + 1 < n
        invariant
            n == lines@.len(),
            ls == lines@.map_values(|v: Vec<char>| v@),
            i % 2 == 0,
            i <= n,
            traits@.map_values(|t: TraitDef| trait_def_view(t)) + traits_of_lines(ls.subrange(i as int, n as int))
                == traits_of_lines(ls),
        decreases n - i,
    {
        let ghost before = traits@.map_values(|t: TraitDef| trait_def_view(t));
        let ghost tail = ls.subrange(i as int, n as int);
        assert(tail.subrange(2, tail.len() as int) =~= ls.subrange(i + 2, n as int));
        assert(tail[0] == lines@[i as int]@);
        assert(tail[1] == lines@[i + 1]@);
        let name = trim_chars(&lines[i]);
        let desc = trim_chars(&lines[i + 1]);
        if name.len() > 0 {
            let def = TraitDef { name: chars_to_string(&name), description: chars_to_string(&desc) };
            traits.push(def);
            assert(traits@.map_values(|t: TraitDef| trait_def_view(t)) =~= before.push((name@, desc@)));
            assert(before.push((name@, desc@)) + traits_of_lines(ls.subrange(i + 2, n as int)) =~= before
                + traits_of_lines(tail));
        }
        i = i + 2;
    }
    assert(traits_of_lines(ls.subrange(i as int, n as int)) =~= Seq::<(Seq<char>, Seq<char>)>::empty());
    assert(traits@.map_values(|t: TraitDef| trait_def_view(t)) =~= traits@.map_values(
        |t: TraitDef| trait_def_view(t),
    ) + Seq::<(Seq<char>, Seq<char>)>::empty());
    traits
}

/// A line that the text format carries unchanged: no line feed in it, and
/// no white space at either end.
pub open spec fn clean_line(s: Seq<char>) -> bool {
    &&& forall|i: int| 0 <= i < s.len() ==> s[i] != '\n'
    &&& s.len() > 0 ==> !is_ws(s[0]) && !is_ws(s.last())
}

/// The lines the text form of trait definitions is made of: each name, then
/// its description.
pub open spec fn def_lines(defs: Seq<(Seq<char>, Seq<char>)>) -> Seq<Seq<char>>
    decreases defs.len(),
{
    if defs.len() == 0 {
        Seq::empty()
    } else {
        def_lines(defs.drop_last()).push(defs.last().0).push(defs.last().1)
    }
}

proof fn lemma_pieces_append_plain(t: Seq<char>, x: Seq<char>)
    requires
        forall|i: int| 0 <= i < x.len() ==> x[i] != '\n',
    ensures
        pieces(t + x) == pieces(t).update(pieces(t).len() - 1, (pieces(t).last().0 + x, false)),
    decreases x.len(),
{
    lemma_pieces_nonempty(t);
    if x.len() == 0 {
        assert(t + x =~= t);
        assert(pieces(t).last().0 + x =~= pieces(t).last().0);
        assert(pieces(t).update(pieces(t).len() - 1, (pieces(t).last().0, false)) =~= pieces(t));
    } else {
        let x1 = x.drop_last();
        lemma_pieces_append_plain(t, x1);
        assert((t + x).drop_last() =~= t + x1);
        assert((t + x).last() == x.last());
        assert(pieces(t).last().0 + x1 + seq![x.last()] =~= pieces(t).last().0 + x);
        let p = pieces(t + x1);
        assert(p.last().0 == pieces(t).last().0 + x1);
        assert(p.last().0.push(x.last()) =~= pieces(t).last().0 + x);
        assert(pieces(t + x) =~= pieces(t).update(pieces(t).len() - 1, (pieces(t).last().0 + x, false)));
    }
}

proof fn lemma_pieces_append_newline(t: Seq<char>)
    ensures
        pieces(t + "\n"@) == pieces(t).update(pieces(t).len() - 1, (pieces(t).last().0, true)).push(
            (Seq::<char>::empty(), false),
        ),
{
    reveal_strlit("\n");
    assert((t + "\n"@).drop_last() =~= t);
    assert((t + "\n"@).last() == '\n');
}

proof fn lemma_pieces_of_text(defs: Seq<(Seq<char>, Seq<char>)>)
    requires
        forall|i: int| 0 <= i < defs.len() ==> clean_line(#[trigger] defs[i].0) && clean_line(defs[i].1),
    ensures
        pieces(traits_text(defs)) == def_lines(defs).map_values(|l: Seq<char>| (l, true)).push(
            (Seq::<char>::empty(), false),
        ),
    decreases defs.len(),
{
    if defs.len() == 0 {
        assert(pieces(traits_text(defs)) =~= seq![(Seq::<char>::empty(), false)]);
        assert(def_lines(defs).map_values(|l: Seq<char>| (l, true)) =~= Seq::<(Seq<char>, bool)>::empty());
    } else {
        let dl = defs.drop_last();
        assert forall|i: int| 0 <= i < dl.len() implies clean_line(#[trigger] dl[i].0) && clean_line(dl[i].1) by {
            assert(dl[i] == defs[i]);
        }
        lemma_pieces_of_text(dl);
        let n = defs.last().0;
        let d = defs.last().1;
        assert(clean_line(defs[defs.len() - 1].0));
        let t0 = traits_text(dl);
        let a = def_lines(dl).map_values(|l: Seq<char>| (l, true));
        let e = Seq::<char>::empty();
        lemma_pieces_append_plain(t0, n);
        assert(e + n =~= n);
        assert(pieces(t0 + n) =~= a.push((n, false)));
        lemma_pieces_append_newline(t0 + n);
        assert(pieces(t0 + n + "\n"@) =~= a.push((n, true)).push((e, false)));
        lemma_pieces_append_plain(t0 + n + "\n"@, d);
        assert(pieces(t0 + n + "\n"@ + d) =~= a.push((n, true)).push((d, false)));
        lemma_pieces_append_newline(t0 + n + "\n"@ + d);
        assert(pieces(t0 + n + "\n"@ + d + "\n"@) =~= a.push((n, true)).push((d, true)).push((e, false)));
        assert(def_lines(defs).map_values(|l: Seq<char>| (l, true)) =~= a.push((n, true)).push((d, true)));
    }
}

proof fn lemma_clean_line_trimmed(s: Seq<char>)
    requires
        clean_line(s),
    ensures
        trim(s) == s,
        s.len() > 0 ==> s.last() != '\r',
{
    if s.len() > 0 {
        assert(trim_start(s) == s);
        assert(trim_end(s) == s);
        assert(is_ws('\r'));
    }
}

proof fn lemma_def_lines_front(defs: Seq<(Seq<char>, Seq<char>)>)
    requires
        defs.len() > 0,
    ensures
        def_lines(defs) == seq![defs[0].0, defs[0].1] + def_lines(defs.drop_first()),
    decreases defs.len(),
{
    if defs.len() == 1 {
        assert(defs.drop_last() =~= Seq::<(Seq<char>, Seq<char>)>::empty());
        assert(defs.drop_first() =~= Seq::<(Seq<char>, Seq<char>)>::empty());
        assert(def_lines(defs.drop_last()) =~= Seq::<Seq<char>>::empty());
        assert(def_lines(defs.drop_first()) =~= Seq::<Seq<char>>::empty());
        assert(def_lines(defs) =~= seq![defs[0].0, defs[0].1]);
    } else {
        let dl = defs.drop_last();
        lemma_def_lines_front(dl);
        assert(dl.drop_first() =~= defs.drop_first().drop_last());
        assert(defs.drop_first().last() == defs.last());
        assert(def_lines(defs) =~= seq![defs[0].0, defs[0].1] + def_lines(defs.drop_first()));
    }
}

proof fn lemma_def_lines_len(defs: Seq<(Seq<char>, Seq<char>)>)
    ensures
        def_lines(defs).len() == 2 * defs.len(),
    decreases defs.len(),
{
    if defs.len() > 0 {
        lemma_def_lines_len(defs.drop_last());
    }
}

proof fn lemma_lines_to_defs(defs: Seq<(Seq<char>, Seq<char>)>)
    requires
        forall|i: int|
            0 <= i < defs.len() ==> (#[trigger] defs[i]).0.len() > 0 && clean_line(defs[i].0) && clean_line(
                defs[i].1,
            ),
    ensures
        traits_of_lines(def_lines(defs)) == defs,
    decreases defs.len(),
{
    if defs.len() == 0 {
        assert(def_lines(defs) =~= Seq::<Seq<char>>::empty());
    } else {
        let rest = defs.drop_first();
        assert forall|i: int| 0 <= i < rest.len() implies (#[trigger] rest[i]).0.len() > 0 && clean_line(rest[i].0)
            && clean_line(rest[i].1) by {
            assert(rest[i] == defs[i + 1]);
        }
        lemma_lines_to_defs(rest);
        lemma_def_lines_front(defs);
        lemma_def_lines_len(defs);
        let lines = def_lines(defs);
        assert(defs[0] == defs[0]);
        lemma_clean_line_trimmed(defs[0].0);
        lemma_clean_line_trimmed(defs[0].1);
        assert(lines[0] == defs[0].0);
        assert(lines[1] == defs[0].1);
        assert(lines.subrange(2, lines.len() as int) =~= def_lines(rest));
        assert(traits_of_lines(lines) =~= seq![(defs[0].0, defs[0].1)] + rest);
        assert(seq![(defs[0].0, defs[0].1)] + rest =~= defs);
    }
}

/// Trait definitions written in the text format read back as they were:
/// for names that are not empty, and names and descriptions without line
/// feeds or white space at their ends.
pub proof fn law_written_traits_read_back(defs: Seq<(Seq<char>, Seq<char>)>)
    requires
        forall|i: int|
            0 <= i < defs.len() ==> (#[trigger] defs[i]).0.len() > 0 && clean_line(defs[i].0) && clean_line(
                defs[i].1,
            ),
    ensures
        traits_of_lines(text_lines(traits_text(defs))) == defs,
{
    assert forall|i: int| 0 <= i < defs.len() implies clean_line(#[trigger] defs[i].0) && clean_line(defs[i].1) by {
        assert(defs[i] == defs[i]);
    }
    lemma_pieces_of_text(defs);
    let lines = def_lines(defs);
    let p = pieces(traits_text(defs));
    let kept = p.drop_last();
    assert(kept =~= lines.map_values(|l: Seq<char>| (l, true)));
    assert forall|i: int| 0 <= i < lines.len() implies strip_ending(#[trigger] kept[i]) == lines[i] by {
        lemma_def_lines_len(defs);
        lemma_line_is_clean(defs, i);
        lemma_clean_line_trimmed(lines[i]);
    }
    assert(text_lines(traits_text(defs)) =~= lines);
    lemma_lines_to_defs(defs);
}

proof fn lemma_line_is_clean(defs: Seq<(Seq<char>, Seq<char>)>, i: int)
    requires
        forall|j: int| 0 <= j < defs.len() ==> clean_line(#[trigger] defs[j].0) && clean_line(defs[j].1),
        0 <= i < def_lines(defs).len(),
    ensures
        clean_line(def_lines(defs)[i]),
    decreases defs.len(),
{
    lemma_def_lines_len(defs);
    if defs.len() > 0 {
        let dl = defs.drop_last();
        lemma_def_lines_len(dl);
        if i < def_lines(dl).len() {
            assert forall|j: int| 0 <= j < dl.len() implies clean_line(#[trigger] dl[j].0) && clean_line(dl[j].1) by {
                assert(dl[j] == defs[j]);
            }
            lemma_line_is_clean(dl, i);
            assert(def_lines(defs)[i] == def_lines(dl)[i]);
        } else {
            assert(clean_line(defs[defs.len() - 1].0));
        }
    }
}

} // verus!
