//! PATH-style lists: entries between separators, compared after normalisation.
use vstd::prelude::*;
use crate::text::{trim_str, trimmed};

verus! {

/// Relies on `String::push`: the character is appended.
#[verifier::external_body]
fn push_char(s: &mut String, c: char)
    ensures
        final(s)@ == old(s)@.push(c),
{
    s.push(c)
}

/// `c` with ASCII upper case mapped to lower case.
pub open spec fn lower_char(c: char) -> char {
    if 'A' <= c && c <= 'Z' {
        ((c as u8) + 32) as u8 as char
    } else {
        c
    }
}

/// `c` with ASCII upper case mapped to lower case.
fn ascii_lower(c: char) -> (r: char)
    ensures
        r == lower_char(c),
{
    if 'A' <= c && c <= 'Z' {
        ((c as u8) + 32) as char
    } else {
        c
    }
}

/// The pieces of `s` between occurrences of `sep` (one more piece than separators).
pub open spec fn pieces(s: Seq<char>, sep: char) -> Seq<Seq<char>>
    decreases s.len(),
{
    if s.len() == 0 {
        seq![Seq::empty()]
    } else {
        let p = pieces(s.drop_last(), sep);
        if s.last() == sep {
            p.push(Seq::empty())
        } else {
            p.update(p.len() - 1, p.last().push(s.last()))
        }
    }
}

pub proof fn lemma_pieces_nonempty(s: Seq<char>, sep: char)
    ensures
        pieces(s, sep).len() >= 1,
    decreases s.len(),
{
    if s.len() > 0 {
        lemma_pieces_nonempty(s.drop_last(), sep);
    }
}

/// The trimmed pieces that are not empty.
pub open spec fn kept_entries(ps: Seq<Seq<char>>) -> Seq<Seq<char>>
    decreases ps.len(),
{
    if ps.len() == 0 {
        Seq::empty()
    } else {
        let rest = kept_entries(ps.drop_last());
        if trimmed(ps.last()).len() > 0 {
            rest.push(trimmed(ps.last()))
        } else {
            rest
        }
    }
}

/// The entries of a list: its pieces, trimmed, without the empty ones.
pub open spec fn list_entries(s: Seq<char>, sep: char) -> Seq<Seq<char>> {
    kept_entries(pieces(s, sep))
}

pub open spec fn views(v: Seq<String>) -> Seq<Seq<char>> {
    v.map_values(|x: String| x@)
}

/// Splits a list into its trimmed, non-empty entries.
pub fn split_path_list(path_list: &str, sep: char) -> (r: Vec<String>)
    ensures
        views(r@) == list_entries(path_list@, sep),
{
    let n = path_list.unicode_len();
    let mut out: Vec<String> = Vec::new();
    let mut cur = String::new();
    let mut i: usize = 0;
    assert(path_list@.subrange(0, 0) =~= Seq::<char>::empty());
    while i < n
        invariant
            i <= n == path_list@.len(),
            cur@ == pieces(path_list@.subrange(0, i as int), sep).last(),
            views(out@) == kept_entries(pieces(path_list@.subrange(0, i as int), sep).drop_last()),
        decreases n - i,
    {
        let c = path_list.get_char(i);
        let ghost before = path_list@.subrange(0, i as int);
        let ghost after = path_list@.subrange(0, i + 1);
        assert(after.drop_last() =~= before);
        proof {
            lemma_pieces_nonempty(before, sep);
        }
        if c == sep {
            let piece = trim_str(cur.as_str());
            if piece.unicode_len() > 0 {
                out.push(String::from_str(piece));
            }
            assert(pieces(after, sep).drop_last() =~= pieces(before, sep));
            assert(pieces(before, sep) =~= pieces(before, sep).drop_last().push(cur@));
            assert(views(out@) =~= kept_entries(pieces(after, sep).drop_last()));
            cur = String::new();
        } else {
            push_char(&mut cur, c);
            assert(pieces(after, sep).drop_last() =~= pieces(before, sep).drop_last());
        }
        i = i + 1;
    }
    assert(path_list@.subrange(0, n as int) =~= path_list@);
    proof {
        lemma_pieces_nonempty(path_list@, sep);
    }
    let ghost ps = pieces(path_list@, sep);
    assert(ps =~= ps.drop_last().push(cur@));
    let piece = trim_str(cur.as_str());
    if piece.unicode_len() > 0 {
        out.push(String::from_str(piece));
    }
    assert(views(out@) =~= kept_entries(ps));
    out
}

pub open spec fn slash_char(c: char) -> char {
    if c == '\\' {
        '/'
    } else {
        c
    }
}

/// `s` without trailing `/`, keeping at least one character.
pub open spec fn strip_slashes(s: Seq<char>) -> Seq<char>
    decreases s.len(),
{
    if s.len() > 1 && s.last() == '/' {
        strip_slashes(s.drop_last())
    } else {
        s
    }
}

/// The form in which entries are compared: trimmed, backslashes made slashes, trailing
/// slashes removed, and in ASCII lower case when `case_insensitive`.
pub open spec fn normalized(p: Seq<char>, case_insensitive: bool) -> Seq<char> {
    let base = strip_slashes(trimmed(p).map_values(|c: char| slash_char(c)));
    if case_insensitive {
        base.map_values(|c: char| lower_char(c))
    } else {
        base
    }
}

/// Normalises an entry for comparison.
pub fn normalize_path_entry(path: &str, case_insensitive: bool) -> (r: String)
    ensures
        r@ == normalized(path@, case_insensitive),
{
    let t = trim_str(path);
    let n = t.unicode_len();
    let ghost m = t@.map_values(|c: char| slash_char(c));
    let mut end: usize = n;
    assert(m.subrange(0, n as int) =~= m);
    while end > 1 && slash_char_of(t.get_char(end - 1)) == '/'
        invariant
            end <= n == t@.len(),
            m == t@.map_values(|c: char| slash_char(c)),
            strip_slashes(m) == strip_slashes(m.subrange(0, end as int)),
        decreases end,
    {
        assert(m[end - 1] == slash_char(t@[end - 1]));
        assert(m.subrange(0, end as int).drop_last() =~= m.subrange(0, end - 1));
        end = end - 1;
    }
    let ghost base = m.subrange(0, end as int);
    assert(strip_slashes(m) == base);
    let mut out = String::new();
    let mut j: usize = 0;
    while j < end
        invariant
            end <= n == t@.len(),
            m == t@.map_values(|c: char| slash_char(c)),
            base == m.subrange(0, end as int),
            j <= end,
            out@ == if case_insensitive {
                base.subrange(0, j as int).map_values(|c: char| lower_char(c))
            } else {
                base.subrange(0, j as int)
            },
        decreases end - j,
    {
        let c = slash_char_of(t.get_char(j));
        assert(base[j as int] == m[j as int]);
        assert(m[j as int] == c);
        if case_insensitive {
            push_char(&mut out, ascii_lower(c));
            assert(out@ =~= base.subrange(0, j + 1).map_values(|c: char| lower_char(c)));
        } else {
            push_char(&mut out, c);
            assert(out@ =~= base.subrange(0, j + 1));
        }
        j = j + 1;
    }
    assert(base.subrange(0, end as int) =~= base);
    out
}

fn slash_char_of(c: char) -> (r: char)
    ensures
        r == slash_char(c),
{
    if c == '\\' {
        '/'
    } else {
        c
    }
}

/// Entries joined with `sep` between them.
pub open spec fn joined_list(es: Seq<Seq<char>>, sep: char) -> Seq<char>
    decreases es.len(),
{
    if es.len() == 0 {
        Seq::empty()
    } else if es.len() == 1 {
        es[0]
    } else {
        joined_list(es.drop_last(), sep).push(sep) + es.last()
    }
}

fn join_list(es: &Vec<String>, sep: char) -> (r: String)
    ensures
        r@ == joined_list(views(es@), sep),
{
    let mut out = String::new();
    let mut i: usize = 0;
    while i < es.len()
        invariant
            i <= es@.len(),
            out@ == joined_list(views(es@.subrange(0, i as int)), sep),
        decreases es@.len() - i,
    {
        let ghost before = views(es@.subrange(0, i as int));
        let ghost after = views(es@.subrange(0, i + 1));
        assert(after.drop_last() =~= before);
        assert(after.last() == es@[i as int]@);
        if i > 0 {
            push_char(&mut out, sep);
        }
        out.append(es[i].as_str());
        assert(out@ =~= joined_list(after, sep));
        i = i + 1;
    }
    assert(es@.subrange(0, es@.len() as int) =~= es@);
    out
}

/// Whether some entry normalises to what `e` normalises to.
pub open spec fn has_entry(es: Seq<Seq<char>>, e: Seq<char>, case_insensitive: bool) -> bool {
    exists|i: int| 0 <= i < es.len() && #[trigger] normalized(es[i], case_insensitive) == normalized(e, case_insensitive)
}

/// The entries that do not normalise to what `e` normalises to.
pub open spec fn without_entry(es: Seq<Seq<char>>, e: Seq<char>, case_insensitive: bool) -> Seq<Seq<char>>
    decreases es.len(),
{
    if es.len() == 0 {
        Seq::empty()
    } else {
        let rest = without_entry(es.drop_last(), e, case_insensitive);
        if normalized(es.last(), case_insensitive) == normalized(e, case_insensitive) {
            rest
        } else {
            rest.push(es.last())
        }
    }
}

/// Adds `entry` to a list unless an equal entry is there; the list is rewritten from its
/// entries either way, and the flag tells whether the text changed.
pub fn add_path_entry(path_list: &str, entry: &str, sep: char, case_insensitive: bool) -> (r: (
    String,
    bool,
))
    ensures
        ({
            let es = list_entries(path_list@, sep);
            let new_es = if has_entry(es, entry@, case_insensitive) {
                es
            } else {
                es.push(entry@)
            };
            r.0@ == joined_list(new_es, sep) && r.1 == (r.0@ != path_list@)
        }),
{
    let mut entries = split_path_list(path_list, sep);
    let target = normalize_path_entry(entry, case_insensitive);
    let ghost es = list_entries(path_list@, sep);
    let mut already = false;
    let mut i: usize = 0;
    while i < entries.len()
        invariant
            i <= entries@.len(),
            views(entries@) == es,
            target@ == normalized(entry@, case_insensitive),
            already <==> exists|k: int| 0 <= k < i && #[trigger] normalized(es[k], case_insensitive) == normalized(entry@, case_insensitive),
        decreases entries@.len() - i,
    {
        let candidate = normalize_path_entry(entries[i].as_str(), case_insensitive);
        assert(es[i as int] == entries@[i as int]@);
        if candidate == target {
            already = true;
        }
        i = i + 1;
    }
    if !already {
        entries.push(String::from_str(entry));
        assert(views(entries@) =~= es.push(entry@));
    }
    let joined = join_list(&entries, sep);
    let given = String::from_str(path_list);
    let changed = !(joined == given);
    (joined, changed)
}

/// Removes every entry equal to `entry` from a list, rewriting it from its entries; the flag
/// tells whether the text changed.
pub fn remove_path_entry(path_list: &str, entry: &str, sep: char, case_insensitive: bool) -> (r: (
    String,
    bool,
))
    ensures
        ({
            let kept = without_entry(list_entries(path_list@, sep), entry@, case_insensitive);
            r.0@ == joined_list(kept, sep) && r.1 == (r.0@ != path_list@)
        }),
{
    let target = normalize_path_entry(entry, case_insensitive);
    let old_entries = split_path_list(path_list, sep);
    let ghost es = list_entries(path_list@, sep);
    let mut kept: Vec<String> = Vec::new();
    let mut i: usize = 0;
    assert(es.subrange(0, 0) =~= Seq::<Seq<char>>::empty());
    while i < old_entries.len()
        invariant
            i <= old_entries@.len(),
            views(old_entries@) == es,
            target@ == normalized(entry@, case_insensitive),
            views(kept@) == without_entry(es.subrange(0, i as int), entry@, case_insensitive),
        decreases old_entries@.len() - i,
    {
        let candidate = normalize_path_entry(old_entries[i].as_str(), case_insensitive);
        assert(es[i as int] == old_entries@[i as int]@);
        assert(es.subrange(0, i + 1).drop_last() =~= es.subrange(0, i as int));
        if !(candidate == target) {
            kept.push(old_entries[i].clone());
        }
        assert(views(kept@) =~= without_entry(es.subrange(0, i + 1), entry@, case_insensitive));
        i = i + 1;
    }
    assert(es.subrange(0, es.len() as int) =~= es);
    let joined = join_list(&kept, sep);
    let given = String::from_str(path_list);
    let changed = !(joined == given);
    (joined, changed)
}

} // verus!
