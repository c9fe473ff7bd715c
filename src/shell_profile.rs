//! The block that the client installer keeps in a shell profile to put its directory on PATH.
use vstd::prelude::*;
use crate::text::{join_path, joined};

verus! {

pub const PATH_MARKER_BEGIN: &'static str = "# >>> ssh_clipboard install-client >>>";

pub const PATH_MARKER_END: &'static str = "# <<< ssh_clipboard install-client <<<";

/// `s` with each `"` preceded by a backslash.
pub open spec fn quotes_escaped(s: Seq<char>) -> Seq<char>
    decreases s.len(),
{
    if s.len() == 0 {
        Seq::empty()
    } else {
        quotes_escaped(s.drop_last()) + if s.last() == '"' {
            seq!['\\', '"']
        } else {
            seq![s.last()]
        }
    }
}

/// The profile block that puts `install_dir` in front of PATH.
pub open spec fn path_block(install_dir: Seq<char>) -> Seq<char> {
    PATH_MARKER_BEGIN@ + "\nexport PATH=\""@ + quotes_escaped(install_dir) + ":$PATH\"\n"@
        + PATH_MARKER_END@ + "\n"@
}

/// Renders the profile block for `install_dir`.
pub fn render_path_block(install_dir: &str) -> (r: String)
    ensures
        r@ == path_block(install_dir@),
{
    let mut out = String::from_str(PATH_MARKER_BEGIN);
    out.append("\nexport PATH=\"");
    let ghost start = out@;
    let n = install_dir.unicode_len();
    let mut i: usize = 0;
    assert(install_dir@.subrange(0, 0) =~= Seq::<char>::empty());
    while i < n
        invariant
            i <= n == install_dir@.len(),
            out@ == start + quotes_escaped(install_dir@.subrange(0, i as int)),
        decreases n - i,
    {
        proof {
            reveal_strlit("\\\"");
        }
        let c = install_dir.get_char(i);
        let ghost after = install_dir@.subrange(0, i + 1);
        assert(after.drop_last() =~= install_dir@.subrange(0, i as int));
        if c == '"' {
            out.append("\\\"");
            assert(out@ =~= start + quotes_escaped(after));
        } else {
            let one = install_dir.substring_char(i, i + 1);
            out.append(one);
            assert(out@ =~= start + quotes_escaped(after));
        }
        i = i + 1;
    }
    assert(install_dir@.subrange(0, n as int) =~= install_dir@);
    out.append(":$PATH\"\n");
    out.append(PATH_MARKER_END);
    out.append("\n");
    assert(out@ =~= path_block(install_dir@));
    out
}

/// The first position at or after `i` where `p` occurs in `s`, or -1.
pub open spec fn find_from(s: Seq<char>, p: Seq<char>, i: int) -> int
    decreases s.len() + 1 - i,
{
    if i < 0 || i + p.len() > s.len() {
        -1
    } else if s.subrange(i, i + p.len()) == p {
        i
    } else {
        find_from(s, p, i + 1)
    }
}

pub proof fn lemma_find_from_bounds(s: Seq<char>, p: Seq<char>, i: int)
    ensures
        find_from(s, p, i) == -1 || (i <= find_from(s, p, i) && find_from(s, p, i) + p.len()
            <= s.len()),
    decreases s.len() + 1 - i,
{
    if !(i < 0 || i + p.len() > s.len()) && s.subrange(i, i + p.len()) != p {
        lemma_find_from_bounds(s, p, i + 1);
    }
}

/// `s` without the newlines it starts with.
pub open spec fn drop_newlines(s: Seq<char>) -> Seq<char>
    decreases s.len(),
{
    if s.len() > 0 && s[0] == '\n' {
        drop_newlines(s.drop_first())
    } else {
        s
    }
}

/// `s` ending in a newline, unless it is empty.
pub open spec fn with_newline(s: Seq<char>) -> Seq<char> {
    if s.len() > 0 && s.last() != '\n' {
        s.push('\n')
    } else {
        s
    }
}

/// Why the markers in a profile cannot be handled.
#[derive(Debug, Clone, Copy, PartialEq, Eq, Structural)]
pub enum BlockError {
    /// One marker is present without the other.
    Malformed,
    /// The end marker comes before the begin marker.
    OutOfOrder,
}

/// Where the managed block stands in `c`: its begin and end marker positions.
pub open spec fn markers(c: Seq<char>) -> (int, int) {
    (find_from(c, PATH_MARKER_BEGIN@, 0), find_from(c, PATH_MARKER_END@, 0))
}

pub open spec fn marker_error(c: Seq<char>) -> Option<BlockError> {
    let (b, e) = markers(c);
    if (b >= 0) != (e >= 0) {
        Some(BlockError::Malformed)
    } else if b >= 0 && e < b {
        Some(BlockError::OutOfOrder)
    } else {
        None
    }
}

/// What follows the end marker, without leading newlines.
pub open spec fn after_block(c: Seq<char>) -> Seq<char> {
    drop_newlines(c.subrange(markers(c).1 + PATH_MARKER_END@.len(), c.len() as int))
}

pub open spec fn upserted(c: Seq<char>, block: Seq<char>) -> Seq<char> {
    let (b, e) = markers(c);
    if b < 0 {
        with_newline(c) + block
    } else {
        let head = with_newline(c.subrange(0, b)) + block;
        if after_block(c).len() > 0 {
            with_newline(head + after_block(c))
        } else {
            head
        }
    }
}

pub open spec fn removed(c: Seq<char>) -> Seq<char> {
    let (b, e) = markers(c);
    if b < 0 {
        c
    } else if after_block(c).len() > 0 {
        with_newline(with_newline(c.subrange(0, b)) + after_block(c))
    } else {
        with_newline(c.subrange(0, b))
    }
}

fn find_first(s: &str, p: &str) -> (r: Option<usize>)
    ensures
        match r {
            Some(i) => find_from(s@, p@, 0) == i && i + p@.len() <= s@.len(),
            None => find_from(s@, p@, 0) == -1,
        },
{
    let n = s.unicode_len();
    let m = p.unicode_len();
    if m > n {
        return None;
    }
    if m == 0 {
        assert(s@.subrange(0, 0) =~= p@);
        return Some(0);
    }
    let target = String::from_str(p);
    let mut i: usize = 0;
    while i <= n - m
        invariant
            n == s@.len(),
            1 <= m == p@.len(),
            m <= n,
            target@ == p@,
            i <= n - m + 1,
            find_from(s@, p@, 0) == find_from(s@, p@, i as int),
        decreases n - m + 1 - i,
    {
        let window = String::from_str(s.substring_char(i, i + m));
        if window == target {
            return Some(i);
        }
        i = i + 1;
    }
    None
}

fn push_newline_if_needed(s: &mut String)
    ensures
        final(s)@ == with_newline(old(s)@),
{
    let n = s.unicode_len();
    if n > 0 && s.as_str().get_char(n - 1) != '\n' {
        proof {
            reveal_strlit("\n");
        }
        s.append("\n");
    }
}

fn skip_newlines(s: &str, from: usize) -> (r: String)
    requires
        from <= s@.len(),
    ensures
        r@ == drop_newlines(s@.subrange(from as int, s@.len() as int)),
{
    let n = s.unicode_len();
    let mut i: usize = from;
    while i < n && s.get_char(i) == '\n'
        invariant
            from <= i <= n == s@.len(),
            drop_newlines(s@.subrange(from as int, n as int)) == drop_newlines(
                s@.subrange(i as int, n as int),
            ),
        decreases n - i,
    {
        assert(s@.subrange(i as int, n as int).drop_first() =~= s@.subrange(i + 1, n as int));
        i = i + 1;
    }
    String::from_str(s.substring_char(i, n))
}

/// Puts `block` into a profile: in place of the managed block if there is one, else at the
/// end. The flag tells whether the text changed.
pub fn upsert_managed_block(contents: &str, block: &str) -> (r: Result<(String, bool), BlockError>)
    ensures
        match marker_error(contents@) {
            Some(e) => r == Err::<(String, bool), BlockError>(e),
            None => r matches Ok((text, changed)) && text@ == upserted(contents@, block@)
                && changed == (text@ != contents@),
        },
{
    let n = contents.unicode_len();
    let begin = find_first(contents, PATH_MARKER_BEGIN);
    let end = find_first(contents, PATH_MARKER_END);
    let given = String::from_str(contents);
    match (begin, end) {
        (Some(b), Some(e)) => {
            if e < b {
                return Err(BlockError::OutOfOrder);
            }
            let end_idx = e + PATH_MARKER_END.unicode_len();
            let mut updated = String::from_str(contents.substring_char(0, b));
            push_newline_if_needed(&mut updated);
            updated.append(block);
            let tail = skip_newlines(contents, end_idx);
            if tail.unicode_len() > 0 {
                updated.append(tail.as_str());
                push_newline_if_needed(&mut updated);
            }
            let changed = !(updated == given);
            Ok((updated, changed))
        },
        (None, None) => {
            let mut updated = String::from_str(contents);
            push_newline_if_needed(&mut updated);
            updated.append(block);
            let changed = !(updated == given);
            Ok((updated, changed))
        },
        _ => Err(BlockError::Malformed),
    }
}

/// Takes the managed block out of a profile. The flag tells whether the text changed.
pub fn remove_managed_block(contents: &str) -> (r: Result<(String, bool), BlockError>)
    ensures
        match marker_error(contents@) {
            Some(e) => r == Err::<(String, bool), BlockError>(e),
            None => r matches Ok((text, changed)) && text@ == removed(contents@) && changed == (
            text@ != contents@),
        },
{
    let n = contents.unicode_len();
    let begin = find_first(contents, PATH_MARKER_BEGIN);
    let end = find_first(contents, PATH_MARKER_END);
    let given = String::from_str(contents);
    match (begin, end) {
        (Some(b), Some(e)) => {
            if e < b {
                return Err(BlockError::OutOfOrder);
            }
            let end_idx = e + PATH_MARKER_END.unicode_len();
            let mut updated = String::from_str(contents.substring_char(0, b));
            let tail = skip_newlines(contents, end_idx);
            if tail.unicode_len() > 0 {
                push_newline_if_needed(&mut updated);
                updated.append(tail.as_str());
            }
            push_newline_if_needed(&mut updated);
            let changed = !(updated == given);
            Ok((updated, changed))
        },
        (None, None) => Ok((given, false)),
        _ => Err(BlockError::Malformed),
    }
}

/// The profiles that may hold the managed block, in path order. Whichever of the two the
/// login shell prefers, the sorted and deduplicated list is the same two files.
pub fn candidate_profile_files(home: &str) -> (r: Vec<String>)
    ensures
        r@.len() == 2,
        r@[0]@ == joined(home@, ".profile"@),
        r@[1]@ == joined(home@, ".zprofile"@),
{
    let mut files: Vec<String> = Vec::new();
    files.push(join_path(home, ".profile"));
    files.push(join_path(home, ".zprofile"));
    files
}

} // verus!
