//! Human-readable renderings for the command line.
use vstd::prelude::*;
use crate::text::{decimal, push_decimal};
use crate::path_list::joined_list;

verus! {

/// The largest two non-zero units of an age given in whole seconds, largest first.
pub open spec fn duration_parts(secs: int) -> Seq<Seq<char>> {
    let d = secs / 86400;
    let h = (secs % 86400) / 3600;
    let m = (secs % 3600) / 60;
    let s = secs % 60;
    let with_days: Seq<Seq<char>> = if d > 0 {
        seq![decimal(d as nat) + "d"@]
    } else {
        Seq::empty()
    };
    let with_hours = if h > 0 && with_days.len() < 2 {
        with_days.push(decimal(h as nat) + "h"@)
    } else {
        with_days
    };
    let with_minutes = if m > 0 && with_hours.len() < 2 {
        with_hours.push(decimal(m as nat) + "m"@)
    } else {
        with_hours
    };
    if s > 0 && with_minutes.len() < 2 {
        with_minutes.push(decimal(s as nat) + "s"@)
    } else {
        with_minutes
    }
}

/// An age such as `1d 1h ago`, or `just now` for none.
pub open spec fn humanized_duration(secs: int) -> Seq<char> {
    if secs <= 0 || duration_parts(secs).len() == 0 {
        "just now"@
    } else {
        joined_list(duration_parts(secs), ' ') + " ago"@
    }
}

fn unit_part(n: u64, unit: &str) -> (r: String)
    ensures
        r@ == decimal(n as nat) + unit@,
{
    let mut s = String::new();
    push_decimal(&mut s, n);
    s.append(unit);
    proof {
        assert(Seq::<char>::empty() + decimal(n as nat) =~= decimal(n as nat));
    }
    s
}

/// Renders an age given in whole seconds.
pub fn humanize_duration(seconds: i64) -> (r: String)
    ensures
        r@ == humanized_duration(seconds as int),
{
    if seconds <= 0 {
        return String::from_str("just now");
    }
    let secs = seconds as u64;
    let d = secs / 86400;
    let h = (secs % 86400) / 3600;
    let m = (secs % 3600) / 60;
    let s = secs % 60;
    let ghost goal = duration_parts(seconds as int);
    let mut parts: Vec<String> = Vec::new();
    if d > 0 {
        parts.push(unit_part(d, "d"));
    }
    if h > 0 && parts.len() < 2 {
        parts.push(unit_part(h, "h"));
    }
    if m > 0 && parts.len() < 2 {
        parts.push(unit_part(m, "m"));
    }
    if s > 0 && parts.len() < 2 {
        parts.push(unit_part(s, "s"));
    }
    assert(parts@.map_values(|x: String| x@) =~= goal);
    if parts.len() == 0 {
        return String::from_str("just now");
    }
    let mut out = String::new();
    let mut i: usize = 0;
    while i < parts.len()
        invariant
            i <= parts@.len(),
            out@ == joined_list(parts@.subrange(0, i as int).map_values(|x: String| x@), ' '),
        decreases parts@.len() - i,
    {
        let ghost before = parts@.subrange(0, i as int).map_values(|x: String| x@);
        let ghost after = parts@.subrange(0, i + 1).map_values(|x: String| x@);
        assert(after.drop_last() =~= before);
        if i > 0 {
            out.append(" ");
        }
        out.append(parts[i].as_str());
        proof {
            reveal_strlit(" ");
        }
        assert(out@ =~= joined_list(after, ' '));
        i = i + 1;
    }
    assert(parts@.subrange(0, parts@.len() as int) =~= parts@);
    out.append(" ago");
    out
}

} // verus!
