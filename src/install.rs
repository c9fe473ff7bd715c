//! Text and paths that installing the daemon and the client produce.
use vstd::prelude::*;
use crate::text::{
    decimal, is_whitespace, join_path, joined, push_decimal, trim_str, trimmed, unicode_whitespace,
};

verus! {

pub open spec fn needs_quoting(s: Seq<char>) -> bool {
    exists|i: int| 0 <= i < s.len() && (unicode_whitespace(#[trigger] s[i]) || s[i] == '"' || s[i] == '\\')
}

/// `s` with a backslash in front of each `"` and `\`.
pub open spec fn escaped(s: Seq<char>) -> Seq<char>
    decreases s.len(),
{
    if s.len() == 0 {
        Seq::empty()
    } else {
        escaped(s.drop_last()) + if s.last() == '"' || s.last() == '\\' {
            seq!['\\', s.last()]
        } else {
            seq![s.last()]
        }
    }
}

/// An argument as systemd reads it: unchanged when it holds no whitespace, quote or
/// backslash, else in double quotes with quotes and backslashes escaped.
pub open spec fn quoted_arg(s: Seq<char>) -> Seq<char> {
    if needs_quoting(s) {
        seq!['"'] + escaped(s) + seq!['"']
    } else {
        s
    }
}

/// Quotes an argument for a systemd `ExecStart=` line.
pub fn systemd_quote_arg(value: &str) -> (r: String)
    ensures
        r@ == quoted_arg(value@),
{
    let n = value.unicode_len();
    let mut i: usize = 0;
    let mut special = false;
    while i < n
        invariant
            i <= n == value@.len(),
            special <==> exists|k: int| 0 <= k < i && (unicode_whitespace(#[trigger] value@[k]) || value@[k] == '"' || value@[k] == '\\'),
        decreases n - i,
    {
        let c = value.get_char(i);
        if is_whitespace(c) || c == '"' || c == '\\' {
            special = true;
        }
        i = i + 1;
    }
    if !special {
        return String::from_str(value);
    }
    proof {
        reveal_strlit("\"");
        reveal_strlit("\\");
    }
    let mut out = String::from_str("\"");
    let mut j: usize = 0;
    assert(value@.subrange(0, 0) =~= Seq::<char>::empty());
    while j < n
        invariant
            j <= n == value@.len(),
            out@ == seq!['"'] + escaped(value@.subrange(0, j as int)),
        decreases n - j,
    {
        let c = value.get_char(j);
        let ghost prefix = value@.subrange(0, j + 1);
        assert(prefix.drop_last() =~= value@.subrange(0, j as int));
        proof {
            reveal_strlit("\\");
        }
        assert(prefix.last() == c);
        if c == '"' || c == '\\' {
            out.append("\\");
        }
        let one = value.substring_char(j, j + 1);
        assert(one@ =~= seq![c]);
        out.append(one);
        assert(out@ =~= seq!['"'] + escaped(prefix));
        j = j + 1;
    }
    assert(value@.subrange(0, n as int) =~= value@);
    out.append("\"");
    out
}

pub const UNIT_HEAD: &'static str = "[Unit]\nDescription=SSH Clipboard Daemon\nAfter=network.target\n\n[Service]\nExecStart=";

pub const UNIT_TAIL: &'static str = "\nRestart=on-failure\nRestartSec=1\n\n[Install]\nWantedBy=default.target\n";

/// The command that the unit starts.
pub open spec fn exec_line(bin: Seq<char>, socket: Option<Seq<char>>, max_size: nat, timeout_ms: nat) -> Seq<char> {
    bin + " daemon --io-timeout-ms "@ + decimal(timeout_ms) + " --max-size "@ + decimal(max_size)
        + match socket {
        Some(s) => " --socket-path "@ + quoted_arg(s),
        None => Seq::empty(),
    }
}

pub open spec fn opt_view(o: Option<&str>) -> Option<Seq<char>> {
    match o {
        Some(s) => Some(s@),
        None => None,
    }
}

/// The systemd user unit that runs the daemon.
pub fn render_unit_file(
    bin_path: &str,
    socket_path: Option<&str>,
    max_size: usize,
    io_timeout_ms: u64,
) -> (r: String)
    ensures
        r@ == UNIT_HEAD@ + exec_line(bin_path@, opt_view(socket_path), max_size as nat, io_timeout_ms as nat)
            + UNIT_TAIL@,
{
    let mut out = String::from_str(UNIT_HEAD);
    out.append(bin_path);
    out.append(" daemon --io-timeout-ms ");
    push_decimal(&mut out, io_timeout_ms);
    out.append(" --max-size ");
    push_decimal(&mut out, max_size as u64);
    if let Some(path) = socket_path {
        out.append(" --socket-path ");
        let quoted = systemd_quote_arg(path);
        out.append(quoted.as_str());
    }
    out.append(UNIT_TAIL);
    assert(out@ =~= UNIT_HEAD@ + exec_line(bin_path@, opt_view(socket_path), max_size as nat, io_timeout_ms as nat)
        + UNIT_TAIL@);
    out
}

/// Where the client binaries go: on Windows under the local application data directory,
/// else under the home directory's `AppData/Local`; elsewhere in `~/.local/bin`.
pub fn default_install_dir_for(
    is_windows: bool,
    home: Option<&str>,
    local_app_data: Option<&str>,
) -> (r: Result<String, String>)
    ensures
        match r {
            Ok(dir) => if is_windows {
                match local_app_data {
                    Some(l) => dir@ == joined(joined(l@, "ssh_clipboard"@), "bin"@),
                    None => home matches Some(h) && dir@ == joined(joined(joined(joined(h@, "AppData"@), "Local"@), "ssh_clipboard"@), "bin"@),
                }
            } else {
                home matches Some(h) && dir@ == joined(joined(h@, ".local"@), "bin"@)
            },
            Err(_) => home is None && (!is_windows || local_app_data is None),
        },
{
    if is_windows {
        if let Some(l) = local_app_data {
            let a = join_path(l, "ssh_clipboard");
            return Ok(join_path(a.as_str(), "bin"));
        }
        let h = match home {
            Some(h) => h,
            None => return Err(String::from_str("cannot resolve home directory")),
        };
        let a = join_path(h, "AppData");
        let b = join_path(a.as_str(), "Local");
        let c = join_path(b.as_str(), "ssh_clipboard");
        Ok(join_path(c.as_str(), "bin"))
    } else {
        let h = match home {
            Some(h) => h,
            None => return Err(String::from_str("cannot resolve home directory")),
        };
        let a = join_path(h, ".local");
        Ok(join_path(a.as_str(), "bin"))
    }
}

/// Whether an OS error code from Windows means the file is in use (access denied or
/// sharing violation).
pub fn is_windows_file_in_use(raw_os_error: Option<i32>) -> (r: bool)
    ensures
        r == (raw_os_error == Some(5i32) || raw_os_error == Some(32i32)),
{
    match raw_os_error {
        Some(code) => code == 5 || code == 32,
        None => false,
    }
}

/// The code of `c` once ASCII upper case is mapped to lower case.
pub open spec fn lower_code(c: char) -> u32 {
    if 'A' <= c && c <= 'Z' {
        (c as u32 + 32) as u32
    } else {
        c as u32
    }
}

pub open spec fn occurs_at(s: Seq<char>, p: Seq<char>, i: int) -> bool {
    0 <= i && i + p.len() <= s.len() && forall|j: int| 0 <= j < p.len() ==> lower_code(#[trigger] s[i + j]) == p[j] as u32
}

/// Whether `p` occurs in `s` once `s` is put in ASCII lower case.
pub open spec fn contains_lowered(s: Seq<char>, p: Seq<char>) -> bool {
    exists|i: int| occurs_at(s, p, i)
}

fn lower_char_code(c: char) -> (r: u32)
    ensures
        r == lower_code(c),
{
    if 'A' <= c && c <= 'Z' {
        c as u32 + 32
    } else {
        c as u32
    }
}

/// Whether `pattern` occurs in `text` once `text` is put in ASCII lower case.
pub fn contains_ignoring_ascii_case(text: &str, pattern: &str) -> (r: bool)
    ensures
        r == contains_lowered(text@, pattern@),
{
    let n = text.unicode_len();
    let m = pattern.unicode_len();
    if m > n {
        return false;
    }
    let mut i: usize = 0;
    while i <= n - m
        invariant
            m <= n,
            n == text@.len(),
            m == pattern@.len(),
            forall|k: int| 0 <= k < i ==> !occurs_at(text@, pattern@, k),
        decreases n - m + 1 - i,
    {
        let mut j: usize = 0;
        let mut matched = true;
        while j < m
            invariant
                i + m <= n,
                n == text@.len(),
                m == pattern@.len(),
                j <= m,
                matched <==> forall|q: int| 0 <= q < j ==> lower_code(#[trigger] text@[i + q]) == pattern@[q] as u32,
            decreases m - j,
        {
            if lower_char_code(text.get_char(i + j)) != pattern.get_char(j) as u32 {
                matched = false;
            }
            j = j + 1;
        }
        if matched {
            assert(occurs_at(text@, pattern@, i as int));
            return true;
        }
        i = i + 1;
    }
    false
}

/// Whether a `taskkill` report says that there was no such process to stop.
pub fn taskkill_report_indicates_no_process(report: &str) -> (r: bool)
    ensures
        r == (contains_lowered(report@, "not found"@) || contains_lowered(report@, "no running instance"@)),
{
    contains_ignoring_ascii_case(report, "not found") || contains_ignoring_ascii_case(
        report,
        "no running instance",
    )
}

/// What an output summary shows: trimmed standard error if any, else trimmed standard
/// output if any, else `no output`.
pub open spec fn command_summary(stdout: Seq<char>, stderr: Seq<char>) -> Seq<char> {
    if trimmed(stderr).len() > 0 {
        trimmed(stderr)
    } else if trimmed(stdout).len() > 0 {
        trimmed(stdout)
    } else {
        "no output"@
    }
}

/// Summarises what a command printed.
pub fn summarize_command_output(stdout: &str, stderr: &str) -> (r: String)
    ensures
        r@ == command_summary(stdout@, stderr@),
{
    let out = trim_str(stdout);
    let err = trim_str(stderr);
    if err.unicode_len() > 0 {
        String::from_str(err)
    } else if out.unicode_len() > 0 {
        String::from_str(out)
    } else {
        String::from_str("no output")
    }
}

/// How one installer check ended.
#[derive(Debug, Clone, Copy, PartialEq, Eq, Structural)]
pub enum CheckStatus {
    Passed,
    Warn,
    Fail,
}

impl CheckStatus {
    pub fn label(self) -> (r: &'static str)
        ensures
            r@ == match self {
                CheckStatus::Passed => "ok"@,
                CheckStatus::Warn => "warn"@,
                CheckStatus::Fail => "fail"@,
            },
    {
        match self {
            CheckStatus::Passed => "ok",
            CheckStatus::Warn => "warn",
            CheckStatus::Fail => "fail",
        }
    }
}

/// One line of an installer report.
#[derive(Debug, Clone)]
pub struct CheckOutcome {
    pub name: String,
    pub status: CheckStatus,
    pub detail: String,
    pub hint: Option<String>,
}

impl CheckOutcome {
    pub fn ok(name: String, detail: String) -> (r: Self)
        ensures
            r.name == name && r.status == CheckStatus::Passed && r.detail == detail && r.hint is None,
    {
        CheckOutcome { name, status: CheckStatus::Passed, detail, hint: None }
    }

    pub fn warn(name: String, detail: String, hint: String) -> (r: Self)
        ensures
            r.name == name && r.status == CheckStatus::Warn && r.detail == detail && r.hint == Some(hint),
    {
        CheckOutcome { name, status: CheckStatus::Warn, detail, hint: Some(hint) }
    }

    pub fn fail(name: String, detail: String, hint: Option<String>) -> (r: Self)
        ensures
            r.name == name && r.status == CheckStatus::Fail && r.detail == detail && r.hint == hint,
    {
        CheckOutcome { name, status: CheckStatus::Fail, detail, hint }
    }
}

/// `s` as an AppleScript string literal: in double quotes, with backslashes, quotes and
/// newlines escaped.
pub open spec fn apple_escaped(s: Seq<char>) -> Seq<char>
    decreases s.len(),
{
    if s.len() == 0 {
        Seq::empty()
    } else {
        apple_escaped(s.drop_last()) + if s.last() == '\\' {
            seq!['\\', '\\']
        } else if s.last() == '"' {
            seq!['\\', '"']
        } else if s.last() == '\n' {
            seq!['\\', 'n']
        } else {
            seq![s.last()]
        }
    }
}

/// Quotes a string for an AppleScript command.
pub fn apple_script_string(value: &str) -> (r: String)
    ensures
        r@ == seq!['"'] + apple_escaped(value@) + seq!['"'],
{
    proof {
        reveal_strlit("\"");
    }
    let mut out = String::from_str("\"");
    let n = value.unicode_len();
    let mut i: usize = 0;
    assert(value@.subrange(0, 0) =~= Seq::<char>::empty());
    while i < n
        invariant
            i <= n == value@.len(),
            out@ == seq!['"'] + apple_escaped(value@.subrange(0, i as int)),
        decreases n - i,
    {
        proof {
            reveal_strlit("\\\\");
            reveal_strlit("\\\"");
            reveal_strlit("\\n");
        }
        let c = value.get_char(i);
        let ghost after = value@.subrange(0, i + 1);
        assert(after.drop_last() =~= value@.subrange(0, i as int));
        if c == '\\' {
            out.append("\\\\");
        } else if c == '"' {
            out.append("\\\"");
        } else if c == '\n' {
            out.append("\\n");
        } else {
            let one = value.substring_char(i, i + 1);
            out.append(one);
        }
        assert(out@ =~= seq!['"'] + apple_escaped(after));
        i = i + 1;
    }
    assert(value@.subrange(0, n as int) =~= value@);
    proof {
        reveal_strlit("\"");
    }
    out.append("\"");
    out
}

} // verus!
