//! The client's view of where to connect and how to label requests.
use vstd::prelude::*;
use crate::path_list::views;
use crate::protocol::{
    error_response, ErrorCode, Request, RequestKind, Response, ResponseKindModel, ResponseModel,
    DEFAULT_MAX_SIZE,
};
use crate::text::{
    decimal, push_decimal,
    all_digits, count_char, count_from, decimal_value, find_last, last_index,
    lemma_count_witness, lemma_last_index_bounds, parse_port, trim_str, trimmed,
};

verus! {

/// How to reach the remote host over SSH.
#[derive(Debug, Clone)]
pub struct SshConfig {
    pub target: String,
    pub port: Option<u16>,
    pub user: Option<String>,
    pub host: Option<String>,
    pub identity_file: Option<String>,
    pub ssh_options: Vec<String>,
    pub ssh_bin: Option<String>,
}

#[derive(Debug, Clone)]
pub struct ClientConfig {
    pub ssh: SshConfig,
    pub max_size: usize,
    pub timeout_ms: u64,
    /// Whether responses are read in resynchronising mode.
    pub resync_frames: bool,
    /// How many noise bytes the resynchronising reader may skip.
    pub resync_max_bytes: usize,
}

/// Client settings as given on the command line.
#[derive(Debug, Clone)]
pub struct ClientConfigArgs {
    pub target: Option<String>,
    pub host: Option<String>,
    pub user: Option<String>,
    pub port: Option<u16>,
    pub identity_file: Option<String>,
    pub ssh_option: Vec<String>,
    pub ssh_bin: Option<String>,
    pub max_size: usize,
    pub timeout_ms: u64,
    pub strict_frames: bool,
    pub resync_max_bytes: usize,
}

/// The client settings that command-line arguments give: a missing target is empty, and
/// frames are resynchronised unless strict frames are asked for.
pub fn build_client_config(args: ClientConfigArgs) -> (c: ClientConfig)
    ensures
        c.ssh.target@ == match args.target {
            Some(t) => t@,
            None => Seq::empty(),
        },
        c.ssh.port == args.port,
        c.ssh.user == args.user,
        c.ssh.host == args.host,
        c.ssh.identity_file == args.identity_file,
        c.ssh.ssh_options == args.ssh_option,
        c.ssh.ssh_bin == args.ssh_bin,
        c.max_size == args.max_size,
        c.timeout_ms == args.timeout_ms,
        c.resync_frames == !args.strict_frames,
        c.resync_max_bytes == args.resync_max_bytes,
{
    let target = match args.target {
        Some(t) => t,
        None => String::new(),
    };
    ClientConfig {
        ssh: SshConfig {
            target,
            port: args.port,
            user: args.user,
            host: args.host,
            identity_file: args.identity_file,
            ssh_options: args.ssh_option,
            ssh_bin: args.ssh_bin,
        },
        max_size: args.max_size,
        timeout_ms: args.timeout_ms,
        resync_frames: !args.strict_frames,
        resync_max_bytes: args.resync_max_bytes,
    }
}

/// The target that a configuration names: `target` when set, else `user@host` or `host`.
pub open spec fn target_of(
    target: Seq<char>,
    user: Option<Seq<char>>,
    host: Option<Seq<char>>,
) -> Seq<char> {
    if target.len() > 0 {
        target
    } else {
        match (user, host) {
            (Some(u), Some(h)) => u + seq!['@'] + h,
            (None, Some(h)) => h,
            _ => Seq::empty(),
        }
    }
}

pub open spec fn opt_str(o: Option<String>) -> Option<Seq<char>> {
    match o {
        Some(s) => Some(s@),
        None => None,
    }
}

/// Splits an inline `:port` off a trimmed target. The port is taken only when the host part
/// (after the last `@`) holds exactly one `:` and what follows the last `:` is a decimal
/// number that fits in 16 bits; otherwise the target stays whole.
pub open spec fn split_spec(t: Seq<char>) -> (Seq<char>, Option<u16>) {
    let host = t.subrange(last_index(t, '@') + 1, t.len() as int);
    let k = last_index(t, ':');
    let port = t.subrange(k + 1, t.len() as int);
    if t.len() == 0 || count_char(host, ':') != 1 || port.len() == 0 || !all_digits(port)
        || decimal_value(port) > 65535 {
        (t, None)
    } else {
        (t.subrange(0, k), Some(decimal_value(port) as u16))
    }
}

impl SshConfig {
    /// The target to hand to `ssh`.
    pub fn resolve_target(&self) -> (r: String)
        ensures
            r@ == target_of(self.target@, opt_str(self.user), opt_str(self.host)),
    {
        if self.target.unicode_len() > 0 {
            return self.target.clone();
        }
        match (&self.user, &self.host) {
            (Some(user), Some(host)) => {
                let mut s = user.clone();
                s.append("@");
                s.append(host.as_str());
                proof {
                    reveal_strlit("@");
                }
                s
            },
            (None, Some(host)) => host.clone(),
            _ => String::new(),
        }
    }
}

/// Trims `target` and splits an inline port off it.
pub fn split_target_and_port(target: &str) -> (r: (String, Option<u16>))
    ensures
        (r.0@, r.1) == split_spec(trimmed(target@)),
{
    let t = trim_str(target);
    let n = t.unicode_len();
    if n == 0 {
        return (String::from_str(t), None);
    }
    proof {
        lemma_last_index_bounds(t@, '@');
        lemma_last_index_bounds(t@, ':');
    }
    let host_start: usize = match find_last(t, '@') {
        Some(i) => i + 1,
        None => 0,
    };
    if count_from(t, host_start, ':') != 1 {
        return (String::from_str(t), None);
    }
    proof {
        let host = t@.subrange(host_start as int, n as int);
        lemma_count_witness(host, ':');
        let i = choose|i: int| 0 <= i < host.len() && host[i] == ':';
        assert(t@[host_start + i] == ':');
    }
    let k = match find_last(t, ':') {
        Some(k) => k,
        None => return (String::from_str(t), None),
    };
    let port_str = t.substring_char(k + 1, n);
    match parse_port(port_str) {
        Some(port) => (String::from_str(t.substring_char(0, k)), Some(port)),
        None => (String::from_str(t), None),
    }
}

/// The target and port to connect to: an explicit port wins over one written in the target.
pub fn resolve_target_and_port(config: &SshConfig) -> (r: (String, Option<u16>))
    ensures
        ({
            let (t, p) = split_spec(
                trimmed(target_of(config.target@, opt_str(config.user), opt_str(config.host))),
            );
            r.0@ == t && r.1 == match config.port {
                Some(q) => Some(q),
                None => p,
            }
        }),
{
    let (target, target_port) = split_target_and_port(config.resolve_target().as_str());
    let port = match config.port {
        Some(q) => Some(q),
        None => target_port,
    };
    (target, port)
}

/// `-o OPTION` for each SSH option, in order.
pub open spec fn option_pairs(options: Seq<Seq<char>>) -> Seq<Seq<char>>
    decreases options.len(),
{
    if options.len() == 0 {
        Seq::empty()
    } else {
        option_pairs(options.drop_last()) + seq!["-o"@, options.last()]
    }
}

/// The arguments of `ssh` that run the remote proxy: `-T`, the port, the identity file and
/// the options when given, then the target and `ssh_clipboard proxy`.
pub open spec fn ssh_arg_list(
    target: Seq<char>,
    port: Option<u16>,
    identity_file: Option<Seq<char>>,
    options: Seq<Seq<char>>,
) -> Seq<Seq<char>> {
    seq!["-T"@] + match port {
        Some(p) => seq!["-p"@, decimal(p as nat)],
        None => Seq::empty(),
    } + match identity_file {
        Some(f) => seq!["-i"@, f],
        None => Seq::empty(),
    } + option_pairs(options) + seq![target, "ssh_clipboard"@, "proxy"@]
}

fn push_text(v: &mut Vec<String>, s: &str)
    ensures
        views(final(v)@) == views(old(v)@).push(s@),
{
    v.push(String::from_str(s));
    assert(views(final(v)@) =~= views(old(v)@).push(s@));
}

fn push_string(v: &mut Vec<String>, s: String)
    ensures
        views(final(v)@) == views(old(v)@).push(s@),
{
    let ghost sv = s@;
    v.push(s);
    assert(views(final(v)@) =~= views(old(v)@).push(sv));
}

/// The `ssh` arguments for a configuration, or an error when no target resolves.
pub fn ssh_args(config: &SshConfig) -> (r: Result<Vec<String>, String>)
    ensures
        ({
            let (t, p) = split_spec(
                trimmed(target_of(config.target@, opt_str(config.user), opt_str(config.host))),
            );
            let port = match config.port {
                Some(q) => Some(q),
                None => p,
            };
            match r {
                Ok(args) => trimmed(t).len() > 0 && views(args@) == ssh_arg_list(
                    t,
                    port,
                    opt_str(config.identity_file),
                    views(config.ssh_options@),
                ),
                Err(m) => trimmed(t).len() == 0 && m@ == "missing SSH target (use --target or --host)"@,
            }
        }),
{
    let (target, port) = resolve_target_and_port(config);
    if trim_str(target.as_str()).unicode_len() == 0 {
        return Err(String::from_str("missing SSH target (use --target or --host)"));
    }
    let mut args: Vec<String> = Vec::new();
    push_text(&mut args, "-T");
    let ghost after_t = views(args@);
    if let Some(p) = port {
        push_text(&mut args, "-p");
        let mut digits = String::new();
        push_decimal(&mut digits, p as u64);
        assert(Seq::<char>::empty() + decimal(p as nat) =~= decimal(p as nat));
        push_string(&mut args, digits);
        assert(views(args@) =~= after_t + seq!["-p"@, decimal(p as nat)]);
    }
    let ghost after_p = views(args@);
    if let Some(f) = &config.identity_file {
        push_text(&mut args, "-i");
        push_string(&mut args, f.clone());
        assert(views(args@) =~= after_p + seq!["-i"@, f@]);
    }
    let ghost head = views(args@);
    assert(head =~= seq!["-T"@] + match port {
        Some(p) => seq!["-p"@, decimal(p as nat)],
        None => Seq::<Seq<char>>::empty(),
    } + match config.identity_file {
        Some(f) => seq!["-i"@, f@],
        None => Seq::<Seq<char>>::empty(),
    });
    let options = &config.ssh_options;
    let mut i: usize = 0;
    assert(views(options@).subrange(0, 0) =~= Seq::<Seq<char>>::empty());
    while i < options.len()
        invariant
            i <= options@.len(),
            views(args@) == head + option_pairs(views(options@).subrange(0, i as int)),
        decreases options@.len() - i,
    {
        assert(views(options@).subrange(0, i + 1).drop_last() =~= views(options@).subrange(0, i as int));
        let ghost before = views(args@);
        push_text(&mut args, "-o");
        push_string(&mut args, options[i].clone());
        assert(views(args@) =~= before + seq!["-o"@, options@[i as int]@]);
        assert(views(options@)[i as int] == options@[i as int]@);
        assert(views(args@) =~= head + option_pairs(views(options@).subrange(0, i + 1)));
        i = i + 1;
    }
    assert(views(options@).subrange(0, options@.len() as int) =~= views(options@));
    push_string(&mut args, target);
    push_text(&mut args, "ssh_clipboard");
    push_text(&mut args, "proxy");
    assert(views(args@) =~= ssh_arg_list(
        split_spec(trimmed(target_of(config.target@, opt_str(config.user), opt_str(config.host)))).0,
        port,
        opt_str(config.identity_file),
        views(config.ssh_options@),
    ));
    Ok(args)
}

/// The reply the client gives itself, without contacting the host, when an encoded request
/// is larger than the size bound.
pub fn oversize_reply(request_id: u64, payload_len: usize, max_size: usize) -> (r: Option<Response>)
    ensures
        r is Some <==> payload_len > max_size,
        r matches Some(resp) ==> resp@ == (ResponseModel {
            request_id,
            kind: ResponseKindModel::Error {
                code: ErrorCode::PayloadTooLarge,
                message: "payload too large"@,
            },
        }),
{
    if payload_len > max_size {
        Some(error_response(request_id, ErrorCode::PayloadTooLarge, String::from_str("payload too large")))
    } else {
        None
    }
}

impl ClientConfig {
    /// The size bound, with 0 meaning the default.
    pub fn normalized_max_size(&self) -> (r: usize)
        ensures
            r == if self.max_size == 0 {
                DEFAULT_MAX_SIZE
            } else {
                self.max_size
            },
    {
        if self.max_size == 0 {
            DEFAULT_MAX_SIZE
        } else {
            self.max_size
        }
    }
}

/// Relies on `SystemTime::now` and `duration_since(UNIX_EPOCH)`: milliseconds since the UNIX
/// epoch as the system clock tells them (0 for a clock set before it). Nothing is promised
/// of the value.
#[verifier::external_body]
pub(crate) fn epoch_millis() -> (r: u64) {
    std::time::SystemTime::now()
        .duration_since(std::time::UNIX_EPOCH)
        .unwrap_or_default()
        .as_millis() as u64
}

/// A request id from a time in milliseconds and a sequence number: the time in the high
/// bits, the low 16 bits of the sequence number in the low bits.
pub fn compose_request_id(now_ms: u64, sequence: u64) -> (r: u64)
    ensures
        r == ((now_ms << 16u64) | (sequence & 0xffffu64)),
{
    (now_ms << 16u64) | (sequence & 0xffffu64)
}

/// A fresh request id: the current time and the low 16 bits of `sequence`.
pub fn new_request_id(sequence: u64) -> (r: u64)
    ensures
        r & 0xffffu64 == sequence & 0xffffu64,
{
    let now = epoch_millis();
    let r = compose_request_id(now, sequence);
    assert(((now << 16u64) | (sequence & 0xffffu64)) & 0xffffu64 == sequence & 0xffffu64)
        by (bit_vector);
    r
}

/// A request of the given kind under a fresh id.
pub fn make_request(kind: RequestKind, sequence: u64) -> (r: Request)
    ensures
        r.kind == kind,
        r.request_id & 0xffffu64 == sequence & 0xffffu64,
{
    Request { request_id: new_request_id(sequence), kind }
}

} // verus!
