//! What the one-shot proxy decides: its exit code, the reply it makes up when the daemon
//! cannot be reached, and when to start the daemon, retry, or give up connecting.
use vstd::prelude::*;
use crate::codec::{decode_request, decode_response, decoded_request, decoded_response, encode_response, response_bytes};
use crate::protocol::{
    error_response, ErrorCode, ResponseKind, ResponseKindModel, ResponseModel, RESPONSE_OVERHEAD,
};

verus! {

pub const EXIT_OK: i32 = 0;

pub const EXIT_INVALID_REQUEST: i32 = 2;

pub const EXIT_PAYLOAD_TOO_LARGE: i32 = 3;

pub const EXIT_DAEMON_NOT_RUNNING: i32 = 4;

pub const EXIT_INTERNAL: i32 = 5;

/// Connection attempts before the proxy gives up when autostart is on.
pub const MAX_CONNECT_ATTEMPTS: usize = 3;

/// Pause between connection attempts, in milliseconds.
pub const CONNECT_BACKOFF_MS: u64 = 200;

pub open spec fn exit_code_for(code: ErrorCode) -> i32 {
    match code {
        ErrorCode::InvalidRequest => 2,
        ErrorCode::PayloadTooLarge => 3,
        ErrorCode::InvalidUtf8 => 2,
        ErrorCode::DaemonNotRunning => 4,
        ErrorCode::VersionMismatch => 2,
        ErrorCode::Internal => 5,
    }
}

/// The process exit code for an error code carried by a response.
pub fn map_error_code(code: ErrorCode) -> (r: i32)
    ensures
        r == exit_code_for(code),
{
    match code {
        ErrorCode::InvalidRequest => EXIT_INVALID_REQUEST,
        ErrorCode::PayloadTooLarge => EXIT_PAYLOAD_TOO_LARGE,
        ErrorCode::InvalidUtf8 => EXIT_INVALID_REQUEST,
        ErrorCode::DaemonNotRunning => EXIT_DAEMON_NOT_RUNNING,
        ErrorCode::VersionMismatch => EXIT_INVALID_REQUEST,
        ErrorCode::Internal => EXIT_INTERNAL,
    }
}

/// The exit code for a relayed response payload: the mapped code of an error, 0 for any
/// other response, and the internal code when the payload does not decode.
pub fn response_exit_code(payload: &[u8]) -> (r: i32)
    ensures
        r == match decoded_response(payload@) {
            Some(resp) => match resp.kind {
                ResponseKindModel::Error { code, .. } => exit_code_for(code),
                _ => 0,
            },
            None => 5,
        },
{
    match decode_response(payload) {
        Some(resp) => match resp.kind {
            ResponseKind::Error { code, .. } => map_error_code(code),
            _ => EXIT_OK,
        },
        None => EXIT_INTERNAL,
    }
}

/// The request id carried by a request payload, or 0 when it does not decode.
pub open spec fn request_id_of(payload: Seq<u8>) -> u64 {
    match decoded_request(payload) {
        Some(r) => r.request_id,
        None => 0,
    }
}

/// Reads the request id out of a request payload; 0 when the payload does not decode.
pub fn request_id_from_payload(payload: &[u8]) -> (id: u64)
    ensures
        id == request_id_of(payload@),
{
    match decode_request(payload) {
        Some(r) => r.request_id,
        None => 0,
    }
}

/// The encoded reply that the proxy sends itself when the daemon cannot be reached: a
/// `daemon_not_running` error that carries the request's id (0 if it does not decode).
pub fn daemon_down_reply(request_payload: &[u8], message: String) -> (out: Vec<u8>)
    ensures
        out@ == response_bytes(
            ResponseModel {
                request_id: request_id_of(request_payload@),
                kind: ResponseKindModel::Error {
                    code: ErrorCode::DaemonNotRunning,
                    message: message@,
                },
            },
        ),
{
    let id = request_id_from_payload(request_payload);
    encode_response(&error_response(id, ErrorCode::DaemonNotRunning, message))
}

/// What the proxy writes and exits with when the request could not be read from its input
/// (a framing error, an I/O error or a timeout): an `internal` error carrying `detail`, with
/// request id 0, and the internal exit code.
pub fn unreadable_request_reply(detail: String) -> (r: (Vec<u8>, i32))
    ensures
        r.0@ == response_bytes(
            ResponseModel {
                request_id: 0,
                kind: ResponseKindModel::Error { code: ErrorCode::Internal, message: detail@ },
            },
        ),
        r.1 == EXIT_INTERNAL,
{
    (encode_response(&error_response(0, ErrorCode::Internal, detail)), EXIT_INTERNAL)
}

/// The largest response payload the proxy accepts from the daemon.
pub fn response_bound(max_size: usize) -> (r: usize)
    ensures
        r == if max_size + RESPONSE_OVERHEAD <= usize::MAX {
            (max_size + RESPONSE_OVERHEAD) as usize
        } else {
            usize::MAX
        },
{
    if max_size <= usize::MAX - RESPONSE_OVERHEAD {
        max_size + RESPONSE_OVERHEAD
    } else {
        usize::MAX
    }
}

/// How an attempt to connect to the daemon's socket ended.
#[derive(Debug, Clone, Copy, PartialEq, Eq, Structural)]
pub enum ConnectEvent {
    Connected,
    Refused,
    TimedOut,
}

/// Why the proxy stopped trying to reach the daemon.
#[derive(Debug, Clone, Copy, PartialEq, Eq, Structural)]
pub enum ConnectFailure {
    Timeout,
    Failed,
    AutostartFailed,
}

/// What to do after an attempt.
#[derive(Debug, Clone, Copy, PartialEq, Eq, Structural)]
pub enum ConnectAction {
    /// Use the connection that was made.
    Proceed,
    /// Start the daemon, report how that went, then wait and try again.
    SpawnDaemon,
    /// Wait and try again.
    Retry,
    /// Stop and report the daemon as not running.
    GiveUp(ConnectFailure),
}

/// The connection attempts of one proxy run.
pub struct ConnectPlan {
    pub autostart: bool,
    pub attempts: usize,
    pub started: bool,
}

impl ConnectPlan {
    pub open spec fn wf(&self) -> bool {
        self.attempts <= MAX_CONNECT_ATTEMPTS && (!self.autostart ==> !self.started)
    }

    pub fn new(autostart: bool) -> (p: Self)
        ensures
            p.wf(),
            p.autostart == autostart,
            p.attempts == 0,
            !p.started,
    {
        ConnectPlan { autostart, attempts: 0, started: false }
    }

    /// Decides after an attempt. Without autostart the first failure ends it; with autostart
    /// the first refusal starts the daemon, and no more than three attempts are made.
    pub fn on_attempt(&mut self, event: ConnectEvent) -> (a: ConnectAction)
        requires
            old(self).wf(),
            old(self).attempts < MAX_CONNECT_ATTEMPTS,
        ensures
            final(self).wf(),
            final(self).autostart == old(self).autostart,
            final(self).attempts == old(self).attempts + 1,
            final(self).started == old(self).started,
            a == match event {
                ConnectEvent::Connected => ConnectAction::Proceed,
                ConnectEvent::Refused => if old(self).autostart && !old(self).started
                    && final(self).attempts < MAX_CONNECT_ATTEMPTS {
                    ConnectAction::SpawnDaemon
                } else if !old(self).autostart || final(self).attempts >= MAX_CONNECT_ATTEMPTS {
                    ConnectAction::GiveUp(ConnectFailure::Failed)
                } else {
                    ConnectAction::Retry
                },
                ConnectEvent::TimedOut => if !old(self).autostart || final(self).attempts
                    >= MAX_CONNECT_ATTEMPTS {
                    ConnectAction::GiveUp(ConnectFailure::Timeout)
                } else {
                    ConnectAction::Retry
                },
            },
            a is Retry || a is SpawnDaemon ==> final(self).attempts < MAX_CONNECT_ATTEMPTS,
    {
        self.attempts = self.attempts + 1;
        match event {
            ConnectEvent::Connected => ConnectAction::Proceed,
            ConnectEvent::Refused => {
                if self.autostart && !self.started && self.attempts < MAX_CONNECT_ATTEMPTS {
                    ConnectAction::SpawnDaemon
                } else if !self.autostart || self.attempts >= MAX_CONNECT_ATTEMPTS {
                    ConnectAction::GiveUp(ConnectFailure::Failed)
                } else {
                    ConnectAction::Retry
                }
            },
            ConnectEvent::TimedOut => {
                if !self.autostart || self.attempts >= MAX_CONNECT_ATTEMPTS {
                    ConnectAction::GiveUp(ConnectFailure::Timeout)
                } else {
                    ConnectAction::Retry
                }
            },
        }
    }

    /// Decides after the daemon was started, or failed to start.
    pub fn on_spawn(&mut self, spawned: bool) -> (a: ConnectAction)
        requires
            old(self).wf(),
            old(self).autostart,
            !old(self).started,
            old(self).attempts < MAX_CONNECT_ATTEMPTS,
        ensures
            final(self).wf(),
            final(self).autostart == old(self).autostart,
            final(self).attempts == old(self).attempts,
            final(self).started == spawned,
            a == if spawned {
                ConnectAction::Retry
            } else {
                ConnectAction::GiveUp(ConnectFailure::AutostartFailed)
            },
    {
        if spawned {
            self.started = true;
            ConnectAction::Retry
        } else {
            ConnectAction::GiveUp(ConnectFailure::AutostartFailed)
        }
    }
}

} // verus!
