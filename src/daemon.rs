//! What the daemon decides: validation of stored values, the single-value store and its
//! replies, and the translation of read failures into protocol errors.
use vstd::prelude::*;
use vstd::utf8::valid_utf8;
use crate::codec::{decode_request, decoded_request, encode_response, response_bytes};
use crate::framing::FramingError;
use crate::protocol::{
    error_response, ClipboardValue, ErrorCode, Request, RequestKind, RequestKindModel,
    RequestModel, Response, ResponseKind, ResponseKindModel, ResponseModel, ValueModel,
    CONTENT_TYPE_PNG, CONTENT_TYPE_TEXT,
};
use crate::text::{decimal, join_path, joined, push_decimal};
use crate::wire::is_utf8;

verus! {

/// Why a `SetValue` was refused.
#[derive(Debug, Clone, Copy, PartialEq, Eq, Structural)]
pub enum DaemonError {
    InvalidContentType,
    InvalidUtf8,
    PayloadTooLarge,
}

pub open spec fn is_text_type(ct: Seq<char>) -> bool {
    ct == CONTENT_TYPE_TEXT@
}

pub open spec fn is_png_type(ct: Seq<char>) -> bool {
    ct == CONTENT_TYPE_PNG@
}

/// The first rule that a value breaks, if any: content type, then size, then UTF-8 of text.
pub open spec fn set_check(v: ValueModel, max: nat) -> Option<DaemonError> {
    if !is_text_type(v.content_type) && !is_png_type(v.content_type) {
        Some(DaemonError::InvalidContentType)
    } else if v.data.len() > max {
        Some(DaemonError::PayloadTooLarge)
    } else if is_text_type(v.content_type) && !valid_utf8(v.data) {
        Some(DaemonError::InvalidUtf8)
    } else {
        None
    }
}

pub open spec fn error_kind(code: ErrorCode, message: Seq<char>) -> ResponseKindModel {
    ResponseKindModel::Error { code, message }
}

/// The reply to a refused value.
pub open spec fn refusal(e: DaemonError) -> ResponseKindModel {
    match e {
        DaemonError::InvalidContentType => error_kind(
            ErrorCode::InvalidRequest,
            "invalid content type"@,
        ),
        DaemonError::InvalidUtf8 => error_kind(ErrorCode::InvalidUtf8, "invalid utf-8"@),
        DaemonError::PayloadTooLarge => error_kind(
            ErrorCode::PayloadTooLarge,
            "payload too large"@,
        ),
    }
}

/// The reply to `kind` when `stored` is held, and what is held afterwards.
pub open spec fn step(stored: Option<ValueModel>, kind: RequestKindModel, max: nat) -> (
    Option<ValueModel>,
    ResponseKindModel,
) {
    match kind {
        RequestKindModel::Get => (
            stored,
            match stored {
                Some(v) => ResponseKindModel::Value { value: v },
                None => ResponseKindModel::Empty,
            },
        ),
        RequestKindModel::PeekMeta => (
            stored,
            match stored {
                Some(v) => ResponseKindModel::Meta {
                    content_type: v.content_type,
                    size: v.data.len() as u64,
                    created_at: v.created_at,
                },
                None => ResponseKindModel::Empty,
            },
        ),
        RequestKindModel::SetValue { value } => match set_check(value, max) {
            None => (Some(value), ResponseKindModel::Success),
            Some(e) => (stored, refusal(e)),
        },
    }
}

fn same_text(s: &String, expected: &str) -> (r: bool)
    ensures
        r == (s@ == expected@),
{
    let e = String::from_str(expected);
    *s == e
}

/// Checks a value before it is stored; the first rule broken wins.
pub fn validate_set(value: &ClipboardValue, max_size: usize) -> (r: Result<(), DaemonError>)
    ensures
        r == match set_check(value@, max_size as nat) {
            Some(e) => Err::<(), DaemonError>(e),
            None => Ok(()),
        },
{
    let text = same_text(&value.content_type, CONTENT_TYPE_TEXT);
    let png = same_text(&value.content_type, CONTENT_TYPE_PNG);
    if !text && !png {
        return Err(DaemonError::InvalidContentType);
    }
    if value.data.len() > max_size {
        return Err(DaemonError::PayloadTooLarge);
    }
    if text && !is_utf8(value.data.as_slice()) {
        return Err(DaemonError::InvalidUtf8);
    }
    Ok(())
}

/// The error reply for a refused value.
pub fn to_error_response(err: DaemonError) -> (r: ResponseKind)
    ensures
        r@ == refusal(err),
{
    match err {
        DaemonError::InvalidContentType => ResponseKind::Error {
            code: ErrorCode::InvalidRequest,
            message: String::from_str("invalid content type"),
        },
        DaemonError::InvalidUtf8 => ResponseKind::Error {
            code: ErrorCode::InvalidUtf8,
            message: String::from_str("invalid utf-8"),
        },
        DaemonError::PayloadTooLarge => ResponseKind::Error {
            code: ErrorCode::PayloadTooLarge,
            message: String::from_str("payload too large"),
        },
    }
}

/// The protocol error code for a framing error met while reading a request.
pub open spec fn framing_error_code(e: FramingError) -> ErrorCode {
    match e {
        FramingError::InvalidMagic => ErrorCode::InvalidRequest,
        FramingError::MagicNotFound => ErrorCode::InvalidRequest,
        FramingError::UnsupportedVersion(_) => ErrorCode::VersionMismatch,
        FramingError::PayloadTooLarge(_) => ErrorCode::PayloadTooLarge,
    }
}

/// The message that goes with a framing error.
pub open spec fn framing_error_message(e: FramingError) -> Seq<char> {
    match e {
        FramingError::InvalidMagic => "invalid framing: invalid magic"@,
        FramingError::MagicNotFound => "invalid framing: magic not found within scan limit"@,
        FramingError::UnsupportedVersion(v) => "version mismatch: unsupported version "@ + decimal(
            v as nat,
        ),
        FramingError::PayloadTooLarge(n) => "payload too large: "@ + decimal(n as nat)
            + " bytes"@,
    }
}

/// The reply to a request whose frame could not be read.
pub fn framing_error_response(err: &FramingError, request_id: u64) -> (r: Response)
    ensures
        r@ == (ResponseModel {
            request_id,
            kind: error_kind(framing_error_code(*err), framing_error_message(*err)),
        }),
{
    match err {
        FramingError::InvalidMagic => error_response(
            request_id,
            ErrorCode::InvalidRequest,
            String::from_str("invalid framing: invalid magic"),
        ),
        FramingError::MagicNotFound => error_response(
            request_id,
            ErrorCode::InvalidRequest,
            String::from_str("invalid framing: magic not found within scan limit"),
        ),
        FramingError::UnsupportedVersion(v) => {
            let mut message = String::from_str("version mismatch: unsupported version ");
            push_decimal(&mut message, *v as u64);
            error_response(request_id, ErrorCode::VersionMismatch, message)
        },
        FramingError::PayloadTooLarge(n) => {
            let mut message = String::from_str("payload too large: ");
            push_decimal(&mut message, *n as u64);
            message.append(" bytes");
            error_response(request_id, ErrorCode::PayloadTooLarge, message)
        },
    }
}

/// The reply when reading a request failed: a framing error is translated, any other
/// failure (an I/O error, a timeout) is an internal error carrying `detail`. No request was
/// read, so the id is 0.
pub fn read_failure_response(framing: Option<FramingError>, detail: String) -> (r: Response)
    ensures
        r@ == match framing {
            Some(e) => ResponseModel {
                request_id: 0,
                kind: error_kind(framing_error_code(e), framing_error_message(e)),
            },
            None => ResponseModel {
                request_id: 0,
                kind: error_kind(ErrorCode::Internal, detail@),
            },
        },
{
    match framing {
        Some(e) => framing_error_response(&e, 0),
        None => error_response(0, ErrorCode::Internal, detail),
    }
}

/// The directory, under a base directory, that holds the socket of user `uid`.
pub open spec fn user_dir_name(uid: u32) -> Seq<char> {
    "ssh_clipboard-"@ + decimal(uid as nat)
}

/// Where the daemon's socket lives by default: under `$XDG_RUNTIME_DIR/ssh_clipboard`, else in
/// a per-user directory under `$TMPDIR`, else under `/tmp`.
pub open spec fn default_socket_path_for(
    xdg_runtime_dir: Option<Seq<char>>,
    tmpdir: Option<Seq<char>>,
    uid: u32,
) -> Seq<char> {
    match xdg_runtime_dir {
        Some(dir) => joined(joined(dir, "ssh_clipboard"@), "daemon.sock"@),
        None => match tmpdir {
            Some(dir) => joined(joined(dir, user_dir_name(uid)), "daemon.sock"@),
            None => joined(joined("/tmp"@, user_dir_name(uid)), "daemon.sock"@),
        },
    }
}

/// The default socket path, from the values of `XDG_RUNTIME_DIR` and `TMPDIR` (when set) and
/// the user id.
pub fn socket_path_for(xdg_runtime_dir: Option<&str>, tmpdir: Option<&str>, uid: u32) -> (r: String)
    ensures
        r@ == default_socket_path_for(
            match xdg_runtime_dir {
                Some(d) => Some(d@),
                None => None,
            },
            match tmpdir {
                Some(d) => Some(d@),
                None => None,
            },
            uid,
        ),
{
    if let Some(dir) = xdg_runtime_dir {
        let base = join_path(dir, "ssh_clipboard");
        return join_path(base.as_str(), "daemon.sock");
    }
    let mut user_dir = String::from_str("ssh_clipboard-");
    push_decimal(&mut user_dir, uid as u64);
    let base = match tmpdir {
        Some(dir) => join_path(dir, user_dir.as_str()),
        None => join_path("/tmp", user_dir.as_str()),
    };
    join_path(base.as_str(), "daemon.sock")
}

/// Whether a connecting peer runs as the daemon's own user.
pub fn peer_uid_matches(actual: u32, expected: u32) -> (r: bool)
    ensures
        r == (actual == expected),
{
    actual == expected
}

/// The reply to a peer, if it must be turned away: one whose user differs from the daemon's
/// gets a single `invalid_request` error carrying request id 0, and nothing else is done.
pub fn peer_rejection(actual: u32, expected: u32) -> (r: Option<Response>)
    ensures
        r is Some <==> actual != expected,
        r matches Some(resp) ==> resp@ == (ResponseModel {
            request_id: 0,
            kind: error_kind(ErrorCode::InvalidRequest, "peer credential check failed"@),
        }),
{
    if peer_uid_matches(actual, expected) {
        None
    } else {
        Some(
            error_response(0, ErrorCode::InvalidRequest, String::from_str("peer credential check failed")),
        )
    }
}

/// The daemon's one clipboard value and the size bound it enforces.
pub struct ClipboardState {
    value: Option<ClipboardValue>,
    max_size: usize,
}

pub open spec fn opt_model(v: Option<ClipboardValue>) -> Option<ValueModel> {
    match v {
        Some(x) => Some(x@),
        None => None,
    }
}

impl ClipboardState {
    pub closed spec fn stored(&self) -> Option<ValueModel> {
        opt_model(self.value)
    }

    pub closed spec fn bound(&self) -> nat {
        self.max_size as nat
    }

    /// A stored value always passes the checks of `validate_set`.
    pub closed spec fn wf(&self) -> bool {
        match self.value {
            Some(v) => set_check(v@, self.max_size as nat) is None,
            None => true,
        }
    }

    /// An empty store that accepts values of at most `max_size` bytes.
    pub fn new(max_size: usize) -> (s: Self)
        ensures
            s.wf(),
            s.stored() is None,
            s.bound() == max_size,
    {
        ClipboardState { value: None, max_size }
    }

    pub fn max_size(&self) -> (r: usize)
        ensures
            r == self.bound(),
    {
        self.max_size
    }

    /// The value held, if any.
    pub fn value(&self) -> (r: Option<&ClipboardValue>)
        ensures
            match r {
                Some(v) => self.stored() == Some(v@),
                None => self.stored() is None,
            },
    {
        match &self.value {
            Some(v) => Some(v),
            None => None,
        }
    }

    /// Serves one request: `Get` and `PeekMeta` read the stored value, a valid `SetValue`
    /// replaces it, an invalid one leaves it alone. The reply carries the request's id.
    pub fn handle_request(&mut self, request: Request) -> (r: Response)
        requires
            old(self).wf(),
        ensures
            final(self).wf(),
            final(self).bound() == old(self).bound(),
            r.request_id == request.request_id,
            (final(self).stored(), r@.kind) == step(old(self).stored(), request.kind@, old(self).bound()),
    {
        let request_id = request.request_id;
        let kind = match request.kind {
            RequestKind::Get => match &self.value {
                Some(value) => ResponseKind::Value { value: value.clone_value() },
                None => ResponseKind::Empty,
            },
            RequestKind::PeekMeta => match &self.value {
                Some(value) => ResponseKind::Meta {
                    content_type: value.content_type.clone(),
                    size: value.data.len() as u64,
                    created_at: value.created_at,
                },
                None => ResponseKind::Empty,
            },
            RequestKind::SetValue { value } => match validate_set(&value, self.max_size) {
                Ok(()) => {
                    self.value = Some(value);
                    ResponseKind::Success
                },
                Err(err) => to_error_response(err),
            },
        };
        Response { request_id, kind }
    }

    /// Serves one request payload and gives the encoded reply: a payload that does not
    /// decode gets an `invalid_request` error with request id 0 and changes nothing.
    pub fn respond_to_payload(&mut self, payload: &[u8]) -> (out: Vec<u8>)
        requires
            old(self).wf(),
        ensures
            final(self).wf(),
            final(self).bound() == old(self).bound(),
            match decoded_request(payload@) {
                Some(req) => {
                    let (next, kind) = step(old(self).stored(), req.kind, old(self).bound());
                    final(self).stored() == next && out@ == response_bytes(
                        ResponseModel { request_id: req.request_id, kind },
                    )
                },
                None => final(self).stored() == old(self).stored() && out@ == response_bytes(
                    ResponseModel {
                        request_id: 0,
                        kind: error_kind(ErrorCode::InvalidRequest, "decode error: malformed request"@),
                    },
                ),
            },
    {
        let response = match decode_request(payload) {
            Some(request) => self.handle_request(request),
            None => error_response(
                0,
                ErrorCode::InvalidRequest,
                String::from_str("decode error: malformed request"),
            ),
        };
        encode_response(&response)
    }
}

impl ClipboardValue {
    /// A copy of the value.
    pub fn clone_value(&self) -> (r: ClipboardValue)
        ensures
            r@ == self@,
    {
        ClipboardValue {
            content_type: self.content_type.clone(),
            data: self.data.clone(),
            created_at: self.created_at,
        }
    }
}

/// What the store holds after serving `reqs` in order, starting from `stored`.
pub open spec fn state_after(stored: Option<ValueModel>, reqs: Seq<RequestKindModel>, max: nat) -> Option<
    ValueModel,
>
    decreases reqs.len(),
{
    if reqs.len() == 0 {
        stored
    } else {
        step(state_after(stored, reqs.drop_last(), max), reqs.last(), max).0
    }
}

/// The value of the last `SetValue` in `reqs` that passes the checks, or `stored` if none does.
pub open spec fn last_accepted_set(
    stored: Option<ValueModel>,
    reqs: Seq<RequestKindModel>,
    max: nat,
) -> Option<ValueModel>
    decreases reqs.len(),
{
    if reqs.len() == 0 {
        stored
    } else {
        match reqs.last() {
            RequestKindModel::SetValue { value } => if set_check(value, max) is None {
                Some(value)
            } else {
                last_accepted_set(stored, reqs.drop_last(), max)
            },
            _ => last_accepted_set(stored, reqs.drop_last(), max),
        }
    }
}

/// Requests served one after another: a `Get` returns the value of the most recent
/// `SetValue` that was accepted before it, or `Empty` when none was; refused values,
/// `Get` and `PeekMeta` never change what is held.
pub proof fn lemma_get_sees_last_accepted_set(
    stored: Option<ValueModel>,
    reqs: Seq<RequestKindModel>,
    max: nat,
)
    ensures
        state_after(stored, reqs, max) == last_accepted_set(stored, reqs, max),
        step(state_after(stored, reqs, max), RequestKindModel::Get, max).1 == match last_accepted_set(
            stored,
            reqs,
            max,
        ) {
            Some(v) => ResponseKindModel::Value { value: v },
            None => ResponseKindModel::Empty,
        },
    decreases reqs.len(),
{
    if reqs.len() > 0 {
        lemma_get_sees_last_accepted_set(stored, reqs.drop_last(), max);
    }
}

} // verus!
