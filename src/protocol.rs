use vstd::prelude::*;

verus! {

/// Magic bytes that open every frame: `SCB1`.
pub const MAGIC: [u8; 4] = [0x53, 0x43, 0x42, 0x31];

/// Current frame version.
pub const VERSION: u16 = 2;

/// Content type of UTF-8 text values.
pub const CONTENT_TYPE_TEXT: &'static str = "text/plain; charset=utf-8";

/// Content type of PNG image values.
pub const CONTENT_TYPE_PNG: &'static str = "image/png";

/// Default bound on a clipboard payload: 10 MiB.
pub const DEFAULT_MAX_SIZE: usize = 10485760;

/// Room left for the envelope and the `Value` header when reading a response.
pub const RESPONSE_OVERHEAD: usize = 1024;

/// The single unit of data stored and transferred.
#[derive(Debug, Clone, PartialEq, Eq)]
pub struct ClipboardValue {
    pub content_type: String,
    pub data: Vec<u8>,
    pub created_at: i64,
}

#[derive(Debug, Clone, PartialEq, Eq)]
pub struct Request {
    pub request_id: u64,
    pub kind: RequestKind,
}

#[derive(Debug, Clone, PartialEq, Eq)]
pub enum RequestKind {
    SetValue { value: ClipboardValue },
    Get,
    PeekMeta,
}

#[derive(Debug, Clone, PartialEq, Eq)]
pub struct Response {
    pub request_id: u64,
    pub kind: ResponseKind,
}

#[derive(Debug, Clone, PartialEq, Eq)]
pub enum ResponseKind {
    Success,
    Value { value: ClipboardValue },
    Meta { content_type: String, size: u64, created_at: i64 },
    Empty,
    Error { code: ErrorCode, message: String },
}

#[derive(Debug, Clone, Copy, PartialEq, Eq, Structural)]
pub enum ErrorCode {
    InvalidRequest,
    PayloadTooLarge,
    InvalidUtf8,
    Internal,
    DaemonNotRunning,
    VersionMismatch,
}

impl ErrorCode {
    /// The code's name on JSON surfaces, in snake_case.
    pub fn snake_case_name(&self) -> (r: &'static str)
        ensures
            r@ == match *self {
                ErrorCode::InvalidRequest => "invalid_request"@,
                ErrorCode::PayloadTooLarge => "payload_too_large"@,
                ErrorCode::InvalidUtf8 => "invalid_utf8"@,
                ErrorCode::Internal => "internal"@,
                ErrorCode::DaemonNotRunning => "daemon_not_running"@,
                ErrorCode::VersionMismatch => "version_mismatch"@,
            },
    {
        match self {
            ErrorCode::InvalidRequest => "invalid_request",
            ErrorCode::PayloadTooLarge => "payload_too_large",
            ErrorCode::InvalidUtf8 => "invalid_utf8",
            ErrorCode::Internal => "internal",
            ErrorCode::DaemonNotRunning => "daemon_not_running",
            ErrorCode::VersionMismatch => "version_mismatch",
        }
    }
}

/// Mathematical model of a [`ClipboardValue`].
pub struct ValueModel {
    pub content_type: Seq<char>,
    pub data: Seq<u8>,
    pub created_at: i64,
}

pub enum RequestKindModel {
    SetValue { value: ValueModel },
    Get,
    PeekMeta,
}

pub struct RequestModel {
    pub request_id: u64,
    pub kind: RequestKindModel,
}

pub enum ResponseKindModel {
    Success,
    Value { value: ValueModel },
    Meta { content_type: Seq<char>, size: u64, created_at: i64 },
    Empty,
    Error { code: ErrorCode, message: Seq<char> },
}

pub struct ResponseModel {
    pub request_id: u64,
    pub kind: ResponseKindModel,
}

impl View for ClipboardValue {
    type V = ValueModel;

    open spec fn view(&self) -> ValueModel {
        ValueModel { content_type: self.content_type@, data: self.data@, created_at: self.created_at }
    }
}

impl View for RequestKind {
    type V = RequestKindModel;

    open spec fn view(&self) -> RequestKindModel {
        match self {
            RequestKind::SetValue { value } => RequestKindModel::SetValue { value: value@ },
            RequestKind::Get => RequestKindModel::Get,
            RequestKind::PeekMeta => RequestKindModel::PeekMeta,
        }
    }
}

impl View for Request {
    type V = RequestModel;

    open spec fn view(&self) -> RequestModel {
        RequestModel { request_id: self.request_id, kind: self.kind@ }
    }
}

impl View for ResponseKind {
    type V = ResponseKindModel;

    open spec fn view(&self) -> ResponseKindModel {
        match self {
            ResponseKind::Success => ResponseKindModel::Success,
            ResponseKind::Value { value } => ResponseKindModel::Value { value: value@ },
            ResponseKind::Meta { content_type, size, created_at } => ResponseKindModel::Meta {
                content_type: content_type@,
                size: *size,
                created_at: *created_at,
            },
            ResponseKind::Empty => ResponseKindModel::Empty,
            ResponseKind::Error { code, message } => ResponseKindModel::Error {
                code: *code,
                message: message@,
            },
        }
    }
}

impl View for Response {
    type V = ResponseModel;

    open spec fn view(&self) -> ResponseModel {
        ResponseModel { request_id: self.request_id, kind: self.kind@ }
    }
}

/// Builds a response carrying `code` and `message` for request `request_id`.
pub fn error_response(request_id: u64, code: ErrorCode, message: String) -> (r: Response)
    ensures
        r@ == (ResponseModel {
            request_id,
            kind: ResponseKindModel::Error { code, message: message@ },
        }),
{
    Response { request_id, kind: ResponseKind::Error { code, message } }
}

} // verus!
