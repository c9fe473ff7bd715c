//! Encoding of requests and responses: each struct as its fields in order, each sum type as a
//! varint tag followed by the variant's fields.
use vstd::prelude::*;
use crate::protocol::{
    ClipboardValue, ErrorCode, Request, RequestKind, Response, ResponseKind, RequestKindModel, RequestModel, ResponseKindModel, ResponseModel, ValueModel,
};
use crate::wire::{
    bytes_field, i64_bytes, lemma_bytes_round_trip, lemma_i64_round_trip, lemma_str_round_trip,
    lemma_varint_round_trip, parse_bytes, parse_i64, parse_str, parse_varint, push_bytes, push_i64,
    push_str, push_varint, read_bytes, read_i64, read_str, read_varint, str_field, suffix,
    varint_bytes,
};

verus! {

pub open spec fn value_bytes(v: ValueModel) -> Seq<u8> {
    str_field(v.content_type) + bytes_field(v.data) + i64_bytes(v.created_at)
}

pub open spec fn request_kind_bytes(k: RequestKindModel) -> Seq<u8> {
    match k {
        RequestKindModel::SetValue { value } => varint_bytes(0) + value_bytes(value),
        RequestKindModel::Get => varint_bytes(1),
        RequestKindModel::PeekMeta => varint_bytes(2),
    }
}

/// The encoded form of a request.
pub open spec fn request_bytes(r: RequestModel) -> Seq<u8> {
    varint_bytes(r.request_id) + request_kind_bytes(r.kind)
}

pub open spec fn error_code_tag(c: ErrorCode) -> u64 {
    match c {
        ErrorCode::InvalidRequest => 0,
        ErrorCode::PayloadTooLarge => 1,
        ErrorCode::InvalidUtf8 => 2,
        ErrorCode::Internal => 3,
        ErrorCode::DaemonNotRunning => 4,
        ErrorCode::VersionMismatch => 5,
    }
}

pub open spec fn error_code_of_tag(t: u64) -> Option<ErrorCode> {
    if t == 0 {
        Some(ErrorCode::InvalidRequest)
    } else if t == 1 {
        Some(ErrorCode::PayloadTooLarge)
    } else if t == 2 {
        Some(ErrorCode::InvalidUtf8)
    } else if t == 3 {
        Some(ErrorCode::Internal)
    } else if t == 4 {
        Some(ErrorCode::DaemonNotRunning)
    } else if t == 5 {
        Some(ErrorCode::VersionMismatch)
    } else {
        None
    }
}

pub open spec fn response_kind_bytes(k: ResponseKindModel) -> Seq<u8> {
    match k {
        ResponseKindModel::Success => varint_bytes(0),
        ResponseKindModel::Value { value } => varint_bytes(1) + value_bytes(value),
        ResponseKindModel::Meta { content_type, size, created_at } => varint_bytes(2) + str_field(
            content_type,
        ) + varint_bytes(size) + i64_bytes(created_at),
        ResponseKindModel::Empty => varint_bytes(3),
        ResponseKindModel::Error { code, message } => varint_bytes(4) + varint_bytes(
            error_code_tag(code),
        ) + str_field(message),
    }
}

/// The encoded form of a response.
pub open spec fn response_bytes(r: ResponseModel) -> Seq<u8> {
    varint_bytes(r.request_id) + response_kind_bytes(r.kind)
}

pub open spec fn parse_value(s: Seq<u8>) -> Option<(ValueModel, Seq<u8>)> {
    match parse_str(s) {
        Some((content_type, r1)) => match parse_bytes(r1) {
            Some((data, r2)) => match parse_i64(r2) {
                Some((created_at, r3)) => Some(
                    (ValueModel { content_type, data, created_at }, r3),
                ),
                None => None,
            },
            None => None,
        },
        None => None,
    }
}

pub open spec fn parse_request_kind(s: Seq<u8>) -> Option<(RequestKindModel, Seq<u8>)> {
    match parse_varint(s) {
        Some((tag, r1)) => if tag == 0 {
            match parse_value(r1) {
                Some((value, r2)) => Some((RequestKindModel::SetValue { value }, r2)),
                None => None,
            }
        } else if tag == 1 {
            Some((RequestKindModel::Get, r1))
        } else if tag == 2 {
            Some((RequestKindModel::PeekMeta, r1))
        } else {
            None
        },
        None => None,
    }
}

/// Reads a request from the start of `s`; trailing bytes are left unread.
pub open spec fn parse_request(s: Seq<u8>) -> Option<(RequestModel, Seq<u8>)> {
    match parse_varint(s) {
        Some((request_id, r1)) => match parse_request_kind(r1) {
            Some((kind, r2)) => Some((RequestModel { request_id, kind }, r2)),
            None => None,
        },
        None => None,
    }
}

pub open spec fn parse_response_kind(s: Seq<u8>) -> Option<(ResponseKindModel, Seq<u8>)> {
    match parse_varint(s) {
        Some((tag, r1)) => if tag == 0 {
            Some((ResponseKindModel::Success, r1))
        } else if tag == 1 {
            match parse_value(r1) {
                Some((value, r2)) => Some((ResponseKindModel::Value { value }, r2)),
                None => None,
            }
        } else if tag == 2 {
            match parse_str(r1) {
                Some((content_type, r2)) => match parse_varint(r2) {
                    Some((size, r3)) => match parse_i64(r3) {
                        Some((created_at, r4)) => Some(
                            (ResponseKindModel::Meta { content_type, size, created_at }, r4),
                        ),
                        None => None,
                    },
                    None => None,
                },
                None => None,
            }
        } else if tag == 3 {
            Some((ResponseKindModel::Empty, r1))
        } else if tag == 4 {
            match parse_varint(r1) {
                Some((t, r2)) => match error_code_of_tag(t) {
                    Some(code) => match parse_str(r2) {
                        Some((message, r3)) => Some(
                            (ResponseKindModel::Error { code, message }, r3),
                        ),
                        None => None,
                    },
                    None => None,
                },
                None => None,
            }
        } else {
            None
        },
        None => None,
    }
}

/// Reads a response from the start of `s`; trailing bytes are left unread.
pub open spec fn parse_response(s: Seq<u8>) -> Option<(ResponseModel, Seq<u8>)> {
    match parse_varint(s) {
        Some((request_id, r1)) => match parse_response_kind(r1) {
            Some((kind, r2)) => Some((ResponseModel { request_id, kind }, r2)),
            None => None,
        },
        None => None,
    }
}

/// What a request's bytes decode to, if anything.
pub open spec fn decoded_request(s: Seq<u8>) -> Option<RequestModel> {
    match parse_request(s) {
        Some((r, _)) => Some(r),
        None => None,
    }
}

/// What a response's bytes decode to, if anything.
pub open spec fn decoded_response(s: Seq<u8>) -> Option<ResponseModel> {
    match parse_response(s) {
        Some((r, _)) => Some(r),
        None => None,
    }
}

/// A value is encodable when each of its byte strings has a length that fits in 64 bits.
pub open spec fn value_fits(v: ValueModel) -> bool {
    vstd::utf8::encode_utf8(v.content_type).len() <= u64::MAX && v.data.len() <= u64::MAX
}

pub open spec fn request_fits(r: RequestModel) -> bool {
    match r.kind {
        RequestKindModel::SetValue { value } => value_fits(value),
        _ => true,
    }
}

pub open spec fn response_fits(r: ResponseModel) -> bool {
    match r.kind {
        ResponseKindModel::Value { value } => value_fits(value),
        ResponseKindModel::Meta { content_type, .. } => vstd::utf8::encode_utf8(content_type).len()
            <= u64::MAX,
        ResponseKindModel::Error { message, .. } => vstd::utf8::encode_utf8(message).len()
            <= u64::MAX,
        _ => true,
    }
}

pub proof fn lemma_value_round_trip(v: ValueModel, rest: Seq<u8>)
    requires
        value_fits(v),
    ensures
        parse_value(value_bytes(v) + rest) == Some((v, rest)),
{
    let r3 = i64_bytes(v.created_at) + rest;
    let r2 = bytes_field(v.data) + r3;
    lemma_str_round_trip(v.content_type, r2);
    lemma_bytes_round_trip(v.data, r3);
    lemma_i64_round_trip(v.created_at, rest);
    assert(value_bytes(v) + rest =~= str_field(v.content_type) + r2);
}

/// Decoding an encoded request gives the request back, and leaves what followed it unread.
pub proof fn lemma_request_round_trip(r: RequestModel, rest: Seq<u8>)
    requires
        request_fits(r),
    ensures
        parse_request(request_bytes(r) + rest) == Some((r, rest)),
        decoded_request(request_bytes(r) + rest) == Some(r),
{
    let k = request_kind_bytes(r.kind) + rest;
    lemma_varint_round_trip(r.request_id, k);
    assert(request_bytes(r) + rest =~= varint_bytes(r.request_id) + k);
    match r.kind {
        RequestKindModel::SetValue { value } => {
            lemma_varint_round_trip(0, value_bytes(value) + rest);
            lemma_value_round_trip(value, rest);
            assert(k =~= varint_bytes(0) + (value_bytes(value) + rest));
        },
        RequestKindModel::Get => {
            lemma_varint_round_trip(1, rest);
        },
        RequestKindModel::PeekMeta => {
            lemma_varint_round_trip(2, rest);
        },
    }
}

/// Decoding an encoded response gives the response back, and leaves what followed it unread.
pub proof fn lemma_response_round_trip(r: ResponseModel, rest: Seq<u8>)
    requires
        response_fits(r),
    ensures
        parse_response(response_bytes(r) + rest) == Some((r, rest)),
        decoded_response(response_bytes(r) + rest) == Some(r),
{
    let k = response_kind_bytes(r.kind) + rest;
    lemma_varint_round_trip(r.request_id, k);
    assert(response_bytes(r) + rest =~= varint_bytes(r.request_id) + k);
    match r.kind {
        ResponseKindModel::Success => {
            lemma_varint_round_trip(0, rest);
        },
        ResponseKindModel::Value { value } => {
            lemma_varint_round_trip(1, value_bytes(value) + rest);
            lemma_value_round_trip(value, rest);
            assert(k =~= varint_bytes(1) + (value_bytes(value) + rest));
        },
        ResponseKindModel::Meta { content_type, size, created_at } => {
            let r4 = i64_bytes(created_at) + rest;
            let r3 = varint_bytes(size) + r4;
            let r2 = str_field(content_type) + r3;
            lemma_varint_round_trip(2, r2);
            lemma_str_round_trip(content_type, r3);
            lemma_varint_round_trip(size, r4);
            lemma_i64_round_trip(created_at, rest);
            assert(k =~= varint_bytes(2) + r2);
        },
        ResponseKindModel::Empty => {
            lemma_varint_round_trip(3, rest);
        },
        ResponseKindModel::Error { code, message } => {
            let r3 = str_field(message) + rest;
            let r2 = varint_bytes(error_code_tag(code)) + r3;
            lemma_varint_round_trip(4, r2);
            lemma_varint_round_trip(error_code_tag(code), r3);
            lemma_str_round_trip(message, rest);
            assert(k =~= varint_bytes(4) + r2);
        },
    }
}

fn push_value(out: &mut Vec<u8>, v: &ClipboardValue)
    ensures
        final(out)@ == old(out)@ + value_bytes(v@),
{
    push_str(out, &v.content_type);
    push_bytes(out, v.data.as_slice());
    push_i64(out, v.created_at);
    assert(final(out)@ =~= old(out)@ + value_bytes(v@));
}

/// Encodes a request.
pub fn encode_request(r: &Request) -> (out: Vec<u8>)
    ensures
        out@ == request_bytes(r@),
{
    let mut out: Vec<u8> = Vec::new();
    push_varint(&mut out, r.request_id);
    match &r.kind {
        RequestKind::SetValue { value } => {
            push_varint(&mut out, 0);
            push_value(&mut out, value);
        },
        RequestKind::Get => push_varint(&mut out, 1),
        RequestKind::PeekMeta => push_varint(&mut out, 2),
    }
    assert(out@ =~= request_bytes(r@));
    out
}

fn error_code_to_tag(c: ErrorCode) -> (t: u64)
    ensures
        t == error_code_tag(c),
{
    match c {
        ErrorCode::InvalidRequest => 0,
        ErrorCode::PayloadTooLarge => 1,
        ErrorCode::InvalidUtf8 => 2,
        ErrorCode::Internal => 3,
        ErrorCode::DaemonNotRunning => 4,
        ErrorCode::VersionMismatch => 5,
    }
}

fn error_code_from_tag(t: u64) -> (c: Option<ErrorCode>)
    ensures
        c == error_code_of_tag(t),
{
    if t == 0 {
        Some(ErrorCode::InvalidRequest)
    } else if t == 1 {
        Some(ErrorCode::PayloadTooLarge)
    } else if t == 2 {
        Some(ErrorCode::InvalidUtf8)
    } else if t == 3 {
        Some(ErrorCode::Internal)
    } else if t == 4 {
        Some(ErrorCode::DaemonNotRunning)
    } else if t == 5 {
        Some(ErrorCode::VersionMismatch)
    } else {
        None
    }
}

/// Encodes a response.
pub fn encode_response(r: &Response) -> (out: Vec<u8>)
    ensures
        out@ == response_bytes(r@),
{
    let mut out: Vec<u8> = Vec::new();
    push_varint(&mut out, r.request_id);
    match &r.kind {
        ResponseKind::Success => push_varint(&mut out, 0),
        ResponseKind::Value { value } => {
            push_varint(&mut out, 1);
            push_value(&mut out, value);
        },
        ResponseKind::Meta { content_type, size, created_at } => {
            push_varint(&mut out, 2);
            push_str(&mut out, content_type);
            push_varint(&mut out, *size);
            push_i64(&mut out, *created_at);
        },
        ResponseKind::Empty => push_varint(&mut out, 3),
        ResponseKind::Error { code, message } => {
            push_varint(&mut out, 4);
            push_varint(&mut out, error_code_to_tag(*code));
            push_str(&mut out, message);
        },
    }
    assert(out@ =~= response_bytes(r@));
    out
}

fn read_value(buf: &[u8], pos: usize) -> (r: Option<(ClipboardValue, usize)>)
    requires
        pos <= buf@.len(),
    ensures
        match r {
            Some((v, p)) => pos <= p <= buf@.len() && parse_value(suffix(buf@, pos as int)) == Some(
                (v@, suffix(buf@, p as int)),
            ),
            None => parse_value(suffix(buf@, pos as int)) is None,
        },
{
    let (content_type, at1) = match read_str(buf, pos) {
        Some(x) => x,
        None => return None,
    };
    let (data, at2) = match read_bytes(buf, at1) {
        Some(x) => x,
        None => return None,
    };
    let (created_at, at3) = match read_i64(buf, at2) {
        Some(x) => x,
        None => return None,
    };
    Some((ClipboardValue { content_type, data, created_at }, at3))
}

/// Decodes a request from the start of `payload`; bytes after it are ignored.
pub fn decode_request(payload: &[u8]) -> (r: Option<Request>)
    ensures
        match r {
            Some(req) => decoded_request(payload@) == Some(req@),
            None => decoded_request(payload@) is None,
        },
{
    assert(suffix(payload@, 0) =~= payload@);
    let (request_id, at1) = match read_varint(payload, 0) {
        Some(x) => x,
        None => return None,
    };
    let (tag, at2) = match read_varint(payload, at1) {
        Some(x) => x,
        None => return None,
    };
    let kind = if tag == 0 {
        match read_value(payload, at2) {
            Some((value, _)) => RequestKind::SetValue { value },
            None => return None,
        }
    } else if tag == 1 {
        RequestKind::Get
    } else if tag == 2 {
        RequestKind::PeekMeta
    } else {
        return None;
    };
    Some(Request { request_id, kind })
}

/// Decodes a response from the start of `payload`; bytes after it are ignored.
pub fn decode_response(payload: &[u8]) -> (r: Option<Response>)
    ensures
        match r {
            Some(resp) => decoded_response(payload@) == Some(resp@),
            None => decoded_response(payload@) is None,
        },
{
    assert(suffix(payload@, 0) =~= payload@);
    let (request_id, at1) = match read_varint(payload, 0) {
        Some(x) => x,
        None => return None,
    };
    let (tag, at2) = match read_varint(payload, at1) {
        Some(x) => x,
        None => return None,
    };
    let kind = if tag == 0 {
        ResponseKind::Success
    } else if tag == 1 {
        match read_value(payload, at2) {
            Some((value, _)) => ResponseKind::Value { value },
            None => return None,
        }
    } else if tag == 2 {
        let (content_type, at3) = match read_str(payload, at2) {
            Some(x) => x,
            None => return None,
        };
        let (size, at4) = match read_varint(payload, at3) {
            Some(x) => x,
            None => return None,
        };
        let (created_at, _) = match read_i64(payload, at4) {
            Some(x) => x,
            None => return None,
        };
        ResponseKind::Meta { content_type, size, created_at }
    } else if tag == 3 {
        ResponseKind::Empty
    } else if tag == 4 {
        let (t, at3) = match read_varint(payload, at2) {
            Some(x) => x,
            None => return None,
        };
        let code = match error_code_from_tag(t) {
            Some(c) => c,
            None => return None,
        };
        let (message, _) = match read_str(payload, at3) {
            Some(x) => x,
            None => return None,
        };
        ResponseKind::Error { code, message }
    } else {
        return None;
    };
    Some(Response { request_id, kind })
}

} // verus!
