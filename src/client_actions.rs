//! Turning local clipboard contents into a value to push, and a pulled response into what
//! to write to the local clipboard.
use vstd::prelude::*;
use vstd::utf8::{decode_utf8, encode_utf8, valid_utf8};
use crate::client::epoch_millis;
use crate::daemon::{is_png_type, is_text_type, set_check};
use crate::proxy::{exit_code_for, map_error_code};
use crate::local_clipboard::{decode_png, encode_png, read_image, read_text, write_image, write_text};
use crate::protocol::{
    ClipboardValue, Response, ResponseKind, ResponseKindModel, CONTENT_TYPE_PNG, CONTENT_TYPE_TEXT,
};
use crate::wire::string_from_utf8;

verus! {

/// Why no value could be built; `code` is the process exit code to report.
#[derive(Debug, Clone)]
pub struct ClipboardBuildError {
    pub code: i32,
    pub message: String,
}

#[derive(Debug, Clone, Copy, PartialEq, Eq, Structural)]
pub enum PullApplyErrorKind {
    InvalidUtf8,
    InvalidPayload,
    UnsupportedContentType,
    NoValue,
    Server,
    Clipboard,
    Unexpected,
}

#[derive(Debug, Clone)]
pub struct PullApplyError {
    pub kind: PullApplyErrorKind,
    pub message: String,
}

/// What to write to the local clipboard after a pull.
#[derive(Debug, Clone, PartialEq, Eq)]
pub enum PullAction {
    WriteText(String),
    WritePng(Vec<u8>),
}

/// The time now in milliseconds since the UNIX epoch, as a signed value.
fn now_epoch_millis() -> (r: i64) {
    let ms = epoch_millis();
    if ms > i64::MAX as u64 {
        i64::MAX
    } else {
        ms as i64
    }
}

/// A text value holding the UTF-8 bytes of `text`, refused with exit code 3 when they are
/// more than `max_size`.
pub fn build_text_value(text: String, max_size: usize) -> (r: Result<ClipboardValue, ClipboardBuildError>)
    ensures
        match r {
            Ok(v) => encode_utf8(text@).len() <= max_size && v.content_type@ == CONTENT_TYPE_TEXT@
                && v.data@ == encode_utf8(text@),
            Err(e) => encode_utf8(text@).len() > max_size && e.code == 3 && e.message@
                == "payload too large"@,
        },
{
    let bytes = text.as_str().as_bytes();
    if bytes.len() > max_size {
        return Err(ClipboardBuildError { code: 3, message: String::from_str("payload too large") });
    }
    let mut data: Vec<u8> = Vec::new();
    data.extend_from_slice(bytes);
    Ok(
        ClipboardValue {
            content_type: String::from_str(CONTENT_TYPE_TEXT),
            data,
            created_at: now_epoch_millis(),
        },
    )
}

/// The kind of error a pulled response leads to, if any.
pub open spec fn pull_error_kind(k: ResponseKindModel) -> Option<PullApplyErrorKind> {
    match k {
        ResponseKindModel::Value { value } => if is_text_type(value.content_type) {
            if valid_utf8(value.data) {
                None
            } else {
                Some(PullApplyErrorKind::InvalidUtf8)
            }
        } else if is_png_type(value.content_type) {
            None
        } else {
            Some(PullApplyErrorKind::UnsupportedContentType)
        },
        ResponseKindModel::Empty => Some(PullApplyErrorKind::NoValue),
        ResponseKindModel::Error { .. } => Some(PullApplyErrorKind::Server),
        _ => Some(PullApplyErrorKind::Unexpected),
    }
}

/// The message of a pull error, where it is fixed: the server's own message for an error
/// response, `no clipboard value set` for an empty one.
pub open spec fn pull_error_message_fits(k: ResponseKindModel, message: Seq<char>) -> bool {
    match k {
        ResponseKindModel::Error { message: m, .. } => message == m,
        ResponseKindModel::Empty => message == "no clipboard value set"@,
        _ => true,
    }
}

/// Decides what a pulled response writes to the clipboard: text values become text, PNG
/// values are handed on as bytes, everything else is an error of the matching kind (a
/// server error keeps the server's message).
pub fn pull_action(response: Response) -> (r: Result<PullAction, PullApplyError>)
    ensures
        match r {
            Ok(a) => pull_error_kind(response.kind@) is None && match response.kind@ {
                ResponseKindModel::Value { value } => if is_text_type(value.content_type) {
                    a matches PullAction::WriteText(t) && t@ == decode_utf8(value.data)
                } else {
                    a matches PullAction::WritePng(d) && d@ == value.data
                },
                _ => false,
            },
            Err(e) => pull_error_kind(response.kind@) == Some(e.kind) && pull_error_message_fits(
                response.kind@,
                e.message@,
            ),
        },
{
    match response.kind {
        ResponseKind::Value { value } => {
            let text = String::from_str(CONTENT_TYPE_TEXT);
            let png = String::from_str(CONTENT_TYPE_PNG);
            if value.content_type == text {
                match string_from_utf8(value.data) {
                    Some(t) => Ok(PullAction::WriteText(t)),
                    None => Err(
                        PullApplyError {
                            kind: PullApplyErrorKind::InvalidUtf8,
                            message: String::from_str("response was not valid UTF-8"),
                        },
                    ),
                }
            } else if value.content_type == png {
                Ok(PullAction::WritePng(value.data))
            } else {
                let mut message = String::from_str("unsupported content type: ");
                message.append(value.content_type.as_str());
                Err(PullApplyError { kind: PullApplyErrorKind::UnsupportedContentType, message })
            }
        },
        ResponseKind::Empty => Err(
            PullApplyError {
                kind: PullApplyErrorKind::NoValue,
                message: String::from_str("no clipboard value set"),
            },
        ),
        ResponseKind::Error { message, .. } => Err(
            PullApplyError { kind: PullApplyErrorKind::Server, message },
        ),
        _ => Err(
            PullApplyError {
                kind: PullApplyErrorKind::Unexpected,
                message: String::from_str("unexpected response"),
            },
        ),
    }
}

/// A PNG value holding `png`, refused with exit code 3 when it is more than `max_size` bytes.
pub fn png_clipboard_value(png: Vec<u8>, max_size: usize, created_at: i64) -> (r: Result<
    ClipboardValue,
    ClipboardBuildError,
>)
    ensures
        match r {
            Ok(v) => png@.len() <= max_size && v.content_type@ == CONTENT_TYPE_PNG@ && v.data@
                == png@ && v.created_at == created_at && set_check(v@, max_size as nat) is None,
            Err(e) => png@.len() > max_size && e.code == 3 && e.message@ == "payload too large"@,
        },
{
    if png.len() > max_size {
        return Err(ClipboardBuildError { code: 3, message: String::from_str("payload too large") });
    }
    let content_type = String::from_str(CONTENT_TYPE_PNG);
    proof {
        reveal_strlit("image/png");
        reveal_strlit("text/plain; charset=utf-8");
        assert(content_type@ != CONTENT_TYPE_TEXT@) by {
            assert(content_type@[0] != CONTENT_TYPE_TEXT@[0]);
        }
    }
    Ok(ClipboardValue { content_type, data: png, created_at })
}

/// A value from the local clipboard: its text if it holds text, else its image as PNG.
/// Whatever the clipboard holds, a value that comes back passes the daemon's checks; the
/// error codes are 2 (the image would not encode), 3 (too large) and 6 (nothing readable).
pub fn build_clipboard_value_from_clipboard(max_size: usize) -> (r: Result<
    ClipboardValue,
    ClipboardBuildError,
>)
    ensures
        match r {
            Ok(v) => set_check(v@, max_size as nat) is None,
            Err(e) => e.code == 2 || e.code == 3 || e.code == 6,
        },
{
    match read_text() {
        Ok(text) => {
            let ghost chars = text@;
            let r = build_text_value(text, max_size);
            proof {
                vstd::utf8::encode_utf8_valid_utf8(chars);
            }
            r
        },
        Err(text_err) => match read_image() {
            Ok(img) => {
                let png = match encode_png(img) {
                    Ok(p) => p,
                    Err(err) => return Err(ClipboardBuildError { code: 2, message: err }),
                };
                png_clipboard_value(png, max_size, now_epoch_millis())
            },
            Err(image_err) => {
                let mut message = String::from_str("clipboard read failed (text: ");
                message.append(text_err.as_str());
                message.append("; image: ");
                message.append(image_err.as_str());
                message.append(")");
                Err(ClipboardBuildError { code: 6, message })
            },
        },
    }
}

/// Writes a pulled response to the local clipboard. A response that `pull_action` refuses
/// fails with that error; otherwise only the PNG decoding (`InvalidPayload`) or the
/// clipboard itself (`Clipboard`) can fail.
pub fn apply_pull_response_with_system_clipboard(
    response: Response,
    max_decoded_bytes: usize,
) -> (r: Result<(), PullApplyError>)
    ensures
        match pull_error_kind(response.kind@) {
            Some(k) => r matches Err(e) && e.kind == k && pull_error_message_fits(
                response.kind@,
                e.message@,
            ),
            None => r matches Err(e) ==> (e.kind == PullApplyErrorKind::Clipboard || e.kind
                == PullApplyErrorKind::InvalidPayload),
        },
{
    match pull_action(response) {
        Ok(PullAction::WriteText(text)) => match write_text(text.as_str()) {
            Ok(()) => Ok(()),
            Err(message) => Err(PullApplyError { kind: PullApplyErrorKind::Clipboard, message }),
        },
        Ok(PullAction::WritePng(data)) => {
            let image = match decode_png(data.as_slice(), max_decoded_bytes) {
                Ok(image) => image,
                Err(message) => return Err(
                    PullApplyError { kind: PullApplyErrorKind::InvalidPayload, message },
                ),
            };
            match write_image(image) {
                Ok(()) => Ok(()),
                Err(message) => Err(
                    PullApplyError { kind: PullApplyErrorKind::Clipboard, message },
                ),
            }
        },
        Err(e) => Err(e),
    }
}

/// As `apply_pull_response_with_system_clipboard`, with the error reduced to its message.
pub fn apply_pull_response_to_clipboard(response: Response, max_decoded_bytes: usize) -> (r: Result<
    (),
    String,
>)
    ensures
        pull_error_kind(response.kind@) is Some ==> r is Err,
{
    match apply_pull_response_with_system_clipboard(response, max_decoded_bytes) {
        Ok(()) => Ok(()),
        Err(e) => Err(e.message),
    }
}

/// How a client command ends when a response says it failed.
#[derive(Debug, Clone, PartialEq, Eq)]
pub struct ClientExit {
    pub code: i32,
    pub message: String,
}

/// Judges a response to a client command: an error ends the command with the exit code of
/// its error code and the server's message; `Empty` ends it with code 2 unless
/// `allow_empty`; anything else is success.
pub fn handle_response(response: Response, allow_empty: bool) -> (r: Result<(), ClientExit>)
    ensures
        match response.kind@ {
            ResponseKindModel::Error { code, message } => r matches Err(e) && e.code
                == exit_code_for(code) && e.message@ == message,
            ResponseKindModel::Empty => if allow_empty {
                r is Ok
            } else {
                r matches Err(e) && e.code == 2 && e.message@ == "no clipboard value set"@
            },
            _ => r is Ok,
        },
{
    match response.kind {
        ResponseKind::Error { code, message } => Err(ClientExit { code: map_error_code(code), message }),
        ResponseKind::Empty => if allow_empty {
            Ok(())
        } else {
            Err(ClientExit { code: 2, message: String::from_str("no clipboard value set") })
        },
        _ => Ok(()),
    }
}

/// The exit code for a failed pull: 6 when the local clipboard failed, 2 otherwise.
pub open spec fn pull_exit_code(kind: PullApplyErrorKind) -> i32 {
    if kind == PullApplyErrorKind::Clipboard {
        6
    } else {
        2
    }
}

/// Writes a pulled response to the local clipboard and turns a failure into the exit the
/// command ends with.
pub fn handle_pull_to_clipboard(response: Response, max_decoded_bytes: usize) -> (r: Result<
    (),
    ClientExit,
>)
    ensures
        match pull_error_kind(response.kind@) {
            Some(k) => r matches Err(e) && e.code == pull_exit_code(k) && pull_error_message_fits(
                response.kind@,
                e.message@,
            ),
            None => r matches Err(e) ==> e.code == 6 || e.code == 2,
        },
{
    match apply_pull_response_with_system_clipboard(response, max_decoded_bytes) {
        Ok(()) => Ok(()),
        Err(err) => {
            let code: i32 = if err.kind == PullApplyErrorKind::Clipboard {
                6
            } else {
                2
            };
            Err(ClientExit { code, message: err.message })
        },
    }
}

} // verus!
