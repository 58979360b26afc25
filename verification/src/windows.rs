//! The deciding half of each operating-system call that the library relies on.
//!
//! The calls themselves are made elsewhere. Each function here is named after
//! a call and takes what that call returned, together with the calling
//! thread's last error code as it was read right after the call, and gives
//! what the caller is to see: the value, or the error that the call left.

use crate::text::{cut_message, decoded, from_wide, message_text};
use vstd::prelude::*;

verus! {

/// The code with which the system answers a text that holds a surrogate
/// without its partner.
pub const ERROR_NO_UNICODE_TRANSLATION: u32 = 1113;

/// The system allocates the buffer of a formatted message itself.
pub const FORMAT_MESSAGE_ALLOCATE_BUFFER: u32 = 0x0000_0100;

/// Insert sequences in a message definition are left as they are.
pub const FORMAT_MESSAGE_IGNORE_INSERTS: u32 = 0x0000_0200;

/// The message definition is looked up in the system's own tables.
pub const FORMAT_MESSAGE_FROM_SYSTEM: u32 = 0x0000_1000;

/// The primary language identifier that names no language.
pub const LANG_NEUTRAL: u16 = 0x00;

/// The sublanguage identifier of the user's default.
pub const SUBLANG_DEFAULT: u16 = 0x01;

/// A status code of the operating system, as a failed call left it.
#[derive(Clone, Copy, Debug, PartialEq, Eq, Hash, Structural)]
pub struct ErrorCode {
    pub code: u32,
}

/// The handle of a loaded module. As `get_module_handle` gives it, it is not
/// null.
#[derive(Clone, Copy, Debug, PartialEq, Eq, Hash, Structural)]
pub struct ModuleHandle {
    pub raw: usize,
}

/// What a call that reports success by a non-zero status gives its caller.
pub open spec fn status_outcome(status: i32, last_error: u32) -> Result<(), ErrorCode> {
    if status == 0 {
        Err(ErrorCode { code: last_error })
    } else {
        Ok(())
    }
}

/// The outcome of adding the console control handler to the process's list,
/// or of removing it: the call failed exactly if its status is zero.
pub fn set_console_ctrl_handler(status: i32, last_error: u32) -> (outcome: Result<(), ErrorCode>)
    ensures
        outcome == status_outcome(status, last_error),
{
    if status == 0 {
        Err(ErrorCode { code: last_error })
    } else {
        Ok(())
    }
}

/// The outcome of posting a message to a thread's queue: the call failed
/// exactly if its status is zero.
pub fn post_thread_message(status: i32, last_error: u32) -> (outcome: Result<(), ErrorCode>)
    ensures
        outcome == status_outcome(status, last_error),
{
    if status == 0 {
        Err(ErrorCode { code: last_error })
    } else {
        Ok(())
    }
}

/// The outcome of posting a message to a window: the call failed exactly if
/// its status is zero.
pub fn post_message(status: i32, last_error: u32) -> (outcome: Result<(), ErrorCode>)
    ensures
        outcome == status_outcome(status, last_error),
{
    if status == 0 {
        Err(ErrorCode { code: last_error })
    } else {
        Ok(())
    }
}

/// The outcome of asking for the handle of the running module: the call
/// failed exactly if it returned a null handle.
pub fn get_module_handle(raw: usize, last_error: u32) -> (outcome: Result<ModuleHandle, ErrorCode>)
    ensures
        outcome == if raw == 0 {
            Err::<ModuleHandle, ErrorCode>(ErrorCode { code: last_error })
        } else {
            Ok(ModuleHandle { raw })
        },
{
    if raw == 0 {
        Err(ErrorCode { code: last_error })
    } else {
        Ok(ModuleHandle { raw })
    }
}

/// The outcome of registering a message name: the identifier that the system
/// gave to the name, or the error where it gave none and returned zero.
pub fn register_window_message(identifier: u32, last_error: u32) -> (outcome: Result<
    u32,
    ErrorCode,
>)
    ensures
        outcome == if identifier == 0 {
            Err::<u32, ErrorCode>(ErrorCode { code: last_error })
        } else {
            Ok(identifier)
        },
{
    if identifier == 0 {
        Err(ErrorCode { code: last_error })
    } else {
        Ok(identifier)
    }
}

/// Whether an enumeration of the top-level windows ran to its end: it did
/// unless its status is zero.
pub fn enum_windows(status: i32) -> (completed: bool)
    ensures
        completed == (status != 0),
{
    status != 0
}

/// A language identifier: the sublanguage in the upper six bits, the primary
/// language in the lower ten.
pub fn make_lang_id(primary: u16, sub: u16) -> (id: u16)
    ensures
        id == (sub << 10) | primary,
        primary < 0x400 && sub < 0x40 ==> id == sub * 0x400 + primary,
{
    assert(primary < 0x400 && sub < 0x40 ==> (sub << 10) | primary == sub * 0x400 + primary)
        by (bit_vector);
    (sub << 10) | primary
}

/// What the system is asked when the text of an error code is wanted.
#[derive(Clone, Copy, Debug, PartialEq, Eq, Structural)]
pub struct FormatRequest {
    /// Where the message is looked up and how it is returned.
    pub flags: u32,
    /// The code whose text is wanted.
    pub code: u32,
    /// The language in which it is wanted.
    pub language: u32,
}

/// The request for the text of `code`: from the system's tables, in the
/// user's default language, with inserts left alone, into a buffer that the
/// system allocates.
pub fn format_request(code: ErrorCode) -> (request: FormatRequest)
    ensures
        request.code == code.code,
        request.flags == 0x1300,
        request.language == 0x400,
{
    assert(0x0000_0100u32 | 0x0000_1000u32 | 0x0000_0200u32 == 0x1300u32) by (bit_vector);
    let language = make_lang_id(LANG_NEUTRAL, SUBLANG_DEFAULT);
    FormatRequest {
        flags: FORMAT_MESSAGE_ALLOCATE_BUFFER | FORMAT_MESSAGE_FROM_SYSTEM
            | FORMAT_MESSAGE_IGNORE_INSERTS,
        code: code.code,
        language: language as u32,
    }
}

/// What the caller is to see of an error code's text. Where the system
/// stored no units it failed, and left the error of that failure. Units that
/// encode no text are answered with `ERROR_NO_UNICODE_TRANSLATION`. Otherwise
/// the text is handed out, cut as `message_text` says.
pub open spec fn formatted(units: Seq<u16>, last_error: u32) -> Result<Seq<char>, ErrorCode> {
    if units.len() == 0 {
        Err(ErrorCode { code: last_error })
    } else {
        match decoded(units) {
            Some(text) => Ok(message_text(text)),
            None => Err(ErrorCode { code: ERROR_NO_UNICODE_TRANSLATION }),
        }
    }
}

/// The text of an error code, from what the system wrote for it.
///
/// `units` are the UTF-16 code units that the system stored, none where it
/// failed; `last_error` is the error that it left in that case.
pub fn format_error(units: &[u16], last_error: u32) -> (outcome: Result<String, ErrorCode>)
    ensures
        match outcome {
            Ok(message) => formatted(units@, last_error) == Ok::<Seq<char>, ErrorCode>(message@),
            Err(error) => formatted(units@, last_error) == Err::<Seq<char>, ErrorCode>(error),
        },
{
    if units.len() == 0 {
        return Err(ErrorCode { code: last_error });
    }
    match from_wide(units) {
        Some(chars) => Ok(cut_message(chars.as_slice())),
        None => Err(ErrorCode { code: ERROR_NO_UNICODE_TRANSLATION }),
    }
}

/// A failed formatting is reported as an error, never as an empty text:
/// where the system stored nothing, the caller gets the error that it left.
pub proof fn lemma_failed_formatting_is_an_error(last_error: u32)
    ensures
        formatted(Seq::empty(), last_error) == Err::<Seq<char>, ErrorCode>(
            ErrorCode { code: last_error },
        ),
{
}

} // verus!
