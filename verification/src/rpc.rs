//! Errors as the callers of the sandbox service see them.
use vstd::prelude::*;

use crate::text::text_eq;

verus! {

/// The kind of an error.
#[derive(Clone, Copy, Debug, PartialEq, Eq, Structural)]
pub enum Code {
    Cancelled,
    Unknown,
    InvalidArgument,
    NotFound,
    AlreadyExists,
    FailedPrecondition,
    Unavailable,
    Internal,
}

/// An error that a caller gets.
#[derive(Debug, PartialEq, Eq)]
pub struct RpcError {
    pub code: Code,
    pub message: String,
}

/// The contents of an [`RpcError`].
pub struct RpcErrorView {
    pub code: Code,
    pub message: Seq<char>,
}

impl View for RpcError {
    type V = RpcErrorView;

    open spec fn view(&self) -> RpcErrorView {
        RpcErrorView { code: self.code, message: self.message@ }
    }
}

/// An error of this kind with this message.
pub open spec fn rpc(code: Code, message: Seq<char>) -> RpcErrorView {
    RpcErrorView { code, message }
}

/// The result is this error.
pub open spec fn rejects<T>(r: Result<T, RpcError>, error: RpcErrorView) -> bool {
    r matches Err(e) && e@ == error
}

/// The result is an error where there is one, and a success elsewhere.
pub open spec fn rejects_if<T>(r: Result<T, RpcError>, error: Option<RpcErrorView>) -> bool {
    match error {
        Some(error) => rejects(r, error),
        None => r is Ok,
    }
}

/// An error of a kind with a message.
pub fn rpc_error(code: Code, message: String) -> (error: RpcError)
    ensures
        error@ == rpc(code, message@),
{
    RpcError { code, message }
}

/// The name of a kind.
pub open spec fn code_name(code: Code) -> Seq<char> {
    match code {
        Code::Cancelled => "CANCELLED"@,
        Code::Unknown => "UNKNOWN"@,
        Code::InvalidArgument => "INVALID_ARGUMENT"@,
        Code::NotFound => "NOT_FOUND"@,
        Code::AlreadyExists => "ALREADY_EXISTS"@,
        Code::FailedPrecondition => "FAILED_PRECONDITION"@,
        Code::Unavailable => "UNAVAILABLE"@,
        Code::Internal => "INTERNAL"@,
    }
}

/// The kind of a name; other names are of an unknown kind.
pub open spec fn code_named(name: Seq<char>) -> Code {
    if name == "CANCELLED"@ {
        Code::Cancelled
    } else if name == "INVALID_ARGUMENT"@ {
        Code::InvalidArgument
    } else if name == "NOT_FOUND"@ {
        Code::NotFound
    } else if name == "ALREADY_EXISTS"@ {
        Code::AlreadyExists
    } else if name == "FAILED_PRECONDITION"@ {
        Code::FailedPrecondition
    } else if name == "UNAVAILABLE"@ {
        Code::Unavailable
    } else if name == "INTERNAL"@ {
        Code::Internal
    } else {
        Code::Unknown
    }
}

fn name_of_code(code: Code) -> (name: &'static str)
    ensures
        name@ == code_name(code),
{
    match code {
        Code::Cancelled => "CANCELLED",
        Code::Unknown => "UNKNOWN",
        Code::InvalidArgument => "INVALID_ARGUMENT",
        Code::NotFound => "NOT_FOUND",
        Code::AlreadyExists => "ALREADY_EXISTS",
        Code::FailedPrecondition => "FAILED_PRECONDITION",
        Code::Unavailable => "UNAVAILABLE",
        Code::Internal => "INTERNAL",
    }
}

/// What is kept of an error: the name of its kind and its message.
pub fn rpc_failure_identity(error: &RpcError) -> (r: (String, String))
    ensures
        r.0@ == code_name(error@.code),
        r.1@ == error@.message,
{
    (name_of_code(error.code).to_owned(), error.message.clone())
}

/// The kind of a name.
pub fn rpc_code_from_name(name: &str) -> (code: Code)
    ensures
        code == code_named(name@),
{
    if text_eq(name, "CANCELLED") {
        Code::Cancelled
    } else if text_eq(name, "INVALID_ARGUMENT") {
        Code::InvalidArgument
    } else if text_eq(name, "NOT_FOUND") {
        Code::NotFound
    } else if text_eq(name, "ALREADY_EXISTS") {
        Code::AlreadyExists
    } else if text_eq(name, "FAILED_PRECONDITION") {
        Code::FailedPrecondition
    } else if text_eq(name, "UNAVAILABLE") {
        Code::Unavailable
    } else if text_eq(name, "INTERNAL") {
        Code::Internal
    } else {
        Code::Unknown
    }
}

/// The kind of an error is found again under the name that is kept of it.
pub proof fn law_codes_are_found_by_name(code: Code)
    ensures
        code_named(code_name(code)) == code,
{
    reveal_strlit("CANCELLED");
    reveal_strlit("UNKNOWN");
    reveal_strlit("INVALID_ARGUMENT");
    reveal_strlit("NOT_FOUND");
    reveal_strlit("ALREADY_EXISTS");
    reveal_strlit("FAILED_PRECONDITION");
    reveal_strlit("UNAVAILABLE");
    reveal_strlit("INTERNAL");
    assert("CANCELLED"@[0] == 'C');
    assert("NOT_FOUND"@[0] == 'N');
    assert("CANCELLED"@.len() == 9);
    assert("UNKNOWN"@.len() == 7);
    assert("INVALID_ARGUMENT"@.len() == 16);
    assert("NOT_FOUND"@.len() == 9);
    assert("ALREADY_EXISTS"@.len() == 14);
    assert("FAILED_PRECONDITION"@.len() == 19);
    assert("UNAVAILABLE"@.len() == 11);
    assert("INTERNAL"@.len() == 8);
}

/// An error with what else failed, where something did.
pub open spec fn appended(base: Seq<char>, operation: Seq<char>, error: Option<Seq<char>>) -> Seq<
    char,
> {
    match error {
        Some(error) => base + "; "@ + operation + ": "@ + error,
        None => base,
    }
}

/// An error with what else failed, where something did.
pub fn append_error(base: String, operation: &str, error: Option<String>) -> (message: String)
    ensures
        message@ == appended(base@, operation@, crate::text::opt_view(error)),
{
    match error {
        Some(error) => base.concat("; ").concat(operation).concat(": ").concat(error.as_str()),
        None => base,
    }
}

/// Each code is published under its own name, and a name that is none of them
/// is an unknown code.
pub proof fn law_unknown_names_are_unknown_codes(name: Seq<char>)
    ensures
        code_named("CANCELLED"@) == Code::Cancelled,
        code_named("UNKNOWN"@) == Code::Unknown,
        (forall|code: Code| name != #[trigger] code_name(code)) ==> code_named(name)
            == Code::Unknown,
        code_name(Code::FailedPrecondition) == "FAILED_PRECONDITION"@,
        code_name(Code::Unavailable) == "UNAVAILABLE"@,
        code_name(Code::AlreadyExists) == "ALREADY_EXISTS"@,
        code_name(Code::InvalidArgument) == "INVALID_ARGUMENT"@,
        code_name(Code::NotFound) == "NOT_FOUND"@,
        code_name(Code::Internal) == "INTERNAL"@,
{
    law_codes_are_found_by_name(Code::Cancelled);
    law_codes_are_found_by_name(Code::Unknown);
    assert(code_name(Code::Cancelled) == "CANCELLED"@);
    assert(code_name(Code::InvalidArgument) == "INVALID_ARGUMENT"@);
    assert(code_name(Code::NotFound) == "NOT_FOUND"@);
    assert(code_name(Code::AlreadyExists) == "ALREADY_EXISTS"@);
    assert(code_name(Code::FailedPrecondition) == "FAILED_PRECONDITION"@);
    assert(code_name(Code::Unavailable) == "UNAVAILABLE"@);
    assert(code_name(Code::Internal) == "INTERNAL"@);
}

/// A further failure is told behind the first, with what failed; without one
/// the first stays as it is.
pub proof fn law_further_failures_are_told(
    base: Seq<char>,
    operation: Seq<char>,
    error: Seq<char>,
)
    ensures
        appended(base, operation, None) == base,
        appended(base, operation, Some(error)) == base + "; "@ + operation + ": "@ + error,
{
}

/// A call is refused with its error and no other, and passes where there is
/// none.
pub proof fn law_calls_are_refused_with_their_error(error: RpcErrorView, found: RpcError)
    ensures
        rejects::<()>(Err(found), error) == (found.code == error.code && found.message@
            == error.message),
        !rejects::<()>(Ok(()), error),
        rejects_if::<()>(Ok(()), None),
        !rejects_if::<()>(Err(found), None),
        !rejects_if::<()>(Ok(()), Some(error)),
        rejects_if::<()>(Err(found), Some(error)) == rejects::<()>(Err(found), error),
        rpc(error.code, error.message) == error,
{
}

} // verus!
