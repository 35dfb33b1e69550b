//! The error type of the CLI's fallible operations and the one-line message
//! each kind of error prints.
use vstd::prelude::*;
use crate::num::{push_signed_decimal, signed_decimal};
use crate::text::{push_str, to_owned_string};

verus! {

#[verifier::external_type_specification]
#[verifier::external_body]
pub struct ExIoError(std::io::Error);

/// Why a CLI operation failed.
#[derive(Debug, Clone, PartialEq, Eq)]
pub enum CrepusCliError {
    /// A file-system operation failed, on `path` when it is known.
    Io { path: Option<String>, message: String },
    /// Any other failure, explained by its message.
    Context(String),
    /// A child process failed, with its exit code when it had one.
    Command { code: Option<i32>, message: String },
}

/// `io::Error`'s `Display`: the text of an I/O error. Nothing is stated of
/// it: it comes from the operating system.
#[verifier::external_body]
fn io_error_text(err: &std::io::Error) -> (r: String) {
    err.to_string()
}

impl CrepusCliError {
    /// An error explained by `msg`.
    pub fn context(msg: String) -> (r: Self)
        ensures
            r == CrepusCliError::Context(msg),
    {
        CrepusCliError::Context(msg)
    }

    /// An I/O error on `path`, with the error's own text as the message.
    pub fn io(err: std::io::Error, path: Option<String>) -> (r: Self)
        ensures
            r is Io,
            r->Io_path == path,
    {
        let message = io_error_text(&err);
        Self::io_with_message(message, path)
    }

    /// An I/O error on `path` whose error text is `message`: what `io`
    /// builds once the text of the `io::Error` is known.
    pub fn io_with_message(message: String, path: Option<String>) -> (r: Self)
        ensures
            r == (CrepusCliError::Io { path, message }),
    {
        CrepusCliError::Io { path, message }
    }

    /// A failed command, with its exit code when known.
    pub fn command(code: Option<i32>, message: String) -> (r: Self)
        ensures
            r == (CrepusCliError::Command { code, message }),
    {
        CrepusCliError::Command { code, message }
    }

    /// The printed form of an error.
    pub open spec fn spec_message(self) -> Seq<char> {
        match self {
            CrepusCliError::Io { path: Some(p), message } => message@ + " ("@ + p@ + ")"@,
            CrepusCliError::Io { path: None, message } => message@,
            CrepusCliError::Context(message) => message@,
            CrepusCliError::Command { code: Some(c), message } =>
                message@ + " (exit code "@ + signed_decimal(c as int) + ")"@,
            CrepusCliError::Command { code: None, message } => message@,
        }
    }

    /// The one-line message of this error: the message, then the path of an
    /// I/O error or the exit code of a command in brackets when known.
    pub fn message(&self) -> (r: String)
        ensures
            r@ == self.spec_message(),
    {
        proof {
            reveal_strlit(" (");
            reveal_strlit(")");
            reveal_strlit(" (exit code ");
        }
        match self {
            CrepusCliError::Io { path: Some(p), message } => {
                let mut s = to_owned_string(message.as_str());
                push_str(&mut s, " (");
                push_str(&mut s, p.as_str());
                push_str(&mut s, ")");
                s
            },
            CrepusCliError::Io { path: None, message } => to_owned_string(message.as_str()),
            CrepusCliError::Context(message) => to_owned_string(message.as_str()),
            CrepusCliError::Command { code: Some(c), message } => {
                let mut s = to_owned_string(message.as_str());
                push_str(&mut s, " (exit code ");
                push_signed_decimal(&mut s, *c as i64);
                push_str(&mut s, ")");
                s
            },
            CrepusCliError::Command { code: None, message } => to_owned_string(message.as_str()),
        }
    }

    /// The error of a failed I/O operation whose path is not known.
    pub fn from_io(err: std::io::Error) -> (r: Self)
        ensures
            r is Io,
            r->Io_path is None,
    {
        let message = io_error_text(&err);
        Self::io_with_message(message, None)
    }
}

impl From<String> for CrepusCliError {
    fn from(message: String) -> (r: Self) {
        CrepusCliError::Context(message)
    }
}

impl vstd::std_specs::convert::FromSpecImpl<String> for CrepusCliError {
    open spec fn obeys_from_spec() -> bool {
        true
    }

    open spec fn from_spec(message: String) -> Self {
        CrepusCliError::Context(message)
    }
}

} // verus!
