//! The ways a command fails, and the text shown for each.

use vstd::prelude::*;
use vstd::string::StringExecFns;

verus! {

/// Why a command failed.
#[derive(Debug, PartialEq, Eq)]
pub enum CommandError {
    /// The store could not be reached or refused the request. `message` is
    /// the whole text shown to the caller.
    DatabaseError { message: String },
    /// A signup named an email that an account already has.
    DuplicateEmail,
    /// No account has the username, or the password does not fit its hash.
    InvalidCredentials,
    /// The account could not be read back with its identifier: either no
    /// record came back (`record_found` is false) or it carried none.
    IdentityMissing { record_found: bool },
    /// No record has the identifier, or the one that has it belongs to
    /// another owner.
    NotFound,
    /// A document matched by a search has no name or price of the right shape.
    MalformedRecord,
    /// An argument is empty or malformed. `message` says which.
    InvalidArgument { message: String },
    /// The password hash could not be computed or read.
    HashingError { message: String },
}

/// What a `CommandError` holds, as plain values.
pub enum ErrorView {
    DatabaseError { message: Seq<char> },
    DuplicateEmail,
    InvalidCredentials,
    IdentityMissing { record_found: bool },
    NotFound,
    MalformedRecord,
    InvalidArgument { message: Seq<char> },
    HashingError { message: Seq<char> },
}

impl View for CommandError {
    type V = ErrorView;

    open spec fn view(&self) -> ErrorView {
        match self {
            CommandError::DatabaseError { message } => ErrorView::DatabaseError {
                message: message@,
            },
            CommandError::DuplicateEmail => ErrorView::DuplicateEmail,
            CommandError::InvalidCredentials => ErrorView::InvalidCredentials,
            CommandError::IdentityMissing { record_found } => ErrorView::IdentityMissing {
                record_found: *record_found,
            },
            CommandError::NotFound => ErrorView::NotFound,
            CommandError::MalformedRecord => ErrorView::MalformedRecord,
            CommandError::InvalidArgument { message } => ErrorView::InvalidArgument {
                message: message@,
            },
            CommandError::HashingError { message } => ErrorView::HashingError {
                message: message@,
            },
        }
    }
}

impl DeepView for CommandError {
    type V = ErrorView;

    open spec fn deep_view(&self) -> ErrorView {
        self@
    }
}

/// The text shown to the caller for an error.
pub open spec fn error_text(e: ErrorView) -> Seq<char> {
    match e {
        ErrorView::DatabaseError { message } => message,
        ErrorView::DuplicateEmail => "Email already in use"@,
        ErrorView::InvalidCredentials => "Invalid username or password"@,
        ErrorView::IdentityMissing { record_found } => if record_found {
            "Failed to retrieve user ID"@
        } else {
            "Failed to retrieve user after insertion"@
        },
        ErrorView::NotFound => "No medicine found for the specified user and ID."@,
        ErrorView::MalformedRecord => "Failed to deserialize medicine document."@,
        ErrorView::InvalidArgument { message } => message,
        ErrorView::HashingError { message } => message,
    }
}

impl CommandError {
    /// The text shown to the caller: errors cross the command boundary as
    /// plain strings.
    pub fn message(&self) -> (text: String)
        ensures
            text@ == error_text(self@),
    {
        match self {
            CommandError::DatabaseError { message } => message.clone(),
            CommandError::DuplicateEmail => String::from_str("Email already in use"),
            CommandError::InvalidCredentials => String::from_str("Invalid username or password"),
            CommandError::IdentityMissing { record_found } => {
                if *record_found {
                    String::from_str("Failed to retrieve user ID")
                } else {
                    String::from_str("Failed to retrieve user after insertion")
                }
            },
            CommandError::NotFound => String::from_str(
                "No medicine found for the specified user and ID.",
            ),
            CommandError::MalformedRecord => String::from_str(
                "Failed to deserialize medicine document.",
            ),
            CommandError::InvalidArgument { message } => message.clone(),
            CommandError::HashingError { message } => message.clone(),
        }
    }
}

/// `prefix` followed by `detail`.
pub fn prefixed(prefix: &str, detail: &str) -> (text: String)
    ensures
        text@ == prefix@ + detail@,
{
    String::from_str(prefix).concat(detail)
}

} // verus!
