use vstd::prelude::*;

use crate::decimal::{nat_digits, push_u64};

verus! {

/// The ways a route search can fail.
#[derive(Debug)]
pub enum AppError {
    MissingApiKey,
    ApiError { status: u16, body: String },
    NetworkError(String),
    ParsingError(String),
    InvalidArgument(String),
}

impl AppError {
    /// The text that describes this error to a user.
    pub open spec fn spec_message(&self) -> Seq<char> {
        match self {
            AppError::MissingApiKey => "Missing API key: TOKEN_RAPIDAPI environment variable not set"@,
            AppError::ApiError { status, body } => "API error (HTTP "@ + nat_digits(*status as nat)
                + "): "@ + body@,
            AppError::NetworkError(msg) => "Network error: "@ + msg@,
            AppError::ParsingError(msg) => "Parsing error: "@ + msg@,
            AppError::InvalidArgument(msg) => "Invalid argument: "@ + msg@,
        }
    }

    /// The text that describes this error to a user, as its display form.
    pub fn message(&self) -> (s: String)
        ensures
            s@ == self.spec_message(),
    {
        match self {
            AppError::MissingApiKey => String::from_str(
                "Missing API key: TOKEN_RAPIDAPI environment variable not set",
            ),
            AppError::ApiError { status, body } => {
                let mut s = String::from_str("API error (HTTP ");
                push_u64(&mut s, *status as u64);
                s.append("): ");
                s.append(body.as_str());
                s
            },
            AppError::NetworkError(msg) => {
                let mut s = String::from_str("Network error: ");
                s.append(msg.as_str());
                s
            },
            AppError::ParsingError(msg) => {
                let mut s = String::from_str("Parsing error: ");
                s.append(msg.as_str());
                s
            },
            AppError::InvalidArgument(msg) => {
                let mut s = String::from_str("Invalid argument: ");
                s.append(msg.as_str());
                s
            },
        }
    }
}

/// The message of an error ends with the detail it carries: the body the
/// API sent, or the network, parsing or argument account; an API error also
/// names its HTTP status in decimal right before that body.
pub proof fn message_ends_with_detail(e: AppError)
    ensures
        match e {
            AppError::ApiError { status, body } => {
                let m = e.spec_message();
                let n = m.len() as int;
                let d = nat_digits(status as nat);
                &&& m.subrange(n - body@.len(), n) == body@
                &&& m.subrange(n - body@.len() - 3 - d.len(), n - body@.len() - 3) == d
            },
            AppError::NetworkError(msg) | AppError::ParsingError(msg) | AppError::InvalidArgument(
                msg,
            ) => e.spec_message().subrange(
                e.spec_message().len() - msg@.len(),
                e.spec_message().len() as int,
            ) == msg@,
            AppError::MissingApiKey => true,
        },
{
    reveal_strlit("): ");
    assert("): "@.len() == 3);
    match e {
        AppError::ApiError { status, body } => {
            let m = e.spec_message();
            let d = nat_digits(status as nat);
            let pre = "API error (HTTP "@;
            assert(m == pre + d + "): "@ + body@);
            assert(m.subrange(m.len() - body@.len(), m.len() as int) =~= body@);
            assert(m.subrange(m.len() - body@.len() - 3 - d.len(), m.len() - body@.len() - 3) =~= d);
        },
        AppError::NetworkError(msg) => {
            assert(e.spec_message().subrange(
                e.spec_message().len() - msg@.len(),
                e.spec_message().len() as int,
            ) =~= msg@);
        },
        AppError::ParsingError(msg) => {
            assert(e.spec_message().subrange(
                e.spec_message().len() - msg@.len(),
                e.spec_message().len() as int,
            ) =~= msg@);
        },
        AppError::InvalidArgument(msg) => {
            assert(e.spec_message().subrange(
                e.spec_message().len() - msg@.len(),
                e.spec_message().len() as int,
            ) =~= msg@);
        },
        AppError::MissingApiKey => {},
    }
}

} // verus!
