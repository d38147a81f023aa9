//! What the read API answers when a request fails: the status code, the
//! message, and the JSON error body.

use vstd::prelude::*;
use crate::text::escaped;
use crate::text::json_escape;
use crate::text::spec_digits;
use crate::text::u64_to_string;

verus! {

/// The failures the read API distinguishes.
#[derive(Clone, Copy, PartialEq, Eq, Structural, Debug)]
pub enum ApiRejection {
    /// No route matched.
    NotFound,
    /// The store could not be read.
    Database,
    /// Anything else.
    Internal,
}

/// The status code and message relayed for a failure.
pub fn rejection_reply(rejection: &ApiRejection) -> (r: (u16, String))
    ensures
        match rejection {
            ApiRejection::NotFound => r.0 == 404 && r.1@ == "Not Found"@,
            ApiRejection::Database => r.0 == 500 && r.1@ == "Database Error"@,
            ApiRejection::Internal => r.0 == 500 && r.1@ == "Internal Server Error"@,
        },
{
    match rejection {
        ApiRejection::NotFound => (404, String::from_str("Not Found")),
        ApiRejection::Database => (500, String::from_str("Database Error")),
        ApiRejection::Internal => (500, String::from_str("Internal Server Error")),
    }
}

/// The JSON body of an error reply.
pub open spec fn spec_error_body(message: Seq<char>, status: nat) -> Seq<char> {
    "{\"error\":\""@ + escaped(message) + "\",\"status\":"@ + spec_digits(status) + "}"@
}

/// Builds the JSON body of an error reply.
pub fn error_body(message: &str, status: u16) -> (r: String)
    ensures
        r@ == spec_error_body(message@, status as nat),
{
    let mut body = String::from_str("{\"error\":\"");
    let escaped_message = json_escape(message);
    body.append(escaped_message.as_str());
    body.append("\",\"status\":");
    let status_text = u64_to_string(status as u64);
    body.append(status_text.as_str());
    body.append("}");
    proof {
        assert(body@ =~= spec_error_body(message@, status as nat));
    }
    body
}

} // verus!
