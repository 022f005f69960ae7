//! The error value that a failed call reports.

use vstd::prelude::*;
use vstd::string::StringExecFns;

verus! {

/// What a failed call reports.
///
/// `Api` carries the server's response body verbatim when the status was not
/// a success. `MissingToken` marks a login response whose `token` header was
/// absent or unusable. `Protocol` marks a response body that could not be
/// decoded as the call expects.
#[derive(Debug)]
pub enum MattermostError {
    Api { msg: String },
    MissingToken,
    Protocol { msg: String },
}

impl MattermostError {
    /// The error's text, for the surrounding program to display.
    pub fn message(&self) -> (r: String)
        ensures
            self matches MattermostError::Api { msg } ==> r@ == msg@,
            self matches MattermostError::Protocol { msg } ==> r@ == msg@,
            self is MissingToken ==> r@ == "login response carried no usable token header"@,
    {
        match self {
            MattermostError::Api { msg } => msg.clone(),
            MattermostError::MissingToken => String::from_str(
                "login response carried no usable token header",
            ),
            MattermostError::Protocol { msg } => msg.clone(),
        }
    }

    /// Whether this is the server's own failure report, body kept verbatim.
    pub fn is_api(&self) -> (r: bool)
        ensures
            r == (self is Api),
    {
        match self {
            MattermostError::Api { .. } => true,
            _ => false,
        }
    }
}

} // verus!
