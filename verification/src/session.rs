//! The authenticated session: building each call and deciding what its
//! response means.
//!
//! The session logic is split from the wire: a method here either builds a
//! request (full URI, credentials or bearer token) for the surrounding
//! program to send, or takes the status, headers and body the server
//! answered and decides what they yield — a session, a parsed JSON value, an
//! unread total, or an error.

use vstd::prelude::*;
use vstd::string::StrSliceExecFns;
use vstd::string::StringExecFns;

use crate::error::MattermostError;
use crate::json::{field_text_of, index_field, json_canon, parse_json, text_of, value_to_text};
use crate::text::{spec_strip_quotes, strip_quotes};
use crate::unread::{parse_unread_items, spec_msg_sum, sum_msg_counts, unread_items_of};

verus! {

/// The HTTP method of a call.
#[derive(Clone, Copy, Debug, PartialEq, Eq, Structural)]
pub enum Method {
    Get,
    Post,
}

/// An authenticated endpoint call, ready for the surrounding program to
/// send: the full URI and the bearer token to attach.
pub struct HttpRequest {
    pub method: Method,
    pub uri: String,
    pub bearer: String,
}

/// The login call, ready to send: the full URI and the credentials that form
/// its JSON body.
pub struct LoginRequest {
    pub uri: String,
    pub login_id: String,
    pub password: String,
}

/// An authenticated session: the identity and bearer token of one login.
pub struct MattermostSession {
    pub host: String,
    pub login_id: String,
    pub user_id: String,
    pub token: String,
}

/// Whether an HTTP status reports success.
pub open spec fn spec_is_success(status: u16) -> bool {
    200 <= status < 300
}

/// The URI of the login endpoint on `host`.
pub open spec fn spec_login_uri(host: Seq<char>) -> Seq<char> {
    "http://"@ + host + "/api/v4/users/login"@
}

/// The URI of the endpoint `endpoint` on `host`.
pub open spec fn spec_endpoint_uri(host: Seq<char>, endpoint: Seq<char>) -> Seq<char> {
    "http://"@ + host + "/api/v4"@ + endpoint
}

/// The endpoint path of the unread-counts call for `user_id`.
pub open spec fn spec_unread_endpoint(user_id: Seq<char>) -> Seq<char> {
    "/users/"@ + user_id + "/teams/unread"@
}

/// The user id a login body yields: the compact text of the body's `id`
/// member with every quote character removed. Meaningful only when the body
/// is valid JSON.
pub open spec fn spec_user_id(body: Seq<char>) -> Seq<char> {
    spec_strip_quotes(field_text_of(json_canon(body).unwrap(), "id"@))
}

/// Whether an HTTP status reports success.
pub fn is_success(status: u16) -> (r: bool)
    ensures
        r == spec_is_success(status),
{
    200 <= status && status < 300
}

impl MattermostSession {
    /// The login call for `host`: a POST to the login endpoint whose JSON
    /// body carries the credentials.
    pub fn login_request(host: &str, login_id: &str, password: &str) -> (r: LoginRequest)
        ensures
            r.uri@ == spec_login_uri(host@),
            r.login_id@ == login_id@,
            r.password@ == password@,
    {
        let mut uri = String::from_str("http://");
        uri.append(host);
        uri.append("/api/v4/users/login");
        LoginRequest { uri, login_id: login_id.to_owned(), password: password.to_owned() }
    }

    /// What the login response yields. A non-success status is the server's
    /// failure, its body kept verbatim; a missing or unusable `token` header
    /// fails on its own; a body that is not valid JSON fails; otherwise the
    /// session is built, its user id taken from the body's `id` member with
    /// the quotes stripped.
    pub fn from_login_response(
        host: &str,
        login_id: &str,
        status: u16,
        token: Option<String>,
        body: String,
    ) -> (r: Result<MattermostSession, MattermostError>)
        ensures
            !spec_is_success(status) ==> (r matches Err(MattermostError::Api { msg }) && msg@
                == body@),
            spec_is_success(status) && token is None ==> (r matches Err(e) && e is MissingToken),
            spec_is_success(status) && token is Some && json_canon(body@) is None ==> (r matches Err(
                e,
            ) && e is Protocol),
            r is Ok <==> (spec_is_success(status) && token is Some && json_canon(body@) is Some),
            r matches Ok(s) ==> {
                &&& s.host@ == host@
                &&& s.login_id@ == login_id@
                &&& s.token@ == token.unwrap()@
                &&& s.user_id@ == spec_user_id(body@)
            },
    {
        if !is_success(status) {
            return Err(MattermostError::Api { msg: body });
        }
        let token = match token {
            Some(t) => t,
            None => {
                return Err(MattermostError::MissingToken);
            },
        };
        let data = match parse_json(body.as_str()) {
            Some(v) => v,
            None => {
                return Err(
                    MattermostError::Protocol {
                        msg: String::from_str("login response body is not valid JSON"),
                    },
                );
            },
        };
        let id_value = index_field(&data, "id");
        let id_text = value_to_text(id_value);
        let user_id = strip_quotes(id_text.as_str());
        Ok(
            MattermostSession {
                host: host.to_owned(),
                login_id: login_id.to_owned(),
                user_id,
                token,
            },
        )
    }

    /// The authenticated call of `endpoint` on this session's host, with the
    /// session's bearer token attached.
    pub fn endpoint_request(&self, method: Method, endpoint: &str) -> (r: HttpRequest)
        ensures
            r.uri@ == spec_endpoint_uri(self.host@, endpoint@),
            r.bearer@ == self.token@,
            r.method == method,
    {
        let mut uri = String::from_str("http://");
        uri.append(self.host.as_str());
        uri.append("/api/v4");
        uri.append(endpoint);
        HttpRequest { method, uri, bearer: self.token.clone() }
    }

    /// What a response to an authenticated call means: a non-success status
    /// is the server's failure, its body kept verbatim; a success body must
    /// be valid JSON and is returned parsed.
    pub fn handle_response(status: u16, body: String) -> (r: Result<
        serde_json::Value,
        MattermostError,
    >)
        ensures
            !spec_is_success(status) ==> (r matches Err(MattermostError::Api { msg }) && msg@
                == body@),
            spec_is_success(status) && json_canon(body@) is None ==> (r matches Err(e)
                && e is Protocol),
            spec_is_success(status) ==> (json_canon(body@) matches Some(t) ==> (r matches Ok(v)
                && text_of(v) == t)),
            r is Ok <==> (spec_is_success(status) && json_canon(body@) is Some),
    {
        if !is_success(status) {
            return Err(MattermostError::Api { msg: body });
        }
        match parse_json(body.as_str()) {
            Some(v) => Ok(v),
            None => Err(
                MattermostError::Protocol {
                    msg: String::from_str("response body is not valid JSON"),
                },
            ),
        }
    }

    /// The profile call: GET `/users/me` on this session.
    pub fn get_me_request(&self) -> (r: HttpRequest)
        ensures
            r.uri@ == spec_endpoint_uri(self.host@, "/users/me"@),
            r.bearer@ == self.token@,
            r.method == Method::Get,
    {
        self.endpoint_request(Method::Get, "/users/me")
    }

    /// The unread-counts call: GET the authenticated user's per-team unread
    /// summaries.
    pub fn unread_request(&self) -> (r: HttpRequest)
        ensures
            r.uri@ == spec_endpoint_uri(self.host@, spec_unread_endpoint(self.user_id@)),
            r.bearer@ == self.token@,
            r.method == Method::Get,
    {
        let mut endpoint = String::from_str("/users/");
        endpoint.append(self.user_id.as_str());
        endpoint.append("/teams/unread");
        self.endpoint_request(Method::Get, endpoint.as_str())
    }

    /// The logout call: POST `/users/logout`. Consumes the session, so no
    /// further call can be built from it.
    pub fn logout_request(self) -> (r: HttpRequest)
        ensures
            r.uri@ == spec_endpoint_uri(self.host@, "/users/logout"@),
            r.bearer@ == self.token@,
            r.method == Method::Post,
    {
        self.endpoint_request(Method::Post, "/users/logout")
    }

    /// The unread message total a parsed unread-counts value yields: its
    /// compact text decoded as an array of per-team summaries and the
    /// message counts summed exactly, mentions ignored. Fails when the text
    /// is not such an array or the sum does not fit in a u32.
    pub fn unread_count_from_value(v: &serde_json::Value) -> (r: Result<u32, MattermostError>)
        ensures
            unread_items_of(text_of(*v)) is None ==> (r matches Err(e) && e is Protocol),
            unread_items_of(text_of(*v)) matches Some(m) ==> {
                &&& spec_msg_sum(m) <= u32::MAX ==> (r matches Ok(n) && n == spec_msg_sum(m))
                &&& spec_msg_sum(m) > u32::MAX ==> (r matches Err(e) && e is Protocol)
            },
    {
        let text = value_to_text(v);
        let items = match parse_unread_items(text.as_str()) {
            Some(items) => items,
            None => {
                return Err(
                    MattermostError::Protocol {
                        msg: String::from_str("response is not an array of unread summaries"),
                    },
                );
            },
        };
        match sum_msg_counts(&items) {
            Some(n) => Ok(n),
            None => Err(
                MattermostError::Protocol {
                    msg: String::from_str("unread message total does not fit in a u32"),
                },
            ),
        }
    }

    /// What a response to the unread-counts call yields: the failure rules
    /// of `handle_response`, then the exact unread message total of
    /// `unread_count_from_value`.
    pub fn unread_count_from_response(status: u16, body: String) -> (r: Result<
        u32,
        MattermostError,
    >)
        ensures
            !spec_is_success(status) ==> (r matches Err(MattermostError::Api { msg }) && msg@
                == body@),
            spec_is_success(status) && json_canon(body@) is None ==> (r matches Err(e)
                && e is Protocol),
            spec_is_success(status) ==> (json_canon(body@) matches Some(t) ==> {
                &&& unread_items_of(t) is None ==> (r matches Err(e) && e is Protocol)
                &&& unread_items_of(t) matches Some(m) ==> {
                    &&& spec_msg_sum(m) <= u32::MAX ==> (r matches Ok(n) && n == spec_msg_sum(m))
                    &&& spec_msg_sum(m) > u32::MAX ==> (r matches Err(e) && e is Protocol)
                }
            }),
    {
        let data = match Self::handle_response(status, body) {
            Ok(v) => v,
            Err(e) => {
                return Err(e);
            },
        };
        Self::unread_count_from_value(&data)
    }
}

} // verus!
