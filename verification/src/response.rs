//! The structured responses of the operation surface: a payload-bearing
//! success carrying a uuid, a bare success code, or an error with a
//! status-like code and a message.

use vstd::prelude::*;

verus! {

/// Spec-level image of a [`Response`].
pub ghost enum ResponseView {
    User { user_uuid: Seq<char> },
    Error { code: u16, message: Seq<char> },
    Success { code: u16 },
}

#[derive(Debug, Clone)]
pub enum Response {
    User { user_uuid: String },
    Error { code: u16, message: String },
    Success { code: u16 },
}

impl View for Response {
    type V = ResponseView;

    open spec fn view(&self) -> ResponseView {
        match self {
            Response::User { user_uuid } => ResponseView::User { user_uuid: user_uuid@ },
            Response::Error { code, message } => ResponseView::Error {
                code: *code,
                message: message@,
            },
            Response::Success { code } => ResponseView::Success { code: *code },
        }
    }
}

/// The response to a request that fails authentication.
pub open spec fn spec_auth_error() -> ResponseView {
    ResponseView::Error { code: 403, message: "Auth Error"@ }
}

/// The response when a uuid resolves to no record.
pub open spec fn spec_not_found() -> ResponseView {
    ResponseView::Error { code: 404, message: "Not Found"@ }
}

/// The response when a valid signature accompanies a hash that does not
/// match the stored one.
pub open spec fn spec_not_acceptable() -> ResponseView {
    ResponseView::Error { code: 406, message: "Not Acceptable"@ }
}

/// The response to a storage-level failure.
pub open spec fn spec_server_error(message: Seq<char>) -> ResponseView {
    ResponseView::Error { code: 500, message }
}

/// The payload-bearing success.
pub open spec fn spec_user_success(user_uuid: Seq<char>) -> ResponseView {
    ResponseView::User { user_uuid }
}

impl Response {
    pub fn auth_error() -> (r: Self)
        ensures
            r@ == spec_auth_error(),
    {
        Response::Error { code: 403, message: "Auth Error".to_owned() }
    }

    pub fn user_success(user_uuid: String) -> (r: Self)
        ensures
            r@ == spec_user_success(user_uuid@),
    {
        Response::User { user_uuid }
    }

    pub fn server_error(message: String) -> (r: Self)
        ensures
            r@ == spec_server_error(message@),
    {
        Response::Error { code: 500, message }
    }

    pub fn not_found() -> (r: Self)
        ensures
            r@ == spec_not_found(),
    {
        Response::Error { code: 404, message: "Not Found".to_owned() }
    }

    pub fn not_acceptable() -> (r: Self)
        ensures
            r@ == spec_not_acceptable(),
    {
        Response::Error { code: 406, message: "Not Acceptable".to_owned() }
    }

    pub fn success(code: u16) -> (r: Self)
        ensures
            r@ == (ResponseView::Success { code }),
    {
        Response::Success { code }
    }
}

} // verus!
