//! The structured error every provider call can surface: tagged with the
//! provider's identity, an error kind, and a human-readable detail string.

use vstd::prelude::*;
use vstd::string::StringExecFns;

use crate::{api_name, Api};

verus! {

/// The fixed diagnostic carried when a response body matches neither the
/// success schema nor the provider's error schema.
pub const DESERIALIZE_RESPONSE_ERR_MSG: &'static str = "Cannot deserialize the API response";

/// The kind of a structured error.
#[derive(Clone, Copy, Debug, PartialEq, Eq, Structural)]
pub enum ErrCode {
    RequestError,
    DeserializeError,
    ApiError,
}

/// The kind's name as it appears in rendered error messages.
pub open spec fn err_code_name(code: ErrCode) -> Seq<char> {
    match code {
        ErrCode::RequestError => "RequestError"@,
        ErrCode::DeserializeError => "DeserializeError"@,
        ErrCode::ApiError => "ApiError"@,
    }
}

impl ErrCode {
    /// Human-readable kind name, as used in error displays.
    pub fn name(&self) -> (r: &'static str)
        ensures
            r@ == err_code_name(*self),
    {
        match self {
            ErrCode::RequestError => "RequestError",
            ErrCode::DeserializeError => "DeserializeError",
            ErrCode::ApiError => "ApiError",
        }
    }
}

/// Ghost model of a structured error.
pub struct ErrorV {
    pub api: Api,
    pub code: ErrCode,
    pub info: Seq<char>,
}

/// A structured error: which provider failed, how, and the detail text that
/// is surfaced verbatim to the user.
#[derive(Debug)]
pub struct Error {
    pub api: Api,
    pub code: ErrCode,
    pub info: String,
}

impl View for Error {
    type V = ErrorV;

    open spec fn view(&self) -> ErrorV {
        ErrorV { api: self.api, code: self.code, info: self.info@ }
    }
}

/// How a structured error renders: `[provider][kind]: detail`.
pub open spec fn error_display(e: ErrorV) -> Seq<char> {
    "["@ + api_name(e.api) + "]["@ + err_code_name(e.code) + "]: "@ + e.info
}

impl Error {
    /// Builds a structured error from its three parts.
    pub fn new(api: Api, code: ErrCode, info: &str) -> (r: Self)
        ensures
            r@ == (ErrorV { api, code, info: info@ }),
    {
        Error { api, code, info: String::from_str(info) }
    }

    /// The error rendered for the user, one line: `[provider][kind]: detail`.
    pub fn to_display_string(&self) -> (r: String)
        ensures
            r@ == error_display(self@),
    {
        let mut s = String::from_str("[");
        s.append(self.api.name());
        s.append("][");
        s.append(self.code.name());
        s.append("]: ");
        s.append(self.info.as_str());
        proof {
            reveal_strlit("[");
            reveal_strlit("][");
            reveal_strlit("]: ");
            assert(s@ =~= error_display(self@));
        }
        s
    }
}

} // verus!
