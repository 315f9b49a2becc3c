//! A verified core for a command-line text translator that talks to two
//! third-party machine-translation HTTP services (Baidu and Youdao).
//!
//! The library covers everything that can be stated and checked: language
//! code mapping, request signing (salt, timestamp and keyed digest over the
//! ordered field concatenation), and the two-phase tolerant classification
//! of response bodies (success schema, then error schema, then a structured
//! deserialization failure). The HTTP transport, configuration loading and
//! the interactive loop are the caller's concern: the caller performs the
//! POST with the prepared field set and hands the raw outcome back.

pub mod api;
pub mod decimal;
pub mod digest;
pub mod error;
pub mod hex;
pub mod json;
pub mod language;
mod nonce;

use vstd::prelude::*;

verus! {

/// Identity of a supported translation provider. Used as a lookup key for
/// language codes and as the tag carried by every structured error.
#[derive(Clone, Copy, Debug, Hash, PartialEq, Eq, Structural)]
pub enum Api {
    Baidu,
    Youdao,
}

/// The provider's name as it appears in rendered error messages.
pub open spec fn api_name(api: Api) -> Seq<char> {
    match api {
        Api::Baidu => "Baidu"@,
        Api::Youdao => "Youdao"@,
    }
}

impl Api {
    /// Human-readable provider name, one word, as used in error displays.
    pub fn name(&self) -> (r: &'static str)
        ensures
            r@ == api_name(*self),
    {
        match self {
            Api::Baidu => "Baidu",
            Api::Youdao => "Youdao",
        }
    }
}

} // verus!
