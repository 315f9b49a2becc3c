//! The provider abstraction: one capability — translate text between two
//! languages — implemented once per provider as sign, transport, parse.
//! The transport is the caller's: `prepare` hands it the complete signed
//! field set for the provider's endpoint, and `complete` takes the raw
//! outcome of the POST back and classifies it.

pub mod baidu;
pub mod youdao;

use vstd::prelude::*;

use crate::error::{ErrCode, Error, ErrorV};
use crate::json::json_of;
use crate::language::Language;
use crate::Api;

pub use baidu::BaiduApi;
pub use youdao::YoudaoApi;

verus! {

/// Lines joined for display: every line is followed by a newline.
pub open spec fn join_lines(lines: Seq<Seq<char>>) -> Seq<char>
    decreases lines.len(),
{
    if lines.len() == 0 {
        Seq::empty()
    } else {
        join_lines(lines.drop_last()) + lines.last().push('\n')
    }
}

/// The ghost model of an outbound field list: name and value of each field,
/// in wire order.
pub open spec fn pairs_model(p: Seq<(String, String)>) -> Seq<(Seq<char>, Seq<char>)> {
    Seq::new(p.len(), |i: int| (p[i].0@, p[i].1@))
}

/// Ghost model of a successful translation, tagged by provider.
pub enum TranslationV {
    Baidu(baidu::BaiduTranslationResponseV),
    Youdao(youdao::YoudaoTranslationResponseV),
}

/// A successful translation, tagged by the provider that produced it.
pub enum Translation {
    Baidu(baidu::BaiduTranslationResponse),
    Youdao(youdao::YoudaoTranslationResponse),
}

impl View for Translation {
    type V = TranslationV;

    open spec fn view(&self) -> TranslationV {
        match self {
            Translation::Baidu(t) => TranslationV::Baidu(t@),
            Translation::Youdao(t) => TranslationV::Youdao(t@),
        }
    }
}

/// A translation result that can be rendered for the user, one line per
/// translated segment.
pub trait DisplayTranslation {
    /// The text this result renders to.
    spec fn rendered(&self) -> Seq<char>;

    /// Renders the result, one line per translated segment.
    fn render(&self) -> (r: String)
        ensures
            r@ == self.rendered(),
    ;
}

impl DisplayTranslation for Translation {
    open spec fn rendered(&self) -> Seq<char> {
        match self {
            Translation::Baidu(t) => t.rendered(),
            Translation::Youdao(t) => t.rendered(),
        }
    }

    fn render(&self) -> (r: String) {
        match self {
            Translation::Baidu(t) => t.render(),
            Translation::Youdao(t) => t.render(),
        }
    }
}

/// The error carried when a body matches neither schema of the provider.
pub open spec fn deserialize_error_v(api: Api) -> ErrorV {
    ErrorV {
        api,
        code: ErrCode::DeserializeError,
        info: "Cannot deserialize the API response"@,
    }
}

/// The provider's successfully-parsed translation for a document, if the
/// document matches the provider's success schema.
pub open spec fn success_of(api: Api, j: crate::json::JsonV) -> Option<TranslationV> {
    match api {
        Api::Baidu => match baidu::baidu_success_of(j) {
            Some(t) => Some(TranslationV::Baidu(t)),
            None => None,
        },
        Api::Youdao => match youdao::youdao_success_of(j) {
            Some(t) => Some(TranslationV::Youdao(t)),
            None => None,
        },
    }
}

/// The provider's own error text for a document, if the document matches the
/// provider's error schema.
pub open spec fn error_of(api: Api, j: crate::json::JsonV) -> Option<Seq<char>> {
    match api {
        Api::Baidu => baidu::baidu_error_of(j),
        Api::Youdao => youdao::youdao_error_of(j),
    }
}

/// Two-phase tolerant classification of a response body: the success schema
/// first, then the provider's error schema, then the structured
/// deserialization failure. Order matters: a body matching the success
/// schema is never classified as an error.
pub open spec fn classify_v(api: Api, body: Seq<char>) -> Result<TranslationV, ErrorV> {
    match json_of(body) {
        None => Err(deserialize_error_v(api)),
        Some(j) => match success_of(api, j) {
            Some(t) => Ok(t),
            None => match error_of(api, j) {
                Some(msg) => Err(ErrorV { api, code: ErrCode::ApiError, info: msg }),
                None => Err(deserialize_error_v(api)),
            },
        },
    }
}

/// What a parse result must be: exactly the classification of the body.
pub open spec fn classified(api: Api, body: Seq<char>, r: Result<Translation, Error>) -> bool {
    match r {
        Ok(t) => classify_v(api, body) == Ok::<TranslationV, ErrorV>(t@),
        Err(e) => classify_v(api, body) == Err::<TranslationV, ErrorV>(e@),
    }
}

/// The uniform per-provider capability. A call is one synchronous
/// transaction: `prepare` builds the signed field set, the caller POSTs it
/// to `url` as a form, and `complete` turns the transport outcome into a
/// translation or a structured error.
pub trait Translate: Sized {
    /// The provider this implementation talks to.
    spec fn api_id(&self) -> Api;

    /// The endpoint the prepared field set must be POSTed to.
    spec fn endpoint(&self) -> Seq<char>;

    /// What the prepared field set looks like for this provider: the exact
    /// ordered fields, for some per-request nonce (and timestamp where the
    /// provider signs one).
    spec fn prepared_ok(
        &self,
        text: Seq<char>,
        src: Language,
        target: Language,
        fields: Seq<(Seq<char>, Seq<char>)>,
    ) -> bool;

    /// The endpoint URL.
    fn url(&self) -> (u: &str)
        ensures
            u@ == self.endpoint(),
    ;

    /// Builds the complete, ready-to-transmit signed field set for one
    /// request. Pure computation apart from drawing the nonce (and reading
    /// the clock where the provider signs a timestamp).
    fn prepare(&self, text: &str, src: &Language, target: &Language) -> (p: Vec<(String, String)>)
        ensures
            self.prepared_ok(text@, *src, *target, pairs_model(p@)),
    ;

    /// Classifies a raw response body: success schema, then error schema,
    /// then the structured deserialization failure.
    fn parse_response(&self, response: &str) -> (r: Result<Translation, Error>)
        ensures
            classified(self.api_id(), response@, r),
    ;

    /// Turns the transport outcome into the call's result: a transport
    /// failure becomes a `RequestError`, a body is classified.
    fn complete(&self, outcome: Result<String, String>) -> (r: Result<Translation, Error>)
        ensures
            (match outcome {
                Ok(body) => classified(self.api_id(), body@, r),
                Err(detail) => (match r {
                    Ok(_) => false,
                    Err(e) => e@ == (ErrorV {
                        api: self.api_id(),
                        code: ErrCode::RequestError,
                        info: detail@,
                    }),
                }),
            }),
    ;
}

/// A body whose document matches the provider's success schema is never
/// classified as an error, whatever else the document holds.
pub proof fn lemma_success_never_misclassified(api: Api, body: Seq<char>, j: crate::json::JsonV)
    requires
        json_of(body) == Some(j),
        success_of(api, j) is Some,
    ensures
        classify_v(api, body) == Ok::<TranslationV, ErrorV>(success_of(api, j).unwrap()),
{
}

/// A body whose document matches only the provider's error schema yields an
/// `ApiError` carrying the provider's own message.
pub proof fn lemma_error_schema_yields_api_error(api: Api, body: Seq<char>, j: crate::json::JsonV)
    requires
        json_of(body) == Some(j),
        success_of(api, j) is None,
        error_of(api, j) is Some,
    ensures
        classify_v(api, body) == Err::<TranslationV, ErrorV>(ErrorV {
            api,
            code: ErrCode::ApiError,
            info: error_of(api, j).unwrap(),
        }),
{
}

/// A body matching neither schema — or no JSON document at all — yields the
/// structured deserialization failure with its fixed diagnostic text.
pub proof fn lemma_unmatched_yields_deserialize_error(api: Api, body: Seq<char>)
    requires
        (match json_of(body) {
            None => true,
            Some(j) => success_of(api, j) is None && error_of(api, j) is None,
        }),
    ensures
        classify_v(api, body) == Err::<TranslationV, ErrorV>(deserialize_error_v(api)),
        deserialize_error_v(api).code == ErrCode::DeserializeError,
{
}

} // verus!
