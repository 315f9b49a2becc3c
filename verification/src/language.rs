//! The abstract languages a translation can be requested between, and the
//! pure, total mapping from each language to every provider's wire code.

use vstd::prelude::*;
use vstd::string::StringExecFns;

use crate::Api;

verus! {

/// An abstract language identifier, independent of any provider.
#[derive(Clone, Copy, Debug, PartialEq, Eq, Structural)]
pub enum Language {
    Chinese,
    English,
}

/// Baidu's wire code for a language.
pub open spec fn baidu_code(lang: Language) -> Seq<char> {
    match lang {
        Language::Chinese => "zh"@,
        Language::English => "en"@,
    }
}

/// Youdao's wire code for a language.
pub open spec fn youdao_code(lang: Language) -> Seq<char> {
    match lang {
        Language::Chinese => "zh-CHS"@,
        Language::English => "en"@,
    }
}

/// The code a provider expects on the wire for a language. Total over all
/// (provider, language) pairs and deterministic: it is a spec function.
pub open spec fn provider_code(api: Api, lang: Language) -> Seq<char> {
    match api {
        Api::Baidu => baidu_code(lang),
        Api::Youdao => youdao_code(lang),
    }
}

impl Language {
    /// The parameter string Baidu expects for this language.
    pub fn to_baidu_param(&self) -> (r: String)
        ensures
            r@ == baidu_code(*self),
    {
        match self {
            Language::Chinese => String::from_str("zh"),
            Language::English => String::from_str("en"),
        }
    }

    /// The parameter string Youdao expects for this language.
    pub fn to_youdao_param(&self) -> (r: String)
        ensures
            r@ == youdao_code(*self),
    {
        match self {
            Language::Chinese => String::from_str("zh-CHS"),
            Language::English => String::from_str("en"),
        }
    }
}

/// Every supported (provider, language) pair maps to a defined, non-empty
/// wire code; the mapping is a spec function, hence deterministic.
pub proof fn lemma_provider_code_total(api: Api, lang: Language)
    ensures
        provider_code(api, lang).len() > 0,
{
    reveal_strlit("zh");
    reveal_strlit("en");
    reveal_strlit("zh-CHS");
}

} // verus!
