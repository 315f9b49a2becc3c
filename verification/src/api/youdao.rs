//! The Youdao provider: request signing with a UUID salt, a signed
//! timestamp and a SHA-256 digest over the length-truncated input transform,
//! and the two-schema classification of response bodies.

use vstd::prelude::*;
use vstd::string::StringExecFns;
use vstd::string::StrSliceExecFns;

use crate::decimal::{dec_rep, i64_to_string, int_dec, u64_to_string};
use crate::digest::{sha256_hex, sha256_hex_string};
use crate::error::{ErrCode, Error, DESERIALIZE_RESPONSE_ERR_MSG};
use crate::json::{fields_model, json_as_arr, lookup, obj_get, parse_json, Json, JsonV};
use crate::language::{youdao_code, Language};
use crate::nonce::{unix_timestamp, uuid_salt};
use crate::Api;

use super::{join_lines, pairs_model, DisplayTranslation, Translate, Translation};

verus! {

/// The signed input transform: the plaintext itself when it has at most 20
/// characters; otherwise the first ten characters, the decimal character
/// count, and the last ten characters.
pub open spec fn youdao_input(q: Seq<char>) -> Seq<char> {
    if q.len() <= 20 {
        q
    } else {
        q.subrange(0, 10) + dec_rep(q.len()) + q.subrange(q.len() - 10, q.len() as int)
    }
}

/// For any plaintext longer than 20 characters the transform splices the
/// character count between the first and last ten characters; for any other
/// plaintext it is the identity.
pub proof fn lemma_youdao_input_transform(q: Seq<char>)
    ensures
        q.len() <= 20 ==> youdao_input(q) == q,
        q.len() > 20 ==> youdao_input(q) == q.subrange(0, 10) + dec_rep(q.len()) + q.subrange(
            q.len() - 10,
            q.len() as int,
        ),
{
}

/// The string Youdao's signature is the SHA-256 digest of: the ordered
/// concatenation of app key, transformed input, salt, timestamp and secret.
pub open spec fn youdao_sign_input(
    app_key: Seq<char>,
    input: Seq<char>,
    salt: Seq<char>,
    cur_time: Seq<char>,
    app_secret: Seq<char>,
) -> Seq<char> {
    app_key + input + salt + cur_time + app_secret
}

/// The complete ordered field set of a Youdao request with the given salt
/// and timestamp.
pub open spec fn youdao_fields(
    app_key: Seq<char>,
    app_secret: Seq<char>,
    q: Seq<char>,
    src: Language,
    target: Language,
    salt: Seq<char>,
    ts: i64,
) -> Seq<(Seq<char>, Seq<char>)> {
    seq![
        ("q"@, q),
        ("from"@, youdao_code(src)),
        ("to"@, youdao_code(target)),
        ("appKey"@, app_key),
        ("salt"@, salt),
        (
            "sign"@,
            sha256_hex(
                youdao_sign_input(app_key, youdao_input(q), salt, int_dec(ts as int), app_secret),
            ),
        ),
        ("signType"@, "v3"@),
        ("curtime"@, int_dec(ts as int)),
    ]
}

/// Given fixed plaintext, nonce, timestamp and credentials, the computed
/// signature is a deterministic function of them: equal inputs give the
/// identical digest.
pub proof fn lemma_youdao_sign_deterministic(
    app_key1: Seq<char>,
    input1: Seq<char>,
    salt1: Seq<char>,
    cur_time1: Seq<char>,
    secret1: Seq<char>,
    app_key2: Seq<char>,
    input2: Seq<char>,
    salt2: Seq<char>,
    cur_time2: Seq<char>,
    secret2: Seq<char>,
)
    requires
        app_key1 == app_key2,
        input1 == input2,
        salt1 == salt2,
        cur_time1 == cur_time2,
        secret1 == secret2,
    ensures
        sha256_hex(youdao_sign_input(app_key1, input1, salt1, cur_time1, secret1)) == sha256_hex(
            youdao_sign_input(app_key2, input2, salt2, cur_time2, secret2),
        ),
{
}

/// A Youdao signature consists of lowercase hexadecimal digits alone.
pub proof fn lemma_youdao_sign_lower_hex(
    app_key: Seq<char>,
    input: Seq<char>,
    salt: Seq<char>,
    cur_time: Seq<char>,
    secret: Seq<char>,
)
    ensures
        forall|i: int|
            0 <= i < sha256_hex(youdao_sign_input(app_key, input, salt, cur_time, secret)).len()
                ==> crate::hex::is_lower_hex_char(
                #[trigger] sha256_hex(youdao_sign_input(app_key, input, salt, cur_time, secret))[i],
            ),
{
    crate::hex::lemma_hex_of_bytes_shape(
        crate::digest::sha256_of(youdao_sign_input(app_key, input, salt, cur_time, secret)),
    );
}

/// The Youdao credentials and endpoint, loaded once at startup and owned for
/// the process lifetime.
#[derive(Debug)]
pub struct YoudaoApi {
    pub url: String,
    pub app_key: String,
    pub app_secret: String,
}

/// One ready-to-transmit Youdao request: the plaintext, the two language
/// codes, the app key, the salt, the signature, its type tag and the signed
/// timestamp.
#[derive(Debug)]
pub struct YoudaoParams {
    pub q: String,
    pub from: String,
    pub to: String,
    pub app_key: String,
    pub salt: String,
    pub sign: String,
    pub sign_type: String,
    pub cur_time: String,
}

impl YoudaoParams {
    /// The signed input transform of a plaintext.
    pub fn generate_input(q: &str) -> (r: String)
        ensures
            r@ == youdao_input(q@),
    {
        let length = q.unicode_len();
        if length <= 20 {
            String::from_str(q)
        } else {
            let mut s = String::from_str(q.substring_char(0, 10));
            let num = u64_to_string(length as u64);
            s.append(num.as_str());
            s.append(q.substring_char(length - 10, length));
            proof {
                assert(s@ =~= youdao_input(q@));
            }
            s
        }
    }

    /// Builds the signed field set with a caller-supplied salt and
    /// timestamp: pure computation, verified for every salt and time.
    pub fn with_salt_and_time(
        q: &str,
        from: &Language,
        to: &Language,
        app_key: &str,
        app_secret: &str,
        salt: String,
        timestamp: i64,
    ) -> (r: Self)
        ensures
            r.q@ == q@,
            r.from@ == youdao_code(*from),
            r.to@ == youdao_code(*to),
            r.app_key@ == app_key@,
            r.salt@ == salt@,
            r.sign_type@ == "v3"@,
            r.cur_time@ == int_dec(timestamp as int),
            r.sign@ == sha256_hex(
                youdao_sign_input(
                    app_key@,
                    youdao_input(q@),
                    salt@,
                    int_dec(timestamp as int),
                    app_secret@,
                ),
            ),
            r.sign@.len() == 64,
            forall|i: int|
                0 <= i < r.sign@.len() ==> crate::hex::is_lower_hex_char(#[trigger] r.sign@[i]),
    {
        let input = Self::generate_input(q);
        let cur_time = i64_to_string(timestamp);
        let mut sign_str = String::from_str(app_key);
        sign_str.append(input.as_str());
        sign_str.append(salt.as_str());
        sign_str.append(cur_time.as_str());
        sign_str.append(app_secret);
        let sign = sha256_hex_string(sign_str.as_str());
        YoudaoParams {
            q: String::from_str(q),
            from: from.to_youdao_param(),
            to: to.to_youdao_param(),
            app_key: String::from_str(app_key),
            salt,
            sign,
            sign_type: String::from_str("v3"),
            cur_time,
        }
    }

    /// Builds the signed field set for one request, drawing a fresh UUID
    /// salt and reading the clock for the signed timestamp.
    pub fn new(q: &str, from: &Language, to: &Language, app_key: &str, app_secret: &str) -> (r:
        Self)
        ensures
            r.q@ == q@,
            r.from@ == youdao_code(*from),
            r.to@ == youdao_code(*to),
            r.app_key@ == app_key@,
            r.salt@.len() == 36,
            r.sign_type@ == "v3"@,
            (exists|ts: i64| r.cur_time@ == #[trigger] int_dec(ts as int)),
            r.sign@ == sha256_hex(
                youdao_sign_input(
                    app_key@,
                    youdao_input(q@),
                    r.salt@,
                    r.cur_time@,
                    app_secret@,
                ),
            ),
    {
        let salt = uuid_salt();
        let ts = unix_timestamp();
        let r = Self::with_salt_and_time(q, from, to, app_key, app_secret, salt, ts);
        proof {
            assert(r.cur_time@ == int_dec(ts as int));
        }
        r
    }

    /// The ordered wire field set, ready for a form-encoded POST.
    pub fn fields(&self) -> (p: Vec<(String, String)>)
        ensures
            pairs_model(p@) =~= seq![
                ("q"@, self.q@),
                ("from"@, self.from@),
                ("to"@, self.to@),
                ("appKey"@, self.app_key@),
                ("salt"@, self.salt@),
                ("sign"@, self.sign@),
                ("signType"@, self.sign_type@),
                ("curtime"@, self.cur_time@),
            ],
    {
        let mut p: Vec<(String, String)> = Vec::new();
        p.push((String::from_str("q"), self.q.clone()));
        p.push((String::from_str("from"), self.from.clone()));
        p.push((String::from_str("to"), self.to.clone()));
        p.push((String::from_str("appKey"), self.app_key.clone()));
        p.push((String::from_str("salt"), self.salt.clone()));
        p.push((String::from_str("sign"), self.sign.clone()));
        p.push((String::from_str("signType"), self.sign_type.clone()));
        p.push((String::from_str("curtime"), self.cur_time.clone()));
        p
    }
}

/// Ghost model of a Youdao success payload.
pub struct YoudaoTranslationResponseV {
    pub error_code: Seq<char>,
    pub l: Seq<char>,
    pub query: Seq<char>,
    pub translation: Option<Seq<Seq<char>>>,
    pub speak_url: Seq<char>,
    pub t_speak_url: Seq<char>,
    pub request_id: Seq<char>,
    pub is_word: bool,
}

/// A Youdao success payload. The translation array is absent on some
/// response variants; rendering then falls back to a placeholder.
#[derive(Debug)]
pub struct YoudaoTranslationResponse {
    pub error_code: String,
    pub l: String,
    pub query: String,
    pub translation: Option<Vec<String>>,
    pub speak_url: String,
    pub t_speak_url: String,
    pub request_id: String,
    pub is_word: bool,
}

/// The ghost model of an optional translation array.
pub open spec fn opt_lines_model(tr: Option<Vec<String>>) -> Option<Seq<Seq<char>>> {
    match tr {
        Some(lines) => Some(Seq::new(lines@.len(), |i: int| lines@[i]@)),
        None => None,
    }
}

impl View for YoudaoTranslationResponse {
    type V = YoudaoTranslationResponseV;

    open spec fn view(&self) -> YoudaoTranslationResponseV {
        YoudaoTranslationResponseV {
            error_code: self.error_code@,
            l: self.l@,
            query: self.query@,
            translation: opt_lines_model(self.translation),
            speak_url: self.speak_url@,
            t_speak_url: self.t_speak_url@,
            request_id: self.request_id@,
            is_word: self.is_word,
        }
    }
}

impl DisplayTranslation for YoudaoTranslationResponse {
    /// One line per translated segment; a fixed placeholder line when the
    /// response carries no translation array.
    open spec fn rendered(&self) -> Seq<char> {
        match self@.translation {
            Some(lines) => join_lines(lines),
            None => "no result\n"@,
        }
    }

    fn render(&self) -> (r: String) {
        match &self.translation {
            Some(lines) => {
                let ghost lines_v = Seq::new(lines@.len(), |i: int| lines@[i]@);
                let mut s = String::new();
                let mut i: usize = 0;
                while i < lines.len()
                    invariant
                        i <= lines@.len(),
                        lines_v == Seq::new(lines@.len(), |k: int| lines@[k]@),
                        s@ == join_lines(lines_v.take(i as int)),
                    decreases lines@.len() - i,
                {
                    s.append(lines[i].as_str());
                    s.append("\n");
                    proof {
                        reveal_strlit("\n");
                        assert(lines_v.take(i + 1 as int).drop_last() =~= lines_v.take(i as int));
                        assert(lines_v.take(i + 1 as int).last() == lines_v[i as int]);
                        assert(s@ =~= join_lines(lines_v.take(i + 1 as int)));
                    }
                    i += 1;
                }
                proof {
                    assert(lines_v.take(lines_v.len() as int) =~= lines_v);
                }
                s
            },
            None => String::from_str("no result\n"),
        }
    }
}

/// A required string member of the success schema.
pub open spec fn req_str(fields: Seq<(Seq<char>, JsonV)>, key: Seq<char>) -> Option<Seq<char>> {
    match lookup(fields, key) {
        Some(JsonV::Str(s)) => Some(s),
        _ => None,
    }
}

/// The optional translation array: absent or null counts as no array; an
/// array must hold strings alone; any other shape fails the schema. The
/// outer option is the schema check, the inner one the array's presence.
pub open spec fn opt_str_arr(fields: Seq<(Seq<char>, JsonV)>, key: Seq<char>) -> Option<
    Option<Seq<Seq<char>>>,
> {
    match lookup(fields, key) {
        None => Some(None),
        Some(JsonV::Null) => Some(None),
        Some(JsonV::Arr(items)) => {
            if forall|i: int| 0 <= i < items.len() ==> (#[trigger] items[i]) is Str {
                Some(Some(Seq::new(items.len(), |i: int| items[i]->Str_0)))
            } else {
                None
            }
        },
        Some(_) => None,
    }
}

/// The Youdao success schema: an object with string members `errorCode`,
/// `l`, `query`, `speakUrl`, `tSpeakUrl` and `requestId`, a boolean
/// `isWord`, and an optional `translation` array of strings.
pub open spec fn youdao_success_of(j: JsonV) -> Option<YoudaoTranslationResponseV> {
    match j {
        JsonV::Obj(fields) => match (
            req_str(fields, "errorCode"@),
            req_str(fields, "l"@),
            req_str(fields, "query"@),
            req_str(fields, "speakUrl"@),
            req_str(fields, "tSpeakUrl"@),
            req_str(fields, "requestId"@),
        ) {
            (Some(ec), Some(l), Some(q), Some(sp), Some(tsp), Some(rid)) => match lookup(
                fields,
                "isWord"@,
            ) {
                Some(JsonV::Bool(w)) => match opt_str_arr(fields, "translation"@) {
                    Some(tr) => Some(
                        YoudaoTranslationResponseV {
                            error_code: ec,
                            l,
                            query: q,
                            translation: tr,
                            speak_url: sp,
                            t_speak_url: tsp,
                            request_id: rid,
                            is_word: w,
                        },
                    ),
                    None => None,
                },
                _ => None,
            },
            _ => None,
        },
        _ => None,
    }
}

/// The Youdao error schema: an object with string members `errorCode`, `l`
/// and `requestId`; the provider's own message is the `errorCode`.
pub open spec fn youdao_error_of(j: JsonV) -> Option<Seq<char>> {
    match j {
        JsonV::Obj(fields) => match (
            req_str(fields, "errorCode"@),
            req_str(fields, "l"@),
            req_str(fields, "requestId"@),
        ) {
            (Some(ec), Some(_), Some(_)) => Some(ec),
            _ => None,
        },
        _ => None,
    }
}

fn get_req_str<'a>(fields: &'a Vec<(String, Json)>, key: &str) -> (r: Option<&'a String>)
    ensures
        (match r {
            Some(s) => req_str(fields_model(fields@), key@) == Some(s@),
            None => req_str(fields_model(fields@), key@) is None,
        }),
{
    match obj_get(fields, key) {
        Some(Json::Str(s)) => Some(s),
        _ => None,
    }
}

#[verifier::loop_isolation(false)]
fn youdao_translation_from(fields: &Vec<(String, Json)>) -> (r: Option<Option<Vec<String>>>)
    ensures
        (match r {
            Some(tr) => opt_str_arr(fields_model(fields@), "translation"@) == Some(
                opt_lines_model(tr),
            ),
            None => opt_str_arr(fields_model(fields@), "translation"@) is None,
        }),
{
    let arr_field = match obj_get(fields, "translation") {
        None => {
            return Some(None);
        },
        Some(jj) => jj,
    };
    match arr_field {
        Json::Null => {
            return Some(None);
        },
        _ => {},
    }
    let items = match json_as_arr(arr_field) {
        Some(items) => items,
        None => {
            return None;
        },
    };
    let ghost im = arr_field.model()->Arr_0;
    proof {
        assert(arr_field.model() == JsonV::Arr(im));
        assert(lookup(fields_model(fields@), "translation"@) == Some(JsonV::Arr(im)));
    }
    let mut out: Vec<String> = Vec::new();
    let mut i: usize = 0;
    while i < items.len()
        invariant
            i <= items@.len(),
            im == arr_field.model()->Arr_0,
            im.len() == items@.len(),
            forall|k: int| 0 <= k < items@.len() ==> im[k] == #[trigger] items@[k].model(),
            out@.len() == i,
            forall|k: int| 0 <= k < i ==> (#[trigger] im[k]) is Str,
            forall|k: int| 0 <= k < i ==> im[k]->Str_0 == out@[k]@,
        decreases items@.len() - i,
    {
        match &items[i] {
            Json::Str(s) => {
                proof {
                    assert(items@[i as int].model() == JsonV::Str(s@));
                    assert(im[i as int] is Str && im[i as int]->Str_0 == s@);
                }
                out.push(s.clone());
            },
            _ => {
                proof {
                    assert(im[i as int] == items@[i as int].model());
                    assert(!(im[i as int] is Str));
                    assert(!(forall|k: int| 0 <= k < im.len() ==> (#[trigger] im[k]) is Str));
                }
                return None;
            },
        }
        i += 1;
    }
    proof {
        assert(forall|k: int| 0 <= k < im.len() ==> (#[trigger] im[k]) is Str);
        assert(opt_str_arr(fields_model(fields@), "translation"@) is Some);
        let given = opt_str_arr(fields_model(fields@), "translation"@).unwrap();
        assert(given is Some);
        assert(given.unwrap() =~= opt_lines_model(Some(out)).unwrap());
        assert(opt_str_arr(fields_model(fields@), "translation"@) == Some(opt_lines_model(Some(out))));
    }
    Some(Some(out))
}

fn youdao_success_from(j: &Json) -> (r: Option<YoudaoTranslationResponse>)
    ensures
        (match r {
            Some(t) => youdao_success_of(j.model()) == Some(t@),
            None => youdao_success_of(j.model()) is None,
        }),
{
    match j {
        Json::Obj(fields) => {
            proof {
                assert(j.model() matches JsonV::Obj(m) && m =~= fields_model(fields@));
            }
            let error_code = match get_req_str(fields, "errorCode") {
                Some(s) => s,
                None => {
                    return None;
                },
            };
            let l = match get_req_str(fields, "l") {
                Some(s) => s,
                None => {
                    return None;
                },
            };
            let query = match get_req_str(fields, "query") {
                Some(s) => s,
                None => {
                    return None;
                },
            };
            let speak_url = match get_req_str(fields, "speakUrl") {
                Some(s) => s,
                None => {
                    return None;
                },
            };
            let t_speak_url = match get_req_str(fields, "tSpeakUrl") {
                Some(s) => s,
                None => {
                    return None;
                },
            };
            let request_id = match get_req_str(fields, "requestId") {
                Some(s) => s,
                None => {
                    return None;
                },
            };
            let is_word = match obj_get(fields, "isWord") {
                Some(Json::Bool(w)) => *w,
                _ => {
                    return None;
                },
            };
            let translation = match youdao_translation_from(fields) {
                Some(tr) => tr,
                None => {
                    return None;
                },
            };
            Some(
                YoudaoTranslationResponse {
                    error_code: error_code.clone(),
                    l: l.clone(),
                    query: query.clone(),
                    translation,
                    speak_url: speak_url.clone(),
                    t_speak_url: t_speak_url.clone(),
                    request_id: request_id.clone(),
                    is_word,
                },
            )
        },
        _ => None,
    }
}

fn youdao_error_from(j: &Json) -> (r: Option<String>)
    ensures
        (match r {
            Some(m) => youdao_error_of(j.model()) == Some(m@),
            None => youdao_error_of(j.model()) is None,
        }),
{
    match j {
        Json::Obj(fields) => {
            proof {
                assert(j.model() matches JsonV::Obj(m) && m =~= fields_model(fields@));
            }
            let error_code = match get_req_str(fields, "errorCode") {
                Some(s) => s,
                None => {
                    return None;
                },
            };
            if get_req_str(fields, "l").is_none() {
                return None;
            }
            if get_req_str(fields, "requestId").is_none() {
                return None;
            }
            Some(error_code.clone())
        },
        _ => None,
    }
}

impl Translate for YoudaoApi {
    open spec fn api_id(&self) -> Api {
        Api::Youdao
    }

    open spec fn endpoint(&self) -> Seq<char> {
        self.url@
    }

    open spec fn prepared_ok(
        &self,
        text: Seq<char>,
        src: Language,
        target: Language,
        fields: Seq<(Seq<char>, Seq<char>)>,
    ) -> bool {
        exists|salt: Seq<char>, ts: i64|
            {
                &&& salt.len() == 36
                &&& fields == #[trigger] youdao_fields(
                    self.app_key@,
                    self.app_secret@,
                    text,
                    src,
                    target,
                    salt,
                    ts,
                )
            }
    }

    fn url(&self) -> (u: &str) {
        self.url.as_str()
    }

    fn prepare(&self, text: &str, src: &Language, target: &Language) -> (p: Vec<(String, String)>) {
        let params = YoudaoParams::new(
            text,
            src,
            target,
            self.app_key.as_str(),
            self.app_secret.as_str(),
        );
        let p = params.fields();
        proof {
            let ts = choose|ts: i64| params.cur_time@ == #[trigger] int_dec(ts as int);
            assert(pairs_model(p@) =~= youdao_fields(
                self.app_key@,
                self.app_secret@,
                text@,
                *src,
                *target,
                params.salt@,
                ts,
            ));
        }
        p
    }

    fn parse_response(&self, response: &str) -> (r: Result<Translation, Error>) {
        match parse_json(response) {
            None => Err(
                Error::new(Api::Youdao, ErrCode::DeserializeError, DESERIALIZE_RESPONSE_ERR_MSG),
            ),
            Some(j) => match youdao_success_from(&j) {
                Some(t) => Ok(Translation::Youdao(t)),
                None => match youdao_error_from(&j) {
                    Some(msg) => Err(Error::new(Api::Youdao, ErrCode::ApiError, msg.as_str())),
                    None => Err(
                        Error::new(Api::Youdao, ErrCode::DeserializeError, DESERIALIZE_RESPONSE_ERR_MSG),
                    ),
                },
            },
        }
    }

    fn complete(&self, outcome: Result<String, String>) -> (r: Result<Translation, Error>) {
        match outcome {
            Ok(body) => self.parse_response(body.as_str()),
            Err(detail) => Err(Error::new(Api::Youdao, ErrCode::RequestError, detail.as_str())),
        }
    }
}

} // verus!
