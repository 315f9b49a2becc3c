//! The Baidu provider: request signing with a random integer salt and an MD5
//! digest, and the two-schema classification of response bodies.

use vstd::prelude::*;
use vstd::string::StringExecFns;

use crate::decimal::{i64_to_string, int_dec};
use crate::digest::{md5_hex, md5_hex_string};
use crate::error::{ErrCode, Error, DESERIALIZE_RESPONSE_ERR_MSG};
use crate::json::{fields_model, json_as_arr, lookup, obj_get, parse_json, Json, JsonV};
use crate::language::{baidu_code, Language};
use crate::nonce::random_i32;
use crate::Api;

use super::{join_lines, pairs_model, DisplayTranslation, Translate, Translation};

verus! {

/// A salt as Baidu requests carry it: the decimal rendering of some 32-bit
/// signed integer.
pub open spec fn is_i32_decimal(s: Seq<char>) -> bool {
    exists|v: i32| s == int_dec(v as int)
}

/// The string Baidu's signature is the MD5 digest of: the ordered
/// concatenation of app identifier, plaintext, salt and shared secret.
pub open spec fn baidu_sign_input(
    app_id: Seq<char>,
    q: Seq<char>,
    salt: Seq<char>,
    secret: Seq<char>,
) -> Seq<char> {
    app_id + q + salt + secret
}

/// The complete ordered field set of a Baidu request with the given salt.
pub open spec fn baidu_fields(
    app_id: Seq<char>,
    secret: Seq<char>,
    q: Seq<char>,
    src: Language,
    target: Language,
    salt: Seq<char>,
) -> Seq<(Seq<char>, Seq<char>)> {
    seq![
        ("q"@, q),
        ("from"@, baidu_code(src)),
        ("to"@, baidu_code(target)),
        ("appid"@, app_id),
        ("salt"@, salt),
        ("sign"@, md5_hex(baidu_sign_input(app_id, q, salt, secret))),
    ]
}

/// Given fixed plaintext, nonce and credentials, the computed signature is a
/// deterministic function of them: equal inputs give the identical digest.
pub proof fn lemma_baidu_sign_deterministic(
    app_id1: Seq<char>,
    q1: Seq<char>,
    salt1: Seq<char>,
    secret1: Seq<char>,
    app_id2: Seq<char>,
    q2: Seq<char>,
    salt2: Seq<char>,
    secret2: Seq<char>,
)
    requires
        app_id1 == app_id2,
        q1 == q2,
        salt1 == salt2,
        secret1 == secret2,
    ensures
        md5_hex(baidu_sign_input(app_id1, q1, salt1, secret1)) == md5_hex(
            baidu_sign_input(app_id2, q2, salt2, secret2),
        ),
{
}

/// A Baidu signature consists of lowercase hexadecimal digits alone.
pub proof fn lemma_baidu_sign_lower_hex(
    app_id: Seq<char>,
    q: Seq<char>,
    salt: Seq<char>,
    secret: Seq<char>,
)
    ensures
        forall|i: int|
            0 <= i < md5_hex(baidu_sign_input(app_id, q, salt, secret)).len()
                ==> crate::hex::is_lower_hex_char(
                #[trigger] md5_hex(baidu_sign_input(app_id, q, salt, secret))[i],
            ),
{
    crate::hex::lemma_hex_of_bytes_shape(crate::digest::md5_of(baidu_sign_input(app_id, q, salt, secret)));
}

/// The Baidu credentials and endpoint, loaded once at startup and owned for
/// the process lifetime.
#[derive(Debug)]
pub struct BaiduApi {
    pub url: String,
    pub app_id: String,
    pub secret: String,
}

/// One ready-to-transmit Baidu request: the plaintext, the two language
/// codes, the app identifier, the salt and the signature over them.
#[derive(Debug)]
pub struct BaiduParams {
    pub q: String,
    pub from: String,
    pub to: String,
    pub app_id: String,
    pub salt: String,
    pub sign: String,
}

impl BaiduParams {
    /// Builds the signed field set with a caller-supplied salt: pure
    /// computation, verified for every salt.
    pub fn with_salt(
        q: &str,
        from: &Language,
        to: &Language,
        app_id: &str,
        secret: &str,
        salt: String,
    ) -> (r: Self)
        ensures
            r.q@ == q@,
            r.from@ == baidu_code(*from),
            r.to@ == baidu_code(*to),
            r.app_id@ == app_id@,
            r.salt@ == salt@,
            r.sign@ == md5_hex(baidu_sign_input(app_id@, q@, salt@, secret@)),
            r.sign@.len() == 32,
            forall|i: int|
                0 <= i < r.sign@.len() ==> crate::hex::is_lower_hex_char(#[trigger] r.sign@[i]),
    {
        let mut input = String::from_str(app_id);
        input.append(q);
        input.append(salt.as_str());
        input.append(secret);
        let sign = md5_hex_string(input.as_str());
        BaiduParams {
            q: String::from_str(q),
            from: from.to_baidu_param(),
            to: to.to_baidu_param(),
            app_id: String::from_str(app_id),
            salt,
            sign,
        }
    }

    /// Builds the signed field set for one request, drawing a fresh random
    /// integer salt.
    pub fn new(q: &str, from: &Language, to: &Language, app_id: &str, secret: &str) -> (r: Self)
        ensures
            r.q@ == q@,
            r.from@ == baidu_code(*from),
            r.to@ == baidu_code(*to),
            r.app_id@ == app_id@,
            is_i32_decimal(r.salt@),
            r.sign@ == md5_hex(baidu_sign_input(app_id@, q@, r.salt@, secret@)),
    {
        let salt_v = random_i32();
        let salt = i64_to_string(salt_v as i64);
        proof {
            assert(salt@ == int_dec(salt_v as int));
        }
        Self::with_salt(q, from, to, app_id, secret, salt)
    }

    /// The ordered wire field set, ready for a form-encoded POST.
    pub fn fields(&self) -> (p: Vec<(String, String)>)
        ensures
            pairs_model(p@) =~= seq![
                ("q"@, self.q@),
                ("from"@, self.from@),
                ("to"@, self.to@),
                ("appid"@, self.app_id@),
                ("salt"@, self.salt@),
                ("sign"@, self.sign@),
            ],
    {
        let mut p: Vec<(String, String)> = Vec::new();
        p.push((String::from_str("q"), self.q.clone()));
        p.push((String::from_str("from"), self.from.clone()));
        p.push((String::from_str("to"), self.to.clone()));
        p.push((String::from_str("appid"), self.app_id.clone()));
        p.push((String::from_str("salt"), self.salt.clone()));
        p.push((String::from_str("sign"), self.sign.clone()));
        p
    }
}

/// Ghost model of one translated segment.
pub struct BaiduTransResultV {
    pub src: Seq<char>,
    pub dst: Seq<char>,
}

/// One translated segment: the source text and its translation.
#[derive(Debug)]
pub struct BaiduTransResult {
    pub src: String,
    pub dst: String,
}

impl View for BaiduTransResult {
    type V = BaiduTransResultV;

    open spec fn view(&self) -> BaiduTransResultV {
        BaiduTransResultV { src: self.src@, dst: self.dst@ }
    }
}

/// Ghost model of a Baidu success payload.
pub struct BaiduTranslationResponseV {
    pub from: Seq<char>,
    pub to: Seq<char>,
    pub trans_result: Seq<BaiduTransResultV>,
}

/// A Baidu success payload: the two languages and the translated segments.
#[derive(Debug)]
pub struct BaiduTranslationResponse {
    pub from: String,
    pub to: String,
    pub trans_result: Vec<BaiduTransResult>,
}

impl View for BaiduTranslationResponse {
    type V = BaiduTranslationResponseV;

    open spec fn view(&self) -> BaiduTranslationResponseV {
        BaiduTranslationResponseV {
            from: self.from@,
            to: self.to@,
            trans_result: Seq::new(self.trans_result@.len(), |i: int| self.trans_result@[i]@),
        }
    }
}

impl DisplayTranslation for BaiduTranslationResponse {
    /// One line per translated segment: each segment's translation, followed
    /// by a newline.
    open spec fn rendered(&self) -> Seq<char> {
        join_lines(Seq::new(self.trans_result@.len(), |i: int| self.trans_result@[i].dst@))
    }

    fn render(&self) -> (r: String) {
        let ghost lines = Seq::new(self.trans_result@.len(), |i: int| self.trans_result@[i].dst@);
        let mut s = String::new();
        let mut i: usize = 0;
        while i < self.trans_result.len()
            invariant
                i <= self.trans_result@.len(),
                lines == Seq::new(
                    self.trans_result@.len(),
                    |k: int| self.trans_result@[k].dst@,
                ),
                s@ == join_lines(lines.take(i as int)),
            decreases self.trans_result@.len() - i,
        {
            s.append(self.trans_result[i].dst.as_str());
            s.append("\n");
            proof {
                reveal_strlit("\n");
                assert(lines.take(i + 1 as int).drop_last() =~= lines.take(i as int));
                assert(lines.take(i + 1 as int).last() == lines[i as int]);
                assert(s@ =~= join_lines(lines.take(i + 1 as int)));
            }
            i += 1;
        }
        proof {
            assert(lines.take(lines.len() as int) =~= lines);
        }
        s
    }
}

/// One translated segment of the success schema: an object carrying `src`
/// and `dst` strings.
pub open spec fn baidu_item_of(j: JsonV) -> Option<BaiduTransResultV> {
    match j {
        JsonV::Obj(fields) => match (lookup(fields, "src"@), lookup(fields, "dst"@)) {
            (Some(JsonV::Str(src)), Some(JsonV::Str(dst))) => Some(
                BaiduTransResultV { src, dst },
            ),
            _ => None,
        },
        _ => None,
    }
}

/// The Baidu success schema: an object with `from` and `to` strings and a
/// `trans_result` array of translated segments.
pub open spec fn baidu_success_of(j: JsonV) -> Option<BaiduTranslationResponseV> {
    match j {
        JsonV::Obj(fields) => match (
            lookup(fields, "from"@),
            lookup(fields, "to"@),
            lookup(fields, "trans_result"@),
        ) {
            (Some(JsonV::Str(from)), Some(JsonV::Str(to)), Some(JsonV::Arr(items))) => {
                if forall|i: int| 0 <= i < items.len() ==> baidu_item_of(#[trigger] items[i]) is Some {
                    Some(
                        BaiduTranslationResponseV {
                            from,
                            to,
                            trans_result: Seq::new(
                                items.len(),
                                |i: int| baidu_item_of(items[i]).unwrap(),
                            ),
                        },
                    )
                } else {
                    None
                }
            },
            _ => None,
        },
        _ => None,
    }
}

/// The Baidu error schema: an object with `error_code` and `error_msg`
/// strings; the provider's own message is the `error_msg`.
pub open spec fn baidu_error_of(j: JsonV) -> Option<Seq<char>> {
    match j {
        JsonV::Obj(fields) => match (lookup(fields, "error_code"@), lookup(fields, "error_msg"@)) {
            (Some(JsonV::Str(_)), Some(JsonV::Str(msg))) => Some(msg),
            _ => None,
        },
        _ => None,
    }
}

fn baidu_item_from(j: &Json) -> (r: Option<BaiduTransResult>)
    ensures
        (match r {
            Some(t) => baidu_item_of(j.model()) == Some(t@),
            None => baidu_item_of(j.model()) is None,
        }),
{
    match j {
        Json::Obj(fields) => {
            proof {
                assert(j.model() matches JsonV::Obj(m) && m =~= fields_model(fields@));
            }
            let src = match obj_get(fields, "src") {
                Some(Json::Str(s)) => s,
                _ => {
                    return None;
                },
            };
            let dst = match obj_get(fields, "dst") {
                Some(Json::Str(s)) => s,
                _ => {
                    return None;
                },
            };
            Some(BaiduTransResult { src: src.clone(), dst: dst.clone() })
        },
        _ => None,
    }
}

#[verifier::loop_isolation(false)]
fn baidu_success_from(j: &Json) -> (r: Option<BaiduTranslationResponse>)
    ensures
        (match r {
            Some(t) => baidu_success_of(j.model()) == Some(t@),
            None => baidu_success_of(j.model()) is None,
        }),
{
    match j {
        Json::Obj(fields) => {
            proof {
                assert(j.model() matches JsonV::Obj(m) && m =~= fields_model(fields@));
            }
            let from = match obj_get(fields, "from") {
                Some(Json::Str(s)) => s,
                _ => {
                    return None;
                },
            };
            let to = match obj_get(fields, "to") {
                Some(Json::Str(s)) => s,
                _ => {
                    return None;
                },
            };
            let arr_field = match obj_get(fields, "trans_result") {
                Some(jj) => jj,
                None => {
                    return None;
                },
            };
            let items = match json_as_arr(arr_field) {
                Some(items) => items,
                None => {
                    return None;
                },
            };
            let ghost im = arr_field.model()->Arr_0;
            proof {
                assert(arr_field.model() == JsonV::Arr(im));
                assert(lookup(fields_model(fields@), "trans_result"@) == Some(JsonV::Arr(im)));
            }
            let mut out: Vec<BaiduTransResult> = Vec::new();
            let mut i: usize = 0;
            while i < items.len()
                invariant
                    i <= items@.len(),
                    im == arr_field.model()->Arr_0,
                    im.len() == items@.len(),
                    forall|k: int| 0 <= k < items@.len() ==> im[k] == #[trigger] items@[k].model(),
                    out@.len() == i,
                    forall|k: int| 0 <= k < i ==> baidu_item_of(#[trigger] im[k]) == Some(out@[k]@),
                decreases items@.len() - i,
            {
                match baidu_item_from(&items[i]) {
                    Some(t) => {
                        out.push(t);
                    },
                    None => {
                        proof {
                            assert(lookup(fields_model(fields@), "trans_result"@) == Some(
                                JsonV::Arr(im),
                            ));
                            assert(baidu_item_of(im[i as int]) is None);
                            assert(!(forall|k: int|
                                0 <= k < im.len() ==> baidu_item_of(#[trigger] im[k]) is Some));
                        }
                        return None;
                    },
                }
                i += 1;
            }
            let t = BaiduTranslationResponse { from: from.clone(), to: to.clone(), trans_result: out };
            proof {
                assert(forall|k: int| 0 <= k < im.len() ==> baidu_item_of(#[trigger] im[k]) is Some);
                assert(baidu_success_of(j.model()) is Some);
                let sv = baidu_success_of(j.model()).unwrap();
                assert(sv.trans_result =~= t@.trans_result);
                assert(baidu_success_of(j.model()) == Some(t@));
            }
            Some(t)
        },
        _ => None,
    }
}

fn baidu_error_from(j: &Json) -> (r: Option<String>)
    ensures
        (match r {
            Some(m) => baidu_error_of(j.model()) == Some(m@),
            None => baidu_error_of(j.model()) is None,
        }),
{
    match j {
        Json::Obj(fields) => {
            proof {
                assert(j.model() matches JsonV::Obj(m) && m =~= fields_model(fields@));
            }
            match obj_get(fields, "error_code") {
                Some(Json::Str(_)) => {},
                _ => {
                    return None;
                },
            }
            let msg = match obj_get(fields, "error_msg") {
                Some(Json::Str(s)) => s,
                _ => {
                    return None;
                },
            };
            Some(msg.clone())
        },
        _ => None,
    }
}

impl Translate for BaiduApi {
    open spec fn api_id(&self) -> Api {
        Api::Baidu
    }

    open spec fn endpoint(&self) -> Seq<char> {
        self.url@
    }

    open spec fn prepared_ok(
        &self,
        text: Seq<char>,
        src: Language,
        target: Language,
        fields: Seq<(Seq<char>, Seq<char>)>,
    ) -> bool {
        exists|salt: Seq<char>|
            {
                &&& #[trigger] is_i32_decimal(salt)
                &&& fields == baidu_fields(self.app_id@, self.secret@, text, src, target, salt)
            }
    }

    fn url(&self) -> (u: &str) {
        self.url.as_str()
    }

    fn prepare(&self, text: &str, src: &Language, target: &Language) -> (p: Vec<(String, String)>) {
        let params = BaiduParams::new(text, src, target, self.app_id.as_str(), self.secret.as_str());
        let p = params.fields();
        proof {
            assert(pairs_model(p@) =~= baidu_fields(
                self.app_id@,
                self.secret@,
                text@,
                *src,
                *target,
                params.salt@,
            ));
            assert(is_i32_decimal(params.salt@));
        }
        p
    }

    fn parse_response(&self, response: &str) -> (r: Result<Translation, Error>) {
        match parse_json(response) {
            None => Err(Error::new(Api::Baidu, ErrCode::DeserializeError, DESERIALIZE_RESPONSE_ERR_MSG)),
            Some(j) => match baidu_success_from(&j) {
                Some(t) => Ok(Translation::Baidu(t)),
                None => match baidu_error_from(&j) {
                    Some(msg) => Err(Error::new(Api::Baidu, ErrCode::ApiError, msg.as_str())),
                    None => Err(
                        Error::new(Api::Baidu, ErrCode::DeserializeError, DESERIALIZE_RESPONSE_ERR_MSG),
                    ),
                },
            },
        }
    }

    fn complete(&self, outcome: Result<String, String>) -> (r: Result<Translation, Error>) {
        match outcome {
            Ok(body) => self.parse_response(body.as_str()),
            Err(detail) => Err(Error::new(Api::Baidu, ErrCode::RequestError, detail.as_str())),
        }
    }
}

} // verus!
