use translation_api::api::baidu::{BaiduTransResult, BaiduTranslationResponse};
use translation_api::api::youdao::YoudaoTranslationResponse;
use translation_api::api::{BaiduApi, DisplayTranslation, Translate, Translation, YoudaoApi};
use translation_api::error::{ErrCode, Error, DESERIALIZE_RESPONSE_ERR_MSG};
use translation_api::Api;

fn baidu() -> BaiduApi {
    BaiduApi {
        url: String::from("https://fanyi-api.baidu.com/api/trans/vip/translate"),
        app_id: String::from("id"),
        secret: String::from("secret"),
    }
}

fn youdao() -> YoudaoApi {
    YoudaoApi {
        url: String::from("https://openapi.youdao.com/api"),
        app_key: String::from("key"),
        app_secret: String::from("secret"),
    }
}

const YOUDAO_SUCCESS_BODY: &str = "{\"errorCode\":\"0\",\"l\":\"en2zh-CHS\",\"query\":\"hello\",\"translation\":[\"你好\"],\"speakUrl\":\"https://example.invalid/s\",\"tSpeakUrl\":\"https://example.invalid/t\",\"requestId\":\"r-1\",\"isWord\":true}";

#[test]
fn baidu_success_body_renders_translation() {
    let body = "{\"from\":\"en\",\"to\":\"zh\",\"trans_result\":[{\"src\":\"hello\",\"dst\":\"你好\"}]}";
    let r = baidu().parse_response(body);
    match r {
        Ok(t) => {
            assert_eq!(t.render(), "你好\n");
            match t {
                Translation::Baidu(b) => {
                    assert_eq!(b.from, "en");
                    assert_eq!(b.to, "zh");
                    assert_eq!(b.trans_result.len(), 1);
                    assert_eq!(b.trans_result[0].src, "hello");
                    assert_eq!(b.trans_result[0].dst, "你好");
                }
                Translation::Youdao(_) => panic!("wrong provider tag"),
            }
        }
        Err(e) => panic!("success body misclassified: {}", e.to_display_string()),
    }
}

#[test]
fn baidu_success_tolerates_extra_fields_and_any_member_order() {
    let body = "{\"unknown\":{\"deep\":[1,2,{\"x\":null}]},\"to\":\"zh\",\"trans_result\":[{\"dst\":\"一\",\"src\":\"one\",\"extra\":5},{\"src\":\"two\",\"dst\":\"二\"}],\"from\":\"en\",\"n\":3.5}";
    let r = baidu().parse_response(body);
    match r {
        Ok(t) => assert_eq!(t.render(), "一\n二\n"),
        Err(e) => panic!("success body misclassified: {}", e.to_display_string()),
    }
}

#[test]
fn baidu_error_body_yields_api_error_with_provider_message() {
    let body = "{\"error_code\":\"54001\",\"error_msg\":\"Invalid Sign\"}";
    let r = baidu().parse_response(body);
    match r {
        Ok(_) => panic!("error body classified as success"),
        Err(e) => {
            assert_eq!(e.api, Api::Baidu);
            assert!(matches!(e.code, ErrCode::ApiError));
            assert_eq!(e.info, "Invalid Sign");
            assert_eq!(e.to_display_string(), "[Baidu][ApiError]: Invalid Sign");
        }
    }
}

#[test]
fn unmatched_body_yields_deserialize_error() {
    let body = "{\"unexpected\":\"shape\"}";
    for r in [baidu().parse_response(body), youdao().parse_response(body)] {
        match r {
            Ok(_) => panic!("unmatched body classified as success"),
            Err(e) => {
                assert!(matches!(e.code, ErrCode::DeserializeError));
                assert_eq!(e.info, DESERIALIZE_RESPONSE_ERR_MSG);
                assert_eq!(e.info, "Cannot deserialize the API response");
            }
        }
    }
}

#[test]
fn malformed_body_yields_deserialize_error() {
    for body in ["{", "", "not json", "[1,2", "{\"a\":}"] {
        let r = baidu().parse_response(body);
        match r {
            Ok(_) => panic!("malformed body classified as success"),
            Err(e) => {
                assert_eq!(e.api, Api::Baidu);
                assert!(matches!(e.code, ErrCode::DeserializeError));
                assert_eq!(e.info, DESERIALIZE_RESPONSE_ERR_MSG);
            }
        }
    }
}

#[test]
fn baidu_wrong_item_shape_yields_deserialize_error() {
    // A segment without `dst` fails the success schema; the body does not
    // match the error schema either, so the fixed diagnostic is returned.
    let body = "{\"from\":\"en\",\"to\":\"zh\",\"trans_result\":[{\"src\":\"hello\"}]}";
    let r = baidu().parse_response(body);
    match r {
        Ok(_) => panic!("wrong item shape classified as success"),
        Err(e) => assert!(matches!(e.code, ErrCode::DeserializeError)),
    }
}

#[test]
fn baidu_success_schema_wins_over_error_schema() {
    // A body matching both schemas is a success: order matters.
    let body = "{\"from\":\"en\",\"to\":\"zh\",\"trans_result\":[{\"src\":\"a\",\"dst\":\"b\"}],\"error_code\":\"0\",\"error_msg\":\"ignored\"}";
    let r = baidu().parse_response(body);
    match r {
        Ok(t) => assert_eq!(t.render(), "b\n"),
        Err(e) => panic!("success body misclassified: {}", e.to_display_string()),
    }
}

#[test]
fn youdao_success_body_renders_translation() {
    let r = youdao().parse_response(YOUDAO_SUCCESS_BODY);
    match r {
        Ok(t) => {
            assert_eq!(t.render(), "你好\n");
            match t {
                Translation::Youdao(y) => {
                    assert_eq!(y.error_code, "0");
                    assert_eq!(y.query, "hello");
                    assert_eq!(y.translation, Some(vec![String::from("你好")]));
                    assert!(y.is_word);
                    assert_eq!(y.request_id, "r-1");
                }
                Translation::Baidu(_) => panic!("wrong provider tag"),
            }
        }
        Err(e) => panic!("success body misclassified: {}", e.to_display_string()),
    }
}

#[test]
fn youdao_missing_translation_renders_placeholder() {
    let body = "{\"errorCode\":\"0\",\"l\":\"en2zh-CHS\",\"query\":\"hello\",\"speakUrl\":\"s\",\"tSpeakUrl\":\"t\",\"requestId\":\"r-2\",\"isWord\":false}";
    let r = youdao().parse_response(body);
    match r {
        Ok(t) => assert_eq!(t.render(), "no result\n"),
        Err(e) => panic!("variant without translation misclassified: {}", e.to_display_string()),
    }
}

#[test]
fn youdao_null_translation_renders_placeholder() {
    let body = "{\"errorCode\":\"0\",\"l\":\"en2zh-CHS\",\"query\":\"hello\",\"translation\":null,\"speakUrl\":\"s\",\"tSpeakUrl\":\"t\",\"requestId\":\"r-3\",\"isWord\":false}";
    let r = youdao().parse_response(body);
    match r {
        Ok(t) => assert_eq!(t.render(), "no result\n"),
        Err(e) => panic!("variant with null translation misclassified: {}", e.to_display_string()),
    }
}

#[test]
fn youdao_ill_typed_translation_falls_to_error_schema() {
    // An ill-typed translation array fails the success schema; the body
    // still matches the error schema, so its own errorCode is surfaced.
    let body = "{\"errorCode\":\"0\",\"l\":\"en2zh-CHS\",\"query\":\"hello\",\"translation\":[1],\"speakUrl\":\"s\",\"tSpeakUrl\":\"t\",\"requestId\":\"r-4\",\"isWord\":false}";
    let r = youdao().parse_response(body);
    match r {
        Ok(_) => panic!("ill-typed translation classified as success"),
        Err(e) => {
            assert!(matches!(e.code, ErrCode::ApiError));
            assert_eq!(e.info, "0");
        }
    }
}

#[test]
fn youdao_error_body_yields_api_error_with_error_code() {
    let body = "{\"errorCode\":\"401\",\"l\":\"en2zh-CHS\",\"requestId\":\"r-5\"}";
    let r = youdao().parse_response(body);
    match r {
        Ok(_) => panic!("error body classified as success"),
        Err(e) => {
            assert_eq!(e.api, Api::Youdao);
            assert!(matches!(e.code, ErrCode::ApiError));
            assert_eq!(e.info, "401");
            assert_eq!(e.to_display_string(), "[Youdao][ApiError]: 401");
        }
    }
}

#[test]
fn transport_failure_becomes_request_error() {
    let r = baidu().complete(Err(String::from("connection refused")));
    match r {
        Ok(_) => panic!("transport failure classified as success"),
        Err(e) => {
            assert_eq!(e.api, Api::Baidu);
            assert!(matches!(e.code, ErrCode::RequestError));
            assert_eq!(e.info, "connection refused");
        }
    }
    let r = youdao().complete(Err(String::from("timed out")));
    match r {
        Ok(_) => panic!("transport failure classified as success"),
        Err(e) => {
            assert_eq!(e.api, Api::Youdao);
            assert!(matches!(e.code, ErrCode::RequestError));
            assert_eq!(e.info, "timed out");
        }
    }
}

#[test]
fn complete_classifies_a_received_body() {
    let r = youdao().complete(Ok(String::from(YOUDAO_SUCCESS_BODY)));
    match r {
        Ok(t) => assert_eq!(t.render(), "你好\n"),
        Err(e) => panic!("received body misclassified: {}", e.to_display_string()),
    }
}

#[test]
fn error_new_keeps_its_parts() {
    let e = Error::new(Api::Baidu, ErrCode::RequestError, "boom");
    assert_eq!(e.api, Api::Baidu);
    assert!(matches!(e.code, ErrCode::RequestError));
    assert_eq!(e.info, "boom");
    assert_eq!(e.to_display_string(), "[Baidu][RequestError]: boom");
    let e = Error::new(Api::Youdao, ErrCode::DeserializeError, "why");
    assert_eq!(e.to_display_string(), "[Youdao][DeserializeError]: why");
}

#[test]
fn render_joins_every_segment_with_a_newline() {
    let t = BaiduTranslationResponse {
        from: String::from("en"),
        to: String::from("zh"),
        trans_result: vec![
            BaiduTransResult { src: String::from("a"), dst: String::from("一") },
            BaiduTransResult { src: String::from("b"), dst: String::from("二") },
            BaiduTransResult { src: String::from("c"), dst: String::from("三") },
        ],
    };
    assert_eq!(t.render(), "一\n二\n三\n");
    let empty = BaiduTranslationResponse {
        from: String::from("en"),
        to: String::from("zh"),
        trans_result: vec![],
    };
    assert_eq!(empty.render(), "");
    let y = YoudaoTranslationResponse {
        error_code: String::from("0"),
        l: String::from("en2zh-CHS"),
        query: String::from("q"),
        translation: Some(vec![String::from("x"), String::from("y")]),
        speak_url: String::from("s"),
        t_speak_url: String::from("t"),
        request_id: String::from("r"),
        is_word: false,
    };
    assert_eq!(y.render(), "x\ny\n");
}

#[test]
fn provider_names_render_as_in_error_tags() {
    assert_eq!(Api::Baidu.name(), "Baidu");
    assert_eq!(Api::Youdao.name(), "Youdao");
    assert_eq!(ErrCode::ApiError.name(), "ApiError");
}
