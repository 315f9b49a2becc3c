use translation_api::api::baidu::BaiduParams;
use translation_api::api::youdao::YoudaoParams;
use translation_api::api::{BaiduApi, Translate, YoudaoApi};
use translation_api::decimal::{i64_to_string, u64_to_string};
use translation_api::hex::to_lower_hex;
use translation_api::language::Language;

fn is_lower_hex(s: &str) -> bool {
    s.chars().all(|c| c.is_ascii_digit() || ('a'..='f').contains(&c))
}

#[test]
fn language_codes_are_total_and_fixed() {
    assert_eq!(Language::Chinese.to_baidu_param(), "zh");
    assert_eq!(Language::English.to_baidu_param(), "en");
    assert_eq!(Language::Chinese.to_youdao_param(), "zh-CHS");
    assert_eq!(Language::English.to_youdao_param(), "en");
}

#[test]
fn decimal_rendering() {
    assert_eq!(u64_to_string(0), "0");
    assert_eq!(u64_to_string(7), "7");
    assert_eq!(u64_to_string(1234567890), "1234567890");
    assert_eq!(i64_to_string(0), "0");
    assert_eq!(i64_to_string(-42), "-42");
    assert_eq!(i64_to_string(i64::MIN), "-9223372036854775808");
    assert_eq!(i64_to_string(i64::MAX), "9223372036854775807");
}

#[test]
fn hex_rendering() {
    assert_eq!(to_lower_hex(&vec![]), "");
    assert_eq!(to_lower_hex(&vec![0x00, 0xff, 0x1a]), "00ff1a");
    assert_eq!(to_lower_hex(&vec![0xde, 0xad, 0xbe, 0xef]), "deadbeef");
}

#[test]
fn generate_input_is_identity_up_to_twenty_chars() {
    assert_eq!(YoudaoParams::generate_input(""), "");
    assert_eq!(YoudaoParams::generate_input("hello"), "hello");
    let exactly20 = "abcdefghijklmnopqrst";
    assert_eq!(exactly20.chars().count(), 20);
    assert_eq!(YoudaoParams::generate_input(exactly20), exactly20);
}

#[test]
fn generate_input_splices_length_for_long_text() {
    let text25 = "abcdefghijklmnopqrstuvwxy";
    assert_eq!(text25.chars().count(), 25);
    assert_eq!(YoudaoParams::generate_input(text25), "abcdefghij25pqrstuvwxy");
    let text21 = "abcdefghijklmnopqrstu";
    assert_eq!(text21.chars().count(), 21);
    assert_eq!(YoudaoParams::generate_input(text21), "abcdefghij21lmnopqrstu");
}

#[test]
fn generate_input_counts_characters_not_bytes() {
    // 25 multi-byte characters: the transform must cut by character count.
    let text: String = std::iter::repeat('你').take(25).collect();
    let expected = format!("{}25{}", "你".repeat(10), "你".repeat(10));
    assert_eq!(YoudaoParams::generate_input(&text), expected);
}

#[test]
fn baidu_signature_matches_known_vector() {
    let p = BaiduParams::with_salt(
        "apple",
        &Language::English,
        &Language::Chinese,
        "2015063000000001",
        "12345678",
        String::from("1435660288"),
    );
    assert_eq!(p.sign, "f89f9594663708c1605f3d736d01d2d4");
    assert_eq!(p.q, "apple");
    assert_eq!(p.from, "en");
    assert_eq!(p.to, "zh");
    assert_eq!(p.app_id, "2015063000000001");
    assert_eq!(p.salt, "1435660288");
}

#[test]
fn baidu_signature_of_empty_parts_is_md5_of_empty() {
    let p = BaiduParams::with_salt(
        "",
        &Language::English,
        &Language::Chinese,
        "",
        "",
        String::new(),
    );
    assert_eq!(p.sign, "d41d8cd98f00b204e9800998ecf8427e");
}

#[test]
fn baidu_signature_is_deterministic_and_input_sensitive() {
    let sign = |q: &str, app_id: &str, salt: &str, secret: &str| {
        BaiduParams::with_salt(
            q,
            &Language::English,
            &Language::Chinese,
            app_id,
            secret,
            String::from(salt),
        )
        .sign
    };
    let base = sign("hello", "id", "123", "secret");
    assert_eq!(base, sign("hello", "id", "123", "secret"));
    assert_ne!(base, sign("hello!", "id", "123", "secret"));
    assert_ne!(base, sign("hello", "id2", "123", "secret"));
    assert_ne!(base, sign("hello", "id", "124", "secret"));
    assert_ne!(base, sign("hello", "id", "123", "secret2"));
    assert_eq!(base.len(), 32);
    assert!(is_lower_hex(&base));
}

#[test]
fn youdao_signature_matches_known_vector() {
    let p = YoudaoParams::with_salt_and_time(
        "",
        &Language::English,
        &Language::Chinese,
        "",
        "",
        String::new(),
        0,
    );
    // The signed concatenation is then exactly "0": the timestamp alone.
    assert_eq!(
        p.sign,
        "5feceb66ffc86f38d952786c6d696c79c2dbc239dd4e91b46729d73a27fb57e9"
    );
    assert_eq!(p.cur_time, "0");
    assert_eq!(p.sign_type, "v3");
}

#[test]
fn youdao_signature_is_deterministic_and_input_sensitive() {
    let sign = |q: &str, key: &str, salt: &str, ts: i64, secret: &str| {
        YoudaoParams::with_salt_and_time(
            q,
            &Language::English,
            &Language::Chinese,
            key,
            secret,
            String::from(salt),
            ts,
        )
        .sign
    };
    let base = sign("hello", "key", "salt", 1700000000, "secret");
    assert_eq!(base, sign("hello", "key", "salt", 1700000000, "secret"));
    assert_ne!(base, sign("hello!", "key", "salt", 1700000000, "secret"));
    assert_ne!(base, sign("hello", "key2", "salt", 1700000000, "secret"));
    assert_ne!(base, sign("hello", "key", "salt2", 1700000000, "secret"));
    assert_ne!(base, sign("hello", "key", "salt", 1700000001, "secret"));
    assert_ne!(base, sign("hello", "key", "salt", 1700000000, "secret2"));
    assert_eq!(base.len(), 64);
    assert!(is_lower_hex(&base));
}

#[test]
fn youdao_signature_hashes_transformed_long_input() {
    // For a long plaintext the digest covers the truncated transform, so the
    // signature must equal the one computed for the transform itself only if
    // the transform is what is hashed; a different long text with the same
    // first ten, last ten and length gives the same signature.
    let a = "abcdefghijXXXXXpqrstuvwxy";
    let b = "abcdefghijYYYYYpqrstuvwxy";
    assert_eq!(a.chars().count(), 25);
    assert_eq!(b.chars().count(), 25);
    let pa = YoudaoParams::with_salt_and_time(
        a,
        &Language::English,
        &Language::Chinese,
        "key",
        "secret",
        String::from("salt"),
        1700000000,
    );
    let pb = YoudaoParams::with_salt_and_time(
        b,
        &Language::English,
        &Language::Chinese,
        "key",
        "secret",
        String::from("salt"),
        1700000000,
    );
    assert_eq!(pa.sign, pb.sign);
    assert_eq!(pa.q, a);
    assert_eq!(pb.q, b);
}

#[test]
fn baidu_prepare_builds_the_ordered_field_set() {
    let api = BaiduApi {
        url: String::from("https://fanyi-api.baidu.com/api/trans/vip/translate"),
        app_id: String::from("id"),
        secret: String::from("secret"),
    };
    assert_eq!(api.url(), "https://fanyi-api.baidu.com/api/trans/vip/translate");
    let p = api.prepare("hello", &Language::English, &Language::Chinese);
    let names: Vec<&str> = p.iter().map(|f| f.0.as_str()).collect();
    assert_eq!(names, vec!["q", "from", "to", "appid", "salt", "sign"]);
    assert_eq!(p[0].1, "hello");
    assert_eq!(p[1].1, "en");
    assert_eq!(p[2].1, "zh");
    assert_eq!(p[3].1, "id");
    // The salt is the decimal rendering of a 32-bit integer.
    assert!(p[4].1.parse::<i32>().is_ok());
    assert_eq!(p[5].1.len(), 32);
    assert!(is_lower_hex(&p[5].1));
}

#[test]
fn youdao_prepare_builds_the_ordered_field_set() {
    let api = YoudaoApi {
        url: String::from("https://openapi.youdao.com/api"),
        app_key: String::from("key"),
        app_secret: String::from("secret"),
    };
    assert_eq!(api.url(), "https://openapi.youdao.com/api");
    let p = api.prepare("hello", &Language::Chinese, &Language::English);
    let names: Vec<&str> = p.iter().map(|f| f.0.as_str()).collect();
    assert_eq!(
        names,
        vec!["q", "from", "to", "appKey", "salt", "sign", "signType", "curtime"]
    );
    assert_eq!(p[0].1, "hello");
    assert_eq!(p[1].1, "zh-CHS");
    assert_eq!(p[2].1, "en");
    assert_eq!(p[3].1, "key");
    assert_eq!(p[4].1.len(), 36);
    assert_eq!(p[5].1.len(), 64);
    assert!(is_lower_hex(&p[5].1));
    assert_eq!(p[6].1, "v3");
    assert!(p[7].1.parse::<i64>().is_ok());
}

#[test]
fn youdao_fresh_salt_is_a_uuid_string() {
    let p = YoudaoParams::new(
        "hello",
        &Language::English,
        &Language::Chinese,
        "key",
        "secret",
    );
    assert_eq!(p.salt.len(), 36);
    let q = YoudaoParams::new(
        "hello",
        &Language::English,
        &Language::Chinese,
        "key",
        "secret",
    );
    // Two draws of the nonce virtually never collide.
    assert_ne!(p.salt, q.salt);
}
