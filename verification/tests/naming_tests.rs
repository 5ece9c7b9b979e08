use upload_gateway::error::{ErrorKind, ErrorWithStatusAndDesc};
use upload_gateway::handlers::file_upload::{
    build_name_and_body, build_name_and_body_with, name_body, NameRule, NamedBody,
};
use upload_gateway::helpers::{ContentType, HeaderMap};

const ID: &str = "0123456789abcdef0123456789abcdef";

fn with_content_type(value: &str) -> HeaderMap {
    let mut h = HeaderMap::new();
    h.append("content-type", value.as_bytes());
    h
}

fn named(content_type: &str) -> NamedBody {
    build_name_and_body_with(&with_content_type(content_type), None, ID).unwrap()
}

#[test]
fn rule_follows_the_content_type() {
    let rule = |t: &str| NameRule::of(ContentType::parse(t).as_ref());
    assert_eq!(rule("text/plain"), NameRule::Text);
    assert_eq!(rule("text/html; charset=utf-8"), NameRule::Text);
    assert_eq!(rule("TEXT/CSV"), NameRule::Text);
    assert_eq!(rule("application/json"), NameRule::Json);
    assert_eq!(rule("application/zip"), NameRule::Zip);
    assert_eq!(rule("application/gz"), NameRule::Gz);
    assert_eq!(rule("application/octet-stream"), NameRule::Binary);
    assert_eq!(rule("application/gzip"), NameRule::Binary);
    assert_eq!(rule("image/png"), NameRule::Binary);
    assert_eq!(rule("json/text"), NameRule::Binary);
    assert_eq!(NameRule::of(None), NameRule::Binary);
}

#[test]
fn endings_and_compression_follow_the_rule() {
    assert_eq!(NameRule::Text.extension(), ".txt.gz");
    assert_eq!(NameRule::Json.extension(), ".json.gz");
    assert_eq!(NameRule::Zip.extension(), ".zip");
    assert_eq!(NameRule::Gz.extension(), ".gz");
    assert_eq!(NameRule::Binary.extension(), ".bin.gz");
    assert!(NameRule::Text.compresses());
    assert!(NameRule::Json.compresses());
    assert!(!NameRule::Zip.compresses());
    assert!(!NameRule::Gz.compresses());
    assert!(NameRule::Binary.compresses());
}

#[test]
fn text_is_named_txt_gz_and_compressed() {
    assert_eq!(
        named("text/plain"),
        NamedBody { name: "0123456789abcdef0123456789abcdef.txt.gz".to_string(), compress: true }
    );
}

#[test]
fn json_is_named_json_gz_and_compressed() {
    assert_eq!(
        named("application/json"),
        NamedBody { name: "0123456789abcdef0123456789abcdef.json.gz".to_string(), compress: true }
    );
}

#[test]
fn zip_is_stored_as_it_comes() {
    assert_eq!(
        named("application/zip"),
        NamedBody { name: "0123456789abcdef0123456789abcdef.zip".to_string(), compress: false }
    );
}

#[test]
fn gz_is_stored_as_it_comes() {
    assert_eq!(
        named("application/gz"),
        NamedBody { name: "0123456789abcdef0123456789abcdef.gz".to_string(), compress: false }
    );
}

#[test]
fn everything_else_is_named_bin_gz_and_compressed() {
    let expected =
        NamedBody { name: "0123456789abcdef0123456789abcdef.bin.gz".to_string(), compress: true };
    assert_eq!(named("application/octet-stream"), expected);
    assert_eq!(named("image/png"), expected);
    assert_eq!(build_name_and_body_with(&HeaderMap::new(), None, ID), Ok(expected));
}

#[test]
fn given_name_is_kept_exactly() {
    let r = build_name_and_body_with(
        &with_content_type("text/plain"),
        Some("file_1700000000_2.txt".to_string()),
        ID,
    );
    assert_eq!(r, Ok(NamedBody { name: "file_1700000000_2.txt".to_string(), compress: false }));
    assert_eq!(
        name_body(Some("отчёт 1.txt".to_string()), None, ID),
        NamedBody { name: "отчёт 1.txt".to_string(), compress: false }
    );
}

#[test]
fn given_name_needs_no_readable_content_type() {
    let r = build_name_and_body_with(&with_content_type("nonsense"), Some("a.txt".to_string()), ID);
    assert_eq!(r, Ok(NamedBody { name: "a.txt".to_string(), compress: false }));
}

#[test]
fn unreadable_content_type_is_a_bad_request() {
    let r = build_name_and_body_with(&with_content_type("nonsense"), None, ID);
    assert_eq!(
        r,
        Err(ErrorWithStatusAndDesc {
            kind: ErrorKind::BadRequest,
            desc: "Content type parsing failed".to_string(),
        })
    );
}

#[test]
fn made_up_names_start_with_32_hex_digits() {
    let a = build_name_and_body(&with_content_type("text/plain"), None).unwrap();
    let b = build_name_and_body(&with_content_type("text/plain"), None).unwrap();
    for body in [&a, &b] {
        assert_eq!(body.name.len(), 32 + ".txt.gz".len());
        assert!(body.name.ends_with(".txt.gz"));
        assert!(body.name[..32].chars().all(|c| matches!(c, '0'..='9' | 'a'..='f')));
        assert!(body.compress);
    }
    assert_ne!(a.name, b.name);
}

#[test]
fn given_name_is_kept_without_an_id() {
    let r = build_name_and_body(&HeaderMap::new(), Some("given.bin".to_string()));
    assert_eq!(r, Ok(NamedBody { name: "given.bin".to_string(), compress: false }));
}
