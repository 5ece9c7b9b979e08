use upload_gateway::helpers::{
    get_content_length, get_content_type, get_required_str_header, get_str_header,
    response_with_status_and_error, response_with_status_desc_and_trace_id, ContentType,
    HeaderError, HeaderMap,
};

fn headers(lines: Vec<(&str, &[u8])>) -> HeaderMap {
    let mut h = HeaderMap::new();
    for (name, value) in lines {
        h.append(name, value);
    }
    h
}

#[test]
fn header_names_match_without_case() {
    let h = headers(vec![("x-api-token", b"tok1"), ("content-length", b"9")]);
    assert_eq!(h.get("X-Api-Token"), Some(&b"tok1".to_vec()));
    assert_eq!(h.get("CONTENT-LENGTH"), Some(&b"9".to_vec()));
    assert_eq!(h.get("x-filename"), None);
}

#[test]
fn first_header_of_a_name_wins() {
    let h = headers(vec![("X-Filename", b"one"), ("x-filename", b"two")]);
    assert_eq!(h.get("x-filename"), Some(&b"one".to_vec()));
}

#[test]
fn str_header_is_read_as_utf8() {
    let h = headers(vec![("x-filename", "файл.txt".as_bytes())]);
    assert_eq!(get_str_header(&h, "X-Filename"), Ok(Some("файл.txt".to_string())));
    assert_eq!(get_str_header(&h, "X-Other"), Ok(None));
}

#[test]
fn str_header_that_is_no_utf8_is_an_error() {
    let h = headers(vec![("x-filename", &[0xff, 0xfe, 0x41])]);
    assert_eq!(get_str_header(&h, "X-Filename"), Err(HeaderError::NotText));
    assert_eq!(get_required_str_header(&h, "X-Filename"), Err(HeaderError::NotText));
}

#[test]
fn required_header_must_be_there() {
    let h = headers(vec![("x-api-token", b"tok1")]);
    assert_eq!(get_required_str_header(&h, "X-Api-Token"), Ok("tok1".to_string()));
    assert_eq!(get_required_str_header(&h, "X-Missing"), Err(HeaderError::Missing));
}

#[test]
fn content_length_is_a_number() {
    assert_eq!(get_content_length(&headers(vec![("Content-Length", b"9")])), Ok(Some(9)));
    assert_eq!(get_content_length(&headers(vec![])), Ok(None));
    assert_eq!(
        get_content_length(&headers(vec![("Content-Length", b"nine")])),
        Err(HeaderError::NotNumber)
    );
    assert_eq!(
        get_content_length(&headers(vec![("Content-Length", b"")])),
        Err(HeaderError::NotNumber)
    );
    assert_eq!(
        get_content_length(&headers(vec![("Content-Length", &[0xc3, 0x28])])),
        Err(HeaderError::NotText)
    );
}

#[test]
fn content_type_is_a_media_type() {
    let h = headers(vec![("Content-Type", b"Text/Plain; charset=utf-8")]);
    let t = get_content_type(&h).unwrap().unwrap();
    assert_eq!(t.type_, "text");
    assert_eq!(t.subtype, "plain");
    assert_eq!(t.suffix, None);
    assert_eq!(get_content_type(&headers(vec![])), Ok(None));
    assert_eq!(
        get_content_type(&headers(vec![("Content-Type", b"no media type")])),
        Err(HeaderError::NotMediaType)
    );
    assert_eq!(
        get_content_type(&headers(vec![("Content-Type", &[0x80])])),
        Err(HeaderError::NotText)
    );
}

#[test]
fn media_types_are_split_into_parts() {
    let t = ContentType::parse("application/vnd.api+json").unwrap();
    assert_eq!(t.type_, "application");
    assert_eq!(t.subtype, "vnd.api");
    assert_eq!(t.suffix, Some("json".to_string()));
    assert!(!t.is_json());
    let j = ContentType::parse("APPLICATION/JSON").unwrap();
    assert_eq!(j.type_, "application");
    assert_eq!(j.subtype, "json");
    assert!(j.is_json());
    assert_eq!(ContentType::parse("application"), None);
    assert_eq!(ContentType::parse(""), None);
}

#[test]
fn error_answer_without_request() {
    let r = response_with_status_and_error(500, "Prometheus text encoding failed");
    assert_eq!(r.status, 500);
    assert_eq!(r.content_type, Some("application/json".to_string()));
    assert_eq!(r.body, "{\"desc\":\"Prometheus text encoding failed\"}");
    assert_eq!(r.content_length, Some(r.body.len()));
    assert!(!r.close_connection);
}

#[test]
fn error_answer_names_the_request_and_closes() {
    let r = response_with_status_desc_and_trace_id(
        401,
        "Api token parsing failed",
        "0123456789abcdef0123456789abcdef",
    );
    assert_eq!(r.status, 401);
    assert_eq!(r.content_type, Some("application/json".to_string()));
    assert_eq!(
        r.body,
        "{\"request_id\":\"0123456789abcdef0123456789abcdef\",\"desc\":\"Api token parsing failed\"}"
    );
    assert_eq!(r.content_length, Some(83));
    assert!(r.close_connection);
}

#[test]
fn content_length_counts_bytes_not_characters() {
    let r = response_with_status_desc_and_trace_id(400, "ошибка", "id");
    assert_eq!(r.body, "{\"request_id\":\"id\",\"desc\":\"ошибка\"}");
    assert_eq!(r.content_length, Some(41));
    assert_eq!(r.body.chars().count(), 35);
}

fn member(body: &str, key: &str) -> Option<String> {
    let value: serde_json::Value = serde_json::from_str(body).ok()?;
    Some(value.get(key)?.as_str()?.to_owned())
}

#[test]
fn error_answers_are_json_for_any_description() {
    let descriptions = vec![
        "plain",
        "Google error response: {\"error\":{\"code\":403,\"message\":\"Access denied\"}}",
        "back\\slash",
        "line\nbreak\r\ttab",
        "bell\u{7} and \u{8} and \u{c} and \u{1f} and \u{0}",
        "\"",
        "\\",
        "",
        "ошибка \"в кавычках\"",
        "𝄞 \\ 𝄞",
    ];
    for desc in descriptions {
        let with_id = response_with_status_desc_and_trace_id(500, desc, "id \"7\"");
        assert_eq!(member(&with_id.body, "desc").as_deref(), Some(desc), "in {}", with_id.body);
        assert_eq!(member(&with_id.body, "request_id").as_deref(), Some("id \"7\""));
        assert_eq!(with_id.content_length, Some(with_id.body.len()));
        let plain = response_with_status_and_error(500, desc);
        assert_eq!(member(&plain.body, "desc").as_deref(), Some(desc), "in {}", plain.body);
        assert_eq!(plain.content_length, Some(plain.body.len()));
    }
}

#[test]
fn quotes_and_backslashes_are_escaped_in_error_bodies() {
    let r = response_with_status_and_error(500, "say \"hi\" \\ bye\n");
    assert_eq!(r.body, "{\"desc\":\"say \\\"hi\\\" \\\\ bye\\n\"}");
    assert_eq!(r.content_length, Some(30));
}
