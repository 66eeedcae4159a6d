use threads_cli::cli::validation;

#[test]
fn text_validation_rejects_blank() {
    let err = validation::validate_post_text("   ").expect_err("expected validation fail");
    assert_eq!(err.category.as_code(), "VALIDATION_ERROR");
}

#[test]
fn topic_tag_validation_rejects_bad_chars() {
    let err = validation::validate_topic_tag("bad tag!").expect_err("expected validation fail");
    assert_eq!(err.category.as_code(), "VALIDATION_ERROR");
}

#[test]
fn source_url_validation_requires_http_scheme() {
    let err = validation::validate_source_url("ftp://example.com").expect_err("expected fail");
    assert_eq!(err.category.as_code(), "VALIDATION_ERROR");
}

#[test]
fn source_url_validation_accepts_https() {
    validation::validate_source_url("https://example.com").expect("expected valid url");
}

#[test]
fn text_validation_accepts_text_with_content() {
    validation::validate_post_text("  hello  ").expect("text with content is valid");
}

#[test]
fn reply_to_validation_rejects_blank_and_accepts_id() {
    let err = validation::validate_reply_to(" \t").expect_err("blank reply target");
    assert_eq!(err.category.as_code(), "VALIDATION_ERROR");
    validation::validate_reply_to("123").expect("reply target with content");
}

#[test]
fn topic_tag_validation_accepts_plain_tags() {
    validation::validate_topic_tag("rust_lang-2024").expect("plain tag");
}

#[test]
fn source_url_validation_rejects_unparseable_url() {
    let err = validation::validate_source_url("not a url").expect_err("unparseable");
    assert_eq!(err.category.as_code(), "VALIDATION_ERROR");
}
