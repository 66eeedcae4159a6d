use threads_cli::client::{
    container_form, map_api_error, map_network_error, versioned_path, CreateContainerRequest,
    HttpMethod, ThreadsClient,
};

fn api_error_fields(body: &str) -> (Option<String>, Option<i64>) {
    let value: serde_json::Value = serde_json::from_str(body).expect("body is json");
    let error = &value["error"];
    (error["message"].as_str().map(|s| s.to_string()), error["code"].as_i64())
}

fn client() -> ThreadsClient {
    ThreadsClient {
        base_url: "https://graph.threads.net/".to_string(),
        api_version: "/v1.0".to_string(),
        user_id: "u1".to_string(),
        app_id: "app".to_string(),
        app_secret: "secret".to_string(),
    }
}

#[test]
fn maps_auth_error_category() {
    let (message, code) = api_error_fields(r#"{"error":{"message":"Invalid OAuth 2.0 Access Token","code":190}}"#);
    let err = map_api_error(401, message.as_deref(), code, "account identity fetch");
    assert_eq!(err.category.as_code(), "AUTH_ERROR");
    assert!(err.message.contains("code 190"));
}

#[test]
fn maps_rate_limit_error_category() {
    let (message, code) = api_error_fields(r#"{"error":{"message":"Application request limit reached","code":4}}"#);
    let err = map_api_error(429, message.as_deref(), code, "post insights fetch");
    assert_eq!(err.category.as_code(), "RATE_LIMIT_ERROR");
}

#[test]
fn api_error_message_formats() {
    let err = map_api_error(500, Some("boom"), Some(2), "publish container");
    assert_eq!(err.category.as_code(), "API_ERROR");
    assert_eq!(err.message, "publish container failed: HTTP 500: boom (code 2)");
    let err = map_api_error(403, Some("   "), None, "op");
    assert_eq!(err.category.as_code(), "AUTH_ERROR");
    assert_eq!(err.message, "op failed: HTTP 403: no API error payload");
    let err = map_api_error(404, None, Some(100), "op");
    assert_eq!(err.message, "op failed: HTTP 404: API error code 100");
}

#[test]
fn network_errors_name_the_operation() {
    let err = map_network_error("connection refused", "publish container");
    assert_eq!(err.category.as_code(), "NETWORK_ERROR");
    assert_eq!(err.message, "publish container failed: network error: connection refused");
}

#[test]
fn serializes_container_payload_contract() {
    let payload = CreateContainerRequest {
        text: "hello".to_string(),
        media_type: "TEXT".to_string(),
        reply_to_id: Some("123".to_string()),
        topic_tag: Some("rust".to_string()),
        link_attachment: Some("https://example.com".to_string()),
    };
    let form = container_form(&payload);
    let get = |k: &str| form.iter().find(|(key, _)| key == k).map(|(_, v)| v.clone());
    assert_eq!(get("text").as_deref(), Some("hello"));
    assert_eq!(get("media_type").as_deref(), Some("TEXT"));
    assert_eq!(get("reply_to_id").as_deref(), Some("123"));
    assert_eq!(get("topic_tag").as_deref(), Some("rust"));
    assert_eq!(get("link_attachment").as_deref(), Some("https://example.com"));
}

#[test]
fn container_form_omits_absent_optional_fields() {
    let payload = CreateContainerRequest {
        text: "post-body".to_string(),
        media_type: "TEXT".to_string(),
        reply_to_id: None,
        topic_tag: None,
        link_attachment: None,
    };
    let form = container_form(&payload);
    assert_eq!(form, vec![("text".to_string(), "post-body".to_string()), ("media_type".to_string(), "TEXT".to_string())]);
}

#[test]
fn versioned_path_joins_without_doubled_slashes() {
    assert_eq!(versioned_path("https://graph.threads.net//", "/v1.0", "/me"), "https://graph.threads.net/v1.0/me");
    assert_eq!(versioned_path("http://h", "v1", "threads"), "http://h/v1/threads");
}

#[test]
fn publish_container_request_is_form_post_with_token_in_query() {
    let c = client();
    let req = c.create_publish_container("test-token", &CreateContainerRequest {
        text: "reply-body".to_string(),
        media_type: "TEXT".to_string(),
        reply_to_id: Some("parent_1".to_string()),
        topic_tag: None,
        link_attachment: None,
    });
    assert_eq!(req.method, HttpMethod::Post);
    assert_eq!(req.url, "https://graph.threads.net/v1.0/u1/threads");
    assert!(req.query.iter().any(|(k, v)| k == "access_token" && v == "test-token"));
    assert!(req.form.iter().any(|(k, v)| k == "reply_to_id" && v == "parent_1"));
    assert!(!req.form.iter().any(|(k, _)| k == "topic_tag" || k == "link_attachment"));
}

#[test]
fn reduced_post_details_request_drops_owner_fields() {
    let c = client();
    let full = c.fetch_post_details("tok", "p1");
    let reduced = c.fetch_post_details_reduced("tok", "p1");
    assert_eq!(reduced.url, full.url);
    assert_eq!(reduced.url, "https://graph.threads.net/v1.0/p1");
    assert_eq!(
        reduced.query,
        vec![
            ("fields".to_string(), "id,text,permalink,timestamp".to_string()),
            ("access_token".to_string(), "tok".to_string()),
        ]
    );
    assert!(matches!(reduced.method, HttpMethod::Get));
    assert_eq!(reduced.operation, "post details fetch");
}
