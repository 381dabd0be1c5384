use tarmac::roblox_web_api::{
    finish, is_valid_header_value, remove_header, parse_upload_response, HttpRequest, HttpResponse, ImageUploadData, RobloxApiClient,
    RobloxApiError, UploadResponse, UploadStep,
};

fn data() -> ImageUploadData {
    ImageUploadData {
        image_data: vec![137, 80, 78, 71],
        name: "icon".to_string(),
        description: "an icon".to_string(),
    }
}

fn reply(status: u16, csrf_token: Option<&str>, body: &str) -> HttpResponse {
    HttpResponse {
        status,
        csrf_token: csrf_token.map(|t| t.to_string()),
        body: body.to_string(),
    }
}

fn header<'a>(request: &'a HttpRequest, name: &str) -> Option<&'a str> {
    request
        .headers
        .iter()
        .find(|(n, _)| n == name)
        .map(|(_, v)| v.as_str())
}

const GOOD_BODY: &str = r#"{"Success": true, "AssetId": 12345, "BackingAssetId": 67890}"#;

fn transport_error() -> reqwest::Error {
    reqwest::blocking::Client::new()
        .get("not a url")
        .send()
        .unwrap_err()
}

#[test]
fn first_request_carries_cookie_query_and_body() {
    let client = RobloxApiClient::new("secret".to_string());
    let request = client.build_request(&data());
    assert_eq!(
        request.url,
        "https://data.roblox.com/data/upload/json?assetTypeId=13"
    );
    assert_eq!(
        request.query,
        vec![
            ("name".to_string(), "icon".to_string()),
            ("description".to_string(), "an icon".to_string())
        ]
    );
    assert_eq!(request.body, vec![137, 80, 78, 71]);
    assert_eq!(header(&request, "Cookie"), Some(".ROBLOSECURITY=secret"));
    assert_eq!(header(&request, "X-CSRF-Token"), None);
    assert_eq!(client.csrf_token(), None);
}

#[test]
fn forbidden_with_token_then_success() {
    let mut client = RobloxApiClient::new("secret".to_string());
    let step = client.handle_response(&data(), false, Ok(reply(403, Some("tok-1"), "denied")));
    let retry = match step {
        UploadStep::Send(request) => request,
        other => panic!("expected a retry, got {:?}", other),
    };
    assert_eq!(header(&retry, "X-CSRF-Token"), Some("tok-1"));
    assert_eq!(header(&retry, "Cookie"), Some(".ROBLOSECURITY=secret"));
    assert_eq!(retry.body, vec![137, 80, 78, 71]);
    match client.handle_response(&data(), true, Ok(reply(200, None, GOOD_BODY))) {
        UploadStep::Done(Ok(response)) => assert_eq!(
            response,
            UploadResponse {
                success: true,
                asset_id: 12345,
                backing_asset_id: 67890
            }
        ),
        other => panic!("expected success, got {:?}", other),
    }
    assert_eq!(client.csrf_token(), Some("tok-1".to_string()));
}

#[test]
fn forbidden_twice_fails_with_the_second_response() {
    let mut client = RobloxApiClient::new("secret".to_string());
    assert!(matches!(
        client.handle_response(&data(), false, Ok(reply(403, Some("tok-1"), "first"))),
        UploadStep::Send(_)
    ));
    match client.handle_response(&data(), true, Ok(reply(403, Some("tok-2"), "second"))) {
        UploadStep::Done(Err(RobloxApiError::ResponseError { status, body })) => {
            assert_eq!(status, 403);
            assert_eq!(body, "second");
        }
        other => panic!("expected a response error, got {:?}", other),
    }
    assert_eq!(client.csrf_token(), Some("tok-1".to_string()));
}

#[test]
fn forbidden_without_token_fails_at_once() {
    let mut client = RobloxApiClient::new("secret".to_string());
    match client.handle_response(&data(), false, Ok(reply(403, None, "no token"))) {
        UploadStep::Done(Err(RobloxApiError::ResponseError { status, body })) => {
            assert_eq!(status, 403);
            assert_eq!(body, "no token");
        }
        other => panic!("expected a response error, got {:?}", other),
    }
    assert_eq!(client.csrf_token(), None);
}

#[test]
fn transport_failure_is_not_retried() {
    let mut client = RobloxApiClient::new("secret".to_string());
    match client.handle_response(&data(), false, Err(transport_error())) {
        UploadStep::Done(Err(RobloxApiError::Http { .. })) => {}
        other => panic!("expected a transport error, got {:?}", other),
    }
    assert_eq!(client.csrf_token(), None);
}

#[test]
fn malformed_success_body_is_a_json_error() {
    let mut client = RobloxApiClient::new("secret".to_string());
    for body in [
        "not json",
        r#"{"Success": true, "AssetId": 1}"#,
        r#"{"Success": "yes", "AssetId": 1, "BackingAssetId": 2}"#,
        r#"{"Success": true, "AssetId": -1, "BackingAssetId": 2}"#,
        r#"{"Success": true, "AssetId": 1.5, "BackingAssetId": 2}"#,
        "[]",
    ] {
        match client.handle_response(&data(), false, Ok(reply(200, None, body))) {
            UploadStep::Done(Err(RobloxApiError::BadResponseJson { .. })) => {}
            other => panic!("expected a json error for {}, got {:?}", body, other),
        }
    }
}

#[test]
fn other_statuses_fail_with_status_and_body() {
    let mut client = RobloxApiClient::new("secret".to_string());
    match client.handle_response(&data(), false, Ok(reply(500, Some("tok"), "oops"))) {
        UploadStep::Done(Err(RobloxApiError::ResponseError { status, body })) => {
            assert_eq!(status, 500);
            assert_eq!(body, "oops");
        }
        other => panic!("expected a response error, got {:?}", other),
    }
    assert_eq!(client.csrf_token(), None);
}

#[test]
fn learned_token_is_sent_with_later_uploads() {
    let mut client = RobloxApiClient::new("secret".to_string());
    client.handle_response(&data(), false, Ok(reply(403, Some("tok-1"), "")));
    let later = client.build_request(&data());
    assert_eq!(header(&later, "X-CSRF-Token"), Some("tok-1"));
    client.handle_response(&data(), false, Ok(reply(403, Some("tok-2"), "")));
    assert_eq!(client.csrf_token(), Some("tok-2".to_string()));
}

#[test]
fn attach_headers_replaces_session_headers() {
    let mut client = RobloxApiClient::new("abc".to_string());
    client.handle_response(&data(), false, Ok(reply(403, Some("t"), "")));
    let mut request = HttpRequest {
        url: "u".to_string(),
        query: vec![],
        headers: vec![
            ("Cookie".to_string(), "other=1".to_string()),
            ("Accept".to_string(), "*/*".to_string()),
            ("X-CSRF-Token".to_string(), "stale".to_string()),
        ],
        body: vec![],
    };
    client.attach_headers(&mut request);
    assert_eq!(
        request.headers,
        vec![
            ("Accept".to_string(), "*/*".to_string()),
            ("Cookie".to_string(), ".ROBLOSECURITY=abc".to_string()),
            ("X-CSRF-Token".to_string(), "t".to_string()),
        ]
    );
}

#[test]
fn attach_headers_keeps_csrf_header_without_a_token() {
    let client = RobloxApiClient::new("abc".to_string());
    let mut request = HttpRequest {
        url: "u".to_string(),
        query: vec![],
        headers: vec![
            ("X-CSRF-Token".to_string(), "given".to_string()),
            ("Cookie".to_string(), "a=1".to_string()),
            ("Cookie".to_string(), "b=2".to_string()),
        ],
        body: vec![],
    };
    client.attach_headers(&mut request);
    assert_eq!(
        request.headers,
        vec![
            ("X-CSRF-Token".to_string(), "given".to_string()),
            ("Cookie".to_string(), ".ROBLOSECURITY=abc".to_string()),
        ]
    );
}

#[test]
fn remove_header_keeps_others_in_order() {
    let mut headers = vec![
        ("A".to_string(), "1".to_string()),
        ("B".to_string(), "2".to_string()),
        ("A".to_string(), "3".to_string()),
        ("C".to_string(), "4".to_string()),
    ];
    remove_header(&mut headers, "A");
    assert_eq!(
        headers,
        vec![
            ("B".to_string(), "2".to_string()),
            ("C".to_string(), "4".to_string())
        ]
    );
}

#[test]
fn header_value_validity() {
    assert!(is_valid_header_value(&"abc DEF\tg~".to_string()));
    assert!(is_valid_header_value(&"tab\there".to_string()));
    assert!(is_valid_header_value(&"caf\u{e9}".to_string()));
    assert!(is_valid_header_value(&String::new()));
    assert!(!is_valid_header_value(&"line\nbreak".to_string()));
    assert!(!is_valid_header_value(&"nul\0".to_string()));
    assert!(!is_valid_header_value(&"del\u{7f}".to_string()));
}

#[test]
fn parse_and_finish() {
    let parsed = parse_upload_response(&r#"{"BackingAssetId": 3, "Success": false, "AssetId": 2, "Extra": null}"#.to_string());
    assert_eq!(
        parsed.unwrap(),
        UploadResponse {
            success: false,
            asset_id: 2,
            backing_asset_id: 3
        }
    );
    assert!(matches!(finish(reply(201, None, GOOD_BODY)), Ok(r) if r.asset_id == 12345));
    assert!(matches!(
        finish(reply(302, None, GOOD_BODY)),
        Err(RobloxApiError::ResponseError { status: 302, .. })
    ));
}

#[test]
fn any_token_makes_a_client() {
    let client = RobloxApiClient::new("bad\ntoken".to_string());
    assert_eq!(client.csrf_token(), None);
}
