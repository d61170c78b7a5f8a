use pixrs::{Error, IllustInfo, IllustType, Restriction, WrappedResponse};

fn sample_illust(id: i32) -> IllustInfo {
    IllustInfo {
        id,
        title: "Evening".to_string(),
        description: "<p>sky</p>".to_string(),
        illust_type: IllustType::Illustration,
        restriction: Restriction::General,
        user_id: 7,
        user_name: "painter".to_string(),
        width: 1200,
        height: 800,
    }
}

#[test]
fn rejected_envelope_keeps_the_message() {
    let envelope: WrappedResponse<IllustInfo> = WrappedResponse {
        error: true,
        message: "Not found".to_string(),
        body: None,
    };
    assert!(envelope.is_well_formed());
    assert_eq!(envelope.resolve(), Err(Error::RemoteRejected("Not found".to_string())));
}

#[test]
fn rejected_envelope_ignores_a_body() {
    let envelope: WrappedResponse<i32> = WrappedResponse {
        error: true,
        message: "  Quota exceeded\n".to_string(),
        body: Some(5),
    };
    assert_eq!(envelope.resolve(), Err(Error::RemoteRejected("  Quota exceeded\n".to_string())));
}

#[test]
fn rejected_envelope_with_empty_message() {
    let envelope: WrappedResponse<i32> =
        WrappedResponse { error: true, message: String::new(), body: None };
    assert_eq!(envelope.resolve(), Err(Error::RemoteRejected(String::new())));
}

#[test]
fn successful_envelope_gives_its_body() {
    let envelope: WrappedResponse<IllustInfo> =
        WrappedResponse { error: false, message: String::new(), body: Some(sample_illust(42)) };
    assert!(envelope.is_well_formed());
    let illust = envelope.resolve().unwrap();
    assert_eq!(illust.id, 42);
    assert_eq!(illust, sample_illust(42));
}

#[test]
fn successful_envelope_ignores_its_message() {
    let envelope: WrappedResponse<Vec<i32>> = WrappedResponse {
        error: false,
        message: "ignored".to_string(),
        body: Some(vec![3, 1, 2]),
    };
    assert_eq!(envelope.resolve(), Ok(vec![3, 1, 2]));
}

#[test]
fn envelope_without_body_is_not_well_formed() {
    let envelope: WrappedResponse<i32> =
        WrappedResponse { error: false, message: String::new(), body: None };
    assert!(!envelope.is_well_formed());
}

#[test]
fn illust_scenario_over_the_library() {
    let page = "<html><script>{\"token\":\"abc123\",\"x\":1}</script></html>";
    assert!(pixrs::session::csrf_token_from_page(page).is_ok());
    assert_eq!(pixrs::endpoint::illust_info_url(42), "https://www.pixiv.net/ajax/illust/42");
    assert_eq!(pixrs::session::check_status(200), Ok(()));
    let envelope: WrappedResponse<IllustInfo> =
        WrappedResponse { error: false, message: String::new(), body: Some(sample_illust(42)) };
    assert_eq!(envelope.resolve().map(|illust| illust.id), Ok(42));
}

#[test]
fn not_found_scenario_over_the_library() {
    assert_eq!(pixrs::endpoint::illust_info_url(999), "https://www.pixiv.net/ajax/illust/999");
    let envelope: WrappedResponse<IllustInfo> =
        WrappedResponse { error: true, message: "Not found".to_string(), body: None };
    match envelope.resolve() {
        Err(Error::RemoteRejected(message)) => assert_eq!(message, "Not found"),
        other => panic!("unexpected outcome: {:?}", other),
    }
}

fn envelope_of(json: &str) -> WrappedResponse<i32> {
    let document: serde_json::Value = serde_json::from_str(json).unwrap();
    WrappedResponse {
        error: document["error"].as_bool().unwrap(),
        message: document["message"].as_str().unwrap().to_string(),
        body: serde_json::from_value::<Option<i32>>(document["body"].clone()).unwrap(),
    }
}

#[test]
fn envelope_from_json_text_resolves_to_its_body() {
    let envelope = envelope_of(r#"{"error":false,"message":"","body":42}"#);
    assert!(envelope.is_well_formed());
    assert_eq!(envelope.resolve(), Ok(42));
}

#[test]
fn rejected_envelope_from_json_text_keeps_the_message() {
    let envelope = envelope_of(r#"{"error":true,"message":"Not found","body":null}"#);
    assert!(envelope.is_well_formed());
    assert_eq!(envelope.resolve(), Err(Error::RemoteRejected("Not found".to_string())));
}

#[test]
fn envelope_from_json_text_without_body_is_not_well_formed() {
    let envelope = envelope_of(r#"{"error":false,"message":"","body":null}"#);
    assert!(!envelope.is_well_formed());
}
