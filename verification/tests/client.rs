use deepinfra_client_rs::client::{DeepinfraClient, DeepinfraClientBuilderError, APP_USER_AGENT};

#[test]
fn a_plain_token_builds_a_client() {
    let client = DeepinfraClient::new("di-token-123");
    assert!(client.is_ok(), "{:?}", client.err());
}

#[test]
fn a_token_with_a_control_character_is_refused() {
    match DeepinfraClient::new("bad\ntoken") {
        Err(DeepinfraClientBuilderError::InvalidHeaderValue(text)) => {
            assert_eq!(text, "failed to parse header value")
        }
        other => panic!("unexpected result: {:?}", other.map(|_| ())),
    }
    assert!(matches!(
        DeepinfraClient::new("del\u{7f}"),
        Err(DeepinfraClientBuilderError::InvalidHeaderValue(_))
    ));
}

#[test]
fn a_token_with_a_tab_or_beyond_ascii_is_accepted() {
    assert!(DeepinfraClient::new("a\tb").is_ok());
    assert!(DeepinfraClient::new("t\u{f6}ken").is_ok());
    assert!(DeepinfraClient::new("").is_ok());
}

#[test]
fn the_handle_gives_a_client_that_builds_requests() {
    let client = DeepinfraClient::new("abc").expect("a client");
    let request = client
        .http()
        .post("https://api.deepinfra.com/v1/openai/chat/completions")
        .build()
        .expect("a request");
    assert_eq!(request.method().as_str(), "POST");
    let copy = client.clone();
    assert!(copy.http().get("https://api.deepinfra.com/").build().is_ok());
}

#[test]
fn builder_errors_describe_themselves() {
    assert_eq!(
        DeepinfraClientBuilderError::InvalidHeaderValue("failed to parse header value".to_string())
            .describe(),
        "Invalid header value failed to parse header value"
    );
    assert_eq!(
        DeepinfraClientBuilderError::ReqwestError("no tls".to_string()).describe(),
        "Could not build client no tls"
    );
    assert_eq!(APP_USER_AGENT, "deepinfra-client-rs/0.1.0");
}
