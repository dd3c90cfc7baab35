use session_bridge::request::{
    check_request, connect_request, effective_namespace, encode_base64, render_url,
    sec_websocket_key, select_shape, set_header, target_namespace, upgrade_request,
    websocket_key_from, ConnectRequest, RequestBuildError, RequestHeader, ResourceRoute, Routes,
    UrlShape, UserIdentity,
};

fn routes() -> Routes {
    Routes {
        namespace: "team-a".to_string(),
        on_concurrent_steal: "abort".to_string(),
        raw: ResourceRoute {
            api_version: "operator.metalbear.co/v1".to_string(),
            plural: "targets".to_string(),
            resource_url: "/apis/operator.metalbear.co/v1/namespaces/team-a/targets".to_string(),
        },
        copied: ResourceRoute {
            api_version: "operator.metalbear.co/v1".to_string(),
            plural: "copytargets".to_string(),
            resource_url: "/apis/operator.metalbear.co/v1/namespaces/team-a/copytargets".to_string(),
        },
    }
}

fn h(name: &str, value: &str) -> RequestHeader {
    RequestHeader { name: name.to_string(), value: value.to_string() }
}

#[test]
fn shape_table() {
    assert_eq!(select_shape(true, false), UrlShape::ProxiedRaw);
    assert_eq!(select_shape(false, false), UrlShape::DirectRaw);
    assert_eq!(select_shape(true, true), UrlShape::ProxiedCopied);
    assert_eq!(select_shape(false, true), UrlShape::DirectCopied);
}

#[test]
fn four_addresses() {
    let r = routes();
    assert_eq!(
        render_url(UrlShape::ProxiedRaw, &r, "deploy.web"),
        "/apis/operator.metalbear.co/v1/proxy/namespaces/team-a/targets/deploy.web?on_concurrent_steal=abort&connect=true"
    );
    assert_eq!(
        render_url(UrlShape::DirectRaw, &r, "deploy.web"),
        "/apis/operator.metalbear.co/v1/namespaces/team-a/targets/deploy.web?on_concurrent_steal=abort&connect=true"
    );
    assert_eq!(
        render_url(UrlShape::ProxiedCopied, &r, "copy-1"),
        "/apis/operator.metalbear.co/v1/proxy/namespaces/team-a/copytargets/copy-1?connect=true"
    );
    assert_eq!(
        render_url(UrlShape::DirectCopied, &r, "copy-1"),
        "/apis/operator.metalbear.co/v1/namespaces/team-a/copytargets/copy-1?connect=true"
    );
}

#[test]
fn namespaces() {
    assert_eq!(
        target_namespace(true, Some("t".to_string()), Some("a".to_string())),
        Some("t".to_string())
    );
    assert_eq!(target_namespace(true, None, Some("a".to_string())), None);
    assert_eq!(
        target_namespace(false, Some("t".to_string()), Some("a".to_string())),
        Some("a".to_string())
    );
    assert_eq!(effective_namespace(&Some("x".to_string()), "default"), "x");
    assert_eq!(effective_namespace(&None, "default"), "default");
}

#[test]
fn identity_headers_in_order() {
    let identity = UserIdentity {
        name: Some(" Zo\u{eb} ".to_string()),
        hostname: Some("laptop\n".to_string()),
    };
    let request =
        connect_request("/x?connect=true".to_string(), 42, &identity, Some("Q0VSVA==".to_string()))
            .unwrap();
    assert_eq!(request.uri, "/x?connect=true");
    assert_eq!(
        request.headers,
        vec![
            h("x-session-id", "42"),
            h("x-client-name", "Zo"),
            h("x-client-hostname", "laptop"),
            h("x-client-der", "Q0VSVA=="),
        ]
    );
}

#[test]
fn absent_identity_gives_no_headers() {
    let identity = UserIdentity { name: None, hostname: None };
    let request = connect_request("/x".to_string(), u64::MAX, &identity, None).unwrap();
    assert_eq!(request.headers, vec![h("x-session-id", "18446744073709551615")]);
}

#[test]
fn control_character_in_a_value_fails_the_build() {
    let identity = UserIdentity { name: Some("a\nb".to_string()), hostname: None };
    assert_eq!(
        connect_request("/x".to_string(), 1, &identity, None),
        Err(RequestBuildError::InvalidHeaderValue)
    );
    let identity = UserIdentity { name: Some("a\tb".to_string()), hostname: None };
    assert!(connect_request("/x".to_string(), 1, &identity, None).is_ok());
    let identity = UserIdentity { name: None, hostname: Some("h\x7fost".to_string()) };
    assert_eq!(
        connect_request("/x".to_string(), 1, &identity, None),
        Err(RequestBuildError::InvalidHeaderValue)
    );
}

#[test]
fn bad_address_fails_the_build_first() {
    let identity = UserIdentity { name: Some("a\nb".to_string()), hostname: None };
    assert_eq!(
        connect_request("/with space".to_string(), 1, &identity, None),
        Err(RequestBuildError::InvalidUri)
    );
    assert_eq!(
        connect_request(String::new(), 1, &UserIdentity { name: None, hostname: None }, None),
        Err(RequestBuildError::InvalidUri)
    );
}

#[test]
fn check_request_agrees_with_http() {
    for (uri, value) in [("/ok", "fine"), ("/ok", "bad\r\n"), ("bad uri", "fine"), ("/ok?x=1", "é")] {
        let request =
            ConnectRequest { uri: uri.to_string(), headers: vec![h("x-test", value)] };
        let built = http::Request::builder().uri(uri).header("x-test", value).body(());
        assert_eq!(check_request(&request).is_ok(), built.is_ok(), "{:?} {:?}", uri, value);
    }
}

#[test]
fn set_header_replaces_every_line_of_the_name() {
    let headers = vec![h("Upgrade", "h2c"), h("x-a", "1"), h("UPGRADE", "other"), h("x-b", "2")];
    assert_eq!(
        set_header(headers, "upgrade", "websocket"),
        vec![h("x-a", "1"), h("x-b", "2"), h("upgrade", "websocket")]
    );
    assert_eq!(set_header(vec![], "a", "b"), vec![h("a", "b")]);
}

#[test]
fn upgrade_request_sets_the_five_headers() {
    let request = ConnectRequest {
        uri: "/t?connect=true".to_string(),
        headers: vec![h("x-session-id", "9"), h("Connection", "close")],
    };
    let upgraded = upgrade_request(request, "a2V5");
    assert_eq!(upgraded.uri, "/t?connect=true");
    assert_eq!(
        upgraded.headers,
        vec![
            h("x-session-id", "9"),
            h("connection", "Upgrade"),
            h("upgrade", "websocket"),
            h("sec-websocket-version", "13"),
            h("sec-websocket-key", "a2V5"),
            h("sec-websocket-protocol", "v4.channel.k8s.io"),
        ]
    );
}

#[test]
fn base64_text() {
    assert_eq!(encode_base64(b""), Some(String::new()));
    assert_eq!(encode_base64(b"f"), Some("Zg==".to_string()));
    assert_eq!(encode_base64(b"foobar"), Some("Zm9vYmFy".to_string()));
    assert_eq!(websocket_key_from(&[0u8; 16]), "AAAAAAAAAAAAAAAAAAAAAA==");
    assert_eq!(websocket_key_from(b"the sample nonce"), "dGhlIHNhbXBsZSBub25jZQ==");
}

#[test]
fn fresh_keys_are_sixteen_octets() {
    let a = sec_websocket_key();
    let b = sec_websocket_key();
    assert_eq!(a.len(), 24);
    let decoded = base64::Engine::decode(&base64::engine::general_purpose::STANDARD, &a).unwrap();
    assert_eq!(decoded.len(), 16);
    assert_ne!(a, b);
}
