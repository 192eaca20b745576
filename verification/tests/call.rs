use monero_node_module::call::{has_digest, health_report, post, prepared_with, rpc_result};
use monero_node_module::registry::Nodes;
use monero_node_module::{
    build_client, Call, HealthCheck, Json, NodeConfig, NodeError, NodeMode, ProxyConfig, ProxyError,
};

fn cfg(url: &str) -> NodeConfig {
    NodeConfig {
        url: url.into(),
        username: None,
        password: None,
        proxy: None,
        proxy_required: false,
        timeout_secs: 8,
        trusted: false,
        source: "external".into(),
        mode: NodeMode::Remote,
    }
}

fn with(c: NodeConfig) -> Nodes {
    let mut n = Nodes::new(None);
    n.set("regtest", c).unwrap();
    n
}

/// The method, address, credentials and body that a call would put on the wire.
fn wire(call: Call) -> (String, String, Option<String>, String) {
    let req = call.outgoing.build().unwrap();
    let auth = req.headers().get("authorization").map(|v| v.to_str().unwrap().to_string());
    let body = String::from_utf8(req.body().unwrap().as_bytes().unwrap().to_vec()).unwrap();
    assert_eq!(req.headers().get("content-type").unwrap().to_str().unwrap(), "application/json");
    (req.method().to_string(), req.url().to_string(), auth, body)
}

#[test]
fn a_json_rpc_call_goes_out_as_one() {
    let n = with(cfg("http://127.0.0.1:18081//"));
    let (method, url, auth, body) = wire(n.get_info("regtest").unwrap());
    assert_eq!(method, "POST");
    assert_eq!(url, "http://127.0.0.1:18081/json_rpc");
    assert_eq!(auth, None);
    assert_eq!(body, r#"{"id":"0","jsonrpc":"2.0","method":"get_info","params":{}}"#);
}

#[test]
fn typed_reads_name_their_method() {
    let n = with(cfg("http://h"));
    for (call, method) in [
        (n.get_info("regtest"), "get_info"),
        (n.get_fee_estimate("regtest"), "get_fee_estimate"),
        (n.get_version("regtest"), "get_version"),
        (n.hard_fork_info("regtest"), "hard_fork_info"),
    ] {
        let (_, url, _, body) = wire(call.unwrap());
        assert_eq!(url, "http://h/json_rpc");
        assert_eq!(
            body,
            format!("{{\"id\":\"0\",\"jsonrpc\":\"2.0\",\"method\":\"{method}\",\"params\":{{}}}}")
        );
    }
}

#[test]
fn a_broadcast_goes_to_its_own_endpoint() {
    let n = with(cfg("http://h/"));
    let call = n.send_raw_transaction("regtest", "abcd", false).unwrap();
    assert!(!call.request.json_rpc);
    let (_, url, _, body) = wire(call);
    assert_eq!(url, "http://h/send_raw_transaction");
    assert_eq!(body, r#"{"do_not_relay":false,"tx_as_hex":"abcd"}"#);
}

#[test]
fn mining_names_address_and_amount() {
    let n = with(cfg("http://h"));
    let (_, _, _, body) = wire(n.generateblocks("regtest", "4addr", 5).unwrap());
    assert_eq!(
        body,
        r#"{"id":"0","jsonrpc":"2.0","method":"generateblocks","params":{"amount_of_blocks":5,"starting_nonce":0,"wallet_address":"4addr"}}"#
    );
}

#[test]
fn credentials_go_out_only_as_a_pair_with_a_name() {
    let mut c = cfg("http://h");
    c.username = Some("Aladdin".into());
    c.password = Some("open sesame".into());
    let (_, _, auth, _) = wire(with(c).get_info("regtest").unwrap());
    assert_eq!(auth.as_deref(), Some("Basic QWxhZGRpbjpvcGVuIHNlc2FtZQ=="));
    for (user, password) in
        [(Some("u"), None), (None, Some("p")), (Some(""), Some("p")), (None, None)]
    {
        let mut c = cfg("http://h");
        c.username = user.map(|s: &str| s.to_string());
        c.password = password.map(|s: &str| s.to_string());
        let (_, _, auth, _) = wire(with(c).get_info("regtest").unwrap());
        assert_eq!(auth, None);
    }
}

#[test]
fn an_unconfigured_network_is_not_called() {
    let n = Nodes::new(None);
    match n.other("mainnet", "p", Json::Null) {
        Err(NodeError::NotConfigured(name)) => assert_eq!(name, "mainnet"),
        other => panic!("{other:?}"),
    }
}

#[test]
fn the_route_is_told() {
    let mut c = cfg("http://h");
    assert_eq!(Nodes::route(&c), "direct");
    c.proxy = Some("  ".into());
    assert_eq!(Nodes::route(&c), "direct");
    c.proxy = Some("socks5h://127.0.0.1:9050".into());
    assert_eq!(Nodes::route(&c), "proxied");
    let call = with(c).get_info("regtest").unwrap();
    assert_eq!(call.request.route, "proxied");
}

#[test]
fn a_bad_proxy_is_told_before_any_call() {
    let mut c = cfg("http://h");
    c.proxy = Some("ftp://1.2.3.4:21".into());
    match with(c).get_version("regtest") {
        Err(e) => assert_eq!(
            e.message(),
            "proxy: proxy URL is invalid or unsupported: unsupported proxy scheme: ftp"
        ),
        Ok(call) => panic!("{call:?}"),
    }
}

fn result_of(text: &str) -> Result<String, String> {
    match rpc_result(Json::parse(text).unwrap()) {
        Ok(j) => Ok(j.to_text()),
        Err(e) => Err(e.message()),
    }
}

#[test]
fn answers_are_results_or_errors() {
    assert_eq!(result_of(r#"{"result":{"height":7}}"#), Ok(r#"{"height":7}"#.to_string()));
    assert_eq!(result_of(r#"{"result":null}"#), Ok("null".to_string()));
    assert_eq!(
        result_of(r#"{"error":{"code":-32601,"message":"Method not found"},"result":1}"#),
        Err("rpc error -32601: Method not found".to_string())
    );
    assert_eq!(result_of(r#"{"error":null}"#), Err("rpc error 0: ".to_string()));
    assert_eq!(
        result_of(r#"{"error":{"code":"x","message":3}}"#),
        Err("rpc error 0: ".to_string())
    );
    assert_eq!(result_of("{}"), Err("parse: response had no `result`".to_string()));
    assert_eq!(result_of("[]"), Err("parse: response had no `result`".to_string()));
}

#[test]
fn finishing_a_request_reads_its_bytes() {
    let rpc = post(&cfg("http://h"), "json_rpc", Json::Null, true);
    let (j, route) = rpc.finish(Ok((200, vec![], br#"{"result":[1.25]}"#.to_vec()))).unwrap();
    assert_eq!((j.to_text().as_str(), route), ("[1.25]", "direct"));
    match rpc.finish(Ok((404, vec![], b"<html>".to_vec()))) {
        Err(e) => assert_eq!(e.message(), "http: error decoding response body"),
        Ok(v) => panic!("{v:?}"),
    }
    match rpc.finish(Err("error sending request".into())) {
        Err(e) => assert_eq!(e.message(), "http: error sending request"),
        Ok(v) => panic!("{v:?}"),
    }
    let other = post(&cfg("http://h"), "x", Json::Null, false);
    let (j, _) = other.finish(Ok((500, vec![], br#"{"error":1}"#.to_vec()))).unwrap();
    assert_eq!(j.to_text(), r#"{"error":1}"#);
}

#[test]
fn health_is_reported() {
    let info = Json::parse(
        r#"{"height":9,"target_height":-1,"synchronized":true,"restricted":"no"}"#,
    )
    .unwrap();
    assert_eq!(
        health_report(&Ok((info, "proxied")), 12).to_text(),
        r#"{"height":9,"ok":true,"reachable":true,"restricted":null,"route":"proxied","rttMs":12,"synced":true,"targetHeight":null}"#
    );
    assert_eq!(
        health_report(&Err(NodeError::Http("gone".into())), 0).to_text(),
        r#"{"error":"http: gone","ok":true,"reachable":false}"#
    );
}

#[test]
fn health_of_an_unknown_or_unconfigured_network_asks_nobody() {
    let n = Nodes::new(None);
    match n.node_health("devnet") {
        HealthCheck::Report(j) => {
            assert_eq!(j.to_text(), r#"{"error":"unknown network: devnet","ok":false}"#)
        }
        HealthCheck::Ask(c) => panic!("{c:?}"),
    }
    match n.node_health("mainnet") {
        HealthCheck::Report(j) => assert_eq!(
            j.to_text(),
            r#"{"error":"network not configured: mainnet","ok":true,"reachable":false}"#
        ),
        HealthCheck::Ask(c) => panic!("{c:?}"),
    }
}

#[test]
fn a_digest_challenge_is_an_error_whatever_its_body() {
    let digest = r#"Digest qop="auth",algorithm=MD5,realm="monero-rpc",nonce="x",stale=false"#;
    for json_rpc in [true, false] {
        let request = post(&cfg("http://h"), "json_rpc", Json::Null, json_rpc);
        for body in [r#"{"result":1}"#, "<html>", ""] {
            let asked = vec![r#"Basic realm="x""#.to_string(), digest.to_string()];
            match request.finish(Ok((401, asked, body.as_bytes().to_vec()))) {
                Err(e) => assert_eq!(
                    e.message(),
                    "http: 401 Unauthorized: the node wants HTTP Digest authentication, which is not supported"
                ),
                Ok(v) => panic!("{v:?}"),
            }
        }
    }
}

#[test]
fn any_other_answer_means_what_its_body_says() {
    let rpc = post(&cfg("http://h"), "json_rpc", Json::Null, true);
    let basic = vec![r#"Basic realm="x""#.to_string()];
    let digest = vec!["Digest".to_string()];
    for (status, asked) in [(401, vec![]), (401, basic), (403, digest.clone()), (200, digest)] {
        let body = br#"{"error":{"code":7,"message":"no"}}"#.to_vec();
        match rpc.finish(Ok((status, asked.clone(), body))) {
            Err(e) => assert_eq!(e.message(), "rpc error 7: no"),
            Ok(v) => panic!("{v:?}"),
        }
        match rpc.finish(Ok((status, asked.clone(), b"<html>".to_vec()))) {
            Err(e) => assert_eq!(e.message(), "http: error decoding response body"),
            Ok(v) => panic!("{v:?}"),
        }
        let (j, _) = rpc.finish(Ok((status, asked, br#"{"result":1}"#.to_vec()))).unwrap();
        assert_eq!(j.as_u64(), Some(1));
    }
}

#[test]
fn digest_is_found_among_challenges() {
    for value in [
        "Digest",
        "dIGEST realm=\"x\"",
        "  digest\trealm=x",
        "Basic realm=\"x\", Digest realm=\"y\"",
        "Basic realm=\"a\\\"b\" ,digest",
        "Negotiate,Digest,Basic",
    ] {
        assert!(has_digest(value), "{value}");
    }
    for value in [
        "",
        "Basic realm=\"Digest\"",
        "Basic realm=\"a, Digest b\"",
        "Basic realm=\"a\\\", Digest b\"",
        "Basic Digest",
        "Digests x",
        "Basic realm=\"x\", digest=\"y\"",
        "diges",
    ] {
        assert!(!has_digest(value), "{value}");
    }
}

#[test]
fn a_client_that_was_not_built_sends_nothing() {
    let r = prepared_with(
        Err(ProxyError::Build("no TLS".into())),
        &cfg("http://h"),
        "x",
        Json::Null,
        false,
    );
    match r {
        Err(e) => assert_eq!(e.message(), "proxy: failed to build HTTP client: no TLS"),
        Ok(c) => panic!("{c:?}"),
    }
    let built = build_client(&ProxyConfig::new(None, false, 0));
    let call = prepared_with(built, &cfg("http://h/"), "x", Json::Null, false).unwrap();
    assert_eq!(wire(call).1, "http://h/x");
}
