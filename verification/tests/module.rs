use monero_node_module::module;
use monero_node_module::registry::Nodes;
use monero_node_module::{HealthCheck, Json, NodeConfig, NodeError, NodeMode, SaveStep};

fn cfg(url: &str) -> NodeConfig {
    NodeConfig {
        url: url.into(),
        username: None,
        password: None,
        proxy: None,
        proxy_required: false,
        timeout_secs: 8,
        trusted: false,
        source: "external".into(),
        mode: NodeMode::Remote,
    }
}

/// What is said of a local node where it is of no account.
fn remote() -> Result<String, String> {
    Err("not asked".into())
}

#[test]
fn calls_are_replied_to() {
    let result = Json::parse(r#"{"b":1,"a":[2.5]}"#).unwrap();
    assert_eq!(
        module::call_reply(Ok((result, "direct"))),
        r#"{"ok":true,"result":{"a":[2.5],"b":1},"route":"direct"}"#
    );
    assert_eq!(
        module::call_reply(Err(NodeError::Rpc { code: -1, message: "no \"x\"".into() })),
        r#"{"error":"rpc error -1: no \"x\"","ok":false}"#
    );
}

#[test]
fn a_reply_reads_back() {
    let text = module::err_reply("line\nbreak \u{1f600}");
    let j = Json::parse(&text).unwrap();
    assert_eq!(j.get("ok").unwrap().as_bool(), Some(false));
    assert_eq!(j.get("error").unwrap().as_str(), Some("line\nbreak \u{1f600}"));
}

#[test]
fn configurations_are_stored_and_shown() {
    let mut n = Nodes::new(None);
    assert_eq!(
        module::set_node_config(&mut n, "mainnet", Err("missing field `url`".into())),
        r#"{"error":"bad config: missing field `url`","ok":false}"#
    );
    assert_eq!(
        module::set_node_config(&mut n, "devnet", Ok(cfg("x"))),
        r#"{"error":"unknown network: devnet","ok":false}"#
    );
    assert!(!n.take_unsaved());
    assert_eq!(module::set_node_config(&mut n, "mainnet", Ok(cfg("x:1"))), r#"{"ok":true}"#);
    assert!(n.take_unsaved());
    assert_eq!(
        module::get_node_config(&n, "mainnet"),
        r#"{"ok":true,"result":{"mode":"remote","proxyRequired":false,"source":"external","timeoutSecs":8,"trusted":false,"url":"http://x:1"}}"#
    );
    assert_eq!(
        module::get_node_config(&n, "testnet"),
        r#"{"error":"network not configured: testnet","ok":false}"#
    );
    let mut c = cfg("http://y");
    c.username = Some("u".into());
    c.password = Some("p".into());
    c.proxy = Some("socks5h://h:1".into());
    c.mode = NodeMode::Local;
    module::set_node_config(&mut n, "mainnet", Ok(c));
    assert_eq!(
        module::get_node_config(&n, "mainnet"),
        r#"{"ok":true,"result":{"mode":"local","password":"p","proxy":"socks5h://h:1","proxyRequired":false,"source":"external","timeoutSecs":8,"trusted":false,"url":"http://y","username":"u"}}"#
    );
    assert_eq!(
        module::effective_node(&n, "mainnet", Ok("http://127.0.0.1:18081".into())),
        r#"{"ok":true,"result":{"mode":"local","password":"p","proxyRequired":false,"source":"external","timeoutSecs":8,"trusted":true,"url":"http://127.0.0.1:18081","username":"u"}}"#
    );
    assert_eq!(
        module::effective_node(&n, "mainnet", Err("monerod_module is not loaded".into())),
        r#"{"error":"http: monerod_module is not loaded","ok":false}"#
    );
}

#[test]
fn lists_and_seeds_are_shown() {
    let mut n = Nodes::new(None);
    assert_eq!(module::list_networks(&n), r#"{"networks":[],"ok":true}"#);
    assert_eq!(
        module::config_status(&n),
        r#"{"networks":[],"ok":true,"source":"none","state":"unconfigured"}"#
    );
    assert_eq!(
        module::init_defaults(&mut n),
        r#"{"applied":["mainnet.endpoint","stagenet.endpoint","testnet.endpoint","regtest.endpoint"],"ok":true}"#
    );
    assert_eq!(module::init_defaults(&mut n), r#"{"applied":[],"ok":true}"#);
    assert_eq!(
        module::list_networks(&n),
        r#"{"networks":["mainnet","regtest","stagenet","testnet"],"ok":true}"#
    );
}

#[test]
fn the_local_node_is_shown() {
    let status = Json::parse(r#"{"running":true}"#).unwrap();
    assert_eq!(
        module::local_node("regtest", Ok("http://127.0.0.1:1".into()), Some(status)).to_text(),
        r#"{"available":true,"ok":true,"rpcUrl":"http://127.0.0.1:1","status":{"running":true}}"#
    );
    assert_eq!(
        module::local_node("regtest", Err("down".into()), None).to_text(),
        r#"{"available":false,"error":"down","ok":true}"#
    );
    assert_eq!(
        module::local_node("devnet", Err("down".into()), None).to_text(),
        r#"{"error":"unknown network: devnet","ok":false}"#
    );
}

#[test]
fn health_tells_the_mode() {
    let mut n = Nodes::new(None);
    let mut c = cfg("http://x");
    c.mode = NodeMode::Local;
    n.set("mainnet", c).unwrap();
    n.set("testnet", cfg("http://x")).unwrap();
    let report = || Json::parse(r#"{"error":"e","ok":true,"reachable":false}"#).unwrap();
    let local = || Some(module::local_node("mainnet", Err("down".into()), None));
    assert_eq!(
        module::health_reply(&n, "mainnet", report(), local()),
        r#"{"error":"e","local":{"available":false,"error":"down","ok":true},"mode":"local","ok":true,"reachable":false}"#
    );
    assert_eq!(
        module::health_reply(&n, "testnet", report(), local()),
        r#"{"error":"e","mode":"remote","ok":true,"reachable":false}"#
    );
    assert_eq!(
        module::health_reply(&n, "regtest", report(), None),
        r#"{"error":"e","mode":"remote","ok":true,"reachable":false}"#
    );
    let refused = Json::parse(r#"{"error":"unknown network: devnet","ok":false}"#).unwrap();
    assert_eq!(
        module::health_reply(&n, "devnet", refused, None),
        r#"{"error":"unknown network: devnet","ok":false}"#
    );
    assert_eq!(module::mode_of(&n, "mainnet"), NodeMode::Local);
    assert_eq!(module::mode_of(&n, "regtest"), NodeMode::Remote);
}

#[test]
fn mining_is_for_regtest_only() {
    let mut n = Nodes::new(None);
    n.init_defaults().unwrap();
    match module::generateblocks(&n, "mainnet", remote(), "a", 1) {
        Err(reply) => {
            assert_eq!(reply, r#"{"error":"generateblocks is regtest-only","ok":false}"#)
        }
        Ok(call) => panic!("{call:?}"),
    }
    for (amount, blocks) in [(3, "3"), (0, "0"), (-4, "0"), (i64::MIN, "0")] {
        let call = module::generateblocks(&n, "regtest", remote(), "a", amount).unwrap().unwrap();
        assert_eq!(
            call.request.body.get("params").unwrap().get("amount_of_blocks").unwrap().to_text(),
            blocks
        );
    }
}

#[test]
fn raw_calls_take_any_json() {
    let mut n = Nodes::new(None);
    n.init_defaults().unwrap();
    let call = module::raw_json_rpc(&n, "regtest", remote(), "m", "[1, 2]").unwrap();
    assert_eq!(
        call.request.body.to_text(),
        r#"{"id":"0","jsonrpc":"2.0","method":"m","params":[1,2]}"#
    );
    let call = module::raw_json_rpc(&n, "regtest", remote(), "m", "not json").unwrap();
    assert_eq!(call.request.body.get("params").unwrap().to_text(), "null");
    let call = module::raw_endpoint(&n, "regtest", remote(), "get_height", "").unwrap();
    assert_eq!(call.request.body.to_text(), "{}");
    assert_eq!(call.request.url, "http://127.0.0.1:18081/get_height");
    assert!(!call.request.json_rpc);
    match module::raw_endpoint(&n, "devnet", remote(), "get_height", "{}") {
        Err(e) => assert_eq!(e.message(), "unknown network: devnet"),
        Ok(call) => panic!("{call:?}"),
    }
}

#[test]
fn an_absent_local_module_is_named_plainly() {
    assert_eq!(
        module::why(r#"call failed: {"code":"object_unavailable","x":1}"#),
        "monerod_module is not loaded"
    );
    assert_eq!(module::why(r#"bad {"code":"other"}"#), r#"monerod_module: bad {"code":"other"}"#);
    assert_eq!(module::why("plain"), "monerod_module: plain");
    assert_eq!(module::why(r#"{"code":7}"#), r#"monerod_module: {"code":7}"#);
    assert_eq!(
        module::why(r#"{ {"code":"object_unavailable"}"#),
        r#"monerod_module: { {"code":"object_unavailable"}"#
    );
}

#[test]
fn saving_stages_before_it_publishes() {
    assert!(matches!(SaveStep::first(false, Ok("b".into())), SaveStep::Finished(Ok(()))));
    match SaveStep::first(true, Err("e".into())) {
        SaveStep::Finished(Err(NodeError::Parse(t))) => assert_eq!(t, "e"),
        other => panic!("{other:?}"),
    }
    let stage = SaveStep::first(true, Ok("body".into()));
    match &stage {
        SaveStep::Stage(body) => assert_eq!(body, "body"),
        other => panic!("{other:?}"),
    }
    let publish = stage.next(Ok(()));
    assert!(matches!(publish, SaveStep::Publish));
    assert!(matches!(publish.next(Ok(())), SaveStep::Finished(Ok(()))));
    match SaveStep::first(true, Ok("body".into())).next(Err("disk full".into())) {
        SaveStep::Finished(Err(e)) => assert_eq!(e.message(), "http: disk full"),
        other => panic!("{other:?}"),
    }
    match SaveStep::Publish.next(Err("no".into())) {
        SaveStep::Finished(Err(e)) => assert_eq!(e.message(), "http: no"),
        other => panic!("{other:?}"),
    }
}

#[test]
fn a_failed_save_replaces_the_reply() {
    assert_eq!(module::saved_reply("r".into(), Ok(())), "r");
    assert_eq!(
        module::saved_reply("r".into(), Err(NodeError::Http("disk full".into()))),
        r#"{"error":"http: disk full","ok":false}"#
    );
    assert!(module::removed_reply(true, Ok(())));
    assert!(!module::removed_reply(true, Err(NodeError::Http("x".into()))));
    assert!(!module::removed_reply(false, Ok(())));
}

#[test]
fn every_call_goes_to_what_a_wallet_dials() {
    let mut n = Nodes::new(None);
    let mut c = cfg("http://remote");
    c.mode = NodeMode::Local;
    c.proxy_required = true;
    n.set("regtest", c).unwrap();
    let local = || -> Result<String, String> { Ok("http://127.0.0.1:18081/".into()) };
    for call in [
        module::get_info(&n, "regtest", local()),
        module::get_fee_estimate(&n, "regtest", local()),
        module::get_version(&n, "regtest", local()),
        module::hard_fork_info(&n, "regtest", local()),
        module::json_rpc(&n, "regtest", local(), "m", Json::Null),
    ] {
        let call = call.unwrap();
        assert_eq!(call.request.url, "http://127.0.0.1:18081/json_rpc");
        assert_eq!(call.request.route, "direct");
    }
    let call = module::send_raw_transaction(&n, "regtest", local(), "ab").unwrap();
    assert_eq!(call.request.url, "http://127.0.0.1:18081/send_raw_transaction");
    assert_eq!(call.request.body.to_text(), r#"{"do_not_relay":false,"tx_as_hex":"ab"}"#);
    match module::get_info(&n, "regtest", Err("monerod_module is not loaded".into())) {
        Err(e) => assert_eq!(e.message(), "http: monerod_module is not loaded"),
        Ok(call) => panic!("{call:?}"),
    }
    match module::get_info(&n, "mainnet", local()) {
        Err(e) => assert_eq!(e.message(), "network not configured: mainnet"),
        Ok(call) => panic!("{call:?}"),
    }
}

#[test]
fn health_is_that_of_what_a_wallet_dials() {
    let mut n = Nodes::new(None);
    let mut c = cfg("http://remote");
    c.mode = NodeMode::Local;
    n.set("mainnet", c).unwrap();
    match module::node_health(&n, "mainnet", Ok("http://127.0.0.1:1".into())) {
        HealthCheck::Ask(call) => assert_eq!(call.request.url, "http://127.0.0.1:1/json_rpc"),
        HealthCheck::Report(j) => panic!("{j:?}"),
    }
    match module::node_health(&n, "mainnet", Err("down".into())) {
        HealthCheck::Report(j) => {
            assert_eq!(j.to_text(), r#"{"error":"http: down","ok":true,"reachable":false}"#)
        }
        HealthCheck::Ask(call) => panic!("{call:?}"),
    }
    match module::node_health(&n, "devnet", remote()) {
        HealthCheck::Report(j) => {
            assert_eq!(j.to_text(), r#"{"error":"unknown network: devnet","ok":false}"#)
        }
        HealthCheck::Ask(call) => panic!("{call:?}"),
    }
}

#[test]
fn the_json_of_a_configuration_holds_its_fields() {
    let mut c = cfg("http://x");
    c.username = Some("u".into());
    c.timeout_secs = 20;
    c.mode = NodeMode::Local;
    let j = c.to_json();
    assert_eq!(j.get("url").and_then(Json::as_str), Some("http://x"));
    assert_eq!(j.get("username").and_then(Json::as_str), Some("u"));
    assert!(j.get("password").is_none());
    assert!(j.get("proxy").is_none());
    assert_eq!(j.get("proxyRequired").and_then(Json::as_bool), Some(false));
    assert_eq!(j.get("timeoutSecs").and_then(Json::as_u64), Some(20));
    assert_eq!(j.get("trusted").and_then(Json::as_bool), Some(false));
    assert_eq!(j.get("source").and_then(Json::as_str), Some("external"));
    assert_eq!(j.get("mode").and_then(Json::as_str), Some("local"));
    let mut other = c.clone();
    other.proxy = Some(String::new());
    assert_ne!(other.to_json().to_text(), j.to_text());
}

#[test]
fn a_health_reply_reads_back() {
    let mut n = Nodes::new(None);
    let mut c = cfg("http://x");
    c.mode = NodeMode::Local;
    n.set("regtest", c).unwrap();
    let report = Json::parse(r#"{"error":"e","ok":true,"reachable":false}"#).unwrap();
    let status = Json::parse(r#"{"running":true}"#);
    let local = module::local_node("regtest", Ok("http://127.0.0.1:1".into()), status);
    let back = Json::parse(&module::health_reply(&n, "regtest", report, Some(local))).unwrap();
    assert_eq!(back.get("mode").and_then(Json::as_str), Some("local"));
    assert_eq!(back.get("reachable").and_then(Json::as_bool), Some(false));
    let local = back.get("local").unwrap();
    assert_eq!(local.get("available").and_then(Json::as_bool), Some(true));
    assert_eq!(local.get("rpcUrl").and_then(Json::as_str), Some("http://127.0.0.1:1"));
    let running = local.get("status").and_then(|s| s.get("running"));
    assert_eq!(running.and_then(Json::as_bool), Some(true));
}
