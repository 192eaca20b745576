use std::collections::BTreeMap;
use std::time::Instant;

use monero_node_module::call::health_report;
use monero_node_module::registry::Nodes;
use monero_node_module::{
    is_network, HealthCheck, Json, NodeConfig, NodeError, NodeMode, SaveStep,
    DEFAULT_ENDPOINTS, NETWORKS,
};

fn cfg(url: &str) -> NodeConfig {
    NodeConfig {
        url: url.into(),
        username: None,
        password: None,
        proxy: None,
        proxy_required: false,
        timeout_secs: 8,
        trusted: false,
        source: "external".into(),
        mode: NodeMode::Remote,
    }
}

fn text_at<'a>(j: &'a Json, key: &str) -> &'a str {
    j.get(key).unwrap().as_str().unwrap()
}

#[test]
fn a_schemeless_url_gets_a_scheme_before_it_is_stored() {
    let mut n = Nodes::new(None);
    n.set("stagenet", cfg("node2.monerodevs.org:38089")).unwrap();
    assert_eq!(n.get("stagenet").unwrap().url, "http://node2.monerodevs.org:38089");
    n.set("stagenet", cfg("https://my.node:443")).unwrap();
    assert_eq!(n.get("stagenet").unwrap().url, "https://my.node:443");
}

#[test]
fn unknown_network_is_refused() {
    let mut n = Nodes::new(None);
    assert!(matches!(n.set("mainet", cfg("http://x")), Err(NodeError::UnknownNetwork(_))));
}

#[test]
fn init_defaults_seeds_all_four_then_is_idempotent() {
    let mut n = Nodes::new(None);
    let first = n.init_defaults().unwrap();
    assert_eq!(first.len(), 4, "all four networks seeded on a blank registry");
    let second = n.init_defaults().unwrap();
    assert!(second.is_empty(), "second run seeds nothing");
    assert_eq!(n.list().len(), 4);
}

#[test]
fn init_defaults_does_not_clobber_an_external_endpoint() {
    let mut n = Nodes::new(None);
    n.set("mainnet", cfg("http://my.own.node:18081")).unwrap();
    n.init_defaults().unwrap();
    assert_eq!(n.get("mainnet").unwrap().url, "http://my.own.node:18081");
    assert_eq!(n.get("mainnet").unwrap().source, "external");
}

#[test]
fn config_status_states() {
    let mut n = Nodes::new(None);
    assert_eq!(text_at(&n.config_status(), "state"), "unconfigured");
    n.init_defaults().unwrap();
    assert_eq!(text_at(&n.config_status(), "state"), "configured");
    assert_eq!(text_at(&n.config_status(), "source"), "default");
    n.set("mainnet", cfg("http://x")).unwrap();
    assert_eq!(text_at(&n.config_status(), "source"), "external");
}

#[test]
fn proxy_required_without_proxy_fails_closed() {
    let mut n = Nodes::new(None);
    let mut c = cfg("http://node:18089");
    c.proxy_required = true;
    n.set("stagenet", c).unwrap();
    let r = n.get_info("stagenet");
    assert!(matches!(r, Err(NodeError::Proxy(_))), "got {r:?}");
}

#[test]
fn health_of_unreachable_node_reports_rather_than_errors() {
    let mut n = Nodes::new(None);
    n.set("regtest", cfg("http://192.0.2.1:18081")).unwrap();
    let h = match n.node_health("regtest") {
        HealthCheck::Report(j) => panic!("the node was not to be asked: {j:?}"),
        HealthCheck::Ask(call) => {
            let started = Instant::now();
            let sent = match call.outgoing.send() {
                Ok(resp) => {
                    let status = resp.status().as_u16();
                    resp.bytes().map(|b| (status, vec![], b.to_vec())).map_err(|e| e.to_string())
                }
                Err(e) => Err(e.to_string()),
            };
            let asked = call.request.finish(sent);
            health_report(&asked, started.elapsed().as_millis() as u64)
        }
    };
    assert_eq!(h.get("ok").unwrap().as_bool(), Some(true));
    assert_eq!(h.get("reachable").unwrap().as_bool(), Some(false));
}

#[test]
fn the_networks_are_the_four() {
    assert_eq!(NETWORKS, ["mainnet", "stagenet", "testnet", "regtest"]);
    for name in NETWORKS {
        assert!(is_network(name));
    }
    for name in ["", "mainet", "Mainnet", "mainnet ", "devnet"] {
        assert!(!is_network(name));
    }
}

#[test]
fn a_refused_network_changes_nothing() {
    let mut n = Nodes::new(None);
    match n.set("devnet", cfg("http://x")) {
        Err(e) => assert_eq!(e.message(), "unknown network: devnet"),
        Ok(()) => panic!("accepted"),
    }
    assert!(n.list().is_empty());
    assert!(!n.take_unsaved());
}

#[test]
fn names_are_listed_in_order() {
    let mut n = Nodes::new(None);
    for name in ["testnet", "mainnet", "stagenet", "regtest"] {
        n.set(name, cfg("http://x")).unwrap();
    }
    assert_eq!(n.list(), ["mainnet", "regtest", "stagenet", "testnet"]);
    n.set("regtest", cfg("http://y")).unwrap();
    assert_eq!(n.list().len(), 4);
    assert_eq!(n.get("regtest").unwrap().url, "http://y");
    assert_eq!(n.get("testnet").unwrap().url, "http://x");
}

#[test]
fn removing_says_whether_there_was_one() {
    let mut n = Nodes::new(None);
    n.set("mainnet", cfg("http://x")).unwrap();
    assert!(n.take_unsaved());
    assert!(!n.take_unsaved());
    assert!(!n.remove("testnet").unwrap());
    assert!(!n.take_unsaved());
    assert!(n.remove("mainnet").unwrap());
    assert!(n.take_unsaved());
    assert!(!n.remove("mainnet").unwrap());
    assert!(n.get("mainnet").is_none());
}

#[test]
fn storing_is_a_full_replace() {
    let mut n = Nodes::new(None);
    let mut c = cfg("http://x");
    c.username = Some("u".into());
    c.proxy = Some("socks5h://127.0.0.1:9050".into());
    c.mode = NodeMode::Local;
    n.set("mainnet", c).unwrap();
    n.set("mainnet", cfg("http://y")).unwrap();
    assert_eq!(*n.get("mainnet").unwrap(), cfg("http://y"));
}

#[test]
fn seeding_fills_only_an_empty_url() {
    let mut n = Nodes::new(None);
    let mut c = cfg("  ");
    c.username = Some("u".into());
    c.timeout_secs = 3;
    n.set("testnet", c).unwrap();
    assert_eq!(n.get("testnet").unwrap().url, "");
    assert_eq!(text_at(&n.config_status(), "state"), "unready");
    assert!(n.take_unsaved());
    let applied = n.init_defaults().unwrap();
    assert_eq!(
        applied,
        ["mainnet.endpoint", "stagenet.endpoint", "testnet.endpoint", "regtest.endpoint"]
    );
    assert!(n.take_unsaved());
    let t = n.get("testnet").unwrap();
    assert_eq!(t.url, "http://node.monerodevs.org:28089");
    assert_eq!(t.username.as_deref(), Some("u"));
    assert_eq!(t.timeout_secs, 3);
    assert_eq!(t.source, "external");
    assert!(n.init_defaults().unwrap().is_empty());
    assert!(!n.take_unsaved());
}

#[test]
fn the_defaults_are_the_well_known_endpoints() {
    let mut n = Nodes::new(None);
    n.init_defaults().unwrap();
    for (name, url, trusted) in DEFAULT_ENDPOINTS {
        let c = n.get(name).unwrap();
        assert_eq!(c.url, url);
        assert_eq!(c.trusted, trusted);
        assert_eq!(c.timeout_secs, 8);
        assert_eq!(c.source, "default");
        assert_eq!(c.mode, NodeMode::Remote);
        assert!(!c.proxy_required);
        assert!(c.proxy.is_none() && c.username.is_none() && c.password.is_none());
    }
    assert_eq!(n.get("stagenet").unwrap().url, "http://node2.monerodevs.org:38089");
    assert!(n.get("regtest").unwrap().trusted);
}

#[test]
fn a_saved_registry_loads_back() {
    let mut n = Nodes::new(None);
    n.init_defaults().unwrap();
    let mut c = cfg("http://my.own.node:18081");
    c.password = Some("p".into());
    n.set("mainnet", c).unwrap();
    let mut c = cfg("http://x");
    c.username = Some(String::new());
    c.proxy = Some("socks5h://127.0.0.1:9050".into());
    c.proxy_required = true;
    c.timeout_secs = u64::MAX;
    c.trusted = true;
    c.source = "\"\u{e9}".into();
    c.mode = NodeMode::Local;
    n.set("testnet", c).unwrap();
    let reloaded = Nodes::new(Some(&n.saved_text().unwrap()));
    assert_eq!(reloaded.list().len(), 4);
    for name in n.list() {
        assert_eq!(reloaded.get(&name), n.get(&name));
    }
}

#[test]
fn loading_keeps_the_last_of_a_name() {
    let file = r#"{"zeta":{"url":"http://z"},"mainnet":{"url":"1"},"mainnet":{"url":"http://2"}}"#;
    let mut n = Nodes::new(Some(file));
    assert_eq!(n.list(), ["mainnet", "zeta"]);
    assert_eq!(n.get("mainnet").unwrap().url, "http://2");
    assert!(!n.take_unsaved());
}

#[test]
fn remote_mode_dials_what_is_stored() {
    let mut n = Nodes::new(None);
    n.set("mainnet", cfg("http://x")).unwrap();
    let c = n.effective("mainnet", Err("unused".to_string())).unwrap();
    assert_eq!(c, cfg("http://x"));
    match n.effective("testnet", Ok("http://127.0.0.1:1".to_string())) {
        Err(e) => assert_eq!(e.message(), "network not configured: testnet"),
        Ok(c) => panic!("{c:?}"),
    }
}

#[test]
fn local_mode_dials_the_local_node() {
    let mut n = Nodes::new(None);
    let mut c = cfg("http://remote");
    c.mode = NodeMode::Local;
    c.proxy_required = true;
    c.proxy = Some("socks5h://127.0.0.1:9050".into());
    n.set("mainnet", c).unwrap();
    let eff = n.effective("mainnet", Ok("http://127.0.0.1:18081".to_string())).unwrap();
    assert_eq!(eff.url, "http://127.0.0.1:18081");
    assert!(eff.trusted && !eff.proxy_required && eff.proxy.is_none());
    let dialled = n.dialled("mainnet", Ok("http://127.0.0.1:18081".to_string())).unwrap();
    assert_eq!(dialled.list(), ["mainnet"]);
    let call = dialled.get_info("mainnet").unwrap();
    assert_eq!(call.request.route, "direct");
    assert_eq!(call.request.url, "http://127.0.0.1:18081/json_rpc");
    match n.dialled("mainnet", Err("monerod_module is not loaded".to_string())) {
        Err(e) => assert_eq!(e.message(), "http: monerod_module is not loaded"),
        Ok(_) => panic!("dialled"),
    }
}

#[test]
fn the_mode_is_remote_unless_local_is_said() {
    assert_eq!(NodeMode::of(None), NodeMode::Remote);
    assert_eq!(NodeMode::of(Some("local")), NodeMode::Local);
    assert_eq!(NodeMode::of(Some("remote")), NodeMode::Remote);
    assert_eq!(NodeMode::of(Some("Local")), NodeMode::Remote);
    assert_eq!(NodeMode::Local.name(), "local");
    assert_eq!(NodeMode::Remote.name(), "remote");
}

#[test]
fn errors_read_as_they_should() {
    let texts = [
        (NodeError::UnknownNetwork("a".into()), "unknown network: a"),
        (NodeError::NotConfigured("b".into()), "network not configured: b"),
        (NodeError::Proxy("c".into()), "proxy: c"),
        (NodeError::Http("d".into()), "http: d"),
        (NodeError::Rpc { code: -32601, message: "e".into() }, "rpc error -32601: e"),
        (NodeError::Rpc { code: i64::MIN, message: "".into() }, "rpc error -9223372036854775808: "),
        (NodeError::Parse("f".into()), "parse: f"),
    ];
    for (e, text) in texts {
        assert_eq!(e.message(), text);
    }
}

/// Saves the registry to the named file of a disk.
fn save(n: &mut Nodes, disk: &mut BTreeMap<String, String>, file: &str) -> Result<(), NodeError> {
    if !n.take_unsaved() {
        return Ok(());
    }
    let staged = format!("{file}.tmp");
    let mut step = SaveStep::first(true, n.saved_text());
    loop {
        match &step {
            SaveStep::Stage(body) => {
                disk.insert(staged.clone(), body.clone());
            }
            SaveStep::Publish => {
                let body = disk.remove(&staged).unwrap();
                disk.insert(file.to_string(), body);
            }
            SaveStep::Finished(_) => {}
        }
        if let SaveStep::Finished(result) = step {
            return result;
        }
        step = step.next(Ok(()));
    }
}

#[test]
fn persistence_round_trips() {
    let mut disk = BTreeMap::new();
    let p = "monero_nodes.json";
    {
        let mut n = Nodes::new(None);
        n.init_defaults().unwrap();
        save(&mut n, &mut disk, p).unwrap();
    }
    assert_eq!(disk.len(), 1);
    let reloaded = Nodes::new(disk.get(p).map(String::as_str));
    assert_eq!(reloaded.list().len(), 4);
}

#[test]
fn a_saved_registry_is_laid_out_for_people() {
    let mut n = Nodes::new(None);
    n.set("regtest", cfg("http://x")).unwrap();
    assert_eq!(
        n.saved_text().unwrap(),
        r#"{
  "regtest": {
    "mode": "remote",
    "proxyRequired": false,
    "source": "external",
    "timeoutSecs": 8,
    "trusted": false,
    "url": "http://x"
  }
}"#
    );
    assert_eq!(Nodes::new(None).saved_text().unwrap(), "{}");
}

#[test]
fn fields_that_a_file_leaves_out_have_their_defaults() {
    let n = Nodes::new(Some(r#"{"mainnet":{"url":"http://x","proxy":null,"other":[1.5]}}"#));
    assert_eq!(n.get("mainnet"), Some(&cfg("http://x")));
    for mode in ["1", "null", "[]", r#""Local""#, r#""remote""#] {
        let file = format!("{{\"mainnet\":{{\"url\":\"http://x\",\"mode\":{mode}}}}}");
        assert_eq!(Nodes::new(Some(&file)).get("mainnet"), Some(&cfg("http://x")), "{mode}");
    }
    let n = Nodes::new(Some(r#"{"mainnet":{"url":"x","mode":"local"}}"#));
    assert_eq!(n.get("mainnet").unwrap().mode, NodeMode::Local);
    let n = Nodes::new(Some(r#"{"mainnet":["http://x","u",null,null,true,9]}"#));
    let mut c = cfg("http://x");
    c.username = Some("u".into());
    c.proxy_required = true;
    c.timeout_secs = 9;
    assert_eq!(n.get("mainnet"), Some(&c));
}

#[test]
fn a_file_that_is_no_registry_loads_as_nothing() {
    for file in [
        "",
        "{",
        "[]",
        "null",
        r#"{"mainnet":{}}"#,
        r#"{"mainnet":1}"#,
        r#"{"mainnet":{"url":null}}"#,
        r#"{"mainnet":{"url":"x","username":1}}"#,
        r#"{"mainnet":{"url":"x","proxyRequired":null}}"#,
        r#"{"mainnet":{"url":"x","timeoutSecs":-1}}"#,
        r#"{"mainnet":{"url":"x","timeoutSecs":8.0}}"#,
        r#"{"mainnet":{"url":"x","source":null}}"#,
        r#"{"mainnet":[]}"#,
        r#"{"mainnet":["x",null,null,null,false,8,false,"external","local",0]}"#,
        r#"{"mainnet":{"url":"x"},"testnet":{"url":1}}"#,
    ] {
        assert!(Nodes::new(Some(file)).list().is_empty(), "{file}");
    }
}
