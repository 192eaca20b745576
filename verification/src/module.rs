//! The module's interface: every method takes and gives plain text, structured values as JSON.
//! A reply is `{ "ok": true, "result": .., "route": "proxied"|"direct" }` or
//! `{ "ok": false, "error": .. }`.
use vstd::prelude::*;

use crate::call;
use crate::call::{begin_health, empty_object, refusal, Call, HealthCheck};
use crate::json;
use crate::json::{add_member, object, place_member, text_array, Json, JsonTree};
use crate::node;
use crate::node::{is_network, NodeConfig, NodeError, NodeFault, NodeMode, NodeRecord};
use crate::persist;
use crate::registry;
use crate::registry::Nodes;
use crate::shape;
use crate::text;
use crate::text::{from_first, join, same};

verus! {

/// The methods of the node module. Every method blocks, and a host may call them from several
/// threads at once.
pub trait MoneroNodeModule: Send + Sync + 'static {
    /// Stores one network's configuration from `{ url, username?, password?, proxy?,
    /// proxyRequired?, timeoutSecs?, trusted?, mode? }`. A full replace: `mode` is `remote`
    /// unless the configuration says `local`.
    fn set_node_config(&self, network: String, config_json: String) -> String;

    fn get_node_config(&self, network: String) -> String;

    /// What a wallet dials: the stored configuration, or in local mode the local node's address,
    /// trusted and without a proxy.
    fn effective_node(&self, network: String) -> String;

    /// `{ ok, available, rpcUrl?, status?, error? }`: whether the local node can serve `network`.
    fn local_node(&self, network: String) -> String;

    fn remove_node_config(&self, network: String) -> bool;

    /// `{ ok, networks: [name, ...] }`.
    fn list_networks(&self) -> String;

    /// `{ ok, state: "unready"|"unconfigured"|"configured", source, networks }`.
    fn config_status(&self) -> String;

    /// Seeds well-known defaults field by field where absent. `{ ok, applied: [...] }`.
    fn init_defaults(&self) -> String;

    /// `{ reachable, height, targetHeight, synced, restricted, rttMs, mode, local? }`.
    fn node_health(&self, network: String) -> String;

    fn get_info(&self, network: String) -> String;

    fn get_fee_estimate(&self, network: String) -> String;

    fn get_version(&self, network: String) -> String;

    fn hard_fork_info(&self, network: String) -> String;

    /// Broadcasts a signed transaction.
    fn send_raw_transaction(&self, network: String, tx_as_hex: String) -> String;

    /// `regtest` only: mines `amount` blocks to `address`.
    fn generateblocks(&self, network: String, address: String, amount: i64) -> String;

    /// An arbitrary JSON-RPC method; `params_json` is a JSON value.
    fn raw_json_rpc(&self, network: String, method: String, params_json: String) -> String;

    /// An arbitrary other endpoint, POST `<url>/<path>`.
    fn raw_endpoint(&self, network: String, path: String, body_json: String) -> String;

    /// Called once the host knows where the module may keep its files.
    fn on_context_ready(&self, _instance_persistence_path: String) {
    }
}

// Replies

/// Whether `reply` is the text of `t`: what is printed for it, which reads back as it.
pub open spec fn is_reply(reply: Seq<char>, t: JsonTree) -> bool {
    reply == json::json_text(t) && json::json_of_text(reply) == Some(t)
}

/// The reply to a call that was answered.
pub open spec fn ok_tree(result: JsonTree, route: Seq<char>) -> JsonTree {
    JsonTree::Object(
        seq![
            ("ok"@, JsonTree::Bool(true)),
            ("result"@, result),
            ("route"@, JsonTree::Text(route)),
        ],
    )
}

/// The reply that only says that all went well.
pub open spec fn done_tree() -> JsonTree {
    JsonTree::Object(seq![("ok"@, JsonTree::Bool(true))])
}

/// The reply to a call.
pub open spec fn call_tree(r: Result<(JsonTree, Seq<char>), NodeFault>) -> JsonTree {
    match r {
        Ok((result, route)) => ok_tree(result, route),
        Err(fault) => call::refusal_tree(fault.message()),
    }
}

/// The reply that holds a configuration.
pub open spec fn config_tree(r: Result<NodeRecord, NodeFault>) -> JsonTree {
    match r {
        Ok(rec) => JsonTree::Object(seq![("ok"@, JsonTree::Bool(true)), ("result"@, rec.json())]),
        Err(fault) => call::refusal_tree(fault.message()),
    }
}

/// The reply to a call that was answered.
pub fn ok_reply(result: Json, route: &str) -> (r: String)
    ensures
        r@ == json::json_text(ok_tree(result@, route@)),
        json::readable(result@, json::max_depth() - 1) ==> is_reply(
            r@,
            ok_tree(result@, route@),
        ),
{
    let ghost t = result@;
    let mut m: Vec<(String, Json)> = Vec::new();
    add_member(&mut m, "ok", Json::Bool(true));
    add_member(&mut m, "result", result);
    add_member(&mut m, "route", Json::Text(route.to_owned()));
    proof {
        assert(json::member_trees(m@) =~= ok_tree(t, route@)->Object_0);
        if json::readable(t, json::max_depth() - 1) {
            shape::lemma_ok_readable(t, route@);
        }
    }
    object(m).to_text()
}

/// The reply to a request that failed.
pub fn err_reply(message: &str) -> (r: String)
    ensures
        is_reply(r@, call::refusal_tree(message@)),
{
    proof {
        shape::lemma_refusal_readable(message@);
    }
    refusal(message).to_text()
}

/// The reply to a call.
pub fn call_reply(outcome: Result<(Json, &'static str), NodeError>) -> (r: String)
    ensures
        r@ == json::json_text(call_tree(call::outcome(outcome))),
        match outcome {
            Ok((result, _)) => json::readable(result@, json::max_depth() - 1) ==> is_reply(
                r@,
                call_tree(call::outcome(outcome)),
            ),
            Err(_) => is_reply(r@, call_tree(call::outcome(outcome))),
        },
{
    match outcome {
        Ok((result, route)) => ok_reply(result, route),
        Err(e) => err_reply(e.message().as_str()),
    }
}

/// Whether `r` is the reply after a change was saved, `reply` the change's own.
pub open spec fn saved_replied(
    reply: Seq<char>,
    saved: Result<(), NodeFault>,
    r: Seq<char>,
) -> bool {
    match saved {
        Ok(_) => r == reply,
        Err(fault) => is_reply(r, call::refusal_tree(fault.message())),
    }
}

/// Whether `r` is the reply to removing a configuration: that there was one, and that its removal
/// was saved.
pub open spec fn removed_replied(removed: bool, saved: Result<(), NodeFault>, r: bool) -> bool {
    r == (removed && saved is Ok)
}

/// Whether `reply` shows what a wallet dials for a network.
pub open spec fn effective_shown(
    m: Map<Seq<char>, NodeRecord>,
    network: Seq<char>,
    local: Result<Seq<char>, Seq<char>>,
    reply: Seq<char>,
) -> bool {
    is_reply(reply, config_tree(registry::effective_in(m, network, local)))
}

/// Whether `reply` shows the names of the configured networks.
pub open spec fn networks_shown(m: Map<Seq<char>, NodeRecord>, reply: Seq<char>) -> bool {
    is_reply(reply, networks_tree(registry::listing(m.dom())))
}

/// Whether `reply` shows the status of the configuration.
pub open spec fn status_shown(m: Map<Seq<char>, NodeRecord>, reply: Seq<char>) -> bool {
    is_reply(reply, registry::status_tree(m))
}

/// Whether `reply` is the reply to seeding the defaults, and `after` the registry then.
pub open spec fn defaults_set(
    m: Map<Seq<char>, NodeRecord>,
    after: Map<Seq<char>, NodeRecord>,
    reply: Seq<char>,
) -> bool {
    is_reply(reply, applied_tree(registry::seeds(m))) && after == registry::seeded(m)
}

/// The reply after a change was saved: the change's own where saving went well.
pub fn saved_reply(reply: String, saved: Result<(), NodeError>) -> (r: String)
    ensures
        saved_replied(reply@, persist::verdict(saved), r@),
{
    match saved {
        Ok(_) => reply,
        Err(e) => err_reply(e.message().as_str()),
    }
}

/// Whether a configuration was removed, and that was saved.
pub fn removed_reply(removed: bool, saved: Result<(), NodeError>) -> (r: bool)
    ensures
        removed_replied(removed, persist::verdict(saved), r),
{
    removed && saved.is_ok()
}

// The configuration methods

/// Whether `reply` is the reply to storing what was read of a configuration, and `after` the
/// registry then.
pub open spec fn config_set(
    m: Map<Seq<char>, NodeRecord>,
    network: Seq<char>,
    read: Result<NodeRecord, Seq<char>>,
    after: Map<Seq<char>, NodeRecord>,
    reply: Seq<char>,
) -> bool {
    match read {
        Err(e) => {
            &&& is_reply(reply, call::refusal_tree("bad config: "@ + e))
            &&& after == m
        },
        Ok(rec) => if node::known_network(network) {
            &&& is_reply(reply, done_tree())
            &&& after == registry::stored(m, network, rec)
        } else {
            &&& is_reply(reply, call::refusal_tree(NodeFault::UnknownNetwork(network).message()))
            &&& after == m
        },
    }
}

/// Whether `reply` is the reply that shows a network's stored configuration.
pub open spec fn config_shown(
    m: Map<Seq<char>, NodeRecord>,
    network: Seq<char>,
    reply: Seq<char>,
) -> bool {
    is_reply(
        reply,
        config_tree(
            if m.contains_key(network) {
                Ok(m[network])
            } else {
                Err(NodeFault::NotConfigured(network))
            },
        ),
    )
}

/// Stores one network's configuration, `parsed` what was read of its JSON.
pub fn set_node_config(
    nodes: &mut Nodes,
    network: &str,
    parsed: Result<NodeConfig, String>,
) -> (r: String)
    ensures
        config_set(
            old(nodes)@,
            network@,
            registry::config_read(parsed),
            final(nodes)@,
            r@,
        ),
        match parsed {
            Ok(_) => if node::known_network(network@) {
                final(nodes).unsaved()
            } else {
                *final(nodes) == *old(nodes)
            },
            Err(_) => *final(nodes) == *old(nodes),
        },
{
    match parsed {
        Err(e) => err_reply(join("bad config: ", e.as_str()).as_str()),
        Ok(cfg) => match nodes.set(network, cfg) {
            Ok(_) => {
                let mut m: Vec<(String, Json)> = Vec::new();
                add_member(&mut m, "ok", Json::Bool(true));
                proof {
                    assert(json::member_trees(m@) =~= done_tree()->Object_0);
                    shape::lemma_done_readable();
                }
                object(m).to_text()
            },
            Err(e) => err_reply(e.message().as_str()),
        },
    }
}

fn config_reply(found: Result<&NodeConfig, NodeError>) -> (r: String)
    ensures
        is_reply(
            r@,
            config_tree(
                match found {
                    Ok(c) => Ok(c@),
                    Err(e) => Err(e@),
                },
            ),
        ),
{
    match found {
        Ok(c) => {
            let mut m: Vec<(String, Json)> = Vec::new();
            add_member(&mut m, "ok", Json::Bool(true));
            add_member(&mut m, "result", c.to_json());
            proof {
                assert(json::member_trees(m@) =~= config_tree(Ok(c@))->Object_0);
                shape::lemma_config_readable(c@);
            }
            object(m).to_text()
        },
        Err(e) => err_reply(e.message().as_str()),
    }
}

/// One network's stored configuration.
pub fn get_node_config(nodes: &Nodes, network: &str) -> (r: String)
    ensures
        config_shown(nodes@, network@, r@),
{
    match nodes.get(network) {
        Some(c) => config_reply(Ok(c)),
        None => config_reply(Err(NodeError::NotConfigured(network.to_owned()))),
    }
}

/// What a wallet dials for a network, `local` what the local node module said of it.
pub fn effective_node(nodes: &Nodes, network: &str, local: Result<String, String>) -> (r: String)
    ensures
        effective_shown(nodes@, network@, registry::local_text(local), r@),
{
    match nodes.effective(network, local) {
        Ok(c) => config_reply(Ok(&c)),
        Err(e) => config_reply(Err(e)),
    }
}

/// Whether the local node can serve a network: its address or why it has none, and its status
/// where it gave one. An unknown network is refused.
pub open spec fn local_tree(
    network: Seq<char>,
    local: Result<Seq<char>, Seq<char>>,
    status: Option<JsonTree>,
) -> JsonTree {
    if node::known_network(network) {
        let error = match local {
            Ok(_) => Seq::empty(),
            Err(e) => seq![("error"@, JsonTree::Text(e))],
        };
        let address = match local {
            Ok(url) => seq![("rpcUrl"@, JsonTree::Text(url))],
            Err(_) => Seq::empty(),
        };
        let running = match status {
            Some(s) => seq![("status"@, s)],
            None => Seq::empty(),
        };
        JsonTree::Object(
            seq![("available"@, JsonTree::Bool(local is Ok))] + error + seq![
                ("ok"@, JsonTree::Bool(true)),
            ] + address + running,
        )
    } else {
        call::refusal_tree(NodeFault::UnknownNetwork(network).message())
    }
}

/// The value that is there, if one is.
pub open spec fn opt_tree(value: Option<Json>) -> Option<JsonTree> {
    match value {
        Some(s) => Some(s@),
        None => None,
    }
}

/// Whether the local node can serve a network.
pub fn local_node(network: &str, local: Result<String, String>, status: Option<Json>) -> (r: Json)
    ensures
        r@ == local_tree(network@, registry::local_text(local), opt_tree(status)),
{
    if !is_network(network) {
        return refusal(NodeError::UnknownNetwork(network.to_owned()).message().as_str());
    }
    let ghost want = local_tree(network@, registry::local_text(local), opt_tree(status));
    let mut m: Vec<(String, Json)> = Vec::new();
    add_member(&mut m, "available", Json::Bool(local.is_ok()));
    if let Err(e) = &local {
        add_member(&mut m, "error", Json::Text(e.clone()));
    }
    add_member(&mut m, "ok", Json::Bool(true));
    if let Ok(url) = &local {
        add_member(&mut m, "rpcUrl", Json::Text(url.clone()));
    }
    if let Some(s) = status {
        add_member(&mut m, "status", s);
    }
    assert(json::member_trees(m@) =~= want->Object_0);
    object(m)
}

/// The reply that lists networks.
pub open spec fn networks_tree(names: Seq<Seq<char>>) -> JsonTree {
    JsonTree::Object(
        seq![("networks"@, json::text_array_tree(names)), ("ok"@, JsonTree::Bool(true))],
    )
}

/// The names of the configured networks.
pub fn list_networks(nodes: &Nodes) -> (r: String)
    ensures
        networks_shown(nodes@, r@),
{
    let mut m: Vec<(String, Json)> = Vec::new();
    add_member(&mut m, "networks", text_array(&nodes.list()));
    add_member(&mut m, "ok", Json::Bool(true));
    proof {
        let names = registry::listing(nodes@.dom());
        assert(json::member_trees(m@) =~= networks_tree(names)->Object_0);
        shape::lemma_networks_readable(names);
    }
    object(m).to_text()
}

/// The status of the configuration.
pub fn config_status(nodes: &Nodes) -> (r: String)
    ensures
        status_shown(nodes@, r@),
{
    proof {
        shape::lemma_status_readable(nodes@);
    }
    nodes.config_status().to_text()
}

/// The reply to seeding the defaults.
pub open spec fn applied_tree(applied: Seq<Seq<char>>) -> JsonTree {
    JsonTree::Object(
        seq![("applied"@, json::text_array_tree(applied)), ("ok"@, JsonTree::Bool(true))],
    )
}

/// Seeds the well-known endpoints where they are absent.
pub fn init_defaults(nodes: &mut Nodes) -> (r: String)
    ensures
        defaults_set(old(nodes)@, final(nodes)@, r@),
        final(nodes).unsaved() == (old(nodes).unsaved() || registry::seeds(old(nodes)@).len() > 0),
{
    match nodes.init_defaults() {
        Ok(applied) => {
            let mut m: Vec<(String, Json)> = Vec::new();
            add_member(&mut m, "applied", text_array(&applied));
            add_member(&mut m, "ok", Json::Bool(true));
            proof {
                assert(json::member_trees(m@) =~= applied_tree(text::texts(applied@))->Object_0);
                shape::lemma_applied_readable(text::texts(applied@));
            }
            object(m).to_text()
        },
        Err(e) => err_reply(e.message().as_str()),
    }
}

// Health

/// The mode of a network: remote unless its configuration says local.
pub open spec fn mode_in(m: Map<Seq<char>, NodeRecord>, network: Seq<char>) -> NodeMode {
    if m.contains_key(network) {
        m[network].mode
    } else {
        NodeMode::Remote
    }
}

/// The mode of a network: remote unless its configuration says local.
pub fn mode_of(nodes: &Nodes, network: &str) -> (r: NodeMode)
    ensures
        r == mode_in(nodes@, network@),
{
    match nodes.get(network) {
        Some(c) => c.mode,
        None => NodeMode::Remote,
    }
}

/// A network's health report with its mode and, in local mode, what is known of the local node.
/// The refusal of an unknown network stays as it is.
pub open spec fn health_shown(
    m: Map<Seq<char>, NodeRecord>,
    network: Seq<char>,
    report: JsonTree,
    local: Option<JsonTree>,
) -> JsonTree {
    match report {
        JsonTree::Object(members) => if node::known_network(network) {
            let mode = mode_in(m, network);
            let with_mode = json::placed(members, ("mode"@, JsonTree::Text(mode.name_text())));
            match local {
                Some(l) => if mode == NodeMode::Local {
                    JsonTree::Object(json::placed(with_mode, ("local"@, l)))
                } else {
                    JsonTree::Object(with_mode)
                },
                None => JsonTree::Object(with_mode),
            }
        } else {
            report
        },
        _ => report,
    }
}

/// A network's health report with its mode and, in local mode, what is known of the local node.
pub fn health_reply(nodes: &Nodes, network: &str, report: Json, local: Option<Json>) -> (r: String)
    ensures
        r@ == json::json_text(health_shown(nodes@, network@, report@, opt_tree(local))),
        json::readable(
            health_shown(nodes@, network@, report@, opt_tree(local)),
            json::max_depth(),
        ) ==> is_reply(r@, health_shown(nodes@, network@, report@, opt_tree(local))),
{
    let ghost want = health_shown(nodes@, network@, report@, opt_tree(local));
    if !is_network(network) {
        return report.to_text();
    }
    let mode = mode_of(nodes, network);
    match report {
        Json::Object(members) => {
            let mut m = members;
            assert(json::member_trees(m@) =~= report@->Object_0);
            place_member(&mut m, "mode", Json::Text(mode.name().to_owned()));
            if let Some(l) = local {
                if mode == NodeMode::Local {
                    place_member(&mut m, "local", l);
                }
            }
            assert(json::member_trees(m@) =~= want->Object_0);
            object(m).to_text()
        },
        other => other.to_text(),
    }
}

// Calls

/// Whether `r` is what preparing a request for `network` gives where the local node module said
/// `local` of it: the request goes to what a wallet dials.
pub open spec fn dialled(
    m: Map<Seq<char>, NodeRecord>,
    network: Seq<char>,
    local: Result<Seq<char>, Seq<char>>,
    path: Seq<char>,
    body: JsonTree,
    json_rpc: bool,
    r: Result<Call, NodeError>,
) -> bool {
    match registry::effective_in(m, network, local) {
        Ok(rec) => call::prepared(rec, path, body, json_rpc, r),
        Err(fault) => r matches Err(e) && e@ == fault,
    }
}

/// Whether `r` is what preparing a JSON-RPC call gives, to go to what a wallet dials.
pub open spec fn rpc_dialled(
    m: Map<Seq<char>, NodeRecord>,
    network: Seq<char>,
    local: Result<Seq<char>, Seq<char>>,
    method: Seq<char>,
    params: JsonTree,
    r: Result<Call, NodeError>,
) -> bool {
    dialled(m, network, local, "json_rpc"@, call::rpc_body(method, params), true, r)
}

/// Whether `r` is what preparing a call of another endpoint gives, to go to what a wallet dials.
pub open spec fn other_dialled(
    m: Map<Seq<char>, NodeRecord>,
    network: Seq<char>,
    local: Result<Seq<char>, Seq<char>>,
    path: Seq<char>,
    body: JsonTree,
    r: Result<Call, NodeError>,
) -> bool {
    dialled(m, network, local, path, body, false, r)
}

/// Whether `r` is what preparing the call for the node's state gives, to go to what a wallet dials.
pub open spec fn info_dialled(
    m: Map<Seq<char>, NodeRecord>,
    network: Seq<char>,
    local: Result<Seq<char>, Seq<char>>,
    r: Result<Call, NodeError>,
) -> bool {
    rpc_dialled(m, network, local, "get_info"@, call::no_params(), r)
}

/// Whether `r` is what preparing the call for the fee gives, to go to what a wallet dials.
pub open spec fn fee_dialled(
    m: Map<Seq<char>, NodeRecord>,
    network: Seq<char>,
    local: Result<Seq<char>, Seq<char>>,
    r: Result<Call, NodeError>,
) -> bool {
    rpc_dialled(m, network, local, "get_fee_estimate"@, call::no_params(), r)
}

/// Whether `r` is what preparing the call for the version gives, to go to what a wallet dials.
pub open spec fn version_dialled(
    m: Map<Seq<char>, NodeRecord>,
    network: Seq<char>,
    local: Result<Seq<char>, Seq<char>>,
    r: Result<Call, NodeError>,
) -> bool {
    rpc_dialled(m, network, local, "get_version"@, call::no_params(), r)
}

/// Whether `r` is what preparing the call for hard forks gives, to go to what a wallet dials.
pub open spec fn forks_dialled(
    m: Map<Seq<char>, NodeRecord>,
    network: Seq<char>,
    local: Result<Seq<char>, Seq<char>>,
    r: Result<Call, NodeError>,
) -> bool {
    rpc_dialled(m, network, local, "hard_fork_info"@, call::no_params(), r)
}

/// Whether `r` is what preparing a broadcast gives, to go to what a wallet dials.
pub open spec fn broadcast_dialled(
    m: Map<Seq<char>, NodeRecord>,
    network: Seq<char>,
    local: Result<Seq<char>, Seq<char>>,
    tx_as_hex: Seq<char>,
    r: Result<Call, NodeError>,
) -> bool {
    other_dialled(
        m,
        network,
        local,
        "send_raw_transaction"@,
        call::broadcast_body(tx_as_hex, false),
        r,
    )
}

/// Whether `r` is what preparing to mine gives: a call on `regtest`, else a reply that refuses.
pub open spec fn mining_dialled(
    m: Map<Seq<char>, NodeRecord>,
    network: Seq<char>,
    local: Result<Seq<char>, Seq<char>>,
    address: Seq<char>,
    amount: i64,
    r: Result<Result<Call, NodeError>, String>,
) -> bool {
    if network == "regtest"@ {
        r matches Ok(call) && rpc_dialled(
            m,
            network,
            local,
            "generateblocks"@,
            call::mining_params(
                address,
                if amount < 0 {
                    0
                } else {
                    amount as int
                },
            ),
            call,
        )
    } else {
        r matches Err(reply) && is_reply(
            reply@,
            call::refusal_tree("generateblocks is regtest-only"@),
        )
    }
}

/// Whether `r` is what preparing an arbitrary JSON-RPC call gives, its parameters given as text.
pub open spec fn raw_rpc_dialled(
    m: Map<Seq<char>, NodeRecord>,
    network: Seq<char>,
    local: Result<Seq<char>, Seq<char>>,
    method: Seq<char>,
    params_json: Seq<char>,
    r: Result<Call, NodeError>,
) -> bool {
    rpc_dialled(m, network, local, method, or_null(json::json_of_text(params_json)), r)
}

/// Whether `r` is what preparing an arbitrary call of another endpoint gives, its body given as
/// text.
pub open spec fn raw_endpoint_dialled(
    m: Map<Seq<char>, NodeRecord>,
    network: Seq<char>,
    local: Result<Seq<char>, Seq<char>>,
    path: Seq<char>,
    body_json: Seq<char>,
    r: Result<Call, NodeError>,
) -> bool {
    if node::known_network(network) {
        other_dialled(m, network, local, path, or_empty(json::json_of_text(body_json)), r)
    } else {
        r matches Err(e) && e@ == NodeFault::UnknownNetwork(network)
    }
}

/// Whether `r` is how the health check of what a wallet dials starts.
pub open spec fn health_dialled(
    m: Map<Seq<char>, NodeRecord>,
    network: Seq<char>,
    local: Result<Seq<char>, Seq<char>>,
    r: HealthCheck,
) -> bool {
    if node::known_network(network) {
        exists|info: Result<Call, NodeError>| #[trigger]
            info_dialled(m, network, local, info) && call::health_begun(info, r)
    } else {
        r matches HealthCheck::Report(j) && j@ == call::refusal_tree(
            "unknown network: "@ + network,
        )
    }
}

/// A JSON-RPC call to what a wallet dials, `local` what the local node module said of the network.
pub fn json_rpc(
    nodes: &Nodes,
    network: &str,
    local: Result<String, String>,
    method: &str,
    params: Json,
) -> (r: Result<Call, NodeError>)
    ensures
        rpc_dialled(nodes@, network@, registry::local_text(local), method@, params@, r),
{
    match nodes.dialled(network, local) {
        Ok(n) => n.json_rpc(network, method, params),
        Err(e) => Err(e),
    }
}

/// The node's general state.
pub fn get_info(nodes: &Nodes, network: &str, local: Result<String, String>) -> (r: Result<
    Call,
    NodeError,
>)
    ensures
        info_dialled(nodes@, network@, registry::local_text(local), r),
{
    match nodes.dialled(network, local) {
        Ok(n) => n.get_info(network),
        Err(e) => Err(e),
    }
}

/// The node's estimate of the fee per byte.
pub fn get_fee_estimate(nodes: &Nodes, network: &str, local: Result<String, String>) -> (r: Result<
    Call,
    NodeError,
>)
    ensures
        fee_dialled(nodes@, network@, registry::local_text(local), r),
{
    match nodes.dialled(network, local) {
        Ok(n) => n.get_fee_estimate(network),
        Err(e) => Err(e),
    }
}

/// The node's version.
pub fn get_version(nodes: &Nodes, network: &str, local: Result<String, String>) -> (r: Result<
    Call,
    NodeError,
>)
    ensures
        version_dialled(nodes@, network@, registry::local_text(local), r),
{
    match nodes.dialled(network, local) {
        Ok(n) => n.get_version(network),
        Err(e) => Err(e),
    }
}

/// The node's view of hard forks.
pub fn hard_fork_info(nodes: &Nodes, network: &str, local: Result<String, String>) -> (r: Result<
    Call,
    NodeError,
>)
    ensures
        forks_dialled(nodes@, network@, registry::local_text(local), r),
{
    match nodes.dialled(network, local) {
        Ok(n) => n.hard_fork_info(network),
        Err(e) => Err(e),
    }
}

/// The broadcast of a signed transaction, to be relayed.
pub fn send_raw_transaction(
    nodes: &Nodes,
    network: &str,
    local: Result<String, String>,
    tx_as_hex: &str,
) -> (r: Result<Call, NodeError>)
    ensures
        broadcast_dialled(nodes@, network@, registry::local_text(local), tx_as_hex@, r),
{
    match nodes.dialled(network, local) {
        Ok(n) => n.send_raw_transaction(network, tx_as_hex, false),
        Err(e) => Err(e),
    }
}

/// The reply to mining on a network that does not have it: all but `regtest`.
pub fn mining_refused(network: &str) -> (r: Option<String>)
    ensures
        if network@ == "regtest"@ {
            r is None
        } else {
            r matches Some(reply) && is_reply(
                reply@,
                call::refusal_tree("generateblocks is regtest-only"@),
            )
        },
{
    if same(network, "regtest") {
        None
    } else {
        Some(err_reply("generateblocks is regtest-only"))
    }
}

/// Mining, which only `regtest` has; a negative amount is none. On any other network there is a
/// reply instead of a call.
pub fn generateblocks(
    nodes: &Nodes,
    network: &str,
    local: Result<String, String>,
    address: &str,
    amount: i64,
) -> (r: Result<Result<Call, NodeError>, String>)
    ensures
        mining_dialled(nodes@, network@, registry::local_text(local), address@, amount, r),
{
    if let Some(reply) = mining_refused(network) {
        return Err(reply);
    }
    let count: u64 = if amount < 0 {
        0
    } else {
        amount as u64
    };
    match nodes.dialled(network, local) {
        Ok(n) => Ok(n.generateblocks(network, address, count)),
        Err(e) => Ok(Err(e)),
    }
}

/// The value that was read, else null.
pub open spec fn or_null(parsed: Option<JsonTree>) -> JsonTree {
    match parsed {
        Some(v) => v,
        None => JsonTree::Null,
    }
}

/// The value that was read, else the object without members.
pub open spec fn or_empty(parsed: Option<JsonTree>) -> JsonTree {
    match parsed {
        Some(v) => v,
        None => call::no_params(),
    }
}

/// An arbitrary JSON-RPC call; parameters that are not JSON count as null.
pub fn raw_json_rpc(
    nodes: &Nodes,
    network: &str,
    local: Result<String, String>,
    method: &str,
    params_json: &str,
) -> (r: Result<Call, NodeError>)
    ensures
        raw_rpc_dialled(nodes@, network@, registry::local_text(local), method@, params_json@, r),
{
    let params = match Json::parse(params_json) {
        Some(v) => v,
        None => Json::Null,
    };
    json_rpc(nodes, network, local, method, params)
}

/// An arbitrary call of another endpoint; an unknown network is refused, and a body that is not
/// JSON counts as the object without members.
pub fn raw_endpoint(
    nodes: &Nodes,
    network: &str,
    local: Result<String, String>,
    path: &str,
    body_json: &str,
) -> (r: Result<Call, NodeError>)
    ensures
        raw_endpoint_dialled(nodes@, network@, registry::local_text(local), path@, body_json@, r),
{
    if !is_network(network) {
        return Err(NodeError::UnknownNetwork(network.to_owned()));
    }
    let body = match Json::parse(body_json) {
        Some(v) => v,
        None => empty_object(),
    };
    match nodes.dialled(network, local) {
        Ok(n) => n.other(network, path, body),
        Err(e) => Err(e),
    }
}

/// Starts the health check of what a wallet dials. An unknown network is refused without a call.
pub fn node_health(nodes: &Nodes, network: &str, local: Result<String, String>) -> (r: HealthCheck)
    ensures
        health_dialled(nodes@, network@, registry::local_text(local), r),
{
    if !is_network(network) {
        return HealthCheck::Report(refusal(join("unknown network: ", network).as_str()));
    }
    begin_health(get_info(nodes, network, local))
}

// The local node module's errors

/// The `code` of an error's detail, where it has one.
pub open spec fn code_of(detail: Option<JsonTree>) -> Option<Seq<char>> {
    match detail {
        Some(v) => match v.get("code"@) {
            Some(c) => c.as_text(),
            None => None,
        },
        None => None,
    }
}

/// An error of the local node module in words, `detail` the JSON value that ends its text.
pub open spec fn explained(error: Seq<char>, detail: Option<JsonTree>) -> Seq<char> {
    if code_of(detail) == Some("object_unavailable"@) {
        "monerod_module is not loaded"@
    } else {
        "monerod_module: "@ + error
    }
}

/// The JSON value that ends an error's text: what stands from its first brace on.
pub open spec fn detail_of(error: Seq<char>) -> Option<JsonTree> {
    match text::rest_from(error, '{') {
        Some(rest) => json::json_of_text(rest),
        None => None,
    }
}

/// An error of the local node module in words, `detail` the JSON value that ends its text: that
/// the module is absent is said plainly.
pub fn explain(error: &str, detail: Option<Json>) -> (r: String)
    ensures
        r@ == explained(error@, opt_tree(detail)),
{
    let absent = match &detail {
        Some(v) => match v.get("code") {
            Some(c) => match c.as_str() {
                Some(code) => same(code, "object_unavailable"),
                None => false,
            },
            None => false,
        },
        None => false,
    };
    if absent {
        "monerod_module is not loaded".to_owned()
    } else {
        join("monerod_module: ", error)
    }
}

/// An error of the local node module in words.
pub fn why(error: &str) -> (r: String)
    ensures
        r@ == explained(error@, detail_of(error@)),
{
    let detail = match from_first(error, '{') {
        Some(rest) => Json::parse(rest),
        None => None,
    };
    explain(error, detail)
}

} // verus!
