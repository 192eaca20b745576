//! What requests carry, and when they are refused.
use vstd::prelude::*;

use crate::call;
use crate::call::{Call, HealthCheck};
use crate::json;
use crate::json::JsonTree;
use crate::module;
use crate::node;
use crate::node::{NodeError, NodeFault, NodeMode, NodeRecord};
use crate::proxy;
use crate::proxy::ProxyFault;
use crate::text;

verus! {

/// Whether a call is a POST of its own body to `path` under a record's URL, with one slash between
/// them: with the record's credentials where it has a name that is not empty and a password, and
/// else with none; through the record's proxy where it has one that is not blank, and else
/// directly; with the record's timeout where it is not zero; and telling the route that it takes.
pub open spec fn goes_to(call: Call, rec: NodeRecord, path: Seq<char>) -> bool {
    let told = call::request_told(call.outgoing);
    let asked = call.request@;
    let k = asked.url.len() - path.len() - 1;
    let proxied = rec.proxy is Some && text::trimmed(rec.proxy->0).len() > 0;
    &&& told.method == "POST"@
    &&& told.body == Some(json::json_text(asked.body))
    &&& told.url == asked.url
    &&& 0 <= k <= rec.url.len()
    &&& asked.url == rec.url.take(k) + "/"@ + path
    &&& k > 0 ==> rec.url[k - 1] != '/'
    &&& forall|i: int| k <= i < rec.url.len() ==> #[trigger] rec.url[i] == '/'
    &&& told.auth == asked.auth
    &&& match told.auth {
        Some((u, p)) => rec.username == Some(u) && u.len() > 0 && rec.password == Some(p),
        None => rec.username is None || rec.username->0.len() == 0 || rec.password is None,
    }
    &&& !told.egress.ambient
    &&& told.egress.proxies == if proxied {
        seq![text::trimmed(rec.proxy->0)]
    } else {
        Seq::empty()
    }
    &&& asked.route == if proxied {
        "proxied"@
    } else {
        "direct"@
    }
    &&& told.egress.timeout_secs == if rec.timeout_secs > 0 {
        rec.timeout_secs as nat
    } else {
        30
    }
    &&& rec.proxy_required ==> proxied
    &&& proxied ==> proxy::rule_taken(text::trimmed(rec.proxy->0))
}

/// Whether `text` is why no client was built for a record: it requires a proxy and has none, its
/// proxy cannot be used, or the HTTP library does not start.
pub open spec fn no_client(rec: NodeRecord, text: Seq<char>) -> bool {
    let proxied = rec.proxy is Some && text::trimmed(rec.proxy->0).len() > 0;
    if !proxied && rec.proxy_required {
        text == "proxy required but none configured (fail-closed: refusing to send in the clear)"@
    } else if proxied && !proxy::rule_taken(text::trimmed(rec.proxy->0)) {
        exists|t: Seq<char>|
            text == #[trigger] ("proxy URL is invalid or unsupported: "@ + t)
    } else {
        exists|t: Seq<char>| text == #[trigger] ("failed to build HTTP client: "@ + t)
    }
}

proof fn lemma_stripped_shape(s: Seq<char>, c: char)
    ensures
        ({
            let t = text::stripped_end(s, c);
            &&& t.len() <= s.len()
            &&& t == s.take(t.len() as int)
            &&& t.len() > 0 ==> s[t.len() - 1] != c
            &&& forall|i: int| t.len() <= i < s.len() ==> #[trigger] s[i] == c
        }),
    decreases s.len(),
{
    let t = text::stripped_end(s, c);
    if s.len() > 0 && s.last() == c {
        let d = s.drop_last();
        lemma_stripped_shape(d, c);
        assert(t =~= s.take(t.len() as int));
        if t.len() > 0 {
            assert(d[t.len() - 1] == s[t.len() - 1]);
        }
        assert forall|i: int| t.len() <= i < s.len() implies #[trigger] s[i] == c by {
            if i < d.len() {
                assert(d[i] == s[i]);
            }
        }
    } else {
        assert(t =~= s.take(t.len() as int));
    }
}

/// Every request that is prepared for a record goes to that record's node, and one that is not is
/// refused for want of a client.
pub proof fn law_prepared(
    rec: NodeRecord,
    path: Seq<char>,
    body: JsonTree,
    json_rpc: bool,
    r: Result<Call, NodeError>,
)
    requires
        call::prepared(rec, path, body, json_rpc, r),
    ensures
        match r {
            Ok(call) => {
                &&& goes_to(call, rec, path)
                &&& call.request@.body == body
                &&& call.request@.json_rpc == json_rpc
            },
            Err(e) => e@ matches NodeFault::Proxy(t) && no_client(rec, t),
        },
{
    lemma_stripped_shape(rec.url, '/');
    reveal_strlit("/");
    match r {
        Ok(call) => {
            let k = call.request@.url.len() - path.len() - 1;
            assert(k == text::stripped_end(rec.url, '/').len());
        },
        Err(e) => {
            match proxy::client_plan(rec.policy()) {
                Err(fault) => {
                    if let ProxyFault::Unusable(t) = fault {
                        assert(fault.message() == "proxy URL is invalid or unsupported: "@ + t);
                    }
                },
                Ok(_) => {
                    let t = choose|t: Seq<char>|
                        e@ == NodeFault::Proxy(#[trigger] ProxyFault::Build(t).message());
                    assert(ProxyFault::Build(t).message() == "failed to build HTTP client: "@ + t);
                },
            }
        },
    }
}

/// Whether `r` is right for a request to `path` of a network in a registry: a call to its node, or
/// the refusal of a network that is not configured or has no client.
pub open spec fn asked_rightly(
    m: Map<Seq<char>, NodeRecord>,
    network: Seq<char>,
    path: Seq<char>,
    r: Result<Call, NodeError>,
) -> bool {
    if m.contains_key(network) {
        match r {
            Ok(call) => goes_to(call, m[network], path),
            Err(e) => e@ matches NodeFault::Proxy(t) && no_client(m[network], t),
        }
    } else {
        r matches Err(e) && e@ == NodeFault::NotConfigured(network)
    }
}

/// Whether `r` is right for a request to `path` of what a wallet dials for a network: in remote
/// mode the stored node; in local mode the local node, directly, or its reason for having none.
pub open spec fn dialled_rightly(
    m: Map<Seq<char>, NodeRecord>,
    network: Seq<char>,
    local: Result<Seq<char>, Seq<char>>,
    path: Seq<char>,
    r: Result<Call, NodeError>,
) -> bool {
    if m.contains_key(network) && m[network].mode == NodeMode::Local {
        match local {
            Ok(url) => {
                let rec = NodeRecord {
                    url,
                    proxy: None,
                    proxy_required: false,
                    trusted: true,
                    ..m[network]
                };
                match r {
                    Ok(call) => goes_to(call, rec, path),
                    Err(e) => e@ matches NodeFault::Proxy(t) && no_client(rec, t),
                }
            },
            Err(e) => r matches Err(x) && x@ == NodeFault::Http(e),
        }
    } else {
        asked_rightly(m, network, path, r)
    }
}

/// Whether a call is a JSON-RPC call of `method` with `params`, and nothing more.
pub open spec fn is_rpc(r: Result<Call, NodeError>, method: Seq<char>, params: JsonTree) -> bool {
    r matches Ok(call) ==> {
        let body = call.request@.body;
        &&& call.request@.json_rpc
        &&& body is Object && body->Object_0.len() == 4
        &&& body.get("jsonrpc"@) == Some(JsonTree::Text("2.0"@))
        &&& body.get("id"@) == Some(JsonTree::Text("0"@))
        &&& body.get("method"@) == Some(JsonTree::Text(method))
        &&& body.get("params"@) == Some(params)
    }
}

/// Whether a call broadcasts a transaction, to be relayed or not as is said.
pub open spec fn is_broadcast(
    r: Result<Call, NodeError>,
    tx_as_hex: Seq<char>,
    do_not_relay: bool,
) -> bool {
    r matches Ok(call) ==> {
        let body = call.request@.body;
        &&& !call.request@.json_rpc
        &&& body is Object && body->Object_0.len() == 2
        &&& body.get("do_not_relay"@) == Some(JsonTree::Bool(do_not_relay))
        &&& body.get("tx_as_hex"@) == Some(JsonTree::Text(tx_as_hex))
    }
}

/// Whether a call mines `amount` blocks to `address`.
pub open spec fn is_mining(r: Result<Call, NodeError>, address: Seq<char>, amount: int) -> bool {
    r matches Ok(call) ==> {
        let params = call.request@.body.get("params"@);
        &&& call.request@.json_rpc
        &&& call.request@.body.get("method"@) == Some(JsonTree::Text("generateblocks"@))
        &&& params matches Some(p)
        &&& p is Object && p->Object_0.len() == 3
        &&& p.get("amount_of_blocks"@) == Some(JsonTree::Integer(amount))
        &&& p.get("wallet_address"@) == Some(JsonTree::Text(address))
        &&& p.get("starting_nonce"@) == Some(JsonTree::Integer(0))
    }
}

/// The object without members.
pub open spec fn nothing() -> JsonTree {
    JsonTree::Object(Seq::empty())
}

/// The body of a JSON-RPC call names the version, the method and the parameters it was made of.
pub proof fn law_rpc_body(method: Seq<char>, params: JsonTree)
    ensures
        ({
            let body = call::rpc_body(method, params);
            &&& body is Object && body->Object_0.len() == 4
            &&& body.get("jsonrpc"@) == Some(JsonTree::Text("2.0"@))
            &&& body.get("id"@) == Some(JsonTree::Text("0"@))
            &&& body.get("method"@) == Some(JsonTree::Text(method))
            &&& body.get("params"@) == Some(params)
        }),
{
    reveal_strlit("jsonrpc");
    reveal_strlit("id");
    reveal_strlit("method");
    reveal_strlit("params");
    assert("jsonrpc"@.len() == 7 && "id"@.len() == 2 && "method"@.len() == 6 && "params"@.len()
        == 6);
    assert("method"@[0] == 'm' && "params"@[0] == 'p');
    let members = call::rpc_body(method, params)->Object_0;
    json::lemma_member_first(members, 0);
    json::lemma_member_first(members, 1);
    json::lemma_member_first(members, 2);
    json::lemma_member_first(members, 3);
}

/// The body of a broadcast tells the caller's transaction and the caller's choice on relaying it.
pub proof fn law_broadcast_body(tx_as_hex: Seq<char>, do_not_relay: bool)
    ensures
        ({
            let body = call::broadcast_body(tx_as_hex, do_not_relay);
            &&& body is Object && body->Object_0.len() == 2
            &&& body.get("do_not_relay"@) == Some(JsonTree::Bool(do_not_relay))
            &&& body.get("tx_as_hex"@) == Some(JsonTree::Text(tx_as_hex))
        }),
{
    reveal_strlit("do_not_relay");
    reveal_strlit("tx_as_hex");
    assert("do_not_relay"@.len() == 12 && "tx_as_hex"@.len() == 9);
    let members = call::broadcast_body(tx_as_hex, do_not_relay)->Object_0;
    json::lemma_member_first(members, 0);
    json::lemma_member_first(members, 1);
}

/// The parameters of mining tell the caller's address and amount, and start at nonce zero.
pub proof fn law_mining_params(address: Seq<char>, amount: int)
    ensures
        ({
            let p = call::mining_params(address, amount);
            &&& p is Object && p->Object_0.len() == 3
            &&& p.get("amount_of_blocks"@) == Some(JsonTree::Integer(amount))
            &&& p.get("wallet_address"@) == Some(JsonTree::Text(address))
            &&& p.get("starting_nonce"@) == Some(JsonTree::Integer(0))
        }),
{
    reveal_strlit("amount_of_blocks");
    reveal_strlit("wallet_address");
    reveal_strlit("starting_nonce");
    assert("amount_of_blocks"@.len() == 16 && "wallet_address"@.len() == 14
        && "starting_nonce"@.len() == 14);
    assert("wallet_address"@[0] == 'w' && "starting_nonce"@[0] == 's');
    let members = call::mining_params(address, amount)->Object_0;
    json::lemma_member_first(members, 0);
    json::lemma_member_first(members, 1);
    json::lemma_member_first(members, 2);
}

// Requests of a registry

/// A JSON-RPC call goes to the network's node under `json_rpc`, with the caller's method and
/// parameters; any other call goes to the caller's path with the caller's body.
pub proof fn law_calls(
    m: Map<Seq<char>, NodeRecord>,
    network: Seq<char>,
    name: Seq<char>,
    value: JsonTree,
    r: Result<Call, NodeError>,
)
    ensures
        call::rpc_asked(m, network, name, value, r) ==> {
            &&& asked_rightly(m, network, "json_rpc"@, r)
            &&& is_rpc(r, name, value)
        },
        call::other_asked(m, network, name, value, r) ==> {
            &&& asked_rightly(m, network, name, r)
            &&& r matches Ok(call) ==> call.request@.body == value && !call.request@.json_rpc
        },
{
    law_rpc_body(name, value);
    if call::rpc_asked(m, network, name, value, r) && m.contains_key(network) {
        law_prepared(m[network], "json_rpc"@, call::rpc_body(name, value), true, r);
    }
    if call::other_asked(m, network, name, value, r) && m.contains_key(network) {
        law_prepared(m[network], name, value, false, r);
    }
}

/// Each of the typed reads asks the network's node for what it is named after, without parameters.
pub proof fn law_typed_reads(
    m: Map<Seq<char>, NodeRecord>,
    network: Seq<char>,
    r: Result<Call, NodeError>,
)
    ensures
        call::info_asked(m, network, r) ==> asked_rightly(m, network, "json_rpc"@, r) && is_rpc(
            r,
            "get_info"@,
            nothing(),
        ),
        call::fee_asked(m, network, r) ==> asked_rightly(m, network, "json_rpc"@, r) && is_rpc(
            r,
            "get_fee_estimate"@,
            nothing(),
        ),
        call::version_asked(m, network, r) ==> asked_rightly(m, network, "json_rpc"@, r) && is_rpc(
            r,
            "get_version"@,
            nothing(),
        ),
        call::forks_asked(m, network, r) ==> asked_rightly(m, network, "json_rpc"@, r) && is_rpc(
            r,
            "hard_fork_info"@,
            nothing(),
        ),
{
    law_calls(m, network, "get_info"@, call::no_params(), r);
    law_calls(m, network, "get_fee_estimate"@, call::no_params(), r);
    law_calls(m, network, "get_version"@, call::no_params(), r);
    law_calls(m, network, "hard_fork_info"@, call::no_params(), r);
}

/// A broadcast goes to the network's node under `send_raw_transaction`, with the caller's
/// transaction and the caller's choice on relaying it.
pub proof fn law_broadcast(
    m: Map<Seq<char>, NodeRecord>,
    network: Seq<char>,
    tx_as_hex: Seq<char>,
    do_not_relay: bool,
    r: Result<Call, NodeError>,
)
    requires
        call::broadcast_asked(m, network, tx_as_hex, do_not_relay, r),
    ensures
        asked_rightly(m, network, "send_raw_transaction"@, r),
        is_broadcast(r, tx_as_hex, do_not_relay),
{
    law_broadcast_body(tx_as_hex, do_not_relay);
    law_calls(
        m,
        network,
        "send_raw_transaction"@,
        call::broadcast_body(tx_as_hex, do_not_relay),
        r,
    );
}

/// Mining asks the network's node for the caller's amount of blocks to the caller's address.
pub proof fn law_mining(
    m: Map<Seq<char>, NodeRecord>,
    network: Seq<char>,
    address: Seq<char>,
    amount: u64,
    r: Result<Call, NodeError>,
)
    requires
        call::mining_asked(m, network, address, amount, r),
    ensures
        asked_rightly(m, network, "json_rpc"@, r),
        is_mining(r, address, amount as int),
{
    law_mining_params(address, amount as int);
    law_calls(
        m,
        network,
        "generateblocks"@,
        call::mining_params(address, amount as int),
        r,
    );
}

// Requests of what a wallet dials

proof fn lemma_dialled(
    m: Map<Seq<char>, NodeRecord>,
    network: Seq<char>,
    local: Result<Seq<char>, Seq<char>>,
    path: Seq<char>,
    body: JsonTree,
    json_rpc: bool,
    r: Result<Call, NodeError>,
)
    requires
        module::dialled(m, network, local, path, body, json_rpc, r),
    ensures
        dialled_rightly(m, network, local, path, r),
        r matches Ok(call) ==> call.request@.body == body && call.request@.json_rpc == json_rpc,
{
    if m.contains_key(network) {
        match crate::registry::effective_in(m, network, local) {
            Ok(rec) => law_prepared(rec, path, body, json_rpc, r),
            Err(_) => {},
        }
    }
}

/// A JSON-RPC call goes to what a wallet dials under `json_rpc`, with the caller's method and
/// parameters; any other call goes to the caller's path with the caller's body.
pub proof fn law_dialled_calls(
    m: Map<Seq<char>, NodeRecord>,
    network: Seq<char>,
    local: Result<Seq<char>, Seq<char>>,
    name: Seq<char>,
    value: JsonTree,
    r: Result<Call, NodeError>,
)
    ensures
        module::rpc_dialled(m, network, local, name, value, r) ==> {
            &&& dialled_rightly(m, network, local, "json_rpc"@, r)
            &&& is_rpc(r, name, value)
        },
        module::other_dialled(m, network, local, name, value, r) ==> {
            &&& dialled_rightly(m, network, local, name, r)
            &&& r matches Ok(call) ==> call.request@.body == value && !call.request@.json_rpc
        },
{
    law_rpc_body(name, value);
    if module::rpc_dialled(m, network, local, name, value, r) {
        lemma_dialled(m, network, local, "json_rpc"@, call::rpc_body(name, value), true, r);
    }
    if module::other_dialled(m, network, local, name, value, r) {
        lemma_dialled(m, network, local, name, value, false, r);
    }
}

/// Each of the typed reads asks what a wallet dials for what it is named after, without parameters.
pub proof fn law_dialled_reads(
    m: Map<Seq<char>, NodeRecord>,
    network: Seq<char>,
    local: Result<Seq<char>, Seq<char>>,
    r: Result<Call, NodeError>,
)
    ensures
        module::info_dialled(m, network, local, r) ==> dialled_rightly(
            m,
            network,
            local,
            "json_rpc"@,
            r,
        ) && is_rpc(r, "get_info"@, nothing()),
        module::fee_dialled(m, network, local, r) ==> dialled_rightly(
            m,
            network,
            local,
            "json_rpc"@,
            r,
        ) && is_rpc(r, "get_fee_estimate"@, nothing()),
        module::version_dialled(m, network, local, r) ==> dialled_rightly(
            m,
            network,
            local,
            "json_rpc"@,
            r,
        ) && is_rpc(r, "get_version"@, nothing()),
        module::forks_dialled(m, network, local, r) ==> dialled_rightly(
            m,
            network,
            local,
            "json_rpc"@,
            r,
        ) && is_rpc(r, "hard_fork_info"@, nothing()),
{
    law_dialled_calls(m, network, local, "get_info"@, call::no_params(), r);
    law_dialled_calls(m, network, local, "get_fee_estimate"@, call::no_params(), r);
    law_dialled_calls(m, network, local, "get_version"@, call::no_params(), r);
    law_dialled_calls(m, network, local, "hard_fork_info"@, call::no_params(), r);
}

/// The module's broadcast goes to what a wallet dials, with the caller's transaction, to be
/// relayed.
pub proof fn law_dialled_broadcast(
    m: Map<Seq<char>, NodeRecord>,
    network: Seq<char>,
    local: Result<Seq<char>, Seq<char>>,
    tx_as_hex: Seq<char>,
    r: Result<Call, NodeError>,
)
    requires
        module::broadcast_dialled(m, network, local, tx_as_hex, r),
    ensures
        dialled_rightly(m, network, local, "send_raw_transaction"@, r),
        is_broadcast(r, tx_as_hex, false),
{
    law_broadcast_body(tx_as_hex, false);
    law_dialled_calls(
        m,
        network,
        local,
        "send_raw_transaction"@,
        call::broadcast_body(tx_as_hex, false),
        r,
    );
}

/// The module mines on `regtest` only: the caller's amount, none where that is negative, to the
/// caller's address. On any other network it replies with a refusal.
pub proof fn law_dialled_mining(
    m: Map<Seq<char>, NodeRecord>,
    network: Seq<char>,
    local: Result<Seq<char>, Seq<char>>,
    address: Seq<char>,
    amount: i64,
    r: Result<Result<Call, NodeError>, String>,
)
    requires
        module::mining_dialled(m, network, local, address, amount, r),
    ensures
        r is Ok <==> network == "regtest"@,
        match r {
            Ok(call) => {
                &&& dialled_rightly(m, network, local, "json_rpc"@, call)
                &&& amount >= 0 ==> is_mining(call, address, amount as int)
                &&& amount < 0 ==> is_mining(call, address, 0)
            },
            Err(reply) => json::json_of_text(reply@) == Some(
                JsonTree::Object(
                    seq![
                        ("error"@, JsonTree::Text("generateblocks is regtest-only"@)),
                        ("ok"@, JsonTree::Bool(false)),
                    ],
                ),
            ),
        },
{
    if let Ok(call) = r {
        let n = if amount < 0 {
            0
        } else {
            amount as int
        };
        law_mining_params(address, n);
        law_dialled_calls(
            m,
            network,
            local,
            "generateblocks"@,
            call::mining_params(address, n),
            call,
        );
    }
}

/// An arbitrary JSON-RPC call carries the value that its parameters' text is the JSON of, and null
/// only where that text is no JSON.
pub proof fn law_raw_rpc(
    m: Map<Seq<char>, NodeRecord>,
    network: Seq<char>,
    local: Result<Seq<char>, Seq<char>>,
    method: Seq<char>,
    params_json: Seq<char>,
    r: Result<Call, NodeError>,
)
    requires
        module::raw_rpc_dialled(m, network, local, method, params_json, r),
    ensures
        dialled_rightly(m, network, local, "json_rpc"@, r),
        json::json_of_text(params_json) matches Some(v) ==> is_rpc(r, method, v),
        json::json_of_text(params_json) is None ==> is_rpc(r, method, JsonTree::Null),
{
    let v = module::or_null(json::json_of_text(params_json));
    law_dialled_calls(m, network, local, method, v, r);
}

/// An arbitrary call of another endpoint carries the value that its body's text is the JSON of, and
/// the object without members only where that text is no JSON; a network that is none is refused.
pub proof fn law_raw_endpoint(
    m: Map<Seq<char>, NodeRecord>,
    network: Seq<char>,
    local: Result<Seq<char>, Seq<char>>,
    path: Seq<char>,
    body_json: Seq<char>,
    r: Result<Call, NodeError>,
)
    requires
        module::raw_endpoint_dialled(m, network, local, path, body_json, r),
    ensures
        !node::known_network(network) ==> (r matches Err(e) && e@ == NodeFault::UnknownNetwork(
            network,
        )),
        node::known_network(network) ==> {
            &&& dialled_rightly(m, network, local, path, r)
            &&& r matches Ok(call) ==> {
                &&& !call.request@.json_rpc
                &&& json::json_of_text(body_json) matches Some(v) ==> call.request@.body == v
                &&& json::json_of_text(body_json) is None ==> call.request@.body == nothing()
            }
        },
{
    let v = module::or_empty(json::json_of_text(body_json));
    law_dialled_calls(m, network, local, path, v, r);
}

/// A health check asks a known network's node for its state; where it cannot, it reports the node
/// as unreachable and why; and it refuses an unknown network.
pub proof fn law_health_check(
    m: Map<Seq<char>, NodeRecord>,
    network: Seq<char>,
    local: Result<Seq<char>, Seq<char>>,
    r: HealthCheck,
)
    ensures
        call::health_asked(m, network, r) ==> {
            &&& node::known_network(network) ==> match r {
                HealthCheck::Ask(call) => {
                    &&& asked_rightly(m, network, "json_rpc"@, Ok(call))
                    &&& is_rpc(Ok(call), "get_info"@, nothing())
                },
                HealthCheck::Report(j) => exists|e: NodeError| #[trigger]
                    asked_rightly(m, network, "json_rpc"@, Err(e)) && reports(j@, e),
            }
            &&& !node::known_network(network) ==> refuses(r, network)
        },
        module::health_dialled(m, network, local, r) ==> {
            &&& node::known_network(network) ==> match r {
                HealthCheck::Ask(call) => {
                    &&& dialled_rightly(m, network, local, "json_rpc"@, Ok(call))
                    &&& is_rpc(Ok(call), "get_info"@, nothing())
                },
                HealthCheck::Report(j) => exists|e: NodeError| #[trigger]
                    dialled_rightly(m, network, local, "json_rpc"@, Err(e)) && reports(j@, e),
            }
            &&& !node::known_network(network) ==> refuses(r, network)
        },
{
    if call::health_asked(m, network, r) && node::known_network(network) {
        let info = choose|info: Result<Call, NodeError>| #[trigger]
            call::info_asked(m, network, info) && call::health_begun(info, r);
        law_typed_reads(m, network, info);
        if let Err(e) = info {
            assert(asked_rightly(m, network, "json_rpc"@, Err(e)));
        }
    }
    if module::health_dialled(m, network, local, r) && node::known_network(network) {
        let info = choose|info: Result<Call, NodeError>| #[trigger]
            module::info_dialled(m, network, local, info) && call::health_begun(info, r);
        law_dialled_reads(m, network, local, info);
        if let Err(e) = info {
            assert(dialled_rightly(m, network, local, "json_rpc"@, Err(e)));
        }
    }
}

/// Whether a report says that a node could not be reached, and why.
pub open spec fn reports(j: JsonTree, e: NodeError) -> bool {
    j == JsonTree::Object(
        seq![
            ("error"@, JsonTree::Text(e@.message())),
            ("ok"@, JsonTree::Bool(true)),
            ("reachable"@, JsonTree::Bool(false)),
        ],
    )
}

/// Whether a health check refuses a network that is none.
pub open spec fn refuses(r: HealthCheck, network: Seq<char>) -> bool {
    r matches HealthCheck::Report(j) && j@ == JsonTree::Object(
        seq![
            ("error"@, JsonTree::Text("unknown network: "@ + network)),
            ("ok"@, JsonTree::Bool(false)),
        ],
    )
}

} // verus!
