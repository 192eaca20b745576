//! The requests a monerod is sent, and what its answers mean.
use vstd::prelude::*;

use crate::json;
use crate::json::{add_member, object, to_value, Json, JsonTree};
use crate::node;
use crate::node::{is_network, NodeConfig, NodeError, NodeFault, NodeRecord};
use crate::proxy;
use crate::proxy::{build_client, Egress, ProxyError, ProxyFault};
use crate::registry::Nodes;
use crate::text;
use crate::text::{chars_of, is_white_space, join, join3, strip_end};

verus! {

/// A request to be sent by POST, in plain values.
#[derive(Debug)]
pub struct Request {
    pub url: String,
    pub body: Json,
    /// The user name and password of HTTP Basic authentication. monerod's `--rpc-login` wants
    /// Digest, which is not supported: such a node's challenge shows as an error.
    pub auth: Option<(String, String)>,
    /// `proxied` or `direct`.
    pub route: &'static str,
    /// Whether the answer is a JSON-RPC one.
    pub json_rpc: bool,
}

/// The mathematical form of a [`Request`].
pub struct Post {
    pub url: Seq<char>,
    pub body: JsonTree,
    pub auth: Option<(Seq<char>, Seq<char>)>,
    pub route: Seq<char>,
    pub json_rpc: bool,
}

impl View for Request {
    type V = Post;

    open spec fn view(&self) -> Post {
        Post {
            url: self.url@,
            body: self.body@,
            auth: match self.auth {
                Some((u, p)) => Some((u@, p@)),
                None => None,
            },
            route: self.route@,
            json_rpc: self.json_rpc,
        }
    }
}

/// A request ready to be sent: the HTTP library's own form of it, which a caller sends, and what
/// it was made of, which says what the answer means.
#[derive(Debug)]
pub struct Call {
    pub outgoing: reqwest::blocking::RequestBuilder,
    pub request: Request,
}

/// What was handed over to be sent: by which way, with which HTTP method, where to, with what text
/// as its body and which credentials.
pub struct Outgoing {
    pub egress: Egress,
    pub method: Seq<char>,
    pub url: Seq<char>,
    pub body: Option<Seq<char>>,
    pub auth: Option<(Seq<char>, Seq<char>)>,
}

impl Post {
    /// What is handed over for this request, to go by the given way.
    pub open spec fn outgoing(self, egress: Egress) -> Outgoing {
        Outgoing {
            egress,
            method: "POST"@,
            url: self.url,
            body: Some(json::json_text(self.body)),
            auth: self.auth,
        }
    }
}

/// The address of `path` under a node's URL: exactly one slash stands between them.
pub open spec fn endpoint_url(url: Seq<char>, path: Seq<char>) -> Seq<char> {
    text::stripped_end(url, '/') + "/"@ + path
}

/// The credentials to send: a name and a password, the name not empty.
pub open spec fn credentials(rec: NodeRecord) -> Option<(Seq<char>, Seq<char>)> {
    match (rec.username, rec.password) {
        (Some(u), Some(p)) => if u.len() > 0 {
            Some((u, p))
        } else {
            None
        },
        _ => None,
    }
}

/// How requests for a record travel.
pub open spec fn route_text(rec: NodeRecord) -> Seq<char> {
    if rec.policy().target() is Some {
        "proxied"@
    } else {
        "direct"@
    }
}

/// The request for `path` with `body`, for a record.
pub open spec fn post_of(
    rec: NodeRecord,
    path: Seq<char>,
    body: JsonTree,
    json_rpc: bool,
) -> Post {
    Post {
        url: endpoint_url(rec.url, path),
        body,
        auth: credentials(rec),
        route: route_text(rec),
        json_rpc,
    }
}

/// The request for `path` with `body`, for a configuration.
pub fn post(cfg: &NodeConfig, path: &str, body: Json, json_rpc: bool) -> (r: Request)
    ensures
        r@ == post_of(cfg@, path@, body@, json_rpc),
{
    let auth = match (&cfg.username, &cfg.password) {
        (Some(u), Some(p)) => if u.as_str().is_empty() {
            None
        } else {
            Some((u.clone(), p.clone()))
        },
        _ => None,
    };
    let base = strip_end(cfg.url.as_str(), '/');
    Request { url: join3(base, "/", path), body, auth, route: Nodes::route(cfg), json_rpc }
}

/// Hands a request to the HTTP library, to be sent by `client`.
pub fn address(client: &reqwest::blocking::Client, request: Request) -> (r: Call)
    ensures
        r.request == request,
        request_told(r.outgoing) == request@.outgoing(proxy::client_egress(*client)),
{
    let started = start_post(client, request.url.as_str());
    let filled = set_json(started, &request.body);
    let outgoing = match &request.auth {
        Some((u, p)) => set_basic_auth(filled, u.as_str(), p.as_str()),
        None => filled,
    };
    Call { outgoing, request }
}

/// Whether `r` is what preparing a request for a record gives: a fault of its proxy policy, else
/// the request, to go out the way that the policy says, unless the HTTP library itself does not
/// start.
pub open spec fn prepared(
    rec: NodeRecord,
    path: Seq<char>,
    body: JsonTree,
    json_rpc: bool,
    r: Result<Call, NodeError>,
) -> bool {
    match proxy::client_plan(rec.policy()) {
        Err(fault) => r matches Err(e) && e@ == NodeFault::Proxy(fault.message()),
        Ok(plan) => match r {
            Ok(call) => {
                &&& call.request@ == post_of(rec, path, body, json_rpc)
                &&& request_told(call.outgoing) == call.request@.outgoing(plan.egress())
            },
            Err(e) => exists|t: Seq<char>|
                e@ == NodeFault::Proxy(#[trigger] ProxyFault::Build(t).message()),
        },
    }
}

/// Whether `r` is what preparing a request for `network` gives, in a registry.
pub open spec fn prepared_in(
    m: Map<Seq<char>, NodeRecord>,
    network: Seq<char>,
    path: Seq<char>,
    body: JsonTree,
    json_rpc: bool,
    r: Result<Call, NodeError>,
) -> bool {
    if m.contains_key(network) {
        prepared(m[network], path, body, json_rpc, r)
    } else {
        r matches Err(e) && e@ == NodeFault::NotConfigured(network)
    }
}

/// The request for `path` with `body`, for a configuration, to be sent by the client that was
/// built for it; or why none was.
pub fn prepared_with(
    built: Result<reqwest::blocking::Client, ProxyError>,
    cfg: &NodeConfig,
    path: &str,
    body: Json,
    json_rpc: bool,
) -> (r: Result<Call, NodeError>)
    ensures
        match built {
            Ok(client) => {
                &&& r matches Ok(call)
                &&& call.request@ == post_of(cfg@, path@, body@, json_rpc)
                &&& request_told(call.outgoing) == call.request@.outgoing(
                    proxy::client_egress(client),
                )
            },
            Err(e) => r matches Err(x) && x@ == NodeFault::Proxy(e@.message()),
        },
{
    match built {
        Ok(client) => Ok(address(&client, post(cfg, path, body, json_rpc))),
        Err(e) => Err(NodeError::Proxy(e.message())),
    }
}

/// The body of a JSON-RPC call.
pub open spec fn rpc_body(method: Seq<char>, params: JsonTree) -> JsonTree {
    JsonTree::Object(
        seq![
            ("id"@, JsonTree::Text("0"@)),
            ("jsonrpc"@, JsonTree::Text("2.0"@)),
            ("method"@, JsonTree::Text(method)),
            ("params"@, params),
        ],
    )
}

/// The body of a broadcast.
pub open spec fn broadcast_body(tx_as_hex: Seq<char>, do_not_relay: bool) -> JsonTree {
    JsonTree::Object(
        seq![
            ("do_not_relay"@, JsonTree::Bool(do_not_relay)),
            ("tx_as_hex"@, JsonTree::Text(tx_as_hex)),
        ],
    )
}

/// The parameters of mining blocks to an address.
pub open spec fn mining_params(address: Seq<char>, amount: int) -> JsonTree {
    JsonTree::Object(
        seq![
            ("amount_of_blocks"@, JsonTree::Integer(amount)),
            ("starting_nonce"@, JsonTree::Integer(0)),
            ("wallet_address"@, JsonTree::Text(address)),
        ],
    )
}

/// The object without members.
pub open spec fn no_params() -> JsonTree {
    JsonTree::Object(Seq::empty())
}

/// Whether `r` is what preparing a JSON-RPC call gives, in a registry.
pub open spec fn rpc_asked(
    m: Map<Seq<char>, NodeRecord>,
    network: Seq<char>,
    method: Seq<char>,
    params: JsonTree,
    r: Result<Call, NodeError>,
) -> bool {
    prepared_in(m, network, "json_rpc"@, rpc_body(method, params), true, r)
}

/// Whether `r` is what preparing a call of another endpoint gives, in a registry.
pub open spec fn other_asked(
    m: Map<Seq<char>, NodeRecord>,
    network: Seq<char>,
    path: Seq<char>,
    body: JsonTree,
    r: Result<Call, NodeError>,
) -> bool {
    prepared_in(m, network, path, body, false, r)
}

/// Whether `r` is what preparing the call for the node's general state gives, in a registry.
pub open spec fn info_asked(
    m: Map<Seq<char>, NodeRecord>,
    network: Seq<char>,
    r: Result<Call, NodeError>,
) -> bool {
    rpc_asked(m, network, "get_info"@, no_params(), r)
}

/// Whether `r` is what preparing the call for the node's estimate of the fee gives,
/// in a registry.
pub open spec fn fee_asked(
    m: Map<Seq<char>, NodeRecord>,
    network: Seq<char>,
    r: Result<Call, NodeError>,
) -> bool {
    rpc_asked(m, network, "get_fee_estimate"@, no_params(), r)
}

/// Whether `r` is what preparing the call for the node's version gives, in a registry.
pub open spec fn version_asked(
    m: Map<Seq<char>, NodeRecord>,
    network: Seq<char>,
    r: Result<Call, NodeError>,
) -> bool {
    rpc_asked(m, network, "get_version"@, no_params(), r)
}

/// Whether `r` is what preparing the call for the node's view of hard forks gives,
/// in a registry.
pub open spec fn forks_asked(
    m: Map<Seq<char>, NodeRecord>,
    network: Seq<char>,
    r: Result<Call, NodeError>,
) -> bool {
    rpc_asked(m, network, "hard_fork_info"@, no_params(), r)
}

/// Whether `r` is what preparing a broadcast gives, in a registry.
pub open spec fn broadcast_asked(
    m: Map<Seq<char>, NodeRecord>,
    network: Seq<char>,
    tx_as_hex: Seq<char>,
    do_not_relay: bool,
    r: Result<Call, NodeError>,
) -> bool {
    other_asked(
        m,
        network,
        "send_raw_transaction"@,
        broadcast_body(tx_as_hex, do_not_relay),
        r,
    )
}

/// Whether `r` is what preparing a call to mine gives, in a registry.
pub open spec fn mining_asked(
    m: Map<Seq<char>, NodeRecord>,
    network: Seq<char>,
    address: Seq<char>,
    amount: u64,
    r: Result<Call, NodeError>,
) -> bool {
    rpc_asked(m, network, "generateblocks"@, mining_params(address, amount as int), r)
}

/// The object without members.
pub fn empty_object() -> (r: Json)
    ensures
        r@ == no_params(),
{
    let members: Vec<(String, Json)> = Vec::new();
    assert(json::member_trees(members@) =~= Seq::empty());
    object(members)
}

impl Nodes {
    /// How requests for a configuration travel: `proxied` or `direct`.
    pub fn route(cfg: &NodeConfig) -> (r: &'static str)
        ensures
            r@ == route_text(cfg@),
    {
        match cfg.proxy_cfg().target() {
            Some(_) => "proxied",
            None => "direct",
        }
    }

    fn prepare(&self, network: &str, path: &str, body: Json, json_rpc: bool) -> (r: Result<
        Call,
        NodeError,
    >)
        ensures
            prepared_in(self@, network@, path@, body@, json_rpc, r),
    {
        let cfg = match self.get(network) {
            Some(c) => c,
            None => return Err(NodeError::NotConfigured(network.to_owned())),
        };
        let built = build_client(&cfg.proxy_cfg());
        proof {
            if built is Err && built->Err_0@ is Build {
                let t = built->Err_0@->Build_0;
                assert(built->Err_0@.message() == ProxyFault::Build(t).message());
            }
        }
        prepared_with(built, cfg, path, body, json_rpc)
    }

    /// A monerod JSON-RPC call, ready to send: POST `<url>/json_rpc`.
    pub fn json_rpc(&self, network: &str, method: &str, params: Json) -> (r: Result<
        Call,
        NodeError,
    >)
        ensures
            rpc_asked(self@, network@, method@, params@, r),
    {
        let mut m: Vec<(String, Json)> = Vec::new();
        let ghost params_tree = params@;
        add_member(&mut m, "id", Json::Text("0".to_owned()));
        add_member(&mut m, "jsonrpc", Json::Text("2.0".to_owned()));
        add_member(&mut m, "method", Json::Text(method.to_owned()));
        add_member(&mut m, "params", params);
        assert(json::member_trees(m@) =~= rpc_body(method@, params_tree)->Object_0);
        self.prepare(network, "json_rpc", object(m), true)
    }

    /// A call of an endpoint that is not JSON-RPC, ready to send: POST `<url>/<path>`.
    pub fn other(&self, network: &str, path: &str, body: Json) -> (r: Result<Call, NodeError>)
        ensures
            other_asked(self@, network@, path@, body@, r),
    {
        self.prepare(network, path, body, false)
    }

    /// The node's general state.
    pub fn get_info(&self, network: &str) -> (r: Result<Call, NodeError>)
        ensures
            info_asked(self@, network@, r),
    {
        self.json_rpc(network, "get_info", empty_object())
    }

    /// The node's estimate of the fee per byte.
    pub fn get_fee_estimate(&self, network: &str) -> (r: Result<Call, NodeError>)
        ensures
            fee_asked(self@, network@, r),
    {
        self.json_rpc(network, "get_fee_estimate", empty_object())
    }

    /// The node's version.
    pub fn get_version(&self, network: &str) -> (r: Result<Call, NodeError>)
        ensures
            version_asked(self@, network@, r),
    {
        self.json_rpc(network, "get_version", empty_object())
    }

    /// The node's view of hard forks.
    pub fn hard_fork_info(&self, network: &str) -> (r: Result<Call, NodeError>)
        ensures
            forks_asked(self@, network@, r),
    {
        self.json_rpc(network, "hard_fork_info", empty_object())
    }

    /// The broadcast of a signed transaction, `tx_as_hex` its blob.
    pub fn send_raw_transaction(&self, network: &str, tx_as_hex: &str, do_not_relay: bool) -> (r:
        Result<Call, NodeError>)
        ensures
            broadcast_asked(self@, network@, tx_as_hex@, do_not_relay, r),
    {
        let mut m: Vec<(String, Json)> = Vec::new();
        add_member(&mut m, "do_not_relay", Json::Bool(do_not_relay));
        add_member(&mut m, "tx_as_hex", Json::Text(tx_as_hex.to_owned()));
        assert(json::member_trees(m@) =~= broadcast_body(tx_as_hex@, do_not_relay)->Object_0);
        self.other(network, "send_raw_transaction", object(m))
    }

    /// Mines blocks to an address; a node answers it on `regtest` only.
    pub fn generateblocks(&self, network: &str, address: &str, amount: u64) -> (r: Result<
        Call,
        NodeError,
    >)
        ensures
            mining_asked(self@, network@, address@, amount, r),
    {
        let mut m: Vec<(String, Json)> = Vec::new();
        add_member(&mut m, "amount_of_blocks", Json::Integer(amount as i128));
        add_member(&mut m, "starting_nonce", Json::Integer(0));
        add_member(&mut m, "wallet_address", Json::Text(address.to_owned()));
        assert(json::member_trees(m@) =~= mining_params(address@, amount as int)->Object_0);
        self.json_rpc(network, "generateblocks", object(m))
    }
}

// Answers

/// The result of a JSON-RPC answer, or the error in it.
pub open spec fn rpc_outcome(v: JsonTree) -> Result<JsonTree, NodeFault> {
    match v.get("error"@) {
        Some(err) => Err(
            NodeFault::Rpc {
                code: match err.get("code"@) {
                    Some(c) => match c.as_i64() {
                        Some(n) => n,
                        None => 0,
                    },
                    None => 0,
                },
                message: match err.get("message"@) {
                    Some(t) => match t.as_text() {
                        Some(s) => s,
                        None => Seq::empty(),
                    },
                    None => Seq::empty(),
                },
            },
        ),
        None => match v.get("result"@) {
            Some(result) => Ok(result),
            None => Err(NodeFault::Parse("response had no `result`"@)),
        },
    }
}

/// What a call gives: an answer and the route it took, or a fault.
pub open spec fn outcome(r: Result<(Json, &'static str), NodeError>) -> Result<
    (JsonTree, Seq<char>),
    NodeFault,
> {
    match r {
        Ok((v, route)) => Ok((v@, route@)),
        Err(e) => Err(e@),
    }
}

impl Post {
    /// What the request gives where the node's answer is `v`.
    pub open spec fn meaning(self, v: JsonTree) -> Result<(JsonTree, Seq<char>), NodeFault> {
        if self.json_rpc {
            match rpc_outcome(v) {
                Ok(result) => Ok((result, self.route)),
                Err(fault) => Err(fault),
            }
        } else {
            Ok((v, self.route))
        }
    }

    /// What the request gives where sending it gave `sent`: the HTTP status of the answer, the
    /// authentication it asks for and its bytes, or why there is no answer. A challenge for HTTP
    /// Digest is an error, whatever it holds; no other answer is told by its status.
    pub open spec fn answer(
        self,
        sent: Result<(u16, Seq<Seq<char>>, Seq<u8>), Seq<char>>,
    ) -> Result<(JsonTree, Seq<char>), NodeFault> {
        match sent {
            Err(e) => Err(NodeFault::Http(e)),
            Ok((status, asked, bytes)) => if digest_challenge(status, asked) {
                Err(NodeFault::Http(challenge_text()))
            } else {
                match json::json_of_bytes(bytes) {
                    Some(v) => self.meaning(v),
                    None => Err(NodeFault::Http("error decoding response body"@)),
                }
            },
        }
    }
}

// Challenges

/// Where a reader of a `WWW-Authenticate` value stands: outside quotes, inside them, or inside them
/// behind a backslash.
#[derive(Clone, Copy, PartialEq, Eq, Structural)]
pub enum Quoting {
    Outside,
    Inside,
    Escaped,
}

/// Where a reader stands after one more character.
pub open spec fn quoting_after(q: Quoting, c: char) -> Quoting {
    match q {
        Quoting::Outside => if c == '"' {
            Quoting::Inside
        } else {
            Quoting::Outside
        },
        Quoting::Inside => if c == '"' {
            Quoting::Outside
        } else if c == '\\' {
            Quoting::Escaped
        } else {
            Quoting::Inside
        },
        Quoting::Escaped => Quoting::Inside,
    }
}

/// Where a reader stands after `s`.
pub open spec fn quoting(s: Seq<char>) -> Quoting
    decreases s.len(),
{
    if s.len() == 0 {
        Quoting::Outside
    } else {
        quoting_after(quoting(s.drop_last()), s.last())
    }
}

/// Whether a challenge or one of its parameters can start behind `s`: at the start of the value, or
/// behind a comma outside quotes, white space aside.
pub open spec fn part_ends(s: Seq<char>) -> bool {
    let t = text::trimmed_end(s);
    quoting(s) == Quoting::Outside && (t.len() == 0 || t.last() == ',')
}

/// Whether the word `digest`, in letters of either case, stands in `s` at `i`.
pub open spec fn digest_at(s: Seq<char>, i: int) -> bool {
    &&& 0 <= i
    &&& i + 6 <= s.len()
    &&& (s[i] == 'd' || s[i] == 'D')
    &&& (s[i + 1] == 'i' || s[i + 1] == 'I')
    &&& (s[i + 2] == 'g' || s[i + 2] == 'G')
    &&& (s[i + 3] == 'e' || s[i + 3] == 'E')
    &&& (s[i + 4] == 's' || s[i + 4] == 'S')
    &&& (s[i + 5] == 't' || s[i + 5] == 'T')
    &&& i + 6 < s.len() ==> s[i + 6] == ' ' || s[i + 6] == '\t' || s[i + 6] == ','
}

/// Whether a `WWW-Authenticate` value has a challenge of the scheme Digest: one value may hold
/// several challenges.
pub open spec fn offers_digest(value: Seq<char>) -> bool {
    exists|i: int| #[trigger] digest_at(value, i) && part_ends(value.take(i))
}

/// Whether an answer is a challenge for HTTP Digest: status 401, and one of its `WWW-Authenticate`
/// values in `asked` offers that scheme.
pub open spec fn digest_challenge(status: u16, asked: Seq<Seq<char>>) -> bool {
    status == 401 && exists|k: int| 0 <= k < asked.len() && offers_digest(#[trigger] asked[k])
}

/// What is said of a challenge for HTTP Digest.
pub open spec fn challenge_text() -> Seq<char> {
    "401 Unauthorized: the node wants HTTP Digest authentication, which is not supported"@
}

fn is_digest_at(v: &Vec<char>, i: usize) -> (r: bool)
    ensures
        r == digest_at(v@, i as int),
{
    if v.len() < 6 || i > v.len() - 6 {
        return false;
    }
    (v[i] == 'd' || v[i] == 'D') && (v[i + 1] == 'i' || v[i + 1] == 'I') && (v[i + 2] == 'g' || v[i
        + 2] == 'G') && (v[i + 3] == 'e' || v[i + 3] == 'E') && (v[i + 4] == 's' || v[i + 4] == 'S')
        && (v[i + 5] == 't' || v[i + 5] == 'T') && (i + 6 == v.len() || v[i + 6] == ' ' || v[i + 6]
        == '\t' || v[i + 6] == ',')
}

/// Whether a `WWW-Authenticate` value has a challenge of the scheme Digest.
pub fn has_digest(value: &str) -> (r: bool)
    ensures
        r == offers_digest(value@),
{
    let v = chars_of(value);
    let mut q = Quoting::Outside;
    let mut open = true;
    assert(v@.take(0) =~= Seq::empty());
    for i in 0..v.len()
        invariant
            v@ == value@,
            q == quoting(v@.take(i as int)),
            open == ({
                let t = text::trimmed_end(v@.take(i as int));
                t.len() == 0 || t.last() == ','
            }),
            forall|k: int| 0 <= k < i ==> !(#[trigger] digest_at(v@, k) && part_ends(v@.take(k))),
    {
        if open && q == Quoting::Outside && is_digest_at(&v, i) {
            assert(digest_at(value@, i as int) && part_ends(value@.take(i as int)));
            return true;
        }
        let c = v[i];
        q = match q {
            Quoting::Outside => if c == '"' {
                Quoting::Inside
            } else {
                Quoting::Outside
            },
            Quoting::Inside => if c == '"' {
                Quoting::Outside
            } else if c == '\\' {
                Quoting::Escaped
            } else {
                Quoting::Inside
            },
            Quoting::Escaped => Quoting::Inside,
        };
        if !is_white_space(c) {
            open = c == ',';
        }
        assert(v@.take(i + 1).drop_last() =~= v@.take(i as int));
        assert(v@.take(i + 1).last() == c);
    }
    false
}

/// Whether an answer is a challenge for HTTP Digest, `asked` its `WWW-Authenticate` values.
pub fn is_digest_challenge(status: u16, asked: &Vec<String>) -> (r: bool)
    ensures
        r == digest_challenge(status, text::texts(asked@)),
{
    let ghost values = text::texts(asked@);
    if status != 401 {
        return false;
    }
    for k in 0..asked.len()
        invariant
            status == 401,
            values == text::texts(asked@),
            forall|j: int| 0 <= j < k ==> !offers_digest(#[trigger] values[j]),
    {
        assert(values[k as int] == asked@[k as int]@);
        if has_digest(asked[k].as_str()) {
            return true;
        }
    }
    false
}

/// What came of sending a request.
pub open spec fn sent_text(sent: Result<(u16, Vec<String>, Vec<u8>), String>) -> Result<
    (u16, Seq<Seq<char>>, Seq<u8>),
    Seq<char>,
> {
    match sent {
        Ok((status, asked, bytes)) => Ok((status, text::texts(asked@), bytes@)),
        Err(e) => Err(e@),
    }
}

/// The result of a JSON-RPC answer, or the error in it.
pub fn rpc_result(v: Json) -> (r: Result<Json, NodeError>)
    ensures
        match r {
            Ok(result) => rpc_outcome(v@) == Ok::<JsonTree, NodeFault>(result@),
            Err(e) => rpc_outcome(v@) == Err::<JsonTree, NodeFault>(e@),
        },
{
    if let Some(err) = v.get("error") {
        let code: i64 = match err.get("code") {
            Some(c) => match c.as_i64() {
                Some(n) => n,
                None => 0,
            },
            None => 0,
        };
        let message = match err.get("message") {
            Some(t) => match t.as_str() {
                Some(s) => s.to_owned(),
                None => String::new(),
            },
            None => String::new(),
        };
        return Err(NodeError::Rpc { code, message });
    }
    match v.take("result") {
        Some(result) => Ok(result),
        None => Err(NodeError::Parse("response had no `result`".to_owned())),
    }
}

impl Request {
    /// What the request gives where the node's answer is `v`.
    pub fn interpret(&self, v: Json) -> (r: Result<(Json, &'static str), NodeError>)
        ensures
            outcome(r) == self@.meaning(v@),
    {
        if self.json_rpc {
            match rpc_result(v) {
                Ok(result) => Ok((result, self.route)),
                Err(e) => Err(e),
            }
        } else {
            Ok((v, self.route))
        }
    }

    /// What the request gives where sending it gave `sent`: the HTTP status of the answer, its
    /// `WWW-Authenticate` values and its bytes, or why there is no answer.
    pub fn finish(&self, sent: Result<(u16, Vec<String>, Vec<u8>), String>) -> (r: Result<
        (Json, &'static str),
        NodeError,
    >)
        ensures
            outcome(r) == self@.answer(sent_text(sent)),
    {
        match sent {
            Err(e) => Err(NodeError::Http(e)),
            Ok((status, asked, bytes)) => {
                if is_digest_challenge(status, &asked) {
                    let challenge = "401 Unauthorized: the node wants HTTP Digest authentication, which is not supported";
                    return Err(NodeError::Http(challenge.to_owned()));
                }
                match Json::parse_bytes(bytes.as_slice()) {
                    Some(v) => self.interpret(v),
                    None => Err(NodeError::Http("error decoding response body".to_owned())),
                }
            },
        }
    }
}

// Health

/// A number that is there, else null.
pub open spec fn opt_number(n: Option<u64>) -> JsonTree {
    match n {
        Some(k) => JsonTree::Integer(k as int),
        None => JsonTree::Null,
    }
}

/// A truth value that is there, else null.
pub open spec fn opt_truth(b: Option<bool>) -> JsonTree {
    match b {
        Some(v) => JsonTree::Bool(v),
        None => JsonTree::Null,
    }
}

/// The number under `key`, where there is one that fits a `u64`.
pub open spec fn number_at(v: JsonTree, key: Seq<char>) -> Option<u64> {
    match v.get(key) {
        Some(n) => n.as_u64(),
        None => None,
    }
}

/// The truth value under `key`, where there is one.
pub open spec fn truth_at(v: JsonTree, key: Seq<char>) -> Option<bool> {
    match v.get(key) {
        Some(b) => b.as_bool(),
        None => None,
    }
}

/// The report on a node whose state was asked for. It never fails: an unreachable node is
/// reported as one.
pub open spec fn health_tree(asked: Result<(JsonTree, Seq<char>), NodeFault>, rtt_ms: u64) -> JsonTree {
    match asked {
        Ok((info, route)) => JsonTree::Object(
            seq![
                ("height"@, opt_number(number_at(info, "height"@))),
                ("ok"@, JsonTree::Bool(true)),
                ("reachable"@, JsonTree::Bool(true)),
                ("restricted"@, opt_truth(truth_at(info, "restricted"@))),
                ("route"@, JsonTree::Text(route)),
                ("rttMs"@, JsonTree::Integer(rtt_ms as int)),
                ("synced"@, opt_truth(truth_at(info, "synchronized"@))),
                ("targetHeight"@, opt_number(number_at(info, "target_height"@))),
            ],
        ),
        Err(fault) => JsonTree::Object(
            seq![
                ("error"@, JsonTree::Text(fault.message())),
                ("ok"@, JsonTree::Bool(true)),
                ("reachable"@, JsonTree::Bool(false)),
            ],
        ),
    }
}

/// The refusal of a request, with its reason.
pub open spec fn refusal_tree(message: Seq<char>) -> JsonTree {
    JsonTree::Object(
        seq![("error"@, JsonTree::Text(message)), ("ok"@, JsonTree::Bool(false))],
    )
}

/// The refusal of a request, with its reason.
pub fn refusal(message: &str) -> (r: Json)
    ensures
        r@ == refusal_tree(message@),
{
    let mut m: Vec<(String, Json)> = Vec::new();
    add_member(&mut m, "error", Json::Text(message.to_owned()));
    add_member(&mut m, "ok", Json::Bool(false));
    assert(json::member_trees(m@) =~= refusal_tree(message@)->Object_0);
    object(m)
}

fn number_or_null(v: &Json, key: &str) -> (r: Json)
    ensures
        r@ == opt_number(number_at(v@, key@)),
{
    match v.get(key) {
        Some(n) => match n.as_u64() {
            Some(k) => Json::Integer(k as i128),
            None => Json::Null,
        },
        None => Json::Null,
    }
}

fn truth_or_null(v: &Json, key: &str) -> (r: Json)
    ensures
        r@ == opt_truth(truth_at(v@, key@)),
{
    match v.get(key) {
        Some(b) => match b.as_bool() {
            Some(t) => Json::Bool(t),
            None => Json::Null,
        },
        None => Json::Null,
    }
}

/// The report on a node whose state was asked for, `rtt_ms` the time the answer took.
pub fn health_report(asked: &Result<(Json, &'static str), NodeError>, rtt_ms: u64) -> (r: Json)
    ensures
        r@ == health_tree(outcome(*asked), rtt_ms),
{
    let mut m: Vec<(String, Json)> = Vec::new();
    match asked {
        Ok((info, route)) => {
            add_member(&mut m, "height", number_or_null(info, "height"));
            add_member(&mut m, "ok", Json::Bool(true));
            add_member(&mut m, "reachable", Json::Bool(true));
            add_member(&mut m, "restricted", truth_or_null(info, "restricted"));
            add_member(&mut m, "route", Json::Text((*route).to_owned()));
            add_member(&mut m, "rttMs", Json::Integer(rtt_ms as i128));
            add_member(&mut m, "synced", truth_or_null(info, "synchronized"));
            add_member(&mut m, "targetHeight", number_or_null(info, "target_height"));
        },
        Err(e) => {
            add_member(&mut m, "error", Json::Text(e.message()));
            add_member(&mut m, "ok", Json::Bool(true));
            add_member(&mut m, "reachable", Json::Bool(false));
        },
    }
    assert(json::member_trees(m@) =~= health_tree(outcome(*asked), rtt_ms)->Object_0);
    object(m)
}

/// A health check: already decided, or to be decided by the answer to a call.
#[derive(Debug)]
pub enum HealthCheck {
    Report(Json),
    Ask(Call),
}

/// Whether `r` is how a health check starts where preparing the call for the node's state gave
/// `info`: a call that cannot be made reports the node as unreachable, else the node is asked.
pub open spec fn health_begun(info: Result<Call, NodeError>, r: HealthCheck) -> bool {
    match info {
        Ok(call) => r == HealthCheck::Ask(call),
        Err(e) => r matches HealthCheck::Report(j) && j@ == health_tree(Err(e@), 0),
    }
}

/// Whether `r` is how the health check of a network starts, in a registry.
pub open spec fn health_asked(
    m: Map<Seq<char>, NodeRecord>,
    network: Seq<char>,
    r: HealthCheck,
) -> bool {
    if node::known_network(network) {
        exists|info: Result<Call, NodeError>| #[trigger]
            info_asked(m, network, info) && health_begun(info, r)
    } else {
        r matches HealthCheck::Report(j) && j@ == refusal_tree("unknown network: "@ + network)
    }
}

/// Starts a health check with what preparing the call for the node's state gave.
pub fn begin_health(info: Result<Call, NodeError>) -> (r: HealthCheck)
    ensures
        health_begun(info, r),
{
    match info {
        Ok(call) => HealthCheck::Ask(call),
        Err(e) => HealthCheck::Report(health_report(&Err(e), 0)),
    }
}

impl Nodes {
    /// Starts a node's health check: `{ reachable, height, targetHeight, synced, restricted,
    /// rttMs }` for a settings screen and the wallet's sync chip. An unknown network is refused
    /// without a call; a call that cannot be prepared reports the node as unreachable; else the
    /// node is to be asked, and [`health_report`] makes the report of its answer.
    pub fn node_health(&self, network: &str) -> (r: HealthCheck)
        ensures
            health_asked(self@, network@, r),
    {
        if !is_network(network) {
            return HealthCheck::Report(refusal(join("unknown network: ", network).as_str()));
        }
        begin_health(self.get_info(network))
    }
}

// What the HTTP library does

/// What a `reqwest` request builder was told, call by call: the client and the address it was made
/// with, the body's text and the credentials it was given since. What `reqwest` makes of that on
/// the wire is not stated: it moves credentials that stand in the address itself into a header,
/// and an address or credentials that it refuses show when the request is sent.
pub uninterp spec fn request_told(b: reqwest::blocking::RequestBuilder) -> Outgoing;

/// `reqwest`'s request in the making.
#[verifier::external_type_specification]
#[verifier::external_body]
pub struct ExRequestBuilder(reqwest::blocking::RequestBuilder);

/// `reqwest::blocking::Client::post`: a POST to the address, to be sent by that client, that has
/// been given neither a body nor credentials yet.
#[verifier::external_body]
fn start_post(client: &reqwest::blocking::Client, url: &str) -> (r:
    reqwest::blocking::RequestBuilder)
    ensures
        request_told(r) == (Outgoing {
            egress: proxy::client_egress(*client),
            method: "POST"@,
            url: url@,
            body: None,
            auth: None,
        }),
{
    client.post(url)
}

/// `RequestBuilder::json`: the value's compact JSON text as the request's body; the rest stays.
#[verifier::external_body]
fn set_json(b: reqwest::blocking::RequestBuilder, body: &Json) -> (r:
    reqwest::blocking::RequestBuilder)
    ensures
        request_told(r) == (Outgoing { body: Some(json::json_text(body@)), ..request_told(b) }),
{
    b.json(&to_value(body))
}

/// `RequestBuilder::basic_auth` with a password: HTTP Basic credentials; the rest stays.
#[verifier::external_body]
fn set_basic_auth(b: reqwest::blocking::RequestBuilder, username: &str, password: &str) -> (r:
    reqwest::blocking::RequestBuilder)
    ensures
        request_told(r) == (Outgoing { auth: Some((username@, password@)), ..request_told(b) }),
{
    b.basic_auth(username, Some(password))
}

} // verus!
