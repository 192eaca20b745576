//! Networks, the configuration of one network's node, and what can go wrong with it.
use vstd::prelude::*;

use crate::json;
use crate::json::{add_member, object, Json, JsonTree};
use crate::proxy::{ProxyConfig, ProxyPolicy};
use crate::text;
use crate::text::{contains, copy_opt, decimal_text, join, join3, same, trim};

verus! {

// Networks

/// The networks a wallet may talk to. A fixed set: a monerod is one of these, and any other name
/// is a configuration error, not a new network.
pub const NETWORKS: [&'static str; 4] = ["mainnet", "stagenet", "testnet", "regtest"];

/// The names of the networks.
pub open spec fn networks() -> Seq<Seq<char>> {
    seq!["mainnet"@, "stagenet"@, "testnet"@, "regtest"@]
}

/// Whether `name` is one of the fixed set of networks.
pub open spec fn known_network(name: Seq<char>) -> bool {
    networks().contains(name)
}

/// Whether `name` is one of the fixed set of networks.
pub fn is_network(name: &str) -> (r: bool)
    ensures
        r == known_network(name@),
{
    let r = same(name, NETWORKS[0]) || same(name, NETWORKS[1]) || same(name, NETWORKS[2]) || same(
        name,
        NETWORKS[3],
    );
    proof {
        let s = networks();
        assert(s[0] == "mainnet"@ && s[1] == "stagenet"@ && s[2] == "testnet"@ && s[3]
            == "regtest"@);
    }
    r
}

// One network's configuration

/// Who runs the node: somebody else, or the local node module.
#[derive(Clone, Copy, Debug, PartialEq, Eq, Structural)]
pub enum NodeMode {
    Remote,
    Local,
}

impl NodeMode {
    /// The name of the mode.
    pub open spec fn name_text(self) -> Seq<char> {
        match self {
            NodeMode::Remote => "remote"@,
            NodeMode::Local => "local"@,
        }
    }

    /// The mode that a configuration asks for: remote unless it says local.
    pub fn of(name: Option<&str>) -> (r: NodeMode)
        ensures
            r == NodeMode::Local <==> (name matches Some(n) && n@ == "local"@),
    {
        match name {
            Some(n) => if same(n, "local") {
                NodeMode::Local
            } else {
                NodeMode::Remote
            },
            None => NodeMode::Remote,
        }
    }

    /// The name of the mode.
    pub fn name(self) -> (r: &'static str)
        ensures
            r@ == self.name_text(),
    {
        match self {
            NodeMode::Remote => "remote",
            NodeMode::Local => "local",
        }
    }
}

/// One network's transport configuration.
#[derive(Debug, PartialEq, Eq)]
pub struct NodeConfig {
    pub url: String,
    pub username: Option<String>,
    pub password: Option<String>,
    pub proxy: Option<String>,
    pub proxy_required: bool,
    pub timeout_secs: u64,
    /// A node on the loopback may be trusted; a remote node must not be. Advisory here: the
    /// wallet enforces it.
    pub trusted: bool,
    /// `default` (seeded by [`Nodes::init_defaults`]) or `external` (a user interface wrote it).
    pub source: String,
    pub mode: NodeMode,
}

/// The mathematical form of a [`NodeConfig`].
pub struct NodeRecord {
    pub url: Seq<char>,
    pub username: Option<Seq<char>>,
    pub password: Option<Seq<char>>,
    pub proxy: Option<Seq<char>>,
    pub proxy_required: bool,
    pub timeout_secs: u64,
    pub trusted: bool,
    pub source: Seq<char>,
    pub mode: NodeMode,
}

impl View for NodeConfig {
    type V = NodeRecord;

    open spec fn view(&self) -> NodeRecord {
        NodeRecord {
            url: self.url@,
            username: text::opt_text(self.username),
            password: text::opt_text(self.password),
            proxy: text::opt_text(self.proxy),
            proxy_required: self.proxy_required,
            timeout_secs: self.timeout_secs,
            trusted: self.trusted,
            source: self.source@,
            mode: self.mode,
        }
    }
}

impl Clone for NodeConfig {
    fn clone(&self) -> (r: Self)
        ensures
            r@ == self@,
    {
        NodeConfig {
            url: self.url.clone(),
            username: copy_opt(&self.username),
            password: copy_opt(&self.password),
            proxy: copy_opt(&self.proxy),
            proxy_required: self.proxy_required,
            timeout_secs: self.timeout_secs,
            trusted: self.trusted,
            source: self.source.clone(),
            mode: self.mode,
        }
    }
}

/// The request timeout where a configuration gives none: well under the twenty seconds after
/// which a caller gives up, so that a dead node shows as unreachable before that.
pub fn default_timeout() -> (r: u64)
    ensures
        r == 8,
{
    8
}

/// The source of a configuration that names none.
pub fn source_default() -> (r: String)
    ensures
        r@ == "external"@,
{
    "external".to_owned()
}

impl NodeRecord {
    /// The outbound policy of the record.
    pub open spec fn policy(self) -> ProxyPolicy {
        ProxyPolicy {
            proxy: self.proxy,
            required: self.proxy_required,
            timeout_secs: self.timeout_secs,
        }
    }

    /// The record as JSON, its members by name; absent credentials and proxies are left out.
    pub open spec fn json(self) -> JsonTree {
        JsonTree::Object(
            seq![("mode"@, JsonTree::Text(self.mode.name_text()))] + opt_member(
                "password"@,
                self.password,
            ) + opt_member("proxy"@, self.proxy) + seq![
                ("proxyRequired"@, JsonTree::Bool(self.proxy_required)),
                ("source"@, JsonTree::Text(self.source)),
                ("timeoutSecs"@, JsonTree::Integer(self.timeout_secs as int)),
                ("trusted"@, JsonTree::Bool(self.trusted)),
                ("url"@, JsonTree::Text(self.url)),
            ] + opt_member("username"@, self.username),
        )
    }
}

/// A member for a string that is there, none for one that is not.
pub open spec fn opt_member(name: Seq<char>, value: Option<Seq<char>>) -> Seq<
    (Seq<char>, JsonTree),
> {
    match value {
        Some(t) => seq![(name, JsonTree::Text(t))],
        None => Seq::empty(),
    }
}

fn add_opt_member(members: &mut Vec<(String, Json)>, name: &str, value: &Option<String>)
    ensures
        json::member_trees(final(members)@) == json::member_trees(old(members)@)
            + opt_member(name@, text::opt_text(*value)),
{
    let ghost start = json::member_trees(members@);
    match value {
        Some(t) => {
            add_member(members, name, Json::Text(t.clone()));
            assert(json::member_trees(members@) =~= start + opt_member(
                name@,
                text::opt_text(*value),
            ));
        },
        None => {
            assert(start =~= start + opt_member(name@, text::opt_text(*value)));
        },
    }
}

impl NodeConfig {
    /// The outbound policy of the configuration.
    pub fn proxy_cfg(&self) -> (r: ProxyConfig)
        ensures
            r@ == self@.policy(),
    {
        ProxyConfig::new(copy_opt(&self.proxy), self.proxy_required, self.timeout_secs)
    }

    /// The configuration as JSON.
    pub fn to_json(&self) -> (r: Json)
        ensures
            r@ == self@.json(),
    {
        let mut m: Vec<(String, Json)> = Vec::new();
        add_member(&mut m, "mode", Json::Text(self.mode.name().to_owned()));
        add_opt_member(&mut m, "password", &self.password);
        add_opt_member(&mut m, "proxy", &self.proxy);
        add_member(&mut m, "proxyRequired", Json::Bool(self.proxy_required));
        add_member(&mut m, "source", Json::Text(self.source.clone()));
        add_member(&mut m, "timeoutSecs", Json::Integer(self.timeout_secs as i128));
        add_member(&mut m, "trusted", Json::Bool(self.trusted));
        add_member(&mut m, "url", Json::Text(self.url.clone()));
        add_opt_member(&mut m, "username", &self.username);
        assert(json::member_trees(m@) =~= self@.json()->Object_0);
        object(m)
    }
}

// URLs

/// A URL with a scheme: the text without surrounding white space, behind `http://` where it is
/// not empty and has no `://`.
pub open spec fn normalised_url(url: Seq<char>) -> Seq<char> {
    let u = text::trimmed(url);
    if u.len() == 0 || text::occurs(u, "://"@) {
        u
    } else {
        "http://"@ + u
    }
}

/// Gives a URL a scheme if it has none: `node.example:38089` becomes
/// `http://node.example:38089`. Left alone otherwise, `https://` and any other scheme included.
pub fn normalise_url(url: &str) -> (r: String)
    ensures
        r@ == normalised_url(url@),
{
    let u = trim(url);
    if u.is_empty() || contains(u, "://") {
        u.to_owned()
    } else {
        join("http://", u)
    }
}

// Errors

/// Why a request was not made or not answered.
#[derive(Debug)]
pub enum NodeError {
    UnknownNetwork(String),
    NotConfigured(String),
    Proxy(String),
    Http(String),
    Rpc { code: i64, message: String },
    Parse(String),
}

/// The mathematical form of a [`NodeError`].
pub enum NodeFault {
    UnknownNetwork(Seq<char>),
    NotConfigured(Seq<char>),
    Proxy(Seq<char>),
    Http(Seq<char>),
    Rpc { code: i64, message: Seq<char> },
    Parse(Seq<char>),
}

impl View for NodeError {
    type V = NodeFault;

    open spec fn view(&self) -> NodeFault {
        match *self {
            NodeError::UnknownNetwork(t) => NodeFault::UnknownNetwork(t@),
            NodeError::NotConfigured(t) => NodeFault::NotConfigured(t@),
            NodeError::Proxy(t) => NodeFault::Proxy(t@),
            NodeError::Http(t) => NodeFault::Http(t@),
            NodeError::Rpc { code, message } => NodeFault::Rpc { code, message: message@ },
            NodeError::Parse(t) => NodeFault::Parse(t@),
        }
    }
}

impl NodeFault {
    /// What a user reads of it.
    pub open spec fn message(self) -> Seq<char> {
        match self {
            NodeFault::UnknownNetwork(t) => "unknown network: "@ + t,
            NodeFault::NotConfigured(t) => "network not configured: "@ + t,
            NodeFault::Proxy(t) => "proxy: "@ + t,
            NodeFault::Http(t) => "http: "@ + t,
            NodeFault::Rpc { code, message } => "rpc error "@ + text::decimal(code as int) + ": "@
                + message,
            NodeFault::Parse(t) => "parse: "@ + t,
        }
    }
}

impl NodeError {
    /// What a user reads of it.
    pub fn message(&self) -> (r: String)
        ensures
            r@ == self@.message(),
    {
        match self {
            NodeError::UnknownNetwork(t) => join("unknown network: ", t.as_str()),
            NodeError::NotConfigured(t) => join("network not configured: ", t.as_str()),
            NodeError::Proxy(t) => join("proxy: ", t.as_str()),
            NodeError::Http(t) => join("http: ", t.as_str()),
            NodeError::Rpc { code, message } => {
                let head = join3("rpc error ", decimal_text(*code).as_str(), ": ");
                join(head.as_str(), message.as_str())
            },
            NodeError::Parse(t) => join("parse: ", t.as_str()),
        }
    }
}

} // verus!
