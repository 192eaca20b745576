//! What values stand for: every field as it is.
use vstd::prelude::*;

use crate::call;
use crate::call::Request;
use crate::json::{Json, JsonTree};
use crate::json;
use crate::module;
use crate::node::{NodeConfig, NodeError, NodeFault};
use crate::persist;
use crate::persist::{Save, SaveStep};
use crate::proxy;
use crate::proxy::{ClientPlan, ProxyConfig, ProxyError, ProxyFault};
use crate::registry;
use crate::text;

verus! {

/// The characters of a string that is there.
pub open spec fn chars(s: Option<String>) -> Option<Seq<char>> {
    match s {
        Some(t) => Some(t@),
        None => None,
    }
}

/// A configuration stands for its fields.
pub proof fn law_config_view(c: NodeConfig)
    ensures
        c@.url == c.url@,
        c@.username == chars(c.username),
        c@.password == chars(c.password),
        c@.proxy == chars(c.proxy),
        c@.proxy_required == c.proxy_required,
        c@.timeout_secs == c.timeout_secs,
        c@.trusted == c.trusted,
        c@.source == c.source@,
        c@.mode == c.mode,
{
}

/// A policy and a plan stand for their fields.
pub proof fn law_policy_view(c: ProxyConfig, p: ClientPlan)
    ensures
        c@.proxy == chars(c.proxy),
        c@.required == c.proxy_required,
        c@.timeout_secs == c.timeout_secs,
        p@.proxy == chars(p.proxy),
        p@.timeout_secs == p.timeout_secs,
{
}

/// A request stands for its fields.
pub proof fn law_request_view(q: Request)
    ensures
        q@.url == q.url@,
        q@.body == q.body@,
        q@.route == q.route@,
        q@.json_rpc == q.json_rpc,
        q.auth matches Some((u, p)) ==> q@.auth == Some((u@, p@)),
        q.auth is None ==> q@.auth is None,
{
}

/// An error stands for its kind and what it holds.
pub proof fn law_error_views(t: String, code: i64, r: Result<(), NodeError>)
    ensures
        NodeError::UnknownNetwork(t)@ == NodeFault::UnknownNetwork(t@),
        NodeError::NotConfigured(t)@ == NodeFault::NotConfigured(t@),
        NodeError::Proxy(t)@ == NodeFault::Proxy(t@),
        NodeError::Http(t)@ == NodeFault::Http(t@),
        NodeError::Parse(t)@ == NodeFault::Parse(t@),
        (NodeError::Rpc { code, message: t })@ == (NodeFault::Rpc { code, message: t@ }),
        ProxyError::ProxyRequiredButUnset@ == ProxyFault::RequiredButUnset,
        ProxyError::ProxyUnusable(t)@ == ProxyFault::Unusable(t@),
        ProxyError::Build(t)@ == ProxyFault::Build(t@),
        SaveStep::Stage(t)@ == Save::Stage(t@),
        SaveStep::Publish@ == Save::Publish,
        r is Ok ==> persist::verdict(r) == Ok::<(), NodeFault>(()),
        r matches Err(e) ==> persist::verdict(r) == Err::<(), NodeFault>(e@),
        r is Ok ==> SaveStep::Finished(r)@ == Save::Finished(Ok(())),
        r matches Err(e) ==> SaveStep::Finished(r)@ == Save::Finished(Err(e@)),
{
}

/// A JSON value stands for its parts.
pub proof fn law_json_view(
    b: bool,
    n: i128,
    t: String,
    items: Vec<Json>,
    members: Vec<(String, Json)>,
    i: int,
)
    ensures
        Json::Null@ == JsonTree::Null,
        Json::Bool(b)@ == JsonTree::Bool(b),
        Json::Integer(n)@ == JsonTree::Integer(n as int),
        Json::Real(t)@ == JsonTree::Real(t@),
        Json::Text(t)@ == JsonTree::Text(t@),
        ({
            let a = Json::Array(items)@;
            &&& a is Array && a->Array_0.len() == items@.len()
            &&& 0 <= i < items@.len() ==> a->Array_0[i] == items@[i]@
        }),
        ({
            let o = Json::Object(members)@;
            &&& o is Object && o->Object_0.len() == members@.len()
            &&& 0 <= i < members@.len() ==> o->Object_0[i] == (members@[i].0@, members@[i].1@)
        }),
{
    reveal_with_fuel(json::tree, 2);
}

/// A result stands for what it holds: a text, an answer, an error.
pub proof fn law_result_views(
    t: String,
    host: Option<String>,
    port: Option<u16>,
    length: usize,
    status: u16,
    asked: Vec<String>,
    bytes: Vec<u8>,
    v: Json,
    route: &'static str,
    c: NodeConfig,
    e: NodeError,
    i: int,
)
    ensures
        proxy::parts_text(Ok((t, host, port, length))) == Ok::<
            (Seq<char>, Option<Seq<char>>, Option<u16>, nat),
            Seq<char>,
        >((t@, chars(host), port, length as nat)),
        proxy::parts_text(Err(t)) == Err::<
            (Seq<char>, Option<Seq<char>>, Option<u16>, nat),
            Seq<char>,
        >(t@),
        call::sent_text(Err(t)) == Err::<(u16, Seq<Seq<char>>, Seq<u8>), Seq<char>>(t@),
        ({
            let sent = call::sent_text(Ok((status, asked, bytes)));
            &&& sent matches Ok((s, a, b))
            &&& s == status && b == bytes@ && a.len() == asked@.len()
            &&& 0 <= i < asked@.len() ==> a[i] == asked@[i]@
        }),
        call::outcome(Ok((v, route))) == Ok::<(JsonTree, Seq<char>), NodeFault>((v@, route@)),
        call::outcome(Err(e)) == Err::<(JsonTree, Seq<char>), NodeFault>(e@),
        registry::local_text(Ok(t)) == Ok::<Seq<char>, Seq<char>>(t@),
        registry::local_text(Err(t)) == Err::<Seq<char>, Seq<char>>(t@),
        registry::config_text(Ok(c)) == Ok::<crate::node::NodeRecord, NodeFault>(c@),
        registry::config_text(Err(e)) == Err::<crate::node::NodeRecord, NodeFault>(e@),
        registry::config_read(Ok(c)) == Ok::<crate::node::NodeRecord, Seq<char>>(c@),
        registry::config_read(Err(t)) == Err::<crate::node::NodeRecord, Seq<char>>(t@),
        persist::rendered_text(Ok(t)) == Ok::<Seq<char>, Seq<char>>(t@),
        persist::rendered_text(Err(t)) == Err::<Seq<char>, Seq<char>>(t@),
        persist::done_text(Ok(())) == Ok::<(), Seq<char>>(()),
        persist::done_text(Err(t)) == Err::<(), Seq<char>>(t@),
        module::opt_tree(Some(v)) == Some(v@),
        module::opt_tree(None) is None,
        text::opt_text(host) == chars(host),
        text::texts(asked@).len() == asked@.len(),
        0 <= i < asked@.len() ==> text::texts(asked@)[i] == asked@[i]@,
{
}

} // verus!
