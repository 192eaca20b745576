//! What holds of the library as a whole.
pub mod answers;
pub mod clients;
pub mod records;
pub mod replies;
pub mod requests;
pub mod texts;
pub mod views;

use vstd::prelude::*;

use crate::call;
use crate::call::{Call, Post};
use crate::json;
use crate::json::JsonTree;
use crate::module;
use crate::node;
use crate::node::{NodeError, NodeFault, NodeMode, NodeRecord};
use crate::persist;
use crate::persist::{Disk, Save};
use crate::proxy;
use crate::proxy::{ProxyFault, ProxyPolicy};
use crate::registry;
use crate::saved;
use crate::shape;
use crate::text;

verus! {

// Requests do not leak

/// A policy that requires a proxy and has none gets no client.
pub proof fn law_required_proxy_missing(policy: ProxyPolicy)
    requires
        policy.required,
        policy.target() is None,
    ensures
        proxy::client_plan(policy) == Err::<proxy::Plan, ProxyFault>(ProxyFault::RequiredButUnset),
{
}

/// Wherever a policy names a proxy, required or not, a client goes through that proxy and nothing
/// else, and the proxy is of a supported scheme and one whose rule the HTTP library keeps. Without
/// a proxy it goes direct. No client looks for a proxy in its environment.
pub proof fn law_client_follows_policy(policy: ProxyPolicy)
    ensures
        proxy::client_plan(policy) matches Ok(plan) ==> {
            &&& !plan.egress().ambient
            &&& policy.required ==> policy.target() is Some
            &&& match policy.target() {
                Some(p) => {
                    &&& plan.egress().proxies == seq![p]
                    &&& proxy::rule_taken(p)
                },
                None => plan.egress().proxies == Seq::<Seq<char>>::empty(),
            }
        },
{
}

/// A policy whose proxy is no URL of a supported scheme, or one whose rule the HTTP library would
/// drop, gets no client, required or not.
pub proof fn law_dropped_proxy_is_refused(policy: ProxyPolicy)
    requires
        policy.target() matches Some(p) && !proxy::rule_taken(p),
    ensures
        proxy::client_plan(policy) matches Err(ProxyFault::Unusable(_)),
{
}

/// The timeout of a client is the configured one, or the default where that is zero.
pub proof fn law_client_timeout(policy: ProxyPolicy)
    ensures
        proxy::client_plan(policy) matches Ok(plan) ==> plan.egress().timeout_secs == (
        if policy.timeout_secs > 0 {
            policy.timeout_secs as nat
        } else {
            proxy::default_timeout_secs()
        }),
{
}

/// No request of a network that requires a proxy is ever prepared to be sent in the clear: it is
/// refused, or its client has the configured proxy and no other way.
pub proof fn law_no_request_in_the_clear(
    m: Map<Seq<char>, NodeRecord>,
    network: Seq<char>,
    path: Seq<char>,
    body: JsonTree,
    json_rpc: bool,
    r: Result<Call, NodeError>,
)
    requires
        m.contains_key(network),
        m[network].proxy_required,
        call::prepared_in(m, network, path, body, json_rpc, r),
    ensures
        match m[network].policy().target() {
            None => r matches Err(e) && e@ == NodeFault::Proxy(
                ProxyFault::RequiredButUnset.message(),
            ),
            Some(p) => match r {
                Ok(call) => {
                    &&& call::request_told(call.outgoing).egress.proxies == seq![p]
                    &&& !call::request_told(call.outgoing).egress.ambient
                },
                Err(e) => e@ is Proxy,
            },
        },
{
    law_client_follows_policy(m[network].policy());
    if m[network].policy().target() is None {
        law_required_proxy_missing(m[network].policy());
    }
}

/// The route that a request reports is the one it takes.
pub proof fn law_route_is_true(
    m: Map<Seq<char>, NodeRecord>,
    network: Seq<char>,
    path: Seq<char>,
    body: JsonTree,
    json_rpc: bool,
    call: Call,
)
    requires
        call::prepared_in(m, network, path, body, json_rpc, Ok(call)),
    ensures
        call.request@.route == (if call::request_told(call.outgoing).egress.proxies.len() > 0 {
            "proxied"@
        } else {
            "direct"@
        }),
{
    law_client_follows_policy(m[network].policy());
}

/// A network that is not configured is never called.
pub proof fn law_unconfigured_is_not_called(
    m: Map<Seq<char>, NodeRecord>,
    network: Seq<char>,
    path: Seq<char>,
    body: JsonTree,
    json_rpc: bool,
    r: Result<Call, NodeError>,
)
    requires
        !m.contains_key(network),
        call::prepared_in(m, network, path, body, json_rpc, r),
    ensures
        r matches Err(e) && e@ == NodeFault::NotConfigured(network),
{
}

// Addresses

/// A normalised URL is empty or has a scheme.
pub proof fn law_normalised_has_scheme(url: Seq<char>)
    ensures
        node::normalised_url(url).len() == 0 || text::occurs(node::normalised_url(url), "://"@),
{
    let u = text::trimmed(url);
    if !(u.len() == 0 || text::occurs(u, "://"@)) {
        reveal_strlit("http://");
        reveal_strlit("://");
        let n = "http://"@ + u;
        assert(n.subrange(4, 7) =~= "://"@);
        assert(text::occurs_at(n, "://"@, 4));
    }
}

/// A URL that has a scheme and no white space around it is left exactly as it is.
pub proof fn law_scheme_is_kept(url: Seq<char>)
    requires
        text::occurs(url, "://"@),
        text::trimmed(url) == url,
    ensures
        node::normalised_url(url) == url,
{
}

proof fn lemma_trimmed_start_shape(s: Seq<char>)
    ensures
        text::trimmed_start(s).len() > 0 ==> !text::white_space(text::trimmed_start(s)[0]),
    decreases s.len(),
{
    if s.len() > 0 && text::white_space(s[0]) {
        lemma_trimmed_start_shape(s.drop_first());
    }
}

proof fn lemma_trimmed_end_shape(s: Seq<char>)
    ensures
        text::trimmed_end(s).len() > 0 ==> !text::white_space(text::trimmed_end(s).last())
            && text::trimmed_end(s)[0] == s[0],
        text::trimmed_end(s).len() <= s.len(),
    decreases s.len(),
{
    if s.len() > 0 && text::white_space(s.last()) {
        lemma_trimmed_end_shape(s.drop_last());
    }
}

/// Trimming leaves a text without white space at either end, and such a text alone.
pub proof fn law_trimmed(s: Seq<char>)
    ensures
        text::trimmed(s).len() > 0 ==> {
            &&& !text::white_space(text::trimmed(s)[0])
            &&& !text::white_space(text::trimmed(s).last())
        },
        s.len() > 0 && !text::white_space(s[0]) && !text::white_space(s.last()) ==> text::trimmed(s)
            == s,
        text::trimmed(text::trimmed(s)) == text::trimmed(s),
{
    lemma_trimmed_start_shape(s);
    lemma_trimmed_end_shape(text::trimmed_start(s));
}

/// A normalised URL has no white space around it.
pub proof fn law_normalised_is_trimmed(url: Seq<char>)
    ensures
        text::trimmed(node::normalised_url(url)) == node::normalised_url(url),
{
    let u = text::trimmed(url);
    let n = node::normalised_url(url);
    law_trimmed(url);
    if u.len() > 0 && !text::occurs(u, "://"@) {
        reveal_strlit("http://");
        assert(n[0] == 'h');
        assert(n.last() == u.last());
        law_trimmed(n);
    }
}

/// Normalising a URL twice is normalising it once.
pub proof fn law_normalise_once(url: Seq<char>)
    ensures
        node::normalised_url(node::normalised_url(url)) == node::normalised_url(url),
{
    law_normalised_is_trimmed(url);
    law_normalised_has_scheme(url);
}

/// Slashes at the end of a node's URL do not change the addresses under it.
pub proof fn law_trailing_slash(url: Seq<char>, path: Seq<char>)
    ensures
        call::endpoint_url(url.push('/'), path) == call::endpoint_url(url, path),
{
    assert(url.push('/').drop_last() =~= url);
}

// The registry

/// A configuration that was stored is what is found, its URL normalised; every other network's
/// stays.
pub proof fn law_stored_is_found(
    m: Map<Seq<char>, NodeRecord>,
    network: Seq<char>,
    rec: NodeRecord,
    other: Seq<char>,
)
    ensures
        ({
            let stored = NodeRecord { url: node::normalised_url(rec.url), ..rec };
            let after = m.insert(network, stored);
            &&& after.contains_key(network)
            &&& after[network] == stored
            &&& other != network ==> {
                &&& after.contains_key(other) == m.contains_key(other)
                &&& m.contains_key(other) ==> after[other] == m[other]
            }
        }),
{
}

/// Storing is a full replace: nothing of an earlier configuration stays.
pub proof fn law_store_replaces(
    m: Map<Seq<char>, NodeRecord>,
    network: Seq<char>,
    first: NodeRecord,
    second: NodeRecord,
)
    ensures
        m.insert(network, first).insert(network, second) == m.insert(network, second),
{
    assert(m.insert(network, first).insert(network, second) =~= m.insert(network, second));
}

/// Seeding fills nothing that is there: a record keeps all its fields, but for a URL that is
/// empty; records of other names stay; and no network is left without an endpoint.
pub proof fn law_seeding_keeps(m: Map<Seq<char>, NodeRecord>, network: Seq<char>)
    ensures
        m.contains_key(network) ==> {
            let after = registry::seeded(m);
            &&& after.contains_key(network)
            &&& m[network].url.len() > 0 ==> after[network] == m[network]
            &&& after[network] == (NodeRecord { url: after[network].url, ..m[network] })
            &&& !node::known_network(network) ==> after[network] == m[network]
        },
        node::known_network(network) ==> !registry::lacks_endpoint(registry::seeded(m), network),
        !m.contains_key(network) && !node::known_network(network) ==> !registry::seeded(
            m,
        ).contains_key(network),
{
    lemma_known_has_default(network);
}

/// Exactly the known networks have a default endpoint, and it is not empty.
pub proof fn lemma_known_has_default(network: Seq<char>)
    ensures
        node::known_network(network) <==> registry::default_endpoint(network) is Some,
        registry::default_endpoint(network) matches Some(e) ==> e.0.len() > 0,
{
    let s = node::networks();
    assert(s[0] == "mainnet"@ && s[1] == "stagenet"@ && s[2] == "testnet"@ && s[3] == "regtest"@);
    reveal_strlit("http://node.monerodevs.org:18089");
    reveal_strlit("http://node2.monerodevs.org:38089");
    reveal_strlit("http://node.monerodevs.org:28089");
    reveal_strlit("http://127.0.0.1:18081");
}

/// Seeding twice is seeding once, and the second time reports nothing.
pub proof fn law_seeding_is_idempotent(m: Map<Seq<char>, NodeRecord>)
    ensures
        registry::seeded(registry::seeded(m)) == registry::seeded(m),
        registry::seeds(registry::seeded(m)) == Seq::<Seq<char>>::empty(),
{
    let once = registry::seeded(m);
    assert forall|n: Seq<char>| #[trigger]
        once.contains_key(n) implies registry::seeded(once)[n] == once[n] by {
        law_seeding_keeps(m, n);
        law_seeding_keeps(once, n);
        lemma_known_has_default(n);
    }
    assert(registry::seeded(once) =~= once);
    let f = |n: Seq<char>| registry::lacks_endpoint(once, n);
    let s = node::networks();
    assert forall|i: int| 0 <= i < s.len() implies !f(#[trigger] s[i]) by {
        assert(node::known_network(s[i]));
        law_seeding_keeps(m, s[i]);
    }
    lemma_filter_none(s, f);
    assert(registry::seeds(once) =~= Seq::<Seq<char>>::empty());
}

proof fn lemma_filter_none(s: Seq<Seq<char>>, f: spec_fn(Seq<char>) -> bool)
    requires
        forall|i: int| 0 <= i < s.len() ==> !f(#[trigger] s[i]),
    ensures
        s.filter(f) == Seq::<Seq<char>>::empty(),
    decreases s.len(),
{
    reveal(Seq::filter);
    if s.len() > 0 {
        let t = s.drop_last();
        assert forall|i: int| 0 <= i < t.len() implies !f(#[trigger] t[i]) by {
            assert(t[i] == s[i]);
        }
        lemma_filter_none(t, f);
        assert(!f(s[s.len() - 1]));
    }
}

/// Seeding an empty registry gives each of the four networks its endpoint and reports all four.
pub proof fn law_seeding_a_blank_registry()
    ensures
        registry::seeds(Map::empty()) == node::networks().map_values(
            |n: Seq<char>| n + ".endpoint"@,
        ),
        forall|n: Seq<char>| #[trigger]
            registry::seeded(Map::empty()).contains_key(n) <==> node::known_network(n),
{
    let m = Map::<Seq<char>, NodeRecord>::empty();
    let f = |n: Seq<char>| registry::lacks_endpoint(m, n);
    lemma_filter_all(node::networks(), f);
}

proof fn lemma_filter_all(s: Seq<Seq<char>>, f: spec_fn(Seq<char>) -> bool)
    requires
        forall|i: int| 0 <= i < s.len() ==> f(#[trigger] s[i]),
    ensures
        s.filter(f) == s,
    decreases s.len(),
{
    reveal(Seq::filter);
    if s.len() > 0 {
        let t = s.drop_last();
        assert forall|i: int| 0 <= i < t.len() implies f(#[trigger] t[i]) by {
            assert(t[i] == s[i]);
        }
        lemma_filter_all(t, f);
        assert(f(s[s.len() - 1]));
        assert(s =~= t.push(s.last()));
    } else {
        assert(s.filter(f) =~= s);
    }
}

/// Whether a registry holds known networks only.
pub open spec fn known_only(m: Map<Seq<char>, NodeRecord>) -> bool {
    forall|n: Seq<char>| #[trigger] m.contains_key(n) ==> node::known_network(n)
}

/// A registry of known networks stays one: by storing (which a known network is needed for), by
/// removing and by seeding.
pub proof fn law_registry_stays_known(
    m: Map<Seq<char>, NodeRecord>,
    network: Seq<char>,
    rec: NodeRecord,
)
    requires
        known_only(m),
    ensures
        node::known_network(network) ==> known_only(m.insert(network, rec)),
        known_only(m.remove(network)),
        known_only(registry::seeded(m)),
        known_only(Map::empty()),
{
}

/// A stored URL has no white space around it, and unless it is empty it has a scheme.
pub open spec fn urls_have_schemes(m: Map<Seq<char>, NodeRecord>) -> bool {
    forall|n: Seq<char>| #[trigger]
        m.contains_key(n) ==> {
            &&& text::trimmed(m[n].url) == m[n].url
            &&& m[n].url.len() == 0 || text::occurs(m[n].url, "://"@)
        }
}

/// A registry whose URLs are trimmed and have schemes stays one: by storing, removing and seeding.
pub proof fn law_urls_keep_schemes(
    m: Map<Seq<char>, NodeRecord>,
    network: Seq<char>,
    rec: NodeRecord,
)
    requires
        urls_have_schemes(m),
    ensures
        urls_have_schemes(
            m.insert(network, NodeRecord { url: node::normalised_url(rec.url), ..rec }),
        ),
        urls_have_schemes(m.remove(network)),
        urls_have_schemes(registry::seeded(m)),
        urls_have_schemes(Map::empty()),
{
    law_normalised_has_scheme(rec.url);
    law_normalised_is_trimmed(rec.url);
    assert forall|n: Seq<char>| #[trigger] registry::seeded(m).contains_key(n) implies {
        let url = registry::seeded(m)[n].url;
        &&& text::trimmed(url) == url
        &&& url.len() == 0 || text::occurs(url, "://"@)
    } by {
        lemma_default_has_scheme(n);
        lemma_known_has_default(n);
    }
}

proof fn lemma_default_has_scheme(network: Seq<char>)
    ensures
        registry::default_endpoint(network) matches Some(e) ==> text::occurs(e.0, "://"@)
            && text::trimmed(e.0) == e.0,
{
    reveal_strlit("://");
    reveal_strlit("http://node.monerodevs.org:18089");
    reveal_strlit("http://node2.monerodevs.org:38089");
    reveal_strlit("http://node.monerodevs.org:28089");
    reveal_strlit("http://127.0.0.1:18081");
    if let Some(e) = registry::default_endpoint(network) {
        assert(e.0.subrange(4, 7) =~= "://"@);
        assert(text::occurs_at(e.0, "://"@, 4));
        assert(e.0[0] == 'h' && '0' <= e.0.last() <= '9');
        law_trimmed(e.0);
    }
}

/// Only an empty registry is unconfigured, and one is configured where every record has a URL.
pub proof fn law_status_tells_apart(m: Map<Seq<char>, NodeRecord>)
    ensures
        registry::state_text(m) == "unconfigured"@ <==> m.dom() == Set::<Seq<char>>::empty(),
        registry::state_text(m) == "configured"@ <==> m.dom() != Set::<Seq<char>>::empty() && forall|
            n: Seq<char>,
        | #[trigger]
            m.contains_key(n) ==> m[n].url.len() > 0,
        registry::state_text(m) == "unready"@ <==> exists|n: Seq<char>| #[trigger]
            m.contains_key(n) && m[n].url.len() == 0,
{
    reveal_strlit("unconfigured");
    reveal_strlit("configured");
    reveal_strlit("unready");
    assert("unconfigured"@.len() == 12 && "configured"@.len() == 10 && "unready"@.len() == 7);
}

/// A registry of known networks is configured once it is seeded.
pub proof fn law_seeded_is_configured(m: Map<Seq<char>, NodeRecord>)
    requires
        known_only(m),
    ensures
        registry::state_text(registry::seeded(m)) == "configured"@,
{
    let after = registry::seeded(m);
    let s = node::networks();
    assert(s[0] == "mainnet"@);
    assert(node::known_network("mainnet"@));
    assert(after.contains_key("mainnet"@));
    assert forall|n: Seq<char>| #[trigger] after.contains_key(n) implies after[n].url.len() > 0 by {
        law_seeding_keeps(m, n);
    }
}

/// The source of a registry that was only seeded is `default`; as soon as a record of source
/// `external` is stored, it is `external`.
pub proof fn law_source_of_registry(
    m: Map<Seq<char>, NodeRecord>,
    network: Seq<char>,
    rec: NodeRecord,
)
    ensures
        registry::source_text(registry::seeded(Map::empty())) == "default"@,
        rec.source == "external"@ ==> registry::source_text(m.insert(network, rec))
            == "external"@,
{
    reveal_strlit("default");
    reveal_strlit("external");
    assert("default"@.len() == 7 && "external"@.len() == 8);
    let blank = registry::seeded(Map::empty());
    assert forall|n: Seq<char>| #[trigger] blank.contains_key(n) implies blank[n].source
        != "external"@ by {
        lemma_known_has_default(n);
    }
    let s = node::networks();
    assert(s[0] == "mainnet"@);
    assert(blank.contains_key("mainnet"@));
    assert(m.insert(network, rec).contains_key(network));
}

// Local mode

/// In local mode a wallet dials the local node: trusted, direct, and refused by no proxy policy.
/// In remote mode it dials what is stored.
pub proof fn law_effective(rec: NodeRecord, local: Result<Seq<char>, Seq<char>>)
    ensures
        rec.mode == NodeMode::Remote ==> registry::effective_record(rec, local) == Ok::<
            NodeRecord,
            NodeFault,
        >(rec),
        rec.mode == NodeMode::Local && local is Ok ==> {
            &&& registry::effective_record(rec, local) matches Ok(eff)
            &&& eff.url == local->Ok_0
            &&& eff.trusted
            &&& call::route_text(eff) == "direct"@
            &&& proxy::client_plan(eff.policy()) matches Ok(plan)
            &&& plan.egress().proxies == Seq::<Seq<char>>::empty()
        },
        rec.mode == NodeMode::Local && local is Err ==> registry::effective_record(rec, local)
            is Err,
{
}

/// In local mode a request goes to the local node, directly, whatever the stored configuration
/// says of URL and proxy.
pub proof fn law_local_request_goes_local(
    m: Map<Seq<char>, NodeRecord>,
    network: Seq<char>,
    url: Seq<char>,
    path: Seq<char>,
    body: JsonTree,
    json_rpc: bool,
    call: Call,
)
    requires
        m.contains_key(network),
        m[network].mode == NodeMode::Local,
        module::dialled(m, network, Ok(url), path, body, json_rpc, Ok(call)),
    ensures
        call.request@.url == call::endpoint_url(url, path),
        call.request@.route == "direct"@,
        call::request_told(call.outgoing).url == call::endpoint_url(url, path),
        call::request_told(call.outgoing).egress.proxies == Seq::<Seq<char>>::empty(),
        !call::request_told(call.outgoing).egress.ambient,
{
}

/// What is dialled for a network in remote mode is what is stored, so that all that holds of
/// requests for stored records holds of it.
pub proof fn law_remote_request_is_stored(
    m: Map<Seq<char>, NodeRecord>,
    network: Seq<char>,
    local: Result<Seq<char>, Seq<char>>,
    path: Seq<char>,
    body: JsonTree,
    json_rpc: bool,
    r: Result<Call, NodeError>,
)
    requires
        m.contains_key(network) ==> m[network].mode == NodeMode::Remote,
    ensures
        module::dialled(m, network, local, path, body, json_rpc, r) <==> call::prepared_in(
            m,
            network,
            path,
            body,
            json_rpc,
            r,
        ),
{
}

// Replies

/// A reply to a call says `ok` exactly where the call was answered, and then holds the result and
/// the route; else it holds the error in words.
pub proof fn law_reply_shape(r: Result<(JsonTree, Seq<char>), NodeFault>)
    ensures
        module::call_tree(r).get("ok"@) == Some(JsonTree::Bool(r is Ok)),
        match r {
            Ok((result, route)) => {
                &&& module::call_tree(r).get("result"@) == Some(result)
                &&& module::call_tree(r).get("route"@) == Some(JsonTree::Text(route))
                &&& module::call_tree(r).get("error"@) is None
            },
            Err(fault) => {
                &&& module::call_tree(r).get("error"@) == Some(JsonTree::Text(fault.message()))
                &&& module::call_tree(r).get("result"@) is None
            },
        },
{
    reveal_with_fuel(json::member, 4);
    reveal_strlit("ok");
    reveal_strlit("result");
    reveal_strlit("route");
    reveal_strlit("error");
    assert("ok"@.len() == 2 && "result"@.len() == 6 && "route"@.len() == 5 && "error"@.len() == 5);
    assert("route"@[0] == 'r' && "error"@[0] == 'e');
}

/// A health report never fails: it says `ok`, and whether the node was reached.
pub proof fn law_health_reports(asked: Result<(JsonTree, Seq<char>), NodeFault>, rtt_ms: u64)
    ensures
        call::health_tree(asked, rtt_ms).get("ok"@) == Some(JsonTree::Bool(true)),
        call::health_tree(asked, rtt_ms).get("reachable"@) == Some(JsonTree::Bool(asked is Ok)),
{
    reveal_with_fuel(json::member, 5);
    reveal_strlit("ok");
    reveal_strlit("reachable");
    reveal_strlit("height");
    reveal_strlit("error");
    assert("ok"@.len() == 2 && "reachable"@.len() == 9 && "height"@.len() == 6 && "error"@.len()
        == 5);
}

/// The health reply for a known network tells the network's mode; it tells of the local node in
/// local mode only; and it leaves the report itself as it was.
pub proof fn law_health_tells_mode(
    m: Map<Seq<char>, NodeRecord>,
    network: Seq<char>,
    asked: Result<(JsonTree, Seq<char>), NodeFault>,
    rtt_ms: u64,
    local: Option<JsonTree>,
    key: Seq<char>,
)
    requires
        node::known_network(network),
    ensures
        ({
            let report = call::health_tree(asked, rtt_ms);
            let shown = module::health_shown(m, network, report, local);
            let mode = module::mode_in(m, network);
            &&& shown.get("mode"@) == Some(JsonTree::Text(mode.name_text()))
            &&& shown.get("local"@) == if mode == NodeMode::Local {
                local
            } else {
                None
            }
            &&& key != "mode"@ && key != "local"@ ==> shown.get(key) == report.get(key)
        }),
{
    reveal_strlit("mode");
    reveal_strlit("local");
    assert("mode"@.len() == 4 && "local"@.len() == 5);
    shape::lemma_health_readable(asked, rtt_ms);
    let members = call::health_tree(asked, rtt_ms)->Object_0;
    let mode = module::mode_in(m, network);
    let named = ("mode"@, JsonTree::Text(mode.name_text()));
    json::lemma_member_placed(members, named, "mode"@);
    json::lemma_member_placed(members, named, "local"@);
    json::lemma_member_placed(members, named, key);
    json::lemma_member_absent(members, "local"@);
    if let Some(l) = local {
        shape::lemma_placed_readable(members, named, json::max_depth());
        let with_mode = json::placed(members, named);
        json::lemma_member_placed(with_mode, ("local"@, l), "mode"@);
        json::lemma_member_placed(with_mode, ("local"@, l), "local"@);
        json::lemma_member_placed(with_mode, ("local"@, l), key);
    }
}

/// The health reply and what is said of the local node read back as what was meant, as long as the
/// local node's own status does.
pub proof fn law_health_reads_back(
    m: Map<Seq<char>, NodeRecord>,
    network: Seq<char>,
    asked: Result<(JsonTree, Seq<char>), NodeFault>,
    rtt_ms: u64,
    local: Result<Seq<char>, Seq<char>>,
    status: Option<JsonTree>,
)
    requires
        status matches Some(s) ==> json::readable(s, json::max_depth() - 2),
    ensures
        ({
            let report = call::health_tree(asked, rtt_ms);
            let node = module::local_tree(network, local, status);
            &&& json::readable(node, json::max_depth())
            &&& json::readable(
                module::health_shown(m, network, report, Some(node)),
                json::max_depth(),
            )
            &&& json::readable(module::health_shown(m, network, report, None), json::max_depth())
        }),
{
    let node = module::local_tree(network, local, status);
    shape::lemma_local_readable(network, local, status, json::max_depth() - 1);
    json::lemma_readable_deeper(node, json::max_depth() - 1, json::max_depth());
    shape::lemma_health_shown_readable(m, network, asked, rtt_ms, Some(node));
    shape::lemma_health_shown_readable(m, network, asked, rtt_ms, None);
}

/// The JSON of a configuration holds each of its fields under the field's name, and leaves out
/// the credentials and the proxy that are not there.
pub proof fn law_config_json_holds_fields(rec: NodeRecord)
    ensures
        rec.json().get("url"@) == Some(JsonTree::Text(rec.url)),
        rec.json().get("username"@) == shape::opt_text_tree(rec.username),
        rec.json().get("password"@) == shape::opt_text_tree(rec.password),
        rec.json().get("proxy"@) == shape::opt_text_tree(rec.proxy),
        rec.json().get("proxyRequired"@) == Some(JsonTree::Bool(rec.proxy_required)),
        rec.json().get("timeoutSecs"@) == Some(JsonTree::Integer(rec.timeout_secs as int)),
        rec.json().get("trusted"@) == Some(JsonTree::Bool(rec.trusted)),
        rec.json().get("source"@) == Some(JsonTree::Text(rec.source)),
        rec.json().get("mode"@) == Some(JsonTree::Text(rec.mode.name_text())),
{
    shape::lemma_record_fields(rec);
}

/// A configuration's JSON tells it apart from every other configuration.
pub proof fn law_config_json_tells_apart(a: NodeRecord, b: NodeRecord)
    requires
        a.json() == b.json(),
    ensures
        a == b,
{
    law_config_json_holds_fields(a);
    law_config_json_holds_fields(b);
    reveal_strlit("remote");
    reveal_strlit("local");
    assert("remote"@.len() == 6 && "local"@.len() == 5);
}

/// An answer that holds an error is an error, whatever else it holds; one without is its result,
/// handed on as it came.
pub proof fn law_rpc_answers(v: JsonTree)
    ensures
        v.get("error"@) is Some ==> call::rpc_outcome(v) matches Err(NodeFault::Rpc { .. }),
        v.get("error"@) is None && v.get("result"@) is Some ==> call::rpc_outcome(v) == Ok::<
            JsonTree,
            NodeFault,
        >(v.get("result"@)->0),
        call::rpc_outcome(v) is Ok ==> v.get("error"@) is None,
{
}

/// A challenge for HTTP Digest is never passed off as an answer, whatever its body holds; and any
/// other answer means what its body says, whatever its status.
pub proof fn law_digest_challenge_is_an_error(
    request: Post,
    status: u16,
    asked: Seq<Seq<char>>,
    bytes: Seq<u8>,
)
    ensures
        call::digest_challenge(status, asked) ==> request.answer(Ok((status, asked, bytes)))
            == Err::<(JsonTree, Seq<char>), NodeFault>(NodeFault::Http(call::challenge_text())),
        !call::digest_challenge(status, asked) ==> request.answer(Ok((status, asked, bytes)))
            == request.answer(Ok((200, Seq::empty(), bytes))),
{
}

// Saving

/// A save leaves the registry's file as it was or holding the whole text, however its actions go
/// and whatever a failed write leaves behind; and it reports success exactly where the whole text
/// is in place.
pub proof fn law_save_is_atomic(
    body: Seq<char>,
    disk: Disk,
    wrote: Result<(), Seq<char>>,
    renamed: Result<(), Seq<char>>,
    leftover: Option<Seq<char>>,
)
    ensures
        ({
            let first = persist::first_step(true, Ok(body));
            let disk1 = first.effect(disk, wrote, leftover);
            let second = first.after(wrote);
            let disk2 = second.effect(disk1, renamed, leftover);
            let third = second.after(renamed);
            &&& disk1.target == disk.target
            &&& disk2.target == disk.target || disk2.target == Some(body)
            &&& third matches Save::Finished(r)
            &&& r is Ok <==> wrote is Ok && renamed is Ok
            &&& r is Ok ==> disk2.target == Some(body)
            &&& r is Err ==> disk2.target == disk.target
        }),
{
}

/// What is saved and loaded again is the same registry: every network, and every field of its
/// configuration.
pub proof fn law_saved_loads_back(m: Map<Seq<char>, NodeRecord>, file: Seq<char>)
    requires
        m.dom().finite(),
        json::json_of_text(file) == Some(saved::registry_tree(m)),
    ensures
        saved::saved_registry(Some(file)) == m,
{
    registry::lemma_listing(m.dom());
    saved::lemma_registry_reads_back(m);
}

/// After a save that reports success the registry's file loads as the registry that was saved;
/// after one that does not, as it did before.
pub proof fn law_save_then_load(
    m: Map<Seq<char>, NodeRecord>,
    body: Seq<char>,
    disk: Disk,
    wrote: Result<(), Seq<char>>,
    renamed: Result<(), Seq<char>>,
    leftover: Option<Seq<char>>,
)
    requires
        m.dom().finite(),
        json::json_of_text(body) == Some(saved::registry_tree(m)),
    ensures
        ({
            let first = persist::first_step(true, Ok(body));
            let disk1 = first.effect(disk, wrote, leftover);
            let second = first.after(wrote);
            let disk2 = second.effect(disk1, renamed, leftover);
            let third = second.after(renamed);
            &&& third matches Save::Finished(r)
            &&& r is Ok ==> saved::saved_registry(disk2.target) == m
            &&& r is Err ==> saved::saved_registry(disk2.target) == saved::saved_registry(
                disk.target,
            )
        }),
{
    law_save_is_atomic(body, disk, wrote, renamed, leftover);
    law_saved_loads_back(m, body);
}

} // verus!
