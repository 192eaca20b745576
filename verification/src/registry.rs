//! The per-network registry of node configurations, keyed by network name.
use vstd::prelude::*;

use crate::json;
use crate::json::{add_member, object, text_array, Json, JsonTree};
use crate::node;
use crate::node::{
    default_timeout, is_network, normalise_url, NodeConfig, NodeError, NodeFault, NodeMode,
    NodeRecord,
};
use crate::saved;
use crate::shape;
use crate::text;
use crate::text::{comes_before, join, same};

verus! {

// A map as a sequence of entries in the order of their names

/// The named records that a sequence of entries holds.
pub open spec fn records(entries: Seq<(String, NodeConfig)>) -> Seq<(Seq<char>, NodeRecord)> {
    entries.map_values(|e: (String, NodeConfig)| (e.0@, e.1@))
}

/// The names in a sequence of records.
pub open spec fn names(s: Seq<(Seq<char>, NodeRecord)>) -> Seq<Seq<char>> {
    s.map_values(|e: (Seq<char>, NodeRecord)| e.0)
}

/// The map that a sequence of records makes, a later record replacing an earlier one of its name.
pub open spec fn loaded(s: Seq<(Seq<char>, NodeRecord)>) -> Map<Seq<char>, NodeRecord>
    decreases s.len(),
{
    if s.len() == 0 {
        Map::empty()
    } else {
        loaded(s.drop_last()).insert(s.last().0, s.last().1)
    }
}

/// Whether `listed` holds the names in `set`, each once and in order.
pub open spec fn is_listing(listed: Seq<Seq<char>>, set: Set<Seq<char>>) -> bool {
    &&& text::in_order(listed)
    &&& forall|n: Seq<char>| #[trigger] listed.contains(n) <==> set.contains(n)
}

/// The names in `set`, in order.
pub open spec fn listing(set: Set<Seq<char>>) -> Seq<Seq<char>> {
    choose|listed: Seq<Seq<char>>| is_listing(listed, set)
}

/// Only one sequence lists a set.
pub proof fn lemma_listing_unique(a: Seq<Seq<char>>, b: Seq<Seq<char>>, set: Set<Seq<char>>)
    requires
        is_listing(a, set),
        is_listing(b, set),
    ensures
        a == b,
    decreases a.len(),
{
    if a.len() == 0 {
        if b.len() > 0 {
            assert(b.contains(b[0]));
            assert(a.contains(b[0]));
        }
        assert(a =~= b);
    } else {
        let n = a.last();
        assert(a.contains(n));
        assert(b.contains(n));
        let m = b.last();
        assert(b.contains(m));
        assert(a.contains(m));
        let i = choose|i: int| 0 <= i < a.len() && a[i] == m;
        let j = choose|j: int| 0 <= j < b.len() && b[j] == n;
        if n != m {
            assert(text::before(m, n));
            assert(text::before(n, m));
            text::lemma_before_transitive(m, n, m);
            text::lemma_before_irreflexive(m);
        }
        assert forall|x: Seq<char>| #[trigger]
            a.drop_last().contains(x) <==> set.remove(n).contains(x) by {
            lemma_last_is_once(a, x);
        }
        assert forall|x: Seq<char>| #[trigger]
            b.drop_last().contains(x) <==> set.remove(n).contains(x) by {
            lemma_last_is_once(b, x);
        }
        lemma_listing_unique(a.drop_last(), b.drop_last(), set.remove(n));
        assert(a =~= a.drop_last().push(n));
        assert(b =~= b.drop_last().push(n));
    }
}

proof fn lemma_last_is_once(a: Seq<Seq<char>>, x: Seq<char>)
    requires
        a.len() > 0,
        text::in_order(a),
    ensures
        a.drop_last().contains(x) <==> a.contains(x) && x != a.last(),
{
    if a.drop_last().contains(x) {
        let i = choose|i: int| 0 <= i < a.drop_last().len() && a.drop_last()[i] == x;
        assert(a[i] == x);
        assert(text::before(a[i], a[a.len() - 1]));
        text::lemma_before_irreflexive(x);
    }
    if a.contains(x) && x != a.last() {
        let i = choose|i: int| 0 <= i < a.len() && a[i] == x;
        assert(a.drop_last()[i] == x);
    }
}

/// Every finite set has a listing.
pub proof fn lemma_listing(set: Set<Seq<char>>)
    requires
        set.finite(),
    ensures
        is_listing(listing(set), set),
    decreases set.len(),
{
    if set.is_empty() {
        let none = Seq::<Seq<char>>::empty();
        assert(is_listing(none, set));
    } else {
        let n = set.choose();
        let rest = set.remove(n);
        lemma_listing(rest);
        let names = listing(rest);
        let members = names.map_values(|x: Seq<char>| (x, JsonTree::Null));
        assert(json::member_names(members) =~= names);
        assert(names.contains(n) <==> rest.contains(n));
        assert(json::readable(JsonTree::Object(members), 1)) by {
            assert forall|i: int| 0 <= i < members.len() implies json::readable(
                (#[trigger] members[i]).1,
                0,
            ) by {}
        }
        shape::lemma_placed_readable(members, (n, JsonTree::Null), 1);
        let all = json::member_names(json::placed(members, (n, JsonTree::Null)));
        assert forall|x: Seq<char>| #[trigger] all.contains(x) <==> set.contains(x) by {
            assert(names.contains(x) <==> rest.contains(x));
        }
        assert(is_listing(all, set));
    }
}

/// What is under a name that stands in order: the one record of that name.
proof fn lemma_loaded(s: Seq<(Seq<char>, NodeRecord)>)
    requires
        text::in_order(names(s)),
    ensures
        forall|i: int|
            0 <= i < s.len() ==> loaded(s).contains_key(#[trigger] s[i].0) && loaded(s)[s[i].0]
                == s[i].1,
        forall|n: Seq<char>| #[trigger] loaded(s).contains_key(n) <==> names(s).contains(n),
        is_listing(names(s), loaded(s).dom()),
        names(s) == listing(loaded(s).dom()),
    decreases s.len(),
{
    let ns = names(s);
    if s.len() > 0 {
        let t = s.drop_last();
        assert(names(t) =~= ns.drop_last());
        lemma_loaded(t);
        assert forall|i: int| 0 <= i < s.len() implies loaded(s).contains_key(#[trigger] s[i].0)
            && loaded(s)[s[i].0] == s[i].1 by {
            if i < s.len() - 1 {
                assert(t[i] == s[i]);
                assert(ns[i] == s[i].0 && ns[s.len() - 1] == s.last().0);
                assert(text::before(ns[i], ns[s.len() - 1]));
                text::lemma_before_irreflexive(s[i].0);
            }
        }
        assert forall|n: Seq<char>| #[trigger]
            loaded(s).contains_key(n) <==> names(s).contains(n) by {
            lemma_last_is_once(ns, n);
            assert(ns.last() == s.last().0);
            if n == ns.last() {
                assert(ns[s.len() - 1] == n);
            }
        }
    }
    assert(is_listing(ns, loaded(s).dom())) by {
        assert forall|n: Seq<char>| #[trigger] ns.contains(n) <==> loaded(s).dom().contains(n) by {
            assert(loaded(s).contains_key(n) <==> names(s).contains(n));
        }
    }
    lemma_listing_unique(ns, listing(loaded(s).dom()), loaded(s).dom());
}

/// A sequence in order that holds the records of a map makes that map.
pub proof fn lemma_loaded_is(s: Seq<(Seq<char>, NodeRecord)>, m: Map<Seq<char>, NodeRecord>)
    requires
        text::in_order(names(s)),
        forall|n: Seq<char>| #[trigger] m.contains_key(n) <==> names(s).contains(n),
        forall|i: int| 0 <= i < s.len() ==> m[#[trigger] s[i].0] == s[i].1,
    ensures
        loaded(s) == m,
{
    lemma_loaded(s);
    assert forall|n: Seq<char>| m.contains_key(n) implies #[trigger] loaded(s)[n] == m[n] by {
        assert(names(s).contains(n));
        let i = choose|i: int| 0 <= i < names(s).len() && names(s)[i] == n;
        assert(s[i].0 == n);
    }
    assert(loaded(s) =~= m);
}

/// The registry: one configuration per network name.
pub struct Nodes {
    entries: Vec<(String, NodeConfig)>,
    unsaved: bool,
}

impl View for Nodes {
    type V = Map<Seq<char>, NodeRecord>;

    closed spec fn view(&self) -> Map<Seq<char>, NodeRecord> {
        loaded(records(self.entries@))
    }
}

/// Where a name stands, or would stand, among the entries.
fn locate(entries: &Vec<(String, NodeConfig)>, network: &str) -> (r: (usize, bool))
    requires
        text::in_order(names(records(entries@))),
    ensures
        r.0 <= entries.len(),
        r.1 ==> r.0 < entries.len() && entries@[r.0 as int].0@ == network@,
        r.1 == loaded(records(entries@)).contains_key(network@),
        !r.1 ==> forall|k: int|
            0 <= k < r.0 ==> text::before(#[trigger] names(records(entries@))[k], network@),
        !r.1 ==> forall|k: int|
            r.0 <= k < entries.len() ==> text::before(
                network@,
                #[trigger] names(records(entries@))[k],
            ),
{
    let ghost s = records(entries@);
    let ghost ns = names(s);
    proof {
        lemma_loaded(s);
    }
    let mut i: usize = 0;
    while i < entries.len() && comes_before(entries[i].0.as_str(), network)
        invariant
            s == records(entries@),
            ns == names(s),
            i <= entries.len(),
            forall|k: int| 0 <= k < i ==> text::before(#[trigger] ns[k], network@),
        decreases entries.len() - i,
    {
        assert(ns[i as int] == entries@[i as int].0@);
        i = i + 1;
    }
    if i < entries.len() && same(entries[i].0.as_str(), network) {
        assert(s[i as int].0 == network@);
        return (i, true);
    }
    proof {
        if i < entries.len() {
            assert(ns[i as int] == entries@[i as int].0@);
            text::lemma_before_total(ns[i as int], network@);
            assert forall|k: int| i <= k < entries.len() implies text::before(
                network@,
                #[trigger] ns[k],
            ) by {
                if i < k {
                    text::lemma_before_transitive(network@, ns[i as int], ns[k]);
                }
            }
        }
        if ns.contains(network@) {
            let k = choose|k: int| 0 <= k < ns.len() && ns[k] == network@;
            text::lemma_before_irreflexive(network@);
        }
    }
    (i, false)
}

/// Puts a configuration under a name, in place of one that is there.
fn put(entries: &mut Vec<(String, NodeConfig)>, network: &str, cfg: NodeConfig)
    requires
        text::in_order(names(records(old(entries)@))),
    ensures
        text::in_order(names(records(final(entries)@))),
        loaded(records(final(entries)@)) == loaded(records(old(entries)@)).insert(network@, cfg@),
{
    let ghost s = records(entries@);
    let ghost ns = names(s);
    let (i, found) = locate(entries, network);
    proof {
        lemma_loaded(s);
    }
    if found {
        entries.remove(i);
        let ghost t = records(entries@);
        assert(t =~= s.remove(i as int));
        entries.insert(i, (network.to_owned(), cfg));
        let ghost u = records(entries@);
        assert(u =~= s.update(i as int, (network@, cfg@)));
        assert(names(u) =~= ns);
        proof {
            let m = loaded(s).insert(network@, cfg@);
            assert forall|n: Seq<char>| #[trigger]
                m.contains_key(n) <==> names(u).contains(n) by {
                assert(loaded(s).contains_key(n) <==> ns.contains(n));
            }
            assert forall|k: int| 0 <= k < u.len() implies m[#[trigger] u[k].0] == u[k].1 by {
                assert(u[k].0 == ns[k]);
                assert(s[k].0 == ns[k]);
                if k != i {
                    text::lemma_before_irreflexive(network@);
                    assert(ns[k] != ns[i as int]);
                }
            }
            lemma_loaded_is(u, m);
        }
    } else {
        entries.insert(i, (network.to_owned(), cfg));
        let ghost u = records(entries@);
        assert(u =~= s.insert(i as int, (network@, cfg@)));
        proof {
            let un = names(u);
            assert(un =~= ns.insert(i as int, network@));
            let m = loaded(s).insert(network@, cfg@);
            assert forall|n: Seq<char>| #[trigger] m.contains_key(n) <==> un.contains(n) by {
                assert(loaded(s).contains_key(n) <==> ns.contains(n));
                if ns.contains(n) {
                    let k = choose|k: int| 0 <= k < ns.len() && ns[k] == n;
                    if k < i {
                        assert(un[k] == n);
                    } else {
                        assert(un[k + 1] == n);
                    }
                }
                if n == network@ {
                    assert(un[i as int] == n);
                }
                if un.contains(n) && n != network@ {
                    let k = choose|k: int| 0 <= k < un.len() && un[k] == n;
                    if k < i {
                        assert(ns[k] == n);
                    } else {
                        assert(ns[k - 1] == n);
                    }
                }
            }
            assert forall|k: int| 0 <= k < u.len() implies m[#[trigger] u[k].0] == u[k].1 by {
                text::lemma_before_irreflexive(network@);
                if k < i {
                    assert(u[k] == s[k]);
                    assert(ns[k] == s[k].0);
                } else if k > i {
                    assert(u[k] == s[k - 1]);
                    assert(ns[k - 1] == s[k - 1].0);
                }
            }
            assert forall|a: int, b: int| 0 <= a < b < un.len() implies text::before(
                #[trigger] un[a],
                #[trigger] un[b],
            ) by {
                let fa = if a < i {
                    a
                } else {
                    a - 1
                };
                let fb = if b < i {
                    b
                } else {
                    b - 1
                };
                if a != i {
                    assert(un[a] == ns[fa]);
                }
                if b != i {
                    assert(un[b] == ns[fb]);
                }
            }
            lemma_loaded_is(u, m);
        }
    }
}

/// Takes a name and its configuration out.
fn drop_entry(entries: &mut Vec<(String, NodeConfig)>, network: &str) -> (r: bool)
    requires
        text::in_order(names(records(old(entries)@))),
    ensures
        text::in_order(names(records(final(entries)@))),
        loaded(records(final(entries)@)) == loaded(records(old(entries)@)).remove(network@),
        r == loaded(records(old(entries)@)).contains_key(network@),
{
    let ghost s = records(entries@);
    let ghost ns = names(s);
    let (i, found) = locate(entries, network);
    proof {
        lemma_loaded(s);
    }
    if found {
        entries.remove(i);
        let ghost u = records(entries@);
        assert(u =~= s.remove(i as int));
        proof {
            let un = names(u);
            assert(un =~= ns.remove(i as int));
            assert(ns[i as int] == network@);
            text::lemma_before_irreflexive(network@);
            let m = loaded(s).remove(network@);
            assert forall|n: Seq<char>| #[trigger] m.contains_key(n) <==> un.contains(n) by {
                assert(loaded(s).contains_key(n) <==> ns.contains(n));
                if ns.contains(n) && n != network@ {
                    let k = choose|k: int| 0 <= k < ns.len() && ns[k] == n;
                    if k < i {
                        assert(un[k] == n);
                    } else {
                        assert(un[k - 1] == n);
                    }
                }
                if un.contains(n) {
                    let k = choose|k: int| 0 <= k < un.len() && un[k] == n;
                    if k < i {
                        assert(ns[k] == n);
                    } else {
                        assert(ns[k + 1] == n);
                    }
                }
            }
            assert forall|k: int| 0 <= k < u.len() implies m[#[trigger] u[k].0] == u[k].1 by {
                if k < i {
                    assert(u[k] == s[k]);
                    assert(ns[k] == s[k].0);
                } else {
                    assert(u[k] == s[k + 1]);
                    assert(ns[k + 1] == s[k + 1].0);
                }
            }
            assert forall|a: int, b: int| 0 <= a < b < un.len() implies text::before(
                #[trigger] un[a],
                #[trigger] un[b],
            ) by {
                let fa = if a < i {
                    a
                } else {
                    a + 1
                };
                let fb = if b < i {
                    b
                } else {
                    b + 1
                };
                assert(un[a] == ns[fa] && un[b] == ns[fb]);
            }
            lemma_loaded_is(u, m);
        }
        true
    } else {
        proof {
            assert(loaded(s) =~= loaded(s).remove(network@));
        }
        false
    }
}

/// The entries of a registry in JSON, if it is one.
fn read_entries(parsed: Option<Json>) -> (r: Option<Vec<(String, NodeConfig)>>)
    ensures
        match r {
            Some(entries) => {
                &&& text::in_order(names(records(entries@)))
                &&& parsed matches Some(j)
                &&& saved::registry_of(j@) == Some(loaded(records(entries@)))
            },
            None => parsed is None || saved::registry_of(parsed->0@) is None,
        },
{
    let members = match parsed {
        Some(Json::Object(members)) => members,
        _ => return None,
    };
    let ghost all = parsed->0@->Object_0;
    let ghost s = saved::read_records(all);
    let mut entries: Vec<(String, NodeConfig)> = Vec::new();
    assert(records(entries@) =~= Seq::empty());
    assert(s.take(0) =~= Seq::empty());
    for i in 0..members.len()
        invariant
            parsed matches Some(j) && j@ is Object && j@->Object_0 == all,
            all.len() == members@.len(),
            forall|k: int|
                0 <= k < all.len() ==> #[trigger] all[k] == (members@[k].0@, members@[k].1@),
            s == saved::read_records(all),
            forall|k: int| 0 <= k < i ==> saved::record_of((#[trigger] all[k]).1) is Some,
            text::in_order(names(records(entries@))),
            loaded(records(entries@)) == loaded(s.take(i as int)),
    {
        assert(all[i as int] == (members@[i as int].0@, members@[i as int].1@));
        match NodeConfig::from_json(&members[i].1) {
            Some(cfg) => {
                put(&mut entries, members[i].0.as_str(), cfg);
                assert(s.take(i + 1).drop_last() =~= s.take(i as int));
            },
            None => return None,
        }
    }
    assert(s.take(s.len() as int) =~= s);
    Some(entries)
}

/// The registry after a configuration is stored under a name, its URL given a scheme.
pub open spec fn stored(
    m: Map<Seq<char>, NodeRecord>,
    network: Seq<char>,
    rec: NodeRecord,
) -> Map<Seq<char>, NodeRecord> {
    m.insert(network, NodeRecord { url: node::normalised_url(rec.url), ..rec })
}

/// The registry without what is under a name.
pub open spec fn without(
    m: Map<Seq<char>, NodeRecord>,
    network: Seq<char>,
) -> Map<Seq<char>, NodeRecord> {
    m.remove(network)
}

// Defaults

/// Well-known endpoints, so that a fresh device works before anybody has configured it: the
/// network, its URL, and whether the node is trusted. Public nodes for the live networks, the
/// loopback for `regtest`. They are somebody else's machines and only a starting point; there is
/// deliberately no failover, for silently moving a user's queries to another operator is no
/// convenience.
pub const DEFAULT_ENDPOINTS: [(&'static str, &'static str, bool); 4] = [
    ("mainnet", "http://node.monerodevs.org:18089", false),
    ("stagenet", "http://node2.monerodevs.org:38089", false),
    ("testnet", "http://node.monerodevs.org:28089", false),
    ("regtest", "http://127.0.0.1:18081", true),
];

/// The endpoint that a network is seeded with, and whether it is trusted.
pub open spec fn default_endpoint(network: Seq<char>) -> Option<(Seq<char>, bool)> {
    if network == "mainnet"@ {
        Some(("http://node.monerodevs.org:18089"@, false))
    } else if network == "stagenet"@ {
        Some(("http://node2.monerodevs.org:38089"@, false))
    } else if network == "testnet"@ {
        Some(("http://node.monerodevs.org:28089"@, false))
    } else if network == "regtest"@ {
        Some(("http://127.0.0.1:18081"@, true))
    } else {
        None
    }
}

/// The record that a network without one is seeded with.
pub open spec fn default_record(url: Seq<char>, trusted: bool) -> NodeRecord {
    NodeRecord {
        url,
        username: None,
        password: None,
        proxy: None,
        proxy_required: false,
        timeout_secs: 8,
        trusted,
        source: "default"@,
        mode: NodeMode::Remote,
    }
}

/// Whether `network` has no endpoint: no record, or one whose URL is empty.
pub open spec fn lacks_endpoint(m: Map<Seq<char>, NodeRecord>, network: Seq<char>) -> bool {
    !m.contains_key(network) || m[network].url.len() == 0
}

/// The registry after the endpoint of `network` is seeded where it is lacking.
pub open spec fn seeded_one(
    m: Map<Seq<char>, NodeRecord>,
    network: Seq<char>,
    url: Seq<char>,
    trusted: bool,
) -> Map<Seq<char>, NodeRecord> {
    if !m.contains_key(network) {
        m.insert(network, default_record(url, trusted))
    } else if m[network].url.len() == 0 {
        m.insert(network, NodeRecord { url, ..m[network] })
    } else {
        m
    }
}

/// The record of `network` after seeding.
pub open spec fn seeded_record(m: Map<Seq<char>, NodeRecord>, network: Seq<char>) -> NodeRecord {
    match default_endpoint(network) {
        Some((url, trusted)) => if !m.contains_key(network) {
            default_record(url, trusted)
        } else if m[network].url.len() == 0 {
            NodeRecord { url, ..m[network] }
        } else {
            m[network]
        },
        None => m[network],
    }
}

/// The registry after every network's lacking endpoint is seeded, each field on its own: what a
/// record already has stays.
pub open spec fn seeded(m: Map<Seq<char>, NodeRecord>) -> Map<Seq<char>, NodeRecord> {
    Map::new(
        |n: Seq<char>| m.contains_key(n) || node::known_network(n),
        |n: Seq<char>| seeded_record(m, n),
    )
}

/// The fields that seeding fills, in the order of the networks.
pub open spec fn seeds(m: Map<Seq<char>, NodeRecord>) -> Seq<Seq<char>> {
    node::networks().filter(|n: Seq<char>| lacks_endpoint(m, n)).map_values(
        |n: Seq<char>| n + ".endpoint"@,
    )
}

// Status

/// The state of a registry: only `unconfigured` licenses a consumer to write one.
pub open spec fn state_text(m: Map<Seq<char>, NodeRecord>) -> Seq<char> {
    if m.dom() == Set::<Seq<char>>::empty() {
        "unconfigured"@
    } else if forall|n: Seq<char>| #[trigger] m.contains_key(n) ==> m[n].url.len() > 0 {
        "configured"@
    } else {
        "unready"@
    }
}

/// Where the configuration comes from: `external` as soon as one record does.
pub open spec fn source_text(m: Map<Seq<char>, NodeRecord>) -> Seq<char> {
    if exists|n: Seq<char>| #[trigger] m.contains_key(n) && m[n].source == "external"@ {
        "external"@
    } else if m.dom() == Set::<Seq<char>>::empty() {
        "none"@
    } else {
        "default"@
    }
}

/// The status of a registry.
pub open spec fn status_tree(m: Map<Seq<char>, NodeRecord>) -> JsonTree {
    JsonTree::Object(
        seq![
            ("networks"@, json::text_array_tree(listing(m.dom()))),
            ("ok"@, JsonTree::Bool(true)),
            ("source"@, JsonTree::Text(source_text(m))),
            ("state"@, JsonTree::Text(state_text(m))),
        ],
    )
}

// Local mode

/// What the local node module said of a network: the address of its node, or why there is none.
pub open spec fn local_text(local: Result<String, String>) -> Result<Seq<char>, Seq<char>> {
    match local {
        Ok(url) => Ok(url@),
        Err(e) => Err(e@),
    }
}

/// What a wallet dials: the record itself, or in local mode the local node's address, trusted and
/// without a proxy.
pub open spec fn effective_record(rec: NodeRecord, local: Result<Seq<char>, Seq<char>>) -> Result<
    NodeRecord,
    NodeFault,
> {
    match rec.mode {
        NodeMode::Remote => Ok(rec),
        NodeMode::Local => match local {
            Ok(url) => Ok(
                NodeRecord { url, proxy: None, proxy_required: false, trusted: true, ..rec },
            ),
            Err(e) => Err(NodeFault::Http(e)),
        },
    }
}

/// What a wallet dials for `network`, if it is configured.
pub open spec fn effective_in(
    m: Map<Seq<char>, NodeRecord>,
    network: Seq<char>,
    local: Result<Seq<char>, Seq<char>>,
) -> Result<NodeRecord, NodeFault> {
    if m.contains_key(network) {
        effective_record(m[network], local)
    } else {
        Err(NodeFault::NotConfigured(network))
    }
}

/// What was read of a configuration: the record, or why there is none.
pub open spec fn config_read(r: Result<NodeConfig, String>) -> Result<NodeRecord, Seq<char>> {
    match r {
        Ok(c) => Ok(c@),
        Err(e) => Err(e@),
    }
}

/// The record or the fault that a result holds.
pub open spec fn config_text(r: Result<NodeConfig, NodeError>) -> Result<NodeRecord, NodeFault> {
    match r {
        Ok(c) => Ok(c@),
        Err(e) => Err(e@),
    }
}

impl Nodes {
    #[verifier::type_invariant]
    spec fn well_formed(self) -> bool {
        text::in_order(names(records(self.entries@)))
    }

    /// Whether something changed that was not handed out for saving yet.
    pub closed spec fn unsaved(self) -> bool {
        self.unsaved
    }

    /// The registry that a file's text holds; an empty one where there is no file, or one that is
    /// not JSON or not a registry. The text is read as a JSON value first: of a field that a record
    /// gives twice the last counts, and a number out of range or a nesting too deep makes the text
    /// no JSON, also where it stands under a name that no field has.
    pub fn new(file: Option<&str>) -> (r: Self)
        ensures
            r@ == saved::saved_registry(
                match file {
                    Some(text) => Some(text@),
                    None => None,
                },
            ),
            !r.unsaved(),
    {
        let parsed = match file {
            Some(text) => Json::parse(text),
            None => None,
        };
        match read_entries(parsed) {
            Some(entries) => Nodes { entries, unsaved: false },
            None => {
                let entries: Vec<(String, NodeConfig)> = Vec::new();
                assert(records(entries@) =~= Seq::empty());
                Nodes { entries, unsaved: false }
            },
        }
    }

    /// The text to save. Loading it gives this registry back.
    pub fn saved_text(&self) -> (r: Result<String, String>)
        ensures
            r matches Ok(t) && {
                &&& t@ == json::json_pretty_text(saved::registry_tree(self@))
                &&& json::json_of_text(t@) == Some(saved::registry_tree(self@))
                &&& saved::saved_registry(Some(t@)) == self@
            },
    {
        proof {
            use_type_invariant(self);
            lemma_loaded(records(self.entries@));
            shape::lemma_registry_readable(self@);
            saved::lemma_registry_reads_back(self@);
        }
        let ghost members = saved::registry_tree(self@)->Object_0;
        let mut m: Vec<(String, Json)> = Vec::new();
        for i in 0..self.entries.len()
            invariant
                members == saved::registry_tree(self@)->Object_0,
                members.len() == self.entries@.len(),
                forall|k: int|
                    0 <= k < members.len() ==> #[trigger] members[k] == (
                        self.entries@[k].0@,
                        self.entries@[k].1@.json(),
                    ),
                json::member_trees(m@) == members.take(i as int),
        {
            add_member(&mut m, self.entries[i].0.as_str(), self.entries[i].1.to_json());
            assert(members.take(i + 1) =~= members.take(i as int).push(members[i as int]));
        }
        assert(members.take(members.len() as int) =~= members);
        object(m).to_pretty_text()
    }

    /// Whether something changed since this was last asked: what makes a caller save.
    pub fn take_unsaved(&mut self) -> (r: bool)
        ensures
            r == old(self).unsaved(),
            !final(self).unsaved(),
            final(self)@ == old(self)@,
    {
        proof {
            use_type_invariant(&*self);
        }
        let r = self.unsaved;
        self.unsaved = false;
        r
    }

    /// The configuration of a network.
    pub fn get(&self, network: &str) -> (r: Option<&NodeConfig>)
        ensures
            match r {
                Some(c) => self@.contains_key(network@) && self@[network@] == c@,
                None => !self@.contains_key(network@),
            },
    {
        proof {
            use_type_invariant(self);
            lemma_loaded(records(self.entries@));
        }
        let (i, found) = locate(&self.entries, network);
        if found {
            assert(records(self.entries@)[i as int].0 == network@);
            Some(&self.entries[i].1)
        } else {
            None
        }
    }

    /// The names of the configured networks, in order.
    pub fn list(&self) -> (r: Vec<String>)
        ensures
            text::texts(r@) == listing(self@.dom()),
            is_listing(text::texts(r@), self@.dom()),
    {
        proof {
            use_type_invariant(self);
            lemma_loaded(records(self.entries@));
        }
        let mut r: Vec<String> = Vec::new();
        for i in 0..self.entries.len()
            invariant
                text::texts(r@) == names(records(self.entries@)).take(i as int),
        {
            let ghost s = names(records(self.entries@));
            let ghost done = text::texts(r@);
            r.push(self.entries[i].0.clone());
            assert(text::texts(r@) =~= done.push(s[i as int]));
            assert(text::texts(r@) =~= s.take(i + 1));
        }
        assert(text::texts(r@) =~= names(records(self.entries@)));
        r
    }

    fn insert(&mut self, network: &str, cfg: NodeConfig)
        ensures
            final(self)@ == old(self)@.insert(network@, cfg@),
            final(self).unsaved() == old(self).unsaved(),
    {
        proof {
            use_type_invariant(&*self);
        }
        let mut entries: Vec<(String, NodeConfig)> = Vec::new();
        assert(names(records(entries@)) =~= Seq::empty());
        std::mem::swap(&mut self.entries, &mut entries);
        put(&mut entries, network, cfg);
        self.entries = entries;
    }

    /// Replaces one network's configuration as a whole. An unknown network is refused, and
    /// nothing changes. The URL is given a scheme on the way in: without one, the address built
    /// from it later would have no base.
    pub fn set(&mut self, network: &str, cfg: NodeConfig) -> (r: Result<(), NodeError>)
        ensures
            match r {
                Ok(_) => {
                    &&& node::known_network(network@)
                    &&& final(self)@ == stored(old(self)@, network@, cfg@)
                    &&& final(self).unsaved()
                },
                Err(e) => {
                    &&& !node::known_network(network@)
                    &&& e@ == NodeFault::UnknownNetwork(network@)
                    &&& *final(self) == *old(self)
                },
            },
    {
        if !is_network(network) {
            return Err(NodeError::UnknownNetwork(network.to_owned()));
        }
        let mut cfg = cfg;
        let url = normalise_url(cfg.url.as_str());
        cfg.url = url;
        self.insert(network, cfg);
        proof {
            use_type_invariant(&*self);
        }
        self.unsaved = true;
        Ok(())
    }

    /// Removes one network's configuration, and says whether there was one.
    pub fn remove(&mut self, network: &str) -> (r: Result<bool, NodeError>)
        ensures
            r == Ok::<bool, NodeError>(old(self)@.contains_key(network@)),
            final(self)@ == without(old(self)@, network@),
            final(self).unsaved() == (old(self).unsaved() || old(self)@.contains_key(network@)),
    {
        proof {
            use_type_invariant(&*self);
        }
        let mut entries: Vec<(String, NodeConfig)> = Vec::new();
        assert(names(records(entries@)) =~= Seq::empty());
        std::mem::swap(&mut self.entries, &mut entries);
        let removed = drop_entry(&mut entries, network);
        self.entries = entries;
        if removed {
            self.unsaved = true;
        }
        Ok(removed)
    }

    fn seed(&mut self, network: &str, url: &str, trusted: bool, applied: &mut Vec<String>)
        ensures
            final(self)@ == seeded_one(old(self)@, network@, url@, trusted),
            final(self).unsaved() == old(self).unsaved(),
            text::texts(final(applied)@) == if lacks_endpoint(old(self)@, network@) {
                text::texts(old(applied)@).push(network@ + ".endpoint"@)
            } else {
                text::texts(old(applied)@)
            },
    {
        let filled = match self.get(network) {
            None => Some(
                NodeConfig {
                    url: url.to_owned(),
                    username: None,
                    password: None,
                    proxy: None,
                    proxy_required: false,
                    timeout_secs: default_timeout(),
                    trusted,
                    source: "default".to_owned(),
                    mode: NodeMode::Remote,
                },
            ),
            Some(c) => if c.url.as_str().is_empty() {
                let mut filled = c.clone();
                filled.url = url.to_owned();
                Some(filled)
            } else {
                None
            },
        };
        if let Some(cfg) = filled {
            self.insert(network, cfg);
            applied.push(join(network, ".endpoint"));
            assert(text::texts(applied@) =~= text::texts(old(applied)@).push(
                network@ + ".endpoint"@,
            ));
        }
    }

    /// Seeds the well-known endpoints field by field where they are absent, never a whole record
    /// over one that is there. Gives the fields it seeded, `network.field`.
    pub fn init_defaults(&mut self) -> (r: Result<Vec<String>, NodeError>)
        ensures
            r matches Ok(applied) && text::texts(applied@) == seeds(old(self)@),
            final(self)@ == seeded(old(self)@),
            final(self).unsaved() == (old(self).unsaved() || seeds(old(self)@).len() > 0),
    {
        let ghost m = self@;
        let mut applied: Vec<String> = Vec::new();
        assert(text::texts(applied@) =~= Seq::empty());
        let (mainnet, mainnet_url, mainnet_trusted) = DEFAULT_ENDPOINTS[0];
        self.seed(mainnet, mainnet_url, mainnet_trusted, &mut applied);
        let (stagenet, stagenet_url, stagenet_trusted) = DEFAULT_ENDPOINTS[1];
        self.seed(stagenet, stagenet_url, stagenet_trusted, &mut applied);
        let (testnet, testnet_url, testnet_trusted) = DEFAULT_ENDPOINTS[2];
        self.seed(testnet, testnet_url, testnet_trusted, &mut applied);
        let (regtest, regtest_url, regtest_trusted) = DEFAULT_ENDPOINTS[3];
        self.seed(regtest, regtest_url, regtest_trusted, &mut applied);
        proof {
            use_type_invariant(&*self);
            lemma_seeded(m);
        }
        if applied.len() > 0 {
            self.unsaved = true;
        }
        Ok(applied)
    }

    /// What a wallet dials for a network, given what the local node module said of it (of no
    /// account where the network is not in local mode).
    pub fn effective(&self, network: &str, local: Result<String, String>) -> (r: Result<
        NodeConfig,
        NodeError,
    >)
        ensures
            config_text(r) == effective_in(self@, network@, local_text(local)),
    {
        match self.get(network) {
            None => Err(NodeError::NotConfigured(network.to_owned())),
            Some(c) => match c.mode {
                NodeMode::Remote => Ok(c.clone()),
                NodeMode::Local => match local {
                    Ok(url) => {
                        let stored = c.clone();
                        Ok(
                            NodeConfig {
                                url,
                                username: stored.username,
                                password: stored.password,
                                proxy: None,
                                proxy_required: false,
                                timeout_secs: stored.timeout_secs,
                                trusted: true,
                                source: stored.source,
                                mode: stored.mode,
                            },
                        )
                    },
                    Err(e) => Err(NodeError::Http(e)),
                },
            },
        }
    }

    /// The registry that requests for `network` are made from: what a wallet dials for it, and
    /// nothing else.
    pub fn dialled(&self, network: &str, local: Result<String, String>) -> (r: Result<
        Nodes,
        NodeError,
    >)
        ensures
            match effective_in(self@, network@, local_text(local)) {
                Ok(rec) => r matches Ok(n) && n@ == Map::<Seq<char>, NodeRecord>::empty().insert(
                    network@,
                    rec,
                ),
                Err(fault) => r matches Err(e) && e@ == fault,
            },
    {
        match self.effective(network, local) {
            Ok(c) => {
                let mut n = Nodes::new(None);
                n.insert(network, c);
                Ok(n)
            },
            Err(e) => Err(e),
        }
    }

    /// `{ ok, state, source, networks }`.
    pub fn config_status(&self) -> (r: Json)
        ensures
            r@ == status_tree(self@),
    {
        proof {
            use_type_invariant(self);
            lemma_loaded(records(self.entries@));
        }
        let ghost s = records(self.entries@);
        let mut all_have_urls = true;
        let mut any_external = false;
        for i in 0..self.entries.len()
            invariant
                s == records(self.entries@),
                all_have_urls == forall|k: int| 0 <= k < i ==> (#[trigger] s[k]).1.url.len() > 0,
                any_external == exists|k: int|
                    0 <= k < i && (#[trigger] s[k]).1.source == "external"@,
        {
            assert(s[i as int] == (self.entries@[i as int].0@, self.entries@[i as int].1@));
            if self.entries[i].1.url.as_str().is_empty() {
                all_have_urls = false;
            }
            if same(self.entries[i].1.source.as_str(), "external") {
                any_external = true;
            }
        }
        let empty = self.entries.len() == 0;
        proof {
            let m = self@;
            if empty {
                assert(m.dom() =~= Set::<Seq<char>>::empty());
            } else {
                assert(m.contains_key(s[0].0));
            }
            assert forall|n: Seq<char>| #[trigger] m.contains_key(n) implies exists|k: int|
                0 <= k < s.len() && (#[trigger] s[k]).0 == n && s[k].1 == m[n] by {
                assert(names(s).contains(n));
                let k = choose|k: int| 0 <= k < names(s).len() && names(s)[k] == n;
                assert(s[k].0 == n && s[k].1 == m[n]);
            }
            if !all_have_urls {
                let k = choose|k: int| 0 <= k < s.len() && (#[trigger] s[k]).1.url.len() == 0;
                assert(m.contains_key(s[k].0) && m[s[k].0].url.len() == 0);
            }
            if any_external {
                let k = choose|k: int| 0 <= k < s.len() && (#[trigger] s[k]).1.source
                    == "external"@;
                assert(m.contains_key(s[k].0) && m[s[k].0].source == "external"@);
            }
        }
        let state = if empty {
            "unconfigured"
        } else if all_have_urls {
            "configured"
        } else {
            "unready"
        };
        let source = if any_external {
            "external"
        } else if empty {
            "none"
        } else {
            "default"
        };
        assert(state@ == state_text(self@));
        assert(source@ == source_text(self@));
        let mut fields: Vec<(String, Json)> = Vec::new();
        add_member(&mut fields, "networks", text_array(&self.list()));
        add_member(&mut fields, "ok", Json::Bool(true));
        add_member(&mut fields, "source", Json::Text(source.to_owned()));
        add_member(&mut fields, "state", Json::Text(state.to_owned()));
        assert(json::member_trees(fields@) =~= status_tree(self@)->Object_0);
        object(fields)
    }
}

/// The four network names differ.
proof fn lemma_networks_distinct()
    ensures
        "mainnet"@ != "stagenet"@,
        "mainnet"@ != "testnet"@,
        "mainnet"@ != "regtest"@,
        "stagenet"@ != "testnet"@,
        "stagenet"@ != "regtest"@,
        "testnet"@ != "regtest"@,
{
    reveal_strlit("mainnet");
    reveal_strlit("stagenet");
    reveal_strlit("testnet");
    reveal_strlit("regtest");
    assert("mainnet"@[0] != "stagenet"@[0]);
    assert("mainnet"@[0] != "testnet"@[0]);
    assert("mainnet"@[0] != "regtest"@[0]);
    assert("stagenet"@[0] != "testnet"@[0]);
    assert("stagenet"@[0] != "regtest"@[0]);
    assert("testnet"@[0] != "regtest"@[0]);
}

/// Seeding one network after the other seeds them all.
proof fn lemma_seeded(m: Map<Seq<char>, NodeRecord>)
    ensures
        ({
            let m1 = seeded_one(m, "mainnet"@, "http://node.monerodevs.org:18089"@, false);
            let m2 = seeded_one(m1, "stagenet"@, "http://node2.monerodevs.org:38089"@, false);
            let m3 = seeded_one(m2, "testnet"@, "http://node.monerodevs.org:28089"@, false);
            let m4 = seeded_one(m3, "regtest"@, "http://127.0.0.1:18081"@, true);
            &&& m4 == seeded(m)
            &&& lacks_endpoint(m1, "stagenet"@) == lacks_endpoint(m, "stagenet"@)
            &&& lacks_endpoint(m2, "testnet"@) == lacks_endpoint(m, "testnet"@)
            &&& lacks_endpoint(m3, "regtest"@) == lacks_endpoint(m, "regtest"@)
        }),
        seeds(m) == seeds_in_turn(m),
{
    lemma_networks_distinct();
    let m1 = seeded_one(m, "mainnet"@, "http://node.monerodevs.org:18089"@, false);
    let m2 = seeded_one(m1, "stagenet"@, "http://node2.monerodevs.org:38089"@, false);
    let m3 = seeded_one(m2, "testnet"@, "http://node.monerodevs.org:28089"@, false);
    let m4 = seeded_one(m3, "regtest"@, "http://127.0.0.1:18081"@, true);
    assert forall|n: Seq<char>| node::known_network(n) implies n == "mainnet"@ || n == "stagenet"@
        || n == "testnet"@ || n == "regtest"@ by {}
    let s = node::networks();
    assert(s[0] == "mainnet"@ && s[1] == "stagenet"@ && s[2] == "testnet"@ && s[3] == "regtest"@);
    assert(m4.dom() =~= seeded(m).dom());
    assert(m4 =~= seeded(m));
    lemma_seeds(m);
}

/// The fields that seeding fills, one network after the other.
pub open spec fn seeds_in_turn(m: Map<Seq<char>, NodeRecord>) -> Seq<Seq<char>> {
    let s0 = if lacks_endpoint(m, "mainnet"@) {
        Seq::empty().push("mainnet"@ + ".endpoint"@)
    } else {
        Seq::empty()
    };
    let s1 = if lacks_endpoint(m, "stagenet"@) {
        s0.push("stagenet"@ + ".endpoint"@)
    } else {
        s0
    };
    let s2 = if lacks_endpoint(m, "testnet"@) {
        s1.push("testnet"@ + ".endpoint"@)
    } else {
        s1
    };
    if lacks_endpoint(m, "regtest"@) {
        s2.push("regtest"@ + ".endpoint"@)
    } else {
        s2
    }
}

/// Seeding reports one network after the other.
pub proof fn lemma_seeds(m: Map<Seq<char>, NodeRecord>)
    ensures
        seeds(m) == seeds_in_turn(m),
{
    let f = |n: Seq<char>| lacks_endpoint(m, n);
    let g = |n: Seq<char>| n + ".endpoint"@;
    let s = node::networks();
    let a = seq!["mainnet"@, "stagenet"@, "testnet"@];
    let b = seq!["mainnet"@, "stagenet"@];
    let c = seq!["mainnet"@];
    let d = Seq::<Seq<char>>::empty();
    assert(s.drop_last() =~= a);
    assert(a.drop_last() =~= b);
    assert(b.drop_last() =~= c);
    assert(c.drop_last() =~= d);
    lemma_filter_step(d, f, g);
    lemma_filter_step(c, f, g);
    lemma_filter_step(b, f, g);
    lemma_filter_step(a, f, g);
    lemma_filter_step(s, f, g);
}

proof fn lemma_filter_step(
    s: Seq<Seq<char>>,
    f: spec_fn(Seq<char>) -> bool,
    g: spec_fn(Seq<char>) -> Seq<char>,
)
    ensures
        s.filter(f).map_values(g) == if s.len() == 0 {
            Seq::empty()
        } else if f(s.last()) {
            s.drop_last().filter(f).map_values(g).push(g(s.last()))
        } else {
            s.drop_last().filter(f).map_values(g)
        },
{
    reveal(Seq::filter);
    if s.len() == 0 {
        assert(s.filter(f).map_values(g) =~= Seq::empty());
    } else if f(s.last()) {
        assert(s.filter(f).map_values(g) =~= s.drop_last().filter(f).map_values(g).push(
            g(s.last()),
        ));
    }
}

} // verus!
