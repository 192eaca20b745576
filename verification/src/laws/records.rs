//! What the registry holds, is seeded with, says of itself and is saved as.
use vstd::prelude::*;

use crate::json;
use crate::json::JsonTree;
use crate::module;
use crate::node;
use crate::node::{NodeFault, NodeMode, NodeRecord};
use crate::persist;
use crate::persist::Save;
use crate::registry;
use crate::saved;
use crate::shape;
use crate::text;

verus! {

/// The networks are these four, and no other name is one.
pub proof fn law_networks(name: Seq<char>)
    ensures
        node::known_network(name) <==> name == "mainnet"@ || name == "stagenet"@ || name
            == "testnet"@ || name == "regtest"@,
{
    let s = node::networks();
    assert(s[0] == "mainnet"@ && s[1] == "stagenet"@ && s[2] == "testnet"@ && s[3] == "regtest"@);
}

/// The modes are called `remote` and `local`, and a network that is not configured is in remote
/// mode.
pub proof fn law_modes(m: Map<Seq<char>, NodeRecord>, network: Seq<char>)
    ensures
        NodeMode::Remote.name_text() == "remote"@,
        NodeMode::Local.name_text() == "local"@,
        m.contains_key(network) ==> module::mode_in(m, network) == m[network].mode,
        !m.contains_key(network) ==> module::mode_in(m, network) == NodeMode::Remote,
{
}

/// A text that has no scheme is put behind `http://`, once the white space around it is gone; one
/// that has a scheme, and one that is blank, only lose that white space.
pub proof fn law_scheme_is_given(url: Seq<char>)
    ensures
        ({
            let u = text::trimmed(url);
            let n = node::normalised_url(url);
            if u.len() > 0 && !text::occurs(u, "://"@) {
                &&& n.len() == u.len() + 7
                &&& n.take(7) == "http://"@
                &&& n.skip(7) == u
            } else {
                n == u
            }
        }),
{
    reveal_strlit("http://");
    let u = text::trimmed(url);
    let n = node::normalised_url(url);
    if u.len() > 0 && !text::occurs(u, "://"@) {
        assert(n.take(7) =~= "http://"@);
        assert(n.skip(7) =~= u);
    }
}

/// The policy of a record is its own proxy, whether it requires one, and its timeout.
pub proof fn law_policy(rec: NodeRecord)
    ensures
        rec.policy().proxy == rec.proxy,
        rec.policy().required == rec.proxy_required,
        rec.policy().timeout_secs == rec.timeout_secs,
{
}

/// Storing puts a record under its network as it is, but for its URL, which is normalised, and
/// leaves every other network's alone.
pub proof fn law_storing(
    m: Map<Seq<char>, NodeRecord>,
    network: Seq<char>,
    rec: NodeRecord,
    other: Seq<char>,
)
    ensures
        ({
            let after = registry::stored(m, network, rec);
            &&& after.contains_key(network)
            &&& after[network].url == node::normalised_url(rec.url)
            &&& after[network].username == rec.username
            &&& after[network].password == rec.password
            &&& after[network].proxy == rec.proxy
            &&& after[network].proxy_required == rec.proxy_required
            &&& after[network].timeout_secs == rec.timeout_secs
            &&& after[network].trusted == rec.trusted
            &&& after[network].source == rec.source
            &&& after[network].mode == rec.mode
            &&& other != network ==> {
                &&& after.contains_key(other) <==> m.contains_key(other)
                &&& m.contains_key(other) ==> after[other] == m[other]
            }
        }),
{
}

/// Removing takes out one network's record and leaves every other one alone.
pub proof fn law_removing(m: Map<Seq<char>, NodeRecord>, network: Seq<char>, other: Seq<char>)
    ensures
        ({
            let after = registry::without(m, network);
            &&& !after.contains_key(network)
            &&& other != network ==> {
                &&& after.contains_key(other) <==> m.contains_key(other)
                &&& m.contains_key(other) ==> after[other] == m[other]
            }
        }),
{
}

/// One where `b` holds, else zero.
pub open spec fn one_if(b: bool) -> int {
    if b {
        1
    } else {
        0
    }
}

/// The JSON of a configuration has one member for each field that is always there, and one for each
/// of the credentials and the proxy that is there, and no other.
pub proof fn law_config_json_size(rec: NodeRecord)
    ensures
        rec.json() is Object,
        rec.json()->Object_0.len() == 6 + one_if(rec.username is Some) + one_if(
            rec.password is Some,
        ) + one_if(rec.proxy is Some),
{
}

// Seeding

/// The URL of a network's well-known endpoint.
pub open spec fn well_known(network: Seq<char>) -> Seq<char> {
    if network == "mainnet"@ {
        "http://node.monerodevs.org:18089"@
    } else if network == "stagenet"@ {
        "http://node2.monerodevs.org:38089"@
    } else if network == "testnet"@ {
        "http://node.monerodevs.org:28089"@
    } else {
        "http://127.0.0.1:18081"@
    }
}

/// A network that has no record is seeded with its well-known endpoint and with nothing of any
/// other record: no credentials, no proxy, the default timeout, remote, and trusted only on
/// `regtest`. One that has a record without a URL is given the URL alone. Everything else stays,
/// and nothing else is added.
pub proof fn law_seeding(m: Map<Seq<char>, NodeRecord>, network: Seq<char>)
    ensures
        ({
            let after = registry::seeded(m);
            let known = network == "mainnet"@ || network == "stagenet"@ || network == "testnet"@
                || network == "regtest"@;
            &&& after.contains_key(network) <==> m.contains_key(network) || known
            &&& known && !m.contains_key(network) ==> {
                let rec = after[network];
                &&& rec.url == well_known(network)
                &&& rec.username is None
                &&& rec.password is None
                &&& rec.proxy is None
                &&& !rec.proxy_required
                &&& rec.timeout_secs == 8
                &&& rec.trusted == (network == "regtest"@)
                &&& rec.source == "default"@
                &&& rec.mode == NodeMode::Remote
            }
            &&& known && m.contains_key(network) && m[network].url.len() == 0 ==> after[network]
                == (NodeRecord { url: well_known(network), ..m[network] })
            &&& m.contains_key(network) && (!known || m[network].url.len() > 0) ==> after[network]
                == m[network]
        }),
{
    law_networks(network);
    reveal_strlit("mainnet");
    reveal_strlit("stagenet");
    reveal_strlit("testnet");
    reveal_strlit("regtest");
    assert("mainnet"@.len() == 7 && "stagenet"@.len() == 8 && "testnet"@.len() == 7
        && "regtest"@.len() == 7);
    assert("mainnet"@[0] == 'm' && "testnet"@[0] == 't' && "regtest"@[0] == 'r');
}

/// The field that seeding fills of a network that lacks it, else nothing.
pub open spec fn filled(m: Map<Seq<char>, NodeRecord>, network: Seq<char>) -> Seq<Seq<char>> {
    if !m.contains_key(network) || m[network].url.len() == 0 {
        seq![network + ".endpoint"@]
    } else {
        Seq::empty()
    }
}

/// Seeding reports the endpoint of each network that had none, in the order of the networks, and
/// nothing else.
pub proof fn law_seeds(m: Map<Seq<char>, NodeRecord>)
    ensures
        registry::seeds(m) == filled(m, "mainnet"@) + filled(m, "stagenet"@) + filled(
            m,
            "testnet"@,
        ) + filled(m, "regtest"@),
{
    registry::lemma_seeds(m);
    assert(registry::seeds(m) =~= filled(m, "mainnet"@) + filled(m, "stagenet"@) + filled(
        m,
        "testnet"@,
    ) + filled(m, "regtest"@));
}

// What the registry says of itself

/// A sequence of records makes a registry in which a later record takes the place of an earlier one
/// of its name.
pub proof fn law_loaded(
    s: Seq<(Seq<char>, NodeRecord)>,
    name: Seq<char>,
    rec: NodeRecord,
)
    ensures
        registry::loaded(Seq::empty()) == Map::<Seq<char>, NodeRecord>::empty(),
        registry::loaded(s.push((name, rec))) == registry::loaded(s).insert(name, rec),
{
    assert(s.push((name, rec)).drop_last() =~= s);
}

/// A listing holds each name of a set once, in the order of their characters, and no other.
pub proof fn law_listing(set: Set<Seq<char>>, i: int, j: int, n: Seq<char>)
    requires
        set.finite(),
    ensures
        registry::listing(set).contains(n) <==> set.contains(n),
        0 <= i < j < registry::listing(set).len() ==> text::before(
            registry::listing(set)[i],
            registry::listing(set)[j],
        ),
{
    registry::lemma_listing(set);
}

/// The status names the configured networks in order, and says whether there are any and all of
/// them have a URL, and whether any of them was written from outside.
pub proof fn law_status(m: Map<Seq<char>, NodeRecord>)
    ensures
        ({
            let t = registry::status_tree(m);
            let none = m.dom() == Set::<Seq<char>>::empty();
            let ready = forall|n: Seq<char>| #[trigger] m.contains_key(n) ==> m[n].url.len() > 0;
            let outside = exists|n: Seq<char>| #[trigger]
                m.contains_key(n) && m[n].source == "external"@;
            &&& t is Object && t->Object_0.len() == 4
            &&& t.get("ok"@) == Some(JsonTree::Bool(true))
            &&& none ==> t.get("state"@) == Some(JsonTree::Text("unconfigured"@))
            &&& !none && ready ==> t.get("state"@) == Some(JsonTree::Text("configured"@))
            &&& !none && !ready ==> t.get("state"@) == Some(JsonTree::Text("unready"@))
            &&& outside ==> t.get("source"@) == Some(JsonTree::Text("external"@))
            &&& !outside && none ==> t.get("source"@) == Some(JsonTree::Text("none"@))
            &&& !outside && !none ==> t.get("source"@) == Some(JsonTree::Text("default"@))
            &&& t.get("networks"@) matches Some(JsonTree::Array(items))
            &&& items.len() == registry::listing(m.dom()).len()
            &&& forall|i: int|
                0 <= i < items.len() ==> #[trigger] items[i] == JsonTree::Text(
                    registry::listing(m.dom())[i],
                )
        }),
{
    shape::lemma_status_readable(m);
    let members = registry::status_tree(m)->Object_0;
    json::lemma_member_at(members, 0);
    json::lemma_member_at(members, 1);
    json::lemma_member_at(members, 2);
    json::lemma_member_at(members, 3);
}

/// What a wallet dials is what is stored; in local mode it is the local node's address, trusted and
/// with no proxy, all else as stored, or the local node's reason for having no address.
pub proof fn law_what_is_dialled(
    m: Map<Seq<char>, NodeRecord>,
    network: Seq<char>,
    local: Result<Seq<char>, Seq<char>>,
)
    ensures
        ({
            let r = registry::effective_in(m, network, local);
            if !m.contains_key(network) {
                r == Err::<NodeRecord, NodeFault>(NodeFault::NotConfigured(network))
            } else if m[network].mode == NodeMode::Remote {
                r == Ok::<NodeRecord, NodeFault>(m[network])
            } else {
                match local {
                    Err(e) => r == Err::<NodeRecord, NodeFault>(NodeFault::Http(e)),
                    Ok(url) => {
                        &&& r matches Ok(rec)
                        &&& rec.url == url
                        &&& rec.trusted
                        &&& rec.proxy is None
                        &&& !rec.proxy_required
                        &&& rec.username == m[network].username
                        &&& rec.password == m[network].password
                        &&& rec.timeout_secs == m[network].timeout_secs
                        &&& rec.source == m[network].source
                        &&& rec.mode == NodeMode::Local
                    },
                }
            }
        }),
{
}

// The registry's file

/// Whether a field of a record may be absent, null or a string, and which it is.
pub open spec fn optional(v: Option<JsonTree>, read: Option<Seq<char>>) -> bool {
    match read {
        Some(t) => v == Some(JsonTree::Text(t)),
        None => v is None || v == Some(JsonTree::Null),
    }
}

/// Whether an object says what a record holds, absent fields having their defaults.
pub open spec fn says(t: JsonTree, rec: NodeRecord) -> bool {
    &&& t is Object
    &&& t.get("url"@) == Some(JsonTree::Text(rec.url))
    &&& optional(t.get("username"@), rec.username)
    &&& optional(t.get("password"@), rec.password)
    &&& optional(t.get("proxy"@), rec.proxy)
    &&& t.get("proxyRequired"@) == Some(JsonTree::Bool(rec.proxy_required)) || (t.get(
        "proxyRequired"@,
    ) is None && !rec.proxy_required)
    &&& t.get("timeoutSecs"@) == Some(JsonTree::Integer(rec.timeout_secs as int)) || (t.get(
        "timeoutSecs"@,
    ) is None && rec.timeout_secs == 8)
    &&& t.get("trusted"@) == Some(JsonTree::Bool(rec.trusted)) || (t.get("trusted"@) is None
        && !rec.trusted)
    &&& t.get("source"@) == Some(JsonTree::Text(rec.source)) || (t.get("source"@) is None
        && rec.source == "external"@)
    &&& rec.mode == NodeMode::Local <==> t.get("mode"@) == Some(JsonTree::Text("local"@))
}

/// An object is read as a record exactly where it says what that record holds.
pub proof fn law_record_of_object(t: JsonTree, rec: NodeRecord)
    requires
        t is Object,
    ensures
        saved::record_of(t) == Some(rec) <==> says(t, rec),
{
    if says(t, rec) {
        let read = saved::record_of(t)->0;
        assert(read.url == rec.url);
        assert(read.username == rec.username);
        assert(read == rec);
    }
}

/// The fields of a record in the order in which an array holds them.
pub open spec fn field_order() -> Seq<Seq<char>> {
    seq![
        "url"@,
        "username"@,
        "password"@,
        "proxy"@,
        "proxyRequired"@,
        "timeoutSecs"@,
        "trusted"@,
        "source"@,
        "mode"@,
    ]
}

/// An array is read as the object that gives each of its items the name of its place; an array of
/// more items, and anything else that is no object, is no record.
pub proof fn law_record_of_array(items: Seq<JsonTree>, t: JsonTree)
    ensures
        items.len() <= 9 ==> saved::record_of(JsonTree::Array(items)) == saved::record_of(
            JsonTree::Object(
                Seq::new(items.len(), |i: int| (field_order()[i], items[i])),
            ),
        ),
        items.len() > 9 ==> saved::record_of(JsonTree::Array(items)) is None,
        t !is Object && t !is Array ==> saved::record_of(t) is None,
{
    if items.len() <= 9 {
        let members = Seq::new(items.len(), |i: int| (field_order()[i], items[i]));
        lemma_fields_differ();
        assert forall|i: int| 0 <= i < 9 implies saved::field(
            JsonTree::Object(members),
            #[trigger] field_order()[i],
            i,
        ) == saved::field(JsonTree::Array(items), field_order()[i], i) by {
            if i < items.len() {
                assert forall|j: int| 0 <= j < i implies (#[trigger] members[j]).0
                    != members[i].0 by {
                    assert(field_order()[j] != field_order()[i]);
                }
                json::lemma_member_first(members, i);
            } else {
                let ns = json::member_names(members);
                if ns.contains(field_order()[i]) {
                    let k = choose|k: int| 0 <= k < ns.len() && ns[k] == field_order()[i];
                    assert(field_order()[k] != field_order()[i]);
                }
                json::lemma_member_absent(members, field_order()[i]);
            }
        }
        let f = field_order();
        assert(f[0] == "url"@ && f[1] == "username"@ && f[2] == "password"@ && f[3] == "proxy"@
            && f[4] == "proxyRequired"@ && f[5] == "timeoutSecs"@ && f[6] == "trusted"@ && f[7]
            == "source"@ && f[8] == "mode"@);
    }
}

proof fn lemma_fields_differ()
    ensures
        forall|i: int, j: int|
            0 <= i < 9 && 0 <= j < 9 && i != j ==> #[trigger] field_order()[i]
                != #[trigger] field_order()[j],
{
    reveal_strlit("url");
    reveal_strlit("username");
    reveal_strlit("password");
    reveal_strlit("proxy");
    reveal_strlit("proxyRequired");
    reveal_strlit("timeoutSecs");
    reveal_strlit("trusted");
    reveal_strlit("source");
    reveal_strlit("mode");
    let f = field_order();
    assert(f[0].len() == 3 && f[1].len() == 8 && f[2].len() == 8 && f[3].len() == 5 && f[4].len()
        == 13 && f[5].len() == 11 && f[6].len() == 7 && f[7].len() == 6 && f[8].len() == 4);
    assert(f[1][0] == 'u' && f[2][0] == 'p');
}

/// A value is read as a registry exactly where it is an object of records; each name then has the
/// last record that is given for it, and no other name has one.
pub proof fn law_registry_of(members: Seq<(Seq<char>, JsonTree)>, t: JsonTree, k: int)
    ensures
        t !is Object ==> saved::registry_of(t) is None,
        saved::registry_of(JsonTree::Object(members)) is Some <==> forall|i: int|
            0 <= i < members.len() ==> saved::record_of((#[trigger] members[i]).1) is Some,
        saved::registry_of(JsonTree::Object(members)) matches Some(m) ==> {
            &&& forall|n: Seq<char>| #[trigger]
                m.contains_key(n) <==> json::member_names(members).contains(n)
            &&& 0 <= k < members.len() && (forall|j: int|
                k < j < members.len() ==> (#[trigger] members[j]).0 != members[k].0)
                ==> saved::record_of(members[k].1) == Some(m[members[k].0])
        },
{
    if forall|i: int|
        0 <= i < members.len() ==> saved::record_of((#[trigger] members[i]).1) is Some {
        let s = saved::read_records(members);
        assert forall|n: Seq<char>| #[trigger]
            registry::loaded(s).contains_key(n) <==> json::member_names(members).contains(n) by {
            lemma_loaded_names(s, n);
            assert(registry::names(s) =~= json::member_names(members));
        }
        if 0 <= k < members.len() && (forall|j: int|
            k < j < members.len() ==> (#[trigger] members[j]).0 != members[k].0) {
            assert forall|j: int| k < j < s.len() implies (#[trigger] s[j]).0 != s[k].0 by {
                assert(members[j].0 != members[k].0);
            }
            lemma_loaded_last(s, k);
            assert(saved::record_of(members[k].1) is Some);
        }
    }
}

proof fn lemma_loaded_names(s: Seq<(Seq<char>, NodeRecord)>, n: Seq<char>)
    ensures
        registry::loaded(s).contains_key(n) <==> registry::names(s).contains(n),
    decreases s.len(),
{
    let ns = registry::names(s);
    if s.len() > 0 {
        let t = s.drop_last();
        lemma_loaded_names(t, n);
        let tn = registry::names(t);
        if tn.contains(n) {
            let k = choose|k: int| 0 <= k < tn.len() && tn[k] == n;
            assert(ns[k] == n);
        }
        if ns.contains(n) {
            let k = choose|k: int| 0 <= k < ns.len() && ns[k] == n;
            if k < t.len() {
                assert(tn[k] == n);
            }
        }
        if s.last().0 == n {
            assert(ns[s.len() - 1] == n);
        }
    }
}

proof fn lemma_loaded_last(s: Seq<(Seq<char>, NodeRecord)>, k: int)
    requires
        0 <= k < s.len(),
        forall|j: int| k < j < s.len() ==> (#[trigger] s[j]).0 != s[k].0,
    ensures
        registry::loaded(s)[s[k].0] == s[k].1,
    decreases s.len(),
{
    if k < s.len() - 1 {
        let t = s.drop_last();
        assert(s[s.len() - 1].0 != s[k].0);
        assert forall|j: int| k < j < t.len() implies (#[trigger] t[j]).0 != t[k].0 by {
            assert(t[j] == s[j]);
        }
        lemma_loaded_last(t, k);
    }
}

/// A file that is not there, is no JSON or holds no registry loads as an empty one.
pub proof fn law_file(file: Seq<char>)
    ensures
        saved::saved_registry(None) == Map::<Seq<char>, NodeRecord>::empty(),
        json::json_of_text(file) is None ==> saved::saved_registry(Some(file)) == Map::<
            Seq<char>,
            NodeRecord,
        >::empty(),
        json::json_of_text(file) matches Some(t) ==> match saved::registry_of(t) {
            Some(m) => saved::saved_registry(Some(file)) == m,
            None => saved::saved_registry(Some(file)) == Map::<Seq<char>, NodeRecord>::empty(),
        },
{
}

/// A registry is saved as an object with one member for each network, its configuration.
pub proof fn law_registry_tree(m: Map<Seq<char>, NodeRecord>, network: Seq<char>)
    requires
        m.dom().finite(),
    ensures
        saved::registry_tree(m) is Object,
        m.contains_key(network) ==> saved::registry_tree(m).get(network) == Some(
            m[network].json(),
        ),
        !m.contains_key(network) ==> saved::registry_tree(m).get(network) is None,
{
    registry::lemma_listing(m.dom());
    let listed = registry::listing(m.dom());
    let members = saved::registry_tree(m)->Object_0;
    let ns = json::member_names(members);
    assert(ns =~= listed);
    assert(listed.contains(network) <==> m.dom().contains(network));
    if m.contains_key(network) {
        let i = choose|i: int| 0 <= i < listed.len() && listed[i] == network;
        json::lemma_member_at(members, i);
    } else {
        json::lemma_member_absent(members, network);
    }
}

/// A save without a file does nothing and is fine; a registry that cannot be rendered is an error
/// of its own; otherwise the text is staged first and published only then, and an action that fails
/// ends the save with its reason.
pub proof fn law_save_steps(body: Seq<char>, e: Seq<char>, r: Result<(), NodeFault>)
    ensures
        persist::first_step(false, Ok(body)) == Save::Finished(Ok(())),
        persist::first_step(false, Err(e)) == Save::Finished(Ok(())),
        persist::first_step(true, Err(e)) == Save::Finished(Err(NodeFault::Parse(e))),
        persist::first_step(true, Ok(body)) == Save::Stage(body),
        Save::Stage(body).after(Ok(())) == Save::Publish,
        Save::Stage(body).after(Err(e)) == Save::Finished(Err(NodeFault::Http(e))),
        Save::Publish.after(Ok(())) == Save::Finished(Ok(())),
        Save::Publish.after(Err(e)) == Save::Finished(Err(NodeFault::Http(e))),
        Save::Finished(r).after(Ok(())) == Save::Finished(r),
        Save::Finished(r).after(Err(e)) == Save::Finished(r),
{
}

} // verus!
