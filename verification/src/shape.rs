//! That the texts of replies read back as what was meant: the trees that replies are made of have
//! their members in order and nest no deeper than a reader follows.
use vstd::prelude::*;

use crate::call;
use crate::json;
use crate::json::JsonTree;
use crate::module;
use crate::node;
use crate::node::{NodeFault, NodeRecord};
use crate::registry;
use crate::saved;
use crate::text;

verus! {

/// An object of two members is readable where they are.
proof fn lemma_two(
    a: (Seq<char>, JsonTree),
    b: (Seq<char>, JsonTree),
    depth: int,
)
    requires
        depth > 0,
        text::before(a.0, b.0),
        json::readable(a.1, depth - 1),
        json::readable(b.1, depth - 1),
    ensures
        json::readable(JsonTree::Object(seq![a, b]), depth),
{
    let members = seq![a, b];
    let ns = json::member_names(members);
    assert(ns =~= seq![a.0, b.0]);
    text::lemma_in_order(ns);
}

/// An object of three members is readable where they are.
proof fn lemma_three(
    a: (Seq<char>, JsonTree),
    b: (Seq<char>, JsonTree),
    c: (Seq<char>, JsonTree),
    depth: int,
)
    requires
        depth > 0,
        text::before(a.0, b.0),
        text::before(b.0, c.0),
        json::readable(a.1, depth - 1),
        json::readable(b.1, depth - 1),
        json::readable(c.1, depth - 1),
    ensures
        json::readable(JsonTree::Object(seq![a, b, c]), depth),
{
    let members = seq![a, b, c];
    let ns = json::member_names(members);
    assert(ns =~= seq![a.0, b.0, c.0]);
    text::lemma_in_order(ns);
}

/// An object of four members is readable where they are.
proof fn lemma_four(
    a: (Seq<char>, JsonTree),
    b: (Seq<char>, JsonTree),
    c: (Seq<char>, JsonTree),
    d: (Seq<char>, JsonTree),
    depth: int,
)
    requires
        depth > 0,
        text::before(a.0, b.0),
        text::before(b.0, c.0),
        text::before(c.0, d.0),
        json::readable(a.1, depth - 1),
        json::readable(b.1, depth - 1),
        json::readable(c.1, depth - 1),
        json::readable(d.1, depth - 1),
    ensures
        json::readable(JsonTree::Object(seq![a, b, c, d]), depth),
{
    let members = seq![a, b, c, d];
    let ns = json::member_names(members);
    assert(ns =~= seq![a.0, b.0, c.0, d.0]);
    text::lemma_in_order(ns);
}

/// A refusal is readable.
pub proof fn lemma_refusal_readable(message: Seq<char>)
    ensures
        json::readable(call::refusal_tree(message), json::max_depth()),
{
    reveal_strlit("error");
    reveal_strlit("ok");
    text::lemma_before_at("error"@, "ok"@, 0);
    lemma_two(
        ("error"@, JsonTree::Text(message)),
        ("ok"@, JsonTree::Bool(false)),
        json::max_depth(),
    );
}

/// The reply that all went well is readable.
pub proof fn lemma_done_readable()
    ensures
        json::readable(module::done_tree(), json::max_depth()),
{
    reveal_with_fuel(json::readable, 2);
    let members = module::done_tree()->Object_0;
    text::lemma_in_order(json::member_names(members));
}

/// An answered call's reply is readable where the result in it is.
pub proof fn lemma_ok_readable(result: JsonTree, route: Seq<char>)
    requires
        json::readable(result, json::max_depth() - 1),
    ensures
        json::readable(module::ok_tree(result, route), json::max_depth()),
{
    reveal_strlit("ok");
    reveal_strlit("result");
    reveal_strlit("route");
    text::lemma_before_at("ok"@, "result"@, 0);
    text::lemma_before_at("result"@, "route"@, 1);
    lemma_three(
        ("ok"@, JsonTree::Bool(true)),
        ("result"@, result),
        ("route"@, JsonTree::Text(route)),
        json::max_depth(),
    );
}

/// The status of a registry is readable.
pub proof fn lemma_status_readable(m: Map<Seq<char>, NodeRecord>)
    ensures
        json::readable(registry::status_tree(m), json::max_depth()),
{
    reveal_strlit("networks");
    reveal_strlit("ok");
    reveal_strlit("source");
    reveal_strlit("state");
    text::lemma_before_at("networks"@, "ok"@, 0);
    text::lemma_before_at("ok"@, "source"@, 0);
    text::lemma_before_at("source"@, "state"@, 1);
    let names = registry::listing(m.dom());
    json::lemma_readable_texts(names);
    json::lemma_readable_deeper(json::text_array_tree(names), 1, json::max_depth() - 1);
    lemma_four(
        ("networks"@, json::text_array_tree(names)),
        ("ok"@, JsonTree::Bool(true)),
        ("source"@, JsonTree::Text(registry::source_text(m))),
        ("state"@, JsonTree::Text(registry::state_text(m))),
        json::max_depth(),
    );
}

/// The list of networks is readable.
pub proof fn lemma_networks_readable(names: Seq<Seq<char>>)
    ensures
        json::readable(module::networks_tree(names), json::max_depth()),
{
    reveal_strlit("networks");
    reveal_strlit("ok");
    text::lemma_before_at("networks"@, "ok"@, 0);
    json::lemma_readable_texts(names);
    json::lemma_readable_deeper(json::text_array_tree(names), 1, json::max_depth() - 1);
    lemma_two(
        ("networks"@, json::text_array_tree(names)),
        ("ok"@, JsonTree::Bool(true)),
        json::max_depth(),
    );
}

/// The reply to seeding is readable.
pub proof fn lemma_applied_readable(applied: Seq<Seq<char>>)
    ensures
        json::readable(module::applied_tree(applied), json::max_depth()),
{
    reveal_strlit("applied");
    reveal_strlit("ok");
    text::lemma_before_at("applied"@, "ok"@, 0);
    json::lemma_readable_texts(applied);
    json::lemma_readable_deeper(json::text_array_tree(applied), 1, json::max_depth() - 1);
    lemma_two(
        ("applied"@, json::text_array_tree(applied)),
        ("ok"@, JsonTree::Bool(true)),
        json::max_depth(),
    );
}

/// The names that a record's JSON may have, in order.
spec fn record_names() -> Seq<Seq<char>> {
    seq![
        "mode"@,
        "password"@,
        "proxy"@,
        "proxyRequired"@,
        "source"@,
        "timeoutSecs"@,
        "trusted"@,
        "url"@,
        "username"@,
    ]
}

proof fn lemma_record_names_in_order()
    ensures
        text::in_order(record_names()),
{
    reveal_strlit("mode");
    reveal_strlit("password");
    reveal_strlit("proxy");
    reveal_strlit("proxyRequired");
    reveal_strlit("source");
    reveal_strlit("timeoutSecs");
    reveal_strlit("trusted");
    reveal_strlit("url");
    reveal_strlit("username");
    text::lemma_before_at("mode"@, "password"@, 0);
    text::lemma_before_at("password"@, "proxy"@, 1);
    text::lemma_prefix_before("proxy"@, "proxyRequired"@);
    text::lemma_before_at("proxyRequired"@, "source"@, 0);
    text::lemma_before_at("source"@, "timeoutSecs"@, 0);
    text::lemma_before_at("timeoutSecs"@, "trusted"@, 1);
    text::lemma_before_at("trusted"@, "url"@, 0);
    text::lemma_before_at("url"@, "username"@, 1);
    let s = record_names();
    assert forall|i: int| 0 <= i < s.len() - 1 implies text::before(
        #[trigger] s[i],
        s[i + 1],
    ) by {}
    text::lemma_in_order(s);
}

/// Members picked from names in order, in increasing order of their places, are in order.
proof fn lemma_picked_in_order(names: Seq<Seq<char>>, all: Seq<Seq<char>>, places: Seq<int>)
    requires
        text::in_order(all),
        places.len() == names.len(),
        forall|i: int|
            0 <= i < places.len() ==> 0 <= #[trigger] places[i] < all.len() && names[i]
                == all[places[i]],
        forall|i: int, j: int|
            0 <= i < j < places.len() ==> #[trigger] places[i] < #[trigger] places[j],
    ensures
        text::in_order(names),
{
    assert forall|i: int, j: int| 0 <= i < j < names.len() implies text::before(
        #[trigger] names[i],
        #[trigger] names[j],
    ) by {
        let a = places[i];
        let b = places[j];
        assert(text::before(all[a], all[b]));
    }
}

/// A record's JSON is readable.
pub proof fn lemma_record_readable(rec: NodeRecord)
    ensures
        json::readable(rec.json(), 1),
{
    lemma_record_names_in_order();
    let members = rec.json()->Object_0;
    let ns = json::member_names(members);
    let p: Seq<int> = if rec.password is Some {
        seq![1int]
    } else {
        Seq::empty()
    };
    let x: Seq<int> = if rec.proxy is Some {
        seq![2int]
    } else {
        Seq::empty()
    };
    let u: Seq<int> = if rec.username is Some {
        seq![8int]
    } else {
        Seq::empty()
    };
    let places = seq![0int] + p + x + seq![3int, 4int, 5int, 6int, 7int] + u;
    lemma_picked_in_order(ns, record_names(), places);
    assert forall|i: int| 0 <= i < members.len() implies json::readable(
        (#[trigger] members[i]).1,
        0,
    ) by {
        let v = members[i].1;
        assert(v is Text || v is Bool || (v is Integer && 0 <= v->Integer_0 <= u64::MAX));
    }
}

/// The reply that holds a configuration is readable.
pub proof fn lemma_config_readable(rec: NodeRecord)
    ensures
        json::readable(module::config_tree(Ok(rec)), json::max_depth()),
{
    reveal_strlit("ok");
    reveal_strlit("result");
    text::lemma_before_at("ok"@, "result"@, 0);
    lemma_record_readable(rec);
    json::lemma_readable_deeper(rec.json(), 1, json::max_depth() - 1);
    lemma_two(("ok"@, JsonTree::Bool(true)), ("result"@, rec.json()), json::max_depth());
}

/// An object stays readable with one more member, of a new name and readable, in its place.
pub proof fn lemma_placed_readable(
    members: Seq<(Seq<char>, JsonTree)>,
    m: (Seq<char>, JsonTree),
    depth: int,
)
    requires
        json::readable(JsonTree::Object(members), depth),
        json::readable(m.1, depth - 1),
        !json::member_names(members).contains(m.0),
    ensures
        json::readable(JsonTree::Object(json::placed(members, m)), depth),
        forall|n: Seq<char>| #[trigger]
            json::member_names(json::placed(members, m)).contains(n) <==> n == m.0
                || json::member_names(members).contains(n),
    decreases members.len(),
{
    let out = json::placed(members, m);
    let ns = json::member_names(members);
    let on = json::member_names(out);
    if members.len() == 0 || text::before(m.0, members[0].0) {
        assert(on =~= seq![m.0] + ns);
        assert forall|i: int, j: int| 0 <= i < j < on.len() implies text::before(
            #[trigger] on[i],
            #[trigger] on[j],
        ) by {
            if i > 0 {
                assert(on[i] == ns[i - 1] && on[j] == ns[j - 1]);
            } else if j > 1 {
                assert(on[j] == ns[j - 1]);
                assert(text::before(ns[0], ns[j - 1]));
                text::lemma_before_transitive(m.0, ns[0], ns[j - 1]);
            }
        }
        assert forall|i: int| 0 <= i < out.len() implies json::readable(
            (#[trigger] out[i]).1,
            depth - 1,
        ) by {
            if i > 0 {
                assert(out[i] == members[i - 1]);
            }
        }
        assert forall|n: Seq<char>| #[trigger] on.contains(n) <==> n == m.0 || ns.contains(n) by {
            if ns.contains(n) {
                let k = choose|k: int| 0 <= k < ns.len() && ns[k] == n;
                assert(on[k + 1] == n);
            }
            if n == m.0 {
                assert(on[0] == n);
            }
            if on.contains(n) && n != m.0 {
                let k = choose|k: int| 0 <= k < on.len() && on[k] == n;
                assert(ns[k - 1] == n);
            }
        }
    } else {
        let rest = members.drop_first();
        let rn = json::member_names(rest);
        assert(ns =~= seq![members[0].0] + rn);
        assert(ns[0] == members[0].0);
        assert(ns.contains(members[0].0));
        text::lemma_before_total(m.0, members[0].0);
        assert forall|i: int, j: int| 0 <= i < j < rn.len() implies text::before(
            #[trigger] rn[i],
            #[trigger] rn[j],
        ) by {
            assert(rn[i] == ns[i + 1] && rn[j] == ns[j + 1]);
        }
        assert forall|i: int| 0 <= i < rest.len() implies json::readable(
            (#[trigger] rest[i]).1,
            depth - 1,
        ) by {
            assert(rest[i] == members[i + 1]);
        }
        assert(!rn.contains(m.0)) by {
            if rn.contains(m.0) {
                let k = choose|k: int| 0 <= k < rn.len() && rn[k] == m.0;
                assert(ns[k + 1] == m.0);
            }
        }
        lemma_placed_readable(rest, m, depth);
        let tail = json::placed(rest, m);
        let tn = json::member_names(tail);
        assert(out =~= seq![members[0]] + tail);
        assert(on =~= seq![members[0].0] + tn);
        assert forall|i: int, j: int| 0 <= i < j < on.len() implies text::before(
            #[trigger] on[i],
            #[trigger] on[j],
        ) by {
            assert(on[j] == tn[j - 1]);
            if i > 0 {
                assert(on[i] == tn[i - 1]);
            } else {
                assert(tn.contains(on[j]));
                if on[j] != m.0 {
                    let k = choose|k: int| 0 <= k < rn.len() && rn[k] == on[j];
                    assert(ns[k + 1] == on[j]);
                    assert(text::before(ns[0], ns[k + 1]));
                }
            }
        }
        assert forall|i: int| 0 <= i < out.len() implies json::readable(
            (#[trigger] out[i]).1,
            depth - 1,
        ) by {
            if i > 0 {
                assert(out[i] == tail[i - 1]);
            }
        }
        assert forall|n: Seq<char>| #[trigger] on.contains(n) <==> n == m.0 || ns.contains(n) by {
            if ns.contains(n) {
                let k = choose|k: int| 0 <= k < ns.len() && ns[k] == n;
                if k == 0 {
                    assert(on[0] == n);
                } else {
                    assert(rn[k - 1] == n);
                    assert(tn.contains(n));
                }
            }
            if tn.contains(n) {
                let k = choose|k: int| 0 <= k < tn.len() && tn[k] == n;
                assert(on[k + 1] == n);
            }
            if on.contains(n) {
                let k = choose|k: int| 0 <= k < on.len() && on[k] == n;
                if k > 0 {
                    assert(tn[k - 1] == n);
                    assert(tn.contains(n));
                    if n != m.0 {
                        let q = choose|q: int| 0 <= q < rn.len() && rn[q] == n;
                        assert(ns[q + 1] == n);
                    }
                } else {
                    assert(ns[0] == n);
                }
            }
        }
    }
}

/// A health report is readable, and has neither mode nor local node in it yet.
pub proof fn lemma_health_readable(asked: Result<(JsonTree, Seq<char>), NodeFault>, rtt_ms: u64)
    ensures
        json::readable(call::health_tree(asked, rtt_ms), json::max_depth()),
        !json::member_names(call::health_tree(asked, rtt_ms)->Object_0).contains("mode"@),
        !json::member_names(call::health_tree(asked, rtt_ms)->Object_0).contains("local"@),
{
    reveal_strlit("error");
    reveal_strlit("height");
    reveal_strlit("local");
    reveal_strlit("mode");
    reveal_strlit("ok");
    reveal_strlit("reachable");
    reveal_strlit("restricted");
    reveal_strlit("route");
    reveal_strlit("rttMs");
    reveal_strlit("synced");
    reveal_strlit("targetHeight");
    text::lemma_before_at("error"@, "ok"@, 0);
    text::lemma_before_at("ok"@, "reachable"@, 0);
    text::lemma_before_at("height"@, "ok"@, 0);
    text::lemma_before_at("reachable"@, "restricted"@, 2);
    text::lemma_before_at("restricted"@, "route"@, 1);
    text::lemma_before_at("route"@, "rttMs"@, 1);
    text::lemma_before_at("rttMs"@, "synced"@, 0);
    text::lemma_before_at("synced"@, "targetHeight"@, 0);
    let t = call::health_tree(asked, rtt_ms);
    let members = t->Object_0;
    let ns = json::member_names(members);
    match asked {
        Ok(_) => {
            assert(ns =~= seq![
                "height"@,
                "ok"@,
                "reachable"@,
                "restricted"@,
                "route"@,
                "rttMs"@,
                "synced"@,
                "targetHeight"@,
            ]);
        },
        Err(_) => {
            assert(ns =~= seq!["error"@, "ok"@, "reachable"@]);
        },
    }
    assert forall|i: int| 0 <= i < ns.len() - 1 implies text::before(
        #[trigger] ns[i],
        ns[i + 1],
    ) by {}
    text::lemma_in_order(ns);
    assert forall|i: int| 0 <= i < members.len() implies json::readable(
        (#[trigger] members[i]).1,
        json::max_depth() - 1,
    ) by {
        let v = members[i].1;
        assert(v is Text || v is Bool || v is Null || (v is Integer && 0 <= v->Integer_0
            <= u64::MAX));
    }
    assert forall|i: int| 0 <= i < ns.len() implies #[trigger] ns[i] != "mode"@ && ns[i]
        != "local"@ by {
        assert("mode"@.len() == 4 && "local"@.len() == 5);
        assert("local"@[0] == 'l');
        assert(ns[i].len() != 4);
        assert(ns[i].len() != 5 || ns[i][0] == 'e' || ns[i][0] == 'r');
    }
}

/// The reply to a health check reads back, as long as what it holds of the local node does.
pub proof fn lemma_health_shown_readable(
    m: Map<Seq<char>, NodeRecord>,
    network: Seq<char>,
    asked: Result<(JsonTree, Seq<char>), NodeFault>,
    rtt_ms: u64,
    local: Option<JsonTree>,
)
    requires
        local matches Some(l) ==> json::readable(l, json::max_depth() - 1),
    ensures
        json::readable(
            module::health_shown(m, network, call::health_tree(asked, rtt_ms), local),
            json::max_depth(),
        ),
{
    lemma_health_readable(asked, rtt_ms);
    let members = call::health_tree(asked, rtt_ms)->Object_0;
    let mode = module::mode_in(m, network);
    let with_mode = ("mode"@, JsonTree::Text(mode.name_text()));
    lemma_placed_readable(members, with_mode, json::max_depth());
    if let Some(l) = local {
        reveal_strlit("mode");
        reveal_strlit("local");
        assert("mode"@.len() == 4 && "local"@.len() == 5);
        lemma_placed_readable(json::placed(members, with_mode), ("local"@, l), json::max_depth());
    }
}

/// What is said of the local node reads back, as long as its status does.
pub proof fn lemma_local_readable(
    network: Seq<char>,
    local: Result<Seq<char>, Seq<char>>,
    status: Option<JsonTree>,
    depth: int,
)
    requires
        depth > 0,
        status matches Some(s) ==> json::readable(s, depth - 1),
    ensures
        json::readable(module::local_tree(network, local, status), depth),
{
    reveal_strlit("available");
    reveal_strlit("error");
    reveal_strlit("ok");
    reveal_strlit("rpcUrl");
    reveal_strlit("status");
    text::lemma_before_at("available"@, "error"@, 0);
    text::lemma_before_at("error"@, "ok"@, 0);
    text::lemma_before_at("ok"@, "rpcUrl"@, 0);
    text::lemma_before_at("rpcUrl"@, "status"@, 0);
    let all = seq!["available"@, "error"@, "ok"@, "rpcUrl"@, "status"@];
    assert forall|i: int| 0 <= i < all.len() - 1 implies text::before(
        #[trigger] all[i],
        all[i + 1],
    ) by {}
    text::lemma_in_order(all);
    let t = module::local_tree(network, local, status);
    let members = t->Object_0;
    let ns = json::member_names(members);
    if node::known_network(network) {
        let e: Seq<int> = if local is Err {
            seq![1int]
        } else {
            Seq::empty()
        };
        let u: Seq<int> = if local is Ok {
            seq![3int]
        } else {
            Seq::empty()
        };
        let s: Seq<int> = if status is Some {
            seq![4int]
        } else {
            Seq::empty()
        };
        lemma_picked_in_order(ns, all, seq![0int] + e + seq![2int] + u + s);
        assert forall|i: int| 0 <= i < members.len() implies json::readable(
            (#[trigger] members[i]).1,
            depth - 1,
        ) by {
            let v = members[i].1;
            assert(v is Text || v is Bool || status == Some(v));
        }
    } else {
        lemma_two(
            ("error"@, JsonTree::Text(NodeFault::UnknownNetwork(network).message())),
            ("ok"@, JsonTree::Bool(false)),
            depth,
        );
    }
}

/// The string that is there, as JSON.
pub open spec fn opt_text_tree(value: Option<Seq<char>>) -> Option<JsonTree> {
    match value {
        Some(t) => Some(JsonTree::Text(t)),
        None => None,
    }
}

/// The lengths of the field names, by which all but two of them differ, and that those do.
proof fn lemma_record_names_differ()
    ensures
        "mode"@.len() == 4,
        "password"@.len() == 8,
        "proxy"@.len() == 5,
        "proxyRequired"@.len() == 13,
        "source"@.len() == 6,
        "timeoutSecs"@.len() == 11,
        "trusted"@.len() == 7,
        "url"@.len() == 3,
        "username"@.len() == 8,
        "password"@ != "username"@,
{
    reveal_strlit("mode");
    reveal_strlit("password");
    reveal_strlit("proxy");
    reveal_strlit("proxyRequired");
    reveal_strlit("source");
    reveal_strlit("timeoutSecs");
    reveal_strlit("trusted");
    reveal_strlit("url");
    reveal_strlit("username");
    assert("password"@[0] == 'p' && "username"@[0] == 'u');
}

/// The JSON of a configuration holds each of its fields under the field's name, and leaves out
/// the credentials and the proxy that are not there.
pub proof fn lemma_record_fields(rec: NodeRecord)
    ensures
        rec.json().get("url"@) == Some(JsonTree::Text(rec.url)),
        rec.json().get("username"@) == opt_text_tree(rec.username),
        rec.json().get("password"@) == opt_text_tree(rec.password),
        rec.json().get("proxy"@) == opt_text_tree(rec.proxy),
        rec.json().get("proxyRequired"@) == Some(JsonTree::Bool(rec.proxy_required)),
        rec.json().get("timeoutSecs"@) == Some(JsonTree::Integer(rec.timeout_secs as int)),
        rec.json().get("trusted"@) == Some(JsonTree::Bool(rec.trusted)),
        rec.json().get("source"@) == Some(JsonTree::Text(rec.source)),
        rec.json().get("mode"@) == Some(JsonTree::Text(rec.mode.name_text())),
{
    lemma_record_readable(rec);
    let members = rec.json()->Object_0;
    let ns = json::member_names(members);
    let p: int = if rec.password is Some {
        2
    } else {
        1
    };
    let q: int = if rec.proxy is Some {
        p + 1
    } else {
        p
    };
    assert(members[0].0 == "mode"@);
    assert(members[q].0 == "proxyRequired"@);
    assert(members[q + 1].0 == "source"@);
    assert(members[q + 2].0 == "timeoutSecs"@);
    assert(members[q + 3].0 == "trusted"@);
    assert(members[q + 4].0 == "url"@);
    json::lemma_member_at(members, 0);
    json::lemma_member_at(members, q);
    json::lemma_member_at(members, q + 1);
    json::lemma_member_at(members, q + 2);
    json::lemma_member_at(members, q + 3);
    json::lemma_member_at(members, q + 4);
    lemma_record_names_differ();
    if rec.password is Some {
        assert(members[1].0 == "password"@);
        json::lemma_member_at(members, 1);
    } else {
        assert(!ns.contains("password"@));
        json::lemma_member_absent(members, "password"@);
    }
    if rec.proxy is Some {
        assert(members[p].0 == "proxy"@);
        json::lemma_member_at(members, p);
    } else {
        assert(!ns.contains("proxy"@));
        json::lemma_member_absent(members, "proxy"@);
    }
    if rec.username is Some {
        assert(members[q + 5].0 == "username"@);
        json::lemma_member_at(members, q + 5);
    } else {
        assert(!ns.contains("username"@));
        json::lemma_member_absent(members, "username"@);
    }
}

/// A registry as JSON reads back.
pub proof fn lemma_registry_readable(m: Map<Seq<char>, NodeRecord>)
    requires
        text::in_order(registry::listing(m.dom())),
    ensures
        json::readable(saved::registry_tree(m), json::max_depth()),
{
    let listed = registry::listing(m.dom());
    let members = saved::registry_tree(m)->Object_0;
    assert(json::member_names(members) =~= listed);
    assert forall|i: int| 0 <= i < members.len() implies json::readable(
        (#[trigger] members[i]).1,
        json::max_depth() - 1,
    ) by {
        lemma_record_readable(m[listed[i]]);
        json::lemma_readable_deeper(m[listed[i]].json(), 1, json::max_depth() - 1);
    }
}

} // verus!
