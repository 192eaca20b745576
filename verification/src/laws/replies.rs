//! What the module's replies say.
use vstd::prelude::*;

use crate::call;
use crate::json;
use crate::json::JsonTree;
use crate::module;
use crate::node;
use crate::node::{NodeFault, NodeRecord};
use crate::registry;
use crate::shape;
use crate::text;

verus! {

/// A reply is the text printed for what is meant, and reads back as that.
pub proof fn law_reply_reads_back(reply: Seq<char>, t: JsonTree)
    requires
        module::is_reply(reply, t),
    ensures
        reply == json::json_text(t),
        json::json_of_text(reply) == Some(t),
{
}

/// What a user reads of an error.
pub proof fn law_messages(t: Seq<char>, code: i64)
    ensures
        NodeFault::UnknownNetwork(t).message() == "unknown network: "@ + t,
        NodeFault::NotConfigured(t).message() == "network not configured: "@ + t,
        NodeFault::Proxy(t).message() == "proxy: "@ + t,
        NodeFault::Http(t).message() == "http: "@ + t,
        NodeFault::Parse(t).message() == "parse: "@ + t,
        (NodeFault::Rpc { code, message: t }).message() == "rpc error "@ + text::decimal(code as int)
            + ": "@ + t,
{
}

/// The refusal of a request says that it is one, and why, and nothing else.
pub proof fn law_refusal(message: Seq<char>)
    ensures
        call::refusal_tree(message).get("ok"@) == Some(JsonTree::Bool(false)),
        call::refusal_tree(message).get("error"@) == Some(JsonTree::Text(message)),
        call::refusal_tree(message)->Object_0.len() == 2,
{
    shape::lemma_refusal_readable(message);
    let members = call::refusal_tree(message)->Object_0;
    json::lemma_member_at(members, 0);
    json::lemma_member_at(members, 1);
}

/// The reply to a call holds its result and its route, or the error in words, and nothing else.
pub proof fn law_call_reply(result: JsonTree, route: Seq<char>, fault: NodeFault)
    ensures
        ({
            let t = module::call_tree(Ok((result, route)));
            &&& t is Object && t->Object_0.len() == 3
            &&& t.get("ok"@) == Some(JsonTree::Bool(true))
            &&& t.get("result"@) == Some(result)
            &&& t.get("route"@) == Some(JsonTree::Text(route))
        }),
        ({
            let t = module::call_tree(Err(fault));
            &&& t is Object && t->Object_0.len() == 2
            &&& t.get("ok"@) == Some(JsonTree::Bool(false))
            &&& t.get("error"@) == Some(JsonTree::Text(fault.message()))
        }),
{
    reveal_strlit("ok");
    reveal_strlit("result");
    reveal_strlit("route");
    assert("ok"@.len() == 2 && "result"@.len() == 6 && "route"@.len() == 5);
    let members = module::call_tree(Ok((result, route)))->Object_0;
    json::lemma_member_first(members, 0);
    json::lemma_member_first(members, 1);
    json::lemma_member_first(members, 2);
    law_refusal(fault.message());
}

/// The reply that only says that all went well says that, and one that holds a configuration holds
/// its JSON, or the error in words.
pub proof fn law_config_reply(rec: NodeRecord, fault: NodeFault)
    ensures
        module::done_tree()->Object_0.len() == 1,
        module::done_tree().get("ok"@) == Some(JsonTree::Bool(true)),
        module::config_tree(Ok(rec))->Object_0.len() == 2,
        module::config_tree(Ok(rec)).get("ok"@) == Some(JsonTree::Bool(true)),
        module::config_tree(Ok(rec)).get("result"@) == Some(rec.json()),
        module::config_tree(Err(fault))->Object_0.len() == 2,
        module::config_tree(Err(fault)).get("ok"@) == Some(JsonTree::Bool(false)),
        module::config_tree(Err(fault)).get("error"@) == Some(JsonTree::Text(fault.message())),
{
    json::lemma_member_first(module::done_tree()->Object_0, 0);
    shape::lemma_config_readable(rec);
    let members = module::config_tree(Ok(rec))->Object_0;
    json::lemma_member_at(members, 0);
    json::lemma_member_at(members, 1);
    law_refusal(fault.message());
}

/// Storing a configuration replies that it is done where it was read and the network is one, and
/// only then changes the registry; else it replies why not. Showing one replies with what is
/// stored, or that nothing is.
pub proof fn law_config_methods(
    m: Map<Seq<char>, NodeRecord>,
    network: Seq<char>,
    read: Result<NodeRecord, Seq<char>>,
    after: Map<Seq<char>, NodeRecord>,
    reply: Seq<char>,
)
    ensures
        module::config_set(m, network, read, after, reply) ==> {
            &&& json::json_of_text(reply) matches Some(t)
            &&& match read {
                Err(e) => {
                    &&& after == m
                    &&& t.get("ok"@) == Some(JsonTree::Bool(false))
                    &&& t.get("error"@) == Some(JsonTree::Text("bad config: "@ + e))
                },
                Ok(rec) => if node::known_network(network) {
                    &&& after == m.insert(
                        network,
                        NodeRecord { url: node::normalised_url(rec.url), ..rec },
                    )
                    &&& t.get("ok"@) == Some(JsonTree::Bool(true))
                    &&& t.get("error"@) is None
                } else {
                    &&& after == m
                    &&& t.get("ok"@) == Some(JsonTree::Bool(false))
                    &&& t.get("error"@) == Some(JsonTree::Text("unknown network: "@ + network))
                },
            }
        },
        module::config_shown(m, network, reply) ==> {
            &&& json::json_of_text(reply) matches Some(t)
            &&& t.get("ok"@) == Some(JsonTree::Bool(m.contains_key(network)))
            &&& m.contains_key(network) ==> t.get("result"@) == Some(m[network].json())
            &&& !m.contains_key(network) ==> t.get("error"@) == Some(
                JsonTree::Text("network not configured: "@ + network),
            )
        },
{
    if let Err(e) = read {
        law_refusal("bad config: "@ + e);
    }
    law_refusal("unknown network: "@ + network);
    law_config_reply(m[network], NodeFault::NotConfigured(network));
    let done = module::done_tree()->Object_0;
    reveal_strlit("ok");
    reveal_strlit("error");
    assert("ok"@.len() == 2 && "error"@.len() == 5);
    assert(!json::member_names(done).contains("error"@));
    json::lemma_member_absent(done, "error"@);
}

/// The replies that list networks and seeded fields hold the given texts in the given order.
pub proof fn law_list_replies(names: Seq<Seq<char>>)
    ensures
        ({
            let t = module::networks_tree(names);
            &&& t is Object && t->Object_0.len() == 2
            &&& t.get("ok"@) == Some(JsonTree::Bool(true))
            &&& t.get("networks"@) matches Some(JsonTree::Array(items))
            &&& items.len() == names.len()
            &&& forall|i: int|
                0 <= i < names.len() ==> #[trigger] items[i] == JsonTree::Text(names[i])
        }),
        ({
            let t = module::applied_tree(names);
            &&& t is Object && t->Object_0.len() == 2
            &&& t.get("ok"@) == Some(JsonTree::Bool(true))
            &&& t.get("applied"@) matches Some(JsonTree::Array(items))
            &&& items.len() == names.len()
            &&& forall|i: int|
                0 <= i < names.len() ==> #[trigger] items[i] == JsonTree::Text(names[i])
        }),
{
    shape::lemma_networks_readable(names);
    shape::lemma_applied_readable(names);
    json::lemma_member_at(module::networks_tree(names)->Object_0, 0);
    json::lemma_member_at(module::networks_tree(names)->Object_0, 1);
    json::lemma_member_at(module::applied_tree(names)->Object_0, 0);
    json::lemma_member_at(module::applied_tree(names)->Object_0, 1);
}

/// A change that was not saved is answered with the reason and not with the change's own reply; and
/// a removal that was not saved, or removed nothing, is answered with no.
pub proof fn law_saved_replies(
    reply: Seq<char>,
    saved: Result<(), NodeFault>,
    r: Seq<char>,
    removed: bool,
    yes: bool,
)
    ensures
        module::saved_replied(reply, saved, r) ==> match saved {
            Ok(_) => r == reply,
            Err(fault) => {
                &&& json::json_of_text(r) matches Some(t)
                &&& t.get("ok"@) == Some(JsonTree::Bool(false))
                &&& t.get("error"@) == Some(JsonTree::Text(fault.message()))
            },
        },
        module::removed_replied(removed, saved, yes) ==> {
            &&& yes ==> removed && saved is Ok
            &&& removed && saved is Ok ==> yes
        },
{
    if let Err(fault) = saved {
        law_refusal(fault.message());
    }
}

/// What the module shows of its registry reads back as what the registry holds: what a wallet
/// dials, the names of the networks in order, the status, and the fields that seeding filled.
pub proof fn law_shown(
    m: Map<Seq<char>, NodeRecord>,
    after: Map<Seq<char>, NodeRecord>,
    network: Seq<char>,
    local: Result<Seq<char>, Seq<char>>,
    reply: Seq<char>,
)
    ensures
        module::effective_shown(m, network, local, reply) ==> {
            &&& json::json_of_text(reply) matches Some(t)
            &&& match registry::effective_in(m, network, local) {
                Ok(rec) => {
                    &&& t.get("ok"@) == Some(JsonTree::Bool(true))
                    &&& t.get("result"@) == Some(rec.json())
                },
                Err(fault) => {
                    &&& t.get("ok"@) == Some(JsonTree::Bool(false))
                    &&& t.get("error"@) == Some(JsonTree::Text(fault.message()))
                },
            }
        },
        module::networks_shown(m, reply) ==> {
            &&& json::json_of_text(reply) matches Some(t)
            &&& t.get("ok"@) == Some(JsonTree::Bool(true))
            &&& t.get("networks"@) == Some(
                JsonTree::Array(
                    Seq::new(
                        registry::listing(m.dom()).len(),
                        |i: int| JsonTree::Text(registry::listing(m.dom())[i]),
                    ),
                ),
            )
        },
        module::status_shown(m, reply) ==> json::json_of_text(reply) == Some(
            registry::status_tree(m),
        ),
        module::defaults_set(m, after, reply) ==> {
            &&& after == registry::seeded(m)
            &&& json::json_of_text(reply) matches Some(t)
            &&& t.get("ok"@) == Some(JsonTree::Bool(true))
            &&& t.get("applied"@) == Some(
                JsonTree::Array(
                    Seq::new(
                        registry::seeds(m).len(),
                        |i: int| JsonTree::Text(registry::seeds(m)[i]),
                    ),
                ),
            )
        },
{
    match registry::effective_in(m, network, local) {
        Ok(rec) => law_config_reply(rec, NodeFault::NotConfigured(network)),
        Err(fault) => law_config_reply(m[network], fault),
    }
    let listed = registry::listing(m.dom());
    let seeds = registry::seeds(m);
    law_list_replies(listed);
    law_list_replies(seeds);
    assert(module::networks_tree(listed).get("networks"@)->0->Array_0 =~= Seq::new(
        listed.len(),
        |i: int| JsonTree::Text(listed[i]),
    ));
    assert(module::applied_tree(seeds).get("applied"@)->0->Array_0 =~= Seq::new(
        seeds.len(),
        |i: int| JsonTree::Text(seeds[i]),
    ));
}

/// What is said of the local node: whether it has an address for the network, and then which, or
/// why not; and its status where it gave one. An unknown network is refused.
pub proof fn law_local_reply(
    network: Seq<char>,
    local: Result<Seq<char>, Seq<char>>,
    status: Option<JsonTree>,
)
    ensures
        ({
            let t = module::local_tree(network, local, status);
            if node::known_network(network) {
                &&& t is Object && t->Object_0.len() == if status is Some {
                    4int
                } else {
                    3
                }
                &&& t.get("ok"@) == Some(JsonTree::Bool(true))
                &&& t.get("available"@) == Some(JsonTree::Bool(local is Ok))
                &&& t.get("status"@) == status
                &&& match local {
                    Ok(url) => {
                        &&& t.get("rpcUrl"@) == Some(JsonTree::Text(url))
                        &&& t.get("error"@) is None
                    },
                    Err(e) => {
                        &&& t.get("error"@) == Some(JsonTree::Text(e))
                        &&& t.get("rpcUrl"@) is None
                    },
                }
            } else {
                &&& t.get("ok"@) == Some(JsonTree::Bool(false))
                &&& t.get("error"@) == Some(JsonTree::Text("unknown network: "@ + network))
            }
        }),
{
    reveal_strlit("available");
    reveal_strlit("error");
    reveal_strlit("ok");
    reveal_strlit("rpcUrl");
    reveal_strlit("status");
    assert("available"@.len() == 9 && "error"@.len() == 5 && "ok"@.len() == 2 && "rpcUrl"@.len()
        == 6 && "status"@.len() == 6);
    assert("rpcUrl"@[0] == 'r' && "status"@[0] == 's');
    if node::known_network(network) {
        let members = module::local_tree(network, local, status)->Object_0;
        let ns = json::member_names(members);
        json::lemma_member_first(members, 0);
        match local {
            Ok(_) => {
                assert(members[1].0 == "ok"@ && members[2].0 == "rpcUrl"@);
                json::lemma_member_first(members, 1);
                json::lemma_member_first(members, 2);
                assert(!ns.contains("error"@));
                json::lemma_member_absent(members, "error"@);
            },
            Err(_) => {
                assert(members[1].0 == "error"@ && members[2].0 == "ok"@);
                json::lemma_member_first(members, 1);
                json::lemma_member_first(members, 2);
                assert(!ns.contains("rpcUrl"@));
                json::lemma_member_absent(members, "rpcUrl"@);
            },
        }
        if status is Some {
            assert(members[3].0 == "status"@);
            json::lemma_member_first(members, 3);
        } else {
            assert(!ns.contains("status"@));
            json::lemma_member_absent(members, "status"@);
        }
    } else {
        law_refusal(NodeFault::UnknownNetwork(network).message());
    }
}

/// The health reply for a network that is none is its refusal, unchanged.
pub proof fn law_health_of_no_network(
    m: Map<Seq<char>, NodeRecord>,
    network: Seq<char>,
    report: JsonTree,
    local: Option<JsonTree>,
)
    requires
        !node::known_network(network),
    ensures
        module::health_shown(m, network, report, local) == report,
{
}

/// An error of the local node module that ends in an object with the code `object_unavailable` says
/// that the module is not loaded; any other is told in full.
pub proof fn law_why(a: Seq<char>, b: Seq<char>)
    requires
        !a.contains('{'),
    ensures
        module::explained(a, module::detail_of(a)) == "monerod_module: "@ + a,
        ({
            let error = a + seq!['{'] + b;
            let detail = json::json_of_text(seq!['{'] + b);
            let absent = detail is Some && detail->0.get("code"@) == Some(
                JsonTree::Text("object_unavailable"@),
            );
            module::explained(error, module::detail_of(error)) == if absent {
                "monerod_module is not loaded"@
            } else {
                "monerod_module: "@ + error
            }
        }),
{
    crate::laws::texts::law_rest_from(a, '{', b);
}

} // verus!
