//! The registry as it stands in its file: a JSON object of one configuration per network.
use vstd::prelude::*;

use crate::json;
use crate::json::{Json, JsonTree};
use crate::node::{default_timeout, source_default, NodeConfig, NodeMode, NodeRecord};
use crate::registry;
use crate::shape;
use crate::text;

verus! {

// One configuration

/// The field `name` of a configuration in JSON: the member of that name, or where the
/// configuration is an array, what stands in the field's place.
pub open spec fn field(t: JsonTree, name: Seq<char>, place: int) -> Option<JsonTree> {
    match t {
        JsonTree::Object(members) => json::member(members, name),
        JsonTree::Array(items) => if 0 <= place < items.len() {
            Some(items[place])
        } else {
            None
        },
        _ => None,
    }
}

/// A string that must be there.
pub open spec fn text_field(v: Option<JsonTree>) -> Option<Seq<char>> {
    match v {
        Some(t) => t.as_text(),
        None => None,
    }
}

/// A string that may be absent or null.
pub open spec fn opt_text_field(v: Option<JsonTree>) -> Option<Option<Seq<char>>> {
    match v {
        None => Some(None),
        Some(JsonTree::Null) => Some(None),
        Some(JsonTree::Text(t)) => Some(Some(t)),
        Some(_) => None,
    }
}

/// A truth value, false where it is absent.
pub open spec fn truth_field(v: Option<JsonTree>) -> Option<bool> {
    match v {
        None => Some(false),
        Some(t) => t.as_bool(),
    }
}

/// The timeout, the default one where it is absent.
pub open spec fn timeout_field(v: Option<JsonTree>) -> Option<u64> {
    match v {
        None => Some(8),
        Some(t) => t.as_u64(),
    }
}

/// The source, `external` where it is absent.
pub open spec fn source_field(v: Option<JsonTree>) -> Option<Seq<char>> {
    match v {
        None => Some("external"@),
        Some(t) => t.as_text(),
    }
}

/// The mode, remote unless it says local.
pub open spec fn mode_field(v: Option<JsonTree>) -> NodeMode {
    if text_field(v) == Some("local"@) {
        NodeMode::Local
    } else {
        NodeMode::Remote
    }
}

/// Whether `t` may be a configuration at all: an object, or an array of no more than its fields.
pub open spec fn record_shaped(t: JsonTree) -> bool {
    match t {
        JsonTree::Object(_) => true,
        JsonTree::Array(items) => items.len() <= 9,
        _ => false,
    }
}

/// The configuration that `t` is the JSON of, if it is one: every field that is there has the
/// right type (but for the mode, which is remote unless it says local), and the URL is there.
/// Members of other names are passed over.
pub open spec fn record_of(t: JsonTree) -> Option<NodeRecord> {
    let url = text_field(field(t, "url"@, 0));
    let username = opt_text_field(field(t, "username"@, 1));
    let password = opt_text_field(field(t, "password"@, 2));
    let proxy = opt_text_field(field(t, "proxy"@, 3));
    let proxy_required = truth_field(field(t, "proxyRequired"@, 4));
    let timeout_secs = timeout_field(field(t, "timeoutSecs"@, 5));
    let trusted = truth_field(field(t, "trusted"@, 6));
    let source = source_field(field(t, "source"@, 7));
    let mode = mode_field(field(t, "mode"@, 8));
    if record_shaped(t) && url is Some && username is Some && password is Some && proxy is Some
        && proxy_required is Some && timeout_secs is Some && trusted is Some && source is Some {
        Some(
            NodeRecord {
                url: url->0,
                username: username->0,
                password: password->0,
                proxy: proxy->0,
                proxy_required: proxy_required->0,
                timeout_secs: timeout_secs->0,
                trusted: trusted->0,
                source: source->0,
                mode,
            },
        )
    } else {
        None
    }
}

/// A value that is there, if one is.
pub open spec fn opt_ref(v: Option<&Json>) -> Option<JsonTree> {
    match v {
        Some(j) => Some(j@),
        None => None,
    }
}

fn read_field<'a>(j: &'a Json, name: &str, place: usize) -> (r: Option<&'a Json>)
    ensures
        opt_ref(r) == field(j@, name@, place as int),
{
    match j {
        Json::Array(items) => if place < items.len() {
            assert(j@->Array_0[place as int] == items@[place as int]@);
            Some(&items[place])
        } else {
            None
        },
        _ => j.get(name),
    }
}

fn read_opt_text(v: Option<&Json>) -> (r: Option<Option<String>>)
    ensures
        match r {
            Some(t) => opt_text_field(opt_ref(v)) == Some(text::opt_text(t)),
            None => opt_text_field(opt_ref(v)) is None,
        },
{
    match v {
        None => Some(None),
        Some(Json::Null) => Some(None),
        Some(Json::Text(t)) => Some(Some(t.clone())),
        Some(_) => None,
    }
}

fn read_text(v: Option<&Json>) -> (r: Option<String>)
    ensures
        text::opt_text(r) == text_field(opt_ref(v)),
{
    match v {
        Some(Json::Text(t)) => Some(t.clone()),
        _ => None,
    }
}

fn read_truth(v: Option<&Json>) -> (r: Option<bool>)
    ensures
        r == truth_field(opt_ref(v)),
{
    match v {
        None => Some(false),
        Some(j) => j.as_bool(),
    }
}

impl NodeConfig {
    /// The configuration that `j` is the JSON of, if it is one.
    pub fn from_json(j: &Json) -> (r: Option<NodeConfig>)
        ensures
            match r {
                Some(c) => record_of(j@) == Some(c@),
                None => record_of(j@) is None,
            },
    {
        match j {
            Json::Object(_) => {},
            Json::Array(items) => if items.len() > 9 {
                return None;
            },
            _ => return None,
        }
        let url = match read_text(read_field(j, "url", 0)) {
            Some(t) => t,
            None => return None,
        };
        let username = match read_opt_text(read_field(j, "username", 1)) {
            Some(t) => t,
            None => return None,
        };
        let password = match read_opt_text(read_field(j, "password", 2)) {
            Some(t) => t,
            None => return None,
        };
        let proxy = match read_opt_text(read_field(j, "proxy", 3)) {
            Some(t) => t,
            None => return None,
        };
        let proxy_required = match read_truth(read_field(j, "proxyRequired", 4)) {
            Some(b) => b,
            None => return None,
        };
        let timeout_secs: u64 = match read_field(j, "timeoutSecs", 5) {
            None => default_timeout(),
            Some(n) => match n.as_u64() {
                Some(secs) => secs,
                None => return None,
            },
        };
        let trusted = match read_truth(read_field(j, "trusted", 6)) {
            Some(b) => b,
            None => return None,
        };
        let source = match read_field(j, "source", 7) {
            None => source_default(),
            Some(v) => match read_text(Some(v)) {
                Some(t) => t,
                None => return None,
            },
        };
        let mode = match read_field(j, "mode", 8) {
            Some(v) => NodeMode::of(v.as_str()),
            None => NodeMode::of(None),
        };
        Some(
            NodeConfig {
                url,
                username,
                password,
                proxy,
                proxy_required,
                timeout_secs,
                trusted,
                source,
                mode,
            },
        )
    }
}

/// A configuration's JSON reads as that configuration.
pub proof fn lemma_record_reads_back(rec: NodeRecord)
    ensures
        record_of(rec.json()) == Some(rec),
{
    shape::lemma_record_fields(rec);
    reveal_strlit("remote");
    reveal_strlit("local");
    assert("remote"@.len() == 6 && "local"@.len() == 5);
}

// The registry

/// A registry as JSON: the networks by name, in order.
pub open spec fn registry_tree(m: Map<Seq<char>, NodeRecord>) -> JsonTree {
    JsonTree::Object(
        registry::listing(m.dom()).map_values(|n: Seq<char>| (n, m[n].json())),
    )
}

/// The records that an object's members are.
pub open spec fn read_records(members: Seq<(Seq<char>, JsonTree)>) -> Seq<
    (Seq<char>, NodeRecord),
> {
    members.map_values(|e: (Seq<char>, JsonTree)| (e.0, record_of(e.1)->0))
}

/// The registry that `t` is the JSON of, if it is one: an object with configurations only.
pub open spec fn registry_of(t: JsonTree) -> Option<Map<Seq<char>, NodeRecord>> {
    match t {
        JsonTree::Object(members) => if forall|i: int|
            0 <= i < members.len() ==> record_of((#[trigger] members[i]).1) is Some {
            Some(registry::loaded(read_records(members)))
        } else {
            None
        },
        _ => None,
    }
}

/// The registry that a file holds: an empty one where there is no file, or one that is not JSON or
/// not a registry.
pub open spec fn saved_registry(file: Option<Seq<char>>) -> Map<Seq<char>, NodeRecord> {
    match file {
        Some(text) => match json::json_of_text(text) {
            Some(t) => match registry_of(t) {
                Some(m) => m,
                None => Map::empty(),
            },
            None => Map::empty(),
        },
        None => Map::empty(),
    }
}

/// A registry's JSON reads as that registry.
pub proof fn lemma_registry_reads_back(m: Map<Seq<char>, NodeRecord>)
    requires
        registry::is_listing(registry::listing(m.dom()), m.dom()),
    ensures
        registry_of(registry_tree(m)) == Some(m),
{
    let listed = registry::listing(m.dom());
    let members = registry_tree(m)->Object_0;
    let s = read_records(members);
    assert forall|i: int| 0 <= i < members.len() implies record_of((#[trigger] members[i]).1)
        == Some(m[listed[i]]) by {
        lemma_record_reads_back(m[listed[i]]);
    }
    assert(registry::names(s) =~= listed);
    assert forall|n: Seq<char>| #[trigger]
        m.contains_key(n) <==> registry::names(s).contains(n) by {
        assert(listed.contains(n) <==> m.dom().contains(n));
    }
    assert forall|i: int| 0 <= i < s.len() implies m[#[trigger] s[i].0] == s[i].1 by {
        assert(s[i].0 == listed[i]);
        assert(record_of(members[i].1) == Some(m[listed[i]]));
    }
    registry::lemma_loaded_is(s, m);
}

} // verus!
