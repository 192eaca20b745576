//! JSON values. `Json` is what the library reads and builds; text and bytes become such a value,
//! and such a value becomes text, through `serde_json`.
use vstd::prelude::*;

use crate::text;
use crate::text::{comes_before, same};

verus! {

/// A JSON value. A number is an `Integer` where it is one, else a `Real`, held as the decimal
/// text that `serde_json` prints for it. An object is its members in order.
#[derive(Debug)]
pub enum Json {
    Null,
    Bool(bool),
    Integer(i128),
    Real(String),
    Text(String),
    Array(Vec<Json>),
    Object(Vec<(String, Json)>),
}

/// The mathematical form of a [`Json`].
pub enum JsonTree {
    Null,
    Bool(bool),
    Integer(int),
    Real(Seq<char>),
    Text(Seq<char>),
    Array(Seq<JsonTree>),
    Object(Seq<(Seq<char>, JsonTree)>),
}

impl View for Json {
    type V = JsonTree;

    open spec fn view(&self) -> JsonTree {
        tree(*self)
    }
}

/// The tree that `j` stands for.
pub open spec fn tree(j: Json) -> JsonTree
    decreases j,
{
    match j {
        Json::Null => JsonTree::Null,
        Json::Bool(b) => JsonTree::Bool(b),
        Json::Integer(n) => JsonTree::Integer(n as int),
        Json::Real(t) => JsonTree::Real(t@),
        Json::Text(t) => JsonTree::Text(t@),
        Json::Array(items) => JsonTree::Array(
            Seq::new(
                items@.len(),
                |i: int|
                    if 0 <= i < items@.len() {
                        tree(items@[i])
                    } else {
                        JsonTree::Null
                    },
            ),
        ),
        Json::Object(members) => JsonTree::Object(
            Seq::new(
                members@.len(),
                |i: int|
                    if 0 <= i < members@.len() {
                        (members@[i].0@, tree(members@[i].1))
                    } else {
                        (Seq::empty(), JsonTree::Null)
                    },
            ),
        ),
    }
}

/// The members of an object in the making.
pub open spec fn member_trees(members: Seq<(String, Json)>) -> Seq<(Seq<char>, JsonTree)> {
    members.map_values(|m: (String, Json)| (m.0@, m.1@))
}

/// The value under `key` in an object's members.
pub open spec fn member(members: Seq<(Seq<char>, JsonTree)>, key: Seq<char>) -> Option<JsonTree>
    decreases members.len(),
{
    if members.len() == 0 {
        None
    } else if members[0].0 == key {
        Some(members[0].1)
    } else {
        member(members.drop_first(), key)
    }
}

impl JsonTree {
    /// The value under `key`; nothing where the value is no object or has no such member.
    pub open spec fn get(self, key: Seq<char>) -> Option<JsonTree> {
        match self {
            JsonTree::Object(members) => member(members, key),
            _ => None,
        }
    }

    /// The integer, where the value is one that fits an `i64`.
    pub open spec fn as_i64(self) -> Option<i64> {
        match self {
            JsonTree::Integer(n) => if i64::MIN <= n <= i64::MAX {
                Some(n as i64)
            } else {
                None
            },
            _ => None,
        }
    }

    /// The integer, where the value is one that fits a `u64`.
    pub open spec fn as_u64(self) -> Option<u64> {
        match self {
            JsonTree::Integer(n) => if 0 <= n <= u64::MAX {
                Some(n as u64)
            } else {
                None
            },
            _ => None,
        }
    }

    /// The truth value, where the value is one.
    pub open spec fn as_bool(self) -> Option<bool> {
        match self {
            JsonTree::Bool(b) => Some(b),
            _ => None,
        }
    }

    /// The characters, where the value is a string.
    pub open spec fn as_text(self) -> Option<Seq<char>> {
        match self {
            JsonTree::Text(t) => Some(t),
            _ => None,
        }
    }
}

/// The names of an object's members.
pub open spec fn member_names(members: Seq<(Seq<char>, JsonTree)>) -> Seq<Seq<char>> {
    members.map_values(|m: (Seq<char>, JsonTree)| m.0)
}

/// Whether the text printed for a tree reads back as the same tree: its integers fit `serde_json`'s
/// numbers, it has no other numbers, its objects hold each name once and in order, and its arrays
/// and objects nest at most `depth` deep.
pub open spec fn readable(t: JsonTree, depth: int) -> bool
    decreases t,
{
    match t {
        JsonTree::Null => true,
        JsonTree::Bool(_) => true,
        JsonTree::Integer(n) => i64::MIN <= n <= u64::MAX,
        JsonTree::Real(_) => false,
        JsonTree::Text(_) => true,
        JsonTree::Array(items) => {
            &&& depth > 0
            &&& forall|i: int| 0 <= i < items.len() ==> readable(#[trigger] items[i], depth - 1)
        },
        JsonTree::Object(members) => {
            &&& depth > 0
            &&& text::in_order(member_names(members))
            &&& forall|i: int|
                0 <= i < members.len() ==> readable((#[trigger] members[i]).1, depth - 1)
        },
    }
}

/// How deep `serde_json` follows nested arrays and objects.
pub open spec fn max_depth() -> int {
    127
}

/// What is readable at one depth is readable at a greater one.
pub proof fn lemma_readable_deeper(t: JsonTree, d: int, e: int)
    requires
        readable(t, d),
        d <= e,
    ensures
        readable(t, e),
    decreases t,
{
    match t {
        JsonTree::Array(items) => {
            assert forall|i: int| 0 <= i < items.len() implies readable(
                #[trigger] items[i],
                e - 1,
            ) by {
                lemma_readable_deeper(items[i], d - 1, e - 1);
            }
        },
        JsonTree::Object(members) => {
            assert forall|i: int| 0 <= i < members.len() implies readable(
                (#[trigger] members[i]).1,
                e - 1,
            ) by {
                lemma_readable_deeper(members[i].1, d - 1, e - 1);
            }
        },
        _ => {},
    }
}

/// An array of strings is readable.
pub proof fn lemma_readable_texts(items: Seq<Seq<char>>)
    ensures
        readable(text_array_tree(items), 1),
{
    let t = text_array_tree(items);
    assert forall|i: int| 0 <= i < t->Array_0.len() implies readable(
        #[trigger] t->Array_0[i],
        0,
    ) by {
        assert(t->Array_0[i] == JsonTree::Text(items[i]));
    }
}

/// The members of an object with one more, in its place by name.
pub open spec fn placed(members: Seq<(Seq<char>, JsonTree)>, m: (Seq<char>, JsonTree)) -> Seq<
    (Seq<char>, JsonTree),
>
    decreases members.len(),
{
    if members.len() == 0 || text::before(m.0, members[0].0) {
        seq![m] + members
    } else {
        seq![members[0]] + placed(members.drop_first(), m)
    }
}

proof fn lemma_placed(members: Seq<(Seq<char>, JsonTree)>, m: (Seq<char>, JsonTree), i: int)
    requires
        0 <= i <= members.len(),
        forall|k: int| 0 <= k < i ==> !text::before(m.0, (#[trigger] members[k]).0),
        i < members.len() ==> text::before(m.0, members[i].0),
    ensures
        placed(members, m) == members.insert(i, m),
    decreases i,
{
    if i == 0 {
        assert(members.insert(0, m) =~= seq![m] + members);
    } else {
        let rest = members.drop_first();
        assert forall|k: int| 0 <= k < i - 1 implies !text::before(
            m.0,
            (#[trigger] rest[k]).0,
        ) by {
            assert(rest[k] == members[k + 1]);
        }
        assert(!text::before(m.0, members[0].0));
        lemma_placed(rest, m, i - 1);
        assert(members.insert(i, m) =~= seq![members[0]] + rest.insert(i - 1, m));
    }
}

/// In an object that holds each name once and in order, every member is found under its name.
pub proof fn lemma_member_at(members: Seq<(Seq<char>, JsonTree)>, i: int)
    requires
        text::in_order(member_names(members)),
        0 <= i < members.len(),
    ensures
        member(members, members[i].0) == Some(members[i].1),
    decreases i,
{
    let ns = member_names(members);
    if i > 0 {
        let rest = members.drop_first();
        assert(ns[0] == members[0].0 && ns[i] == members[i].0);
        assert(text::before(ns[0], ns[i]));
        text::lemma_before_irreflexive(members[i].0);
        assert(member_names(rest) =~= ns.drop_first());
        assert(rest[i - 1] == members[i]);
        lemma_member_at(rest, i - 1);
    }
}

/// The first member of a name is the one that is found under it.
pub proof fn lemma_member_first(members: Seq<(Seq<char>, JsonTree)>, i: int)
    requires
        0 <= i < members.len(),
        forall|j: int| 0 <= j < i ==> (#[trigger] members[j]).0 != members[i].0,
    ensures
        member(members, members[i].0) == Some(members[i].1),
    decreases i,
{
    if i > 0 {
        let rest = members.drop_first();
        assert(members[0].0 != members[i].0);
        assert(rest[i - 1] == members[i]);
        assert forall|j: int| 0 <= j < i - 1 implies (#[trigger] rest[j]).0 != rest[i - 1].0 by {
            assert(rest[j] == members[j + 1]);
        }
        lemma_member_first(rest, i - 1);
    }
}

/// A name that no member has is not found.
pub proof fn lemma_member_absent(members: Seq<(Seq<char>, JsonTree)>, key: Seq<char>)
    requires
        !member_names(members).contains(key),
    ensures
        member(members, key) is None,
    decreases members.len(),
{
    if members.len() > 0 {
        let ns = member_names(members);
        let rest = members.drop_first();
        assert(ns[0] == members[0].0);
        assert(member_names(rest) =~= ns.drop_first());
        if member_names(rest).contains(key) {
            let k = choose|k: int| 0 <= k < rest.len() && member_names(rest)[k] == key;
            assert(ns[k + 1] == key);
        }
        lemma_member_absent(rest, key);
    }
}

/// A member of a new name is found once it is placed, and every other one as before.
pub proof fn lemma_member_placed(
    members: Seq<(Seq<char>, JsonTree)>,
    m: (Seq<char>, JsonTree),
    key: Seq<char>,
)
    requires
        !member_names(members).contains(m.0),
    ensures
        member(placed(members, m), key) == if key == m.0 {
            Some(m.1)
        } else {
            member(members, key)
        },
    decreases members.len(),
{
    let p = placed(members, m);
    let ns = member_names(members);
    if members.len() == 0 || text::before(m.0, members[0].0) {
        assert(p[0] == m);
        assert(p.drop_first() =~= members);
    } else {
        let rest = members.drop_first();
        assert(ns[0] == members[0].0);
        assert(member_names(rest) =~= ns.drop_first());
        if member_names(rest).contains(m.0) {
            let k = choose|k: int| 0 <= k < rest.len() && member_names(rest)[k] == m.0;
            assert(ns[k + 1] == m.0);
        }
        lemma_member_placed(rest, m, key);
        assert(p[0] == members[0]);
        assert(p.drop_first() =~= placed(rest, m));
    }
}

/// Adds a member to an object in the making, in its place by name.
pub fn place_member(members: &mut Vec<(String, Json)>, name: &str, value: Json)
    ensures
        member_trees(final(members)@) == placed(member_trees(old(members)@), (name@, value@)),
{
    let ghost start = member_trees(members@);
    let ghost m = (name@, value@);
    let mut i: usize = 0;
    while i < members.len() && !comes_before(name, members[i].0.as_str())
        invariant
            i <= members.len(),
            start == member_trees(members@),
            m.0 == name@,
            forall|k: int| 0 <= k < i ==> !text::before(m.0, (#[trigger] start[k]).0),
        decreases members.len() - i,
    {
        assert(start[i as int].0 == members@[i as int].0@);
        i = i + 1;
    }
    proof {
        if i < members.len() {
            assert(start[i as int].0 == members@[i as int].0@);
        }
        lemma_placed(start, m, i as int);
    }
    members.insert(i, (name.to_owned(), value));
    assert(member_trees(members@) =~= start.insert(i as int, m));
}

/// Adds a member to an object in the making.
pub fn add_member(members: &mut Vec<(String, Json)>, name: &str, value: Json)
    ensures
        member_trees(final(members)@) == member_trees(old(members)@).push((name@, value@)),
{
    members.push((name.to_owned(), value));
    assert(member_trees(members@) =~= member_trees(old(members)@).push((name@, value@)));
}

/// The object with the given members.
pub fn object(members: Vec<(String, Json)>) -> (r: Json)
    ensures
        r@ == JsonTree::Object(member_trees(members@)),
{
    let r = Json::Object(members);
    assert(r@->Object_0 =~= member_trees(members@));
    r
}

/// The array of the given strings.
pub fn text_array(items: &Vec<String>) -> (r: Json)
    ensures
        r@ == text_array_tree(text::texts(items@)),
{
    let mut a: Vec<Json> = Vec::new();
    for i in 0..items.len()
        invariant
            a@.len() == i,
            forall|k: int| 0 <= k < i ==> (#[trigger] a@[k])@ == JsonTree::Text(items@[k]@),
    {
        a.push(Json::Text(items[i].clone()));
    }
    let r = Json::Array(a);
    assert(r@->Array_0 =~= text_array_tree(text::texts(items@))->Array_0);
    r
}

/// The array of the given strings.
pub open spec fn text_array_tree(items: Seq<Seq<char>>) -> JsonTree {
    JsonTree::Array(items.map_values(|t: Seq<char>| JsonTree::Text(t)))
}

impl Json {
    /// The value under `key`; nothing where this is no object or has no such member.
    pub fn get(&self, key: &str) -> (r: Option<&Json>)
        ensures
            match r {
                Some(j) => self@.get(key@) == Some(j@),
                None => self@.get(key@) is None,
            },
    {
        match self {
            Json::Object(members) => {
                let ghost all = self@->Object_0;
                assert(all.skip(0) =~= all);
                for i in 0..members.len()
                    invariant
                        all == self@->Object_0,
                        *self == Json::Object(*members),
                        member(all, key@) == member(all.skip(i as int), key@),
                {
                    assert(all[i as int] == (members@[i as int].0@, members@[i as int].1@));
                    if same(members[i].0.as_str(), key) {
                        return Some(&members[i].1);
                    }
                    assert(all.skip(i as int).drop_first() =~= all.skip(i + 1));
                }
                None
            },
            _ => None,
        }
    }

    /// The value under `key`, taken out of the object.
    pub fn take(self, key: &str) -> (r: Option<Json>)
        ensures
            match r {
                Some(j) => self@.get(key@) == Some(j@),
                None => self@.get(key@) is None,
            },
    {
        let ghost whole = self@;
        match self {
            Json::Object(members) => {
                let mut members = members;
                let ghost all = whole->Object_0;
                assert(all.skip(0) =~= all);
                let count: usize = members.len();
                for i in 0..count
                    invariant
                        count == members@.len(),
                        whole == self@,
                        whole is Object,
                        all == whole->Object_0,
                        all.len() == members@.len(),
                        forall|k: int|
                            0 <= k < all.len() ==> #[trigger] all[k] == (
                                members@[k].0@,
                                members@[k].1@,
                            ),
                        member(all, key@) == member(all.skip(i as int), key@),
                {
                    assert(all[i as int] == (members@[i as int].0@, members@[i as int].1@));
                    if same(members[i].0.as_str(), key) {
                        let (_, value) = members.swap_remove(i);
                        return Some(value);
                    }
                    assert(all.skip(i as int).drop_first() =~= all.skip(i + 1));
                }
                None
            },
            _ => None,
        }
    }

    /// The integer, where this is one that fits an `i64`.
    pub fn as_i64(&self) -> (r: Option<i64>)
        ensures
            r == self@.as_i64(),
    {
        match self {
            Json::Integer(n) => if i64::MIN as i128 <= *n && *n <= i64::MAX as i128 {
                Some(*n as i64)
            } else {
                None
            },
            _ => None,
        }
    }

    /// The integer, where this is one that fits a `u64`.
    pub fn as_u64(&self) -> (r: Option<u64>)
        ensures
            r == self@.as_u64(),
    {
        match self {
            Json::Integer(n) => if 0 <= *n && *n <= u64::MAX as i128 {
                Some(*n as u64)
            } else {
                None
            },
            _ => None,
        }
    }

    /// The truth value, where this is one.
    pub fn as_bool(&self) -> (r: Option<bool>)
        ensures
            r == self@.as_bool(),
    {
        match self {
            Json::Bool(b) => Some(*b),
            _ => None,
        }
    }

    /// The string, where this is one.
    pub fn as_str(&self) -> (r: Option<&str>)
        ensures
            match r {
                Some(t) => self@.as_text() == Some(t@),
                None => self@.as_text() is None,
            },
    {
        match self {
            Json::Text(t) => Some(t.as_str()),
            _ => None,
        }
    }

    /// The value that `text` is the JSON of, or nothing where it is not JSON.
    pub fn parse(text: &str) -> (r: Option<Json>)
        ensures
            match r {
                Some(j) => json_of_text(text@) == Some(j@),
                None => json_of_text(text@) is None,
            },
    {
        parse_text(text)
    }

    /// The value that `bytes` are the JSON of, or nothing where they are not JSON.
    pub fn parse_bytes(bytes: &[u8]) -> (r: Option<Json>)
        ensures
            match r {
                Some(j) => json_of_bytes(bytes@) == Some(j@),
                None => json_of_bytes(bytes@) is None,
            },
    {
        parse_slice(bytes)
    }

    /// The value as compact JSON text.
    pub fn to_text(&self) -> (r: String)
        ensures
            r@ == json_text(self@),
            readable(self@, max_depth()) ==> json_of_text(r@) == Some(self@),
    {
        print_value(self)
    }

    /// The value as JSON text over several lines, for a file that people may read.
    pub fn to_pretty_text(&self) -> (r: Result<String, String>)
        ensures
            r matches Ok(t) && t@ == json_pretty_text(self@) && (readable(self@, max_depth())
                ==> json_of_text(t@) == Some(self@)),
    {
        print_pretty(self)
    }
}

// What serde_json does

/// The tree that `serde_json` reads from a text, or nothing where it refuses the text.
pub uninterp spec fn json_of_text(text: Seq<char>) -> Option<JsonTree>;

/// The tree that `serde_json` reads from bytes, or nothing where it refuses them.
pub uninterp spec fn json_of_bytes(bytes: Seq<u8>) -> Option<JsonTree>;

/// The compact text that `serde_json` prints for a tree.
pub uninterp spec fn json_text(t: JsonTree) -> Seq<char>;

/// The text over several lines that `serde_json` prints for a tree.
pub uninterp spec fn json_pretty_text(t: JsonTree) -> Seq<char>;

/// `serde_json::Value`, which only passes between the functions below.
#[verifier::external_type_specification]
#[verifier::external_body]
pub struct ExValue(serde_json::Value);

/// A `serde_json::Value` as a [`Json`], variant for variant: an integer number
/// (`Number::as_i128`) as its value, any other number as the text it prints as. Nothing is
/// claimed of it here; [`parse_text`] and [`parse_slice`] name what they make with it.
#[verifier::external_body]
fn from_value(v: serde_json::Value) -> (r: Json) {
    match v {
        serde_json::Value::Null => Json::Null,
        serde_json::Value::Bool(b) => Json::Bool(b),
        serde_json::Value::Number(n) => match n.as_i128() {
            Some(i) => Json::Integer(i),
            None => Json::Real(n.to_string()),
        },
        serde_json::Value::String(s) => Json::Text(s),
        serde_json::Value::Array(a) => Json::Array(a.into_iter().map(from_value).collect()),
        serde_json::Value::Object(m) => Json::Object(
            m.into_iter().map(|(k, v)| (k, from_value(v))).collect(),
        ),
    }
}

/// A [`Json`] as a `serde_json::Value`, variant for variant; a number that `serde_json` cannot
/// hold becomes null. Nothing is claimed of it here; those that use it say what they make with it.
#[verifier::external_body]
pub(crate) fn to_value(j: &Json) -> (r: serde_json::Value) {
    match j {
        Json::Null => serde_json::Value::Null,
        Json::Bool(b) => (*b).into(),
        Json::Integer(n) => serde_json::Number::from_i128(*n).into(),
        Json::Real(t) => t.parse().ok().and_then(serde_json::Number::from_f64).into(),
        Json::Text(t) => t.as_str().into(),
        Json::Array(a) => a.iter().map(to_value).collect(),
        Json::Object(m) => m.iter().map(|(k, v)| (k.as_str(), to_value(v))).collect(),
    }
}

/// `serde_json::from_str` into a `Value`: what it gives depends on the text alone.
#[verifier::external_body]
fn parse_text(text: &str) -> (r: Option<Json>)
    ensures
        match r {
            Some(j) => json_of_text(text@) == Some(j@),
            None => json_of_text(text@) is None,
        },
{
    serde_json::from_str(text).ok().map(from_value)
}

/// `serde_json::from_slice` into a `Value`: what it gives depends on the bytes alone.
#[verifier::external_body]
fn parse_slice(bytes: &[u8]) -> (r: Option<Json>)
    ensures
        match r {
            Some(j) => json_of_bytes(bytes@) == Some(j@),
            None => json_of_bytes(bytes@) is None,
        },
{
    serde_json::from_slice(bytes).ok().map(from_value)
}

/// The text of a `serde_json::Value` (its `Display`, compact): it depends on the value alone, and
/// `from_str` reads the value back from it, as long as neither the numbers, nor the order of
/// names, nor `from_str`'s limit on nesting stands in the way.
#[verifier::external_body]
fn print_value(j: &Json) -> (r: String)
    ensures
        r@ == json_text(j@),
        readable(j@, max_depth()) ==> json_of_text(r@) == Some(j@),
{
    to_value(j).to_string()
}

/// `serde_json::to_string_pretty` of a `Value`: it depends on the value alone, never fails (a
/// `Value` has text for names only, and what is written to is memory), and `from_str` reads the
/// value back from it, with the exceptions of [`print_value`].
#[verifier::external_body]
fn print_pretty(j: &Json) -> (r: Result<String, String>)
    ensures
        r is Ok,
        r->Ok_0@ == json_pretty_text(j@),
        readable(j@, max_depth()) ==> json_of_text(r->Ok_0@) == Some(j@),
{
    serde_json::to_string_pretty(&to_value(j)).map_err(|e| e.to_string())
}

} // verus!
