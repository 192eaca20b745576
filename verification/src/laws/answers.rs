//! What the answers to requests mean.
use vstd::prelude::*;

use crate::call;
use crate::call::{Call, Post, Quoting};
use crate::json;
use crate::json::JsonTree;
use crate::laws::requests;
use crate::node::{NodeFault, NodeRecord};
use crate::shape;
use crate::text;

verus! {

/// The integer that a value is, where it is there and fits an `i64`, else zero.
pub open spec fn code_in(v: Option<JsonTree>) -> int {
    match v {
        Some(JsonTree::Integer(n)) => if i64::MIN <= n <= i64::MAX {
            n
        } else {
            0
        },
        _ => 0,
    }
}

/// The string that a value is, where it is there and one, else the empty string.
pub open spec fn words_in(v: Option<JsonTree>) -> Seq<char> {
    match v {
        Some(JsonTree::Text(t)) => t,
        _ => Seq::empty(),
    }
}

/// Wherever a request gives an answer, whether JSON-RPC or not, the route beside it is the
/// request's own.
pub proof fn law_answer_keeps_route(
    request: Post,
    sent: Result<(u16, Seq<Seq<char>>, Seq<u8>), Seq<char>>,
)
    ensures
        request.answer(sent) matches Ok((_, route)) ==> route == request.route,
{
}

/// The route that is handed back beside an answer is the way that the request took: `proxied`
/// exactly where its client was given a proxy.
pub proof fn law_answer_tells_the_way(
    rec: NodeRecord,
    path: Seq<char>,
    body: JsonTree,
    json_rpc: bool,
    call: Call,
    sent: Result<(u16, Seq<Seq<char>>, Seq<u8>), Seq<char>>,
)
    requires
        call::prepared(rec, path, body, json_rpc, Ok(call)),
    ensures
        call.request@.answer(sent) matches Ok((_, route)) ==> route == if call::request_told(
            call.outgoing,
        ).egress.proxies.len() > 0 {
            "proxied"@
        } else {
            "direct"@
        },
{
    requests::law_prepared(rec, path, body, json_rpc, Ok(call));
    law_answer_keeps_route(call.request@, sent);
}

/// A request that could not be sent, and an answer that is no JSON, are errors of the transport. An
/// answer that is not JSON-RPC is handed on whole. A JSON-RPC answer with an error is that error,
/// with its code and its message as far as it has them; one without is its result, handed on as it
/// came, and one that has neither is an error.
pub proof fn law_answer(
    request: Post,
    status: u16,
    asked: Seq<Seq<char>>,
    bytes: Seq<u8>,
    e: Seq<char>,
)
    ensures
        request.answer(Err(e)) == Err::<(JsonTree, Seq<char>), NodeFault>(NodeFault::Http(e)),
        !call::digest_challenge(status, asked) ==> {
            let r = request.answer(Ok((status, asked, bytes)));
            match json::json_of_bytes(bytes) {
                None => r == Err::<(JsonTree, Seq<char>), NodeFault>(
                    NodeFault::Http("error decoding response body"@),
                ),
                Some(v) => if !request.json_rpc {
                    r == Ok::<(JsonTree, Seq<char>), NodeFault>((v, request.route))
                } else if v.get("error"@) is Some {
                    &&& r matches Err(NodeFault::Rpc { code, message })
                    &&& code == code_in(v.get("error"@)->0.get("code"@))
                    &&& message == words_in(v.get("error"@)->0.get("message"@))
                } else if v.get("result"@) is Some {
                    r == Ok::<(JsonTree, Seq<char>), NodeFault>(
                        (v.get("result"@)->0, request.route),
                    )
                } else {
                    r == Err::<(JsonTree, Seq<char>), NodeFault>(
                        NodeFault::Parse("response had no `result`"@),
                    )
                },
            }
        },
{
}

// Challenges

/// Whether `word` is `digest` in letters of either case.
pub open spec fn is_digest_word(word: Seq<char>) -> bool {
    &&& word.len() == 6
    &&& forall|i: int|
        0 <= i < 6 ==> #[trigger] word[i] == "digest"@[i] || word[i] == "DIGEST"@[i]
}

/// Whether `rest` can stand behind a scheme: nothing, or a blank or a comma first.
pub open spec fn ends_word(rest: Seq<char>) -> bool {
    rest.len() > 0 ==> rest[0] == ' ' || rest[0] == '\t' || rest[0] == ','
}

/// Whether `s` is white space throughout.
pub open spec fn blank(s: Seq<char>) -> bool {
    forall|i: int| 0 <= i < s.len() ==> text::white_space(#[trigger] s[i])
}

proof fn lemma_word_at(before: Seq<char>, word: Seq<char>, rest: Seq<char>)
    requires
        is_digest_word(word),
        ends_word(rest),
    ensures
        call::digest_at(before + word + rest, before.len() as int),
{
    reveal_strlit("digest");
    reveal_strlit("DIGEST");
    let s = before + word + rest;
    let n = before.len() as int;
    assert(s[n] == word[0] && s[n + 1] == word[1] && s[n + 2] == word[2] && s[n + 3] == word[3]
        && s[n + 4] == word[4] && s[n + 5] == word[5]);
    if rest.len() > 0 {
        assert(s[n + 6] == rest[0]);
    }
}

proof fn lemma_unquoted(s: Seq<char>)
    requires
        !s.contains('"'),
    ensures
        call::quoting(s) == Quoting::Outside,
    decreases s.len(),
{
    if s.len() > 0 {
        assert(s.contains(s.last()));
        assert(!s.drop_last().contains('"')) by {
            if s.drop_last().contains('"') {
                let k = choose|k: int| 0 <= k < s.drop_last().len() && s.drop_last()[k] == '"';
                assert(s[k] == '"');
            }
        }
        lemma_unquoted(s.drop_last());
    }
}

proof fn lemma_blank_end(head: Seq<char>, front: Seq<char>)
    requires
        blank(front),
    ensures
        text::trimmed_end(head + front) == text::trimmed_end(head),
    decreases front.len(),
{
    let s = head + front;
    if front.len() > 0 {
        assert(s.last() == front[front.len() - 1]);
        assert(s.drop_last() =~= head + front.drop_last());
        assert(blank(front.drop_last())) by {
            assert forall|i: int| 0 <= i < front.drop_last().len() implies text::white_space(
                #[trigger] front.drop_last()[i],
            ) by {
                assert(front.drop_last()[i] == front[i]);
            }
        }
        lemma_blank_end(head, front.drop_last());
    } else {
        assert(s =~= head);
    }
}

/// A challenge for Digest is found at the start of a value, and behind any other challenge whose
/// parameters have no quotes, whatever follows it.
pub proof fn law_digest_is_found(
    head: Seq<char>,
    front: Seq<char>,
    word: Seq<char>,
    rest: Seq<char>,
)
    requires
        is_digest_word(word),
        ends_word(rest),
        blank(front),
        !head.contains('"'),
    ensures
        call::offers_digest(front + word + rest),
        call::offers_digest(head + seq![','] + front + word + rest),
{
    assert(!front.contains('"')) by {
        if front.contains('"') {
            let k = choose|k: int| 0 <= k < front.len() && front[k] == '"';
            assert(text::white_space(front[k]));
        }
    }
    let v = front + word + rest;
    lemma_word_at(front, word, rest);
    lemma_unquoted(front);
    assert(Seq::empty() + front =~= front);
    lemma_blank_end(Seq::empty(), front);
    assert(v.take(front.len() as int) =~= front);
    assert(call::digest_at(v, front.len() as int) && call::part_ends(
        v.take(front.len() as int),
    ));
    let b = head + seq![','] + front;
    let w = b + word + rest;
    lemma_word_at(b, word, rest);
    assert(!b.contains('"')) by {
        if b.contains('"') {
            let k = choose|k: int| 0 <= k < b.len() && b[k] == '"';
            if k < head.len() {
                assert(head[k] == '"');
            } else if k > head.len() {
                assert(front[k - head.len() - 1] == '"');
            }
        }
    }
    lemma_unquoted(b);
    lemma_blank_end(head + seq![','], front);
    assert((head + seq![',']).last() == ',');
    assert(w.take(b.len() as int) =~= b);
    assert(call::digest_at(w, b.len() as int) && call::part_ends(w.take(b.len() as int)));
}

proof fn lemma_inside(a: Seq<char>, b: Seq<char>)
    requires
        !a.contains('"'),
        !b.contains('"'),
        !b.contains('\\'),
    ensures
        call::quoting(a + seq!['"'] + b) == Quoting::Inside,
    decreases b.len(),
{
    let s = a + seq!['"'] + b;
    if b.len() > 0 {
        let t = b.drop_last();
        assert(s.drop_last() =~= a + seq!['"'] + t);
        assert(s.last() == b.last());
        assert(b.contains(b.last()));
        assert(!t.contains('"') && !t.contains('\\')) by {
            if t.contains('"') {
                let k = choose|k: int| 0 <= k < t.len() && t[k] == '"';
                assert(b[k] == '"');
            }
            if t.contains('\\') {
                let k = choose|k: int| 0 <= k < t.len() && t[k] == '\\';
                assert(b[k] == '\\');
            }
        }
        lemma_inside(a, t);
    } else {
        assert(s.drop_last() =~= a);
        lemma_unquoted(a);
    }
}

/// Only a status of 401 is a challenge, and only where the word itself stands in one of the values,
/// as a scheme: at the start or behind a comma, blanks aside, and not inside quotes.
pub proof fn law_digest_is_not_invented(
    status: u16,
    asked: Seq<Seq<char>>,
    a: Seq<char>,
    b: Seq<char>,
    c: Seq<char>,
)
    requires
        !a.contains('"'),
        !b.contains('"'),
        !b.contains('\\'),
    ensures
        call::digest_challenge(status, asked) ==> status == 401 && exists|k: int, i: int|
            #![trigger asked[k], asked[k][i]]
            {
                &&& 0 <= k < asked.len()
                &&& 0 <= i
                &&& i + 6 <= asked[k].len()
                &&& is_digest_word(asked[k].subrange(i, i + 6))
                &&& ends_word(asked[k].skip(i + 6))
                &&& text::trimmed_end(asked[k].take(i)).len() > 0 ==> text::trimmed_end(
                    asked[k].take(i),
                ).last() == ','
            },
        call::offers_digest(a + seq!['"'] + b + c) ==> exists|i: int|
            {
                &&& #[trigger] call::digest_at(a + seq!['"'] + b + c, i)
                &&& i <= a.len() || i > a.len() + 1 + b.len()
            },
{
    reveal_strlit("digest");
    reveal_strlit("DIGEST");
    if call::digest_challenge(status, asked) {
        let k = choose|k: int| 0 <= k < asked.len() && call::offers_digest(#[trigger] asked[k]);
        let v = asked[k];
        let i = choose|i: int| #[trigger]
            call::digest_at(v, i) && call::part_ends(v.take(i));
        let w = v.subrange(i, i + 6);
        assert(w[0] == v[i] && w[1] == v[i + 1] && w[2] == v[i + 2] && w[3] == v[i + 3] && w[4]
            == v[i + 4] && w[5] == v[i + 5]);
        assert(is_digest_word(w));
        if v.skip(i + 6).len() > 0 {
            assert(v.skip(i + 6)[0] == v[i + 6]);
        }
        assert(asked[k][i] == v[i]);
    }
    let s = a + seq!['"'] + b + c;
    if call::offers_digest(s) {
        let i = choose|i: int| #[trigger]
            call::digest_at(s, i) && call::part_ends(s.take(i));
        if a.len() < i <= a.len() + 1 + b.len() {
            let t = b.take(i - a.len() - 1);
            assert(s.take(i) =~= a + seq!['"'] + t);
            assert(!t.contains('"') && !t.contains('\\')) by {
                if t.contains('"') {
                    let k = choose|k: int| 0 <= k < t.len() && t[k] == '"';
                    assert(b[k] == '"');
                }
                if t.contains('\\') {
                    let k = choose|k: int| 0 <= k < t.len() && t[k] == '\\';
                    assert(b[k] == '\\');
                }
            }
            lemma_inside(a, t);
        }
    }
}

// Health

/// The number that a value is, where it is there and fits a `u64`, else null.
pub open spec fn shown_number(v: Option<JsonTree>) -> JsonTree {
    match v {
        Some(JsonTree::Integer(n)) => if 0 <= n <= u64::MAX {
            JsonTree::Integer(n)
        } else {
            JsonTree::Null
        },
        _ => JsonTree::Null,
    }
}

/// The truth value that a value is, where it is there and one, else null.
pub open spec fn shown_truth(v: Option<JsonTree>) -> JsonTree {
    match v {
        Some(JsonTree::Bool(b)) => JsonTree::Bool(b),
        _ => JsonTree::Null,
    }
}

/// The report on a node that answered holds, each under its own name, what the answer says of the
/// height, the target height, whether the node is synchronised and whether it is restricted; and
/// the time that the answer took and the route. The report on one that did not holds why.
pub proof fn law_health_report(
    info: JsonTree,
    route: Seq<char>,
    rtt_ms: u64,
    fault: NodeFault,
)
    ensures
        ({
            let t = call::health_tree(Ok((info, route)), rtt_ms);
            &&& t is Object && t->Object_0.len() == 8
            &&& t.get("ok"@) == Some(JsonTree::Bool(true))
            &&& t.get("reachable"@) == Some(JsonTree::Bool(true))
            &&& t.get("height"@) == Some(shown_number(info.get("height"@)))
            &&& t.get("targetHeight"@) == Some(shown_number(info.get("target_height"@)))
            &&& t.get("synced"@) == Some(shown_truth(info.get("synchronized"@)))
            &&& t.get("restricted"@) == Some(shown_truth(info.get("restricted"@)))
            &&& t.get("rttMs"@) == Some(JsonTree::Integer(rtt_ms as int))
            &&& t.get("route"@) == Some(JsonTree::Text(route))
        }),
        ({
            let t = call::health_tree(Err(fault), rtt_ms);
            &&& t is Object && t->Object_0.len() == 3
            &&& t.get("ok"@) == Some(JsonTree::Bool(true))
            &&& t.get("reachable"@) == Some(JsonTree::Bool(false))
            &&& t.get("error"@) == Some(JsonTree::Text(fault.message()))
        }),
{
    let there = call::health_tree(Ok((info, route)), rtt_ms)->Object_0;
    shape::lemma_health_readable(Ok((info, route)), rtt_ms);
    json::lemma_member_at(there, 0);
    json::lemma_member_at(there, 1);
    json::lemma_member_at(there, 2);
    json::lemma_member_at(there, 3);
    json::lemma_member_at(there, 4);
    json::lemma_member_at(there, 5);
    json::lemma_member_at(there, 6);
    json::lemma_member_at(there, 7);
    let gone = call::health_tree(Err(fault), rtt_ms)->Object_0;
    shape::lemma_health_readable(Err(fault), rtt_ms);
    json::lemma_member_at(gone, 0);
    json::lemma_member_at(gone, 1);
    json::lemma_member_at(gone, 2);
}

} // verus!
