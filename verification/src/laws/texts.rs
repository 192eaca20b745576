//! What strings and JSON values are read as.
use vstd::prelude::*;

use crate::json::JsonTree;
use crate::json;
use crate::text;

verus! {

/// White space is the tab to the carriage return, the space, and the spaces and separators beyond
/// ASCII that Unicode counts.
pub proof fn law_white_space(c: char)
    ensures
        text::white_space(c) <==> {
            let n = c as u32;
            9 <= n <= 13 || n == 32 || n == 0x85 || n == 0xa0 || n == 0x1680 || 0x2000 <= n
                <= 0x200a || n == 0x2028 || n == 0x2029 || n == 0x202f || n == 0x205f || n == 0x3000
        },
{
}

proof fn lemma_trimmed_start(front: Seq<char>, rest: Seq<char>)
    requires
        forall|i: int| 0 <= i < front.len() ==> text::white_space(#[trigger] front[i]),
        rest.len() > 0 ==> !text::white_space(rest[0]),
    ensures
        text::trimmed_start(front + rest) == rest,
    decreases front.len(),
{
    if front.len() > 0 {
        assert((front + rest).drop_first() =~= front.drop_first() + rest);
        assert forall|i: int| 0 <= i < front.drop_first().len() implies text::white_space(
            #[trigger] front.drop_first()[i],
        ) by {
            assert(front.drop_first()[i] == front[i + 1]);
        }
        lemma_trimmed_start(front.drop_first(), rest);
    } else {
        assert(front + rest =~= rest);
    }
}

proof fn lemma_trimmed_end(core: Seq<char>, back: Seq<char>)
    requires
        forall|i: int| 0 <= i < back.len() ==> text::white_space(#[trigger] back[i]),
        core.len() > 0 ==> !text::white_space(core.last()),
    ensures
        text::trimmed_end(core + back) == core,
    decreases back.len(),
{
    if back.len() > 0 {
        assert((core + back).drop_last() =~= core + back.drop_last());
        assert forall|i: int| 0 <= i < back.drop_last().len() implies text::white_space(
            #[trigger] back.drop_last()[i],
        ) by {
            assert(back.drop_last()[i] == back[i]);
        }
        assert(text::white_space(back[back.len() - 1]));
        lemma_trimmed_end(core, back.drop_last());
    } else {
        assert(core + back =~= core);
    }
}

/// Trimming takes off the white space around a text, and nothing else.
pub proof fn law_trimming(front: Seq<char>, core: Seq<char>, back: Seq<char>)
    requires
        forall|i: int| 0 <= i < front.len() ==> text::white_space(#[trigger] front[i]),
        forall|i: int| 0 <= i < back.len() ==> text::white_space(#[trigger] back[i]),
        core.len() > 0 ==> !text::white_space(core[0]) && !text::white_space(core.last()),
    ensures
        text::trimmed(front + core + back) == core,
{
    if core.len() > 0 {
        assert(front + core + back =~= front + (core + back));
        lemma_trimmed_start(front, core + back);
        lemma_trimmed_end(core, back);
    } else {
        let white = front + back;
        assert(front + core + back =~= white + Seq::empty());
        lemma_trimmed_start(white, Seq::empty());
    }
}

/// Stripping takes a character off the end of a text as often as it stands there, and nothing else.
pub proof fn law_stripping(core: Seq<char>, c: char, n: nat)
    requires
        core.len() > 0 ==> core.last() != c,
    ensures
        text::stripped_end(core + Seq::new(n, |i: int| c), c) == core,
    decreases n,
{
    let s = core + Seq::new(n, |i: int| c);
    if n > 0 {
        let m = (n - 1) as nat;
        assert(s.last() == c);
        assert(s.drop_last() =~= core + Seq::new(m, |i: int| c));
        law_stripping(core, c, m);
    } else {
        assert(s =~= core);
    }
}

/// A text occurs in whatever it is put into, and only where something can be taken off on either
/// side to leave it.
pub proof fn law_occurs(a: Seq<char>, part: Seq<char>, b: Seq<char>, s: Seq<char>)
    ensures
        text::occurs(a + part + b, part),
        text::occurs(s, part) ==> exists|i: int|
            #![trigger s.take(i)]
            0 <= i <= s.len() && i + part.len() <= s.len() && s.take(i) + part + s.skip(
                i + part.len(),
            ) == s,
{
    let whole = a + part + b;
    assert(whole.subrange(a.len() as int, (a.len() + part.len()) as int) =~= part);
    assert(text::occurs_at(whole, part, a.len() as int));
    if text::occurs(s, part) {
        let i = choose|i: int| text::occurs_at(s, part, i);
        assert(s.take(i) + s.subrange(i, i + part.len()) + s.skip(i + part.len()) =~= s);
    }
}

/// What stands from the first of a character on: nothing is skipped but what comes before it.
pub proof fn law_rest_from(a: Seq<char>, c: char, b: Seq<char>)
    requires
        !a.contains(c),
    ensures
        text::rest_from(a + seq![c] + b, c) == Some(seq![c] + b),
        text::rest_from(a, c) is None,
    decreases a.len(),
{
    let s = a + seq![c] + b;
    if a.len() > 0 {
        assert(a[0] != c) by {
            assert(a.contains(a[0]));
        }
        assert(s.drop_first() =~= a.drop_first() + seq![c] + b);
        assert(!a.drop_first().contains(c)) by {
            if a.drop_first().contains(c) {
                let k = choose|k: int| 0 <= k < a.drop_first().len() && a.drop_first()[k] == c;
                assert(a[k + 1] == c);
            }
        }
        law_rest_from(a.drop_first(), c, b);
    } else {
        assert(s =~= seq![c] + b);
    }
}

/// The number that a text of digits reads as.
pub open spec fn number_read(s: Seq<char>) -> int
    decreases s.len(),
{
    if s.len() == 0 {
        0
    } else {
        number_read(s.drop_last()) * 10 + (s.last() as int - '0' as int)
    }
}

proof fn lemma_digits(n: nat)
    ensures
        number_read(text::digits(n)) == n,
        text::digits(n).len() > 0,
        forall|i: int|
            0 <= i < text::digits(n).len() ==> '0' <= #[trigger] text::digits(n)[i] <= '9',
        n > 0 ==> text::digits(n)[0] != '0',
    decreases n,
{
    reveal_with_fuel(number_read, 2);
    if n >= 10 {
        lemma_digits(n / 10);
        assert(text::digits(n).drop_last() =~= text::digits(n / 10));
    } else {
        assert(text::digits(n).drop_last() =~= Seq::empty());
    }
}

/// The decimal form of a number reads as that number: digits without leading zeros, behind a minus
/// sign where the number is negative.
pub proof fn law_decimal(n: int)
    ensures
        n >= 0 ==> {
            let d = text::decimal(n);
            &&& d.len() > 0
            &&& number_read(d) == n
            &&& n > 0 ==> d[0] != '0'
            &&& n == 0 ==> d.len() == 1
            &&& forall|i: int| 0 <= i < d.len() ==> '0' <= #[trigger] d[i] <= '9'
        },
        n < 0 ==> text::decimal(n) == seq!['-'] + text::decimal(-n),
{
    if n >= 0 {
        lemma_digits(n as nat);
    }
}

/// A value is found under a name exactly where it is that of the first member of the name; nothing
/// is found in what is no object.
pub proof fn law_get(t: JsonTree, key: Seq<char>, v: JsonTree)
    ensures
        t.get(key) == Some(v) <==> {
            &&& t is Object
            &&& exists|i: int|
                #![trigger t->Object_0[i]]
                0 <= i < t->Object_0.len() && t->Object_0[i] == (key, v) && forall|j: int|
                    0 <= j < i ==> (#[trigger] t->Object_0[j]).0 != key
        },
{
    if let JsonTree::Object(members) = t {
        if t.get(key) == Some(v) {
            lemma_found(members, key);
        }
        if exists|i: int|
            #![trigger members[i]]
            0 <= i < members.len() && members[i] == (key, v) && forall|j: int|
                0 <= j < i ==> (#[trigger] members[j]).0 != key {
            let i = choose|i: int|
                #![trigger members[i]]
                0 <= i < members.len() && members[i] == (key, v) && forall|j: int|
                    0 <= j < i ==> (#[trigger] members[j]).0 != key;
            json::lemma_member_first(members, i);
        }
    }
}

proof fn lemma_found(members: Seq<(Seq<char>, JsonTree)>, key: Seq<char>)
    requires
        json::member(members, key) is Some,
    ensures
        exists|i: int|
            #![trigger members[i]]
            0 <= i < members.len() && members[i] == (key, json::member(members, key)->0) && forall|
                j: int,
            |
                0 <= j < i ==> (#[trigger] members[j]).0 != key,
    decreases members.len(),
{
    if members.len() > 0 {
        if members[0].0 == key {
            assert(members[0] == (key, json::member(members, key)->0));
        } else {
            let rest = members.drop_first();
            lemma_found(rest, key);
            let i = choose|i: int|
                #![trigger rest[i]]
                0 <= i < rest.len() && rest[i] == (key, json::member(rest, key)->0) && forall|
                    j: int,
                |
                    0 <= j < i ==> (#[trigger] rest[j]).0 != key;
            assert(members[i + 1] == rest[i]);
            assert forall|j: int| 0 <= j < i + 1 implies (#[trigger] members[j]).0 != key by {
                if j > 0 {
                    assert(members[j] == rest[j - 1]);
                }
            }
        }
    }
}

/// A value is read as a number, a truth value or a string exactly where it is that one.
pub proof fn law_read_as(t: JsonTree, i: i64, u: u64, b: bool, s: Seq<char>)
    ensures
        t.as_i64() == Some(i) <==> t == JsonTree::Integer(i as int),
        t.as_u64() == Some(u) <==> t == JsonTree::Integer(u as int),
        t.as_bool() == Some(b) <==> t == JsonTree::Bool(b),
        t.as_text() == Some(s) <==> t == JsonTree::Text(s),
{
}

} // verus!
