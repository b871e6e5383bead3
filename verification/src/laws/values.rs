//! JSON values and their text.

use crate::document::{document, item_documents, member_documents};
use crate::outside::json_quoted;
use crate::text::{
    ascii_lower, ascii_lower_text, contains_text, decimal_text, integer_text, is_white_space,
    matches_at,
};
use crate::value::{object, replaced_member, JsonView};
use vstd::prelude::*;

verus! {

/// A member is found under its name, and the first of several with the same name is the one that
/// counts; a value that is no object has no members.
pub proof fn law_first_member_counts(
    m: Seq<(Seq<char>, JsonView)>,
    i: int,
    key: Seq<char>,
    v: JsonView,
)
    requires
        0 <= i < m.len() ==> forall|j: int| 0 <= j < i ==> (#[trigger] m[j]).0 != key,
    ensures
        0 <= i < m.len() && m[i].0 == key ==> JsonView::Object(m).get(key) == Some(m[i].1),
        (forall|j: int| 0 <= j < m.len() ==> (#[trigger] m[j]).0 != key) ==> JsonView::Object(
            m,
        ).get(key) is None,
        v !is Object ==> v.get(key) is None,
    decreases m.len(),
{
    if m.len() > 0 {
        let rest = m.skip(1);
        assert forall|j: int| 0 <= j < i - 1 && i - 1 < rest.len() implies (#[trigger] rest[j]).0
            != key by {
            assert(rest[j] == m[j + 1]);
        }
        if forall|j: int| 0 <= j < m.len() ==> (#[trigger] m[j]).0 != key {
            assert forall|j: int| 0 <= j < rest.len() implies (#[trigger] rest[j]).0 != key by {
                assert(rest[j] == m[j + 1]);
            }
        }
        if m[0].0 != key {
            law_first_member_counts(rest, i - 1, key, v);
        }
    }
}

/// Replacing a member puts the new value in the place of the first one with that name, and keeps
/// all others as and where they are; without such a member nothing changes.
pub proof fn law_one_member_is_replaced(
    m: Seq<(Seq<char>, JsonView)>,
    i: int,
    key: Seq<char>,
    v: JsonView,
)
    requires
        0 <= i < m.len() ==> forall|j: int| 0 <= j < i ==> (#[trigger] m[j]).0 != key,
    ensures
        0 <= i < m.len() && m[i].0 == key ==> JsonView::Object(m).replace(key, v)
            == JsonView::Object(m.update(i, (key, v))),
        (forall|j: int| 0 <= j < m.len() ==> (#[trigger] m[j]).0 != key) ==> JsonView::Object(
            m,
        ).replace(key, v) == JsonView::Object(m),
    decreases m.len(),
{
    if m.len() > 0 {
        let rest = m.skip(1);
        assert forall|j: int| 0 <= j < i - 1 && i - 1 < rest.len() implies (#[trigger] rest[j]).0
            != key by {
            assert(rest[j] == m[j + 1]);
        }
        if forall|j: int| 0 <= j < m.len() ==> (#[trigger] m[j]).0 != key {
            assert forall|j: int| 0 <= j < rest.len() implies (#[trigger] rest[j]).0 != key by {
                assert(rest[j] == m[j + 1]);
            }
        }
        if m[0].0 == key {
            if 0 < i < m.len() {
                assert(m[0].0 != key);
            }
            assert(seq![(key, v)] + rest =~= m.update(0, (key, v)));
        } else {
            law_one_member_is_replaced(rest, i - 1, key, v);
            let r = replaced_member(rest, key, v);
            if 0 < i < m.len() && m[i].0 == key {
                assert(rest[i - 1] == m[i]);
                assert(r == rest.update(i - 1, (key, v)));
                assert(seq![m[0]] + r =~= m.update(i, (key, v)));
            }
            assert(seq![m[0]] + rest =~= m);
        }
    }
}

/// A member is read as a text, a number or a list exactly where it is one; otherwise what was
/// given for that stands in its place.
pub proof fn law_members_are_read_as_what_they_are(
    o: JsonView,
    key: Seq<char>,
    s: Seq<char>,
    n: u64,
    v: JsonView,
)
    ensures
        o.get_str(key) == Some(s) <==> o.get(key) == Some(JsonView::Str(s)),
        o.get_u64(key) == Some(n) <==> o.get(key) == Some(JsonView::Unsigned(n)),
        o.get_array(key) matches Some(items) ==> o.get(key) == Some(JsonView::Array(items)),
        o.get(key) matches Some(JsonView::Array(items)) ==> o.get_array(key) == Some(items),
        o.get(key) is None ==> o.get_or(key, v) == v,
        o.get(key) matches Some(m) ==> o.get_or(key, v) == m,
        o.get(key) is None ==> o.get_str_or(key, s) == s && o.get_u64_or(key, n) == n,
        o.get(key) matches Some(JsonView::Str(t)) ==> o.get_str_or(key, s) == t,
        o.get(key) matches Some(JsonView::Unsigned(k)) ==> o.get_u64_or(key, n) == k,
{
}

/// A member that is added stands behind the others, which stay as and where they are.
pub proof fn law_added_member_is_the_last(
    m: Seq<(Seq<char>, JsonView)>,
    k: Seq<char>,
    v: JsonView,
    i: int,
)
    ensures
        JsonView::Object(m).with(k, v) matches JsonView::Object(all) && {
            &&& all.len() == m.len() + 1
            &&& all.last() == (k, v)
            &&& 0 <= i < m.len() ==> all[i] == m[i]
        },
        object(k, v) matches JsonView::Object(all) && all.len() == 1 && all[0] == (k, v),
{
}

proof fn lemma_items(items: Seq<JsonView>, more: Seq<JsonView>, n: nat)
    requires
        n <= items.len(),
        n <= more.len(),
        forall|i: int| 0 <= i < n ==> items[i] == more[i],
    ensures
        item_documents(items, n) == item_documents(more, n),
    decreases n,
{
    if n > 0 {
        assert(items[n - 1] == more[n - 1]);
        assert(items[0] == more[0]);
        lemma_items(items, more, (n - 1) as nat);
    }
}

proof fn lemma_members(
    list: Seq<(Seq<char>, JsonView)>,
    more: Seq<(Seq<char>, JsonView)>,
    n: nat,
)
    requires
        n <= list.len(),
        n <= more.len(),
        forall|i: int| 0 <= i < n ==> list[i] == more[i],
    ensures
        member_documents(list, n) == member_documents(more, n),
    decreases n,
{
    if n > 0 {
        assert(list[n - 1] == more[n - 1]);
        lemma_members(list, more, (n - 1) as nat);
    }
}

/// The text of an array is that of its items in brackets, with a comma between each two: one item
/// more is written behind the others.
pub proof fn law_items_are_written_in_order(items: Seq<JsonView>, v: JsonView)
    ensures
        document(JsonView::Array(seq![])) == "[]"@,
        document(JsonView::Array(seq![v])) == "["@ + document(v) + "]"@,
        items.len() > 0 ==> document(JsonView::Array(items.push(v))) == document(
            JsonView::Array(items),
        ).drop_last() + ","@ + document(v) + "]"@,
{
    reveal_strlit("[]");
    reveal_strlit("[");
    reveal_strlit("]");
    let none: Seq<JsonView> = seq![];
    assert(item_documents(none, 0) =~= seq![]);
    assert(document(JsonView::Array(none)) =~= "[]"@);
    if items.len() > 0 {
        let more = items.push(v);
        lemma_items(items, more, items.len());
        let before = item_documents(items, items.len());
        assert(document(JsonView::Array(items)) == "["@ + before + "]"@);
        assert(("["@ + before + "]"@).drop_last() =~= "["@ + before);
        assert(item_documents(more, more.len()) == before + ","@ + document(v));
        assert(document(JsonView::Array(more)) =~= "["@ + before + ","@ + document(v) + "]"@);
    }
}

/// The text of an object is that of its members in braces, with a comma between each two: a name
/// as a text, a colon, and the value; one member more is written behind the others.
pub proof fn law_members_are_written_in_order(
    list: Seq<(Seq<char>, JsonView)>,
    k: Seq<char>,
    v: JsonView,
)
    ensures
        document(JsonView::Object(seq![])) == "{}"@,
        document(JsonView::Object(seq![(k, v)])) == "{"@ + json_quoted(k) + ":"@ + document(v)
            + "}"@,
        list.len() > 0 ==> document(JsonView::Object(list.push((k, v)))) == document(
            JsonView::Object(list),
        ).drop_last() + ","@ + json_quoted(k) + ":"@ + document(v) + "}"@,
{
    reveal_strlit("{}");
    reveal_strlit("{");
    reveal_strlit("}");
    let none: Seq<(Seq<char>, JsonView)> = seq![];
    let member = json_quoted(k) + ":"@ + document(v);
    assert(member_documents(none, 0) =~= seq![]);
    assert(document(JsonView::Object(none)) =~= "{}"@);
    assert(member_documents(seq![(k, v)], 1) == member);
    assert(document(JsonView::Object(seq![(k, v)])) =~= "{"@ + json_quoted(k) + ":"@ + document(v)
        + "}"@);
    if list.len() > 0 {
        let more = list.push((k, v));
        lemma_members(list, more, list.len());
        let before = member_documents(list, list.len());
        assert(document(JsonView::Object(list)) == "{"@ + before + "}"@);
        assert(("{"@ + before + "}"@).drop_last() =~= "{"@ + before);
        assert(member_documents(more, more.len()) == before + ","@ + member);
        assert(document(JsonView::Object(more)) =~= "{"@ + before + ","@ + json_quoted(k) + ":"@
            + document(v) + "}"@);
    }
}

/// The text of every other value: the words of null and of the truth values, the digits of a
/// number with a minus before a negative one, and a text in quotation marks.
pub proof fn law_single_values_are_written(n: u64, m: i64, s: Seq<char>, plain: Seq<char>)
    ensures
        document(JsonView::Null) == "null"@,
        document(JsonView::Bool(true)) == "true"@,
        document(JsonView::Bool(false)) == "false"@,
        document(JsonView::Unsigned(n)) == decimal_text(n as nat),
        m < 0 ==> document(JsonView::Negative(m)) == "-"@ + decimal_text((-m) as nat),
        document(JsonView::Float { json: s, plain }) == s,
        document(JsonView::Str(s)) == json_quoted(s),
{
}

/// An integer is written with its digits, a negative one behind a minus.
pub proof fn law_integers_are_written(n: int)
    ensures
        n >= 0 ==> integer_text(n) == decimal_text(n as nat),
        n < 0 ==> integer_text(n) == "-"@ + integer_text(-n),
{
}

/// Making letters small changes the capital letters of ASCII into the small ones, place by place,
/// and nothing else; doing it twice is doing it once.
pub proof fn law_letters_are_made_small(s: Seq<char>, i: int)
    requires
        0 <= i < s.len(),
    ensures
        ascii_lower_text(s).len() == s.len(),
        'A' <= s[i] <= 'Z' ==> ascii_lower_text(s)[i] as u32 == s[i] as u32 + 32,
        !('A' <= s[i] <= 'Z') ==> ascii_lower_text(s)[i] == s[i],
        ascii_lower_text(ascii_lower_text(s)) == ascii_lower_text(s),
{
    lemma_small(s[i]);
    let once = ascii_lower_text(s);
    assert forall|k: int| 0 <= k < s.len() implies ascii_lower_text(once)[k] == once[k] by {
        lemma_small(s[k]);
    }
    assert(ascii_lower_text(once) =~= once);
}

proof fn lemma_small(c: char)
    ensures
        'A' <= c <= 'Z' ==> ascii_lower(c) as u32 == c as u32 + 32,
        ascii_lower(ascii_lower(c)) == ascii_lower(c),
{
}

/// White space is the tab and the four line ends behind it, the space, the next line, the space
/// that does not break, and the other spaces and line ends that Unicode calls white space.
pub proof fn law_white_space(c: char)
    ensures
        is_white_space(c) <==> ({
            let n = c as u32;
            ||| 9 <= n <= 13
            ||| n == 32
            ||| n == 0x85
            ||| n == 0xa0
            ||| n == 0x1680
            ||| 0x2000 <= n <= 0x200a
            ||| n == 0x2028
            ||| n == 0x2029
            ||| n == 0x202f
            ||| n == 0x205f
            ||| n == 0x3000
        }),
{
}

/// A text is contained in another where it stands in it, character by character, with anything
/// before and behind it, and nowhere else; one that stands at the very front starts the other.
pub proof fn law_contained_text_stands_in_the_other(
    before: Seq<char>,
    needle: Seq<char>,
    after: Seq<char>,
    s: Seq<char>,
)
    ensures
        contains_text(before + needle + after, needle),
        matches_at(needle + after, needle, 0),
        contains_text(s, needle) ==> exists|a: Seq<char>, b: Seq<char>|
            s == #[trigger] (a + needle + b),
        matches_at(s, needle, 0) ==> exists|b: Seq<char>| s == #[trigger] (needle + b),
{
    let all = before + needle + after;
    let k = before.len() as int;
    assert(all.subrange(k, k + needle.len()) =~= needle);
    assert(matches_at(all, needle, k));
    assert((needle + after).subrange(0, needle.len() as int) =~= needle);
    if contains_text(s, needle) {
        let i = choose|i: int| matches_at(s, needle, i);
        let a = s.take(i);
        let b = s.skip(i + needle.len());
        assert(s =~= a + s.subrange(i, i + needle.len()) + b);
        assert(s == a + needle + b);
    }
    if matches_at(s, needle, 0) {
        let b = s.skip(needle.len() as int);
        assert(s =~= s.subrange(0, needle.len() as int) + b);
        assert(s == needle + b);
    }
}

} // verus!
