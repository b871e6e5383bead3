//! Texts that depend on another text only by holding it.

use vstd::prelude::*;

verus! {

/// A text made of pieces with `t` between each two of them.
pub open spec fn woven(pieces: Seq<Seq<char>>, t: Seq<char>) -> Seq<char>
    decreases pieces.len(),
{
    if pieces.len() == 0 {
        seq![]
    } else if pieces.len() == 1 {
        pieces[0]
    } else {
        woven(pieces.drop_last(), t) + t + pieces.last()
    }
}

/// Whether two texts are the same but for `k` places, where the one has `a` and the other `b`.
pub open spec fn agree_but_for(
    k: nat,
    one: Seq<char>,
    a: Seq<char>,
    other: Seq<char>,
    b: Seq<char>,
) -> bool {
    exists|pieces: Seq<Seq<char>>|
        {
            &&& pieces.len() == k + 1
            &&& one == #[trigger] woven(pieces, a)
            &&& other == woven(pieces, b)
        }
}

proof fn lemma_woven_grows(pieces: Seq<Seq<char>>, last: Seq<char>, t: Seq<char>)
    requires
        pieces.len() > 0,
    ensures
        woven(pieces.push(last), t) == woven(pieces, t) + t + last,
{
    assert(pieces.push(last).drop_last() =~= pieces);
}

/// A text that is cut at a part, behind another part and what separates the two, is cut at that
/// other part.
pub(crate) proof fn lemma_cut_earlier(
    lead: Seq<char>,
    part: Seq<char>,
    between: Seq<char>,
    next: Seq<char>,
    rest: Seq<char>,
)
    ensures
        (lead + part + between) + next + rest == lead + part + (between + next + rest),
{
    assert((lead + part + between) + next + rest =~= lead + part + (between + next + rest));
}

pub(crate) proof fn lemma_once(
    p: Seq<char>,
    q: Seq<char>,
    one: Seq<char>,
    a: Seq<char>,
    other: Seq<char>,
    b: Seq<char>,
)
    requires
        one == p + a + q,
        other == p + b + q,
    ensures
        agree_but_for(1, one, a, other, b),
{
    let first = seq![p];
    lemma_woven_grows(first, q, a);
    lemma_woven_grows(first, q, b);
    assert(one == woven(first.push(q), a));
}

pub(crate) proof fn lemma_twice(
    p: Seq<char>,
    q: Seq<char>,
    r: Seq<char>,
    one: Seq<char>,
    a: Seq<char>,
    other: Seq<char>,
    b: Seq<char>,
)
    requires
        one == p + a + q + a + r,
        other == p + b + q + b + r,
    ensures
        agree_but_for(2, one, a, other, b),
{
    let first = seq![p];
    let second = first.push(q);
    lemma_woven_grows(first, q, a);
    lemma_woven_grows(first, q, b);
    lemma_woven_grows(second, r, a);
    lemma_woven_grows(second, r, b);
    assert(one == woven(second.push(r), a));
}

spec fn joined(p: Seq<Seq<char>>, q: Seq<Seq<char>>) -> Seq<Seq<char>> {
    p.drop_last() + seq![p.last() + q[0]] + q.skip(1)
}

proof fn lemma_woven_joined(p: Seq<Seq<char>>, q: Seq<Seq<char>>, t: Seq<char>)
    requires
        p.len() > 0,
        q.len() > 0,
    ensures
        woven(joined(p, q), t) == woven(p, t) + woven(q, t),
    decreases q.len(),
{
    let all = joined(p, q);
    if q.len() == 1 {
        assert(all.drop_last() =~= p.drop_last());
        assert(all.last() == p.last() + q[0]);
        assert(woven(all, t) =~= woven(p, t) + woven(q, t));
    } else {
        lemma_woven_joined(p, q.drop_last(), t);
        assert(all.drop_last() =~= joined(p, q.drop_last()));
        assert(all.last() == q.last());
        assert(woven(all, t) =~= woven(p, t) + woven(q, t));
    }
}

/// What holds of two parts holds of what they make together.
pub(crate) proof fn lemma_agree_joined(
    k: nat,
    one: Seq<char>,
    other: Seq<char>,
    m: nat,
    one_more: Seq<char>,
    other_more: Seq<char>,
    a: Seq<char>,
    b: Seq<char>,
)
    requires
        agree_but_for(k, one, a, other, b),
        agree_but_for(m, one_more, a, other_more, b),
    ensures
        agree_but_for(k + m, one + one_more, a, other + other_more, b),
{
    let p = choose|p: Seq<Seq<char>>|
        {
            &&& p.len() == k + 1
            &&& one == #[trigger] woven(p, a)
            &&& other == woven(p, b)
        };
    let q = choose|q: Seq<Seq<char>>|
        {
            &&& q.len() == m + 1
            &&& one_more == #[trigger] woven(q, a)
            &&& other_more == woven(q, b)
        };
    lemma_woven_joined(p, q, a);
    lemma_woven_joined(p, q, b);
    assert(joined(p, q).len() == k + m + 1);
    assert(one + one_more == woven(joined(p, q), a));
}

/// Parts, one behind the other.
pub open spec fn laid(parts: Seq<Seq<char>>) -> Seq<char>
    decreases parts.len(),
{
    if parts.len() == 0 {
        seq![]
    } else if parts.len() == 1 {
        parts[0]
    } else {
        laid(parts.drop_last()) + parts.last()
    }
}

pub(crate) broadcast proof fn lemma_laid_push(parts: Seq<Seq<char>>, part: Seq<char>)
    ensures
        #[trigger] laid(parts.push(part)) == if parts.len() == 0 {
            part
        } else {
            laid(parts) + part
        },
{
    assert(parts.push(part).drop_last() =~= parts);
}

proof fn lemma_laid_apart(parts: Seq<Seq<char>>, i: int)
    requires
        0 <= i < parts.len(),
    ensures
        laid(parts) == laid(parts.take(i)) + parts[i] + laid(parts.skip(i + 1)),
    decreases parts.len(),
{
    let before = parts.take(i);
    let after = parts.skip(i + 1);
    if i == parts.len() - 1 {
        assert(after =~= seq![]);
        assert(parts.drop_last() =~= before);
        assert(laid(parts) =~= laid(before) + parts[i] + laid(after));
    } else {
        let fewer = parts.drop_last();
        lemma_laid_apart(fewer, i);
        assert(fewer.take(i) =~= before);
        assert(fewer.skip(i + 1) =~= after.drop_last());
        if after.len() == 1 {
            assert(after.drop_last() =~= seq![]);
        }
        assert(laid(after) =~= laid(after.drop_last()) + after.last());
        assert(laid(parts) =~= laid(before) + parts[i] + laid(after));
    }
}

/// Texts whose parts are the same but for one.
pub(crate) proof fn lemma_part(one: Seq<Seq<char>>, other: Seq<Seq<char>>, i: int)
    requires
        0 <= i < one.len(),
        one.len() == other.len(),
        forall|j: int| 0 <= j < one.len() && j != i ==> #[trigger] one[j] == other[j],
    ensures
        agree_but_for(1, laid(one), one[i], laid(other), other[i]),
{
    lemma_laid_apart(one, i);
    lemma_laid_apart(other, i);
    assert(one.take(i) =~= other.take(i));
    assert(one.skip(i + 1) =~= other.skip(i + 1));
    lemma_once(
        laid(one.take(i)),
        laid(one.skip(i + 1)),
        laid(one),
        one[i],
        laid(other),
        other[i],
    );
}

/// Texts whose parts are the same but for two, which are the same in each of them.
pub(crate) proof fn lemma_two_parts(one: Seq<Seq<char>>, other: Seq<Seq<char>>, i: int, k: int)
    requires
        0 <= i < k < one.len(),
        one.len() == other.len(),
        one[i] == one[k],
        other[i] == other[k],
        forall|j: int| 0 <= j < one.len() && j != i && j != k ==> #[trigger] one[j] == other[j],
    ensures
        agree_but_for(2, laid(one), one[i], laid(other), other[i]),
{
    lemma_laid_apart(one, k);
    lemma_laid_apart(other, k);
    lemma_laid_apart(one.take(k), i);
    lemma_laid_apart(other.take(k), i);
    assert(one.take(k).take(i) =~= other.take(k).take(i));
    assert(one.take(k).skip(i + 1) =~= other.take(k).skip(i + 1));
    assert(one.skip(k + 1) =~= other.skip(k + 1));
    lemma_twice(
        laid(one.take(k).take(i)),
        laid(one.take(k).skip(i + 1)),
        laid(one.skip(k + 1)),
        laid(one),
        one[i],
        laid(other),
        other[i],
    );
}

} // verus!
