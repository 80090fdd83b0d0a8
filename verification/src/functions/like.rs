//! The pattern match of `LIKE`.
//!
//! In a pattern `%` stands for any run of bytes, the empty one too, and `_`
//! for any one byte. Every other byte stands for itself.

use vstd::prelude::*;
use vstd::utf8::encode_utf8;
use crate::sequences::lemma_filter_push;

verus! {

/// Whether the text matches the pattern.
pub open spec fn like(pattern: Seq<u8>, text: Seq<u8>) -> bool
    decreases pattern.len(), text.len(),
{
    if pattern.len() == 0 {
        text.len() == 0
    } else if pattern[0] == 37u8 {
        like(pattern.drop_first(), text) || (text.len() > 0 && like(pattern, text.drop_first()))
    } else {
        text.len() > 0 && (pattern[0] == 95u8 || pattern[0] == text[0]) && like(
            pattern.drop_first(),
            text.drop_first(),
        )
    }
}

/// The names that match the pattern, in their order.
pub open spec fn matching(names: Seq<Seq<char>>, pattern: Seq<char>) -> Seq<Seq<char>> {
    names.filter(|name: Seq<char>| like(encode_utf8(pattern), encode_utf8(name)))
}

/// Whether the text matches the pattern.
pub fn like_bytes(pattern: &[u8], text: &[u8]) -> (r: bool)
    ensures
        r == like(pattern@, text@),
{
    let p = pattern.len();
    let t = text.len();
    // `next[j]` tells whether the text from `j` on matches the pattern from
    // `i` on, and `next_end` whether the empty text does
    let mut next: Vec<bool> = Vec::new();
    let mut next_end = true;
    let mut j: usize = 0;
    assert(pattern@.skip(p as int).len() == 0);
    assert(text@.skip(t as int).len() == 0);
    while j < t
        invariant
            j <= t,
            t == text@.len(),
            p == pattern@.len(),
            next.len() == j,
            forall|k: int| 0 <= k < j ==> #[trigger] next@[k] == like(pattern@.skip(p as int), text@.skip(k)),
        decreases t - j,
    {
        assert(pattern@.skip(p as int).len() == 0);
        assert(text@.skip(j as int).len() == t - j);
        next.push(false);
        j = j + 1;
    }
    let mut i: usize = p;
    while i > 0
        invariant
            i <= p,
            t == text@.len(),
            p == pattern@.len(),
            next.len() == t,
            next_end == like(pattern@.skip(i as int), text@.skip(t as int)),
            forall|k: int| 0 <= k < t ==> #[trigger] next@[k] == like(pattern@.skip(i as int), text@.skip(k)),
        decreases i,
    {
        i = i - 1;
        let c = pattern[i];
        let ghost rest = pattern@.skip(i as int);
        assert(rest.len() > 0 && rest[0] == c);
        assert(rest.drop_first() =~= pattern@.skip(i + 1));
        assert(text@.skip(t as int).len() == 0);
        let cur_end = c == 37u8 && next_end;
        let mut cur = next.clone();
        let mut j: usize = t;
        while j > 0
            invariant
                j <= t,
                i < p,
                t == text@.len(),
                p == pattern@.len(),
                cur.len() == t,
                next.len() == t,
                rest == pattern@.skip(i as int),
                rest.len() > 0,
                rest[0] == c,
                rest.drop_first() == pattern@.skip(i + 1),
                next_end == like(pattern@.skip(i + 1), text@.skip(t as int)),
                cur_end == like(rest, text@.skip(t as int)),
                forall|k: int|
                    0 <= k < t ==> #[trigger] next@[k] == like(pattern@.skip(i + 1), text@.skip(k)),
                forall|k: int| j <= k < t ==> #[trigger] cur@[k] == like(rest, text@.skip(k)),
            decreases j,
        {
            j = j - 1;
            let ghost tail = text@.skip(j as int);
            proof {
                assert(tail.len() == t - j);
                assert(tail[0] == text@[j as int]);
                assert(tail.drop_first() =~= text@.skip(j + 1));
            }
            let after_cur = if j + 1 < t {
                cur[j + 1]
            } else {
                cur_end
            };
            let after_next = if j + 1 < t {
                next[j + 1]
            } else {
                next_end
            };
            let matched = if c == 37u8 {
                next[j] || after_cur
            } else {
                (c == 95u8 || c == text[j]) && after_next
            };
            cur.set(j, matched);
        }
        next = cur;
        next_end = cur_end;
    }
    assert(pattern@.skip(0) =~= pattern@);
    assert(text@.skip(0) =~= text@);
    if t == 0 {
        next_end
    } else {
        next[0]
    }
}

/// The names that match the pattern, in their order. A pattern that no name
/// matches gives an empty list.
pub fn filter_like(names: &Vec<String>, pattern: &str) -> (r: Vec<String>)
    ensures
        Seq::new(r@.len(), |i: int| r@[i]@) == matching(
            Seq::new(names@.len(), |i: int| names@[i]@),
            pattern@,
        ),
{
    let ghost all = Seq::new(names@.len(), |i: int| names@[i]@);
    let ghost keep = |name: Seq<char>| like(encode_utf8(pattern@), encode_utf8(name));
    let mut out: Vec<String> = Vec::new();
    let mut i: usize = 0;
    assert(all.take(0) =~= Seq::<Seq<char>>::empty());
    assert(Seq::new(out@.len(), |i: int| out@[i]@) =~= all.take(0).filter(keep));
    while i < names.len()
        invariant
            i <= names.len(),
            all == Seq::new(names@.len(), |i: int| names@[i]@),
            keep == |name: Seq<char>| like(encode_utf8(pattern@), encode_utf8(name)),
            Seq::new(out@.len(), |i: int| out@[i]@) == all.take(i as int).filter(keep),
        decreases names.len() - i,
    {
        let name = &names[i];
        let ghost before = Seq::new(out@.len(), |i: int| out@[i]@);
        proof {
            assert(all.take(i + 1) =~= all.take(i as int).push(all[i as int]));
            lemma_filter_push(all.take(i as int), all[i as int], keep);
        }
        if like_bytes(pattern.as_bytes(), name.as_str().as_bytes()) {
            out.push(name.clone());
            assert(Seq::new(out@.len(), |i: int| out@[i]@) =~= before.push(all[i as int]));
        }
        i = i + 1;
    }
    assert(all.take(names.len() as int) =~= all);
    out
}

} // verus!
