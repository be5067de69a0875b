//! The order of texts by their characters, and a sort by it.

use crate::text::{chars_of, texts};
use vstd::prelude::*;

verus! {

/// `a` comes before `b` or equals it in the order of texts: character by
/// character, by the characters' numbers; a text comes before every text
/// that it begins. This is the order in which the standard library compares
/// strings.
pub open spec fn text_le(a: Seq<char>, b: Seq<char>) -> bool
    decreases a.len(),
{
    if a.len() == 0 {
        true
    } else if b.len() == 0 {
        false
    } else if (a[0] as int) < (b[0] as int) {
        true
    } else if (a[0] as int) > (b[0] as int) {
        false
    } else {
        text_le(a.drop_first(), b.drop_first())
    }
}

/// Of two texts one comes before the other, or they are equal.
pub proof fn text_le_is_total(a: Seq<char>, b: Seq<char>)
    ensures
        text_le(a, b) || text_le(b, a),
    decreases a.len(),
{
    if a.len() > 0 && b.len() > 0 {
        text_le_is_total(a.drop_first(), b.drop_first());
    }
}

/// The order of texts is transitive.
pub proof fn text_le_is_transitive(a: Seq<char>, b: Seq<char>, c: Seq<char>)
    requires
        text_le(a, b),
        text_le(b, c),
    ensures
        text_le(a, c),
    decreases a.len(),
{
    if a.len() > 0 && b.len() > 0 && c.len() > 0 {
        if a[0] as int == b[0] as int && b[0] as int == c[0] as int {
            text_le_is_transitive(a.drop_first(), b.drop_first(), c.drop_first());
        }
    }
}

/// Two texts that come before each other are the same text.
pub proof fn text_le_is_antisymmetric(a: Seq<char>, b: Seq<char>)
    requires
        text_le(a, b),
        text_le(b, a),
    ensures
        a == b,
    decreases a.len(),
{
    if a.len() > 0 && b.len() > 0 {
        text_le_is_antisymmetric(a.drop_first(), b.drop_first());
        assert(a[0] as int == b[0] as int);
        assert(a[0] == b[0]);
        assert(a =~= seq![a[0]] + a.drop_first());
        assert(b =~= seq![b[0]] + b.drop_first());
    } else {
        assert(a =~= b);
    }
}

/// The texts stand in ascending order.
pub open spec fn ascending(list: Seq<Seq<char>>) -> bool {
    forall|i: int, j: int| 0 <= i < j < list.len() ==> text_le(list[i], list[j])
}

/// There is one ascending order of given texts: two ascending lists that
/// hold the same texts, each as often as the other, are the same list.
pub proof fn ascending_lists_agree(a: Seq<Seq<char>>, b: Seq<Seq<char>>)
    requires
        ascending(a),
        ascending(b),
        a.to_multiset() == b.to_multiset(),
    ensures
        a == b,
    decreases a.len(),
{
    broadcast use vstd::seq_lib::to_multiset_len;

    assert(a.len() == a.to_multiset().len());
    assert(b.len() == b.to_multiset().len());
    if a.len() == 0 {
        assert(a =~= b);
    } else {
        let n = a.len() - 1;
        vstd::seq_lib::to_multiset_contains(a, b[n]);
        vstd::seq_lib::to_multiset_contains(b, b[n]);
        vstd::seq_lib::to_multiset_contains(a, a[n]);
        vstd::seq_lib::to_multiset_contains(b, a[n]);
        assert(b.contains(b[n]));
        assert(a.contains(a[n]));
        let i = choose|i: int| 0 <= i < a.len() && a[i] == b[n];
        let j = choose|j: int| 0 <= j < b.len() && b[j] == a[n];
        text_le_is_total(a[n], a[n]);
        text_le_is_total(b[n], b[n]);
        assert(text_le(a[i], a[n]));
        assert(text_le(b[j], b[n]));
        text_le_is_antisymmetric(a[n], b[n]);
        vstd::seq_lib::to_multiset_remove(a, n);
        vstd::seq_lib::to_multiset_remove(b, n);
        assert(a.remove(n) =~= a.drop_last());
        assert(b.remove(n) =~= b.drop_last());
        ascending_lists_agree(a.drop_last(), b.drop_last());
        assert(a =~= a.drop_last().push(a[n]));
        assert(b =~= b.drop_last().push(b[n]));
    }
}

/// The number of a character.
fn number_of(c: char) -> (n: u32)
    ensures
        n as int == c as int,
{
    c as u32
}

/// Whether `a` comes before `b` or equals it in the order of texts.
pub fn precedes(a: &Vec<char>, b: &Vec<char>) -> (res: bool)
    ensures
        res == text_le(a@, b@),
{
    let mut i: usize = 0;
    assert(a@.skip(0) =~= a@ && b@.skip(0) =~= b@);
    loop
        invariant
            i <= a.len(),
            i <= b.len(),
            text_le(a@, b@) == text_le(a@.skip(i as int), b@.skip(i as int)),
        decreases a.len() - i,
    {
        if i == a.len() {
            return true;
        }
        if i == b.len() {
            return false;
        }
        assert(a@.skip(i as int)[0] == a@[i as int]);
        assert(b@.skip(i as int)[0] == b@[i as int]);
        let x: u32 = number_of(a[i]);
        let y: u32 = number_of(b[i]);
        if x < y {
            return true;
        }
        if x > y {
            return false;
        }
        assert(a@.skip(i as int).drop_first() =~= a@.skip(i + 1));
        assert(b@.skip(i as int).drop_first() =~= b@.skip(i + 1));
        i += 1;
    }
}

/// The texts in ascending order: the same texts, each as often as before.
pub fn sort_texts(list: Vec<String>) -> (res: Vec<String>)
    ensures
        ascending(texts(res@)),
        texts(res@).to_multiset() == texts(list@).to_multiset(),
{
    let mut res: Vec<String> = Vec::new();
    let mut keys: Vec<Vec<char>> = Vec::new();
    let mut n: usize = 0;
    assert(texts(list@).subrange(0, 0) =~= Seq::<Seq<char>>::empty());
    assert(texts(res@) =~= Seq::<Seq<char>>::empty());
    while n < list.len()
        invariant
            n <= list.len(),
            keys@.len() == res@.len(),
            forall|k: int| 0 <= k < res@.len() ==> keys@[k]@ == res@[k]@,
            ascending(texts(res@)),
            texts(res@).to_multiset() == texts(list@).subrange(0, n as int).to_multiset(),
        decreases list.len() - n,
    {
        let item = list[n].clone();
        let key = chars_of(item.as_str());
        let mut at: usize = 0;
        while at < keys.len() && precedes(&keys[at], &key)
            invariant
                at <= keys.len(),
                keys@.len() == res@.len(),
                forall|k: int| 0 <= k < res@.len() ==> keys@[k]@ == res@[k]@,
                forall|k: int| 0 <= k < at ==> text_le(texts(res@)[k], key@),
            decreases keys.len() - at,
        {
            at += 1;
        }
        let ghost before = texts(res@);
        proof {
            assert forall|k: int| at <= k < before.len() implies text_le(key@, before[k]) by {
                text_le_is_total(before[at as int], key@);
                if at < k {
                    text_le_is_transitive(key@, before[at as int], before[k]);
                }
            }
            vstd::seq_lib::to_multiset_insert(before, at as int, key@);
            vstd::seq_lib::to_multiset_build(texts(list@).subrange(0, n as int), key@);
            assert(texts(list@).subrange(0, n + 1) =~= texts(list@).subrange(0, n as int).push(
                key@,
            ));
        }
        res.insert(at, item);
        keys.insert(at, key);
        assert(texts(res@) =~= before.insert(at as int, key@));
        n += 1;
    }
    assert(texts(list@).subrange(0, list.len() as int) =~= texts(list@));
    res
}

} // verus!
