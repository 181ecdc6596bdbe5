use vstd::prelude::*;
use vstd::multiset::Multiset;

verus! {

/// The items of `items` whose flag in `flags` equals `want`, in their order.
pub open spec fn select<T>(items: Seq<T>, flags: Seq<bool>, want: bool) -> Seq<T>
    decreases items.len(),
{
    if items.len() == 0 {
        Seq::empty()
    } else {
        let last = items.len() - 1;
        let init = select(items.take(last), flags, want);
        if flags[last] == want {
            init.push(items[last])
        } else {
            init
        }
    }
}

/// Splits `items` by their flags: those flagged `false` stay, those flagged
/// `true` leave. Both parts keep the order the items had.
pub fn split_by_flags<T>(items: Vec<T>, flags: &Vec<bool>) -> (r: (Vec<T>, Vec<T>))
    requires
        items.len() == flags.len(),
    ensures
        r.0@ == select(items@, flags@, false),
        r.1@ == select(items@, flags@, true),
{
    let ghost all = items@;
    let mut kept: Vec<T> = Vec::new();
    let mut left: Vec<T> = Vec::new();
    let mut i: usize = 0;
    for x in it: items.into_iter()
        invariant
            it.seq() == all,
            i == it.index(),
            all.len() == flags.len(),
            kept@ == select(all.take(i as int), flags@, false),
            left@ == select(all.take(i as int), flags@, true),
    {
        proof {
            assert(all.take(i + 1).take(i as int) =~= all.take(i as int));
        }
        if flags[i] {
            left.push(x);
        } else {
            kept.push(x);
        }
        i = i + 1;
    }
    proof {
        assert(all.take(i as int) =~= all);
    }
    (kept, left)
}

/// The items of `items` in the opposite order.
pub fn reversed<T>(items: Vec<T>) -> (r: Vec<T>)
    ensures
        r@ == items@.reverse(),
{
    let ghost all = items@;
    let mut rest = items;
    let mut r: Vec<T> = Vec::new();
    while rest.len() > 0
        invariant
            rest@ == all.take(rest.len() as int),
            rest.len() <= all.len(),
            r.len() == all.len() - rest.len(),
            forall|j: int| 0 <= j < r.len() ==> #[trigger] r@[j] == all[all.len() - 1 - j],
        decreases rest.len(),
    {
        let x = rest.pop().unwrap();
        r.push(x);
    }
    assert(r@ =~= all.reverse());
    r
}

/// Splitting loses and adds nothing: the two parts together hold exactly
/// the items that were there.
pub proof fn lemma_split_partitions<T>(items: Seq<T>, flags: Seq<bool>)
    ensures
        select(items, flags, false).len() + select(items, flags, true).len() == items.len(),
        select(items, flags, false).to_multiset().add(select(items, flags, true).to_multiset())
            == items.to_multiset(),
    decreases items.len(),
{
    broadcast use vstd::seq_lib::group_to_multiset_ensures;
    broadcast use vstd::multiset::group_multiset_axioms;

    if items.len() == 0 {
        assert(items.to_multiset() =~= Multiset::empty());
        assert(select(items, flags, false).to_multiset().add(select(items, flags, true).to_multiset())
            =~= Multiset::empty());
    } else {
        let last = items.len() - 1;
        lemma_split_partitions(items.take(last), flags);
        assert(items =~= items.take(last).push(items[last]));
        assert(select(items, flags, false).to_multiset().add(select(items, flags, true).to_multiset())
            =~= items.to_multiset());
    }
}

} // verus!
