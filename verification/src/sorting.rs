//! Sorted collections of text.

use crate::table::Table;
use crate::text;
use vstd::prelude::*;

verus! {

/// Whether texts strictly ascend.
pub open spec fn ascending(texts: Seq<Seq<char>>) -> bool {
    forall|i: int, j: int|
        0 <= i < j < texts.len() ==> text::before(#[trigger] texts[i], #[trigger] texts[j])
}

/// Whether a sequence holds the same texts as another, each once and in
/// ascending order.
pub open spec fn is_sorted_set(sorted: Seq<Seq<char>>, texts: Seq<Seq<char>>) -> bool {
    &&& ascending(sorted)
    &&& forall|item: Seq<char>| #[trigger] sorted.contains(item) <==> texts.contains(item)
}

/// The given texts, each once and in ascending order.
pub fn sorted_set(texts: &Vec<String>) -> (sorted: Vec<String>)
    ensures
        is_sorted_set(text::all(sorted@), text::all(texts@)),
{
    let mut set: Table<String, ()> = Table::new();
    let ghost items = text::all(texts@);
    let mut i: usize = 0;
    while i < texts.len()
        invariant
            set.wf(),
            i <= texts.len(),
            items == text::all(texts@),
            forall|item: Seq<char>| #[trigger]
                set@.dom().contains(item) <==> exists|k: int|
                    0 <= k < i && #[trigger] items[k] == item,
        decreases texts.len() - i,
    {
        let ghost before = set@;
        set.insert(texts[i].clone(), ());
        assert(items[i as int] == texts@[i as int]@);
        i += 1;
    }
    proof {
        set.keys_are_the_domain();
    }
    let ghost keys = set.keys();
    let mut sorted: Vec<String> = Vec::new();
    let mut j: usize = 0;
    while j < set.len()
        invariant
            keys == set.keys(),
            j <= keys.len(),
            sorted@.len() == j,
            forall|k: int| 0 <= k < j ==> (#[trigger] sorted@[k])@ == keys[k],
        decreases keys.len() - j,
    {
        sorted.push(set.key_at(j).clone());
        j += 1;
    }
    proof {
        assert(text::all(sorted@) =~= keys);
        assert forall|item: Seq<char>| #[trigger] keys.contains(item) <==> items.contains(item) by {
            if keys.contains(item) {
                let k = choose|k: int| 0 <= k < keys.len() && keys[k] == item;
                assert(set@.dom().contains(keys[k]));
            }
            if items.contains(item) {
                let k = choose|k: int| 0 <= k < items.len() && items[k] == item;
                assert(set@.dom().contains(item));
                let l = choose|l: int| 0 <= l < keys.len() && #[trigger] keys[l] == item;
                assert(keys.contains(item));
            }
        }
    }
    sorted
}

/// Two ascending sequences of the same texts are the same sequence.
pub proof fn sorted_set_is_unique(left: Seq<Seq<char>>, right: Seq<Seq<char>>, texts: Seq<Seq<char>>)
    requires
        is_sorted_set(left, texts),
        is_sorted_set(right, texts),
    ensures
        left == right,
{
    assert forall|i: int| 0 <= i < left.len() && i < right.len() implies left[i] == right[i] by {
        same_position(left, right, texts, i);
    }
    no_longer(left, right, texts);
    no_longer(right, left, texts);
    assert(left =~= right);
}

proof fn same_position(
    left: Seq<Seq<char>>,
    right: Seq<Seq<char>>,
    texts: Seq<Seq<char>>,
    i: int,
)
    requires
        is_sorted_set(left, texts),
        is_sorted_set(right, texts),
        0 <= i < left.len(),
        i < right.len(),
    ensures
        left[i] == right[i],
    decreases i,
{
    assert forall|k: int| 0 <= k < i implies left[k] == right[k] by {
        same_position(left, right, texts, k);
    }
    assert(left.contains(left[i]));
    assert(right.contains(right[i]));
    assert(right.contains(left[i]));
    assert(left.contains(right[i]));
    let a = choose|a: int| 0 <= a < right.len() && right[a] == left[i];
    let b = choose|b: int| 0 <= b < left.len() && left[b] == right[i];
    text::before_irreflexive(left[i]);
    text::before_irreflexive(right[i]);
    if a < i {
        assert(text::before(left[a], left[i]));
    }
    if b < i {
        assert(text::before(right[b], right[i]));
    }
    if a > i && b > i {
        assert(text::before(right[i], right[a]));
        assert(text::before(left[i], left[b]));
        text::before_asymmetric(right[i], left[i]);
    }
}

proof fn no_longer(short: Seq<Seq<char>>, long: Seq<Seq<char>>, texts: Seq<Seq<char>>)
    requires
        is_sorted_set(short, texts),
        is_sorted_set(long, texts),
        forall|i: int| 0 <= i < short.len() && i < long.len() ==> short[i] == long[i],
    ensures
        long.len() <= short.len(),
{
    if short.len() < long.len() {
        let extra = long[short.len() as int];
        assert(long.contains(extra));
        assert(short.contains(extra));
        let i = choose|i: int| 0 <= i < short.len() && short[i] == extra;
        text::before_irreflexive(extra);
        assert(text::before(long[i], long[short.len() as int]));
    }
}

/// Something that is sorted by a text.
pub trait ByText: Sized {
    /// The text that decides the order.
    spec fn rank(&self) -> Seq<char>;

    /// The text that decides the order.
    fn key(&self) -> (key: &str)
        ensures
            key@ == self.rank(),
    ;
}

impl ByText for String {
    open spec fn rank(&self) -> Seq<char> {
        self@
    }

    fn key(&self) -> &str {
        self.as_str()
    }
}

/// Whether items are in ascending order of their texts.
pub open spec fn in_order<T: ByText>(items: Seq<T>) -> bool {
    forall|i: int, j: int|
        0 <= i < j < items.len() ==> !text::before(
            (#[trigger] items[j]).rank(),
            (#[trigger] items[i]).rank(),
        )
}

/// The same items in ascending order of their texts.
pub open spec fn is_sorted<T: ByText>(sorted: Seq<T>, items: Seq<T>) -> bool {
    in_order(sorted) && sorted.to_multiset() == items.to_multiset()
}

proof fn not_before_transitive(a: Seq<char>, b: Seq<char>, c: Seq<char>)
    requires
        !text::before(b, a),
        !text::before(c, b),
    ensures
        !text::before(c, a),
{
    text::before_total(a, b);
    text::before_total(b, c);
    if text::before(c, a) {
        if text::before(a, b) {
            text::before_transitive(c, a, b);
        }
    }
}

/// Merges two sorted vectors, from their ends, into descending order.
fn merge_descending<T: ByText>(left: Vec<T>, right: Vec<T>) -> (merged: Vec<T>)
    requires
        in_order(left@),
        in_order(right@),
    ensures
        forall|i: int, j: int|
            0 <= i < j < merged@.len() ==> !text::before(
                (#[trigger] merged@[i]).rank(),
                (#[trigger] merged@[j]).rank(),
            ),
        merged@.to_multiset() == left@.to_multiset().add(right@.to_multiset()),
{
    broadcast use vstd::seq_lib::group_to_multiset_ensures;

    let mut a = left;
    let mut b = right;
    let mut merged: Vec<T> = Vec::new();
    let ghost all = left@.to_multiset().add(right@.to_multiset());
    assert(all =~= merged@.to_multiset().add(a@.to_multiset()).add(b@.to_multiset()));
    while a.len() > 0 || b.len() > 0
        invariant
            in_order(a@),
            in_order(b@),
            all == merged@.to_multiset().add(a@.to_multiset()).add(b@.to_multiset()),
            forall|i: int, j: int|
                0 <= i < j < merged@.len() ==> !text::before(
                    (#[trigger] merged@[i]).rank(),
                    (#[trigger] merged@[j]).rank(),
                ),
            forall|i: int, j: int|
                0 <= i < merged@.len() && 0 <= j < a@.len() ==> !text::before(
                    (#[trigger] merged@[i]).rank(),
                    (#[trigger] a@[j]).rank(),
                ),
            forall|i: int, j: int|
                0 <= i < merged@.len() && 0 <= j < b@.len() ==> !text::before(
                    (#[trigger] merged@[i]).rank(),
                    (#[trigger] b@[j]).rank(),
                ),
        decreases a.len() + b.len(),
    {
        broadcast use vstd::seq_lib::group_to_multiset_ensures;

        let from_left = if b.len() == 0 {
            true
        } else if a.len() == 0 {
            false
        } else {
            text::is_before(b[b.len() - 1].key(), a[a.len() - 1].key())
        };
        let ghost a_before = a@;
        let ghost b_before = b@;
        let ghost m_before = merged@;
        if from_left {
            if let Some(item) = a.pop() {
                let ghost taken = item;
                merged.push(item);
                proof {
                    assert(a_before =~= a@.push(taken));
                    assert(merged@ =~= m_before.push(taken));
                    assert(taken == a_before[a_before.len() - 1]);
                    assert forall|j: int| 0 <= j < b@.len() implies !text::before(
                        taken.rank(),
                        (#[trigger] b@[j]).rank(),
                    ) by {
                        let last = b@[b@.len() - 1];
                        text::before_asymmetric(last.rank(), taken.rank());
                        if j < b@.len() - 1 {
                            not_before_transitive(b@[j].rank(), last.rank(), taken.rank());
                        }
                    }
                    assert forall|j: int| 0 <= j < a@.len() implies !text::before(
                        taken.rank(),
                        (#[trigger] a@[j]).rank(),
                    ) by {
                        assert(a@[j] == a_before[j]);
                    }
                    assert(all =~= merged@.to_multiset().add(a@.to_multiset()).add(
                        b@.to_multiset(),
                    ));
                }
            }
        } else {
            if let Some(item) = b.pop() {
                let ghost taken = item;
                merged.push(item);
                proof {
                    assert(b_before =~= b@.push(taken));
                    assert(merged@ =~= m_before.push(taken));
                    assert(taken == b_before[b_before.len() - 1]);
                    assert forall|j: int| 0 <= j < a@.len() implies !text::before(
                        taken.rank(),
                        (#[trigger] a@[j]).rank(),
                    ) by {
                        let last = a@[a@.len() - 1];
                        if j < a@.len() - 1 {
                            not_before_transitive(a@[j].rank(), last.rank(), taken.rank());
                        }
                    }
                    assert forall|j: int| 0 <= j < b@.len() implies !text::before(
                        taken.rank(),
                        (#[trigger] b@[j]).rank(),
                    ) by {
                        assert(b@[j] == b_before[j]);
                    }
                    assert(all =~= merged@.to_multiset().add(a@.to_multiset()).add(
                        b@.to_multiset(),
                    ));
                }
            }
        }
    }
    assert(a@ =~= Seq::<T>::empty());
    assert(b@ =~= Seq::<T>::empty());
    assert(all =~= merged@.to_multiset());
    merged
}

/// A vector in the opposite order.
fn reversed<T>(items: Vec<T>) -> (result: Vec<T>)
    ensures
        result@ == items@.reverse(),
        result@.to_multiset() == items@.to_multiset(),
{
    broadcast use vstd::seq_lib::group_to_multiset_ensures;

    let mut rest = items;
    let mut result: Vec<T> = Vec::new();
    assert(items@.to_multiset() =~= result@.to_multiset().add(rest@.to_multiset()));
    while rest.len() > 0
        invariant
            rest@.len() + result@.len() == items@.len(),
            rest@ == items@.take(rest@.len() as int),
            forall|i: int| 0 <= i < result@.len() ==> result@[i] == items@[items@.len() - 1 - i],
            items@.to_multiset() == result@.to_multiset().add(rest@.to_multiset()),
        decreases rest.len(),
    {
        broadcast use vstd::seq_lib::group_to_multiset_ensures;

        let ghost rest_before = rest@;
        let ghost result_before = result@;
        if let Some(item) = rest.pop() {
            let ghost taken = item;
            result.push(item);
            proof {
                assert(rest_before =~= rest@.push(taken));
                assert(result@ =~= result_before.push(taken));
                assert(rest@ =~= items@.take(rest@.len() as int));
                assert(items@.to_multiset() =~= result@.to_multiset().add(rest@.to_multiset()));
            }
        }
    }
    assert(rest@ =~= Seq::<T>::empty());
    assert(result@ =~= items@.reverse());
    assert(items@.to_multiset() =~= result@.to_multiset());
    result
}

/// Sorts items by their texts.
pub fn sort_by_text<T: ByText>(items: Vec<T>) -> (sorted: Vec<T>)
    ensures
        is_sorted(sorted@, items@),
    decreases items@.len(),
{
    broadcast use vstd::seq_lib::group_to_multiset_ensures;

    if items.len() < 2 {
        return items;
    }
    let mut left = items;
    let half: usize = left.len() / 2;
    let ghost before = left@;
    let right = left.split_off(half);
    assert(before =~= left@ + right@);
    proof {
        vstd::seq_lib::lemma_multiset_commutative(left@, right@);
    }
    let a = sort_by_text(left);
    let b = sort_by_text(right);
    let merged = merge_descending(a, b);
    let sorted = reversed(merged);
    proof {
        assert forall|i: int, j: int| 0 <= i < j < sorted@.len() implies !text::before(
            (#[trigger] sorted@[j]).rank(),
            (#[trigger] sorted@[i]).rank(),
        ) by {
            assert(sorted@[i] == merged@[merged@.len() - 1 - i]);
            assert(sorted@[j] == merged@[merged@.len() - 1 - j]);
        }
        assert(sorted@.to_multiset() =~= items@.to_multiset());
    }
    sorted
}

} // verus!
