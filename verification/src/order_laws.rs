//! What holds of the order of episodes: proofs about `sorted_by_index`.

use crate::episode_order::{
    index_precedes, insert_by_index, is_ordered, lemma_insert_place, padded_index,
    sorted_by_index, text_precedes,
};
use crate::metadata::EpisodeView;
use vstd::prelude::*;

verus! {

/// A padded index is at least two characters wide, exactly two for an index
/// of at most two characters, and ends with the index itself. An index that
/// is already two characters or longer is not changed.
pub proof fn lemma_padded_width(index: Seq<char>)
    ensures
        padded_index(index).len() >= 2,
        index.len() <= 2 ==> padded_index(index).len() == 2,
        index.len() >= 2 ==> padded_index(index) == index,
        padded_index(index).skip(padded_index(index).len() - index.len()) == index,
        forall|i: int|
            0 <= i < padded_index(index).len() - index.len() ==> padded_index(index)[i] == '0',
{
    assert(padded_index(index).skip(padded_index(index).len() - index.len()) =~= index);
}

/// Of two texts at most one comes strictly before the other.
pub proof fn lemma_precedes_one_way(a: Seq<char>, b: Seq<char>)
    requires
        text_precedes(a, b),
    ensures
        !text_precedes(b, a),
    decreases a.len(),
{
    if a.len() > 0 && b.len() > 0 && a[0] == b[0] {
        lemma_precedes_one_way(a.drop_first(), b.drop_first());
    }
}

/// A text that comes before `b` also comes before every text that `b` does
/// not come after.
pub proof fn lemma_precedes_chain(a: Seq<char>, b: Seq<char>, c: Seq<char>)
    requires
        text_precedes(a, b),
        !text_precedes(c, b),
    ensures
        text_precedes(a, c),
    decreases a.len(),
{
    if a.len() > 0 && b.len() > 0 && c.len() > 0 && a[0] == b[0] && b[0] == c[0] {
        lemma_precedes_chain(a.drop_first(), b.drop_first(), c.drop_first());
    }
}

/// Two texts of which neither comes before the other are the same text.
pub proof fn lemma_precedes_total(a: Seq<char>, b: Seq<char>)
    requires
        !text_precedes(a, b),
        !text_precedes(b, a),
    ensures
        a == b,
    decreases a.len(),
{
    if a.len() > 0 && b.len() > 0 {
        assert(a[0] == b[0]);
        lemma_precedes_total(a.drop_first(), b.drop_first());
        assert(a =~= seq![a[0]] + a.drop_first());
        assert(b =~= seq![b[0]] + b.drop_first());
    } else {
        assert(a =~= b);
    }
}

/// Inserting an episode into episodes that are in order leaves them in order.
proof fn lemma_insert_keeps_order(sorted: Seq<EpisodeView>, episode: EpisodeView)
    requires
        is_ordered(sorted),
    ensures
        is_ordered(insert_by_index(sorted, episode)),
{
    let position = lemma_insert_place(sorted, episode);
    let after = sorted.insert(position, episode);
    assert forall|i: int, j: int| 0 <= i < j < after.len() implies !index_precedes(
        #[trigger] after[j].index,
        #[trigger] after[i].index,
    ) by {
        if j == position {
            assert(after[i] == sorted[i]);
            if i < position - 1 && index_precedes(episode.index, sorted[i].index) {
                assert(!index_precedes(sorted[position - 1].index, sorted[i].index));
                lemma_precedes_chain(
                    padded_index(episode.index),
                    padded_index(sorted[i].index),
                    padded_index(sorted[position - 1].index),
                );
            }
        } else if i == position {
            assert(after[j] == sorted[j - 1]);
            lemma_precedes_one_way(padded_index(episode.index), padded_index(sorted[j - 1].index));
        } else {
            let from_i = if i < position { i } else { i - 1 };
            let from_j = if j < position { j } else { j - 1 };
            assert(after[i] == sorted[from_i] && after[j] == sorted[from_j]);
        }
    }
}

/// Sorted episodes are in order: none is followed by an episode whose padded
/// index comes strictly before its own.
pub proof fn lemma_sorted_is_ordered(episodes: Seq<EpisodeView>)
    ensures
        is_ordered(sorted_by_index(episodes)),
    decreases episodes.len(),
{
    if episodes.len() > 0 {
        lemma_sorted_is_ordered(episodes.drop_last());
        lemma_insert_keeps_order(sorted_by_index(episodes.drop_last()), episodes.last());
    }
}

/// Sorting neither adds, drops nor changes an episode: the sorted episodes
/// are the given ones, each as often as it was given.
pub proof fn lemma_sorted_is_permutation(episodes: Seq<EpisodeView>)
    ensures
        sorted_by_index(episodes).len() == episodes.len(),
        sorted_by_index(episodes).to_multiset() == episodes.to_multiset(),
    decreases episodes.len(),
{
    broadcast use vstd::seq_lib::group_to_multiset_ensures;

    if episodes.len() > 0 {
        let front = episodes.drop_last();
        lemma_sorted_is_permutation(front);
        let position = lemma_insert_place(sorted_by_index(front), episodes.last());
        assert(episodes =~= front.push(episodes.last()));
        assert(sorted_by_index(front).insert(position, episodes.last()).to_multiset()
            =~= sorted_by_index(front).to_multiset().insert(episodes.last()));
        assert(front.push(episodes.last()).to_multiset() =~= front.to_multiset().insert(
            episodes.last(),
        ));
    }
}

/// Whether an episode has the same padded index as `index`.
pub open spec fn shares_place(index: Seq<char>) -> spec_fn(EpisodeView) -> bool {
    |episode: EpisodeView| padded_index(episode.index) == padded_index(index)
}

/// Filtering episodes of which none passes leaves nothing.
proof fn lemma_filter_none(episodes: Seq<EpisodeView>, pass: spec_fn(EpisodeView) -> bool)
    requires
        forall|i: int| 0 <= i < episodes.len() ==> !pass(#[trigger] episodes[i]),
    ensures
        episodes.filter(pass) == Seq::<EpisodeView>::empty(),
    decreases episodes.len(),
{
    reveal(Seq::filter);
    if episodes.len() > 0 {
        assert forall|i: int| 0 <= i < episodes.drop_last().len() implies !pass(
            #[trigger] episodes.drop_last()[i],
        ) by {
            assert(episodes.drop_last()[i] == episodes[i]);
        }
        lemma_filter_none(episodes.drop_last(), pass);
    }
}

/// Sorting is stable: the episodes that share a padded index come out in the
/// order in which they went in.
pub proof fn lemma_sorted_is_stable(episodes: Seq<EpisodeView>, index: Seq<char>)
    ensures
        sorted_by_index(episodes).filter(shares_place(index)) == episodes.filter(
            shares_place(index),
        ),
    decreases episodes.len(),
{
    let pass = shares_place(index);
    if episodes.len() > 0 {
        let front = episodes.drop_last();
        let last = episodes.last();
        let sorted = sorted_by_index(front);
        lemma_sorted_is_stable(front, index);
        let position = lemma_insert_place(sorted, last);
        let ahead = sorted.take(position);
        let behind = sorted.skip(position);
        assert(sorted =~= ahead + behind);
        assert(sorted.insert(position, last) =~= ahead + seq![last] + behind);
        assert(episodes =~= front + seq![last]);
        Seq::filter_distributes_over_add(ahead, behind, pass);
        Seq::filter_distributes_over_add(ahead, seq![last], pass);
        Seq::filter_distributes_over_add(ahead + seq![last], behind, pass);
        Seq::filter_distributes_over_add(front, seq![last], pass);
        if pass(last) {
            assert forall|i: int| 0 <= i < behind.len() implies !pass(#[trigger] behind[i]) by {
                assert(behind[i] == sorted[position + i]);
                assert(index_precedes(last.index, sorted[position + i].index));
                if pass(behind[i]) {
                    lemma_precedes_one_way(
                        padded_index(last.index),
                        padded_index(behind[i].index),
                    );
                }
            }
            lemma_filter_none(behind, pass);
            assert(ahead.filter(pass) + seq![last].filter(pass) + behind.filter(pass)
                =~= ahead.filter(pass) + behind.filter(pass) + seq![last].filter(pass));
        } else {
            lemma_filter_none(seq![last], pass);
            assert(ahead.filter(pass) + seq![last].filter(pass) + behind.filter(pass)
                =~= ahead.filter(pass) + behind.filter(pass) + seq![last].filter(pass));
        }
    }
}

/// Whether `c` is a decimal digit.
pub open spec fn is_digit(c: char) -> bool {
    '0' as int <= c as int <= '9' as int
}

/// The value of a decimal digit.
pub open spec fn digit_value(c: char) -> int {
    c as int - '0' as int
}

/// The number that an index of one or two digits writes.
pub open spec fn index_number(index: Seq<char>) -> int {
    if index.len() == 1 {
        digit_value(index[0])
    } else {
        10 * digit_value(index[0]) + digit_value(index[1])
    }
}

/// Whether `index` writes a number from 1 to 99 in one or two decimal digits.
pub open spec fn is_small_number(index: Seq<char>) -> bool {
    &&& index.len() == 1 || index.len() == 2
    &&& forall|i: int| 0 <= i < index.len() ==> is_digit(#[trigger] index[i])
    &&& 1 <= index_number(index) <= 99
}

/// For indices that write numbers from 1 to 99, the order of the padded
/// indices is the order of the numbers.
pub proof fn lemma_padded_order_is_numeric(a: Seq<char>, b: Seq<char>)
    requires
        is_small_number(a),
        is_small_number(b),
    ensures
        index_precedes(a, b) <==> index_number(a) < index_number(b),
{
    let left = padded_index(a);
    let right = padded_index(b);
    assert(is_digit(a[0]) && is_digit(b[0]));
    assert(left.len() == 2 && right.len() == 2);
    assert(10 * digit_value(left[0]) + digit_value(left[1]) == index_number(a));
    assert(10 * digit_value(right[0]) + digit_value(right[1]) == index_number(b));
    assert(is_digit(left[0]) && is_digit(left[1]) && is_digit(right[0]) && is_digit(right[1])) by {
        if a.len() == 2 {
            assert(is_digit(a[1]));
        }
        if b.len() == 2 {
            assert(is_digit(b[1]));
        }
    }
    reveal_with_fuel(text_precedes, 3);
    assert(left.drop_first()[0] == left[1] && right.drop_first()[0] == right[1]);
    assert(left.drop_first().drop_first().len() == 0);
    assert(right.drop_first().drop_first().len() == 0);
}

/// Sorting episodes whose indices write numbers from 1 to 99 puts them in
/// ascending numeric order.
pub proof fn lemma_sorted_numbers_ascend(episodes: Seq<EpisodeView>)
    requires
        forall|i: int| 0 <= i < episodes.len() ==> is_small_number(#[trigger] episodes[i].index),
    ensures
        forall|i: int, j: int|
            0 <= i < j < episodes.len() ==> index_number(
                #[trigger] sorted_by_index(episodes)[i].index,
            ) <= index_number(#[trigger] sorted_by_index(episodes)[j].index),
{
    broadcast use vstd::seq_lib::group_to_multiset_ensures;

    let sorted = sorted_by_index(episodes);
    lemma_sorted_is_ordered(episodes);
    lemma_sorted_is_permutation(episodes);
    assert forall|i: int| 0 <= i < sorted.len() implies is_small_number(
        #[trigger] sorted[i].index,
    ) by {
        assert(sorted.contains(sorted[i]));
        assert(sorted.to_multiset().count(sorted[i]) > 0);
        assert(episodes.contains(sorted[i]));
    }
    assert forall|i: int, j: int| 0 <= i < j < episodes.len() implies index_number(
        #[trigger] sorted[i].index,
    ) <= index_number(#[trigger] sorted[j].index) by {
        assert(!index_precedes(sorted[j].index, sorted[i].index));
        lemma_padded_order_is_numeric(sorted[j].index, sorted[i].index);
    }
}

} // verus!
