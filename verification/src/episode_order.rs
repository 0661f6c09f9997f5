//! The order in which the episodes of a season are listed and compiled.
//!
//! Episodes are ordered by their index, padded with zeros to two characters
//! and read as text. For indices of one or two digits this is the numeric
//! order. A longer index is not padded and sorts by its leading characters,
//! so indices of 100 and more are not in numeric order: `100` comes before
//! `20`.

use crate::metadata::{episode_views, EpisodeMetadata, EpisodeView};
use vstd::prelude::*;
use vstd::string::*;

verus! {

/// An index padded on the left with `0` to at least two characters.
pub open spec fn padded_index(index: Seq<char>) -> Seq<char> {
    if index.len() >= 2 {
        index
    } else if index.len() == 1 {
        seq!['0'] + index
    } else {
        seq!['0', '0']
    }
}

/// Whether `a` comes strictly before `b` when texts are ordered character by
/// character, by code point, a proper prefix coming first.
pub open spec fn text_precedes(a: Seq<char>, b: Seq<char>) -> bool
    decreases a.len(),
{
    if b.len() == 0 {
        false
    } else if a.len() == 0 {
        true
    } else if a[0] == b[0] {
        text_precedes(a.drop_first(), b.drop_first())
    } else {
        (a[0] as int) < (b[0] as int)
    }
}

/// Whether an episode with index `a` is ordered strictly before one with
/// index `b`.
pub open spec fn index_precedes(a: Seq<char>, b: Seq<char>) -> bool {
    text_precedes(padded_index(a), padded_index(b))
}

/// Pads an episode index with zeros on the left to a width of two characters.
/// A longer index is returned as it is.
pub fn format_index(index: &str) -> (out: String)
    ensures
        out@ == padded_index(index@),
{
    let width = index.unicode_len();
    if width >= 2 {
        String::from_str(index)
    } else if width == 1 {
        proof {
            reveal_strlit("0");
            assert("0"@ =~= seq!['0']);
        }
        let mut out = String::from_str("0");
        out.append(index);
        out
    } else {
        proof {
            reveal_strlit("00");
            assert("00"@ =~= seq!['0', '0']);
        }
        String::from_str("00")
    }
}

/// Decides `text_precedes` for two texts.
fn precedes(a: &str, b: &str) -> (out: bool)
    ensures
        out == text_precedes(a@, b@),
{
    let a_len = a.unicode_len();
    let b_len = b.unicode_len();
    let mut position: usize = 0;
    assert(a@.skip(0) =~= a@ && b@.skip(0) =~= b@);
    while position < a_len && position < b_len
        invariant
            a_len == a@.len(),
            b_len == b@.len(),
            position <= a_len,
            position <= b_len,
            text_precedes(a@, b@) == text_precedes(a@.skip(position as int), b@.skip(position as int)),
        decreases a_len - position,
    {
        let left = a.get_char(position);
        let right = b.get_char(position);
        proof {
            let rest_a = a@.skip(position as int);
            let rest_b = b@.skip(position as int);
            assert(rest_a[0] == left && rest_b[0] == right);
            assert(rest_a.drop_first() =~= a@.skip(position + 1));
            assert(rest_b.drop_first() =~= b@.skip(position + 1));
        }
        if left != right {
            return (left as u32) < (right as u32);
        }
        position += 1;
    }
    position < b_len
}

/// Decides `index_precedes` for two episode indices.
pub fn index_comes_before(a: &str, b: &str) -> (out: bool)
    ensures
        out == index_precedes(a@, b@),
{
    let left = format_index(a);
    let right = format_index(b);
    precedes(left.as_str(), right.as_str())
}

/// `sorted`, which is in order, with `episode` put behind every episode that
/// does not come after it.
pub open spec fn insert_by_index(sorted: Seq<EpisodeView>, episode: EpisodeView) -> Seq<
    EpisodeView,
>
    decreases sorted.len(),
{
    if sorted.len() > 0 && index_precedes(episode.index, sorted.last().index) {
        insert_by_index(sorted.drop_last(), episode).push(sorted.last())
    } else {
        sorted.push(episode)
    }
}

/// The episodes in the order of their padded indices; episodes whose padded
/// indices are equal stay in the order in which they were found.
pub open spec fn sorted_by_index(episodes: Seq<EpisodeView>) -> Seq<EpisodeView>
    decreases episodes.len(),
{
    if episodes.len() == 0 {
        episodes
    } else {
        insert_by_index(sorted_by_index(episodes.drop_last()), episodes.last())
    }
}

/// No episode is followed by one that is ordered strictly before it.
pub open spec fn is_ordered(episodes: Seq<EpisodeView>) -> bool {
    forall|i: int, j: int|
        0 <= i < j < episodes.len() ==> !index_precedes(
            #[trigger] episodes[j].index,
            #[trigger] episodes[i].index,
        )
}

/// The place at which `insert_by_index` puts an episode: every episode behind
/// it comes strictly after the new one, and the one directly in front of it
/// does not.
pub proof fn lemma_insert_place(sorted: Seq<EpisodeView>, episode: EpisodeView) -> (position: int)
    ensures
        0 <= position <= sorted.len(),
        insert_by_index(sorted, episode) == sorted.insert(position, episode),
        forall|k: int|
            position <= k < sorted.len() ==> index_precedes(episode.index, #[trigger] sorted[k].index),
        position > 0 ==> !index_precedes(episode.index, sorted[position - 1].index),
    decreases sorted.len(),
{
    if sorted.len() > 0 && index_precedes(episode.index, sorted.last().index) {
        let position = lemma_insert_place(sorted.drop_last(), episode);
        assert(sorted.drop_last().insert(position, episode).push(sorted.last()) =~= sorted.insert(
            position,
            episode,
        ));
        assert forall|k: int| position <= k < sorted.len() implies index_precedes(
            episode.index,
            #[trigger] sorted[k].index,
        ) by {
            if k < sorted.len() - 1 {
                assert(sorted[k] == sorted.drop_last()[k]);
            }
        }
        if position > 0 {
            assert(sorted[position - 1] == sorted.drop_last()[position - 1]);
        }
        position
    } else {
        assert(sorted.push(episode) =~= sorted.insert(sorted.len() as int, episode));
        sorted.len() as int
    }
}

/// Sorts episodes by their padded indices, keeping the order of those whose
/// padded indices are equal.
pub fn sort_episodes(episodes: Vec<EpisodeMetadata>) -> (sorted: Vec<EpisodeMetadata>)
    ensures
        episode_views(sorted@) == sorted_by_index(episode_views(episodes@)),
{
    let ghost given = episode_views(episodes@);
    let mut pending = episodes;
    let mut sorted: Vec<EpisodeMetadata> = Vec::new();
    assert(given.take(0) =~= Seq::<EpisodeView>::empty());
    assert(episode_views(sorted@) =~= Seq::<EpisodeView>::empty());
    while pending.len() > 0
        invariant
            pending@.len() <= given.len(),
            episode_views(pending@) =~= given.skip(given.len() - pending@.len()),
            episode_views(sorted@) == sorted_by_index(given.take(given.len() - pending@.len())),
        decreases pending.len(),
    {
        let ghost taken: int = given.len() - pending@.len();
        let ghost waiting = pending@;
        let episode = pending.remove(0);
        assert(episode@ == given[taken]) by {
            assert(episode_views(waiting)[0] == given.skip(taken)[0]);
        }
        let mut position = sorted.len();
        while position > 0 && index_comes_before(
            episode.index.as_str(),
            sorted[position - 1].index.as_str(),
        )
            invariant
                position <= sorted.len(),
                forall|k: int|
                    position <= k < sorted.len() ==> index_precedes(
                        episode.index@,
                        #[trigger] sorted@[k].index@,
                    ),
            decreases position,
        {
            position -= 1;
        }
        proof {
            let before = episode_views(sorted@);
            assert forall|k: int| position <= k < before.len() implies index_precedes(
                episode@.index,
                #[trigger] before[k].index,
            ) by {
                assert(before[k] == sorted@[k]@);
            }
            let place = lemma_insert_place(before, episode@);
            if place < position {
                assert(index_precedes(episode@.index, before[position - 1].index));
            } else if position < place {
                assert(index_precedes(episode@.index, before[place - 1].index));
            }
            assert(place == position);
            assert(episode_views(sorted@.insert(position as int, episode)) =~= before.insert(
                position as int,
                episode@,
            ));
            let prefix = given.take(taken + 1);
            assert(prefix.drop_last() =~= given.take(taken));
            assert(prefix.last() == given[taken]);
        }
        sorted.insert(position, episode);
        assert(episode_views(pending@) =~= given.skip(taken + 1)) by {
            assert forall|i: int| 0 <= i < pending@.len() implies episode_views(pending@)[i]
                == given.skip(taken + 1)[i] by {
                assert(pending@[i] == waiting[i + 1]);
                assert(episode_views(waiting)[i + 1] == given.skip(taken)[i + 1]);
            }
        }
    }
    assert(given.take(given.len() as int) =~= given);
    sorted
}

} // verus!
