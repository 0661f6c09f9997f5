//! What holds of the compilation of a whole season when nothing goes wrong:
//! its episodes are compiled one after the other in the order of their
//! padded indices, each with its own subtitle, and the season is packaged
//! behind the last of them.

use crate::episode::{is_json_subtitle, locate_task, merge_task};
use crate::messages::{converting_progress, translating_progress};
use crate::metadata::{EpisodeView, SeasonView};
use crate::pipeline::{EpisodeStageView, OutcomeView, RunStateView, TaskView};
use crate::run_laws::{
    conversions_needed, subtitle_after_translation, subtitle_for_merge, tasks_set,
};
use crate::season::{package_task, run_step, sorted_season, turn_to_episode, RunSettings};
use vstd::prelude::*;

verus! {

/// The state that a run is in when it started in `state` and the caller has
/// reported `outcomes` in turn.
pub open spec fn state_after(
    settings: RunSettings,
    state: RunStateView,
    outcomes: Seq<OutcomeView>,
) -> RunStateView
    decreases outcomes.len(),
{
    if outcomes.len() == 0 {
        state
    } else {
        state_after(settings, run_step(settings, state, outcomes[0]).0, outcomes.drop_first())
    }
}

/// `count` reports of success.
pub open spec fn successes(count: nat) -> Seq<OutcomeView> {
    Seq::new(count, |i: int| OutcomeView::Done(Ok(())))
}

/// What the caller reports while an episode is compiled without trouble: the
/// subtitle it found, then one success for each conversion and one for the
/// merge.
pub open spec fn episode_outcomes(subtitle: Seq<char>, use_srt_subtitle: bool) -> Seq<OutcomeView> {
    seq![OutcomeView::SubtitleFound { subtitle }] + successes(
        conversions_needed(subtitle, use_srt_subtitle) + 1,
    )
}

/// The work on one episode whose subtitle was found at `subtitle`: the
/// translation of a JSON subtitle, the conversion to SRT where it is asked
/// for, and the merge with the last file written.
pub open spec fn work_on_episode(
    episode: EpisodeView,
    type_tag: Seq<char>,
    hard_subtitle: bool,
    use_srt_subtitle: bool,
    subtitle: Seq<char>,
) -> Seq<TaskView> {
    let translation = if is_json_subtitle(subtitle) {
        seq![
            TaskView::JsonToAss {
                input: subtitle,
                output: subtitle_after_translation(subtitle),
                progress: translating_progress(),
            },
        ]
    } else {
        Seq::empty()
    };
    let conversion = if use_srt_subtitle {
        seq![
            TaskView::AssToSrt {
                input: subtitle_after_translation(subtitle),
                output: subtitle_for_merge(subtitle, use_srt_subtitle),
                progress: converting_progress(),
            },
        ]
    } else {
        Seq::empty()
    };
    translation + conversion + seq![
        merge_task(
            episode,
            type_tag,
            subtitle_for_merge(subtitle, use_srt_subtitle),
            hard_subtitle,
        ),
    ]
}

/// What the caller reports while the episodes from number `from` on are
/// compiled without trouble, the subtitle of episode `i` being found at
/// `subtitles[i]`.
pub open spec fn season_outcomes(
    subtitles: Seq<Seq<char>>,
    use_srt_subtitle: bool,
    from: nat,
) -> Seq<OutcomeView>
    decreases subtitles.len() - from,
{
    if from >= subtitles.len() {
        Seq::empty()
    } else {
        episode_outcomes(subtitles[from as int], use_srt_subtitle) + season_outcomes(
            subtitles,
            use_srt_subtitle,
            from + 1,
        )
    }
}

/// The tasks of a season from the work on episode number `from` on: the work
/// on each episode, followed by the search for the subtitle of the next one
/// or, behind the last one, by the packaging of the season.
pub open spec fn season_tasks(
    settings: RunSettings,
    season_path: Seq<char>,
    season: SeasonView,
    subtitles: Seq<Seq<char>>,
    from: nat,
) -> Seq<TaskView>
    decreases season.episodes.len() - from,
{
    if from >= season.episodes.len() {
        Seq::empty()
    } else {
        work_on_episode(
            season.episodes[from as int],
            season.type_tag,
            settings.hard_subtitle,
            settings.use_srt_subtitle,
            subtitles[from as int],
        ) + seq![turn_to_episode(settings, season_path, season, from + 1).1] + season_tasks(
            settings,
            season_path,
            season,
            subtitles,
            from + 1,
        )
    }
}

/// The first outcome is answered by one step; the rest goes on from there.
proof fn lemma_first_step(
    settings: RunSettings,
    state: RunStateView,
    first: OutcomeView,
    rest: Seq<OutcomeView>,
)
    ensures
        tasks_set(settings, state, seq![first] + rest) == seq![
            run_step(settings, state, first).1,
        ] + tasks_set(settings, run_step(settings, state, first).0, rest),
        state_after(settings, state, seq![first] + rest) == state_after(
            settings,
            run_step(settings, state, first).0,
            rest,
        ),
{
    let all = seq![first] + rest;
    assert(all[0] == first);
    assert(all.drop_first() =~= rest);
}

/// Outcomes reported in two batches give the tasks of the first batch and
/// then those of the second, which starts where the first one ended.
pub proof fn lemma_run_in_two_batches(
    settings: RunSettings,
    state: RunStateView,
    first: Seq<OutcomeView>,
    second: Seq<OutcomeView>,
)
    ensures
        tasks_set(settings, state, first + second) == tasks_set(settings, state, first)
            + tasks_set(settings, state_after(settings, state, first), second),
        state_after(settings, state, first + second) == state_after(
            settings,
            state_after(settings, state, first),
            second,
        ),
    decreases first.len(),
{
    if first.len() == 0 {
        assert(first + second =~= second);
        assert(tasks_set(settings, state, first) + tasks_set(settings, state, second)
            =~= tasks_set(settings, state, second));
    } else {
        let next = run_step(settings, state, first[0]).0;
        assert((first + second)[0] == first[0]);
        assert((first + second).drop_first() =~= first.drop_first() + second);
        lemma_run_in_two_batches(settings, next, first.drop_first(), second);
        assert(tasks_set(settings, state, first + second) =~= tasks_set(settings, state, first)
            + tasks_set(settings, state_after(settings, state, first), second));
    }
}

/// One more success reported is one success, then the others.
proof fn lemma_successes_unfold(count: nat)
    ensures
        successes(0) == Seq::<OutcomeView>::empty(),
        successes(count + 1) == seq![OutcomeView::Done(Ok(()))] + successes(count),
{
    assert(successes(0) =~= Seq::<OutcomeView>::empty());
    assert(successes(count + 1) =~= seq![OutcomeView::Done(Ok(()))] + successes(count));
}

/// An episode that is compiled without trouble gets exactly its own work,
/// and the run then turns to the episode directly behind it, or to the
/// packaging of the season when it was the last.
pub proof fn lemma_episode_gets_its_work(
    settings: RunSettings,
    season_path: Seq<char>,
    season: SeasonView,
    position: nat,
    subtitle: Seq<char>,
)
    requires
        !settings.list_only,
        position < season.episodes.len(),
    ensures
        tasks_set(
            settings,
            turn_to_episode(settings, season_path, season, position).0,
            episode_outcomes(subtitle, settings.use_srt_subtitle),
        ) == work_on_episode(
            season.episodes[position as int],
            season.type_tag,
            settings.hard_subtitle,
            settings.use_srt_subtitle,
            subtitle,
        ) + seq![turn_to_episode(settings, season_path, season, position + 1).1],
        state_after(
            settings,
            turn_to_episode(settings, season_path, season, position).0,
            episode_outcomes(subtitle, settings.use_srt_subtitle),
        ) == turn_to_episode(settings, season_path, season, position + 1).0,
{
    let done = OutcomeView::Done(Ok(()));
    let found = OutcomeView::SubtitleFound { subtitle };
    let located = turn_to_episode(settings, season_path, season, position).0;
    lemma_successes_unfold(0);
    lemma_successes_unfold(1);
    lemma_successes_unfold(2);
    let working = run_step(settings, located, found).0;
    lemma_first_step(
        settings,
        located,
        found,
        successes(conversions_needed(subtitle, settings.use_srt_subtitle) + 1),
    );
    let second = run_step(settings, working, done).0;
    let third = run_step(settings, second, done).0;
    lemma_first_step(settings, working, done, successes(0));
    lemma_first_step(settings, working, done, successes(1));
    lemma_first_step(settings, working, done, successes(2));
    lemma_first_step(settings, second, done, successes(0));
    lemma_first_step(settings, second, done, successes(1));
    lemma_first_step(settings, third, done, successes(0));
    let work = work_on_episode(
        season.episodes[position as int],
        season.type_tag,
        settings.hard_subtitle,
        settings.use_srt_subtitle,
        subtitle,
    );
    let turn = seq![turn_to_episode(settings, season_path, season, position + 1).1];
    let tasks = tasks_set(
        settings,
        located,
        episode_outcomes(subtitle, settings.use_srt_subtitle),
    );
    assert(tasks =~= work + turn);
}

/// The episodes of a season from number `from` on, compiled without trouble,
/// get their work one after the other in the order in which the season
/// holds them, and the run ends up packaging the season.
pub proof fn lemma_rest_of_season_in_order(
    settings: RunSettings,
    season_path: Seq<char>,
    season: SeasonView,
    subtitles: Seq<Seq<char>>,
    from: nat,
)
    requires
        !settings.list_only,
        subtitles.len() == season.episodes.len(),
        from <= season.episodes.len(),
    ensures
        tasks_set(
            settings,
            turn_to_episode(settings, season_path, season, from).0,
            season_outcomes(subtitles, settings.use_srt_subtitle, from),
        ) == season_tasks(settings, season_path, season, subtitles, from),
        state_after(
            settings,
            turn_to_episode(settings, season_path, season, from).0,
            season_outcomes(subtitles, settings.use_srt_subtitle, from),
        ) == (RunStateView::Packaging { season_path }),
    decreases season.episodes.len() - from,
{
    if from < season.episodes.len() {
        let here = turn_to_episode(settings, season_path, season, from).0;
        let this = episode_outcomes(subtitles[from as int], settings.use_srt_subtitle);
        let others = season_outcomes(subtitles, settings.use_srt_subtitle, from + 1);
        lemma_episode_gets_its_work(settings, season_path, season, from, subtitles[from as int]);
        lemma_rest_of_season_in_order(settings, season_path, season, subtitles, from + 1);
        lemma_run_in_two_batches(settings, here, this, others);
    }
}

/// A season that is read and compiled without trouble: the search for the
/// first subtitle or, in a season without episodes, the packaging is set
/// when the season has been read; then every episode gets its work, in the
/// order of the padded indices; and the run ends up packaging the season.
pub proof fn lemma_season_compiles_in_order(
    settings: RunSettings,
    season_path: Seq<char>,
    season: SeasonView,
    subtitles: Seq<Seq<char>>,
)
    requires
        !settings.list_only,
        subtitles.len() == season.episodes.len(),
    ensures
        tasks_set(
            settings,
            RunStateView::ReadingSeason { season_path },
            seq![OutcomeView::SeasonRead(Ok(season))] + season_outcomes(
                subtitles,
                settings.use_srt_subtitle,
                0,
            ),
        ) == seq![turn_to_episode(settings, season_path, sorted_season(season), 0).1]
            + season_tasks(settings, season_path, sorted_season(season), subtitles, 0),
        state_after(
            settings,
            RunStateView::ReadingSeason { season_path },
            seq![OutcomeView::SeasonRead(Ok(season))] + season_outcomes(
                subtitles,
                settings.use_srt_subtitle,
                0,
            ),
        ) == (RunStateView::Packaging { season_path }),
{
    crate::order_laws::lemma_sorted_is_permutation(season.episodes);
    lemma_first_step(
        settings,
        RunStateView::ReadingSeason { season_path },
        OutcomeView::SeasonRead(Ok(season)),
        season_outcomes(subtitles, settings.use_srt_subtitle, 0),
    );
    lemma_rest_of_season_in_order(settings, season_path, sorted_season(season), subtitles, 0);
}

/// The task that ends the work on a season is its packaging: the last task
/// of a season that is compiled without trouble is the packaging task, and
/// the task in front of it, if the season has an episode, is the merge of
/// the last episode.
pub proof fn lemma_season_ends_with_packaging(
    settings: RunSettings,
    season_path: Seq<char>,
    season: SeasonView,
    subtitles: Seq<Seq<char>>,
    from: nat,
)
    requires
        subtitles.len() == season.episodes.len(),
        from < season.episodes.len(),
    ensures
        season_tasks(settings, season_path, season, subtitles, from).len() >= 2,
        season_tasks(settings, season_path, season, subtitles, from).last() == package_task(
            settings,
            season_path,
        ),
        season_tasks(settings, season_path, season, subtitles, from)[season_tasks(
            settings,
            season_path,
            season,
            subtitles,
            from,
        ).len() - 2] == merge_task(
            season.episodes.last(),
            season.type_tag,
            subtitle_for_merge(subtitles.last(), settings.use_srt_subtitle),
            settings.hard_subtitle,
        ),
    decreases season.episodes.len() - from,
{
    let work = work_on_episode(
        season.episodes[from as int],
        season.type_tag,
        settings.hard_subtitle,
        settings.use_srt_subtitle,
        subtitles[from as int],
    );
    let turn = seq![turn_to_episode(settings, season_path, season, from + 1).1];
    let rest = season_tasks(settings, season_path, season, subtitles, from + 1);
    assert(work.len() >= 1);
    assert(work.last() == merge_task(
        season.episodes[from as int],
        season.type_tag,
        subtitle_for_merge(subtitles[from as int], settings.use_srt_subtitle),
        settings.hard_subtitle,
    ));
    if from + 1 < season.episodes.len() {
        lemma_season_ends_with_packaging(settings, season_path, season, subtitles, from + 1);
        let all = work + turn + rest;
        assert(all.last() == rest.last());
        assert(all[all.len() - 2] == rest[rest.len() - 2]);
    } else {
        assert(rest =~= Seq::<TaskView>::empty());
        let all = work + turn + rest;
        assert(all.last() == turn[0]);
        assert(all[all.len() - 2] == work.last());
    }
}

} // verus!
