//! What holds of every run: proofs about `episode_step` and `run_step`.

use crate::episode::{
    episode_step, is_json_subtitle, locate_task, merge_task, step_with_located,
};
use crate::episode_order::is_ordered;
use crate::error_handling::IoFailureView;
use crate::messages::{ass_error_text, json_error_text, merge_error_text};
use crate::metadata::{EpisodeView, SeasonView};
use crate::order_laws::lemma_sorted_is_ordered;
use crate::order_laws::lemma_sorted_is_permutation;
use crate::paths::{path_with_extension, quoted_path};
use crate::pipeline::{
    EpisodeStageView, EpisodeStepView, OutcomeView, RunErrorView, RunStateView, TaskView,
};
use crate::season::{
    package_task, run_step, sorted_season, stop_with, RunSettings,
};
use vstd::prelude::*;

verus! {

/// Whether an outcome reports that the task it answers did not succeed.
pub open spec fn reports_trouble(outcome: OutcomeView) -> bool {
    match outcome {
        OutcomeView::DirectoryUnreadable => true,
        OutcomeView::SeasonEntryFailed(_) => true,
        OutcomeView::SeasonRead(reading) => reading is Err,
        OutcomeView::SubtitleFolderUnreadable => true,
        OutcomeView::SubtitleFolderEmpty => true,
        OutcomeView::SubtitleEntryFailed(_) => true,
        OutcomeView::Done(result) => result is Err,
        _ => false,
    }
}

/// Whether an outcome reports that a print, conversion, merge or packaging
/// succeeded.
pub open spec fn reports_success(outcome: OutcomeView) -> bool {
    outcome is Done && outcome->Done_0 is Ok
}

/// Whether a task tells the caller that the run is over.
pub open spec fn ends_run(task: TaskView) -> bool {
    task is Finished || task is Failed
}

/// Whether a task reads or prints only: it writes no file and starts no
/// conversion, merge or packaging.
pub open spec fn changes_nothing(task: TaskView) -> bool {
    task is OpenDirectory || task is NextSeason || task is ReadSeason || task is Print
        || task is LocateSubtitle || ends_run(task)
}

/// The subtitle file that an episode has once a JSON subtitle is translated.
pub open spec fn subtitle_after_translation(subtitle: Seq<char>) -> Seq<char> {
    if is_json_subtitle(subtitle) {
        path_with_extension(subtitle, "ass"@)
    } else {
        subtitle
    }
}

/// The subtitle file that an episode is merged with.
pub open spec fn subtitle_for_merge(subtitle: Seq<char>, use_srt_subtitle: bool) -> Seq<char> {
    if use_srt_subtitle {
        path_with_extension(subtitle_after_translation(subtitle), "srt"@)
    } else {
        subtitle_after_translation(subtitle)
    }
}

/// Where an episode stands after `count` more tasks have succeeded.
pub open spec fn after_successes(
    episode: EpisodeView,
    type_tag: Seq<char>,
    hard_subtitle: bool,
    use_srt_subtitle: bool,
    step: EpisodeStepView,
    count: nat,
) -> EpisodeStepView
    decreases count,
{
    if count == 0 {
        step
    } else {
        match step {
            EpisodeStepView::Next(stage, _) => after_successes(
                episode,
                type_tag,
                hard_subtitle,
                use_srt_subtitle,
                episode_step(
                    episode,
                    type_tag,
                    hard_subtitle,
                    use_srt_subtitle,
                    stage,
                    OutcomeView::Done(Ok(())),
                ),
                (count - 1) as nat,
            ),
            _ => step,
        }
    }
}

/// The number of conversions that an episode needs before its merge.
pub open spec fn conversions_needed(subtitle: Seq<char>, use_srt_subtitle: bool) -> nat {
    let translation: nat = if is_json_subtitle(subtitle) { 1 } else { 0 };
    let conversion: nat = if use_srt_subtitle { 1 } else { 0 };
    translation + conversion
}

/// An episode whose subtitle was found and whose conversions succeed is
/// merged with the converted subtitle: a JSON subtitle is translated to ASS
/// first, the result is converted to SRT where that is asked for, and the
/// merge takes the last file that was written. When the merge has succeeded
/// too, the episode is compiled.
pub proof fn lemma_episode_merges_converted_subtitle(
    episode: EpisodeView,
    type_tag: Seq<char>,
    hard_subtitle: bool,
    use_srt_subtitle: bool,
    subtitle: Seq<char>,
)
    ensures
        after_successes(
            episode,
            type_tag,
            hard_subtitle,
            use_srt_subtitle,
            step_with_located(episode, type_tag, hard_subtitle, use_srt_subtitle, subtitle),
            conversions_needed(subtitle, use_srt_subtitle),
        ) == EpisodeStepView::Next(
            EpisodeStageView::Merging,
            merge_task(
                episode,
                type_tag,
                subtitle_for_merge(subtitle, use_srt_subtitle),
                hard_subtitle,
            ),
        ),
        after_successes(
            episode,
            type_tag,
            hard_subtitle,
            use_srt_subtitle,
            step_with_located(episode, type_tag, hard_subtitle, use_srt_subtitle, subtitle),
            conversions_needed(subtitle, use_srt_subtitle) + 1,
        ) == EpisodeStepView::Completed,
{
    reveal_with_fuel(after_successes, 4);
}

/// An episode is compiled only by a merge that succeeded.
pub proof fn lemma_episode_completes_by_merge(
    episode: EpisodeView,
    type_tag: Seq<char>,
    hard_subtitle: bool,
    use_srt_subtitle: bool,
    stage: EpisodeStageView,
    outcome: OutcomeView,
)
    ensures
        episode_step(episode, type_tag, hard_subtitle, use_srt_subtitle, stage, outcome)
            is Completed <==> stage is Merging && reports_success(outcome),
{
}

/// A conversion or merge that failed ends the episode with an error of the
/// failure's category whose message ends with the episode's folder, quoted.
pub proof fn lemma_failed_work_names_episode(
    episode: EpisodeView,
    type_tag: Seq<char>,
    hard_subtitle: bool,
    use_srt_subtitle: bool,
    stage: EpisodeStageView,
    failure: IoFailureView,
)
    requires
        stage is Translating || stage is Converting || stage is Merging,
    ensures
        ({
            let step = episode_step(
                episode,
                type_tag,
                hard_subtitle,
                use_srt_subtitle,
                stage,
                OutcomeView::Done(Err(failure)),
            );
            &&& step is Failed
            &&& step->Failed_0 is Io
            &&& step->Failed_0->Io_0.kind == failure.kind
            &&& step->Failed_0->Io_0.message.len() >= quoted_path(episode.path).len()
            &&& step->Failed_0->Io_0.message.skip(
                step->Failed_0->Io_0.message.len() - quoted_path(episode.path).len(),
            ) == quoted_path(episode.path)
        }),
{
    let quoted = quoted_path(episode.path);
    assert(json_error_text(episode.path).skip(json_error_text(episode.path).len() - quoted.len())
        =~= quoted);
    assert(ass_error_text(episode.path).skip(ass_error_text(episode.path).len() - quoted.len())
        =~= quoted);
    assert(merge_error_text(episode.path).skip(merge_error_text(episode.path).len() - quoted.len())
        =~= quoted);
}

/// A run stops at the first thing that goes wrong: whatever state it is in,
/// an outcome that reports trouble ends it with an error, and no further
/// task is set.
pub proof fn lemma_run_stops_at_first_trouble(
    settings: RunSettings,
    state: RunStateView,
    outcome: OutcomeView,
)
    requires
        reports_trouble(outcome),
    ensures
        run_step(settings, state, outcome).0 is Stopped,
        run_step(settings, state, outcome).1 is Failed,
{
}

/// A run is in its last state exactly when the task it sets says that it is
/// over.
pub proof fn lemma_run_over_when_stopped(
    settings: RunSettings,
    state: RunStateView,
    outcome: OutcomeView,
)
    ensures
        run_step(settings, state, outcome).0 is Stopped <==> ends_run(
            run_step(settings, state, outcome).1,
        ),
{
}

/// A run that has ended does not go on: whatever is reported to it, it stays
/// ended and sets no task.
pub proof fn lemma_stopped_run_stays_stopped(settings: RunSettings, outcome: OutcomeView)
    ensures
        run_step(settings, RunStateView::Stopped, outcome) == stop_with(
            RunErrorView::UnexpectedOutcome,
        ),
{
}

/// A listing run reads and prints only: from no state does it set a
/// conversion, a merge or a packaging, nor the search for a subtitle.
pub proof fn lemma_listing_changes_nothing(
    settings: RunSettings,
    state: RunStateView,
    outcome: OutcomeView,
)
    requires
        settings.list_only,
    ensures
        changes_nothing(run_step(settings, state, outcome).1),
        !(run_step(settings, state, outcome).1 is LocateSubtitle),
{
}

/// A season is packaged only when each of its episodes is compiled: the
/// packaging is set after the merge of the season's last episode has
/// succeeded, or for a season without episodes when it has been read. The
/// episode files are copied unless the run is to move them.
pub proof fn lemma_packaging_follows_last_episode(
    settings: RunSettings,
    state: RunStateView,
    outcome: OutcomeView,
)
    requires
        run_step(settings, state, outcome).1 is Package,
    ensures
        !settings.list_only,
        run_step(settings, state, outcome).1->Package_copy == !settings.dont_copy,
        run_step(settings, state, outcome).1->Package_output_directory
            == settings.output_directory,
        match state {
            RunStateView::Compiling { season_path, season, position, stage } => {
                &&& position + 1 == season.episodes.len()
                &&& stage is Merging
                &&& reports_success(outcome)
                &&& run_step(settings, state, outcome) == (
                    RunStateView::Packaging { season_path },
                    package_task(settings, season_path),
                )
            },
            RunStateView::ReadingSeason { season_path } => {
                &&& outcome is SeasonRead
                &&& outcome->SeasonRead_0 is Ok
                &&& outcome->SeasonRead_0->Ok_0.episodes.len() == 0
                &&& run_step(settings, state, outcome) == (
                    RunStateView::Packaging { season_path },
                    package_task(settings, season_path),
                )
            },
            _ => false,
        },
{
    if let RunStateView::ReadingSeason { season_path } = state {
        if let OutcomeView::SeasonRead(Ok(season)) = outcome {
            lemma_sorted_is_permutation(season.episodes);
        }
    }
}

/// A compiling run takes the episodes of a season in the order of their
/// padded indices: the season it holds after reading is the sorted one, its
/// episodes are in order, and the first task is the search for the subtitle
/// of the first of them.
pub proof fn lemma_compiling_starts_with_first_episode(
    settings: RunSettings,
    season_path: Seq<char>,
    season: SeasonView,
)
    requires
        !settings.list_only,
        season.episodes.len() > 0,
    ensures
        run_step(
            settings,
            RunStateView::ReadingSeason { season_path },
            OutcomeView::SeasonRead(Ok(season)),
        ) == (
            RunStateView::Compiling {
                season_path,
                season: sorted_season(season),
                position: 0,
                stage: EpisodeStageView::Locating,
            },
            locate_task(sorted_season(season).episodes[0]),
        ),
        is_ordered(sorted_season(season).episodes),
        sorted_season(season).episodes.to_multiset() == season.episodes.to_multiset(),
{
    lemma_sorted_is_ordered(season.episodes);
    lemma_sorted_is_permutation(season.episodes);
}

/// While a season is being compiled the run keeps the season as it is and
/// never goes back: a step stays with the episode it is at, or, when that
/// episode's merge has succeeded, turns to the search for the subtitle of
/// the one directly behind it.
pub proof fn lemma_compiling_goes_episode_by_episode(
    settings: RunSettings,
    state: RunStateView,
    outcome: OutcomeView,
)
    requires
        state is Compiling,
        run_step(settings, state, outcome).0 is Compiling,
    ensures
        ({
            let next = run_step(settings, state, outcome).0;
            let task = run_step(settings, state, outcome).1;
            &&& next->Compiling_season_path == state->Compiling_season_path
            &&& next->Compiling_season == state->Compiling_season
            &&& next->Compiling_position < state->Compiling_season.episodes.len()
            &&& next->Compiling_position == state->Compiling_position || {
                &&& next->Compiling_position == state->Compiling_position + 1
                &&& state->Compiling_stage is Merging
                &&& reports_success(outcome)
                &&& next->Compiling_stage is Locating
                &&& task == locate_task(
                    state->Compiling_season.episodes[next->Compiling_position as int],
                )
            }
        }),
{
}

/// Whether a state can stand in a run: while a season is being compiled, its
/// episodes are in order and the episode that is being compiled is one of
/// them.
pub open spec fn is_sound(state: RunStateView) -> bool {
    match state {
        RunStateView::Compiling { season, position, .. } => {
            &&& position < season.episodes.len()
            &&& is_ordered(season.episodes)
        },
        _ => true,
    }
}

/// Every state of a run is sound: the first one is, and a step from a sound
/// state leads to a sound state, whatever the outcome.
pub proof fn lemma_run_stays_sound(settings: RunSettings, state: RunStateView, outcome: OutcomeView)
    requires
        is_sound(state),
    ensures
        is_sound(RunStateView::Start),
        is_sound(run_step(settings, state, outcome).0),
{
    if let RunStateView::ReadingSeason { season_path } = state {
        if let OutcomeView::SeasonRead(Ok(season)) = outcome {
            lemma_sorted_is_ordered(season.episodes);
        }
    }
}

/// The tasks that a run sets, one after the other, when it starts in `state`
/// and the caller reports `outcomes` in turn.
pub open spec fn tasks_set(settings: RunSettings, state: RunStateView, outcomes: Seq<OutcomeView>) -> Seq<
    TaskView,
>
    decreases outcomes.len(),
{
    if outcomes.len() == 0 {
        Seq::empty()
    } else {
        seq![run_step(settings, state, outcomes[0]).1] + tasks_set(
            settings,
            run_step(settings, state, outcomes[0]).0,
            outcomes.drop_first(),
        )
    }
}

/// A run sets one task for each outcome that is reported to it.
pub proof fn lemma_one_task_for_each_outcome(
    settings: RunSettings,
    state: RunStateView,
    outcomes: Seq<OutcomeView>,
)
    ensures
        tasks_set(settings, state, outcomes).len() == outcomes.len(),
    decreases outcomes.len(),
{
    if outcomes.len() > 0 {
        lemma_one_task_for_each_outcome(
            settings,
            run_step(settings, state, outcomes[0]).0,
            outcomes.drop_first(),
        );
    }
}

/// A run that has ended answers every outcome with a refusal.
proof fn lemma_stopped_run_refuses_all(settings: RunSettings, outcomes: Seq<OutcomeView>, i: int)
    requires
        0 <= i < outcomes.len(),
    ensures
        tasks_set(settings, RunStateView::Stopped, outcomes).len() == outcomes.len(),
        tasks_set(settings, RunStateView::Stopped, outcomes)[i] == TaskView::Failed(
            RunErrorView::UnexpectedOutcome,
        ),
    decreases outcomes.len(),
{
    lemma_one_task_for_each_outcome(settings, RunStateView::Stopped, outcomes);
    lemma_one_task_for_each_outcome(settings, RunStateView::Stopped, outcomes.drop_first());
    if i > 0 {
        lemma_stopped_run_refuses_all(settings, outcomes.drop_first(), i - 1);
    }
}

/// Nothing follows the end of a run: once a task has said that the run is
/// over, finished or failed, every later outcome is refused, so no reading,
/// conversion, merge or packaging is ever set behind the first error.
pub proof fn lemma_nothing_follows_the_end(
    settings: RunSettings,
    state: RunStateView,
    outcomes: Seq<OutcomeView>,
    i: int,
    j: int,
)
    requires
        0 <= i < j < outcomes.len(),
        ends_run(tasks_set(settings, state, outcomes)[i]),
    ensures
        tasks_set(settings, state, outcomes).len() == outcomes.len(),
        tasks_set(settings, state, outcomes)[j] == TaskView::Failed(RunErrorView::UnexpectedOutcome),
    decreases outcomes.len(),
{
    let next = run_step(settings, state, outcomes[0]).0;
    let rest = outcomes.drop_first();
    lemma_one_task_for_each_outcome(settings, state, outcomes);
    lemma_one_task_for_each_outcome(settings, next, rest);
    if i == 0 {
        lemma_run_over_when_stopped(settings, state, outcomes[0]);
        lemma_stopped_run_refuses_all(settings, rest, j - 1);
    } else {
        lemma_nothing_follows_the_end(settings, next, rest, i - 1, j - 1);
    }
}

/// A run stops at the first thing that goes wrong in it: the outcome that
/// reports trouble is answered with the error, and every outcome after it
/// with a refusal.
pub proof fn lemma_trouble_ends_all_work(
    settings: RunSettings,
    state: RunStateView,
    outcomes: Seq<OutcomeView>,
    i: int,
    j: int,
)
    requires
        0 <= i < j < outcomes.len(),
        reports_trouble(outcomes[i]),
    ensures
        tasks_set(settings, state, outcomes).len() == outcomes.len(),
        tasks_set(settings, state, outcomes)[i] is Failed,
        tasks_set(settings, state, outcomes)[j] == TaskView::Failed(RunErrorView::UnexpectedOutcome),
    decreases outcomes.len(),
{
    let next = run_step(settings, state, outcomes[0]).0;
    let rest = outcomes.drop_first();
    lemma_one_task_for_each_outcome(settings, state, outcomes);
    lemma_one_task_for_each_outcome(settings, next, rest);
    if i == 0 {
        lemma_run_stops_at_first_trouble(settings, state, outcomes[0]);
        lemma_stopped_run_refuses_all(settings, rest, j - 1);
    } else {
        assert(rest[i - 1] == outcomes[i]);
        lemma_trouble_ends_all_work(settings, next, rest, i - 1, j - 1);
    }
}

} // verus!
