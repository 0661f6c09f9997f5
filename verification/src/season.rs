//! A run over a download folder: every season in it is read and its
//! episodes are sorted; a listing run then prints the season, a compiling
//! run compiles each episode in turn and packages the season.
//!
//! A run is strictly sequential and stops at the first error. `run_step`
//! says which task follows which outcome; `list` and `compile_seasons`
//! compute it for the two kinds of run.

use crate::episode::{
    compile_episode, episode_step, failure_in_context, locate_subtitle, locate_task,
};
use crate::episode_order::{sort_episodes, sorted_by_index};
use crate::error_handling::{return_when_error, IoFailure, IoFailureView};
use crate::messages::{
    context_message, package_error_text, season_error_text, season_listing, season_listing_text,
};
use crate::metadata::{SeasonMetadata, SeasonView};
use crate::pipeline::{
    EpisodeStage, EpisodeStageView, EpisodeStep, EpisodeStepView, Outcome, OutcomeView, RunError,
    RunErrorView, RunState, RunStateView, Task, TaskView,
};
use vstd::prelude::*;
use vstd::string::*;

verus! {

/// What a run was asked to do.
pub struct RunSettings {
    /// List the seasons and their episodes, and compile nothing.
    pub list_only: bool,
    /// The folder that holds one folder per season.
    pub download_path: Seq<char>,
    /// The folder that packaged episodes are collected in.
    pub output_directory: Seq<char>,
    /// Move the compiled episodes into the output folder, do not copy them.
    pub dont_copy: bool,
    /// Burn the subtitle into the picture.
    pub hard_subtitle: bool,
    /// Convert the subtitle to SRT before merging.
    pub use_srt_subtitle: bool,
}

/// The settings of a listing run over `download_path`.
pub open spec fn listing_settings(download_path: Seq<char>) -> RunSettings {
    RunSettings {
        list_only: true,
        download_path,
        output_directory: Seq::empty(),
        dont_copy: false,
        hard_subtitle: false,
        use_srt_subtitle: false,
    }
}

/// The settings of a compiling run.
pub open spec fn compiling_settings(
    download_path: Seq<char>,
    output_directory: Seq<char>,
    dont_copy: bool,
    hard_subtitle: bool,
    use_srt_subtitle: bool,
) -> RunSettings {
    RunSettings {
        list_only: false,
        download_path,
        output_directory,
        dont_copy,
        hard_subtitle,
        use_srt_subtitle,
    }
}

/// The end of a run with `error`.
pub open spec fn stop_with(error: RunErrorView) -> (RunStateView, TaskView) {
    (RunStateView::Stopped, TaskView::Failed(error))
}

/// The season with its episodes in the order of their padded indices.
pub open spec fn sorted_season(season: SeasonView) -> SeasonView {
    SeasonView {
        title: season.title,
        type_tag: season.type_tag,
        episodes: sorted_by_index(season.episodes),
    }
}

/// The task of packaging a season: the file `episode.mkv` of each of its
/// episodes goes to the output folder, copied unless the run is to move it.
pub open spec fn package_task(settings: RunSettings, season_path: Seq<char>) -> TaskView {
    TaskView::Package {
        season_path,
        output_directory: settings.output_directory,
        copy: !settings.dont_copy,
        episode_video_path: "episode.mkv"@,
    }
}

/// What a compiling run turns to when the first `position` episodes of a
/// season are compiled: the next episode, or the packaging of the season
/// when none is left.
pub open spec fn turn_to_episode(
    settings: RunSettings,
    season_path: Seq<char>,
    season: SeasonView,
    position: nat,
) -> (RunStateView, TaskView) {
    if position < season.episodes.len() {
        (
            RunStateView::Compiling {
                season_path,
                season,
                position,
                stage: EpisodeStageView::Locating,
            },
            locate_task(season.episodes[position as int]),
        )
    } else {
        (RunStateView::Packaging { season_path }, package_task(settings, season_path))
    }
}

/// What follows the reading of a season's metadata.
pub open spec fn step_with_season(
    settings: RunSettings,
    season_path: Seq<char>,
    reading: Result<SeasonView, IoFailureView>,
) -> (RunStateView, TaskView) {
    match reading {
        Ok(season) => if settings.list_only {
            (
                RunStateView::Printing,
                TaskView::Print { text: season_listing_text(sorted_season(season)) },
            )
        } else {
            turn_to_episode(settings, season_path, sorted_season(season), 0)
        },
        Err(failure) => stop_with(failure_in_context(failure, season_error_text(season_path))),
    }
}

/// What follows an outcome while an episode is being compiled.
pub open spec fn step_in_season(
    settings: RunSettings,
    season_path: Seq<char>,
    season: SeasonView,
    position: nat,
    stage: EpisodeStageView,
    outcome: OutcomeView,
) -> (RunStateView, TaskView) {
    if settings.list_only || position >= season.episodes.len() {
        stop_with(RunErrorView::UnexpectedOutcome)
    } else {
        match episode_step(
            season.episodes[position as int],
            season.type_tag,
            settings.hard_subtitle,
            settings.use_srt_subtitle,
            stage,
            outcome,
        ) {
            EpisodeStepView::Next(stage, task) => (
                RunStateView::Compiling { season_path, season, position, stage },
                task,
            ),
            EpisodeStepView::Completed => turn_to_episode(
                settings,
                season_path,
                season,
                position + 1,
            ),
            EpisodeStepView::Failed(error) => stop_with(error),
        }
    }
}

/// How a run goes on from `state` after `outcome`: the state it passes to
/// and the task that the caller is to carry out next.
///
/// The download folder is opened and its entries are taken one by one. Each
/// season is read and sorted; a listing run prints it, a compiling run
/// compiles its episodes in order and then packages it. The first error ends
/// the run: a failed operation with its category and a message that names
/// the season's or the episode's folder, incomplete data with an error of
/// its own kind. An outcome that does not answer the task that was set ends
/// the run with `UnexpectedOutcome`.
pub open spec fn run_step(settings: RunSettings, state: RunStateView, outcome: OutcomeView) -> (
    RunStateView,
    TaskView,
) {
    match (state, outcome) {
        (RunStateView::Start, OutcomeView::Started) => (
            RunStateView::OpeningDirectory,
            TaskView::OpenDirectory { path: settings.download_path },
        ),
        (RunStateView::OpeningDirectory, OutcomeView::DirectoryOpened) => (
            RunStateView::AwaitingSeason,
            TaskView::NextSeason,
        ),
        (RunStateView::OpeningDirectory, OutcomeView::DirectoryUnreadable) => stop_with(
            RunErrorView::DownloadDirectoryUnreadable,
        ),
        (RunStateView::AwaitingSeason, OutcomeView::NoMoreSeasons) => (
            RunStateView::Stopped,
            TaskView::Finished,
        ),
        (RunStateView::AwaitingSeason, OutcomeView::SeasonFound { season_path }) => (
            RunStateView::ReadingSeason { season_path },
            TaskView::ReadSeason { season_path },
        ),
        (RunStateView::AwaitingSeason, OutcomeView::SeasonEntryFailed(failure)) => stop_with(
            RunErrorView::Io(failure),
        ),
        (RunStateView::ReadingSeason { season_path }, OutcomeView::SeasonRead(reading)) => step_with_season(
            settings,
            season_path,
            reading,
        ),
        (RunStateView::Printing, OutcomeView::Done(result)) => if !settings.list_only {
            stop_with(RunErrorView::UnexpectedOutcome)
        } else {
            match result {
                Ok(_) => (RunStateView::AwaitingSeason, TaskView::NextSeason),
                Err(failure) => stop_with(RunErrorView::Io(failure)),
            }
        },
        (RunStateView::Compiling { season_path, season, position, stage }, outcome) => step_in_season(
            settings,
            season_path,
            season,
            position,
            stage,
            outcome,
        ),
        (RunStateView::Packaging { season_path }, OutcomeView::Done(result)) => if settings.list_only {
            stop_with(RunErrorView::UnexpectedOutcome)
        } else {
            match result {
                Ok(_) => (RunStateView::AwaitingSeason, TaskView::NextSeason),
                Err(failure) => stop_with(
                    failure_in_context(failure, package_error_text(season_path)),
                ),
            }
        },
        _ => stop_with(RunErrorView::UnexpectedOutcome),
    }
}

/// What a run is asked to do, as the executable code carries it.
struct Request<'a> {
    list_only: bool,
    download_path: &'a str,
    output_directory: &'a str,
    dont_copy: bool,
    hard_subtitle: bool,
    use_srt_subtitle: bool,
}

impl<'a> View for Request<'a> {
    type V = RunSettings;

    closed spec fn view(&self) -> RunSettings {
        RunSettings {
            list_only: self.list_only,
            download_path: self.download_path@,
            output_directory: self.output_directory@,
            dont_copy: self.dont_copy,
            hard_subtitle: self.hard_subtitle,
            use_srt_subtitle: self.use_srt_subtitle,
        }
    }
}

/// Ends the run with `error`.
fn stop(error: RunError) -> (out: (RunState, Task))
    ensures
        (out.0@, out.1@) == stop_with(error@),
{
    (RunState::Stopped, Task::Failed(error))
}

/// Turns to the episode at `position`, or to packaging when none is left.
fn turn_to(request: &Request, season_path: String, season: SeasonMetadata, position: usize) -> (out: (
    RunState,
    Task,
))
    ensures
        (out.0@, out.1@) == turn_to_episode(request@, season_path@, season@, position as nat),
{
    if position < season.episodes.len() {
        assert(season@.episodes[position as int] == season.episodes@[position as int]@);
        let task = locate_subtitle(&season.episodes[position]);
        (RunState::Compiling { season_path, season, position, stage: EpisodeStage::Locating }, task)
    } else {
        let task = Task::Package {
            season_path: season_path.clone(),
            output_directory: String::from_str(request.output_directory),
            copy: !request.dont_copy,
            episode_video_path: String::from_str("episode.mkv"),
        };
        (RunState::Packaging { season_path }, task)
    }
}

/// Goes on after the reading of a season's metadata.
fn continue_with_season(
    request: &Request,
    season_path: String,
    reading: Result<SeasonMetadata, IoFailure>,
) -> (out: (RunState, Task))
    ensures
        (out.0@, out.1@) == step_with_season(
            request@,
            season_path@,
            match reading {
                Ok(season) => Ok(season@),
                Err(failure) => Err(failure@),
            },
        ),
{
    let message = context_message("Error reading season metadata at ", season_path.as_str());
    match return_when_error(reading, message.as_str()) {
        Ok(season) => {
            let SeasonMetadata { title, type_tag, episodes } = season;
            let sorted = SeasonMetadata { title, type_tag, episodes: sort_episodes(episodes) };
            if request.list_only {
                (RunState::Printing, Task::Print { text: season_listing(&sorted) })
            } else {
                turn_to(request, season_path, sorted, 0)
            }
        },
        Err(failure) => stop(RunError::Io(failure)),
    }
}

/// Goes on after an outcome while an episode is being compiled.
fn continue_in_season(
    request: &Request,
    season_path: String,
    season: SeasonMetadata,
    position: usize,
    stage: EpisodeStage,
    outcome: Outcome,
) -> (out: (RunState, Task))
    ensures
        (out.0@, out.1@) == step_in_season(
            request@,
            season_path@,
            season@,
            position as nat,
            stage@,
            outcome@,
        ),
{
    if request.list_only || position >= season.episodes.len() {
        stop(RunError::UnexpectedOutcome)
    } else {
        assert(season@.episodes[position as int] == season.episodes@[position as int]@);
        let step = compile_episode(
            &season.episodes[position],
            &season,
            request.hard_subtitle,
            request.use_srt_subtitle,
            stage,
            outcome,
        );
        match step {
            EpisodeStep::Next(stage, task) => (
                RunState::Compiling { season_path, season, position, stage },
                task,
            ),
            EpisodeStep::Completed => turn_to(request, season_path, season, position + 1),
            EpisodeStep::Failed(error) => stop(error),
        }
    }
}

/// Computes `run_step`.
fn advance(request: &Request, state: RunState, outcome: Outcome) -> (out: (RunState, Task))
    ensures
        (out.0@, out.1@) == run_step(request@, state@, outcome@),
{
    match state {
        RunState::Start => match outcome {
            Outcome::Started => (
                RunState::OpeningDirectory,
                Task::OpenDirectory { path: String::from_str(request.download_path) },
            ),
            _ => stop(RunError::UnexpectedOutcome),
        },
        RunState::OpeningDirectory => match outcome {
            Outcome::DirectoryOpened => (RunState::AwaitingSeason, Task::NextSeason),
            Outcome::DirectoryUnreadable => stop(RunError::DownloadDirectoryUnreadable),
            _ => stop(RunError::UnexpectedOutcome),
        },
        RunState::AwaitingSeason => match outcome {
            Outcome::NoMoreSeasons => (RunState::Stopped, Task::Finished),
            Outcome::SeasonFound { season_path } => (
                RunState::ReadingSeason { season_path: season_path.clone() },
                Task::ReadSeason { season_path },
            ),
            Outcome::SeasonEntryFailed(failure) => stop(RunError::Io(failure)),
            _ => stop(RunError::UnexpectedOutcome),
        },
        RunState::ReadingSeason { season_path } => match outcome {
            Outcome::SeasonRead(reading) => continue_with_season(request, season_path, reading),
            _ => stop(RunError::UnexpectedOutcome),
        },
        RunState::Printing => match outcome {
            Outcome::Done(result) => if !request.list_only {
                stop(RunError::UnexpectedOutcome)
            } else {
                match result {
                    Ok(_) => (RunState::AwaitingSeason, Task::NextSeason),
                    Err(failure) => stop(RunError::Io(failure)),
                }
            },
            _ => stop(RunError::UnexpectedOutcome),
        },
        RunState::Compiling { season_path, season, position, stage } => continue_in_season(
            request,
            season_path,
            season,
            position,
            stage,
            outcome,
        ),
        RunState::Packaging { season_path } => match outcome {
            Outcome::Done(result) => if request.list_only {
                stop(RunError::UnexpectedOutcome)
            } else {
                let message = context_message(
                    "An error occured while pakaging season at ",
                    season_path.as_str(),
                );
                match return_when_error(result, message.as_str()) {
                    Ok(_) => (RunState::AwaitingSeason, Task::NextSeason),
                    Err(failure) => stop(RunError::Io(failure)),
                }
            },
            _ => stop(RunError::UnexpectedOutcome),
        },
        RunState::Stopped => stop(RunError::UnexpectedOutcome),
    }
}

/// One step of a listing run over the folder `download_path`: given the
/// state the run is in and the outcome of the task it set last, gives the
/// next state and the next task. The run begins in `RunState::Start` with
/// `Outcome::Started`, and is over when the task is `Finished` or `Failed`.
///
/// A listing run reads each season, sorts its episodes by their padded
/// indices and sets the printing of the season's listing. It converts,
/// merges and packages nothing.
pub fn list(download_path: &str, state: RunState, outcome: Outcome) -> (out: (RunState, Task))
    ensures
        (out.0@, out.1@) == run_step(listing_settings(download_path@), state@, outcome@),
{
    proof {
        reveal_strlit("");
        assert(""@ =~= Seq::<char>::empty());
    }
    let request = Request {
        list_only: true,
        download_path,
        output_directory: "",
        dont_copy: false,
        hard_subtitle: false,
        use_srt_subtitle: false,
    };
    advance(&request, state, outcome)
}

/// One step of a compiling run over the folder `download_path`: given the
/// state the run is in and the outcome of the task it set last, gives the
/// next state and the next task. The run begins in `RunState::Start` with
/// `Outcome::Started`, and is over when the task is `Finished` or `Failed`.
///
/// A compiling run reads each season, sorts its episodes by their padded
/// indices, compiles them in that order and then sets the packaging of the
/// season into `output_directory`, by copying unless `dont_copy` is set.
pub fn compile_seasons(
    download_path: &str,
    output_directory: &str,
    dont_copy: bool,
    hard_subtitle: bool,
    use_srt_subtitle: bool,
    state: RunState,
    outcome: Outcome,
) -> (out: (RunState, Task))
    ensures
        (out.0@, out.1@) == run_step(
            compiling_settings(
                download_path@,
                output_directory@,
                dont_copy,
                hard_subtitle,
                use_srt_subtitle,
            ),
            state@,
            outcome@,
        ),
{
    let request = Request {
        list_only: false,
        download_path,
        output_directory,
        dont_copy,
        hard_subtitle,
        use_srt_subtitle,
    };
    advance(&request, state, outcome)
}

} // verus!
