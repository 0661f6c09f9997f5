//! The vocabulary of a run: the tasks that the library sets, the outcomes
//! that the caller reports, the errors a run can end in, and the states it
//! passes through.
//!
//! Every type with text in it has a view that holds the same fields as
//! sequences of characters; the contracts speak of the views.

use crate::error_handling::{IoFailure, IoFailureView};
use crate::metadata::{SeasonMetadata, SeasonView};
use vstd::prelude::*;

verus! {

/// Why a run ended without finishing.
#[derive(Debug, PartialEq, Eq)]
pub enum RunError {
    /// An input or output operation failed; the run's data may be sound.
    Io(IoFailure),
    /// The download folder could not be read at all.
    DownloadDirectoryUnreadable,
    /// An episode has no readable `en` folder.
    SubtitleFolderNotFound { episode_path: String },
    /// An episode's `en` folder holds no subtitle file.
    SubtitleMissing,
    /// The caller reported an outcome that does not answer the task it was set.
    UnexpectedOutcome,
}

/// The mathematical content of a [`RunError`].
pub enum RunErrorView {
    Io(IoFailureView),
    DownloadDirectoryUnreadable,
    SubtitleFolderNotFound { episode_path: Seq<char> },
    SubtitleMissing,
    UnexpectedOutcome,
}

impl View for RunError {
    type V = RunErrorView;

    open spec fn view(&self) -> RunErrorView {
        match *self {
            RunError::Io(failure) => RunErrorView::Io(failure@),
            RunError::DownloadDirectoryUnreadable => RunErrorView::DownloadDirectoryUnreadable,
            RunError::SubtitleFolderNotFound { episode_path } => RunErrorView::SubtitleFolderNotFound {
                episode_path: episode_path@,
            },
            RunError::SubtitleMissing => RunErrorView::SubtitleMissing,
            RunError::UnexpectedOutcome => RunErrorView::UnexpectedOutcome,
        }
    }
}

/// The two lines that accompany a piece of work on the terminal: one shown
/// while it runs, one left behind when it has succeeded.
#[derive(Debug, PartialEq, Eq)]
pub struct Progress {
    pub loading: String,
    pub finished: String,
}

/// The mathematical content of a [`Progress`].
pub struct ProgressView {
    pub loading: Seq<char>,
    pub finished: Seq<char>,
}

impl View for Progress {
    type V = ProgressView;

    open spec fn view(&self) -> ProgressView {
        ProgressView { loading: self.loading@, finished: self.finished@ }
    }
}

/// What the caller is to do next.
#[derive(Debug, PartialEq, Eq)]
pub enum Task {
    /// Open the download folder for reading its entries.
    OpenDirectory { path: String },
    /// Read the next entry of the download folder.
    NextSeason,
    /// Read the metadata of the season in this folder.
    ReadSeason { season_path: String },
    /// Write this text to the terminal.
    Print { text: String },
    /// Find the first file in this folder.
    LocateSubtitle { directory: String, progress: Progress },
    /// Convert the JSON subtitle `input` to an ASS subtitle at `output`.
    JsonToAss { input: String, output: String, progress: Progress },
    /// Convert the ASS subtitle `input` to an SRT subtitle at `output`.
    AssToSrt { input: String, output: String, progress: Progress },
    /// Merge video, audio and subtitle into one file at `output`.
    Merge {
        video: String,
        audio: String,
        subtitle: String,
        output: String,
        hard_subtitle: bool,
        progress: Progress,
    },
    /// Collect the season's episode files in the output folder.
    Package {
        season_path: String,
        output_directory: String,
        copy: bool,
        episode_video_path: String,
    },
    /// Nothing: the run is complete.
    Finished,
    /// Nothing: the run has ended with this error.
    Failed(RunError),
}

/// The mathematical content of a [`Task`].
pub enum TaskView {
    OpenDirectory { path: Seq<char> },
    NextSeason,
    ReadSeason { season_path: Seq<char> },
    Print { text: Seq<char> },
    LocateSubtitle { directory: Seq<char>, progress: ProgressView },
    JsonToAss { input: Seq<char>, output: Seq<char>, progress: ProgressView },
    AssToSrt { input: Seq<char>, output: Seq<char>, progress: ProgressView },
    Merge {
        video: Seq<char>,
        audio: Seq<char>,
        subtitle: Seq<char>,
        output: Seq<char>,
        hard_subtitle: bool,
        progress: ProgressView,
    },
    Package {
        season_path: Seq<char>,
        output_directory: Seq<char>,
        copy: bool,
        episode_video_path: Seq<char>,
    },
    Finished,
    Failed(RunErrorView),
}

impl View for Task {
    type V = TaskView;

    open spec fn view(&self) -> TaskView {
        match *self {
            Task::OpenDirectory { path } => TaskView::OpenDirectory { path: path@ },
            Task::NextSeason => TaskView::NextSeason,
            Task::ReadSeason { season_path } => TaskView::ReadSeason { season_path: season_path@ },
            Task::Print { text } => TaskView::Print { text: text@ },
            Task::LocateSubtitle { directory, progress } => TaskView::LocateSubtitle {
                directory: directory@,
                progress: progress@,
            },
            Task::JsonToAss { input, output, progress } => TaskView::JsonToAss {
                input: input@,
                output: output@,
                progress: progress@,
            },
            Task::AssToSrt { input, output, progress } => TaskView::AssToSrt {
                input: input@,
                output: output@,
                progress: progress@,
            },
            Task::Merge { video, audio, subtitle, output, hard_subtitle, progress } => TaskView::Merge {
                video: video@,
                audio: audio@,
                subtitle: subtitle@,
                output: output@,
                hard_subtitle,
                progress: progress@,
            },
            Task::Package { season_path, output_directory, copy, episode_video_path } => TaskView::Package {
                season_path: season_path@,
                output_directory: output_directory@,
                copy,
                episode_video_path: episode_video_path@,
            },
            Task::Finished => TaskView::Finished,
            Task::Failed(error) => TaskView::Failed(error@),
        }
    }
}

/// What the caller found when it carried out a task.
#[derive(Debug, PartialEq, Eq)]
pub enum Outcome {
    /// Nothing has been done yet.
    Started,
    /// The download folder is open.
    DirectoryOpened,
    /// The download folder could not be opened.
    DirectoryUnreadable,
    /// The download folder has no further entry.
    NoMoreSeasons,
    /// The next entry of the download folder is this path.
    SeasonFound { season_path: String },
    /// Reading the next entry of the download folder failed.
    SeasonEntryFailed(IoFailure),
    /// The season's metadata, or why it could not be read.
    SeasonRead(Result<SeasonMetadata, IoFailure>),
    /// The first file in the subtitle folder is this path.
    SubtitleFound { subtitle: String },
    /// The subtitle folder could not be opened.
    SubtitleFolderUnreadable,
    /// The subtitle folder holds no file.
    SubtitleFolderEmpty,
    /// Reading the first entry of the subtitle folder failed.
    SubtitleEntryFailed(IoFailure),
    /// A print, conversion, merge or packaging ended, well or not.
    Done(Result<(), IoFailure>),
}

/// The mathematical content of an [`Outcome`].
pub enum OutcomeView {
    Started,
    DirectoryOpened,
    DirectoryUnreadable,
    NoMoreSeasons,
    SeasonFound { season_path: Seq<char> },
    SeasonEntryFailed(IoFailureView),
    SeasonRead(Result<SeasonView, IoFailureView>),
    SubtitleFound { subtitle: Seq<char> },
    SubtitleFolderUnreadable,
    SubtitleFolderEmpty,
    SubtitleEntryFailed(IoFailureView),
    Done(Result<(), IoFailureView>),
}

impl View for Outcome {
    type V = OutcomeView;

    open spec fn view(&self) -> OutcomeView {
        match *self {
            Outcome::Started => OutcomeView::Started,
            Outcome::DirectoryOpened => OutcomeView::DirectoryOpened,
            Outcome::DirectoryUnreadable => OutcomeView::DirectoryUnreadable,
            Outcome::NoMoreSeasons => OutcomeView::NoMoreSeasons,
            Outcome::SeasonFound { season_path } => OutcomeView::SeasonFound {
                season_path: season_path@,
            },
            Outcome::SeasonEntryFailed(failure) => OutcomeView::SeasonEntryFailed(failure@),
            Outcome::SeasonRead(reading) => OutcomeView::SeasonRead(
                match reading {
                    Ok(season) => Ok(season@),
                    Err(failure) => Err(failure@),
                },
            ),
            Outcome::SubtitleFound { subtitle } => OutcomeView::SubtitleFound { subtitle: subtitle@ },
            Outcome::SubtitleFolderUnreadable => OutcomeView::SubtitleFolderUnreadable,
            Outcome::SubtitleFolderEmpty => OutcomeView::SubtitleFolderEmpty,
            Outcome::SubtitleEntryFailed(failure) => OutcomeView::SubtitleEntryFailed(failure@),
            Outcome::Done(result) => OutcomeView::Done(
                match result {
                    Ok(done) => Ok(done),
                    Err(failure) => Err(failure@),
                },
            ),
        }
    }
}

/// How far the compilation of one episode has come: which task is under way.
#[derive(Debug, PartialEq, Eq)]
pub enum EpisodeStage {
    /// No task has been set yet.
    Ready,
    /// The subtitle file is being located.
    Locating,
    /// The JSON subtitle is being translated; the ASS subtitle goes to `output`.
    Translating { output: String },
    /// The ASS subtitle is being converted; the SRT subtitle goes to `output`.
    Converting { output: String },
    /// Video, audio and subtitle are being merged.
    Merging,
}

/// The mathematical content of an [`EpisodeStage`].
pub enum EpisodeStageView {
    Ready,
    Locating,
    Translating { output: Seq<char> },
    Converting { output: Seq<char> },
    Merging,
}

impl View for EpisodeStage {
    type V = EpisodeStageView;

    open spec fn view(&self) -> EpisodeStageView {
        match *self {
            EpisodeStage::Ready => EpisodeStageView::Ready,
            EpisodeStage::Locating => EpisodeStageView::Locating,
            EpisodeStage::Translating { output } => EpisodeStageView::Translating { output: output@ },
            EpisodeStage::Converting { output } => EpisodeStageView::Converting { output: output@ },
            EpisodeStage::Merging => EpisodeStageView::Merging,
        }
    }
}

/// How the compilation of one episode goes on after an outcome.
#[derive(Debug, PartialEq, Eq)]
pub enum EpisodeStep {
    /// The episode has reached the stage, and the caller is to carry out the task.
    Next(EpisodeStage, Task),
    /// The episode is compiled.
    Completed,
    /// The episode cannot be compiled.
    Failed(RunError),
}

/// The mathematical content of an [`EpisodeStep`].
pub enum EpisodeStepView {
    Next(EpisodeStageView, TaskView),
    Completed,
    Failed(RunErrorView),
}

impl View for EpisodeStep {
    type V = EpisodeStepView;

    open spec fn view(&self) -> EpisodeStepView {
        match *self {
            EpisodeStep::Next(stage, task) => EpisodeStepView::Next(stage@, task@),
            EpisodeStep::Completed => EpisodeStepView::Completed,
            EpisodeStep::Failed(error) => EpisodeStepView::Failed(error@),
        }
    }
}

/// Where a run stands between two tasks.
#[derive(Debug, PartialEq, Eq)]
pub enum RunState {
    /// Nothing has been done yet.
    Start,
    /// The download folder is being opened.
    OpeningDirectory,
    /// The next entry of the download folder is being read.
    AwaitingSeason,
    /// The metadata of the season at `season_path` is being read.
    ReadingSeason { season_path: String },
    /// A season's listing is being printed.
    Printing,
    /// Episode number `position` of the sorted `season` is being compiled and
    /// has reached `stage`.
    Compiling { season_path: String, season: SeasonMetadata, position: usize, stage: EpisodeStage },
    /// The season at `season_path` is being packaged.
    Packaging { season_path: String },
    /// The run has ended.
    Stopped,
}

/// The mathematical content of a [`RunState`].
pub enum RunStateView {
    Start,
    OpeningDirectory,
    AwaitingSeason,
    ReadingSeason { season_path: Seq<char> },
    Printing,
    Compiling { season_path: Seq<char>, season: SeasonView, position: nat, stage: EpisodeStageView },
    Packaging { season_path: Seq<char> },
    Stopped,
}

impl View for RunState {
    type V = RunStateView;

    open spec fn view(&self) -> RunStateView {
        match *self {
            RunState::Start => RunStateView::Start,
            RunState::OpeningDirectory => RunStateView::OpeningDirectory,
            RunState::AwaitingSeason => RunStateView::AwaitingSeason,
            RunState::ReadingSeason { season_path } => RunStateView::ReadingSeason {
                season_path: season_path@,
            },
            RunState::Printing => RunStateView::Printing,
            RunState::Compiling { season_path, season, position, stage } => RunStateView::Compiling {
                season_path: season_path@,
                season: season@,
                position: position as nat,
                stage: stage@,
            },
            RunState::Packaging { season_path } => RunStateView::Packaging { season_path: season_path@ },
            RunState::Stopped => RunStateView::Stopped,
        }
    }
}

} // verus!
