//! Compiling one episode: locate its subtitle, translate it where it is
//! JSON, convert it where SRT is asked for, and merge it with the video and
//! audio streams.
//!
//! The library sets one task at a time. `episode_step` says which task
//! follows which outcome; `compile_episode` computes it.

use crate::error_handling::{return_when_error, IoFailureView};
use crate::messages::{
    ass_error_text, context_message, converting_lines, converting_progress, json_error_text,
    locating_lines, locating_progress, merge_error_text, merging_lines, merging_progress,
    translating_lines, translating_progress,
};
use crate::metadata::{EpisodeMetadata, EpisodeView, SeasonMetadata};
use crate::paths::{
    extension_of, has_separator, join_path, joined_path, path_extension, path_with_extension,
    replace_extension,
};
use crate::pipeline::{
    EpisodeStage, EpisodeStageView, EpisodeStep, EpisodeStepView, Outcome, OutcomeView, RunError,
    RunErrorView, Task, TaskView,
};
use vstd::prelude::*;
use vstd::string::*;

verus! {

/// The task of finding the subtitle file of an episode: the first file in the
/// folder `en` of the episode's folder.
pub open spec fn locate_task(episode: EpisodeView) -> TaskView {
    TaskView::LocateSubtitle {
        directory: joined_path(episode.path, "en"@),
        progress: locating_progress(episode.title),
    }
}

/// Whether the extension of a file, if it has one, is `json`, spelled so.
pub open spec fn names_json(extension: Option<Seq<char>>) -> bool {
    extension == Some("json"@)
}

/// Whether a subtitle file is in the JSON format: its extension is `json`.
pub open spec fn is_json_subtitle(subtitle: Seq<char>) -> bool {
    names_json(path_extension(subtitle))
}

/// The task of merging an episode: its streams `video.m4s` and `audio.m4s`
/// lie in the folder named by the season's type tag, and the result goes to
/// `episode.mkv` in the episode's own folder.
pub open spec fn merge_task(
    episode: EpisodeView,
    type_tag: Seq<char>,
    subtitle: Seq<char>,
    hard_subtitle: bool,
) -> TaskView {
    TaskView::Merge {
        video: joined_path(joined_path(episode.path, type_tag), "video.m4s"@),
        audio: joined_path(joined_path(episode.path, type_tag), "audio.m4s"@),
        subtitle,
        output: joined_path(episode.path, "episode.mkv"@),
        hard_subtitle,
        progress: merging_progress(episode.title),
    }
}

/// What follows once the subtitle is in the ASS format or was never JSON:
/// its conversion to SRT where that is asked for, else the merge.
pub open spec fn step_with_subtitle(
    episode: EpisodeView,
    type_tag: Seq<char>,
    hard_subtitle: bool,
    use_srt_subtitle: bool,
    subtitle: Seq<char>,
) -> EpisodeStepView {
    if use_srt_subtitle {
        EpisodeStepView::Next(
            EpisodeStageView::Converting { output: path_with_extension(subtitle, "srt"@) },
            TaskView::AssToSrt {
                input: subtitle,
                output: path_with_extension(subtitle, "srt"@),
                progress: converting_progress(),
            },
        )
    } else {
        EpisodeStepView::Next(
            EpisodeStageView::Merging,
            merge_task(episode, type_tag, subtitle, hard_subtitle),
        )
    }
}

/// What follows once the subtitle file has been found: its translation to
/// ASS where it is JSON, else what follows with the file as it is.
pub open spec fn step_with_located(
    episode: EpisodeView,
    type_tag: Seq<char>,
    hard_subtitle: bool,
    use_srt_subtitle: bool,
    subtitle: Seq<char>,
) -> EpisodeStepView {
    if is_json_subtitle(subtitle) {
        EpisodeStepView::Next(
            EpisodeStageView::Translating { output: path_with_extension(subtitle, "ass"@) },
            TaskView::JsonToAss {
                input: subtitle,
                output: path_with_extension(subtitle, "ass"@),
                progress: translating_progress(),
            },
        )
    } else {
        step_with_subtitle(episode, type_tag, hard_subtitle, use_srt_subtitle, subtitle)
    }
}

/// The error that a failed operation ends a run with: the failure's category
/// with `message` in place of the failure's own.
pub open spec fn failure_in_context(failure: IoFailureView, message: Seq<char>) -> RunErrorView {
    RunErrorView::Io(IoFailureView { kind: failure.kind, message })
}

/// How the compilation of an episode goes on from `stage` after `outcome`.
///
/// A missing subtitle folder or file ends it with an error of its own kind.
/// A failed conversion or merge ends it with the failure's category and a
/// message that names the episode's folder. An outcome that does not answer
/// the task of the stage ends it with `UnexpectedOutcome`.
pub open spec fn episode_step(
    episode: EpisodeView,
    type_tag: Seq<char>,
    hard_subtitle: bool,
    use_srt_subtitle: bool,
    stage: EpisodeStageView,
    outcome: OutcomeView,
) -> EpisodeStepView {
    match (stage, outcome) {
        (EpisodeStageView::Ready, OutcomeView::Started) => EpisodeStepView::Next(
            EpisodeStageView::Locating,
            locate_task(episode),
        ),
        (EpisodeStageView::Locating, OutcomeView::SubtitleFound { subtitle }) => step_with_located(
            episode,
            type_tag,
            hard_subtitle,
            use_srt_subtitle,
            subtitle,
        ),
        (EpisodeStageView::Locating, OutcomeView::SubtitleFolderUnreadable) => EpisodeStepView::Failed(
            RunErrorView::SubtitleFolderNotFound { episode_path: episode.path },
        ),
        (EpisodeStageView::Locating, OutcomeView::SubtitleFolderEmpty) => EpisodeStepView::Failed(
            RunErrorView::SubtitleMissing,
        ),
        (EpisodeStageView::Locating, OutcomeView::SubtitleEntryFailed(failure)) => EpisodeStepView::Failed(
            RunErrorView::Io(failure),
        ),
        (EpisodeStageView::Translating { output }, OutcomeView::Done(Ok(_))) => step_with_subtitle(
            episode,
            type_tag,
            hard_subtitle,
            use_srt_subtitle,
            output,
        ),
        (EpisodeStageView::Translating { .. }, OutcomeView::Done(Err(failure))) => EpisodeStepView::Failed(
            failure_in_context(failure, json_error_text(episode.path)),
        ),
        (EpisodeStageView::Converting { output }, OutcomeView::Done(Ok(_))) => EpisodeStepView::Next(
            EpisodeStageView::Merging,
            merge_task(episode, type_tag, output, hard_subtitle),
        ),
        (EpisodeStageView::Converting { .. }, OutcomeView::Done(Err(failure))) => EpisodeStepView::Failed(
            failure_in_context(failure, ass_error_text(episode.path)),
        ),
        (EpisodeStageView::Merging, OutcomeView::Done(Ok(_))) => EpisodeStepView::Completed,
        (EpisodeStageView::Merging, OutcomeView::Done(Err(failure))) => EpisodeStepView::Failed(
            failure_in_context(failure, merge_error_text(episode.path)),
        ),
        _ => EpisodeStepView::Failed(RunErrorView::UnexpectedOutcome),
    }
}

/// The task of finding the subtitle file of an episode.
pub(crate) fn locate_subtitle(episode: &EpisodeMetadata) -> (task: Task)
    ensures
        task@ == locate_task(episode@),
{
    Task::LocateSubtitle {
        directory: join_path(episode.path.as_str(), "en"),
        progress: locating_lines(episode.title.as_str()),
    }
}

/// Decides whether the extension of a file, if it has one, is that of a
/// JSON subtitle.
pub fn is_json_extension(extension: &Option<String>) -> (out: bool)
    ensures
        out == names_json(extension.deep_view()),
{
    match extension {
        Some(extension) => {
            let json = String::from_str("json");
            *extension == json
        },
        None => false,
    }
}

/// Decides whether a subtitle file is in the JSON format.
fn has_json_extension(subtitle: &str) -> (out: bool)
    ensures
        out == is_json_subtitle(subtitle@),
{
    let extension = extension_of(subtitle);
    is_json_extension(&extension)
}

/// The step that sets the merge of an episode with `subtitle`.
fn step_to_merge(
    episode: &EpisodeMetadata,
    type_tag: &str,
    hard_subtitle: bool,
    subtitle: String,
) -> (step: EpisodeStep)
    ensures
        step@ == EpisodeStepView::Next(
            EpisodeStageView::Merging,
            merge_task(episode@, type_tag@, subtitle@, hard_subtitle),
        ),
{
    let files_path = join_path(episode.path.as_str(), type_tag);
    EpisodeStep::Next(
        EpisodeStage::Merging,
        Task::Merge {
            video: join_path(files_path.as_str(), "video.m4s"),
            audio: join_path(files_path.as_str(), "audio.m4s"),
            subtitle,
            output: join_path(episode.path.as_str(), "episode.mkv"),
            hard_subtitle,
            progress: merging_lines(episode.title.as_str()),
        },
    )
}

/// The step that follows with a subtitle that needs no translation.
fn continue_with_subtitle(
    episode: &EpisodeMetadata,
    type_tag: &str,
    hard_subtitle: bool,
    use_srt_subtitle: bool,
    subtitle: String,
) -> (step: EpisodeStep)
    ensures
        step@ == step_with_subtitle(
            episode@,
            type_tag@,
            hard_subtitle,
            use_srt_subtitle,
            subtitle@,
        ),
{
    if use_srt_subtitle {
        proof {
            reveal_strlit("srt");
            assert(!has_separator("srt"@));
        }
        let output = replace_extension(subtitle.as_str(), "srt");
        EpisodeStep::Next(
            EpisodeStage::Converting { output: output.clone() },
            Task::AssToSrt { input: subtitle, output, progress: converting_lines() },
        )
    } else {
        step_to_merge(episode, type_tag, hard_subtitle, subtitle)
    }
}

/// The step that follows the finding of the subtitle file.
fn continue_with_located(
    episode: &EpisodeMetadata,
    type_tag: &str,
    hard_subtitle: bool,
    use_srt_subtitle: bool,
    subtitle: String,
) -> (step: EpisodeStep)
    ensures
        step@ == step_with_located(
            episode@,
            type_tag@,
            hard_subtitle,
            use_srt_subtitle,
            subtitle@,
        ),
{
    if has_json_extension(subtitle.as_str()) {
        proof {
            reveal_strlit("ass");
            assert(!has_separator("ass"@));
        }
        let output = replace_extension(subtitle.as_str(), "ass");
        EpisodeStep::Next(
            EpisodeStage::Translating { output: output.clone() },
            Task::JsonToAss { input: subtitle, output, progress: translating_lines() },
        )
    } else {
        continue_with_subtitle(episode, type_tag, hard_subtitle, use_srt_subtitle, subtitle)
    }
}

/// Decides how the compilation of one episode goes on: given the stage it
/// has reached and the outcome of the task of that stage, gives the next
/// stage with its task, or the end of the compilation.
pub fn compile_episode(
    episode_metadata: &EpisodeMetadata,
    season_metadata: &SeasonMetadata,
    hard_subtitle: bool,
    use_srt_subtitle: bool,
    stage: EpisodeStage,
    outcome: Outcome,
) -> (step: EpisodeStep)
    ensures
        step@ == episode_step(
            episode_metadata@,
            season_metadata@.type_tag,
            hard_subtitle,
            use_srt_subtitle,
            stage@,
            outcome@,
        ),
{
    let type_tag = season_metadata.type_tag.as_str();
    let episode_path = episode_metadata.path.as_str();
    match stage {
        EpisodeStage::Ready => match outcome {
            Outcome::Started => EpisodeStep::Next(
                EpisodeStage::Locating,
                locate_subtitle(episode_metadata),
            ),
            _ => EpisodeStep::Failed(RunError::UnexpectedOutcome),
        },
        EpisodeStage::Locating => match outcome {
            Outcome::SubtitleFound { subtitle } => continue_with_located(
                episode_metadata,
                type_tag,
                hard_subtitle,
                use_srt_subtitle,
                subtitle,
            ),
            Outcome::SubtitleFolderUnreadable => EpisodeStep::Failed(
                RunError::SubtitleFolderNotFound { episode_path: episode_metadata.path.clone() },
            ),
            Outcome::SubtitleFolderEmpty => EpisodeStep::Failed(RunError::SubtitleMissing),
            Outcome::SubtitleEntryFailed(failure) => EpisodeStep::Failed(RunError::Io(failure)),
            _ => EpisodeStep::Failed(RunError::UnexpectedOutcome),
        },
        EpisodeStage::Translating { output } => match outcome {
            Outcome::Done(result) => {
                let message = context_message(
                    "Error occured while parsing JSON subtitle at ",
                    episode_path,
                );
                match return_when_error(result, message.as_str()) {
                    Ok(_) => continue_with_subtitle(
                        episode_metadata,
                        type_tag,
                        hard_subtitle,
                        use_srt_subtitle,
                        output,
                    ),
                    Err(failure) => EpisodeStep::Failed(RunError::Io(failure)),
                }
            },
            _ => EpisodeStep::Failed(RunError::UnexpectedOutcome),
        },
        EpisodeStage::Converting { output } => match outcome {
            Outcome::Done(result) => {
                let message = context_message(
                    "Error occured while parsing ASS subtitle at ",
                    episode_path,
                );
                match return_when_error(result, message.as_str()) {
                    Ok(_) => step_to_merge(episode_metadata, type_tag, hard_subtitle, output),
                    Err(failure) => EpisodeStep::Failed(RunError::Io(failure)),
                }
            },
            _ => EpisodeStep::Failed(RunError::UnexpectedOutcome),
        },
        EpisodeStage::Merging => match outcome {
            Outcome::Done(result) => {
                let message = context_message(
                    "Error occured while merging files at ",
                    episode_path,
                );
                match return_when_error(result, message.as_str()) {
                    Ok(_) => EpisodeStep::Completed,
                    Err(failure) => EpisodeStep::Failed(RunError::Io(failure)),
                }
            },
            _ => EpisodeStep::Failed(RunError::UnexpectedOutcome),
        },
    }
}

} // verus!
