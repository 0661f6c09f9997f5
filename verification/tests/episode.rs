use season_pipeline::episode::{compile_episode, is_json_extension};
use season_pipeline::error_handling::IoFailure;
use season_pipeline::metadata::{EpisodeMetadata, SeasonMetadata};
use season_pipeline::pipeline::{
    EpisodeStage, EpisodeStep, Outcome, Progress, RunError, Task,
};
use std::io::ErrorKind;

fn first_episode() -> EpisodeMetadata {
    EpisodeMetadata {
        title: "Pilot".to_string(),
        index: "1".to_string(),
        path: "/dl/Season A/1".to_string(),
    }
}

fn season() -> SeasonMetadata {
    SeasonMetadata {
        title: "Season A".to_string(),
        type_tag: "1080p".to_string(),
        episodes: vec![first_episode()],
    }
}

fn step(hard: bool, srt: bool, stage: EpisodeStage, outcome: Outcome) -> EpisodeStep {
    compile_episode(&first_episode(), &season(), hard, srt, stage, outcome)
}

fn failure(kind: ErrorKind, message: &str) -> IoFailure {
    IoFailure { kind, message: message.to_string() }
}

fn found(subtitle: &str) -> Outcome {
    Outcome::SubtitleFound { subtitle: subtitle.to_string() }
}

fn merging_progress() -> Progress {
    Progress {
        loading: "\x1b[1;32mCreating video for: \"Pilot\"\x1b[0m".to_string(),
        finished: "\x1b[1;32mCreating video for: \"Pilot\"\x1b[0m".to_string(),
    }
}

fn merge_of(subtitle: &str, hard_subtitle: bool) -> EpisodeStep {
    EpisodeStep::Next(
        EpisodeStage::Merging,
        Task::Merge {
            video: "/dl/Season A/1/1080p/video.m4s".to_string(),
            audio: "/dl/Season A/1/1080p/audio.m4s".to_string(),
            subtitle: subtitle.to_string(),
            output: "/dl/Season A/1/episode.mkv".to_string(),
            hard_subtitle,
            progress: merging_progress(),
        },
    )
}

fn translation_of(input: &str, output: &str) -> EpisodeStep {
    EpisodeStep::Next(
        EpisodeStage::Translating { output: output.to_string() },
        Task::JsonToAss {
            input: input.to_string(),
            output: output.to_string(),
            progress: Progress {
                loading: "\x1b[1;32mTranslating JSON subtitle to ASS\x1b[0m".to_string(),
                finished: "\x1b[1;32mFinished translating JSON subtitle to ASS.\x1b[0m"
                    .to_string(),
            },
        },
    )
}

fn conversion_of(input: &str, output: &str) -> EpisodeStep {
    EpisodeStep::Next(
        EpisodeStage::Converting { output: output.to_string() },
        Task::AssToSrt {
            input: input.to_string(),
            output: output.to_string(),
            progress: Progress {
                loading: "\x1b[1;32mConverting ASS to SRT\x1b[0m".to_string(),
                finished: "\x1b[1;32mFinished converting ASS to SRT.\x1b[0m".to_string(),
            },
        },
    )
}

#[test]
fn episode_begins_with_the_search_for_its_subtitle() {
    let expected = EpisodeStep::Next(
        EpisodeStage::Locating,
        Task::LocateSubtitle {
            directory: "/dl/Season A/1/en".to_string(),
            progress: Progress {
                loading: "\x1b[1;32mLocating subtitle for: \"Pilot\"\x1b[0m".to_string(),
                finished: "\x1b[1;32mFinished locating subtitle.\x1b[0m".to_string(),
            },
        },
    );
    assert_eq!(step(false, false, EpisodeStage::Ready, Outcome::Started), expected);
}

#[test]
fn json_subtitle_is_translated_to_ass() {
    assert_eq!(
        step(false, false, EpisodeStage::Locating, found("/dl/Season A/1/en/sub.json")),
        translation_of("/dl/Season A/1/en/sub.json", "/dl/Season A/1/en/sub.ass")
    );
}

#[test]
fn json_subtitle_is_translated_before_any_conversion_to_srt() {
    assert_eq!(
        step(true, true, EpisodeStage::Locating, found("/dl/Season A/1/en/sub.json")),
        translation_of("/dl/Season A/1/en/sub.json", "/dl/Season A/1/en/sub.ass")
    );
}

#[test]
fn ass_subtitle_goes_straight_to_the_merge() {
    assert_eq!(
        step(false, false, EpisodeStage::Locating, found("/dl/Season A/1/en/sub.ass")),
        merge_of("/dl/Season A/1/en/sub.ass", false)
    );
}

#[test]
fn extension_is_told_by_its_exact_spelling() {
    assert_eq!(
        step(false, false, EpisodeStage::Locating, found("/dl/Season A/1/en/sub.JSON")),
        merge_of("/dl/Season A/1/en/sub.JSON", false)
    );
    assert_eq!(
        step(false, false, EpisodeStage::Locating, found("/dl/Season A/1/en/json")),
        merge_of("/dl/Season A/1/en/json", false)
    );
    assert_eq!(
        step(false, false, EpisodeStage::Locating, found("/dl/Season A/1/en/.json")),
        merge_of("/dl/Season A/1/en/.json", false)
    );
}

#[test]
fn only_the_last_extension_counts() {
    assert_eq!(
        step(false, false, EpisodeStage::Locating, found("/dl/s.json/en/sub.en.json")),
        translation_of("/dl/s.json/en/sub.en.json", "/dl/s.json/en/sub.en.ass")
    );
    assert_eq!(
        step(false, false, EpisodeStage::Locating, found("/dl/s.json/en/sub")),
        merge_of("/dl/s.json/en/sub", false)
    );
}

#[test]
fn ass_subtitle_is_converted_when_srt_is_asked_for() {
    assert_eq!(
        step(false, true, EpisodeStage::Locating, found("/dl/Season A/1/en/sub.ass")),
        conversion_of("/dl/Season A/1/en/sub.ass", "/dl/Season A/1/en/sub.srt")
    );
}

#[test]
fn subtitle_without_extension_gets_one_on_conversion() {
    assert_eq!(
        step(false, true, EpisodeStage::Locating, found("/dl/Season A/1/en/sub")),
        conversion_of("/dl/Season A/1/en/sub", "/dl/Season A/1/en/sub.srt")
    );
}

#[test]
fn translated_subtitle_is_merged() {
    let stage = EpisodeStage::Translating { output: "/dl/Season A/1/en/sub.ass".to_string() };
    assert_eq!(
        step(true, false, stage, Outcome::Done(Ok(()))),
        merge_of("/dl/Season A/1/en/sub.ass", true)
    );
}

#[test]
fn translated_subtitle_is_converted_when_srt_is_asked_for() {
    let stage = EpisodeStage::Translating { output: "/dl/Season A/1/en/sub.ass".to_string() };
    assert_eq!(
        step(false, true, stage, Outcome::Done(Ok(()))),
        conversion_of("/dl/Season A/1/en/sub.ass", "/dl/Season A/1/en/sub.srt")
    );
}

#[test]
fn converted_subtitle_is_merged() {
    let stage = EpisodeStage::Converting { output: "/dl/Season A/1/en/sub.srt".to_string() };
    assert_eq!(
        step(false, true, stage, Outcome::Done(Ok(()))),
        merge_of("/dl/Season A/1/en/sub.srt", false)
    );
}

#[test]
fn successful_merge_completes_the_episode() {
    assert_eq!(
        step(false, false, EpisodeStage::Merging, Outcome::Done(Ok(()))),
        EpisodeStep::Completed
    );
}

#[test]
fn missing_subtitle_folder_is_an_error_of_its_own() {
    assert_eq!(
        step(false, false, EpisodeStage::Locating, Outcome::SubtitleFolderUnreadable),
        EpisodeStep::Failed(RunError::SubtitleFolderNotFound {
            episode_path: "/dl/Season A/1".to_string()
        })
    );
}

#[test]
fn empty_subtitle_folder_is_an_error_of_its_own() {
    assert_eq!(
        step(false, false, EpisodeStage::Locating, Outcome::SubtitleFolderEmpty),
        EpisodeStep::Failed(RunError::SubtitleMissing)
    );
}

#[test]
fn failed_folder_entry_is_passed_on_unchanged() {
    let outcome = Outcome::SubtitleEntryFailed(failure(ErrorKind::PermissionDenied, "denied"));
    assert_eq!(
        step(false, false, EpisodeStage::Locating, outcome),
        EpisodeStep::Failed(RunError::Io(failure(ErrorKind::PermissionDenied, "denied")))
    );
}

#[test]
fn failed_translation_names_the_episode() {
    let stage = EpisodeStage::Translating { output: "/dl/Season A/1/en/sub.ass".to_string() };
    let outcome = Outcome::Done(Err(failure(ErrorKind::InvalidData, "bad json")));
    assert_eq!(
        step(false, false, stage, outcome),
        EpisodeStep::Failed(RunError::Io(failure(
            ErrorKind::InvalidData,
            "Error occured while parsing JSON subtitle at \"/dl/Season A/1\""
        )))
    );
}

#[test]
fn failed_conversion_names_the_episode() {
    let stage = EpisodeStage::Converting { output: "/dl/Season A/1/en/sub.srt".to_string() };
    let outcome = Outcome::Done(Err(failure(ErrorKind::InvalidData, "bad ass")));
    assert_eq!(
        step(false, true, stage, outcome),
        EpisodeStep::Failed(RunError::Io(failure(
            ErrorKind::InvalidData,
            "Error occured while parsing ASS subtitle at \"/dl/Season A/1\""
        )))
    );
}

#[test]
fn failed_merge_names_the_episode_and_keeps_the_kind() {
    let outcome = Outcome::Done(Err(failure(ErrorKind::NotFound, "video.m4s: no such file")));
    assert_eq!(
        step(false, false, EpisodeStage::Merging, outcome),
        EpisodeStep::Failed(RunError::Io(failure(
            ErrorKind::NotFound,
            "Error occured while merging files at \"/dl/Season A/1\""
        )))
    );
}

#[test]
fn outcome_that_answers_another_task_is_refused() {
    let refused = EpisodeStep::Failed(RunError::UnexpectedOutcome);
    assert_eq!(step(false, false, EpisodeStage::Ready, Outcome::Done(Ok(()))), refused);
    assert_eq!(step(false, false, EpisodeStage::Locating, Outcome::Started), refused);
    assert_eq!(step(false, false, EpisodeStage::Locating, Outcome::Done(Ok(()))), refused);
    assert_eq!(step(false, false, EpisodeStage::Merging, found("/x/sub.json")), refused);
    assert_eq!(step(false, false, EpisodeStage::Merging, Outcome::NoMoreSeasons), refused);
    let stage = EpisodeStage::Translating { output: "/x/sub.ass".to_string() };
    assert_eq!(step(false, false, stage, Outcome::SubtitleFolderEmpty), refused);
    let stage = EpisodeStage::Converting { output: "/x/sub.srt".to_string() };
    assert_eq!(step(false, false, stage, Outcome::DirectoryOpened), refused);
}

#[test]
fn type_tag_names_the_folder_of_the_streams() {
    let episode = EpisodeMetadata {
        title: "t".to_string(),
        index: "4".to_string(),
        path: "relative/ep".to_string(),
    };
    let season = SeasonMetadata {
        title: "s".to_string(),
        type_tag: "lua.mp4.bb2api.64".to_string(),
        episodes: vec![],
    };
    let out = compile_episode(
        &episode,
        &season,
        false,
        false,
        EpisodeStage::Locating,
        Outcome::SubtitleFound { subtitle: "relative/ep/en/a.srt".to_string() },
    );
    match out {
        EpisodeStep::Next(EpisodeStage::Merging, Task::Merge { video, audio, output, .. }) => {
            assert_eq!(video, "relative/ep/lua.mp4.bb2api.64/video.m4s");
            assert_eq!(audio, "relative/ep/lua.mp4.bb2api.64/audio.m4s");
            assert_eq!(output, "relative/ep/episode.mkv");
        }
        other => panic!("unexpected step {:?}", other),
    }
}

#[test]
fn json_extension_is_told_from_every_other() {
    assert!(is_json_extension(&Some("json".to_string())));
    assert!(!is_json_extension(&Some("ass".to_string())));
    assert!(!is_json_extension(&Some("JSON".to_string())));
    assert!(!is_json_extension(&Some("jsonl".to_string())));
    assert!(!is_json_extension(&Some(String::new())));
    assert!(!is_json_extension(&None));
}
