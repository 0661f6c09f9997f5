use season_pipeline::error_handling::IoFailure;
use season_pipeline::metadata::{EpisodeMetadata, SeasonMetadata};
use season_pipeline::pipeline::{EpisodeStage, Outcome, Progress, RunError, RunState, Task};
use season_pipeline::season::{compile_seasons, list};
use std::io::ErrorKind;

fn episode(title: &str, index: &str) -> EpisodeMetadata {
    EpisodeMetadata {
        title: title.to_string(),
        index: index.to_string(),
        path: format!("/dl/Season A/{}", index),
    }
}

fn season_a(episodes: Vec<EpisodeMetadata>) -> SeasonMetadata {
    SeasonMetadata { title: "Season A".to_string(), type_tag: "1080p".to_string(), episodes }
}

fn failure(kind: ErrorKind, message: &str) -> IoFailure {
    IoFailure { kind, message: message.to_string() }
}

fn found_season() -> Outcome {
    Outcome::SeasonFound { season_path: "/dl/Season A".to_string() }
}

fn found_subtitle(path: &str) -> Outcome {
    Outcome::SubtitleFound { subtitle: path.to_string() }
}

fn done() -> Outcome {
    Outcome::Done(Ok(()))
}

/// Feeds the outcomes to a compiling run, one after the other, and gives the
/// task set after each, with the state the run is left in.
fn compile(dont_copy: bool, hard: bool, srt: bool, outcomes: Vec<Outcome>) -> (RunState, Vec<Task>) {
    let mut state = RunState::Start;
    let mut tasks = Vec::new();
    for outcome in outcomes {
        let (next, task) = compile_seasons("/dl", "/out", dont_copy, hard, srt, state, outcome);
        state = next;
        tasks.push(task);
    }
    (state, tasks)
}

fn listing(outcomes: Vec<Outcome>) -> (RunState, Vec<Task>) {
    let mut state = RunState::Start;
    let mut tasks = Vec::new();
    for outcome in outcomes {
        let (next, task) = list("/dl", state, outcome);
        state = next;
        tasks.push(task);
    }
    (state, tasks)
}

fn locate(index: &str, title: &str) -> Task {
    Task::LocateSubtitle {
        directory: format!("/dl/Season A/{}/en", index),
        progress: Progress {
            loading: format!("\x1b[1;32mLocating subtitle for: \"{}\"\x1b[0m", title),
            finished: "\x1b[1;32mFinished locating subtitle.\x1b[0m".to_string(),
        },
    }
}

fn translate(index: &str) -> Task {
    Task::JsonToAss {
        input: format!("/dl/Season A/{}/en/sub.json", index),
        output: format!("/dl/Season A/{}/en/sub.ass", index),
        progress: Progress {
            loading: "\x1b[1;32mTranslating JSON subtitle to ASS\x1b[0m".to_string(),
            finished: "\x1b[1;32mFinished translating JSON subtitle to ASS.\x1b[0m".to_string(),
        },
    }
}

fn convert(index: &str) -> Task {
    Task::AssToSrt {
        input: format!("/dl/Season A/{}/en/sub.ass", index),
        output: format!("/dl/Season A/{}/en/sub.srt", index),
        progress: Progress {
            loading: "\x1b[1;32mConverting ASS to SRT\x1b[0m".to_string(),
            finished: "\x1b[1;32mFinished converting ASS to SRT.\x1b[0m".to_string(),
        },
    }
}

fn merge(index: &str, title: &str, extension: &str, hard_subtitle: bool) -> Task {
    Task::Merge {
        video: format!("/dl/Season A/{}/1080p/video.m4s", index),
        audio: format!("/dl/Season A/{}/1080p/audio.m4s", index),
        subtitle: format!("/dl/Season A/{}/en/sub.{}", index, extension),
        output: format!("/dl/Season A/{}/episode.mkv", index),
        hard_subtitle,
        progress: Progress {
            loading: format!("\x1b[1;32mCreating video for: \"{}\"\x1b[0m", title),
            finished: format!("\x1b[1;32mCreating video for: \"{}\"\x1b[0m", title),
        },
    }
}

fn package(copy: bool) -> Task {
    Task::Package {
        season_path: "/dl/Season A".to_string(),
        output_directory: "/out".to_string(),
        copy,
        episode_video_path: "episode.mkv".to_string(),
    }
}

fn read_season() -> Task {
    Task::ReadSeason { season_path: "/dl/Season A".to_string() }
}

fn open_directory() -> Task {
    Task::OpenDirectory { path: "/dl".to_string() }
}

#[test]
fn season_with_two_episodes_is_compiled_in_index_order_and_packaged() {
    let season = season_a(vec![episode("Second", "2"), episode("First", "1")]);
    let (state, tasks) = compile(
        false,
        false,
        false,
        vec![
            Outcome::Started,
            Outcome::DirectoryOpened,
            found_season(),
            Outcome::SeasonRead(Ok(season)),
            found_subtitle("/dl/Season A/1/en/sub.json"),
            done(),
            done(),
            found_subtitle("/dl/Season A/2/en/sub.json"),
            done(),
            done(),
            done(),
            Outcome::NoMoreSeasons,
        ],
    );
    assert_eq!(
        tasks,
        vec![
            open_directory(),
            Task::NextSeason,
            read_season(),
            locate("1", "First"),
            translate("1"),
            merge("1", "First", "ass", false),
            locate("2", "Second"),
            translate("2"),
            merge("2", "Second", "ass", false),
            package(true),
            Task::NextSeason,
            Task::Finished,
        ]
    );
    assert_eq!(state, RunState::Stopped);
    let merges = tasks.iter().filter(|t| matches!(t, Task::Merge { .. })).count();
    assert_eq!(merges, 2);
}

#[test]
fn empty_subtitle_folder_ends_the_run_before_packaging() {
    let season = season_a(vec![episode("First", "1"), episode("Second", "2")]);
    let (state, tasks) = compile(
        false,
        false,
        false,
        vec![
            Outcome::Started,
            Outcome::DirectoryOpened,
            found_season(),
            Outcome::SeasonRead(Ok(season)),
            found_subtitle("/dl/Season A/1/en/sub.json"),
            done(),
            done(),
            Outcome::SubtitleFolderEmpty,
        ],
    );
    assert_eq!(
        tasks,
        vec![
            open_directory(),
            Task::NextSeason,
            read_season(),
            locate("1", "First"),
            translate("1"),
            merge("1", "First", "ass", false),
            locate("2", "Second"),
            Task::Failed(RunError::SubtitleMissing),
        ]
    );
    assert_eq!(state, RunState::Stopped);
    assert!(!tasks.iter().any(|t| matches!(t, Task::Package { .. })));
    assert_eq!(tasks.iter().filter(|t| matches!(t, Task::Merge { .. })).count(), 1);
}

#[test]
fn missing_subtitle_folder_ends_the_run() {
    let season = season_a(vec![episode("First", "1")]);
    let (state, tasks) = compile(
        false,
        false,
        false,
        vec![
            Outcome::Started,
            Outcome::DirectoryOpened,
            found_season(),
            Outcome::SeasonRead(Ok(season)),
            Outcome::SubtitleFolderUnreadable,
        ],
    );
    assert_eq!(
        tasks.last(),
        Some(&Task::Failed(RunError::SubtitleFolderNotFound {
            episode_path: "/dl/Season A/1".to_string()
        }))
    );
    assert_eq!(state, RunState::Stopped);
}

#[test]
fn failed_merge_ends_the_run_with_the_episode_named() {
    let season = season_a(vec![episode("First", "1"), episode("Second", "2")]);
    let (state, tasks) = compile(
        false,
        false,
        false,
        vec![
            Outcome::Started,
            Outcome::DirectoryOpened,
            found_season(),
            Outcome::SeasonRead(Ok(season)),
            found_subtitle("/dl/Season A/1/en/sub.ass"),
            Outcome::Done(Err(failure(ErrorKind::NotFound, "No such file or directory"))),
        ],
    );
    assert_eq!(tasks[4], merge("1", "First", "ass", false));
    assert_eq!(
        tasks[5],
        Task::Failed(RunError::Io(failure(
            ErrorKind::NotFound,
            "Error occured while merging files at \"/dl/Season A/1\""
        )))
    );
    assert_eq!(tasks.len(), 6);
    assert_eq!(state, RunState::Stopped);
}

#[test]
fn run_that_has_ended_sets_no_further_task() {
    let (state, task) =
        compile_seasons("/dl", "/out", false, false, false, RunState::Stopped, done());
    assert_eq!(state, RunState::Stopped);
    assert_eq!(task, Task::Failed(RunError::UnexpectedOutcome));
    let (state, task) = list("/dl", RunState::Stopped, Outcome::Started);
    assert_eq!(state, RunState::Stopped);
    assert_eq!(task, Task::Failed(RunError::UnexpectedOutcome));
}

#[test]
fn packaging_copies_unless_told_to_move() {
    let outcomes = || {
        vec![
            Outcome::Started,
            Outcome::DirectoryOpened,
            found_season(),
            Outcome::SeasonRead(Ok(season_a(vec![]))),
        ]
    };
    let (_, copying) = compile(false, false, false, outcomes());
    assert_eq!(copying.last(), Some(&package(true)));
    let (state, moving) = compile(true, false, false, outcomes());
    assert_eq!(moving.last(), Some(&package(false)));
    assert_eq!(state, RunState::Packaging { season_path: "/dl/Season A".to_string() });
}

#[test]
fn failed_packaging_ends_the_run_with_the_season_named() {
    let (state, tasks) = compile(
        true,
        false,
        false,
        vec![
            Outcome::Started,
            Outcome::DirectoryOpened,
            found_season(),
            Outcome::SeasonRead(Ok(season_a(vec![]))),
            Outcome::Done(Err(failure(ErrorKind::PermissionDenied, "denied"))),
        ],
    );
    assert_eq!(
        tasks.last(),
        Some(&Task::Failed(RunError::Io(failure(
            ErrorKind::PermissionDenied,
            "An error occured while pakaging season at \"/dl/Season A\""
        ))))
    );
    assert_eq!(state, RunState::Stopped);
}

#[test]
fn unreadable_season_ends_the_run_with_the_season_named() {
    let (state, tasks) = compile(
        false,
        false,
        false,
        vec![
            Outcome::Started,
            Outcome::DirectoryOpened,
            found_season(),
            Outcome::SeasonRead(Err(failure(ErrorKind::NotFound, "entry.json is missing"))),
        ],
    );
    assert_eq!(
        tasks.last(),
        Some(&Task::Failed(RunError::Io(failure(
            ErrorKind::NotFound,
            "Error reading season metadata at \"/dl/Season A\""
        ))))
    );
    assert_eq!(state, RunState::Stopped);
}

#[test]
fn unreadable_download_folder_ends_the_run() {
    let (state, tasks) = compile(
        false,
        false,
        false,
        vec![Outcome::Started, Outcome::DirectoryUnreadable],
    );
    assert_eq!(tasks, vec![open_directory(), Task::Failed(RunError::DownloadDirectoryUnreadable)]);
    assert_eq!(state, RunState::Stopped);
}

#[test]
fn failed_folder_entry_ends_the_run_with_the_failure_unchanged() {
    let (state, tasks) = compile(
        false,
        false,
        false,
        vec![
            Outcome::Started,
            Outcome::DirectoryOpened,
            Outcome::SeasonEntryFailed(failure(ErrorKind::Interrupted, "interrupted")),
        ],
    );
    assert_eq!(
        tasks.last(),
        Some(&Task::Failed(RunError::Io(failure(ErrorKind::Interrupted, "interrupted"))))
    );
    assert_eq!(state, RunState::Stopped);
}

#[test]
fn empty_download_folder_finishes_at_once() {
    let (state, tasks) = compile(
        false,
        false,
        false,
        vec![Outcome::Started, Outcome::DirectoryOpened, Outcome::NoMoreSeasons],
    );
    assert_eq!(tasks, vec![open_directory(), Task::NextSeason, Task::Finished]);
    assert_eq!(state, RunState::Stopped);
}

#[test]
fn hard_subtitle_and_srt_reach_the_merge() {
    let season = season_a(vec![episode("Only", "7")]);
    let (_, tasks) = compile(
        false,
        true,
        true,
        vec![
            Outcome::Started,
            Outcome::DirectoryOpened,
            found_season(),
            Outcome::SeasonRead(Ok(season)),
            found_subtitle("/dl/Season A/7/en/sub.json"),
            done(),
            done(),
            done(),
        ],
    );
    let expected = vec![
        locate("7", "Only"),
        translate("7"),
        convert("7"),
        merge("7", "Only", "srt", true),
        package(true),
    ];
    assert_eq!(&tasks[3..], &expected[..]);
}

#[test]
fn second_season_follows_the_first() {
    let (state, tasks) = compile(
        false,
        false,
        false,
        vec![
            Outcome::Started,
            Outcome::DirectoryOpened,
            found_season(),
            Outcome::SeasonRead(Ok(season_a(vec![]))),
            done(),
            Outcome::SeasonFound { season_path: "/dl/Season B".to_string() },
        ],
    );
    assert_eq!(tasks[4], Task::NextSeason);
    assert_eq!(tasks[5], Task::ReadSeason { season_path: "/dl/Season B".to_string() });
    assert_eq!(state, RunState::ReadingSeason { season_path: "/dl/Season B".to_string() });
}

#[test]
fn compiling_run_holds_the_sorted_season() {
    let season = season_a(vec![episode("c", "10"), episode("b", "9"), episode("a", "1")]);
    let (state, _) = compile(
        false,
        false,
        false,
        vec![
            Outcome::Started,
            Outcome::DirectoryOpened,
            found_season(),
            Outcome::SeasonRead(Ok(season)),
        ],
    );
    assert_eq!(
        state,
        RunState::Compiling {
            season_path: "/dl/Season A".to_string(),
            season: season_a(vec![episode("a", "1"), episode("b", "9"), episode("c", "10")]),
            position: 0,
            stage: EpisodeStage::Locating,
        }
    );
}

#[test]
fn listing_run_prints_each_season_sorted_and_compiles_nothing() {
    let season = season_a(vec![episode("Second", "2"), episode("First", "1")]);
    let (state, tasks) = listing(vec![
        Outcome::Started,
        Outcome::DirectoryOpened,
        found_season(),
        Outcome::SeasonRead(Ok(season)),
        done(),
        Outcome::NoMoreSeasons,
    ]);
    let text = String::new()
        + "\x1b[1;32mSeason Title\x1b[0m: Season A\n"
        + "\x1b[1;32mEpisodes\x1b[0m:\n\n"
        + "\x1b[1;34mEpisode Title\x1b[0m: First\n"
        + "\x1b[1;34mEpisode Index\x1b[0m: 1\n"
        + "\x1b[1;34mEpisode Path\x1b[0m: \"/dl/Season A/1\"\n\n"
        + "\x1b[1;34mEpisode Title\x1b[0m: Second\n"
        + "\x1b[1;34mEpisode Index\x1b[0m: 2\n"
        + "\x1b[1;34mEpisode Path\x1b[0m: \"/dl/Season A/2\"\n\n";
    assert_eq!(
        tasks,
        vec![
            open_directory(),
            Task::NextSeason,
            read_season(),
            Task::Print { text },
            Task::NextSeason,
            Task::Finished,
        ]
    );
    assert_eq!(state, RunState::Stopped);
}

#[test]
fn listing_run_reports_an_unreadable_season() {
    let (state, tasks) = listing(vec![
        Outcome::Started,
        Outcome::DirectoryOpened,
        found_season(),
        Outcome::SeasonRead(Err(failure(ErrorKind::InvalidData, "bad entry.json"))),
    ]);
    assert_eq!(
        tasks.last(),
        Some(&Task::Failed(RunError::Io(failure(
            ErrorKind::InvalidData,
            "Error reading season metadata at \"/dl/Season A\""
        ))))
    );
    assert_eq!(state, RunState::Stopped);
}

#[test]
fn listing_run_refuses_the_states_of_a_compiling_run() {
    let state = RunState::Compiling {
        season_path: "/dl/Season A".to_string(),
        season: season_a(vec![episode("First", "1")]),
        position: 0,
        stage: EpisodeStage::Locating,
    };
    let (state, task) = list("/dl", state, found_subtitle("/dl/Season A/1/en/sub.json"));
    assert_eq!(task, Task::Failed(RunError::UnexpectedOutcome));
    assert_eq!(state, RunState::Stopped);
    let state = RunState::Packaging { season_path: "/dl/Season A".to_string() };
    let (_, task) = list("/dl", state, done());
    assert_eq!(task, Task::Failed(RunError::UnexpectedOutcome));
}

#[test]
fn compiling_run_refuses_the_printing_state() {
    let (state, task) =
        compile_seasons("/dl", "/out", false, false, false, RunState::Printing, done());
    assert_eq!(task, Task::Failed(RunError::UnexpectedOutcome));
    assert_eq!(state, RunState::Stopped);
}

#[test]
fn position_behind_the_last_episode_is_refused() {
    let state = RunState::Compiling {
        season_path: "/dl/Season A".to_string(),
        season: season_a(vec![episode("First", "1")]),
        position: 1,
        stage: EpisodeStage::Merging,
    };
    let (state, task) = compile_seasons("/dl", "/out", false, false, false, state, done());
    assert_eq!(task, Task::Failed(RunError::UnexpectedOutcome));
    assert_eq!(state, RunState::Stopped);
}

#[test]
fn outcome_out_of_turn_ends_the_run() {
    let (state, tasks) = compile(false, false, false, vec![Outcome::Started, found_season()]);
    assert_eq!(tasks.last(), Some(&Task::Failed(RunError::UnexpectedOutcome)));
    assert_eq!(state, RunState::Stopped);
    let (_, tasks) = compile(false, false, false, vec![Outcome::DirectoryOpened]);
    assert_eq!(tasks, vec![Task::Failed(RunError::UnexpectedOutcome)]);
}

#[test]
fn failed_print_ends_a_listing_run() {
    let (state, tasks) = listing(vec![
        Outcome::Started,
        Outcome::DirectoryOpened,
        found_season(),
        Outcome::SeasonRead(Ok(season_a(vec![]))),
        Outcome::Done(Err(failure(ErrorKind::BrokenPipe, "broken pipe"))),
    ]);
    assert_eq!(
        tasks.last(),
        Some(&Task::Failed(RunError::Io(failure(ErrorKind::BrokenPipe, "broken pipe"))))
    );
    assert_eq!(state, RunState::Stopped);
}
