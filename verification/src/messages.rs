//! Every text that a run shows: the context attached to failures, the lines
//! that accompany a task, and the listing of a season.

use crate::metadata::{episode_views, EpisodeMetadata, EpisodeView, SeasonMetadata, SeasonView};
use crate::paths::{quote_path, quoted_path};
use crate::pipeline::{Progress, ProgressView, RunError, RunErrorView};
use crate::text_code::{primary_header_text, secondary_header_text, TextCode};
use vstd::prelude::*;
use vstd::string::*;

verus! {

/// The message of a failure to read the metadata of the season at `season_path`.
pub open spec fn season_error_text(season_path: Seq<char>) -> Seq<char> {
    "Error reading season metadata at "@ + quoted_path(season_path)
}

/// The message of a failure to package the season at `season_path`.
pub open spec fn package_error_text(season_path: Seq<char>) -> Seq<char> {
    "An error occured while pakaging season at "@ + quoted_path(season_path)
}

/// The message of a failure to translate the JSON subtitle of the episode at
/// `episode_path`.
pub open spec fn json_error_text(episode_path: Seq<char>) -> Seq<char> {
    "Error occured while parsing JSON subtitle at "@ + quoted_path(episode_path)
}

/// The message of a failure to convert the ASS subtitle of the episode at
/// `episode_path`.
pub open spec fn ass_error_text(episode_path: Seq<char>) -> Seq<char> {
    "Error occured while parsing ASS subtitle at "@ + quoted_path(episode_path)
}

/// The message of a failure to merge the files of the episode at
/// `episode_path`.
pub open spec fn merge_error_text(episode_path: Seq<char>) -> Seq<char> {
    "Error occured while merging files at "@ + quoted_path(episode_path)
}

/// The message of a missing subtitle folder in the episode at `episode_path`.
pub open spec fn subtitle_folder_error_text(episode_path: Seq<char>) -> Seq<char> {
    "Subtitle folder not found: "@ + quoted_path(episode_path)
}

/// The message that a run's error is reported with.
pub open spec fn run_error_text(error: RunErrorView) -> Seq<char> {
    match error {
        RunErrorView::Io(failure) => failure.message,
        RunErrorView::DownloadDirectoryUnreadable => "Error reading download directory"@,
        RunErrorView::SubtitleFolderNotFound { episode_path } => subtitle_folder_error_text(
            episode_path,
        ),
        RunErrorView::SubtitleMissing => "Subtitle is missing!"@,
        RunErrorView::UnexpectedOutcome => "Outcome does not answer the task that was set"@,
    }
}

/// Whether an error shows that the downloaded data itself is incomplete, as
/// opposed to an operation on it having failed.
pub open spec fn is_fatal_error(error: RunErrorView) -> bool {
    error is DownloadDirectoryUnreadable || error is SubtitleFolderNotFound
        || error is SubtitleMissing
}

/// `lead` followed by the quoted `path`.
pub(crate) fn context_message(lead: &str, path: &str) -> (out: String)
    ensures
        out@ == lead@ + quoted_path(path@),
{
    let quoted = quote_path(path);
    let mut out = String::from_str(lead);
    out.append(quoted.as_str());
    out
}

impl RunError {
    /// The message that this error is reported with.
    pub fn message(&self) -> (out: String)
        ensures
            out@ == run_error_text(self@),
    {
        match self {
            RunError::Io(failure) => failure.message.clone(),
            RunError::DownloadDirectoryUnreadable => String::from_str(
                "Error reading download directory",
            ),
            RunError::SubtitleFolderNotFound { episode_path } => context_message(
                "Subtitle folder not found: ",
                episode_path.as_str(),
            ),
            RunError::SubtitleMissing => String::from_str("Subtitle is missing!"),
            RunError::UnexpectedOutcome => String::from_str(
                "Outcome does not answer the task that was set",
            ),
        }
    }

    /// Whether this error shows that the downloaded data itself is incomplete.
    pub fn is_fatal(&self) -> (out: bool)
        ensures
            out == is_fatal_error(self@),
    {
        match self {
            RunError::DownloadDirectoryUnreadable => true,
            RunError::SubtitleFolderNotFound { .. } => true,
            RunError::SubtitleMissing => true,
            _ => false,
        }
    }
}

/// The line shown while a piece of work runs: the message as a primary header.
pub fn make_loading_message(message: &str) -> (out: String)
    ensures
        out@ == primary_header_text(message@),
{
    message.as_primary_header()
}

/// `lead`, then `title` between double quotes.
pub open spec fn titled_text(lead: Seq<char>, title: Seq<char>) -> Seq<char> {
    lead + "\""@ + title + "\""@
}

/// The lines that accompany the search for the subtitle of the episode `title`.
pub open spec fn locating_progress(title: Seq<char>) -> ProgressView {
    ProgressView {
        loading: primary_header_text(titled_text("Locating subtitle for: "@, title)),
        finished: primary_header_text("Finished locating subtitle."@),
    }
}

/// The lines that accompany the translation of a JSON subtitle.
pub open spec fn translating_progress() -> ProgressView {
    ProgressView {
        loading: primary_header_text("Translating JSON subtitle to ASS"@),
        finished: primary_header_text("Finished translating JSON subtitle to ASS."@),
    }
}

/// The lines that accompany the conversion of an ASS subtitle.
pub open spec fn converting_progress() -> ProgressView {
    ProgressView {
        loading: primary_header_text("Converting ASS to SRT"@),
        finished: primary_header_text("Finished converting ASS to SRT."@),
    }
}

/// The lines that accompany the merge of the episode `title`.
pub open spec fn merging_progress(title: Seq<char>) -> ProgressView {
    ProgressView {
        loading: primary_header_text(titled_text("Creating video for: "@, title)),
        finished: primary_header_text(titled_text("Creating video for: "@, title)),
    }
}

/// `lead`, then `title` between double quotes.
fn titled_message(lead: &str, title: &str) -> (out: String)
    ensures
        out@ == titled_text(lead@, title@),
{
    let mut out = String::from_str(lead);
    out.append("\"");
    out.append(title);
    out.append("\"");
    out
}

pub(crate) fn locating_lines(title: &str) -> (out: Progress)
    ensures
        out@ == locating_progress(title@),
{
    let announcement = titled_message("Locating subtitle for: ", title);
    Progress {
        loading: make_loading_message(announcement.as_str()),
        finished: "Finished locating subtitle.".as_primary_header(),
    }
}

pub(crate) fn translating_lines() -> (out: Progress)
    ensures
        out@ == translating_progress(),
{
    Progress {
        loading: make_loading_message("Translating JSON subtitle to ASS"),
        finished: "Finished translating JSON subtitle to ASS.".as_primary_header(),
    }
}

pub(crate) fn converting_lines() -> (out: Progress)
    ensures
        out@ == converting_progress(),
{
    Progress {
        loading: make_loading_message("Converting ASS to SRT"),
        finished: "Finished converting ASS to SRT.".as_primary_header(),
    }
}

pub(crate) fn merging_lines(title: &str) -> (out: Progress)
    ensures
        out@ == merging_progress(title@),
{
    let announcement = titled_message("Creating video for: ", title);
    Progress {
        loading: make_loading_message(announcement.as_str()),
        finished: announcement.as_primary_header(),
    }
}

/// The three lines that list one episode, and the empty line behind them.
pub open spec fn episode_listing_text(episode: EpisodeView) -> Seq<char> {
    secondary_header_text("Episode Title"@) + ": "@ + episode.title + "\n"@
        + secondary_header_text("Episode Index"@) + ": "@ + episode.index + "\n"@
        + secondary_header_text("Episode Path"@) + ": "@ + quoted_path(episode.path) + "\n\n"@
}

/// The listings of the episodes, one behind the other.
pub open spec fn episodes_listing_text(episodes: Seq<EpisodeView>) -> Seq<char>
    decreases episodes.len(),
{
    if episodes.len() == 0 {
        Seq::empty()
    } else {
        episodes_listing_text(episodes.drop_last()) + episode_listing_text(episodes.last())
    }
}

/// The listing of a season: its title, then its episodes in their order.
pub open spec fn season_listing_text(season: SeasonView) -> Seq<char> {
    primary_header_text("Season Title"@) + ": "@ + season.title + "\n"@ + primary_header_text(
        "Episodes"@,
    ) + ":\n\n"@ + episodes_listing_text(season.episodes)
}

/// Appends the listing of one episode to `out`.
fn append_episode_listing(out: &mut String, episode: &EpisodeMetadata)
    ensures
        final(out)@ == old(out)@ + episode_listing_text(episode@),
{
    let title_label = "Episode Title".as_secondary_header();
    let index_label = "Episode Index".as_secondary_header();
    let path_label = "Episode Path".as_secondary_header();
    let quoted = quote_path(episode.path.as_str());
    out.append(title_label.as_str());
    out.append(": ");
    out.append(episode.title.as_str());
    out.append("\n");
    out.append(index_label.as_str());
    out.append(": ");
    out.append(episode.index.as_str());
    out.append("\n");
    out.append(path_label.as_str());
    out.append(": ");
    out.append(quoted.as_str());
    out.append("\n\n");
    assert(out@ =~= old(out)@ + episode_listing_text(episode@));
}

/// The text that lists a season: its title, then each episode, in the order
/// in which the season holds them, with its title, index and path.
pub fn season_listing(season: &SeasonMetadata) -> (out: String)
    ensures
        out@ == season_listing_text(season@),
{
    let title_label = "Season Title".as_primary_header();
    let episodes_label = "Episodes".as_primary_header();
    let mut out = String::from_str(title_label.as_str());
    out.append(": ");
    out.append(season.title.as_str());
    out.append("\n");
    out.append(episodes_label.as_str());
    out.append(":\n\n");
    let ghost head = out@;
    let ghost views = episode_views(season.episodes@);
    assert(views.take(0) =~= Seq::<EpisodeView>::empty());
    let mut position: usize = 0;
    while position < season.episodes.len()
        invariant
            position <= season.episodes.len(),
            views == episode_views(season.episodes@),
            out@ == head + episodes_listing_text(views.take(position as int)),
        decreases season.episodes.len() - position,
    {
        append_episode_listing(&mut out, &season.episodes[position]);
        proof {
            let listed = views.take(position + 1);
            assert(listed.drop_last() =~= views.take(position as int));
            assert(listed.last() == season.episodes@[position as int]@);
            assert(out@ =~= head + episodes_listing_text(listed));
        }
        position += 1;
    }
    assert(views.take(position as int) =~= views);
    out
}

} // verus!
