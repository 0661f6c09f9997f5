//! What is known of a season and its episodes once its folder has been read.

use vstd::prelude::*;

verus! {

/// One episode: its display name, its number as text, and the folder that
/// holds its raw files.
#[derive(Debug, PartialEq, Eq)]
pub struct EpisodeMetadata {
    pub title: String,
    pub index: String,
    pub path: String,
}

/// The mathematical content of an [`EpisodeMetadata`].
pub struct EpisodeView {
    pub title: Seq<char>,
    pub index: Seq<char>,
    pub path: Seq<char>,
}

impl View for EpisodeMetadata {
    type V = EpisodeView;

    open spec fn view(&self) -> EpisodeView {
        EpisodeView { title: self.title@, index: self.index@, path: self.path@ }
    }
}

impl Clone for EpisodeMetadata {
    fn clone(&self) -> (out: Self)
        ensures
            out@ == self@,
    {
        EpisodeMetadata {
            title: self.title.clone(),
            index: self.index.clone(),
            path: self.path.clone(),
        }
    }
}

/// The views of a sequence of episodes, in the same order.
pub open spec fn episode_views(episodes: Seq<EpisodeMetadata>) -> Seq<EpisodeView> {
    episodes.map_values(|episode: EpisodeMetadata| episode@)
}

/// One season: its display name, the name of the folder that holds each
/// episode's raw streams, and its episodes.
#[derive(Debug, PartialEq, Eq)]
pub struct SeasonMetadata {
    pub title: String,
    pub type_tag: String,
    pub episodes: Vec<EpisodeMetadata>,
}

/// The mathematical content of a [`SeasonMetadata`].
pub struct SeasonView {
    pub title: Seq<char>,
    pub type_tag: Seq<char>,
    pub episodes: Seq<EpisodeView>,
}

impl View for SeasonMetadata {
    type V = SeasonView;

    open spec fn view(&self) -> SeasonView {
        SeasonView {
            title: self.title@,
            type_tag: self.type_tag@,
            episodes: episode_views(self.episodes@),
        }
    }
}

} // verus!
