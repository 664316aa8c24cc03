//! Identifiers and parameters of the web API, each the text the API gave or
//! expects.
use vstd::prelude::*;

verus! {

/// The identifier of a podcast channel.
#[derive(Debug, PartialEq, Eq)]
pub struct PodcastChannelID(pub String);

/// The parameters that select the episodes page of a podcast channel.
#[derive(Debug, PartialEq, Eq)]
pub struct PodcastChannelParams(pub String);

/// The identifier of a podcast.
#[derive(Debug, PartialEq, Eq)]
pub struct PodcastID(pub String);

/// The identifier of a podcast episode.
#[derive(Debug, PartialEq, Eq)]
pub struct EpisodeID(pub String);

/// The identifier of a video.
#[derive(Debug, PartialEq, Eq)]
pub struct VideoID(pub String);

/// The identifier of an artist's channel.
#[derive(Debug, PartialEq, Eq)]
pub struct ArtistChannelID(pub String);

/// A piece of the text of a search suggestion.
#[derive(Debug, PartialEq, Eq)]
pub enum TextRun {
    Bold(String),
    Normal(String),
}

/// Whether a search suggestion comes from the search history or is a
/// prediction.
#[derive(Debug, Clone, Copy, PartialEq, Eq, Structural)]
pub enum SuggestionType {
    History,
    Prediction,
}

/// A search suggestion: its text in pieces, and where it comes from.
#[derive(Debug, PartialEq, Eq)]
pub struct SearchSuggestion {
    pub runs: Vec<TextRun>,
    pub suggestion_type: SuggestionType,
}

/// The parameters that fetch the next page of a paginated result.
#[derive(Debug, PartialEq, Eq)]
pub struct ContinuationParams(pub String);

impl ContinuationParams {
    /// Continuation parameters with the text `raw`.
    pub fn from_raw(raw: &str) -> (p: ContinuationParams)
        ensures
            p.0@ == raw@,
    {
        ContinuationParams(String::from_str(raw))
    }

    /// The text of the parameters.
    pub fn get_raw(&self) -> (r: &str)
        ensures
            r@ == self.0@,
    {
        self.0.as_str()
    }
}

} // verus!
