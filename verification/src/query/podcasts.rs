//! Queries for podcast channels, their episodes, podcasts, episodes and the
//! new episodes playlist. Each browses a page by its identifier.
use vstd::prelude::*;

use crate::common::{EpisodeID, PodcastChannelID, PodcastChannelParams, PodcastID};
use crate::query::{
    browse_body, browse_members, json_object, json_object_members, json_string, json_string_value,
    members_of, PostQuery,
};

verus! {

/// Gets the page of a podcast channel.
pub struct GetChannelQuery {
    channel_id: PodcastChannelID,
}

/// Gets the episodes page of a podcast channel.
pub struct GetChannelEpisodesQuery {
    channel_id: PodcastChannelID,
    podcast_channel_params: PodcastChannelParams,
}

/// Gets the page of a podcast.
pub struct GetPodcastQuery {
    podcast_id: PodcastID,
}

/// Gets the page of an episode.
pub struct GetEpisodeQuery {
    episode_id: EpisodeID,
}

/// Gets the new episodes playlist.
pub struct GetNewEpisodesQuery;

/// The page the new episodes playlist is browsed by.
pub open spec fn new_episodes_browse_id() -> Seq<char> {
    "VLRDPN"@
}

/// The endpoint that all these queries are sent to.
pub open spec fn browse_path() -> Seq<char> {
    "browse"@
}

/// The body of the episodes query: `browseId` and `params`.
pub open spec fn channel_episodes_members(id: Seq<char>, params: Seq<char>) -> Map<Seq<char>, serde_json::Value> {
    map!["browseId"@ => json_string(id), "params"@ => json_string(params)]
}

impl GetChannelQuery {
    /// The identifier of the channel.
    pub closed spec fn channel_id_text(self) -> Seq<char> {
        self.channel_id.0@
    }

    pub fn new(channel_id: PodcastChannelID) -> (q: GetChannelQuery)
        ensures
            q.channel_id_text() == channel_id.0@,
    {
        GetChannelQuery { channel_id }
    }
}

impl GetChannelEpisodesQuery {
    /// The identifier of the channel.
    pub closed spec fn channel_id_text(self) -> Seq<char> {
        self.channel_id.0@
    }

    /// The parameters that select the channel's episodes page.
    pub closed spec fn params_text(self) -> Seq<char> {
        self.podcast_channel_params.0@
    }

    pub fn new(channel_id: PodcastChannelID, podcast_channel_params: PodcastChannelParams) -> (q:
        GetChannelEpisodesQuery)
        ensures
            q.channel_id_text() == channel_id.0@,
            q.params_text() == podcast_channel_params.0@,
    {
        GetChannelEpisodesQuery { channel_id, podcast_channel_params }
    }
}

impl GetPodcastQuery {
    /// The identifier of the podcast.
    pub closed spec fn podcast_id_text(self) -> Seq<char> {
        self.podcast_id.0@
    }

    pub fn new(podcast_id: PodcastID) -> (q: GetPodcastQuery)
        ensures
            q.podcast_id_text() == podcast_id.0@,
    {
        GetPodcastQuery { podcast_id }
    }
}

impl GetEpisodeQuery {
    /// The identifier of the episode.
    pub closed spec fn episode_id_text(self) -> Seq<char> {
        self.episode_id.0@
    }

    pub fn new(episode_id: EpisodeID) -> (q: GetEpisodeQuery)
        ensures
            q.episode_id_text() == episode_id.0@,
    {
        GetEpisodeQuery { episode_id }
    }
}

/// The endpoint `browse`.
fn browse() -> (p: &'static str)
    ensures
        p@ == browse_path(),
{
    "browse"
}

impl PostQuery for GetChannelQuery {
    open spec fn body_members(&self) -> Map<Seq<char>, serde_json::Value> {
        browse_members(self.channel_id_text())
    }

    open spec fn params_view(&self) -> Seq<(Seq<char>, Seq<char>)> {
        Seq::empty()
    }

    open spec fn path_view(&self) -> Seq<char> {
        browse_path()
    }

    fn header(&self) -> (h: serde_json::Map<String, serde_json::Value>) {
        browse_body(self.channel_id.0.as_str())
    }

    fn params(&self) -> (p: Vec<(&str, String)>) {
        let p: Vec<(&str, String)> = Vec::new();
        proof {
            assert(crate::query::params_text(p@) =~= Seq::<(Seq<char>, Seq<char>)>::empty());
        }
        p
    }

    fn path(&self) -> (p: &str) {
        browse()
    }
}

impl PostQuery for GetChannelEpisodesQuery {
    open spec fn body_members(&self) -> Map<Seq<char>, serde_json::Value> {
        channel_episodes_members(self.channel_id_text(), self.params_text())
    }

    open spec fn params_view(&self) -> Seq<(Seq<char>, Seq<char>)> {
        Seq::empty()
    }

    open spec fn path_view(&self) -> Seq<char> {
        browse_path()
    }

    fn header(&self) -> (h: serde_json::Map<String, serde_json::Value>) {
        let mut members: Vec<(String, serde_json::Value)> = Vec::new();
        members.push((String::from_str("browseId"), json_string_value(self.channel_id.0.as_str())));
        members.push(
            (String::from_str("params"), json_string_value(self.podcast_channel_params.0.as_str())),
        );
        proof {
            reveal_strlit("browseId");
            reveal_strlit("params");
            assert("browseId"@.len() != "params"@.len());
            assert(members@[0].0@ != members@[1].0@);
            let first = members@.drop_last();
            assert(first.drop_last().len() == 0);
            assert(members_of(first.drop_last()) =~= Map::<Seq<char>, serde_json::Value>::empty());
            assert(members_of(first) =~= map!["browseId"@ => members@[0].1]);
            assert(members_of(members@) =~= self.body_members());
        }
        json_object(members)
    }

    fn params(&self) -> (p: Vec<(&str, String)>) {
        let p: Vec<(&str, String)> = Vec::new();
        proof {
            assert(crate::query::params_text(p@) =~= Seq::<(Seq<char>, Seq<char>)>::empty());
        }
        p
    }

    fn path(&self) -> (p: &str) {
        browse()
    }
}

impl PostQuery for GetPodcastQuery {
    open spec fn body_members(&self) -> Map<Seq<char>, serde_json::Value> {
        browse_members(self.podcast_id_text())
    }

    open spec fn params_view(&self) -> Seq<(Seq<char>, Seq<char>)> {
        Seq::empty()
    }

    open spec fn path_view(&self) -> Seq<char> {
        browse_path()
    }

    fn header(&self) -> (h: serde_json::Map<String, serde_json::Value>) {
        browse_body(self.podcast_id.0.as_str())
    }

    fn params(&self) -> (p: Vec<(&str, String)>) {
        let p: Vec<(&str, String)> = Vec::new();
        proof {
            assert(crate::query::params_text(p@) =~= Seq::<(Seq<char>, Seq<char>)>::empty());
        }
        p
    }

    fn path(&self) -> (p: &str) {
        browse()
    }
}

impl PostQuery for GetEpisodeQuery {
    open spec fn body_members(&self) -> Map<Seq<char>, serde_json::Value> {
        browse_members(self.episode_id_text())
    }

    open spec fn params_view(&self) -> Seq<(Seq<char>, Seq<char>)> {
        Seq::empty()
    }

    open spec fn path_view(&self) -> Seq<char> {
        browse_path()
    }

    fn header(&self) -> (h: serde_json::Map<String, serde_json::Value>) {
        browse_body(self.episode_id.0.as_str())
    }

    fn params(&self) -> (p: Vec<(&str, String)>) {
        let p: Vec<(&str, String)> = Vec::new();
        proof {
            assert(crate::query::params_text(p@) =~= Seq::<(Seq<char>, Seq<char>)>::empty());
        }
        p
    }

    fn path(&self) -> (p: &str) {
        browse()
    }
}

impl PostQuery for GetNewEpisodesQuery {
    open spec fn body_members(&self) -> Map<Seq<char>, serde_json::Value> {
        browse_members(new_episodes_browse_id())
    }

    open spec fn params_view(&self) -> Seq<(Seq<char>, Seq<char>)> {
        Seq::empty()
    }

    open spec fn path_view(&self) -> Seq<char> {
        browse_path()
    }

    fn header(&self) -> (h: serde_json::Map<String, serde_json::Value>) {
        browse_body("VLRDPN")
    }

    fn params(&self) -> (p: Vec<(&str, String)>) {
        let p: Vec<(&str, String)> = Vec::new();
        proof {
            assert(crate::query::params_text(p@) =~= Seq::<(Seq<char>, Seq<char>)>::empty());
        }
        p
    }

    fn path(&self) -> (p: &str) {
        browse()
    }
}

/// Every podcast query is posted to the endpoint `browse`, whatever it
/// asks for, with no URL parameters; its body names the page to browse by
/// `browseId` (the episodes of a channel also send their `params`, and the
/// new episodes playlist is the page `VLRDPN`).
pub proof fn law_podcast_queries_post_to_browse(
    channel: GetChannelQuery,
    episodes: GetChannelEpisodesQuery,
    podcast: GetPodcastQuery,
    episode: GetEpisodeQuery,
    new_episodes: GetNewEpisodesQuery,
)
    ensures
        channel.path_view() == "browse"@,
        episodes.path_view() == "browse"@,
        podcast.path_view() == "browse"@,
        episode.path_view() == "browse"@,
        new_episodes.path_view() == "browse"@,
        channel.params_view().len() == 0,
        episodes.params_view().len() == 0,
        podcast.params_view().len() == 0,
        episode.params_view().len() == 0,
        new_episodes.params_view().len() == 0,
        channel.body_members() == map!["browseId"@ => json_string(channel.channel_id_text())],
        episodes.body_members() == map![
            "browseId"@ => json_string(episodes.channel_id_text()),
            "params"@ => json_string(episodes.params_text()),
        ],
        podcast.body_members() == map!["browseId"@ => json_string(podcast.podcast_id_text())],
        episode.body_members() == map!["browseId"@ => json_string(episode.episode_id_text())],
        new_episodes.body_members() == map!["browseId"@ => json_string("VLRDPN"@)],
{
}

} // verus!
