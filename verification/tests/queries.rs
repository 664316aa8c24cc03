use youtui::common::{ContinuationParams, EpisodeID, PodcastChannelID, PodcastChannelParams, PodcastID};
use youtui::query::continuations::GetContinuationsQuery;
use youtui::query::podcasts::{
    GetChannelEpisodesQuery, GetChannelQuery, GetEpisodeQuery, GetNewEpisodesQuery, GetPodcastQuery,
};
use youtui::query::PostQuery;

fn browse_id_of(q: &impl PostQuery) -> String {
    let h = q.header();
    assert_eq!(h.len(), 1);
    h.get("browseId").unwrap().as_str().unwrap().to_string()
}

#[test]
fn podcast_queries_browse_their_page() {
    let q = GetChannelQuery::new(PodcastChannelID("UCchannel".to_string()));
    assert_eq!(browse_id_of(&q), "UCchannel");
    assert_eq!(q.path(), "browse");
    assert!(q.params().is_empty());
    let q = GetPodcastQuery::new(PodcastID("MPSPpodcast".to_string()));
    assert_eq!(browse_id_of(&q), "MPSPpodcast");
    assert_eq!(q.path(), "browse");
    let q = GetEpisodeQuery::new(EpisodeID("MPEDepisode".to_string()));
    assert_eq!(browse_id_of(&q), "MPEDepisode");
    assert!(q.params().is_empty());
    let q = GetNewEpisodesQuery;
    assert_eq!(browse_id_of(&q), "VLRDPN");
    assert_eq!(q.path(), "browse");
}

#[test]
fn channel_episodes_query_sends_its_params() {
    let q = GetChannelEpisodesQuery::new(
        PodcastChannelID("UCchannel".to_string()),
        PodcastChannelParams("6gPiAUdxWUJXcFlCQ3BN".to_string()),
    );
    let h = q.header();
    assert_eq!(h.len(), 2);
    assert_eq!(h.get("browseId").unwrap().as_str(), Some("UCchannel"));
    assert_eq!(h.get("params").unwrap().as_str(), Some("6gPiAUdxWUJXcFlCQ3BN"));
    assert!(q.params().is_empty());
    assert_eq!(q.path(), "browse");
}

#[test]
fn continuation_takes_the_parameters_of_the_next_page() {
    let query = GetChannelQuery::new(PodcastChannelID("UCchannel".to_string()));
    let cont = GetContinuationsQuery::from_continuation_params(
        Some(ContinuationParams::from_raw("4qmFsgKr")),
        &query,
    )
    .unwrap();
    let params = cont.params();
    assert_eq!(params.len(), 2);
    assert_eq!(params[0], ("ctoken", "4qmFsgKr".to_string()));
    assert_eq!(params[1], ("continuation", "4qmFsgKr".to_string()));
    assert_eq!(cont.path(), "browse");
    assert_eq!(browse_id_of(&cont), "UCchannel");
    assert!(GetContinuationsQuery::from_continuation_params(None, &query).is_none());
}

#[test]
fn mock_continuation_has_empty_parameters() {
    let query = GetNewEpisodesQuery;
    let cont = GetContinuationsQuery::new_mock_unchecked(&query);
    let params = cont.params();
    assert_eq!(params[0], ("ctoken", String::new()));
    assert_eq!(params[1], ("continuation", String::new()));
    assert_eq!(browse_id_of(&cont), "VLRDPN");
    assert_eq!(ContinuationParams::from_raw("abc").get_raw(), "abc");
}
