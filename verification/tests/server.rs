use youtui::server::{song_playback_metadata, PausePlay, TaskMetadata};

#[test]
fn task_metadata_groups() {
    assert_eq!(PausePlay::metadata(), vec![TaskMetadata::PlayPause]);
    assert_eq!(song_playback_metadata(), vec![TaskMetadata::PlayingSong]);
}
