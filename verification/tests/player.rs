use amai_music_player::player::{
    seek_commit, AudioCommand, CurrentTrack, Message, Player, DEFAULT_VOLUME,
};

fn sample_list() -> Vec<String> {
    vec![
        "m/alpha.mp3".to_string(),
        "m/Beta.ogg".to_string(),
        "m/gamma.mp3".to_string(),
    ]
}

#[test]
fn default_state_is_idle_at_half_volume() {
    let t = CurrentTrack::default();
    assert_eq!(t.index, None);
    assert!(!t.is_playing);
    assert_eq!(t.volume, DEFAULT_VOLUME);
    assert_eq!(t.duration_millis, 0);
    assert!(!t.has_handle);
}

#[test]
fn toggle_without_sound_does_nothing() {
    let mut t = CurrentTrack::default();
    let cmd = t.toggle();
    assert!(cmd.is_none());
    assert!(!t.is_playing);
}

#[test]
fn toggle_pauses_and_resumes() {
    let mut t = CurrentTrack::default();
    t.has_handle = true;
    t.is_playing = true;
    assert!(matches!(t.toggle(), Some(AudioCommand::Pause)));
    assert!(!t.is_playing);
    assert!(matches!(t.toggle(), Some(AudioCommand::Resume)));
    assert!(t.is_playing);
}

#[test]
fn volume_change_needs_a_sound() {
    let mut t = CurrentTrack::default();
    assert!(t.set_volume(80).is_none());
    assert_eq!(t.volume, DEFAULT_VOLUME);
    t.has_handle = true;
    assert!(matches!(t.set_volume(80), Some(AudioCommand::SetVolume { volume: 80 })));
    assert_eq!(t.volume, 80);
}

#[test]
fn play_request_loads_the_chosen_file() {
    let mut p = Player::new(sample_list());
    let cmd = p.update(Message::PlayTrack(1));
    match cmd {
        Some(AudioCommand::LoadAndPlay { index, path, stop_current }) => {
            assert_eq!(index, 1);
            assert_eq!(path, "m/Beta.ogg".to_string());
            assert!(!stop_current);
        },
        other => panic!("unexpected command: {:?}", other.is_some()),
    }
    p.finish_play(1, true, 30_000);
    assert_eq!(p.current_track.index, Some(1));
    assert!(p.current_track.is_playing);
    assert!(p.current_track.has_handle);
    assert_eq!(p.current_track.duration_millis, 30_000);
}

#[test]
fn play_request_stops_a_playing_sound_first() {
    let mut p = Player::new(sample_list());
    p.finish_play(0, true, 10_000);
    let cmd = p.update(Message::PlayTrack(2));
    match cmd {
        Some(AudioCommand::LoadAndPlay { index, stop_current, .. }) => {
            assert_eq!(index, 2);
            assert!(stop_current);
        },
        _ => panic!("expected a load command"),
    }
}

#[test]
fn play_request_aborts_when_playing_without_sound() {
    let mut p = Player::new(sample_list());
    p.finish_play(0, false, 10_000);
    assert!(p.current_track.is_playing);
    assert!(!p.current_track.has_handle);
    let cmd = p.update(Message::PlayTrack(2));
    assert!(cmd.is_none());
    assert_eq!(p.current_track.index, Some(0));
}

#[test]
fn seek_needs_a_sound_and_acceptance() {
    let mut p = Player::new(sample_list());
    assert!(p.update(Message::ChangePosition(5_000)).is_none());

    p.finish_play(0, true, 10_000);
    let cmd = p.update(Message::ChangePosition(5_000));
    assert!(matches!(cmd, Some(AudioCommand::SeekTo { position_millis: 5_000 })));

    p.confirm_seek(5_000, false);
    assert_eq!(p.position_millis, 0);
    p.confirm_seek(5_000, true);
    assert_eq!(p.position_millis, 5_000);
}

#[test]
fn seek_commit_moves_only_when_accepted() {
    let mut pos: u64 = 7;
    seek_commit(&mut pos, 99, false);
    assert_eq!(pos, 7);
    seek_commit(&mut pos, 99, true);
    assert_eq!(pos, 99);
}

#[test]
fn position_reading_updates_or_resets() {
    let mut p = Player::new(sample_list());
    assert!(p.update(Message::UpdatePosition(Some(1_500))).is_none());
    assert_eq!(p.position_millis, 1_500);
    assert!(p.update(Message::UpdatePosition(None)).is_none());
    assert_eq!(p.position_millis, 0);
}

#[test]
fn search_query_is_recorded() {
    let mut p = Player::new(sample_list());
    assert!(p.update(Message::SearchMusic("beta".to_string())).is_none());
    assert_eq!(p.search_query, "beta".to_string());
}

#[test]
fn visible_tracks_filter_case_insensitively() {
    let mut p = Player::new(sample_list());
    assert_eq!(p.visible_tracks(), vec![0, 1, 2]);

    p.update(Message::SearchMusic("BETA".to_string()));
    assert_eq!(p.visible_tracks(), vec![1]);

    p.update(Message::SearchMusic("mp3".to_string()));
    assert_eq!(p.visible_tracks(), vec![0, 2]);

    p.update(Message::SearchMusic("nothing".to_string()));
    assert_eq!(p.visible_tracks(), Vec::<usize>::new());
}

#[test]
fn play_button_label_follows_playback() {
    let mut p = Player::new(sample_list());
    assert_eq!(p.play_button_label(), "|>");
    p.finish_play(0, true, 10_000);
    assert_eq!(p.play_button_label(), "||");
}

#[test]
fn position_polling_follows_playback() {
    let mut p = Player::new(sample_list());
    assert!(!p.polls_position());
    p.finish_play(0, true, 10_000);
    assert!(p.polls_position());
    p.update(Message::TogglePlay);
    assert!(!p.polls_position());
}
