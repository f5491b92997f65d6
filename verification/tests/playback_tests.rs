use radiooooo_cli::playback::{
    FetchError, Links, LoopState, PlayerOutcome, RequestEvent, StopReason, TrackResponse,
    curator_display_name, display_or_unknown, farewell_line, playing_step, requesting_step,
    stop_exit_ok, SKIP_EXIT_CODE,
};

fn response(error: Option<&str>, mpeg: Option<&str>) -> TrackResponse {
    TrackResponse {
        error: error.map(|s| s.to_string()),
        links: Some(Links { mpeg: mpeg.map(|s| s.to_string()) }),
        mood: None,
        title: None,
        artist: None,
        country: None,
        year: None,
        profile_id: None,
    }
}

#[test]
fn remote_error_stops_even_with_link_data() {
    let next = requesting_step(RequestEvent::Received(response(Some("X"), Some("http://a/b.mp3"))));
    assert_eq!(next, LoopState::Stopped(StopReason::Remote("X".to_string())));
    assert!(!stop_exit_ok(&StopReason::Remote("X".to_string())));
}

#[test]
fn missing_link_retries_without_stopping() {
    let next = requesting_step(RequestEvent::Received(response(None, None)));
    assert_eq!(next, LoopState::Requesting);

    let mut no_links = response(None, None);
    no_links.links = None;
    let next = requesting_step(RequestEvent::Received(no_links));
    assert_eq!(next, LoopState::Requesting);
}

#[test]
fn stream_link_moves_to_playing() {
    let next = requesting_step(RequestEvent::Received(response(None, Some("http://a/b.mp3"))));
    assert_eq!(next, LoopState::Playing("http://a/b.mp3".to_string()));
}

#[test]
fn interrupt_stops_cleanly() {
    let next = requesting_step(RequestEvent::Interrupted);
    assert_eq!(next, LoopState::Stopped(StopReason::Cancelled));
    assert!(stop_exit_ok(&StopReason::Cancelled));
}

#[test]
fn transport_failures_stop_the_loop() {
    let next = requesting_step(RequestEvent::Failed(FetchError::Network));
    assert_eq!(next, LoopState::Stopped(StopReason::Fetch(FetchError::Network)));
    assert!(!stop_exit_ok(&StopReason::Fetch(FetchError::Network)));

    let next = requesting_step(RequestEvent::Failed(FetchError::Decode));
    assert_eq!(next, LoopState::Stopped(StopReason::Fetch(FetchError::Decode)));
    assert!(!stop_exit_ok(&StopReason::Fetch(FetchError::Decode)));
}

#[test]
fn skip_code_stops_with_farewell_and_success() {
    let next = playing_step(PlayerOutcome { success: false, code: Some(SKIP_EXIT_CODE) });
    assert_eq!(next, LoopState::Stopped(StopReason::PlayerSkip));
    assert!(stop_exit_ok(&StopReason::PlayerSkip));
    assert_eq!(farewell_line(), "See you ;)");
}

#[test]
fn player_success_continues_the_loop() {
    let next = playing_step(PlayerOutcome { success: true, code: Some(0) });
    assert_eq!(next, LoopState::Requesting);
}

#[test]
fn other_player_failures_stop_the_loop() {
    let next = playing_step(PlayerOutcome { success: false, code: Some(1) });
    assert_eq!(next, LoopState::Stopped(StopReason::PlayerFailure));
    assert!(!stop_exit_ok(&StopReason::PlayerFailure));

    let next = playing_step(PlayerOutcome { success: false, code: None });
    assert_eq!(next, LoopState::Stopped(StopReason::PlayerFailure));
}

#[test]
fn absent_metadata_displays_as_unknown() {
    assert_eq!(display_or_unknown(&None), "Unknown");
    assert_eq!(display_or_unknown(&Some("Oum Kalthoum".to_string())), "Oum Kalthoum");
}

#[test]
fn absent_curator_displays_as_unknown_profile() {
    assert_eq!(curator_display_name(&None), "Unknown Profile");
    assert_eq!(curator_display_name(&Some("dj".to_string())), "dj");
}
