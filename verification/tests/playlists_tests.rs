use radiooooo_cli::playback::Links;
use radiooooo_cli::playlists::{
    Track, contributor_url, get_song_url, liked_songs_url, playlist_tracks_payload,
    playlist_tracks_url, playlists_url, track_play_url,
};

fn track(links: Option<Links>) -> Track {
    Track {
        id: "t1".to_string(),
        title: "Title".to_string(),
        artist: "Artist".to_string(),
        country: "FRA".to_string(),
        year: "1967".to_string(),
        mood: "SLOW".to_string(),
        links,
    }
}

#[test]
fn endpoint_urls_are_exact() {
    assert_eq!(
        playlists_url(),
        "https://app.radiooooo.com/playlist/list?profile_id=65aad4a7b041ab7470eaa5c1"
    );
    assert_eq!(track_play_url("abc123"), "https://app.radiooooo.com/track/play/abc123");
    assert_eq!(playlist_tracks_url(), "https://app.radiooooo.com/playlist/track/");
    assert_eq!(
        liked_songs_url(),
        "https://app.radiooooo.com/contributor/likes/65aad4a7b041ab7470eaa5c1"
    );
    assert_eq!(contributor_url("p9"), "https://app.radiooooo.com/contributor/p9");
}

#[test]
fn playlist_tracks_body_names_the_playlist() {
    assert_eq!(playlist_tracks_payload("pl1"), "{\"_id\":\"pl1\"}");
    assert_eq!(playlist_tracks_payload("a\"b"), "{\"_id\":\"a\\\"b\"}");
}

#[test]
fn song_url_needs_both_links_and_mpeg() {
    assert_eq!(
        get_song_url(&track(Some(Links { mpeg: Some("http://a/b.mp3".to_string()) }))),
        Some("http://a/b.mp3".to_string())
    );
    assert_eq!(get_song_url(&track(Some(Links { mpeg: None }))), None);
    assert_eq!(get_song_url(&track(None)), None);
}
