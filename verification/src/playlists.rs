use vstd::prelude::*;
use vstd::string::StringExecFns;

use crate::payload::json_string;
use crate::playback::Links;

verus! {

/// The identifier the service expects where no profile was chosen.
pub fn default_profile_id() -> (r: &'static str)
    ensures
        r@ == "65aad4a7b041ab7470eaa5c1"@,
{
    "65aad4a7b041ab7470eaa5c1"
}

/// The endpoint listing the profile's playlists; the profile identifier is
/// appended as its query value.
pub fn playlists_url() -> (r: String)
    ensures
        r@ == "https://app.radiooooo.com/playlist/list?profile_id="@
            + "65aad4a7b041ab7470eaa5c1"@,
{
    let mut out = String::from_str("https://app.radiooooo.com/playlist/list?profile_id=");
    out.append(default_profile_id());
    out
}

/// The endpoint a track's play record is read from, with the track identifier
/// appended.
pub fn track_play_url(track_id: &str) -> (r: String)
    ensures
        r@ == "https://app.radiooooo.com/track/play/"@ + track_id@,
{
    let mut out = String::from_str("https://app.radiooooo.com/track/play/");
    out.append(track_id);
    out
}

/// The endpoint a playlist's tracks are read from; the playlist identifier
/// travels in the request body instead.
pub fn playlist_tracks_url() -> (r: &'static str)
    ensures
        r@ == "https://app.radiooooo.com/playlist/track/"@,
{
    "https://app.radiooooo.com/playlist/track/"
}

/// The endpoint listing the profile's liked tracks.
pub fn liked_songs_url() -> (r: String)
    ensures
        r@ == "https://app.radiooooo.com/contributor/likes/"@ + "65aad4a7b041ab7470eaa5c1"@,
{
    let mut out = String::from_str("https://app.radiooooo.com/contributor/likes/");
    out.append(default_profile_id());
    out
}

/// The endpoint a contributor's profile is read from, for the curator name.
pub fn contributor_url(profile_id: &str) -> (r: String)
    ensures
        r@ == "https://app.radiooooo.com/contributor/"@ + profile_id@,
{
    let mut out = String::from_str("https://app.radiooooo.com/contributor/");
    out.append(profile_id);
    out
}

/// The body naming a playlist to the playlist-tracks endpoint.
pub fn playlist_tracks_payload(playlist_id: &str) -> (r: String)
    ensures
        r@ == "{\"_id\":"@ + json_string(playlist_id@) + "}"@,
{
    let mut out = String::from_str("{\"_id\":");
    crate::payload::append_json_string(&mut out, playlist_id);
    out.append("}");
    out
}

/// A playlist as the playlist-list endpoint names it.
#[derive(Debug)]
pub struct PlaylistInfo {
    pub id: String,
    pub name: String,
}

#[verifier::ext_equal]
pub ghost struct PlaylistInfoView {
    pub id: Seq<char>,
    pub name: Seq<char>,
}

impl View for PlaylistInfo {
    type V = PlaylistInfoView;

    open spec fn view(&self) -> PlaylistInfoView {
        PlaylistInfoView { id: self.id@, name: self.name@ }
    }
}

/// One track of a playlist, with its display fields and its links record.
#[derive(Debug)]
pub struct Track {
    pub id: String,
    pub title: String,
    pub artist: String,
    pub country: String,
    pub year: String,
    pub mood: String,
    pub links: Option<Links>,
}

#[verifier::ext_equal]
pub ghost struct TrackView {
    pub id: Seq<char>,
    pub title: Seq<char>,
    pub artist: Seq<char>,
    pub country: Seq<char>,
    pub year: Seq<char>,
    pub mood: Seq<char>,
    pub links: Option<Option<Seq<char>>>,
}

impl View for Track {
    type V = TrackView;

    open spec fn view(&self) -> TrackView {
        TrackView {
            id: self.id@,
            title: self.title@,
            artist: self.artist@,
            country: self.country@,
            year: self.year@,
            mood: self.mood@,
            links: match self.links {
                Some(l) => Some(l@),
                None => None,
            },
        }
    }
}

/// The views of a sequence of tracks, in order.
pub open spec fn track_views(s: Seq<Track>) -> Seq<TrackView> {
    Seq::new(s.len(), |i: int| s[i]@)
}

/// A playlist with its tracks resolved.
#[derive(Debug)]
pub struct Playlist {
    pub id: String,
    pub name: String,
    pub tracks: Vec<Track>,
}

#[verifier::ext_equal]
pub ghost struct PlaylistView {
    pub id: Seq<char>,
    pub name: Seq<char>,
    pub tracks: Seq<TrackView>,
}

impl View for Playlist {
    type V = PlaylistView;

    open spec fn view(&self) -> PlaylistView {
        PlaylistView { id: self.id@, name: self.name@, tracks: track_views(self.tracks@) }
    }
}

/// One liked track of a profile.
#[derive(Debug)]
pub struct LikedTrack {
    pub id: String,
    pub title: String,
    pub artist: String,
    pub country: String,
    pub year: String,
    pub mood: String,
}

#[verifier::ext_equal]
pub ghost struct LikedTrackView {
    pub id: Seq<char>,
    pub title: Seq<char>,
    pub artist: Seq<char>,
    pub country: Seq<char>,
    pub year: Seq<char>,
    pub mood: Seq<char>,
}

impl View for LikedTrack {
    type V = LikedTrackView;

    open spec fn view(&self) -> LikedTrackView {
        LikedTrackView {
            id: self.id@,
            title: self.title@,
            artist: self.artist@,
            country: self.country@,
            year: self.year@,
            mood: self.mood@,
        }
    }
}

/// The stream URL a track's links record carries, where it carries one.
pub open spec fn track_link(t: TrackView) -> Option<Seq<char>> {
    match t.links {
        Some(l) => l,
        None => None,
    }
}

/// The playable URL of a track: the mpeg link of its links record, where both
/// are present.
pub fn get_song_url(track: &Track) -> (r: Option<String>)
    ensures
        r.deep_view() == track_link(track@),
{
    match &track.links {
        Some(l) => match &l.mpeg {
            Some(u) => Some(u.clone()),
            None => None,
        },
        None => None,
    }
}

} // verus!
