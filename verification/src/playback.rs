use vstd::prelude::*;
use vstd::string::StringExecFns;

verus! {

/// The exit status the external player process can come back with: a bare
/// success flag and the exit code where the platform reports one.
#[derive(Clone, Copy, Debug)]
pub struct PlayerOutcome {
    pub success: bool,
    pub code: Option<i32>,
}

/// The player exit code that stands for a graceful "no more content" stop.
pub const SKIP_EXIT_CODE: i32 = 4;

/// The links record of a track response.
#[derive(Debug)]
pub struct Links {
    pub mpeg: Option<String>,
}

impl View for Links {
    type V = Option<Seq<char>>;

    open spec fn view(&self) -> Option<Seq<char>> {
        match self.mpeg {
            Some(u) => Some(u@),
            None => None,
        }
    }
}

/// What the play endpoint answered: an error message, a stream link, and the
/// track's display fields, each optional.
#[derive(Debug)]
pub struct TrackResponse {
    pub error: Option<String>,
    pub links: Option<Links>,
    pub mood: Option<String>,
    pub title: Option<String>,
    pub artist: Option<String>,
    pub country: Option<String>,
    pub year: Option<String>,
    pub profile_id: Option<String>,
}

#[verifier::ext_equal]
pub ghost struct TrackResponseView {
    pub error: Option<Seq<char>>,
    pub links: Option<Option<Seq<char>>>,
    pub mood: Option<Seq<char>>,
    pub title: Option<Seq<char>>,
    pub artist: Option<Seq<char>>,
    pub country: Option<Seq<char>>,
    pub year: Option<Seq<char>>,
    pub profile_id: Option<Seq<char>>,
}

impl View for TrackResponse {
    type V = TrackResponseView;

    open spec fn view(&self) -> TrackResponseView {
        TrackResponseView {
            error: self.error.deep_view(),
            links: match self.links {
                Some(l) => Some(l@),
                None => None,
            },
            mood: self.mood.deep_view(),
            title: self.title.deep_view(),
            artist: self.artist.deep_view(),
            country: self.country.deep_view(),
            year: self.year.deep_view(),
            profile_id: self.profile_id.deep_view(),
        }
    }
}

/// The stream link a response carries, where it carries one.
pub open spec fn stream_link(r: TrackResponseView) -> Option<Seq<char>> {
    match r.links {
        Some(l) => l,
        None => None,
    }
}

/// Why a request for a track could not be answered with a response body.
#[derive(Clone, Copy, PartialEq, Eq, Structural, Debug)]
pub enum FetchError {
    Network,
    Decode,
}

/// Why the playback loop stopped.
#[derive(Debug, PartialEq)]
pub enum StopReason {
    Cancelled,
    Fetch(FetchError),
    Remote(String),
    PlayerSkip,
    PlayerFailure,
}

pub ghost enum StopReasonView {
    Cancelled,
    Fetch(FetchError),
    Remote(Seq<char>),
    PlayerSkip,
    PlayerFailure,
}

impl View for StopReason {
    type V = StopReasonView;

    open spec fn view(&self) -> StopReasonView {
        match self {
            StopReason::Cancelled => StopReasonView::Cancelled,
            StopReason::Fetch(f) => StopReasonView::Fetch(*f),
            StopReason::Remote(m) => StopReasonView::Remote(m@),
            StopReason::PlayerSkip => StopReasonView::PlayerSkip,
            StopReason::PlayerFailure => StopReasonView::PlayerFailure,
        }
    }
}

/// What ended the wait on an outstanding track request: the user's interrupt,
/// a transport or decoding failure, or the decoded response. The interrupt
/// carries no response at all, so a stale response can never be looked at.
pub enum RequestEvent {
    Interrupted,
    Failed(FetchError),
    Received(TrackResponse),
}

pub ghost enum RequestEventView {
    Interrupted,
    Failed(FetchError),
    Received(TrackResponseView),
}

impl View for RequestEvent {
    type V = RequestEventView;

    open spec fn view(&self) -> RequestEventView {
        match self {
            RequestEvent::Interrupted => RequestEventView::Interrupted,
            RequestEvent::Failed(f) => RequestEventView::Failed(*f),
            RequestEvent::Received(r) => RequestEventView::Received(r@),
        }
    }
}

/// Where the playback loop stands: waiting on a request, about to play a
/// stream link, or stopped for a reason.
#[derive(Debug, PartialEq)]
pub enum LoopState {
    Requesting,
    Playing(String),
    Stopped(StopReason),
}

pub ghost enum LoopStateView {
    Requesting,
    Playing(Seq<char>),
    Stopped(StopReasonView),
}

impl View for LoopState {
    type V = LoopStateView;

    open spec fn view(&self) -> LoopStateView {
        match self {
            LoopState::Requesting => LoopStateView::Requesting,
            LoopState::Playing(u) => LoopStateView::Playing(u@),
            LoopState::Stopped(r) => LoopStateView::Stopped(r@),
        }
    }
}

/// Whether a stop reason ends the process as a success: the user's own stop
/// and the player's skip code do; every failure does not.
pub open spec fn stop_is_success(r: StopReasonView) -> bool {
    match r {
        StopReasonView::Cancelled => true,
        StopReasonView::PlayerSkip => true,
        _ => false,
    }
}

/// Where the loop goes when the wait on a request ends: the interrupt stops
/// it cleanly; a transport or decoding failure stops it with that failure; a
/// response with an error message stops it with the remote error, whatever
/// else the response holds; a response without error and without stream link
/// sends it straight back to requesting; and a stream link moves it to
/// playing that link.
pub open spec fn requesting_step_spec(e: RequestEventView) -> LoopStateView {
    match e {
        RequestEventView::Interrupted => LoopStateView::Stopped(StopReasonView::Cancelled),
        RequestEventView::Failed(f) => LoopStateView::Stopped(StopReasonView::Fetch(f)),
        RequestEventView::Received(r) => match r.error {
            Some(m) => LoopStateView::Stopped(StopReasonView::Remote(m)),
            None => match stream_link(r) {
                Some(u) => LoopStateView::Playing(u),
                None => LoopStateView::Requesting,
            },
        },
    }
}

/// Decides the loop's next state from what ended the wait on a request.
pub fn requesting_step(e: RequestEvent) -> (s: LoopState)
    ensures
        s@ == requesting_step_spec(e@),
{
    match e {
        RequestEvent::Interrupted => LoopState::Stopped(StopReason::Cancelled),
        RequestEvent::Failed(f) => LoopState::Stopped(StopReason::Fetch(f)),
        RequestEvent::Received(r) => {
            let TrackResponse { error, links, .. } = r;
            match error {
                Some(m) => LoopState::Stopped(StopReason::Remote(m)),
                None => match links {
                    Some(l) => match l.mpeg {
                        Some(u) => LoopState::Playing(u),
                        None => LoopState::Requesting,
                    },
                    None => LoopState::Requesting,
                },
            }
        },
    }
}

/// Where the loop goes when the player exits: a successful exit asks for the
/// next track; the skip code stops the loop cleanly; any other failure stops
/// it as a player failure.
pub open spec fn playing_step_spec(o: PlayerOutcome) -> LoopStateView {
    if o.success {
        LoopStateView::Requesting
    } else if o.code == Some(SKIP_EXIT_CODE) {
        LoopStateView::Stopped(StopReasonView::PlayerSkip)
    } else {
        LoopStateView::Stopped(StopReasonView::PlayerFailure)
    }
}

/// Decides the loop's next state from the player's exit status.
pub fn playing_step(o: PlayerOutcome) -> (s: LoopState)
    ensures
        s@ == playing_step_spec(o),
{
    if o.success {
        LoopState::Requesting
    } else {
        match o.code {
            Some(c) if c == SKIP_EXIT_CODE => LoopState::Stopped(StopReason::PlayerSkip),
            _ => LoopState::Stopped(StopReason::PlayerFailure),
        }
    }
}

/// Whether a stop reason ends the process cleanly.
pub fn stop_exit_ok(r: &StopReason) -> (ok: bool)
    ensures
        ok == stop_is_success(r@),
{
    match r {
        StopReason::Cancelled => true,
        StopReason::PlayerSkip => true,
        _ => false,
    }
}

/// Display text substituted for any track-metadata field the service left out.
pub fn display_or_unknown(v: &Option<String>) -> (r: String)
    ensures
        match v {
            Some(s) => r@ == s@,
            None => r@ == "Unknown"@,
        },
{
    match v {
        Some(s) => s.clone(),
        None => String::from_str("Unknown"),
    }
}

/// The curator name shown for a track: what the profile lookup answered, or
/// the placeholder where the lookup failed or the field was missing.
pub fn curator_display_name(fetched: &Option<String>) -> (r: String)
    ensures
        match fetched {
            Some(s) => r@ == s@,
            None => r@ == "Unknown Profile"@,
        },
{
    match fetched {
        Some(s) => s.clone(),
        None => String::from_str("Unknown Profile"),
    }
}

/// The farewell printed when the player's skip code stops the loop.
pub fn farewell_line() -> (r: String)
    ensures
        r@ == "See you ;)"@,
{
    String::from_str("See you ;)")
}

/// A response that carries an error message stops the loop with exactly that
/// message, whatever link data it also carries, and the loop never reaches a
/// playing state from it; the stop is not a success.
pub proof fn lemma_remote_error_stops(r: TrackResponseView, m: Seq<char>)
    requires
        r.error == Some(m),
    ensures
        requesting_step_spec(RequestEventView::Received(r)) == LoopStateView::Stopped(
            StopReasonView::Remote(m),
        ),
        !stop_is_success(StopReasonView::Remote(m)),
{
}

/// A response without an error and without a stream link sends the loop
/// straight back to requesting: one more request, nothing stopped. The step
/// takes no selection at all, so the retried request is built from the same
/// selection as the one before it.
pub proof fn lemma_missing_link_retries(r: TrackResponseView)
    requires
        r.error is None,
        stream_link(r) is None,
    ensures
        requesting_step_spec(RequestEventView::Received(r)) == LoopStateView::Requesting,
{
}

/// The user's interrupt, arriving before any response, stops the loop as a
/// success; the interrupt event carries no response, so no stale response is
/// ever consumed for that request.
pub proof fn lemma_interrupt_stops_cleanly()
    ensures
        requesting_step_spec(RequestEventView::Interrupted) == LoopStateView::Stopped(
            StopReasonView::Cancelled,
        ),
        stop_is_success(StopReasonView::Cancelled),
{
}

/// The player's skip code stops the loop as a success, unlike every other
/// failing exit, which stops it as a player failure.
pub proof fn lemma_skip_code_stops_cleanly(o: PlayerOutcome)
    requires
        !o.success,
        o.code == Some(SKIP_EXIT_CODE),
    ensures
        playing_step_spec(o) == LoopStateView::Stopped(StopReasonView::PlayerSkip),
        stop_is_success(StopReasonView::PlayerSkip),
{
}

} // verus!
