//! What the remote-control API and MPRIS report of the application, and
//! what their requests turn into.
use crate::app::{ApiCommand, ApiTrack, App, RepeatMode};
use crate::player::{PlayerState, TrackInfo, ELAPSED_MAX, NANOS_PER_SEC};
use crate::text::{same_text, string_of};
use crate::tidal::{clone_opt_string, opt_text, track_views, Track};
use vstd::prelude::*;
use vstd::string::*;

verus! {

/// How many tracks a search of the remote-control API returns when the
/// request names no limit.
pub fn default_limit() -> (n: usize)
    ensures
        n == 20,
{
    20
}

/// What the remote-control API and MPRIS report of the application.
#[derive(Debug)]
pub struct ApiStatus {
    /// `playing`, `paused` or `stopped`.
    pub state: String,
    pub title: Option<String>,
    pub artist: Option<String>,
    pub album: Option<String>,
    pub duration: Option<u64>,
    /// Whole seconds played.
    pub elapsed: u64,
    pub volume: u8,
    pub bit_depth: Option<u32>,
    pub sample_rate: Option<u32>,
    pub codec: Option<String>,
    pub shuffle: bool,
    pub repeat: RepeatMode,
    pub authenticated: bool,
    pub track_id: Option<u64>,
    pub queue: Vec<Track>,
    pub queue_index: Option<usize>,
}

/// The name of a player state in a status report.
pub open spec fn state_name(s: PlayerState) -> Seq<char> {
    match s {
        PlayerState::Playing => "playing"@,
        PlayerState::Paused => "paused"@,
        PlayerState::Stopped => "stopped"@,
    }
}

/// A field of the current track, when there is one.
pub open spec fn track_field<T>(current: Option<TrackInfo>, f: spec_fn(TrackInfo) -> T) -> Option<T> {
    match current {
        Some(t) => Some(f(t)),
        None => None,
    }
}

/// Whether `s` reports the state of `a`: the player's state and current
/// track, the whole seconds played, the volume, the modes, the login, the
/// track id and the queue with its current position.
pub open spec fn reports(s: ApiStatus, a: App) -> bool {
    let cur = a.player.current;
    &&& s.state@ == state_name(a.player.state)
    &&& opt_text(s.title) == track_field(cur, |t: TrackInfo| t.title@)
    &&& opt_text(s.artist) == track_field(cur, |t: TrackInfo| t.artist@)
    &&& opt_text(s.album) == track_field(cur, |t: TrackInfo| t.album@)
    &&& s.duration == track_field(cur, |t: TrackInfo| t.duration)
    &&& s.bit_depth == track_field(cur, |t: TrackInfo| t.bit_depth)
    &&& s.sample_rate == track_field(cur, |t: TrackInfo| t.sample_rate)
    &&& opt_text(s.codec) == track_field(cur, |t: TrackInfo| t.codec@)
    &&& s.elapsed == a.player.elapsed_nanos / NANOS_PER_SEC
    &&& s.volume == a.player.volume
    &&& s.shuffle == a.shuffle
    &&& s.repeat == a.repeat
    &&& s.authenticated == a.authenticated
    &&& s.track_id == a.current_track_id
    &&& track_views(s.queue@) == track_views(a.queue@)
    &&& s.queue_index == a.queue_index
}

impl App {
    /// A report of the application's state for the remote-control API and
    /// MPRIS.
    pub fn api_status_snapshot(&self) -> (s: ApiStatus)
        requires
            self.player.elapsed_nanos <= ELAPSED_MAX,
        ensures
            reports(s, *self),
    {
        let state = match self.player.state {
            PlayerState::Playing => string_of("playing"),
            PlayerState::Paused => string_of("paused"),
            PlayerState::Stopped => string_of("stopped"),
        };
        let (title, artist, album, duration, bit_depth, sample_rate, codec) = match &self.player.current {
            Some(t) => (
                Some(t.title.clone()),
                Some(t.artist.clone()),
                Some(t.album.clone()),
                Some(t.duration),
                Some(t.bit_depth),
                Some(t.sample_rate),
                Some(t.codec.clone()),
            ),
            None => (None, None, None, None, None, None, None),
        };
        let queue = crate::app::clone_tracks_from(&self.queue, 0);
        assert(self.queue@.skip(0) =~= self.queue@);
        ApiStatus {
            state,
            title,
            artist,
            album,
            duration,
            elapsed: self.player.elapsed_secs(),
            volume: self.player.volume,
            bit_depth,
            sample_rate,
            codec,
            shuffle: self.shuffle,
            repeat: self.repeat,
            authenticated: self.authenticated,
            track_id: self.current_track_id,
            queue,
            queue_index: self.queue_index,
        }
    }
}

/// The MPRIS playback status for a reported state.
pub open spec fn playback_status_of(state: Seq<char>) -> Seq<char> {
    if state == "playing"@ {
        "Playing"@
    } else if state == "paused"@ {
        "Paused"@
    } else {
        "Stopped"@
    }
}

/// The MPRIS loop status of a repeat mode.
pub open spec fn loop_status_of(r: RepeatMode) -> Seq<char> {
    match r {
        RepeatMode::Off => "None"@,
        RepeatMode::One => "Track"@,
        RepeatMode::All => "Playlist"@,
    }
}

/// The MPRIS object path that names the current track: by its id when it
/// is known, else by its position in the queue.
pub open spec fn track_path_of(track_id: Option<u64>, queue_index: Option<usize>) -> Option<Seq<char>> {
    match track_id {
        Some(id) => Some("/com/tuidal/track/"@ + crate::text::decimal(id as nat)),
        None => match queue_index {
            Some(i) => Some("/com/tuidal/track/queue/"@ + crate::text::decimal(i as nat)),
            None => None,
        },
    }
}

/// `x` divided by `d`, rounded toward zero.
pub open spec fn div_toward_zero(x: int, d: int) -> int {
    if x >= 0 {
        x / d
    } else {
        -((-x) / d)
    }
}

/// A count of microseconds in whole seconds, rounded toward zero.
pub fn micros_to_secs(us: i64) -> (s: i64)
    ensures
        s == div_toward_zero(us as int, 1_000_000),
{
    if us >= 0 {
        us / 1_000_000
    } else {
        let m: u64 = (-(us as i128)) as u64;
        let q: u64 = m / 1_000_000;
        -(q as i64)
    }
}

/// A position in microseconds as whole seconds from the start, rounded
/// toward zero; a negative count wraps around, as a cast to `u64` does.
pub fn position_secs(us: i64) -> (s: u64)
    ensures
        s == if div_toward_zero(us as int, 1_000_000) >= 0 {
            div_toward_zero(us as int, 1_000_000)
        } else {
            div_toward_zero(us as int, 1_000_000) + 0x1_0000_0000_0000_0000
        },
{
    let q = micros_to_secs(us);
    if q >= 0 {
        q as u64
    } else {
        u64::MAX - ((-(q + 1)) as u64)
    }
}

/// Whole seconds as microseconds.
pub fn secs_to_micros(secs: u64) -> (us: i64)
    requires
        secs * 1_000_000 <= i64::MAX,
    ensures
        us == secs * 1_000_000,
{
    (secs as i64) * 1_000_000
}

/// Whether the current track of the queue that `s` reports exists.
pub open spec fn has_current(s: ApiStatus) -> bool {
    match s.queue_index {
        Some(i) => i < s.queue@.len(),
        None => false,
    }
}

/// Whether `c` is what an MPRIS request to play asks for in the state `s`:
/// to resume what is paused; when stopped, to play the current track of
/// the queue if it exists; otherwise nothing.
pub open spec fn play_requested(s: ApiStatus, c: Option<ApiCommand>) -> bool {
    match c {
        Some(ApiCommand::PlayPause) => s.state@ == "paused"@,
        Some(ApiCommand::PlayTrack(t)) => {
            &&& s.state@ == "stopped"@
            &&& has_current(s)
            &&& crate::app::describes(t, s.queue@[s.queue_index.unwrap() as int]@)
        },
        Some(_) => false,
        None => s.state@ != "paused"@ && !(s.state@ == "stopped"@ && has_current(s)),
    }
}

impl ApiStatus {
    /// The MPRIS playback status: `Playing`, `Paused` or `Stopped`.
    pub fn playback_status(&self) -> (s: &'static str)
        ensures
            s@ == playback_status_of(self.state@),
    {
        if same_text(self.state.as_str(), "playing") {
            "Playing"
        } else if same_text(self.state.as_str(), "paused") {
            "Paused"
        } else {
            "Stopped"
        }
    }

    /// The MPRIS loop status: `None`, `Track` or `Playlist`.
    pub fn loop_status(&self) -> (s: &'static str)
        ensures
            s@ == loop_status_of(self.repeat),
    {
        match self.repeat {
            RepeatMode::Off => "None",
            RepeatMode::One => "Track",
            RepeatMode::All => "Playlist",
        }
    }

    /// The MPRIS object path of the current track, if any.
    pub fn track_path(&self) -> (p: Option<String>)
        ensures
            opt_text(p) == track_path_of(self.track_id, self.queue_index),
    {
        match self.track_id {
            Some(id) => {
                let mut p = string_of("/com/tuidal/track/");
                crate::text::push_decimal(&mut p, id);
                Some(p)
            },
            None => match self.queue_index {
                Some(i) => {
                    let mut p = string_of("/com/tuidal/track/queue/");
                    crate::text::push_decimal(&mut p, i as u64);
                    Some(p)
                },
                None => None,
            },
        }
    }

    /// What an MPRIS request to pause asks for: to toggle the pause when
    /// something plays, else nothing.
    pub fn pause_request(&self) -> (c: Option<ApiCommand>)
        ensures
            c is Some <==> self.state@ == "playing"@,
            c matches Some(k) ==> k is PlayPause,
    {
        if same_text(self.state.as_str(), "playing") {
            Some(ApiCommand::PlayPause)
        } else {
            None
        }
    }

    /// What an MPRIS request to play asks for: to resume what is paused;
    /// when stopped, to play the current track of the queue (if the queue
    /// has one); otherwise nothing.
    pub fn play_request(&self) -> (c: Option<ApiCommand>)
        ensures
            play_requested(*self, c),
    {
        proof {
            reveal_strlit("paused");
            reveal_strlit("stopped");
        }
        if same_text(self.state.as_str(), "paused") {
            Some(ApiCommand::PlayPause)
        } else if same_text(self.state.as_str(), "stopped") {
            match self.queue_index {
                Some(i) => if i < self.queue.len() {
                    Some(ApiCommand::PlayTrack(ApiTrack::from_track(&self.queue[i])))
                } else {
                    None
                },
                None => None,
            }
        } else {
            None
        }
    }
}

/// What MPRIS last announced, to tell which properties changed since.
#[derive(Debug)]
pub struct MprisWatch {
    pub state: String,
    pub volume: u8,
    pub repeat: RepeatMode,
    pub shuffle: bool,
    pub title: Option<String>,
    pub artist: Option<String>,
    pub album: Option<String>,
    pub duration: Option<u64>,
    pub track_id: Option<u64>,
}

/// Which MPRIS properties changed since the last announcement.
#[derive(Debug, Clone, Copy, PartialEq, Eq, Structural)]
pub struct MprisChanges {
    pub playback_status: bool,
    pub volume: bool,
    pub loop_status: bool,
    pub shuffle: bool,
    pub metadata: bool,
}

/// Whether `w` holds what `s` reports.
pub open spec fn watches(w: MprisWatch, s: ApiStatus) -> bool {
    &&& w.state@ == s.state@
    &&& w.volume == s.volume
    &&& w.repeat == s.repeat
    &&& w.shuffle == s.shuffle
    &&& opt_text(w.title) == opt_text(s.title)
    &&& opt_text(w.artist) == opt_text(s.artist)
    &&& opt_text(w.album) == opt_text(s.album)
    &&& w.duration == s.duration
    &&& w.track_id == s.track_id
}

/// Whether two optional strings hold the same text.
fn same_opt_text(a: &Option<String>, b: &Option<String>) -> (r: bool)
    ensures
        r == (opt_text(*a) == opt_text(*b)),
{
    match (a, b) {
        (Some(x), Some(y)) => same_text(x.as_str(), y.as_str()),
        (None, None) => true,
        _ => false,
    }
}

impl MprisWatch {
    /// What MPRIS holds before its first announcement: no state, volume 0,
    /// no repetition, no shuffle, no track.
    pub fn new() -> (w: Self)
        ensures
            w.state@.len() == 0,
            w.volume == 0,
            w.repeat == RepeatMode::Off,
            !w.shuffle,
            w.title is None,
            w.artist is None,
            w.album is None,
            w.duration is None,
            w.track_id is None,
    {
        MprisWatch {
            state: String::new(),
            volume: 0,
            repeat: RepeatMode::Off,
            shuffle: false,
            title: None,
            artist: None,
            album: None,
            duration: None,
            track_id: None,
        }
    }

    /// Compares the report `s` with what was announced last, takes it on,
    /// and tells which properties must be announced anew: the playback
    /// status, the volume, the loop status, the shuffle, and the metadata
    /// (title, artist, album, length or track id).
    pub fn observe(&mut self, s: &ApiStatus) -> (c: MprisChanges)
        ensures
            watches(*final(self), *s),
            c.playback_status == (old(self).state@ != s.state@),
            c.volume == (old(self).volume != s.volume),
            c.loop_status == (old(self).repeat != s.repeat),
            c.shuffle == (old(self).shuffle != s.shuffle),
            c.metadata == (opt_text(old(self).title) != opt_text(s.title) || opt_text(old(self).artist)
                != opt_text(s.artist) || opt_text(old(self).album) != opt_text(s.album) || old(self).duration
                != s.duration || old(self).track_id != s.track_id),
    {
        let playback_status = !same_text(self.state.as_str(), s.state.as_str());
        let volume = self.volume != s.volume;
        let loop_status = self.repeat != s.repeat;
        let shuffle = self.shuffle != s.shuffle;
        let metadata = !same_opt_text(&self.title, &s.title) || !same_opt_text(&self.artist, &s.artist)
            || !same_opt_text(&self.album, &s.album) || self.duration != s.duration || self.track_id
            != s.track_id;
        self.state = s.state.clone();
        self.volume = s.volume;
        self.repeat = s.repeat;
        self.shuffle = s.shuffle;
        self.title = clone_opt_string(&s.title);
        self.artist = clone_opt_string(&s.artist);
        self.album = clone_opt_string(&s.album);
        self.duration = s.duration;
        self.track_id = s.track_id;
        MprisChanges { playback_status, volume, loop_status, shuffle, metadata }
    }
}

/// Once a report was taken on, taking on the same report again announces
/// nothing.
pub proof fn lemma_watch_settles(w: MprisWatch, s: ApiStatus)
    requires
        watches(w, s),
    ensures
        w.state@ == s.state@,
        w.volume == s.volume,
        w.repeat == s.repeat,
        w.shuffle == s.shuffle,
        !(opt_text(w.title) != opt_text(s.title) || opt_text(w.artist) != opt_text(s.artist)
            || opt_text(w.album) != opt_text(s.album) || w.duration != s.duration || w.track_id
            != s.track_id),
{
}


/// The status reports each state of the player by its own name: `paused`
/// exactly when the player is paused, `playing` exactly when it plays,
/// `stopped` exactly when it is stopped; MPRIS then reports `Paused`,
/// `Playing` or `Stopped` alike.
pub proof fn lemma_reported_state(s: ApiStatus, a: App)
    requires
        reports(s, a),
    ensures
        s.state@ == "paused"@ <==> a.player.state == PlayerState::Paused,
        s.state@ == "playing"@ <==> a.player.state == PlayerState::Playing,
        s.state@ == "stopped"@ <==> a.player.state == PlayerState::Stopped,
        a.player.state == PlayerState::Paused ==> playback_status_of(s.state@) == "Paused"@,
        a.player.state == PlayerState::Playing ==> playback_status_of(s.state@) == "Playing"@,
        a.player.state == PlayerState::Stopped ==> playback_status_of(s.state@) == "Stopped"@,
{
    reveal_strlit("paused");
    reveal_strlit("playing");
    reveal_strlit("stopped");
    assert("paused"@ != "playing"@) by {
        assert("paused"@[1] != "playing"@[1]);
    }
    assert("paused"@ != "stopped"@) by {
        assert("paused"@[0] != "stopped"@[0]);
    }
    assert("playing"@ != "stopped"@) by {
        assert("playing"@[0] != "stopped"@[0]);
    }
}

} // verus!
