//! What the interface marks, worked out from the state of the application.
use crate::app::App;
use crate::events::{to_upper, upper_case};
use crate::player::TrackInfo;
use crate::text::{decimal, push_decimal};
use crate::tidal::{clock_text, push_clock};
use vstd::prelude::*;
use vstd::string::*;

verus! {

/// How the status line is marked.
#[derive(Debug, Clone, Copy, PartialEq, Eq, Structural)]
pub enum StatusTone {
    /// Work is under way.
    Busy,
    /// The message reports a success or a track that plays (`✓`, `▶`).
    Good,
    /// The message reports a failure (`✗`).
    Bad,
    /// Any other message.
    Plain,
}

/// The mark of the status line while `loading` holds or not, with message
/// `msg`: its first character decides.
pub open spec fn tone_of(loading: bool, msg: Seq<char>) -> StatusTone {
    if loading {
        StatusTone::Busy
    } else if msg.len() > 0 && (msg[0] == '✓' || msg[0] == '▶') {
        StatusTone::Good
    } else if msg.len() > 0 && msg[0] == '✗' {
        StatusTone::Bad
    } else {
        StatusTone::Plain
    }
}

/// The id of the queued track at `index`, when there is one.
pub open spec fn playing_id(queue: Seq<crate::tidal::Track>, index: Option<usize>) -> Option<u64> {
    match index {
        Some(i) => if i < queue.len() { Some(queue[i as int].id) } else { None },
        None => None,
    }
}

/// What an empty list of tracks tells instead.
#[derive(Debug, Clone, Copy, PartialEq, Eq, Structural)]
pub enum ListHint {
    /// Tracks are being fetched.
    Loading,
    /// Nothing can be fetched before logging in.
    LoginNeeded,
    /// A search found nothing, or none was made.
    NoResults,
}

/// The hint of an empty list while `loading` holds or not, logged in
/// (`authenticated`) or not.
pub open spec fn hint_of(loading: bool, authenticated: bool) -> ListHint {
    if loading {
        ListHint::Loading
    } else if !authenticated {
        ListHint::LoginNeeded
    } else {
        ListHint::NoResults
    }
}

/// The bit depth, the sample rate in kHz and the codec of a stream, as
/// the player shows them: `24bit / 96kHz  FLAC` when `wide`, else
/// `24bit/96kHz FLAC`.
pub open spec fn quality_text_of(bit_depth: u32, sample_rate: u32, codec_upper: Seq<char>, wide: bool) -> Seq<char> {
    if wide {
        decimal(bit_depth as nat) + "bit / "@ + decimal((sample_rate / 1000) as nat) + "kHz  "@ + codec_upper
    } else {
        decimal(bit_depth as nat) + "bit/"@ + decimal((sample_rate / 1000) as nat) + "kHz "@ + codec_upper
    }
}

/// `secs` seconds as minutes and seconds, `m:ss`.
pub fn clock(secs: u64) -> (s: String)
    ensures
        s@ == clock_text(secs as nat),
{
    let mut s = String::new();
    push_clock(&mut s, secs);
    assert(s@ =~= clock_text(secs as nat));
    s
}

impl TrackInfo {
    /// The quality of the stream: bit depth, sample rate in kHz and codec
    /// in upper case.
    pub fn quality_text(&self, wide: bool) -> (s: String)
        ensures
            s@ == quality_text_of(self.bit_depth, self.sample_rate, upper_case(self.codec@), wide),
    {
        let mut s = String::new();
        push_decimal(&mut s, self.bit_depth as u64);
        if wide {
            s.append("bit / ");
        } else {
            s.append("bit/");
        }
        push_decimal(&mut s, (self.sample_rate / 1000) as u64);
        if wide {
            s.append("kHz  ");
        } else {
            s.append("kHz ");
        }
        let codec = to_upper(self.codec.as_str());
        s.append(codec.as_str());
        s
    }
}

impl App {
    /// What an empty list of tracks tells.
    pub fn list_hint(&self) -> (h: ListHint)
        ensures
            h == hint_of(self.loading, self.authenticated),
    {
        if self.loading {
            ListHint::Loading
        } else if !self.authenticated {
            ListHint::LoginNeeded
        } else {
            ListHint::NoResults
        }
    }

    /// The mark of the status line.
    pub fn status_tone(&self) -> (t: StatusTone)
        ensures
            t == tone_of(self.loading, self.status_msg@),
    {
        if self.loading {
            return StatusTone::Busy;
        }
        let s = self.status_msg.as_str();
        if s.unicode_len() == 0 {
            return StatusTone::Plain;
        }
        let c = s.get_char(0);
        if c == '✓' || c == '▶' {
            StatusTone::Good
        } else if c == '✗' {
            StatusTone::Bad
        } else {
            StatusTone::Plain
        }
    }

    /// The id of the track that the queue plays, which track lists mark.
    pub fn now_playing_id(&self) -> (r: Option<u64>)
        ensures
            r == playing_id(self.queue@, self.queue_index),
    {
        match self.queue_index {
            Some(i) => if i < self.queue.len() { Some(self.queue[i].id) } else { None },
            None => None,
        }
    }
}

} // verus!
