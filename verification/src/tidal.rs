//! The catalogue model: audio qualities, tracks, albums, playlists, mixes,
//! stream descriptions and synchronised lyrics.
use crate::text::{decimal, join, push_decimal, push_two_digits, same_text, string_of, two_digits};
use vstd::prelude::*;
use vstd::string::*;

verus! {

/// An audio quality that Tidal can stream.
#[derive(Debug, Clone, Copy, PartialEq, Eq, Structural)]
pub enum Quality {
    HiResLossless,
    Lossless,
    High,
}

/// The name of a quality in Tidal's API.
pub open spec fn quality_api_name(q: Quality) -> Seq<char> {
    match q {
        Quality::HiResLossless => "HI_RES_LOSSLESS"@,
        Quality::Lossless => "LOSSLESS"@,
        Quality::High => "HIGH"@,
    }
}

/// The label of a quality shown to the user.
pub open spec fn quality_label(q: Quality) -> Seq<char> {
    match q {
        Quality::HiResLossless => "HiRes FLAC 24bit"@,
        Quality::Lossless => "FLAC 16bit/44.1kHz"@,
        Quality::High => "AAC 320kbps"@,
    }
}

impl Quality {
    /// The name of this quality in Tidal's API.
    pub fn as_api_str(&self) -> (s: &'static str)
        ensures
            s@ == quality_api_name(*self),
    {
        match self {
            Quality::HiResLossless => "HI_RES_LOSSLESS",
            Quality::Lossless => "LOSSLESS",
            Quality::High => "HIGH",
        }
    }

    /// The label of this quality shown to the user.
    pub fn label(&self) -> (s: &'static str)
        ensures
            s@ == quality_label(*self),
    {
        match self {
            Quality::HiResLossless => "HiRes FLAC 24bit",
            Quality::Lossless => "FLAC 16bit/44.1kHz",
            Quality::High => "AAC 320kbps",
        }
    }
}

/// Distinct qualities have distinct API names, so the daemon can tell them apart.
pub proof fn lemma_quality_names_distinct(a: Quality, b: Quality)
    requires
        a != b,
    ensures
        quality_api_name(a) != quality_api_name(b),
{
    reveal_strlit("HI_RES_LOSSLESS");
    reveal_strlit("LOSSLESS");
    reveal_strlit("HIGH");
    assert("HI_RES_LOSSLESS"@.len() != "LOSSLESS"@.len());
    assert("HI_RES_LOSSLESS"@.len() != "HIGH"@.len());
    assert("LOSSLESS"@.len() != "HIGH"@.len());
}

/// An artist of the catalogue.
#[derive(Debug)]
pub struct Artist {
    pub id: u64,
    pub name: String,
}

/// An album of the catalogue, as tracks and search results name it.
#[derive(Debug)]
pub struct Album {
    pub id: u64,
    pub title: String,
}

impl Clone for Artist {
    fn clone(&self) -> (r: Self)
        ensures
            r == *self,
    {
        Artist { id: self.id, name: self.name.clone() }
    }
}

impl Clone for Album {
    fn clone(&self) -> (r: Self)
        ensures
            r == *self,
    {
        Album { id: self.id, title: self.title.clone() }
    }
}

/// A track of the catalogue.
#[derive(Debug)]
pub struct Track {
    pub id: u64,
    pub title: String,
    pub duration: u64,
    pub track_number: Option<u32>,
    pub artists: Vec<Artist>,
    pub album: Album,
    pub audio_quality: Option<String>,
    pub explicit: Option<bool>,
}

/// What a track holds, as plain values.
pub struct TrackView {
    pub id: u64,
    pub title: Seq<char>,
    pub duration: u64,
    pub track_number: Option<u32>,
    pub artists: Seq<Artist>,
    pub album: Album,
    pub audio_quality: Option<Seq<char>>,
    pub explicit: Option<bool>,
}

/// The characters of an optional string.
pub open spec fn opt_text(o: Option<String>) -> Option<Seq<char>> {
    match o {
        Some(s) => Some(s@),
        None => None,
    }
}

impl View for Track {
    type V = TrackView;

    open spec fn view(&self) -> TrackView {
        TrackView {
            id: self.id,
            title: self.title@,
            duration: self.duration,
            track_number: self.track_number,
            artists: self.artists@,
            album: self.album,
            audio_quality: opt_text(self.audio_quality),
            explicit: self.explicit,
        }
    }
}

/// The views of a sequence of tracks.
pub open spec fn track_views(s: Seq<Track>) -> Seq<TrackView> {
    s.map_values(|t: Track| t@)
}

/// The names of some artists.
pub open spec fn artist_names_of(s: Seq<Artist>) -> Seq<Seq<char>> {
    s.map_values(|a: Artist| a.name@)
}

/// A copy of some artists.
pub fn clone_artists(v: &Vec<Artist>) -> (r: Vec<Artist>)
    ensures
        r@ == v@,
{
    let mut r: Vec<Artist> = Vec::new();
    let mut i: usize = 0;
    while i < v.len()
        invariant
            i <= v@.len(),
            r@ == v@.take(i as int),
        decreases v@.len() - i,
    {
        r.push(v[i].clone());
        assert(v@.take(i as int).push(v@[i as int]) =~= v@.take(i + 1));
        i = i + 1;
    }
    assert(v@.take(v@.len() as int) =~= v@);
    r
}

/// A copy of an optional string.
pub fn clone_opt_string(o: &Option<String>) -> (r: Option<String>)
    ensures
        r == *o,
{
    match o {
        Some(s) => Some(s.clone()),
        None => None,
    }
}

impl Clone for Track {
    fn clone(&self) -> (r: Self)
        ensures
            r@ == self@,
    {
        Track {
            id: self.id,
            title: self.title.clone(),
            duration: self.duration,
            track_number: self.track_number,
            artists: clone_artists(&self.artists),
            album: self.album.clone(),
            audio_quality: clone_opt_string(&self.audio_quality),
            explicit: self.explicit,
        }
    }
}

/// The names of `artists` joined with `", "`.
pub fn join_artist_names(artists: &Vec<Artist>) -> (s: String)
    ensures
        s@ == join(artist_names_of(artists@), ", "@),
{
    let mut s = String::new();
    let mut i: usize = 0;
    while i < artists.len()
        invariant
            i <= artists@.len(),
            s@ == join(artist_names_of(artists@.take(i as int)), ", "@),
        decreases artists@.len() - i,
    {
        let ghost prev = artist_names_of(artists@.take(i as int));
        let ghost next = artist_names_of(artists@.take(i + 1));
        assert(next.drop_last() =~= prev);
        assert(next.last() == artists@[i as int].name@);
        if i > 0 {
            s.append(", ");
        } else {
            assert(s@ =~= Seq::<char>::empty());
        }
        s.append(artists[i].name.as_str());
        i = i + 1;
    }
    assert(artists@.take(artists@.len() as int) =~= artists@);
    s
}

/// `m:ss` for a number of seconds.
pub open spec fn clock_text(secs: nat) -> Seq<char> {
    decimal(secs / 60) + seq![':'] + two_digits(secs % 60)
}

/// The symbol that marks the audio quality of a track.
pub open spec fn quality_icon_of(q: Option<Seq<char>>) -> Seq<char> {
    if q == Some("HI_RES_LOSSLESS"@) {
        "◈"@
    } else if q == Some("LOSSLESS"@) {
        "◆"@
    } else {
        "◇"@
    }
}

/// Appends `m:ss` for `secs` seconds to `out`.
pub fn push_clock(out: &mut String, secs: u64)
    ensures
        final(out)@ == old(out)@ + clock_text(secs as nat),
{
    push_decimal(out, secs / 60);
    proof {
        reveal_strlit(":");
    }
    out.append(":");
    push_two_digits(out, secs % 60);
}

impl Track {
    /// The artists' names, separated by `", "`.
    pub fn artist_names(&self) -> (s: String)
        ensures
            s@ == join(artist_names_of(self.artists@), ", "@),
    {
        join_artist_names(&self.artists)
    }

    /// The duration as `m:ss`.
    pub fn duration_str(&self) -> (s: String)
        ensures
            s@ == clock_text(self.duration as nat),
    {
        let mut s = String::new();
        push_clock(&mut s, self.duration);
        s
    }

    /// `◈` for hi-res, `◆` for lossless, `◇` otherwise.
    pub fn quality_icon(&self) -> (s: &'static str)
        ensures
            s@ == quality_icon_of(opt_text(self.audio_quality)),
    {
        match &self.audio_quality {
            Some(q) => {
                if same_text(q.as_str(), "HI_RES_LOSSLESS") {
                    "◈"
                } else if same_text(q.as_str(), "LOSSLESS") {
                    "◆"
                } else {
                    "◇"
                }
            },
            None => "◇",
        }
    }
}

/// An album of the user's collection.
#[derive(Debug)]
pub struct FavAlbum {
    pub id: u64,
    pub title: String,
    pub number_of_tracks: u32,
    pub duration: u64,
    pub artists: Vec<Artist>,
    pub cover_url: Option<String>,
}

impl FavAlbum {
    /// The artists' names, separated by `", "`.
    pub fn artist_names(&self) -> (s: String)
        ensures
            s@ == join(artist_names_of(self.artists@), ", "@),
    {
        join_artist_names(&self.artists)
    }
}

/// Where and how a track can be streamed.
#[derive(Debug)]
pub struct StreamInfo {
    pub url: String,
    pub bit_depth: u32,
    pub sample_rate: u32,
    pub codec: String,
}

/// The characters of an optional string, or `dflt` when it is absent.
pub open spec fn text_or(o: Option<Seq<char>>, dflt: Seq<char>) -> Seq<char> {
    match o {
        Some(s) => s,
        None => dflt,
    }
}

fn string_or(o: Option<String>, dflt: &str) -> (s: String)
    ensures
        s@ == text_or(opt_text(o), dflt@),
{
    match o {
        Some(s) => s,
        None => string_of(dflt),
    }
}

impl StreamInfo {
    /// The stream description read from the fields of the daemon's reply,
    /// with the defaults that stand for absent fields: no address, 16 bits,
    /// 44100 Hz, FLAC. Bit depth and sample rate keep their low 32 bits.
    pub fn from_reply(
        url: Option<String>,
        bit_depth: Option<u64>,
        sample_rate: Option<u64>,
        codec: Option<String>,
    ) -> (i: StreamInfo)
        ensures
            i.url@ == text_or(opt_text(url), ""@),
            i.codec@ == text_or(opt_text(codec), "flac"@),
            i.bit_depth == (match bit_depth {
                Some(b) => b as u32,
                None => 16u32,
            }),
            i.sample_rate == (match sample_rate {
                Some(r) => r as u32,
                None => 44100u32,
            }),
    {
        let bd: u64 = match bit_depth {
            Some(b) => b,
            None => 16,
        };
        let sr: u64 = match sample_rate {
            Some(r) => r,
            None => 44100,
        };
        StreamInfo {
            url: string_or(url, ""),
            codec: string_or(codec, "flac"),
            bit_depth: bd as u32,
            sample_rate: sr as u32,
        }
    }
}

/// The codes of a device login, read from the fields of the daemon's reply:
/// `(device_code, user_code, url)`, with `"pending"`, `""` and `""` for
/// absent fields.
pub fn device_auth_from_reply(
    url: Option<String>,
    code: Option<String>,
    device_code: Option<String>,
) -> (r: (String, String, String))
    ensures
        r.0@ == text_or(opt_text(device_code), "pending"@),
        r.1@ == text_or(opt_text(code), ""@),
        r.2@ == text_or(opt_text(url), ""@),
{
    (string_or(device_code, "pending"), string_or(code, ""), string_or(url, ""))
}

/// Where the cover of a track can be fetched.
#[derive(Debug)]
pub struct CoverInfo {
    pub url: String,
}

/// A playlist of the user's collection.
#[derive(Debug)]
pub struct Playlist {
    pub uuid: String,
    pub title: String,
    pub number_of_tracks: u32,
    pub duration: u64,
    pub playlist_type: String,
    pub public_playlist: Option<bool>,
    pub image: Option<String>,
    pub square_image: Option<String>,
}

/// A mix that Tidal made for the user.
#[derive(Debug)]
pub struct Mix {
    pub id: String,
    pub title: String,
    pub sub_title: Option<String>,
}

/// The results of a search, one list per kind of item.
#[derive(Debug)]
pub struct SearchResults {
    pub tracks: Vec<Track>,
    pub albums: Vec<Album>,
    pub artists: Vec<Artist>,
    pub playlists: Vec<Playlist>,
}

impl Default for SearchResults {
    fn default() -> (r: Self)
        ensures
            r.tracks@.len() == 0,
            r.albums@.len() == 0,
            r.artists@.len() == 0,
            r.playlists@.len() == 0,
    {
        SearchResults {
            tracks: Vec::new(),
            albums: Vec::new(),
            artists: Vec::new(),
            playlists: Vec::new(),
        }
    }
}

/// The error text of a daemon reply: for a reply with an `error` field,
/// its text (`error desconocido` when it is not a string); for one with
/// neither `error` nor `result`, `Respuesta inválida`; `None` for a reply
/// that carries a result. `error` is `None` without an `error` field, and
/// `Some(None)` when the field is not a string.
pub open spec fn reply_error_text(error: Option<Option<Seq<char>>>, has_result: bool) -> Option<Seq<char>> {
    match error {
        Some(Some(t)) => Some(t),
        Some(None) => Some("error desconocido"@),
        None => if has_result {
            None
        } else {
            Some("Respuesta inválida"@)
        },
    }
}

/// The error text of a daemon reply, as `reply_error_text` says.
pub fn reply_error(error: Option<Option<String>>, has_result: bool) -> (r: Option<String>)
    ensures
        opt_text(r) == reply_error_text(
            match error {
                Some(e) => Some(opt_text(e)),
                None => None,
            },
            has_result,
        ),
{
    match error {
        Some(Some(t)) => Some(t),
        Some(None) => Some(string_of("error desconocido")),
        None => if has_result {
            None
        } else {
            Some(string_of("Respuesta inválida"))
        },
    }
}

/// The error of the daemon's first reply, if it has an `error` field: its
/// text after `Daemon init error: ` (`unknown` when it is not a string).
pub fn init_error(error: Option<Option<String>>) -> (r: Option<String>)
    ensures
        opt_text(r) == match error {
            Some(Some(t)) => Some("Daemon init error: "@ + t@),
            Some(None) => Some("Daemon init error: unknown"@),
            None => None,
        },
{
    match error {
        Some(Some(t)) => {
            let mut m = string_of("Daemon init error: ");
            m.append(t.as_str());
            Some(m)
        },
        Some(None) => Some(string_of("Daemon init error: unknown")),
        None => None,
    }
}

} // verus!
