//! The application's state and every decision it takes: what a key, a
//! finished background task or a remote command does to the state, and what
//! work it hands out. The work itself (requests to the Tidal daemon, the
//! audio process, the browser, the settings file) is queued as effects for
//! the runtime to perform.
use crate::i18n::{
    lang_changed_text, loading_album_text, loading_stream_text, next_lang, quality_changed_text,
    searching_more_text, searching_text, texts_of, Lang,
};
use crate::library::{is_fresh_library, LibraryFocus, LibrarySection, LibraryState, LibraryViewing};
use crate::lyrics::Lyrics;
use crate::player::{Player, PlayerState};
use crate::search::{
    is_fresh_search, results_len, search_section_index, SearchFocus, SearchSection, SearchState,
};
use crate::text::string_of;
use crate::tidal::{
    quality_api_name, quality_label, track_views, CoverInfo, Quality, Track, TrackView,
};
use vstd::prelude::*;
use vstd::string::*;

verus! {

/// The size of a page of search results.
pub const PAGE_SIZE: usize = 10;

/// The offset past which no further page of a section is requested.
pub const MAX_OFFSET: usize = 300;

/// Whether keys edit the search input or drive the interface.
#[derive(Debug, Clone, Copy, PartialEq, Eq, Structural)]
pub enum InputMode {
    Normal,
    Search,
}

/// A tab of the interface.
#[derive(Debug, Clone, Copy, PartialEq, Eq, Structural)]
pub enum Tab {
    Search,
    Queue,
    Now,
    Library,
}

/// How the queue repeats.
#[derive(Debug, Clone, Copy, PartialEq, Eq, Structural)]
pub enum RepeatMode {
    Off,
    One,
    All,
}

impl Default for RepeatMode {
    fn default() -> (r: Self)
        ensures
            r == RepeatMode::All,
    {
        RepeatMode::All
    }
}

/// A track as the remote-control API and MPRIS describe it.
#[derive(Debug)]
pub struct ApiTrack {
    pub id: u64,
    pub title: String,
    pub artist: String,
    pub album: String,
    pub duration: u64,
}

/// Whether the remote description `t` describes the track `v`: its id,
/// title, artists' names joined by `", "`, album title and length.
pub open spec fn describes(t: ApiTrack, v: TrackView) -> bool {
    &&& t.id == v.id
    &&& t.title@ == v.title
    &&& t.artist@ == crate::text::join(crate::tidal::artist_names_of(v.artists), ", "@)
    &&& t.album@ == v.album.title@
    &&& t.duration == v.duration
}

impl ApiTrack {
    /// The remote description of a track.
    pub fn from_track(t: &Track) -> (a: ApiTrack)
        ensures
            describes(a, t@),
    {
        ApiTrack {
            id: t.id,
            title: t.title.clone(),
            artist: t.artist_names(),
            album: t.album.title.clone(),
            duration: t.duration,
        }
    }
}

/// A command from the remote-control API or MPRIS.
#[derive(Debug)]
pub enum ApiCommand {
    PlayPause,
    Next,
    Prev,
    VolumeUp,
    VolumeDown,
    VolumeSet(u8),
    SeekForward,
    SeekBackward,
    PlayTrack(ApiTrack),
    ToggleShuffle,
    CycleRepeat,
    Stop,
    Seek(i64),
    SetPosition(u64),
}

/// The preferences that are kept between sessions.
#[derive(Debug, Clone, Copy, PartialEq, Eq, Structural)]
pub struct Settings {
    pub lang: Lang,
    pub quality: Quality,
    pub volume: u8,
}

/// Work that the application hands to its runtime.
#[derive(Debug)]
pub enum Effect {
    /// Search Tidal: a first page of every section when `section` is `None`,
    /// else a further page of that section; answer with `SearchDone` or
    /// `SearchMoreDone` carrying `generation`.
    Search { query: String, limit: usize, offset: usize, generation: u64, section: Option<SearchSection> },
    /// Fetch the stream of `track` at `quality`; answer with `StreamReady` or
    /// `StreamError` carrying `queue_index` and `generation`.
    Stream { quality: String, track: Track, queue_index: usize, generation: u64 },
    /// Fetch the lyrics of a track; answer with `LyricsReady` or `LyricsError`.
    Lyrics { track_id: u64 },
    /// Fetch and decode the cover of a track; answer with `CoverReady` or `CoverError`.
    Cover { track_id: u64 },
    /// Drop the rendering of the cover, which is gone.
    ClearCover,
    /// Start the rendering of the cover over, for a new image.
    ShowNewCover,
    /// Start a device login; answer with `AuthStarted` or `AuthError`.
    StartAuth,
    /// Ask whether the device login completed; answer with `AuthDone` or a status message.
    PollAuth,
    /// Fetch the user's playlists and mixes; answer with `LibraryLoaded`.
    LoadLibrary,
    /// Fetch the tracks of a playlist; answer with `PlaylistTracksLoaded` or `StreamError`.
    PlaylistTracks { uuid: String },
    /// Fetch the tracks of a mix; answer with `PlaylistTracksLoaded` or `StreamError`.
    MixTracks { mix_id: String },
    /// Fetch the favourite tracks; answer with `FavTracksLoaded` or `StreamError`.
    FavTracks,
    /// Fetch the favourite albums; answer with `FavAlbumsLoaded` or `StreamError`.
    FavAlbums,
    /// Fetch the tracks of an album; answer with `PlaylistTracksLoaded` or `StreamError`.
    AlbumTracks { album_id: u64 },
    /// Tell the daemon the audio quality to stream at.
    SetQuality { quality: String },
    /// Write the preferences to the settings file.
    SaveSettings(Settings),
    /// Open the login page in a browser and report the outcome to `browser_result`.
    OpenBrowser { url: String },
}

/// A decoded image, carried through unread.
#[verifier::external_type_specification]
#[verifier::external_body]
pub struct ExDynamicImage(image::DynamicImage);

/// What the application knows and shows.
#[derive(Debug)]
pub struct App {
    pub player: Player,
    pub input_mode: InputMode,
    pub active_tab: Tab,
    pub search: SearchState,
    pub queue: Vec<Track>,
    pub selected: usize,
    pub queue_index: Option<usize>,
    pub authenticated: bool,
    pub status_msg: String,
    pub loading: bool,
    pub auto_advance: bool,
    pub should_quit: bool,
    pub show_help: bool,
    pub device_code: Option<String>,
    pub user_code: Option<String>,
    pub auth_url: Option<String>,
    pub cover_info: Option<CoverInfo>,
    pub cover_image: Option<image::DynamicImage>,
    pub current_track_id: Option<u64>,
    pub stream_generation: u64,
    pub search_generation: u64,
    pub library: LibraryState,
    pub lang: Lang,
    pub quality: Quality,
    pub shuffle: bool,
    pub repeat: RepeatMode,
    pub lyrics: Option<Lyrics>,
    pub effects: Vec<Effect>,
}

/// Whether `new` is `old` with exactly one effect more, at the end.
pub open spec fn pushed_one(new: Seq<Effect>, old: Seq<Effect>) -> bool {
    new.len() == old.len() + 1 && new.drop_last() == old
}

/// Whether `after` is `before` switched to the next language, announced
/// and saved.
pub open spec fn lang_cycled(before: App, after: App) -> bool {
    &&& after == (App {
        lang: next_lang(before.lang),
        status_msg: after.status_msg,
        effects: after.effects,
        ..before
    })
    &&& after.status_msg@ == lang_changed_text(next_lang(before.lang))
    &&& after.effects@ == before.effects@.push(
        Effect::SaveSettings(after.settings_of()),
    )
}

impl App {
    /// A fresh application: Spanish, lossless, repeating the whole queue,
    /// on the search tab, with nothing loaded and nothing playing.
    pub fn new() -> (a: Self)
        ensures
            a.player.state == PlayerState::Stopped,
            a.player.current is None,
            a.player.volume == 85,
            a.player.elapsed_nanos == 0,
            !a.player.clock_running,
            a.player.pos_skip == 0,
            !a.player.has_process,
            a.player.commands@.len() == 0,
            a.input_mode == InputMode::Normal,
            a.active_tab == Tab::Search,
            is_fresh_search(a.search),
            a.queue@.len() == 0,
            a.selected == 0,
            a.queue_index is None,
            !a.authenticated,
            a.status_msg@.len() == 0,
            !a.loading,
            !a.auto_advance,
            !a.should_quit,
            !a.show_help,
            a.device_code is None,
            a.user_code is None,
            a.auth_url is None,
            a.cover_info is None,
            a.cover_image is None,
            a.current_track_id is None,
            a.stream_generation == 0,
            a.search_generation == 0,
            is_fresh_library(a.library),
            a.lang == Lang::Es,
            a.quality == Quality::Lossless,
            !a.shuffle,
            a.repeat == RepeatMode::All,
            a.lyrics is None,
            a.effects@.len() == 0,
    {
        App {
            player: Player::new(),
            input_mode: InputMode::Normal,
            active_tab: Tab::Search,
            search: SearchState::new(),
            queue: Vec::new(),
            selected: 0,
            queue_index: None,
            authenticated: false,
            status_msg: String::new(),
            loading: false,
            auto_advance: false,
            should_quit: false,
            show_help: false,
            device_code: None,
            user_code: None,
            auth_url: None,
            cover_info: None,
            cover_image: None,
            current_track_id: None,
            stream_generation: 0,
            search_generation: 0,
            library: LibraryState::new(),
            lang: Lang::Es,
            quality: Quality::Lossless,
            shuffle: false,
            repeat: RepeatMode::All,
            lyrics: None,
            effects: Vec::new(),
        }
    }

    /// The preferences as they stand.
    pub open spec fn settings_of(self) -> Settings {
        Settings { lang: self.lang, quality: self.quality, volume: self.player.volume }
    }

    fn save_settings(&mut self)
        ensures
            *final(self) == (App { effects: final(self).effects, ..*old(self) }),
            final(self).effects@ == old(self).effects@.push(Effect::SaveSettings(old(self).settings_of())),
    {
        let settings = Settings { lang: self.lang, quality: self.quality, volume: self.player.volume };
        self.effects.push(Effect::SaveSettings(settings));
    }

    /// Switches to the next language and saves the preferences.
    pub fn cycle_lang(&mut self)
        ensures
            lang_cycled(*old(self), *final(self)),
    {
        self.lang = self.lang.cycle();
        self.status_msg = self.lang.lang_changed();
        self.save_settings();
    }
}


/// The queue position after the track at `index` leaves the queue: later
/// positions move up by one, and the first position stays first.
pub open spec fn index_after_removal(qi: Option<usize>, index: usize) -> Option<usize> {
    match qi {
        Some(i) => if i >= index {
            Some(if i >= 1 { (i - 1) as usize } else { 0usize })
        } else {
            Some(i)
        },
        None => None,
    }
}

/// Whether `after` is `before` once the stream of the track `t`, at queue
/// position `qi`, has been requested: a new stream generation, the player
/// stopped, cover and lyrics forgotten, and the request queued after the
/// order to drop the cover image. The status line is left to the caller.
pub open spec fn streams(before: App, after: App, t: TrackView, qi: usize) -> bool {
    let n = before.effects@.len();
    &&& after == (App {
        player: after.player,
        auto_advance: false,
        stream_generation: (before.stream_generation + 1) as u64,
        queue_index: Some(qi),
        loading: true,
        status_msg: after.status_msg,
        cover_info: None,
        cover_image: None,
        lyrics: None,
        effects: after.effects,
        ..before
    })
    &&& crate::player::stopped_from(after.player, before.player)
    &&& after.effects@.len() == n + 2
    &&& after.effects@.take(n as int) == before.effects@
    &&& after.effects@[n as int] is ClearCover
    &&& after.effects@[n + 1int] matches Effect::Stream { quality, track, queue_index, generation } && quality@
        == quality_api_name(before.quality) && track@ == t && queue_index == qi && generation
        == before.stream_generation + 1
}

/// `Eliminada: ` and the title of a removed track.
pub open spec fn removed_text(title: Seq<char>) -> Seq<char> {
    "Eliminada: "@ + title
}

/// Whether `after` follows from `before` once the track at `index` leaves
/// the queue: out of bounds nothing changes; when it was the playing one,
/// the track taking its place plays (the first one when the last was
/// removed), and with an empty queue the player stops.
pub open spec fn queue_removed(before: App, after: App, index: usize) -> bool {
    &&& index >= before.queue@.len() ==> after == before
    &&& index < before.queue@.len() ==> {
        let removed = App {
            queue: after.queue,
            queue_index: index_after_removal(before.queue_index, index),
            ..before
        };
        &&& after.queue@ == before.queue@.remove(index as int)
        &&& after.status_msg@ == removed_text(before.queue@[index as int].title@)
        &&& before.queue_index != Some(index) ==> after == (App {
            status_msg: after.status_msg,
            ..removed
        })
        &&& before.queue_index == Some(index) ==> replaced_playing(removed, after, index)
    }
}

impl App {
    /// Requests the stream of `track`, which is at `queue_index` in the
    /// queue, stopping what plays.
    pub fn stream_track_bg(&mut self, track: Track, queue_index: usize)
        requires
            old(self).stream_generation < u64::MAX,
        ensures
            streams(*old(self), *final(self), track@, queue_index),
            final(self).status_msg@ == loading_stream_text(old(self).lang, track@.title),
    {
        self.auto_advance = false;
        self.stream_generation = self.stream_generation + 1;
        let generation = self.stream_generation;
        self.queue_index = Some(queue_index);
        self.loading = true;
        self.status_msg = self.lang.loading_stream(track.title.as_str());
        self.cover_info = None;
        self.cover_image = None;
        self.lyrics = None;
        let ghost n = self.effects@.len();
        self.effects.push(Effect::ClearCover);
        self.player.stop();
        let quality = string_of(self.quality.as_api_str());
        self.effects.push(Effect::Stream { quality, track, queue_index, generation });
        assert(self.effects@.take(n as int) =~= old(self).effects@);
    }

    /// Removes the track at `index` from `queue` and moves `queue_index`
    /// accordingly; returns the removed track, or `None` when `index` is
    /// out of bounds, in which case nothing changes.
    pub fn remove_queue_index(
        queue: &mut Vec<Track>,
        queue_index: &mut Option<usize>,
        index: usize,
    ) -> (removed: Option<Track>)
        ensures
            index >= old(queue)@.len() ==> removed is None && *final(queue) == *old(queue)
                && *final(queue_index) == *old(queue_index),
            index < old(queue)@.len() ==> removed == Some(old(queue)@[index as int])
                && final(queue)@ == old(queue)@.remove(index as int) && *final(queue_index)
                == index_after_removal(*old(queue_index), index),
    {
        if index >= queue.len() {
            return None;
        }
        let removed = queue.remove(index);
        match queue_index {
            Some(i) => {
                if *i >= index {
                    *i = if *i >= 1 { *i - 1 } else { 0 };
                }
            },
            None => {},
        }
        Some(removed)
    }

    /// What follows the removal of the playing track, which was at `index`:
    /// the track that now takes that place plays, or the first one when the
    /// last was removed; with an empty queue the player stops.
    fn replace_removed_playing(&mut self, index: usize)
        requires
            old(self).queue@.len() > 0 ==> old(self).stream_generation < u64::MAX,
        ensures
            replaced_playing(*old(self), *final(self), index),
            index < old(self).queue@.len() ==> final(self).status_msg@ == loading_stream_text(
                old(self).lang,
                old(self).queue@[index as int]@.title,
            ),
            index >= old(self).queue@.len() && old(self).queue@.len() > 0
                ==> final(self).status_msg@ == loading_stream_text(
                old(self).lang,
                old(self).queue@[0]@.title,
            ),
            old(self).queue@.len() == 0 ==> final(self).status_msg == old(self).status_msg,
    {
        if index < self.queue.len() {
            let t = self.queue[index].clone();
            self.stream_track_bg(t, index);
        } else if self.queue.len() > 0 {
            let t = self.queue[0].clone();
            self.stream_track_bg(t, 0);
        } else {
            self.player.stop();
            self.queue_index = None;
        }
    }

    /// Removes the track at `index` from the queue. When it was the one
    /// playing, the track that takes its place plays (the first one when
    /// the last was removed); with an empty queue the player stops.
    #[verifier::spinoff_prover]
    #[verifier::rlimit(40)]
    pub fn remove_from_queue(&mut self, index: usize)
        requires
            old(self).queue_index == Some(index) && old(self).queue@.len() > 1 && index < old(self).queue@.len()
                ==> old(self).stream_generation < u64::MAX,
        ensures
            queue_removed(*old(self), *final(self), index),
    {
        let playing_was_removed = self.queue_index == Some(index);
        let removed = Self::remove_queue_index(&mut self.queue, &mut self.queue_index, index);
        let removed = match removed {
            None => {
                return;
            },
            Some(t) => t,
        };
        let ghost mid = *self;
        if playing_was_removed {
            self.replace_removed_playing(index);
        }
        let mut msg = string_of("Eliminada: ");
        msg.append(removed.title.as_str());
        self.status_msg = msg;
    }
}

/// Whether `after` follows from `before` once the playing track, which was
/// at `index`, has left the queue: the track now at `index` plays, or the
/// first track when `index` is past the end; with an empty queue the player
/// stops and no position is playing.
pub open spec fn replaced_playing(before: App, after: App, index: usize) -> bool {
    let q = before.queue@;
    &&& index < q.len() ==> streams(before, after, q[index as int]@, index)
    &&& index >= q.len() && q.len() > 0 ==> streams(before, after, q[0]@, 0)
    &&& q.len() == 0 ==> {
        &&& crate::player::stopped_from(after.player, before.player)
        &&& after == (App {
            queue_index: None,
            player: after.player,
            status_msg: after.status_msg,
            ..before
        })
    }
}


/// Whether `after` is `before` with a background load begun: the loading
/// mark set and the status line `msg`; the effects are left to the caller.
pub open spec fn began(before: App, after: App, msg: Seq<char>) -> bool {
    &&& after == (App { loading: true, status_msg: after.status_msg, effects: after.effects, ..before })
    &&& after.status_msg@ == msg
}

/// Whether the list that a library section shows has not been loaded yet.
pub open spec fn section_missing(lib: LibraryState, s: LibrarySection) -> bool {
    match s {
        LibrarySection::Playlists | LibrarySection::Mixes => lib.playlists is None && lib.mixes is None,
        LibrarySection::FavTracks => lib.fav_tracks is None,
        LibrarySection::FavAlbums => lib.fav_albums is None,
    }
}

/// The request that loads a library section.
pub open spec fn section_request(s: LibrarySection) -> Effect {
    match s {
        LibrarySection::Playlists | LibrarySection::Mixes => Effect::LoadLibrary,
        LibrarySection::FavTracks => Effect::FavTracks,
        LibrarySection::FavAlbums => Effect::FavAlbums,
    }
}

/// The status line while a library section loads.
pub open spec fn section_loading_text(lang: Lang, s: LibrarySection) -> Seq<char> {
    match s {
        LibrarySection::Playlists | LibrarySection::Mixes => texts_of(lang).status_loading_lib@,
        LibrarySection::FavTracks => texts_of(lang).status_loading_fav_tracks@,
        LibrarySection::FavAlbums => texts_of(lang).status_loading_fav_albums@,
    }
}

/// Whether `after` follows from `before` once the active library section
/// is made sure to be loaded: when it is missing and the user is logged in,
/// its load begins; otherwise nothing changes.
pub open spec fn ensured_loaded(before: App, after: App) -> bool {
    let s = before.library.active_section;
    if section_missing(before.library, s) && before.authenticated {
        &&& began(before, after, section_loading_text(before.lang, s))
        &&& after.effects@ == before.effects@.push(section_request(s))
    } else {
        after == before
    }
}

/// The number of items of a library section, 0 while not loaded.
pub open spec fn library_section_len(lib: LibraryState, s: LibrarySection) -> nat {
    match s {
        LibrarySection::Playlists => match lib.playlists {
            Some(p) => p@.len(),
            None => 0,
        },
        LibrarySection::Mixes => match lib.mixes {
            Some(m) => m@.len(),
            None => 0,
        },
        LibrarySection::FavTracks => match lib.fav_tracks {
            Some(t) => t@.len(),
            None => 0,
        },
        LibrarySection::FavAlbums => match lib.fav_albums {
            Some(a) => a@.len(),
            None => 0,
        },
    }
}

/// The number of items of the list that the active tab shows.
pub open spec fn list_len(a: App) -> nat {
    match a.active_tab {
        Tab::Search => match a.search.viewing {
            Some(v) => v.tracks@.len(),
            None => results_len(a.search.results, a.search.active_section),
        },
        Tab::Queue => a.queue@.len(),
        Tab::Now => 0,
        Tab::Library => library_section_len(a.library, a.library.active_section),
    }
}

/// The position after `c` in a list of `n` items, wrapping around.
pub open spec fn wrap_next(c: usize, n: usize) -> usize {
    ((c + 1) % (n as int)) as usize
}

/// The position before `c` in a list of `n` items, wrapping around.
pub open spec fn wrap_prev(c: usize, n: usize) -> usize {
    if c == 0 {
        (n - 1) as usize
    } else {
        (c - 1) as usize
    }
}

pub(crate) fn next_pos(c: usize, n: usize) -> (r: usize)
    requires
        n > 0,
    ensures
        r == wrap_next(c, n),
{
    let m = c % n;
    proof {
        assert(((c % n) + 1) % (n as int) == (c + 1) % (n as int)) by (nonlinear_arith)
            requires
                n > 0,
        ;
    }
    (m + 1) % n
}

/// The tab after `t`: search, queue, now playing, library, search.
pub open spec fn tab_after(t: Tab) -> Tab {
    match t {
        Tab::Search => Tab::Queue,
        Tab::Queue => Tab::Now,
        Tab::Now => Tab::Library,
        Tab::Library => Tab::Search,
    }
}

/// `lib` with its sidebar on the playlists section.
pub open spec fn library_reset(lib: LibraryState) -> LibraryState {
    LibraryState { active_section: LibrarySection::Playlists, focus: LibraryFocus::Sidebar, ..lib }
}

/// Whether `after` is `before` with a device login begun.
pub open spec fn login_started(before: App, after: App) -> bool {
    &&& began(before, after, texts_of(before.lang).status_starting_login@)
    &&& after.effects@ == before.effects@.push(Effect::StartAuth)
}

/// Whether `after` is `before` moved to the next tab: leaving the library
/// puts its sidebar back on the playlists, entering it loads the active
/// section if needed; the selection starts at the top.
pub open spec fn tab_advanced(before: App, after: App) -> bool {
    &&& after.selected == 0
    &&& after.active_tab == tab_after(before.active_tab)
    &&& before.active_tab == Tab::Now ==> ensured_loaded(
        App { active_tab: Tab::Library, ..before },
        App { selected: before.selected, ..after },
    )
    &&& before.active_tab == Tab::Library ==> after == (App {
        active_tab: Tab::Search,
        library: library_reset(before.library),
        selected: 0,
        ..before
    })
    &&& before.active_tab == Tab::Search || before.active_tab == Tab::Queue
        ==> after == (App {
        active_tab: tab_after(before.active_tab),
        selected: 0,
        ..before
    })
}

impl App {
    fn text_status(&mut self, msg: &str)
        ensures
            *final(self) == (App { status_msg: final(self).status_msg, ..*old(self) }),
            final(self).status_msg@ == msg@,
    {
        self.status_msg = string_of(msg);
    }

    /// Starts a device login.
    pub fn start_login_bg(&mut self)
        ensures
            login_started(*old(self), *final(self)),
    {
        self.loading = true;
        self.text_status(self.lang.strings().status_starting_login);
        self.effects.push(Effect::StartAuth);
    }

    /// Asks whether the device login has completed.
    pub fn poll_auth_bg(&mut self)
        ensures
            *final(self) == (App { effects: final(self).effects, ..*old(self) }),
            final(self).effects@ == old(self).effects@.push(Effect::PollAuth),
    {
        self.effects.push(Effect::PollAuth);
    }

    /// Loads the user's playlists and mixes, once logged in.
    pub fn load_library_bg(&mut self)
        ensures
            !old(self).authenticated ==> *final(self) == *old(self),
            old(self).authenticated ==> began(*old(self), *final(self), texts_of(old(self).lang).status_loading_lib@)
                && final(self).effects@ == old(self).effects@.push(Effect::LoadLibrary),
    {
        if !self.authenticated {
            return;
        }
        self.loading = true;
        self.text_status(self.lang.strings().status_loading_lib);
        self.effects.push(Effect::LoadLibrary);
    }

    /// Loads the favourite tracks, once logged in.
    pub fn load_fav_tracks_bg(&mut self)
        ensures
            !old(self).authenticated ==> *final(self) == *old(self),
            old(self).authenticated ==> began(*old(self), *final(self), texts_of(old(self).lang).status_loading_fav_tracks@)
                && final(self).effects@ == old(self).effects@.push(Effect::FavTracks),
    {
        if !self.authenticated {
            return;
        }
        self.loading = true;
        self.text_status(self.lang.strings().status_loading_fav_tracks);
        self.effects.push(Effect::FavTracks);
    }

    /// Loads the favourite albums, once logged in.
    pub fn load_fav_albums_bg(&mut self)
        ensures
            !old(self).authenticated ==> *final(self) == *old(self),
            old(self).authenticated ==> began(*old(self), *final(self), texts_of(old(self).lang).status_loading_fav_albums@)
                && final(self).effects@ == old(self).effects@.push(Effect::FavAlbums),
    {
        if !self.authenticated {
            return;
        }
        self.loading = true;
        self.text_status(self.lang.strings().status_loading_fav_albums);
        self.effects.push(Effect::FavAlbums);
    }

    /// Loads the tracks of the playlist `uuid`.
    pub fn load_playlist_tracks_bg(&mut self, uuid: String)
        ensures
            began(*old(self), *final(self), texts_of(old(self).lang).status_loading_playlist@),
            pushed_one(final(self).effects@, old(self).effects@),
            final(self).effects@.last() matches Effect::PlaylistTracks { uuid: u } && u == uuid,
    {
        self.loading = true;
        self.text_status(self.lang.strings().status_loading_playlist);
        self.effects.push(Effect::PlaylistTracks { uuid });
        assert(self.effects@.drop_last() == old(self).effects@);
    }

    /// Loads the tracks of the mix `mix_id`.
    pub fn load_mix_tracks_bg(&mut self, mix_id: String)
        ensures
            began(*old(self), *final(self), texts_of(old(self).lang).status_loading_mix@),
            pushed_one(final(self).effects@, old(self).effects@),
            final(self).effects@.last() matches Effect::MixTracks { mix_id: m } && m == mix_id,
    {
        self.loading = true;
        self.text_status(self.lang.strings().status_loading_mix);
        self.effects.push(Effect::MixTracks { mix_id });
        assert(self.effects@.drop_last() == old(self).effects@);
    }

    /// Loads the tracks of the album `album_id`, titled `album_title`.
    pub fn load_album_tracks_bg(&mut self, album_id: u64, album_title: String)
        ensures
            began(*old(self), *final(self), loading_album_text(old(self).lang, album_title@)),
            final(self).effects@ == old(self).effects@.push(Effect::AlbumTracks { album_id }),
    {
        self.loading = true;
        self.status_msg = self.lang.loading_album(album_title.as_str());
        self.effects.push(Effect::AlbumTracks { album_id });
    }

    /// Requests the lyrics of the track `track_id`.
    pub fn load_lyrics_bg(&mut self, track_id: u64)
        ensures
            *final(self) == (App { effects: final(self).effects, ..*old(self) }),
            final(self).effects@ == old(self).effects@.push(Effect::Lyrics { track_id }),
    {
        self.effects.push(Effect::Lyrics { track_id });
    }

    /// Requests the cover of the track `track_id`.
    pub fn load_cover_bg(&mut self, track_id: u64)
        ensures
            *final(self) == (App { effects: final(self).effects, ..*old(self) }),
            final(self).effects@ == old(self).effects@.push(Effect::Cover { track_id }),
    {
        self.effects.push(Effect::Cover { track_id });
    }

    /// The number of items of a library section, 0 while not loaded.
    pub fn section_len(&self, section: LibrarySection) -> (n: usize)
        ensures
            n == library_section_len(self.library, section),
    {
        match section {
            LibrarySection::Playlists => match &self.library.playlists {
                Some(p) => p.len(),
                None => 0,
            },
            LibrarySection::Mixes => match &self.library.mixes {
                Some(m) => m.len(),
                None => 0,
            },
            LibrarySection::FavTracks => match &self.library.fav_tracks {
                Some(t) => t.len(),
                None => 0,
            },
            LibrarySection::FavAlbums => match &self.library.fav_albums {
                Some(a) => a.len(),
                None => 0,
            },
        }
    }

    /// The number of items of the list that the active tab shows.
    pub fn current_list_len(&self) -> (n: usize)
        ensures
            n == list_len(*self),
    {
        match self.active_tab {
            Tab::Search => match &self.search.viewing {
                Some(v) => v.tracks.len(),
                None => self.search.current_len(),
            },
            Tab::Queue => self.queue.len(),
            Tab::Now => 0,
            Tab::Library => self.section_len(self.library.active_section),
        }
    }

    /// Starts loading the active library section if it is missing.
    pub fn ensure_section_loaded(&mut self)
        ensures
            ensured_loaded(*old(self), *final(self)),
    {
        match self.library.active_section {
            LibrarySection::Playlists | LibrarySection::Mixes => {
                if self.library.playlists.is_none() && self.library.mixes.is_none() {
                    self.load_library_bg();
                }
            },
            LibrarySection::FavTracks => {
                if self.library.fav_tracks.is_none() {
                    self.load_fav_tracks_bg();
                }
            },
            LibrarySection::FavAlbums => {
                if self.library.fav_albums.is_none() {
                    self.load_fav_albums_bg();
                }
            },
        }
    }

    /// Shows `tab`; entering the library puts its sidebar on the playlists
    /// and loads them if needed. The selection starts at the top.
    pub fn switch_tab(&mut self, tab: Tab)
        ensures
            tab == old(self).active_tab ==> *final(self) == *old(self),
            tab != old(self).active_tab && tab != Tab::Library ==> *final(self) == (App {
                active_tab: tab,
                selected: 0,
                ..*old(self)
            }),
            tab != old(self).active_tab && tab == Tab::Library ==> {
                &&& final(self).selected == 0
                &&& ensured_loaded(
                    App {
                        active_tab: tab,
                        library: library_reset(old(self).library),
                        ..*old(self)
                    },
                    App { selected: old(self).selected, ..*final(self) },
                )
            },
    {
        if self.active_tab == tab {
            return;
        }
        let entering_library = tab == Tab::Library;
        self.active_tab = tab;
        if entering_library {
            self.library.active_section = LibrarySection::Playlists;
            self.library.focus = LibraryFocus::Sidebar;
            self.ensure_section_loaded();
        }
        self.selected = 0;
    }

    /// Moves to the next tab; leaving the library puts its sidebar back on
    /// the playlists, entering it loads the active section if needed. The
    /// selection starts at the top.
    pub fn next_tab(&mut self)
        ensures
            tab_advanced(*old(self), *final(self)),
    {
        let entering_library = self.active_tab == Tab::Now;
        self.active_tab = match self.active_tab {
            Tab::Search => Tab::Queue,
            Tab::Queue => Tab::Now,
            Tab::Now => Tab::Library,
            Tab::Library => {
                self.library.active_section = LibrarySection::Playlists;
                self.library.focus = LibraryFocus::Sidebar;
                Tab::Search
            },
        };
        if entering_library {
            self.ensure_section_loaded();
        }
        self.selected = 0;
    }
}


/// `v` with its cursor moved to `c`.
pub open spec fn viewing_at(v: Option<LibraryViewing>, c: usize) -> Option<LibraryViewing> {
    match v {
        Some(w) => Some(LibraryViewing { cursor: c, ..w }),
        None => None,
    }
}

/// The state after moving down (`down`) or up in the list of the search tab:
/// in an open list of tracks, its cursor moves, wrapping around; in the
/// sidebar, the section changes; otherwise the cursor of the active section
/// moves, wrapping around. Empty lists stay as they are.
pub open spec fn search_moved(s: SearchState, down: bool) -> SearchState {
    match s.viewing {
        Some(v) => {
            let n = v.tracks@.len() as usize;
            if n > 0 {
                SearchState {
                    viewing: viewing_at(s.viewing, if down { wrap_next(v.cursor, n) } else { wrap_prev(v.cursor, n) }),
                    ..s
                }
            } else {
                s
            }
        },
        None => if s.focus == SearchFocus::Sidebar {
            SearchState {
                active_section: if down {
                    crate::search::search_section_at(search_section_index(s.active_section) + 1)
                } else {
                    crate::search::search_section_at(search_section_index(s.active_section) + 3)
                },
                ..s
            }
        } else {
            let i = search_section_index(s.active_section);
            let n = results_len(s.results, s.active_section) as usize;
            if n > 0 {
                SearchState {
                    cursor: vstd::array::spec_array_update(
                        s.cursor,
                        i,
                        if down { wrap_next(s.cursor@[i], n) } else { wrap_prev(s.cursor@[i], n) },
                    ),
                    ..s
                }
            } else {
                s
            }
        },
    }
}

/// Whether `after` is `before` moved down in the list of the active tab,
/// wrapping around.
pub open spec fn moved_down(before: App, after: App) -> bool {
    &&& before.active_tab == Tab::Search ==> after == (App {
        search: search_moved(before.search, true),
        ..before
    })
    &&& before.active_tab != Tab::Search ==> after == (App {
        selected: if list_len(before) > 0 {
            wrap_next(before.selected, list_len(before) as usize)
        } else {
            before.selected
        },
        ..before
    })
}

/// Whether `after` is `before` moved up in the list of the active tab,
/// wrapping around.
pub open spec fn moved_up(before: App, after: App) -> bool {
    &&& before.active_tab == Tab::Search ==> after == (App {
        search: search_moved(before.search, false),
        ..before
    })
    &&& before.active_tab != Tab::Search ==> after == (App {
        selected: if list_len(before) > 0 {
            wrap_prev(before.selected, list_len(before) as usize)
        } else {
            before.selected
        },
        ..before
    })
}

impl App {
    /// Moves down in the list of the active tab, wrapping around.
    pub fn next_track(&mut self)
        ensures
            moved_down(*old(self), *final(self)),
    {
        if self.active_tab == Tab::Search {
            match &mut self.search.viewing {
                Some(v) => {
                    let max = v.tracks.len();
                    if max > 0 {
                        v.cursor = next_pos(v.cursor, max);
                    }
                },
                None => {
                    if self.search.focus == SearchFocus::Sidebar {
                        self.search.active_section = self.search.active_section.next();
                    } else {
                        let section = self.search.active_section.index();
                        let max = self.search.current_len();
                        if max > 0 {
                            let c = next_pos(self.search.cursor[section], max);
                            self.search.cursor[section] = c;
                        }
                    }
                },
            }
            return;
        }
        let len = self.current_list_len();
        if len > 0 {
            self.selected = next_pos(self.selected, len);
        }
    }

    /// Moves up in the list of the active tab, wrapping around.
    pub fn prev_track(&mut self)
        ensures
            moved_up(*old(self), *final(self)),
    {
        if self.active_tab == Tab::Search {
            match &mut self.search.viewing {
                Some(v) => {
                    let max = v.tracks.len();
                    if max > 0 {
                        v.cursor = if v.cursor == 0 { max - 1 } else { v.cursor - 1 };
                    }
                },
                None => {
                    if self.search.focus == SearchFocus::Sidebar {
                        self.search.active_section = self.search.active_section.prev();
                    } else {
                        let section = self.search.active_section.index();
                        let max = self.search.current_len();
                        if max > 0 {
                            let c = self.search.cursor[section];
                            let c2 = if c == 0 { max - 1 } else { c - 1 };
                            self.search.cursor[section] = c2;
                        }
                    }
                },
            }
            return;
        }
        let len = self.current_list_len();
        if len > 0 {
            self.selected = if self.selected == 0 { len - 1 } else { self.selected - 1 };
        }
    }
}


/// Whether a track with the id `id` is in `q`.
pub open spec fn has_track_id(q: Seq<TrackView>, id: u64) -> bool {
    exists|i: int| 0 <= i < q.len() && #[trigger] q[i].id == id
}

/// The position of the first track with the id `id` in `q`, 0 when none.
pub open spec fn position_of_id(q: Seq<TrackView>, id: u64) -> int
    decreases q.len(),
{
    if q.len() == 0 {
        0
    } else if q[0].id == id {
        0
    } else if has_track_id(q.drop_first(), id) {
        position_of_id(q.drop_first(), id) + 1
    } else {
        0
    }
}

/// `dst` followed by the tracks of `src` whose id is not yet in it, in
/// order.
pub open spec fn with_new_tracks(dst: Seq<TrackView>, src: Seq<TrackView>) -> Seq<TrackView>
    decreases src.len(),
{
    if src.len() == 0 {
        dst
    } else {
        let prev = with_new_tracks(dst, src.drop_last());
        if has_track_id(prev, src.last().id) {
            prev
        } else {
            prev.push(src.last())
        }
    }
}

/// `▶ Añadida: ` and a title.
pub open spec fn added_one_text(title: Seq<char>) -> Seq<char> {
    "▶ Añadida: "@ + title
}

/// `▶ n canciones añadidas a la cola`.
pub open spec fn added_many_text(n: nat) -> Seq<char> {
    "▶ "@ + crate::text::decimal(n) + " canciones añadidas a la cola"@
}

/// A copy of the tracks of `v` from position `from` on.
pub fn clone_tracks_from(v: &Vec<Track>, from: usize) -> (r: Vec<Track>)
    requires
        from <= v@.len(),
    ensures
        track_views(r@) == track_views(v@.skip(from as int)),
{
    let mut r: Vec<Track> = Vec::new();
    let mut i = from;
    while i < v.len()
        invariant
            from <= i <= v@.len(),
            track_views(r@) == track_views(v@.subrange(from as int, i as int)),
        decreases v@.len() - i,
    {
        let t = v[i].clone();
        let ghost before = r@;
        r.push(t);
        assert(r@ == before.push(t));
        assert(track_views(r@) =~= track_views(before).push(t@));
        assert(v@.subrange(from as int, i + 1) =~= v@.subrange(from as int, i as int).push(v@[i as int]));
        assert(track_views(v@.subrange(from as int, i + 1)) =~= track_views(
            v@.subrange(from as int, i as int),
        ).push(v@[i as int]@));
        i = i + 1;
    }
    assert(v@.subrange(from as int, v@.len() as int) =~= v@.skip(from as int));
    r
}

/// Whether some track of `q` has the id `id`; when so, the first one's
/// position comes back too.
pub(crate) fn find_track_id(q: &Vec<Track>, id: u64) -> (r: Option<usize>)
    ensures
        r is None <==> !has_track_id(track_views(q@), id),
        r matches Some(p) ==> p == position_of_id(track_views(q@), id) && p < q@.len(),
{
    let ghost qv = track_views(q@);
    let mut i: usize = 0;
    while i < q.len()
        invariant
            i <= q@.len(),
            qv == track_views(q@),
            forall|j: int| 0 <= j < i ==> #[trigger] qv[j].id != id,
        decreases q@.len() - i,
    {
        if q[i].id == id {
            proof {
                assert(qv[i as int].id == id);
                lemma_position_of_id(qv, id, i as int);
            }
            return Some(i);
        }
        i = i + 1;
    }
    proof {
        if has_track_id(qv, id) {
            let w = choose|w: int| 0 <= w < qv.len() && #[trigger] qv[w].id == id;
            assert(qv[w].id != id);
        }
    }
    None
}

/// The first track with the id `id` is the one `position_of_id` names.
pub proof fn lemma_position_of_id(q: Seq<TrackView>, id: u64, p: int)
    requires
        0 <= p < q.len(),
        q[p].id == id,
        forall|j: int| 0 <= j < p ==> #[trigger] q[j].id != id,
    ensures
        position_of_id(q, id) == p,
        has_track_id(q, id),
    decreases p,
{
    if p > 0 {
        let t = q.drop_first();
        assert forall|j: int| 0 <= j < p - 1 implies #[trigger] t[j].id != id by {
            assert(t[j] == q[j + 1]);
        }
        assert(t[p - 1] == q[p]);
        lemma_position_of_id(t, id, p - 1);
    }
}

/// Whether `after` is `before` at audio quality `q`, told to the daemon,
/// announced and saved.
pub open spec fn quality_set(before: App, after: App, q: Quality) -> bool {
    &&& after == (App {
        quality: q,
        status_msg: after.status_msg,
        effects: after.effects,
        ..before
    })
    &&& after.status_msg@ == quality_changed_text(before.lang, quality_label(q))
    &&& after.effects@.len() == before.effects@.len() + 2
    &&& after.effects@.take(before.effects@.len() as int) == before.effects@
    &&& after.effects@[before.effects@.len() as int] matches Effect::SetQuality { quality }
    && quality@ == quality_api_name(q)
    &&& after.effects@.last() == Effect::SaveSettings(after.settings_of())
}

/// Whether `after` is `before` with the search tab emptied, when it is the
/// active one.
pub open spec fn search_cleared(before: App, after: App) -> bool {
    &&& before.active_tab != Tab::Search ==> after == before
    &&& before.active_tab == Tab::Search ==> {
        &&& after == (App {
            search: after.search,
            input_mode: InputMode::Normal,
            status_msg: after.status_msg,
            ..before
        })
        &&& is_fresh_search(after.search)
        &&& after.status_msg@ == texts_of(before.lang).status_search_cleared@
    }
}

/// Whether `after` follows from `before` once a search for the input is
/// asked for: refused without login, ignored for an empty input, else the
/// query joins the history, paging starts over and the first page of every
/// section is requested under a new generation.
pub open spec fn search_started(before: App, after: App) -> bool {
    &&& !before.authenticated ==> after == (App { status_msg: after.status_msg, ..before })
    && after.status_msg@ == texts_of(before.lang).status_login_required@
    &&& before.authenticated && before.search.input@.len() == 0 ==> after == before
    &&& before.authenticated && before.search.input@.len() > 0 ==> {
        &&& after == (App {
            search: SearchState {
                history: after.search.history,
                history_cursor: None,
                loaded: after.search.loaded,
                exhausted: after.search.exhausted,
                ..before.search
            },
            search_generation: (before.search_generation + 1) as u64,
            loading: true,
            status_msg: after.status_msg,
            effects: after.effects,
            ..before
        })
        &&& crate::search::history_texts(after.search.history) == crate::search::recorded(
            crate::search::history_texts(before.search.history),
            before.search.input@,
        )
        &&& after.search.loaded@ == seq![0usize, 0usize, 0usize, 0usize]
        &&& after.search.exhausted@ == seq![false, false, false, false]
        &&& after.status_msg@ == searching_text(before.lang, before.search.input@)
        &&& pushed_one(after.effects@, before.effects@)
        &&& after.effects@.last() matches Effect::Search { query, limit, offset, generation, section }
            && query@ == before.search.input@ && limit == PAGE_SIZE && offset == 0
            && generation == before.search_generation + 1 && section is None
    }
}

/// Whether `load_more_bg` asks for a further page in the state `a`: logged
/// in, browsing the results of a search, with a section neither exhausted
/// nor at its last offset.
pub open spec fn requests_more(a: App) -> bool {
    let idx = search_section_index(a.search.active_section);
    &&& a.authenticated
    &&& a.active_tab == Tab::Search
    &&& a.search.viewing is None
    &&& a.search.focus == SearchFocus::Content
    &&& a.search.input@.len() > 0
    &&& !a.search.exhausted@[idx]
    &&& a.search.loaded@[idx] < MAX_OFFSET
}

/// Whether `after` follows from `before` once a further page of the active
/// search section is asked for.
pub open spec fn more_requested(before: App, after: App) -> bool {
    &&& ({
        let o = before;
        let idx = search_section_index(o.search.active_section);
        if !o.authenticated {
            after == (App { status_msg: after.status_msg, ..o })
                && after.status_msg@ == texts_of(o.lang).status_login_required_short@
        } else if o.active_tab != Tab::Search || o.search.viewing is Some
            || o.search.focus != SearchFocus::Content || o.search.input@.len() == 0 {
            after == o
        } else if o.search.exhausted@[idx] {
            after == (App { status_msg: after.status_msg, ..o })
                && after.status_msg@ == texts_of(o.lang).search_no_more_results@
        } else if o.search.loaded@[idx] >= MAX_OFFSET {
            after == (App {
                search: SearchState {
                    exhausted: vstd::array::spec_array_update(o.search.exhausted, idx, true),
                    ..o.search
                },
                status_msg: after.status_msg,
                ..o
            }) && after.status_msg@ == texts_of(o.lang).search_no_more_results@
        } else {
            &&& after == (App {
                search_generation: (o.search_generation + 1) as u64,
                loading: true,
                status_msg: after.status_msg,
                effects: after.effects,
                ..o
            })
            &&& after.status_msg@ == searching_more_text(o.lang)
            &&& pushed_one(after.effects@, o.effects@)
            &&& after.effects@.last() matches Effect::Search { query, limit, offset, generation, section }
                && query@ == o.search.input@ && limit == PAGE_SIZE && offset == o.search.loaded@[idx]
                && generation == o.search_generation + 1 && section == Some(o.search.active_section)
        }
    })
}

/// A volume raised by 5, at most 100.
pub open spec fn raised_volume(v: u8) -> u8 {
    if v + 5 <= 100 {
        (v + 5) as u8
    } else {
        100u8
    }
}

/// A volume lowered by 5, at least 0.
pub open spec fn lowered_volume(v: u8) -> u8 {
    if v >= 5 {
        (v - 5) as u8
    } else {
        0u8
    }
}

/// A volume held to at most 100.
pub open spec fn capped_volume(v: u8) -> u8 {
    if v <= 100 {
        v
    } else {
        100u8
    }
}

/// Whether `after` is `before` at volume `v`, told to mpv and saved.
pub open spec fn volume_saved(before: App, after: App, v: u8) -> bool {
    &&& crate::player::volume_sent(before.player, after.player, v)
    &&& after == (App { player: after.player, effects: after.effects, ..before })
    &&& after.effects@ == before.effects@.push(Effect::SaveSettings(after.settings_of()))
}

impl App {
    /// The status line when the user must log in first.
    fn require_login_short(&mut self)
        ensures
            *final(self) == (App { status_msg: final(self).status_msg, ..*old(self) }),
            final(self).status_msg@ == texts_of(old(self).lang).status_login_required_short@,
    {
        self.text_status(self.lang.strings().status_login_required_short);
    }

    /// Sets the audio quality, tells the daemon and saves the preferences.
    pub fn set_quality(&mut self, q: Quality)
        ensures
            quality_set(*old(self), *final(self), q),
    {
        self.quality = q;
        self.status_msg = self.lang.quality_changed(q.label());
        let ghost n = self.effects@.len();
        self.effects.push(Effect::SetQuality { quality: string_of(q.as_api_str()) });
        self.save_settings();
        assert(self.effects@.take(n as int) =~= old(self).effects@);
    }

    /// Raises the volume by 5 (up to 100) and saves the preferences.
    pub fn volume_up(&mut self)
        requires
            old(self).player.volume <= 250,
        ensures
            volume_saved(*old(self), *final(self), raised_volume(old(self).player.volume)),
    {
        self.player.volume_up();
        self.save_settings();
    }

    /// Lowers the volume by 5 (down to 0) and saves the preferences.
    pub fn volume_down(&mut self)
        ensures
            volume_saved(*old(self), *final(self), lowered_volume(old(self).player.volume)),
    {
        self.player.volume_down();
        self.save_settings();
    }

    /// Sets the volume (at most 100) and saves the preferences.
    pub fn set_volume(&mut self, v: u8)
        ensures
            volume_saved(*old(self), *final(self), capped_volume(v)),
    {
        self.player.set_volume(v);
        self.save_settings();
    }

    /// Takes on the saved preferences, when there are any; the volume is
    /// held to at most 100.
    pub fn load_settings(&mut self, loaded: Option<Settings>)
        ensures
            loaded is None ==> *final(self) == *old(self),
            loaded matches Some(st) ==> *final(self) == (App {
                lang: st.lang,
                quality: st.quality,
                player: Player { volume: if st.volume <= 100 { st.volume } else { 100u8 }, ..old(self).player },
                ..*old(self)
            }),
    {
        match loaded {
            Some(st) => {
                self.lang = st.lang;
                self.quality = st.quality;
                self.player.volume = if st.volume <= 100 { st.volume } else { 100 };
            },
            None => {},
        }
    }

    /// Empties the search tab, when it is the active one.
    pub fn clear_search(&mut self)
        ensures
            search_cleared(*old(self), *final(self)),
    {
        if self.active_tab != Tab::Search {
            return;
        }
        self.search = SearchState::new();
        self.input_mode = InputMode::Normal;
        self.text_status(self.lang.strings().status_search_cleared);
    }

    /// Starts a search for the input, once logged in and when the input is
    /// not empty: the query joins the history, paging starts over, and the
    /// first page of every section is requested under a new generation.
    #[verifier::spinoff_prover]
    #[verifier::rlimit(40)]
    pub fn do_search_bg(&mut self)
        requires
            old(self).authenticated && old(self).search.input@.len() > 0 ==> old(self).search_generation
                < u64::MAX,
        ensures
            search_started(*old(self), *final(self)),
    {
        if !self.authenticated {
            self.text_status(self.lang.strings().status_login_required);
            return;
        }
        if self.search.input.as_str().is_empty() {
            return;
        }
        let query = self.search.input.clone();
        self.search.record_history(query.as_str());
        let loaded: [usize; 4] = [0, 0, 0, 0];
        let exhausted: [bool; 4] = [false, false, false, false];
        assert(loaded@ =~= seq![0usize, 0usize, 0usize, 0usize]);
        assert(exhausted@ =~= seq![false, false, false, false]);
        self.search.loaded = loaded;
        self.search.exhausted = exhausted;
        self.search_generation = self.search_generation + 1;
        let generation = self.search_generation;
        self.loading = true;
        self.status_msg = self.lang.searching(self.search.input.as_str());
        let q2 = self.search.input.clone();
        self.effects.push(Effect::Search { query: q2, limit: PAGE_SIZE, offset: 0, generation, section: None });
        assert(self.effects@.drop_last() == old(self).effects@);
    }

    /// Requests the next page of the active search section, when browsing
    /// its results while logged in. A section that Tidal reported exhausted,
    /// or whose offset reached 300, gets no further request.
    #[verifier::spinoff_prover]
    #[verifier::rlimit(40)]
    pub fn load_more_bg(&mut self)
        requires
            requests_more(*old(self)) ==> old(self).search_generation < u64::MAX,
        ensures
            more_requested(*old(self), *final(self)),
    {
        if !self.authenticated {
            self.require_login_short();
            return;
        }
        if self.active_tab != Tab::Search || self.search.viewing.is_some()
            || self.search.focus != SearchFocus::Content {
            return;
        }
        if self.search.input.as_str().is_empty() {
            return;
        }
        let section = self.search.active_section;
        let idx = section.index();
        if self.search.exhausted[idx] {
            self.text_status(self.lang.strings().search_no_more_results);
            return;
        }
        let offset = self.search.loaded[idx];
        if offset >= MAX_OFFSET {
            self.search.exhausted[idx] = true;
            self.text_status(self.lang.strings().search_no_more_results);
            return;
        }
        let query = self.search.input.clone();
        self.search_generation = self.search_generation + 1;
        let generation = self.search_generation;
        self.loading = true;
        self.status_msg = self.lang.searching_more(query.as_str());
        self.effects.push(Effect::Search { query, limit: PAGE_SIZE, offset, generation, section: Some(section) });
        assert(self.effects@.drop_last() == old(self).effects@);
    }
}


/// `streams`, with the status line announcing the track.
pub open spec fn streamed(before: App, after: App, t: TrackView, qi: usize) -> bool {
    streams(before, after, t, qi) && after.status_msg@ == loading_stream_text(before.lang, t.title)
}

/// Whether the track to play next exists: with "repeat one", the current
/// position (or the first) must be within the queue.
pub open spec fn can_play_next(a: App) -> bool {
    a.queue@.len() > 0 && a.repeat == RepeatMode::One ==> (match a.queue_index {
        Some(i) => i,
        None => 0,
    }) < a.queue@.len()
}

/// Whether the track to play before exists: a current position past the
/// first must be within the queue, plus one.
pub open spec fn can_play_prev(a: App) -> bool {
    match a.queue_index {
        Some(i) => i > 0 ==> i - 1 < a.queue@.len(),
        None => true,
    }
}

/// Whether `can_play_next` holds.
pub fn playable_next(a: &App) -> (b: bool)
    ensures
        b == can_play_next(*a),
{
    if a.queue.len() > 0 && a.repeat == RepeatMode::One {
        let i = match a.queue_index {
            Some(i) => i,
            None => 0,
        };
        i < a.queue.len()
    } else {
        true
    }
}

/// Whether `can_play_prev` holds.
pub fn playable_prev(a: &App) -> (b: bool)
    ensures
        b == can_play_prev(*a),
{
    match a.queue_index {
        Some(i) => i == 0 || i - 1 < a.queue.len(),
        None => true,
    }
}

/// The position that "next" plays when the choice is not left to chance:
/// the same track with "repeat one"; otherwise the following one, or the
/// first after the last unless repetition is off (then `None`).
pub open spec fn next_position(a: App) -> Option<usize> {
    if a.repeat == RepeatMode::One {
        Some(match a.queue_index {
            Some(i) => i,
            None => 0,
        })
    } else {
        match a.queue_index {
            Some(i) => if i + 1 < a.queue@.len() {
                Some((i + 1) as usize)
            } else if a.repeat == RepeatMode::Off {
                None
            } else {
                Some(0usize)
            },
            None => if a.repeat == RepeatMode::Off {
                None
            } else {
                Some(0usize)
            },
        }
    }
}

/// The position that "previous" plays: the one before the current, or the
/// last one from the first position or when nothing played.
pub open spec fn prev_position(a: App) -> usize {
    match a.queue_index {
        Some(i) => if i > 0 {
            (i - 1) as usize
        } else {
            (a.queue@.len() - 1) as usize
        },
        None => (a.queue@.len() - 1) as usize,
    }
}

/// A position of a queue of `len` tracks chosen from `seed`, other than
/// `current` when there is a choice.
pub open spec fn shuffle_choice(seed: usize, len: usize, current: Option<usize>) -> usize {
    if len <= 1 {
        0
    } else {
        let c = (seed % len) as usize;
        if Some(c) == current {
            ((c + 1) % (len as int)) as usize
        } else {
            c
        }
    }
}

/// Picks a queue position from `seed`: 0 for a queue of at most one track,
/// else `seed` modulo the length, moved on by one when that is `current`.
pub fn shuffle_pick(seed: usize, len: usize, current: Option<usize>) -> (r: usize)
    ensures
        r == shuffle_choice(seed, len, current),
        len > 1 ==> r < len && Some(r) != current,
{
    if len <= 1 {
        return 0;
    }
    let c = seed % len;
    if current == Some(c) {
        let r = if c + 1 < len { c + 1 } else { 0 };
        assert(r == (c + 1) % (len as int)) by {
            if c + 1 < len {
                vstd::arithmetic::div_mod::lemma_small_mod((c + 1) as nat, len as nat);
            } else {
                vstd::arithmetic::div_mod::lemma_mod_self_0(len as int);
            }
        }
        r
    } else {
        c
    }
}

/// The system clock's time, carried through unread.
#[verifier::external_type_specification]
#[verifier::external_body]
pub struct ExSystemTime(std::time::SystemTime);

/// `SystemTime::now`: the current time of the system clock. Nothing is
/// promised of it.
#[verifier::external_body]
fn system_now() -> std::time::SystemTime {
    std::time::SystemTime::now()
}

/// `SystemTime::duration_since` from the Unix epoch: the time elapsed since
/// then, or `None` for a time before it. Nothing is promised of the value.
#[verifier::external_body]
fn since_unix_epoch(t: &std::time::SystemTime) -> Option<std::time::Duration> {
    t.duration_since(std::time::UNIX_EPOCH).ok()
}

/// `Duration::subsec_nanos`: the nanoseconds past the whole seconds of `d`,
/// which its documentation bounds below one billion.
#[verifier::external_body]
fn subsec_nanos(d: &std::time::Duration) -> (n: u32)
    ensures
        n < 1_000_000_000,
{
    d.subsec_nanos()
}

/// The nanoseconds of the system clock within the current second, 0 when
/// the clock is before the Unix epoch.
fn clock_subsec_nanos() -> (n: u32)
    ensures
        n < 1_000_000_000,
{
    match since_unix_epoch(&system_now()) {
        Some(d) => subsec_nanos(&d),
        None => 0,
    }
}

/// Whether `after` follows from `before` once the next track of the queue
/// is asked for: the same with "repeat one", a random other one with
/// shuffle, else the following one, wrapping around unless repetition is
/// off.
pub open spec fn next_played(before: App, after: App) -> bool {
    &&& before.queue@.len() == 0 ==> after == before
    &&& before.queue@.len() > 0 && (before.repeat == RepeatMode::One || !before.shuffle) ==> match next_position(before) {
        Some(p) => p < before.queue@.len() && streamed(before, after, before.queue@[p as int]@, p),
        None => after == before,
    }
    &&& before.queue@.len() > 0 && before.repeat != RepeatMode::One && before.shuffle ==> exists|p: usize| {
        &&& p < before.queue@.len()
        &&& (before.queue@.len() > 1 ==> Some(p) != before.queue_index)
        &&& streamed(before, after, #[trigger] before.queue@[p as int]@, p)
    }
}

/// Whether `after` follows from `before` once the track before is asked
/// for: the one before the current, or the last one from the first
/// position or when nothing played.
pub open spec fn prev_played(before: App, after: App) -> bool {
    &&& before.queue@.len() == 0 ==> after == before
    &&& before.queue@.len() > 0 ==> prev_position(before) < before.queue@.len() && streamed(
        before,
        after,
        before.queue@[prev_position(before) as int]@,
        prev_position(before),
    )
}

/// Without shuffle and with "repeat one" off, "next" moves one place on
/// from the current position whatever the repeat mode; only after the last
/// track does the mode decide: "repeat all" goes back to the first track,
/// "repeat off" plays nothing.
pub proof fn lemma_next_steps_forward(before: App, after: App, i: usize)
    requires
        next_played(before, after),
        before.repeat != RepeatMode::One,
        !before.shuffle,
        before.queue@.len() > 0,
        before.queue_index == Some(i),
    ensures
        i + 1 < before.queue@.len() ==> after.queue_index == Some((i + 1) as usize) && streamed(
            before,
            after,
            before.queue@[i + 1]@,
            (i + 1) as usize,
        ),
        i + 1 >= before.queue@.len() && before.repeat == RepeatMode::All ==> after.queue_index == Some(0usize)
            && streamed(before, after, before.queue@[0]@, 0),
        i + 1 >= before.queue@.len() && before.repeat == RepeatMode::Off ==> after == before,
{
    assert(before.queue@.len() == before.queue.len());
    if i + 1 < before.queue@.len() {
        let p = (i + 1) as usize;
        assert(next_position(before) == Some(p));
        assert(streamed(before, after, before.queue@[p as int]@, p));
        assert(p as int == i + 1);
    } else if before.repeat == RepeatMode::All {
        assert(next_position(before) == Some(0usize));
    } else {
        assert(next_position(before) is None);
    }
}

/// With "repeat one", "next" plays the current track again.
pub proof fn lemma_next_repeats_one(before: App, after: App)
    requires
        next_played(before, after),
        before.repeat == RepeatMode::One,
        before.queue@.len() > 0,
        before.queue_index matches Some(i) && i < before.queue@.len(),
    ensures
        after.queue_index == before.queue_index,
        streamed(before, after, before.queue@[before.queue_index.unwrap() as int]@, before.queue_index.unwrap()),
{
}

/// "Previous" moves one place back from a current position past the
/// first, whatever the repeat mode; from the first position it goes to the
/// last track.
pub proof fn lemma_prev_steps_back(before: App, after: App, i: usize)
    requires
        prev_played(before, after),
        before.queue@.len() > 0,
        before.queue_index == Some(i),
    ensures
        i > 0 ==> after.queue_index == Some((i - 1) as usize) && streamed(
            before,
            after,
            before.queue@[i - 1]@,
            (i - 1) as usize,
        ),
        i == 0 ==> after.queue_index == Some((before.queue@.len() - 1) as usize) && streamed(
            before,
            after,
            before.queue@[before.queue@.len() - 1]@,
            (before.queue@.len() - 1) as usize,
        ),
{
    assert(before.queue@.len() == before.queue.len());
    let p = prev_position(before);
    if i > 0 {
        assert(p == (i - 1) as usize);
        assert(p as int == i - 1);
    } else {
        assert(p == (before.queue@.len() - 1) as usize);
    }
    assert(streamed(before, after, before.queue@[p as int]@, p));
}

/// With no current position, "previous" goes to the last track.
pub proof fn lemma_prev_without_position(before: App, after: App)
    requires
        prev_played(before, after),
        before.queue@.len() > 0,
        before.queue_index is None,
    ensures
        after.queue_index == Some((before.queue@.len() - 1) as usize),
        streamed(before, after, before.queue@[before.queue@.len() - 1]@, (before.queue@.len() - 1) as usize),
{
    assert(before.queue@.len() == before.queue.len());
}

impl App {
    /// A random queue position for shuffle: seeded by the clock and the time
    /// played, other than the current one when there is a choice.
    fn random_queue_index(&self) -> (r: usize)
        ensures
            self.queue@.len() <= 1 ==> r == 0,
            self.queue@.len() > 1 ==> r < self.queue@.len() && Some(r) != self.queue_index,
    {
        let nanos = clock_subsec_nanos() as usize;
        let seed = nanos ^ (self.player.elapsed_nanos as usize);
        shuffle_pick(seed, self.queue.len(), self.queue_index)
    }

    /// Plays the next track of the queue: the same with "repeat one", a
    /// random one with shuffle, else the following one, wrapping around
    /// unless repetition is off.
    #[verifier::spinoff_prover]
    #[verifier::rlimit(40)]
    pub fn play_next_bg(&mut self)
        requires
            old(self).stream_generation < u64::MAX,
            can_play_next(*old(self)),
        ensures
            next_played(*old(self), *final(self)),
    {
        if self.queue.len() == 0 {
            return;
        }
        let next: usize = if self.repeat == RepeatMode::One {
            match self.queue_index {
                Some(i) => i,
                None => 0,
            }
        } else if self.shuffle {
            self.random_queue_index()
        } else {
            match self.queue_index {
                Some(i) => {
                    if i < self.queue.len() - 1 {
                        i + 1
                    } else {
                        match self.repeat {
                            RepeatMode::Off => {
                                return;
                            },
                            _ => 0,
                        }
                    }
                },
                None => match self.repeat {
                    RepeatMode::Off => {
                        return;
                    },
                    _ => 0,
                },
            }
        };
        let track = self.queue[next].clone();
        self.stream_track_bg(track, next);
    }

    /// Plays the track before the current one, or the last one from the
    /// first position or when nothing played.
    pub fn play_prev_bg(&mut self)
        requires
            old(self).stream_generation < u64::MAX,
            can_play_prev(*old(self)),
        ensures
            prev_played(*old(self), *final(self)),
    {
        if self.queue.len() == 0 {
            return;
        }
        let prev = match self.queue_index {
            Some(i) => if i > 0 { i - 1 } else { self.queue.len() - 1 },
            None => self.queue.len() - 1,
        };
        let track = self.queue[prev].clone();
        self.stream_track_bg(track, prev);
    }
}


/// The track that "add to queue" takes from the search results or the
/// queue: the selected track of the search results (when the tracks section
/// is shown and no list is open), or the selected track of the queue tab.
pub open spec fn queue_candidate(a: App) -> Option<TrackView> {
    match a.active_tab {
        Tab::Search => if a.search.active_section != SearchSection::Tracks || a.search.viewing is Some {
            None
        } else {
            let c = a.search.cursor@[0];
            if c < a.search.results.tracks@.len() {
                Some(a.search.results.tracks@[c as int]@)
            } else {
                None
            }
        },
        Tab::Queue => if a.selected < a.queue@.len() {
            Some(a.queue@[a.selected as int]@)
        } else {
            None
        },
        _ => None,
    }
}

/// The track that "play" takes: the track under the tracks cursor of the
/// search results when no list is open there, or the selected track of the
/// queue tab.
pub open spec fn play_candidate(a: App) -> Option<TrackView> {
    match a.active_tab {
        Tab::Search => if a.search.viewing is Some {
            None
        } else {
            let c = a.search.cursor@[0];
            if c < a.search.results.tracks@.len() {
                Some(a.search.results.tracks@[c as int]@)
            } else {
                None
            }
        },
        Tab::Queue => if a.selected < a.queue@.len() {
            Some(a.queue@[a.selected as int]@)
        } else {
            None
        },
        _ => None,
    }
}

/// Whether playing the selected track streams one: logged in, with a track
/// under the selection.
pub open spec fn selected_streams(a: App) -> bool {
    a.authenticated && play_candidate(a) is Some
}

/// Whether playing from the open list streams a track: the cursor is on one.
pub open spec fn drilldown_streams(a: App) -> bool {
    match open_list(a) {
        Some((tracks, c)) => c < tracks.len(),
        None => false,
    }
}

/// Whether playing a favourite track streams one: the cursor is on one.
pub open spec fn fav_streams(a: App) -> bool {
    match a.library.fav_tracks {
        Some(t) => a.library.cursor@[2] < t@.len(),
        None => false,
    }
}

/// The open list of tracks and its cursor: the one of the search tab, else
/// the one of the library.
pub open spec fn open_list(a: App) -> Option<(Seq<Track>, usize)> {
    match a.search.viewing {
        Some(v) => Some((v.tracks@, v.cursor)),
        None => match a.library.viewing {
            Some(v) => Some((v.tracks@, v.cursor)),
            None => None,
        },
    }
}

/// The list of tracks that the "add" keys of the library work on: the open
/// list, else the favourite tracks when that section is active (`None` when
/// they are not loaded or another section is active).
pub open spec fn add_source(a: App) -> Option<(Seq<Track>, usize)> {
    match open_list(a) {
        Some(l) => Some(l),
        None => if a.library.active_section == LibrarySection::FavTracks {
            match a.library.fav_tracks {
                Some(t) => Some((t@, a.library.cursor@[2])),
                None => None,
            }
        } else {
            None
        },
    }
}

/// Whether `after` follows from `before` once the selected track of the
/// search results or of the queue tab is added to the queue.
pub open spec fn selected_added(before: App, after: App) -> bool {
    &&& !before.authenticated ==> after == (App { status_msg: after.status_msg, ..before })
    && after.status_msg@ == texts_of(before.lang).status_login_required_short@
    &&& before.authenticated ==> match queue_candidate(before) {
        None => after == before,
        Some(t) => if has_track_id(track_views(before.queue@), t.id) {
            after == (App { status_msg: after.status_msg, ..before })
                && after.status_msg@ == texts_of(before.lang).status_already_in_queue@
        } else {
            &&& after == (App { queue: after.queue, status_msg: after.status_msg, ..before })
            &&& track_views(after.queue@) == track_views(before.queue@).push(t)
            &&& after.status_msg@ == texts_of(before.lang).status_added_to_queue@
        },
    }
}

/// Whether `after` follows from `before` once the selected track is played.
pub open spec fn selected_played(before: App, after: App) -> bool {
    &&& !before.authenticated ==> after == (App { status_msg: after.status_msg, ..before })
    && after.status_msg@ == texts_of(before.lang).status_login_required_short@
    &&& before.authenticated ==> match play_candidate(before) {
        None => after == before,
        Some(t) => if before.active_tab == Tab::Search && before.search.active_section
            == SearchSection::Tracks {
            let q = if has_track_id(track_views(before.queue@), t.id) {
                track_views(before.queue@)
            } else {
                track_views(before.queue@).push(t)
            };
            &&& track_views(after.queue@) == q
            &&& streamed(
                App { queue: after.queue, ..before },
                after,
                t,
                position_of_id(q, t.id) as usize,
            )
        } else {
            streamed(before, after, t, before.selected)
        },
    }
}

/// Whether `after` follows from `before` once the selected playlist, mix
/// or favourite album of the library is opened.
pub open spec fn library_entered(before: App, after: App) -> bool {
    &&& ({
        let o = before;
        let lib = o.library;
        match lib.active_section {
            LibrarySection::Playlists => match lib.playlists {
                Some(p) if lib.cursor@[0] < p@.len() => {
                    let item = p@[lib.cursor@[0] as int];
                    &&& began(
                        App { library: LibraryState { pending_viewing_title: item.title, ..lib }, ..o },
                        after,
                        texts_of(o.lang).status_loading_playlist@,
                    )
                    &&& pushed_one(after.effects@, o.effects@)
                    &&& after.effects@.last() matches Effect::PlaylistTracks { uuid } && uuid == item.uuid
                },
                _ => after == o,
            },
            LibrarySection::Mixes => match lib.mixes {
                Some(m) if lib.cursor@[1] < m@.len() => {
                    let item = m@[lib.cursor@[1] as int];
                    &&& began(
                        App { library: LibraryState { pending_viewing_title: item.title, ..lib }, ..o },
                        after,
                        texts_of(o.lang).status_loading_mix@,
                    )
                    &&& pushed_one(after.effects@, o.effects@)
                    &&& after.effects@.last() matches Effect::MixTracks { mix_id } && mix_id == item.id
                },
                _ => after == o,
            },
            LibrarySection::FavTracks => after == o,
            LibrarySection::FavAlbums => match lib.fav_albums {
                Some(a) if lib.cursor@[3] < a@.len() => {
                    let item = a@[lib.cursor@[3] as int];
                    &&& began(
                        App { library: LibraryState { pending_viewing_title: item.title, ..lib }, ..o },
                        after,
                        loading_album_text(o.lang, item.title@),
                    )
                    &&& after.effects@ == o.effects@.push(Effect::AlbumTracks { album_id: item.id })
                },
                _ => after == o,
            },
        }
    })
}

/// Whether `after` follows from `before` once the track under the cursor
/// of the open list is played, the queue becoming it and those after it.
pub open spec fn drilldown_played(before: App, after: App) -> bool {
    &&& match open_list(before) {
        Some((tracks, c)) => if c < tracks.len() {
            &&& track_views(after.queue@) == track_views(tracks.skip(c as int))
            &&& streamed(App { queue: after.queue, ..before }, after, tracks[c as int]@, 0)
        } else {
            after == before
        },
        None => after == before,
    }
}

/// Whether `after` follows from `before` once the favourite track under
/// the cursor is played, the queue becoming it and the favourites after it.
pub open spec fn fav_played(before: App, after: App) -> bool {
    &&& ({
        let c = before.library.cursor@[2];
        match before.library.fav_tracks {
            Some(t) => if c < t@.len() {
                &&& track_views(after.queue@) == track_views(t@.skip(c as int))
                &&& streamed(App { queue: after.queue, ..before }, after, t@[c as int]@, 0)
            } else {
                after == before
            },
            None => after == before,
        }
    })
}

/// Whether `after` follows from `before` once the track under the cursor
/// of the open list (or of the favourite tracks) is added to the queue.
pub open spec fn current_added(before: App, after: App) -> bool {
    &&& match add_source(before) {
        Some((tracks, c)) => if c < tracks.len() {
            let t = tracks[c as int]@;
            if has_track_id(track_views(before.queue@), t.id) {
                after == (App { status_msg: after.status_msg, ..before })
                    && after.status_msg@ == texts_of(before.lang).status_already_in_queue@
            } else {
                &&& after == (App { queue: after.queue, status_msg: after.status_msg, ..before })
                &&& track_views(after.queue@) == track_views(before.queue@).push(t)
                &&& after.status_msg@ == added_one_text(t.title)
            }
        } else {
            after == before
        },
        None => after == before,
    }
}

/// Whether `after` follows from `before` once every track of the open
/// list (or the favourite tracks) is added to the queue.
pub open spec fn all_added(before: App, after: App) -> bool {
    &&& match add_source(before) {
        Some((tracks, _)) => {
            &&& after == (App { queue: after.queue, status_msg: after.status_msg, ..before })
            &&& track_views(after.queue@) == with_new_tracks(track_views(before.queue@), track_views(tracks))
            &&& after.status_msg@ == added_many_text((after.queue@.len() - before.queue@.len()) as nat)
        },
        None => after == before,
    }
}

impl App {
    /// Adds the selected track of the search results or of the queue tab to
    /// the queue, unless a track with its id is there already.
    pub fn add_selected_to_queue(&mut self)
        ensures
            selected_added(*old(self), *final(self)),
    {
        if !self.authenticated {
            self.require_login_short();
            return;
        }
        let track = match self.active_tab {
            Tab::Search => {
                if self.search.active_section != SearchSection::Tracks || self.search.viewing.is_some() {
                    return;
                }
                let c = self.search.cursor[0];
                if c < self.search.results.tracks.len() {
                    self.search.results.tracks[c].clone()
                } else {
                    return;
                }
            },
            Tab::Queue => {
                if self.selected < self.queue.len() {
                    self.queue[self.selected].clone()
                } else {
                    return;
                }
            },
            Tab::Now | Tab::Library => {
                return;
            },
        };
        if find_track_id(&self.queue, track.id).is_some() {
            self.text_status(self.lang.strings().status_already_in_queue);
            return;
        }
        let ghost q0 = self.queue@;
        self.queue.push(track);
        assert(track_views(self.queue@) =~= track_views(q0).push(track@));
        self.text_status(self.lang.strings().status_added_to_queue);
    }

    /// Plays the selected track. From the tracks of the search results it
    /// joins the end of the queue unless its id is there already, and plays
    /// at its place in the queue; otherwise it plays at the selected
    /// position.
    #[verifier::spinoff_prover]
    #[verifier::rlimit(40)]
    pub fn play_selected_bg(&mut self)
        requires
            selected_streams(*old(self)) ==> old(self).stream_generation < u64::MAX,
        ensures
            selected_played(*old(self), *final(self)),
    {
        if !self.authenticated {
            self.require_login_short();
            return;
        }
        let track = match self.active_tab {
            Tab::Search => {
                if self.search.viewing.is_some() {
                    return;
                }
                let c = self.search.cursor[0];
                if c < self.search.results.tracks.len() {
                    self.search.results.tracks[c].clone()
                } else {
                    return;
                }
            },
            Tab::Queue => {
                if self.selected < self.queue.len() {
                    self.queue[self.selected].clone()
                } else {
                    return;
                }
            },
            Tab::Now | Tab::Library => {
                return;
            },
        };
        let queue_index = if self.active_tab == Tab::Search && self.search.active_section
            == SearchSection::Tracks {
            if find_track_id(&self.queue, track.id).is_none() {
                let ghost q0 = self.queue@;
                self.queue.push(track.clone());
                assert(track_views(self.queue@) =~= track_views(q0).push(track@));
            }
            match find_track_id(&self.queue, track.id) {
                Some(p) => p,
                None => 0,
            }
        } else {
            self.selected
        };
        self.stream_track_bg(track, queue_index);
    }

    /// Opens the selected playlist, mix or favourite album of the library:
    /// its title is kept for the list to come and its tracks are requested.
    #[verifier::spinoff_prover]
    #[verifier::rlimit(40)]
    pub fn library_select_enter(&mut self)
        ensures
            library_entered(*old(self), *final(self)),
    {
        match self.library.active_section {
            LibrarySection::Playlists => {
                let cursor = self.library.cursor[0];
                let picked = match &self.library.playlists {
                    Some(p) => if cursor < p.len() {
                        Some((p[cursor].title.clone(), p[cursor].uuid.clone()))
                    } else {
                        None
                    },
                    None => None,
                };
                match picked {
                    Some((title, uuid)) => {
                        self.library.pending_viewing_title = title;
                        self.load_playlist_tracks_bg(uuid);
                    },
                    None => {},
                }
            },
            LibrarySection::Mixes => {
                let cursor = self.library.cursor[1];
                let picked = match &self.library.mixes {
                    Some(m) => if cursor < m.len() {
                        Some((m[cursor].title.clone(), m[cursor].id.clone()))
                    } else {
                        None
                    },
                    None => None,
                };
                match picked {
                    Some((title, id)) => {
                        self.library.pending_viewing_title = title;
                        self.load_mix_tracks_bg(id);
                    },
                    None => {},
                }
            },
            LibrarySection::FavTracks => {},
            LibrarySection::FavAlbums => {
                let cursor = self.library.cursor[3];
                let picked = match &self.library.fav_albums {
                    Some(a) => if cursor < a.len() {
                        Some((a[cursor].title.clone(), a[cursor].id, a[cursor].title.clone()))
                    } else {
                        None
                    },
                    None => None,
                };
                match picked {
                    Some((title, id, title2)) => {
                        self.library.pending_viewing_title = title;
                        self.load_album_tracks_bg(id, title2);
                    },
                    None => {},
                }
            },
        }
    }

    /// Plays the track under the cursor of the open list; the queue becomes
    /// that track and those after it.
    pub fn play_drilldown_track(&mut self)
        requires
            drilldown_streams(*old(self)) ==> old(self).stream_generation < u64::MAX,
        ensures
            drilldown_played(*old(self), *final(self)),
    {
        let picked = match &self.search.viewing {
            Some(v) => if v.cursor < v.tracks.len() {
                Some((v.tracks[v.cursor].clone(), clone_tracks_from(&v.tracks, v.cursor)))
            } else {
                None
            },
            None => match &self.library.viewing {
                Some(v) => if v.cursor < v.tracks.len() {
                    Some((v.tracks[v.cursor].clone(), clone_tracks_from(&v.tracks, v.cursor)))
                } else {
                    None
                },
                None => None,
            },
        };
        match picked {
            Some((track, remaining)) => {
                self.queue = remaining;
                self.stream_track_bg(track, 0);
            },
            None => {},
        }
    }

    /// Plays the favourite track under the cursor; the queue becomes that
    /// track and the favourites after it.
    pub fn play_fav_track(&mut self)
        requires
            fav_streams(*old(self)) ==> old(self).stream_generation < u64::MAX,
        ensures
            fav_played(*old(self), *final(self)),
    {
        let cursor = self.library.cursor[2];
        let picked = match &self.library.fav_tracks {
            Some(t) => if cursor < t.len() {
                Some((t[cursor].clone(), clone_tracks_from(t, cursor)))
            } else {
                None
            },
            None => None,
        };
        match picked {
            Some((track, remaining)) => {
                self.queue = remaining;
                self.stream_track_bg(track, 0);
            },
            None => {},
        }
    }

    /// Adds the track under the cursor of the open list (or of the favourite
    /// tracks) to the queue, unless a track with its id is there already.
    #[verifier::spinoff_prover]
    #[verifier::rlimit(40)]
    pub fn add_current_track_to_queue(&mut self)
        ensures
            current_added(*old(self), *final(self)),
    {
        let picked = match &self.search.viewing {
            Some(v) => if v.cursor < v.tracks.len() {
                Some(v.tracks[v.cursor].clone())
            } else {
                None
            },
            None => match &self.library.viewing {
                Some(v) => if v.cursor < v.tracks.len() {
                    Some(v.tracks[v.cursor].clone())
                } else {
                    None
                },
                None => if self.library.active_section == LibrarySection::FavTracks {
                    let c = self.library.cursor[2];
                    match &self.library.fav_tracks {
                        Some(t) => if c < t.len() {
                            Some(t[c].clone())
                        } else {
                            None
                        },
                        None => None,
                    }
                } else {
                    None
                },
            },
        };
        let track = match picked {
            Some(t) => t,
            None => {
                return;
            },
        };
        if find_track_id(&self.queue, track.id).is_some() {
            self.text_status(self.lang.strings().status_already_in_queue);
            return;
        }
        let mut msg = string_of("▶ Añadida: ");
        msg.append(track.title.as_str());
        let ghost q0 = self.queue@;
        self.queue.push(track);
        assert(track_views(self.queue@) =~= track_views(q0).push(track@));
        self.status_msg = msg;
    }

    /// Adds every track of the open list (or the favourite tracks) whose id
    /// is not in the queue yet, in order, and tells how many were added.
    #[verifier::spinoff_prover]
    #[verifier::rlimit(40)]
    pub fn add_all_tracks_to_queue(&mut self)
        ensures
            all_added(*old(self), *final(self)),
    {
        let source = match &self.search.viewing {
            Some(v) => {
                assert(v.tracks@.skip(0) =~= v.tracks@);
                Some(clone_tracks_from(&v.tracks, 0))
            },
            None => match &self.library.viewing {
                Some(v) => {
                    assert(v.tracks@.skip(0) =~= v.tracks@);
                    Some(clone_tracks_from(&v.tracks, 0))
                },
                None => if self.library.active_section == LibrarySection::FavTracks {
                    match &self.library.fav_tracks {
                        Some(t) => {
                            assert(t@.skip(0) =~= t@);
                            Some(clone_tracks_from(t, 0))
                        },
                        None => None,
                    }
                } else {
                    None
                },
            },
        };
        let tracks = match source {
            Some(t) => t,
            None => {
                return;
            },
        };
        let ghost src = track_views(tracks@);
        let ghost q0 = track_views(self.queue@);
        let q0len = self.queue.len();
        let mut i: usize = 0;
        proof {
            assert(src.take(0) =~= Seq::<TrackView>::empty());
        }
        while i < tracks.len()
            invariant
                i <= tracks@.len(),
                src == track_views(tracks@),
                track_views(self.queue@) == with_new_tracks(q0, src.take(i as int)),
                self.queue@.len() >= q0len,
                q0len == q0.len(),
                *self == (App { queue: self.queue, ..*old(self) }),
            decreases tracks@.len() - i,
        {
            let ghost prev = track_views(self.queue@);
            assert(src.take(i + 1).drop_last() =~= src.take(i as int));
            assert(src.take(i + 1).last() == tracks@[i as int]@);
            if find_track_id(&self.queue, tracks[i].id).is_none() {
                let t = tracks[i].clone();
                let ghost before = self.queue@;
                self.queue.push(t);
                assert(track_views(self.queue@) =~= prev.push(t@));
            }
            i = i + 1;
        }
        assert(src.take(tracks@.len() as int) =~= src);
        let added = self.queue.len() - q0len;
        let mut msg = string_of("▶ ");
        crate::text::push_decimal(&mut msg, added as u64);
        msg.append(" canciones añadidas a la cola");
        self.status_msg = msg;
    }
}

/// Whether no id occurs twice among `q`.
pub open spec fn ids_unique(q: Seq<TrackView>) -> bool {
    forall|i: int, j: int| 0 <= i < q.len() && 0 <= j < q.len() && i != j ==> q[i].id != q[j].id
}

/// Adding the tracks of a list to the queue keeps what was there in front,
/// adds at most the list's tracks, never puts an id in twice when none was
/// there twice, and leaves every id of the list in the queue.
pub proof fn lemma_adding_keeps_ids_unique(dst: Seq<TrackView>, src: Seq<TrackView>)
    ensures
        dst.len() <= with_new_tracks(dst, src).len() <= dst.len() + src.len(),
        with_new_tracks(dst, src).take(dst.len() as int) == dst,
        ids_unique(dst) ==> ids_unique(with_new_tracks(dst, src)),
        forall|i: int| 0 <= i < src.len() ==> has_track_id(with_new_tracks(dst, src), #[trigger] src[i].id),
    decreases src.len(),
{
    if src.len() == 0 {
        assert(dst.take(dst.len() as int) =~= dst);
    } else {
        let prev = with_new_tracks(dst, src.drop_last());
        lemma_adding_keeps_ids_unique(dst, src.drop_last());
        let x = src.last();
        let cur = with_new_tracks(dst, src);
        if !has_track_id(prev, x.id) {
            assert(cur == prev.push(x));
            assert(cur.take(dst.len() as int) =~= prev.take(dst.len() as int));
            if ids_unique(prev) {
                assert forall|i: int, j: int|
                    0 <= i < cur.len() && 0 <= j < cur.len() && i != j implies cur[i].id != cur[j].id by {
                    if i == prev.len() {
                        assert(cur[j] == prev[j]);
                    } else if j == prev.len() {
                        assert(cur[i] == prev[i]);
                    }
                }
            }
            assert(cur[prev.len() as int] == x);
        }
        assert forall|i: int| 0 <= i < src.len() implies has_track_id(cur, #[trigger] src[i].id) by {
            if i < src.len() - 1 {
                assert(src[i] == src.drop_last()[i]);
                let w = choose|w: int| 0 <= w < prev.len() && #[trigger] prev[w].id == src[i].id;
                assert(cur[w] == prev[w]);
            } else if has_track_id(prev, x.id) {
                let w = choose|w: int| 0 <= w < prev.len() && #[trigger] prev[w].id == x.id;
                assert(cur[w] == prev[w]);
            } else {
                assert(cur[prev.len() as int] == x);
            }
        }
    }
}

/// Removing a track other than the playing one keeps the playing track
/// current: the position left by the removal points to the same track.
pub proof fn lemma_removal_keeps_current<T>(q: Seq<T>, qi: usize, index: usize)
    requires
        index < q.len(),
        qi < q.len(),
        qi != index,
    ensures
        index_after_removal(Some(qi), index) matches Some(j) && j < q.len() - 1 && q.remove(index as int)[j as int]
            == q[qi as int],
{
}

/// Without shuffle and with the whole queue repeating, "previous" goes back
/// to the track that "next" left, and "next" to the one "previous" left.
pub proof fn lemma_prev_undoes_next(a: App)
    requires
        a.repeat == RepeatMode::All,
        a.queue_index matches Some(i) && i < a.queue@.len(),
    ensures
        next_position(a) matches Some(n) && n < a.queue@.len() && prev_position(
            App { queue_index: Some(n), ..a },
        ) == a.queue_index.unwrap(),
        prev_position(a) < a.queue@.len(),
        next_position(App { queue_index: Some(prev_position(a)), ..a }) == a.queue_index,
{
    assert(a.queue.len() == a.queue@.len());
}

/// Every volume command leaves the volume at most 100, and lowering never
/// raises it.
pub proof fn lemma_volume_in_range(v: u8)
    ensures
        raised_volume(v) <= 100,
        capped_volume(v) <= 100,
        lowered_volume(v) <= v,
        v <= 100 ==> raised_volume(v) >= v,
{
}

/// Four moves to the next tab come back to the tab one started from.
pub proof fn lemma_tab_cycle(t: Tab)
    ensures
        tab_after(tab_after(tab_after(tab_after(t)))) == t,
        tab_after(t) != t,
{
}

/// Moving through the tabs never touches the search: its input, results,
/// section, cursors and focus stay as they were, and so does the queue.
pub proof fn lemma_tabs_keep_search(before: App, after: App)
    requires
        tab_advanced(before, after),
    ensures
        after.search == before.search,
        after.queue == before.queue,
{
}

} // verus!
