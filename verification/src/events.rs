//! What the application does with a finished background task or a remote
//! command.
use crate::app::{
    can_play_next, can_play_prev, has_track_id, position_of_id, pushed_one, streamed, streams,
    ApiCommand, ApiTrack, App, Effect, RepeatMode, Tab,
};
use crate::i18n::{
    auth_error_text, browser_failed_text, browser_opened_text, fav_albums_loaded_text,
    fav_tracks_loaded_text, library_loaded_text, results_count_text, search_error_text,
    stream_error_text, texts_of, tracks_loaded_text,
};
use crate::library::{LibrarySection, LibraryState, LibraryViewing};
use crate::lyrics::Lyrics;
use crate::player::{
    stopped_from, Player, PlayerCommand, PlayerState, TrackInfo, ELAPSED_MAX, NANOS_PER_SEC,
};
use crate::search::{
    appended_new, append_dedup, count_new, search_section_index, SearchFocus, SearchSection, SearchState,
};
use crate::text::{chars_of, decimal, join, push_decimal, string_of};
use crate::tidal::{
    artist_names_of, track_views, Album, Artist, CoverInfo, FavAlbum, Mix, Playlist,
    SearchResults, StreamInfo, Track, TrackView,
};
use vstd::prelude::*;
use vstd::string::*;

verus! {

/// What a background task or a remote command reports.
#[derive(Debug)]
#[allow(inconsistent_fields)]
pub enum AppEvent {
    SearchDone(Result<SearchResults, String>, u64),
    SearchMoreDone(Result<SearchResults, String>, u64, SearchSection),
    StreamReady { track: Track, info: StreamInfo, queue_index: usize, generation: u64 },
    StreamError { error: String, generation: u64 },
    AuthStarted { url: String, code: String, device_code: String },
    AuthDone,
    AuthError(String),
    StatusMsg(String),
    /// A cover was fetched and decoded.
    CoverReady { info: CoverInfo, image: image::DynamicImage },
    CoverError,
    LibraryLoaded { playlists: Vec<Playlist>, mixes: Vec<Mix> },
    PlaylistTracksLoaded(Vec<Track>),
    FavTracksLoaded(Vec<Track>),
    FavAlbumsLoaded(Vec<FavAlbum>),
    ApiCmd(ApiCommand),
    LyricsReady(Lyrics),
    LyricsError,
}

/// The name of a text produced from an arbitrary string by Unicode upper
/// casing, as `str::to_uppercase` does it.
pub uninterp spec fn upper_case(s: Seq<char>) -> Seq<char>;

/// `str::to_uppercase`: the Unicode upper case of `s`, which depends on
/// the text alone (no locale enters). The contract names the result and
/// says nothing more of it.
#[verifier::external_body]
pub(crate) fn to_upper(s: &str) -> (r: String)
    ensures
        r@ == upper_case(s@),
{
    s.to_uppercase()
}

/// The number of results of every section together.
pub open spec fn results_total(r: SearchResults) -> nat {
    r.tracks@.len() + r.albums@.len() + r.artists@.len() + r.playlists@.len()
}

/// The search state once the first page of a search arrived.
pub open spec fn first_page_state(s: SearchState, r: SearchResults) -> SearchState {
    SearchState {
        results: r,
        cursor: s.cursor,
        loaded: s.loaded,
        exhausted: s.exhausted,
        focus: SearchFocus::Sidebar,
        active_section: SearchSection::Tracks,
        viewing: None,
        ..s
    }
}

/// The lengths of the four result lists, in sidebar order.
pub open spec fn section_lengths(r: SearchResults) -> Seq<usize> {
    seq![
        r.tracks@.len() as usize,
        r.albums@.len() as usize,
        r.artists@.len() as usize,
        r.playlists@.len() as usize,
    ]
}

/// Whether `after` follows from `before` on the first page `r` of search
/// generation `g`: a stale generation changes nothing; otherwise the results
/// are replaced, every cursor goes to the top, the sidebar is on the tracks,
/// paging counts the items received and marks a section exhausted when it
/// holds less than a page, and the search tab is shown.
pub open spec fn search_done_post(before: App, after: App, r: SearchResults, g: u64) -> bool {
    if g != before.search_generation {
        after == before
    } else {
        let total = results_total(r);
        &&& after == (App {
            search: first_page_state(after.search, r),
            status_msg: after.status_msg,
            active_tab: Tab::Search,
            loading: false,
            ..before
        })
        &&& after.search == first_page_state(
            SearchState { cursor: after.search.cursor, loaded: after.search.loaded, exhausted: after.search.exhausted, ..before.search },
            r,
        )
        &&& after.search.cursor@ == seq![0usize, 0usize, 0usize, 0usize]
        &&& after.search.loaded@ == section_lengths(r)
        &&& after.search.exhausted@ == section_lengths(r).map_values(|n: usize| n < crate::app::PAGE_SIZE)
        &&& after.status_msg@ == if total == 0 {
            texts_of(before.lang).status_no_results@
        } else {
            results_count_text(before.lang, total as nat)
        }
    }
}

/// Whether `after` is `before` with a failed search of generation `g`
/// reported (stale generations change nothing).
pub open spec fn search_failed_post(before: App, after: App, e: Seq<char>, g: u64) -> bool {
    if g != before.search_generation {
        after == before
    } else {
        &&& after == (App { status_msg: after.status_msg, loading: false, ..before })
        &&& after.status_msg@ == search_error_text(before.lang, e)
    }
}

/// Whether the items of section `s` in `new` are those of `old` with the
/// new items of `page` appended, and the other sections are unchanged.
pub open spec fn section_appended(new: SearchResults, old: SearchResults, page: SearchResults, s: SearchSection) -> bool {
    match s {
        SearchSection::Tracks => new == SearchResults { tracks: new.tracks, ..old }
            && new.tracks@ == appended_new(old.tracks@, page.tracks@),
        SearchSection::Albums => new == SearchResults { albums: new.albums, ..old }
            && new.albums@ == appended_new(old.albums@, page.albums@),
        SearchSection::Artists => new == SearchResults { artists: new.artists, ..old }
            && new.artists@ == appended_new(old.artists@, page.artists@),
        SearchSection::Playlists => new == SearchResults { playlists: new.playlists, ..old }
            && new.playlists@ == appended_new(old.playlists@, page.playlists@),
    }
}

/// How many items of section `s` of `page` are new to `old`.
pub open spec fn new_items(old: SearchResults, page: SearchResults, s: SearchSection) -> int {
    match s {
        SearchSection::Tracks => appended_new(old.tracks@, page.tracks@).len() - old.tracks@.len(),
        SearchSection::Albums => appended_new(old.albums@, page.albums@).len() - old.albums@.len(),
        SearchSection::Artists => appended_new(old.artists@, page.artists@).len() - old.artists@.len(),
        SearchSection::Playlists => appended_new(old.playlists@, page.playlists@).len() - old.playlists@.len(),
    }
}

/// Whether `after` follows from `before` on a further page `page` of section
/// `s` for search generation `g`: a stale generation changes nothing;
/// otherwise the new items are appended, the count of fetched items grows by
/// their number, and the section is marked exhausted when the page was short
/// or brought nothing new.
pub open spec fn search_more_post(before: App, after: App, page: SearchResults, g: u64, s: SearchSection) -> bool {
    if g != before.search_generation {
        after == before
    } else {
        let i = search_section_index(s);
        let added = new_items(before.search.results, page, s);
        let short = crate::search::results_len(page, s) < crate::app::PAGE_SIZE || added == 0;
        &&& after == (App {
            search: SearchState {
                results: after.search.results,
                loaded: after.search.loaded,
                exhausted: after.search.exhausted,
                ..before.search
            },
            status_msg: after.status_msg,
            loading: false,
            ..before
        })
        &&& section_appended(after.search.results, before.search.results, page, s)
        &&& after.search.loaded@ == before.search.loaded@.update(i, (before.search.loaded@[i] + added) as usize)
        &&& after.search.exhausted@ == if short {
            before.search.exhausted@.update(i, true)
        } else {
            before.search.exhausted@
        }
        &&& after.status_msg@ == results_count_text(before.lang, crate::search::results_len(after.search.results, s))
    }
}

/// Appends to section `s` of `results` the items of that section of
/// `page` whose key is new; returns how many there were.
fn extend_section(results: &mut SearchResults, page: SearchResults, s: SearchSection) -> (n: usize)
    ensures
        section_appended(*final(results), *old(results), page, s),
        n == new_items(*old(results), page, s),
{
    match s {
        SearchSection::Tracks => append_dedup(&mut results.tracks, page.tracks),
        SearchSection::Albums => append_dedup(&mut results.albums, page.albums),
        SearchSection::Artists => append_dedup(&mut results.artists, page.artists),
        SearchSection::Playlists => append_dedup(&mut results.playlists, page.playlists),
    }
}

impl App {
    /// Takes the first page of a search.
    #[verifier::spinoff_prover]
    #[verifier::rlimit(40)]
    pub fn on_search_done(&mut self, r: SearchResults, g: u64)
        requires
            g == old(self).search_generation ==> results_total(r) <= usize::MAX,
        ensures
            search_done_post(*old(self), *final(self), r, g),
    {
        if g != self.search_generation {
            return;
        }
        let total: usize = r.tracks.len() + r.albums.len() + r.artists.len() + r.playlists.len();
        self.status_msg = if total == 0 {
            string_of(self.lang.strings().status_no_results)
        } else {
            self.lang.results_count(total)
        };
        let loaded: [usize; 4] = [r.tracks.len(), r.albums.len(), r.artists.len(), r.playlists.len()];
        let exhausted: [bool; 4] = [
            r.tracks.len() < crate::app::PAGE_SIZE,
            r.albums.len() < crate::app::PAGE_SIZE,
            r.artists.len() < crate::app::PAGE_SIZE,
            r.playlists.len() < crate::app::PAGE_SIZE,
        ];
        let cursor: [usize; 4] = [0, 0, 0, 0];
        assert(loaded@ =~= section_lengths(r));
        assert(exhausted@ =~= section_lengths(r).map_values(|n: usize| n < crate::app::PAGE_SIZE));
        assert(cursor@ =~= seq![0usize, 0usize, 0usize, 0usize]);
        self.search.results = r;
        self.search.cursor = cursor;
        self.search.focus = SearchFocus::Sidebar;
        self.search.active_section = SearchSection::Tracks;
        self.search.viewing = None;
        self.search.loaded = loaded;
        self.search.exhausted = exhausted;
        self.active_tab = Tab::Search;
        self.loading = false;
    }

    /// Reports a failed search.
    pub fn on_search_failed(&mut self, e: String, g: u64)
        ensures
            search_failed_post(*old(self), *final(self), e@, g),
    {
        if g != self.search_generation {
            return;
        }
        self.status_msg = self.lang.search_error(e.as_str());
        self.loading = false;
    }

    /// Takes a further page of section `s`.
    #[verifier::spinoff_prover]
    #[verifier::rlimit(40)]
    pub fn on_search_more_done(&mut self, page: SearchResults, g: u64, s: SearchSection)
        requires
            g == old(self).search_generation ==> old(self).search.loaded@[search_section_index(s)]
                + new_items(old(self).search.results, page, s) <= usize::MAX,
        ensures
            search_more_post(*old(self), *final(self), page, g, s),
    {
        if g != self.search_generation {
            return;
        }
        let idx = s.index();
        let page_size = crate::search::results_len_of(&page, s);
        let appended = extend_section(&mut self.search.results, page, s);
        self.search.loaded[idx] = self.search.loaded[idx] + appended;
        if page_size < crate::app::PAGE_SIZE || appended == 0 {
            self.search.exhausted[idx] = true;
        }
        self.status_msg = self.lang.results_count(self.search.len(s));
        self.loading = false;
    }
}


/// The status line once a stream is ready: artists, title, bit depth,
/// sample rate and codec in upper case.
pub open spec fn now_playing_text(artists: Seq<char>, title: Seq<char>, bit_depth: u32, sample_rate: u32, codec: Seq<char>) -> Seq<char> {
    now_playing_line_text(artists, title, bit_depth, sample_rate, upper_case(codec))
}

/// The status line of a stream that started, from the codec's name already
/// in upper case.
pub open spec fn now_playing_line_text(
    artists: Seq<char>,
    title: Seq<char>,
    bit_depth: u32,
    sample_rate: u32,
    codec_upper: Seq<char>,
) -> Seq<char> {
    "▶ "@ + artists + " — "@ + title + " | "@ + decimal(bit_depth as nat) + "/"@ + decimal(sample_rate as nat)
        + " "@ + codec_upper
}

/// The status line of a stream that started: `▶ artists — title |
/// bits/rate CODEC`, from the codec's name already in upper case.
pub fn now_playing_line(artists: &str, title: &str, bit_depth: u32, sample_rate: u32, codec_upper: &str) -> (s: String)
    ensures
        s@ == now_playing_line_text(artists@, title@, bit_depth, sample_rate, codec_upper@),
{
    let mut msg = string_of("▶ ");
    msg.append(artists);
    msg.append(" — ");
    msg.append(title);
    msg.append(" | ");
    push_decimal(&mut msg, bit_depth as u64);
    msg.append("/");
    push_decimal(&mut msg, sample_rate as u64);
    msg.append(" ");
    msg.append(codec_upper);
    msg
}

/// Whether `after` is the player `before` once `play` started the stream at
/// `url`, the track itself left aside.
pub open spec fn launched_from(before: Player, after: Player, url: Seq<char>) -> bool {
    &&& after.state == PlayerState::Stopped
    &&& after.elapsed_nanos == 0
    &&& after.clock_running
    &&& after.pos_skip == 0
    &&& !after.has_process
    &&& after.volume == before.volume
    &&& after.commands@.len() > 0
    &&& after.commands@.drop_last() == before.commands@ + crate::player::stop_commands(before.has_process)
        + seq![PlayerCommand::RemoveSocket]
    &&& after.commands@.last() matches PlayerCommand::Launch { url: u, volume: v } && u@ == url && v == before.volume
}

/// Whether `after` follows from `before` once the stream of the track `t` at
/// queue position `qi` is ready (generation `g`): a stale generation changes
/// nothing; otherwise the track plays, its cover and lyrics are requested.
pub open spec fn stream_ready_post(before: App, after: App, t: TrackView, info: StreamInfo, qi: usize, g: u64) -> bool {
    if g != before.stream_generation {
        after == before
    } else {
        let artists = join(artist_names_of(t.artists), ", "@);
        &&& after == (App {
            queue_index: Some(qi),
            current_track_id: Some(t.id),
            status_msg: after.status_msg,
            player: after.player,
            loading: false,
            auto_advance: true,
            effects: after.effects,
            ..before
        })
        &&& after.status_msg@ == now_playing_text(artists, t.title, info.bit_depth, info.sample_rate, info.codec@)
        &&& launched_from(before.player, after.player, info.url@)
        &&& after.player.current matches Some(ti) && ti.title@ == t.title && ti.artist@ == artists
            && ti.album@ == t.album.title@ && ti.duration == t.duration && ti.bit_depth == info.bit_depth
            && ti.sample_rate == info.sample_rate && ti.codec@ == info.codec@
        &&& after.effects@ == before.effects@.push(Effect::Cover { track_id: t.id }).push(
            Effect::Lyrics { track_id: t.id },
        )
    }
}

/// Whether `after` follows from `before` once the stream of generation `g`
/// failed with `e`: a stale generation changes nothing (0 stands for a
/// failed load, which is never stale); the error is shown and, for a stream,
/// the next track of the queue is tried.
pub open spec fn stream_error_post(before: App, after: App, e: Seq<char>, g: u64) -> bool {
    if g != 0 && g != before.stream_generation {
        after == before
    } else {
        let mid = App { status_msg: after.status_msg, loading: false, ..before };
        let next = match before.queue_index {
            Some(i) => if g != 0 && i + 1 < before.queue@.len() {
                Some((i + 1) as usize)
            } else {
                None
            },
            None => None,
        };
        match next {
            Some(n) => streamed(
                App { loading: false, ..before },
                after,
                before.queue@[n as int]@,
                n,
            ),
            None => after == mid && after.status_msg@ == stream_error_text(before.lang, e),
        }
    }
}

/// Whether `s` starts with `p`.
pub open spec fn has_prefix(s: Seq<char>, p: Seq<char>) -> bool {
    s.len() >= p.len() && s.take(p.len() as int) == p
}

/// The address to open for a login: `url` itself when it starts with
/// `http://` or `https://`, else `url` behind `https://`.
pub open spec fn login_address(url: Seq<char>) -> Seq<char> {
    if has_prefix(url, "http://"@) || has_prefix(url, "https://"@) {
        url
    } else {
        "https://"@ + url
    }
}

fn starts_with(s: &Vec<char>, p: &str) -> (b: bool)
    ensures
        b == has_prefix(s@, p@),
{
    let pv = chars_of(p);
    if s.len() < pv.len() {
        return false;
    }
    let mut i: usize = 0;
    while i < pv.len()
        invariant
            i <= pv@.len() <= s@.len(),
            pv@ == p@,
            forall|j: int| 0 <= j < i ==> s@[j] == pv@[j],
        decreases pv@.len() - i,
    {
        if s[i] != pv[i] {
            assert(s@.take(pv@.len() as int)[i as int] != pv@[i as int]);
            return false;
        }
        i = i + 1;
    }
    assert(s@.take(pv@.len() as int) =~= pv@);
    true
}

/// The text of an optional string, empty when absent.
pub open spec fn text_of(o: Option<String>) -> Seq<char> {
    match o {
        Some(s) => s@,
        None => Seq::empty(),
    }
}

/// Whether `after` is `before` keeping the codes of a device login that
/// started, with its page to be opened in a browser.
pub open spec fn auth_started(before: App, after: App, url: String, code: String, device_code: String) -> bool {
    &&& after == (App {
        device_code: Some(device_code),
        user_code: Some(code),
        auth_url: Some(url),
        loading: false,
        effects: after.effects,
        ..before
    })
    &&& pushed_one(after.effects@, before.effects@)
    &&& after.effects@.last() matches Effect::OpenBrowser { url: u } && u@ == login_address(url@)
}

/// Whether `after` is `before` logged in, the login codes forgotten.
pub open spec fn auth_completed(before: App, after: App) -> bool {
    &&& after == (App {
        authenticated: true,
        device_code: None,
        user_code: None,
        auth_url: None,
        status_msg: after.status_msg,
        loading: false,
        ..before
    })
    &&& after.status_msg@ == texts_of(before.lang).status_auth_done@
}

/// Whether `after` is `before` reporting the failed login `e`.
pub open spec fn auth_failed(before: App, after: App, e: String) -> bool {
    &&& after == (App { status_msg: after.status_msg, loading: false, ..before })
    &&& after.status_msg@ == auth_error_text(before.lang, e@)
}

/// Whether `after` is `before` holding the user's playlists and mixes and
/// showing the library.
pub open spec fn library_received(before: App, after: App, playlists: Vec<Playlist>, mixes: Vec<Mix>) -> bool {
    &&& after == (App {
        library: LibraryState { playlists: Some(playlists), mixes: Some(mixes), ..before.library },
        active_tab: Tab::Library,
        loading: false,
        status_msg: after.status_msg,
        ..before
    })
    &&& after.status_msg@ == library_loaded_text(before.lang, playlists@.len(), mixes@.len())
}

/// Whether `after` is `before` showing the loaded list `tracks`: in the
/// search tab when a title waits there, else in the library, from the top.
pub open spec fn tracks_received(before: App, after: App, tracks: Vec<Track>) -> bool {
    &&& before.search.pending_viewing_title@.len() > 0 ==> {
        &&& after == (App {
            search: SearchState {
                viewing: Some(LibraryViewing { title: before.search.pending_viewing_title, tracks, cursor: 0 }),
                pending_viewing_title: after.search.pending_viewing_title,
                ..before.search
            },
            loading: false,
            status_msg: after.status_msg,
            ..before
        })
        &&& after.search.pending_viewing_title@.len() == 0
    }
    &&& before.search.pending_viewing_title@.len() == 0 ==> {
        &&& after == (App {
            library: LibraryState {
                viewing: Some(LibraryViewing { title: before.library.pending_viewing_title, tracks, cursor: 0 }),
                pending_viewing_title: after.library.pending_viewing_title,
                ..before.library
            },
            loading: false,
            status_msg: after.status_msg,
            ..before
        })
        &&& after.library.pending_viewing_title@.len() == 0
    }
    &&& after.status_msg@ == tracks_loaded_text(before.lang, tracks@.len())
}

/// Whether `after` is `before` holding the favourite tracks `tracks`.
pub open spec fn fav_tracks_received(before: App, after: App, tracks: Vec<Track>) -> bool {
    &&& after == (App {
        library: LibraryState { fav_tracks: Some(tracks), ..before.library },
        loading: false,
        status_msg: after.status_msg,
        ..before
    })
    &&& after.status_msg@ == fav_tracks_loaded_text(before.lang, tracks@.len())
}

/// Whether `after` is `before` holding and showing the favourite albums,
/// from the top.
pub open spec fn fav_albums_received(before: App, after: App, albums: Vec<FavAlbum>) -> bool {
    &&& after == (App {
        library: LibraryState {
            fav_albums: Some(albums),
            cursor: after.library.cursor,
            active_section: LibrarySection::FavAlbums,
            ..before.library
        },
        active_tab: Tab::Library,
        loading: false,
        status_msg: after.status_msg,
        ..before
    })
    &&& after.library.cursor@ == before.library.cursor@.update(3, 0usize)
    &&& after.status_msg@ == fav_albums_loaded_text(before.lang, albums@.len())
}

impl App {
    /// Plays the track whose stream is ready, unless a newer stream was asked
    /// for meanwhile; its cover and lyrics are requested.
    #[verifier::spinoff_prover]
    #[verifier::rlimit(40)]
    pub fn on_stream_ready(&mut self, track: Track, info: StreamInfo, queue_index: usize, generation: u64)
        ensures
            stream_ready_post(*old(self), *final(self), track@, info, queue_index, generation),
    {
        if generation != self.stream_generation {
            return;
        }
        self.queue_index = Some(queue_index);
        self.current_track_id = Some(track.id);
        let artists = track.artist_names();
        let ti = TrackInfo {
            title: track.title.clone(),
            artist: track.artist_names(),
            album: track.album.title.clone(),
            duration: track.duration,
            bit_depth: info.bit_depth,
            sample_rate: info.sample_rate,
            codec: info.codec.clone(),
        };
        let upper = to_upper(info.codec.as_str());
        self.status_msg = now_playing_line(
            artists.as_str(),
            track.title.as_str(),
            info.bit_depth,
            info.sample_rate,
            upper.as_str(),
        );
        self.player.play(info.url.as_str(), ti);
        self.loading = false;
        self.auto_advance = true;
        self.load_cover_bg(track.id);
        self.load_lyrics_bg(track.id);
    }

    /// Reports a stream or load that failed; after a failed stream the next
    /// track of the queue is tried.
    #[verifier::spinoff_prover]
    #[verifier::rlimit(40)]
    pub fn on_stream_error(&mut self, error: String, generation: u64)
        requires
            stream_error_advances(*old(self), generation) ==> old(self).stream_generation < u64::MAX,
        ensures
            stream_error_post(*old(self), *final(self), error@, generation),
    {
        if generation != 0 && generation != self.stream_generation {
            return;
        }
        self.status_msg = self.lang.stream_error(error.as_str());
        self.loading = false;
        if generation != 0 {
            match self.queue_index {
                Some(i) => {
                    if i < self.queue.len() && i + 1 < self.queue.len() {
                        let next = i + 1;
                        let track = self.queue[next].clone();
                        self.stream_track_bg(track, next);
                    }
                },
                None => {},
            }
        }
    }

    /// Keeps the codes of a device login that started and asks for its page
    /// to be opened in a browser.
    pub fn on_auth_started(&mut self, url: String, code: String, device_code: String)
        ensures
            auth_started(*old(self), *final(self), url, code, device_code),
    {
        let chars = chars_of(url.as_str());
        let to_open = if starts_with(&chars, "http://") || starts_with(&chars, "https://") {
            url.clone()
        } else {
            let mut u = string_of("https://");
            u.append(url.as_str());
            u
        };
        self.device_code = Some(device_code);
        self.user_code = Some(code);
        self.auth_url = Some(url);
        self.effects.push(Effect::OpenBrowser { url: to_open });
        assert(self.effects@.drop_last() == old(self).effects@);
        self.loading = false;
    }

    /// Reports whether the login page could be opened: with the error and
    /// the address when not, with the user code when it was.
    pub fn browser_result(&mut self, error: Option<String>)
        ensures
            *final(self) == (App { status_msg: final(self).status_msg, ..*old(self) }),
            final(self).status_msg@ == match error {
                Some(e) => browser_failed_text(old(self).lang, e@, text_of(old(self).auth_url)),
                None => browser_opened_text(old(self).lang, text_of(old(self).user_code)),
            },
    {
        let url = match &self.auth_url {
            Some(u) => u.clone(),
            None => String::new(),
        };
        let code = match &self.user_code {
            Some(c) => c.clone(),
            None => String::new(),
        };
        self.status_msg = match error {
            Some(e) => self.lang.browser_failed(e.as_str(), url.as_str()),
            None => self.lang.browser_opened(code.as_str()),
        };
    }

    /// Takes a completed login.
    pub fn on_auth_done(&mut self)
        ensures
            auth_completed(*old(self), *final(self)),
    {
        self.authenticated = true;
        self.device_code = None;
        self.user_code = None;
        self.auth_url = None;
        self.status_msg = string_of(self.lang.strings().status_auth_done);
        self.loading = false;
    }

    /// Reports a failed login.
    pub fn on_auth_error(&mut self, e: String)
        ensures
            auth_failed(*old(self), *final(self), e),
    {
        self.status_msg = self.lang.auth_error(e.as_str());
        self.loading = false;
    }

    /// Takes the user's playlists and mixes and shows the library.
    pub fn on_library_loaded(&mut self, playlists: Vec<Playlist>, mixes: Vec<Mix>)
        ensures
            library_received(*old(self), *final(self), playlists, mixes),
    {
        let plen = playlists.len();
        let mlen = mixes.len();
        self.library.playlists = Some(playlists);
        self.library.mixes = Some(mixes);
        self.active_tab = Tab::Library;
        self.loading = false;
        self.status_msg = self.lang.library_loaded(plen, mlen);
    }

    /// Opens a loaded list of tracks: in the search tab when a title waits
    /// there, else in the library; its cursor starts at the top.
    pub fn on_playlist_tracks_loaded(&mut self, tracks: Vec<Track>)
        ensures
            tracks_received(*old(self), *final(self), tracks),
    {
        let n = tracks.len();
        if !self.search.pending_viewing_title.as_str().is_empty() {
            let mut title = String::new();
            std::mem::swap(&mut title, &mut self.search.pending_viewing_title);
            self.search.viewing = Some(LibraryViewing { title, tracks, cursor: 0 });
        } else {
            let mut title = String::new();
            std::mem::swap(&mut title, &mut self.library.pending_viewing_title);
            self.library.viewing = Some(LibraryViewing { title, tracks, cursor: 0 });
        }
        self.loading = false;
        self.status_msg = self.lang.tracks_loaded(n);
    }

    /// Takes the favourite tracks.
    pub fn on_fav_tracks_loaded(&mut self, tracks: Vec<Track>)
        ensures
            fav_tracks_received(*old(self), *final(self), tracks),
    {
        let n = tracks.len();
        self.library.fav_tracks = Some(tracks);
        self.loading = false;
        self.status_msg = self.lang.fav_tracks_loaded(n);
    }

    /// Takes the favourite albums and shows them, from the top.
    pub fn on_fav_albums_loaded(&mut self, albums: Vec<FavAlbum>)
        ensures
            fav_albums_received(*old(self), *final(self), albums),
    {
        let n = albums.len();
        self.library.fav_albums = Some(albums);
        self.library.cursor[3] = 0;
        self.library.active_section = LibrarySection::FavAlbums;
        self.active_tab = Tab::Library;
        self.loading = false;
        self.status_msg = self.lang.fav_albums_loaded(n);
    }
}

/// The word that names a repeat mode on the status line.
pub open spec fn repeat_word(r: RepeatMode) -> Seq<char> {
    match r {
        RepeatMode::All => "all"@,
        RepeatMode::One => "one"@,
        RepeatMode::Off => "off"@,
    }
}

/// The repeat mode that follows `r`: all, one, off, then all again.
pub open spec fn next_repeat(r: RepeatMode) -> RepeatMode {
    match r {
        RepeatMode::All => RepeatMode::One,
        RepeatMode::One => RepeatMode::Off,
        RepeatMode::Off => RepeatMode::All,
    }
}

/// The track that a remote request to play describes: its artist and its
/// album with the id 0, without number, quality or explicit mark.
pub open spec fn api_track_view(t: ApiTrack) -> TrackView {
    TrackView {
        id: t.id,
        title: t.title@,
        duration: t.duration,
        track_number: None,
        artists: seq![Artist { id: 0, name: t.artist }],
        album: Album { id: 0, title: t.album },
        audio_quality: None,
        explicit: None,
    }
}

/// Whether `after` follows from `before` once the remote track `t` is asked
/// for: it joins the end of the queue unless its id is there already, and
/// plays at its place in the queue.
pub open spec fn api_track_played(before: App, after: App, t: ApiTrack) -> bool {
    let v = api_track_view(t);
    let q = if has_track_id(track_views(before.queue@), t.id) {
        track_views(before.queue@)
    } else {
        track_views(before.queue@).push(v)
    };
    &&& track_views(after.queue@) == q
    &&& streamed(App { queue: after.queue, ..before }, after, v, position_of_id(q, t.id) as usize)
}

/// Whether `after` is `before` with only its player changed.
pub open spec fn player_only(before: App, after: App) -> bool {
    after == (App { player: after.player, ..before })
}

/// Whether a remote command can run on `a`: "next" and "previous" need the
/// track they play to exist, and every command that streams needs room in
/// the stream generation; the volume and the time played need room to move.
pub open spec fn accepts_command(a: App, c: ApiCommand) -> bool {
    match c {
        ApiCommand::Next => can_play_next(a) && a.stream_generation < u64::MAX,
        ApiCommand::Prev => can_play_prev(a) && a.stream_generation < u64::MAX,
        ApiCommand::VolumeUp => a.player.volume <= 250,
        ApiCommand::SeekForward => a.player.current is Some ==> a.player.elapsed_nanos + 10 * NANOS_PER_SEC
            <= ELAPSED_MAX,
        ApiCommand::Seek(secs) => secs != i64::MIN && a.player.elapsed_nanos <= ELAPSED_MAX,
        ApiCommand::PlayTrack(_) => a.stream_generation < u64::MAX,
        _ => true,
    }
}

/// Whether `after` follows from `before` once the remote command `c` ran.
pub open spec fn command_done(before: App, after: App, c: ApiCommand) -> bool {
    match c {
        ApiCommand::PlayPause => player_only(before, after) && crate::player::pause_toggled(before.player, after.player),
        ApiCommand::Next => crate::app::next_played(before, after),
        ApiCommand::Prev => crate::app::prev_played(before, after),
        ApiCommand::VolumeUp => crate::app::volume_saved(before, after, crate::app::raised_volume(before.player.volume)),
        ApiCommand::VolumeDown => crate::app::volume_saved(before, after, crate::app::lowered_volume(before.player.volume)),
        ApiCommand::VolumeSet(v) => crate::app::volume_saved(before, after, crate::app::capped_volume(v)),
        ApiCommand::SeekForward => player_only(before, after) && crate::player::seeked_ahead(before.player, after.player),
        ApiCommand::SeekBackward => player_only(before, after) && crate::player::seeked_back(before.player, after.player),
        ApiCommand::PlayTrack(t) => api_track_played(before, after, t),
        ApiCommand::ToggleShuffle => {
            &&& after == (App { shuffle: !before.shuffle, status_msg: after.status_msg, ..before })
            &&& after.status_msg@ == if before.shuffle { "Shuffle: off"@ } else { "Shuffle: on"@ }
        },
        ApiCommand::CycleRepeat => {
            &&& after == (App { repeat: next_repeat(before.repeat), status_msg: after.status_msg, ..before })
            &&& after.status_msg@ == "Repeat: "@ + repeat_word(next_repeat(before.repeat))
        },
        ApiCommand::Stop => player_only(before, after) && stopped_from(after.player, before.player),
        ApiCommand::Seek(secs) => player_only(before, after) && crate::player::seeked_by(before.player, after.player, secs),
        ApiCommand::SetPosition(secs) => player_only(before, after) && crate::player::seeked_to(before.player, after.player, secs),
    }
}

impl App {
    /// Plays the track that a remote request describes: it joins the end of
    /// the queue unless its id is there already, and plays at its place.
    #[verifier::spinoff_prover]
    #[verifier::rlimit(40)]
    pub fn play_api_track(&mut self, t: ApiTrack)
        requires
            old(self).stream_generation < u64::MAX,
        ensures
            api_track_played(*old(self), *final(self), t),
    {
        let ghost tv = api_track_view(t);
        let track = Track {
            id: t.id,
            title: t.title,
            duration: t.duration,
            track_number: None,
            artists: vec![Artist { id: 0, name: t.artist }],
            album: Album { id: 0, title: t.album },
            audio_quality: None,
            explicit: None,
        };
        assert(track.artists@ =~= seq![Artist { id: 0, name: t.artist }]);
        assert(track@ == tv);
        if crate::app::find_track_id(&self.queue, track.id).is_none() {
            let ghost q0 = self.queue@;
            self.queue.push(track.clone());
            assert(track_views(self.queue@) =~= track_views(q0).push(track@));
        }
        let queue_index = match crate::app::find_track_id(&self.queue, track.id) {
            Some(p) => p,
            None => 0,
        };
        self.stream_track_bg(track, queue_index);
    }

    /// Runs a command of the remote-control API or MPRIS.
    #[verifier::spinoff_prover]
    #[verifier::rlimit(40)]
    pub fn handle_api_command(&mut self, cmd: ApiCommand)
        requires
            accepts_command(*old(self), cmd),
        ensures
            command_done(*old(self), *final(self), cmd),
    {
        match cmd {
            ApiCommand::PlayPause => self.player.toggle_pause(),
            ApiCommand::Next => self.play_next_bg(),
            ApiCommand::Prev => self.play_prev_bg(),
            ApiCommand::VolumeUp => self.volume_up(),
            ApiCommand::VolumeDown => self.volume_down(),
            ApiCommand::VolumeSet(v) => self.set_volume(v),
            ApiCommand::SeekForward => self.player.seek_forward(),
            ApiCommand::SeekBackward => self.player.seek_backward(),
            ApiCommand::ToggleShuffle => {
                self.shuffle = !self.shuffle;
                self.status_msg = if self.shuffle {
                    string_of("Shuffle: on")
                } else {
                    string_of("Shuffle: off")
                };
            },
            ApiCommand::CycleRepeat => {
                self.repeat = match self.repeat {
                    RepeatMode::All => RepeatMode::One,
                    RepeatMode::One => RepeatMode::Off,
                    RepeatMode::Off => RepeatMode::All,
                };
                let mut msg = string_of("Repeat: ");
                msg.append(
                    match self.repeat {
                        RepeatMode::All => "all",
                        RepeatMode::One => "one",
                        RepeatMode::Off => "off",
                    },
                );
                self.status_msg = msg;
            },
            ApiCommand::Stop => self.player.stop(),
            ApiCommand::Seek(secs) => self.player.seek_relative(secs),
            ApiCommand::SetPosition(secs) => self.player.seek_absolute(secs),
            ApiCommand::PlayTrack(t) => self.play_api_track(t),
        }
    }
}

/// Whether a failed stream under `generation` moves on to the next track
/// of the queue in the state `a`: it is the current request, not one of the
/// queue's own retries (generation 0), and a track follows the current one.
pub open spec fn stream_error_advances(a: App, generation: u64) -> bool {
    generation != 0 && generation == a.stream_generation && match a.queue_index {
        Some(i) => i + 1 < a.queue@.len(),
        None => false,
    }
}

/// Whether `handle_event` can take `e` in the state `a`: the counts it
/// keeps must fit in a `usize`, a failed stream needs room in the stream
/// generation for the next one, and a remote command its own bounds.
pub open spec fn accepts_event(a: App, e: AppEvent) -> bool {
    match e {
        AppEvent::SearchDone(Ok(r), g) => g == a.search_generation ==> results_total(r) <= usize::MAX,
        AppEvent::SearchMoreDone(Ok(page), g, s) => g == a.search_generation ==> a.search.loaded@[search_section_index(s)]
            + new_items(a.search.results, page, s) <= usize::MAX,
        AppEvent::StreamError { generation, .. } => stream_error_advances(a, generation) ==> a.stream_generation
            < u64::MAX,
        AppEvent::ApiCmd(c) => accepts_command(a, c),
        _ => true,
    }
}

/// Whether `after` follows from `before` once the event `e` was handled.
pub open spec fn event_handled(before: App, after: App, e: AppEvent) -> bool {
    match e {
        AppEvent::SearchDone(Ok(r), g) => search_done_post(before, after, r, g),
        AppEvent::SearchDone(Err(m), g) => search_failed_post(before, after, m@, g),
        AppEvent::SearchMoreDone(Ok(page), g, s) => search_more_post(before, after, page, g, s),
        AppEvent::SearchMoreDone(Err(m), g, _) => search_failed_post(before, after, m@, g),
        AppEvent::StreamReady { track, info, queue_index, generation } => stream_ready_post(
            before,
            after,
            track@,
            info,
            queue_index,
            generation,
        ),
        AppEvent::StreamError { error, generation } => stream_error_post(before, after, error@, generation),
        AppEvent::AuthStarted { url, code, device_code } => auth_started(before, after, url, code, device_code),
        AppEvent::AuthDone => auth_completed(before, after),
        AppEvent::AuthError(m) => auth_failed(before, after, m),
        AppEvent::StatusMsg(m) => after == (App { status_msg: m, ..before }),
        AppEvent::CoverReady { info, image } => cover_shown(before, after, info, image),
        AppEvent::CoverError => cover_dropped(before, after),
        AppEvent::LibraryLoaded { playlists, mixes } => library_received(before, after, playlists, mixes),
        AppEvent::PlaylistTracksLoaded(t) => tracks_received(before, after, t),
        AppEvent::FavTracksLoaded(t) => fav_tracks_received(before, after, t),
        AppEvent::FavAlbumsLoaded(a) => fav_albums_received(before, after, a),
        AppEvent::ApiCmd(c) => command_done(before, after, c),
        AppEvent::LyricsReady(l) => after == (App { lyrics: Some(l), ..before }),
        AppEvent::LyricsError => after == (App { lyrics: None, ..before }),
    }
}

/// Whether `after` is `before` holding a new cover, its rendering to start
/// over.
pub open spec fn cover_shown(before: App, after: App, info: CoverInfo, image: image::DynamicImage) -> bool {
    &&& after == (App {
        cover_info: Some(info),
        cover_image: Some(image),
        effects: after.effects,
        ..before
    })
    &&& after.effects@ == before.effects@.push(Effect::ShowNewCover)
}

/// Whether `after` is `before` without a cover image, its rendering to be
/// dropped.
pub open spec fn cover_dropped(before: App, after: App) -> bool {
    &&& after == (App { cover_image: None, effects: after.effects, ..before })
    &&& after.effects@ == before.effects@.push(Effect::ClearCover)
}

impl App {
    /// Takes a fetched cover; its rendering starts over.
    pub fn on_cover_ready(&mut self, info: CoverInfo, image: image::DynamicImage)
        ensures
            cover_shown(*old(self), *final(self), info, image),
    {
        self.cover_info = Some(info);
        self.cover_image = Some(image);
        self.effects.push(Effect::ShowNewCover);
    }

    /// Drops the cover image after a failed fetch.
    pub fn on_cover_error(&mut self)
        ensures
            cover_dropped(*old(self), *final(self)),
    {
        self.cover_image = None;
        self.effects.push(Effect::ClearCover);
    }

    /// Whether `handle_event` can take `e`: whether `accepts_event` holds.
    pub fn accepts(&self, e: &AppEvent) -> (b: bool)
        ensures
            b == accepts_event(*self, *e),
    {
        match e {
            AppEvent::SearchDone(Ok(r), g) => {
                if *g != self.search_generation {
                    return true;
                }
                let total: u128 = r.tracks.len() as u128 + r.albums.len() as u128 + r.artists.len() as u128
                    + r.playlists.len() as u128;
                total <= usize::MAX as u128
            },
            AppEvent::SearchMoreDone(Ok(page), g, s) => {
                if *g != self.search_generation {
                    return true;
                }
                let idx = s.index();
                let old = &self.search.results;
                let n = match s {
                    SearchSection::Tracks => count_new(&old.tracks, &page.tracks),
                    SearchSection::Albums => count_new(&old.albums, &page.albums),
                    SearchSection::Artists => count_new(&old.artists, &page.artists),
                    SearchSection::Playlists => count_new(&old.playlists, &page.playlists),
                };
                self.search.loaded[idx] <= usize::MAX - n
            },
            AppEvent::StreamError { generation, .. } => {
                let advances = *generation != 0 && *generation == self.stream_generation && match self.queue_index {
                    Some(i) => i < self.queue.len() && i + 1 < self.queue.len(),
                    None => false,
                };
                !advances || self.stream_generation < u64::MAX
            },
            AppEvent::ApiCmd(c) => match c {
                ApiCommand::Next => crate::app::playable_next(self) && self.stream_generation < u64::MAX,
                ApiCommand::Prev => crate::app::playable_prev(self) && self.stream_generation < u64::MAX,
                ApiCommand::VolumeUp => self.player.volume <= 250,
                ApiCommand::SeekForward => self.player.current.is_none() || self.player.elapsed_nanos
                    <= ELAPSED_MAX - 10 * NANOS_PER_SEC,
                ApiCommand::Seek(secs) => *secs != i64::MIN && self.player.elapsed_nanos <= ELAPSED_MAX,
                ApiCommand::PlayTrack(_) => self.stream_generation < u64::MAX,
                _ => true,
            },
            _ => true,
        }
    }

    /// Handles what a background task or a remote command reports.
    #[verifier::spinoff_prover]
    #[verifier::rlimit(40)]
    pub fn handle_event(&mut self, event: AppEvent)
        requires
            accepts_event(*old(self), event),
        ensures
            event_handled(*old(self), *final(self), event),
    {
        match event {
            AppEvent::SearchDone(Ok(r), g) => self.on_search_done(r, g),
            AppEvent::SearchDone(Err(m), g) => self.on_search_failed(m, g),
            AppEvent::SearchMoreDone(Ok(page), g, s) => self.on_search_more_done(page, g, s),
            AppEvent::SearchMoreDone(Err(m), g, _) => self.on_search_failed(m, g),
            AppEvent::StreamReady { track, info, queue_index, generation } => self.on_stream_ready(
                track,
                info,
                queue_index,
                generation,
            ),
            AppEvent::StreamError { error, generation } => self.on_stream_error(error, generation),
            AppEvent::AuthStarted { url, code, device_code } => self.on_auth_started(url, code, device_code),
            AppEvent::AuthDone => self.on_auth_done(),
            AppEvent::AuthError(m) => self.on_auth_error(m),
            AppEvent::StatusMsg(m) => {
                self.status_msg = m;
            },
            AppEvent::CoverReady { info, image } => self.on_cover_ready(info, image),
            AppEvent::CoverError => self.on_cover_error(),
            AppEvent::LibraryLoaded { playlists, mixes } => self.on_library_loaded(playlists, mixes),
            AppEvent::PlaylistTracksLoaded(t) => self.on_playlist_tracks_loaded(t),
            AppEvent::FavTracksLoaded(t) => self.on_fav_tracks_loaded(t),
            AppEvent::FavAlbumsLoaded(a) => self.on_fav_albums_loaded(a),
            AppEvent::ApiCmd(c) => self.handle_api_command(c),
            AppEvent::LyricsReady(l) => {
                self.lyrics = Some(l);
            },
            AppEvent::LyricsError => {
                self.lyrics = None;
            },
        }
    }
}

/// Whether the bytes `b` hold an image that `image::load_from_memory`
/// decodes, in a format it guesses from them.
pub uninterp spec fn decodes(b: Seq<u8>) -> bool;

/// `image::load_from_memory`: the image that the bytes `b` encode, or
/// `None` when they hold none it can decode. Whether it decodes depends on
/// the bytes alone; nothing is claimed of the decoded image.
#[verifier::external_body]
fn decode_image(b: &[u8]) -> (r: Option<image::DynamicImage>)
    ensures
        r is Some <==> decodes(b@),
{
    image::load_from_memory(b).ok()
}

/// `Error poll: ` and the error of a failed login poll.
pub open spec fn poll_error_text(e: Seq<char>) -> Seq<char> {
    "Error poll: "@ + e
}

impl AppEvent {
    /// The event that reports a fetched cover: the bytes downloaded from
    /// the address in `info` (`None` when the download failed), decoded.
    pub fn from_cover(info: CoverInfo, bytes: Option<Vec<u8>>) -> (e: AppEvent)
        ensures
            match bytes {
                None => e is CoverError,
                Some(b) => if decodes(b@) {
                    e matches AppEvent::CoverReady { info: i, .. } && i == info
                } else {
                    e is CoverError
                },
            },
    {
        match bytes {
            None => AppEvent::CoverError,
            Some(b) => match decode_image(b.as_slice()) {
                Some(image) => AppEvent::CoverReady { info, image },
                None => AppEvent::CoverError,
            },
        }
    }

    /// The event that reports the outcome of a stream request for `track`
    /// at `queue_index`, made under `generation`.
    pub fn from_stream(r: Result<StreamInfo, String>, track: Track, queue_index: usize, generation: u64) -> (e: AppEvent)
        ensures
            match r {
                Ok(info) => e == (AppEvent::StreamReady { track, info, queue_index, generation }),
                Err(m) => e == (AppEvent::StreamError { error: m, generation }),
            },
    {
        match r {
            Ok(info) => AppEvent::StreamReady { track, info, queue_index, generation },
            Err(m) => AppEvent::StreamError { error: m, generation },
        }
    }

    /// The event that reports a page of search results made under
    /// `generation`: the first page when `section` is `None`, else a further
    /// page of that section.
    pub fn from_search(r: Result<SearchResults, String>, generation: u64, section: Option<SearchSection>) -> (e: AppEvent)
        ensures
            match section {
                None => e == AppEvent::SearchDone(r, generation),
                Some(s) => e == AppEvent::SearchMoreDone(r, generation, s),
            },
    {
        match section {
            None => AppEvent::SearchDone(r, generation),
            Some(s) => AppEvent::SearchMoreDone(r, generation, s),
        }
    }

    /// The event that reports the user's playlists and mixes; a list that
    /// could not be fetched counts as empty.
    pub fn from_library(playlists: Result<Vec<Playlist>, String>, mixes: Result<Vec<Mix>, String>) -> (e: AppEvent)
        ensures
            e matches AppEvent::LibraryLoaded { playlists: p, mixes: m } && p@ == (match playlists {
                Ok(v) => v@,
                Err(_) => Seq::empty(),
            }) && m@ == (match mixes {
                Ok(v) => v@,
                Err(_) => Seq::empty(),
            }),
    {
        let playlists = match playlists {
            Ok(v) => v,
            Err(_) => Vec::new(),
        };
        let mixes = match mixes {
            Ok(v) => v,
            Err(_) => Vec::new(),
        };
        AppEvent::LibraryLoaded { playlists, mixes }
    }

    /// The event that reports a loaded list of tracks (of a playlist, a
    /// mix or an album); a failure is reported as a failed load, with the
    /// generation 0.
    pub fn from_tracks(r: Result<Vec<Track>, String>) -> (e: AppEvent)
        ensures
            match r {
                Ok(t) => e == AppEvent::PlaylistTracksLoaded(t),
                Err(m) => e == (AppEvent::StreamError { error: m, generation: 0 }),
            },
    {
        match r {
            Ok(t) => AppEvent::PlaylistTracksLoaded(t),
            Err(m) => AppEvent::StreamError { error: m, generation: 0 },
        }
    }

    /// The event that reports the loaded favourite tracks; a failure is
    /// reported as a failed load, with the generation 0.
    pub fn from_fav_tracks(r: Result<Vec<Track>, String>) -> (e: AppEvent)
        ensures
            match r {
                Ok(t) => e == AppEvent::FavTracksLoaded(t),
                Err(m) => e == (AppEvent::StreamError { error: m, generation: 0 }),
            },
    {
        match r {
            Ok(t) => AppEvent::FavTracksLoaded(t),
            Err(m) => AppEvent::StreamError { error: m, generation: 0 },
        }
    }

    /// The event that reports the loaded favourite albums; a failure is
    /// reported as a failed load, with the generation 0.
    pub fn from_fav_albums(r: Result<Vec<FavAlbum>, String>) -> (e: AppEvent)
        ensures
            match r {
                Ok(a) => e == AppEvent::FavAlbumsLoaded(a),
                Err(m) => e == (AppEvent::StreamError { error: m, generation: 0 }),
            },
    {
        match r {
            Ok(a) => AppEvent::FavAlbumsLoaded(a),
            Err(m) => AppEvent::StreamError { error: m, generation: 0 },
        }
    }

    /// The event that reports fetched lyrics, or that there are none.
    pub fn from_lyrics(r: Result<Lyrics, String>) -> (e: AppEvent)
        ensures
            match r {
                Ok(l) => e == AppEvent::LyricsReady(l),
                Err(_) => e == AppEvent::LyricsError,
            },
    {
        match r {
            Ok(l) => AppEvent::LyricsReady(l),
            Err(_) => AppEvent::LyricsError,
        }
    }

    /// The event that reports a started device login, from the codes
    /// `(device_code, user_code, url)`, or its failure.
    pub fn from_auth_start(r: Result<(String, String, String), String>) -> (e: AppEvent)
        ensures
            match r {
                Ok((device_code, code, url)) => e == (AppEvent::AuthStarted { url, code, device_code }),
                Err(m) => e == AppEvent::AuthError(m),
            },
    {
        match r {
            Ok((device_code, code, url)) => AppEvent::AuthStarted { url, code, device_code },
            Err(m) => AppEvent::AuthError(m),
        }
    }

    /// The event that reports a poll of the device login: completed, still
    /// pending (no event), or failed (a status message).
    pub fn from_poll(r: Result<bool, String>) -> (e: Option<AppEvent>)
        ensures
            match r {
                Ok(true) => e == Some(AppEvent::AuthDone),
                Ok(false) => e is None,
                Err(m) => e matches Some(AppEvent::StatusMsg(t)) && t@ == poll_error_text(m@),
            },
    {
        match r {
            Ok(true) => Some(AppEvent::AuthDone),
            Ok(false) => None,
            Err(m) => {
                let mut t = string_of("Error poll: ");
                t.append(m.as_str());
                Some(AppEvent::StatusMsg(t))
            },
        }
    }
}

/// Three remote "repeat" commands come back to the mode one started from,
/// passing through the two others.
pub proof fn lemma_repeat_cycle(r: RepeatMode)
    ensures
        next_repeat(next_repeat(next_repeat(r))) == r,
        next_repeat(r) != r,
        next_repeat(next_repeat(r)) != r,
{
}

/// A search outcome for a search other than the latest one changes
/// nothing, and neither does the outcome of a stream request other than the
/// latest one (a failed load, with the generation 0, is never stale).
pub proof fn lemma_stale_outcomes_ignored(before: App, after: App, e: AppEvent)
    requires
        event_handled(before, after, e),
        match e {
            AppEvent::SearchDone(_, g) => g != before.search_generation,
            AppEvent::SearchMoreDone(_, g, _) => g != before.search_generation,
            AppEvent::StreamReady { generation, .. } => generation != before.stream_generation,
            AppEvent::StreamError { generation, .. } => generation != 0 && generation != before.stream_generation,
            _ => false,
        },
    ensures
        after == before,
{
}

} // verus!
