//! What a key does: the bindings of the interface, in the normal mode and
//! while typing a search, and what the periodic ticks decide.
use crate::app::{
    all_added, can_play_next, can_play_prev, current_added, drilldown_played, ensured_loaded,
    fav_played, library_entered, library_section_len, login_started, lowered_volume, moved_down,
    moved_up, next_played, playable_next, playable_prev, prev_played, quality_set, queue_removed,
    raised_volume, search_started, selected_added, selected_played, tab_advanced, viewing_at,
    volume_saved, wrap_next, wrap_prev, App, InputMode, Tab, lang_cycled, drilldown_streams,
    fav_streams, selected_streams,
};
use crate::events::player_only;
use crate::library::{
    library_section_at, library_section_index, LibraryFocus, LibrarySection, LibraryState,
};
use crate::player::{
    pause_toggled, seeked_ahead, seeked_back, stopped_from, PlayerState, ELAPSED_MAX,
    NANOS_PER_SEC,
};
use crate::search::SearchState;
use crate::tidal::Quality;
use vstd::prelude::*;

verus! {

/// A key, as far as the interface tells keys apart.
#[derive(Debug, Clone, Copy, PartialEq, Eq, Structural)]
pub enum Key {
    Char(char),
    Up,
    Down,
    Left,
    Right,
    Enter,
    Esc,
    Backspace,
    Tab,
    Other,
}

/// What a key asks for in the normal mode.
#[derive(Debug, Clone, Copy, PartialEq, Eq, Structural)]
pub enum Action {
    Quit,
    TypeSearch,
    Login,
    OpenLibrary,
    OpenFavTracks,
    AddAllOrFavAlbums,
    Down,
    Up,
    Enter,
    Add,
    TogglePause,
    Remove,
    Next,
    Prev,
    Right,
    Left,
    Back,
    Louder,
    Quieter,
    NextTab,
    SetQuality(Quality),
    Nothing,
}

/// The key bindings of the normal mode.
pub open spec fn action_of(k: Key) -> Action {
    match k {
        Key::Char(c) => if c == 'q' {
            Action::Quit
        } else if c == '/' || c == 's' {
            Action::TypeSearch
        } else if c == 'L' {
            Action::Login
        } else if c == 'i' {
            Action::OpenLibrary
        } else if c == 'F' {
            Action::OpenFavTracks
        } else if c == 'A' {
            Action::AddAllOrFavAlbums
        } else if c == 'j' {
            Action::Down
        } else if c == 'k' {
            Action::Up
        } else if c == 'a' {
            Action::Add
        } else if c == ' ' {
            Action::TogglePause
        } else if c == 'd' {
            Action::Remove
        } else if c == 'n' {
            Action::Next
        } else if c == 'p' {
            Action::Prev
        } else if c == 'l' {
            Action::Right
        } else if c == 'h' {
            Action::Left
        } else if c == '+' || c == '=' {
            Action::Louder
        } else if c == '-' {
            Action::Quieter
        } else if c == '1' {
            Action::SetQuality(Quality::HiResLossless)
        } else if c == '2' {
            Action::SetQuality(Quality::Lossless)
        } else if c == '3' {
            Action::SetQuality(Quality::High)
        } else {
            Action::Nothing
        },
        Key::Down => Action::Down,
        Key::Up => Action::Up,
        Key::Enter => Action::Enter,
        Key::Right => Action::Right,
        Key::Left => Action::Left,
        Key::Esc => Action::Back,
        Key::Tab => Action::NextTab,
        Key::Backspace | Key::Other => Action::Nothing,
    }
}

/// What a key asks for in the normal mode.
pub fn action(k: Key) -> (a: Action)
    ensures
        a == action_of(k),
{
    match k {
        Key::Char(c) => if c == 'q' {
            Action::Quit
        } else if c == '/' || c == 's' {
            Action::TypeSearch
        } else if c == 'L' {
            Action::Login
        } else if c == 'i' {
            Action::OpenLibrary
        } else if c == 'F' {
            Action::OpenFavTracks
        } else if c == 'A' {
            Action::AddAllOrFavAlbums
        } else if c == 'j' {
            Action::Down
        } else if c == 'k' {
            Action::Up
        } else if c == 'a' {
            Action::Add
        } else if c == ' ' {
            Action::TogglePause
        } else if c == 'd' {
            Action::Remove
        } else if c == 'n' {
            Action::Next
        } else if c == 'p' {
            Action::Prev
        } else if c == 'l' {
            Action::Right
        } else if c == 'h' {
            Action::Left
        } else if c == '+' || c == '=' {
            Action::Louder
        } else if c == '-' {
            Action::Quieter
        } else if c == '1' {
            Action::SetQuality(Quality::HiResLossless)
        } else if c == '2' {
            Action::SetQuality(Quality::Lossless)
        } else if c == '3' {
            Action::SetQuality(Quality::High)
        } else {
            Action::Nothing
        },
        Key::Down => Action::Down,
        Key::Up => Action::Up,
        Key::Enter => Action::Enter,
        Key::Right => Action::Right,
        Key::Left => Action::Left,
        Key::Esc => Action::Back,
        Key::Tab => Action::NextTab,
        Key::Backspace | Key::Other => Action::Nothing,
    }
}

/// Whether the library tab has the content pane on a list of tracks: an
/// open list, or the favourite tracks.
pub open spec fn on_track_list(a: App) -> bool {
    &&& a.active_tab == Tab::Library
    &&& a.library.focus == LibraryFocus::Content
    &&& (a.library.viewing is Some || a.library.active_section == LibrarySection::FavTracks)
}

/// `a` on the library tab with the given focus and section and no open
/// list.
pub open spec fn library_opened(a: App, focus: LibraryFocus, s: LibrarySection) -> App {
    App {
        active_tab: Tab::Library,
        library: LibraryState { focus, active_section: s, viewing: None, ..a.library },
        ..a
    }
}

/// Whether `after` follows from `before` once the library moved down
/// (`down`) or up: in an open list its cursor moves, wrapping around; in
/// the sidebar the section changes and is loaded if needed; otherwise the
/// cursor of the active section moves, wrapping around. Empty lists stay
/// as they are.
pub open spec fn library_moved(before: App, after: App, down: bool) -> bool {
    let lib = before.library;
    match lib.viewing {
        Some(v) => {
            let n = v.tracks@.len() as usize;
            if n > 0 {
                after == (App {
                    library: LibraryState {
                        viewing: viewing_at(lib.viewing, if down { wrap_next(v.cursor, n) } else { wrap_prev(v.cursor, n) }),
                        ..lib
                    },
                    ..before
                })
            } else {
                after == before
            }
        },
        None => if lib.focus == LibraryFocus::Sidebar {
            let i = library_section_index(lib.active_section);
            ensured_loaded(
                App {
                    library: LibraryState {
                        active_section: library_section_at(if down { i + 1 } else { i + 3 }),
                        ..lib
                    },
                    ..before
                },
                after,
            )
        } else {
            let i = library_section_index(lib.active_section);
            let n = library_section_len(lib, lib.active_section) as usize;
            if n > 0 {
                after == (App {
                    library: LibraryState {
                        cursor: vstd::array::spec_array_update(
                            lib.cursor,
                            i,
                            if down { wrap_next(lib.cursor@[i], n) } else { wrap_prev(lib.cursor@[i], n) },
                        ),
                        ..lib
                    },
                    ..before
                })
            } else {
                after == before
            }
        },
    }
}

/// Whether removing the selected row of the queue tab removes the track
/// that plays and leaves another to play in its place.
pub open spec fn removes_playing(a: App) -> bool {
    &&& a.active_tab == Tab::Queue
    &&& a.queue_index == Some(a.selected)
    &&& a.selected < a.queue@.len()
    &&& a.queue@.len() > 1
}

/// Whether the Enter key streams a track: in the library, from the open
/// list or the favourite tracks; elsewhere, the selected track.
pub open spec fn enter_streams(a: App) -> bool {
    if a.active_tab == Tab::Library {
        if a.library.viewing is Some {
            drilldown_streams(a)
        } else if a.library.active_section == LibrarySection::FavTracks {
            fav_streams(a)
        } else {
            false
        }
    } else {
        selected_streams(a)
    }
}

/// Whether `enter_streams` holds.
fn enter_would_stream(a: &App) -> (b: bool)
    ensures
        b == enter_streams(*a),
{
    if a.active_tab == Tab::Library {
        if a.library.viewing.is_some() {
            match &a.search.viewing {
                Some(v) => v.cursor < v.tracks.len(),
                None => match &a.library.viewing {
                    Some(v) => v.cursor < v.tracks.len(),
                    None => false,
                },
            }
        } else if a.library.active_section == LibrarySection::FavTracks {
            match &a.library.fav_tracks {
                Some(t) => a.library.cursor[2] < t.len(),
                None => false,
            }
        } else {
            false
        }
    } else {
        if !a.authenticated {
            return false;
        }
        match a.active_tab {
            Tab::Search => a.search.viewing.is_none() && a.search.cursor[0] < a.search.results.tracks.len(),
            Tab::Queue => a.selected < a.queue.len(),
            _ => false,
        }
    }
}

/// Whether a search started from the input in the state `a` is asked for:
/// logged in, with something typed.
pub open spec fn starts_search(a: App) -> bool {
    a.authenticated && a.search.input@.len() > 0
}

/// Whether `before` allows the action `act`: what plays a track needs room
/// in the stream generation and, for "next" and "previous", a track to
/// play; seeking ahead and raising the volume need room to move.
pub open spec fn allows(before: App, act: Action) -> bool {
    match act {
        Action::Enter => enter_streams(before) ==> before.stream_generation < u64::MAX,
        Action::Remove => removes_playing(before) ==> before.stream_generation < u64::MAX,
        Action::Next => can_play_next(before) && before.stream_generation < u64::MAX,
        Action::Prev => can_play_prev(before) && before.stream_generation < u64::MAX,
        Action::Right => before.active_tab != Tab::Library ==> (before.player.current is Some
            ==> before.player.elapsed_nanos + 10 * NANOS_PER_SEC <= ELAPSED_MAX),
        Action::Louder => before.player.volume <= 250,
        _ => true,
    }
}

/// Whether `after` follows from `before` once the action `act` ran in the
/// normal mode.
pub open spec fn acted(before: App, after: App, act: Action) -> bool {
    let lib = before.library;
    match act {
        Action::Quit => {
            &&& after == (App { player: after.player, should_quit: true, ..before })
            &&& stopped_from(after.player, before.player)
        },
        Action::TypeSearch => {
            &&& after == (App {
                input_mode: InputMode::Search,
                search: SearchState { input: after.search.input, ..before.search },
                ..before
            })
            &&& after.search.input@.len() == 0
        },
        Action::Login => if before.authenticated {
            after == before
        } else {
            login_started(before, after)
        },
        Action::OpenLibrary => if before.authenticated {
            ensured_loaded(
                App { active_tab: Tab::Library, library: LibraryState { viewing: None, ..lib }, ..before },
                after,
            )
        } else {
            after == before
        },
        Action::OpenFavTracks => if before.authenticated {
            ensured_loaded(library_opened(before, LibraryFocus::Content, LibrarySection::FavTracks), after)
        } else {
            after == before
        },
        Action::AddAllOrFavAlbums => if on_track_list(before) {
            all_added(before, after)
        } else if before.authenticated {
            ensured_loaded(library_opened(before, LibraryFocus::Content, LibrarySection::FavAlbums), after)
        } else {
            after == before
        },
        Action::Down => if before.active_tab == Tab::Library {
            library_moved(before, after, true)
        } else {
            moved_down(before, after)
        },
        Action::Up => if before.active_tab == Tab::Library {
            library_moved(before, after, false)
        } else {
            moved_up(before, after)
        },
        Action::Enter => if before.active_tab == Tab::Library {
            let mid = App { library: LibraryState { focus: LibraryFocus::Content, ..lib }, ..before };
            if lib.viewing is Some {
                drilldown_played(mid, after)
            } else if lib.active_section == LibrarySection::FavTracks {
                fav_played(mid, after)
            } else {
                library_entered(mid, after)
            }
        } else {
            selected_played(before, after)
        },
        Action::Add => if on_track_list(before) {
            current_added(before, after)
        } else {
            selected_added(before, after)
        },
        Action::TogglePause => player_only(before, after) && pause_toggled(before.player, after.player),
        Action::Remove => if before.active_tab == Tab::Queue && before.queue@.len() > 0 {
            queue_removed(before, after, before.selected)
        } else {
            after == before
        },
        Action::Next => next_played(before, after),
        Action::Prev => prev_played(before, after),
        Action::Right => if before.active_tab == Tab::Library {
            after == (App { library: LibraryState { focus: LibraryFocus::Content, ..lib }, ..before })
        } else {
            player_only(before, after) && seeked_ahead(before.player, after.player)
        },
        Action::Left => if before.active_tab == Tab::Library {
            if lib.viewing is Some {
                after == (App { library: LibraryState { viewing: None, ..lib }, ..before })
            } else {
                after == (App { library: LibraryState { focus: LibraryFocus::Sidebar, ..lib }, ..before })
            }
        } else {
            player_only(before, after) && seeked_back(before.player, after.player)
        },
        Action::Back => if before.active_tab == Tab::Library && lib.viewing is Some {
            after == (App { library: LibraryState { viewing: None, ..lib }, ..before })
        } else {
            after == before
        },
        Action::Louder => volume_saved(before, after, raised_volume(before.player.volume)),
        Action::Quieter => volume_saved(before, after, lowered_volume(before.player.volume)),
        Action::NextTab => tab_advanced(before, after),
        Action::SetQuality(q) => quality_set(before, after, q),
        Action::Nothing => after == before,
    }
}

/// Moves the library down (`down`) or up: the cursor of an open list, the
/// section in the sidebar, or the cursor of the active section.
fn library_move(app: &mut App, down: bool)
    ensures
        library_moved(*old(app), *final(app), down),
{
    match &mut app.library.viewing {
        Some(v) => {
            let max = v.tracks.len();
            if max > 0 {
                v.cursor = if down {
                    crate::app::next_pos(v.cursor, max)
                } else if v.cursor == 0 {
                    max - 1
                } else {
                    v.cursor - 1
                };
            }
        },
        None => {
            if app.library.focus == LibraryFocus::Sidebar {
                app.library.active_section = if down {
                    app.library.active_section.next()
                } else {
                    app.library.active_section.prev()
                };
                app.ensure_section_loaded();
            } else {
                let section = app.library.active_section;
                let max = app.section_len(section);
                if max > 0 {
                    let i = section.index();
                    let cur = app.library.cursor[i];
                    app.library.cursor[i] = if down {
                        crate::app::next_pos(cur, max)
                    } else if cur == 0 {
                        max - 1
                    } else {
                        cur - 1
                    };
                }
            }
        },
    }
}

/// Whether the library tab has the content pane on a list of tracks.
fn is_on_track_list(app: &App) -> (b: bool)
    ensures
        b == on_track_list(*app),
{
    app.active_tab == Tab::Library && app.library.focus == LibraryFocus::Content && (
    app.library.viewing.is_some() || app.library.active_section == LibrarySection::FavTracks)
}

/// Runs the actions that open or play what the library or the search shows.
fn open_or_play(app: &mut App, act: Action)
    requires
        allows(*old(app), act),
        act is OpenLibrary || act is OpenFavTracks || act is AddAllOrFavAlbums || act is Enter || act is Add,
    ensures
        acted(*old(app), *final(app), act),
{
    match act {
        Action::OpenLibrary => {
            if app.authenticated {
                app.active_tab = Tab::Library;
                app.library.viewing = None;
                app.ensure_section_loaded();
            }
        },
        Action::OpenFavTracks => {
            if app.authenticated {
                app.active_tab = Tab::Library;
                app.library.focus = LibraryFocus::Content;
                app.library.active_section = LibrarySection::FavTracks;
                app.library.viewing = None;
                app.ensure_section_loaded();
            }
        },
        Action::AddAllOrFavAlbums => {
            if is_on_track_list(app) {
                app.add_all_tracks_to_queue();
            } else if app.authenticated {
                app.active_tab = Tab::Library;
                app.library.focus = LibraryFocus::Content;
                app.library.active_section = LibrarySection::FavAlbums;
                app.library.viewing = None;
                app.ensure_section_loaded();
            }
        },
        Action::Enter => {
            if app.active_tab == Tab::Library {
                if app.library.focus == LibraryFocus::Sidebar {
                    app.library.focus = LibraryFocus::Content;
                }
                if app.library.viewing.is_some() {
                    app.play_drilldown_track();
                } else if app.library.active_section == LibrarySection::FavTracks {
                    app.play_fav_track();
                } else {
                    app.library_select_enter();
                }
            } else {
                app.play_selected_bg();
            }
        },
        _ => {
            if is_on_track_list(app) {
                app.add_current_track_to_queue();
            } else {
                app.add_selected_to_queue();
            }
        },
    }
}

/// Runs the actions that move in a list or through the track.
fn move_or_seek(app: &mut App, act: Action)
    requires
        allows(*old(app), act),
        act is Down || act is Up || act is Right || act is Left || act is Back,
    ensures
        acted(*old(app), *final(app), act),
{
    match act {
        Action::Down => {
            if app.active_tab == Tab::Library {
                library_move(app, true);
            } else {
                app.next_track();
            }
        },
        Action::Up => {
            if app.active_tab == Tab::Library {
                library_move(app, false);
            } else {
                app.prev_track();
            }
        },
        Action::Right => {
            if app.active_tab == Tab::Library {
                if app.library.focus == LibraryFocus::Sidebar {
                    app.library.focus = LibraryFocus::Content;
                }
            } else {
                app.player.seek_forward();
            }
        },
        Action::Left => {
            if app.active_tab == Tab::Library {
                if app.library.viewing.is_some() {
                    app.library.viewing = None;
                } else {
                    app.library.focus = LibraryFocus::Sidebar;
                }
            } else {
                app.player.seek_backward();
            }
        },
        _ => {
            if app.active_tab == Tab::Library && app.library.viewing.is_some() {
                app.library.viewing = None;
            }
        },
    }
}

/// Handles a key in the normal mode.
pub fn handle_normal(key: Key, app: &mut App)
    requires
        allows(*old(app), action_of(key)),
    ensures
        acted(*old(app), *final(app), action_of(key)),
{
    let act = action(key);
    match act {
        Action::Quit => {
            app.player.stop();
            app.should_quit = true;
        },
        Action::TypeSearch => {
            app.input_mode = InputMode::Search;
            app.search.input = String::new();
        },
        Action::Login => {
            if !app.authenticated {
                app.start_login_bg();
            }
        },
        Action::OpenLibrary | Action::OpenFavTracks | Action::AddAllOrFavAlbums | Action::Enter
        | Action::Add => open_or_play(app, act),
        Action::Down | Action::Up | Action::Right | Action::Left | Action::Back => move_or_seek(app, act),
        Action::TogglePause => app.player.toggle_pause(),
        Action::Remove => {
            if app.active_tab == Tab::Queue && app.queue.len() > 0 {
                let selected = app.selected;
                app.remove_from_queue(selected);
            }
        },
        Action::Next => app.play_next_bg(),
        Action::Prev => app.play_prev_bg(),
        Action::Louder => app.volume_up(),
        Action::Quieter => app.volume_down(),
        Action::NextTab => app.next_tab(),
        Action::SetQuality(q) => app.set_quality(q),
        Action::Nothing => {},
    }
}

/// `String::push`: appends the character `c` to the end of `s`, as its
/// documentation says.
#[verifier::external_body]
fn push_char(s: &mut String, c: char)
    ensures
        final(s)@ == old(s)@.push(c),
{
    s.push(c);
}

/// `String::pop`: removes the last character of `s` and returns it, or
/// returns `None` and leaves `s` as it is when `s` is empty, as its
/// documentation says.
#[verifier::external_body]
fn pop_char(s: &mut String) -> (r: Option<char>)
    ensures
        old(s)@.len() == 0 ==> r is None && final(s)@ == old(s)@,
        old(s)@.len() > 0 ==> r == Some(old(s)@.last()) && final(s)@ == old(s)@.drop_last(),
{
    s.pop()
}

/// Whether `after` follows from `before` once `key` was typed into the
/// search input: Escape leaves the input, Enter leaves it and searches,
/// Backspace removes the last character, a character is appended; other
/// keys do nothing.
pub open spec fn typed(before: App, after: App, key: Key) -> bool {
    let input = before.search.input@;
    let edited = App { search: SearchState { input: after.search.input, ..before.search }, ..before };
    match key {
        Key::Esc => after == (App { input_mode: InputMode::Normal, ..before }),
        Key::Enter => search_started(App { input_mode: InputMode::Normal, ..before }, after),
        Key::Backspace => after == edited && after.search.input@ == if input.len() == 0 {
            input
        } else {
            input.drop_last()
        },
        Key::Char(c) => after == edited && after.search.input@ == input.push(c),
        _ => after == before,
    }
}

/// Handles a key while the search input is being typed.
pub fn handle_search(key: Key, app: &mut App)
    requires
        key == Key::Enter && starts_search(*old(app)) ==> old(app).search_generation < u64::MAX,
    ensures
        typed(*old(app), *final(app), key),
{
    match key {
        Key::Esc => {
            app.input_mode = InputMode::Normal;
        },
        Key::Enter => {
            app.input_mode = InputMode::Normal;
            app.do_search_bg();
        },
        Key::Backspace => {
            pop_char(&mut app.search.input);
        },
        Key::Char(c) => {
            push_char(&mut app.search.input, c);
        },
        _ => {},
    }
}

/// Whether `before` can take `key`, pressed with exactly the control key
/// (`control`) or exactly the alt key (`alt`) held.
pub open spec fn key_ok(before: App, key: Key, control: bool, alt: bool) -> bool {
    if control && key == Key::Char('c') {
        true
    } else if alt && key == Key::Char('l') {
        true
    } else {
        match before.input_mode {
            InputMode::Normal => allows(before, action_of(key)),
            InputMode::Search => key == Key::Enter && starts_search(before) ==> before.search_generation < u64::MAX,
        }
    }
}

/// Whether `after` follows from `before` once `key` was pressed, with
/// exactly the control key (`control`) or exactly the alt key (`alt`)
/// held: Ctrl-C stops playback and quits, Alt-L switches the language,
/// other keys go by the input mode.
pub open spec fn key_handled(before: App, after: App, key: Key, control: bool, alt: bool) -> bool {
    if control && key == Key::Char('c') {
        &&& after == (App { player: after.player, should_quit: true, ..before })
        &&& stopped_from(after.player, before.player)
    } else if alt && key == Key::Char('l') {
        lang_cycled(before, after)
    } else {
        match before.input_mode {
            InputMode::Normal => acted(before, after, action_of(key)),
            InputMode::Search => typed(before, after, key),
        }
    }
}

impl App {
    /// Whether `key_ok` holds.
    pub fn can_take_key(&self, key: Key, control: bool, alt: bool) -> (b: bool)
        ensures
            b == key_ok(*self, key, control, alt),
    {
        if control && key == Key::Char('c') {
            return true;
        }
        if alt && key == Key::Char('l') {
            return true;
        }
        match self.input_mode {
            InputMode::Normal => match action(key) {
                Action::Enter => !enter_would_stream(self) || self.stream_generation < u64::MAX,
                Action::Remove => {
                    let removes = self.active_tab == Tab::Queue && self.queue_index == Some(self.selected)
                        && self.selected < self.queue.len() && self.queue.len() > 1;
                    !removes || self.stream_generation < u64::MAX
                },
                Action::Next => playable_next(self) && self.stream_generation < u64::MAX,
                Action::Prev => playable_prev(self) && self.stream_generation < u64::MAX,
                Action::Right => self.active_tab == Tab::Library || self.player.current.is_none()
                    || self.player.elapsed_nanos <= ELAPSED_MAX - 10 * NANOS_PER_SEC,
                Action::Louder => self.player.volume <= 250,
                _ => true,
            },
            InputMode::Search => {
                let starts = self.authenticated && !self.search.input.as_str().is_empty();
                key != Key::Enter || !starts || self.search_generation < u64::MAX
            },
        }
    }

    /// Handles a key, pressed with exactly the control key (`control`) or
    /// exactly the alt key (`alt`) held.
    pub fn handle_key(&mut self, key: Key, control: bool, alt: bool)
        requires
            key_ok(*old(self), key, control, alt),
        ensures
            key_handled(*old(self), *final(self), key, control, alt),
    {
        if control && key == Key::Char('c') {
            self.player.stop();
            self.should_quit = true;
            return;
        }
        if alt && key == Key::Char('l') {
            self.cycle_lang();
            return;
        }
        match self.input_mode {
            InputMode::Normal => handle_normal(key, self),
            InputMode::Search => handle_search(key, self),
        }
    }
}

/// Whether a track has ended by itself: nothing plays, the queue has a
/// current position, and the queue is to move on.
pub open spec fn finished_playing(a: App) -> bool {
    &&& a.player.state == PlayerState::Stopped
    &&& a.queue_index is Some
    &&& a.queue@.len() > 0
    &&& a.auto_advance
}

impl App {
    /// Moves on to the next track once one ended by itself; the queue moves
    /// on once per track that was started.
    pub fn advance_if_finished(&mut self)
        requires
            finished_playing(*old(self)) ==> can_play_next(*old(self)) && old(self).stream_generation
                < u64::MAX,
        ensures
            finished_playing(*old(self)) ==> next_played(App { auto_advance: false, ..*old(self) }, *final(self)),
            !finished_playing(*old(self)) ==> *final(self) == *old(self),
    {
        if self.player.state == PlayerState::Stopped && self.queue_index.is_some() && self.queue.len() > 0
            && self.auto_advance {
            self.auto_advance = false;
            self.play_next_bg();
        }
    }

    /// Asks whether a pending device login completed.
    pub fn poll_login_if_pending(&mut self)
        ensures
            old(self).device_code is Some && !old(self).authenticated ==> {
                &&& *final(self) == (App { effects: final(self).effects, ..*old(self) })
                &&& final(self).effects@ == old(self).effects@.push(crate::app::Effect::PollAuth)
            },
            !(old(self).device_code is Some && !old(self).authenticated) ==> *final(self) == *old(self),
    {
        if self.device_code.is_some() && !self.authenticated {
            self.poll_auth_bg();
        }
    }
}


/// In the normal mode, `n` plays the next track of the queue and `p` the
/// previous one.
pub proof fn lemma_next_and_previous_keys(before: App, after: App)
    requires
        before.input_mode == InputMode::Normal,
    ensures
        key_handled(before, after, Key::Char('n'), false, false) ==> next_played(before, after),
        key_handled(before, after, Key::Char('p'), false, false) ==> prev_played(before, after),
        action_of(Key::Char('n')) != action_of(Key::Char('p')),
{
}


/// What the other keys of the normal mode do: `q` quits, space pauses or
/// resumes, `+` and `=` raise the volume and `-` lowers it, `1`, `2` and
/// `3` choose the quality from the highest down, Tab moves to the next
/// tab, `/` and `s` start typing a search from an empty input, `j` and `k`
/// move down and up outside the library.
pub proof fn lemma_key_bindings(before: App, after: App)
    requires
        before.input_mode == InputMode::Normal,
    ensures
        key_handled(before, after, Key::Char('q'), false, false) ==> after.should_quit,
        key_handled(before, after, Key::Char(' '), false, false) ==> pause_toggled(before.player, after.player),
        key_handled(before, after, Key::Char('+'), false, false) ==> volume_saved(
            before,
            after,
            raised_volume(before.player.volume),
        ),
        key_handled(before, after, Key::Char('='), false, false) ==> volume_saved(
            before,
            after,
            raised_volume(before.player.volume),
        ),
        key_handled(before, after, Key::Char('-'), false, false) ==> volume_saved(
            before,
            after,
            lowered_volume(before.player.volume),
        ),
        key_handled(before, after, Key::Char('1'), false, false) ==> quality_set(before, after, Quality::HiResLossless),
        key_handled(before, after, Key::Char('2'), false, false) ==> quality_set(before, after, Quality::Lossless),
        key_handled(before, after, Key::Char('3'), false, false) ==> quality_set(before, after, Quality::High),
        key_handled(before, after, Key::Tab, false, false) ==> tab_advanced(before, after),
        key_handled(before, after, Key::Char('/'), false, false) ==> after.input_mode == InputMode::Search
            && after.search.input@.len() == 0,
        key_handled(before, after, Key::Char('s'), false, false) ==> after.input_mode == InputMode::Search
            && after.search.input@.len() == 0,
        before.active_tab != Tab::Library && key_handled(before, after, Key::Char('j'), false, false) ==> moved_down(
            before,
            after,
        ),
        before.active_tab != Tab::Library && key_handled(before, after, Key::Char('k'), false, false) ==> moved_up(
            before,
            after,
        ),
{
}

} // verus!
