//! The state of the library tab: the user's playlists, mixes, favourite
//! tracks and favourite albums, and the list being browsed.
use crate::tidal::{FavAlbum, Mix, Playlist, Track};
use vstd::prelude::*;

verus! {

/// Which pane of the library has the keyboard.
#[derive(Debug, Clone, Copy, PartialEq, Eq, Structural)]
pub enum LibraryFocus {
    Sidebar,
    Content,
}

/// A section of the library.
#[derive(Debug, Clone, Copy, PartialEq, Eq, Structural)]
pub enum LibrarySection {
    Playlists,
    Mixes,
    FavTracks,
    FavAlbums,
}

/// The position of a library section: 0 to 3, in sidebar order.
pub open spec fn library_section_index(s: LibrarySection) -> int {
    match s {
        LibrarySection::Playlists => 0,
        LibrarySection::Mixes => 1,
        LibrarySection::FavTracks => 2,
        LibrarySection::FavAlbums => 3,
    }
}

/// The library section at position `i` (taken modulo 4).
pub open spec fn library_section_at(i: int) -> LibrarySection {
    let k = i % 4;
    if k == 0 {
        LibrarySection::Playlists
    } else if k == 1 {
        LibrarySection::Mixes
    } else if k == 2 {
        LibrarySection::FavTracks
    } else {
        LibrarySection::FavAlbums
    }
}

impl LibrarySection {
    /// The section below this one in the sidebar, wrapping around.
    pub fn next(self) -> (s: Self)
        ensures
            s == library_section_at(library_section_index(self) + 1),
    {
        match self {
            LibrarySection::Playlists => LibrarySection::Mixes,
            LibrarySection::Mixes => LibrarySection::FavTracks,
            LibrarySection::FavTracks => LibrarySection::FavAlbums,
            LibrarySection::FavAlbums => LibrarySection::Playlists,
        }
    }

    /// The section above this one in the sidebar, wrapping around.
    pub fn prev(self) -> (s: Self)
        ensures
            s == library_section_at(library_section_index(self) + 3),
    {
        match self {
            LibrarySection::Playlists => LibrarySection::FavAlbums,
            LibrarySection::Mixes => LibrarySection::Playlists,
            LibrarySection::FavTracks => LibrarySection::Mixes,
            LibrarySection::FavAlbums => LibrarySection::FavTracks,
        }
    }

    /// The position of this section: 0 to 3, in sidebar order.
    pub fn index(self) -> (i: usize)
        ensures
            i == library_section_index(self),
    {
        match self {
            LibrarySection::Playlists => 0,
            LibrarySection::Mixes => 1,
            LibrarySection::FavTracks => 2,
            LibrarySection::FavAlbums => 3,
        }
    }
}

/// Moving down then up in the library sidebar, or up then down, comes back
/// to the section one started from; four moves down make a full turn.
pub proof fn lemma_library_section_round_trip(s: LibrarySection)
    ensures
        library_section_at(library_section_index(library_section_at(library_section_index(s) + 1))
            + 3) == s,
        library_section_at(library_section_index(library_section_at(library_section_index(s) + 3))
            + 1) == s,
        library_section_at(library_section_index(s) + 4) == s,
{
}

/// A list of tracks opened from the library or from search results.
#[derive(Debug)]
pub struct LibraryViewing {
    pub title: String,
    pub tracks: Vec<Track>,
    pub cursor: usize,
}

/// Everything the library tab shows; a list is `None` until it is loaded.
#[derive(Debug)]
pub struct LibraryState {
    pub focus: LibraryFocus,
    pub active_section: LibrarySection,
    pub cursor: [usize; 4],
    pub playlists: Option<Vec<Playlist>>,
    pub mixes: Option<Vec<Mix>>,
    pub fav_tracks: Option<Vec<Track>>,
    pub fav_albums: Option<Vec<FavAlbum>>,
    pub viewing: Option<LibraryViewing>,
    pub pending_viewing_title: String,
}

/// Whether a library state is the one the library starts with.
pub open spec fn is_fresh_library(l: LibraryState) -> bool {
    &&& l.focus == LibraryFocus::Sidebar
    &&& l.active_section == LibrarySection::Playlists
    &&& l.cursor@ == seq![0usize, 0usize, 0usize, 0usize]
    &&& l.playlists is None
    &&& l.mixes is None
    &&& l.fav_tracks is None
    &&& l.fav_albums is None
    &&& l.viewing is None
    &&& l.pending_viewing_title@.len() == 0
}

impl LibraryState {
    /// An empty library with nothing loaded, the playlists section selected.
    pub fn new() -> (l: Self)
        ensures
            is_fresh_library(l),
    {
        let cursor: [usize; 4] = [0, 0, 0, 0];
        assert(cursor@ =~= seq![0usize, 0usize, 0usize, 0usize]);
        LibraryState {
            focus: LibraryFocus::Sidebar,
            active_section: LibrarySection::Playlists,
            cursor,
            playlists: None,
            mixes: None,
            fav_tracks: None,
            fav_albums: None,
            viewing: None,
            pending_viewing_title: String::new(),
        }
    }
}

} // verus!
