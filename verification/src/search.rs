//! The search tab: sections of results, paging bookkeeping, and the history
//! of queries with its keyboard navigation.
use crate::library::LibraryViewing;
use crate::tidal::{Album, Artist, Playlist, SearchResults, Track};
use std::collections::VecDeque;
use vstd::prelude::*;
use vstd::string::*;

verus! {

/// The most queries the history keeps.
pub const HISTORY_LIMIT: usize = 10;

/// Which pane of the search tab has the keyboard.
#[derive(Debug, Clone, Copy, PartialEq, Eq, Structural)]
pub enum SearchFocus {
    Sidebar,
    Content,
}

/// A section of search results.
#[derive(Debug, Clone, Copy, PartialEq, Eq, Structural)]
pub enum SearchSection {
    Tracks,
    Albums,
    Artists,
    Playlists,
}

/// The position of a search section: 0 to 3, in sidebar order.
pub open spec fn search_section_index(s: SearchSection) -> int {
    match s {
        SearchSection::Tracks => 0,
        SearchSection::Albums => 1,
        SearchSection::Artists => 2,
        SearchSection::Playlists => 3,
    }
}

/// The search section at position `i` (taken modulo 4).
pub open spec fn search_section_at(i: int) -> SearchSection {
    let k = i % 4;
    if k == 0 {
        SearchSection::Tracks
    } else if k == 1 {
        SearchSection::Albums
    } else if k == 2 {
        SearchSection::Artists
    } else {
        SearchSection::Playlists
    }
}

impl SearchSection {
    /// The section below this one in the sidebar, wrapping around.
    pub fn next(self) -> (s: Self)
        ensures
            s == search_section_at(search_section_index(self) + 1),
    {
        match self {
            SearchSection::Tracks => SearchSection::Albums,
            SearchSection::Albums => SearchSection::Artists,
            SearchSection::Artists => SearchSection::Playlists,
            SearchSection::Playlists => SearchSection::Tracks,
        }
    }

    /// The section above this one in the sidebar, wrapping around.
    pub fn prev(self) -> (s: Self)
        ensures
            s == search_section_at(search_section_index(self) + 3),
    {
        match self {
            SearchSection::Tracks => SearchSection::Playlists,
            SearchSection::Albums => SearchSection::Tracks,
            SearchSection::Artists => SearchSection::Albums,
            SearchSection::Playlists => SearchSection::Artists,
        }
    }

    /// The position of this section: 0 to 3, in sidebar order.
    pub fn index(self) -> (i: usize)
        ensures
            i == search_section_index(self),
    {
        match self {
            SearchSection::Tracks => 0,
            SearchSection::Albums => 1,
            SearchSection::Artists => 2,
            SearchSection::Playlists => 3,
        }
    }
}

/// Moving down then up in the search sidebar, or up then down, comes back to
/// the section one started from; four moves down make a full turn.
pub proof fn lemma_search_section_round_trip(s: SearchSection)
    ensures
        search_section_at(search_section_index(search_section_at(search_section_index(s) + 1))
            + 3) == s,
        search_section_at(search_section_index(search_section_at(search_section_index(s) + 3))
            + 1) == s,
        search_section_at(search_section_index(s) + 4) == s,
{
}

/// The number of results of a section.
pub open spec fn results_len(r: SearchResults, s: SearchSection) -> nat {
    match s {
        SearchSection::Tracks => r.tracks@.len(),
        SearchSection::Albums => r.albums@.len(),
        SearchSection::Artists => r.artists@.len(),
        SearchSection::Playlists => r.playlists@.len(),
    }
}

/// The number of results in each section, in sidebar order.
pub fn results_len_of(r: &SearchResults, section: SearchSection) -> (n: usize)
    ensures
        n == results_len(*r, section),
{
    match section {
        SearchSection::Tracks => r.tracks.len(),
        SearchSection::Albums => r.albums.len(),
        SearchSection::Artists => r.artists.len(),
        SearchSection::Playlists => r.playlists.len(),
    }
}

/// Everything the search tab holds.
#[derive(Debug)]
pub struct SearchState {
    pub focus: SearchFocus,
    pub active_section: SearchSection,
    pub cursor: [usize; 4],
    pub results: SearchResults,
    pub viewing: Option<LibraryViewing>,
    pub pending_viewing_title: String,
    pub input: String,
    pub history: VecDeque<String>,
    pub history_cursor: Option<usize>,
    pub draft: String,
    /// Items already fetched per section, which is also the offset of the
    /// next page.
    pub loaded: [usize; 4],
    /// Whether Tidal has no more results for a section.
    pub exhausted: [bool; 4],
}

/// The queries of a history, as text.
pub open spec fn history_texts(h: VecDeque<String>) -> Seq<Seq<char>> {
    h@.map_values(|s: String| s@)
}

/// Whether a search state is the one a search tab starts with.
pub open spec fn is_fresh_search(s: SearchState) -> bool {
    &&& s.focus == SearchFocus::Sidebar
    &&& s.active_section == SearchSection::Tracks
    &&& s.cursor@ == seq![0usize, 0usize, 0usize, 0usize]
    &&& s.results.tracks@.len() == 0
    &&& s.results.albums@.len() == 0
    &&& s.results.artists@.len() == 0
    &&& s.results.playlists@.len() == 0
    &&& s.viewing is None
    &&& s.pending_viewing_title@.len() == 0
    &&& s.input@.len() == 0
    &&& s.history@.len() == 0
    &&& s.history_cursor is None
    &&& s.draft@.len() == 0
    &&& s.loaded@ == seq![0usize, 0usize, 0usize, 0usize]
    &&& s.exhausted@ == seq![false, false, false, false]
}

/// The position of the first occurrence of `q` in `h`, if any.
pub open spec fn first_index_of(h: Seq<Seq<char>>, q: Seq<char>) -> Option<int>
    decreases h.len(),
{
    if h.len() == 0 {
        None
    } else if h[0] == q {
        Some(0)
    } else {
        match first_index_of(h.drop_first(), q) {
            Some(i) => Some(i + 1),
            None => None,
        }
    }
}

/// The history after recording the query `q`: its first earlier occurrence,
/// if any, is removed, `q` is put in front, and only the ten most recent
/// queries are kept.
pub open spec fn recorded(h: Seq<Seq<char>>, q: Seq<char>) -> Seq<Seq<char>> {
    let rest = match first_index_of(h, q) {
        Some(p) => h.remove(p),
        None => h,
    };
    let all = seq![q] + rest;
    if all.len() <= HISTORY_LIMIT {
        all
    } else {
        all.take(HISTORY_LIMIT as int)
    }
}

/// The input, the draft and the history cursor of a search state.
pub struct HistoryNav {
    pub input: Seq<char>,
    pub draft: Seq<char>,
    pub cursor: Option<usize>,
}

/// One step back in the history (the up arrow): the first step saves the
/// input as draft and shows the most recent query; later steps show older
/// queries until the oldest is reached. Nothing changes with an empty history.
pub open spec fn nav_up(h: Seq<Seq<char>>, n: HistoryNav) -> HistoryNav {
    if h.len() == 0 {
        n
    } else {
        match n.cursor {
            None => HistoryNav { input: h[0], draft: n.input, cursor: Some(0) },
            Some(c) => if c + 1 < h.len() {
                HistoryNav { input: h[c + 1], draft: n.draft, cursor: Some((c + 1) as usize) }
            } else {
                n
            },
        }
    }
}

/// One step forward in the history (the down arrow): from the most recent
/// query back to the draft, which leaves navigation; otherwise to the next
/// more recent query. Nothing changes outside navigation.
pub open spec fn nav_down(h: Seq<Seq<char>>, n: HistoryNav) -> HistoryNav {
    match n.cursor {
        None => n,
        Some(c) => if c == 0 {
            HistoryNav { input: n.draft, draft: Seq::empty(), cursor: None }
        } else {
            HistoryNav { input: h[c - 1], draft: n.draft, cursor: Some((c - 1) as usize) }
        },
    }
}

/// The navigation part of a search state.
pub open spec fn nav_of(s: SearchState) -> HistoryNav {
    HistoryNav { input: s.input@, draft: s.draft@, cursor: s.history_cursor }
}

/// Whether two search states agree on everything but the input, the draft
/// and the history with its cursor.
pub open spec fn same_outside_history(a: SearchState, b: SearchState) -> bool {
    &&& a.focus == b.focus
    &&& a.active_section == b.active_section
    &&& a.cursor == b.cursor
    &&& a.results == b.results
    &&& a.viewing == b.viewing
    &&& a.pending_viewing_title == b.pending_viewing_title
    &&& a.loaded == b.loaded
    &&& a.exhausted == b.exhausted
}

/// Whether no query occurs twice in `h`.
pub open spec fn no_repeats(h: Seq<Seq<char>>) -> bool {
    forall|i: int, j: int| 0 <= i < h.len() && 0 <= j < h.len() && i != j ==> h[i] != h[j]
}

impl SearchState {
    /// An empty search tab: no input, no results, no history.
    pub fn new() -> (s: Self)
        ensures
            is_fresh_search(s),
    {
        let cursor: [usize; 4] = [0, 0, 0, 0];
        let loaded: [usize; 4] = [0, 0, 0, 0];
        let exhausted: [bool; 4] = [false, false, false, false];
        assert(cursor@ =~= seq![0usize, 0usize, 0usize, 0usize]);
        assert(loaded@ =~= seq![0usize, 0usize, 0usize, 0usize]);
        assert(exhausted@ =~= seq![false, false, false, false]);
        let results = SearchResults::default();
        SearchState {
            focus: SearchFocus::Sidebar,
            active_section: SearchSection::Tracks,
            cursor,
            results,
            viewing: None,
            pending_viewing_title: String::new(),
            input: String::new(),
            history: VecDeque::new(),
            history_cursor: None,
            draft: String::new(),
            loaded,
            exhausted,
        }
    }

    /// The number of results in `section`.
    pub fn len(&self, section: SearchSection) -> (n: usize)
        ensures
            n == results_len(self.results, section),
    {
        results_len_of(&self.results, section)
    }

    /// The number of results in the active section.
    pub fn current_len(&self) -> (n: usize)
        ensures
            n == results_len(self.results, self.active_section),
    {
        self.len(self.active_section)
    }

    /// Records `query` as the most recent search and leaves history
    /// navigation.
    pub fn record_history(&mut self, query: &str)
        ensures
            history_texts(final(self).history) == recorded(history_texts(old(self).history), query@),
            final(self).history_cursor is None,
            final(self).input == old(self).input,
            final(self).draft == old(self).draft,
            same_outside_history(*final(self), *old(self)),
    {
        let ghost h0 = history_texts(self.history);
        let n = self.history.len();
        let mut i: usize = 0;
        let mut pos: Option<usize> = None;
        while i < n
            invariant
                n == self.history@.len(),
                h0 == history_texts(self.history),
                i <= n,
                *self == *old(self),
                pos matches Some(p) ==> p < n && h0[p as int] == query@,
                pos is None ==> forall|j: int| 0 <= j < i ==> #[trigger] h0[j] != query@,
                pos matches Some(p) ==> forall|j: int| 0 <= j < p ==> #[trigger] h0[j] != query@,
            decreases n - i,
        {
            if pos.is_none() && same_string(&self.history[i], query) {
                pos = Some(i);
            }
            i = i + 1;
        }
        proof {
            lemma_first_index_of(h0, query@);
        }
        match pos {
            Some(p) => {
                proof {
                    assert(h0[p as int] == query@);
                    if first_index_of(h0, query@) != Some(p as int) {
                        let f = first_index_of(h0, query@).unwrap();
                        assert(h0[f] == query@);
                    }
                }
                self.history.remove(p);
                assert(history_texts(self.history) =~= h0.remove(p as int));
            },
            None => {
                proof {
                    if first_index_of(h0, query@) is Some {
                        let f = first_index_of(h0, query@).unwrap();
                        assert(h0[f] == query@);
                    }
                }
            },
        }
        let ghost rest = history_texts(self.history);
        let q = crate::text::string_of(query);
        self.history.push_front(q);
        assert(history_texts(self.history) =~= seq![query@] + rest);
        while self.history.len() > HISTORY_LIMIT
            invariant
                self.input == old(self).input,
                self.draft == old(self).draft,
                same_outside_history(*self, *old(self)),
                history_texts(self.history).len() >= 1,
                history_texts(self.history).len() >= HISTORY_LIMIT || history_texts(self.history).len()
                    == (seq![query@] + rest).len(),
                history_texts(self.history) == (seq![query@] + rest).take(
                    history_texts(self.history).len() as int,
                ),
                (seq![query@] + rest).len() >= history_texts(self.history).len(),
            decreases self.history@.len(),
        {
            let ghost before = history_texts(self.history);
            self.history.pop_back();
            assert(history_texts(self.history) =~= before.drop_last());
        }
        proof {
            let all = seq![query@] + rest;
            if all.len() <= HISTORY_LIMIT {
                assert(history_texts(self.history) =~= all);
            }
        }
        self.history_cursor = None;
    }

    /// Steps back in the history (the up arrow).
    pub fn history_up(&mut self)
        ensures
            nav_of(*final(self)) == nav_up(history_texts(old(self).history), nav_of(*old(self))),
            final(self).history == old(self).history,
            same_outside_history(*final(self), *old(self)),
    {
        if self.history.len() == 0 {
            return;
        }
        match self.history_cursor {
            None => {
                self.draft = self.input.clone();
                self.history_cursor = Some(0);
                self.input = self.history[0].clone();
            },
            Some(c) => {
                if c < self.history.len() - 1 {
                    self.history_cursor = Some(c + 1);
                    self.input = self.history[c + 1].clone();
                }
            },
        }
    }

    /// Steps forward in the history (the down arrow).
    pub fn history_down(&mut self)
        requires
            old(self).history_cursor matches Some(c) ==> c == 0 || c - 1 < old(self).history@.len(),
        ensures
            nav_of(*final(self)) == nav_down(history_texts(old(self).history), nav_of(*old(self))),
            final(self).history == old(self).history,
            same_outside_history(*final(self), *old(self)),
    {
        match self.history_cursor {
            None => {},
            Some(c) => {
                if c == 0 {
                    self.history_cursor = None;
                    let mut d = String::new();
                    std::mem::swap(&mut d, &mut self.draft);
                    self.input = d;
                } else {
                    let prev = c - 1;
                    self.history_cursor = Some(prev);
                    self.input = self.history[prev].clone();
                }
            },
        }
    }
}

fn same_string(a: &String, b: &str) -> (r: bool)
    ensures
        r == (a@ == b@),
{
    crate::text::same_text(a.as_str(), b)
}

/// The first occurrence of `q` in `h`, when there is one, holds `q` and
/// no earlier position does; when there is none, no position holds `q`.
pub proof fn lemma_first_index_of(h: Seq<Seq<char>>, q: Seq<char>)
    ensures
        match first_index_of(h, q) {
            Some(p) => 0 <= p < h.len() && h[p] == q && forall|j: int| 0 <= j < p ==> #[trigger] h[j] != q,
            None => forall|j: int| 0 <= j < h.len() ==> #[trigger] h[j] != q,
        },
    decreases h.len(),
{
    if h.len() > 0 {
        let t = h.drop_first();
        lemma_first_index_of(t, q);
        if h[0] != q {
            assert forall|j: int| 0 < j < h.len() implies #[trigger] h[j] == t[j - 1] by {}
        }
    }
}

/// Dropping the entries equal to `q` keeps a sequence that holds none.
proof fn lemma_filter_keeps_all(h: Seq<Seq<char>>, q: Seq<char>)
    requires
        forall|j: int| 0 <= j < h.len() ==> #[trigger] h[j] != q,
    ensures
        h.filter(|x: Seq<char>| x != q) == h,
    decreases h.len(),
{
    reveal(Seq::filter);
    if h.len() > 0 {
        let t = h.drop_last();
        assert forall|j: int| 0 <= j < t.len() implies #[trigger] t[j] != q by {
            assert(t[j] == h[j]);
        }
        lemma_filter_keeps_all(t, q);
        assert(h.last() != q);
        assert(t.push(h.last()) =~= h);
    }
}

/// Recording a query into a history without repeats puts the query first,
/// then the old history without it, ten queries at most.
pub proof fn lemma_recorded_filter(h: Seq<Seq<char>>, q: Seq<char>)
    requires
        no_repeats(h),
    ensures
        ({
            let all = seq![q] + h.filter(|x: Seq<char>| x != q);
            recorded(h, q) == if all.len() <= HISTORY_LIMIT {
                all
            } else {
                all.take(HISTORY_LIMIT as int)
            }
        }),
{
    let pred = |x: Seq<char>| x != q;
    lemma_first_index_of(h, q);
    let rest = match first_index_of(h, q) {
        Some(p) => h.remove(p),
        None => h,
    };
    match first_index_of(h, q) {
        Some(p) => {
            let a = h.take(p);
            let b = h.skip(p + 1);
            assert(h =~= a + seq![q] + b);
            assert(h.remove(p) =~= a + b);
            assert forall|j: int| 0 <= j < a.len() implies #[trigger] a[j] != q by {
                assert(a[j] == h[j]);
            }
            assert forall|j: int| 0 <= j < b.len() implies #[trigger] b[j] != q by {
                assert(b[j] == h[p + 1 + j]);
            }
            lemma_filter_keeps_all(a, q);
            lemma_filter_keeps_all(b, q);
            Seq::filter_distributes_over_add(a + seq![q], b, pred);
            Seq::filter_distributes_over_add(a, seq![q], pred);
            reveal(Seq::filter);
            let one = seq![q];
            assert(one.drop_last() =~= Seq::<Seq<char>>::empty());
            assert(Seq::<Seq<char>>::empty().filter(pred) =~= Seq::<Seq<char>>::empty());
            assert(one.last() == q);
            assert(!pred(q));
            assert(one.filter(pred) == one.drop_last().filter(pred));
            assert(one.filter(pred) =~= Seq::<Seq<char>>::empty());
            assert(h.filter(pred) =~= a + b);
        },
        None => {
            lemma_filter_keeps_all(h, q);
        },
    }
    assert(h.filter(pred) == rest);
}

/// Recording a query puts it first, keeps at most ten queries, and keeps a
/// history free of repeats free of them.
pub proof fn lemma_recorded(h: Seq<Seq<char>>, q: Seq<char>)
    ensures
        recorded(h, q).len() >= 1,
        recorded(h, q)[0] == q,
        recorded(h, q).len() <= HISTORY_LIMIT,
        no_repeats(h) ==> no_repeats(recorded(h, q)),
{
    lemma_first_index_of(h, q);
    let rest = match first_index_of(h, q) {
        Some(p) => h.remove(p),
        None => h,
    };
    let all = seq![q] + rest;
    assert(all[0] == q);
    if no_repeats(h) {
        assert forall|j: int| 0 <= j < rest.len() implies #[trigger] rest[j] != q by {
            match first_index_of(h, q) {
                Some(p) => {
                    if j < p {
                    } else {
                        assert(rest[j] == h[j + 1]);
                    }
                },
                None => {},
            }
        }
        assert forall|i: int, j: int|
            0 <= i < all.len() && 0 <= j < all.len() && i != j implies all[i] != all[j] by {
            if i == 0 {
                assert(all[j] == rest[j - 1]);
            } else if j == 0 {
                assert(all[i] == rest[i - 1]);
            } else {
                match first_index_of(h, q) {
                    Some(p) => {
                        let hi = if i - 1 < p { i - 1 } else { i };
                        let hj = if j - 1 < p { j - 1 } else { j };
                        assert(all[i] == h[hi]);
                        assert(all[j] == h[hj]);
                    },
                    None => {
                        assert(all[i] == h[i - 1]);
                        assert(all[j] == h[j - 1]);
                    },
                }
            }
        }
    }
}

/// Recording a query that is already in a repeat-free history moves it to
/// the front and keeps the order of the others.
pub proof fn lemma_recorded_moves_to_front(h: Seq<Seq<char>>, q: Seq<char>, p: int)
    requires
        0 <= p < h.len(),
        h[p] == q,
        no_repeats(h),
        h.len() <= HISTORY_LIMIT,
    ensures
        recorded(h, q) == seq![q] + h.remove(p),
        recorded(h, q).len() == h.len(),
{
    lemma_first_index_of(h, q);
    let f = first_index_of(h, q).unwrap();
    assert(f == p);
}

/// Stepping back then forward in the history returns to where one was: to
/// the typed input when navigation had not started, to the same query
/// otherwise.
pub proof fn lemma_history_up_down(h: Seq<Seq<char>>, n: HistoryNav)
    requires
        0 < h.len() <= usize::MAX,
        n.cursor matches Some(c) ==> c + 1 < h.len(),
    ensures
        nav_down(h, nav_up(h, n)).cursor == n.cursor,
        n.cursor is None ==> nav_down(h, nav_up(h, n)).input == n.input,
        n.cursor matches Some(c) ==> nav_down(h, nav_up(h, n)).input == h[c as int],
{
}

/// An item with a key by which repeated results are recognised.
pub trait Keyed {
    type Key;

    spec fn key(&self) -> Self::Key;

    fn same_key(&self, other: &Self) -> (b: bool)
        ensures
            b == (self.key() == other.key()),
    ;
}

impl Keyed for Track {
    type Key = u64;

    open spec fn key(&self) -> u64 {
        self.id
    }

    fn same_key(&self, other: &Self) -> (b: bool) {
        self.id == other.id
    }
}

impl Keyed for Album {
    type Key = u64;

    open spec fn key(&self) -> u64 {
        self.id
    }

    fn same_key(&self, other: &Self) -> (b: bool) {
        self.id == other.id
    }
}

impl Keyed for Artist {
    type Key = u64;

    open spec fn key(&self) -> u64 {
        self.id
    }

    fn same_key(&self, other: &Self) -> (b: bool) {
        self.id == other.id
    }
}

impl Keyed for Playlist {
    type Key = Seq<char>;

    open spec fn key(&self) -> Seq<char> {
        self.uuid@
    }

    fn same_key(&self, other: &Self) -> (b: bool) {
        self.uuid == other.uuid
    }
}

/// Whether some item of `s` has the key `k`.
pub open spec fn has_key<T: Keyed>(s: Seq<T>, k: T::Key) -> bool {
    exists|i: int| 0 <= i < s.len() && #[trigger] s[i].key() == k
}

/// `dst` followed by the items of `src` whose key is not yet present, taken
/// in order (so a key repeated within `src` is appended once).
pub open spec fn appended_new<T: Keyed>(dst: Seq<T>, src: Seq<T>) -> Seq<T>
    decreases src.len(),
{
    if src.len() == 0 {
        dst
    } else {
        let prev = appended_new(dst, src.drop_last());
        if has_key(prev, src.last().key()) {
            prev
        } else {
            prev.push(src.last())
        }
    }
}

/// Whether no key occurs twice in `s`.
pub open spec fn keys_unique<T: Keyed>(s: Seq<T>) -> bool {
    forall|i: int, j: int| 0 <= i < s.len() && 0 <= j < s.len() && i != j ==> s[i].key() != s[j].key()
}

/// Appends the items of `src` whose key is not already present in `dst`;
/// returns how many were appended.
pub fn append_dedup<T: Keyed>(dst: &mut Vec<T>, src: Vec<T>) -> (n: usize)
    ensures
        final(dst)@ == appended_new(old(dst)@, src@),
        n == final(dst)@.len() - old(dst)@.len(),
{
    let ghost d0 = dst@;
    let ghost s0 = src@;
    let mut src = src;
    let before = dst.len();
    let mut k: usize = 0;
    let total = src.len();
    assert(s0.take(0) =~= Seq::<T>::empty());
    while src.len() > 0
        invariant
            total == s0.len(),
            k + src@.len() == total,
            src@ == s0.skip(k as int),
            dst@ == appended_new(d0, s0.take(k as int)),
            dst@.len() >= d0.len(),
            before == d0.len(),
        decreases src@.len(),
    {
        let item = src.remove(0);
        assert(s0.take(k + 1).drop_last() =~= s0.take(k as int));
        assert(s0.take(k + 1).last() == item);
        let mut present = false;
        let mut j: usize = 0;
        while j < dst.len()
            invariant
                j <= dst@.len(),
                present ==> has_key(dst@, item.key()),
                !present ==> forall|i: int| 0 <= i < j ==> #[trigger] dst@[i].key() != item.key(),
            decreases dst@.len() - j,
        {
            if !present && dst[j].same_key(&item) {
                assert(dst@[j as int].key() == item.key());
                present = true;
            }
            j = j + 1;
        }
        if !present {
            dst.push(item);
        }
        assert(src@ =~= s0.skip(k + 1));
        k = k + 1;
    }
    assert(s0.take(total as int) =~= s0);
    dst.len() - before
}

/// The keys present once `src` is appended to `dst` are those of `dst` and
/// of `src`.
proof fn lemma_appended_keys<T: Keyed>(dst: Seq<T>, src: Seq<T>, x: T::Key)
    ensures
        has_key(appended_new(dst, src), x) <==> (has_key(dst, x) || has_key(src, x)),
    decreases src.len(),
{
    if src.len() > 0 {
        let s1 = src.drop_last();
        let last = src.last();
        lemma_appended_keys(dst, s1, x);
        let prev = appended_new(dst, s1);
        let cur = appended_new(dst, src);
        if has_key(src, x) {
            let i = choose|i: int| 0 <= i < src.len() && #[trigger] src[i].key() == x;
            if i < s1.len() {
                assert(s1[i] == src[i]);
            }
        }
        if has_key(s1, x) {
            let i = choose|i: int| 0 <= i < s1.len() && #[trigger] s1[i].key() == x;
            assert(src[i] == s1[i]);
        }
        assert(src[src.len() - 1] == last);
        if has_key(prev, last.key()) {
            assert(cur == prev);
        } else {
            assert(cur == prev.push(last));
            if has_key(cur, x) {
                let i = choose|i: int| 0 <= i < cur.len() && #[trigger] cur[i].key() == x;
                if i < prev.len() {
                    assert(cur[i] == prev[i]);
                }
            }
            if has_key(prev, x) {
                let i = choose|i: int| 0 <= i < prev.len() && #[trigger] prev[i].key() == x;
                assert(cur[i] == prev[i]);
            }
            assert(cur[prev.len() as int] == last);
        }
    }
}

/// How many items of `src` appending them to `dst` would add: those whose
/// key is neither in `dst` nor in an earlier item of `src`.
pub fn count_new<T: Keyed>(dst: &Vec<T>, src: &Vec<T>) -> (n: usize)
    ensures
        n == appended_new(dst@, src@).len() - dst@.len(),
{
    let mut n: usize = 0;
    let mut k: usize = 0;
    assert(src@.take(0) =~= Seq::<T>::empty());
    while k < src.len()
        invariant
            k <= src@.len(),
            n <= k,
            n == appended_new(dst@, src@.take(k as int)).len() - dst@.len(),
        decreases src@.len() - k,
    {
        let item = &src[k];
        let ghost key = src@[k as int].key();
        let mut present = false;
        let mut j: usize = 0;
        while j < dst.len()
            invariant
                j <= dst@.len(),
                k < src@.len(),
                *item == src@[k as int],
                key == src@[k as int].key(),
                present ==> has_key(dst@, key),
                !present ==> forall|i: int| 0 <= i < j ==> #[trigger] dst@[i].key() != key,
            decreases dst@.len() - j,
        {
            if !present && dst[j].same_key(item) {
                assert(dst@[j as int].key() == key);
                present = true;
            }
            j = j + 1;
        }
        let ghost t = src@.take(k as int);
        let mut j: usize = 0;
        while j < k
            invariant
                j <= k < src@.len(),
                t == src@.take(k as int),
                *item == src@[k as int],
                key == src@[k as int].key(),
                present ==> has_key(dst@, key) || has_key(t, key),
                !present ==> forall|i: int| 0 <= i < dst@.len() ==> #[trigger] dst@[i].key() != key,
                !present ==> forall|i: int| 0 <= i < j ==> #[trigger] src@[i].key() != key,
            decreases k - j,
        {
            if !present && src[j].same_key(item) {
                assert(t[j as int] == src@[j as int]);
                assert(t[j as int].key() == key);
                present = true;
            }
            j = j + 1;
        }
        proof {
            let t1 = src@.take(k + 1);
            assert(t1.drop_last() =~= t);
            assert(t1.last() == src@[k as int]);
            lemma_appended_keys(dst@, t, key);
            if !present {
                assert(!has_key(t, key)) by {
                    if has_key(t, key) {
                        let i = choose|i: int| 0 <= i < t.len() && #[trigger] t[i].key() == key;
                        assert(t[i] == src@[i]);
                    }
                }
            }
            lemma_appended_new(dst@, t);
        }
        if !present {
            n = n + 1;
        }
        k = k + 1;
    }
    assert(src@.take(src@.len() as int) =~= src@);
    n
}

/// Appending keeps what was there and adds at most the items of `src`; when
/// `dst` has no repeated key the result has none; every key of `src` is
/// present in it.
pub proof fn lemma_appended_new<T: Keyed>(dst: Seq<T>, src: Seq<T>)
    ensures
        dst.len() <= appended_new(dst, src).len() <= dst.len() + src.len(),
        appended_new(dst, src).take(dst.len() as int) == dst,
        keys_unique(dst) ==> keys_unique(appended_new(dst, src)),
        forall|i: int| 0 <= i < src.len() ==> has_key(appended_new(dst, src), #[trigger] src[i].key()),
    decreases src.len(),
{
    if src.len() == 0 {
        assert(dst.take(dst.len() as int) =~= dst);
    } else {
        let prev = appended_new(dst, src.drop_last());
        lemma_appended_new(dst, src.drop_last());
        let x = src.last();
        let cur = appended_new(dst, src);
        if !has_key(prev, x.key()) {
            assert(cur == prev.push(x));
            assert(cur.take(dst.len() as int) =~= prev.take(dst.len() as int));
            if keys_unique(prev) {
                assert forall|i: int, j: int|
                    0 <= i < cur.len() && 0 <= j < cur.len() && i != j implies cur[i].key()
                    != cur[j].key() by {
                    if i == prev.len() {
                        assert(cur[j] == prev[j]);
                    } else if j == prev.len() {
                        assert(cur[i] == prev[i]);
                    }
                }
            }
            assert(cur[prev.len() as int] == x);
        }
        assert forall|i: int| 0 <= i < src.len() implies has_key(cur, #[trigger] src[i].key()) by {
            if i < src.len() - 1 {
                assert(src[i] == src.drop_last()[i]);
                let w = choose|w: int| 0 <= w < prev.len() && #[trigger] prev[w].key() == src[i].key();
                assert(cur[w] == prev[w]);
            } else {
                if has_key(prev, x.key()) {
                    let w = choose|w: int| 0 <= w < prev.len() && #[trigger] prev[w].key() == x.key();
                    assert(cur[w] == prev[w]);
                } else {
                    assert(cur[prev.len() as int] == x);
                }
            }
        }
    }
}

} // verus!
