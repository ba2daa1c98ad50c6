use tuidal::app::{App, Tab};
use tuidal::events::AppEvent;
use tuidal::search::{SearchFocus, SearchSection};
use tuidal::tidal::{Album, Artist, SearchResults, Track};

fn make_track(id: u64, title: &str) -> Track {
    Track {
        id,
        title: title.to_string(),
        duration: 200,
        track_number: None,
        artists: vec![],
        album: Album {
            id: 0,
            title: String::new(),
        },
        audio_quality: None,
        explicit: None,
    }
}

#[test]
fn test_remove_queue_index_after_current() {
    let mut queue = vec![make_track(1, "A"), make_track(2, "B"), make_track(3, "C")];
    let mut queue_index = Some(1);
    let removed = App::remove_queue_index(&mut queue, &mut queue_index, 2);
    assert_eq!(removed.unwrap().id, 3);
    assert_eq!(queue.len(), 2);
    assert_eq!(queue_index, Some(1));
}

#[test]
fn test_remove_queue_index_before_current() {
    let mut queue = vec![make_track(1, "A"), make_track(2, "B"), make_track(3, "C")];
    let mut queue_index = Some(2);
    let removed = App::remove_queue_index(&mut queue, &mut queue_index, 0);
    assert_eq!(removed.unwrap().id, 1);
    assert_eq!(queue.len(), 2);
    assert_eq!(queue_index, Some(1));
}

#[test]
fn test_remove_queue_index_current_is_first() {
    let mut queue = vec![make_track(1, "A"), make_track(2, "B")];
    let mut queue_index = Some(0);
    let removed = App::remove_queue_index(&mut queue, &mut queue_index, 0);
    assert_eq!(removed.unwrap().id, 1);
    assert_eq!(queue.len(), 1);
    assert_eq!(queue_index, Some(0));
}

#[test]
fn test_remove_queue_index_out_of_bounds() {
    let mut queue = vec![make_track(1, "A")];
    let mut queue_index = Some(0);
    let removed = App::remove_queue_index(&mut queue, &mut queue_index, 5);
    assert!(removed.is_none());
    assert_eq!(queue.len(), 1);
    assert_eq!(queue_index, Some(0));
}

#[test]
fn test_remove_queue_index_empty_queue() {
    let mut queue: Vec<Track> = vec![];
    let mut queue_index = None;
    let removed = App::remove_queue_index(&mut queue, &mut queue_index, 0);
    assert!(removed.is_none());
}

#[test]
fn test_search_generation_discards_stale() {
    let mut app = App::new();
    app.search_generation = 5;

    // a result of generation 3 < 5 is ignored
    let stale = SearchResults {
        tracks: vec![make_track(99, "Stale")],
        ..SearchResults::default()
    };
    app.handle_event(AppEvent::SearchDone(Ok(stale), 3));
    assert_eq!(app.search.results.tracks.len(), 0);
    assert_eq!(app.search.results.albums.len(), 0);

    // a result of the current generation is taken
    let current = SearchResults {
        tracks: vec![make_track(1, "Current")],
        ..SearchResults::default()
    };
    app.handle_event(AppEvent::SearchDone(Ok(current), 5));
    assert_eq!(app.search.results.tracks.len(), 1);
    assert_eq!(app.search.results.tracks[0].title, "Current");

    // a stale error is ignored too
    app.handle_event(AppEvent::SearchDone(Err("stale error".into()), 4));
    assert_eq!(app.status_msg, "1 resultados");
}

#[test]
fn test_search_persists_across_tab_switch() {
    let mut app = App::new();
    app.search.input = "radiohead".to_string();
    app.search.results = SearchResults {
        tracks: vec![make_track(1, "Karma Police")],
        ..SearchResults::default()
    };
    app.search.active_section = SearchSection::Albums;
    app.search.cursor = [3, 7, 0, 0];
    app.search.focus = SearchFocus::Content;

    app.next_tab(); // queue
    app.next_tab(); // now playing
    app.next_tab(); // library
    app.next_tab(); // back to search

    assert_eq!(app.search.input, "radiohead");
    assert_eq!(app.search.results.tracks.len(), 1);
    assert_eq!(app.search.results.tracks[0].title, "Karma Police");
    assert_eq!(app.search.active_section, SearchSection::Albums);
    assert_eq!(app.search.cursor, [3, 7, 0, 0]);
    assert_eq!(app.search.focus, SearchFocus::Content);
}

#[test]
fn test_clear_search_resets_state() {
    let mut app = App::new();
    app.active_tab = Tab::Search;
    app.search.input = "radiohead".to_string();
    app.search.results = SearchResults {
        tracks: vec![make_track(1, "Karma Police")],
        ..SearchResults::default()
    };
    app.search.cursor = [3, 2, 1, 0];
    app.search.focus = SearchFocus::Content;
    app.search.active_section = SearchSection::Artists;

    app.clear_search();

    assert!(app.search.input.is_empty());
    assert_eq!(app.search.results.tracks.len(), 0);
    assert_eq!(app.search.results.albums.len(), 0);
    assert_eq!(app.search.results.artists.len(), 0);
    assert_eq!(app.search.results.playlists.len(), 0);
    assert_eq!(app.search.cursor, [0; 4]);
    assert_eq!(app.search.focus, SearchFocus::Sidebar);
    assert_eq!(app.search.active_section, SearchSection::Tracks);
    assert!(app.search.viewing.is_none());
    assert_eq!(app.status_msg, "Búsqueda limpiada");
}

#[test]
fn test_search_more_appends_and_dedups() {
    let mut app = App::new();
    app.search_generation = 5;
    app.search.active_section = SearchSection::Tracks;
    app.search.loaded = [10, 0, 0, 0];
    app.search.results = SearchResults {
        tracks: vec![make_track(1, "A"), make_track(2, "B")],
        ..SearchResults::default()
    };
    // a full page: the duplicate "B" and 9 new tracks (ids 3..=11)
    let mut page2 = vec![make_track(2, "B")];
    for id in 3..=11 {
        page2.push(make_track(id, &format!("T{id}")));
    }
    let page2 = SearchResults {
        tracks: page2,
        ..SearchResults::default()
    };
    app.handle_event(AppEvent::SearchMoreDone(Ok(page2), 5, SearchSection::Tracks));

    assert_eq!(app.search.results.tracks.len(), 11);
    assert_eq!(app.search.results.tracks[2].title, "T3");
    // the duplicate is not appended: 9 new items on top of the 10 loaded
    assert_eq!(app.search.loaded[0], 19);
    assert!(!app.search.exhausted[0]);
}

#[test]
fn test_search_more_marks_exhausted_on_short_page() {
    let mut app = App::new();
    app.search_generation = 5;
    app.search.loaded = [10, 0, 0, 0];
    let page = SearchResults {
        tracks: vec![make_track(3, "C"), make_track(4, "D"), make_track(5, "E")],
        ..SearchResults::default()
    };
    app.handle_event(AppEvent::SearchMoreDone(Ok(page), 5, SearchSection::Tracks));

    assert_eq!(app.search.results.tracks.len(), 3);
    assert_eq!(app.search.loaded[0], 13);
    assert!(app.search.exhausted[0]);
}

#[test]
fn test_search_more_stale_discarded() {
    let mut app = App::new();
    app.search_generation = 5;
    app.search.results = SearchResults {
        tracks: vec![make_track(1, "A")],
        ..SearchResults::default()
    };
    app.handle_event(AppEvent::SearchMoreDone(
        Ok(SearchResults {
            tracks: vec![make_track(9, "Stale")],
            ..SearchResults::default()
        }),
        3,
        SearchSection::Tracks,
    ));
    assert_eq!(app.search.results.tracks.len(), 1);
    assert_eq!(app.search.results.tracks[0].title, "A");
    assert_eq!(app.search.loaded[0], 0);
}

#[test]
fn test_search_done_sets_loaded_and_exhausted() {
    let mut app = App::new();
    app.search_generation = 1;
    let results = SearchResults {
        tracks: vec![make_track(1, "A"), make_track(2, "B")],
        artists: vec![Artist {
            id: 1,
            name: "X".to_string(),
        }],
        ..SearchResults::default()
    };
    app.handle_event(AppEvent::SearchDone(Ok(results), 1));

    assert_eq!(app.search.loaded, [2, 0, 1, 0]);
    // every section returned less than a full page, so all are exhausted
    assert_eq!(app.search.exhausted, [true, true, true, true]);
}

#[test]
fn test_load_more_bg_guards() {
    let mut app = App::new();

    // not logged in: a status message, no request
    app.load_more_bg();
    assert_eq!(
        app.status_msg,
        app.lang.strings().status_login_required_short.to_string()
    );
    assert_eq!(app.search_generation, 0);

    app.authenticated = true;
    app.search.input = "radiohead".to_string();

    // the sidebar has the keyboard: nothing happens
    app.search.focus = SearchFocus::Sidebar;
    app.status_msg.clear();
    app.load_more_bg();
    assert_eq!(app.status_msg, "");
    assert_eq!(app.search_generation, 0);

    // the content pane, but an empty input: nothing happens
    app.search.focus = SearchFocus::Content;
    app.search.input.clear();
    app.status_msg.clear();
    app.load_more_bg();
    assert_eq!(app.status_msg, "");
    assert_eq!(app.search_generation, 0);

    // an exhausted section: a status message, no request
    app.search.input = "radiohead".to_string();
    app.search.loaded[0] = 10;
    app.search.exhausted[0] = true;
    app.load_more_bg();
    assert_eq!(
        app.status_msg,
        app.lang.strings().search_no_more_results.to_string()
    );
    assert_eq!(app.search_generation, 0);
}

#[test]
fn test_clear_search_ignored_on_other_tab() {
    let mut app = App::new();
    app.active_tab = Tab::Queue;
    app.search.input = "radiohead".to_string();
    app.search.results = SearchResults {
        tracks: vec![make_track(1, "Karma Police")],
        ..SearchResults::default()
    };
    app.search.cursor = [3, 2, 1, 0];
    app.search.focus = SearchFocus::Content;
    app.search.active_section = SearchSection::Artists;

    app.clear_search();

    assert_eq!(app.search.input, "radiohead");
    assert_eq!(app.search.results.tracks.len(), 1);
    assert_eq!(app.search.cursor, [3, 2, 1, 0]);
    assert_eq!(app.search.focus, SearchFocus::Content);
    assert_eq!(app.search.active_section, SearchSection::Artists);
    assert_ne!(app.status_msg, "Búsqueda limpiada");
}

#[test]
fn further_page_is_accepted_by_its_count_of_new_items() {
    let mut app = App::new();
    app.search_generation = 5;
    app.search.results = SearchResults {
        tracks: vec![make_track(1, "A"), make_track(2, "B")],
        ..SearchResults::default()
    };
    app.search.loaded = [usize::MAX - 1, 0, 0, 0];
    let repeats = SearchResults {
        tracks: vec![make_track(1, "A"), make_track(2, "B"), make_track(1, "A")],
        ..SearchResults::default()
    };
    assert!(app.accepts(&AppEvent::SearchMoreDone(Ok(repeats), 5, SearchSection::Tracks)));
    let one_new = SearchResults {
        tracks: vec![make_track(2, "B"), make_track(3, "C"), make_track(3, "C")],
        ..SearchResults::default()
    };
    assert!(app.accepts(&AppEvent::SearchMoreDone(Ok(one_new), 5, SearchSection::Tracks)));
    let two_new = SearchResults {
        tracks: vec![make_track(3, "C"), make_track(4, "D")],
        ..SearchResults::default()
    };
    assert!(!app.accepts(&AppEvent::SearchMoreDone(Ok(two_new), 5, SearchSection::Tracks)));
}
