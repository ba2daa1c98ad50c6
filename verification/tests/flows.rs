use tuidal::display::StatusTone;
use tuidal::app::{shuffle_pick, ApiCommand, ApiTrack, App, Effect, InputMode, RepeatMode, Settings, Tab};
use tuidal::events::{now_playing_line, AppEvent};
use tuidal::i18n::Lang;
use tuidal::keys::{action, handle_normal, handle_search, Action, Key};
use tuidal::library::{LibraryFocus, LibrarySection, LibraryViewing};
use tuidal::player::{PlayerCommand, PlayerState};
use tuidal::search::SearchSection;
use tuidal::remote::{default_limit, micros_to_secs, position_secs, secs_to_micros, MprisWatch};
use tuidal::layout::centered_rect;
use tuidal::text::truncate;
use tuidal::tidal::{Album, Artist, CoverInfo, FavAlbum, Mix, Playlist, Quality, StreamInfo, Track};

fn track(id: u64, title: &str) -> Track {
    Track {
        id,
        title: title.to_string(),
        duration: 200,
        track_number: None,
        artists: vec![Artist { id: 7, name: "Band".to_string() }],
        album: Album { id: 3, title: "Record".to_string() },
        audio_quality: Some("LOSSLESS".to_string()),
        explicit: None,
    }
}

fn queue_of(n: u64) -> Vec<Track> {
    (1..=n).map(|i| track(i, &format!("T{i}"))).collect()
}

fn last_stream(app: &App) -> (String, u64, usize, u64) {
    for e in app.effects.iter().rev() {
        if let Effect::Stream { quality, track, queue_index, generation } = e {
            return (quality.clone(), track.id, *queue_index, *generation);
        }
    }
    panic!("no stream requested");
}

#[test]
fn key_bindings() {
    assert_eq!(action(Key::Char('q')), Action::Quit);
    assert_eq!(action(Key::Char('/')), Action::TypeSearch);
    assert_eq!(action(Key::Char('s')), Action::TypeSearch);
    assert_eq!(action(Key::Char('j')), Action::Down);
    assert_eq!(action(Key::Down), Action::Down);
    assert_eq!(action(Key::Char('+')), Action::Louder);
    assert_eq!(action(Key::Char('=')), Action::Louder);
    assert_eq!(action(Key::Char('1')), Action::SetQuality(Quality::HiResLossless));
    assert_eq!(action(Key::Char('3')), Action::SetQuality(Quality::High));
    assert_eq!(action(Key::Esc), Action::Back);
    assert_eq!(action(Key::Char('x')), Action::Nothing);
    assert_eq!(action(Key::Backspace), Action::Nothing);
}

#[test]
fn typing_a_search_and_running_it() {
    let mut app = App::new();
    app.authenticated = true;
    handle_normal(Key::Char('/'), &mut app);
    assert_eq!(app.input_mode, InputMode::Search);
    for c in "abc".chars() {
        handle_search(Key::Char(c), &mut app);
    }
    handle_search(Key::Backspace, &mut app);
    assert_eq!(app.search.input, "ab");
    handle_search(Key::Enter, &mut app);
    assert_eq!(app.input_mode, InputMode::Normal);
    assert_eq!(app.search_generation, 1);
    assert_eq!(app.status_msg, "Buscando \"ab\"...");
    assert_eq!(app.search.history[0], "ab");
    match app.effects.last() {
        Some(Effect::Search { query, limit, offset, generation, section }) => {
            assert_eq!(query, "ab");
            assert_eq!(*limit, 10);
            assert_eq!(*offset, 0);
            assert_eq!(*generation, 1);
            assert!(section.is_none());
        }
        other => panic!("unexpected effect {other:?}"),
    }
}

#[test]
fn backspace_on_empty_input_keeps_it_empty() {
    let mut app = App::new();
    app.input_mode = InputMode::Search;
    handle_search(Key::Backspace, &mut app);
    assert_eq!(app.search.input, "");
    handle_search(Key::Esc, &mut app);
    assert_eq!(app.input_mode, InputMode::Normal);
}

#[test]
fn search_refused_without_login() {
    let mut app = App::new();
    app.search.input = "x".to_string();
    app.do_search_bg();
    assert_eq!(app.search_generation, 0);
    assert!(app.effects.is_empty());
    assert_eq!(app.status_msg, app.lang.strings().status_login_required);
}

#[test]
fn control_c_quits_and_alt_l_switches_language() {
    let mut app = App::new();
    assert!(app.can_take_key(Key::Char('l'), false, true));
    app.handle_key(Key::Char('l'), false, true);
    assert_eq!(app.lang, Lang::En);
    assert_eq!(app.status_msg, "Language: English");
    assert!(matches!(
        app.effects.last(),
        Some(Effect::SaveSettings(Settings { lang: Lang::En, quality: Quality::Lossless, volume: 85 }))
    ));
    app.handle_key(Key::Char('c'), true, false);
    assert!(app.should_quit);
    assert_eq!(app.player.state, PlayerState::Stopped);
}

#[test]
fn language_cycle_has_period_four() {
    let mut app = App::new();
    let start = app.lang;
    for _ in 0..4 {
        app.cycle_lang();
    }
    assert_eq!(app.lang, start);
    assert_eq!(Lang::Ro.cycle(), Lang::Es);
}

#[test]
fn tab_key_cycles_through_the_tabs() {
    let mut app = App::new();
    let mut seen = vec![app.active_tab];
    for _ in 0..4 {
        handle_normal(Key::Tab, &mut app);
        seen.push(app.active_tab);
    }
    assert_eq!(seen, vec![Tab::Search, Tab::Queue, Tab::Now, Tab::Library, Tab::Search]);
}

#[test]
fn volume_keys_and_remote_volume() {
    let mut app = App::new();
    handle_normal(Key::Char('+'), &mut app);
    assert_eq!(app.player.volume, 90);
    handle_normal(Key::Char('-'), &mut app);
    handle_normal(Key::Char('-'), &mut app);
    assert_eq!(app.player.volume, 80);
    app.handle_event(AppEvent::ApiCmd(ApiCommand::VolumeSet(130)));
    assert_eq!(app.player.volume, 100);
    assert!(matches!(app.effects.last(), Some(Effect::SaveSettings(Settings { volume: 100, .. }))));
}

#[test]
fn quality_keys_tell_the_daemon_and_save() {
    let mut app = App::new();
    handle_normal(Key::Char('1'), &mut app);
    assert_eq!(app.quality, Quality::HiResLossless);
    assert_eq!(app.status_msg, "Calidad: HiRes FLAC 24bit");
    let n = app.effects.len();
    assert!(matches!(&app.effects[n - 2], Effect::SetQuality { quality } if quality == "HI_RES_LOSSLESS"));
    assert!(matches!(&app.effects[n - 1], Effect::SaveSettings(_)));
}

#[test]
fn next_and_previous_wrap_around_the_queue() {
    let mut app = App::new();
    app.queue = queue_of(3);
    app.queue_index = Some(2);
    app.play_next_bg();
    assert_eq!(app.queue_index, Some(0));
    assert_eq!(last_stream(&app).1, 1);
    assert_eq!(app.stream_generation, 1);
    assert_eq!(app.status_msg, "⟳ Obteniendo stream: T1...");
    app.play_prev_bg();
    assert_eq!(app.queue_index, Some(2));
    assert_eq!(last_stream(&app), ("LOSSLESS".to_string(), 3, 2, 2));
}

#[test]
fn next_stops_at_the_end_without_repetition() {
    let mut app = App::new();
    app.queue = queue_of(2);
    app.queue_index = Some(1);
    app.repeat = RepeatMode::Off;
    app.play_next_bg();
    assert_eq!(app.stream_generation, 0);
    assert!(app.effects.is_empty());
    app.repeat = RepeatMode::One;
    app.play_next_bg();
    assert_eq!(last_stream(&app).1, 2);
}

#[test]
fn shuffle_never_repeats_the_current_track() {
    for current in 0..4usize {
        for seed in 0..50usize {
            let p = shuffle_pick(seed, 4, Some(current));
            assert!(p < 4);
            assert_ne!(p, current);
        }
    }
    assert_eq!(shuffle_pick(17, 1, Some(0)), 0);
    assert_eq!(shuffle_pick(9, 5, None), 4);
    assert_eq!(shuffle_pick(9, 5, Some(4)), 0);

    let mut app = App::new();
    app.queue = queue_of(5);
    app.queue_index = Some(3);
    app.shuffle = true;
    for _ in 0..20 {
        let before = app.queue_index;
        app.play_next_bg();
        assert_ne!(app.queue_index, before);
        assert!(app.queue_index.unwrap() < 5);
    }
}

#[test]
fn remote_shuffle_and_repeat_commands() {
    let mut app = App::new();
    app.handle_event(AppEvent::ApiCmd(ApiCommand::ToggleShuffle));
    assert!(app.shuffle);
    assert_eq!(app.status_msg, "Shuffle: on");
    app.handle_event(AppEvent::ApiCmd(ApiCommand::ToggleShuffle));
    assert_eq!(app.status_msg, "Shuffle: off");
    let mut words = vec![];
    for _ in 0..3 {
        app.handle_event(AppEvent::ApiCmd(ApiCommand::CycleRepeat));
        words.push(app.status_msg.clone());
    }
    assert_eq!(words, vec!["Repeat: one", "Repeat: off", "Repeat: all"]);
    assert_eq!(app.repeat, RepeatMode::All);
}

#[test]
fn remote_play_track_joins_the_queue_once() {
    let mut app = App::new();
    app.queue = queue_of(2);
    let req = || ApiTrack {
        id: 42,
        title: "Remote".to_string(),
        artist: "Someone".to_string(),
        album: "Somewhere".to_string(),
        duration: 99,
    };
    app.handle_event(AppEvent::ApiCmd(ApiCommand::PlayTrack(req())));
    assert_eq!(app.queue.len(), 3);
    assert_eq!(app.queue[2].artists[0].name, "Someone");
    assert_eq!(app.queue[2].album.title, "Somewhere");
    assert_eq!(app.queue_index, Some(2));
    app.handle_event(AppEvent::ApiCmd(ApiCommand::PlayTrack(req())));
    assert_eq!(app.queue.len(), 3);
    assert_eq!(last_stream(&app).2, 2);
    // a track already queued plays at its place
    app.handle_event(AppEvent::ApiCmd(ApiCommand::PlayTrack(ApiTrack::from_track(&track(1, "T1")))));
    assert_eq!(app.queue.len(), 3);
    assert_eq!(app.queue_index, Some(0));
}

#[test]
fn remote_seek_and_position() {
    let mut app = App::new();
    app.player.current = Some(tuidal::player::TrackInfo {
        title: "a".into(),
        artist: "b".into(),
        album: "c".into(),
        duration: 300,
        bit_depth: 16,
        sample_rate: 44100,
        codec: "flac".into(),
    });
    app.handle_event(AppEvent::ApiCmd(ApiCommand::SetPosition(120)));
    assert_eq!(app.player.elapsed_secs(), 120);
    app.handle_event(AppEvent::ApiCmd(ApiCommand::Seek(-20)));
    assert_eq!(app.player.elapsed_secs(), 100);
    app.handle_event(AppEvent::ApiCmd(ApiCommand::SeekForward));
    assert_eq!(app.player.elapsed_secs(), 110);
    app.handle_event(AppEvent::ApiCmd(ApiCommand::SeekBackward));
    assert_eq!(app.player.elapsed_secs(), 100);
    app.handle_event(AppEvent::ApiCmd(ApiCommand::Stop));
    assert_eq!(app.player.elapsed_secs(), 0);
    assert!(!app.accepts(&AppEvent::ApiCmd(ApiCommand::Seek(i64::MIN))));
}

#[test]
fn stream_ready_plays_and_announces() {
    let mut app = App::new();
    app.queue = queue_of(2);
    app.stream_track_bg(track(1, "T1"), 0);
    let g = app.stream_generation;
    let info = StreamInfo::from_reply(Some("http://s/1".into()), Some(24), Some(96000), Some("flac".into()));
    app.handle_event(AppEvent::StreamReady { track: track(1, "T1"), info, queue_index: 0, generation: g });
    assert_eq!(app.status_msg, "▶ Band — T1 | 24/96000 FLAC");
    assert_eq!(app.current_track_id, Some(1));
    assert!(app.auto_advance);
    assert!(!app.loading);
    let cur = app.player.current.as_ref().unwrap();
    assert_eq!(cur.artist, "Band");
    assert_eq!(cur.sample_rate, 96000);
    let n = app.effects.len();
    assert!(matches!(app.effects[n - 2], Effect::Cover { track_id: 1 }));
    assert!(matches!(app.effects[n - 1], Effect::Lyrics { track_id: 1 }));
    assert!(matches!(app.player.commands.last(), Some(PlayerCommand::Launch { .. })));
}

#[test]
fn stale_stream_outcomes_change_nothing() {
    let mut app = App::new();
    app.stream_generation = 4;
    let info = StreamInfo::from_reply(None, None, None, None);
    app.handle_event(AppEvent::StreamReady { track: track(1, "T1"), info, queue_index: 0, generation: 3 });
    assert!(app.player.current.is_none());
    assert!(app.effects.is_empty());
    app.handle_event(AppEvent::StreamError { error: "late".into(), generation: 2 });
    assert_eq!(app.status_msg, "");
}

#[test]
fn stream_error_moves_on_to_the_next_track() {
    let mut app = App::new();
    app.queue = queue_of(3);
    app.stream_track_bg(track(1, "T1"), 0);
    let g = app.stream_generation;
    app.handle_event(AppEvent::StreamError { error: "boom".into(), generation: g });
    assert_eq!(app.queue_index, Some(1));
    assert_eq!(last_stream(&app).1, 2);
    assert_eq!(app.stream_generation, g + 1);
    // a failed load (generation 0) is reported and nothing else happens
    let before = app.stream_generation;
    app.handle_event(AppEvent::StreamError { error: "no list".into(), generation: 0 });
    assert_eq!(app.status_msg, "✗ Error stream: no list");
    assert_eq!(app.stream_generation, before);
}

#[test]
fn stream_info_defaults() {
    let info = StreamInfo::from_reply(None, None, None, None);
    assert_eq!(info.url, "");
    assert_eq!(info.bit_depth, 16);
    assert_eq!(info.sample_rate, 44100);
    assert_eq!(info.codec, "flac");
}

#[test]
fn login_flow() {
    let mut app = App::new();
    handle_normal(Key::Char('L'), &mut app);
    assert!(matches!(app.effects.last(), Some(Effect::StartAuth)));
    assert!(app.loading);
    app.handle_event(AppEvent::AuthStarted {
        url: "link.tidal.com/ABCDE".into(),
        code: "ABCDE".into(),
        device_code: "dev".into(),
    });
    match app.effects.last() {
        Some(Effect::OpenBrowser { url }) => assert_eq!(url, "https://link.tidal.com/ABCDE"),
        other => panic!("unexpected effect {other:?}"),
    }
    app.browser_result(None);
    assert!(app.status_msg.contains("ABCDE"));
    let n = app.effects.len();
    app.poll_login_if_pending();
    assert!(matches!(app.effects.last(), Some(Effect::PollAuth)));
    assert_eq!(app.effects.len(), n + 1);
    app.handle_event(AppEvent::from_poll(Ok(true)).unwrap());
    assert!(app.authenticated);
    assert!(app.device_code.is_none());
    app.poll_login_if_pending();
    assert_eq!(app.effects.len(), n + 1);
}

#[test]
fn login_address_keeps_a_full_address() {
    let mut app = App::new();
    app.on_auth_started("http://x.y/z".into(), "C".into(), "D".into());
    assert!(matches!(app.effects.last(), Some(Effect::OpenBrowser { url }) if url == "http://x.y/z"));
}

#[test]
fn event_mappings() {
    assert!(AppEvent::from_poll(Ok(false)).is_none());
    match AppEvent::from_poll(Err("down".into())) {
        Some(AppEvent::StatusMsg(m)) => assert_eq!(m, "Error poll: down"),
        other => panic!("unexpected {other:?}"),
    }
    assert!(matches!(AppEvent::from_tracks(Err("x".into())), AppEvent::StreamError { generation: 0, .. }));
    assert!(matches!(AppEvent::from_fav_tracks(Ok(vec![])), AppEvent::FavTracksLoaded(_)));
    assert!(matches!(AppEvent::from_fav_albums(Err("e".into())), AppEvent::StreamError { generation: 0, .. }));
    assert!(matches!(AppEvent::from_lyrics(Err("e".into())), AppEvent::LyricsError));
    assert!(matches!(
        AppEvent::from_search(Ok(Default::default()), 4, Some(SearchSection::Albums)),
        AppEvent::SearchMoreDone(Ok(_), 4, SearchSection::Albums)
    ));
    assert!(matches!(AppEvent::from_search(Err("x".into()), 2, None), AppEvent::SearchDone(Err(_), 2)));
    match AppEvent::from_library(Err("down".into()), Ok(vec![Mix { id: "m".into(), title: "t".into(), sub_title: None }])) {
        AppEvent::LibraryLoaded { playlists, mixes } => {
            assert!(playlists.is_empty());
            assert_eq!(mixes.len(), 1);
        }
        other => panic!("unexpected {other:?}"),
    }
    assert!(matches!(
        AppEvent::from_auth_start(Ok(("d".into(), "c".into(), "u".into()))),
        AppEvent::AuthStarted { .. }
    ));
    assert!(matches!(
        AppEvent::from_stream(Err("e".into()), track(1, "a"), 0, 9),
        AppEvent::StreamError { generation: 9, .. }
    ));
}

#[test]
fn library_loads_and_opens_a_playlist() {
    let mut app = App::new();
    app.authenticated = true;
    handle_normal(Key::Char('i'), &mut app);
    assert_eq!(app.active_tab, Tab::Library);
    assert!(matches!(app.effects.last(), Some(Effect::LoadLibrary)));
    let playlist = Playlist {
        uuid: "u-1".into(),
        title: "Mine".into(),
        number_of_tracks: 2,
        duration: 400,
        playlist_type: "USER".into(),
        public_playlist: None,
        image: None,
        square_image: None,
    };
    let mix = Mix { id: "m".into(), title: "Daily".into(), sub_title: None };
    app.handle_event(AppEvent::LibraryLoaded { playlists: vec![playlist], mixes: vec![mix] });
    assert_eq!(app.status_msg, "✓ 1 playlists, 1 mixes");
    handle_normal(Key::Enter, &mut app);
    assert_eq!(app.library.focus, LibraryFocus::Content);
    assert!(matches!(app.effects.last(), Some(Effect::PlaylistTracks { uuid }) if uuid == "u-1"));
    assert_eq!(app.library.pending_viewing_title, "Mine");
    app.handle_event(AppEvent::PlaylistTracksLoaded(queue_of(3)));
    let v = app.library.viewing.as_ref().unwrap();
    assert_eq!(v.title, "Mine");
    assert_eq!(v.cursor, 0);
    assert_eq!(app.library.pending_viewing_title, "");
    handle_normal(Key::Up, &mut app);
    assert_eq!(app.library.viewing.as_ref().unwrap().cursor, 2);
    handle_normal(Key::Down, &mut app);
    assert_eq!(app.library.viewing.as_ref().unwrap().cursor, 0);
    handle_normal(Key::Down, &mut app);
    handle_normal(Key::Enter, &mut app);
    // playing from an open list: the queue becomes that track and those after
    assert_eq!(app.queue.len(), 2);
    assert_eq!(app.queue[0].id, 2);
    assert_eq!(app.queue_index, Some(0));
    handle_normal(Key::Char('A'), &mut app);
    assert_eq!(app.queue.len(), 3);
    assert_eq!(app.status_msg, "▶ 1 canciones añadidas a la cola");
    handle_normal(Key::Esc, &mut app);
    assert!(app.library.viewing.is_none());
}

#[test]
fn library_sidebar_moves_and_loads_favourites() {
    let mut app = App::new();
    app.authenticated = true;
    app.active_tab = Tab::Library;
    handle_normal(Key::Down, &mut app);
    assert_eq!(app.library.active_section, LibrarySection::Mixes);
    handle_normal(Key::Down, &mut app);
    assert_eq!(app.library.active_section, LibrarySection::FavTracks);
    assert!(matches!(app.effects.last(), Some(Effect::FavTracks)));
    handle_normal(Key::Up, &mut app);
    handle_normal(Key::Up, &mut app);
    handle_normal(Key::Up, &mut app);
    assert_eq!(app.library.active_section, LibrarySection::FavAlbums);
    let album = FavAlbum {
        id: 5,
        title: "LP".into(),
        number_of_tracks: 9,
        duration: 2000,
        artists: vec![],
        cover_url: None,
    };
    app.handle_event(AppEvent::FavAlbumsLoaded(vec![album]));
    assert_eq!(app.library.cursor[3], 0);
    handle_normal(Key::Right, &mut app);
    handle_normal(Key::Enter, &mut app);
    assert!(matches!(app.effects.last(), Some(Effect::AlbumTracks { album_id: 5 })));
    handle_normal(Key::Left, &mut app);
    assert_eq!(app.library.focus, LibraryFocus::Sidebar);
}

#[test]
fn favourite_tracks_play_and_add() {
    let mut app = App::new();
    app.authenticated = true;
    handle_normal(Key::Char('F'), &mut app);
    app.handle_event(AppEvent::FavTracksLoaded(queue_of(4)));
    assert_eq!(app.library.active_section, LibrarySection::FavTracks);
    handle_normal(Key::Char('a'), &mut app);
    assert_eq!(app.queue.len(), 1);
    assert_eq!(app.status_msg, "▶ Añadida: T1");
    handle_normal(Key::Char('a'), &mut app);
    assert_eq!(app.queue.len(), 1);
    assert_eq!(app.status_msg, app.lang.strings().status_already_in_queue);
    app.library.cursor[2] = 2;
    handle_normal(Key::Enter, &mut app);
    assert_eq!(app.queue.iter().map(|t| t.id).collect::<Vec<_>>(), vec![3, 4]);
}

#[test]
fn search_results_add_and_play() {
    let mut app = App::new();
    app.authenticated = true;
    app.search_generation = 1;
    let results = tuidal::tidal::SearchResults { tracks: queue_of(3), ..Default::default() };
    app.handle_event(AppEvent::SearchDone(Ok(results), 1));
    app.search.focus = tuidal::search::SearchFocus::Content;
    handle_normal(Key::Down, &mut app);
    assert_eq!(app.search.cursor[0], 1);
    handle_normal(Key::Char('a'), &mut app);
    assert_eq!(app.status_msg, app.lang.strings().status_added_to_queue);
    handle_normal(Key::Enter, &mut app);
    // the track was queued already: it plays at its place
    assert_eq!(app.queue.len(), 1);
    assert_eq!(app.queue_index, Some(0));
    handle_normal(Key::Up, &mut app);
    handle_normal(Key::Enter, &mut app);
    assert_eq!(app.queue.len(), 2);
    assert_eq!(app.queue_index, Some(1));
}

#[test]
fn queue_tab_removal_replaces_the_playing_track() {
    let mut app = App::new();
    app.queue = queue_of(3);
    app.active_tab = Tab::Queue;
    app.queue_index = Some(1);
    app.selected = 1;
    handle_normal(Key::Char('d'), &mut app);
    assert_eq!(app.queue.len(), 2);
    assert_eq!(app.status_msg, "Eliminada: T2");
    assert_eq!(app.queue_index, Some(1));
    assert_eq!(last_stream(&app).1, 3);
    app.selected = 0;
    handle_normal(Key::Char('d'), &mut app);
    assert_eq!(app.queue_index, Some(0));
    assert_eq!(app.queue[0].id, 3);
}

#[test]
fn removing_the_last_track_stops_playback() {
    let mut app = App::new();
    app.queue = queue_of(1);
    app.queue_index = Some(0);
    app.remove_from_queue(0);
    assert!(app.queue.is_empty());
    assert_eq!(app.queue_index, None);
    assert_eq!(app.player.state, PlayerState::Stopped);
}

#[test]
fn finished_track_advances_once() {
    let mut app = App::new();
    app.queue = queue_of(2);
    app.queue_index = Some(0);
    app.auto_advance = true;
    app.advance_if_finished();
    assert_eq!(app.queue_index, Some(1));
    assert!(!app.auto_advance);
    let g = app.stream_generation;
    app.advance_if_finished();
    assert_eq!(app.stream_generation, g);
}

#[test]
fn cover_and_lyrics_events() {
    let mut app = App::new();
    app.handle_event(AppEvent::CoverReady {
        info: CoverInfo { url: "http://c".into() },
        image: image::DynamicImage::new_rgb8(1, 1),
    });
    assert_eq!(app.cover_info.as_ref().unwrap().url, "http://c");
    assert!(app.cover_image.is_some());
    assert!(matches!(app.effects.last(), Some(Effect::ShowNewCover)));
    app.handle_event(AppEvent::CoverError);
    assert!(app.cover_image.is_none());
    assert!(matches!(app.effects.last(), Some(Effect::ClearCover)));
    let lyrics = tuidal::lyrics::Lyrics::from_response(tuidal::lyrics::LyricsResponse {
        lyrics: Some("x".into()),
        subtitles: None,
    });
    app.handle_event(AppEvent::LyricsReady(lyrics));
    assert!(app.lyrics.is_some());
    app.handle_event(AppEvent::LyricsError);
    assert!(app.lyrics.is_none());
    app.handle_event(AppEvent::StatusMsg("hello".into()));
    assert_eq!(app.status_msg, "hello");
}

#[test]
fn saved_settings_are_taken_on() {
    let mut app = App::new();
    app.load_settings(Some(Settings { lang: Lang::De, quality: Quality::High, volume: 200 }));
    assert_eq!(app.lang, Lang::De);
    assert_eq!(app.quality, Quality::High);
    assert_eq!(app.player.volume, 100);
    app.load_settings(None);
    assert_eq!(app.lang, Lang::De);
}

#[test]
fn status_snapshot_and_mpris() {
    let mut app = App::new();
    app.queue = queue_of(2);
    app.queue_index = Some(1);
    let s = app.api_status_snapshot();
    assert_eq!(s.state, "stopped");
    assert!(s.title.is_none());
    assert_eq!(s.queue.len(), 2);
    assert_eq!(s.playback_status(), "Stopped");
    assert_eq!(s.loop_status(), "Playlist");
    assert_eq!(s.track_path().unwrap(), "/com/tuidal/track/queue/1");
    assert!(s.pause_request().is_none());
    match s.play_request() {
        Some(ApiCommand::PlayTrack(t)) => {
            assert_eq!(t.id, 2);
            assert_eq!(t.artist, "Band");
            assert_eq!(t.album, "Record");
        }
        _ => panic!("expected a track to play"),
    }
    let mut w = MprisWatch::new();
    let c = w.observe(&s);
    assert!(c.playback_status && c.volume && c.loop_status && !c.shuffle && !c.metadata);
    let c = w.observe(&s);
    assert!(!c.playback_status && !c.volume && !c.loop_status && !c.shuffle && !c.metadata);

    app.current_track_id = Some(77);
    app.player.state = PlayerState::Playing;
    let s2 = app.api_status_snapshot();
    assert_eq!(s2.track_path().unwrap(), "/com/tuidal/track/77");
    assert_eq!(s2.playback_status(), "Playing");
    assert!(matches!(s2.pause_request(), Some(ApiCommand::PlayPause)));
    assert!(s2.play_request().is_none());
    let c = w.observe(&s2);
    assert!(c.playback_status && c.metadata && !c.volume);
}

#[test]
fn microsecond_conversions() {
    assert_eq!(micros_to_secs(2_500_000), 2);
    assert_eq!(micros_to_secs(-2_500_000), -2);
    assert_eq!(micros_to_secs(i64::MIN), -9_223_372_036_854);
    assert_eq!(position_secs(61_000_000), 61);
    assert_eq!(position_secs(-999_999), 0);
    assert_eq!(position_secs(-1_000_000), u64::MAX);
    assert_eq!(secs_to_micros(3), 3_000_000);
    assert_eq!(default_limit(), 20);
}

#[test]
fn truncation_marks_the_cut() {
    assert_eq!(truncate("hello", 10), "hello");
    assert_eq!(truncate("hello", 5), "hello");
    assert_eq!(truncate("hello world", 5), "hell…");
    assert_eq!(truncate("ñandú", 3), "ña…");
    assert_eq!(truncate("abc", 0), "…");
}

#[test]
fn track_formatting() {
    let t = Track {
        duration: 125,
        artists: vec![
            Artist { id: 1, name: "A".into() },
            Artist { id: 2, name: "B".into() },
        ],
        audio_quality: Some("HI_RES_LOSSLESS".into()),
        ..track(1, "x")
    };
    assert_eq!(t.duration_str(), "2:05");
    assert_eq!(t.artist_names(), "A, B");
    assert_eq!(t.quality_icon(), "◈");
    assert_eq!(track(2, "y").quality_icon(), "◆");
    let u = Track { audio_quality: None, ..track(3, "z") };
    assert_eq!(u.quality_icon(), "◇");
}

#[test]
fn drilldown_from_search_viewing() {
    let mut app = App::new();
    app.search.viewing = Some(LibraryViewing { title: "L".into(), tracks: queue_of(3), cursor: 1 });
    app.play_drilldown_track();
    assert_eq!(app.queue.iter().map(|t| t.id).collect::<Vec<_>>(), vec![2, 3]);
    assert_eq!(last_stream(&app).1, 2);
}

#[test]
fn login_box_is_centred() {
    assert_eq!(centered_rect(60, 12, 100, 40), (20, 14, 60, 12));
    assert_eq!(centered_rect(60, 12, 10, 5), (2, 0, 6, 12));
}

#[test]
fn now_playing_line_format() {
    assert_eq!(now_playing_line("A, B", "Song", 16, 44100, "FLAC"), "▶ A, B — Song | 16/44100 FLAC");
    assert_eq!(now_playing_line("", "", 0, 0, ""), "▶  —  | 0/0 ");
}

#[test]
fn out_of_range_requests_are_refused() {
    let mut app = App::new();
    app.queue = queue_of(2);
    app.repeat = RepeatMode::One;
    app.queue_index = Some(5);
    assert!(!app.can_take_key(Key::Char('n'), false, false));
    assert!(!app.accepts(&AppEvent::ApiCmd(ApiCommand::Next)));
    app.queue_index = Some(1);
    assert!(app.can_take_key(Key::Char('n'), false, false));
    app.stream_generation = u64::MAX;
    assert!(app.can_take_key(Key::Enter, false, false));
    app.authenticated = true;
    app.active_tab = Tab::Queue;
    assert!(!app.can_take_key(Key::Enter, false, false));
    app.active_tab = Tab::Search;
    app.authenticated = false;
    assert!(app.accepts(&AppEvent::StreamError { error: "e".into(), generation: 1 }));
    app.queue_index = Some(0);
    assert!(!app.accepts(&AppEvent::StreamError { error: "e".into(), generation: u64::MAX }));
    assert!(app.accepts(&AppEvent::StreamError { error: "e".into(), generation: 0 }));
    app.queue_index = Some(1);
    assert!(app.can_take_key(Key::Char('c'), true, false));
    app.player.volume = 251;
    assert!(!app.can_take_key(Key::Char('+'), false, false));
    app.input_mode = InputMode::Search;
    assert!(app.can_take_key(Key::Enter, false, false));
    app.search_generation = u64::MAX;
    assert!(app.can_take_key(Key::Enter, false, false));
    app.authenticated = true;
    app.search.input = "query".into();
    assert!(!app.can_take_key(Key::Enter, false, false));
    assert!(app.can_take_key(Key::Char('+'), false, false));
}

#[test]
fn fetched_cover_bytes_are_decoded() {
    let info = CoverInfo { url: "http://c".into() };
    assert!(matches!(AppEvent::from_cover(CoverInfo { url: "http://c".into() }, None), AppEvent::CoverError));
    assert!(matches!(
        AppEvent::from_cover(CoverInfo { url: "http://c".into() }, Some(b"not an image".to_vec())),
        AppEvent::CoverError
    ));
    let mut png: Vec<u8> = Vec::new();
    image::DynamicImage::new_rgb8(2, 3)
        .write_to(&mut std::io::Cursor::new(&mut png), image::ImageFormat::Png)
        .unwrap();
    match AppEvent::from_cover(info, Some(png)) {
        AppEvent::CoverReady { info, image } => {
            assert_eq!(info.url, "http://c");
            assert_eq!((image.width(), image.height()), (2, 3));
        }
        _ => panic!("a valid PNG must decode"),
    }
}

#[test]
fn status_line_marks() {
    let mut app = App::new();
    app.status_msg = "✓ done".into();
    assert_eq!(app.status_tone(), StatusTone::Good);
    app.status_msg = "▶ Song".into();
    assert_eq!(app.status_tone(), StatusTone::Good);
    app.status_msg = "✗ failed".into();
    assert_eq!(app.status_tone(), StatusTone::Bad);
    app.status_msg = "hello".into();
    assert_eq!(app.status_tone(), StatusTone::Plain);
    app.status_msg = String::new();
    assert_eq!(app.status_tone(), StatusTone::Plain);
    app.loading = true;
    app.status_msg = "✓ done".into();
    assert_eq!(app.status_tone(), StatusTone::Busy);
}

#[test]
fn playing_track_is_marked() {
    let mut app = App::new();
    assert_eq!(app.now_playing_id(), None);
    app.queue = queue_of(3);
    app.queue_index = Some(1);
    assert_eq!(app.now_playing_id(), Some(2));
    app.queue_index = Some(3);
    assert_eq!(app.now_playing_id(), None);
}

#[test]
fn counters_bound_only_the_paths_that_advance_them() {
    let mut app = App::new();
    app.search_generation = u64::MAX;
    app.load_more_bg();
    assert_eq!(app.search_generation, u64::MAX);
    app.do_search_bg();
    assert_eq!(app.search_generation, u64::MAX);
    let stale = tuidal::tidal::SearchResults {
        tracks: Vec::new(),
        albums: Vec::new(),
        artists: Vec::new(),
        playlists: Vec::new(),
    };
    assert!(app.accepts(&AppEvent::SearchDone(Ok(stale), 3)));
    app.stream_generation = u64::MAX;
    app.queue = queue_of(2);
    app.queue_index = Some(1);
    app.selected = 0;
    app.active_tab = Tab::Queue;
    assert!(app.can_take_key(Key::Char('d'), false, false));
    app.selected = 1;
    assert!(!app.can_take_key(Key::Char('d'), false, false));
    app.selected = 0;
    app.remove_from_queue(0);
    assert_eq!(app.queue.len(), 1);
    assert_eq!(app.queue_index, Some(0));
    assert_eq!(app.stream_generation, u64::MAX);
}
