use tuidal::app::App;
use tuidal::library::LibrarySection;
use tuidal::search::{append_dedup, SearchSection};
use tuidal::tidal::{init_error, reply_error, Album, Artist, Quality, Track};

fn t(id: u64) -> Track {
    Track {
        id,
        title: format!("T{id}"),
        duration: 60,
        track_number: None,
        artists: vec![],
        album: Album { id: 0, title: String::new() },
        audio_quality: None,
        explicit: None,
    }
}

#[test]
fn append_dedup_never_repeats_a_key() {
    let mut dst = vec![t(1), t(2)];
    let n = append_dedup(&mut dst, vec![t(2), t(3), t(3), t(1), t(4)]);
    assert_eq!(n, 2);
    let ids: Vec<u64> = dst.iter().map(|x| x.id).collect();
    assert_eq!(ids, vec![1, 2, 3, 4]);
    let mut artists = vec![Artist { id: 9, name: "a".into() }];
    assert_eq!(append_dedup(&mut artists, vec![Artist { id: 9, name: "b".into() }]), 0);
    assert_eq!(artists[0].name, "a");
}

#[test]
fn removal_keeps_the_playing_track_current() {
    for removed in 0..5usize {
        for playing in 0..5usize {
            if removed == playing {
                continue;
            }
            let mut q: Vec<Track> = (0..5).map(t).collect();
            let mut qi = Some(playing);
            App::remove_queue_index(&mut q, &mut qi, removed);
            assert_eq!(q[qi.unwrap()].id, playing as u64);
        }
    }
}

#[test]
fn sections_round_trip() {
    for s in [SearchSection::Tracks, SearchSection::Albums, SearchSection::Artists, SearchSection::Playlists] {
        assert_eq!(s.next().prev(), s);
        assert_eq!(s.prev().next(), s);
        assert_eq!(s.next().next().next().next(), s);
    }
    for s in [LibrarySection::Playlists, LibrarySection::Mixes, LibrarySection::FavTracks, LibrarySection::FavAlbums] {
        assert_eq!(s.next().prev(), s);
        assert_eq!(s.prev().next(), s);
        assert_eq!(s.next().next().next().next(), s);
    }
    assert_eq!(SearchSection::Playlists.next(), SearchSection::Tracks);
    assert_eq!(LibrarySection::Playlists.prev(), LibrarySection::FavAlbums);
}

#[test]
fn quality_names_are_distinct() {
    let all = [Quality::HiResLossless, Quality::Lossless, Quality::High];
    for a in all {
        for b in all {
            assert_eq!(a == b, a.as_api_str() == b.as_api_str());
        }
    }
    assert_eq!(Quality::High.as_api_str(), "HIGH");
    assert_eq!(Quality::Lossless.label(), "FLAC 16bit/44.1kHz");
}

#[test]
fn search_lengths_follow_the_sections() {
    let mut s = tuidal::search::SearchState::new();
    s.results.albums = vec![Album { id: 1, title: "x".into() }];
    assert_eq!(s.len(SearchSection::Albums), 1);
    assert_eq!(s.current_len(), 0);
    s.active_section = SearchSection::Albums;
    assert_eq!(s.current_len(), 1);
}

#[test]
fn daemon_reply_errors() {
    assert_eq!(reply_error(Some(Some("boom".into())), true), Some("boom".to_string()));
    assert_eq!(reply_error(Some(None), false), Some("error desconocido".to_string()));
    assert_eq!(reply_error(None, false), Some("Respuesta inválida".to_string()));
    assert_eq!(reply_error(None, true), None);
    assert_eq!(init_error(Some(Some("no token".into()))), Some("Daemon init error: no token".to_string()));
    assert_eq!(init_error(Some(None)), Some("Daemon init error: unknown".to_string()));
    assert_eq!(init_error(None), None);
}
