use tuidal::display::ListHint;
use tuidal::player::{MpvCommand, Player, PlayerCommand, PlayerState, TrackInfo};

fn info(duration: u64) -> TrackInfo {
    TrackInfo {
        title: "Test".into(),
        artist: "Artist".into(),
        album: "Album".into(),
        duration,
        bit_depth: 16,
        sample_rate: 44100,
        codec: "flac".into(),
    }
}

#[test]
fn test_elapsed_str_zero() {
    let p = Player::new();
    assert_eq!(p.elapsed_str(), "0:00");
}

#[test]
fn test_elapsed_str_format() {
    let mut p = Player::new();
    p.elapsed_nanos = 65 * 1_000_000_000;
    assert_eq!(p.elapsed_str(), "1:05");
    p.elapsed_nanos = 3661 * 1_000_000_000;
    assert_eq!(p.elapsed_str(), "61:01");
}

#[test]
fn elapsed_secs_drops_the_fraction() {
    let mut p = Player::new();
    p.elapsed_nanos = 2_999_999_999;
    assert_eq!(p.elapsed_secs(), 2);
}

#[test]
fn play_queues_stop_then_launch() {
    let mut p = Player::new();
    p.play("http://x/stream", info(200));
    assert_eq!(p.state, PlayerState::Stopped);
    assert!(p.clock_running);
    assert_eq!(p.commands.len(), 4);
    assert!(matches!(p.commands[0], PlayerCommand::Send(MpvCommand::Quit)));
    assert!(matches!(p.commands[1], PlayerCommand::RemoveSocket));
    assert!(matches!(p.commands[2], PlayerCommand::RemoveSocket));
    match &p.commands[3] {
        PlayerCommand::Launch { url, volume } => {
            assert_eq!(url, "http://x/stream");
            assert_eq!(*volume, 85);
        }
        other => panic!("unexpected command {other:?}"),
    }
    p.launched(true);
    assert_eq!(p.state, PlayerState::Playing);
    assert!(p.has_process);
}

#[test]
fn pause_twice_comes_back() {
    let mut p = Player::new();
    p.play("u", info(200));
    p.launched(true);
    p.toggle_pause();
    assert_eq!(p.state, PlayerState::Paused);
    assert!(!p.clock_running);
    p.toggle_pause();
    assert_eq!(p.state, PlayerState::Playing);
    assert!(p.clock_running);
    let stopped = Player::new();
    let mut q = Player::new();
    q.toggle_pause();
    assert_eq!(q.state, stopped.state);
    assert!(q.commands.is_empty());
}

#[test]
fn seeking_moves_the_count_within_the_track() {
    let mut p = Player::new();
    p.current = Some(info(100));
    p.seek_forward();
    assert_eq!(p.elapsed_secs(), 10);
    p.seek_relative(200);
    assert_eq!(p.elapsed_secs(), 100);
    p.seek_relative(-30);
    assert_eq!(p.elapsed_secs(), 70);
    p.seek_backward();
    assert_eq!(p.elapsed_secs(), 60);
    p.seek_relative(-500);
    assert_eq!(p.elapsed_secs(), 0);
    p.seek_absolute(42);
    assert_eq!(p.elapsed_secs(), 42);
    p.seek_absolute(4200);
    assert_eq!(p.elapsed_secs(), 100);
    assert!(matches!(p.commands.last(), Some(PlayerCommand::Send(MpvCommand::SeekAbsolute(4200)))));
}

#[test]
fn volume_stays_between_0_and_100() {
    let mut p = Player::new();
    for _ in 0..5 {
        p.volume_up();
    }
    assert_eq!(p.volume, 100);
    p.set_volume(250);
    assert_eq!(p.volume, 100);
    p.set_volume(3);
    p.volume_down();
    assert_eq!(p.volume, 0);
    assert!(matches!(p.commands.last(), Some(PlayerCommand::Send(MpvCommand::SetVolume(0)))));
}

#[test]
fn stop_kills_a_running_process() {
    let mut p = Player::new();
    p.play("u", info(10));
    p.launched(true);
    let before = p.commands.len();
    p.stop();
    assert_eq!(p.state, PlayerState::Stopped);
    assert!(!p.has_process);
    assert_eq!(p.elapsed_nanos, 0);
    assert_eq!(p.commands.len(), before + 3);
    assert!(matches!(p.commands[before + 1], PlayerCommand::Kill));
}

#[test]
fn ticks_ask_for_the_position_every_twentieth_time() {
    let mut p = Player::new();
    p.play("u", info(300));
    p.launched(true);
    let mut asked = 0;
    for _ in 0..40 {
        if p.tick_begin(false) {
            asked += 1;
            p.tick_end(Some(7_000_000_000), 0);
        } else {
            p.tick_end(None, 50_000_000);
        }
    }
    assert_eq!(asked, 2);
    assert!(p.elapsed_secs() >= 7);
    assert!(p.tick_begin(true) == false);
    assert_eq!(p.state, PlayerState::Stopped);
}

#[test]
fn mpv_lines_are_json_commands() {
    assert_eq!(MpvCommand::Quit.line(), "{\"command\":[\"quit\"]}\n");
    assert_eq!(MpvCommand::SeekRelative(-10).line(), "{\"command\":[\"seek\",-10,\"relative\"]}\n");
    assert_eq!(MpvCommand::SetVolume(55).line(), "{\"command\":[\"set_property\",\"volume\",55]}\n");
}

#[test]
fn stream_quality_and_clock_texts() {
    let mut i = info(125);
    i.bit_depth = 24;
    i.sample_rate = 96000;
    i.codec = "flac".to_string();
    assert_eq!(i.quality_text(true), "24bit / 96kHz  FLAC");
    assert_eq!(i.quality_text(false), "24bit/96kHz FLAC");
    assert_eq!(tuidal::display::clock(125), "2:05");
    assert_eq!(tuidal::display::clock(0), "0:00");
    assert_eq!(tuidal::display::clock(3600), "60:00");
}

#[test]
fn empty_list_hints() {
    let mut app = tuidal::app::App::new();
    assert_eq!(app.list_hint(), ListHint::LoginNeeded);
    app.authenticated = true;
    assert_eq!(app.list_hint(), ListHint::NoResults);
    app.loading = true;
    assert_eq!(app.list_hint(), ListHint::Loading);
}
