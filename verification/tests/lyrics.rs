use tuidal::lyrics::{parse_lrc, try_parse_lrc, Lyrics, LyricsResponse};

#[test]
fn test_parse_lrc_simple() {
    let lrc = "[00:12.00]Line 1\n[00:30.50]Line 2\n[01:05.00]Line 3\n";
    let parsed = parse_lrc(lrc);
    assert_eq!(parsed.len(), 3);
    assert_eq!(parsed[0], (12, "Line 1".to_string()));
    assert_eq!(parsed[1], (30, "Line 2".to_string()));
    assert_eq!(parsed[2], (65, "Line 3".to_string()));
}

#[test]
fn test_parse_lrc_malformed_lines_skipped() {
    let lrc = "garbage\n[short]\n[00:12.00]valid\n";
    let parsed = parse_lrc(lrc);
    assert_eq!(parsed.len(), 1);
    assert_eq!(parsed[0], (12, "valid".to_string()));
}

#[test]
fn test_lyrics_current_line_synced() {
    let lrc = "[00:10.00]Ten\n[00:20.00]Twenty\n[00:30.00]Thirty\n";
    let resp = LyricsResponse {
        lyrics: Some("plain text".into()),
        subtitles: Some(lrc.into()),
    };
    let lyrics = Lyrics::from_response(resp);
    assert!(lyrics.has_sync);
    assert_eq!(lyrics.current_line(0), 0);
    assert_eq!(lyrics.current_line(10), 0);
    assert_eq!(lyrics.current_line(15), 0);
    assert_eq!(lyrics.current_line(20), 1);
    assert_eq!(lyrics.current_line(25), 1);
    assert_eq!(lyrics.current_line(30), 2);
    assert_eq!(lyrics.current_line(999), 2);
}

#[test]
fn test_lyrics_current_line_no_sync() {
    let resp = LyricsResponse {
        lyrics: Some("plain text".into()),
        subtitles: None,
    };
    let lyrics = Lyrics::from_response(resp);
    assert!(!lyrics.has_sync);
    assert_eq!(lyrics.current_line(42), 0);
}

#[test]
fn lrc_fractional_seconds_round_down_and_minutes_add_up() {
    let parsed = parse_lrc("[02:03.99]x\n[10:00.00]y");
    assert_eq!(parsed, vec![(123, "x".to_string()), (600, "y".to_string())]);
}

#[test]
fn lrc_lines_are_trimmed_and_empty_text_kept() {
    let parsed = parse_lrc("   [00:05.00]  padded  \n[00:06.00]");
    assert_eq!(parsed, vec![(5, "padded".to_string()), (6, String::new())]);
}

#[test]
fn lrc_without_timed_lines_gives_nothing() {
    assert!(parse_lrc("").is_empty());
    assert!(parse_lrc("just words\n[nope]\n").is_empty());
    assert_eq!(try_parse_lrc("[00:01.00]a"), Some(vec![(1, "a".to_string())]));
}

#[test]
fn lyrics_sync_follows_non_empty_subtitles() {
    let untimed = Lyrics::from_response(LyricsResponse {
        lyrics: None,
        subtitles: Some("no timing here".into()),
    });
    assert!(untimed.has_sync);
    assert!(untimed.lines.is_empty());
    assert_eq!(untimed.plain, "");
    assert_eq!(untimed.current_line(5), 0);

    let empty = Lyrics::from_response(LyricsResponse {
        lyrics: Some("words".into()),
        subtitles: Some(String::new()),
    });
    assert!(!empty.has_sync);
    assert!(empty.lines.is_empty());
}

#[test]
fn lyrics_plain_text_kept() {
    let lyrics = Lyrics::try_from_response(LyricsResponse {
        lyrics: Some("la la".into()),
        subtitles: Some("[00:01.00]la".into()),
    })
    .expect("small timestamps fit");
    assert!(lyrics.has_sync);
    assert_eq!(lyrics.plain, "la la");
    assert_eq!(lyrics.lines, vec![(1, "la".to_string())]);
}

#[test]
fn lrc_minutes_that_do_not_read_count_as_zero() {
    assert_eq!(parse_lrc("[99999999999999999999:05.00]x"), vec![(5, "x".to_string())]);
    assert_eq!(parse_lrc("[ab:07.00]y"), vec![(7, "y".to_string())]);
    assert_eq!(parse_lrc("[+1:07.00]z"), vec![(67, "z".to_string())]);
}

#[test]
fn lrc_times_past_64_bits_are_refused() {
    assert_eq!(try_parse_lrc("[307445734561825861:00.00]x"), None);
    assert!(Lyrics::try_from_response(LyricsResponse {
        lyrics: None,
        subtitles: Some("[307445734561825861:00.00]x".into()),
    })
    .is_none());
}

#[test]
fn lrc_seconds_read_like_a_number() {
    assert_eq!(parse_lrc("[00:-5.00]a"), vec![(0, "a".to_string())]);
    assert_eq!(parse_lrc("[00:.5]bb"), vec![(0, "bb".to_string())]);
    assert_eq!(parse_lrc("[00:inf]c"), vec![(u64::MAX, "c".to_string())]);
    assert_eq!(parse_lrc("[00:xx.yy]d"), vec![(0, "d".to_string())]);
}

#[test]
fn lrc_seconds_in_exponent_notation() {
    assert_eq!(parse_lrc("[00:1e1]a"), vec![(10, "a".to_string())]);
    assert_eq!(parse_lrc("[00:1.5E1]b"), vec![(15, "b".to_string())]);
    assert_eq!(parse_lrc("[00:25e-1]c"), vec![(2, "c".to_string())]);
    assert_eq!(parse_lrc("[00:5e+0]d"), vec![(5, "d".to_string())]);
    assert_eq!(parse_lrc("[00:0e999999999999999999999999999999999999999999]e"), vec![(0, "e".to_string())]);
    assert_eq!(parse_lrc("[00:7e-99999999999999999999999999999999999999999]f"), vec![(0, "f".to_string())]);
    assert_eq!(parse_lrc("[00:3e99]g"), vec![(u64::MAX, "g".to_string())]);
    assert_eq!(parse_lrc("[00:1e]h"), vec![(0, "h".to_string())]);
    assert_eq!(parse_lrc("[00:e1]i"), vec![(0, "i".to_string())]);
    assert_eq!(parse_lrc("[00:12.345e2]j"), vec![(1234, "j".to_string())]);
}

#[test]
fn lrc_seconds_round_like_a_double() {
    assert_eq!(parse_lrc("[00:12.99999999999999999]x"), vec![(13, "x".to_string())]);
    assert_eq!(parse_lrc("[00:9007199254740993]y"), vec![(9007199254740992, "y".to_string())]);
    assert_eq!(parse_lrc("[00:9007199254740995]z"), vec![(9007199254740996, "z".to_string())]);
    assert_eq!(parse_lrc("[00:0.99999999999999995]w"), vec![(1, "w".to_string())]);
    assert_eq!(parse_lrc("[00:0.9999999999999999]v"), vec![(0, "v".to_string())]);
}

#[test]
fn lrc_seconds_agree_with_reading_an_f64() {
    let fields = [
        "12.99999999999999999",
        "12.9999999999999",
        "4503599627370495.5",
        "4503599627370496.5",
        "9007199254740993",
        "9007199254740993.0000001",
        "18446744073709551615",
        "18446744073709550591",
        "18446744073709550592",
        "18446744073709549568",
        "1.8446744073709551e19",
        "123456789012345678901234567890",
        "0.5",
        "0.49999999999999999999",
        "0.999999999999999944488848768742172978818416595458984375",
        "0.99999999999999994448884876874217297881841659545898437",
        "0.9999999999999999444888487687421729788184165954589843751",
        "5e-1",
        "72057594037927937e-1",
        "1e-300",
        "000000000000000000000000000000000000000000000000000000000000000000000000.9999999999999999999",
        "3.14159",
    ];
    for f in fields {
        let expected = f.parse::<f64>().unwrap() as u64;
        let line = format!("[00:{f}]t");
        assert_eq!(parse_lrc(&line), vec![(expected, "t".to_string())], "field {f}");
    }
}
