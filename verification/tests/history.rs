use tuidal::search::SearchState;

#[test]
fn test_search_history_caps_at_10() {
    let mut state = SearchState::new();
    for i in 0..12 {
        state.record_history(&format!("query{i}"));
    }
    assert_eq!(state.history.len(), 10);
    assert_eq!(state.history[0], "query11");
    assert_eq!(state.history[9], "query2");
    assert!(!state.history.iter().any(|h| h == "query0"));
    assert!(!state.history.iter().any(|h| h == "query1"));
}

#[test]
fn test_search_history_moves_duplicate_to_front() {
    let mut state = SearchState::new();
    for i in 0..5 {
        state.record_history(&format!("query{i}"));
    }
    // history: q4, q3, q2, q1, q0 — repeating q2 moves it to the front
    state.record_history("query2");
    assert_eq!(state.history.len(), 5);
    assert_eq!(state.history[0], "query2");
    assert_eq!(state.history[1], "query4");
    assert_eq!(state.history[2], "query3");
    assert_eq!(state.history[3], "query1");
    assert_eq!(state.history[4], "query0");
}

#[test]
fn test_search_history_navigation_up_down() {
    let mut state = SearchState::new();
    for i in 0..3 {
        state.record_history(&format!("query{i}"));
    }
    // history: q2, q1, q0
    state.input = "draft text".to_string();
    assert_eq!(state.history_cursor, None);

    state.history_up();
    assert_eq!(state.history_cursor, Some(0));
    assert_eq!(state.input, "query2");
    assert_eq!(state.draft, "draft text");

    state.history_up();
    assert_eq!(state.history_cursor, Some(1));
    assert_eq!(state.input, "query1");

    state.history_up();
    assert_eq!(state.history_cursor, Some(2));
    assert_eq!(state.input, "query0");

    // at the oldest entry nothing changes
    state.history_up();
    assert_eq!(state.history_cursor, Some(2));
    assert_eq!(state.input, "query0");

    state.history_down();
    assert_eq!(state.history_cursor, Some(1));
    assert_eq!(state.input, "query1");

    state.history_down();
    assert_eq!(state.history_cursor, Some(0));
    assert_eq!(state.input, "query2");

    // below the most recent entry the draft comes back
    state.history_down();
    assert_eq!(state.history_cursor, None);
    assert_eq!(state.input, "draft text");
}

#[test]
fn history_record_resets_navigation_and_keeps_no_repeats() {
    let mut state = SearchState::new();
    state.record_history("a");
    state.record_history("b");
    state.history_up();
    assert_eq!(state.history_cursor, Some(0));
    state.record_history("a");
    assert_eq!(state.history_cursor, None);
    assert_eq!(state.history.len(), 2);
    assert_eq!(state.history[0], "a");
    assert_eq!(state.history[1], "b");
}

#[test]
fn history_up_on_empty_history_does_nothing() {
    let mut state = SearchState::new();
    state.input = "typed".to_string();
    state.history_up();
    assert_eq!(state.history_cursor, None);
    assert_eq!(state.input, "typed");
    state.history_down();
    assert_eq!(state.input, "typed");
}

#[test]
fn recording_is_query_then_the_rest_without_it() {
    let mut state = SearchState::new();
    for i in 0..10 {
        state.record_history(&format!("q{i}"));
    }
    let before: Vec<String> = state.history.iter().cloned().collect();
    for q in ["q3", "new", "q9", "q0"] {
        let old: Vec<String> = state.history.iter().cloned().collect();
        state.record_history(q);
        let mut expected = vec![q.to_string()];
        expected.extend(old.into_iter().filter(|h| h != q));
        expected.truncate(10);
        let got: Vec<String> = state.history.iter().cloned().collect();
        assert_eq!(got, expected);
    }
    assert_ne!(before, state.history.iter().cloned().collect::<Vec<String>>());
}
