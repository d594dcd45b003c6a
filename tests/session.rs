use chatlog::session::{ChatApp, ChatAppMessage};

fn changed(s: &str) -> ChatAppMessage {
    ChatAppMessage::ChatTextChanged(s.to_string())
}

fn lines(app: &ChatApp) -> Vec<(String, usize)> {
    app.transcript_entries()
        .iter()
        .map(|l| (l.text.clone(), l.sequence))
        .collect()
}

#[test]
fn new_session_is_empty() {
    let app = ChatApp::new();
    assert_eq!(app.current_input_text(), "");
    assert!(app.transcript_entries().is_empty());
}

#[test]
fn last_text_change_wins() {
    let mut app = ChatApp::new();
    for t in ["h", "he", "hel", "help", "hel", ""] {
        assert!(!app.update(changed(t)));
    }
    assert!(!app.update(changed("hello")));
    assert_eq!(app.current_input_text(), "hello");
    assert!(app.transcript_entries().is_empty());
}

#[test]
fn blank_submits_change_nothing() {
    for blank in ["", "   ", "\t\n", "\u{a0}\u{3000}\r"] {
        let mut app = ChatApp::new();
        app.update(changed("x"));
        app.submit();
        app.update(changed(blank));
        assert!(!app.update(ChatAppMessage::ChatTextSubmitted));
        assert_eq!(app.current_input_text(), blank);
        assert_eq!(lines(&app), vec![("x".to_string(), 0)]);
    }
}

#[test]
fn submit_appends_trimmed_text_and_clears() {
    let mut app = ChatApp::new();
    app.update(changed("first"));
    assert!(app.submit());
    app.update(changed("\t second  line \n"));
    assert!(app.update(ChatAppMessage::ChatTextSubmitted));
    assert_eq!(app.current_input_text(), "");
    assert_eq!(
        lines(&app),
        vec![("first".to_string(), 0), ("second  line".to_string(), 1)]
    );
}

#[test]
fn sequences_have_no_gaps_across_failed_submits() {
    let mut app = ChatApp::new();
    let inputs = ["a", " ", "b", "", "", "c", "\n", "d"];
    let mut added = 0;
    for t in inputs {
        app.update(changed(t));
        if app.submit() {
            added += 1;
        }
    }
    assert_eq!(added, 4);
    let got = lines(&app);
    assert_eq!(got.len(), 4);
    for (i, (_, seq)) in got.iter().enumerate() {
        assert_eq!(*seq, i);
    }
}

#[test]
fn scenario_hello_world() {
    let mut app = ChatApp::new();
    app.update(changed("  hello world  "));
    app.update(ChatAppMessage::ChatTextSubmitted);
    assert_eq!(lines(&app), vec![("hello world".to_string(), 0)]);
    assert_eq!(app.current_input_text(), "");
}

#[test]
fn scenario_empty_submit() {
    let mut app = ChatApp::new();
    app.update(changed(""));
    app.update(ChatAppMessage::ChatTextSubmitted);
    assert!(lines(&app).is_empty());
    assert_eq!(app.current_input_text(), "");
}

#[test]
fn scenario_a_blank_b() {
    let mut app = ChatApp::new();
    for t in ["a", "  ", "b"] {
        app.update(changed(t));
        app.update(ChatAppMessage::ChatTextSubmitted);
    }
    assert_eq!(
        lines(&app),
        vec![("a".to_string(), 0), ("b".to_string(), 1)]
    );
    assert_eq!(app.current_input_text(), "");
}

#[test]
fn inner_whitespace_is_kept() {
    let mut app = ChatApp::new();
    app.update(changed(" a \t b "));
    app.submit();
    assert_eq!(app.transcript_entries()[0].text(), "a \t b");
}
