use chatlog::input::ChatInput;
use chatlog::transcript::{ChatLine, ChatLog};

#[test]
fn set_content_then_clear_is_empty() {
    for x in ["", "abc", "   ", "multi\nline"] {
        let mut input = ChatInput::new();
        input.set_content(x.to_string());
        assert_eq!(input.content(), x);
        input.clear();
        assert_eq!(input.content(), "");
    }
}

#[test]
fn append_numbers_from_zero() {
    let mut log = ChatLog::new();
    assert_eq!(log.len(), 0);
    let first = log.append("one".to_string());
    assert_eq!((first.text.as_str(), first.sequence), ("one", 0));
    let second = log.append(" two ".to_string());
    assert_eq!((second.text.as_str(), second.sequence), (" two ", 1));
    assert_eq!(log.len(), 2);
    let entries = log.entries();
    assert_eq!(entries[0].text(), "one");
    assert_eq!(entries[1].sequence, 1);
    let again: Vec<&str> = log.entries().iter().map(|l| l.text()).collect();
    assert_eq!(again, vec!["one", " two "]);
}

#[test]
fn line_new_keeps_fields() {
    let line = ChatLine::new("hi".to_string(), 7);
    assert_eq!(line.text(), "hi");
    assert_eq!(line.sequence, 7);
}
