use acepe_reconciler::snapshot::SessionThreadSnapshot;

#[test]
fn empty_truncates_session_id_on_char_boundary() {
    let snapshot = SessionThreadSnapshot::empty("ééééééééé");

    assert_eq!(snapshot.title, "Session éééééééé");
}

#[test]
fn empty_keeps_short_session_ids_whole() {
    let snapshot = SessionThreadSnapshot::empty_at("abc", "2024-01-01T00:00:00+00:00".to_string());
    assert_eq!(snapshot.title, "Session abc");
    assert_eq!(snapshot.created_at, "2024-01-01T00:00:00+00:00");
    assert!(snapshot.entries.is_empty());
    assert!(snapshot.current_mode_id.is_none());
}

#[test]
fn empty_takes_first_eight_ascii_characters() {
    let snapshot = SessionThreadSnapshot::empty("0123456789abcdef");
    assert_eq!(snapshot.title, "Session 01234567");
    assert!(snapshot.created_at.len() >= 25);
    assert!(snapshot.created_at.ends_with("+00:00"));
}

#[test]
fn empty_of_blank_id() {
    let snapshot = SessionThreadSnapshot::empty_at("", String::new());
    assert_eq!(snapshot.title, "Session ");
}
