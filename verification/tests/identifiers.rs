use notes_api::note_id::is_valid_note_id;

#[test]
fn accepts_hyphenated_form() {
    assert!(is_valid_note_id("550e8400-e29b-41d4-a716-446655440000"));
    assert!(is_valid_note_id("550E8400-E29B-41D4-A716-446655440000"));
}

#[test]
fn accepts_simple_form() {
    assert!(is_valid_note_id("550e8400e29b41d4a716446655440000"));
}

#[test]
fn accepts_braced_form() {
    assert!(is_valid_note_id("{550e8400-e29b-41d4-a716-446655440000}"));
}

#[test]
fn accepts_urn_form() {
    assert!(is_valid_note_id("urn:uuid:550e8400-e29b-41d4-a716-446655440000"));
    assert!(is_valid_note_id("URN:UUID:550e8400-e29b-41d4-a716-446655440000"));
}

#[test]
fn rejects_malformed_ids() {
    assert!(!is_valid_note_id(""));
    assert!(!is_valid_note_id("not-a-uuid"));
    assert!(!is_valid_note_id("550e8400-e29b-41d4-a716-44665544000")); // 35 chars
    assert!(!is_valid_note_id("550e8400-e29b-41d4-a716-4466554400000")); // 37 chars
    assert!(!is_valid_note_id("550e8400xe29b-41d4-a716-446655440000")); // hyphen replaced
    assert!(!is_valid_note_id("550e8400-e29b-41d4-a716-44665544000g")); // non-hex digit
    assert!(!is_valid_note_id("(550e8400-e29b-41d4-a716-446655440000)")); // wrong braces
    assert!(!is_valid_note_id("urn:uuid-550e8400-e29b-41d4-a716-446655440000")); // bad prefix
}

#[test]
fn agrees_with_reference_parser() {
    let samples = [
        "550e8400-e29b-41d4-a716-446655440000",
        "550E8400-E29B-41D4-A716-446655440000",
        "550e8400e29b41d4a716446655440000",
        "{550e8400-e29b-41d4-a716-446655440000}",
        "urn:uuid:550e8400-e29b-41d4-a716-446655440000",
        "Urn:uUid:550e8400-e29b-41d4-a716-446655440000",
        "",
        "not-a-uuid",
        "550e8400-e29b-41d4-a716-44665544000",
        "550e8400-e29b-41d4-a716_446655440000",
        "{550e8400e29b41d4a716446655440000}",
        "urn:uuid:550e8400e29b41d4a716446655440000",
        "zzze8400-e29b-41d4-a716-446655440000",
    ];
    for s in samples {
        assert_eq!(
            is_valid_note_id(s),
            uuid::Uuid::parse_str(s).is_ok(),
            "disagreement on {:?}",
            s
        );
    }
}
