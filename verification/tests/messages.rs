use mazure::messages::LogInfo;

#[test]
fn a_note_names_its_id() {
    let note = LogInfo::with_id("1234");
    assert_eq!(note.message, "New message to process.");
    assert_eq!(note.extra, "The unique id is: 1234");
}

#[test]
fn a_random_note_names_a_uuid() {
    let note = LogInfo::new_random();
    assert_eq!(note.message, "New message to process.");
    let id = note.extra.strip_prefix("The unique id is: ").unwrap();
    assert_eq!(id.len(), 36);
    for (i, c) in id.chars().enumerate() {
        match i {
            8 | 13 | 18 | 23 => assert_eq!(c, '-'),
            _ => assert!(c.is_ascii_digit() || ('a'..='f').contains(&c), "{}", id),
        }
    }
}

#[test]
fn random_notes_differ() {
    assert_ne!(LogInfo::new_random(), LogInfo::new_random());
}
