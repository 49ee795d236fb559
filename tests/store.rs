use sticky_notes::store::{add_post, gen_notes, get_posts, seed_with_id, Note, NoteFile, StoreError};

fn note(id: &str, title: &str, content: &str) -> Note {
    Note { uuid: id.to_string(), title: title.to_string(), content: content.to_string() }
}

fn details(f: &NoteFile) -> Vec<(String, String)> {
    f.note_details().into_iter().map(|d| (d.title, d.content)).collect()
}

fn ids(f: &NoteFile) -> Vec<String> {
    f.to_entries().into_iter().map(|(k, _)| k).collect()
}

#[test]
fn seed_holds_hello_world_twice() {
    let f = seed_with_id("abc".to_string());
    assert_eq!(f.len(), 1);
    assert_eq!(details(&f), vec![("Hello World".to_string(), "Hello World".to_string())]);
    assert_eq!(ids(&f), vec!["abc".to_string()]);
}

#[test]
fn gen_notes_draws_a_hyphenated_uuid() {
    let f = gen_notes();
    assert_eq!(f.len(), 1);
    let id = &ids(&f)[0];
    assert_eq!(id.len(), 36);
    assert_eq!(id.matches('-').count(), 4);
    assert_eq!(details(&f), vec![("Hello World".to_string(), "Hello World".to_string())]);
}

#[test]
fn two_seeded_collections_get_different_ids() {
    assert_ne!(ids(&gen_notes()), ids(&gen_notes()));
}

#[test]
fn insert_refuses_a_taken_id() {
    let mut f = seed_with_id("a".to_string());
    assert_eq!(f.insert(note("b", "T", "C")), Ok(()));
    assert_eq!(f.insert(note("a", "X", "Y")), Err(StoreError::DuplicateId));
    assert_eq!(ids(&f), vec!["a".to_string(), "b".to_string()]);
    assert!(f.contains_id(&"b".to_string()));
    assert!(!f.contains_id(&"c".to_string()));
}

#[test]
fn get_posts_accepts_valid_entries_in_order() {
    let entries = vec![
        ("x".to_string(), note("x", "one", "1")),
        ("y".to_string(), note("y", "two", "2")),
    ];
    let f = get_posts(entries).unwrap();
    assert_eq!(ids(&f), vec!["x".to_string(), "y".to_string()]);
    assert_eq!(
        details(&f),
        vec![("one".to_string(), "1".to_string()), ("two".to_string(), "2".to_string())]
    );
}

#[test]
fn get_posts_accepts_no_entries() {
    let f = get_posts(Vec::new()).unwrap();
    assert_eq!(f.len(), 0);
}

#[test]
fn get_posts_keeps_a_note_under_its_key() {
    let entries = vec![
        ("x".to_string(), note("z", "one", "1")),
        ("y".to_string(), note("x", "two", "2")),
    ];
    let f = get_posts(entries).unwrap();
    assert_eq!(ids(&f), vec!["x".to_string(), "y".to_string()]);
    let stored = f.to_entries();
    assert_eq!(stored[0].1.uuid, "x");
    assert_eq!(stored[1].1.uuid, "y");
    assert_eq!(
        details(&f),
        vec![("one".to_string(), "1".to_string()), ("two".to_string(), "2".to_string())]
    );
}

#[test]
fn get_posts_refuses_a_repeated_key() {
    let entries = vec![
        ("x".to_string(), note("x", "one", "1")),
        ("x".to_string(), note("x", "two", "2")),
    ];
    assert!(matches!(get_posts(entries), Err(StoreError::Corrupt)));
}

#[test]
fn stored_form_reads_back_to_the_same_notes() {
    let mut f = seed_with_id("s".to_string());
    f.insert(note("t", "Test", "Body")).unwrap();
    let entries = f.to_entries();
    assert_eq!(entries[1].0, "t");
    assert_eq!(entries[1].1.title, "Test");
    let g = get_posts(entries).unwrap();
    assert_eq!(ids(&g), ids(&f));
    assert_eq!(details(&g), details(&f));
}

#[test]
fn appends_one_at_a_time_keep_every_note() {
    let mut f = gen_notes();
    add_post(&mut f, "Test".to_string(), "Body".to_string()).unwrap();
    add_post(&mut f, "Second".to_string(), "More".to_string()).unwrap();
    assert_eq!(
        details(&f),
        vec![
            ("Hello World".to_string(), "Hello World".to_string()),
            ("Test".to_string(), "Body".to_string()),
            ("Second".to_string(), "More".to_string()),
        ]
    );
    let mut all = ids(&f);
    all.sort();
    all.dedup();
    assert_eq!(all.len(), 3);
}

#[test]
fn append_to_short_ids_always_succeeds() {
    let mut f = seed_with_id("a".to_string());
    assert_eq!(add_post(&mut f, "Test".to_string(), "Body".to_string()), Ok(()));
    let all = ids(&f);
    assert_eq!(all.len(), 2);
    assert_eq!(all[0], "a");
    assert_ne!(all[1], "a");
    assert_eq!(
        details(&f),
        vec![
            ("Hello World".to_string(), "Hello World".to_string()),
            ("Test".to_string(), "Body".to_string()),
        ]
    );
}
