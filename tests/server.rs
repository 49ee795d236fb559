use sticky_notes::server::{create_note, rocket, SubmittedNote};
use sticky_notes::store::{seed_with_id, NoteFile};

fn details(f: &NoteFile) -> Vec<(String, String)> {
    f.note_details().into_iter().map(|d| (d.title, d.content)).collect()
}

#[test]
fn starting_without_a_store_seeds_one() {
    let f = rocket(None);
    assert_eq!(details(&f), vec![("Hello World".to_string(), "Hello World".to_string())]);
}

#[test]
fn starting_twice_keeps_the_first_collection() {
    let once = rocket(None);
    let first = once.to_entries();
    let twice = rocket(Some(once));
    let second = twice.to_entries();
    assert_eq!(first.len(), second.len());
    assert_eq!(first[0].0, second[0].0);
}

#[test]
fn submitted_note_is_listed_after_redirect() {
    let mut f = rocket(Some(seed_with_id("seed".to_string())));
    let r = create_note(&mut f, SubmittedNote { title: "Test".to_string(), content: "Body".to_string() });
    assert_eq!(r.unwrap(), "/");
    let listed = details(&f);
    assert_eq!(listed.len(), 2);
    assert_eq!(listed[1], ("Test".to_string(), "Body".to_string()));
}

#[test]
fn submission_to_an_empty_store_holds_that_note() {
    let mut f = sticky_notes::store::get_posts(Vec::new()).unwrap();
    let r = create_note(&mut f, SubmittedNote { title: "Test".to_string(), content: "Body".to_string() });
    assert_eq!(r.unwrap(), "/");
    assert_eq!(details(&f), vec![("Test".to_string(), "Body".to_string())]);
}
