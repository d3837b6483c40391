use notes_backend::errors::{ApiError, NoteStoreError};
use notes_backend::handler::{create_note_handler, edit_note_handler, get_note_handler};
use notes_backend::note_store::NoteStore;
use notes_backend::schema::{CreateNoteSchema, UpdateNoteSchema};

fn body(title: &str, content: &str) -> CreateNoteSchema {
    CreateNoteSchema { title: title.to_owned(), content: content.to_owned() }
}

fn patch(title: &str, content: &str) -> UpdateNoteSchema {
    UpdateNoteSchema { title: title.to_owned(), content: content.to_owned() }
}

#[test]
fn empty_store_lists_nothing() {
    let store = NoteStore::new();
    assert_eq!(store.get_notes().len(), 0);
}

#[test]
fn create_note_returns_the_row() {
    let mut store = NoteStore::new();
    let note = store.create_note("first", "hello").expect("fresh title must be accepted");
    assert_eq!(note.title, "first");
    assert_eq!(note.content, "hello");
    assert_eq!(note.created_at, note.updated_at);
    assert_eq!(store.get_notes().len(), 1);
}

#[test]
fn duplicate_title_is_refused_and_mutates_nothing() {
    let mut store = NoteStore::new();
    let first = store.create_note("unique", "one").expect("fresh title");
    let second = store.create_note("unique", "two");
    assert!(matches!(second, Err(NoteStoreError::DuplicateTitle)));
    let listed = store.get_notes();
    assert_eq!(listed.len(), 1);
    assert_eq!(listed[0].id, first.id);
    assert_eq!(listed[0].content, "one");
}

#[test]
fn created_id_is_freshly_drawn() {
    let mut store = NoteStore::new();
    let a = store.create_note("a", "1").expect("fresh title");
    let b = store.create_note("b", "2").expect("fresh title");
    assert_ne!(a.id, b.id);
}

#[test]
fn create_note_handler_maps_duplicate_to_bad_request() {
    let mut store = NoteStore::new();
    create_note_handler(&mut store, &body("t", "x")).expect("fresh title");
    let r = create_note_handler(&mut store, &body("t", "y"));
    assert!(matches!(r, Err(ApiError::BadRequest)));
}

#[test]
fn get_note_handler_answers_not_found_for_absent_id() {
    let store = NoteStore::new();
    let r = get_note_handler(&store, 42);
    assert!(matches!(r, Err(ApiError::NotFound)));
}

#[test]
fn round_trip_create_then_get() {
    let mut store = NoteStore::new();
    let created = store.create_note("round", "trip").expect("fresh title");
    let fetched = store.get_note_id(created.id).expect("just created");
    assert_eq!(fetched.title, "round");
    assert_eq!(fetched.content, "trip");
    assert_eq!(fetched.id, created.id);
}

#[test]
fn update_absent_id_is_not_found_and_mutates_nothing() {
    let mut store = NoteStore::new();
    let kept = store.create_note("kept", "before").expect("fresh title");
    let r = edit_note_handler(&mut store, kept.id.wrapping_add(1), &patch("kept2", "after"));
    assert!(matches!(r, Err(ApiError::NotFound)));
    let listed = store.get_notes();
    assert_eq!(listed.len(), 1);
    assert_eq!(listed[0].title, "kept");
    assert_eq!(listed[0].content, "before");
}

#[test]
fn update_rewrites_fields_and_advances_updated_at_only() {
    let mut store = NoteStore::new();
    let created = store.create_note_at("old title", "old content", 9, 100).expect("fresh title");
    let updated = store
        .update_note_at(created.id, "new title", "new content", 250)
        .expect("no conflicting title")
        .expect("the id is present");
    assert_eq!(updated.title, "new title");
    assert_eq!(updated.content, "new content");
    assert_eq!(updated.created_at, 100);
    assert_eq!(updated.updated_at, 250);
}

#[test]
fn update_to_another_rows_title_is_refused() {
    let mut store = NoteStore::new();
    store.create_note("taken", "a").expect("fresh title");
    let second = store.create_note("mine", "b").expect("fresh title");
    let r = store.update_note(second.id, "taken", "c");
    assert!(matches!(r, Err(NoteStoreError::DuplicateTitle)));
}

#[test]
fn duplicate_id_is_a_key_violation() {
    let mut store = NoteStore::new();
    store.create_note_at("one", "a", 5, 10).expect("fresh");
    let r = store.create_note_at("two", "b", 5, 11);
    assert!(matches!(r, Err(NoteStoreError::DuplicateId)));
    assert_eq!(store.get_notes().len(), 1);
}

#[test]
fn delete_is_idempotent() {
    let mut store = NoteStore::new();
    let created = store.create_note("gone", "soon").expect("fresh title");
    store.delete_note(created.id);
    assert!(store.get_note_id(created.id).is_none());
    store.delete_note(created.id);
    assert!(store.get_note_id(created.id).is_none());
    assert_eq!(store.get_notes().len(), 0);
}
