use note_store::error::StoreError;
use note_store::record::{FileRead, NoteFile, Written};
use note_store::index::{InsertKind, Notes, KV};

const A: u128 = 0x1111_1111_1111_4111_8111_1111_1111_1111;
const B: u128 = 0x2222_2222_2222_4222_8222_2222_2222_2222;
const C: u128 = 0x3333_3333_3333_4333_8333_3333_3333_3333;

fn decoded(dir: &str, id: u128, content: &str) -> FileRead {
    let note = NoteFile::with_identity(dir, id, String::from(content));
    FileRead::Decoded { file_path: note.file_path, uuid: Some(id), content: note.content }
}

fn sorted(mut notes: Vec<NoteFile>) -> Vec<NoteFile> {
    notes.sort_by_key(|note| note.uuid);
    notes
}

fn index_of(ids: &[u128]) -> Notes {
    let mut notes = Notes::new(String::from("/data"));
    for id in ids {
        let note = NoteFile::with_identity("/data", *id, format!("note {:x}", id >> 124));
        notes.insert(note, Written::Done).unwrap();
    }
    notes
}

#[test]
fn new_index_is_empty() {
    let notes = Notes::new(String::from("/data"));
    assert_eq!(notes.data_path(), "/data");
    assert!(notes.get_all().is_empty());
    assert!(!notes.has_key(Some(A)));
    assert!(!notes.has_key(None));
}

#[test]
fn scan_keeps_valid_files_and_skips_corrupt_ones() {
    let found = vec![
        decoded("/data", A, "first"),
        FileRead::Malformed(String::from("expected value at line 1 column 1")),
        decoded("/data", B, "second"),
        FileRead::Unreadable(String::from("Is a directory (os error 21)")),
        FileRead::Decoded { file_path: String::from("/data/x.json"), uuid: None, content: String::new() },
        decoded("/data", C, "third"),
    ];
    let notes = Notes::new_from_data_dir(&String::from("/data"), &found);
    let all = sorted(notes.get_all());
    assert_eq!(all.len(), 3);
    assert_eq!(all[0], NoteFile::with_identity("/data", A, String::from("first")));
    assert_eq!(all[1], NoteFile::with_identity("/data", B, String::from("second")));
    assert_eq!(all[2], NoteFile::with_identity("/data", C, String::from("third")));
    assert_eq!(notes.data_path(), "/data");
}

#[test]
fn scan_of_only_corrupt_files_is_empty() {
    let found = vec![
        FileRead::Malformed(String::from("bad")),
        FileRead::Unreadable(String::from("gone")),
    ];
    let notes = Notes::new_from_data_dir(&String::from("/data"), &found);
    assert!(notes.get_all().is_empty());
}

#[test]
fn scan_of_no_files_is_empty() {
    let notes = Notes::new_from_data_dir(&String::from("/data"), &Vec::new());
    assert!(notes.get_all().is_empty());
}

#[test]
fn scan_keys_by_the_identity_in_the_text_not_by_the_path() {
    let found = vec![FileRead::Decoded {
        file_path: String::from("/moved/renamed.json"),
        uuid: Some(A),
        content: String::from("text"),
    }];
    let notes = Notes::new_from_data_dir(&String::from("/data"), &found);
    let note = notes.get(Some(A)).unwrap();
    assert_eq!(note.uuid, A);
    assert_eq!(note.file_path, "/moved/renamed.json");
}

#[test]
fn scan_keeps_the_later_of_two_files_with_one_identity() {
    let found = vec![decoded("/data", A, "older"), decoded("/data", B, "other"), decoded("/data", A, "newer")];
    let notes = Notes::new_from_data_dir(&String::from("/data"), &found);
    assert_eq!(notes.get_all().len(), 2);
    assert_eq!(notes.get(Some(A)).unwrap().content, "newer");
}

#[test]
fn insert_after_a_good_write_holds_the_note() {
    let mut notes = Notes::new(String::from("/data"));
    let note = NoteFile::with_identity("/data", A, String::from("text"));
    assert_eq!(notes.insert(note.clone(), Written::Done), Ok(note.clone()));
    assert!(notes.has_key(Some(A)));
    assert_eq!(notes.get(Some(A)), Ok(note.clone()));
    assert_eq!(notes.get_all(), vec![note]);
}

#[test]
fn insert_after_a_failed_write_changes_nothing() {
    let mut notes = index_of(&[A]);
    let before = notes.get_all();
    let note = NoteFile::with_identity("/data", B, String::from("text"));
    assert_eq!(
        notes.insert(note, Written::NoFile(String::from("disk full"))),
        Err(StoreError::IoError(String::from("File save error: disk full")))
    );
    assert!(!notes.has_key(Some(B)));
    assert_eq!(notes.get_all(), before);
    let changed = notes.get(Some(A)).unwrap().with_content("changed");
    assert!(notes.insert(changed, Written::NoParent(String::from("denied"))).is_err());
    assert_eq!(notes.get_all(), before);
}

#[test]
fn insert_replaces_the_note_under_the_same_identity() {
    let mut notes = index_of(&[A, B]);
    let next = notes.get(Some(A)).unwrap().with_content("changed");
    notes.insert(next.clone(), Written::Done).unwrap();
    assert_eq!(notes.get_all().len(), 2);
    assert_eq!(notes.get(Some(A)), Ok(next));
}

#[test]
fn set_is_insert() {
    let mut notes = Notes::new(String::from("/data"));
    let note = NoteFile::with_identity("/data", A, String::from("text"));
    assert_eq!(notes.set(note.clone(), Written::Done), Ok(note.clone()));
    assert_eq!(notes.get(Some(A)), Ok(note));
    let other = NoteFile::with_identity("/data", B, String::from("text"));
    assert!(notes.set(other, Written::NoFile(String::from("no"))).is_err());
    assert!(!notes.has_key(Some(B)));
}

#[test]
fn get_of_unknown_identity_is_not_found() {
    let notes = index_of(&[A]);
    assert_eq!(notes.get(Some(B)), Err(StoreError::NotFound(Some(B))));
    assert_eq!(notes.get(None), Err(StoreError::NotFound(None)));
}

#[test]
fn has_key_tells_presence() {
    let notes = index_of(&[A, B]);
    assert!(notes.has_key(Some(A)));
    assert!(notes.has_key(Some(B)));
    assert!(!notes.has_key(Some(C)));
    assert!(!notes.has_key(None));
}

#[test]
fn get_all_lists_every_note_once() {
    let notes = index_of(&[C, A, B]);
    let all = sorted(notes.get_all());
    assert_eq!(all.len(), 3);
    assert_eq!(all[0].uuid, A);
    assert_eq!(all[1].uuid, B);
    assert_eq!(all[2].uuid, C);
    for note in &all {
        assert_eq!(notes.get(Some(note.uuid)).as_ref(), Ok(note));
    }
}

#[test]
fn draft_with_known_identity_revises() {
    let notes = index_of(&[A]);
    let held = notes.get(Some(A)).unwrap();
    let note = notes.draft_with(&InsertKind::Uuid(Some(A)), "changed", C);
    assert_eq!(note.uuid, A);
    assert_eq!(note.file_path, held.file_path);
    assert_eq!(note.content, "changed");
    assert!(!notes.has_key(Some(C)));
    assert_eq!(notes.get(Some(A)), Ok(held));
}

#[test]
fn draft_with_unknown_identity_creates() {
    let notes = index_of(&[A]);
    let note = notes.draft_with(&InsertKind::Uuid(Some(B)), "new note", C);
    assert_eq!(note, NoteFile::with_identity("/data", C, String::from("new note")));
}

#[test]
fn draft_with_no_identity_creates() {
    let notes = index_of(&[A]);
    let note = notes.draft_with(&InsertKind::Uuid(None), "new note", C);
    assert_eq!(note, NoteFile::with_identity("/data", C, String::from("new note")));
}

#[test]
fn draft_with_a_title_creates() {
    let notes = index_of(&[A]);
    let title = InsertKind::String(Some(String::from("shopping")));
    let note = notes.draft_with(&title, "new note", C);
    assert_eq!(note, NoteFile::with_identity("/data", C, String::from("new note")));
    let note = notes.draft_with(&InsertKind::String(None), "new note", B);
    assert_eq!(note, NoteFile::with_identity("/data", B, String::from("new note")));
}

#[test]
fn draft_draws_an_identity_for_a_new_note() {
    let notes = index_of(&[A]);
    let note = notes.draft(&InsertKind::Uuid(Some(B)), "new note");
    assert_ne!(note.uuid, A);
    assert_ne!(note.uuid, B);
    assert_eq!(note, NoteFile::with_identity("/data", note.uuid, String::from("new note")));
    assert_eq!((note.uuid >> 76) & 0xf, 4);
    let again = notes.draft(&InsertKind::Uuid(Some(A)), "changed");
    assert_eq!(again.uuid, A);
    assert_eq!(again.content, "changed");
}

#[test]
fn draft_changes_nothing() {
    let notes = index_of(&[A]);
    let before = notes.get_all();
    notes.draft(&InsertKind::Uuid(None), "new note");
    notes.draft(&InsertKind::Uuid(Some(A)), "changed");
    assert_eq!(notes.get_all(), before);
}

#[test]
fn revise_of_unknown_identity_is_not_found() {
    let notes = index_of(&[A]);
    assert_eq!(notes.revise(B, "text"), Err(StoreError::NotFound(Some(B))));
}

#[test]
fn revise_keeps_identity_and_path() {
    let notes = index_of(&[A]);
    let held = notes.get(Some(A)).unwrap();
    let note = notes.revise(A, "changed").unwrap();
    assert_eq!(note.uuid, A);
    assert_eq!(note.file_path, held.file_path);
    assert_eq!(note.content, "changed");
}

#[test]
fn update_of_unknown_identity_fails_and_creates_nothing() {
    let mut notes = index_of(&[A]);
    let before = notes.get_all();
    assert_eq!(notes.update(B, "text", Written::Done), Err(StoreError::NotFound(Some(B))));
    assert!(!notes.has_key(Some(B)));
    assert_eq!(notes.get_all(), before);
    let mut empty = Notes::new(String::from("/data"));
    assert_eq!(empty.update(A, "text", Written::Done), Err(StoreError::NotFound(Some(A))));
    assert!(empty.get_all().is_empty());
}

#[test]
fn update_changes_the_text_in_place() {
    let mut notes = index_of(&[A, B]);
    let held = notes.get(Some(A)).unwrap();
    let other = notes.get(Some(B)).unwrap();
    let note = notes.update(A, "changed", Written::Done).unwrap();
    assert_eq!(note.uuid, A);
    assert_eq!(note.file_path, held.file_path);
    assert_eq!(note.content, "changed");
    assert_eq!(notes.get(Some(A)), Ok(note));
    assert_eq!(notes.get(Some(B)), Ok(other));
    assert_eq!(notes.get_all().len(), 2);
}

#[test]
fn update_after_a_failed_write_changes_nothing() {
    let mut notes = index_of(&[A]);
    let held = notes.get(Some(A)).unwrap();
    assert_eq!(
        notes.update(A, "changed", Written::NoFile(String::from("disk full"))),
        Err(StoreError::IoError(String::from("File save error: disk full")))
    );
    assert_eq!(notes.get(Some(A)), Ok(held));
}

#[test]
fn path_survives_any_number_of_updates() {
    let mut notes = index_of(&[A]);
    let path = notes.get(Some(A)).unwrap().file_path;
    for round in 0..20 {
        let written = if round % 3 == 0 {
            Written::NoFile(String::from("busy"))
        } else {
            Written::Done
        };
        let _ = notes.update(A, &format!("text {}", round), written);
        assert_eq!(notes.get(Some(A)).unwrap().file_path, path);
    }
    assert_eq!(notes.get(Some(A)).unwrap().content, "text 19");
    assert_eq!(notes.get_all().len(), 1);
}

#[test]
fn only_an_identity_is_a_key() {
    assert_eq!(InsertKind::Uuid(Some(A)).identity(), Some(A));
    assert_eq!(InsertKind::Uuid(None).identity(), None);
    assert_eq!(InsertKind::String(Some(String::from("title"))).identity(), None);
    assert_eq!(InsertKind::String(None).identity(), None);
}
