//! The store: the one entry point of the application layer.
//!
//! A store owns the index of its data directory. Every operation that
//! changes it takes `&mut self`, so no two of them ever overlap: a caller that
//! shares a store between threads keeps it behind one lock and holds that
//! lock from `draft` over the write to `set`.

use crate::error::StoreError;
use crate::identity::is_random;
use crate::index::{
    bootstrapped, drafted, holds, keyed, lists, looked_up, stored, InsertKind, Notes, KV,
};
use crate::paths::{join, joined};
use crate::record::{outcome, persisted, FileRead, NoteFile, NoteView, Written};
use vstd::prelude::*;
use vstd::string::*;

verus! {

/// The directories of the application.
#[derive(Debug, PartialEq, Eq)]
pub struct AppData {
    /// Where the platform keeps this application's data.
    pub app_dir: String,
    /// Where the notes are kept: the directory `data` inside `app_dir`.
    pub data_dir: String,
}

/// The name of the directory, inside the application's own, that holds the
/// notes.
pub open spec fn data_dir_name() -> Seq<char> {
    seq!['d', 'a', 't', 'a']
}

impl AppData {
    /// The directories of an application whose data the platform keeps in
    /// `app_dir`.
    pub fn initialize_from_config(app_dir: String) -> (paths: AppData)
        ensures
            paths.app_dir@ == app_dir@,
            paths.data_dir@ == joined(app_dir@, data_dir_name()),
    {
        proof {
            reveal_strlit("data");
        }
        let data_dir = join(app_dir.as_str(), "data");
        AppData { app_dir, data_dir }
    }
}

/// What the caller found in place of the data directory when it started.
#[derive(Debug, PartialEq, Eq)]
pub enum DataDir {
    /// The directory was there. These are its files, each with what reading
    /// it gave.
    Found(Vec<FileRead>),
    /// Nothing was there, and the caller has made the directory.
    Made,
}

/// What a store starts with: the index that a scan of the data directory
/// builds where the directory was there, and no note where it had to be made.
pub open spec fn started(found: DataDir) -> Map<u128, NoteView> {
    match found {
        DataDir::Found(files) => bootstrapped(files@),
        DataDir::Made => Map::empty(),
    }
}

/// Whether `result` is what a save of `note` hands back, `index` being the
/// store after it: every note of `index` where the write succeeded, the
/// failure where it did not.
pub open spec fn answers(
    result: Result<Vec<NoteFile>, StoreError>,
    index: Map<u128, NoteView>,
    note: NoteView,
    written: Written,
) -> bool {
    match persisted(note, written) {
        Ok(_) => result matches Ok(notes) && lists(notes@, index),
        Err(failure) => result matches Err(error) && error@ == failure,
    }
}

/// The note store of one data directory.
#[derive(Debug)]
pub struct Store {
    notes: Notes,
}

impl View for Store {
    type V = Map<u128, NoteView>;

    closed spec fn view(&self) -> Map<u128, NoteView> {
        self.notes@
    }
}

impl Store {
    /// The data directory of this store.
    pub closed spec fn dir(&self) -> Seq<char> {
        self.notes.dir()
    }

    /// A store holds every note under the note's own identity, and holds
    /// finitely many.
    pub proof fn lemma_keyed(&self)
        ensures
            keyed(self@),
            self@.dom().finite(),
    {
        self.notes.lemma_keyed();
    }

    /// Starts the store of the data directory `data_path.data_dir`, from
    /// what the caller found in its place. A file that does not load is
    /// passed over: the store starts with the others.
    pub fn new(data_path: AppData, found: DataDir) -> (store: Store)
        ensures
            store@ == started(found),
            store.dir() == data_path.data_dir@,
    {
        match found {
            DataDir::Found(files) => Store {
                notes: Notes::new_from_data_dir(&data_path.data_dir, &files),
            },
            DataDir::Made => Store { notes: Notes::new(data_path.data_dir) },
        }
    }

    /// The data directory of this store.
    pub fn data_path(&self) -> (path: &String)
        ensures
            path@ == self.dir(),
    {
        self.notes.data_path()
    }

    /// Decides which record a save of `content` under `key` writes: the
    /// note that `key` names, with the new text, where the store holds it,
    /// and else a new note under an identity that is drawn for it. An
    /// identity that the store does not hold is passed over, not refused.
    pub fn draft(&self, key: &InsertKind, content: &str) -> (note: NoteFile)
        ensures
            note@ == drafted(self@, self.dir(), key.candidate(), content@, note.uuid),
            holds(self@, key.candidate()) || is_random(note.uuid),
    {
        self.notes.draft(key, content)
    }

    /// Takes what writing `note` to its `file_path` gave. Where the write
    /// succeeded the store holds `note` from now on; where it failed the
    /// store stays as it was and the failure is handed back.
    pub fn set(&mut self, note: NoteFile, written: Written) -> (result: Result<
        NoteFile,
        StoreError,
    >)
        ensures
            outcome(result) == persisted(note@, written),
            final(self)@ == stored(old(self)@, note@, written),
            final(self).dir() == old(self).dir(),
    {
        self.notes.insert(note, written)
    }

    /// The note under `key`, or `NotFound`.
    pub fn get(&self, key: Option<u128>) -> (result: Result<NoteFile, StoreError>)
        ensures
            outcome(result) == looked_up(self@, key),
    {
        self.notes.get(key)
    }

    /// Whether the store holds a note under `key`.
    pub fn has_key(&self, key: Option<u128>) -> (held: bool)
        ensures
            held == holds(self@, key),
    {
        self.notes.has_key(key)
    }

    /// Every note of the store, in no order that a caller may rely on.
    pub fn get_all(&self) -> (notes: Vec<NoteFile>)
        ensures
            lists(notes@, self@),
    {
        self.notes.get_all()
    }
}

/// The save command, once the record has been handed to the disk: `note` is
/// what `draft` decided on and `written` what writing it gave. It answers
/// with every note of the store after the save, from which the caller draws
/// its whole list anew.
pub fn save_file(store: &mut Store, note: NoteFile, written: Written) -> (result: Result<
    Vec<NoteFile>,
    StoreError,
>)
    ensures
        final(store)@ == stored(old(store)@, note@, written),
        final(store).dir() == old(store).dir(),
        answers(result, final(store)@, note@, written),
{
    match store.set(note, written) {
        Ok(_) => Ok(store.get_all()),
        Err(error) => Err(error),
    }
}

/// The list command: every note of the store.
pub fn get_files(store: &Store) -> (notes: Vec<NoteFile>)
    ensures
        lists(notes@, store@),
{
    store.get_all()
}

} // verus!
