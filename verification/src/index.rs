//! The note index: every record of the data directory, keyed by identity.

use crate::error::{ErrorView, StoreError};
use crate::identity::is_random;
use crate::record::{
    created, loaded, outcome, persisted, revised, FileRead, NoteFile, NoteView, Written,
};
use std::collections::HashMap;
use vstd::prelude::*;
use vstd::std_specs::hash::*;
use vstd::std_specs::iter::IteratorSpec;
use vstd::string::*;

verus! {

broadcast use vstd::std_specs::hash::group_hash_axioms;

/// How the caller of a save names the note that it means.
#[derive(Debug, PartialEq, Eq)]
pub enum InsertKind {
    /// By the identity that an earlier save gave it, if the caller has one.
    Uuid(Option<u128>),
    /// By a title. A title is no key: such a save always creates a note.
    String(Option<String>),
}

impl InsertKind {
    /// The identity that the kind names, if it names one.
    pub open spec fn candidate(self) -> Option<u128> {
        match self {
            InsertKind::Uuid(key) => key,
            InsertKind::String(_) => None,
        }
    }

    /// The identity that the kind names, if it names one.
    pub fn identity(&self) -> (key: Option<u128>)
        ensures
            key == self.candidate(),
    {
        match self {
            InsertKind::Uuid(key) => *key,
            InsertKind::String(_) => None,
        }
    }
}

/// Whether `index` holds a note under `key`. It holds none under no key.
pub open spec fn holds(index: Map<u128, NoteView>, key: Option<u128>) -> bool {
    key matches Some(id) && index.contains_key(id)
}

/// What a lookup of `key` in `index` gives: the note under it, or
/// `NotFound` with the key.
pub open spec fn looked_up(index: Map<u128, NoteView>, key: Option<u128>) -> Result<
    NoteView,
    ErrorView,
> {
    if holds(index, key) {
        Ok(index[key->0])
    } else {
        Err(ErrorView::NotFound(key))
    }
}

/// The record that a save of `content` under `key` writes: the note under
/// `key` with the new text where the index holds one, and else a new note
/// in `dir` under the identity `fresh`.
pub open spec fn drafted(
    index: Map<u128, NoteView>,
    dir: Seq<char>,
    key: Option<u128>,
    content: Seq<char>,
    fresh: u128,
) -> NoteView {
    if holds(index, key) {
        revised(index[key->0], content)
    } else {
        created(dir, fresh, content)
    }
}

/// The record that an update of the note `uuid` to `content` writes, or
/// `NotFound` where the index holds no such note.
pub open spec fn revision(index: Map<u128, NoteView>, uuid: u128, content: Seq<char>) -> Result<
    NoteView,
    ErrorView,
> {
    match looked_up(index, Some(uuid)) {
        Ok(note) => Ok(revised(note, content)),
        Err(error) => Err(error),
    }
}

/// The index after `note` was handed to the disk: with `note` under its own
/// identity where the write succeeded, unchanged where it failed.
pub open spec fn stored(index: Map<u128, NoteView>, note: NoteView, written: Written) -> Map<
    u128,
    NoteView,
> {
    if written is Done {
        index.insert(note.uuid, note)
    } else {
        index
    }
}

/// What an update of the note `uuid` to `content` hands back, given what
/// the write of the revised record gave.
pub open spec fn update_result(
    index: Map<u128, NoteView>,
    uuid: u128,
    content: Seq<char>,
    written: Written,
) -> Result<NoteView, ErrorView> {
    match revision(index, uuid, content) {
        Ok(note) => persisted(note, written),
        Err(error) => Err(error),
    }
}

/// The index after an update of the note `uuid` to `content`, given what
/// the write of the revised record gave. Where the index held no such note
/// it is unchanged, whatever the write gave.
pub open spec fn updated(
    index: Map<u128, NoteView>,
    uuid: u128,
    content: Seq<char>,
    written: Written,
) -> Map<u128, NoteView> {
    match revision(index, uuid, content) {
        Ok(note) => stored(index, note, written),
        Err(_) => index,
    }
}

/// The record of the last file in `found` that loads as a note with the
/// identity `id`, if there is such a file.
pub open spec fn latest(found: Seq<FileRead>, id: u128) -> Option<NoteView>
    decreases found.len(),
{
    if found.len() == 0 {
        None
    } else {
        match loaded(found.last()) {
            Ok(note) if note.uuid == id => Some(note),
            _ => latest(found.drop_last(), id),
        }
    }
}

/// The index that a scan of the data directory builds from what reading
/// each of its files gave: every file that loads stands under the identity
/// that its own text carries, the others are passed over. Of two files that
/// carry one identity the later stays.
pub open spec fn bootstrapped(found: Seq<FileRead>) -> Map<u128, NoteView> {
    Map::new(|id: u128| latest(found, id) is Some, |id: u128| latest(found, id)->0)
}

/// Whether every note of `index` stands under its own identity.
pub open spec fn keyed(index: Map<u128, NoteView>) -> bool {
    forall|id: u128| #[trigger] index.contains_key(id) ==> index[id].uuid == id
}

/// Whether `notes` lists `index`: every record of the index once, and
/// nothing else. The order is left open.
pub open spec fn lists(notes: Seq<NoteFile>, index: Map<u128, NoteView>) -> bool {
    &&& notes.len() == index.len()
    &&& forall|i: int|
        0 <= i < notes.len() ==> index.contains_key((#[trigger] notes[i]).uuid)
            && index[notes[i].uuid] == notes[i]@
    &&& forall|i: int, j: int|
        0 <= i < j < notes.len() ==> (#[trigger] notes[i]).uuid != (#[trigger] notes[j]).uuid
    &&& forall|id: u128| #[trigger]
        index.contains_key(id) ==> exists|i: int|
            0 <= i < notes.len() && (#[trigger] notes[i]).uuid == id
}

/// The operations of a store of notes that is keyed by identity.
pub trait KV {
    /// The notes that are held, each under its identity.
    spec fn records(&self) -> Map<u128, NoteView>;

    /// Takes what writing `note` to its `file_path` gave, and holds `note`
    /// from now on if it was written.
    fn set(&mut self, note: NoteFile, written: Written) -> (result: Result<NoteFile, StoreError>)
        ensures
            outcome(result) == persisted(note@, written),
            final(self).records() == stored(old(self).records(), note@, written),
    ;

    /// The note under `uuid`, or `NotFound`.
    fn get(&self, uuid: Option<u128>) -> (result: Result<NoteFile, StoreError>)
        ensures
            outcome(result) == looked_up(self.records(), uuid),
    ;

    /// Every note that is held, in no order that a caller may rely on.
    fn get_all(&self) -> (notes: Vec<NoteFile>)
        ensures
            lists(notes@, self.records()),
    ;

    /// Whether a note is held under `uuid`.
    fn has_key(&self, uuid: Option<u128>) -> (held: bool)
        ensures
            held == holds(self.records(), uuid),
    ;
}

/// The index of one data directory.
#[derive(Debug)]
pub struct Notes {
    data_path: String,
    entries: HashMap<u128, NoteFile>,
}

impl View for Notes {
    type V = Map<u128, NoteView>;

    closed spec fn view(&self) -> Map<u128, NoteView> {
        Map::new(
            |id: u128| self.entries@.contains_key(id),
            |id: u128|
                NoteView {
                    file_path: self.entries@[id].file_path@,
                    uuid: id,
                    content: self.entries@[id].content@,
                },
        )
    }
}

impl Notes {
    /// Every record stands under its own identity.
    #[verifier::type_invariant]
    spec fn keyed_by_identity(self) -> bool {
        forall|id: u128| #[trigger]
            self.entries@.contains_key(id) ==> self.entries@[id].uuid == id
    }

    /// The data directory of this index.
    pub closed spec fn dir(&self) -> Seq<char> {
        self.data_path@
    }

    /// An index holds every note under the note's own identity, and holds
    /// finitely many.
    pub proof fn lemma_keyed(&self)
        ensures
            keyed(self@),
            self@.dom().finite(),
    {
        assert(self@.dom() =~= self.entries@.dom());
    }

    /// An index of the data directory `data_path` that holds no note.
    pub fn new(data_path: String) -> (notes: Notes)
        ensures
            notes@ == Map::<u128, NoteView>::empty(),
            notes.dir() == data_path@,
    {
        Notes { data_path, entries: HashMap::new() }
    }

    /// Builds the index of the data directory `data_path` from what reading
    /// each of its files gave. A file that does not load is passed over: it
    /// never keeps the others out of the index.
    pub fn new_from_data_dir(data_path: &String, found: &Vec<FileRead>) -> (notes: Notes)
        ensures
            notes@ == bootstrapped(found@),
            notes.dir() == data_path@,
    {
        let mut notes = Notes::new(data_path.clone());
        for i in 0..found.len()
            invariant
                notes@ == bootstrapped(found@.take(i as int)),
                notes.dir() == data_path@,
        {
            assert(found@.take(i + 1).drop_last() =~= found@.take(i as int));
            if let Ok(note) = NoteFile::load(&found[i]) {
                notes.place(note);
            }
        }
        assert(found@.take(found.len() as int) =~= found@);
        notes
    }

    /// The data directory of this index.
    pub fn data_path(&self) -> (path: &String)
        ensures
            path@ == self.dir(),
    {
        &self.data_path
    }

    /// The note that `key` names, where the index holds it.
    fn find(&self, key: Option<u128>) -> (known: Option<&NoteFile>)
        ensures
            known is Some == holds(self@, key),
            known matches Some(note) ==> note@ == self@[key->0] && note.uuid == key->0,
    {
        proof {
            use_type_invariant(self);
        }
        match key {
            Some(id) => self.entries.get(&id),
            None => None,
        }
    }

    /// Puts `note` under its identity, in place of what stood there.
    fn place(&mut self, note: NoteFile)
        ensures
            final(self)@ == old(self)@.insert(note.uuid, note@),
            final(self).dir() == old(self).dir(),
    {
        proof {
            use_type_invariant(&*self);
        }
        let mut entries: HashMap<u128, NoteFile> = HashMap::new();
        core::mem::swap(&mut self.entries, &mut entries);
        entries.insert(note.uuid, note);
        core::mem::swap(&mut self.entries, &mut entries);
    }

    /// Decides which record a save of `content` under `key` writes: the
    /// note that `key` names, with the new text, where the index holds it,
    /// and else a new note under an identity that is drawn for it. The index
    /// itself changes only in `insert`, once the record has been written.
    pub fn draft(&self, key: &InsertKind, content: &str) -> (note: NoteFile)
        ensures
            note@ == drafted(self@, self.dir(), key.candidate(), content@, note.uuid),
            holds(self@, key.candidate()) || is_random(note.uuid),
    {
        match self.find(key.identity()) {
            Some(known) => known.with_content(content),
            None => NoteFile::new(self.data_path.as_str(), String::from_str(content)),
        }
    }

    /// As `draft`, with `fresh` as the identity of a note that has to be
    /// created.
    pub fn draft_with(&self, key: &InsertKind, content: &str, fresh: u128) -> (note: NoteFile)
        ensures
            note@ == drafted(self@, self.dir(), key.candidate(), content@, fresh),
    {
        match self.find(key.identity()) {
            Some(known) => known.with_content(content),
            None => NoteFile::with_identity(
                self.data_path.as_str(),
                fresh,
                String::from_str(content),
            ),
        }
    }

    /// Decides which record an update of the note `uuid` to `content`
    /// writes. An identity that the index does not hold is `NotFound`: an
    /// update never creates a note.
    pub fn revise(&self, uuid: u128, content: &str) -> (result: Result<NoteFile, StoreError>)
        ensures
            outcome(result) == revision(self@, uuid, content@),
            result is Ok <==> self@.contains_key(uuid),
    {
        match self.find(Some(uuid)) {
            Some(known) => Ok(known.with_content(content)),
            None => Err(StoreError::NotFound(Some(uuid))),
        }
    }

    /// Takes what writing `note` to its `file_path` gave. Where the write
    /// succeeded the index holds `note` under its identity from now on, in
    /// place of what it held there; where it failed the index stays as it
    /// was and the failure is handed back.
    pub fn insert(&mut self, note: NoteFile, written: Written) -> (result: Result<
        NoteFile,
        StoreError,
    >)
        ensures
            outcome(result) == persisted(note@, written),
            final(self)@ == stored(old(self)@, note@, written),
            final(self).dir() == old(self).dir(),
    {
        match note.save(written) {
            Ok(saved) => {
                self.place(saved.clone());
                Ok(saved)
            },
            Err(error) => Err(error),
        }
    }

    /// Takes what writing the record of `revise` gave, for the same `uuid`
    /// and `content`. Where the write succeeded the note has the new text
    /// from now on, under the identity and at the path that it had. An
    /// identity that the index does not hold is `NotFound`, and the index
    /// stays as it was.
    pub fn update(&mut self, uuid: u128, content: &str, written: Written) -> (result: Result<
        NoteFile,
        StoreError,
    >)
        ensures
            outcome(result) == update_result(old(self)@, uuid, content@, written),
            final(self)@ == updated(old(self)@, uuid, content@, written),
            final(self).dir() == old(self).dir(),
            !old(self)@.contains_key(uuid) ==> final(self)@ == old(self)@ && outcome(result) == Err::<
                NoteView,
                ErrorView,
            >(ErrorView::NotFound(Some(uuid))),
    {
        match self.revise(uuid, content) {
            Ok(note) => self.insert(note, written),
            Err(error) => Err(error),
        }
    }
}

impl KV for Notes {
    open spec fn records(&self) -> Map<u128, NoteView> {
        self@
    }

    fn set(&mut self, note: NoteFile, written: Written) -> (result: Result<NoteFile, StoreError>) {
        self.insert(note, written)
    }

    fn get(&self, uuid: Option<u128>) -> (result: Result<NoteFile, StoreError>) {
        match self.find(uuid) {
            Some(known) => Ok(known.clone()),
            None => Err(StoreError::NotFound(uuid)),
        }
    }

    fn get_all(&self) -> (notes: Vec<NoteFile>) {
        proof {
            use_type_invariant(self);
        }
        let mut notes: Vec<NoteFile> = Vec::new();
        let ghost pairs = self.entries.iter().remaining();
        for pair in it: self.entries.iter()
            invariant
                it.seq() == pairs,
                notes.len() == it.index(),
                forall|i: int| 0 <= i < notes.len() ==> #[trigger] notes[i] == *pairs[i].1,
        {
            notes.push(pair.1.clone());
        }
        proof {
            let held = self.entries@;
            assert(self@.dom() =~= held.dom());
            assert forall|i: int| 0 <= i < notes.len() implies held.contains_key(*pairs[i].0) && (
            #[trigger] notes[i]).uuid == *pairs[i].0 by {
                assert(held.contains_key(*pairs[i].0));
            }
            assert forall|i: int, j: int| 0 <= i < j < notes.len() implies (#[trigger] notes[i]).uuid
                != (#[trigger] notes[j]).uuid by {
                assert(pairs[i] != pairs[j]);
            }
            assert forall|id: u128| #[trigger] self@.contains_key(id) implies exists|i: int|
                0 <= i < notes.len() && (#[trigger] notes[i]).uuid == id by {
                let i = choose|i: int| 0 <= i < pairs.len() && pairs[i] == (&id, &held[id]);
                assert(notes[i].uuid == id);
            }
        }
        notes
    }

    fn has_key(&self, uuid: Option<u128>) -> (held: bool) {
        self.find(uuid).is_some()
    }
}

} // verus!
