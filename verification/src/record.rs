//! The note record: the unit that is kept in memory and written to disk.

use crate::error::{ErrorView, StoreError};
use crate::identity::{fresh_identity, is_random};
use crate::paths::{note_path, storage_path};
use vstd::prelude::*;
use vstd::string::*;

verus! {

/// One note. `uuid` is given to it once, when it is created; `file_path` is
/// where its file stands and follows from the data directory and `uuid`;
/// `content` is the only part that an update changes.
#[derive(Debug, PartialEq, Eq)]
pub struct NoteFile {
    pub file_path: String,
    pub uuid: u128,
    pub content: String,
}

/// A `NoteFile` with its texts as sequences of characters.
pub struct NoteView {
    pub file_path: Seq<char>,
    pub uuid: u128,
    pub content: Seq<char>,
}

impl View for NoteFile {
    type V = NoteView;

    open spec fn view(&self) -> NoteView {
        NoteView { file_path: self.file_path@, uuid: self.uuid, content: self.content@ }
    }
}

impl Clone for NoteFile {
    fn clone(&self) -> (copy: Self)
        ensures
            copy == *self,
    {
        NoteFile {
            file_path: self.file_path.clone(),
            uuid: self.uuid,
            content: self.content.clone(),
        }
    }
}

/// What reading one file of the data directory and decoding its text gave.
#[derive(Debug, PartialEq, Eq)]
pub enum FileRead {
    /// The file could not be read. The text is the cause.
    Unreadable(String),
    /// The file was read, but its text is no encoding of a record. The text
    /// is the cause.
    Malformed(String),
    /// The fields that the file's text encodes. The identity may be missing
    /// from an encoding that is otherwise in order.
    Decoded { file_path: String, uuid: Option<u128>, content: String },
}

/// What handing a record to the atomic writer gave. The writer first makes
/// sure that the directory of the file is there, then puts the new text in
/// the file's place in one step. It tries neither twice.
#[derive(Debug, PartialEq, Eq)]
pub enum Written {
    /// The file holds the record.
    Done,
    /// The directory of the file could not be made. The text is the cause.
    NoParent(String),
    /// The file could not be written or moved into place. The text is the
    /// cause.
    NoFile(String),
}

/// The note that is created in the data directory `dir` under the identity
/// `id` with the text `content`.
pub open spec fn created(dir: Seq<char>, id: u128, content: Seq<char>) -> NoteView {
    NoteView { file_path: storage_path(dir, id), uuid: id, content }
}

/// `note` with its text replaced by `content`, and nothing else changed.
pub open spec fn revised(note: NoteView, content: Seq<char>) -> NoteView {
    NoteView { file_path: note.file_path, uuid: note.uuid, content }
}

/// The cause that is reported for an encoding without an identity.
pub open spec fn no_identity() -> Seq<char> {
    "the record has no identity"@
}

/// What loading gives for each outcome of reading and decoding a file: the
/// record as it was decoded, or why there is none.
pub open spec fn loaded(found: FileRead) -> Result<NoteView, ErrorView> {
    match found {
        FileRead::Unreadable(cause) => Err(ErrorView::IoError(cause@)),
        FileRead::Malformed(cause) => Err(ErrorView::Corrupt(cause@)),
        FileRead::Decoded { uuid: None, .. } => Err(ErrorView::Corrupt(no_identity())),
        FileRead::Decoded { file_path, uuid: Some(id), content } => Ok(
            NoteView { file_path: file_path@, uuid: id, content: content@ },
        ),
    }
}

/// What persisting `note` gives for each outcome of the write: the record
/// unchanged, or one `IoError` for either step of the writer, which carries
/// the cause.
pub open spec fn persisted(note: NoteView, written: Written) -> Result<NoteView, ErrorView> {
    match written {
        Written::Done => Ok(note),
        Written::NoParent(cause) => Err(
            ErrorView::IoError(
                "File save error: Error creating parent folder: "@ + cause@,
            ),
        ),
        Written::NoFile(cause) => Err(ErrorView::IoError("File save error: "@ + cause@)),
    }
}

/// The view of a result that holds a record or a failure.
pub open spec fn outcome(result: Result<NoteFile, StoreError>) -> Result<NoteView, ErrorView> {
    match result {
        Ok(note) => Ok(note@),
        Err(error) => Err(error@),
    }
}

impl NoteFile {
    /// Creates a note in the data directory `file_path` with the text
    /// `content`, under an identity that is drawn for it. Nothing is
    /// written to disk.
    pub fn new(file_path: &str, content: String) -> (note: NoteFile)
        ensures
            is_random(note.uuid),
            note@ == created(file_path@, note.uuid, content@),
    {
        let uuid: u128 = fresh_identity();
        NoteFile::with_identity(file_path, uuid, content)
    }

    /// Creates the note that has the identity `uuid` in the data directory
    /// `file_path`, with the text `content`.
    pub fn with_identity(file_path: &str, uuid: u128, content: String) -> (note: NoteFile)
        ensures
            note@ == created(file_path@, uuid, content@),
    {
        NoteFile { file_path: note_path(file_path, uuid), uuid, content }
    }

    /// The record that an update of this note to `content` writes: the same
    /// identity and the same path, with the new text.
    pub fn with_content(&self, content: &str) -> (note: NoteFile)
        ensures
            note@ == revised(self@, content@),
    {
        NoteFile {
            file_path: self.file_path.clone(),
            uuid: self.uuid,
            content: String::from_str(content),
        }
    }

    /// Turns what reading and decoding a file gave into a record. A file
    /// that could not be read is an `IoError`; a text that is no encoding
    /// of a record, or that lacks the identity, is `Corrupt`.
    pub fn load(found: &FileRead) -> (result: Result<NoteFile, StoreError>)
        ensures
            outcome(result) == loaded(*found),
    {
        match found {
            FileRead::Unreadable(cause) => Err(StoreError::IoError(cause.clone())),
            FileRead::Malformed(cause) => Err(StoreError::Corrupt(cause.clone())),
            FileRead::Decoded { uuid: None, .. } => Err(
                StoreError::Corrupt(String::from_str("the record has no identity")),
            ),
            FileRead::Decoded { file_path, uuid: Some(id), content } => Ok(
                NoteFile { file_path: file_path.clone(), uuid: *id, content: content.clone() },
            ),
        }
    }

    /// Takes what writing this record to `file_path` gave. A record that
    /// was written is handed back unchanged; a failed write is an `IoError`
    /// that carries the cause.
    pub fn save(self, written: Written) -> (result: Result<NoteFile, StoreError>)
        ensures
            outcome(result) == persisted(self@, written),
    {
        match written {
            Written::Done => Ok(self),
            Written::NoParent(cause) => Err(
                StoreError::IoError(
                    String::from_str("File save error: Error creating parent folder: ").concat(
                        cause.as_str(),
                    ),
                ),
            ),
            Written::NoFile(cause) => Err(
                StoreError::IoError(String::from_str("File save error: ").concat(cause.as_str())),
            ),
        }
    }
}

} // verus!
