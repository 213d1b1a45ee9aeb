//! A durable store of small text notes.
//!
//! Every note is one record: an identity, the path of the file that holds
//! it, and its text. The index keeps the records in memory, keyed by
//! identity; the store is the face that it shows to the application.
//!
//! Nothing in this library touches the file system. Each operation that has
//! to reach the disk comes in two halves: one that decides which record is
//! to be written, and one that takes what the write gave and only then
//! changes the index. The caller does the writing in between, with a writer
//! that puts a file in place in one step. So the index never holds a record
//! that is not in its file.
//!
//! - `identity`: the identities of notes and their text
//! - `paths`: where the file of a note stands
//! - `error`: the failures
//! - `record`: the note record, and what loading and persisting one gives
//! - `index`: the index and its operations
//! - `store`: the store and the two commands of the application layer
//! - `laws`: what holds over whole histories of operations

pub mod error;
pub mod identity;
pub mod index;
pub mod laws;
pub mod paths;
pub mod record;
pub mod store;
