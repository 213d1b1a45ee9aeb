//! What holds of the store over whole histories of operations.

use crate::error::ErrorView;
use crate::identity::{digit_at, hex_digit, identity_text};
use crate::index::{
    bootstrapped, drafted, holds, keyed, latest, revision, stored, update_result, updated,
};
use crate::paths::{file_name, storage_path};
use crate::record::{created, loaded, persisted, revised, FileRead, NoteView, Written};
use vstd::prelude::*;

verus! {

/// Where the `k`-th digit of an identity stands in its text.
pub open spec fn place_of_digit(k: int) -> int {
    if k >= 20 {
        k + 4
    } else if k >= 16 {
        k + 3
    } else if k >= 12 {
        k + 2
    } else if k >= 8 {
        k + 1
    } else {
        k
    }
}

/// Two identities with the same text have the same `k`-th digit.
proof fn lemma_same_digit(a: u128, b: u128, k: int)
    requires
        0 <= k < 32,
        identity_text(a) == identity_text(b),
    ensures
        digit_at(a, k) == digit_at(b, k),
{
    let p = place_of_digit(k);
    let shift = (4 * (31 - k)) as u128;
    assert(identity_text(a)[p] == hex_digit(digit_at(a, k)));
    assert(identity_text(b)[p] == hex_digit(digit_at(b, k)));
    assert((a >> shift) & 0xf < 16) by (bit_vector);
    assert((b >> shift) & 0xf < 16) by (bit_vector);
}

/// The text of an identity names no other identity.
pub proof fn lemma_text_names_one_identity(a: u128, b: u128)
    requires
        identity_text(a) == identity_text(b),
    ensures
        a == b,
{
    lemma_same_digit(a, b, 0);
    lemma_same_digit(a, b, 1);
    lemma_same_digit(a, b, 2);
    lemma_same_digit(a, b, 3);
    lemma_same_digit(a, b, 4);
    lemma_same_digit(a, b, 5);
    lemma_same_digit(a, b, 6);
    lemma_same_digit(a, b, 7);
    lemma_same_digit(a, b, 8);
    lemma_same_digit(a, b, 9);
    lemma_same_digit(a, b, 10);
    lemma_same_digit(a, b, 11);
    lemma_same_digit(a, b, 12);
    lemma_same_digit(a, b, 13);
    lemma_same_digit(a, b, 14);
    lemma_same_digit(a, b, 15);
    lemma_same_digit(a, b, 16);
    lemma_same_digit(a, b, 17);
    lemma_same_digit(a, b, 18);
    lemma_same_digit(a, b, 19);
    lemma_same_digit(a, b, 20);
    lemma_same_digit(a, b, 21);
    lemma_same_digit(a, b, 22);
    lemma_same_digit(a, b, 23);
    lemma_same_digit(a, b, 24);
    lemma_same_digit(a, b, 25);
    lemma_same_digit(a, b, 26);
    lemma_same_digit(a, b, 27);
    lemma_same_digit(a, b, 28);
    lemma_same_digit(a, b, 29);
    lemma_same_digit(a, b, 30);
    lemma_same_digit(a, b, 31);
    assert(a == b) by (bit_vector)
        requires
            (a >> 124u128) & 0xf == (b >> 124u128) & 0xf,
            (a >> 120u128) & 0xf == (b >> 120u128) & 0xf,
            (a >> 116u128) & 0xf == (b >> 116u128) & 0xf,
            (a >> 112u128) & 0xf == (b >> 112u128) & 0xf,
            (a >> 108u128) & 0xf == (b >> 108u128) & 0xf,
            (a >> 104u128) & 0xf == (b >> 104u128) & 0xf,
            (a >> 100u128) & 0xf == (b >> 100u128) & 0xf,
            (a >> 96u128) & 0xf == (b >> 96u128) & 0xf,
            (a >> 92u128) & 0xf == (b >> 92u128) & 0xf,
            (a >> 88u128) & 0xf == (b >> 88u128) & 0xf,
            (a >> 84u128) & 0xf == (b >> 84u128) & 0xf,
            (a >> 80u128) & 0xf == (b >> 80u128) & 0xf,
            (a >> 76u128) & 0xf == (b >> 76u128) & 0xf,
            (a >> 72u128) & 0xf == (b >> 72u128) & 0xf,
            (a >> 68u128) & 0xf == (b >> 68u128) & 0xf,
            (a >> 64u128) & 0xf == (b >> 64u128) & 0xf,
            (a >> 60u128) & 0xf == (b >> 60u128) & 0xf,
            (a >> 56u128) & 0xf == (b >> 56u128) & 0xf,
            (a >> 52u128) & 0xf == (b >> 52u128) & 0xf,
            (a >> 48u128) & 0xf == (b >> 48u128) & 0xf,
            (a >> 44u128) & 0xf == (b >> 44u128) & 0xf,
            (a >> 40u128) & 0xf == (b >> 40u128) & 0xf,
            (a >> 36u128) & 0xf == (b >> 36u128) & 0xf,
            (a >> 32u128) & 0xf == (b >> 32u128) & 0xf,
            (a >> 28u128) & 0xf == (b >> 28u128) & 0xf,
            (a >> 24u128) & 0xf == (b >> 24u128) & 0xf,
            (a >> 20u128) & 0xf == (b >> 20u128) & 0xf,
            (a >> 16u128) & 0xf == (b >> 16u128) & 0xf,
            (a >> 12u128) & 0xf == (b >> 12u128) & 0xf,
            (a >> 8u128) & 0xf == (b >> 8u128) & 0xf,
            (a >> 4u128) & 0xf == (b >> 4u128) & 0xf,
            (a >> 0u128) & 0xf == (b >> 0u128) & 0xf,
    ;
}

/// The path of a note's file names the note: in one data directory no two
/// identities have the same path.
pub proof fn lemma_path_names_one_identity(dir: Seq<char>, a: u128, b: u128)
    requires
        storage_path(dir, a) == storage_path(dir, b),
    ensures
        a == b,
{
    let before = if dir.len() == 0 || dir.last() == '/' {
        dir
    } else {
        dir + seq!['/']
    };
    let n = before.len() as int;
    assert(file_name(a) =~= (before + file_name(a)).subrange(n, n + 41));
    assert(file_name(b) =~= (before + file_name(b)).subrange(n, n + 41));
    assert(identity_text(a) =~= file_name(a).subrange(0, 36));
    assert(identity_text(b) =~= file_name(b).subrange(0, 36));
    lemma_text_names_one_identity(a, b);
}

/// `note` after one update for each text of `contents`, in their order.
pub open spec fn revised_by(note: NoteView, contents: Seq<Seq<char>>) -> NoteView
    decreases contents.len(),
{
    if contents.len() == 0 {
        note
    } else {
        revised(revised_by(note, contents.drop_last()), contents.last())
    }
}

/// However often a note is updated, it keeps its identity and its path, and
/// has the text of the last update.
pub proof fn lemma_updates_keep_the_path(note: NoteView, contents: Seq<Seq<char>>)
    ensures
        revised_by(note, contents).file_path == note.file_path,
        revised_by(note, contents).uuid == note.uuid,
        contents.len() > 0 ==> revised_by(note, contents).content == contents.last(),
    decreases contents.len(),
{
    if contents.len() > 0 {
        lemma_updates_keep_the_path(note, contents.drop_last());
    }
}

/// One update of an index: the note it is for, the new text, and what the
/// write of the revised record gave.
pub struct Update {
    pub uuid: u128,
    pub content: Seq<char>,
    pub written: Written,
}

/// `index` after the updates of `updates`, in their order.
pub open spec fn updated_by(index: Map<u128, NoteView>, updates: Seq<Update>) -> Map<
    u128,
    NoteView,
>
    decreases updates.len(),
{
    if updates.len() == 0 {
        index
    } else {
        let last = updates.last();
        updated(updated_by(index, updates.drop_last()), last.uuid, last.content, last.written)
    }
}

/// Updates, however many and whether or not their writes succeed, neither
/// add a note to an index nor take one from it, and every note keeps its
/// identity and its path.
pub proof fn lemma_updates_keep_every_path(index: Map<u128, NoteView>, updates: Seq<Update>)
    requires
        keyed(index),
    ensures
        keyed(updated_by(index, updates)),
        updated_by(index, updates).dom() == index.dom(),
        forall|id: u128| #[trigger]
            index.contains_key(id) ==> updated_by(index, updates)[id].file_path
                == index[id].file_path,
    decreases updates.len(),
{
    if updates.len() > 0 {
        lemma_updates_keep_every_path(index, updates.drop_last());
    }
}

/// A note that is created, written, and decoded again as it was written
/// loads as the note that was created: identity, path and text are the same.
pub proof fn lemma_written_note_loads_back(
    dir: Seq<char>,
    id: u128,
    content: Seq<char>,
    found: FileRead,
)
    requires
        found matches FileRead::Decoded { file_path, uuid, content: text } && file_path@
            == created(dir, id, content).file_path && uuid == Some(id) && text@ == content,
    ensures
        persisted(created(dir, id, content), Written::Done) == Ok::<NoteView, ErrorView>(
            created(dir, id, content),
        ),
        loaded(found) == Ok::<NoteView, ErrorView>(created(dir, id, content)),
{
}

/// Whether reading the file gave a note.
pub open spec fn loads(found: FileRead) -> bool {
    loaded(found) is Ok
}

/// The identity of the note that the file gave.
pub open spec fn identity_of(found: FileRead) -> u128
    recommends
        loads(found),
{
    loaded(found)->Ok_0.uuid
}

/// How many files of `found` load as a note.
pub open spec fn valid_count(found: Seq<FileRead>) -> nat
    decreases found.len(),
{
    if found.len() == 0 {
        0
    } else if loads(found.last()) {
        valid_count(found.drop_last()) + 1
    } else {
        valid_count(found.drop_last())
    }
}

/// Whether no two files of `found` that load carry the same identity.
pub open spec fn one_file_each(found: Seq<FileRead>) -> bool {
    forall|i: int, j: int|
        0 <= i < j < found.len() && loads(#[trigger] found[i]) && loads(#[trigger] found[j])
            ==> identity_of(found[i]) != identity_of(found[j])
}

/// The index of a scan holds `id` exactly where a file that loads carries
/// it.
pub proof fn lemma_scan_holds_what_loads(found: Seq<FileRead>, id: u128)
    ensures
        bootstrapped(found).contains_key(id) <==> exists|i: int|
            0 <= i < found.len() && loads(#[trigger] found[i]) && identity_of(found[i]) == id,
    decreases found.len(),
{
    if found.len() > 0 {
        let rest = found.drop_last();
        lemma_scan_holds_what_loads(rest, id);
        if !bootstrapped(found).contains_key(id) {
            assert forall|i: int|
                0 <= i < found.len() && loads(#[trigger] found[i]) implies identity_of(found[i])
                != id by {
                if i < rest.len() {
                    assert(found[i] == rest[i]);
                }
            }
        }
    }
}

/// A scan of a directory with N files that load and any number that do not
/// gives an index of exactly N notes, where no two of the N carry the same
/// identity.
pub proof fn lemma_scan_counts_what_loads(found: Seq<FileRead>)
    requires
        one_file_each(found),
    ensures
        keyed(bootstrapped(found)),
        bootstrapped(found).dom().finite(),
        bootstrapped(found).len() == valid_count(found),
    decreases found.len(),
{
    if found.len() == 0 {
        assert(bootstrapped(found).dom() =~= Set::<u128>::empty());
    } else {
        let rest = found.drop_last();
        assert(one_file_each(rest));
        lemma_scan_counts_what_loads(rest);
        if loads(found.last()) {
            let id = identity_of(found.last());
            lemma_scan_holds_what_loads(rest, id);
            assert(!bootstrapped(rest).contains_key(id));
            assert(bootstrapped(found).dom() =~= bootstrapped(rest).dom().insert(id));
        } else {
            assert(bootstrapped(found).dom() =~= bootstrapped(rest).dom());
        }
        assert forall|id: u128| #[trigger]
            bootstrapped(found).contains_key(id) implies bootstrapped(found)[id].uuid == id by {
            lemma_latest_carries_its_identity(found, id);
        }
    }
}

/// The record that stands under `id` after a scan carries `id`.
pub proof fn lemma_latest_carries_its_identity(found: Seq<FileRead>, id: u128)
    ensures
        latest(found, id) matches Some(note) ==> note.uuid == id,
    decreases found.len(),
{
    if found.len() > 0 {
        lemma_latest_carries_its_identity(found.drop_last(), id);
    }
}

/// A note that the index holds stays in it: neither a save nor an update,
/// whatever its write gives, takes a note out.
pub proof fn lemma_no_note_leaves(
    index: Map<u128, NoteView>,
    note: NoteView,
    uuid: u128,
    content: Seq<char>,
    written: Written,
    id: u128,
)
    requires
        index.contains_key(id),
    ensures
        stored(index, note, written).contains_key(id),
        updated(index, uuid, content, written).contains_key(id),
{
}

/// An update of a note that the index does not hold fails with `NotFound`,
/// whatever the write gave, and leaves the index as it was: it creates
/// nothing.
pub proof fn lemma_update_needs_the_note(
    index: Map<u128, NoteView>,
    uuid: u128,
    content: Seq<char>,
    written: Written,
)
    requires
        !index.contains_key(uuid),
    ensures
        revision(index, uuid, content) == Err::<NoteView, ErrorView>(
            ErrorView::NotFound(Some(uuid)),
        ),
        update_result(index, uuid, content, written) == Err::<NoteView, ErrorView>(
            ErrorView::NotFound(Some(uuid)),
        ),
        updated(index, uuid, content, written) == index,
{
}

/// `index` after a save of `content` under `key` whose write succeeded,
/// `fresh` being the identity that is drawn where a note has to be created.
pub open spec fn saved(
    index: Map<u128, NoteView>,
    dir: Seq<char>,
    key: Option<u128>,
    content: Seq<char>,
    fresh: u128,
) -> Map<u128, NoteView> {
    stored(index, drafted(index, dir, key, content, fresh), Written::Done)
}

/// Two saves that both succeed, one after the other, both take effect,
/// where the identity that is drawn for a new note is one that the index
/// does not hold yet. The index then holds the note of each save, every note
/// that it held before is still there, and a note that neither save asked
/// for by its identity is as it was. The second save touches the note of the
/// first only where it asks for that note by its identity; in every other
/// case the note of the first save has the first text for good.
///
/// Saves never overlap, since each needs the store to itself, so two callers
/// that save at once are served in one order or the other, and this holds of
/// either.
pub proof fn lemma_no_save_is_lost(
    index: Map<u128, NoteView>,
    dir: Seq<char>,
    key1: Option<u128>,
    content1: Seq<char>,
    fresh1: u128,
    key2: Option<u128>,
    content2: Seq<char>,
    fresh2: u128,
)
    requires
        keyed(index),
        holds(index, key1) || !index.contains_key(fresh1),
        holds(saved(index, dir, key1, content1, fresh1), key2) || !saved(
            index,
            dir,
            key1,
            content1,
            fresh1,
        ).contains_key(fresh2),
    ensures
        ({
            let first = drafted(index, dir, key1, content1, fresh1);
            let between = saved(index, dir, key1, content1, fresh1);
            let second = drafted(between, dir, key2, content2, fresh2);
            let after = saved(between, dir, key2, content2, fresh2);
            &&& keyed(after)
            &&& after.dom() == index.dom().insert(first.uuid).insert(second.uuid)
            &&& first.content == content1
            &&& second.content == content2
            &&& after[second.uuid] == second
            &&& first.uuid == second.uuid <==> key2 == Some(first.uuid)
            &&& first.uuid != second.uuid ==> after[first.uuid] == first
            &&& first.uuid == second.uuid ==> second == revised(first, content2)
            &&& forall|id: u128|
                index.contains_key(id) && key1 != Some(id) && key2 != Some(id) ==> #[trigger] after[id]
                    == index[id]
        }),
{
    let between = saved(index, dir, key1, content1, fresh1);
    assert(keyed(between));
}

/// Whether every note of `index` has the path that its identity gives it in
/// the data directory `dir`.
pub open spec fn homed(index: Map<u128, NoteView>, dir: Seq<char>) -> bool {
    forall|id: u128| #[trigger]
        index.contains_key(id) ==> index[id].file_path == storage_path(dir, index[id].uuid)
}

/// Whether every note of `index` is the record that `disk` holds at the
/// note's path. `disk` stands for the files: it gives, for each path, the
/// record that the file there encodes.
pub open spec fn on_disk(index: Map<u128, NoteView>, disk: Map<Seq<char>, NoteView>) -> bool {
    forall|id: u128| #[trigger]
        index.contains_key(id) ==> disk.contains_key(index[id].file_path)
            && disk[index[id].file_path] == index[id]
}

/// The files after `note` was handed to the atomic writer, which is taken
/// at its word: a write that is done has put `note` in the file at its path,
/// and a write that failed has left every file as it was.
pub open spec fn kept(disk: Map<Seq<char>, NoteView>, note: NoteView, written: Written) -> Map<
    Seq<char>,
    NoteView,
> {
    if written is Done {
        disk.insert(note.file_path, note)
    } else {
        disk
    }
}

/// A save keeps the index and the files in step, whether its write succeeds
/// or fails: if every note of the index was on disk before, every note of
/// the index is on disk after. The index takes a record only once the write
/// is done, so it never holds one that is not in its file.
pub proof fn lemma_save_keeps_index_on_disk(
    index: Map<u128, NoteView>,
    disk: Map<Seq<char>, NoteView>,
    dir: Seq<char>,
    key: Option<u128>,
    content: Seq<char>,
    fresh: u128,
    written: Written,
)
    requires
        keyed(index),
        homed(index, dir),
        on_disk(index, disk),
    ensures
        ({
            let note = drafted(index, dir, key, content, fresh);
            let next = stored(index, note, written);
            &&& keyed(next)
            &&& homed(next, dir)
            &&& on_disk(next, kept(disk, note, written))
        }),
{
    let note = drafted(index, dir, key, content, fresh);
    let next = stored(index, note, written);
    let files = kept(disk, note, written);
    assert forall|id: u128| #[trigger] next.contains_key(id) implies files.contains_key(
        next[id].file_path,
    ) && files[next[id].file_path] == next[id] by {
        if written is Done && id != note.uuid && index[id].file_path == note.file_path {
            lemma_path_names_one_identity(dir, id, note.uuid);
        }
    }
}

} // verus!
