//! The ordered collection of records: what a run starts from, and how
//! adding and deleting change it.

use vstd::prelude::*;
use crate::entry::{EntryView, PasswordEntry};

verus! {

/// The records that `entries` holds, in order, each as its view.
pub open spec fn records(entries: Seq<PasswordEntry>) -> Seq<EntryView> {
    entries.map_values(|e: PasswordEntry| e@)
}

/// The test a record passes when its service is not `target`.
pub open spec fn service_differs(target: Seq<char>) -> spec_fn(EntryView) -> bool {
    |r: EntryView| r.service != target
}

/// `all` without the records whose service is `target`; the others keep their order.
pub open spec fn without_service(all: Seq<EntryView>, target: Seq<char>) -> Seq<EntryView> {
    all.filter(service_differs(target))
}

/// What a run starts from: the loaded records, or the header alone when there are none.
pub open spec fn with_header(loaded: Seq<EntryView>) -> Seq<EntryView> {
    if loaded.len() == 0 {
        seq![EntryView::header()]
    } else {
        loaded
    }
}

/// What reading the store file gave.
#[derive(Debug)]
pub enum Stored {
    /// There is no file at the path.
    Missing,
    /// The file could not be read.
    Unreadable,
    /// The file was read, and its content is not a list of records.
    Malformed,
    /// The list of records that the file holds, in file order.
    Entries(Vec<PasswordEntry>),
}

/// The failure of [`load_passwords`]: the file is there and reading it failed.
#[derive(Clone, Copy, Debug, PartialEq, Eq, Structural)]
pub struct IoError;

/// The records that a file in state `found` stands for, or `None` when the
/// read failed. A missing file and unusable content both stand for no records.
pub open spec fn stored_records(found: Stored) -> Option<Seq<EntryView>> {
    match found {
        Stored::Missing => Some(Seq::empty()),
        Stored::Unreadable => None,
        Stored::Malformed => Some(Seq::empty()),
        Stored::Entries(entries) => Some(records(entries@)),
    }
}

/// Turns what was found at the store's path into the loaded records.
///
/// A missing file and a file with unusable content give the empty list, not
/// an error; a list that was read comes back as it is. Only a failed read is
/// an error.
pub fn load_passwords(found: Stored) -> (loaded: Result<Vec<PasswordEntry>, IoError>)
    ensures
        match found {
            Stored::Missing => loaded matches Ok(entries) && entries@.len() == 0,
            Stored::Unreadable => loaded == Err::<Vec<PasswordEntry>, IoError>(IoError),
            Stored::Malformed => loaded matches Ok(entries) && entries@.len() == 0,
            Stored::Entries(entries) => loaded == Ok::<Vec<PasswordEntry>, IoError>(entries),
        },
        loaded matches Ok(entries) ==> stored_records(found) == Some(records(entries@)),
{
    match found {
        Stored::Missing => Ok(Vec::new()),
        Stored::Unreadable => Err(IoError),
        Stored::Malformed => Ok(Vec::new()),
        Stored::Entries(entries) => Ok(entries),
    }
}

/// Puts the header record into an empty store, and leaves any other store alone.
pub fn insert_header_if_empty(passwords: &mut Vec<PasswordEntry>)
    ensures
        records(final(passwords)@) == with_header(records(old(passwords)@)),
        old(passwords)@.len() > 0 ==> final(passwords)@ == old(passwords)@,
{
    if passwords.is_empty() {
        passwords.push(PasswordEntry::header());
    }
}

/// Appends `entry` to the end of `passwords`. Nothing is checked, merged or reordered.
pub fn add_password(passwords: &mut Vec<PasswordEntry>, entry: PasswordEntry)
    ensures
        final(passwords)@ == old(passwords)@.push(entry),
        records(final(passwords)@) == records(old(passwords)@).push(entry@),
{
    passwords.push(entry);
}

/// Removes every record whose service is exactly `service`. Deleting a service
/// that is not stored changes nothing.
pub fn delete_password(passwords: &mut Vec<PasswordEntry>, service: &str)
    ensures
        records(final(passwords)@) == without_service(records(old(passwords)@), service@),
{
    let target = service.to_owned();
    let ghost before = passwords@;
    // The records from `i` on have been dealt with; those before `i` are untouched.
    let mut i: usize = passwords.len();
    proof {
        lemma_delete_of_none(service@);
    }
    while i > 0
        invariant
            i <= before.len(),
            i <= passwords@.len(),
            target@ == service@,
            passwords@.take(i as int) == before.take(i as int),
            records(passwords@.skip(i as int)) == without_service(
                records(before.skip(i as int)),
                service@,
            ),
        decreases i,
    {
        let j: usize = i - 1;
        let ghost current = before[j as int]@;
        proof {
            assert(passwords@[j as int] == passwords@.take(i as int)[j as int]);
            assert(records(before.skip(j as int)) =~= seq![current] + records(
                before.skip(i as int),
            ));
            lemma_delete_is_recordwise(seq![current], records(before.skip(i as int)), service@);
            lemma_delete_of_one(current, service@);
        }
        if passwords[j].service == target {
            passwords.remove(j);
        }
        i = j;
    }
    assert(before.skip(0) =~= before);
}

/// A run over no records starts from the header record and nothing else; a
/// run over records starts from them, and gets no header.
pub proof fn lemma_header_only_when_empty(loaded: Seq<EntryView>)
    ensures
        with_header(Seq::empty()) == seq![EntryView::header()],
        loaded.len() > 0 ==> with_header(loaded) == loaded,
        with_header(loaded).len() > 0,
        with_header(with_header(loaded)) == with_header(loaded),
{
}

/// Deleting from an empty store leaves it empty.
pub proof fn lemma_delete_of_none(target: Seq<char>)
    ensures
        without_service(Seq::empty(), target) == Seq::<EntryView>::empty(),
{
    reveal(Seq::filter);
}

/// Deleting from a store of one record leaves the record, or nothing if the
/// record has the deleted service.
pub proof fn lemma_delete_of_one(record: EntryView, target: Seq<char>)
    ensures
        without_service(seq![record], target) == if record.service != target {
            seq![record]
        } else {
            Seq::empty()
        },
{
    lemma_delete_of_none(target);
    Seq::empty().lemma_filter_push(record, service_differs(target));
}

/// Deleting looks at each record on its own: what it leaves of two stores put
/// one after the other is what it leaves of the first, followed by what it
/// leaves of the second.
pub proof fn lemma_delete_is_recordwise(
    front: Seq<EntryView>,
    back: Seq<EntryView>,
    target: Seq<char>,
)
    ensures
        without_service(front + back, target) == without_service(front, target)
            + without_service(back, target),
{
    Seq::filter_distributes_over_add(front, back, service_differs(target));
}

/// Deleting a service that no record has leaves the store as it was.
pub proof fn lemma_delete_absent_service(all: Seq<EntryView>, target: Seq<char>)
    requires
        forall|i: int| 0 <= i < all.len() ==> all[i].service != target,
    ensures
        without_service(all, target) == all,
    decreases all.len(),
{
    reveal(Seq::filter);
    if all.len() > 0 {
        lemma_delete_absent_service(all.drop_last(), target);
    }
}

/// After a deletion no record with the deleted service is left, every other
/// record is still there, and the store has not grown.
pub proof fn lemma_delete_removes_every_match(all: Seq<EntryView>, target: Seq<char>)
    ensures
        forall|i: int|
            0 <= i < without_service(all, target).len() ==> (#[trigger] without_service(
                all,
                target,
            )[i]).service != target,
        forall|i: int|
            0 <= i < all.len() && all[i].service != target ==> without_service(
                all,
                target,
            ).contains(#[trigger] all[i]),
        without_service(all, target).len() <= all.len(),
{
    let differs = service_differs(target);
    assert forall|i: int| 0 <= i < all.filter(differs).len() implies (#[trigger] all.filter(
        differs,
    )[i]).service != target by {
        all.lemma_filter_pred(differs, i);
    }
    assert forall|i: int| 0 <= i < all.len() && all[i].service != target implies all.filter(
        differs,
    ).contains(#[trigger] all[i]) by {
        all.lemma_filter_contains(differs, i);
    }
    all.lemma_filter_len(differs);
}

} // verus!
