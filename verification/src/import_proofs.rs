//! What an import does to a directory: the facts that hold of every
//! directory, every record and every batch.

use vstd::prelude::*;
use crate::directory::{
    merged_row, new_row, updated_row, DirectoryView, lemma_insert_keeps_wf, lemma_update_keeps_wf,
};
use crate::import::{
    record_entries, tally, CollegeImportView, Entry, EventView, OutcomeView, Tally, written,
    was_update,
};
use crate::models::{CollegeWithContactView, ContactDetails, NaturalKey};

verus! {

impl DirectoryView {
    /// The contact details stored for a natural key; none where no college
    /// has the key.
    pub open spec fn details_of(self, key: NaturalKey) -> ContactDetails {
        if self.has_key(key) {
            self.rows[self.key_index(key)].details
        } else {
            ContactDetails::none()
        }
    }
}

/// In a well-formed directory a natural key and an id each name one place.
pub proof fn lemma_places_are_unique(directory: DirectoryView, i: int)
    requires
        directory.wf(),
        0 <= i < directory.rows.len(),
    ensures
        directory.has_key(directory.rows[i].college.key()),
        directory.key_index(directory.rows[i].college.key()) == i,
        directory.has_id(directory.rows[i].college.id),
        directory.id_index(directory.rows[i].college.id) == i,
{
    let key = directory.rows[i].college.key();
    let id = directory.rows[i].college.id;
    let k = directory.key_index(key);
    assert(0 <= k < directory.rows.len() && directory.rows[k].college.key() == key);
    if k < i {
        assert(directory.rows[k].college.key() != directory.rows[i].college.key());
    }
    if i < k {
        assert(directory.rows[i].college.key() != directory.rows[k].college.key());
    }
    let n = directory.id_index(id);
    assert(0 <= n < directory.rows.len() && directory.rows[n].college.id == id);
    if n < i {
        assert(directory.rows[n].college.id != directory.rows[i].college.id);
    }
    if i < n {
        assert(directory.rows[i].college.id != directory.rows[n].college.id);
    }
}

/// Replacing the row at `i` by one with the same id and natural key changes
/// neither which keys and ids exist nor where they are.
pub proof fn lemma_update_keeps_places(
    directory: DirectoryView,
    i: int,
    row: CollegeWithContactView,
)
    requires
        directory.wf(),
        0 <= i < directory.rows.len(),
        row.college.id == directory.rows[i].college.id,
        row.college.key() == directory.rows[i].college.key(),
    ensures
        ({
            let after = DirectoryView { rows: directory.rows.update(i, row), ..directory };
            &&& after.wf()
            &&& forall|key: NaturalKey| after.has_key(key) == directory.has_key(key)
            &&& forall|key: NaturalKey|
                directory.has_key(key) ==> after.key_index(key) == directory.key_index(key)
            &&& forall|id: i32| after.has_id(id) == directory.has_id(id)
        }),
{
    let after = DirectoryView { rows: directory.rows.update(i, row), ..directory };
    lemma_update_keeps_wf(directory, i, row);
    assert forall|key: NaturalKey| after.has_key(key) == directory.has_key(key) by {
        if directory.has_key(key) {
            let k = directory.key_index(key);
            assert(after.rows[k].college.key() == key);
        }
        if after.has_key(key) {
            let k = after.key_index(key);
            assert(directory.rows[k].college.key() == key);
        }
    }
    assert forall|key: NaturalKey| directory.has_key(key) implies after.key_index(key)
        == directory.key_index(key) by {
        let k = directory.key_index(key);
        lemma_places_are_unique(directory, k);
        assert(after.rows[k].college.key() == key);
        lemma_places_are_unique(after, k);
    }
    assert forall|id: i32| after.has_id(id) == directory.has_id(id) by {
        if directory.has_id(id) {
            let k = directory.id_index(id);
            assert(after.rows[k].college.id == id);
        }
        if after.has_id(id) {
            let k = after.id_index(id);
            assert(directory.rows[k].college.id == id);
        }
    }
}

/// What the college write does. It keeps the directory well formed and
/// removes no college. It succeeds unless the record is new and no id is
/// left. Where it succeeds, the record's natural key exists afterwards under
/// the reported id, the college is reported as new exactly if its key did
/// not exist before, the number of colleges grows by one exactly then, and
/// the contact details stored for every key are what they were.
pub proof fn lemma_college_write(directory: DirectoryView, record: CollegeImportView)
    requires
        directory.wf(),
    ensures
        ({
            let (after, event) = directory.college_written(record);
            let key = record.key();
            &&& after.wf()
            &&& forall|k: NaturalKey| directory.has_key(k) ==> after.has_key(k)
            &&& forall|k: NaturalKey| after.has_key(k) ==> directory.has_key(k) || k == key
            &&& forall|k: NaturalKey| after.details_of(k) == directory.details_of(k)
            &&& event is Failed <==> !directory.has_key(key) && directory.next_id == i32::MAX
            &&& event is Failed ==> after == directory
            &&& event matches EventView::CollegeWritten { id, was_insert } ==> {
                &&& after.has_key(key)
                &&& after.has_id(id)
                &&& after.id_index(id) == after.key_index(key)
                &&& was_insert == Some(!directory.has_key(key))
                &&& after.rows.len() == directory.rows.len() + if directory.has_key(key) {
                    0int
                } else {
                    1int
                }
            }
            &&& !(event is Start) && !(event is ContactWritten)
        }),
{
    let (after, event) = directory.college_written(record);
    let key = record.key();
    if directory.has_key(key) {
        let i = directory.key_index(key);
        let row = updated_row(directory.rows[i], record);
        lemma_update_keeps_places(directory, i, row);
        lemma_places_are_unique(after, i);
        assert forall|k: NaturalKey| after.details_of(k) == directory.details_of(k) by {
            if directory.has_key(k) {
                let n = directory.key_index(k);
                assert(after.rows[n].details == directory.rows[n].details);
            }
        }
    } else if directory.next_id < i32::MAX {
        lemma_insert_keeps_wf(directory, record);
        let last = directory.rows.len() as int;
        assert(after.rows[last] == new_row(directory.next_id, record));
        lemma_places_are_unique(after, last);
        assert forall|k: NaturalKey| directory.has_key(k) implies after.has_key(k) by {
            let n = directory.key_index(k);
            assert(after.rows[n].college.key() == k);
        }
        assert forall|k: NaturalKey| after.has_key(k) implies directory.has_key(k) || k == key by {
            let n = after.key_index(k);
            if n < last {
                assert(directory.rows[n].college.key() == k);
            }
        }
        assert forall|k: NaturalKey| after.details_of(k) == directory.details_of(k) by {
            if directory.has_key(k) {
                let n = directory.key_index(k);
                lemma_places_are_unique(directory, n);
                assert(after.rows[n].college.key() == k);
                lemma_places_are_unique(after, n);
            } else if after.has_key(k) {
                let n = after.key_index(k);
                if n < last {
                    assert(directory.rows[n].college.key() == k);
                }
            }
        }
    }
}

/// What the contact write does to a college that exists: it keeps the
/// directory well formed, keeps every college, key and id where it is,
/// merges the incoming details into those of the college, and leaves the
/// details of every other college as they were.
pub proof fn lemma_contact_write(directory: DirectoryView, id: i32, incoming: ContactDetails)
    requires
        directory.wf(),
        directory.has_id(id),
    ensures
        ({
            let (after, event) = directory.contact_written(id, incoming);
            let i = directory.id_index(id);
            let key = directory.rows[i].college.key();
            &&& event == EventView::ContactWritten
            &&& after.wf()
            &&& after.rows.len() == directory.rows.len()
            &&& forall|k: NaturalKey| after.has_key(k) == directory.has_key(k)
            &&& after.details_of(key) == directory.details_of(key).merged_with(incoming)
            &&& forall|k: NaturalKey| k != key ==> after.details_of(k) == directory.details_of(k)
        }),
{
    let (after, event) = directory.contact_written(id, incoming);
    let i = directory.id_index(id);
    let key = directory.rows[i].college.key();
    let row = merged_row(directory.rows[i], incoming);
    lemma_update_keeps_places(directory, i, row);
    lemma_places_are_unique(directory, i);
    lemma_places_are_unique(after, i);
    assert forall|k: NaturalKey| k != key implies after.details_of(k) == directory.details_of(
        k,
    ) by {
        if directory.has_key(k) {
            let n = directory.key_index(k);
            assert(n != i);
            assert(after.rows[n].details == directory.rows[n].details);
        }
    }
}

/// The import of one record, written out: the college write, then the
/// contact write if the record brings contact details.
pub proof fn lemma_record_import_unfolds(directory: DirectoryView, record: CollegeImportView)
    ensures
        directory.record_imported(record) == ({
            let (first, event) = directory.college_written(record);
            match event {
                EventView::CollegeWritten { id, was_insert } => {
                    if record.contact.any() {
                        let (second, answer) = first.contact_written(id, record.contact);
                        match answer {
                            EventView::ContactWritten => (second, written(was_update(was_insert))),
                            EventView::Failed(cause) => (second, OutcomeView::Failed(cause)),
                            _ => (
                                second,
                                OutcomeView::Failed(crate::import::unexpected_event_message()),
                            ),
                        }
                    } else {
                        (first, written(was_update(was_insert)))
                    }
                },
                EventView::Failed(cause) => (first, OutcomeView::Failed(cause)),
                _ => (first, OutcomeView::Failed(crate::import::unexpected_event_message())),
            }
        }),
{
    reveal_with_fuel(DirectoryView::performed, 4);
}

/// What the import of one record does. It keeps the directory well formed
/// and removes no college. It fails only where the record is new and no id
/// is left. Where it succeeds, the record counts as updated exactly if its
/// natural key existed before and as inserted otherwise, the number of
/// colleges grows by one exactly if it was inserted, the details stored for
/// the record's key are the former ones merged with the record's, and the
/// details of every other college are what they were.
pub proof fn lemma_record_import(directory: DirectoryView, record: CollegeImportView)
    requires
        directory.wf(),
    ensures
        ({
            let (after, outcome) = directory.record_imported(record);
            let key = record.key();
            &&& after.wf()
            &&& forall|k: NaturalKey| directory.has_key(k) ==> after.has_key(k)
            &&& forall|k: NaturalKey| after.has_key(k) ==> directory.has_key(k) || k == key
            &&& outcome is Failed <==> !directory.has_key(key) && directory.next_id == i32::MAX
            &&& outcome is Failed ==> after == directory
            &&& !(outcome is Failed) ==> {
                &&& after.has_key(key)
                &&& outcome == written(directory.has_key(key))
                &&& after.rows.len() == directory.rows.len() + if directory.has_key(key) {
                    0int
                } else {
                    1int
                }
                &&& after.details_of(key) == directory.details_of(key).merged_with(record.contact)
            }
            &&& forall|k: NaturalKey| k != key ==> after.details_of(k) == directory.details_of(k)
        }),
{
    lemma_record_import_unfolds(directory, record);
    lemma_college_write(directory, record);
    let (first, event) = directory.college_written(record);
    let key = record.key();
    if let EventView::CollegeWritten { id, was_insert } = event {
        if record.contact.any() {
            lemma_contact_write(first, id, record.contact);
            let i = first.id_index(id);
            lemma_places_are_unique(first, i);
            assert(first.rows[i].college.key() == key);
        } else {
            assert(first.details_of(key).merged_with(record.contact) == first.details_of(key));
        }
    }
}

/// Whether every record of a batch was written.
pub open spec fn none_failed(outcomes: Seq<OutcomeView>) -> bool {
    forall|i: int| 0 <= i < outcomes.len() ==> !((#[trigger] outcomes[i]) is Failed)
}

/// Whether every record of a batch was an update.
pub open spec fn all_updated(outcomes: Seq<OutcomeView>) -> bool {
    forall|i: int| 0 <= i < outcomes.len() ==> (#[trigger] outcomes[i]) == OutcomeView::Updated
}

/// Whether the natural key of every record of a batch exists.
pub open spec fn all_keys_exist(directory: DirectoryView, batch: Seq<CollegeImportView>) -> bool {
    forall|i: int| 0 <= i < batch.len() ==> directory.has_key((#[trigger] batch[i]).key())
}

/// What the import of a batch does. It keeps the directory well formed,
/// removes no college, and gives one outcome for each record, in input
/// order. The key of every record that was written exists afterwards.
pub proof fn lemma_batch_import(directory: DirectoryView, batch: Seq<CollegeImportView>)
    requires
        directory.wf(),
    ensures
        ({
            let (after, outcomes) = directory.batch_imported(batch);
            &&& after.wf()
            &&& outcomes.len() == batch.len()
            &&& after.rows.len() >= directory.rows.len()
            &&& forall|k: NaturalKey| directory.has_key(k) ==> after.has_key(k)
            &&& forall|i: int|
                0 <= i < batch.len() && !((#[trigger] outcomes[i]) is Failed) ==> after.has_key(
                    batch[i].key(),
                )
        }),
    decreases batch.len(),
{
    if batch.len() > 0 {
        let (before, earlier) = directory.batch_imported(batch.drop_last());
        lemma_batch_import(directory, batch.drop_last());
        lemma_record_import(before, batch.last());
        let (after, outcomes) = directory.batch_imported(batch);
        assert forall|i: int|
            0 <= i < batch.len() && !((#[trigger] outcomes[i]) is Failed) implies after.has_key(
            batch[i].key(),
        ) by {
            if i < batch.len() - 1 {
                assert(outcomes[i] == earlier[i]);
                assert(batch.drop_last()[i] == batch[i]);
                assert(before.has_key(batch[i].key()));
            }
        }
    }
}

/// A batch whose records all exist is all updates: no record fails, every
/// outcome is `Updated`, and the directory has as many colleges as before,
/// under the same keys.
pub proof fn lemma_import_of_existing_records(
    directory: DirectoryView,
    batch: Seq<CollegeImportView>,
)
    requires
        directory.wf(),
        all_keys_exist(directory, batch),
    ensures
        ({
            let (after, outcomes) = directory.batch_imported(batch);
            &&& after.wf()
            &&& outcomes.len() == batch.len()
            &&& all_updated(outcomes)
            &&& after.rows.len() == directory.rows.len()
            &&& forall|k: NaturalKey| after.has_key(k) == directory.has_key(k)
        }),
    decreases batch.len(),
{
    if batch.len() > 0 {
        let earlier = batch.drop_last();
        assert forall|i: int| 0 <= i < earlier.len() implies directory.has_key(
            (#[trigger] earlier[i]).key(),
        ) by {
            assert(earlier[i] == batch[i]);
        }
        lemma_import_of_existing_records(directory, earlier);
        let (before, _) = directory.batch_imported(earlier);
        assert(directory.has_key(batch[batch.len() - 1].key()));
        lemma_record_import(before, batch.last());
    }
}

/// Importing is idempotent. Where a batch was imported and none of its
/// records failed, importing the same batch again adds no college, and every
/// record of the second run counts as updated.
pub proof fn lemma_second_import_only_updates(
    directory: DirectoryView,
    batch: Seq<CollegeImportView>,
)
    requires
        directory.wf(),
        none_failed(directory.batch_imported(batch).1),
    ensures
        ({
            let (first, _) = directory.batch_imported(batch);
            let (second, outcomes) = first.batch_imported(batch);
            &&& outcomes.len() == batch.len()
            &&& all_updated(outcomes)
            &&& second.rows.len() == first.rows.len()
            &&& forall|k: NaturalKey| second.has_key(k) == first.has_key(k)
            &&& tally(record_entries(outcomes)) == (Tally {
                inserted: 0,
                updated: batch.len(),
                errors: seq![],
            })
        }),
{
    let (first, outcomes) = directory.batch_imported(batch);
    lemma_batch_import(directory, batch);
    assert forall|i: int| 0 <= i < batch.len() implies first.has_key((#[trigger] batch[i]).key()) by {
        assert(!(outcomes[i] is Failed));
    }
    lemma_import_of_existing_records(first, batch);
    lemma_tally_of_updates(first.batch_imported(batch).1);
}

/// The summary of a batch of updates: nothing inserted, every record
/// updated, no error.
pub proof fn lemma_tally_of_updates(outcomes: Seq<OutcomeView>)
    requires
        all_updated(outcomes),
    ensures
        tally(record_entries(outcomes)) == (Tally {
            inserted: 0,
            updated: outcomes.len(),
            errors: seq![],
        }),
    decreases outcomes.len(),
{
    let entries = record_entries(outcomes);
    if outcomes.len() > 0 {
        let earlier = outcomes.drop_last();
        assert(record_entries(earlier) =~= entries.drop_last());
        assert(entries.last() == Entry::Updated) by {
            assert(outcomes[outcomes.len() - 1] == OutcomeView::Updated);
        }
        assert forall|i: int| 0 <= i < earlier.len() implies (#[trigger] earlier[i])
            == OutcomeView::Updated by {
            assert(outcomes[i] == OutcomeView::Updated);
        }
        lemma_tally_of_updates(earlier);
    }
}

/// Contact details are merged, not overwritten. Where two records with the
/// same natural key are imported one after the other and both are written,
/// a detail that only the first record brings is kept, and a detail that
/// the second record brings is stored: of phone and email, for one, a
/// college imported with a phone only and then with an email only has both.
pub proof fn lemma_contact_details_accumulate(
    directory: DirectoryView,
    first: CollegeImportView,
    second: CollegeImportView,
)
    requires
        directory.wf(),
        first.key() == second.key(),
        !(directory.record_imported(first).1 is Failed),
    ensures
        ({
            let (after_first, _) = directory.record_imported(first);
            let (after_second, outcome) = after_first.record_imported(second);
            let stored = after_second.details_of(first.key());
            &&& outcome == OutcomeView::Updated
            &&& after_second.rows.len() == after_first.rows.len()
            &&& stored == directory.details_of(first.key()).merged_with(first.contact).merged_with(
                second.contact,
            )
            &&& first.contact.phone is Some && second.contact.phone is None ==> stored.phone
                == first.contact.phone
            &&& second.contact.email is Some ==> stored.email == second.contact.email
        }),
{
    lemma_record_import(directory, first);
    let (after_first, _) = directory.record_imported(first);
    lemma_record_import(after_first, second);
}

/// An import loses no contact detail. After a batch, every college has
/// every detail that it had before, and the colleges of the records that
/// were written have every detail that their records brought.
pub proof fn lemma_import_loses_no_detail(directory: DirectoryView, batch: Seq<CollegeImportView>)
    requires
        directory.wf(),
    ensures
        ({
            let (after, outcomes) = directory.batch_imported(batch);
            &&& forall|k: NaturalKey|
                #![trigger after.details_of(k)]
                after.details_of(k).covers(directory.details_of(k))
            &&& forall|i: int|
                0 <= i < batch.len() && !((#[trigger] outcomes[i]) is Failed) ==> after.details_of(
                    batch[i].key(),
                ).covers(batch[i].contact)
        }),
    decreases batch.len(),
{
    if batch.len() > 0 {
        let earlier = batch.drop_last();
        let record = batch.last();
        let (before, outcomes_before) = directory.batch_imported(earlier);
        let (after, outcomes) = directory.batch_imported(batch);
        lemma_import_loses_no_detail(directory, earlier);
        lemma_batch_import(directory, earlier);
        lemma_record_import(before, record);
        assert forall|k: NaturalKey| #![trigger after.details_of(k)] after.details_of(k).covers(
            directory.details_of(k),
        ) by {
            assert(before.details_of(k).covers(directory.details_of(k)));
        }
        assert forall|i: int|
            0 <= i < batch.len() && !((#[trigger] outcomes[i]) is Failed) implies after.details_of(
            batch[i].key(),
        ).covers(batch[i].contact) by {
            if i < batch.len() - 1 {
                assert(outcomes[i] == outcomes_before[i]);
                assert(earlier[i] == batch[i]);
                assert(before.details_of(batch[i].key()).covers(batch[i].contact));
            }
        }
    }
}

/// A stored row after the import of a record with its natural key: the
/// college fields updated, then the contact details merged.
pub open spec fn absorbed(
    row: CollegeWithContactView,
    record: CollegeImportView,
) -> CollegeWithContactView {
    merged_row(updated_row(row, record), record.contact)
}

/// A stored row after the import of a batch into a directory that has the
/// row's college: every record with the row's natural key absorbed in input
/// order, every other record passed over.
pub open spec fn absorbed_all(
    row: CollegeWithContactView,
    batch: Seq<CollegeImportView>,
) -> CollegeWithContactView
    decreases batch.len(),
{
    if batch.len() == 0 {
        row
    } else if batch.last().key() == row.college.key() {
        absorbed(absorbed_all(row, batch.drop_last()), batch.last())
    } else {
        absorbed_all(row, batch.drop_last())
    }
}

/// The contact details that a batch brings for a natural key, merged in input order.
pub open spec fn details_brought(batch: Seq<CollegeImportView>, key: NaturalKey) -> ContactDetails
    decreases batch.len(),
{
    if batch.len() == 0 {
        ContactDetails::none()
    } else if batch.last().key() == key {
        details_brought(batch.drop_last(), key).merged_with(batch.last().contact)
    } else {
        details_brought(batch.drop_last(), key)
    }
}

/// Whether a batch has a record with the natural key.
pub open spec fn brings(batch: Seq<CollegeImportView>, key: NaturalKey) -> bool {
    exists|i: int| 0 <= i < batch.len() && (#[trigger] batch[i]).key() == key
}

/// Merging is associative, merging nothing changes nothing, and merging the
/// same details twice is merging them once.
pub proof fn lemma_merge_laws(a: ContactDetails, b: ContactDetails, c: ContactDetails)
    ensures
        a.merged_with(b).merged_with(c) == a.merged_with(b.merged_with(c)),
        a.merged_with(ContactDetails::none()) == a,
        ContactDetails::none().merged_with(a) == a,
        a.merged_with(b).merged_with(b) == a.merged_with(b),
{
}

/// What a batch does to a row. The id and the natural key stay. The contact
/// details are the row's, merged with what the batch brings for its key. The
/// college fields are those of the last record with the row's key, whatever
/// the row held; a batch without such a record leaves the row as it is.
pub proof fn lemma_absorbed_all(
    row: CollegeWithContactView,
    other: CollegeWithContactView,
    batch: Seq<CollegeImportView>,
)
    requires
        row.college.key() == other.college.key(),
        row.college.id == other.college.id,
    ensures
        absorbed_all(row, batch).college.key() == row.college.key(),
        absorbed_all(row, batch).college.id == row.college.id,
        absorbed_all(row, batch).details == row.details.merged_with(
            details_brought(batch, row.college.key()),
        ),
        brings(batch, row.college.key()) ==> absorbed_all(row, batch).college == absorbed_all(
            other,
            batch,
        ).college,
        !brings(batch, row.college.key()) ==> absorbed_all(row, batch) == row,
    decreases batch.len(),
{
    let key = row.college.key();
    if batch.len() > 0 {
        let earlier = batch.drop_last();
        lemma_absorbed_all(row, other, earlier);
        lemma_absorbed_all(other, row, earlier);
        lemma_merge_laws(
            row.details,
            details_brought(earlier, key),
            batch.last().contact,
        );
        if batch.last().key() == key {
            assert(batch[batch.len() - 1].key() == key);
        } else {
            if brings(batch, key) {
                let i = choose|i: int| 0 <= i < batch.len() && (#[trigger] batch[i]).key() == key;
                assert(earlier[i].key() == key);
            }
            if brings(earlier, key) {
                let i = choose|i: int|
                    0 <= i < earlier.len() && (#[trigger] earlier[i]).key() == key;
                assert(batch[i].key() == key);
            }
        }
    } else {
        lemma_merge_laws(row.details, ContactDetails::none(), ContactDetails::none());
    }
}

/// The import of a record whose natural key exists, row by row: the row of
/// the key absorbs the record, every other row and the next id stay.
pub proof fn lemma_import_of_existing_record(directory: DirectoryView, record: CollegeImportView)
    requires
        directory.wf(),
        directory.has_key(record.key()),
    ensures
        ({
            let i = directory.key_index(record.key());
            directory.record_imported(record).0 == (DirectoryView {
                rows: directory.rows.update(i, absorbed(directory.rows[i], record)),
                ..directory
            })
        }),
{
    lemma_record_import_unfolds(directory, record);
    lemma_college_write(directory, record);
    let i = directory.key_index(record.key());
    let (first, event) = directory.college_written(record);
    let id = directory.rows[i].college.id;
    lemma_places_are_unique(directory, i);
    lemma_places_are_unique(first, i);
    lemma_merge_laws(directory.rows[i].details, record.contact, record.contact);
    if record.contact.any() {
        assert(first.id_index(id) == i);
        let (second, _) = first.contact_written(id, record.contact);
        assert(second.rows =~= directory.rows.update(i, absorbed(directory.rows[i], record)));
    } else {
        assert(record.contact == ContactDetails::none());
        assert(absorbed(directory.rows[i], record) == updated_row(directory.rows[i], record));
    }
}

/// The import of a record whose natural key is new, where an id is left:
/// one row more, with the record's fields and details under the next id.
pub proof fn lemma_import_of_new_record(directory: DirectoryView, record: CollegeImportView)
    requires
        directory.wf(),
        !directory.has_key(record.key()),
        directory.next_id < i32::MAX,
    ensures
        directory.record_imported(record).0 == (DirectoryView {
            rows: directory.rows.push(absorbed(new_row(directory.next_id, record), record)),
            next_id: (directory.next_id + 1) as i32,
        }),
{
    lemma_record_import_unfolds(directory, record);
    lemma_college_write(directory, record);
    let (first, event) = directory.college_written(record);
    let id = directory.next_id;
    let last = directory.rows.len() as int;
    lemma_places_are_unique(first, last);
    assert(updated_row(new_row(id, record), record) == new_row(id, record));
    lemma_merge_laws(ContactDetails::none(), record.contact, record.contact);
    if record.contact.any() {
        assert(first.id_index(id) == last);
        let (second, _) = first.contact_written(id, record.contact);
        assert(second.rows =~= directory.rows.push(absorbed(new_row(id, record), record)));
    } else {
        assert(record.contact == ContactDetails::none());
        assert(absorbed(new_row(id, record), record) == new_row(id, record));
    }
}

/// The import of a batch whose records all exist, row by row: every row
/// absorbs the records of the batch that have its key; no row is added and
/// the next id stays.
pub proof fn lemma_import_of_existing_records_by_row(
    directory: DirectoryView,
    batch: Seq<CollegeImportView>,
)
    requires
        directory.wf(),
        all_keys_exist(directory, batch),
    ensures
        ({
            let after = directory.batch_imported(batch).0;
            &&& after.wf()
            &&& after.next_id == directory.next_id
            &&& after.rows.len() == directory.rows.len()
            &&& forall|n: int|
                0 <= n < directory.rows.len() ==> #[trigger] after.rows[n] == absorbed_all(
                    directory.rows[n],
                    batch,
                )
        }),
    decreases batch.len(),
{
    if batch.len() > 0 {
        let earlier = batch.drop_last();
        let record = batch.last();
        assert forall|i: int| 0 <= i < earlier.len() implies directory.has_key(
            (#[trigger] earlier[i]).key(),
        ) by {
            assert(earlier[i] == batch[i]);
        }
        lemma_import_of_existing_records_by_row(directory, earlier);
        lemma_import_of_existing_records(directory, earlier);
        let before = directory.batch_imported(earlier).0;
        assert(directory.has_key(batch[batch.len() - 1].key()));
        assert(before.has_key(record.key()));
        lemma_import_of_existing_record(before, record);
        let i = before.key_index(record.key());
        let after = directory.batch_imported(batch).0;
        assert forall|n: int| 0 <= n < directory.rows.len() implies #[trigger] after.rows[n]
            == absorbed_all(directory.rows[n], batch) by {
            lemma_absorbed_all(directory.rows[n], directory.rows[n], earlier);
            assert(before.rows[n] == absorbed_all(directory.rows[n], earlier));
            lemma_places_are_unique(before, n);
        }
    }
}

/// Whether every row of a directory already holds what a batch would write to it.
pub open spec fn holds_batch(directory: DirectoryView, batch: Seq<CollegeImportView>) -> bool {
    forall|n: int|
        0 <= n < directory.rows.len() ==> absorbed_all(#[trigger] directory.rows[n], batch)
            == directory.rows[n]
}

/// A row that holds a batch still holds it, extended by one record, after
/// absorbing that record.
proof fn lemma_absorbing_keeps_hold(
    row: CollegeWithContactView,
    batch: Seq<CollegeImportView>,
    record: CollegeImportView,
)
    requires
        absorbed_all(row, batch) == row,
        record.key() == row.college.key(),
    ensures
        absorbed_all(absorbed(row, record), batch.push(record)) == absorbed(row, record),
{
    let taken = absorbed(row, record);
    let extended = batch.push(record);
    assert(extended.drop_last() =~= batch);
    assert(extended.last() == record);
    lemma_absorbed_all(taken, row, batch);
    lemma_absorbed_all(row, taken, batch);
    let brought = details_brought(batch, row.college.key());
    lemma_merge_laws(row.details, record.contact, brought);
    lemma_merge_laws(row.details, brought, record.contact);
    lemma_merge_laws(row.details.merged_with(record.contact), brought, record.contact);
    let again = absorbed(absorbed_all(taken, batch), record);
    assert(again.college == taken.college);
    assert(again.details == taken.details) by {
        assert(row.details.merged_with(brought) == row.details);
    }
}

/// After a batch was imported and none of its records failed, every row of
/// the directory holds what the batch would write to it.
pub proof fn lemma_imported_batch_is_held(directory: DirectoryView, batch: Seq<CollegeImportView>)
    requires
        directory.wf(),
        none_failed(directory.batch_imported(batch).1),
    ensures
        holds_batch(directory.batch_imported(batch).0, batch),
    decreases batch.len(),
{
    if batch.len() > 0 {
        let earlier = batch.drop_last();
        let record = batch.last();
        let (before, outcomes_before) = directory.batch_imported(earlier);
        let (after, outcomes) = directory.batch_imported(batch);
        assert(batch =~= earlier.push(record));
        assert forall|i: int| 0 <= i < outcomes_before.len() implies !((
        #[trigger] outcomes_before[i]) is Failed) by {
            assert(outcomes[i] == outcomes_before[i]);
        }
        lemma_imported_batch_is_held(directory, earlier);
        lemma_batch_import(directory, earlier);
        lemma_record_import(before, record);
        assert(!(outcomes[outcomes.len() - 1] is Failed));
        if before.has_key(record.key()) {
            lemma_import_of_existing_record(before, record);
            let i = before.key_index(record.key());
            assert forall|n: int| 0 <= n < after.rows.len() implies absorbed_all(
                #[trigger] after.rows[n],
                batch,
            ) == after.rows[n] by {
                if n == i {
                    lemma_absorbing_keeps_hold(before.rows[i], earlier, record);
                } else {
                    lemma_places_are_unique(before, n);
                    assert(before.rows[n].college.key() != record.key());
                    assert(absorbed_all(before.rows[n], earlier) == before.rows[n]);
                }
            }
        } else {
            lemma_import_of_new_record(before, record);
            let fresh = new_row(before.next_id, record);
            assert forall|n: int| 0 <= n < after.rows.len() implies absorbed_all(
                #[trigger] after.rows[n],
                batch,
            ) == after.rows[n] by {
                if n < before.rows.len() {
                    assert(before.rows[n].college.key() != record.key());
                    assert(absorbed_all(before.rows[n], earlier) == before.rows[n]);
                } else {
                    // No earlier record has the new key: each of them was
                    // written, so its key exists, and the new key does not.
                    if brings(earlier, record.key()) {
                        let i = choose|i: int|
                            0 <= i < earlier.len() && (#[trigger] earlier[i]).key()
                                == record.key();
                        assert(!(outcomes_before[i] is Failed));
                        assert(before.has_key(earlier[i].key()));
                    }
                    lemma_absorbed_all(fresh, fresh, earlier);
                    assert(absorbed_all(fresh, earlier) == fresh);
                    lemma_absorbing_keeps_hold(fresh, earlier, record);
                }
            }
        }
    }
}

/// Importing is a fixed point. Where a batch was imported and none of its
/// records failed, importing the same batch again leaves the directory
/// exactly as it is: no row is added, none is lost, and every field and
/// every contact detail keeps its value.
pub proof fn lemma_second_import_changes_nothing(
    directory: DirectoryView,
    batch: Seq<CollegeImportView>,
)
    requires
        directory.wf(),
        none_failed(directory.batch_imported(batch).1),
    ensures
        ({
            let first = directory.batch_imported(batch).0;
            first.batch_imported(batch).0 == first
        }),
{
    let (first, outcomes) = directory.batch_imported(batch);
    lemma_batch_import(directory, batch);
    assert forall|i: int| 0 <= i < batch.len() implies first.has_key((#[trigger] batch[i]).key()) by {
        assert(!(outcomes[i] is Failed));
    }
    lemma_imported_batch_is_held(directory, batch);
    lemma_import_of_existing_records_by_row(first, batch);
    let second = first.batch_imported(batch).0;
    assert(second.rows =~= first.rows);
}

} // verus!
