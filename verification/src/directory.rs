//! An in-memory directory with the write semantics of the relational store.
//!
//! It keeps each college joined with its contact details and answers the two
//! import writes the way the store does: the college write inserts under a
//! fresh id or updates the row that has the natural key, the contact write
//! merges the details into the row of the college. What an import does to a
//! store is stated against this model, and tests run imports against it.

use vstd::prelude::*;
use vstd::string::StringExecFns;
use crate::errors::{ApiError, ApiErrorView};
use crate::import::{
    advance, next_step, outcome_views, record_entries, steps_left, summarize_records, tally,
    unexpected_event_message, ActionView, CollegeImport, CollegeImportView, EventView,
    OutcomeView, RecordAction, RecordOutcome, RecordState, StorageEvent, UploadResponse,
};
use crate::models::{
    coalesce, copy_opt_text, opt_text, CollegeView, CollegeWithContact, CollegeWithContactView,
    ContactDetails, NaturalKey,
};

verus! {

/// The colleges of a directory, each with its contact details, and the id
/// that the next new college gets.
pub struct DirectoryView {
    pub rows: Seq<CollegeWithContactView>,
    pub next_id: i32,
}

/// The row of a new college: the record's fields and no contact details.
pub open spec fn new_row(id: i32, record: CollegeImportView) -> CollegeWithContactView {
    CollegeWithContactView {
        college: CollegeView {
            id,
            name: record.name,
            category: record.category,
            district: record.district,
            city: record.city,
            college_type: record.college_type,
            autonomous: record.autonomous,
            minority: record.minority,
            hostel_available: record.hostel_available,
            established_year: record.established_year,
        },
        details: ContactDetails::none(),
    }
}

/// A stored row after an update by a record with the same natural key: the
/// id and the key stay, every other college field is the record's, the
/// contact details are untouched.
pub open spec fn updated_row(
    row: CollegeWithContactView,
    record: CollegeImportView,
) -> CollegeWithContactView {
    CollegeWithContactView {
        college: CollegeView {
            category: record.category,
            college_type: record.college_type,
            autonomous: record.autonomous,
            minority: record.minority,
            hostel_available: record.hostel_available,
            established_year: record.established_year,
            ..row.college
        },
        details: row.details,
    }
}

/// A stored row after a contact write: the details merged, the college untouched.
pub open spec fn merged_row(
    row: CollegeWithContactView,
    incoming: ContactDetails,
) -> CollegeWithContactView {
    CollegeWithContactView { college: row.college, details: row.details.merged_with(incoming) }
}

/// Why a college write fails in a directory that has used up its ids.
pub open spec fn ids_exhausted_message() -> Seq<char> {
    "no id left for a new college"@
}

/// Why a contact write fails for an id that no college has.
pub open spec fn missing_college_message() -> Seq<char> {
    "contact details refer to a college that does not exist"@
}

impl DirectoryView {
    /// The directory without colleges; the first id is 1.
    pub open spec fn empty() -> DirectoryView {
        DirectoryView { rows: seq![], next_id: 1 }
    }

    /// Ids are positive, below the next id and used once; natural keys are used once.
    pub open spec fn wf(self) -> bool {
        &&& 1 <= self.next_id
        &&& forall|i: int|
            0 <= i < self.rows.len() ==> 1 <= (#[trigger] self.rows[i]).college.id < self.next_id
        &&& forall|i: int, j: int|
            #![trigger self.rows[i], self.rows[j]]
            0 <= i < j < self.rows.len() ==> self.rows[i].college.id != self.rows[j].college.id
        &&& forall|i: int, j: int|
            #![trigger self.rows[i], self.rows[j]]
            0 <= i < j < self.rows.len() ==> self.rows[i].college.key()
                != self.rows[j].college.key()
    }

    /// Whether a college with the natural key exists.
    pub open spec fn has_key(self, key: NaturalKey) -> bool {
        exists|i: int| 0 <= i < self.rows.len() && (#[trigger] self.rows[i]).college.key() == key
    }

    /// The place of the college with the natural key, where one exists.
    pub open spec fn key_index(self, key: NaturalKey) -> int {
        choose|i: int| 0 <= i < self.rows.len() && (#[trigger] self.rows[i]).college.key() == key
    }

    /// Whether a college with the id exists.
    pub open spec fn has_id(self, id: i32) -> bool {
        exists|i: int| 0 <= i < self.rows.len() && (#[trigger] self.rows[i]).college.id == id
    }

    /// The place of the college with the id, where one exists.
    pub open spec fn id_index(self, id: i32) -> int {
        choose|i: int| 0 <= i < self.rows.len() && (#[trigger] self.rows[i]).college.id == id
    }

    /// The college write: the directory after it, and the store's answer.
    /// A college with the record's natural key is updated in place and
    /// reported as not new. Else the record becomes a new college with the
    /// next id and is reported as new; where no id is left, nothing is
    /// written and the write fails.
    pub open spec fn college_written(self, record: CollegeImportView) -> (
        DirectoryView,
        EventView,
    ) {
        if self.has_key(record.key()) {
            let i = self.key_index(record.key());
            (
                DirectoryView {
                    rows: self.rows.update(i, updated_row(self.rows[i], record)),
                    ..self
                },
                EventView::CollegeWritten { id: self.rows[i].college.id, was_insert: Some(false) },
            )
        } else if self.next_id < i32::MAX {
            (
                DirectoryView {
                    rows: self.rows.push(new_row(self.next_id, record)),
                    next_id: (self.next_id + 1) as i32,
                },
                EventView::CollegeWritten { id: self.next_id, was_insert: Some(true) },
            )
        } else {
            (self, EventView::Failed(ids_exhausted_message()))
        }
    }

    /// The contact write: the directory after it, and the store's answer.
    /// The details are merged into those of the college with the id; where
    /// no such college exists, nothing is written and the write fails.
    pub open spec fn contact_written(self, college_id: i32, incoming: ContactDetails) -> (
        DirectoryView,
        EventView,
    ) {
        if self.has_id(college_id) {
            let i = self.id_index(college_id);
            (
                DirectoryView { rows: self.rows.update(i, merged_row(self.rows[i], incoming)), ..self },
                EventView::ContactWritten,
            )
        } else {
            (self, EventView::Failed(missing_college_message()))
        }
    }

    /// Carries out `action` for a record in state `state`, hands the answer
    /// to the record machine, and goes on until the record is done. Gives the
    /// directory after it and how the record ended.
    pub open spec fn performed(
        self,
        state: RecordState,
        action: ActionView,
        record: CollegeImportView,
    ) -> (DirectoryView, OutcomeView)
        decreases steps_left(state),
    {
        match action {
            ActionView::Complete(outcome) => (self, outcome),
            ActionView::WriteCollege => {
                let (after, event) = self.college_written(record);
                let (state_after, next) = next_step(state, record, event);
                if steps_left(state_after) < steps_left(state) {
                    after.performed(state_after, next, record)
                } else {
                    (after, OutcomeView::Failed(unexpected_event_message()))
                }
            },
            ActionView::WriteContact { college_id } => {
                let (after, event) = self.contact_written(college_id, record.contact);
                let (state_after, next) = next_step(state, record, event);
                if steps_left(state_after) < steps_left(state) {
                    after.performed(state_after, next, record)
                } else {
                    (after, OutcomeView::Failed(unexpected_event_message()))
                }
            },
        }
    }

    /// The import of one record: the record machine run from its start
    /// against this directory.
    pub open spec fn record_imported(self, record: CollegeImportView) -> (
        DirectoryView,
        OutcomeView,
    ) {
        let (state, action) = next_step(RecordState::Fresh, record, EventView::Start);
        self.performed(state, action, record)
    }

    /// The import of a batch: its records imported one after the other, in
    /// input order, each into what the ones before it left. Gives the
    /// directory after the last record and the outcomes in input order.
    pub open spec fn batch_imported(self, batch: Seq<CollegeImportView>) -> (
        DirectoryView,
        Seq<OutcomeView>,
    )
        decreases batch.len(),
    {
        if batch.len() == 0 {
            (self, seq![])
        } else {
            let (before, outcomes) = self.batch_imported(batch.drop_last());
            let (after, outcome) = before.record_imported(batch.last());
            (after, outcomes.push(outcome))
        }
    }
}

/// The views of a batch.
pub open spec fn record_views(batch: Seq<CollegeImport>) -> Seq<CollegeImportView> {
    batch.map_values(|record: CollegeImport| record@)
}

/// The views of stored rows.
pub open spec fn row_views(rows: Seq<CollegeWithContact>) -> Seq<CollegeWithContactView> {
    rows.map_values(|row: CollegeWithContact| row@)
}

/// An in-memory directory of colleges.
pub struct Directory {
    rows: Vec<CollegeWithContact>,
    next_id: i32,
}

impl View for Directory {
    type V = DirectoryView;

    closed spec fn view(&self) -> DirectoryView {
        DirectoryView { rows: row_views(self.rows@), next_id: self.next_id }
    }
}

fn copy_row(row: &CollegeWithContact) -> (copy: CollegeWithContact)
    ensures
        copy@ == row@,
{
    CollegeWithContact {
        id: row.id,
        name: row.name.clone(),
        category: row.category.clone(),
        district: row.district.clone(),
        city: row.city.clone(),
        college_type: row.college_type.clone(),
        autonomous: row.autonomous,
        minority: row.minority,
        hostel_available: row.hostel_available,
        established_year: row.established_year,
        phone: copy_opt_text(&row.phone),
        email: copy_opt_text(&row.email),
        website: copy_opt_text(&row.website),
        address: copy_opt_text(&row.address),
        pincode: copy_opt_text(&row.pincode),
    }
}

fn merge_detail(incoming: &Option<String>, stored: &Option<String>) -> (merged: Option<String>)
    ensures
        opt_text(merged) == coalesce(opt_text(*incoming), opt_text(*stored)),
{
    match incoming {
        Some(text) => Some(text.clone()),
        None => copy_opt_text(stored),
    }
}

fn same_key(row: &CollegeWithContact, record: &CollegeImport) -> (same: bool)
    ensures
        same == (row@.college.key() == record@.key()),
{
    row.name == record.name && row.district == record.district && row.city == record.city
}

impl Directory {
    #[verifier::type_invariant]
    spec fn valid(self) -> bool {
        (DirectoryView { rows: row_views(self.rows@), next_id: self.next_id }).wf()
    }

    /// A directory without colleges.
    pub fn new() -> (directory: Directory)
        ensures
            directory@ == DirectoryView::empty(),
            directory@.wf(),
    {
        let directory = Directory { rows: Vec::new(), next_id: 1 };
        assert(row_views(directory.rows@) =~= Seq::<CollegeWithContactView>::empty());
        directory
    }

    /// The number of colleges.
    pub fn len(&self) -> (n: usize)
        ensures
            n == self@.rows.len(),
            self@.wf(),
    {
        proof {
            use_type_invariant(self);
        }
        self.rows.len()
    }

    /// Moves the rows out and leaves none behind.
    fn take_rows(&mut self) -> (rows: Vec<CollegeWithContact>)
        ensures
            rows == old(self).rows,
            final(self).rows@.len() == 0,
            final(self).next_id == old(self).next_id,
    {
        proof {
            use_type_invariant(&*self);
        }
        let mut rows: Vec<CollegeWithContact> = Vec::new();
        core::mem::swap(&mut self.rows, &mut rows);
        rows
    }

    fn find_key(&self, record: &CollegeImport) -> (place: Option<usize>)
        ensures
            self@.wf(),
            place is Some <==> self@.has_key(record@.key()),
            place matches Some(i) ==> i < self@.rows.len() && i == self@.key_index(record@.key()),
    {
        proof {
            use_type_invariant(self);
        }
        let mut i: usize = 0;
        while i < self.rows.len()
            invariant
                i <= self.rows.len(),
                self@.wf(),
                forall|j: int| 0 <= j < i ==> (#[trigger] self@.rows[j]).college.key() != record@.key(),
            decreases self.rows.len() - i,
        {
            if same_key(&self.rows[i], record) {
                assert(self@.rows[i as int].college.key() == record@.key());
                return Some(i);
            }
            i = i + 1;
        }
        None
    }

    fn find_id(&self, id: i32) -> (place: Option<usize>)
        ensures
            self@.wf(),
            place is Some <==> self@.has_id(id),
            place matches Some(i) ==> i < self@.rows.len() && i == self@.id_index(id),
    {
        proof {
            use_type_invariant(self);
        }
        let mut i: usize = 0;
        while i < self.rows.len()
            invariant
                i <= self.rows.len(),
                self@.wf(),
                forall|j: int| 0 <= j < i ==> (#[trigger] self@.rows[j]).college.id != id,
            decreases self.rows.len() - i,
        {
            if self.rows[i].id == id {
                assert(self@.rows[i as int].college.id == id);
                return Some(i);
            }
            i = i + 1;
        }
        None
    }

    /// The college write of the import, as the store answers it.
    pub fn write_college(&mut self, record: &CollegeImport) -> (event: StorageEvent)
        ensures
            (final(self)@, event@) == old(self)@.college_written(record@),
            final(self)@.wf(),
    {
        match self.find_key(record) {
            Some(i) => {
                let stored = &self.rows[i];
                let id = stored.id;
                let row = CollegeWithContact {
                    id,
                    name: stored.name.clone(),
                    category: record.category.clone(),
                    district: stored.district.clone(),
                    city: stored.city.clone(),
                    college_type: record.college_type.clone(),
                    autonomous: record.autonomous,
                    minority: record.minority,
                    hostel_available: record.hostel_available,
                    established_year: record.established_year,
                    phone: copy_opt_text(&stored.phone),
                    email: copy_opt_text(&stored.email),
                    website: copy_opt_text(&stored.website),
                    address: copy_opt_text(&stored.address),
                    pincode: copy_opt_text(&stored.pincode),
                };
                proof {
                    lemma_update_keeps_wf(old(self)@, i as int, row@);
                    assert(row_views(self.rows@.update(i as int, row)) =~= row_views(
                        self.rows@,
                    ).update(i as int, row@));
                }
                let mut rows = self.take_rows();
                rows.set(i, row);
                self.rows = rows;
                StorageEvent::CollegeWritten { id, was_insert: Some(false) }
            },
            None => {
                if self.next_id < i32::MAX {
                    let id = self.next_id;
                    let row = CollegeWithContact {
                        id,
                        name: record.name.clone(),
                        category: record.category.clone(),
                        district: record.district.clone(),
                        city: record.city.clone(),
                        college_type: record.college_type.clone(),
                        autonomous: record.autonomous,
                        minority: record.minority,
                        hostel_available: record.hostel_available,
                        established_year: record.established_year,
                        phone: None,
                        email: None,
                        website: None,
                        address: None,
                        pincode: None,
                    };
                    proof {
                        lemma_insert_keeps_wf(old(self)@, record@);
                        assert(row_views(self.rows@.push(row)) =~= row_views(self.rows@).push(
                            row@,
                        ));
                    }
                    let mut rows = self.take_rows();
                    rows.push(row);
                    self.next_id = id + 1;
                    self.rows = rows;
                    StorageEvent::CollegeWritten { id, was_insert: Some(true) }
                } else {
                    StorageEvent::Failed(String::from_str("no id left for a new college"))
                }
            },
        }
    }

    /// The contact write of the import, as the store answers it.
    pub fn write_contact(&mut self, college_id: i32, record: &CollegeImport) -> (event:
        StorageEvent)
        ensures
            (final(self)@, event@) == old(self)@.contact_written(college_id, record@.contact),
            final(self)@.wf(),
    {
        match self.find_id(college_id) {
            Some(i) => {
                let stored = &self.rows[i];
                let row = CollegeWithContact {
                    id: stored.id,
                    name: stored.name.clone(),
                    category: stored.category.clone(),
                    district: stored.district.clone(),
                    city: stored.city.clone(),
                    college_type: stored.college_type.clone(),
                    autonomous: stored.autonomous,
                    minority: stored.minority,
                    hostel_available: stored.hostel_available,
                    established_year: stored.established_year,
                    phone: merge_detail(&record.phone, &stored.phone),
                    email: merge_detail(&record.email, &stored.email),
                    website: merge_detail(&record.website, &stored.website),
                    address: merge_detail(&record.address, &stored.address),
                    pincode: merge_detail(&record.pincode, &stored.pincode),
                };
                proof {
                    lemma_update_keeps_wf(old(self)@, i as int, row@);
                    assert(row_views(self.rows@.update(i as int, row)) =~= row_views(
                        self.rows@,
                    ).update(i as int, row@));
                }
                let mut rows = self.take_rows();
                rows.set(i, row);
                self.rows = rows;
                StorageEvent::ContactWritten
            },
            None => StorageEvent::Failed(
                String::from_str("contact details refer to a college that does not exist"),
            ),
        }
    }

    /// Imports one record: runs the record machine against this directory
    /// until the record is done.
    pub fn import_record(&mut self, record: &CollegeImport) -> (outcome: RecordOutcome)
        ensures
            (final(self)@, outcome@) == old(self)@.record_imported(record@),
            final(self)@.wf(),
    {
        proof {
            use_type_invariant(&*self);
        }
        let (first_state, first_action) = advance(RecordState::Fresh, record, StorageEvent::Start);
        let mut state = first_state;
        let mut action = first_action;
        loop
            invariant
                self@.wf(),
                old(self)@.record_imported(record@) == self@.performed(state, action@, record@),
            decreases steps_left(state),
        {
            let event = match action {
                RecordAction::Complete(outcome) => {
                    return outcome;
                },
                RecordAction::WriteCollege => self.write_college(record),
                RecordAction::WriteContact { college_id } => self.write_contact(college_id, record),
            };
            let (state_after, next) = advance(state, record, event);
            if !fewer_steps(state_after, state) {
                return RecordOutcome::Failed(String::from_str("unexpected storage event"));
            }
            state = state_after;
            action = next;
        }
    }

    /// Imports a batch, record by record in input order, and summarizes it.
    pub fn import(&mut self, batch: &Vec<CollegeImport>) -> (response: UploadResponse)
        ensures
            final(self)@ == old(self)@.batch_imported(record_views(batch@)).0,
            response@.message == crate::import::records_done_message(),
            response@.tally == tally(
                record_entries(old(self)@.batch_imported(record_views(batch@)).1),
            ),
            final(self)@.wf(),
    {
        proof {
            use_type_invariant(&*self);
        }
        let mut outcomes: Vec<RecordOutcome> = Vec::new();
        let ghost views = record_views(batch@);
        let mut i: usize = 0;
        while i < batch.len()
            invariant
                i <= batch.len(),
                views == record_views(batch@),
                self@.wf(),
                (self@, outcome_views(outcomes@)) == old(self)@.batch_imported(
                    views.take(i as int),
                ),
            decreases batch.len() - i,
        {
            assert(views.take(i + 1).drop_last() =~= views.take(i as int));
            let outcome = self.import_record(&batch[i]);
            outcomes.push(outcome);
            i = i + 1;
        }
        assert(views.take(i as int) =~= views);
        summarize_records(&outcomes)
    }

    /// The college with the given id, with its contact details. Fails with
    /// `NotFound`, naming the id, where no college has it.
    pub fn find(&self, id: i32) -> (found: Result<CollegeWithContact, ApiError>)
        ensures
            found is Ok <==> self@.has_id(id),
            found matches Ok(row) ==> row@ == self@.rows[self@.id_index(id)] && row@.college.id
                == id,
            found matches Err(e) ==> e@ == ApiErrorView::college_not_found(id),
    {
        match self.find_id(id) {
            Some(i) => Ok(copy_row(&self.rows[i])),
            None => Err(ApiError::college_not_found(id)),
        }
    }
}

fn fewer_steps(after: RecordState, before: RecordState) -> (fewer: bool)
    ensures
        fewer == (steps_left(after) < steps_left(before)),
{
    let a: u8 = match after {
        RecordState::Fresh => 3,
        RecordState::AwaitingCollege => 2,
        RecordState::AwaitingContact { .. } => 1,
        RecordState::Finished => 0,
    };
    let b: u8 = match before {
        RecordState::Fresh => 3,
        RecordState::AwaitingCollege => 2,
        RecordState::AwaitingContact { .. } => 1,
        RecordState::Finished => 0,
    };
    a < b
}

/// Replacing a row by one with the same id and natural key keeps the
/// directory well formed.
pub proof fn lemma_update_keeps_wf(directory: DirectoryView, i: int, row: CollegeWithContactView)
    requires
        directory.wf(),
        0 <= i < directory.rows.len(),
        row.college.id == directory.rows[i].college.id,
        row.college.key() == directory.rows[i].college.key(),
    ensures
        (DirectoryView { rows: directory.rows.update(i, row), ..directory }).wf(),
{
    let after = DirectoryView { rows: directory.rows.update(i, row), ..directory };
    assert forall|a: int| 0 <= a < after.rows.len() implies 1 <= (#[trigger] after.rows[a]).college.id
        < after.next_id by {
        assert(1 <= directory.rows[a].college.id < directory.next_id);
    }
    assert forall|a: int, b: int|
        #![trigger after.rows[a], after.rows[b]]
        0 <= a < b < after.rows.len() implies after.rows[a].college.id != after.rows[b].college.id
        && after.rows[a].college.key() != after.rows[b].college.key() by {
        assert(directory.rows[a].college.id != directory.rows[b].college.id);
        assert(directory.rows[a].college.key() != directory.rows[b].college.key());
    }
}

/// Adding a college under the next id keeps the directory well formed,
/// where no college has the record's natural key and an id is left.
pub proof fn lemma_insert_keeps_wf(directory: DirectoryView, record: CollegeImportView)
    requires
        directory.wf(),
        !directory.has_key(record.key()),
        directory.next_id < i32::MAX,
    ensures
        (DirectoryView {
            rows: directory.rows.push(new_row(directory.next_id, record)),
            next_id: (directory.next_id + 1) as i32,
        }).wf(),
{
    let after = DirectoryView {
        rows: directory.rows.push(new_row(directory.next_id, record)),
        next_id: (directory.next_id + 1) as i32,
    };
    assert forall|a: int| 0 <= a < after.rows.len() implies 1 <= (#[trigger] after.rows[a]).college.id
        < after.next_id by {
        if a < directory.rows.len() {
            assert(1 <= directory.rows[a].college.id < directory.next_id);
        }
    }
    assert forall|a: int, b: int|
        #![trigger after.rows[a], after.rows[b]]
        0 <= a < b < after.rows.len() implies after.rows[a].college.id != after.rows[b].college.id
        && after.rows[a].college.key() != after.rows[b].college.key() by {
        if b < directory.rows.len() {
            assert(directory.rows[a].college.id != directory.rows[b].college.id);
            assert(directory.rows[a].college.key() != directory.rows[b].college.key());
        } else {
            assert(1 <= directory.rows[a].college.id < directory.next_id);
            assert(directory.rows[a].college.key() != record.key());
        }
    }
}

} // verus!
