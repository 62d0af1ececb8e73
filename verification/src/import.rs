//! The bulk import: one record at a time, each on its own.
//!
//! A record is written in up to two steps: the college row, inserted or
//! updated under its natural key in one atomic statement, then the contact
//! row where the record brings contact details. The steps wait on the store,
//! so the order of the work is given here as a state machine: [`advance`]
//! takes what the store answered and says what to do next. A failure ends
//! the record it happened in and nothing else. [`summarize_records`] and
//! [`summarize_lines`] turn the outcomes of a batch into the response, with
//! every failure tagged by the place of its record in the input.

use vstd::prelude::*;
use vstd::string::StringExecFns;
use crate::errors::ApiError;
use crate::models::{opt_text, ContactDetails, NaturalKey};
use crate::text::{decimal, push_decimal};

verus! {

/// One record of an import: a college with its optional contact details.
#[derive(Clone, Debug, PartialEq, Eq)]
pub struct CollegeImport {
    pub name: String,
    pub category: String,
    pub district: String,
    pub city: String,
    pub college_type: String,
    pub autonomous: Option<bool>,
    pub minority: Option<bool>,
    pub hostel_available: Option<bool>,
    pub established_year: Option<i32>,
    pub phone: Option<String>,
    pub email: Option<String>,
    pub website: Option<String>,
    pub address: Option<String>,
    pub pincode: Option<String>,
}

/// A [`CollegeImport`] with its texts as sequences of characters and its
/// contact details together.
pub struct CollegeImportView {
    pub name: Seq<char>,
    pub category: Seq<char>,
    pub district: Seq<char>,
    pub city: Seq<char>,
    pub college_type: Seq<char>,
    pub autonomous: Option<bool>,
    pub minority: Option<bool>,
    pub hostel_available: Option<bool>,
    pub established_year: Option<i32>,
    pub contact: ContactDetails,
}

impl CollegeImportView {
    /// The natural key under which the record is inserted or updated.
    pub open spec fn key(self) -> NaturalKey {
        NaturalKey { name: self.name, district: self.district, city: self.city }
    }
}

impl View for CollegeImport {
    type V = CollegeImportView;

    open spec fn view(&self) -> CollegeImportView {
        CollegeImportView {
            name: self.name@,
            category: self.category@,
            district: self.district@,
            city: self.city@,
            college_type: self.college_type@,
            autonomous: self.autonomous,
            minority: self.minority,
            hostel_available: self.hostel_available,
            established_year: self.established_year,
            contact: ContactDetails {
                phone: opt_text(self.phone),
                email: opt_text(self.email),
                website: opt_text(self.website),
                address: opt_text(self.address),
                pincode: opt_text(self.pincode),
            },
        }
    }
}

impl CollegeImport {
    /// Whether the record brings at least one contact detail. Only then is a
    /// contact row written.
    pub fn has_contact(&self) -> (any: bool)
        ensures
            any == self@.contact.any(),
    {
        self.phone.is_some() || self.email.is_some() || self.website.is_some()
            || self.address.is_some() || self.pincode.is_some()
    }
}

/// A structured batch: the records in the order in which they are processed.
#[derive(Clone, Debug, PartialEq, Eq)]
pub struct BulkCollegeData {
    pub colleges: Vec<CollegeImport>,
}

/// How one record ended.
#[derive(Clone, Debug, PartialEq, Eq)]
pub enum RecordOutcome {
    /// A new college was created.
    Inserted,
    /// A college with the record's natural key existed and was updated.
    Updated,
    /// The record was not written; the text says why.
    Failed(String),
}

/// A [`RecordOutcome`] with its text as a sequence of characters.
pub enum OutcomeView {
    Inserted,
    Updated,
    Failed(Seq<char>),
}

impl View for RecordOutcome {
    type V = OutcomeView;

    open spec fn view(&self) -> OutcomeView {
        match self {
            RecordOutcome::Inserted => OutcomeView::Inserted,
            RecordOutcome::Updated => OutcomeView::Updated,
            RecordOutcome::Failed(cause) => OutcomeView::Failed(cause@),
        }
    }
}

/// How one line of a tabular input ended.
#[derive(Clone, Debug, PartialEq, Eq)]
pub enum LineOutcome {
    /// The line held a record, which ended as given.
    Parsed(RecordOutcome),
    /// The line did not hold a record: wrong number of columns, or a field
    /// that could not be read. The text says why.
    Malformed(String),
}

/// A [`LineOutcome`] with its text as a sequence of characters.
pub enum LineView {
    Parsed(OutcomeView),
    Malformed(Seq<char>),
}

impl View for LineOutcome {
    type V = LineView;

    open spec fn view(&self) -> LineView {
        match self {
            LineOutcome::Parsed(outcome) => LineView::Parsed(outcome@),
            LineOutcome::Malformed(cause) => LineView::Malformed(cause@),
        }
    }
}

/// Where the import of one record stands.
#[derive(Clone, Copy, Debug, PartialEq, Eq)]
pub enum RecordState {
    /// Nothing was done yet.
    Fresh,
    /// The college row is being written.
    AwaitingCollege,
    /// The college row is written and the contact row is being written.
    /// `updated` tells whether the college existed before.
    AwaitingContact { updated: bool },
    /// The record is done.
    Finished,
}

/// What the store answered.
#[derive(Clone, Debug, PartialEq, Eq)]
pub enum StorageEvent {
    /// Nothing yet: the record is to be started.
    Start,
    /// The college row was written under `id`. `was_insert` tells whether the
    /// row is new; where the store does not say, the row counts as new.
    CollegeWritten { id: i32, was_insert: Option<bool> },
    /// The contact row was written.
    ContactWritten,
    /// The statement failed.
    Failed(String),
}

/// A [`StorageEvent`] with its text as a sequence of characters.
pub enum EventView {
    Start,
    CollegeWritten { id: i32, was_insert: Option<bool> },
    ContactWritten,
    Failed(Seq<char>),
}

impl View for StorageEvent {
    type V = EventView;

    open spec fn view(&self) -> EventView {
        match self {
            StorageEvent::Start => EventView::Start,
            StorageEvent::CollegeWritten { id, was_insert } => EventView::CollegeWritten {
                id: *id,
                was_insert: *was_insert,
            },
            StorageEvent::ContactWritten => EventView::ContactWritten,
            StorageEvent::Failed(cause) => EventView::Failed(cause@),
        }
    }
}

impl StorageEvent {
    /// The answer to a write that was refused before it reached the store:
    /// a failure with the message that the caller of the refused request
    /// would see.
    pub fn refused(refusal: &ApiError) -> (event: StorageEvent)
        ensures
            event@ == EventView::Failed(refusal@.public_message()),
    {
        StorageEvent::Failed(refusal.public_message())
    }
}

/// What to do next for the record.
#[derive(Clone, Debug, PartialEq, Eq)]
pub enum RecordAction {
    /// Insert the college, or update it if its natural key exists.
    WriteCollege,
    /// Insert the contact row of the college, or merge into it if it exists.
    WriteContact { college_id: i32 },
    /// Nothing more: the record ended as given.
    Complete(RecordOutcome),
}

/// A [`RecordAction`] with its text as a sequence of characters.
pub enum ActionView {
    WriteCollege,
    WriteContact { college_id: i32 },
    Complete(OutcomeView),
}

impl View for RecordAction {
    type V = ActionView;

    open spec fn view(&self) -> ActionView {
        match self {
            RecordAction::WriteCollege => ActionView::WriteCollege,
            RecordAction::WriteContact { college_id } => ActionView::WriteContact {
                college_id: *college_id,
            },
            RecordAction::Complete(outcome) => ActionView::Complete(outcome@),
        }
    }
}

/// Whether a written college row was there before. A store that does not say
/// whether it inserted is taken to have inserted.
pub open spec fn was_update(was_insert: Option<bool>) -> bool {
    was_insert == Some(false)
}

/// The outcome of a record whose writes all succeeded.
pub open spec fn written(updated: bool) -> OutcomeView {
    if updated {
        OutcomeView::Updated
    } else {
        OutcomeView::Inserted
    }
}

/// Why a record ends whose state did not wait for the store's answer.
pub open spec fn unexpected_event_message() -> Seq<char> {
    "unexpected storage event"@
}

/// The step of the record machine: the next state and what to do, for each
/// state and each answer of the store.
///
/// A fresh record starts by writing the college. Once the college is written,
/// the contact row is written if the record brings any contact detail, and
/// the record is done if it brings none. Once the contact row is written
/// the record is done. A failure at either step ends the record with that
/// failure. An answer that the state does not wait for ends the record too.
pub open spec fn next_step(state: RecordState, record: CollegeImportView, event: EventView) -> (
    RecordState,
    ActionView,
) {
    match (state, event) {
        (RecordState::Fresh, EventView::Start) => (
            RecordState::AwaitingCollege,
            ActionView::WriteCollege,
        ),
        (RecordState::AwaitingCollege, EventView::CollegeWritten { id, was_insert }) => {
            if record.contact.any() {
                (
                    RecordState::AwaitingContact { updated: was_update(was_insert) },
                    ActionView::WriteContact { college_id: id },
                )
            } else {
                (RecordState::Finished, ActionView::Complete(written(was_update(was_insert))))
            }
        },
        (RecordState::AwaitingCollege, EventView::Failed(cause)) => (
            RecordState::Finished,
            ActionView::Complete(OutcomeView::Failed(cause)),
        ),
        (RecordState::AwaitingContact { updated }, EventView::ContactWritten) => (
            RecordState::Finished,
            ActionView::Complete(written(updated)),
        ),
        (RecordState::AwaitingContact { updated }, EventView::Failed(cause)) => (
            RecordState::Finished,
            ActionView::Complete(OutcomeView::Failed(cause)),
        ),
        _ => (
            RecordState::Finished,
            ActionView::Complete(OutcomeView::Failed(unexpected_event_message())),
        ),
    }
}

/// How far a record is from being done, by its state.
pub open spec fn steps_left(state: RecordState) -> nat {
    match state {
        RecordState::Fresh => 3,
        RecordState::AwaitingCollege => 2,
        RecordState::AwaitingContact { .. } => 1,
        RecordState::Finished => 0,
    }
}

/// The record machine is well behaved. Every step of a record that is not
/// finished brings it nearer to its end, so a record takes at most three
/// steps. The machine asks for a write exactly while the record is not
/// finished. It asks for the contact write only after the college was
/// written, only for a record that brings contact details, and only with the
/// id that the store reported. A failure ends the record at once, as failed.
pub proof fn lemma_record_machine(state: RecordState, record: CollegeImportView, event: EventView)
    ensures
        ({
            let (next, action) = next_step(state, record, event);
            &&& state != RecordState::Finished ==> steps_left(next) < steps_left(state)
            &&& next == RecordState::Finished <==> action is Complete
            &&& action is WriteCollege ==> state == RecordState::Fresh && event == EventView::Start
            &&& action matches ActionView::WriteContact { college_id } ==> {
                &&& state == RecordState::AwaitingCollege
                &&& event matches EventView::CollegeWritten { id, .. } && id == college_id
                &&& record.contact.any()
            }
            &&& event is Failed ==> action is Complete && action->Complete_0 is Failed
            &&& action is Complete && !(action->Complete_0 is Failed) ==> {
                ||| state == RecordState::AwaitingCollege && event is CollegeWritten
                    && !record.contact.any()
                ||| state is AwaitingContact && event == EventView::ContactWritten
            }
        }),
{
}

fn outcome_of(updated: bool) -> (outcome: RecordOutcome)
    ensures
        outcome@ == written(updated),
{
    if updated {
        RecordOutcome::Updated
    } else {
        RecordOutcome::Inserted
    }
}

/// Takes the store's answer for a record and says what to do next.
pub fn advance(state: RecordState, record: &CollegeImport, event: StorageEvent) -> (step: (
    RecordState,
    RecordAction,
))
    ensures
        (step.0, step.1@) == next_step(state, record@, event@),
{
    match state {
        RecordState::Fresh => match event {
            StorageEvent::Start => (RecordState::AwaitingCollege, RecordAction::WriteCollege),
            _ => protocol_violation(),
        },
        RecordState::AwaitingCollege => match event {
            StorageEvent::CollegeWritten { id, was_insert } => {
                let updated = match was_insert {
                    Some(inserted) => !inserted,
                    None => false,
                };
                if record.has_contact() {
                    (
                        RecordState::AwaitingContact { updated },
                        RecordAction::WriteContact { college_id: id },
                    )
                } else {
                    (RecordState::Finished, RecordAction::Complete(outcome_of(updated)))
                }
            },
            StorageEvent::Failed(cause) => (
                RecordState::Finished,
                RecordAction::Complete(RecordOutcome::Failed(cause)),
            ),
            _ => protocol_violation(),
        },
        RecordState::AwaitingContact { updated } => match event {
            StorageEvent::ContactWritten => (
                RecordState::Finished,
                RecordAction::Complete(outcome_of(updated)),
            ),
            StorageEvent::Failed(cause) => (
                RecordState::Finished,
                RecordAction::Complete(RecordOutcome::Failed(cause)),
            ),
            _ => protocol_violation(),
        },
        RecordState::Finished => protocol_violation(),
    }
}

fn protocol_violation() -> (step: (RecordState, RecordAction))
    ensures
        step.0 == RecordState::Finished,
        step.1@ == ActionView::Complete(OutcomeView::Failed(unexpected_event_message())),
{
    (
        RecordState::Finished,
        RecordAction::Complete(RecordOutcome::Failed(String::from_str("unexpected storage event"))),
    )
}

/// The summary of an import.
#[derive(Clone, Debug, PartialEq, Eq)]
pub struct UploadResponse {
    pub message: String,
    pub inserted: usize,
    pub updated: usize,
    pub errors: Vec<String>,
}

/// What an import amounts to: how many records were inserted, how many
/// updated, and the error entries in the order of the input.
pub struct Tally {
    pub inserted: nat,
    pub updated: nat,
    pub errors: Seq<Seq<char>>,
}

/// An [`UploadResponse`]: its message and what it counts.
pub struct UploadResponseView {
    pub message: Seq<char>,
    pub tally: Tally,
}

/// The texts of a sequence of strings.
pub open spec fn texts(lines: Seq<String>) -> Seq<Seq<char>> {
    lines.map_values(|line: String| line@)
}

impl View for UploadResponse {
    type V = UploadResponseView;

    open spec fn view(&self) -> UploadResponseView {
        UploadResponseView {
            message: self.message@,
            tally: Tally {
                inserted: self.inserted as nat,
                updated: self.updated as nat,
                errors: texts(self.errors@),
            },
        }
    }
}

/// The error entry of the record at `index` (from 0) of a structured batch:
/// tagged with the record's position, counted from 1.
pub open spec fn record_error(index: nat, cause: Seq<char>) -> Seq<char> {
    "College #"@ + decimal(index + 1) + ": "@ + cause
}

/// The error entry of the record at `index` (from 0) of a tabular input:
/// tagged with its line, where line 1 is the header.
pub open spec fn line_error(index: nat, cause: Seq<char>) -> Seq<char> {
    "Line "@ + decimal(index + 2) + ": "@ + cause
}

/// The error entry of a line at `index` (from 0) that held no record.
pub open spec fn malformed_line_error(index: nat, cause: Seq<char>) -> Seq<char> {
    "Line "@ + decimal(index + 2) + ": CSV parsing error: "@ + cause
}

/// What one record or line adds to a tally.
pub enum Entry {
    Inserted,
    Updated,
    Error(Seq<char>),
}

impl Tally {
    /// Nothing inserted, nothing updated, no error.
    pub open spec fn empty() -> Tally {
        Tally { inserted: 0, updated: 0, errors: seq![] }
    }

    /// The number of records or lines that the tally accounts for.
    pub open spec fn records(self) -> nat {
        self.inserted + self.updated + self.errors.len()
    }

    /// The tally after one more entry.
    pub open spec fn with(self, entry: Entry) -> Tally {
        match entry {
            Entry::Inserted => Tally { inserted: self.inserted + 1, ..self },
            Entry::Updated => Tally { updated: self.updated + 1, ..self },
            Entry::Error(line) => Tally { errors: self.errors.push(line), ..self },
        }
    }
}

/// The tally of a sequence of entries: each counted once, the errors kept in
/// the order of the entries.
pub open spec fn tally(entries: Seq<Entry>) -> Tally
    decreases entries.len(),
{
    if entries.len() == 0 {
        Tally::empty()
    } else {
        tally(entries.drop_last()).with(entries.last())
    }
}

/// What the record at `index` of a structured batch adds to the tally.
pub open spec fn record_entry(index: nat, outcome: OutcomeView) -> Entry {
    match outcome {
        OutcomeView::Inserted => Entry::Inserted,
        OutcomeView::Updated => Entry::Updated,
        OutcomeView::Failed(cause) => Entry::Error(record_error(index, cause)),
    }
}

/// What the line at `index` of a tabular input adds to the tally. A
/// malformed line is an error entry and nothing else.
pub open spec fn line_entry(index: nat, line: LineView) -> Entry {
    match line {
        LineView::Parsed(OutcomeView::Inserted) => Entry::Inserted,
        LineView::Parsed(OutcomeView::Updated) => Entry::Updated,
        LineView::Parsed(OutcomeView::Failed(cause)) => Entry::Error(line_error(index, cause)),
        LineView::Malformed(cause) => Entry::Error(malformed_line_error(index, cause)),
    }
}

/// The entries of a structured batch, in input order.
pub open spec fn record_entries(outcomes: Seq<OutcomeView>) -> Seq<Entry> {
    Seq::new(outcomes.len(), |i: int| record_entry(i as nat, outcomes[i]))
}

/// The entries of a tabular input, in input order.
pub open spec fn line_entries(lines: Seq<LineView>) -> Seq<Entry> {
    Seq::new(lines.len(), |i: int| line_entry(i as nat, lines[i]))
}

/// The views of a sequence of outcomes.
pub open spec fn outcome_views(outcomes: Seq<RecordOutcome>) -> Seq<OutcomeView> {
    outcomes.map_values(|outcome: RecordOutcome| outcome@)
}

/// The views of a sequence of line outcomes.
pub open spec fn line_views(lines: Seq<LineOutcome>) -> Seq<LineView> {
    lines.map_values(|line: LineOutcome| line@)
}

/// The message of the summary of a structured batch.
pub open spec fn records_done_message() -> Seq<char> {
    "Upload completed"@
}

/// The message of the summary of a tabular input.
pub open spec fn lines_done_message() -> Seq<char> {
    "CSV upload completed"@
}

/// The message of the probe of the import routes.
pub open spec fn routes_working_message() -> Seq<char> {
    "Admin routes working!"@
}

fn record_error_text(index: usize, cause: &str) -> (entry: String)
    ensures
        entry@ == record_error(index as nat, cause@),
{
    let mut entry = String::from_str("College #");
    push_decimal(&mut entry, index as u128 + 1);
    entry.append(": ");
    entry.append(cause);
    entry
}

fn line_error_text(index: usize, cause: &str) -> (entry: String)
    ensures
        entry@ == line_error(index as nat, cause@),
{
    let mut entry = String::from_str("Line ");
    push_decimal(&mut entry, index as u128 + 2);
    entry.append(": ");
    entry.append(cause);
    entry
}

fn malformed_line_error_text(index: usize, cause: &str) -> (entry: String)
    ensures
        entry@ == malformed_line_error(index as nat, cause@),
{
    let mut entry = String::from_str("Line ");
    push_decimal(&mut entry, index as u128 + 2);
    entry.append(": CSV parsing error: ");
    entry.append(cause);
    entry
}

fn push_entry(errors: &mut Vec<String>, entry: String)
    ensures
        texts(final(errors)@) == texts(old(errors)@).push(entry@),
        final(errors)@.len() == old(errors)@.len() + 1,
{
    errors.push(entry);
}

impl UploadResponse {
    /// The response of the probe that tells whether the import routes are up.
    pub fn routes_working() -> (response: UploadResponse)
        ensures
            response@.message == routes_working_message(),
            response@.tally == Tally::empty(),
    {
        let response = UploadResponse {
            message: String::from_str("Admin routes working!"),
            inserted: 0,
            updated: 0,
            errors: Vec::new(),
        };
        assert(texts(response.errors@) =~= Seq::<Seq<char>>::empty());
        response
    }
}

/// Summarizes a structured batch from the outcomes of its records, given in
/// input order: how many were inserted, how many updated, and one error
/// entry for each record that failed, tagged `College #` and its position.
pub fn summarize_records(outcomes: &Vec<RecordOutcome>) -> (response: UploadResponse)
    ensures
        response@.message == records_done_message(),
        response@.tally == tally(record_entries(outcome_views(outcomes@))),
{
    let mut inserted: usize = 0;
    let mut updated: usize = 0;
    let mut errors: Vec<String> = Vec::new();
    let mut i: usize = 0;
    let ghost entries = record_entries(outcome_views(outcomes@));
    assert(texts(errors@) =~= Seq::<Seq<char>>::empty());
    while i < outcomes.len()
        invariant
            i <= outcomes.len(),
            entries == record_entries(outcome_views(outcomes@)),
            inserted + updated + errors.len() == i,
            tally(entries.take(i as int)) == (Tally {
                inserted: inserted as nat,
                updated: updated as nat,
                errors: texts(errors@),
            }),
        decreases outcomes.len() - i,
    {
        assert(entries.take(i + 1).drop_last() =~= entries.take(i as int));
        match &outcomes[i] {
            RecordOutcome::Inserted => {
                inserted = inserted + 1;
            },
            RecordOutcome::Updated => {
                updated = updated + 1;
            },
            RecordOutcome::Failed(cause) => {
                push_entry(&mut errors, record_error_text(i, cause.as_str()));
            },
        }
        i = i + 1;
    }
    assert(entries.take(i as int) =~= entries);
    UploadResponse { message: String::from_str("Upload completed"), inserted, updated, errors }
}

/// Summarizes a tabular input from the outcomes of its lines, given in input
/// order: how many records were inserted, how many updated, and one error
/// entry for each line that was malformed or whose record failed, tagged
/// `Line` and the line's number. The header is line 1, so the first record
/// is on line 2.
pub fn summarize_lines(lines: &Vec<LineOutcome>) -> (response: UploadResponse)
    ensures
        response@.message == lines_done_message(),
        response@.tally == tally(line_entries(line_views(lines@))),
{
    let mut inserted: usize = 0;
    let mut updated: usize = 0;
    let mut errors: Vec<String> = Vec::new();
    let mut i: usize = 0;
    let ghost entries = line_entries(line_views(lines@));
    assert(texts(errors@) =~= Seq::<Seq<char>>::empty());
    while i < lines.len()
        invariant
            i <= lines.len(),
            entries == line_entries(line_views(lines@)),
            inserted + updated + errors.len() == i,
            tally(entries.take(i as int)) == (Tally {
                inserted: inserted as nat,
                updated: updated as nat,
                errors: texts(errors@),
            }),
        decreases lines.len() - i,
    {
        assert(entries.take(i + 1).drop_last() =~= entries.take(i as int));
        match &lines[i] {
            LineOutcome::Parsed(RecordOutcome::Inserted) => {
                inserted = inserted + 1;
            },
            LineOutcome::Parsed(RecordOutcome::Updated) => {
                updated = updated + 1;
            },
            LineOutcome::Parsed(RecordOutcome::Failed(cause)) => {
                push_entry(&mut errors, line_error_text(i, cause.as_str()));
            },
            LineOutcome::Malformed(cause) => {
                push_entry(&mut errors, malformed_line_error_text(i, cause.as_str()));
            },
        }
        i = i + 1;
    }
    assert(entries.take(i as int) =~= entries);
    UploadResponse { message: String::from_str("CSV upload completed"), inserted, updated, errors }
}

/// Every entry is counted exactly once: as inserted, as updated or as an error.
pub proof fn lemma_tally_accounts_for_every_entry(entries: Seq<Entry>)
    ensures
        tally(entries).records() == entries.len(),
    decreases entries.len(),
{
    if entries.len() > 0 {
        lemma_tally_accounts_for_every_entry(entries.drop_last());
    }
}

/// The errors of the first `i` entries are the first errors of all entries,
/// and the counts never go down: what comes later changes nothing that was
/// tallied before.
pub proof fn lemma_tally_grows(entries: Seq<Entry>, i: int)
    requires
        0 <= i <= entries.len(),
    ensures
        tally(entries.take(i)).errors.is_prefix_of(tally(entries).errors),
        tally(entries.take(i)).inserted <= tally(entries).inserted,
        tally(entries.take(i)).updated <= tally(entries).updated,
    decreases entries.len(),
{
    if i == entries.len() {
        assert(entries.take(i) =~= entries);
    } else {
        assert(entries.drop_last().take(i) =~= entries.take(i));
        lemma_tally_grows(entries.drop_last(), i);
    }
}

/// The errors keep the order of the input: the error entry of the entry at
/// `i` stands in the list behind the errors of everything before `i`, and
/// before the errors of everything after it.
pub proof fn lemma_errors_keep_input_order(entries: Seq<Entry>, i: int)
    requires
        0 <= i < entries.len(),
        entries[i] is Error,
    ensures
        tally(entries.take(i)).errors.len() < tally(entries).errors.len(),
        tally(entries).errors[tally(entries.take(i)).errors.len() as int] == entries[i]->Error_0,
{
    let upto = entries.take(i + 1);
    assert(upto.drop_last() =~= entries.take(i));
    assert(upto.last() == entries[i]);
    lemma_tally_grows(entries, i + 1);
    let place = tally(entries.take(i)).errors.len() as int;
    let early = tally(upto).errors;
    assert(early == tally(entries.take(i)).errors.push(entries[i]->Error_0));
    assert(early[place] == entries[i]->Error_0);
    assert(early == tally(entries).errors.subrange(0, early.len() as int));
    assert(tally(entries).errors.subrange(0, early.len() as int)[place] == tally(
        entries,
    ).errors[place]);
}

/// Where no entry is an error, the error list is empty.
pub proof fn lemma_no_error(entries: Seq<Entry>)
    requires
        forall|i: int| 0 <= i < entries.len() ==> !(entries[i] is Error),
    ensures
        tally(entries).errors == Seq::<Seq<char>>::empty(),
        tally(entries).inserted + tally(entries).updated == entries.len(),
    decreases entries.len(),
{
    if entries.len() > 0 {
        lemma_no_error(entries.drop_last());
    }
}

/// Where exactly one entry is an error, the error list holds that entry's
/// error and nothing else, and every other entry is counted as inserted or
/// as updated.
pub proof fn lemma_single_error(entries: Seq<Entry>, k: int)
    requires
        0 <= k < entries.len(),
        entries[k] is Error,
        forall|i: int| 0 <= i < entries.len() && i != k ==> !(entries[i] is Error),
    ensures
        tally(entries).errors == seq![entries[k]->Error_0],
        tally(entries).inserted + tally(entries).updated == entries.len() - 1,
    decreases entries.len(),
{
    let before = entries.drop_last();
    lemma_tally_accounts_for_every_entry(entries);
    if k == entries.len() - 1 {
        lemma_no_error(before);
        assert(tally(entries).errors =~= seq![entries[k]->Error_0]);
    } else {
        lemma_single_error(before, k);
    }
}

/// One bad record does not stop a structured batch: where the record at `k`
/// failed and no other did, the summary counts every other record as
/// inserted or updated, and its only error entry is that of record `k`,
/// tagged with the record's position.
pub proof fn lemma_failed_record_spares_the_rest(outcomes: Seq<OutcomeView>, k: int)
    requires
        0 <= k < outcomes.len(),
        outcomes[k] is Failed,
        forall|i: int| 0 <= i < outcomes.len() && i != k ==> !(outcomes[i] is Failed),
    ensures
        tally(record_entries(outcomes)).errors == seq![
            record_error(k as nat, outcomes[k]->Failed_0),
        ],
        tally(record_entries(outcomes)).inserted + tally(record_entries(outcomes)).updated
            == outcomes.len() - 1,
{
    lemma_single_error(record_entries(outcomes), k);
}

/// Whether a line held a record that was inserted or updated.
pub open spec fn line_was_written(line: LineView) -> bool {
    line == LineView::Parsed(OutcomeView::Inserted) || line == LineView::Parsed(
        OutcomeView::Updated,
    )
}

/// One malformed line does not stop a tabular input: where the line at `k`
/// held no record and every other line held one that was written, the
/// summary counts every other line as inserted or updated, and its only
/// error entry is that of line `k`, tagged with the line's number.
pub proof fn lemma_malformed_line_spares_the_rest(lines: Seq<LineView>, k: int)
    requires
        0 <= k < lines.len(),
        lines[k] is Malformed,
        forall|i: int| 0 <= i < lines.len() && i != k ==> line_was_written(#[trigger] lines[i]),
    ensures
        tally(line_entries(lines)).errors == seq![
            malformed_line_error(k as nat, lines[k]->Malformed_0),
        ],
        tally(line_entries(lines)).inserted + tally(line_entries(lines)).updated == lines.len()
            - 1,
{
    lemma_single_error(line_entries(lines), k);
}

} // verus!
