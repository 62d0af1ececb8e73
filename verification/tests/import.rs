use college_directory::errors::ApiError;
use college_directory::import::{
    advance, summarize_lines, summarize_records, BulkCollegeData, CollegeImport, LineOutcome,
    RecordAction, RecordOutcome, RecordState, StorageEvent, UploadResponse,
};
use college_directory::sql::{Statement, MAX_BIND_BYTES};
use college_directory::upsert::{college_upsert, contact_upsert};
use sqlx::{Arguments, Execute, Postgres, QueryBuilder};

fn record(name: &str) -> CollegeImport {
    CollegeImport {
        name: name.to_string(),
        category: "Engineering".to_string(),
        district: "Pune".to_string(),
        city: "Pune".to_string(),
        college_type: "Government".to_string(),
        autonomous: Some(true),
        minority: None,
        hostel_available: Some(false),
        established_year: Some(1854),
        phone: None,
        email: None,
        website: None,
        address: None,
        pincode: None,
    }
}

fn with_phone(name: &str) -> CollegeImport {
    CollegeImport { phone: Some("020-25507000".to_string()), ..record(name) }
}

fn failed(cause: &str) -> RecordOutcome {
    RecordOutcome::Failed(cause.to_string())
}

struct Built {
    builder: QueryBuilder<'static, Postgres>,
}

fn built(statement: Statement) -> Built {
    Built { builder: statement.into_builder() }
}

fn bound(statement: &mut Built) -> (usize, String) {
    let mut query = statement.builder.build();
    let arguments = query.take_arguments().unwrap().unwrap();
    (arguments.len(), format!("{:?}", arguments))
}

#[test]
fn fresh_record_starts_with_the_college() {
    assert_eq!(
        advance(RecordState::Fresh, &record("COEP"), StorageEvent::Start),
        (RecordState::AwaitingCollege, RecordAction::WriteCollege)
    );
}

#[test]
fn record_without_contact_is_done_after_the_college() {
    let inserted = StorageEvent::CollegeWritten { id: 4, was_insert: Some(true) };
    assert_eq!(
        advance(RecordState::AwaitingCollege, &record("COEP"), inserted),
        (RecordState::Finished, RecordAction::Complete(RecordOutcome::Inserted))
    );
    let updated = StorageEvent::CollegeWritten { id: 4, was_insert: Some(false) };
    assert_eq!(
        advance(RecordState::AwaitingCollege, &record("COEP"), updated),
        (RecordState::Finished, RecordAction::Complete(RecordOutcome::Updated))
    );
}

#[test]
fn store_that_does_not_say_counts_as_insert() {
    let unknown = StorageEvent::CollegeWritten { id: 4, was_insert: None };
    assert_eq!(
        advance(RecordState::AwaitingCollege, &record("COEP"), unknown),
        (RecordState::Finished, RecordAction::Complete(RecordOutcome::Inserted))
    );
}

#[test]
fn record_with_contact_goes_on_to_the_contact_row() {
    let updated = StorageEvent::CollegeWritten { id: 9, was_insert: Some(false) };
    assert_eq!(
        advance(RecordState::AwaitingCollege, &with_phone("COEP"), updated),
        (
            RecordState::AwaitingContact { updated: true },
            RecordAction::WriteContact { college_id: 9 }
        )
    );
    assert_eq!(
        advance(
            RecordState::AwaitingContact { updated: true },
            &with_phone("COEP"),
            StorageEvent::ContactWritten
        ),
        (RecordState::Finished, RecordAction::Complete(RecordOutcome::Updated))
    );
    assert_eq!(
        advance(
            RecordState::AwaitingContact { updated: false },
            &with_phone("COEP"),
            StorageEvent::ContactWritten
        ),
        (RecordState::Finished, RecordAction::Complete(RecordOutcome::Inserted))
    );
}

#[test]
fn any_single_contact_detail_asks_for_the_contact_row() {
    let written = || StorageEvent::CollegeWritten { id: 1, was_insert: Some(true) };
    let details = [
        CollegeImport { phone: Some("1".to_string()), ..record("A") },
        CollegeImport { email: Some("a@b.c".to_string()), ..record("A") },
        CollegeImport { website: Some("https://a.example".to_string()), ..record("A") },
        CollegeImport { address: Some("Shivajinagar".to_string()), ..record("A") },
        CollegeImport { pincode: Some("411005".to_string()), ..record("A") },
    ];
    for detail in details.iter() {
        assert!(detail.has_contact());
        assert_eq!(
            advance(RecordState::AwaitingCollege, detail, written()).1,
            RecordAction::WriteContact { college_id: 1 }
        );
    }
    assert!(!record("A").has_contact());
}

#[test]
fn failure_at_either_step_ends_the_record() {
    assert_eq!(
        advance(
            RecordState::AwaitingCollege,
            &with_phone("COEP"),
            StorageEvent::Failed("connection reset".to_string())
        ),
        (RecordState::Finished, RecordAction::Complete(failed("connection reset")))
    );
    assert_eq!(
        advance(
            RecordState::AwaitingContact { updated: false },
            &with_phone("COEP"),
            StorageEvent::Failed("deadlock detected".to_string())
        ),
        (RecordState::Finished, RecordAction::Complete(failed("deadlock detected")))
    );
}

#[test]
fn answer_that_was_not_waited_for_ends_the_record() {
    let violation =
        (RecordState::Finished, RecordAction::Complete(failed("unexpected storage event")));
    assert_eq!(
        advance(RecordState::Fresh, &record("A"), StorageEvent::ContactWritten),
        violation
    );
    assert_eq!(
        advance(
            RecordState::Fresh,
            &record("A"),
            StorageEvent::CollegeWritten { id: 1, was_insert: Some(true) }
        ),
        violation
    );
    assert_eq!(
        advance(RecordState::AwaitingCollege, &record("A"), StorageEvent::Start),
        violation
    );
    assert_eq!(
        advance(RecordState::AwaitingCollege, &record("A"), StorageEvent::ContactWritten),
        violation
    );
    assert_eq!(
        advance(RecordState::AwaitingContact { updated: true }, &record("A"), StorageEvent::Start),
        violation
    );
    assert_eq!(advance(RecordState::Finished, &record("A"), StorageEvent::Start), violation);
    assert_eq!(
        advance(RecordState::Finished, &record("A"), StorageEvent::Failed("late".to_string())),
        violation
    );
}

#[test]
fn summary_of_an_empty_batch() {
    assert_eq!(
        summarize_records(&Vec::new()),
        UploadResponse {
            message: "Upload completed".to_string(),
            inserted: 0,
            updated: 0,
            errors: Vec::new(),
        }
    );
    assert_eq!(
        summarize_lines(&Vec::new()),
        UploadResponse {
            message: "CSV upload completed".to_string(),
            inserted: 0,
            updated: 0,
            errors: Vec::new(),
        }
    );
}

#[test]
fn one_bad_record_does_not_stop_the_batch() {
    let outcomes = vec![
        RecordOutcome::Inserted,
        RecordOutcome::Updated,
        failed("null value in column \"name\""),
        RecordOutcome::Inserted,
        RecordOutcome::Updated,
    ];
    assert_eq!(
        summarize_records(&outcomes),
        UploadResponse {
            message: "Upload completed".to_string(),
            inserted: 2,
            updated: 2,
            errors: vec!["College #3: null value in column \"name\"".to_string()],
        }
    );
}

#[test]
fn record_errors_keep_input_order_and_positions_from_one() {
    let outcomes = vec![
        failed("first"),
        RecordOutcome::Inserted,
        failed("third"),
        RecordOutcome::Updated,
        RecordOutcome::Updated,
        RecordOutcome::Inserted,
        RecordOutcome::Inserted,
        RecordOutcome::Inserted,
        RecordOutcome::Inserted,
        failed("tenth"),
    ];
    let summary = summarize_records(&outcomes);
    assert_eq!(summary.inserted, 5);
    assert_eq!(summary.updated, 2);
    assert_eq!(
        summary.errors,
        vec![
            "College #1: first".to_string(),
            "College #3: third".to_string(),
            "College #10: tenth".to_string(),
        ]
    );
    assert_eq!(summary.inserted + summary.updated + summary.errors.len(), outcomes.len());
}

#[test]
fn line_errors_count_lines_from_the_header() {
    let lines = vec![
        LineOutcome::Parsed(RecordOutcome::Inserted),
        LineOutcome::Malformed("missing field `name`".to_string()),
        LineOutcome::Parsed(failed("connection reset")),
        LineOutcome::Parsed(RecordOutcome::Updated),
    ];
    assert_eq!(
        summarize_lines(&lines),
        UploadResponse {
            message: "CSV upload completed".to_string(),
            inserted: 1,
            updated: 1,
            errors: vec![
                "Line 3: CSV parsing error: missing field `name`".to_string(),
                "Line 4: connection reset".to_string(),
            ],
        }
    );
}

#[test]
fn malformed_first_line_is_line_two() {
    let lines = vec![LineOutcome::Malformed("found record with 3 fields".to_string())];
    assert_eq!(
        summarize_lines(&lines).errors,
        vec!["Line 2: CSV parsing error: found record with 3 fields".to_string()]
    );
}

#[test]
fn all_failures_are_all_reported() {
    let outcomes = vec![failed("a"), failed("b")];
    let summary = summarize_records(&outcomes);
    assert_eq!(summary.inserted, 0);
    assert_eq!(summary.updated, 0);
    assert_eq!(summary.errors, vec!["College #1: a".to_string(), "College #2: b".to_string()]);
}

#[test]
fn probe_reports_working_routes() {
    assert_eq!(
        UploadResponse::routes_working(),
        UploadResponse {
            message: "Admin routes working!".to_string(),
            inserted: 0,
            updated: 0,
            errors: Vec::new(),
        }
    );
}

#[test]
fn batch_keeps_its_records_in_order() {
    let batch = BulkCollegeData { colleges: vec![record("B"), record("A")] };
    assert_eq!(batch.colleges[0].name, "B");
    assert_eq!(batch.colleges[1].name, "A");
}

#[test]
fn college_write_is_one_conditional_statement() {
    let mut statement = built(college_upsert(&record("COEP")).unwrap());
    assert_eq!(
        statement.builder.sql(),
        "INSERT INTO colleges (name, category, district, city, type, autonomous, minority, hostel_available, established_year) VALUES ($1, $2, $3, $4, $5, $6, $7, $8, $9) ON CONFLICT (name, district, city) DO UPDATE SET category = EXCLUDED.category, type = EXCLUDED.type, autonomous = EXCLUDED.autonomous, minority = EXCLUDED.minority, hostel_available = EXCLUDED.hostel_available, established_year = EXCLUDED.established_year, updated_at = CURRENT_TIMESTAMP RETURNING id, (xmax = 0) AS was_insert"
    );
    let (count, shown) = bound(&mut statement);
    assert_eq!(count, 9);
    assert!(shown.contains("0, 0, 0, 4, 67, 79, 69, 80, 0, 0, 0, 11, 69, 110, 103"));
    // autonomous true, minority unknown, hostel false, year 1854
    assert!(shown.contains("0, 0, 0, 1, 1, 255, 255, 255, 255, 0, 0, 0, 1, 0, 0, 0, 0, 4, 0, 0, 7, 62"));
}

#[test]
fn contact_write_merges_on_conflict() {
    let mut statement = built(contact_upsert(
        12,
        &CollegeImport { email: Some("office@coep.example".to_string()), ..with_phone("COEP") },
    )
    .unwrap());
    assert_eq!(
        statement.builder.sql(),
        "INSERT INTO contact_info (college_id, phone, email, website, address, pincode) VALUES ($1, $2, $3, $4, $5, $6) ON CONFLICT (college_id) DO UPDATE SET phone = COALESCE(EXCLUDED.phone, contact_info.phone), email = COALESCE(EXCLUDED.email, contact_info.email), website = COALESCE(EXCLUDED.website, contact_info.website), address = COALESCE(EXCLUDED.address, contact_info.address), pincode = COALESCE(EXCLUDED.pincode, contact_info.pincode)"
    );
    let (count, shown) = bound(&mut statement);
    assert_eq!(count, 6);
    assert!(shown.contains("0, 0, 0, 4, 0, 0, 0, 12, 0, 0, 0, 12, 48, 50, 48, 45"));
    // website, address and pincode are absent
    assert!(shown.ends_with(
        "255, 255, 255, 255, 255, 255, 255, 255, 255, 255, 255, 255], count: 6, patches: [], type_holes: [] } }"
    ));
}

#[test]
fn write_statements_do_not_hold_the_values() {
    let hostile = CollegeImport {
        name: "x'); DROP TABLE colleges; --".to_string(),
        phone: Some("'; DELETE FROM contact_info; --".to_string()),
        ..record("x")
    };
    assert_eq!(
        built(college_upsert(&hostile).unwrap()).builder.sql(),
        built(college_upsert(&record("COEP")).unwrap()).builder.sql()
    );
    assert_eq!(
        built(contact_upsert(1, &hostile).unwrap()).builder.sql(),
        built(contact_upsert(2, &with_phone("COEP")).unwrap()).builder.sql()
    );
}

#[test]
fn write_statements_accept_ordinary_records() {
    assert!(matches!(college_upsert(&record("")), Ok(_)));
    let none: Result<Statement, ApiError> = contact_upsert(3, &record("COEP"));
    assert!(none.is_ok());
}

fn huge() -> String {
    "a".repeat(MAX_BIND_BYTES + 1)
}

#[test]
fn college_with_a_text_too_long_to_bind_is_refused() {
    let refused = Some(ApiError::BadRequest("value is too long".to_string()));
    let long_name = CollegeImport { name: huge(), ..record("x") };
    assert_eq!(college_upsert(&long_name).err(), refused);
    assert!(contact_upsert(1, &long_name).is_ok());
}

#[test]
fn contact_detail_too_long_to_bind_is_refused() {
    let refused = Some(ApiError::BadRequest("value is too long".to_string()));
    let long_phone = CollegeImport { phone: Some(huge()), ..record("x") };
    assert_eq!(contact_upsert(1, &long_phone).err(), refused);
}

#[test]
fn refused_write_is_a_failure_with_the_refusal() {
    assert_eq!(
        StorageEvent::refused(&ApiError::BadRequest("value is too long".to_string())),
        StorageEvent::Failed("value is too long".to_string())
    );
    assert_eq!(
        StorageEvent::refused(&ApiError::DatabaseError("secret".to_string())),
        StorageEvent::Failed("Database error occurred".to_string())
    );
}
