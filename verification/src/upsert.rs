//! The two write statements of the import.
//!
//! Each is a single conditional write: the store inserts the row, or, where
//! a row with the same key exists, updates it, in one atomic statement. The
//! college is keyed by its natural key (name, district, city); an update
//! replaces every other field. The contact row is keyed by the college; an
//! update merges field by field, keeping the stored detail wherever the new
//! one is absent.

use vstd::prelude::*;
use vstd::string::StringExecFns;
use crate::errors::{ApiError, ApiErrorView};
use crate::import::{CollegeImport, CollegeImportView};
use crate::models::{copy_opt_text, ContactDetails};
use crate::sql::{
    begin, bind_bool, bind_int4, bind_text, fits, fits_bind, opt_fits, opt_fits_bind,
    oversized_value_message, placeholder, push_text, statement_args, statement_sql, Bound,
    Statement,
};

verus! {

/// The text of the college write.
pub open spec fn college_upsert_sql() -> Seq<char> {
    "INSERT INTO colleges (name, category, district, city, type, autonomous, minority, hostel_available, established_year) VALUES ("@
        + placeholder(1) + ", "@ + placeholder(2) + ", "@ + placeholder(3) + ", "@ + placeholder(4)
        + ", "@ + placeholder(5) + ", "@ + placeholder(6) + ", "@ + placeholder(7) + ", "@
        + placeholder(8) + ", "@ + placeholder(9)
        + ") ON CONFLICT (name, district, city) DO UPDATE SET category = EXCLUDED.category, type = EXCLUDED.type, autonomous = EXCLUDED.autonomous, minority = EXCLUDED.minority, hostel_available = EXCLUDED.hostel_available, established_year = EXCLUDED.established_year, updated_at = CURRENT_TIMESTAMP RETURNING id, (xmax = 0) AS was_insert"@
}

/// The values of the college write, in the order of the columns. A flag or
/// a year that the record does not give is bound as `NULL`: unknown, not false.
pub open spec fn college_upsert_args(record: CollegeImportView) -> Seq<Bound> {
    seq![
        Bound::Text(Some(record.name)),
        Bound::Text(Some(record.category)),
        Bound::Text(Some(record.district)),
        Bound::Text(Some(record.city)),
        Bound::Text(Some(record.college_type)),
        Bound::Bool(record.autonomous),
        Bound::Bool(record.minority),
        Bound::Bool(record.hostel_available),
        Bound::Int4(record.established_year),
    ]
}

/// Whether every text of the college write can be bound.
pub open spec fn college_bindable(record: CollegeImportView) -> bool {
    fits_bind(record.name) && fits_bind(record.category) && fits_bind(record.district)
        && fits_bind(record.city) && fits_bind(record.college_type)
}

/// The text of the contact write.
pub open spec fn contact_upsert_sql() -> Seq<char> {
    "INSERT INTO contact_info (college_id, phone, email, website, address, pincode) VALUES ("@
        + placeholder(1) + ", "@ + placeholder(2) + ", "@ + placeholder(3) + ", "@ + placeholder(4)
        + ", "@ + placeholder(5) + ", "@ + placeholder(6)
        + ") ON CONFLICT (college_id) DO UPDATE SET phone = COALESCE(EXCLUDED.phone, contact_info.phone), email = COALESCE(EXCLUDED.email, contact_info.email), website = COALESCE(EXCLUDED.website, contact_info.website), address = COALESCE(EXCLUDED.address, contact_info.address), pincode = COALESCE(EXCLUDED.pincode, contact_info.pincode)"@
}

/// The values of the contact write: the college, then the five details.
pub open spec fn contact_upsert_args(college_id: i32, contact: ContactDetails) -> Seq<Bound> {
    seq![
        Bound::Int4(Some(college_id)),
        Bound::Text(contact.phone),
        Bound::Text(contact.email),
        Bound::Text(contact.website),
        Bound::Text(contact.address),
        Bound::Text(contact.pincode),
    ]
}

/// Whether every detail of the contact write can be bound.
pub open spec fn contact_bindable(contact: ContactDetails) -> bool {
    opt_fits_bind(contact.phone) && opt_fits_bind(contact.email) && opt_fits_bind(contact.website)
        && opt_fits_bind(contact.address) && opt_fits_bind(contact.pincode)
}

/// The statement that inserts the record's college, or updates the college
/// that has the record's natural key. It returns the college's id and
/// whether the row is new. Fails with a bad request where a text of the
/// record is too long to be bound, and only then.
pub fn college_upsert(record: &CollegeImport) -> (result: Result<Statement, ApiError>)
    ensures
        result is Ok <==> college_bindable(record@),
        result matches Ok(statement) ==> {
            &&& statement_sql(statement) == college_upsert_sql()
            &&& statement_args(statement) == college_upsert_args(record@)
        },
        result matches Err(e) ==> e@ == ApiErrorView::BadRequest(oversized_value_message()),
{
    if !(fits(record.name.as_str()) && fits(record.category.as_str()) && fits(
        record.district.as_str(),
    ) && fits(record.city.as_str()) && fits(record.college_type.as_str())) {
        return Err(ApiError::BadRequest(String::from_str("value is too long")));
    }
    let mut statement = begin(
        "INSERT INTO colleges (name, category, district, city, type, autonomous, minority, hostel_available, established_year) VALUES (",
    );
    bind_text(&mut statement, Some(record.name.clone()));
    push_text(&mut statement, ", ");
    bind_text(&mut statement, Some(record.category.clone()));
    push_text(&mut statement, ", ");
    bind_text(&mut statement, Some(record.district.clone()));
    push_text(&mut statement, ", ");
    bind_text(&mut statement, Some(record.city.clone()));
    push_text(&mut statement, ", ");
    bind_text(&mut statement, Some(record.college_type.clone()));
    push_text(&mut statement, ", ");
    bind_bool(&mut statement, record.autonomous);
    push_text(&mut statement, ", ");
    bind_bool(&mut statement, record.minority);
    push_text(&mut statement, ", ");
    bind_bool(&mut statement, record.hostel_available);
    push_text(&mut statement, ", ");
    bind_int4(&mut statement, record.established_year);
    push_text(
        &mut statement,
        ") ON CONFLICT (name, district, city) DO UPDATE SET category = EXCLUDED.category, type = EXCLUDED.type, autonomous = EXCLUDED.autonomous, minority = EXCLUDED.minority, hostel_available = EXCLUDED.hostel_available, established_year = EXCLUDED.established_year, updated_at = CURRENT_TIMESTAMP RETURNING id, (xmax = 0) AS was_insert",
    );
    Ok(statement)
}

/// The statement that inserts the contact row of the college `college_id`
/// with the record's details, or merges them into the row that the college
/// has. Fails with a bad request where a detail is too long to be bound, and
/// only then.
pub fn contact_upsert(college_id: i32, record: &CollegeImport) -> (result: Result<
    Statement,
    ApiError,
>)
    ensures
        result is Ok <==> contact_bindable(record@.contact),
        result matches Ok(statement) ==> {
            &&& statement_sql(statement) == contact_upsert_sql()
            &&& statement_args(statement) == contact_upsert_args(college_id, record@.contact)
        },
        result matches Err(e) ==> e@ == ApiErrorView::BadRequest(oversized_value_message()),
{
    if !(opt_fits(&record.phone) && opt_fits(&record.email) && opt_fits(&record.website)
        && opt_fits(&record.address) && opt_fits(&record.pincode)) {
        return Err(ApiError::BadRequest(String::from_str("value is too long")));
    }
    let mut statement = begin(
        "INSERT INTO contact_info (college_id, phone, email, website, address, pincode) VALUES (",
    );
    bind_int4(&mut statement, Some(college_id));
    push_text(&mut statement, ", ");
    bind_text(&mut statement, copy_opt_text(&record.phone));
    push_text(&mut statement, ", ");
    bind_text(&mut statement, copy_opt_text(&record.email));
    push_text(&mut statement, ", ");
    bind_text(&mut statement, copy_opt_text(&record.website));
    push_text(&mut statement, ", ");
    bind_text(&mut statement, copy_opt_text(&record.address));
    push_text(&mut statement, ", ");
    bind_text(&mut statement, copy_opt_text(&record.pincode));
    push_text(
        &mut statement,
        ") ON CONFLICT (college_id) DO UPDATE SET phone = COALESCE(EXCLUDED.phone, contact_info.phone), email = COALESCE(EXCLUDED.email, contact_info.email), website = COALESCE(EXCLUDED.website, contact_info.website), address = COALESCE(EXCLUDED.address, contact_info.address), pincode = COALESCE(EXCLUDED.pincode, contact_info.pincode)",
    );
    Ok(statement)
}

} // verus!
