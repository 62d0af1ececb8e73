//! The read statements of the directory.
//!
//! Every value that comes from a client is bound; the text of a statement
//! depends on which filters are active and never on what they hold. The data
//! query and the count query of a listing are rendered from one predicate by
//! one function, so that the count is the count of what the pages show.

use vstd::prelude::*;
use vstd::string::StringExecFns;
use crate::errors::{ApiError, ApiErrorView};
use crate::filters::{
    all_bindable, compose, condition_views, filters_of, pattern_for, predicate_of,
    search_pattern, Column, Condition, ConditionView, Predicate,
};
use crate::pagination::{PageRequest, PaginationParams};
use crate::sql::{
    begin, bind_bool, bind_int4, bind_int8, bind_text, fits, fits_bind, oversized_value_message,
    placeholder, push_text, statement_args, statement_open, statement_sql, Bound, Statement,
};

verus! {

/// The name of a column in SQL.
pub open spec fn column_name(column: Column) -> Seq<char> {
    match column {
        Column::District => "district"@,
        Column::Category => "category"@,
        Column::CollegeType => "type"@,
        Column::Autonomous => "autonomous"@,
        Column::HostelAvailable => "hostel_available"@,
    }
}

/// The SQL of one condition in a statement that has `bound` values already.
pub open spec fn condition_sql(condition: ConditionView, bound: nat) -> Seq<char> {
    match condition {
        ConditionView::Search(_) => " AND (name ILIKE "@ + placeholder(bound + 1)
            + " OR district ILIKE "@ + placeholder(bound + 2) + " OR city ILIKE "@ + placeholder(
            bound + 3,
        ) + ")"@,
        ConditionView::Equals(column, _) => " AND "@ + column_name(column) + " = "@ + placeholder(
            bound + 1,
        ),
        ConditionView::IsTrue(column) => " AND "@ + column_name(column) + " = "@ + placeholder(
            bound + 1,
        ),
    }
}

/// The values that one condition binds, in the order of its placeholders.
pub open spec fn condition_args(condition: ConditionView) -> Seq<Bound> {
    match condition {
        ConditionView::Search(pattern) => seq![
            Bound::Text(Some(pattern)),
            Bound::Text(Some(pattern)),
            Bound::Text(Some(pattern)),
        ],
        ConditionView::Equals(_, value) => seq![Bound::Text(Some(value))],
        ConditionView::IsTrue(_) => seq![Bound::Bool(Some(true))],
    }
}

/// The values that a predicate binds.
pub open spec fn predicate_args(predicate: Seq<ConditionView>) -> Seq<Bound>
    decreases predicate.len(),
{
    if predicate.len() == 0 {
        seq![]
    } else {
        predicate_args(predicate.drop_last()) + condition_args(predicate.last())
    }
}

/// The SQL of a predicate in a statement that has `bound` values already:
/// one `AND` clause for each condition, numbered on from `bound`.
pub open spec fn predicate_sql(predicate: Seq<ConditionView>, bound: nat) -> Seq<char>
    decreases predicate.len(),
{
    if predicate.len() == 0 {
        seq![]
    } else {
        predicate_sql(predicate.drop_last(), bound) + condition_sql(
            predicate.last(),
            bound + predicate_args(predicate.drop_last()).len(),
        )
    }
}

/// The columns of a college, as every listing selects them.
pub open spec fn list_head() -> Seq<char> {
    "SELECT id, name, category, district, city, type, autonomous, minority, hostel_available, established_year FROM colleges WHERE 1=1"@
}

/// The count of colleges, before any condition.
pub open spec fn count_head() -> Seq<char> {
    "SELECT COUNT(*) FROM colleges WHERE 1=1"@
}

/// Every column of a college, before any condition.
pub open spec fn filtered_head() -> Seq<char> {
    "SELECT * FROM colleges WHERE 1=1"@
}

/// The text of the data query of a listing.
pub open spec fn list_sql(predicate: Seq<ConditionView>) -> Seq<char> {
    list_head() + predicate_sql(predicate, 0) + " ORDER BY name LIMIT "@ + placeholder(
        predicate_args(predicate).len() + 1,
    ) + " OFFSET "@ + placeholder(predicate_args(predicate).len() + 2)
}

/// The values of the data query of a listing: those of the predicate, then
/// the page size and the number of rows to skip.
pub open spec fn list_args(predicate: Seq<ConditionView>, request: PageRequest) -> Seq<Bound> {
    predicate_args(predicate).push(Bound::Int8(request.page_size() as i64)).push(
        Bound::Int8(request.row_offset() as i64),
    )
}

/// The text of the count query of a listing.
pub open spec fn count_sql(predicate: Seq<ConditionView>) -> Seq<char> {
    count_head() + predicate_sql(predicate, 0)
}

/// The text of the unpaged filter query.
pub open spec fn filtered_sql(predicate: Seq<ConditionView>) -> Seq<char> {
    filtered_head() + predicate_sql(predicate, 0) + " ORDER BY name"@
}

fn column_text(column: Column) -> (text: &'static str)
    ensures
        text@ == column_name(column),
{
    match column {
        Column::District => "district",
        Column::Category => "category",
        Column::CollegeType => "type",
        Column::Autonomous => "autonomous",
        Column::HostelAvailable => "hostel_available",
    }
}

/// Appends one condition: its SQL with fresh placeholders, its value bound.
fn push_condition(statement: &mut Statement, condition: &Condition)
    requires
        statement_open(*old(statement)),
        condition@.bindable(),
    ensures
        statement_sql(*final(statement)) == statement_sql(*old(statement)) + condition_sql(
            condition@,
            statement_args(*old(statement)).len(),
        ),
        statement_args(*final(statement)) == statement_args(*old(statement)) + condition_args(
            condition@,
        ),
        statement_open(*final(statement)),
{
    match condition {
        Condition::Search(pattern) => {
            push_text(statement, " AND (name ILIKE ");
            bind_text(statement, Some(pattern.clone()));
            push_text(statement, " OR district ILIKE ");
            bind_text(statement, Some(pattern.clone()));
            push_text(statement, " OR city ILIKE ");
            bind_text(statement, Some(pattern.clone()));
            push_text(statement, ")");
        },
        Condition::Equals(column, value) => {
            push_text(statement, " AND ");
            push_text(statement, column_text(*column));
            push_text(statement, " = ");
            bind_text(statement, Some(value.clone()));
        },
        Condition::IsTrue(column) => {
            push_text(statement, " AND ");
            push_text(statement, column_text(*column));
            push_text(statement, " = ");
            bind_bool(statement, Some(true));
        },
    }
}

/// Appends a predicate. This is the one place where conditions become SQL:
/// the data query and the count query both call it.
fn push_predicate(statement: &mut Statement, predicate: &Predicate)
    requires
        statement_open(*old(statement)),
    ensures
        statement_sql(*final(statement)) == statement_sql(*old(statement)) + predicate_sql(
            predicate@,
            statement_args(*old(statement)).len(),
        ),
        statement_args(*final(statement)) == statement_args(*old(statement)) + predicate_args(
            predicate@,
        ),
        statement_open(*final(statement)),
{
    let ghost sql = statement_sql(*statement);
    let ghost args = statement_args(*statement);
    let conditions = predicate.conditions();
    let ghost views = condition_views(conditions@);
    let mut i: usize = 0;
    while i < conditions.len()
        invariant
            i <= conditions.len(),
            views == condition_views(conditions@),
            all_bindable(views),
            statement_open(*statement),
            statement_sql(*statement) == sql + predicate_sql(views.take(i as int), args.len()),
            statement_args(*statement) == args + predicate_args(views.take(i as int)),
        decreases conditions.len() - i,
    {
        assert(views.take(i + 1).drop_last() =~= views.take(i as int));
        assert(views[i as int].bindable());
        push_condition(statement, &conditions[i]);
        i = i + 1;
    }
    assert(views.take(i as int) =~= views);
}

/// The data query of a listing: the colleges that satisfy the predicate, by
/// name, `LIMIT` the page size, `OFFSET` the rows of the earlier pages.
pub fn list_statement(predicate: &Predicate, request: &PageRequest) -> (statement: Statement)
    ensures
        statement_sql(statement) == list_sql(predicate@),
        statement_args(statement) == list_args(predicate@, *request),
        statement_open(statement),
{
    let mut statement = begin(
        "SELECT id, name, category, district, city, type, autonomous, minority, hostel_available, established_year FROM colleges WHERE 1=1",
    );
    push_predicate(&mut statement, predicate);
    push_text(&mut statement, " ORDER BY name LIMIT ");
    bind_int8(&mut statement, request.limit());
    push_text(&mut statement, " OFFSET ");
    bind_int8(&mut statement, request.offset());
    assert(predicate_sql(predicate@, 0) == predicate_sql(
        predicate@,
        Seq::<Bound>::empty().len(),
    ));
    statement
}

/// The count query of a listing: the number of colleges that satisfy the
/// same predicate, whatever the page.
pub fn count_statement(predicate: &Predicate) -> (statement: Statement)
    ensures
        statement_sql(statement) == count_sql(predicate@),
        statement_args(statement) == predicate_args(predicate@),
        statement_open(statement),
{
    let mut statement = begin("SELECT COUNT(*) FROM colleges WHERE 1=1");
    push_predicate(&mut statement, predicate);
    statement
}

/// The unpaged filter query: every college that satisfies the predicate, by name.
pub fn filtered_statement(predicate: &Predicate) -> (statement: Statement)
    ensures
        statement_sql(statement) == filtered_sql(predicate@),
        statement_args(statement) == predicate_args(predicate@),
        statement_open(statement),
{
    let mut statement = begin("SELECT * FROM colleges WHERE 1=1");
    push_predicate(&mut statement, predicate);
    push_text(&mut statement, " ORDER BY name");
    statement
}

/// What a listing request runs: the validated page, and the two statements
/// rendered from one predicate.
pub struct ListingPlan {
    pub request: PageRequest,
    pub rows: Statement,
    pub count: Statement,
}

/// Whether the parameters of a listing are accepted.
pub open spec fn listing_accepted(params: PaginationParams) -> bool {
    params.page != Some(0u32) && all_bindable(predicate_of(params.spec_filters()))
}

/// Plans a listing from the client's parameters. The page is validated and
/// the limit clamped; the blank filters are dropped; the others become the
/// predicate of both statements. Fails with a bad request for page 0 and for
/// a filter value too long to be bound, and for nothing else.
pub fn plan_listing(params: &PaginationParams) -> (plan: Result<ListingPlan, ApiError>)
    ensures
        plan is Ok <==> listing_accepted(*params),
        plan matches Ok(p) ==> {
            &&& p.request.wf()
            &&& p.request.page_number() == crate::pagination::requested_page(params.page)
            &&& p.request.page_size() == crate::pagination::clamped_limit(params.limit)
            &&& statement_sql(p.rows) == list_sql(predicate_of(params.spec_filters()))
            &&& statement_args(p.rows) == list_args(
                predicate_of(params.spec_filters()),
                p.request,
            )
            &&& statement_sql(p.count) == count_sql(predicate_of(params.spec_filters()))
            &&& statement_args(p.count) == predicate_args(predicate_of(params.spec_filters()))
        },
        plan matches Err(e) ==> e@ == ApiErrorView::BadRequest(
            if params.page == Some(0u32) {
                crate::pagination::page_zero_message()
            } else {
                crate::filters::oversized_filter_message()
            },
        ),
{
    let request = match PageRequest::new(params.page, params.limit) {
        Ok(request) => request,
        Err(e) => {
            return Err(e);
        },
    };
    let conditions = match params.predicate() {
        Ok(conditions) => conditions,
        Err(e) => {
            return Err(e);
        },
    };
    let rows = list_statement(&conditions, &request);
    let count = count_statement(&conditions);
    Ok(ListingPlan { request, rows, count })
}

/// A statement without parameters.
fn fixed(text: &str) -> (statement: Statement)
    ensures
        statement_sql(statement) == text@,
        statement_args(statement) == Seq::<Bound>::empty(),
        statement_open(statement),
{
    begin(text)
}

/// `head`, the placeholder of the one bound integer, `tail`.
fn select_by_id(head: &str, id: i32, tail: &str) -> (statement: Statement)
    ensures
        statement_sql(statement) == head@ + placeholder(1) + tail@,
        statement_args(statement) == seq![Bound::Int4(Some(id))],
        statement_open(statement),
{
    let mut statement = begin(head);
    bind_int4(&mut statement, Some(id));
    push_text(&mut statement, tail);
    statement
}

/// `head`, the placeholder of the one bound text, `tail`; a bad request where
/// the text is too long to be bound.
fn select_by_text(head: &str, value: &str, tail: &str) -> (result: Result<Statement, ApiError>)
    ensures
        result is Ok <==> fits_bind(value@),
        result matches Ok(statement) ==> {
            &&& statement_sql(statement) == head@ + placeholder(1) + tail@
            &&& statement_args(statement) == seq![Bound::Text(Some(value@))]
            &&& statement_open(statement)
        },
        result matches Err(e) ==> e@ == ApiErrorView::BadRequest(oversized_value_message()),
{
    if !fits(value) {
        return Err(ApiError::BadRequest(String::from_str("value is too long")));
    }
    let mut statement = begin(head);
    bind_text(&mut statement, Some(String::from_str(value)));
    push_text(&mut statement, tail);
    Ok(statement)
}

/// The text of [`all_colleges`].
pub open spec fn all_colleges_sql() -> Seq<char> {
    "SELECT * FROM colleges ORDER BY name"@
}

/// Every college, by name.
pub fn all_colleges() -> (statement: Statement)
    ensures
        statement_sql(statement) == all_colleges_sql(),
        statement_args(statement) == Seq::<Bound>::empty(),
{
    fixed("SELECT * FROM colleges ORDER BY name")
}

/// The text of [`college_by_id`].
pub open spec fn college_by_id_sql() -> Seq<char> {
    "SELECT * FROM colleges WHERE id = "@ + placeholder(1)
}

/// The college with the given id, without its contact details.
pub fn college_by_id(id: i32) -> (statement: Statement)
    ensures
        statement_sql(statement) == college_by_id_sql(),
        statement_args(statement) == seq![Bound::Int4(Some(id))],
{
    let statement = select_by_id("SELECT * FROM colleges WHERE id = ", id, "");
    proof {
        reveal_strlit("");
    }
    statement
}

/// The text of [`college_with_contact_by_id`].
pub open spec fn college_with_contact_sql() -> Seq<char> {
    "SELECT c.id, c.name, c.category, c.district, c.city, c.type, c.autonomous, c.minority, c.hostel_available, c.established_year, ci.phone, ci.email, ci.website, ci.address, ci.pincode FROM colleges c LEFT JOIN contact_info ci ON ci.college_id = c.id WHERE c.id = "@
        + placeholder(1)
}

/// The college with the given id, joined with its contact row where it has
/// one. The join is a left outer join, so a college without contact details
/// still appears.
pub fn college_with_contact_by_id(id: i32) -> (statement: Statement)
    ensures
        statement_sql(statement) == college_with_contact_sql(),
        statement_args(statement) == seq![Bound::Int4(Some(id))],
{
    let statement = select_by_id(
        "SELECT c.id, c.name, c.category, c.district, c.city, c.type, c.autonomous, c.minority, c.hostel_available, c.established_year, ci.phone, ci.email, ci.website, ci.address, ci.pincode FROM colleges c LEFT JOIN contact_info ci ON ci.college_id = c.id WHERE c.id = ",
        id,
        "",
    );
    proof {
        reveal_strlit("");
    }
    statement
}

/// The text of [`colleges_by_district`].
pub open spec fn colleges_by_district_sql() -> Seq<char> {
    "SELECT * FROM colleges WHERE district = "@ + placeholder(1) + " ORDER BY name"@
}

/// The colleges of one district, matched exactly, by name.
pub fn colleges_by_district(district: &str) -> (result: Result<Statement, ApiError>)
    ensures
        result is Ok <==> fits_bind(district@),
        result matches Ok(statement) ==> statement_sql(statement) == colleges_by_district_sql()
            && statement_args(statement) == seq![Bound::Text(Some(district@))],
        result matches Err(e) ==> e@ == ApiErrorView::BadRequest(oversized_value_message()),
{
    select_by_text(
        "SELECT * FROM colleges WHERE district = ",
        district,
        " ORDER BY name",
    )
}

/// The text of [`colleges_by_category`].
pub open spec fn colleges_by_category_sql() -> Seq<char> {
    "SELECT * FROM colleges WHERE category = "@ + placeholder(1) + " ORDER BY name"@
}

/// The colleges of one category, matched exactly, by name.
pub fn colleges_by_category(category: &str) -> (result: Result<Statement, ApiError>)
    ensures
        result is Ok <==> fits_bind(category@),
        result matches Ok(statement) ==> statement_sql(statement) == colleges_by_category_sql()
            && statement_args(statement) == seq![Bound::Text(Some(category@))],
        result matches Err(e) ==> e@ == ApiErrorView::BadRequest(oversized_value_message()),
{
    select_by_text(
        "SELECT * FROM colleges WHERE category = ",
        category,
        " ORDER BY name",
    )
}

/// The text of [`colleges_by_name`].
pub open spec fn colleges_by_name_sql() -> Seq<char> {
    "SELECT * FROM colleges WHERE name ILIKE "@ + placeholder(1) + " ORDER BY name"@
}

/// The colleges whose name holds the given text, without regard to case, by
/// name. The text is bound between two wildcards.
pub fn colleges_by_name(name: &str) -> (result: Result<Statement, ApiError>)
    ensures
        result is Ok <==> fits_bind(search_pattern(name@)),
        result matches Ok(statement) ==> statement_sql(statement) == colleges_by_name_sql()
            && statement_args(statement) == seq![Bound::Text(Some(search_pattern(name@)))],
        result matches Err(e) ==> e@ == ApiErrorView::BadRequest(oversized_value_message()),
{
    select_by_text(
        "SELECT * FROM colleges WHERE name ILIKE ",
        pattern_for(name).as_str(),
        " ORDER BY name",
    )
}

/// The text of [`all_districts`].
pub open spec fn all_districts_sql() -> Seq<char> {
    "SELECT DISTINCT district FROM colleges ORDER BY district"@
}

/// The districts that occur, each once, in order.
pub fn all_districts() -> (statement: Statement)
    ensures
        statement_sql(statement) == all_districts_sql(),
        statement_args(statement) == Seq::<Bound>::empty(),
{
    fixed("SELECT DISTINCT district FROM colleges ORDER BY district")
}

/// The text of [`all_categories`].
pub open spec fn all_categories_sql() -> Seq<char> {
    "SELECT DISTINCT category FROM colleges ORDER BY category"@
}

/// The categories that occur, each once, in order.
pub fn all_categories() -> (statement: Statement)
    ensures
        statement_sql(statement) == all_categories_sql(),
        statement_args(statement) == Seq::<Bound>::empty(),
{
    fixed("SELECT DISTINCT category FROM colleges ORDER BY category")
}

/// The text of [`all_college_types`].
pub open spec fn all_college_types_sql() -> Seq<char> {
    "SELECT DISTINCT type FROM colleges ORDER BY type"@
}

/// The college types that occur, each once, in order.
pub fn all_college_types() -> (statement: Statement)
    ensures
        statement_sql(statement) == all_college_types_sql(),
        statement_args(statement) == Seq::<Bound>::empty(),
{
    fixed("SELECT DISTINCT type FROM colleges ORDER BY type")
}

/// The text of [`cutoffs_by_college`].
pub open spec fn cutoffs_by_college_sql() -> Seq<char> {
    "SELECT * FROM cutoffs WHERE college_id = "@ + placeholder(1) + " ORDER BY year DESC"@
}

/// The admission cutoffs of one college, latest year first.
pub fn cutoffs_by_college(college_id: i32) -> (statement: Statement)
    ensures
        statement_sql(statement) == cutoffs_by_college_sql(),
        statement_args(statement) == seq![Bound::Int4(Some(college_id))],
{
    select_by_id("SELECT * FROM cutoffs WHERE college_id = ", college_id, " ORDER BY year DESC")
}

/// The text of [`admission_requirements`].
pub open spec fn admission_requirements_sql() -> Seq<char> {
    "SELECT * FROM admission_requirements WHERE category = "@ + placeholder(1)
}

/// The admission requirements of one category.
pub fn admission_requirements(category: &str) -> (result: Result<Statement, ApiError>)
    ensures
        result is Ok <==> fits_bind(category@),
        result matches Ok(statement) ==> statement_sql(statement) == admission_requirements_sql()
            && statement_args(statement) == seq![Bound::Text(Some(category@))],
        result matches Err(e) ==> e@ == ApiErrorView::BadRequest(oversized_value_message()),
{
    let result = select_by_text(
        "SELECT * FROM admission_requirements WHERE category = ",
        category,
        "",
    );
    proof {
        reveal_strlit("");
    }
    result
}

/// The unpaged filter query of filters given one by one: the colleges of
/// the district, the category and the type, matched exactly, that are
/// autonomous and have a hostel where that is asked for, by name. An absent
/// or blank text and a flag that is not set filter nothing. Fails with a bad
/// request for a value too long to be bound, and for nothing else.
pub fn colleges_with_filters(
    district: Option<&str>,
    category: Option<&str>,
    college_type: Option<&str>,
    autonomous: Option<bool>,
    hostel_available: Option<bool>,
) -> (result: Result<Statement, ApiError>)
    ensures
        ({
            let filters = filters_of(
                None,
                district,
                category,
                college_type,
                autonomous,
                hostel_available,
            );
            &&& result is Ok <==> all_bindable(predicate_of(filters))
            &&& result matches Ok(statement) ==> statement_sql(statement) == filtered_sql(
                predicate_of(filters),
            ) && statement_args(statement) == predicate_args(predicate_of(filters))
            &&& result matches Err(e) ==> e@ == ApiErrorView::BadRequest(
                crate::filters::oversized_filter_message(),
            )
        }),
{
    match compose(None, district, category, college_type, autonomous, hostel_available) {
        Ok(conditions) => Ok(filtered_statement(&conditions)),
        Err(e) => Err(e),
    }
}

/// Whether two conditions differ at most in the value they hold.
pub open spec fn same_shape(a: ConditionView, b: ConditionView) -> bool {
    match (a, b) {
        (ConditionView::Search(_), ConditionView::Search(_)) => true,
        (ConditionView::Equals(column, _), ConditionView::Equals(other, _)) => column == other,
        (ConditionView::IsTrue(column), ConditionView::IsTrue(other)) => column == other,
        _ => false,
    }
}

/// No filter value reaches the text of a statement. Two predicates that
/// differ only in the values of their conditions give the same SQL, with the
/// same placeholders; the values are among the bound values and nowhere else.
pub proof fn lemma_text_ignores_values(
    first: Seq<ConditionView>,
    second: Seq<ConditionView>,
    bound: nat,
)
    requires
        first.len() == second.len(),
        forall|i: int| 0 <= i < first.len() ==> same_shape(#[trigger] first[i], second[i]),
    ensures
        predicate_sql(first, bound) == predicate_sql(second, bound),
        predicate_args(first).len() == predicate_args(second).len(),
        list_sql(first) == list_sql(second),
        count_sql(first) == count_sql(second),
        filtered_sql(first) == filtered_sql(second),
{
    lemma_shape_fixes_text(first, second, bound);
    lemma_shape_fixes_text(first, second, 0);
}

/// [`lemma_text_ignores_values`] for the predicate alone, by induction on its length.
proof fn lemma_shape_fixes_text(first: Seq<ConditionView>, second: Seq<ConditionView>, bound: nat)
    requires
        first.len() == second.len(),
        forall|i: int| 0 <= i < first.len() ==> same_shape(#[trigger] first[i], second[i]),
    ensures
        predicate_sql(first, bound) == predicate_sql(second, bound),
        predicate_args(first).len() == predicate_args(second).len(),
    decreases first.len(),
{
    if first.len() > 0 {
        assert forall|i: int| 0 <= i < first.drop_last().len() implies same_shape(
            #[trigger] first.drop_last()[i],
            second.drop_last()[i],
        ) by {
        }
        lemma_shape_fixes_text(first.drop_last(), second.drop_last(), bound);
    }
}

/// A blank parameter is no parameter. Where a text parameter of a listing
/// holds only whitespace, the listing is accepted exactly if it is accepted
/// without that parameter, and both run the same two statements with the
/// same bound values, so both show the same rows and the same count.
pub proof fn lemma_blank_parameter_is_no_parameter(params: PaginationParams, blank: String)
    requires
        crate::text::is_blank(blank@),
    ensures
        listing_runs_the_same(
            PaginationParams { search: Some(blank), ..params },
            PaginationParams { search: None, ..params },
        ),
        listing_runs_the_same(
            PaginationParams { district: Some(blank), ..params },
            PaginationParams { district: None, ..params },
        ),
        listing_runs_the_same(
            PaginationParams { category: Some(blank), ..params },
            PaginationParams { category: None, ..params },
        ),
        listing_runs_the_same(
            PaginationParams { college_type: Some(blank), ..params },
            PaginationParams { college_type: None, ..params },
        ),
{
    crate::filters::lemma_blank_filter_is_no_filter(params.spec_filters(), blank@);
}

/// Whether two sets of listing parameters are accepted alike and lead to the
/// same statements, values and page.
pub open spec fn listing_runs_the_same(first: PaginationParams, second: PaginationParams) -> bool {
    &&& listing_accepted(first) == listing_accepted(second)
    &&& predicate_of(first.spec_filters()) == predicate_of(second.spec_filters())
    &&& first.page == second.page
    &&& first.limit == second.limit
}

} // verus!
