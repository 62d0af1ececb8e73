//! The optional filters of a college listing and the predicate they stand for.
//!
//! Each filter is optional by itself. A filter that is absent, or present but
//! blank, takes no part in the predicate: it is left out, it does not match
//! blank values. The filters that remain are combined with AND. The predicate
//! is a sequence of conditions, each a column, an operator and a value that
//! will be bound; both the data query and the count query are rendered from
//! this one sequence.

use vstd::prelude::*;
use vstd::string::StringExecFns;
use crate::errors::{ApiError, ApiErrorView};
use crate::models::{as_text, copy_opt_text, opt_str, opt_text};
use crate::pagination::{PaginationParams, DEFAULT_LIMIT, DEFAULT_PAGE};
use crate::sql::{fits, fits_bind};
use crate::text::{blank, is_blank};

verus! {

/// The filters of a listing, with the requested page.
#[derive(Clone, Debug, PartialEq, Eq)]
pub struct CollegeFilters {
    pub district: Option<String>,
    pub category: Option<String>,
    pub college_type: Option<String>,
    pub autonomous: Option<bool>,
    pub hostel_available: Option<bool>,
    pub search: Option<String>,
    pub page: Option<u32>,
    pub limit: Option<u32>,
}

/// What the predicate depends on: the six filters, without the page.
pub struct FiltersView {
    pub search: Option<Seq<char>>,
    pub district: Option<Seq<char>>,
    pub category: Option<Seq<char>>,
    pub college_type: Option<Seq<char>>,
    pub autonomous: Option<bool>,
    pub hostel_available: Option<bool>,
}

impl View for CollegeFilters {
    type V = FiltersView;

    open spec fn view(&self) -> FiltersView {
        FiltersView {
            search: opt_text(self.search),
            district: opt_text(self.district),
            category: opt_text(self.category),
            college_type: opt_text(self.college_type),
            autonomous: self.autonomous,
            hostel_available: self.hostel_available,
        }
    }
}

impl Default for CollegeFilters {
    /// No filter, the first page, and the default page size of the listing.
    fn default() -> (filters: CollegeFilters)
        ensures
            filters.district is None,
            filters.category is None,
            filters.college_type is None,
            filters.autonomous is None,
            filters.hostel_available is None,
            filters.search is None,
            filters.page == Some(DEFAULT_PAGE),
            filters.limit == Some(DEFAULT_LIMIT),
    {
        CollegeFilters {
            district: None,
            category: None,
            college_type: None,
            autonomous: None,
            hostel_available: None,
            search: None,
            page: Some(DEFAULT_PAGE),
            limit: Some(DEFAULT_LIMIT),
        }
    }
}

impl PaginationParams {
    /// The filters that the listing's parameters carry. The listing has no
    /// flag filters.
    pub open spec fn spec_filters(self) -> FiltersView {
        FiltersView {
            search: opt_text(self.search),
            district: opt_text(self.district),
            category: opt_text(self.category),
            college_type: opt_text(self.college_type),
            autonomous: None,
            hostel_available: None,
        }
    }

    /// Builds the predicate of the listing's filters. Fails with a bad
    /// request where an active filter's value is too long to be bound, and
    /// only then.
    pub fn predicate(&self) -> (result: Result<Predicate, ApiError>)
        ensures
            result is Ok <==> all_bindable(predicate_of(self.spec_filters())),
            result matches Ok(predicate) ==> predicate@ == predicate_of(self.spec_filters()),
            result matches Err(e) ==> e@ == ApiErrorView::BadRequest(oversized_filter_message()),
    {
        compose(
            as_text(&self.search),
            as_text(&self.district),
            as_text(&self.category),
            as_text(&self.college_type),
            None,
            None,
        )
    }

    /// The filters that the listing's parameters carry, with page and limit.
    pub fn filters(&self) -> (filters: CollegeFilters)
        ensures
            filters@ == self.spec_filters(),
            filters.page == self.page,
            filters.limit == self.limit,
    {
        CollegeFilters {
            district: copy_opt_text(&self.district),
            category: copy_opt_text(&self.category),
            college_type: copy_opt_text(&self.college_type),
            autonomous: None,
            hostel_available: None,
            search: copy_opt_text(&self.search),
            page: self.page,
            limit: self.limit,
        }
    }
}

/// A column of the colleges table that a condition can test.
#[derive(Clone, Copy, Debug, PartialEq, Eq)]
pub enum Column {
    District,
    Category,
    CollegeType,
    Autonomous,
    HostelAvailable,
}

/// One condition of a predicate.
#[derive(Clone, Debug, PartialEq, Eq)]
pub enum Condition {
    /// The pattern matches the name, the district or the city, without
    /// regard to case.
    Search(String),
    /// The text column equals the value exactly.
    Equals(Column, String),
    /// The flag column is true.
    IsTrue(Column),
}

/// A [`Condition`] with its value as a sequence of characters.
pub enum ConditionView {
    Search(Seq<char>),
    Equals(Column, Seq<char>),
    IsTrue(Column),
}

impl View for Condition {
    type V = ConditionView;

    open spec fn view(&self) -> ConditionView {
        match self {
            Condition::Search(pattern) => ConditionView::Search(pattern@),
            Condition::Equals(column, value) => ConditionView::Equals(*column, value@),
            Condition::IsTrue(column) => ConditionView::IsTrue(*column),
        }
    }
}

impl ConditionView {
    /// Whether the value of the condition can be bound to a statement.
    pub open spec fn bindable(self) -> bool {
        match self {
            ConditionView::Search(pattern) => fits_bind(pattern),
            ConditionView::Equals(_, value) => fits_bind(value),
            ConditionView::IsTrue(_) => true,
        }
    }
}

/// The predicate of a listing: conditions to be combined with AND, each with
/// a value that can be bound. The empty predicate admits every college.
#[derive(Debug, PartialEq, Eq)]
pub struct Predicate {
    conditions: Vec<Condition>,
}

impl View for Predicate {
    type V = Seq<ConditionView>;

    closed spec fn view(&self) -> Seq<ConditionView> {
        condition_views(self.conditions@)
    }
}

impl Predicate {
    #[verifier::type_invariant]
    spec fn bindable(self) -> bool {
        all_bindable(condition_views(self.conditions@))
    }

    /// The conditions, in the order in which they are rendered.
    pub fn conditions(&self) -> (conditions: &Vec<Condition>)
        ensures
            condition_views(conditions@) == self@,
            all_bindable(self@),
    {
        proof {
            use_type_invariant(self);
        }
        &self.conditions
    }
}

/// The views of a sequence of conditions.
pub open spec fn condition_views(conditions: Seq<Condition>) -> Seq<ConditionView> {
    conditions.map_values(|c: Condition| c@)
}

/// Whether every condition of a predicate can be bound.
pub open spec fn all_bindable(predicate: Seq<ConditionView>) -> bool {
    forall|i: int| 0 <= i < predicate.len() ==> (#[trigger] predicate[i]).bindable()
}

/// The value a text filter filters by: none where the filter is absent or blank.
pub open spec fn active(filter: Option<Seq<char>>) -> Option<Seq<char>> {
    match filter {
        Some(value) => if is_blank(value) {
            None
        } else {
            Some(value)
        },
        None => None,
    }
}

/// The pattern of a search term: the term between two wildcards, so that it
/// matches wherever the term occurs.
pub open spec fn search_pattern(term: Seq<char>) -> Seq<char> {
    seq!['%'] + term + seq!['%']
}

/// The condition of the search filter, if it is active.
pub open spec fn search_condition(filter: Option<Seq<char>>) -> Seq<ConditionView> {
    match active(filter) {
        Some(term) => seq![ConditionView::Search(search_pattern(term))],
        None => seq![],
    }
}

/// The condition of an exact-match filter, if it is active.
pub open spec fn equals_condition(column: Column, filter: Option<Seq<char>>) -> Seq<
    ConditionView,
> {
    match active(filter) {
        Some(value) => seq![ConditionView::Equals(column, value)],
        None => seq![],
    }
}

/// The condition of a flag filter. Only a flag that is set filters:
/// an absent flag and a cleared one both leave the column untested.
pub open spec fn flag_condition(column: Column, filter: Option<bool>) -> Seq<ConditionView> {
    if filter == Some(true) {
        seq![ConditionView::IsTrue(column)]
    } else {
        seq![]
    }
}

/// The predicate of a set of filters: the conditions of the active filters,
/// in a fixed order, to be combined with AND.
pub open spec fn predicate_of(filters: FiltersView) -> Seq<ConditionView> {
    search_condition(filters.search) + equals_condition(Column::District, filters.district)
        + equals_condition(Column::Category, filters.category) + equals_condition(
        Column::CollegeType,
        filters.college_type,
    ) + flag_condition(Column::Autonomous, filters.autonomous) + flag_condition(
        Column::HostelAvailable,
        filters.hostel_available,
    )
}

/// What a caller is told whose filter value cannot be bound.
pub open spec fn oversized_filter_message() -> Seq<char> {
    "filter value is too long"@
}

/// The pattern of a search term.
pub fn pattern_for(term: &str) -> (pattern: String)
    ensures
        pattern@ == search_pattern(term@),
{
    let mut pattern = String::new();
    pattern.push('%');
    pattern.append(term);
    pattern.push('%');
    pattern
}

fn push_condition(conditions: &mut Vec<Condition>, condition: Condition)
    ensures
        condition_views(final(conditions)@) == condition_views(old(conditions)@).push(condition@),
{
    conditions.push(condition);
}

fn push_equals(
    conditions: &mut Vec<Condition>,
    column: Column,
    filter: Option<&str>,
) -> (ok: bool)
    requires
        all_bindable(condition_views(old(conditions)@)),
    ensures
        ok == all_bindable(equals_condition(column, opt_str(filter))),
        condition_views(final(conditions)@) == if ok {
            condition_views(old(conditions)@) + equals_condition(column, opt_str(filter))
        } else {
            condition_views(old(conditions)@)
        },
        all_bindable(condition_views(final(conditions)@)),
{
    match filter {
        Some(value) => {
            if blank(value) {
                assert(condition_views(conditions@) + Seq::<ConditionView>::empty()
                    =~= condition_views(conditions@));
                true
            } else if fits(value) {
                let ghost before = condition_views(conditions@);
                push_condition(conditions, Condition::Equals(column, String::from_str(value)));
                assert(before.push(ConditionView::Equals(column, value@)) =~= before
                    + seq![ConditionView::Equals(column, value@)]);
                true
            } else {
                assert(!equals_condition(column, opt_str(filter))[0].bindable());
                false
            }
        },
        None => {
            assert(condition_views(conditions@) + Seq::<ConditionView>::empty()
                =~= condition_views(conditions@));
            true
        },
    }
}

fn push_search(conditions: &mut Vec<Condition>, filter: Option<&str>) -> (ok: bool)
    requires
        all_bindable(condition_views(old(conditions)@)),
    ensures
        ok == all_bindable(search_condition(opt_str(filter))),
        condition_views(final(conditions)@) == if ok {
            condition_views(old(conditions)@) + search_condition(opt_str(filter))
        } else {
            condition_views(old(conditions)@)
        },
        all_bindable(condition_views(final(conditions)@)),
{
    match filter {
        Some(term) => {
            if blank(term) {
                assert(condition_views(conditions@) + Seq::<ConditionView>::empty()
                    =~= condition_views(conditions@));
                true
            } else {
                let pattern = pattern_for(term);
                if fits(pattern.as_str()) {
                    let ghost before = condition_views(conditions@);
                    push_condition(conditions, Condition::Search(pattern));
                    assert(before.push(ConditionView::Search(search_pattern(term@))) =~= before
                        + seq![ConditionView::Search(search_pattern(term@))]);
                    true
                } else {
                    assert(!search_condition(opt_str(filter))[0].bindable());
                    false
                }
            }
        },
        None => {
            assert(condition_views(conditions@) + Seq::<ConditionView>::empty()
                =~= condition_views(conditions@));
            true
        },
    }
}

fn push_flag(conditions: &mut Vec<Condition>, column: Column, filter: Option<bool>)
    requires
        all_bindable(condition_views(old(conditions)@)),
    ensures
        condition_views(final(conditions)@) == condition_views(old(conditions)@) + flag_condition(
            column,
            filter,
        ),
        all_bindable(condition_views(final(conditions)@)),
{
    let ghost before = condition_views(conditions@);
    match filter {
        Some(true) => {
            push_condition(conditions, Condition::IsTrue(column));
            assert(before.push(ConditionView::IsTrue(column)) =~= before + seq![
                ConditionView::IsTrue(column),
            ]);
        },
        _ => {
        },
    }
}

/// The filters given one by one.
pub open spec fn filters_of(
    search: Option<&str>,
    district: Option<&str>,
    category: Option<&str>,
    college_type: Option<&str>,
    autonomous: Option<bool>,
    hostel_available: Option<bool>,
) -> FiltersView {
    FiltersView {
        search: opt_str(search),
        district: opt_str(district),
        category: opt_str(category),
        college_type: opt_str(college_type),
        autonomous,
        hostel_available,
    }
}

/// Builds the predicate of filters given one by one. Fails with a bad request
/// where an active filter's value is too long to be bound, and only then.
pub fn compose(
    search: Option<&str>,
    district: Option<&str>,
    category: Option<&str>,
    college_type: Option<&str>,
    autonomous: Option<bool>,
    hostel_available: Option<bool>,
) -> (result: Result<Predicate, ApiError>)
    ensures
        ({
            let filters = filters_of(
                search,
                district,
                category,
                college_type,
                autonomous,
                hostel_available,
            );
            &&& result is Ok <==> all_bindable(predicate_of(filters))
            &&& result matches Ok(predicate) ==> predicate@ == predicate_of(filters)
            &&& result matches Err(e) ==> e@ == ApiErrorView::BadRequest(
                oversized_filter_message(),
            )
        }),
{
    let mut conditions: Vec<Condition> = Vec::new();
    let ghost p1 = search_condition(opt_str(search));
    let ghost p2 = equals_condition(Column::District, opt_str(district));
    let ghost p3 = equals_condition(Column::Category, opt_str(category));
    let ghost p4 = equals_condition(Column::CollegeType, opt_str(college_type));
    let ghost p5 = flag_condition(Column::Autonomous, autonomous);
    let ghost p6 = flag_condition(Column::HostelAvailable, hostel_available);
    proof {
        lemma_all_bindable_concat(p1, p2);
        lemma_all_bindable_concat(p1 + p2, p3);
        lemma_all_bindable_concat(p1 + p2 + p3, p4);
        lemma_all_bindable_concat(p1 + p2 + p3 + p4, p5);
        lemma_all_bindable_concat(p1 + p2 + p3 + p4 + p5, p6);
    }
    let ok = push_search(&mut conditions, search) && push_equals(
        &mut conditions,
        Column::District,
        district,
    ) && push_equals(&mut conditions, Column::Category, category) && push_equals(
        &mut conditions,
        Column::CollegeType,
        college_type,
    );
    if !ok {
        return Err(ApiError::BadRequest(String::from_str("filter value is too long")));
    }
    push_flag(&mut conditions, Column::Autonomous, autonomous);
    push_flag(&mut conditions, Column::HostelAvailable, hostel_available);
    Ok(Predicate { conditions })
}

/// Builds the predicate of a set of filters. Fails with a bad request where
/// an active filter's value is too long to be bound, and only then.
pub fn predicate(filters: &CollegeFilters) -> (result: Result<Predicate, ApiError>)
    ensures
        result is Ok <==> all_bindable(predicate_of(filters@)),
        result matches Ok(predicate) ==> predicate@ == predicate_of(filters@),
        result matches Err(e) ==> e@ == ApiErrorView::BadRequest(oversized_filter_message()),
{
    compose(
        as_text(&filters.search),
        as_text(&filters.district),
        as_text(&filters.category),
        as_text(&filters.college_type),
        filters.autonomous,
        filters.hostel_available,
    )
}

/// A concatenation can be bound exactly when both parts can.
pub proof fn lemma_all_bindable_concat(a: Seq<ConditionView>, b: Seq<ConditionView>)
    ensures
        all_bindable(a + b) <==> all_bindable(a) && all_bindable(b),
{
    if all_bindable(a + b) {
        assert forall|i: int| 0 <= i < a.len() implies (#[trigger] a[i]).bindable() by {
            assert((a + b)[i] == a[i]);
        }
        assert forall|i: int| 0 <= i < b.len() implies (#[trigger] b[i]).bindable() by {
            assert((a + b)[a.len() + i] == b[i]);
        }
    }
}

/// A blank filter is no filter: where a text filter holds only whitespace,
/// the predicate is the one of the same filters with that filter absent. The
/// data query and the count query are rendered from the predicate alone, so
/// both requests run the same statements with the same bound values.
pub proof fn lemma_blank_filter_is_no_filter(filters: FiltersView, blank: Seq<char>)
    requires
        is_blank(blank),
    ensures
        predicate_of(FiltersView { search: Some(blank), ..filters }) == predicate_of(
            FiltersView { search: None, ..filters },
        ),
        predicate_of(FiltersView { district: Some(blank), ..filters }) == predicate_of(
            FiltersView { district: None, ..filters },
        ),
        predicate_of(FiltersView { category: Some(blank), ..filters }) == predicate_of(
            FiltersView { category: None, ..filters },
        ),
        predicate_of(FiltersView { college_type: Some(blank), ..filters }) == predicate_of(
            FiltersView { college_type: None, ..filters },
        ),
{
}

} // verus!
