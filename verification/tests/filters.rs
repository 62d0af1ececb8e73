use college_directory::filters::{
    compose, pattern_for, predicate, CollegeFilters, Column, Condition,
};
use college_directory::models::{as_text, copy_opt_text};
use college_directory::pagination::PaginationParams;

fn text(value: &str) -> Option<String> {
    Some(value.to_string())
}

fn no_filters() -> CollegeFilters {
    CollegeFilters {
        district: None,
        category: None,
        college_type: None,
        autonomous: None,
        hostel_available: None,
        search: None,
        page: None,
        limit: None,
    }
}

fn conditions(filters: &CollegeFilters) -> Vec<Condition> {
    predicate(filters).unwrap().conditions().clone()
}

#[test]
fn default_filters_are_none_with_first_page_of_twelve() {
    let filters = CollegeFilters::default();
    assert_eq!(filters.district, None);
    assert_eq!(filters.category, None);
    assert_eq!(filters.college_type, None);
    assert_eq!(filters.autonomous, None);
    assert_eq!(filters.hostel_available, None);
    assert_eq!(filters.search, None);
    assert_eq!(filters.page, Some(1));
    assert_eq!(filters.limit, Some(12));
}

#[test]
fn no_filter_is_the_empty_predicate() {
    assert_eq!(conditions(&no_filters()), Vec::<Condition>::new());
    assert_eq!(conditions(&CollegeFilters::default()), Vec::<Condition>::new());
}

#[test]
fn search_term_is_wrapped_in_wildcards() {
    assert_eq!(pattern_for("pune"), "%pune%");
    assert_eq!(pattern_for(""), "%%");
    assert_eq!(pattern_for(" of "), "% of %");
    let filters = CollegeFilters { search: text("pune"), ..no_filters() };
    assert_eq!(conditions(&filters), vec![Condition::Search("%pune%".to_string())]);
}

#[test]
fn exact_filters_keep_their_value_as_it_is() {
    let filters = CollegeFilters {
        district: text("Pune"),
        category: text(" Engineering "),
        college_type: text("Government"),
        ..no_filters()
    };
    assert_eq!(
        conditions(&filters),
        vec![
            Condition::Equals(Column::District, "Pune".to_string()),
            Condition::Equals(Column::Category, " Engineering ".to_string()),
            Condition::Equals(Column::CollegeType, "Government".to_string()),
        ]
    );
}

#[test]
fn conditions_come_in_a_fixed_order() {
    let filters = CollegeFilters {
        district: text("Pune"),
        category: text("Engineering"),
        college_type: text("Private"),
        autonomous: Some(true),
        hostel_available: Some(true),
        search: text("tech"),
        page: Some(3),
        limit: Some(7),
    };
    assert_eq!(
        conditions(&filters),
        vec![
            Condition::Search("%tech%".to_string()),
            Condition::Equals(Column::District, "Pune".to_string()),
            Condition::Equals(Column::Category, "Engineering".to_string()),
            Condition::Equals(Column::CollegeType, "Private".to_string()),
            Condition::IsTrue(Column::Autonomous),
            Condition::IsTrue(Column::HostelAvailable),
        ]
    );
}

#[test]
fn blank_filter_is_no_filter() {
    for blank in ["", " ", "   ", "\t", " \n ", "\u{3000}"] {
        let with_blank = CollegeFilters {
            district: text(blank),
            category: text(blank),
            college_type: text(blank),
            search: text(blank),
            ..no_filters()
        };
        assert_eq!(conditions(&with_blank), conditions(&no_filters()), "{:?}", blank);
        assert_eq!(predicate(&with_blank), predicate(&no_filters()));
    }
}

#[test]
fn blank_district_beside_other_filters_changes_nothing() {
    let with_blank = CollegeFilters {
        district: text(""),
        category: text("Engineering"),
        search: text("tech"),
        ..no_filters()
    };
    let without = CollegeFilters {
        district: None,
        category: text("Engineering"),
        search: text("tech"),
        ..no_filters()
    };
    assert_eq!(conditions(&with_blank), conditions(&without));
    assert_eq!(
        conditions(&without),
        vec![
            Condition::Search("%tech%".to_string()),
            Condition::Equals(Column::Category, "Engineering".to_string()),
        ]
    );
}

#[test]
fn only_a_set_flag_filters() {
    let set = CollegeFilters { autonomous: Some(true), ..no_filters() };
    assert_eq!(conditions(&set), vec![Condition::IsTrue(Column::Autonomous)]);
    let cleared = CollegeFilters {
        autonomous: Some(false),
        hostel_available: Some(false),
        ..no_filters()
    };
    assert_eq!(conditions(&cleared), Vec::<Condition>::new());
    let hostel = CollegeFilters { hostel_available: Some(true), ..no_filters() };
    assert_eq!(conditions(&hostel), vec![Condition::IsTrue(Column::HostelAvailable)]);
}

#[test]
fn listing_parameters_carry_their_filters() {
    let params = PaginationParams {
        page: Some(2),
        limit: Some(5),
        search: text("tech"),
        district: text("Pune"),
        category: None,
        college_type: text("Private"),
    };
    assert_eq!(
        params.filters(),
        CollegeFilters {
            district: text("Pune"),
            category: None,
            college_type: text("Private"),
            autonomous: None,
            hostel_available: None,
            search: text("tech"),
            page: Some(2),
            limit: Some(5),
        }
    );
}

#[test]
fn optional_text_is_copied() {
    assert_eq!(copy_opt_text(&None), None);
    assert_eq!(copy_opt_text(&text("Pune")), text("Pune"));
    assert_eq!(as_text(&None), None);
    assert_eq!(as_text(&text("Pune")), Some("Pune"));
}

#[test]
fn filters_given_one_by_one() {
    let composed = compose(Some("tech"), Some("Pune"), Some(""), None, Some(true), Some(false));
    assert_eq!(
        composed.unwrap().conditions().clone(),
        vec![
            Condition::Search("%tech%".to_string()),
            Condition::Equals(Column::District, "Pune".to_string()),
            Condition::IsTrue(Column::Autonomous),
        ]
    );
}
