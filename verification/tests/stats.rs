use sqlx::{Postgres, QueryBuilder};
use college_directory::sql::Statement;
use college_directory::stats::{
    college_total, colleges_per_category, colleges_per_district, name_stats, GroupCount, Stat,
};

fn sql(statement: Statement) -> String {
    let builder: QueryBuilder<'static, Postgres> = statement.into_builder();
    builder.sql().to_string()
}

fn group(name: &str, count: i64) -> GroupCount {
    GroupCount { group: name.to_string(), count }
}

fn stat(name: &str, count: i64) -> Stat {
    Stat { name: name.to_string(), count }
}

#[test]
fn counting_statements() {
    assert_eq!(sql(college_total()), "SELECT COUNT(*) FROM colleges");
    assert_eq!(
        sql(colleges_per_district()),
        "SELECT district, COUNT(*) FROM colleges GROUP BY district ORDER BY COUNT(*) DESC LIMIT 10"
    );
    assert_eq!(
        sql(colleges_per_category()),
        "SELECT category, COUNT(*) FROM colleges GROUP BY category ORDER BY COUNT(*) DESC"
    );
}

#[test]
fn total_comes_first_then_districts_then_categories() {
    let stats = name_stats(
        120,
        &vec![group("Pune", 40), group("Navi Mumbai", 12), group("Chhatrapati Sambhaji-Nagar", 9)],
        &vec![group("Engineering", 70), group("Arts and Science", 50), group("Co-Ed", 3)],
    );
    assert_eq!(
        stats,
        vec![
            stat("total_colleges", 120),
            stat("district_Pune", 40),
            stat("district_Navi_Mumbai", 12),
            stat("district_Chhatrapati_Sambhaji_Nagar", 9),
            stat("category_Engineering", 70),
            stat("category_Arts_and_Science", 50),
            stat("category_Co-Ed", 3),
        ]
    );
}

#[test]
fn empty_directory_reports_only_the_total() {
    assert_eq!(name_stats(0, &Vec::new(), &Vec::new()), vec![stat("total_colleges", 0)]);
}

#[test]
fn groups_with_the_same_name_count_once_and_the_later_one_counts() {
    let stats = name_stats(
        3,
        &vec![group("A B", 2), group("Pune", 7), group("A-B", 1)],
        &vec![group("Arts", 4), group("Arts", 5)],
    );
    assert_eq!(
        stats,
        vec![
            stat("total_colleges", 3),
            stat("district_A_B", 1),
            stat("district_Pune", 7),
            stat("category_Arts", 5),
        ]
    );
}

#[test]
fn report_is_what_a_map_would_hold() {
    let districts = vec![group("A B", 2), group("Pune", 7), group("A-B", 1), group("A_B", 9)];
    let categories = vec![group("Arts", 4), group("Arts", 5), group("Law", 6)];
    let stats = name_stats(20, &districts, &categories);
    let mut map = std::collections::HashMap::new();
    map.insert("total_colleges".to_string(), 20i64);
    for d in districts.iter() {
        map.insert(format!("district_{}", d.group.replace(" ", "_").replace("-", "_")), d.count);
    }
    for c in categories.iter() {
        map.insert(format!("category_{}", c.group.replace(" ", "_")), c.count);
    }
    assert_eq!(stats.len(), map.len());
    for stat in stats.iter() {
        assert_eq!(map.get(&stat.name), Some(&stat.count));
    }
}

#[test]
fn no_group_takes_the_name_of_the_total() {
    // No district or category name can: their names start with their own prefix.
    let stats = name_stats(1, &vec![group("total_colleges", 5)], &Vec::new());
    assert_eq!(
        stats,
        vec![stat("total_colleges", 1), stat("district_total_colleges", 5)]
    );
}
