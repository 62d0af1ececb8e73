//! The statistics of the directory: the three counting statements and the
//! names under which their results are reported.

use vstd::prelude::*;
use vstd::string::StringExecFns;
use crate::sql::{begin, statement_args, statement_sql, Bound, Statement};
use crate::text::{push_underscored, with_underscores};

verus! {

/// One reported number with its name.
#[derive(Clone, Debug, PartialEq, Eq)]
pub struct Stat {
    pub name: String,
    pub count: i64,
}

/// One counted group as the store returns it: the group's value and its size.
#[derive(Clone, Debug, PartialEq, Eq)]
pub struct GroupCount {
    pub group: String,
    pub count: i64,
}

/// The text of [`college_total`].
pub open spec fn college_total_sql() -> Seq<char> {
    "SELECT COUNT(*) FROM colleges"@
}

/// The text of [`colleges_per_district`].
pub open spec fn colleges_per_district_sql() -> Seq<char> {
    "SELECT district, COUNT(*) FROM colleges GROUP BY district ORDER BY COUNT(*) DESC LIMIT 10"@
}

/// The text of [`colleges_per_category`].
pub open spec fn colleges_per_category_sql() -> Seq<char> {
    "SELECT category, COUNT(*) FROM colleges GROUP BY category ORDER BY COUNT(*) DESC"@
}

/// The number of colleges.
pub fn college_total() -> (statement: Statement)
    ensures
        statement_sql(statement) == college_total_sql(),
        statement_args(statement) == Seq::<Bound>::empty(),
{
    begin("SELECT COUNT(*) FROM colleges")
}

/// The ten districts with the most colleges, largest first, each with its count.
pub fn colleges_per_district() -> (statement: Statement)
    ensures
        statement_sql(statement) == colleges_per_district_sql(),
        statement_args(statement) == Seq::<Bound>::empty(),
{
    begin(
        "SELECT district, COUNT(*) FROM colleges GROUP BY district ORDER BY COUNT(*) DESC LIMIT 10",
    )
}

/// The categories, largest first, each with its count.
pub fn colleges_per_category() -> (statement: Statement)
    ensures
        statement_sql(statement) == colleges_per_category_sql(),
        statement_args(statement) == Seq::<Bound>::empty(),
{
    begin("SELECT category, COUNT(*) FROM colleges GROUP BY category ORDER BY COUNT(*) DESC")
}

/// The name under which the total is reported.
pub open spec fn total_name() -> Seq<char> {
    "total_colleges"@
}

/// The name under which a district's count is reported: `district_` and the
/// district with `_` for every space and hyphen.
pub open spec fn district_name(district: Seq<char>) -> Seq<char> {
    "district_"@ + with_underscores(district, true)
}

/// The name under which a category's count is reported: `category_` and the
/// category with `_` for every space.
pub open spec fn category_name(category: Seq<char>) -> Seq<char> {
    "category_"@ + with_underscores(category, false)
}

/// The reported numbers: the total, then the districts, then the categories,
/// each group in the order in which the store returned it.
pub open spec fn stats_of(total: i64, districts: Seq<GroupCount>, categories: Seq<GroupCount>)
    -> Seq<(Seq<char>, i64)> {
    seq![(total_name(), total)] + Seq::new(
        districts.len(),
        |i: int| (district_name(districts[i].group@), districts[i].count),
    ) + Seq::new(
        categories.len(),
        |i: int| (category_name(categories[i].group@), categories[i].count),
    )
}

/// The names and counts of reported numbers.
pub open spec fn stat_views(stats: Seq<Stat>) -> Seq<(Seq<char>, i64)> {
    stats.map_values(|stat: Stat| (stat.name@, stat.count))
}

/// Whether a number is reported under the name.
pub open spec fn has_name(report: Seq<(Seq<char>, i64)>, name: Seq<char>) -> bool {
    exists|i: int| 0 <= i < report.len() && (#[trigger] report[i]).0 == name
}

/// The place of the number reported under the name, where there is one.
pub open spec fn name_index(report: Seq<(Seq<char>, i64)>, name: Seq<char>) -> int {
    choose|i: int| 0 <= i < report.len() && (#[trigger] report[i]).0 == name
}

/// Whether no two numbers of a report have the same name.
pub open spec fn distinct_names(report: Seq<(Seq<char>, i64)>) -> bool {
    forall|i: int, j: int|
        #![trigger report[i], report[j]]
        0 <= i < j < report.len() ==> report[i].0 != report[j].0
}

/// A report after one more number: it takes the place of the number that is
/// reported under its name, or comes last where the name is new.
pub open spec fn with_stat(report: Seq<(Seq<char>, i64)>, stat: (Seq<char>, i64)) -> Seq<
    (Seq<char>, i64),
> {
    if has_name(report, stat.0) {
        report.update(name_index(report, stat.0), stat)
    } else {
        report.push(stat)
    }
}

/// The report of a sequence of numbers, as a mapping keeps them: each name
/// once, at the place of its first number and with the count of its last.
pub open spec fn report_of(stats: Seq<(Seq<char>, i64)>) -> Seq<(Seq<char>, i64)>
    decreases stats.len(),
{
    if stats.len() == 0 {
        seq![]
    } else {
        with_stat(report_of(stats.drop_last()), stats.last())
    }
}

/// The mapping from names to counts that putting the numbers into a map, one
/// after the other, gives.
pub open spec fn mapping_of(stats: Seq<(Seq<char>, i64)>) -> Map<Seq<char>, i64>
    decreases stats.len(),
{
    if stats.len() == 0 {
        Map::empty()
    } else {
        mapping_of(stats.drop_last()).insert(stats.last().0, stats.last().1)
    }
}

/// Adds one number to a report with distinct names.
fn put_stat(report: &mut Vec<Stat>, stat: Stat)
    requires
        distinct_names(stat_views(old(report)@)),
    ensures
        stat_views(final(report)@) == with_stat(
            stat_views(old(report)@),
            (stat.name@, stat.count),
        ),
        distinct_names(stat_views(final(report)@)),
{
    let ghost before = stat_views(report@);
    let ghost added = (stat.name@, stat.count);
    let mut i: usize = 0;
    while i < report.len()
        invariant
            i <= report.len(),
            report@ == old(report)@,
            before == stat_views(report@),
            added == (stat.name@, stat.count),
            distinct_names(before),
            forall|j: int| 0 <= j < i ==> (#[trigger] before[j]).0 != stat.name@,
        decreases report.len() - i,
    {
        if report[i].name == stat.name {
            assert(before[i as int].0 == stat.name@);
            proof {
                lemma_name_is_at(before, i as int);
                lemma_update_keeps_names_distinct(before, i as int, added);
            }
            report.set(i, stat);
            assert(stat_views(report@) =~= before.update(i as int, added));
            return ;
        }
        i = i + 1;
    }
    proof {
        lemma_push_keeps_names_distinct(before, added);
    }
    report.push(stat);
    assert(stat_views(report@) =~= before.push(added));
}

/// Names the numbers of the statistics and reports them as a mapping keeps
/// them: the total, then the districts, then the categories, each name
/// once. Where two groups get the same name, the later one counts.
pub fn name_stats(total: i64, districts: &Vec<GroupCount>, categories: &Vec<GroupCount>) -> (stats:
    Vec<Stat>)
    ensures
        stat_views(stats@) == report_of(stats_of(total, districts@, categories@)),
        distinct_names(stat_views(stats@)),
{
    let mut stats: Vec<Stat> = Vec::new();
    let ghost head = seq![(total_name(), total)];
    let ghost district_stats = Seq::new(
        districts@.len(),
        |i: int| (district_name(districts@[i].group@), districts@[i].count),
    );
    let ghost category_stats = Seq::new(
        categories@.len(),
        |i: int| (category_name(categories@[i].group@), categories@[i].count),
    );
    assert(stat_views(stats@) =~= report_of(Seq::empty()));
    assert(head.drop_last() =~= Seq::empty());
    put_stat(&mut stats, Stat { name: String::from_str("total_colleges"), count: total });
    assert(head + district_stats.take(0) =~= head);
    let mut i: usize = 0;
    while i < districts.len()
        invariant
            i <= districts.len(),
            district_stats == Seq::new(
                districts@.len(),
                |i: int| (district_name(districts@[i].group@), districts@[i].count),
            ),
            stat_views(stats@) == report_of(head + district_stats.take(i as int)),
            distinct_names(stat_views(stats@)),
        decreases districts.len() - i,
    {
        let mut name = String::from_str("district_");
        push_underscored(&mut name, districts[i].group.as_str(), true);
        assert((head + district_stats.take(i + 1)).drop_last() =~= head + district_stats.take(
            i as int,
        ));
        put_stat(&mut stats, Stat { name, count: districts[i].count });
        i = i + 1;
    }
    assert(district_stats.take(i as int) =~= district_stats);
    assert(head + district_stats + category_stats.take(0) =~= head + district_stats);
    let mut j: usize = 0;
    while j < categories.len()
        invariant
            j <= categories.len(),
            category_stats == Seq::new(
                categories@.len(),
                |i: int| (category_name(categories@[i].group@), categories@[i].count),
            ),
            stat_views(stats@) == report_of(
                head + district_stats + category_stats.take(j as int),
            ),
            distinct_names(stat_views(stats@)),
        decreases categories.len() - j,
    {
        let mut name = String::from_str("category_");
        push_underscored(&mut name, categories[j].group.as_str(), false);
        assert((head + district_stats + category_stats.take(j + 1)).drop_last() =~= head
            + district_stats + category_stats.take(j as int));
        put_stat(&mut stats, Stat { name, count: categories[j].count });
        j = j + 1;
    }
    assert(category_stats.take(j as int) =~= category_stats);
    stats
}

/// In a report with distinct names, a name names one place.
proof fn lemma_name_is_at(report: Seq<(Seq<char>, i64)>, i: int)
    requires
        distinct_names(report),
        0 <= i < report.len(),
    ensures
        has_name(report, report[i].0),
        name_index(report, report[i].0) == i,
{
    let k = name_index(report, report[i].0);
    assert(0 <= k < report.len() && report[k].0 == report[i].0);
    if k < i {
        assert(report[k].0 != report[i].0);
    }
    if i < k {
        assert(report[i].0 != report[k].0);
    }
}

proof fn lemma_update_keeps_names_distinct(
    report: Seq<(Seq<char>, i64)>,
    i: int,
    stat: (Seq<char>, i64),
)
    requires
        distinct_names(report),
        0 <= i < report.len(),
        report[i].0 == stat.0,
    ensures
        distinct_names(report.update(i, stat)),
{
    let after = report.update(i, stat);
    assert forall|a: int, b: int|
        #![trigger after[a], after[b]]
        0 <= a < b < after.len() implies after[a].0 != after[b].0 by {
        assert(report[a].0 != report[b].0);
    }
}

proof fn lemma_push_keeps_names_distinct(report: Seq<(Seq<char>, i64)>, stat: (Seq<char>, i64))
    requires
        distinct_names(report),
        forall|j: int| 0 <= j < report.len() ==> (#[trigger] report[j]).0 != stat.0,
    ensures
        distinct_names(report.push(stat)),
        !has_name(report, stat.0),
{
    let after = report.push(stat);
    assert forall|a: int, b: int|
        #![trigger after[a], after[b]]
        0 <= a < b < after.len() implies after[a].0 != after[b].0 by {
        if b < report.len() {
            assert(report[a].0 != report[b].0);
        } else {
            assert(report[a].0 != stat.0);
        }
    }
}

/// A report with one more number, read as a mapping, is the mapping of the
/// report with the number put in; and its names stay distinct.
proof fn lemma_with_stat(report: Seq<(Seq<char>, i64)>, stat: (Seq<char>, i64))
    requires
        distinct_names(report),
    ensures
        distinct_names(with_stat(report, stat)),
        mapping_of(with_stat(report, stat)) == mapping_of(report).insert(stat.0, stat.1),
{
    let after = with_stat(report, stat);
    if has_name(report, stat.0) {
        let i = name_index(report, stat.0);
        lemma_update_keeps_names_distinct(report, i, stat);
        lemma_mapping_of_distinct(report);
        lemma_mapping_of_distinct(after);
        let wanted = mapping_of(report).insert(stat.0, stat.1);
        assert forall|name: Seq<char>| mapping_of(after).dom().contains(name)
            <==> wanted.dom().contains(name) by {
            assert(has_name(after, name) <==> mapping_of(after).dom().contains(name));
            assert(has_name(report, name) <==> mapping_of(report).dom().contains(name));
            if has_name(after, name) {
                let k = name_index(after, name);
                assert(report[k].0 == name);
            }
            if has_name(report, name) {
                let k = name_index(report, name);
                assert(after[k].0 == name);
            }
        }
        assert forall|name: Seq<char>| mapping_of(after).dom().contains(name) implies mapping_of(
            after,
        )[name] == wanted[name] by {
            assert(has_name(after, name));
            let k = name_index(after, name);
            assert(after[k].0 == name);
            if k < i {
                assert(report[k].0 != report[i].0);
            }
            if i < k {
                assert(report[i].0 != report[k].0);
            }
        }
        assert(mapping_of(after) =~= wanted);
    } else {
        assert forall|j: int| 0 <= j < report.len() implies (#[trigger] report[j]).0 != stat.0 by {
        }
        lemma_push_keeps_names_distinct(report, stat);
        assert(after.drop_last() =~= report);
    }
}

/// A report is the mapping of its numbers: it has each name once, and
/// read as a mapping it is what putting the numbers into a map, one after
/// the other, gives. Each of its numbers is the count that the mapping has
/// for its name.
pub proof fn lemma_report_is_the_mapping(stats: Seq<(Seq<char>, i64)>)
    ensures
        distinct_names(report_of(stats)),
        mapping_of(report_of(stats)) == mapping_of(stats),
        forall|name: Seq<char>|
            has_name(report_of(stats), name) <==> mapping_of(stats).dom().contains(name),
        forall|i: int|
            0 <= i < report_of(stats).len() ==> mapping_of(stats).dom().contains(
                (#[trigger] report_of(stats)[i]).0,
            ) && mapping_of(stats)[report_of(stats)[i].0] == report_of(stats)[i].1,
    decreases stats.len(),
{
    if stats.len() > 0 {
        lemma_report_is_the_mapping(stats.drop_last());
        lemma_with_stat(report_of(stats.drop_last()), stats.last());
    }
    lemma_mapping_of_distinct(report_of(stats));
}

/// The mapping of a report with distinct names: its names, each with its count.
proof fn lemma_mapping_of_distinct(report: Seq<(Seq<char>, i64)>)
    requires
        distinct_names(report),
    ensures
        forall|name: Seq<char>| has_name(report, name) <==> mapping_of(report).dom().contains(name),
        forall|i: int|
            0 <= i < report.len() ==> mapping_of(report).dom().contains(
                (#[trigger] report[i]).0,
            ) && mapping_of(report)[report[i].0] == report[i].1,
    decreases report.len(),
{
    if report.len() > 0 {
        let earlier = report.drop_last();
        let last = report.last();
        assert forall|a: int, b: int|
            #![trigger earlier[a], earlier[b]]
            0 <= a < b < earlier.len() implies earlier[a].0 != earlier[b].0 by {
            assert(report[a].0 != report[b].0);
        }
        lemma_mapping_of_distinct(earlier);
        assert forall|name: Seq<char>| has_name(report, name) <==> mapping_of(
            report,
        ).dom().contains(name) by {
            if has_name(earlier, name) {
                let k = name_index(earlier, name);
                assert(report[k].0 == name);
            }
            if has_name(report, name) {
                let k = name_index(report, name);
                if k < earlier.len() {
                    assert(earlier[k].0 == name);
                }
            }
            if name == last.0 {
                assert(report[report.len() - 1].0 == name);
            }
        }
        assert forall|i: int| 0 <= i < report.len() implies mapping_of(report).dom().contains(
            (#[trigger] report[i]).0,
        ) && mapping_of(report)[report[i].0] == report[i].1 by {
            if i < earlier.len() {
                assert(earlier[i] == report[i]);
                assert(report[i].0 != report[report.len() - 1].0);
            }
        }
    }
}

} // verus!
