use furtherance::queries::{
    all_tasks_query, day_limit_modifier, day_limit_query, like_pattern, name_and_tags_params,
    name_and_tags_query,
};
use furtherance::sort::{SortBy, SortOrder};

fn placeholders(s: &str) -> usize {
    s.chars().filter(|c| *c == '?').count()
}

#[test]
fn sort_order_keywords() {
    assert_eq!(SortOrder::Ascending.to_sqlite(), "ASC");
    assert_eq!(SortOrder::Descending.to_sqlite(), "DESC");
}

#[test]
fn sort_by_columns() {
    assert_eq!(SortBy::StartTime.to_sqlite(), "start_time");
    assert_eq!(SortBy::StopTime.to_sqlite(), "stop_time");
    assert_eq!(SortBy::TaskName.to_sqlite(), "task_name");
}

#[test]
fn sort_defaults() {
    assert_eq!(SortOrder::default(), SortOrder::Ascending);
    assert_eq!(SortBy::default(), SortBy::StartTime);
}

#[test]
fn sort_keywords_are_distinct() {
    assert_ne!(SortOrder::Ascending.to_sqlite(), SortOrder::Descending.to_sqlite());
    let columns = [
        SortBy::StartTime.to_sqlite(),
        SortBy::StopTime.to_sqlite(),
        SortBy::TaskName.to_sqlite(),
    ];
    assert_ne!(columns[0], columns[1]);
    assert_ne!(columns[0], columns[2]);
    assert_ne!(columns[1], columns[2]);
}

#[test]
fn all_tasks_query_text() {
    assert_eq!(
        all_tasks_query(&SortBy::StartTime, &SortOrder::Descending),
        "SELECT * FROM tasks ORDER BY start_time DESC"
    );
    assert_eq!(
        all_tasks_query(&SortBy::TaskName, &SortOrder::Ascending),
        "SELECT * FROM tasks ORDER BY task_name ASC"
    );
    assert_eq!(placeholders(&all_tasks_query(&SortBy::StopTime, &SortOrder::Ascending)), 0);
}

#[test]
fn day_limit_query_text() {
    let q = day_limit_query(&SortBy::StopTime, &SortOrder::Ascending);
    assert_eq!(
        q,
        "SELECT * FROM tasks WHERE start_time >= date('now', ?) ORDER BY stop_time ASC"
    );
    assert_eq!(placeholders(&q), 1);
}

#[test]
fn day_limit_modifier_values() {
    assert_eq!(day_limit_modifier(7), "-6 days");
    assert_eq!(day_limit_modifier(1), "-0 days");
    assert_eq!(day_limit_modifier(0), "--1 days");
    assert_eq!(day_limit_modifier(31), "-30 days");
    assert_eq!(day_limit_modifier(i64::MAX), format!("-{} days", i64::MAX - 1));
    assert_eq!(day_limit_modifier(i64::MIN + 1), format!("-{} days", i64::MIN));
}

#[test]
fn name_and_tags_query_without_tags() {
    assert_eq!(
        name_and_tags_query(0),
        "SELECT * FROM tasks WHERE lower(task_name) LIKE lower(?) ORDER BY task_name"
    );
}

#[test]
fn name_and_tags_query_with_tags() {
    assert_eq!(
        name_and_tags_query(2),
        "SELECT * FROM tasks WHERE lower(task_name) LIKE lower(?) AND lower(tags) LIKE lower(?) AND lower(tags) LIKE lower(?) ORDER BY task_name"
    );
}

#[test]
fn like_pattern_wraps() {
    assert_eq!(like_pattern("work"), "%work%");
    assert_eq!(like_pattern(""), "%%");
}

#[test]
fn name_and_tags_params_order() {
    let tags = vec![String::from("rust"), String::from("verus")];
    let params = name_and_tags_params("Write", &tags);
    assert_eq!(params, vec!["%Write%", "%rust%", "%verus%"]);
}

#[test]
fn search_placeholders_match_params() {
    for n in 0..5usize {
        let tags: Vec<String> = (0..n).map(|i| format!("t{}", i)).collect();
        let params = name_and_tags_params("name", &tags);
        assert_eq!(placeholders(&name_and_tags_query(tags.len())), params.len());
    }
}
