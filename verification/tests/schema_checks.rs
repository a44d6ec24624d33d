use furtherance::schema::{
    column_signature, contains_all_columns, expected_task_columns_v1, expected_task_columns_v3,
    tasks_schema_is_valid_v1, tasks_schema_is_valid_v3,
};
use furtherance::sort::SortBy;

fn v3_columns() -> Vec<String> {
    vec![
        column_signature("id", "INTEGER"),
        column_signature("task_name", "TEXT"),
        column_signature("start_time", "TIMESTAMP"),
        column_signature("stop_time", "TIMESTAMP"),
        column_signature("tags", "TEXT"),
        column_signature("project", "TEXT"),
        column_signature("rate", "REAL"),
        column_signature("currency", "TEXT"),
    ]
}

#[test]
fn column_signature_lowercases_type() {
    assert_eq!(column_signature("id", "INTEGER"), "id integer");
    assert_eq!(column_signature("currency", "Text"), "currency text");
    assert_eq!(column_signature("rate", "real"), "rate real");
}

#[test]
fn expected_columns() {
    assert_eq!(
        expected_task_columns_v1(),
        vec!["id integer", "task_name text", "start_time timestamp", "stop_time timestamp", "tags text"]
    );
    assert_eq!(
        expected_task_columns_v3(),
        vec![
            "id integer",
            "task_name text",
            "start_time timestamp",
            "stop_time timestamp",
            "tags text",
            "project text",
            "rate real",
            "currency text"
        ]
    );
}

#[test]
fn current_layout_is_valid() {
    let columns = Some(v3_columns());
    assert!(tasks_schema_is_valid_v3(Some(true), &columns));
    assert!(tasks_schema_is_valid_v1(Some(true), &columns));
}

#[test]
fn first_layout_is_only_v1() {
    let columns = Some(v3_columns()[..5].to_vec());
    assert!(tasks_schema_is_valid_v1(Some(true), &columns));
    assert!(!tasks_schema_is_valid_v3(Some(true), &columns));
}

#[test]
fn missing_table_or_failures_are_invalid() {
    let columns = Some(v3_columns());
    assert!(!tasks_schema_is_valid_v3(Some(false), &columns));
    assert!(!tasks_schema_is_valid_v3(None, &columns));
    assert!(!tasks_schema_is_valid_v3(Some(true), &None));
    assert!(!tasks_schema_is_valid_v1(None, &None));
}

#[test]
fn wrong_type_is_invalid() {
    let mut columns = v3_columns();
    columns[6] = column_signature("rate", "TEXT");
    assert!(!tasks_schema_is_valid_v3(Some(true), &Some(columns)));
}

#[test]
fn extra_columns_and_order_do_not_matter() {
    let mut columns = v3_columns();
    columns.reverse();
    columns.push(column_signature("note", "TEXT"));
    assert!(tasks_schema_is_valid_v3(Some(true), &Some(columns)));
}

#[test]
fn contains_all_columns_examples() {
    let have = vec![String::from("a x"), String::from("b y")];
    assert!(contains_all_columns(&have, &vec![String::from("b y")]));
    assert!(contains_all_columns(&have, &vec![]));
    assert!(!contains_all_columns(&have, &vec![String::from("c z")]));
}

#[test]
fn sort_columns_are_schema_columns() {
    let v1 = expected_task_columns_v1();
    for by in [SortBy::StartTime, SortBy::StopTime, SortBy::TaskName] {
        let col = by.to_sqlite();
        assert!(v1.iter().any(|c| c.starts_with(&format!("{} ", col))));
    }
}
