use vstd::prelude::*;
use crate::sort::SortBy;
use crate::text::{ascii_lower_char, is_ascii_text, str_to_lowercase, unicode_lowercase};

verus! {

/// The columns, as `name type`, that a task table of the first database
/// layout has: id, name, start, stop and tags.
pub open spec fn expected_columns_v1() -> Seq<Seq<char>> {
    seq![
        "id integer"@,
        "task_name text"@,
        "start_time timestamp"@,
        "stop_time timestamp"@,
        "tags text"@,
    ]
}

/// The columns, as `name type`, that a task table of the current database
/// layout has: those of the first layout, then project, rate and currency.
pub open spec fn expected_columns_v3() -> Seq<Seq<char>> {
    expected_columns_v1() + seq!["project text"@, "rate real"@, "currency text"@]
}

/// The `name type` signature of a column, the type in lower case.
pub open spec fn column_signature_text(name: Seq<char>, declared_type: Seq<char>) -> Seq<char> {
    name + " "@ + unicode_lowercase(declared_type)
}

/// Whether every expected signature occurs among the column signatures.
pub open spec fn has_all_columns(columns: Seq<Seq<char>>, expected: Seq<Seq<char>>) -> bool {
    forall|i: int| 0 <= i < expected.len() ==> #[trigger] columns.contains(expected[i])
}

/// The characters of each string.
pub open spec fn texts(v: Seq<String>) -> Seq<Seq<char>> {
    v.map_values(|s: String| s@)
}

/// What the inspection of a database found: `table_exists` is `None` where
/// opening the database or asking for the table failed, `columns` is `None`
/// where reading the column list failed. The database has the layout when the
/// task table exists and has every expected column; any failure counts as no.
pub open spec fn schema_is_valid(
    table_exists: Option<bool>,
    columns: Option<Seq<Seq<char>>>,
    expected: Seq<Seq<char>>,
) -> bool {
    &&& table_exists == Some(true)
    &&& columns is Some
    &&& has_all_columns(columns->0, expected)
}

/// The `name type` signature of a column as the table description lists it,
/// with the declared type in lower case; for an ASCII type, `A` to `Z` become
/// `a` to `z` and nothing else changes.
pub fn column_signature(name: &str, declared_type: &str) -> (signature: String)
    ensures
        signature@ == column_signature_text(name@, declared_type@),
        is_ascii_text(declared_type@) ==> signature@ == name@ + " "@ + declared_type@.map_values(
            |c: char| ascii_lower_char(c),
        ),
{
    let lower = str_to_lowercase(declared_type);
    let mut signature = String::from_str(name);
    signature.append(" ");
    signature.append(lower.as_str());
    signature
}

/// The column signatures of the first layout.
pub fn expected_task_columns_v1() -> (columns: Vec<String>)
    ensures
        texts(columns@) == expected_columns_v1(),
{
    let mut columns: Vec<String> = Vec::new();
    columns.push(String::from_str("id integer"));
    columns.push(String::from_str("task_name text"));
    columns.push(String::from_str("start_time timestamp"));
    columns.push(String::from_str("stop_time timestamp"));
    columns.push(String::from_str("tags text"));
    assert(texts(columns@) =~= expected_columns_v1());
    columns
}

/// The column signatures of the current layout.
pub fn expected_task_columns_v3() -> (columns: Vec<String>)
    ensures
        texts(columns@) == expected_columns_v3(),
{
    let mut columns = expected_task_columns_v1();
    let ghost first = columns@;
    columns.push(String::from_str("project text"));
    columns.push(String::from_str("rate real"));
    columns.push(String::from_str("currency text"));
    assert(texts(columns@) =~= expected_columns_v3()) by {
        assert(texts(columns@).subrange(0, 5) =~= texts(first));
    }
    columns
}

/// Whether `columns` holds `wanted`.
fn contains_text(columns: &Vec<String>, wanted: &String) -> (found: bool)
    ensures
        found == texts(columns@).contains(wanted@),
{
    let mut k: usize = 0;
    while k < columns.len()
        invariant
            k <= columns.len(),
            forall|j: int| 0 <= j < k ==> columns@[j]@ != wanted@,
        decreases columns.len() - k,
    {
        if columns[k] == *wanted {
            assert(texts(columns@)[k as int] == wanted@);
            return true;
        }
        k = k + 1;
    }
    proof {
        if texts(columns@).contains(wanted@) {
            let j = choose|j: int| 0 <= j < texts(columns@).len() && texts(columns@)[j] == wanted@;
            assert(columns@[j]@ == wanted@);
        }
    }
    false
}

/// Whether every expected signature occurs among `columns`.
pub fn contains_all_columns(columns: &Vec<String>, expected: &Vec<String>) -> (ok: bool)
    ensures
        ok == has_all_columns(texts(columns@), texts(expected@)),
{
    let mut i: usize = 0;
    while i < expected.len()
        invariant
            i <= expected.len(),
            forall|j: int| 0 <= j < i ==> #[trigger] texts(columns@).contains(texts(expected@)[j]),
        decreases expected.len() - i,
    {
        if !contains_text(columns, &expected[i]) {
            assert(!texts(columns@).contains(texts(expected@)[i as int]));
            return false;
        }
        i = i + 1;
    }
    true
}

/// The verdict on an inspected database against the `expected` signatures.
fn schema_verdict(table_exists: Option<bool>, columns: &Option<Vec<String>>, expected: &Vec<String>) -> (ok: bool)
    ensures
        ok == schema_is_valid(table_exists, column_texts(*columns), texts(expected@)),
{
    match table_exists {
        Some(true) => match columns {
            Some(c) => contains_all_columns(c, expected),
            None => false,
        },
        _ => false,
    }
}

/// The option of the characters of each column signature.
pub open spec fn column_texts(columns: Option<Vec<String>>) -> Option<Seq<Seq<char>>> {
    match columns {
        Some(c) => Some(texts(c@)),
        None => None,
    }
}

/// Whether an inspected database has the current task table layout.
pub fn tasks_schema_is_valid_v3(table_exists: Option<bool>, columns: &Option<Vec<String>>) -> (ok: bool)
    ensures
        ok == schema_is_valid(table_exists, column_texts(*columns), expected_columns_v3()),
{
    let expected = expected_task_columns_v3();
    schema_verdict(table_exists, columns, &expected)
}

/// Whether an inspected database has the task table layout of the first version.
pub fn tasks_schema_is_valid_v1(table_exists: Option<bool>, columns: &Option<Vec<String>>) -> (ok: bool)
    ensures
        ok == schema_is_valid(table_exists, column_texts(*columns), expected_columns_v1()),
{
    let expected = expected_task_columns_v1();
    schema_verdict(table_exists, columns, &expected)
}

/// A database that has the current layout also has the layout of the first version.
pub proof fn law_valid_v3_is_valid_v1(table_exists: Option<bool>, columns: Option<Seq<Seq<char>>>)
    requires
        schema_is_valid(table_exists, columns, expected_columns_v3()),
    ensures
        schema_is_valid(table_exists, columns, expected_columns_v1()),
{
    assert forall|i: int| 0 <= i < expected_columns_v1().len() implies #[trigger] columns->0.contains(
        expected_columns_v1()[i],
    ) by {
        assert(expected_columns_v3()[i] == expected_columns_v1()[i]);
    }
}

/// Columns beyond the expected ones do not make a valid layout invalid.
pub proof fn law_extra_columns_keep_validity(
    table_exists: Option<bool>,
    columns: Seq<Seq<char>>,
    extra: Seq<Seq<char>>,
    expected: Seq<Seq<char>>,
)
    requires
        schema_is_valid(table_exists, Some(columns), expected),
    ensures
        schema_is_valid(table_exists, Some(columns + extra), expected),
{
    assert forall|i: int| 0 <= i < expected.len() implies #[trigger] (columns + extra).contains(
        expected[i],
    ) by {
        assert(columns.contains(expected[i]));
        let j = choose|j: int| 0 <= j < columns.len() && columns[j] == expected[i];
        assert((columns + extra)[j] == expected[i]);
    }
}

/// Every column that a task listing can be ordered by is a column of the
/// first layout, and so of every layout that the validity checks accept.
pub proof fn law_sort_column_in_schema(by: SortBy)
    ensures
        exists|t: Seq<char>| expected_columns_v1().contains(#[trigger] (by.sql_column() + " "@ + t)),
{
    reveal_strlit(" ");
    reveal_strlit("text");
    reveal_strlit("timestamp");
    match by {
        SortBy::StartTime => {
            reveal_strlit("start_time");
            reveal_strlit("start_time timestamp");
            let t = "timestamp"@;
            assert(by.sql_column() + " "@ + t =~= expected_columns_v1()[2]);
            assert(expected_columns_v1().contains(by.sql_column() + " "@ + t));
        },
        SortBy::StopTime => {
            reveal_strlit("stop_time");
            reveal_strlit("stop_time timestamp");
            let t = "timestamp"@;
            assert(by.sql_column() + " "@ + t =~= expected_columns_v1()[3]);
            assert(expected_columns_v1().contains(by.sql_column() + " "@ + t));
        },
        SortBy::TaskName => {
            reveal_strlit("task_name");
            reveal_strlit("task_name text");
            let t = "text"@;
            assert(by.sql_column() + " "@ + t =~= expected_columns_v1()[1]);
            assert(expected_columns_v1().contains(by.sql_column() + " "@ + t));
        },
    }
}

/// A table that lacks an expected column signature is rejected, whatever the
/// position of that signature in the expected list.
pub proof fn law_missing_column_rejected(
    table_exists: Option<bool>,
    columns: Seq<Seq<char>>,
    expected: Seq<Seq<char>>,
    i: int,
)
    requires
        0 <= i < expected.len(),
        !columns.contains(expected[i]),
    ensures
        !has_all_columns(columns, expected),
        !schema_is_valid(table_exists, Some(columns), expected),
{
}

/// A table that exists and has every expected column signature is accepted.
pub proof fn law_complete_table_accepted(columns: Seq<Seq<char>>, expected: Seq<Seq<char>>)
    requires
        forall|i: int| 0 <= i < expected.len() ==> columns.contains(#[trigger] expected[i]),
    ensures
        has_all_columns(columns, expected),
        schema_is_valid(Some(true), Some(columns), expected),
{
}

/// The current layout needs each of `id integer`, `task_name text`,
/// `start_time timestamp`, `stop_time timestamp`, `tags text`, `project text`,
/// `rate real` and `currency text`: a table that lacks any of them is rejected.
pub proof fn law_v3_requires_each_column(
    table_exists: Option<bool>,
    columns: Seq<Seq<char>>,
    sig: Seq<char>,
)
    requires
        sig == "id integer"@ ||
        sig == "task_name text"@ ||
        sig == "start_time timestamp"@ ||
        sig == "stop_time timestamp"@ ||
        sig == "tags text"@ ||
        sig == "project text"@ ||
        sig == "rate real"@ ||
        sig == "currency text"@,
        !columns.contains(sig),
    ensures
        !schema_is_valid(table_exists, Some(columns), expected_columns_v3()),
{
    if sig == "id integer"@ {
        assert(expected_columns_v3()[0] == sig);
    }
    if sig == "task_name text"@ {
        assert(expected_columns_v3()[1] == sig);
    }
    if sig == "start_time timestamp"@ {
        assert(expected_columns_v3()[2] == sig);
    }
    if sig == "stop_time timestamp"@ {
        assert(expected_columns_v3()[3] == sig);
    }
    if sig == "tags text"@ {
        assert(expected_columns_v3()[4] == sig);
    }
    if sig == "project text"@ {
        assert(expected_columns_v3()[5] == sig);
    }
    if sig == "rate real"@ {
        assert(expected_columns_v3()[6] == sig);
    }
    if sig == "currency text"@ {
        assert(expected_columns_v3()[7] == sig);
    }
}

/// A table that exists and has those eight columns has the current layout,
/// whatever else it holds.
pub proof fn law_v3_needs_only_its_columns(columns: Seq<Seq<char>>)
    requires
        columns.contains("id integer"@),
        columns.contains("task_name text"@),
        columns.contains("start_time timestamp"@),
        columns.contains("stop_time timestamp"@),
        columns.contains("tags text"@),
        columns.contains("project text"@),
        columns.contains("rate real"@),
        columns.contains("currency text"@),
    ensures
        schema_is_valid(Some(true), Some(columns), expected_columns_v3()),
{
    assert forall|i: int| 0 <= i < expected_columns_v3().len() implies columns.contains(#[trigger] expected_columns_v3()[i]) by {
        assert(expected_columns_v3()[0] == "id integer"@);
        assert(expected_columns_v3()[1] == "task_name text"@);
        assert(expected_columns_v3()[2] == "start_time timestamp"@);
        assert(expected_columns_v3()[3] == "stop_time timestamp"@);
        assert(expected_columns_v3()[4] == "tags text"@);
        assert(expected_columns_v3()[5] == "project text"@);
        assert(expected_columns_v3()[6] == "rate real"@);
        assert(expected_columns_v3()[7] == "currency text"@);
    }
}

/// The first layout needs each of `id integer`, `task_name text`,
/// `start_time timestamp`, `stop_time timestamp` and `tags text`: a table that
/// lacks any of them is rejected.
pub proof fn law_v1_requires_each_column(
    table_exists: Option<bool>,
    columns: Seq<Seq<char>>,
    sig: Seq<char>,
)
    requires
        sig == "id integer"@ ||
        sig == "task_name text"@ ||
        sig == "start_time timestamp"@ ||
        sig == "stop_time timestamp"@ ||
        sig == "tags text"@,
        !columns.contains(sig),
    ensures
        !schema_is_valid(table_exists, Some(columns), expected_columns_v1()),
{
    if sig == "id integer"@ {
        assert(expected_columns_v1()[0] == sig);
    }
    if sig == "task_name text"@ {
        assert(expected_columns_v1()[1] == sig);
    }
    if sig == "start_time timestamp"@ {
        assert(expected_columns_v1()[2] == sig);
    }
    if sig == "stop_time timestamp"@ {
        assert(expected_columns_v1()[3] == sig);
    }
    if sig == "tags text"@ {
        assert(expected_columns_v1()[4] == sig);
    }
}

/// A table that exists and has those five columns has the first layout,
/// whatever else it holds.
pub proof fn law_v1_needs_only_its_columns(columns: Seq<Seq<char>>)
    requires
        columns.contains("id integer"@),
        columns.contains("task_name text"@),
        columns.contains("start_time timestamp"@),
        columns.contains("stop_time timestamp"@),
        columns.contains("tags text"@),
    ensures
        schema_is_valid(Some(true), Some(columns), expected_columns_v1()),
{
    assert forall|i: int| 0 <= i < expected_columns_v1().len() implies columns.contains(#[trigger] expected_columns_v1()[i]) by {
        assert(expected_columns_v1()[0] == "id integer"@);
        assert(expected_columns_v1()[1] == "task_name text"@);
        assert(expected_columns_v1()[2] == "start_time timestamp"@);
        assert(expected_columns_v1()[3] == "stop_time timestamp"@);
        assert(expected_columns_v1()[4] == "tags text"@);
    }
}

} // verus!
