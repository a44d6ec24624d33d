use vstd::prelude::*;

verus! {

/// Direction in which a task listing is ordered.
#[derive(Debug, PartialEq, Eq, Structural)]
pub enum SortOrder {
    Ascending,
    Descending,
}

impl SortOrder {
    /// The SQL keyword that orders a result in this direction.
    pub open spec fn sql_keyword(self) -> Seq<char> {
        match self {
            SortOrder::Ascending => "ASC"@,
            SortOrder::Descending => "DESC"@,
        }
    }

    /// The SQL keyword for this direction, as it appears after `ORDER BY column`.
    pub fn to_sqlite(&self) -> (keyword: &'static str)
        ensures
            keyword@ == self.sql_keyword(),
    {
        match self {
            SortOrder::Ascending => "ASC",
            SortOrder::Descending => "DESC",
        }
    }
}

impl Default for SortOrder {
    fn default() -> (order: Self)
        ensures
            order == SortOrder::Ascending,
    {
        SortOrder::Ascending
    }
}

/// Column by which a task listing is ordered.
#[derive(Debug, PartialEq, Eq, Structural)]
pub enum SortBy {
    StartTime,
    StopTime,
    TaskName,
}

impl SortBy {
    /// The name of the column of the `tasks` table that this choice orders by.
    pub open spec fn sql_column(self) -> Seq<char> {
        match self {
            SortBy::StartTime => "start_time"@,
            SortBy::StopTime => "stop_time"@,
            SortBy::TaskName => "task_name"@,
        }
    }

    /// The name of the column that this choice orders by.
    pub fn to_sqlite(&self) -> (column: &'static str)
        ensures
            column@ == self.sql_column(),
    {
        match self {
            SortBy::StartTime => "start_time",
            SortBy::StopTime => "stop_time",
            SortBy::TaskName => "task_name",
        }
    }
}

impl Default for SortBy {
    fn default() -> (by: Self)
        ensures
            by == SortBy::StartTime,
    {
        SortBy::StartTime
    }
}

/// Different directions are written with different SQL keywords.
pub proof fn law_sort_order_keywords_distinct(a: SortOrder, b: SortOrder)
    requires
        a.sql_keyword() == b.sql_keyword(),
    ensures
        a == b,
{
    reveal_strlit("ASC");
    reveal_strlit("DESC");
    assert("ASC"@.len() == 3);
    assert("DESC"@.len() == 4);
    if a != b {
        assert(a.sql_keyword().len() != b.sql_keyword().len());
    }
}

/// Different sort choices order by different columns.
pub proof fn law_sort_columns_distinct(a: SortBy, b: SortBy)
    requires
        a.sql_column() == b.sql_column(),
    ensures
        a == b,
{
    reveal_strlit("start_time");
    reveal_strlit("stop_time");
    reveal_strlit("task_name");
    assert("start_time"@.len() == 10);
    assert("stop_time"@[1] == 't');
    assert("task_name"@[1] == 'a');
    if a != b {
        assert(a.sql_column()[1] != b.sql_column()[1] || a.sql_column().len() != b.sql_column().len());
    }
}

} // verus!
