use vstd::prelude::*;
use crate::sort::{SortBy, SortOrder};
use crate::text::{i64_to_decimal, int_decimal, law_int_decimal_writes_value, signed_value};

verus! {

/// The statement that lists every task, ordered by `sort` in direction `order`.
pub open spec fn all_tasks_query_text(sort: SortBy, order: SortOrder) -> Seq<char> {
    "SELECT * FROM tasks ORDER BY "@ + sort.sql_column() + " "@ + order.sql_keyword()
}

/// The statement that lists the tasks started on or after a date given as its
/// one parameter (a modifier of SQLite's `date('now', ..)`), ordered by `sort`
/// in direction `order`.
pub open spec fn day_limit_query_text(sort: SortBy, order: SortOrder) -> Seq<char> {
    "SELECT * FROM tasks WHERE start_time >= date('now', ?) ORDER BY "@ + sort.sql_column() + " "@
        + order.sql_keyword()
}

/// The `date('now', ..)` modifier that reaches back `days - 1` days.
pub open spec fn day_limit_modifier_text(days: int) -> Seq<char> {
    "-"@ + int_decimal(days - 1) + " days"@
}

/// The first clause of the search by name and tags; its one placeholder takes the name pattern.
pub open spec fn name_clause() -> Seq<char> {
    "SELECT * FROM tasks WHERE lower(task_name) LIKE lower(?)"@
}

/// The clause added for each tag of a search; its one placeholder takes the tag pattern.
pub open spec fn tag_clause() -> Seq<char> {
    " AND lower(tags) LIKE lower(?)"@
}

/// The closing clause of the search by name and tags.
pub open spec fn name_order_clause() -> Seq<char> {
    " ORDER BY task_name"@
}

/// `n` copies of `s`, one after another.
pub open spec fn repeat_text(s: Seq<char>, n: nat) -> Seq<char>
    decreases n,
{
    if n == 0 {
        Seq::empty()
    } else {
        repeat_text(s, (n - 1) as nat) + s
    }
}

/// The search by name and tags for `tag_count` tags.
pub open spec fn name_and_tags_query_text(tag_count: nat) -> Seq<char> {
    name_clause() + repeat_text(tag_clause(), tag_count) + name_order_clause()
}

/// The `LIKE` pattern that matches any text containing `s`.
pub open spec fn like_pattern_text(s: Seq<char>) -> Seq<char> {
    "%"@ + s + "%"@
}

/// The parameters of the search by name and tags, in placeholder order: the
/// name pattern, then one pattern per tag.
pub open spec fn name_and_tags_params_text(name: Seq<char>, tags: Seq<Seq<char>>) -> Seq<Seq<char>> {
    seq![like_pattern_text(name)] + tags.map_values(|t: Seq<char>| like_pattern_text(t))
}

/// The statement that lists every task ordered by `sort` in direction `order`.
pub fn all_tasks_query(sort: &SortBy, order: &SortOrder) -> (query: String)
    ensures
        query@ == all_tasks_query_text(*sort, *order),
{
    let mut query = String::from_str("SELECT * FROM tasks ORDER BY ");
    query.append(sort.to_sqlite());
    query.append(" ");
    query.append(order.to_sqlite());
    query
}

/// The statement that lists the tasks of the last days, ordered by `sort` in
/// direction `order`; its parameter is `day_limit_modifier`.
pub fn day_limit_query(sort: &SortBy, order: &SortOrder) -> (query: String)
    ensures
        query@ == day_limit_query_text(*sort, *order),
{
    let mut query = String::from_str("SELECT * FROM tasks WHERE start_time >= date('now', ?) ORDER BY ");
    query.append(sort.to_sqlite());
    query.append(" ");
    query.append(order.to_sqlite());
    query
}

/// The parameter of `day_limit_query` for a limit of `days` days: `-{days - 1} days`.
pub fn day_limit_modifier(days: i64) -> (modifier: String)
    requires
        days > i64::MIN,
    ensures
        modifier@ == day_limit_modifier_text(days as int),
{
    let mut modifier = String::from_str("-");
    let back = i64_to_decimal(days - 1);
    modifier.append(back.as_str());
    modifier.append(" days");
    modifier
}

/// The search by name and tags, with one tag clause for each of `tag_count` tags.
pub fn name_and_tags_query(tag_count: usize) -> (query: String)
    ensures
        query@ == name_and_tags_query_text(tag_count as nat),
{
    let mut query = String::from_str("SELECT * FROM tasks WHERE lower(task_name) LIKE lower(?)");
    let mut i: usize = 0;
    while i < tag_count
        invariant
            i <= tag_count,
            query@ == name_clause() + repeat_text(tag_clause(), i as nat),
        decreases tag_count - i,
    {
        query.append(" AND lower(tags) LIKE lower(?)");
        proof {
            assert(repeat_text(tag_clause(), (i + 1) as nat) == repeat_text(tag_clause(), i as nat)
                + tag_clause());
            assert(query@ =~= name_clause() + repeat_text(tag_clause(), (i + 1) as nat));
        }
        i = i + 1;
    }
    query.append(" ORDER BY task_name");
    query
}

/// The `LIKE` pattern `%{s}%`, which matches any text that contains `s`.
pub fn like_pattern(s: &str) -> (pattern: String)
    ensures
        pattern@ == like_pattern_text(s@),
{
    let mut pattern = String::from_str("%");
    pattern.append(s);
    pattern.append("%");
    pattern
}

/// The parameters of `name_and_tags_query(tags.len())`: the pattern of the
/// name, then the pattern of each tag in order.
pub fn name_and_tags_params(task_name: &str, tags: &Vec<String>) -> (params: Vec<String>)
    ensures
        params@.map_values(|p: String| p@) == name_and_tags_params_text(
            task_name@,
            tags@.map_values(|t: String| t@),
        ),
{
    let mut params: Vec<String> = Vec::new();
    params.push(like_pattern(task_name));
    let mut i: usize = 0;
    while i < tags.len()
        invariant
            i <= tags.len(),
            params.len() == i + 1,
            params@[0]@ == like_pattern_text(task_name@),
            forall|k: int| 0 <= k < i ==> #[trigger] params@[k + 1]@ == like_pattern_text(tags@[k]@),
        decreases tags.len() - i,
    {
        params.push(like_pattern(tags[i].as_str()));
        i = i + 1;
    }
    let ghost expected = name_and_tags_params_text(task_name@, tags@.map_values(|t: String| t@));
    let ghost got = params@.map_values(|p: String| p@);
    assert forall|k: int| 0 <= k < params.len() implies #[trigger] got[k] == expected[k] by {
        if k > 0 {
            assert(params@[(k - 1) + 1]@ == like_pattern_text(tags@[k - 1]@));
        }
    }
    assert(got =~= expected);
    params
}

/// The number of `?` placeholders in `s` from position `i` on.
pub open spec fn placeholders_from(s: Seq<char>, i: nat) -> nat
    decreases s.len() - i,
{
    if i >= s.len() {
        0
    } else {
        (if s[i as int] == '?' { 1nat } else { 0nat }) + placeholders_from(s, i + 1)
    }
}

/// The number of `?` placeholders in the statement text `s`.
pub open spec fn placeholder_count(s: Seq<char>) -> nat {
    placeholders_from(s, 0)
}

proof fn lemma_placeholders_from_suffix(a: Seq<char>, b: Seq<char>, j: nat)
    ensures
        placeholders_from(a + b, a.len() + j) == placeholders_from(b, j),
    decreases b.len() - j,
{
    if j < b.len() {
        assert((a + b)[(a.len() + j) as int] == b[j as int]);
        lemma_placeholders_from_suffix(a, b, j + 1);
    }
}

proof fn lemma_placeholders_from_prefix(a: Seq<char>, b: Seq<char>, i: nat)
    requires
        i <= a.len(),
    ensures
        placeholders_from(a + b, i) == placeholders_from(a, i) + placeholder_count(b),
    decreases a.len() - i,
{
    if i < a.len() {
        assert((a + b)[i as int] == a[i as int]);
        lemma_placeholders_from_prefix(a, b, i + 1);
    } else {
        lemma_placeholders_from_suffix(a, b, 0);
    }
}

/// Placeholders of joined texts add up.
pub proof fn lemma_placeholder_count_concat(a: Seq<char>, b: Seq<char>)
    ensures
        placeholder_count(a + b) == placeholder_count(a) + placeholder_count(b),
{
    lemma_placeholders_from_prefix(a, b, 0);
}

/// `n` copies of a text hold `n` times its placeholders.
pub proof fn lemma_placeholder_count_repeat(s: Seq<char>, n: nat)
    ensures
        placeholder_count(repeat_text(s, n)) == n * placeholder_count(s),
    decreases n,
{
    if n > 0 {
        lemma_placeholder_count_repeat(s, (n - 1) as nat);
        lemma_placeholder_count_concat(repeat_text(s, (n - 1) as nat), s);
        let m = (n - 1) as nat;
        let c = placeholder_count(s);
        assert(m * c + c == n * c) by (nonlinear_arith)
            requires
                m + 1 == n,
        ;
    } else {
        assert(n * placeholder_count(s) == 0) by (nonlinear_arith)
            requires
                n == 0,
        ;
    }
}

/// The search by name and tags has as many placeholders as `name_and_tags_params`
/// gives parameters, for every name and every list of tags.
pub proof fn law_search_placeholders_match_params(name: Seq<char>, tags: Seq<Seq<char>>)
    ensures
        placeholder_count(name_and_tags_query_text(tags.len()))
            == name_and_tags_params_text(name, tags).len(),
{
    reveal_strlit("SELECT * FROM tasks WHERE lower(task_name) LIKE lower(?)");
    reveal_strlit(" AND lower(tags) LIKE lower(?)");
    reveal_strlit(" ORDER BY task_name");
    reveal_with_fuel(placeholders_from, 60);
    assert(placeholder_count(name_clause()) == 1);
    assert(placeholder_count(tag_clause()) == 1);
    assert(placeholder_count(name_order_clause()) == 0);
    lemma_placeholder_count_repeat(tag_clause(), tags.len());
    lemma_placeholder_count_concat(name_clause(), repeat_text(tag_clause(), tags.len()));
    lemma_placeholder_count_concat(
        name_clause() + repeat_text(tag_clause(), tags.len()),
        name_order_clause(),
    );
}

proof fn lemma_order_suffix_has_no_placeholder(sort: SortBy, order: SortOrder)
    ensures
        placeholder_count(sort.sql_column() + " "@ + order.sql_keyword()) == 0,
{
    reveal_strlit("start_time");
    reveal_strlit("stop_time");
    reveal_strlit("task_name");
    reveal_strlit(" ");
    reveal_strlit("ASC");
    reveal_strlit("DESC");
    reveal_with_fuel(placeholders_from, 12);
    assert(placeholder_count(sort.sql_column()) == 0);
    assert(placeholder_count(" "@) == 0);
    assert(placeholder_count(order.sql_keyword()) == 0);
    lemma_placeholder_count_concat(sort.sql_column(), " "@);
    lemma_placeholder_count_concat(sort.sql_column() + " "@, order.sql_keyword());
}

/// The listing of all tasks takes no parameter, whatever the sort.
pub proof fn law_all_tasks_query_has_no_placeholder(sort: SortBy, order: SortOrder)
    ensures
        placeholder_count(all_tasks_query_text(sort, order)) == 0,
{
    reveal_strlit("SELECT * FROM tasks ORDER BY ");
    reveal_with_fuel(placeholders_from, 32);
    assert(placeholder_count("SELECT * FROM tasks ORDER BY "@) == 0);
    lemma_order_suffix_has_no_placeholder(sort, order);
    assert(all_tasks_query_text(sort, order) =~= "SELECT * FROM tasks ORDER BY "@ + (sort.sql_column()
        + " "@ + order.sql_keyword()));
    lemma_placeholder_count_concat(
        "SELECT * FROM tasks ORDER BY "@,
        sort.sql_column() + " "@ + order.sql_keyword(),
    );
}

/// The listing of the last days takes exactly one parameter, the one that
/// `day_limit_modifier` gives, whatever the sort.
pub proof fn law_day_limit_query_has_one_placeholder(sort: SortBy, order: SortOrder)
    ensures
        placeholder_count(day_limit_query_text(sort, order)) == 1,
{
    let head = "SELECT * FROM tasks WHERE start_time >= date('now', ?) ORDER BY "@;
    reveal_strlit("SELECT * FROM tasks WHERE start_time >= date('now', ?) ORDER BY ");
    reveal_with_fuel(placeholders_from, 70);
    assert(placeholder_count(head) == 1);
    lemma_order_suffix_has_no_placeholder(sort, order);
    assert(day_limit_query_text(sort, order) =~= head + (sort.sql_column() + " "@
        + order.sql_keyword()));
    lemma_placeholder_count_concat(head, sort.sql_column() + " "@ + order.sql_keyword());
}

/// The words after `ORDER BY` name the column and the direction together: two
/// sort settings that give the same words are the same setting.
proof fn lemma_order_suffix_injective(s1: SortBy, o1: SortOrder, s2: SortBy, o2: SortOrder)
    requires
        s1.sql_column() + " "@ + o1.sql_keyword() == s2.sql_column() + " "@ + o2.sql_keyword(),
    ensures
        s1 == s2,
        o1 == o2,
{
    reveal_strlit("start_time");
    reveal_strlit("stop_time");
    reveal_strlit("task_name");
    reveal_strlit(" ");
    reveal_strlit("ASC");
    reveal_strlit("DESC");
    let x = s1.sql_column() + " "@ + o1.sql_keyword();
    let y = s2.sql_column() + " "@ + o2.sql_keyword();
    assert(x.len() == y.len());
    assert(x[1] == s1.sql_column()[1]);
    assert(y[1] == s2.sql_column()[1]);
    assert(x[2] == s1.sql_column()[2]);
    assert(y[2] == s2.sql_column()[2]);
    assert(x[1] == y[1]);
    assert(x[2] == y[2]);
    assert(s1 == s2);
    assert(x.len() == s1.sql_column().len() + 1 + o1.sql_keyword().len());
    assert(y.len() == s2.sql_column().len() + 1 + o2.sql_keyword().len());
    assert(o1.sql_keyword().len() == o2.sql_keyword().len());
}

/// Texts that begin alike and are equal have equal rests.
proof fn lemma_cancel_prefix(p: Seq<char>, a: Seq<char>, b: Seq<char>)
    requires
        p + a == p + b,
    ensures
        a == b,
{
    assert(a =~= (p + a).subrange(p.len() as int, (p + a).len() as int));
    assert(b =~= (p + b).subrange(p.len() as int, (p + b).len() as int));
}

/// The listing of all tasks follows both settings: it begins with
/// `SELECT * FROM tasks ORDER BY`, the sort column and a space, it ends with
/// the direction's keyword, and two different settings (another column or
/// another direction) always give different statements.
pub proof fn law_all_tasks_query_follows_settings(s1: SortBy, o1: SortOrder, s2: SortBy, o2: SortOrder)
    ensures
        all_tasks_query_text(s1, o1).subrange(0, (29 + s1.sql_column().len() + 1) as int)
            == "SELECT * FROM tasks ORDER BY "@ + s1.sql_column() + " "@,
        all_tasks_query_text(s1, o1).subrange(
            all_tasks_query_text(s1, o1).len() - o1.sql_keyword().len(),
            all_tasks_query_text(s1, o1).len() as int,
        ) == o1.sql_keyword(),
        all_tasks_query_text(s1, o1) == all_tasks_query_text(s2, o2) ==> s1 == s2 && o1 == o2,
{
    let p = "SELECT * FROM tasks ORDER BY "@;
    reveal_strlit("SELECT * FROM tasks ORDER BY ");
    assert(p.len() == 29);
    let t = all_tasks_query_text(s1, o1);
    let k = o1.sql_keyword();
    reveal_strlit(" ");
    assert(t.len() == p.len() + s1.sql_column().len() + 1 + k.len());
    assert forall|i: int| 0 <= i < k.len() implies #[trigger] t.subrange(t.len() - k.len(), t.len() as int)[i] == k[i] by {
        assert(t[t.len() - k.len() + i] == k[i]);
    }
    assert(t.subrange(0, (29 + s1.sql_column().len() + 1) as int) =~= p + s1.sql_column() + " "@);
    assert(t.subrange(t.len() - o1.sql_keyword().len(), t.len() as int) =~= o1.sql_keyword());
    if all_tasks_query_text(s1, o1) == all_tasks_query_text(s2, o2) {
        assert(all_tasks_query_text(s1, o1) =~= p + (s1.sql_column() + " "@ + o1.sql_keyword()));
        assert(all_tasks_query_text(s2, o2) =~= p + (s2.sql_column() + " "@ + o2.sql_keyword()));
        lemma_cancel_prefix(
            p,
            s1.sql_column() + " "@ + o1.sql_keyword(),
            s2.sql_column() + " "@ + o2.sql_keyword(),
        );
        lemma_order_suffix_injective(s1, o1, s2, o2);
    }
}

/// The listing of the last days follows both settings: it begins with the
/// date condition, `ORDER BY`, the sort column and a space, it ends with the
/// direction's keyword, and two different settings always give different
/// statements.
pub proof fn law_day_limit_query_follows_settings(s1: SortBy, o1: SortOrder, s2: SortBy, o2: SortOrder)
    ensures
        day_limit_query_text(s1, o1).subrange(0, (64 + s1.sql_column().len() + 1) as int)
            == "SELECT * FROM tasks WHERE start_time >= date('now', ?) ORDER BY "@ + s1.sql_column()
            + " "@,
        day_limit_query_text(s1, o1).subrange(
            day_limit_query_text(s1, o1).len() - o1.sql_keyword().len(),
            day_limit_query_text(s1, o1).len() as int,
        ) == o1.sql_keyword(),
        day_limit_query_text(s1, o1) == day_limit_query_text(s2, o2) ==> s1 == s2 && o1 == o2,
{
    let p = "SELECT * FROM tasks WHERE start_time >= date('now', ?) ORDER BY "@;
    reveal_strlit("SELECT * FROM tasks WHERE start_time >= date('now', ?) ORDER BY ");
    assert(p.len() == 64);
    let t = day_limit_query_text(s1, o1);
    let k = o1.sql_keyword();
    reveal_strlit(" ");
    assert(t.len() == p.len() + s1.sql_column().len() + 1 + k.len());
    assert forall|i: int| 0 <= i < k.len() implies #[trigger] t.subrange(t.len() - k.len(), t.len() as int)[i] == k[i] by {
        assert(t[t.len() - k.len() + i] == k[i]);
    }
    assert(t.subrange(0, (64 + s1.sql_column().len() + 1) as int) =~= p + s1.sql_column() + " "@);
    assert(t.subrange(t.len() - o1.sql_keyword().len(), t.len() as int) =~= o1.sql_keyword());
    if day_limit_query_text(s1, o1) == day_limit_query_text(s2, o2) {
        assert(day_limit_query_text(s1, o1) =~= p + (s1.sql_column() + " "@ + o1.sql_keyword()));
        assert(day_limit_query_text(s2, o2) =~= p + (s2.sql_column() + " "@ + o2.sql_keyword()));
        lemma_cancel_prefix(
            p,
            s1.sql_column() + " "@ + o1.sql_keyword(),
            s2.sql_column() + " "@ + o2.sql_keyword(),
        );
        lemma_order_suffix_injective(s1, o1, s2, o2);
    }
}

/// The search without tags filters on the name alone.
pub proof fn law_search_without_tags()
    ensures
        name_and_tags_query_text(0)
            == "SELECT * FROM tasks WHERE lower(task_name) LIKE lower(?)"@ + " ORDER BY task_name"@,
{
    assert(name_and_tags_query_text(0) =~= "SELECT * FROM tasks WHERE lower(task_name) LIKE lower(?)"@
        + " ORDER BY task_name"@);
}

/// One more tag adds exactly one more condition, joined by `AND`, just before
/// the closing `ORDER BY task_name`: the search for `n + 1` tags is the search
/// for `n` tags with ` AND lower(tags) LIKE lower(?)` put in front of its
/// closing clause.
pub proof fn law_search_one_more_tag(n: nat)
    ensures
        name_and_tags_query_text(n).len() >= 19,
        name_and_tags_query_text(n + 1) == name_and_tags_query_text(n).subrange(
            0,
            name_and_tags_query_text(n).len() - 19,
        ) + " AND lower(tags) LIKE lower(?)"@ + " ORDER BY task_name"@,
{
    reveal_strlit(" ORDER BY task_name");
    let body = name_clause() + repeat_text(tag_clause(), n);
    assert(name_order_clause().len() == 19);
    assert(name_and_tags_query_text(n) =~= body + name_order_clause());
    assert(name_and_tags_query_text(n).subrange(0, name_and_tags_query_text(n).len() - 19) =~= body);
    assert(repeat_text(tag_clause(), n + 1) == repeat_text(tag_clause(), n) + tag_clause());
    assert(name_and_tags_query_text(n + 1) =~= body + tag_clause() + name_order_clause());
}

/// The parameters of the search are the name's pattern `%name%`, then
/// `%tag%` for each tag in order, and nothing else.
pub proof fn law_search_params(name: Seq<char>, tags: Seq<Seq<char>>)
    ensures
        name_and_tags_params_text(name, tags).len() == tags.len() + 1,
        name_and_tags_params_text(name, tags)[0] == "%"@ + name + "%"@,
        forall|k: int|
            0 <= k < tags.len() ==> #[trigger] name_and_tags_params_text(name, tags)[k + 1] == "%"@
                + tags[k] + "%"@,
{
}

/// The day-limit modifier is `-`, then a decimal number that is one less than
/// the number of days, then ` days`.
pub proof fn law_day_limit_modifier_reaches_back(days: int)
    ensures
        exists|back: Seq<char>|
            day_limit_modifier_text(days) == "-"@ + back + " days"@ && signed_value(back) == days
                - 1,
{
    law_int_decimal_writes_value(days - 1);
    let back = int_decimal(days - 1);
    assert(day_limit_modifier_text(days) == "-"@ + back + " days"@);
}

} // verus!
