//! The issue table: its rows, the outcome of adding an issue, and the paging
//! query that lists the issues of a source.

use vstd::prelude::*;

use crate::text::{concat, decimal_digits, decimal_int, i32_to_string, usize_to_string};

verus! {

/// A row of the issue table.
#[derive(Debug, PartialEq, Eq)]
pub struct IssueDAO {
    pub id: i64,
    pub source_id: String,
    pub url: String,
    pub title: String,
    pub description: String,
}

/// How an insertion into the issue table ended.
#[derive(Debug, PartialEq, Eq)]
pub enum InsertOutcome {
    /// The row was inserted.
    Inserted,
    /// Another row already has the issue's url.
    UniqueViolation,
    /// The database failed otherwise, with this message.
    Failed(String),
}

/// Why adding or reading issues failed.
#[derive(Debug, PartialEq, Eq)]
pub enum IssueError {
    /// An issue with the same url is already stored.
    UrlAlreadyExists,
    /// The database failed, with this message.
    Database(String),
}

impl IssueError {
    /// The error's message.
    pub fn message(&self) -> (m: String)
        ensures
            match self {
                IssueError::UrlAlreadyExists => m@ == "Failed to add issue, url already exists"@,
                IssueError::Database(msg) => m@ == msg@,
            },
    {
        match self {
            IssueError::UrlAlreadyExists => "Failed to add issue, url already exists".to_owned(),
            IssueError::Database(msg) => msg.clone(),
        }
    }
}

/// The result of adding an issue: `true` once inserted; a url already stored, or
/// any other database failure, is an error.
pub fn add_issue_result(outcome: InsertOutcome) -> (res: Result<bool, IssueError>)
    ensures
        match outcome {
            InsertOutcome::Inserted => res == Ok::<bool, IssueError>(true),
            InsertOutcome::UniqueViolation => res == Err::<bool, IssueError>(
                IssueError::UrlAlreadyExists,
            ),
            InsertOutcome::Failed(msg) => res matches Err(IssueError::Database(m)) && m@ == msg@,
        },
{
    match outcome {
        InsertOutcome::Inserted => Ok(true),
        InsertOutcome::UniqueViolation => Err(IssueError::UrlAlreadyExists),
        InsertOutcome::Failed(msg) => Err(IssueError::Database(msg)),
    }
}

/// The SQL that inserts an issue; its parameters are source id, url, title and
/// description, in that order.
pub const INSERT_ISSUE_SQL: &'static str =
    "INSERT INTO issues (source_id, url, title, description) VALUES (?, ?, ?, ?)";

/// The SQL that reads the issue of a url; its one parameter is the url.
pub const GET_ISSUE_SQL: &'static str =
    "SELECT id, source_id, url, title, description FROM issues WHERE url = ?";

/// The SQL condition that selects the issues of `source_id`.
pub open spec fn source_condition_spec(source_id: Seq<char>) -> Seq<char> {
    "source_id = '"@ + source_id + "'"@
}

/// The SQL condition that selects the issues of `source_id`. The id is put in the
/// text as given.
pub fn source_condition(source_id: &str) -> (c: String)
    ensures
        c@ == source_condition_spec(source_id@),
{
    let head = concat("source_id = '", source_id);
    concat(head.as_str(), "'")
}

/// The `LIMIT` clause, if any.
pub open spec fn limit_clause(limit: Option<usize>) -> Seq<char> {
    match limit {
        Some(n) => " LIMIT "@ + decimal_digits(n as nat),
        None => ""@,
    }
}

/// The cursor condition: ids after `skip_id` forward, before it backwards.
pub open spec fn cursor_condition(skip_id: Option<i32>, backwards: bool) -> Seq<char> {
    match skip_id {
        Some(id) => (if backwards { "id < "@ } else { "id > "@ }) + decimal_int(id as int)
            + " AND "@,
        None => ""@,
    }
}

/// The query for a page of the issues of `source_id`, in ascending id order:
/// forward, the first `limit` issues after `skip_id`; backwards, the last `limit`
/// issues before it.
pub open spec fn list_issues_sql(
    source_id: Seq<char>,
    limit: Option<usize>,
    skip_id: Option<i32>,
    backwards: bool,
) -> Seq<char> {
    let filter = " WHERE "@ + cursor_condition(skip_id, backwards) + source_condition_spec(
        source_id,
    );
    if backwards {
        "SELECT id, source_id, url, title, description FROM (SELECT * FROM issues"@ + filter
            + " ORDER BY id DESC"@ + limit_clause(limit) + ") ORDER BY id ASC"@
    } else {
        "SELECT id, source_id, url, title, description FROM issues"@ + filter
            + " ORDER BY id ASC"@ + limit_clause(limit)
    }
}

/// Whenever a limit `n` is given, whatever the cursor and direction, the query
/// caps the page at `n` rows: forward it ends in ` LIMIT n`; backwards its inner
/// query ends in ` LIMIT n`, followed only by the outer ascending order.
pub proof fn law_limit_caps_page(
    source_id: Seq<char>,
    n: usize,
    skip_id: Option<i32>,
    backwards: bool,
)
    ensures
        ({
            let sql = list_issues_sql(source_id, Some(n), skip_id, backwards);
            let tail = if backwards {
                " LIMIT "@ + decimal_digits(n as nat) + ") ORDER BY id ASC"@
            } else {
                " LIMIT "@ + decimal_digits(n as nat)
            };
            &&& sql.len() >= tail.len()
            &&& sql.subrange(sql.len() - tail.len(), sql.len() as int) == tail
        }),
{
    let sql = list_issues_sql(source_id, Some(n), skip_id, backwards);
    let cond = source_condition_spec(source_id);
    let filter = " WHERE "@ + cursor_condition(skip_id, backwards) + cond;
    let limit = " LIMIT "@ + decimal_digits(n as nat);
    if backwards {
        let head = "SELECT id, source_id, url, title, description FROM (SELECT * FROM issues"@
            + filter + " ORDER BY id DESC"@;
        let tail = limit + ") ORDER BY id ASC"@;
        assert(sql =~= head + tail);
        assert(sql.subrange(sql.len() - tail.len(), sql.len() as int) =~= tail);
    } else {
        let head = "SELECT id, source_id, url, title, description FROM issues"@ + filter
            + " ORDER BY id ASC"@;
        assert(sql =~= head + limit);
        assert(sql.subrange(sql.len() - limit.len(), sql.len() as int) =~= limit);
    }
}

fn push_str(s: &mut String, t: &str)
    ensures
        final(s)@ == old(s)@ + t@,
{
    s.append(t);
}

/// The SQL for a page of the issues of `source_id`.
pub fn list_issues_query(
    source_id: &str,
    limit: Option<usize>,
    skip_id: Option<i32>,
    backwards: bool,
) -> (sql: String)
    ensures
        sql@ == list_issues_sql(source_id@, limit, skip_id, backwards),
{
    proof {
        reveal_strlit("");
    }
    let mut filter = " WHERE ".to_owned();
    if let Some(id) = skip_id {
        if backwards {
            push_str(&mut filter, "id < ");
        } else {
            push_str(&mut filter, "id > ");
        }
        let digits = i32_to_string(id);
        push_str(&mut filter, digits.as_str());
        push_str(&mut filter, " AND ");
        assert(filter@ =~= " WHERE "@ + cursor_condition(skip_id, backwards));
    } else {
        assert(filter@ =~= " WHERE "@ + cursor_condition(skip_id, backwards));
    }
    let condition = source_condition(source_id);
    push_str(&mut filter, condition.as_str());
    let mut limit_text = "".to_owned();
    if let Some(n) = limit {
        push_str(&mut limit_text, " LIMIT ");
        let digits = usize_to_string(n);
        push_str(&mut limit_text, digits.as_str());
        assert(limit_text@ =~= limit_clause(limit));
    } else {
        assert(limit_text@ =~= limit_clause(limit));
    }
    let mut sql;
    if backwards {
        sql = "SELECT id, source_id, url, title, description FROM (SELECT * FROM issues".to_owned();
        push_str(&mut sql, filter.as_str());
        push_str(&mut sql, " ORDER BY id DESC");
        push_str(&mut sql, limit_text.as_str());
        push_str(&mut sql, ") ORDER BY id ASC");
    } else {
        sql = "SELECT id, source_id, url, title, description FROM issues".to_owned();
        push_str(&mut sql, filter.as_str());
        push_str(&mut sql, " ORDER BY id ASC");
        push_str(&mut sql, limit_text.as_str());
    }
    proof {
        assert(filter@ =~= " WHERE "@ + cursor_condition(skip_id, backwards) + source_condition_spec(source_id@));
        assert(limit_text@ =~= limit_clause(limit));
        assert(sql@ =~= list_issues_sql(source_id@, limit, skip_id, backwards));
    }
    sql
}

} // verus!
