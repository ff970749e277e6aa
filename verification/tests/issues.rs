use tabby::issues::{
    add_issue_result, list_issues_query, source_condition, InsertOutcome, IssueDAO, IssueError,
};

#[test]
fn add_issue_outcomes() {
    assert_eq!(add_issue_result(InsertOutcome::Inserted), Ok(true));
    let err = add_issue_result(InsertOutcome::UniqueViolation).unwrap_err();
    assert_eq!(err, IssueError::UrlAlreadyExists);
    assert_eq!(err.message(), "Failed to add issue, url already exists");
    let err = add_issue_result(InsertOutcome::Failed("disk full".to_string())).unwrap_err();
    assert_eq!(err, IssueError::Database("disk full".to_string()));
    assert_eq!(err.message(), "disk full");
}

#[test]
fn source_condition_text() {
    assert_eq!(source_condition("source_id1"), "source_id = 'source_id1'");
}

#[test]
fn list_issues_sql_forward() {
    assert_eq!(
        list_issues_query("s1", None, None, false),
        "SELECT id, source_id, url, title, description FROM issues WHERE source_id = 's1' ORDER BY id ASC"
    );
    assert_eq!(
        list_issues_query("s1", Some(10), Some(-3), false),
        "SELECT id, source_id, url, title, description FROM issues WHERE id > -3 AND source_id = 's1' ORDER BY id ASC LIMIT 10"
    );
}

#[test]
fn list_issues_sql_backwards() {
    assert_eq!(
        list_issues_query("s1", Some(2), Some(40), true),
        "SELECT id, source_id, url, title, description FROM (SELECT * FROM issues WHERE id < 40 AND source_id = 's1' ORDER BY id DESC LIMIT 2) ORDER BY id ASC"
    );
    assert_eq!(
        list_issues_query("s1", None, None, true),
        "SELECT id, source_id, url, title, description FROM (SELECT * FROM issues WHERE source_id = 's1' ORDER BY id DESC) ORDER BY id ASC"
    );
}

#[test]
fn issue_rows() {
    let issue = IssueDAO {
        id: 1,
        source_id: "source_id1".to_string(),
        url: "url1".to_string(),
        title: "title1".to_string(),
        description: "description1".to_string(),
    };
    assert_eq!(issue.url, "url1");
}
