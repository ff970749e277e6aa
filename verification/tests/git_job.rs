use tabby::git_job::{
    issue_document, next_issue_page, parse_github_repo, AddIssueOutcome, CodeRepository,
    GitRepository, IssueSyncProgress, RepoUrlError, SchedulerGitJob, FIRST_ISSUE_PAGE,
};

#[test]
fn parse_repository_urls() {
    assert_eq!(
        parse_github_repo("https://github.com/TabbyML/tabby"),
        Ok(("TabbyML".to_string(), "tabby".to_string()))
    );
    assert_eq!(
        parse_github_repo("github.com/owner/repo"),
        Ok(("owner".to_string(), "repo".to_string()))
    );
    assert_eq!(
        parse_github_repo("owner/repo/"),
        Ok(("repo".to_string(), "".to_string()))
    );
    assert_eq!(parse_github_repo("//"), Ok(("".to_string(), "".to_string())));
    assert_eq!(parse_github_repo("owner/repo"), Err(RepoUrlError::InvalidFormat));
    assert_eq!(parse_github_repo("repo"), Err(RepoUrlError::InvalidFormat));
    assert_eq!(parse_github_repo(""), Err(RepoUrlError::InvalidFormat));
    assert_eq!(
        RepoUrlError::InvalidFormat.message(),
        "Invalid GitHub repository URL format"
    );
}

#[test]
fn issues_become_documents() {
    let doc = issue_document(
        "src",
        "https://github.com/o/r/issues/1",
        "Bug".to_string(),
        Some("It breaks".to_string()),
    );
    assert_eq!(doc.source_id, "src");
    assert_eq!(doc.id, "https://github.com/o/r/issues/1");
    assert_eq!(doc.link, "https://github.com/o/r/issues/1");
    assert_eq!(doc.title, "Bug");
    assert_eq!(doc.body, "It breaks");
    let doc = issue_document("src", "u", "t".to_string(), None);
    assert_eq!(doc.body, "");
}

#[test]
fn issue_pages() {
    assert_eq!(FIRST_ISSUE_PAGE, 1);
    assert_eq!(next_issue_page(1, Some(3)), Some(2));
    assert_eq!(next_issue_page(2, Some(3)), Some(3));
    assert_eq!(next_issue_page(3, Some(3)), None);
    assert_eq!(next_issue_page(1, None), None);
    assert_eq!(next_issue_page(1, Some(0)), None);
}

#[test]
fn sync_progress_reports_every_hundred() {
    let mut p = IssueSyncProgress::new();
    let mut reports = 0;
    for i in 0..250 {
        let outcome = match i % 3 {
            0 => AddIssueOutcome::Added,
            1 => AddIssueOutcome::NotAdded,
            _ => AddIssueOutcome::Failed,
        };
        if p.record(outcome) {
            reports += 1;
        }
    }
    assert_eq!(reports, 2);
    assert_eq!(p.count(), 250);
    assert_eq!(p.num_updated(), 84);
}

#[test]
fn scheduler_jobs() {
    let repo = CodeRepository::new("https://github.com/a/b", "src-1");
    let job = SchedulerGitJob::new(repo.duplicate());
    assert_eq!(job.repository(), &repo);
    let listed = vec![
        GitRepository { git_url: "u1".to_string(), source_id: "s1".to_string() },
        GitRepository { git_url: "u2".to_string(), source_id: "s2".to_string() },
    ];
    let scheduled = SchedulerGitJob::repositories_to_schedule(&listed);
    assert_eq!(
        scheduled,
        vec![CodeRepository::new("u1", "s1"), CodeRepository::new("u2", "s2")]
    );
}
