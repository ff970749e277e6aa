//! The job that syncs a repository's GitHub issues into the issue table and then
//! refreshes the repository's code index. Fetching pages from GitHub, storing
//! issues and indexing are the caller's; the rules that parse the repository
//! url, turn issues into documents, page through the issue list and count the
//! progress live here.

use vstd::prelude::*;

use crate::text::{
    count_char, count_char_up_to, lemma_count_char_absent, lemma_count_char_concat,
    lemma_count_positive_contains, rfind_char,
};

verus! {

/// A code repository to index.
#[derive(Debug, PartialEq, Eq)]
pub struct CodeRepository {
    pub git_url: String,
    pub source_id: String,
}

impl CodeRepository {
    /// The repository at `git_url`, indexed under `source_id`.
    pub fn new(git_url: &str, source_id: &str) -> (r: CodeRepository)
        ensures
            r.git_url@ == git_url@,
            r.source_id@ == source_id@,
    {
        CodeRepository { git_url: git_url.to_owned(), source_id: source_id.to_owned() }
    }

    /// A copy of the repository.
    pub fn duplicate(&self) -> (r: CodeRepository)
        ensures
            r.git_url@ == self.git_url@,
            r.source_id@ == self.source_id@,
    {
        CodeRepository::new(self.git_url.as_str(), self.source_id.as_str())
    }
}

/// A git repository as the repository service lists it.
#[derive(Debug, PartialEq, Eq)]
pub struct GitRepository {
    pub git_url: String,
    pub source_id: String,
}

/// The job that syncs one repository.
#[derive(Debug, PartialEq, Eq)]
pub struct SchedulerGitJob {
    repository: CodeRepository,
}

impl SchedulerGitJob {
    /// The repository the job syncs.
    pub closed spec fn repository_spec(&self) -> CodeRepository {
        self.repository
    }

    /// The job that syncs `repository`.
    pub fn new(repository: CodeRepository) -> (job: SchedulerGitJob)
        ensures
            job.repository_spec() == repository,
    {
        SchedulerGitJob { repository }
    }

    /// The repository the job syncs.
    pub fn repository(&self) -> (r: &CodeRepository)
        ensures
            *r == self.repository_spec(),
    {
        &self.repository
    }

    /// The repositories that the periodic run schedules a job for: every listed
    /// repository, in order, by its url and source id.
    pub fn repositories_to_schedule(repositories: &[GitRepository]) -> (res: Vec<CodeRepository>)
        ensures
            res@.len() == repositories@.len(),
            forall|i: int|
                0 <= i < res@.len() ==> (#[trigger] res@[i]).git_url@ == repositories@[i].git_url@
                    && res@[i].source_id@ == repositories@[i].source_id@,
    {
        let mut res: Vec<CodeRepository> = Vec::new();
        let n = repositories.len();
        let mut i: usize = 0;
        while i < n
            invariant
                n == repositories@.len(),
                i <= n,
                res@.len() == i,
                forall|j: int|
                    0 <= j < i ==> (#[trigger] res@[j]).git_url@ == repositories@[j].git_url@
                        && res@[j].source_id@ == repositories@[j].source_id@,
            decreases n - i,
        {
            let repo = &repositories[i];
            res.push(CodeRepository::new(repo.git_url.as_str(), repo.source_id.as_str()));
            i = i + 1;
        }
        res
    }
}

/// A web document made from an issue.
#[derive(Debug, PartialEq, Eq)]
pub struct WebDocument {
    pub source_id: String,
    pub id: String,
    pub link: String,
    pub title: String,
    pub body: String,
}

/// The document of an issue: identified and linked by the issue's page url, with
/// the issue's title, and its body or the empty text when it has none.
pub fn issue_document(source_id: &str, html_url: &str, title: String, body: Option<String>) -> (doc:
    WebDocument)
    ensures
        doc.source_id@ == source_id@,
        doc.id@ == html_url@,
        doc.link@ == html_url@,
        doc.title == title,
        match body {
            Some(b) => doc.body == b,
            None => doc.body@ == Seq::<char>::empty(),
        },
{
    let body = match body {
        Some(b) => b,
        None => String::new(),
    };
    WebDocument {
        source_id: source_id.to_owned(),
        id: html_url.to_owned(),
        link: html_url.to_owned(),
        title,
        body,
    }
}

/// Why a repository url names no GitHub repository.
#[derive(Debug, PartialEq, Eq)]
pub enum RepoUrlError {
    /// The url has fewer than two `/`.
    InvalidFormat,
}

impl RepoUrlError {
    /// The error's message.
    pub fn message(&self) -> (m: &'static str)
        ensures
            match self {
                RepoUrlError::InvalidFormat => m@ == "Invalid GitHub repository URL format"@,
            },
    {
        match self {
            RepoUrlError::InvalidFormat => "Invalid GitHub repository URL format",
        }
    }
}

/// `url` ends with `/owner/repo`, neither part holding a `/`.
pub open spec fn ends_with_owner_repo(url: Seq<char>, owner: Seq<char>, repo: Seq<char>) -> bool {
    let tail = seq!['/'] + owner + seq!['/'] + repo;
    &&& !owner.contains('/')
    &&& !repo.contains('/')
    &&& tail.len() <= url.len()
    &&& url.subrange(url.len() - tail.len(), url.len() as int) == tail
}

/// The owner and repository names of a repository url such as
/// `https://github.com/owner/repo`: the url must hold at least two `/`; the
/// repository is what follows the last `/`, the owner what lies between the two
/// last ones.
pub fn parse_github_repo(git_url: &str) -> (res: Result<(String, String), RepoUrlError>)
    ensures
        count_char(git_url@, '/') < 2 <==> res == Err::<(String, String), RepoUrlError>(
            RepoUrlError::InvalidFormat,
        ),
        count_char(git_url@, '/') >= 2 ==> (res matches Ok((owner, repo)) && ends_with_owner_repo(
            git_url@,
            owner@,
            repo@,
        )),
{
    if count_char_up_to(git_url, '/', 2) != 2 {
        return Err(RepoUrlError::InvalidFormat);
    }
    let n = git_url.unicode_len();
    let ghost s = git_url@;
    proof {
        lemma_count_positive_contains(s, '/');
        assert(s.subrange(0, n as int) =~= s);
    }
    let last = match rfind_char(git_url, '/', n) {
        Some(j) => j,
        None => {
            return Err(RepoUrlError::InvalidFormat);
        },
    };
    proof {
        let head = s.subrange(0, last as int);
        let rest = s.subrange(last + 1, n as int);
        assert(s =~= head + seq!['/'] + rest);
        lemma_count_char_concat(head + seq!['/'], rest, '/');
        lemma_count_char_concat(head, seq!['/'], '/');
        lemma_count_char_absent(rest, '/');
        assert(count_char(seq!['/'], '/') == 1) by {
            let one = seq!['/'];
            assert(one.drop_last() =~= Seq::<char>::empty());
            assert(count_char(one.drop_last(), '/') == 0);
            assert(one.last() == '/');
        }
        lemma_count_positive_contains(head, '/');
    }
    let before = match rfind_char(git_url, '/', last) {
        Some(k) => k,
        None => {
            return Err(RepoUrlError::InvalidFormat);
        },
    };
    let owner = git_url.substring_char(before + 1, last).to_owned();
    let repo = git_url.substring_char(last + 1, n).to_owned();
    proof {
        let tail = seq!['/'] + owner@ + seq!['/'] + repo@;
        assert(s.subrange(s.len() - tail.len(), s.len() as int) =~= tail);
    }
    Ok((owner, repo))
}

/// The page of the issue list fetched first.
pub const FIRST_ISSUE_PAGE: u32 = 1;

/// The page that follows `page`, given the number of pages a response reported
/// (none counts as zero); `None` once `page` was the last.
pub open spec fn next_page(page: u32, number_of_pages: Option<u32>) -> Option<u32> {
    let pages = match number_of_pages {
        Some(p) => p,
        None => 0,
    };
    if page + 1 > pages {
        None
    } else {
        Some((page + 1) as u32)
    }
}

/// The page to fetch after `page`, given the number of pages the response
/// reported; `None` once `page` was the last.
pub fn next_issue_page(page: u32, number_of_pages: Option<u32>) -> (next: Option<u32>)
    requires
        page < u32::MAX,
    ensures
        next == next_page(page, number_of_pages),
{
    let pages = match number_of_pages {
        Some(p) => p,
        None => 0,
    };
    let page = page + 1;
    if page > pages {
        None
    } else {
        Some(page)
    }
}

/// How storing one fetched issue ended.
#[derive(Clone, Copy, Debug, PartialEq, Eq, Structural)]
pub enum AddIssueOutcome {
    /// The issue was stored.
    Added,
    /// The store reported that it did not add the issue.
    NotAdded,
    /// The store failed.
    Failed,
}

/// The issues seen and stored so far by a sync.
pub struct IssueSyncProgress {
    count: i32,
    num_updated: i32,
}

impl IssueSyncProgress {
    /// The number of issues seen.
    pub closed spec fn seen(&self) -> int {
        self.count as int
    }

    /// The number of issues stored.
    pub closed spec fn updated(&self) -> int {
        self.num_updated as int
    }

    /// Every count is within `0 <= updated <= seen <= i32::MAX`.
    pub closed spec fn wf(&self) -> bool {
        0 <= self.num_updated <= self.count
    }

    /// No issue seen yet.
    pub fn new() -> (p: IssueSyncProgress)
        ensures
            p.wf(),
            p.seen() == 0,
            p.updated() == 0,
    {
        IssueSyncProgress { count: 0, num_updated: 0 }
    }

    /// The number of issues seen.
    pub fn count(&self) -> (n: i32)
        ensures
            n == self.seen(),
    {
        self.count
    }

    /// The number of issues stored.
    pub fn num_updated(&self) -> (n: i32)
        ensures
            n == self.updated(),
    {
        self.num_updated
    }

    /// Records one more issue seen and how storing it ended. Returns whether the
    /// progress is due to be reported: after every hundredth issue.
    pub fn record(&mut self, outcome: AddIssueOutcome) -> (report: bool)
        requires
            old(self).wf(),
            old(self).seen() < i32::MAX,
        ensures
            final(self).wf(),
            final(self).seen() == old(self).seen() + 1,
            final(self).updated() == old(self).updated() + if outcome == AddIssueOutcome::Added {
                1int
            } else {
                0int
            },
            report == (final(self).seen() % 100 == 0),
    {
        if outcome == AddIssueOutcome::Added {
            self.num_updated = self.num_updated + 1;
        }
        self.count = self.count + 1;
        self.count % 100 == 0
    }
}

/// The number of issues stored among the given outcomes.
pub open spec fn added_count(outcomes: Seq<AddIssueOutcome>) -> nat
    decreases outcomes.len(),
{
    if outcomes.len() == 0 {
        0
    } else {
        added_count(outcomes.drop_last()) + if outcomes.last() == AddIssueOutcome::Added {
            1nat
        } else {
            0nat
        }
    }
}

/// `states` is a sync's progress before each issue and after the last one, as
/// `record` leaves it for the outcomes in order, starting from `new`.
pub open spec fn is_sync_run(outcomes: Seq<AddIssueOutcome>, states: Seq<IssueSyncProgress>) -> bool {
    &&& states.len() == outcomes.len() + 1
    &&& states[0].seen() == 0
    &&& states[0].updated() == 0
    &&& forall|i: int|
        0 <= i < outcomes.len() ==> #[trigger] states[i + 1].seen() == states[i].seen() + 1
            && states[i + 1].updated() == states[i].updated() + if outcomes[i]
            == AddIssueOutcome::Added {
            1int
        } else {
            0int
        }
}

/// After a sync has recorded a run of outcomes, it has seen one issue per outcome
/// and stored exactly as many as were added, never more than it saw.
pub proof fn law_sync_counts(outcomes: Seq<AddIssueOutcome>, states: Seq<IssueSyncProgress>)
    requires
        is_sync_run(outcomes, states),
    ensures
        states.last().seen() == outcomes.len(),
        states.last().updated() == added_count(outcomes),
        added_count(outcomes) <= outcomes.len(),
    decreases outcomes.len(),
{
    if outcomes.len() > 0 {
        let n = outcomes.len() - 1;
        let shorter = outcomes.drop_last();
        let prefix = states.drop_last();
        assert forall|i: int| 0 <= i < shorter.len() implies #[trigger] prefix[i + 1].seen()
            == prefix[i].seen() + 1 && prefix[i + 1].updated() == prefix[i].updated() + if shorter[i]
            == AddIssueOutcome::Added {
            1int
        } else {
            0int
        } by {
            assert(states[i + 1].seen() == states[i].seen() + 1);
        }
        law_sync_counts(shorter, prefix);
        assert(states[n + 1].seen() == states[n].seen() + 1);
    }
}

/// Paging goes on through every page reported: after any page before the last
/// reported one comes the very next page, and paging stops only after the last
/// reported page (or at once when no number of pages was reported).
pub proof fn law_pages_continue_to_last(page: u32, number_of_pages: Option<u32>)
    requires
        page < u32::MAX,
    ensures
        number_of_pages matches Some(p) && page + 1 <= p ==> next_page(page, number_of_pages)
            == Some((page + 1) as u32),
        next_page(page, number_of_pages) is None <==> (number_of_pages matches Some(p) ==> page
            + 1 > p),
{
}

/// Paging through the issue list moves forward one page at a time and never
/// goes past the number of pages reported.
pub proof fn law_pages_advance_within_bounds(page: u32, number_of_pages: Option<u32>, next: u32)
    requires
        page < u32::MAX,
        next_page(page, number_of_pages) == Some(next),
    ensures
        next == page + 1,
        number_of_pages matches Some(p) && next <= p,
{
}

} // verus!
