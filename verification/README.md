# tabby (verified core)

The verified core of a code-search and issue-sync service, written in Verus.

- `src/index/`: the search index. `schema.rs` builds the tantivy schema and
  fixes the id of every field; `term.rs` makes index terms with tantivy;
  `query.rs` is the query tree (term, boolean, constant-score, exists, date
  range) and the document queries; `code/` the code-search queries;
  `embedding.rs` the tokens and query that stand for an embedding.
- `src/event.rs`: which daily file an event line goes to, and when the writer
  switches files.
- `src/issues.rs`: issue rows, the outcome of adding an issue, and the SQL that
  pages through a source's issues.
- `src/git_job.rs`: the GitHub issue sync job: repository-url parsing, issue
  documents, paging and progress counting.
- `src/http.rs`: the HTTP client for model endpoints.
- `app/`: the I/O around it: SQLite access, the event writer task, the GitHub
  fetch, and the conversion of query trees into tantivy queries (whose scores
  are floats).
