//! The queries run against the index, as a tree of plain values. Each node
//! stands for one tantivy query: a term query, a boolean combination, a query
//! whose matches score zero, a field-existence query or a date range.

use vstd::prelude::*;

use crate::index::schema::{IndexRecordOption, IndexSchema, FIELD_CHUNK_ID, FIELD_UPDATED_AT};
use crate::index::term::{text_term_bytes, IndexTerm};

verus! {

/// How a clause of a boolean query takes part in matching.
#[derive(Clone, Copy, Debug, PartialEq, Eq, Structural)]
pub enum Occur {
    /// The clause may match; matching adds to the score.
    Should,
    /// The clause must match.
    Must,
    /// The clause must not match.
    MustNot,
}

/// A query for the documents that hold one term.
#[derive(Debug, PartialEq, Eq)]
pub struct TermQuery {
    pub term: IndexTerm,
    pub record_option: IndexRecordOption,
}

impl TermQuery {
    /// A query for the documents that hold `term`.
    pub fn new(term: IndexTerm, record_option: IndexRecordOption) -> (q: TermQuery)
        ensures
            q.term == term,
            q.record_option == record_option,
    {
        TermQuery { term, record_option }
    }

    /// The term this query looks for.
    pub fn term(&self) -> (t: &IndexTerm)
        ensures
            *t == self.term,
    {
        &self.term
    }
}

/// The constant score given to every match of a query.
#[derive(Clone, Copy, Debug, PartialEq, Eq, Structural)]
pub enum Score {
    /// Zero: the query filters without adding to the score.
    Zero,
    /// One over the given number (infinite when it is zero).
    Reciprocal(usize),
}

/// A query over the index.
#[derive(Debug, PartialEq, Eq)]
pub enum Query {
    /// Documents that hold a term.
    Term(TermQuery),
    /// A boolean combination of clauses.
    Boolean(Vec<(Occur, Query)>),
    /// The documents of the inner query, each with the same score.
    ConstScore(Box<Query>, Score),
    /// Documents that have a value in the named field.
    Exists(String),
    /// Documents whose date field `field` lies at or after `from_nanos`
    /// (nanoseconds since the epoch) and before the largest date; dates are compared
    /// at the precision of the index, whole seconds.
    DateFrom { field: String, from_nanos: i64 },
}

/// A document as the index sees it: the terms it holds, the names of the fields
/// that have a value, and the indexed values of each date field.
pub struct IndexedDoc {
    pub terms: Set<Seq<u8>>,
    pub fields: Set<Seq<char>>,
    pub dates: Map<Seq<char>, Set<i64>>,
}

/// A date in nanoseconds cut to whole seconds, toward zero, as the index stores
/// and compares dates.
pub open spec fn to_indexed_seconds(nanos: int) -> int {
    if nanos >= 0 {
        (nanos / 1_000_000_000) * 1_000_000_000
    } else {
        -(((-nanos) / 1_000_000_000) * 1_000_000_000)
    }
}

/// Whether a boolean query's clauses hold a required clause.
pub open spec fn has_must(clauses: Seq<(Occur, Query)>) -> bool {
    exists|i: int| 0 <= i < clauses.len() && clauses[i].0 == Occur::Must
}

/// Whether the document matches the query: a term query when the document holds
/// the term; a boolean query when every required clause matches, no excluded
/// clause matches, and, without required clauses, some optional clause matches;
/// a constant-score query as its inner query; an existence query when the field
/// has a value; a date query when some date of the field is at or after the
/// bound and before the largest date, both at the index's precision.
pub open spec fn matches(q: Query, doc: IndexedDoc) -> bool
    decreases q,
{
    match q {
        Query::Term(tq) => doc.terms.contains(tq.term.bytes@),
        Query::Boolean(clauses) => {
            &&& forall|i: int|
                #![trigger clauses@[i]]
                0 <= i < clauses@.len() && clauses@[i].0 == Occur::Must ==> matches(
                    clauses@[i].1,
                    doc,
                )
            &&& forall|i: int|
                #![trigger clauses@[i]]
                0 <= i < clauses@.len() && clauses@[i].0 == Occur::MustNot ==> !matches(
                    clauses@[i].1,
                    doc,
                )
            &&& (has_must(clauses@) || exists|i: int|
                #![trigger clauses@[i]]
                0 <= i < clauses@.len() && clauses@[i].0 == Occur::Should && matches(
                    clauses@[i].1,
                    doc,
                ))
        },
        Query::ConstScore(inner, _) => matches(*inner, doc),
        Query::Exists(field) => doc.fields.contains(field@),
        Query::DateFrom { field, from_nanos } => {
            &&& doc.dates.contains_key(field@)
            &&& exists|d: i64|
                #![trigger doc.dates[field@].contains(d)]
                doc.dates[field@].contains(d) && d >= to_indexed_seconds(from_nanos as int) && d
                    < to_indexed_seconds(i64::MAX as int)
        },
    }
}

/// `q` looks for the term `bytes`, recording document ids only.
pub open spec fn is_basic_term_query(q: Query, bytes: Seq<u8>) -> bool {
    &&& q matches Query::Term(tq)
    &&& tq.term.bytes@ == bytes
    &&& tq.record_option == IndexRecordOption::Basic
}

/// `q` is a term query for `bytes`, recording document ids only.
pub open spec fn is_basic_term(q: TermQuery, bytes: Seq<u8>) -> bool {
    q.term.bytes@ == bytes && q.record_option == IndexRecordOption::Basic
}

/// `q` is the term query `tq`, with its matches scored zero.
pub open spec fn is_zero_scored_term(q: Query, bytes: Seq<u8>) -> bool {
    &&& q matches Query::ConstScore(inner, score)
    &&& score == Score::Zero
    &&& is_basic_term_query(*inner, bytes)
}

/// `q` is a boolean query whose `i`-th clause is `(occur, ...)` with the term `bytes`.
pub open spec fn clause_is_term(q: Query, i: int, occur: Occur, bytes: Seq<u8>) -> bool {
    &&& q matches Query::Boolean(clauses)
    &&& 0 <= i < clauses@.len()
    &&& clauses@[i].0 == occur
    &&& is_basic_term_query(clauses@[i].1, bytes)
}

/// `q` is a boolean query whose `i`-th clause excludes the documents that have a
/// value in the field named `field`.
pub open spec fn clause_excludes_field(q: Query, i: int, field: Seq<char>) -> bool {
    &&& q matches Query::Boolean(clauses)
    &&& 0 <= i < clauses@.len()
    &&& clauses@[i].0 == Occur::MustNot
    &&& clauses@[i].1 matches Query::Exists(name)
    &&& name@ == field
}

/// `q` is a boolean query whose `i`-th clause requires the date field named
/// `field` to lie at or after `from_nanos`.
pub open spec fn clause_is_date_from(q: Query, i: int, field: Seq<char>, from_nanos: i64) -> bool {
    &&& q matches Query::Boolean(clauses)
    &&& 0 <= i < clauses@.len()
    &&& clauses@[i].0 == Occur::Must
    &&& clauses@[i].1 matches Query::DateFrom { field: name, from_nanos: nanos }
    &&& name@ == field
    &&& nanos == from_nanos
}

/// The number of clauses of a boolean query (zero for any other query).
pub open spec fn clause_count(q: Query) -> nat {
    match q {
        Query::Boolean(clauses) => clauses@.len(),
        _ => 0,
    }
}

/// The term query of `field` matching `text` exactly.
pub fn text_term_query(field: u32, text: &str) -> (q: TermQuery)
    ensures
        is_basic_term(q, text_term_bytes(field, text@)),
{
    TermQuery::new(IndexTerm::from_field_text(field, text), IndexRecordOption::Basic)
}

/// The clause that excludes chunk documents: those that have a chunk id.
fn exclude_chunks() -> (clause: (Occur, Query))
    ensures
        clause.0 == Occur::MustNot,
        clause.1 matches Query::Exists(name) && name@ == FIELD_CHUNK_ID@,
{
    (Occur::MustNot, Query::Exists(FIELD_CHUNK_ID.to_owned()))
}

impl IndexSchema {
    /// The documents of a corpus.
    pub fn corpus_query(&self, corpus: &str) -> (q: Query)
        ensures
            is_basic_term_query(q, text_term_bytes(self.field_corpus, corpus@)),
    {
        Query::Term(text_term_query(self.field_corpus, corpus))
    }

    /// The documents of one source within a corpus.
    pub fn source_query(&self, corpus: &str, source_id: &str) -> (q: Query)
        ensures
            clause_count(q) == 2,
            clause_is_term(q, 0, Occur::Must, text_term_bytes(self.field_corpus, corpus@)),
            clause_is_term(q, 1, Occur::Must, text_term_bytes(self.field_source_id, source_id@)),
    {
        let mut clauses: Vec<(Occur, Query)> = Vec::new();
        clauses.push((Occur::Must, self.corpus_query(corpus)));
        clauses.push((Occur::Must, Query::Term(text_term_query(self.field_source_id, source_id))));
        Query::Boolean(clauses)
    }

    /// The document `doc_id` of a corpus, without its chunks.
    pub fn doc_query(&self, corpus: &str, doc_id: &str) -> (q: Query)
        ensures
            is_doc_query(
                q,
                text_term_bytes(self.field_corpus, corpus@),
                text_term_bytes(self.field_id, doc_id@),
            ),
    {
        let mut clauses: Vec<(Occur, Query)> = Vec::new();
        clauses.push((Occur::Must, self.corpus_query(corpus)));
        clauses.push((Occur::Must, Query::Term(text_term_query(self.field_id, doc_id))));
        clauses.push(exclude_chunks());
        Query::Boolean(clauses)
    }

    /// The document `doc_id` of a corpus, without its chunks, if it was indexed at
    /// or after `updated_at_nanos` (nanoseconds since the epoch).
    pub fn doc_indexed_after(&self, corpus: &str, doc_id: &str, updated_at_nanos: i64) -> (q:
        Query)
        ensures
            is_doc_indexed_after_query(
                q,
                text_term_bytes(self.field_corpus, corpus@),
                text_term_bytes(self.field_id, doc_id@),
                updated_at_nanos,
            ),
    {
        let mut clauses: Vec<(Occur, Query)> = Vec::new();
        clauses.push((Occur::Must, self.corpus_query(corpus)));
        clauses.push((Occur::Must, Query::Term(text_term_query(self.field_id, doc_id))));
        clauses.push(
            (
                Occur::Must,
                Query::DateFrom {
                    field: FIELD_UPDATED_AT.to_owned(),
                    from_nanos: updated_at_nanos,
                },
            ),
        );
        clauses.push(exclude_chunks());
        Query::Boolean(clauses)
    }

    /// The document `doc_id` of a corpus, with its chunks.
    pub fn doc_query_with_chunks(&self, corpus: &str, doc_id: &str) -> (q: Query)
        ensures
            clause_count(q) == 2,
            clause_is_term(q, 0, Occur::Must, text_term_bytes(self.field_corpus, corpus@)),
            clause_is_term(q, 1, Occur::Must, text_term_bytes(self.field_id, doc_id@)),
    {
        let mut clauses: Vec<(Occur, Query)> = Vec::new();
        clauses.push((Occur::Must, self.corpus_query(corpus)));
        clauses.push((Occur::Must, Query::Term(text_term_query(self.field_id, doc_id))));
        Query::Boolean(clauses)
    }

    /// The documents of any of the given sources: one optional clause per source
    /// id, in the order given.
    pub fn source_ids_query(&self, source_ids: &[String]) -> (q: Query)
        ensures
            clause_count(q) == source_ids@.len(),
            forall|i: int|
                0 <= i < source_ids@.len() ==> clause_is_term(
                    q,
                    i,
                    Occur::Should,
                    text_term_bytes(self.field_source_id, #[trigger] source_ids@[i]@),
                ),
    {
        let mut clauses: Vec<(Occur, Query)> = Vec::new();
        let n = source_ids.len();
        let mut i: usize = 0;
        while i < n
            invariant
                n == source_ids@.len(),
                i <= n,
                clauses@.len() == i,
                forall|j: int|
                    0 <= j < i ==> clauses@[j].0 == Occur::Should && is_basic_term_query(
                        #[trigger] clauses@[j].1,
                        text_term_bytes(self.field_source_id, source_ids@[j]@),
                    ),
            decreases n - i,
        {
            let sid: &String = &source_ids[i];
            let q = Query::Term(text_term_query(self.field_source_id, sid.as_str()));
            let ghost prev = clauses@;
            let ghost pushed = (Occur::Should, q);
            clauses.push((Occur::Should, q));
            assert(clauses@ == prev.push(pushed));
            assert forall|j: int| 0 <= j < i + 1 implies clauses@[j].0 == Occur::Should
                && is_basic_term_query(
                #[trigger] clauses@[j].1,
                text_term_bytes(self.field_source_id, source_ids@[j]@),
            ) by {
                if j < i {
                    assert(clauses@[j] == prev[j]);
                    assert(prev[j].0 == Occur::Should);
                } else {
                    assert(clauses@[j] == pushed);
                }
            }
            i = i + 1;
        }
        let q = Query::Boolean(clauses);
        assert forall|i: int| 0 <= i < source_ids@.len() implies clause_is_term(
            q,
            i,
            Occur::Should,
            text_term_bytes(self.field_source_id, #[trigger] source_ids@[i]@),
        ) by {
            assert(is_basic_term_query(clauses@[i].1, text_term_bytes(self.field_source_id, source_ids@[i]@)));
        }
        q
    }
}

/// Cutting to whole seconds keeps the order of dates.
proof fn lemma_to_indexed_seconds_monotone(a: int, b: int)
    requires
        a <= b,
    ensures
        to_indexed_seconds(a) <= to_indexed_seconds(b),
{
    if a >= 0 {
        assert(a / 1_000_000_000 <= b / 1_000_000_000) by (nonlinear_arith)
            requires
                0 <= a <= b,
        ;
    } else if b >= 0 {
    } else {
        assert((-b) / 1_000_000_000 <= (-a) / 1_000_000_000) by (nonlinear_arith)
            requires
                0 <= -b <= -a,
        ;
    }
}

/// `q` is the query that `doc_query` builds for the corpus term `corpus` and the
/// document id term `doc_id`.
pub open spec fn is_doc_query(q: Query, corpus: Seq<u8>, doc_id: Seq<u8>) -> bool {
    &&& clause_count(q) == 3
    &&& clause_is_term(q, 0, Occur::Must, corpus)
    &&& clause_is_term(q, 1, Occur::Must, doc_id)
    &&& clause_excludes_field(q, 2, FIELD_CHUNK_ID@)
}

/// `q` is the query that `doc_indexed_after` builds for the corpus term `corpus`,
/// the document id term `doc_id` and the date `nanos`.
pub open spec fn is_doc_indexed_after_query(
    q: Query,
    corpus: Seq<u8>,
    doc_id: Seq<u8>,
    nanos: i64,
) -> bool {
    &&& clause_count(q) == 4
    &&& clause_is_term(q, 0, Occur::Must, corpus)
    &&& clause_is_term(q, 1, Occur::Must, doc_id)
    &&& clause_is_date_from(q, 2, FIELD_UPDATED_AT@, nanos)
    &&& clause_excludes_field(q, 3, FIELD_CHUNK_ID@)
}

/// A later date finds fewer documents: whatever the document-indexed-after query
/// finds for a date `t2` it finds for any earlier date `t1`, and whatever it finds
/// the document query for the same corpus and id finds too.
pub proof fn law_doc_indexed_after_narrows(
    corpus: Seq<u8>,
    doc_id: Seq<u8>,
    t1: i64,
    t2: i64,
    after_t1: Query,
    after_t2: Query,
    doc_q: Query,
    doc: IndexedDoc,
)
    requires
        t1 <= t2,
        is_doc_indexed_after_query(after_t1, corpus, doc_id, t1),
        is_doc_indexed_after_query(after_t2, corpus, doc_id, t2),
        is_doc_query(doc_q, corpus, doc_id),
    ensures
        matches(after_t2, doc) ==> matches(after_t1, doc),
        matches(after_t1, doc) ==> matches(doc_q, doc),
{
    let c1 = after_t1->Boolean_0@;
    let c2 = after_t2->Boolean_0@;
    let c0 = doc_q->Boolean_0@;
    assert(has_must(c1) && has_must(c2) && has_must(c0)) by {
        assert(c1[0].0 == Occur::Must);
        assert(c2[0].0 == Occur::Must);
        assert(c0[0].0 == Occur::Must);
    }
    lemma_to_indexed_seconds_monotone(t1 as int, t2 as int);
    if matches(after_t2, doc) {
        assert(matches(c2[0].1, doc));
        assert(matches(c2[1].1, doc));
        assert(matches(c2[2].1, doc));
        assert(!matches(c2[3].1, doc));
        let d = choose|d: i64|
            doc.dates[FIELD_UPDATED_AT@].contains(d) && d >= to_indexed_seconds(t2 as int) && d
                < to_indexed_seconds(i64::MAX as int);
        assert(doc.dates[FIELD_UPDATED_AT@].contains(d));
        assert(matches(c1[2].1, doc));
        assert forall|i: int|
            0 <= i < c1.len() && c1[i].0 == Occur::Must implies matches(#[trigger] c1[i].1, doc) by {
            if i == 0 {
                assert(matches(c1[0].1, doc) == matches(c2[0].1, doc));
            } else if i == 1 {
                assert(matches(c1[1].1, doc) == matches(c2[1].1, doc));
            }
        }
        assert forall|i: int|
            0 <= i < c1.len() && c1[i].0 == Occur::MustNot implies !matches(#[trigger] c1[i].1, doc) by {
            assert(i == 3);
            assert(matches(c1[3].1, doc) == matches(c2[3].1, doc));
        }
    }
    if matches(after_t1, doc) {
        assert(matches(c1[0].1, doc));
        assert(matches(c1[1].1, doc));
        assert(!matches(c1[3].1, doc));
        assert forall|i: int|
            0 <= i < c0.len() && c0[i].0 == Occur::Must implies matches(#[trigger] c0[i].1, doc) by {
            if i == 0 {
                assert(matches(c0[0].1, doc) == matches(c1[0].1, doc));
            } else {
                assert(matches(c0[1].1, doc) == matches(c1[1].1, doc));
            }
        }
        assert forall|i: int|
            0 <= i < c0.len() && c0[i].0 == Occur::MustNot implies !matches(#[trigger] c0[i].1, doc) by {
            assert(i == 2);
            assert(matches(c0[2].1, doc) == matches(c1[3].1, doc));
        }
    }
}

} // verus!
