//! Tokens that stand for an embedding in the index: one per dimension, telling
//! whether the value there is above zero.

use vstd::prelude::*;

use crate::index::query::{is_basic_term_query, Occur, Query, Score, TermQuery};
use crate::index::schema::{IndexRecordOption, IndexSchema, FIELD_ID_CHUNK_TOKENS};
use crate::index::term::{text_term_bytes, IndexTerm};
use crate::text::{concat, decimal_digits, lemma_decimal_digits_injective, lemma_decimal_digits_len, usize_to_string};

verus! {

/// The token of dimension `i`: `embedding_zero_i` when the value there is at most
/// zero, `embedding_one_i` otherwise.
pub open spec fn binarized_token(i: nat, non_positive: bool) -> Seq<char> {
    (if non_positive {
        "embedding_zero_"@
    } else {
        "embedding_one_"@
    }) + decimal_digits(i)
}

/// The token of a dimension names it in full: it starts with `embedding_zero_`
/// when the value there is at most zero and with `embedding_one_` otherwise, and
/// it ends with the whole decimal rendering of the dimension. So no two
/// dimensions share a token.
pub proof fn law_tokens_name_their_dimension(i: nat, a: bool, j: nat, b: bool)
    ensures
        ({
            let t = binarized_token(i, a);
            let d = decimal_digits(i);
            let p: Seq<char> = if a { "embedding_zero_"@ } else { "embedding_one_"@ };
            &&& t.len() == p.len() + d.len()
            &&& t.subrange(0, p.len() as int) == p
            &&& t.subrange(p.len() as int, t.len() as int) == d
        }),
        i != j ==> binarized_token(i, a) != binarized_token(j, b),
{
    reveal_strlit("embedding_zero_");
    reveal_strlit("embedding_one_");
    let pa: Seq<char> = if a { "embedding_zero_"@ } else { "embedding_one_"@ };
    let pb: Seq<char> = if b { "embedding_zero_"@ } else { "embedding_one_"@ };
    let ta = binarized_token(i, a);
    let tb = binarized_token(j, b);
    assert(ta.subrange(0, pa.len() as int) =~= pa);
    assert(ta.subrange(pa.len() as int, ta.len() as int) =~= decimal_digits(i));
    if i != j && ta == tb {
        lemma_decimal_digits_len(i);
        lemma_decimal_digits_len(j);
        if a == b {
            assert(tb.subrange(pb.len() as int, tb.len() as int) =~= decimal_digits(j));
            lemma_decimal_digits_injective(i, j);
        } else {
            assert(ta[10] == pa[10]);
            assert(tb[10] == pb[10]);
        }
    }
}

/// The tokens of an embedding, given for each dimension whether its value is at
/// most zero.
pub fn binarize_embedding(non_positive: &[bool]) -> (tokens: Vec<String>)
    ensures
        tokens@.len() == non_positive@.len(),
        forall|i: int|
            0 <= i < tokens@.len() ==> #[trigger] tokens@[i]@ == binarized_token(
                i as nat,
                non_positive@[i],
            ),
{
    let mut tokens: Vec<String> = Vec::new();
    let n = non_positive.len();
    let mut i: usize = 0;
    while i < n
        invariant
            n == non_positive@.len(),
            i <= n,
            tokens@.len() == i,
            forall|j: int|
                0 <= j < i ==> #[trigger] tokens@[j]@ == binarized_token(
                    j as nat,
                    non_positive@[j],
                ),
        decreases n - i,
    {
        let index = usize_to_string(i);
        let token = if non_positive[i] {
            concat("embedding_zero_", index.as_str())
        } else {
            concat("embedding_one_", index.as_str())
        };
        tokens.push(token);
        i = i + 1;
    }
    tokens
}

/// The `i`-th clause of `q` optionally matches the term of `field` equal to `text`,
/// scoring one over `embedding_dims`.
pub open spec fn is_const_term_clause(
    q: Query,
    i: int,
    field: u32,
    text: Seq<char>,
    embedding_dims: usize,
) -> bool {
    &&& q matches Query::Boolean(clauses)
    &&& 0 <= i < clauses@.len()
    &&& is_const_term(clauses@[i], field, text, embedding_dims)
}

/// The clause optionally matches the term of `field` equal to `text`, scoring one
/// over `embedding_dims`.
pub open spec fn is_const_term(clause: (Occur, Query), field: u32, text: Seq<char>, embedding_dims: usize) -> bool {
    &&& clause.0 == Occur::Should
    &&& clause.1 matches Query::ConstScore(inner, score)
    &&& score == Score::Reciprocal(embedding_dims)
    &&& is_basic_term_query(*inner, text_term_bytes(field, text))
}

/// Documents holding any of the terms of `field`: one optional clause per term,
/// in order, each match scoring one over `embedding_dims`, so that a document
/// scores the share of the terms it holds.
pub fn new_multiterms_const_query(field: u32, embedding_dims: usize, terms: &[String]) -> (q: Query)
    ensures
        q matches Query::Boolean(clauses) && clauses@.len() == terms@.len(),
        forall|i: int|
            0 <= i < terms@.len() ==> #[trigger] is_const_term_clause(
                q,
                i,
                field,
                terms@[i]@,
                embedding_dims,
            ),
{
    let mut clauses: Vec<(Occur, Query)> = Vec::new();
    let n = terms.len();
    let mut i: usize = 0;
    while i < n
        invariant
            n == terms@.len(),
            i <= n,
            clauses@.len() == i,
            forall|j: int|
                0 <= j < i ==> #[trigger] is_const_term(clauses@[j], field, terms@[j]@, embedding_dims),
        decreases n - i,
    {
        let text: &String = &terms[i];
        let tq = TermQuery::new(
            IndexTerm::from_field_text(field, text.as_str()),
            IndexRecordOption::Basic,
        );
        let q = Query::ConstScore(Box::new(Query::Term(tq)), Score::Reciprocal(embedding_dims));
        let ghost prev = clauses@;
        let ghost pushed = (Occur::Should, q);
        clauses.push((Occur::Should, q));
        assert forall|j: int| 0 <= j < i + 1 implies #[trigger] is_const_term(
            clauses@[j],
            field,
            terms@[j]@,
            embedding_dims,
        ) by {
            if j < i {
                assert(clauses@[j] == prev[j]);
            } else {
                assert(clauses@[j] == pushed);
            }
        }
        i = i + 1;
    }
    let q = Query::Boolean(clauses);
    assert forall|i: int| 0 <= i < terms@.len() implies #[trigger] is_const_term_clause(
        q,
        i,
        field,
        terms@[i]@,
        embedding_dims,
    ) by {
        assert(is_const_term(clauses@[i], field, terms@[i]@, embedding_dims));
    }
    q
}

/// The query for chunks whose tokens match an embedding, given for each dimension
/// whether its value is at most zero: one clause per dimension's token, each
/// scoring one over `embedding_dims`.
pub fn embedding_tokens_query(embedding_dims: usize, non_positive: &[bool]) -> (q: Query)
    ensures
        q matches Query::Boolean(clauses) && clauses@.len() == non_positive@.len(),
        forall|i: int|
            0 <= i < non_positive@.len() ==> #[trigger] is_const_term_clause(
                q,
                i,
                FIELD_ID_CHUNK_TOKENS,
                binarized_token(i as nat, non_positive@[i]),
                embedding_dims,
            ),
{
    let schema = IndexSchema::instance();
    let tokens = binarize_embedding(non_positive);
    let q = new_multiterms_const_query(schema.field_chunk_tokens, embedding_dims, tokens.as_slice());
    assert forall|i: int| 0 <= i < non_positive@.len() implies #[trigger] is_const_term_clause(
        q,
        i,
        FIELD_ID_CHUNK_TOKENS,
        binarized_token(i as nat, non_positive@[i]),
        embedding_dims,
    ) by {
        assert(is_const_term_clause(q, i, FIELD_ID_CHUNK_TOKENS, tokens@[i]@, embedding_dims));
    }
    q
}

} // verus!
