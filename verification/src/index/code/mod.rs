//! Queries over the code corpus.

pub mod fields;

use vstd::prelude::*;

use crate::index::corpus;
use crate::index::query::{
    is_basic_term, is_basic_term_query, is_zero_scored_term, Occur, Query, Score, TermQuery,
};
use crate::index::schema::{
    IndexRecordOption, IndexSchema, FIELD_ID_CHUNK_ATTRIBUTES, FIELD_ID_CHUNK_TOKENS,
    FIELD_ID_CORPUS,
};
use crate::index::term::{
    json_path_bytes, json_str_term_bytes, term_header, text_term_bytes, IndexTerm, TYPE_CODE_JSON,
    TYPE_CODE_STR,
};
use vstd::utf8::{encode_utf8, encode_utf8_decode_utf8};
use crate::text::str_eq;

verus! {

/// A search for code chunks: in one repository, optionally in one language, and
/// optionally away from one file.
pub struct CodeSearchQuery {
    pub git_url: String,
    pub filepath: Option<String>,
    pub language: Option<String>,
}

/// The language under which chunks are indexed: JavaScript, TypeScript and their
/// React dialects share one.
pub open spec fn indexed_language(language: Seq<char>) -> Seq<char> {
    if language == "javascript"@ || language == "typescript"@ || language == "javascriptreact"@
        || language == "typescriptreact"@ {
        "javascript-typescript"@
    } else {
        language
    }
}

/// The bytes of the term that matches the chunk attribute `attribute` equal to `value`.
pub open spec fn chunk_attribute_term(attribute: Seq<char>, value: Seq<char>) -> Seq<u8> {
    json_str_term_bytes(FIELD_ID_CHUNK_ATTRIBUTES, attribute, value)
}

/// Two languages select the same chunks exactly when they are indexed under the
/// same language: the language terms agree if and only if the indexed languages do.
pub proof fn law_language_terms_agree(a: Seq<char>, b: Seq<char>)
    ensures
        (chunk_attribute_term("chunk_language"@, indexed_language(a)) == chunk_attribute_term(
            "chunk_language"@,
            indexed_language(b),
        )) <==> (indexed_language(a) == indexed_language(b)),
{
    let la = indexed_language(a);
    let lb = indexed_language(b);
    let prefix = term_header(FIELD_ID_CHUNK_ATTRIBUTES, TYPE_CODE_JSON) + json_path_bytes(
        "chunk_language"@,
        false,
    ) + seq![TYPE_CODE_STR];
    let ta = chunk_attribute_term("chunk_language"@, la);
    let tb = chunk_attribute_term("chunk_language"@, lb);
    assert(ta == prefix + encode_utf8(la));
    assert(tb == prefix + encode_utf8(lb));
    if ta == tb {
        assert(ta.subrange(prefix.len() as int, ta.len() as int) =~= encode_utf8(la));
        assert(tb.subrange(prefix.len() as int, tb.len() as int) =~= encode_utf8(lb));
        encode_utf8_decode_utf8(la);
        encode_utf8_decode_utf8(lb);
    }
}

/// Only JavaScript, TypeScript and their React dialects are indexed under the
/// shared name; every other language is indexed under its own name, so its
/// language term holds that very name.
pub proof fn law_other_languages_keep_their_name(language: Seq<char>)
    requires
        language != "javascript"@,
        language != "typescript"@,
        language != "javascriptreact"@,
        language != "typescriptreact"@,
    ensures
        indexed_language(language) == language,
        chunk_attribute_term("chunk_language"@, indexed_language(language)) == chunk_attribute_term(
            "chunk_language"@,
            language,
        ),
{
}

/// JavaScript, TypeScript and their React dialects are all indexed under
/// `javascript-typescript`, and no other language is.
pub proof fn law_javascript_family_shares_name(language: Seq<char>)
    ensures
        (indexed_language(language) == "javascript-typescript"@) <==> (language
            == "javascript"@ || language == "typescript"@ || language == "javascriptreact"@
            || language == "typescriptreact"@ || language == "javascript-typescript"@),
{
}

/// The term query for chunks whose attribute `attribute` equals `value`.
fn chunk_attribute_query(attribute: &str, value: &str) -> (q: TermQuery)
    ensures
        is_basic_term(q, chunk_attribute_term(attribute@, value@)),
{
    let schema = IndexSchema::instance();
    let term = IndexTerm::from_json_path_str(schema.field_chunk_attributes, attribute, value);
    TermQuery::new(term, IndexRecordOption::Basic)
}

/// Chunks in the programming language `language`.
pub fn language_query(language: &str) -> (q: TermQuery)
    ensures
        is_basic_term(q, chunk_attribute_term("chunk_language"@, indexed_language(language@))),
{
    proof {
        reveal_strlit("chunk_language");
    }
    let language = if str_eq(language, "javascript") || str_eq(language, "typescript") || str_eq(
        language,
        "javascriptreact",
    ) || str_eq(language, "typescriptreact") {
        "javascript-typescript"
    } else {
        language
    };
    chunk_attribute_query("chunk_language", language)
}

/// Chunks that hold any of the tokens: one optional clause per token, in order.
pub fn body_query(tokens: &[String]) -> (q: Query)
    ensures
        q matches Query::Boolean(clauses) && clauses@.len() == tokens@.len(),
        forall|i: int|
            0 <= i < tokens@.len() ==> #[trigger] token_clause(q, i, tokens@[i]@),
{
    let schema = IndexSchema::instance();
    let mut clauses: Vec<(Occur, Query)> = Vec::new();
    let n = tokens.len();
    let mut i: usize = 0;
    while i < n
        invariant
            n == tokens@.len(),
            i <= n,
            clauses@.len() == i,
            schema.field_chunk_tokens == FIELD_ID_CHUNK_TOKENS,
            forall|j: int|
                0 <= j < i ==> clauses@[j].0 == Occur::Should && is_basic_term_query(
                    #[trigger] clauses@[j].1,
                    text_term_bytes(FIELD_ID_CHUNK_TOKENS, tokens@[j]@),
                ),
        decreases n - i,
    {
        let token: &String = &tokens[i];
        let tq = TermQuery::new(
            IndexTerm::from_field_text(schema.field_chunk_tokens, token.as_str()),
            IndexRecordOption::Basic,
        );
        let q = Query::Term(tq);
        let ghost prev = clauses@;
        let ghost pushed = (Occur::Should, q);
        clauses.push((Occur::Should, q));
        assert forall|j: int| 0 <= j < i + 1 implies clauses@[j].0 == Occur::Should
            && is_basic_term_query(
            #[trigger] clauses@[j].1,
            text_term_bytes(FIELD_ID_CHUNK_TOKENS, tokens@[j]@),
        ) by {
            if j < i {
                assert(clauses@[j] == prev[j]);
                assert(prev[j].0 == Occur::Should);
            } else {
                assert(clauses@[j] == pushed);
            }
        }
        i = i + 1;
    }
    let q = Query::Boolean(clauses);
    assert forall|i: int| 0 <= i < tokens@.len() implies #[trigger] token_clause(q, i, tokens@[i]@) by {
        assert(is_basic_term_query(clauses@[i].1, text_term_bytes(FIELD_ID_CHUNK_TOKENS, tokens@[i]@)));
    }
    q
}

/// The `i`-th clause of the boolean query `q` optionally matches `token` among
/// the chunk tokens.
pub open spec fn token_clause(q: Query, i: int, token: Seq<char>) -> bool {
    &&& q matches Query::Boolean(clauses)
    &&& 0 <= i < clauses@.len()
    &&& clauses@[i].0 == Occur::Should
    &&& is_basic_term_query(clauses@[i].1, text_term_bytes(FIELD_ID_CHUNK_TOKENS, token))
}

/// Chunks of the repository `git_url`.
fn git_url_query(git_url: &str) -> (q: TermQuery)
    ensures
        is_basic_term(q, chunk_attribute_term("chunk_git_url"@, git_url@)),
{
    proof {
        reveal_strlit("chunk_git_url");
    }
    chunk_attribute_query("chunk_git_url", git_url)
}

/// Chunks of the file `filepath`.
fn filepath_query(filepath: &str) -> (q: TermQuery)
    ensures
        is_basic_term(q, chunk_attribute_term("chunk_filepath"@, filepath@)),
{
    proof {
        reveal_strlit("chunk_filepath");
    }
    chunk_attribute_query("chunk_filepath", filepath)
}

/// What a code search must match, in clause order: a code chunk (score zero), the
/// chunk tokens query, the repository (score zero), then the language when one is
/// given (score zero), and it must not be in the file when one is given (score zero).
pub open spec fn is_code_search_query(
    q: Query,
    search: CodeSearchQuery,
    chunk_tokens_query: Query,
) -> bool {
    &&& q matches Query::Boolean(clauses)
    &&& clauses@.len() == 3 + (if search.language is Some { 1int } else { 0 }) + (
    if search.filepath is Some { 1int } else { 0 })
    &&& clauses@[0].0 == Occur::Must
    &&& is_zero_scored_term(clauses@[0].1, text_term_bytes(FIELD_ID_CORPUS, "code"@))
    &&& clauses@[1] == (Occur::Must, chunk_tokens_query)
    &&& clauses@[2].0 == Occur::Must
    &&& is_zero_scored_term(clauses@[2].1, chunk_attribute_term("chunk_git_url"@, search.git_url@))
    &&& (search.language matches Some(language) ==> {
        &&& clauses@[3].0 == Occur::Must
        &&& is_zero_scored_term(
            clauses@[3].1,
            chunk_attribute_term("chunk_language"@, indexed_language(language@)),
        )
    })
    &&& (search.filepath matches Some(filepath) ==> {
        let last = clauses@.len() - 1;
        &&& clauses@[last].0 == Occur::MustNot
        &&& is_zero_scored_term(clauses@[last].1, chunk_attribute_term("chunk_filepath"@, filepath@))
    })
}

/// The query of a code search, around the query that matches its tokens.
pub fn code_search_query(query: &CodeSearchQuery, chunk_tokens_query: Query) -> (q: Query)
    ensures
        is_code_search_query(q, *query, chunk_tokens_query),
{
    proof {
        reveal_strlit("code");
    }
    let schema = IndexSchema::instance();
    let corpus_query = schema.corpus_query(corpus::CODE);
    assert(corpus::CODE@ == "code"@);
    let git_url_query = git_url_query(query.git_url.as_str());

    let mut clauses: Vec<(Occur, Query)> = Vec::new();
    clauses.push((Occur::Must, Query::ConstScore(Box::new(corpus_query), Score::Zero)));
    clauses.push((Occur::Must, chunk_tokens_query));
    clauses.push((Occur::Must, Query::ConstScore(Box::new(Query::Term(git_url_query)), Score::Zero)));

    if let Some(language) = &query.language {
        let lq = language_query(language.as_str());
        clauses.push((Occur::Must, Query::ConstScore(Box::new(Query::Term(lq)), Score::Zero)));
    }
    if let Some(filepath) = &query.filepath {
        let fq = filepath_query(filepath.as_str());
        clauses.push((Occur::MustNot, Query::ConstScore(Box::new(Query::Term(fq)), Score::Zero)));
    }
    Query::Boolean(clauses)
}

} // verus!
