use tabby::index::code::{body_query, code_search_query, language_query, CodeSearchQuery};
use tabby::index::query::{Occur, Query, Score};
use tabby::index::schema::IndexRecordOption;
use tabby::index::term::IndexTerm;

#[test]
fn test_language_query() {
    let lhs = language_query("javascript-typescript");
    assert_eq!(lhs.term(), language_query("javascript").term());
    assert_eq!(lhs.term(), language_query("typescript").term());
    assert_eq!(lhs.term(), language_query("typescriptreact").term());
    assert_eq!(lhs.term(), language_query("javascriptreact").term());
}

#[test]
fn language_query_keeps_other_languages_apart() {
    assert_ne!(language_query("rust").term(), language_query("python").term());
    assert_ne!(language_query("rust").term(), language_query("javascript").term());
    assert_eq!(language_query("rust").term(), language_query("rust").term());
    assert_eq!(language_query("rust").record_option, IndexRecordOption::Basic);
}

#[test]
fn language_term_bytes() {
    // field 6, JSON type, path "chunk_language" closed by the end-of-path byte,
    // then the string type code and the value.
    let mut expected: Vec<u8> = vec![0, 0, 0, 6, b'j'];
    expected.extend_from_slice(b"chunk_language");
    expected.push(0);
    expected.push(b's');
    expected.extend_from_slice(b"rust");
    assert_eq!(language_query("rust").term().bytes, expected);
}

#[test]
fn text_term_bytes() {
    let term = IndexTerm::from_field_text(1, "ab");
    assert_eq!(term.bytes, vec![0, 0, 0, 1, b's', b'a', b'b']);
    let term = IndexTerm::from_field_text(258, "é");
    assert_eq!(term.bytes, vec![0, 0, 1, 2, b's', 0xc3, 0xa9]);
}

#[test]
fn body_query_is_a_union_of_token_terms() {
    let tokens = vec!["fn".to_string(), "main".to_string()];
    let q = body_query(&tokens);
    match q {
        Query::Boolean(clauses) => {
            assert_eq!(clauses.len(), 2);
            for (i, (occur, sub)) in clauses.iter().enumerate() {
                assert_eq!(*occur, Occur::Should);
                match sub {
                    Query::Term(tq) => {
                        assert_eq!(tq.term(), &IndexTerm::from_field_text(7, &tokens[i]));
                    }
                    other => panic!("unexpected clause {:?}", other),
                }
            }
        }
        other => panic!("unexpected query {:?}", other),
    }
    match body_query(&[]) {
        Query::Boolean(clauses) => assert!(clauses.is_empty()),
        other => panic!("unexpected query {:?}", other),
    }
}

fn zero_scored_term(q: &Query) -> &IndexTerm {
    match q {
        Query::ConstScore(inner, Score::Zero) => match inner.as_ref() {
            Query::Term(tq) => tq.term(),
            other => panic!("unexpected inner query {:?}", other),
        },
        other => panic!("unexpected clause {:?}", other),
    }
}

#[test]
fn code_search_query_clauses() {
    let search = CodeSearchQuery {
        git_url: "https://github.com/a/b".to_string(),
        filepath: Some("src/main.rs".to_string()),
        language: Some("typescript".to_string()),
    };
    let tokens = Query::Exists("marker".to_string());
    let q = code_search_query(&search, tokens);
    let clauses = match q {
        Query::Boolean(clauses) => clauses,
        other => panic!("unexpected query {:?}", other),
    };
    assert_eq!(clauses.len(), 5);
    assert_eq!(clauses[0].0, Occur::Must);
    assert_eq!(zero_scored_term(&clauses[0].1), &IndexTerm::from_field_text(0, "code"));
    assert_eq!(clauses[1], (Occur::Must, Query::Exists("marker".to_string())));
    assert_eq!(clauses[2].0, Occur::Must);
    assert_eq!(
        zero_scored_term(&clauses[2].1),
        &IndexTerm::from_json_path_str(6, "chunk_git_url", "https://github.com/a/b")
    );
    assert_eq!(clauses[3].0, Occur::Must);
    assert_eq!(zero_scored_term(&clauses[3].1), language_query("javascript").term());
    assert_eq!(clauses[4].0, Occur::MustNot);
    assert_eq!(
        zero_scored_term(&clauses[4].1),
        &IndexTerm::from_json_path_str(6, "chunk_filepath", "src/main.rs")
    );
}

#[test]
fn code_search_query_without_optional_filters() {
    let search = CodeSearchQuery {
        git_url: "g".to_string(),
        filepath: None,
        language: None,
    };
    match code_search_query(&search, Query::Boolean(vec![])) {
        Query::Boolean(clauses) => {
            assert_eq!(clauses.len(), 3);
            assert!(clauses.iter().all(|(occur, _)| *occur == Occur::Must));
        }
        other => panic!("unexpected query {:?}", other),
    }
    let search = CodeSearchQuery {
        git_url: "g".to_string(),
        filepath: Some("f".to_string()),
        language: None,
    };
    match code_search_query(&search, Query::Boolean(vec![])) {
        Query::Boolean(clauses) => {
            assert_eq!(clauses.len(), 4);
            assert_eq!(clauses[3].0, Occur::MustNot);
        }
        other => panic!("unexpected query {:?}", other),
    }
}

#[test]
fn json_path_term_bytes_split_on_unescaped_dots() {
    let mut expected: Vec<u8> = vec![0, 0, 0, 6, b'j'];
    expected.extend_from_slice(b"a");
    expected.push(1);
    expected.extend_from_slice(b"b.c");
    expected.push(0);
    expected.push(b's');
    expected.extend_from_slice(b"v");
    assert_eq!(IndexTerm::from_json_path_str(6, "a.b\\.c", "v").bytes, expected);
}
