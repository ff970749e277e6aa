use tantivy::schema::{Field, FieldType, IndexRecordOption};
use tabby::index::query::{Occur, Query};
use tabby::index::term::IndexTerm;
use tabby::index::IndexSchema;

#[test]
fn schema_fields_and_names() {
    let s = IndexSchema::instance();
    let ids = [
        s.field_corpus,
        s.field_source_id,
        s.field_id,
        s.field_updated_at,
        s.field_attributes,
        s.field_chunk_id,
        s.field_chunk_attributes,
        s.field_chunk_tokens,
    ];
    assert_eq!(ids, [0, 1, 2, 3, 4, 5, 6, 7]);
    let names = [
        "corpus",
        "source_id",
        "id",
        "updated_at",
        "attributes",
        "chunk_id",
        "chunk_attributes",
        "chunk_tokens",
    ];
    for (id, name) in ids.iter().zip(names.iter()) {
        let field = tantivy::schema::Field::from_field_id(*id);
        assert_eq!(s.schema.get_field_name(field), *name);
    }
    assert_eq!(s.schema.fields().count(), 8);
    let chunk_attributes = s.schema.get_field_entry(tantivy::schema::Field::from_field_id(6));
    assert!(chunk_attributes.is_indexed());
    assert!(chunk_attributes.is_stored());
    let tokens = s.schema.get_field_entry(tantivy::schema::Field::from_field_id(7));
    assert!(!tokens.is_stored());
}

fn text_options(s: &IndexSchema, id: u32) -> (bool, bool, Option<String>) {
    match s.schema.get_field_entry(Field::from_field_id(id)).field_type() {
        FieldType::Str(o) => (
            o.is_stored(),
            o.is_fast(),
            o.get_indexing_options().map(|i| i.tokenizer().to_string()),
        ),
        other => panic!("not a text field: {:?}", other),
    }
}

#[test]
fn schema_field_options() {
    let s = IndexSchema::instance();
    let raw = Some("raw".to_string());
    assert_eq!(text_options(&s, 0), (false, true, raw.clone()));
    assert_eq!(text_options(&s, 1), (false, true, raw.clone()));
    assert_eq!(text_options(&s, 2), (true, false, raw.clone()));
    assert_eq!(text_options(&s, 4), (true, false, None));
    assert_eq!(text_options(&s, 5), (true, true, raw.clone()));
    assert_eq!(text_options(&s, 7), (false, false, raw.clone()));
    match s.schema.get_field_entry(Field::from_field_id(3)).field_type() {
        FieldType::Date(o) => {
            assert!(o.is_indexed());
            assert!(!o.is_stored());
            assert!(!o.is_fast());
        }
        other => panic!("not a date field: {:?}", other),
    }
    match s.schema.get_field_entry(Field::from_field_id(6)).field_type() {
        FieldType::JsonObject(o) => {
            assert!(o.is_stored());
            assert!(!o.is_fast());
            let indexing = o.get_text_indexing_options().unwrap();
            assert_eq!(indexing.tokenizer(), "raw");
            assert_eq!(indexing.index_option(), IndexRecordOption::Basic);
            assert!(indexing.fieldnorms());
        }
        other => panic!("not a JSON field: {:?}", other),
    }
}

fn term_clause(clause: &(Occur, Query)) -> (Occur, &IndexTerm) {
    match &clause.1 {
        Query::Term(tq) => (clause.0, tq.term()),
        other => panic!("unexpected clause {:?}", other),
    }
}

#[test]
fn doc_queries() {
    let s = IndexSchema::instance();
    let corpus = IndexTerm::from_field_text(0, "web");
    let doc = IndexTerm::from_field_text(2, "doc-1");

    match s.doc_query("web", "doc-1") {
        Query::Boolean(c) => {
            assert_eq!(c.len(), 3);
            assert_eq!(term_clause(&c[0]), (Occur::Must, &corpus));
            assert_eq!(term_clause(&c[1]), (Occur::Must, &doc));
            assert_eq!(c[2], (Occur::MustNot, Query::Exists("chunk_id".to_string())));
        }
        other => panic!("unexpected query {:?}", other),
    }

    match s.doc_query_with_chunks("web", "doc-1") {
        Query::Boolean(c) => {
            assert_eq!(c.len(), 2);
            assert_eq!(term_clause(&c[0]), (Occur::Must, &corpus));
            assert_eq!(term_clause(&c[1]), (Occur::Must, &doc));
        }
        other => panic!("unexpected query {:?}", other),
    }

    match s.doc_indexed_after("web", "doc-1", 1_700_000_000_000_000_000) {
        Query::Boolean(c) => {
            assert_eq!(c.len(), 4);
            assert_eq!(term_clause(&c[0]), (Occur::Must, &corpus));
            assert_eq!(term_clause(&c[1]), (Occur::Must, &doc));
            assert_eq!(
                c[2],
                (
                    Occur::Must,
                    Query::DateFrom {
                        field: "updated_at".to_string(),
                        from_nanos: 1_700_000_000_000_000_000
                    }
                )
            );
            assert_eq!(c[3], (Occur::MustNot, Query::Exists("chunk_id".to_string())));
        }
        other => panic!("unexpected query {:?}", other),
    }
}

#[test]
fn source_queries() {
    let s = IndexSchema::instance();
    match s.source_query("code", "src-1") {
        Query::Boolean(c) => {
            assert_eq!(c.len(), 2);
            assert_eq!(term_clause(&c[0]), (Occur::Must, &IndexTerm::from_field_text(0, "code")));
            assert_eq!(term_clause(&c[1]), (Occur::Must, &IndexTerm::from_field_text(1, "src-1")));
        }
        other => panic!("unexpected query {:?}", other),
    }
    let ids = vec!["a".to_string(), "b".to_string(), "c".to_string()];
    match s.source_ids_query(&ids) {
        Query::Boolean(c) => {
            assert_eq!(c.len(), 3);
            for (i, clause) in c.iter().enumerate() {
                assert_eq!(
                    term_clause(clause),
                    (Occur::Should, &IndexTerm::from_field_text(1, &ids[i]))
                );
            }
        }
        other => panic!("unexpected query {:?}", other),
    }
    match s.corpus_query("code") {
        Query::Term(tq) => assert_eq!(tq.term(), &IndexTerm::from_field_text(0, "code")),
        other => panic!("unexpected query {:?}", other),
    }
}
