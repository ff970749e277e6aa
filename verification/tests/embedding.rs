use tabby::index::query::{Occur, Query, Score};
use tabby::index::term::IndexTerm;
use tabby::index::{binarize_embedding, embedding_tokens_query, new_multiterms_const_query};
use tantivy::collector::TopDocs;
use tantivy::query::{BooleanQuery, ConstScoreQuery, TermQuery};
use tantivy::schema::{IndexRecordOption, Schema, STRING};
use tantivy::{Index, IndexWriter, TantivyDocument, Term};

fn signs(values: &[f32]) -> Vec<bool> {
    values.iter().map(|v| *v <= 0.0).collect()
}

#[test]
fn binarize_embedding_example() {
    let embedding = vec![0.5, -0.3, 1.2, -0.8];
    let result = binarize_embedding(&signs(&embedding));
    assert_eq!(
        result,
        vec!["embedding_one_0", "embedding_zero_1", "embedding_one_2", "embedding_zero_3"]
    );
    let zero = binarize_embedding(&signs(&[0.0; 12]));
    assert_eq!(zero[11], "embedding_zero_11");
    assert!(binarize_embedding(&[]).is_empty());
}

#[test]
fn embedding_tokens_query_clauses() {
    let q = embedding_tokens_query(3, &[false, true, false]);
    match q {
        Query::Boolean(c) => {
            assert_eq!(c.len(), 3);
            let expected = ["embedding_one_0", "embedding_zero_1", "embedding_one_2"];
            for (i, (occur, sub)) in c.iter().enumerate() {
                assert_eq!(*occur, Occur::Should);
                match sub {
                    Query::ConstScore(inner, Score::Reciprocal(3)) => match inner.as_ref() {
                        Query::Term(tq) => {
                            assert_eq!(tq.term(), &IndexTerm::from_field_text(7, expected[i]))
                        }
                        other => panic!("unexpected inner {:?}", other),
                    },
                    other => panic!("unexpected clause {:?}", other),
                }
            }
        }
        other => panic!("unexpected query {:?}", other),
    }
}

fn to_tantivy(q: &Query) -> Box<dyn tantivy::query::Query> {
    match q {
        Query::Term(tq) => Box::new(TermQuery::new(
            Term::wrap(tq.term().bytes.clone()),
            IndexRecordOption::Basic,
        )),
        Query::Boolean(clauses) => Box::new(BooleanQuery::new(
            clauses
                .iter()
                .map(|(occur, sub)| {
                    let occur = match occur {
                        Occur::Should => tantivy::query::Occur::Should,
                        Occur::Must => tantivy::query::Occur::Must,
                        Occur::MustNot => tantivy::query::Occur::MustNot,
                    };
                    (occur, to_tantivy(sub))
                })
                .collect(),
        )),
        Query::ConstScore(inner, score) => {
            let score = match score {
                Score::Zero => 0.0,
                Score::Reciprocal(n) => 1.0 / *n as f32,
            };
            Box::new(ConstScoreQuery::new(to_tantivy(inner), score))
        }
        other => panic!("not needed here: {:?}", other),
    }
}

#[test]
fn test_new_multiterms_const_query() -> tantivy::Result<()> {
    let mut schema_builder = Schema::builder();
    let field1 = schema_builder.add_text_field("field1", STRING);
    let schema = schema_builder.build();
    let index = Index::create_in_ram(schema);
    {
        let mut index_writer: IndexWriter = index.writer(15_000_000)?;

        // doc1
        let mut doc = TantivyDocument::new();
        doc.add_text(field1, "value1");
        doc.add_text(field1, "value2");
        doc.add_text(field1, "value3");
        index_writer.add_document(doc)?;

        // doc2
        let mut doc = TantivyDocument::new();
        doc.add_text(field1, "value2");
        doc.add_text(field1, "value4");
        index_writer.add_document(doc)?;

        index_writer.commit()?;
    }
    let reader = index.reader()?;
    let searcher = reader.searcher();

    {
        let terms = vec!["value1".to_string(), "value3".to_string()];
        let query = to_tantivy(&new_multiterms_const_query(field1.field_id(), 4, &terms));

        let top_docs = searcher.search(&query, &TopDocs::with_limit(1))?;
        println!("explain {:?}", query.explain(&searcher, top_docs[0].1)?);

        assert_eq!(top_docs.len(), 1, "Expected 1 document");
        assert_eq!(top_docs[0].0, 0.5);
    }

    {
        let terms = vec!["value1".to_string(), "value2".to_string(), "value3".to_string()];
        let query = to_tantivy(&new_multiterms_const_query(field1.field_id(), 4, &terms));

        let top_docs = searcher.search(&query, &TopDocs::with_limit(1))?;

        assert_eq!(top_docs.len(), 1, "Expected 1 document");
        assert_eq!(top_docs[0].0, 0.75);
    }

    Ok(())
}
