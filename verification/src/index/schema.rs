//! The schema of the search index, built with tantivy's schema builder.

use vstd::prelude::*;

verus! {

#[verifier::external_type_specification]
#[verifier::external_body]
pub struct ExSchemaBuilder(tantivy::schema::SchemaBuilder);

#[verifier::external_type_specification]
#[verifier::external_body]
pub struct ExSchema(tantivy::schema::Schema);

/// The names of the fields a schema builder holds, in the order they were added.
pub uninterp spec fn builder_field_names(builder: tantivy::schema::SchemaBuilder) -> Seq<Seq<char>>;

/// The options of the fields a schema builder holds, in the order they were added.
pub uninterp spec fn builder_field_options(builder: tantivy::schema::SchemaBuilder) -> Seq<
    FieldOptionsModel,
>;

/// The names of the fields of a built schema, in field-id order.
pub uninterp spec fn schema_field_names(schema: tantivy::schema::Schema) -> Seq<Seq<char>>;

/// The options of the fields of a built schema, in field-id order.
pub uninterp spec fn schema_field_options(schema: tantivy::schema::Schema) -> Seq<FieldOptionsModel>;

/// Whether tantivy accepts `name` as a field name: it is not empty and does not
/// start with `-` (`tantivy::schema::is_valid_field_name`).
pub open spec fn is_valid_field_name(name: Seq<char>) -> bool {
    name.len() > 0 && name[0] != '-'
}

/// How a text or JSON field is indexed: tokenizer, what the postings record,
/// and whether field norms are kept.
pub struct TextIndexingModel {
    pub tokenizer: Seq<char>,
    pub record: IndexRecordOption,
    pub fieldnorms: bool,
}

/// The options of a field, as far as this library sets them.
pub enum FieldOptionsModel {
    /// A text field: indexed when `indexing` is set, stored, fast.
    Text { indexing: Option<TextIndexingModel>, stored: bool, fast: bool },
    /// A date field.
    Date { indexed: bool, fieldnorms: bool, stored: bool, fast: bool },
    /// A JSON object field.
    Json { indexing: Option<TextIndexingModel>, stored: bool, fast: bool, expand_dots: bool },
}

/// The indexing of `tantivy::schema::STRING`: untokenized (`raw`), document ids
/// only, with field norms.
pub open spec fn untokenized_indexing() -> TextIndexingModel {
    TextIndexingModel { tokenizer: "raw"@, record: IndexRecordOption::Basic, fieldnorms: true }
}

/// Text field options, named by tantivy's flags that make them.
#[derive(Clone, Copy, Debug, PartialEq, Eq, Structural)]
pub enum TextOptionsKind {
    /// `STRING`: indexed untokenized.
    String,
    /// `STRING | FAST`.
    StringFast,
    /// `STRING | STORED`.
    StringStored,
    /// `STRING | FAST | STORED`.
    StringFastStored,
    /// `STORED`: stored only.
    Stored,
}

/// The options that a text options kind stands for, as tantivy's flags set them.
pub open spec fn text_kind_options(kind: TextOptionsKind) -> FieldOptionsModel {
    match kind {
        TextOptionsKind::String => FieldOptionsModel::Text {
            indexing: Some(untokenized_indexing()),
            stored: false,
            fast: false,
        },
        TextOptionsKind::StringFast => FieldOptionsModel::Text {
            indexing: Some(untokenized_indexing()),
            stored: false,
            fast: true,
        },
        TextOptionsKind::StringStored => FieldOptionsModel::Text {
            indexing: Some(untokenized_indexing()),
            stored: true,
            fast: false,
        },
        TextOptionsKind::StringFastStored => FieldOptionsModel::Text {
            indexing: Some(untokenized_indexing()),
            stored: true,
            fast: true,
        },
        TextOptionsKind::Stored => FieldOptionsModel::Text { indexing: None, stored: true, fast: false },
    }
}

/// Date field options, named by tantivy's flags that make them.
#[derive(Clone, Copy, Debug, PartialEq, Eq, Structural)]
pub enum DateOptionsKind {
    /// `INDEXED`: indexed, with field norms.
    Indexed,
}

/// The options that a date options kind stands for.
pub open spec fn date_kind_options(kind: DateOptionsKind) -> FieldOptionsModel {
    match kind {
        DateOptionsKind::Indexed => FieldOptionsModel::Date {
            indexed: true,
            fieldnorms: true,
            stored: false,
            fast: false,
        },
    }
}

/// How a text or JSON field is indexed.
#[derive(Debug, PartialEq, Eq)]
pub struct TextIndexing {
    pub tokenizer: String,
    pub record: IndexRecordOption,
    pub fieldnorms: bool,
}

/// JSON object field options.
#[derive(Debug, PartialEq, Eq)]
pub enum JsonOptionsKind {
    /// `tantivy::schema::JsonObjectOptions::default().set_stored().set_indexing_options(..)`:
    /// stored, and indexed as given.
    StoredIndexed(TextIndexing),
}

/// The options that a JSON options kind stands for.
pub open spec fn json_kind_options(kind: JsonOptionsKind) -> FieldOptionsModel {
    match kind {
        JsonOptionsKind::StoredIndexed(ix) => FieldOptionsModel::Json {
            indexing: Some(
                TextIndexingModel {
                    tokenizer: ix.tokenizer@,
                    record: ix.record,
                    fieldnorms: ix.fieldnorms,
                },
            ),
            stored: true,
            fast: false,
            expand_dots: false,
        },
    }
}

/// `tantivy::schema::Schema::builder`: a builder that holds no field.
#[verifier::external_body]
fn new_schema_builder() -> (builder: tantivy::schema::SchemaBuilder)
    ensures
        builder_field_names(builder) == Seq::<Seq<char>>::empty(),
        builder_field_options(builder) == Seq::<FieldOptionsModel>::empty(),
{
    tantivy::schema::Schema::builder()
}

/// `SchemaBuilder::add_text_field` with the options of `kind`: appends a text field
/// named `name` and returns its id, the number of fields held before. tantivy
/// panics on a name already held and on a name that is empty or starts with `-`.
#[verifier::external_body]
fn add_text_field(
    builder: &mut tantivy::schema::SchemaBuilder,
    name: &str,
    kind: TextOptionsKind,
) -> (field: u32)
    requires
        is_valid_field_name(name@),
        !builder_field_names(*old(builder)).contains(name@),
        builder_field_names(*old(builder)).len() <= u32::MAX,
    ensures
        field == builder_field_names(*old(builder)).len(),
        builder_field_names(*final(builder)) == builder_field_names(*old(builder)).push(name@),
        builder_field_options(*final(builder)) == builder_field_options(*old(builder)).push(
            text_kind_options(kind),
        ),
{
    let options: tantivy::schema::TextOptions = match kind {
        TextOptionsKind::String => tantivy::schema::STRING,
        TextOptionsKind::StringFast => tantivy::schema::STRING | tantivy::schema::FAST,
        TextOptionsKind::StringStored => tantivy::schema::STRING | tantivy::schema::STORED,
        TextOptionsKind::StringFastStored => {
            tantivy::schema::STRING | tantivy::schema::FAST | tantivy::schema::STORED
        },
        TextOptionsKind::Stored => tantivy::schema::STORED.into(),
    };
    builder.add_text_field(name, options).field_id()
}

/// `SchemaBuilder::add_date_field` with the options of `kind`: appends a date field
/// named `name` and returns its id, the number of fields held before. tantivy
/// panics on a name already held and on a name that is empty or starts with `-`.
#[verifier::external_body]
fn add_date_field(
    builder: &mut tantivy::schema::SchemaBuilder,
    name: &str,
    kind: DateOptionsKind,
) -> (field: u32)
    requires
        is_valid_field_name(name@),
        !builder_field_names(*old(builder)).contains(name@),
        builder_field_names(*old(builder)).len() <= u32::MAX,
    ensures
        field == builder_field_names(*old(builder)).len(),
        builder_field_names(*final(builder)) == builder_field_names(*old(builder)).push(name@),
        builder_field_options(*final(builder)) == builder_field_options(*old(builder)).push(
            date_kind_options(kind),
        ),
{
    let options: tantivy::schema::DateOptions = match kind {
        DateOptionsKind::Indexed => tantivy::schema::INDEXED.into(),
    };
    builder.add_date_field(name, options).field_id()
}

/// `SchemaBuilder::add_json_field` with the options of `kind`: appends a JSON field
/// named `name` and returns its id, the number of fields held before. tantivy
/// panics on a name already held and on a name that is empty or starts with `-`.
#[verifier::external_body]
fn add_json_field(
    builder: &mut tantivy::schema::SchemaBuilder,
    name: &str,
    kind: JsonOptionsKind,
) -> (field: u32)
    requires
        is_valid_field_name(name@),
        !builder_field_names(*old(builder)).contains(name@),
        builder_field_names(*old(builder)).len() <= u32::MAX,
    ensures
        field == builder_field_names(*old(builder)).len(),
        builder_field_names(*final(builder)) == builder_field_names(*old(builder)).push(name@),
        builder_field_options(*final(builder)) == builder_field_options(*old(builder)).push(
            json_kind_options(kind),
        ),
{
    let options = match kind {
        JsonOptionsKind::StoredIndexed(ix) => {
            let record = match ix.record {
                IndexRecordOption::Basic => tantivy::schema::IndexRecordOption::Basic,
                IndexRecordOption::WithFreqs => tantivy::schema::IndexRecordOption::WithFreqs,
                IndexRecordOption::WithFreqsAndPositions => tantivy::schema::IndexRecordOption::WithFreqsAndPositions,
            };
            let indexing = tantivy::schema::TextFieldIndexing::default().set_tokenizer(&ix.tokenizer)
                .set_index_option(record).set_fieldnorms(ix.fieldnorms);
            tantivy::schema::JsonObjectOptions::default().set_stored().set_indexing_options(indexing)
        },
    };
    builder.add_json_field(name, options).field_id()
}

/// `SchemaBuilder::build`: the schema holds the builder's fields, in order.
#[verifier::external_body]
fn build_schema(builder: tantivy::schema::SchemaBuilder) -> (schema: tantivy::schema::Schema)
    ensures
        schema_field_names(schema) == builder_field_names(builder),
        schema_field_options(schema) == builder_field_options(builder),
{
    builder.build()
}


/// How much a term's postings record: document ids only, with term frequencies,
/// or with frequencies and positions.
#[derive(Clone, Copy, Debug, PartialEq, Eq, Structural)]
pub enum IndexRecordOption {
    Basic,
    WithFreqs,
    WithFreqsAndPositions,
}

/// Name of the field that holds a chunk's id; only chunk documents have it.
pub const FIELD_CHUNK_ID: &'static str = "chunk_id";

/// Name of the field that holds a document's last update time.
pub const FIELD_UPDATED_AT: &'static str = "updated_at";

/// Id of the `corpus` field.
pub const FIELD_ID_CORPUS: u32 = 0;
/// Id of the `source_id` field.
pub const FIELD_ID_SOURCE_ID: u32 = 1;
/// Id of the `id` field.
pub const FIELD_ID_ID: u32 = 2;
/// Id of the `updated_at` field.
pub const FIELD_ID_UPDATED_AT: u32 = 3;
/// Id of the `attributes` field.
pub const FIELD_ID_ATTRIBUTES: u32 = 4;
/// Id of the `chunk_id` field.
pub const FIELD_ID_CHUNK_ID: u32 = 5;
/// Id of the `chunk_attributes` field.
pub const FIELD_ID_CHUNK_ATTRIBUTES: u32 = 6;
/// Id of the `chunk_tokens` field.
pub const FIELD_ID_CHUNK_TOKENS: u32 = 7;

/// The field names of the index schema, in field-id order.
pub open spec fn index_field_names() -> Seq<Seq<char>> {
    seq![
        "corpus"@,
        "source_id"@,
        "id"@,
        "updated_at"@,
        "attributes"@,
        "chunk_id"@,
        "chunk_attributes"@,
        "chunk_tokens"@,
    ]
}

/// The field options of the index schema, in field-id order: corpus and source
/// id are untokenized and fast; the document id untokenized and stored; the
/// update time an indexed date; document attributes stored only; the chunk id
/// untokenized, fast and stored; chunk attributes a stored JSON object indexed
/// untokenized; chunk tokens untokenized only.
pub open spec fn index_field_options() -> Seq<FieldOptionsModel> {
    seq![
        text_kind_options(TextOptionsKind::StringFast),
        text_kind_options(TextOptionsKind::StringFast),
        text_kind_options(TextOptionsKind::StringStored),
        date_kind_options(DateOptionsKind::Indexed),
        text_kind_options(TextOptionsKind::Stored),
        text_kind_options(TextOptionsKind::StringFastStored),
        FieldOptionsModel::Json {
            indexing: Some(untokenized_indexing()),
            stored: true,
            fast: false,
            expand_dots: false,
        },
        text_kind_options(TextOptionsKind::String),
    ]
}

/// The index schema and the ids of its fields.
pub struct IndexSchema {
    pub schema: tantivy::schema::Schema,
    /// Corpus of the document; each corpus has its own layout of JSON attributes.
    pub field_corpus: u32,
    /// Identifier (within a corpus) of a group of documents.
    pub field_source_id: u32,
    /// Identifier (within a corpus) of a document; a document may have many chunks.
    pub field_id: u32,
    /// Last update time of the document in the index.
    pub field_updated_at: u32,
    /// JSON attributes of a document: stored, not indexed.
    pub field_attributes: u32,
    pub field_chunk_id: u32,
    /// JSON attributes of a chunk: indexed (usable as filters) and stored.
    pub field_chunk_attributes: u32,
    /// Matching tokens of a chunk: indexed, not stored.
    pub field_chunk_tokens: u32,
}

/// No two fields of the index schema share a name.
proof fn lemma_index_field_names_distinct()
    ensures
        forall|i: int, j: int|
            0 <= i < j < 8 ==> #[trigger] index_field_names()[i] != #[trigger] index_field_names()[j],
{
    reveal_strlit("corpus");
    reveal_strlit("source_id");
    reveal_strlit("id");
    reveal_strlit("updated_at");
    reveal_strlit("attributes");
    reveal_strlit("chunk_id");
    reveal_strlit("chunk_attributes");
    reveal_strlit("chunk_tokens");
    let names = index_field_names();
    let lens = seq![6int, 9, 2, 10, 10, 8, 16, 12];
    assert forall|i: int| 0 <= i < 8 implies #[trigger] names[i].len() == lens[i] by {
        if i == 0 { assert(names[0] == "corpus"@); }
        else if i == 1 { assert(names[1] == "source_id"@); }
        else if i == 2 { assert(names[2] == "id"@); }
        else if i == 3 { assert(names[3] == "updated_at"@); }
        else if i == 4 { assert(names[4] == "attributes"@); }
        else if i == 5 { assert(names[5] == "chunk_id"@); }
        else if i == 6 { assert(names[6] == "chunk_attributes"@); }
        else { assert(names[7] == "chunk_tokens"@); }
    }
    assert forall|i: int, j: int| 0 <= i < j < 8 implies #[trigger] names[i] != #[trigger] names[j] by {
        if i == 3 && j == 4 {
            assert(names[3][0] != names[4][0]);
        } else {
            assert(names[i].len() != names[j].len());
        }
    }
}

/// Every field name of the index schema is one tantivy accepts.
proof fn lemma_index_field_names_valid()
    ensures
        forall|i: int| 0 <= i < 8 ==> is_valid_field_name(#[trigger] index_field_names()[i]),
{
    reveal_strlit("corpus");
    reveal_strlit("source_id");
    reveal_strlit("id");
    reveal_strlit("updated_at");
    reveal_strlit("attributes");
    reveal_strlit("chunk_id");
    reveal_strlit("chunk_attributes");
    reveal_strlit("chunk_tokens");
    let names = index_field_names();
    assert forall|i: int| 0 <= i < 8 implies is_valid_field_name(#[trigger] names[i]) by {
        if i == 0 { assert(names[0] == "corpus"@); }
        else if i == 1 { assert(names[1] == "source_id"@); }
        else if i == 2 { assert(names[2] == "id"@); }
        else if i == 3 { assert(names[3] == "updated_at"@); }
        else if i == 4 { assert(names[4] == "attributes"@); }
        else if i == 5 { assert(names[5] == "chunk_id"@); }
        else if i == 6 { assert(names[6] == "chunk_attributes"@); }
        else { assert(names[7] == "chunk_tokens"@); }
    }
}

impl IndexSchema {
    /// Whether this is the index schema: its fields carry the ids 0 to 7 in the
    /// order of `index_field_names`, with the options of `index_field_options`.
    pub open spec fn is_index_schema(&self) -> bool {
        &&& schema_field_names(self.schema) == index_field_names()
        &&& schema_field_options(self.schema) == index_field_options()
        &&& self.field_corpus == FIELD_ID_CORPUS
        &&& self.field_source_id == FIELD_ID_SOURCE_ID
        &&& self.field_id == FIELD_ID_ID
        &&& self.field_updated_at == FIELD_ID_UPDATED_AT
        &&& self.field_attributes == FIELD_ID_ATTRIBUTES
        &&& self.field_chunk_id == FIELD_ID_CHUNK_ID
        &&& self.field_chunk_attributes == FIELD_ID_CHUNK_ATTRIBUTES
        &&& self.field_chunk_tokens == FIELD_ID_CHUNK_TOKENS
    }

    /// The index schema. Every call builds the same schema.
    pub fn instance() -> (schema: IndexSchema)
        ensures
            schema.is_index_schema(),
    {
        Self::new()
    }

    fn new() -> (schema: IndexSchema)
        ensures
            schema.is_index_schema(),
    {
        proof {
            reveal_strlit("corpus");
            reveal_strlit("source_id");
            reveal_strlit("id");
            reveal_strlit("updated_at");
            reveal_strlit("attributes");
            reveal_strlit("chunk_id");
            reveal_strlit("chunk_attributes");
            reveal_strlit("chunk_tokens");
        }
        let mut builder = new_schema_builder();
        let ghost names = index_field_names();
        let ghost options = index_field_options();
        proof {
            lemma_index_field_names_distinct();
            lemma_index_field_names_valid();
        }

        let field_corpus = add_text_field(&mut builder, "corpus", TextOptionsKind::StringFast);
        assert(builder_field_names(builder) =~= names.take(1));
        assert(builder_field_options(builder) =~= options.take(1));
        assert(!names.take(1).contains(names[1]));
        let field_source_id = add_text_field(&mut builder, "source_id", TextOptionsKind::StringFast);
        assert(builder_field_names(builder) =~= names.take(2));
        assert(builder_field_options(builder) =~= options.take(2));
        assert(!names.take(2).contains(names[2]));
        let field_id = add_text_field(&mut builder, "id", TextOptionsKind::StringStored);
        assert(builder_field_names(builder) =~= names.take(3));
        assert(builder_field_options(builder) =~= options.take(3));
        assert(!names.take(3).contains(names[3]));
        let field_updated_at = add_date_field(&mut builder, "updated_at", DateOptionsKind::Indexed);
        assert(builder_field_names(builder) =~= names.take(4));
        assert(builder_field_options(builder) =~= options.take(4));
        assert(!names.take(4).contains(names[4]));
        let field_attributes = add_text_field(&mut builder, "attributes", TextOptionsKind::Stored);
        assert(builder_field_names(builder) =~= names.take(5));
        assert(builder_field_options(builder) =~= options.take(5));
        assert(!names.take(5).contains(names[5]));
        let field_chunk_id = add_text_field(
            &mut builder,
            "chunk_id",
            TextOptionsKind::StringFastStored,
        );
        assert(builder_field_names(builder) =~= names.take(6));
        assert(builder_field_options(builder) =~= options.take(6));
        assert(!names.take(6).contains(names[6]));

        let raw = TextIndexing {
            tokenizer: "raw".to_owned(),
            record: IndexRecordOption::Basic,
            fieldnorms: true,
        };
        let field_chunk_attributes = add_json_field(
            &mut builder,
            "chunk_attributes",
            JsonOptionsKind::StoredIndexed(raw),
        );
        assert(builder_field_names(builder) =~= names.take(7));
        assert(builder_field_options(builder) =~= options.take(7));
        assert(!names.take(7).contains(names[7]));

        let field_chunk_tokens = add_text_field(&mut builder, "chunk_tokens", TextOptionsKind::String);
        assert(builder_field_names(builder) =~= names);
        assert(builder_field_options(builder) =~= options);
        let schema = build_schema(builder);

        IndexSchema {
            schema,
            field_id,
            field_source_id,
            field_corpus,
            field_updated_at,
            field_attributes,
            field_chunk_id,
            field_chunk_attributes,
            field_chunk_tokens,
        }
    }
}

} // verus!
