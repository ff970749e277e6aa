//! Index terms. A term is the byte string that tantivy matches against the
//! inverted index: four big-endian bytes of field id, one type code, then the
//! value. The bytes are produced by tantivy itself and carried as a plain
//! byte vector by the query model.

use vstd::prelude::*;
use vstd::utf8::encode_utf8;

verus! {

/// The segments of a JSON path as tantivy's `split_json_path` cuts it, scanning
/// `rest` with the segment read so far in `buffer` and the finished segments in
/// `done`: an unescaped `.` ends a segment, and a backslash makes the next character
/// part of the segment whatever it is.
pub open spec fn split_json_path_from(
    rest: Seq<char>,
    escaped: bool,
    buffer: Seq<char>,
    done: Seq<Seq<char>>,
) -> Seq<Seq<char>>
    decreases rest.len(),
{
    if rest.len() == 0 {
        done.push(buffer)
    } else {
        let ch = rest[0];
        let tail = rest.drop_first();
        if escaped {
            split_json_path_from(tail, false, buffer.push(ch), done)
        } else if ch == '\\' {
            split_json_path_from(tail, true, buffer, done)
        } else if ch == '.' {
            split_json_path_from(tail, false, Seq::empty(), done.push(buffer))
        } else {
            split_json_path_from(tail, false, buffer.push(ch), done)
        }
    }
}

/// The segments of a JSON path.
pub open spec fn split_json_path(path: Seq<char>) -> Seq<Seq<char>> {
    split_json_path_from(path, false, Seq::empty(), Seq::empty())
}

/// A segment with every `.` turned into the segment separator, as tantivy writes
/// segments when dots are expanded.
pub open spec fn expand_dots_in(segment: Seq<char>) -> Seq<char> {
    segment.map_values(|c: char| if c == '.' { JSON_PATH_SEGMENT_SEP_CHAR } else { c })
}

/// The segment separator of JSON paths, byte 1.
pub const JSON_PATH_SEGMENT_SEP_CHAR: char = '\u{1}';

/// Segments joined by the segment separator.
pub open spec fn join_json_path(segments: Seq<Seq<char>>, expand_dots: bool) -> Seq<char>
    decreases segments.len(),
{
    if segments.len() == 0 {
        Seq::empty()
    } else {
        let last = if expand_dots {
            expand_dots_in(segments.last())
        } else {
            segments.last()
        };
        if segments.len() == 1 {
            last
        } else {
            join_json_path(segments.drop_last(), expand_dots) + seq![JSON_PATH_SEGMENT_SEP_CHAR]
                + last
        }
    }
}

/// The bytes that tantivy's `JsonPathWriter` emits for a user-supplied JSON path:
/// its segments joined by byte 1, closed by the end-of-path byte 0.
pub open spec fn json_path_bytes(json_path: Seq<char>, expand_dots: bool) -> Seq<u8> {
    encode_utf8(join_json_path(split_json_path(json_path), expand_dots)) + seq![0u8]
}

/// Type code of a string value (`tantivy::schema::Type::Str`, `b's'`).
pub const TYPE_CODE_STR: u8 = 115;

/// Type code of a JSON value (`tantivy::schema::Type::Json`, `b'j'`).
pub const TYPE_CODE_JSON: u8 = 106;

/// Big-endian bytes of a field id.
pub open spec fn field_id_bytes(field: u32) -> Seq<u8> {
    seq![
        (field / 0x100_0000) as u8,
        ((field / 0x1_0000) % 0x100) as u8,
        ((field / 0x100) % 0x100) as u8,
        (field % 0x100) as u8,
    ]
}

/// The metadata that starts every term: field id, then type code.
pub open spec fn term_header(field: u32, type_code: u8) -> Seq<u8> {
    field_id_bytes(field).push(type_code)
}

/// The bytes of a text term of `field` matching `text` exactly.
pub open spec fn text_term_bytes(field: u32, text: Seq<char>) -> Seq<u8> {
    term_header(field, TYPE_CODE_STR) + encode_utf8(text)
}

/// The bytes of a term that matches the string `text` stored under `json_path`
/// in the JSON field `field` (dots in the path are not expanded).
pub open spec fn json_str_term_bytes(field: u32, json_path: Seq<char>, text: Seq<char>) -> Seq<u8> {
    term_header(field, TYPE_CODE_JSON) + json_path_bytes(json_path, false) + seq![TYPE_CODE_STR]
        + encode_utf8(text)
}

/// `tantivy::Term::from_field_text`, serialized: the field id, the string type code
/// and the UTF-8 bytes of `text`.
#[verifier::external_body]
fn tantivy_text_term(field: u32, text: &str) -> (bytes: Vec<u8>)
    ensures
        bytes@ == term_header(field, TYPE_CODE_STR) + encode_utf8(text@),
{
    tantivy::Term::from_field_text(tantivy::schema::Field::from_field_id(field), text)
        .serialized_term()
        .to_vec()
}

/// `tantivy::Term::from_field_json_path`, serialized: the field id, the JSON type
/// code and the path as `JsonPathWriter` writes it.
#[verifier::external_body]
fn tantivy_json_path_term(field: u32, json_path: &str, expand_dots: bool) -> (bytes: Vec<u8>)
    ensures
        bytes@ == term_header(field, TYPE_CODE_JSON) + json_path_bytes(json_path@, expand_dots),
{
    tantivy::Term::from_field_json_path(
        tantivy::schema::Field::from_field_id(field),
        json_path,
        expand_dots,
    ).serialized_term().to_vec()
}

/// `tantivy::Term::append_type_and_str` on the term that holds `bytes`: pushes the
/// string type code, then the UTF-8 bytes of `val`, after the bytes already held.
#[verifier::external_body]
fn tantivy_append_type_and_str(bytes: Vec<u8>, val: &str) -> (res: Vec<u8>)
    ensures
        res@ == bytes@ + seq![TYPE_CODE_STR] + encode_utf8(val@),
{
    let mut term = tantivy::Term::wrap(bytes);
    term.append_type_and_str(val);
    term.serialized_term().to_vec()
}

/// A serialized index term.
#[derive(Debug, PartialEq, Eq)]
pub struct IndexTerm {
    pub bytes: Vec<u8>,
}

impl IndexTerm {
    /// The term of `field` matching the text `text` exactly.
    pub fn from_field_text(field: u32, text: &str) -> (term: IndexTerm)
        ensures
            term.bytes@ == text_term_bytes(field, text@),
    {
        IndexTerm { bytes: tantivy_text_term(field, text) }
    }

    /// The term matching the string `text` under `json_path` of the JSON field
    /// `field`.
    pub fn from_json_path_str(field: u32, json_path: &str, text: &str) -> (term: IndexTerm)
        ensures
            term.bytes@ == json_str_term_bytes(field, json_path@, text@),
    {
        let path_term = tantivy_json_path_term(field, json_path, false);
        let bytes = tantivy_append_type_and_str(path_term, text);
        assert(bytes@ =~= json_str_term_bytes(field, json_path@, text@));
        IndexTerm { bytes }
    }
}

} // verus!
