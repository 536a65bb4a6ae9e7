//! The boundary to the YAML codec: reading bytes into a [`Document`] and
//! writing a [`Document`] out as text. Nothing here is proved of the codec:
//! what it reads and writes is named, not defined.

use vstd::prelude::*;
use serde_yaml::Value;
use crate::document::{Document, DocumentView, TableView};

verus! {

/// `serde_yaml::Value`, the codec's own tree. Opaque here: see `value_tree`.
#[verifier::external_type_specification]
#[verifier::external_body]
pub struct ExValue(serde_yaml::Value);

/// `serde_yaml::Number`, a numeric scalar of the codec. Opaque here.
#[verifier::external_type_specification]
#[verifier::external_body]
pub struct ExNumber(serde_yaml::Number);

/// `serde_yaml::value::TaggedValue`, a tagged node of the codec. Opaque
/// here.
#[verifier::external_type_specification]
#[verifier::external_body]
pub struct ExTaggedValue(serde_yaml::value::TaggedValue);

/// The tree that a `serde_yaml::Value` holds: its variant, its scalar, its
/// items in their order, or its entries in the order in which the mapping
/// hands them out.
pub uninterp spec fn value_tree(value: Value) -> DocumentView;

/// What `serde_yaml::from_slice` makes of the given bytes when asked for a
/// `serde_yaml::Value`: the tree of the value, or the text of its error.
pub uninterp spec fn yaml_parse(bytes: Seq<u8>) -> Result<DocumentView, Seq<char>>;

/// What `serde_yaml::to_string` makes of a `serde_yaml::Value` that holds
/// the given tree: the text, or the text of its error.
pub uninterp spec fn yaml_emit(tree: DocumentView) -> Result<Seq<char>, Seq<char>>;

/// Calls `serde_yaml::from_slice` for a `serde_yaml::Value`, and takes the
/// text of an error from its `Display`. The contract gives the outcome its
/// name and claims no more: the outcome depends on the bytes alone.
#[verifier::external_body]
fn value_from_slice(bytes: &[u8]) -> (r: Result<Value, String>)
    ensures
        match r {
            Ok(value) => yaml_parse(bytes@) == Ok::<DocumentView, Seq<char>>(value_tree(value)),
            Err(message) => yaml_parse(bytes@) == Err::<DocumentView, Seq<char>>(message@),
        },
{
    serde_yaml::from_slice::<Value>(bytes).map_err(|e| e.to_string())
}

/// Calls `serde_yaml::to_string` on a `serde_yaml::Value`, and takes the
/// text of an error from its `Display`. The contract gives the outcome its
/// name and claims no more: the outcome depends on the value alone.
#[verifier::external_body]
fn value_to_string(value: &Value) -> (r: Result<String, String>)
    ensures
        match r {
            Ok(text) => yaml_emit(value_tree(*value)) == Ok::<Seq<char>, Seq<char>>(text@),
            Err(message) => yaml_emit(value_tree(*value)) == Err::<Seq<char>, Seq<char>>(
                message@,
            ),
        },
{
    serde_yaml::to_string(value).map_err(|e| e.to_string())
}

/// Moves a `serde_yaml::Value` into a [`Document`], variant by variant and
/// child by child; `serde_yaml::Mapping::into_iter` hands the entries out
/// in their order. The contract says that the document is the tree of the
/// value.
#[verifier::external_body]
fn document_of_value(value: Value) -> (doc: Document)
    ensures
        doc@ == value_tree(value),
{
    match value {
        Value::Null => Document::Null,
        Value::Bool(b) => Document::Bool(b),
        Value::Number(n) => Document::Number(n),
        Value::String(s) => Document::Text(s),
        Value::Sequence(v) => Document::List(v.into_iter().map(document_of_value).collect()),
        Value::Mapping(m) => Document::Table(
            m.into_iter().map(|(k, v)| (document_of_value(k), document_of_value(v))).collect(),
        ),
        Value::Tagged(t) => Document::Tagged(*t),
    }
}

/// Moves a [`Document`] into a `serde_yaml::Value`, variant by variant and
/// child by child. A `serde_yaml::Mapping` collected from entries keeps
/// one entry per key, in the order of first insertion, so the value holds
/// the document's tree only where no mapping repeats a key. The
/// precondition asks for that, and for string keys, whose equality in the
/// codec is that of their characters.
#[verifier::external_body]
fn value_of_document(doc: Document) -> (value: Value)
    requires
        string_keyed(doc@),
    ensures
        value_tree(value) == doc@,
{
    match doc {
        Document::Null => Value::Null,
        Document::Bool(b) => Value::Bool(b),
        Document::Number(n) => Value::Number(n),
        Document::Text(s) => Value::String(s),
        Document::List(v) => Value::Sequence(v.into_iter().map(value_of_document).collect()),
        Document::Table(m) => Value::Mapping(
            m.into_iter().map(|(k, v)| (value_of_document(k), value_of_document(v))).collect(),
        ),
        Document::Tagged(t) => Value::Tagged(Box::new(t)),
    }
}

/// The keys of `table` are strings, no two of them equal.
pub open spec fn distinct_string_keys(table: TableView) -> bool {
    &&& forall|i: int| 0 <= i < table.len() ==> (#[trigger] table[i]).0 is Text
    &&& forall|i: int, j: int|
        0 <= i < j < table.len() ==> (#[trigger] table[i]).0 != (#[trigger] table[j]).0
}

/// Every mapping in `tree`, outside tagged nodes, has string keys, no two
/// of them equal.
pub open spec fn string_keyed(tree: DocumentView) -> bool
    decreases tree,
{
    match tree {
        DocumentView::List(items) => forall|i: int|
            0 <= i < items.len() ==> string_keyed(#[trigger] items[i]),
        DocumentView::Table(table) => {
            &&& distinct_string_keys(table)
            &&& forall|i: int| 0 <= i < table.len() ==> string_keyed((#[trigger] table[i]).1)
        },
        _ => true,
    }
}

/// Reads a document from the bytes of a YAML file.
///
/// The outcome is the codec's: the document it read, or the text of the
/// error it reported.
pub fn parse_document(bytes: &[u8]) -> (r: Result<Document, String>)
    ensures
        match r {
            Ok(doc) => yaml_parse(bytes@) == Ok::<DocumentView, Seq<char>>(doc@),
            Err(message) => yaml_parse(bytes@) == Err::<DocumentView, Seq<char>>(message@),
        },
{
    match value_from_slice(bytes) {
        Ok(value) => Ok(document_of_value(value)),
        Err(message) => Err(message),
    }
}

/// Writes a document out as YAML text.
///
/// The outcome is the codec's: the text it wrote, or the text of the error
/// it reported.
pub(crate) fn emit_document(doc: Document) -> (r: Result<String, String>)
    requires
        string_keyed(doc@),
    ensures
        match r {
            Ok(text) => yaml_emit(doc@) == Ok::<Seq<char>, Seq<char>>(text@),
            Err(message) => yaml_emit(doc@) == Err::<Seq<char>, Seq<char>>(message@),
        },
{
    let value = value_of_document(doc);
    value_to_string(&value)
}

} // verus!
