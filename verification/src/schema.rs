//! The schema of a descriptor, as two functions on mathematical values:
//! `decode` says which documents hold a descriptor and which one, `encode`
//! gives the document that a descriptor is stored as.

use vstd::prelude::*;
use crate::document::{lookup, Document, DocumentView, Entry, TableView};
use crate::error::{Field, StructureError};
use crate::models::{
    ActionInput, ActionOutput, ActionView, BrandingView, InputView, OutputView, RunsView,
};
use crate::params::has_key;

verus! {

/// A declaration that stands under a name in `inputs` or in `outputs`.
pub trait Declaration: View + Sized {
    /// The declaration that a node holds, or why it holds none.
    spec fn decoded(doc: DocumentView) -> Result<Self::V, StructureError>;

    /// The node that a declaration is stored as.
    spec fn encoded(value: Self::V) -> DocumentView;

    /// What is left of a declaration once it has been stored.
    spec fn stored(value: Self::V) -> Self::V;

    /// Reads a declaration out of a node.
    fn from_document(doc: &Document) -> (r: Result<Self, StructureError>)
        ensures
            match Self::decoded(doc@) {
                Ok(value) => r is Ok && r.unwrap()@ == value,
                Err(e) => r == Err::<Self, StructureError>(e),
            },
    ;

    /// Makes the node that a declaration is stored as.
    fn to_document(&self) -> (doc: Document)
        ensures
            doc@ == Self::encoded(self@),
    ;

    /// A stored declaration reads back as what was left of it, and every
    /// mapping in its node has distinct string keys.
    proof fn lemma_stored(value: Self::V)
        ensures
            Self::decoded(Self::encoded(value)) == Ok::<Self::V, StructureError>(
                Self::stored(value),
            ),
            crate::yaml::string_keyed(Self::encoded(value)),
    ;
}

/// The optional string that `table` holds under `key`: none where the key
/// is absent or its value is null.
pub open spec fn optional_text(table: TableView, key: Seq<char>, field: Field) -> Result<
    Option<Seq<char>>,
    StructureError,
> {
    match lookup(table, key) {
        Entry::Absent => Ok(None),
        Entry::Repeated => Err(StructureError::Duplicate(field)),
        Entry::Once(DocumentView::Null) => Ok(None),
        Entry::Once(DocumentView::Text(text)) => Ok(Some(text)),
        Entry::Once(_) => Err(StructureError::Invalid(field)),
    }
}

/// The string that `table` must hold under `key`.
pub open spec fn required_text(table: TableView, key: Seq<char>, field: Field) -> Result<
    Seq<char>,
    StructureError,
> {
    match lookup(table, key) {
        Entry::Absent => Err(StructureError::Missing(field)),
        Entry::Repeated => Err(StructureError::Duplicate(field)),
        Entry::Once(DocumentView::Text(text)) => Ok(text),
        Entry::Once(_) => Err(StructureError::Invalid(field)),
    }
}

/// The optional boolean that `table` holds under `key`: none where the key
/// is absent or its value is null.
pub open spec fn optional_flag(table: TableView, key: Seq<char>, field: Field) -> Result<
    Option<bool>,
    StructureError,
> {
    match lookup(table, key) {
        Entry::Absent => Ok(None),
        Entry::Repeated => Err(StructureError::Duplicate(field)),
        Entry::Once(DocumentView::Null) => Ok(None),
        Entry::Once(DocumentView::Bool(flag)) => Ok(Some(flag)),
        Entry::Once(_) => Err(StructureError::Invalid(field)),
    }
}

/// The strings of a list whose items are all strings.
pub open spec fn texts(items: Seq<DocumentView>) -> Option<Seq<Seq<char>>> {
    if forall|i: int| 0 <= i < items.len() ==> #[trigger] items[i] is Text {
        Some(Seq::new(items.len(), |i: int| items[i]->Text_0))
    } else {
        None
    }
}

/// The optional list of strings that `table` holds under `key`: none where
/// the key is absent or its value is null.
pub open spec fn optional_texts(table: TableView, key: Seq<char>, field: Field) -> Result<
    Option<Seq<Seq<char>>>,
    StructureError,
> {
    match lookup(table, key) {
        Entry::Absent => Ok(None),
        Entry::Repeated => Err(StructureError::Duplicate(field)),
        Entry::Once(DocumentView::Null) => Ok(None),
        Entry::Once(DocumentView::List(items)) => match texts(items) {
            Some(all) => Ok(Some(all)),
            None => Err(StructureError::Invalid(field)),
        },
        Entry::Once(_) => Err(StructureError::Invalid(field)),
    }
}

/// The input that a node declares. Its `kind` is always empty.
pub open spec fn decode_input(doc: DocumentView) -> Result<InputView, StructureError> {
    match doc.entries() {
        None => Err(StructureError::Invalid(Field::Input)),
        Some(table) => match optional_text(table, "description"@, Field::InputDescription) {
            Err(e) => Err(e),
            Ok(description) => match optional_flag(table, "required"@, Field::InputRequired) {
                Err(e) => Err(e),
                Ok(required) => match optional_text(table, "default"@, Field::InputDefault) {
                    Err(e) => Err(e),
                    Ok(default) => match optional_text(
                        table,
                        "deprecationMessage"@,
                        Field::InputDeprecationMessage,
                    ) {
                        Err(e) => Err(e),
                        Ok(deprecation_message) => Ok(
                            InputView {
                                kind: Seq::empty(),
                                description,
                                required,
                                default,
                                deprecation_message,
                            },
                        ),
                    },
                },
            },
        },
    }
}

/// The output that a node declares.
pub open spec fn decode_output(doc: DocumentView) -> Result<OutputView, StructureError> {
    match doc.entries() {
        None => Err(StructureError::Invalid(Field::Output)),
        Some(table) => match optional_text(table, "description"@, Field::OutputDescription) {
            Err(e) => Err(e),
            Ok(description) => Ok(OutputView { description }),
        },
    }
}

/// The declarations of a mapping from names to declarations, in the order
/// of the mapping. The first entry that has no string for its key
/// (`Invalid`), repeats an earlier name (`Duplicate`) or declares nothing
/// decides the error.
pub open spec fn decode_params<D: Declaration>(table: TableView, field: Field) -> Result<
    Seq<(Seq<char>, D::V)>,
    StructureError,
>
    decreases table.len(),
{
    if table.len() == 0 {
        Ok(Seq::empty())
    } else {
        match decode_params::<D>(table.drop_last(), field) {
            Err(e) => Err(e),
            Ok(before) => match table.last().0 {
                DocumentView::Text(name) => if has_key(before, name) {
                    Err(StructureError::Duplicate(field))
                } else {
                    match D::decoded(table.last().1) {
                        Err(e) => Err(e),
                        Ok(value) => Ok(before.push((name, value))),
                    }
                },
                _ => Err(StructureError::Invalid(field)),
            },
        }
    }
}

/// The declarations that `table` must hold under `key`.
pub open spec fn required_params<D: Declaration>(
    table: TableView,
    key: Seq<char>,
    field: Field,
) -> Result<Seq<(Seq<char>, D::V)>, StructureError> {
    match lookup(table, key) {
        Entry::Absent => Err(StructureError::Missing(field)),
        Entry::Repeated => Err(StructureError::Duplicate(field)),
        Entry::Once(doc) => match doc.entries() {
            None => Err(StructureError::Invalid(field)),
            Some(entries) => decode_params::<D>(entries, field),
        },
    }
}

/// The branding that `table` holds under `branding`: none where the key is
/// absent or its value is null; otherwise both color and icon are owed.
pub open spec fn decode_branding(table: TableView) -> Result<Option<BrandingView>, StructureError> {
    match lookup(table, "branding"@) {
        Entry::Absent => Ok(None),
        Entry::Repeated => Err(StructureError::Duplicate(Field::Branding)),
        Entry::Once(DocumentView::Null) => Ok(None),
        Entry::Once(DocumentView::Table(inner)) => match required_text(
            inner,
            "color"@,
            Field::BrandingColor,
        ) {
            Err(e) => Err(e),
            Ok(color) => match required_text(inner, "icon"@, Field::BrandingIcon) {
                Err(e) => Err(e),
                Ok(icon) => Ok(Some(BrandingView { color, icon })),
            },
        },
        Entry::Once(_) => Err(StructureError::Invalid(Field::Branding)),
    }
}

/// The execution strategy that `table` must hold under `runs`.
pub open spec fn decode_runs(table: TableView) -> Result<RunsView, StructureError> {
    match lookup(table, "runs"@) {
        Entry::Absent => Err(StructureError::Missing(Field::Runs)),
        Entry::Repeated => Err(StructureError::Duplicate(Field::Runs)),
        Entry::Once(doc) => match doc.entries() {
            None => Err(StructureError::Invalid(Field::Runs)),
            Some(inner) => match required_text(inner, "using"@, Field::RunsUsing) {
                Err(e) => Err(e),
                Ok(using) => match optional_text(inner, "image"@, Field::RunsImage) {
                    Err(e) => Err(e),
                    Ok(image) => match optional_texts(inner, "args"@, Field::RunsArgs) {
                        Err(e) => Err(e),
                        Ok(args) => Ok(RunsView { using, image, args }),
                    },
                },
            },
        },
    }
}

/// The descriptor that a document holds, or the first thing that keeps it
/// from being one. The fields are taken in the order `name`, `description`,
/// `author`, `branding`, `inputs`, `outputs`, `runs`; keys that the schema
/// does not know are passed over. The descriptor has no location.
pub open spec fn decode(doc: DocumentView) -> Result<ActionView, StructureError> {
    match doc.entries() {
        None => Err(StructureError::Invalid(Field::Root)),
        Some(table) => match optional_text(table, "name"@, Field::Name) {
            Err(e) => Err(e),
            Ok(name) => match optional_text(table, "description"@, Field::Description) {
                Err(e) => Err(e),
                Ok(description) => match optional_text(table, "author"@, Field::Author) {
                    Err(e) => Err(e),
                    Ok(author) => match decode_branding(table) {
                        Err(e) => Err(e),
                        Ok(branding) => match required_params::<ActionInput>(
                            table,
                            "inputs"@,
                            Field::Inputs,
                        ) {
                            Err(e) => Err(e),
                            Ok(inputs) => match required_params::<ActionOutput>(
                                table,
                                "outputs"@,
                                Field::Outputs,
                            ) {
                                Err(e) => Err(e),
                                Ok(outputs) => match decode_runs(table) {
                                    Err(e) => Err(e),
                                    Ok(runs) => Ok(
                                        ActionView {
                                            path: None,
                                            name,
                                            description,
                                            author,
                                            branding,
                                            inputs,
                                            outputs,
                                            runs,
                                        },
                                    ),
                                },
                            },
                        },
                    },
                },
            },
        },
    }
}

/// A mapping of one entry, with a string for its key.
pub open spec fn entry(key: Seq<char>, value: DocumentView) -> TableView {
    seq![(DocumentView::Text(key), value)]
}

/// The entry of an optional string: none where it is absent.
pub open spec fn text_entry(key: Seq<char>, value: Option<Seq<char>>) -> TableView {
    match value {
        Some(text) => entry(key, DocumentView::Text(text)),
        None => Seq::empty(),
    }
}

/// The entry of an optional boolean: none where it is absent.
pub open spec fn flag_entry(key: Seq<char>, value: Option<bool>) -> TableView {
    match value {
        Some(flag) => entry(key, DocumentView::Bool(flag)),
        None => Seq::empty(),
    }
}

/// The list node of some strings.
pub open spec fn text_list(all: Seq<Seq<char>>) -> DocumentView {
    DocumentView::List(Seq::new(all.len(), |i: int| DocumentView::Text(all[i])))
}

/// The entry of an optional list of strings: none where it is absent.
pub open spec fn texts_entry(key: Seq<char>, value: Option<Seq<Seq<char>>>) -> TableView {
    match value {
        Some(all) => entry(key, text_list(all)),
        None => Seq::empty(),
    }
}

/// The node that an input is stored as. Its `kind` is left out.
pub open spec fn encode_input(input: InputView) -> DocumentView {
    DocumentView::Table(
        text_entry("description"@, input.description) + flag_entry("required"@, input.required)
            + text_entry("default"@, input.default) + text_entry(
            "deprecationMessage"@,
            input.deprecation_message,
        ),
    )
}

/// The node that an output is stored as.
pub open spec fn encode_output(output: OutputView) -> DocumentView {
    DocumentView::Table(text_entry("description"@, output.description))
}

/// The mapping that declarations are stored as, entry by entry in their
/// order.
pub open spec fn encode_params<D: Declaration>(params: Seq<(Seq<char>, D::V)>) -> DocumentView {
    DocumentView::Table(
        Seq::new(
            params.len(),
            |i: int| (DocumentView::Text(params[i].0), D::encoded(params[i].1)),
        ),
    )
}

/// The node that a branding is stored as.
pub open spec fn encode_branding(branding: BrandingView) -> DocumentView {
    DocumentView::Table(
        entry("color"@, DocumentView::Text(branding.color)) + entry(
            "icon"@,
            DocumentView::Text(branding.icon),
        ),
    )
}

/// The entry of the branding: none where it is absent.
pub open spec fn branding_entry(branding: Option<BrandingView>) -> TableView {
    match branding {
        Some(b) => entry("branding"@, encode_branding(b)),
        None => Seq::empty(),
    }
}

/// The node that an execution strategy is stored as.
pub open spec fn encode_runs(runs: RunsView) -> DocumentView {
    DocumentView::Table(
        entry("using"@, DocumentView::Text(runs.using)) + text_entry("image"@, runs.image)
            + texts_entry("args"@, runs.args),
    )
}

/// The document that a descriptor is stored as: its fields in the order
/// `name`, `description`, `author`, `branding`, `inputs`, `outputs`,
/// `runs`, an absent one left out altogether. The location and the kinds
/// of the inputs are never part of it.
pub open spec fn encode(action: ActionView) -> DocumentView {
    DocumentView::Table(
        text_entry("name"@, action.name) + text_entry("description"@, action.description)
            + text_entry("author"@, action.author) + branding_entry(action.branding) + entry(
            "inputs"@,
            encode_params::<ActionInput>(action.inputs),
        ) + entry("outputs"@, encode_params::<ActionOutput>(action.outputs)) + entry(
            "runs"@,
            encode_runs(action.runs),
        ),
    )
}

} // verus!
