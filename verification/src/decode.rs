//! Reading a descriptor out of a document.

use vstd::prelude::*;
use crate::document::{
    entries_view, find, items_view, lemma_view_list, lemma_view_table, Document, DocumentView,
    Found, TableView,
};
use crate::error::{Field, StructureError};
use crate::models::{ActionBranding, ActionInput, ActionOutput, ActionRuns, ActionYML};
use crate::params::ParamMap;
use crate::schema::{
    decode, decode_branding, decode_input, decode_output, decode_params, decode_runs,
    optional_flag, optional_text, optional_texts, required_params, required_text, texts,
    Declaration,
};

verus! {

/// Reads the optional string under `key`.
fn read_optional_text(doc: &Document, key: &str, field: Field) -> (r: Result<
    Option<String>,
    StructureError,
>)
    ensures
        match optional_text(doc@.members(), key@, field) {
            Ok(text) => r is Ok && r.unwrap().deep_view() == text,
            Err(e) => r == Err::<Option<String>, StructureError>(e),
        },
{
    match find(doc, key) {
        Found::Absent => Ok(None),
        Found::Repeated => Err(StructureError::Duplicate(field)),
        Found::Once(Document::Null) => Ok(None),
        Found::Once(Document::Text(text)) => Ok(Some(text.clone())),
        Found::Once(_) => Err(StructureError::Invalid(field)),
    }
}

/// Reads the string that is owed under `key`.
fn read_required_text(doc: &Document, key: &str, field: Field) -> (r: Result<
    String,
    StructureError,
>)
    ensures
        match required_text(doc@.members(), key@, field) {
            Ok(text) => r is Ok && r.unwrap()@ == text,
            Err(e) => r == Err::<String, StructureError>(e),
        },
{
    match find(doc, key) {
        Found::Absent => Err(StructureError::Missing(field)),
        Found::Repeated => Err(StructureError::Duplicate(field)),
        Found::Once(Document::Text(text)) => Ok(text.clone()),
        Found::Once(_) => Err(StructureError::Invalid(field)),
    }
}

/// Reads the optional boolean under `key`.
fn read_optional_flag(doc: &Document, key: &str, field: Field) -> (r: Result<
    Option<bool>,
    StructureError,
>)
    ensures
        r == optional_flag(doc@.members(), key@, field),
{
    match find(doc, key) {
        Found::Absent => Ok(None),
        Found::Repeated => Err(StructureError::Duplicate(field)),
        Found::Once(Document::Null) => Ok(None),
        Found::Once(Document::Bool(flag)) => Ok(Some(*flag)),
        Found::Once(_) => Err(StructureError::Invalid(field)),
    }
}

/// Copies the strings of a list whose items are all strings.
fn read_texts(items: &Vec<Document>) -> (r: Option<Vec<String>>)
    ensures
        match texts(items_view(items@)) {
            Some(all) => r is Some && r.unwrap().deep_view() == all,
            None => r is None,
        },
{
    let ghost views = items_view(items@);
    let mut all: Vec<String> = Vec::new();
    let mut i: usize = 0;
    while i < items.len()
        invariant
            i <= items.len(),
            views == items_view(items@),
            all@.len() == i,
            forall|j: int| 0 <= j < i ==> #[trigger] views[j] == DocumentView::Text(all@[j]@),
        decreases items.len() - i,
    {
        match &items[i] {
            Document::Text(text) => {
                all.push(text.clone());
            },
            _ => {
                assert(!(views[i as int] is Text));
                return None;
            },
        }
        i += 1;
    }
    assert(all.deep_view() =~= texts(views).unwrap());
    Some(all)
}

/// Reads the optional list of strings under `key`.
fn read_optional_texts(doc: &Document, key: &str, field: Field) -> (r: Result<
    Option<Vec<String>>,
    StructureError,
>)
    ensures
        match optional_texts(doc@.members(), key@, field) {
            Ok(all) => r is Ok && r.unwrap().deep_view() == all,
            Err(e) => r == Err::<Option<Vec<String>>, StructureError>(e),
        },
{
    match find(doc, key) {
        Found::Absent => Ok(None),
        Found::Repeated => Err(StructureError::Duplicate(field)),
        Found::Once(Document::Null) => Ok(None),
        Found::Once(Document::List(items)) => {
            proof {
                lemma_view_list(*items);
            }
            match read_texts(items) {
                Some(all) => Ok(Some(all)),
                None => Err(StructureError::Invalid(field)),
            }
        },
        Found::Once(_) => Err(StructureError::Invalid(field)),
    }
}

/// An error among the first entries of a mapping is the error of the whole.
proof fn lemma_error_persists<D: Declaration>(table: TableView, count: int, field: Field)
    requires
        0 <= count <= table.len(),
        decode_params::<D>(table.take(count), field) is Err,
    ensures
        decode_params::<D>(table, field) == decode_params::<D>(table.take(count), field),
    decreases table.len() - count,
{
    if count == table.len() {
        assert(table.take(count) =~= table);
    } else {
        assert(table.take(count + 1).drop_last() =~= table.take(count));
        lemma_error_persists::<D>(table, count + 1, field);
    }
}

/// Reads the declarations of a node that stands where a mapping from names
/// to declarations is expected.
fn read_params<D: Declaration>(doc: &Document, field: Field) -> (r: Result<
    ParamMap<D>,
    StructureError,
>)
    ensures
        match decode_params::<D>(doc@.members(), field) {
            Ok(params) => r is Ok && r.unwrap()@ == params,
            Err(e) => r == Err::<ParamMap<D>, StructureError>(e),
        },
{
    let mut map: ParamMap<D> = ParamMap::new();
    match doc {
        Document::Table(entries) => {
            proof {
                lemma_view_table(*entries);
            }
            let ghost table = entries_view(entries@);
            let mut i: usize = 0;
            while i < entries.len()
                invariant
                    i <= entries.len(),
                    table == entries_view(entries@),
                    doc@.members() == table,
                    decode_params::<D>(table.take(i as int), field) == Ok::<
                        Seq<(Seq<char>, D::V)>,
                        StructureError,
                    >(map@),
                decreases entries.len() - i,
            {
                let ghost next = table.take(i as int + 1);
                assert(next.drop_last() =~= table.take(i as int));
                assert(next.last() == (entries@[i as int].0@, entries@[i as int].1@));
                match &entries[i].0 {
                    Document::Text(name) => {
                        if map.contains_key(name.as_str()) {
                            proof {
                                lemma_error_persists::<D>(table, i as int + 1, field);
                            }
                            return Err(StructureError::Duplicate(field));
                        }
                        match D::from_document(&entries[i].1) {
                            Ok(value) => {
                                map.insert(name.clone(), value);
                            },
                            Err(e) => {
                                proof {
                                    lemma_error_persists::<D>(table, i as int + 1, field);
                                }
                                return Err(e);
                            },
                        }
                    },
                    _ => {
                        proof {
                            lemma_error_persists::<D>(table, i as int + 1, field);
                        }
                        return Err(StructureError::Invalid(field));
                    },
                }
                i += 1;
            }
            assert(table.take(i as int) =~= table);
            Ok(map)
        },
        _ => Ok(map),
    }
}

/// Reads the declarations that are owed under `key`.
fn read_required_params<D: Declaration>(doc: &Document, key: &str, field: Field) -> (r: Result<
    ParamMap<D>,
    StructureError,
>)
    ensures
        match required_params::<D>(doc@.members(), key@, field) {
            Ok(params) => r is Ok && r.unwrap()@ == params,
            Err(e) => r == Err::<ParamMap<D>, StructureError>(e),
        },
{
    match find(doc, key) {
        Found::Absent => Err(StructureError::Missing(field)),
        Found::Repeated => Err(StructureError::Duplicate(field)),
        Found::Once(inner) => match inner {
            Document::Table(_) | Document::Null => read_params::<D>(inner, field),
            _ => Err(StructureError::Invalid(field)),
        },
    }
}

/// Reads the branding, if the document has one.
fn read_branding(doc: &Document) -> (r: Result<Option<ActionBranding>, StructureError>)
    ensures
        match decode_branding(doc@.members()) {
            Ok(Some(branding)) => r is Ok && r.unwrap() is Some && r.unwrap().unwrap()@
                == branding,
            Ok(None) => r is Ok && r.unwrap() is None,
            Err(e) => r == Err::<Option<ActionBranding>, StructureError>(e),
        },
{
    match find(doc, "branding") {
        Found::Absent => Ok(None),
        Found::Repeated => Err(StructureError::Duplicate(Field::Branding)),
        Found::Once(inner) => match inner {
            Document::Null => Ok(None),
            Document::Table(_) => {
                let color = match read_required_text(inner, "color", Field::BrandingColor) {
                    Ok(color) => color,
                    Err(e) => {
                        return Err(e);
                    },
                };
                let icon = match read_required_text(inner, "icon", Field::BrandingIcon) {
                    Ok(icon) => icon,
                    Err(e) => {
                        return Err(e);
                    },
                };
                Ok(Some(ActionBranding { color, icon }))
            },
            _ => Err(StructureError::Invalid(Field::Branding)),
        },
    }
}

/// Reads the execution strategy.
fn read_runs(doc: &Document) -> (r: Result<ActionRuns, StructureError>)
    ensures
        match decode_runs(doc@.members()) {
            Ok(runs) => r is Ok && r.unwrap()@ == runs,
            Err(e) => r == Err::<ActionRuns, StructureError>(e),
        },
{
    match find(doc, "runs") {
        Found::Absent => Err(StructureError::Missing(Field::Runs)),
        Found::Repeated => Err(StructureError::Duplicate(Field::Runs)),
        Found::Once(inner) => match inner {
            Document::Table(_) | Document::Null => {
                let using = match read_required_text(inner, "using", Field::RunsUsing) {
                    Ok(using) => using,
                    Err(e) => {
                        return Err(e);
                    },
                };
                let image = match read_optional_text(inner, "image", Field::RunsImage) {
                    Ok(image) => image,
                    Err(e) => {
                        return Err(e);
                    },
                };
                let args = match read_optional_texts(inner, "args", Field::RunsArgs) {
                    Ok(args) => args,
                    Err(e) => {
                        return Err(e);
                    },
                };
                Ok(ActionRuns { using, image, args })
            },
            _ => Err(StructureError::Invalid(Field::Runs)),
        },
    }
}

/// Reads an input out of the node that declares it.
pub fn input_from_document(doc: &Document) -> (r: Result<ActionInput, StructureError>)
    ensures
        match decode_input(doc@) {
            Ok(input) => r is Ok && r.unwrap()@ == input,
            Err(e) => r == Err::<ActionInput, StructureError>(e),
        },
{
    match doc {
        Document::Table(_) | Document::Null => {
            let description = match read_optional_text(
                doc,
                "description",
                Field::InputDescription,
            ) {
                Ok(description) => description,
                Err(e) => {
                    return Err(e);
                },
            };
            let required = match read_optional_flag(doc, "required", Field::InputRequired) {
                Ok(required) => required,
                Err(e) => {
                    return Err(e);
                },
            };
            let default = match read_optional_text(doc, "default", Field::InputDefault) {
                Ok(default) => default,
                Err(e) => {
                    return Err(e);
                },
            };
            let deprecation_message = match read_optional_text(
                doc,
                "deprecationMessage",
                Field::InputDeprecationMessage,
            ) {
                Ok(deprecation_message) => deprecation_message,
                Err(e) => {
                    return Err(e);
                },
            };
            Ok(
                ActionInput {
                    kind: String::new(),
                    description,
                    required,
                    default,
                    deprecation_message,
                },
            )
        },
        _ => Err(StructureError::Invalid(Field::Input)),
    }
}

/// Reads an output out of the node that declares it.
pub fn output_from_document(doc: &Document) -> (r: Result<ActionOutput, StructureError>)
    ensures
        match decode_output(doc@) {
            Ok(output) => r is Ok && r.unwrap()@ == output,
            Err(e) => r == Err::<ActionOutput, StructureError>(e),
        },
{
    match doc {
        Document::Table(_) | Document::Null => {
            match read_optional_text(doc, "description", Field::OutputDescription) {
                Ok(description) => Ok(ActionOutput { description }),
                Err(e) => Err(e),
            }
        },
        _ => Err(StructureError::Invalid(Field::Output)),
    }
}

impl ActionYML {
    /// Reads a descriptor out of a document. The descriptor has no
    /// location, and the kind of each of its inputs is empty.
    ///
    /// The result is `Ok` exactly for the documents that `decode` accepts,
    /// with the descriptor that it gives, and otherwise its error.
    pub fn from_document(doc: &Document) -> (r: Result<ActionYML, StructureError>)
        ensures
            match decode(doc@) {
                Ok(action) => r is Ok && r.unwrap()@ == action,
                Err(e) => r == Err::<ActionYML, StructureError>(e),
            },
    {
        match doc {
            Document::Table(_) | Document::Null => {
                let name = match read_optional_text(doc, "name", Field::Name) {
                    Ok(name) => name,
                    Err(e) => {
                        return Err(e);
                    },
                };
                let description = match read_optional_text(
                    doc,
                    "description",
                    Field::Description,
                ) {
                    Ok(description) => description,
                    Err(e) => {
                        return Err(e);
                    },
                };
                let author = match read_optional_text(doc, "author", Field::Author) {
                    Ok(author) => author,
                    Err(e) => {
                        return Err(e);
                    },
                };
                let branding = match read_branding(doc) {
                    Ok(branding) => branding,
                    Err(e) => {
                        return Err(e);
                    },
                };
                let inputs = match read_required_params::<ActionInput>(
                    doc,
                    "inputs",
                    Field::Inputs,
                ) {
                    Ok(inputs) => inputs,
                    Err(e) => {
                        return Err(e);
                    },
                };
                let outputs = match read_required_params::<ActionOutput>(
                    doc,
                    "outputs",
                    Field::Outputs,
                ) {
                    Ok(outputs) => outputs,
                    Err(e) => {
                        return Err(e);
                    },
                };
                let runs = match read_runs(doc) {
                    Ok(runs) => runs,
                    Err(e) => {
                        return Err(e);
                    },
                };
                Ok(
                    ActionYML {
                        path: None,
                        name,
                        description,
                        author,
                        branding,
                        inputs,
                        outputs,
                        runs,
                    },
                )
            },
            _ => Err(StructureError::Invalid(Field::Root)),
        }
    }
}

} // verus!
