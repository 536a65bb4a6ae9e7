//! Making the document that a descriptor is stored as.

use vstd::prelude::*;
use crate::document::{
    entries_view, items_view, lemma_view_list, lemma_view_table, Document, DocumentView,
};
use crate::laws::lemma_round_trip;
use crate::models::{ActionBranding, ActionInput, ActionOutput, ActionRuns, ActionYML};
use crate::params::{distinct_keys, ParamMap};
use crate::schema::{
    branding_entry, encode, encode_branding, encode_input, encode_output, encode_params,
    encode_runs, entry, flag_entry, text_entry, text_list, texts_entry, Declaration,
};
use crate::yaml::string_keyed;

verus! {

/// Appends the entry of an optional string.
fn push_text(entries: &mut Vec<(Document, Document)>, key: &str, value: &Option<String>)
    ensures
        entries_view(final(entries)@) == entries_view(old(entries)@) + text_entry(
            key@,
            value.deep_view(),
        ),
{
    if let Some(text) = value {
        entries.push((Document::Text(key.to_owned()), Document::Text(text.clone())));
    }
    assert(entries_view(entries@) =~= entries_view(old(entries)@) + text_entry(
        key@,
        value.deep_view(),
    ));
}

/// Appends the entry of an optional boolean.
fn push_flag(entries: &mut Vec<(Document, Document)>, key: &str, value: &Option<bool>)
    ensures
        entries_view(final(entries)@) == entries_view(old(entries)@) + flag_entry(key@, *value),
{
    if let Some(flag) = value {
        entries.push((Document::Text(key.to_owned()), Document::Bool(*flag)));
    }
    assert(entries_view(entries@) =~= entries_view(old(entries)@) + flag_entry(key@, *value));
}

/// Appends the entry of an optional list of strings.
fn push_texts(entries: &mut Vec<(Document, Document)>, key: &str, value: &Option<Vec<String>>)
    ensures
        entries_view(final(entries)@) == entries_view(old(entries)@) + texts_entry(
            key@,
            value.deep_view(),
        ),
{
    if let Some(all) = value {
        let mut items: Vec<Document> = Vec::new();
        let mut i: usize = 0;
        while i < all.len()
            invariant
                i <= all.len(),
                items@.len() == i,
                forall|j: int|
                    0 <= j < i ==> (#[trigger] items@[j])@ == DocumentView::Text(all@[j]@),
            decreases all.len() - i,
        {
            items.push(Document::Text(all[i].clone()));
            i += 1;
        }
        proof {
            lemma_view_list(items);
            assert(items_view(items@) =~= text_list(all.deep_view())->List_0);
        }
        entries.push((Document::Text(key.to_owned()), Document::List(items)));
    }
    assert(entries_view(entries@) =~= entries_view(old(entries)@) + texts_entry(
        key@,
        value.deep_view(),
    ));
}

/// Appends the entry of the branding, if there is one.
fn push_branding(entries: &mut Vec<(Document, Document)>, branding: &Option<ActionBranding>)
    ensures
        entries_view(final(entries)@) == entries_view(old(entries)@) + branding_entry(
            match *branding {
                Some(b) => Some(b@),
                None => None,
            },
        ),
{
    if let Some(b) = branding {
        let mut inner: Vec<(Document, Document)> = Vec::new();
        inner.push((Document::Text("color".to_owned()), Document::Text(b.color.clone())));
        inner.push((Document::Text("icon".to_owned()), Document::Text(b.icon.clone())));
        proof {
            lemma_view_table(inner);
            assert(entries_view(inner@) =~= encode_branding(b@)->Table_0);
        }
        entries.push((Document::Text("branding".to_owned()), Document::Table(inner)));
    }
    assert(entries_view(entries@) =~= entries_view(old(entries)@) + branding_entry(
        match *branding {
            Some(b) => Some(b@),
            None => None,
        },
    ));
}

/// Makes the node that an input is stored as.
pub fn input_to_document(input: &ActionInput) -> (doc: Document)
    ensures
        doc@ == encode_input(input@),
{
    let mut entries: Vec<(Document, Document)> = Vec::new();
    push_text(&mut entries, "description", &input.description);
    push_flag(&mut entries, "required", &input.required);
    push_text(&mut entries, "default", &input.default);
    push_text(&mut entries, "deprecationMessage", &input.deprecation_message);
    proof {
        lemma_view_table(entries);
        assert(entries_view(entries@) =~= encode_input(input@)->Table_0);
    }
    Document::Table(entries)
}

/// Makes the node that an output is stored as.
pub fn output_to_document(output: &ActionOutput) -> (doc: Document)
    ensures
        doc@ == encode_output(output@),
{
    let mut entries: Vec<(Document, Document)> = Vec::new();
    push_text(&mut entries, "description", &output.description);
    proof {
        lemma_view_table(entries);
        assert(entries_view(entries@) =~= encode_output(output@)->Table_0);
    }
    Document::Table(entries)
}

/// Makes the mapping that declarations are stored as.
fn params_to_document<D: Declaration>(params: &ParamMap<D>) -> (doc: Document)
    ensures
        doc@ == encode_params::<D>(params@),
        distinct_keys(params@),
{
    let mut entries: Vec<(Document, Document)> = Vec::new();
    let count: usize = params.len();
    let mut i: usize = 0;
    while i < count
        invariant
            i <= count,
            count == params@.len(),
            entries@.len() == i,
            forall|j: int|
                0 <= j < i ==> #[trigger] entries_view(entries@)[j] == (
                    DocumentView::Text(params@[j].0),
                    D::encoded(params@[j].1),
                ),
        decreases count - i,
    {
        if let Some((name, declaration)) = params.get_index(i) {
            let ghost before = entries_view(entries@);
            entries.push((Document::Text(name.clone()), declaration.to_document()));
            assert forall|j: int| 0 <= j < i + 1 implies #[trigger] entries_view(entries@)[j] == (
                DocumentView::Text(params@[j].0),
                D::encoded(params@[j].1),
            ) by {
                if j < i {
                    assert(entries_view(entries@)[j] == before[j]);
                }
            }
        }
        i += 1;
    }
    proof {
        lemma_view_table(entries);
        assert(entries_view(entries@) =~= encode_params::<D>(params@)->Table_0);
    }
    Document::Table(entries)
}

/// Makes the node that an execution strategy is stored as.
fn runs_to_document(runs: &ActionRuns) -> (doc: Document)
    ensures
        doc@ == encode_runs(runs@),
{
    let mut entries: Vec<(Document, Document)> = Vec::new();
    entries.push((Document::Text("using".to_owned()), Document::Text(runs.using.clone())));
    assert(entries_view(entries@) =~= entry("using"@, DocumentView::Text(runs.using@)));
    push_text(&mut entries, "image", &runs.image);
    push_texts(&mut entries, "args", &runs.args);
    proof {
        lemma_view_table(entries);
        assert(entries_view(entries@) =~= encode_runs(runs@)->Table_0);
    }
    Document::Table(entries)
}

impl ActionYML {
    /// Makes the document that the descriptor is stored as: `encode` of
    /// its value. No name occurs twice among the inputs of a descriptor,
    /// nor among its outputs, so every mapping of the document has string
    /// keys that differ from one another.
    pub fn to_document(&self) -> (doc: Document)
        ensures
            doc@ == encode(self@),
            self@.well_formed(),
            string_keyed(doc@),
    {
        let mut entries: Vec<(Document, Document)> = Vec::new();
        push_text(&mut entries, "name", &self.name);
        push_text(&mut entries, "description", &self.description);
        push_text(&mut entries, "author", &self.author);
        push_branding(&mut entries, &self.branding);
        let ghost head = entries_view(entries@);
        let inputs = params_to_document::<ActionInput>(&self.inputs);
        let outputs = params_to_document::<ActionOutput>(&self.outputs);
        let runs = runs_to_document(&self.runs);
        entries.push((Document::Text("inputs".to_owned()), inputs));
        entries.push((Document::Text("outputs".to_owned()), outputs));
        entries.push((Document::Text("runs".to_owned()), runs));
        proof {
            lemma_view_table(entries);
            assert(entries_view(entries@) =~= head + entry("inputs"@, inputs@) + entry(
                "outputs"@,
                outputs@,
            ) + entry("runs"@, runs@));
            assert(entries_view(entries@) =~= encode(self@)->Table_0);
            lemma_round_trip(self@);
        }
        Document::Table(entries)
    }
}

} // verus!
