//! What holds of storing a descriptor and reading it back.

use vstd::prelude::*;
use crate::document::{
    combine, lemma_lookup_absent, lemma_lookup_concat, lookup, DocumentView, Entry, TableView,
};
use crate::error::{Field, StructureError};
use crate::models::{
    ActionInput, ActionOutput, ActionView, BrandingView, InputView, OutputView, RunsView,
};
use crate::params::{distinct_keys, has_key};
use crate::schema::{
    branding_entry, decode, decode_input, decode_output, decode_params, encode, encode_branding,
    encode_input, encode_output, encode_params, encode_runs, entry, flag_entry, optional_text,
    optional_texts, required_text, text_entry, text_list, texts, texts_entry, Declaration,
};
use crate::store::loaded;
use crate::yaml::{distinct_string_keys, string_keyed, yaml_parse};

verus! {

/// A mapping of one entry holds its value under its key and nothing else.
pub proof fn lemma_lookup_entry(key: Seq<char>, value: DocumentView)
    ensures
        forall|wanted: Seq<char>| #[trigger]
            lookup(entry(key, value), wanted) == if wanted == key {
                Entry::Once(value)
            } else {
                Entry::Absent
            },
{
    reveal_with_fuel(lookup, 2);
    assert forall|wanted: Seq<char>| #[trigger]
        lookup(entry(key, value), wanted) == if wanted == key {
            Entry::Once(value)
        } else {
            Entry::Absent
        } by {
        assert(entry(key, value).drop_last() =~= Seq::empty());
    }
}

/// Whatever the key, two mappings put end to end hold what each holds,
/// combined.
pub proof fn lemma_lookup_join(front: TableView, back: TableView)
    ensures
        forall|key: Seq<char>| #[trigger]
            lookup(front + back, key) == combine(lookup(front, key), lookup(back, key)),
{
    assert forall|key: Seq<char>| #[trigger]
        lookup(front + back, key) == combine(lookup(front, key), lookup(back, key)) by {
        lemma_lookup_concat(front, back, key);
    }
}

/// A key that two entries have is a repeated key.
pub proof fn lemma_lookup_twice(table: TableView, first: int, second: int, key: Seq<char>)
    requires
        0 <= first < second < table.len(),
        table[first].0 == DocumentView::Text(key),
        table[second].0 == DocumentView::Text(key),
    ensures
        lookup(table, key) is Repeated,
    decreases table.len(),
{
    let rest = table.drop_last();
    if second == table.len() - 1 {
        lemma_lookup_absent(rest, key);
        assert(rest[first] == table[first]);
    } else {
        assert(rest[first] == table[first]);
        assert(rest[second] == table[second]);
        lemma_lookup_twice(rest, first, second, key);
    }
}

/// A mapping whose keys are strings, none of them repeated, has distinct
/// string keys.
pub proof fn lemma_distinct_string_keys(table: TableView)
    requires
        forall|i: int| 0 <= i < table.len() ==> (#[trigger] table[i]).0 is Text,
        forall|key: Seq<char>| !(#[trigger] lookup(table, key) is Repeated),
    ensures
        distinct_string_keys(table),
{
    assert forall|i: int, j: int| 0 <= i < j < table.len() implies (#[trigger] table[i]).0 != (
    #[trigger] table[j]).0 by {
        if table[i].0 == table[j].0 {
            let key = table[i].0->Text_0;
            lemma_lookup_twice(table, i, j, key);
        }
    }
}

/// The keys of an input's mapping differ from one another.
proof fn lemma_input_keys()
    ensures
        "description"@ != "required"@,
        "description"@ != "default"@,
        "description"@ != "deprecationMessage"@,
        "required"@ != "default"@,
        "required"@ != "deprecationMessage"@,
        "default"@ != "deprecationMessage"@,
{
    reveal_strlit("description");
    reveal_strlit("required");
    reveal_strlit("default");
    reveal_strlit("deprecationMessage");
    assert("required"@.len() == 8);
    assert("deprecationMessage"@.len() == 18);
    assert("description"@[2] != "default"@[2]);
}

/// A stored input reads back with its kind emptied and everything else as
/// it was.
pub proof fn lemma_input_stored(input: InputView)
    ensures
        decode_input(encode_input(input)) == Ok::<InputView, StructureError>(
            input.without_kind(),
        ),
        string_keyed(encode_input(input)),
{
    let a = text_entry("description"@, input.description);
    let b = flag_entry("required"@, input.required);
    let c = text_entry("default"@, input.default);
    let d = text_entry("deprecationMessage"@, input.deprecation_message);
    let table = a + b + c + d;
    lemma_input_keys();
    lemma_lookup_join(a, b);
    lemma_lookup_join(a + b, c);
    lemma_lookup_join(a + b + c, d);
    if let Some(text) = input.description {
        lemma_lookup_entry("description"@, DocumentView::Text(text));
    }
    if let Some(flag) = input.required {
        lemma_lookup_entry("required"@, DocumentView::Bool(flag));
    }
    if let Some(text) = input.default {
        lemma_lookup_entry("default"@, DocumentView::Text(text));
    }
    if let Some(text) = input.deprecation_message {
        lemma_lookup_entry("deprecationMessage"@, DocumentView::Text(text));
    }
    assert forall|key: Seq<char>| !(#[trigger] lookup(table, key) is Repeated) by {}
    lemma_distinct_string_keys(table);
    reveal_with_fuel(string_keyed, 2);
}

/// A stored output reads back as it was.
pub proof fn lemma_output_stored(output: OutputView)
    ensures
        decode_output(encode_output(output)) == Ok::<OutputView, StructureError>(output),
        string_keyed(encode_output(output)),
{
    let table = text_entry("description"@, output.description);
    if let Some(text) = output.description {
        lemma_lookup_entry("description"@, DocumentView::Text(text));
    }
    assert forall|key: Seq<char>| !(#[trigger] lookup(table, key) is Repeated) by {}
    lemma_distinct_string_keys(table);
    reveal_with_fuel(string_keyed, 2);
}

/// What is left of declarations once they have been stored.
pub open spec fn stored_params<D: Declaration>(params: Seq<(Seq<char>, D::V)>) -> Seq<
    (Seq<char>, D::V),
> {
    Seq::new(params.len(), |i: int| (params[i].0, D::stored(params[i].1)))
}

/// Stored declarations with distinct names read back under the same names,
/// in the same order, each as what was left of it.
pub proof fn lemma_params_stored<D: Declaration>(params: Seq<(Seq<char>, D::V)>, field: Field)
    requires
        distinct_keys(params),
    ensures
        decode_params::<D>(encode_params::<D>(params)->Table_0, field) == Ok::<
            Seq<(Seq<char>, D::V)>,
            StructureError,
        >(stored_params::<D>(params)),
        string_keyed(encode_params::<D>(params)),
    decreases params.len(),
{
    let table = encode_params::<D>(params)->Table_0;
    if params.len() == 0 {
        assert(stored_params::<D>(params) =~= Seq::empty());
    } else {
        let rest = params.drop_last();
        let last = params.last();
        lemma_params_stored::<D>(rest, field);
        assert(table.drop_last() =~= encode_params::<D>(rest)->Table_0);
        assert(table.last() == (DocumentView::Text(last.0), D::encoded(last.1)));
        D::lemma_stored(last.1);
        let before = stored_params::<D>(rest);
        assert(!has_key(before, last.0)) by {
            assert forall|i: int| 0 <= i < before.len() implies (#[trigger] before[i]).0
                != last.0 by {
                assert(params[i].0 != params[params.len() - 1].0);
            }
        }
        assert(before.push((last.0, D::stored(last.1))) =~= stored_params::<D>(params));
    }
    assert forall|i: int| 0 <= i < table.len() implies string_keyed((#[trigger] table[i]).1) by {
        D::lemma_stored(params[i].1);
    }
    assert forall|i: int, j: int| 0 <= i < j < table.len() implies (#[trigger] table[i]).0 != (
    #[trigger] table[j]).0 by {
        assert(params[i].0 != params[j].0);
    }
}

/// Every entry of `table` has a string for its key and declares something,
/// and no two entries have the same key.
pub open spec fn declares<D: Declaration>(table: TableView) -> bool {
    &&& forall|i: int|
        0 <= i < table.len() ==> (#[trigger] table[i]).0 is Text && D::decoded(table[i].1) is Ok
    &&& forall|i: int, j: int|
        0 <= i < j < table.len() ==> (#[trigger] table[i]).0 != (#[trigger] table[j]).0
}

/// A mapping from names to declarations is read exactly when each of its
/// entries has a string for its key and declares something, and no key
/// occurs twice. What is read then has one declaration for each entry, in
/// the same order, under the entry's key, and so no name twice.
pub proof fn lemma_decode_params<D: Declaration>(table: TableView, field: Field)
    ensures
        decode_params::<D>(table, field) is Ok <==> declares::<D>(table),
        decode_params::<D>(table, field) matches Ok(params) ==> {
            &&& params.len() == table.len()
            &&& forall|i: int|
                0 <= i < table.len() ==> (#[trigger] params[i]) == (
                    table[i].0->Text_0,
                    D::decoded(table[i].1)->Ok_0,
                )
            &&& distinct_keys(params)
        },
    decreases table.len(),
{
    if table.len() > 0 {
        let rest = table.drop_last();
        let n = rest.len() as int;
        lemma_decode_params::<D>(rest, field);
        assert forall|i: int| 0 <= i < n implies rest[i] == table[i] by {}
        if declares::<D>(table) {
            assert forall|i: int| 0 <= i < rest.len() implies (#[trigger] rest[i]).0 is Text
                && D::decoded(rest[i].1) is Ok by {
                assert(rest[i] == table[i]);
            }
            assert forall|i: int, j: int| 0 <= i < j < rest.len() implies (#[trigger] rest[i]).0
                != (#[trigger] rest[j]).0 by {
                assert(rest[i] == table[i]);
                assert(rest[j] == table[j]);
            }
            let before = decode_params::<D>(rest, field)->Ok_0;
            let name = table.last().0->Text_0;
            assert(table[n].0 is Text);
            assert(!has_key(before, name)) by {
                assert forall|i: int| 0 <= i < before.len() implies (#[trigger] before[i]).0
                    != name by {
                    assert(table[i].0 != table[n].0);
                }
            }
        }
        if let Ok(params) = decode_params::<D>(table, field) {
            let before = decode_params::<D>(rest, field)->Ok_0;
            let name = table.last().0->Text_0;
            assert(!has_key(before, name));
            assert forall|i: int, j: int| 0 <= i < j < table.len() implies (#[trigger] table[i]).0
                != (#[trigger] table[j]).0 by {
                if j == n {
                    assert(before[i].0 != name);
                } else {
                    assert(rest[i].0 != rest[j].0);
                }
            }
            assert forall|i: int, j: int| 0 <= i < j < params.len() implies (#[trigger] params[i]).0
                != (#[trigger] params[j]).0 by {
                if j == n {
                    assert(before[i].0 != name);
                } else {
                    assert(before[i].0 != before[j].0);
                }
            }
        }
    }
}

/// A descriptor that is read out of a document is well formed, has no
/// location, and the kind of each of its inputs is empty; so it is read
/// back whole from the document that it is stored as.
pub proof fn lemma_decoded_is_stable(doc: DocumentView)
    ensures
        decode(doc) matches Ok(action) ==> {
            &&& action.well_formed()
            &&& action.stored() == action
            &&& decode(encode(action)) == Ok::<ActionView, StructureError>(action)
        },
{
    if let Ok(action) = decode(doc) {
        let table = doc.entries()->Some_0;
        let inputs = lookup(table, "inputs"@)->Once_0.entries()->Some_0;
        let outputs = lookup(table, "outputs"@)->Once_0.entries()->Some_0;
        lemma_decode_params::<ActionInput>(inputs, Field::Inputs);
        lemma_decode_params::<ActionOutput>(outputs, Field::Outputs);
        assert(action.stored().inputs =~= action.inputs);
        lemma_round_trip(action);
    }
}

/// The keys of a branding's mapping and of an execution strategy's differ
/// from one another.
proof fn lemma_inner_keys()
    ensures
        "color"@ != "icon"@,
        "using"@ != "image"@,
        "using"@ != "args"@,
        "image"@ != "args"@,
{
    reveal_strlit("color");
    reveal_strlit("icon");
    reveal_strlit("using");
    reveal_strlit("image");
    reveal_strlit("args");
    assert("color"@.len() == 5);
    assert("icon"@.len() == 4);
    assert("using"@.len() == 5);
    assert("image"@.len() == 5);
    assert("args"@.len() == 4);
    assert("using"@[0] != "image"@[0]);
}

/// A stored branding gives back its color and its icon.
pub proof fn lemma_branding_stored(branding: BrandingView)
    ensures
        required_text(encode_branding(branding)->Table_0, "color"@, Field::BrandingColor) == Ok::<
            Seq<char>,
            StructureError,
        >(branding.color),
        required_text(encode_branding(branding)->Table_0, "icon"@, Field::BrandingIcon) == Ok::<
            Seq<char>,
            StructureError,
        >(branding.icon),
        string_keyed(encode_branding(branding)),
{
    let a = entry("color"@, DocumentView::Text(branding.color));
    let b = entry("icon"@, DocumentView::Text(branding.icon));
    lemma_inner_keys();
    lemma_lookup_join(a, b);
    lemma_lookup_entry("color"@, DocumentView::Text(branding.color));
    lemma_lookup_entry("icon"@, DocumentView::Text(branding.icon));
    assert forall|key: Seq<char>| !(#[trigger] lookup(a + b, key) is Repeated) by {}
    lemma_distinct_string_keys(a + b);
    reveal_with_fuel(string_keyed, 2);
}

/// The strings of a stored list of strings are those that were stored.
pub proof fn lemma_texts_stored(all: Seq<Seq<char>>)
    ensures
        texts(text_list(all)->List_0) == Some(all),
{
    assert(texts(text_list(all)->List_0).unwrap() =~= all);
}

/// A stored execution strategy gives back its mechanism, its image and
/// its arguments.
pub proof fn lemma_runs_stored(runs: RunsView)
    ensures
        required_text(encode_runs(runs)->Table_0, "using"@, Field::RunsUsing) == Ok::<
            Seq<char>,
            StructureError,
        >(runs.using),
        optional_text(encode_runs(runs)->Table_0, "image"@, Field::RunsImage) == Ok::<
            Option<Seq<char>>,
            StructureError,
        >(runs.image),
        optional_texts(encode_runs(runs)->Table_0, "args"@, Field::RunsArgs) == Ok::<
            Option<Seq<Seq<char>>>,
            StructureError,
        >(runs.args),
        string_keyed(encode_runs(runs)),
{
    let a = entry("using"@, DocumentView::Text(runs.using));
    let b = text_entry("image"@, runs.image);
    let c = texts_entry("args"@, runs.args);
    lemma_inner_keys();
    lemma_lookup_join(a, b);
    lemma_lookup_join(a + b, c);
    lemma_lookup_entry("using"@, DocumentView::Text(runs.using));
    if let Some(text) = runs.image {
        lemma_lookup_entry("image"@, DocumentView::Text(text));
    }
    if let Some(all) = runs.args {
        lemma_lookup_entry("args"@, text_list(all));
        lemma_texts_stored(all);
    }
    assert forall|key: Seq<char>| !(#[trigger] lookup(a + b + c, key) is Repeated) by {}
    lemma_distinct_string_keys(a + b + c);
    reveal_with_fuel(string_keyed, 3);
}

/// The keys of a descriptor's mapping differ from one another.
proof fn lemma_descriptor_keys()
    ensures
        "name"@ != "description"@,
        "name"@ != "author"@,
        "name"@ != "branding"@,
        "name"@ != "inputs"@,
        "name"@ != "outputs"@,
        "name"@ != "runs"@,
        "description"@ != "author"@,
        "description"@ != "branding"@,
        "description"@ != "inputs"@,
        "description"@ != "outputs"@,
        "description"@ != "runs"@,
        "author"@ != "branding"@,
        "author"@ != "inputs"@,
        "author"@ != "outputs"@,
        "author"@ != "runs"@,
        "branding"@ != "inputs"@,
        "branding"@ != "outputs"@,
        "branding"@ != "runs"@,
        "inputs"@ != "outputs"@,
        "inputs"@ != "runs"@,
        "outputs"@ != "runs"@,
{
    reveal_strlit("name");
    reveal_strlit("description");
    reveal_strlit("author");
    reveal_strlit("branding");
    reveal_strlit("inputs");
    reveal_strlit("outputs");
    reveal_strlit("runs");
    assert("name"@.len() == 4);
    assert("description"@.len() == 11);
    assert("author"@.len() == 6);
    assert("branding"@.len() == 8);
    assert("inputs"@.len() == 6);
    assert("outputs"@.len() == 7);
    assert("runs"@.len() == 4);
    assert("name"@[0] != "runs"@[0]);
    assert("author"@[0] != "inputs"@[0]);
}

/// What the document of a descriptor holds under each key of the schema.
proof fn lemma_descriptor_entries(action: ActionView)
    ensures
        ({
            let table = encode(action)->Table_0;
            &&& lookup(table, "name"@) == lookup(text_entry("name"@, action.name), "name"@)
            &&& lookup(table, "description"@) == lookup(
                text_entry("description"@, action.description),
                "description"@,
            )
            &&& lookup(table, "author"@) == lookup(
                text_entry("author"@, action.author),
                "author"@,
            )
            &&& lookup(table, "branding"@) == lookup(
                branding_entry(action.branding),
                "branding"@,
            )
            &&& lookup(table, "inputs"@) == Entry::Once(
                encode_params::<ActionInput>(action.inputs),
            )
            &&& lookup(table, "outputs"@) == Entry::Once(
                encode_params::<ActionOutput>(action.outputs),
            )
            &&& lookup(table, "runs"@) == Entry::Once(encode_runs(action.runs))
            &&& forall|key: Seq<char>| !(#[trigger] lookup(table, key) is Repeated)
            &&& forall|i: int| 0 <= i < table.len() ==> (#[trigger] table[i]).0 is Text
        }),
{
    let a = text_entry("name"@, action.name);
    let b = text_entry("description"@, action.description);
    let c = text_entry("author"@, action.author);
    let d = branding_entry(action.branding);
    let e = entry("inputs"@, encode_params::<ActionInput>(action.inputs));
    let f = entry("outputs"@, encode_params::<ActionOutput>(action.outputs));
    let g = entry("runs"@, encode_runs(action.runs));
    lemma_descriptor_keys();
    lemma_lookup_join(a, b);
    lemma_lookup_join(a + b, c);
    lemma_lookup_join(a + b + c, d);
    lemma_lookup_join(a + b + c + d, e);
    lemma_lookup_join(a + b + c + d + e, f);
    lemma_lookup_join(a + b + c + d + e + f, g);
    if let Some(text) = action.name {
        lemma_lookup_entry("name"@, DocumentView::Text(text));
    }
    if let Some(text) = action.description {
        lemma_lookup_entry("description"@, DocumentView::Text(text));
    }
    if let Some(text) = action.author {
        lemma_lookup_entry("author"@, DocumentView::Text(text));
    }
    if let Some(branding) = action.branding {
        lemma_lookup_entry("branding"@, encode_branding(branding));
    }
    lemma_lookup_entry("inputs"@, encode_params::<ActionInput>(action.inputs));
    lemma_lookup_entry("outputs"@, encode_params::<ActionOutput>(action.outputs));
    lemma_lookup_entry("runs"@, encode_runs(action.runs));
}

/// Storing a descriptor and reading it back gives what was left of it: the
/// same descriptor without a location and with the kind of each input
/// emptied. The document that it is stored as has, in every mapping,
/// string keys that differ from one another.
pub proof fn lemma_round_trip(action: ActionView)
    requires
        action.well_formed(),
    ensures
        decode(encode(action)) == Ok::<ActionView, StructureError>(action.stored()),
        string_keyed(encode(action)),
{
    let table = encode(action)->Table_0;
    lemma_descriptor_entries(action);
    if let Some(text) = action.name {
        lemma_lookup_entry("name"@, DocumentView::Text(text));
    }
    if let Some(text) = action.description {
        lemma_lookup_entry("description"@, DocumentView::Text(text));
    }
    if let Some(text) = action.author {
        lemma_lookup_entry("author"@, DocumentView::Text(text));
    }
    if let Some(branding) = action.branding {
        lemma_lookup_entry("branding"@, encode_branding(branding));
        lemma_branding_stored(branding);
    }
    lemma_params_stored::<ActionInput>(action.inputs, Field::Inputs);
    lemma_params_stored::<ActionOutput>(action.outputs, Field::Outputs);
    lemma_runs_stored(action.runs);
    assert(stored_params::<ActionInput>(action.inputs) =~= action.stored().inputs);
    assert(stored_params::<ActionOutput>(action.outputs) =~= action.outputs);
    lemma_distinct_string_keys(table);
    assert forall|i: int| 0 <= i < table.len() implies string_keyed((#[trigger] table[i]).1) by {
        lemma_descriptor_values(action, i);
    }
}

/// Every value in the document of a well-formed descriptor has, in every
/// mapping, string keys that differ from one another.
proof fn lemma_descriptor_values(action: ActionView, i: int)
    requires
        action.well_formed(),
        0 <= i < encode(action)->Table_0.len(),
    ensures
        string_keyed(encode(action)->Table_0[i].1),
{
    let a = text_entry("name"@, action.name);
    let b = text_entry("description"@, action.description);
    let c = text_entry("author"@, action.author);
    let d = branding_entry(action.branding);
    let e = entry("inputs"@, encode_params::<ActionInput>(action.inputs));
    let f = entry("outputs"@, encode_params::<ActionOutput>(action.outputs));
    let g = entry("runs"@, encode_runs(action.runs));
    if let Some(branding) = action.branding {
        lemma_branding_stored(branding);
    }
    lemma_params_stored::<ActionInput>(action.inputs, Field::Inputs);
    lemma_params_stored::<ActionOutput>(action.outputs, Field::Outputs);
    lemma_runs_stored(action.runs);
    assert forall|j: int| 0 <= j < a.len() implies string_keyed((#[trigger] a[j]).1) by {}
    assert forall|j: int| 0 <= j < b.len() implies string_keyed((#[trigger] b[j]).1) by {}
    assert forall|j: int| 0 <= j < c.len() implies string_keyed((#[trigger] c[j]).1) by {}
    assert forall|j: int| 0 <= j < d.len() implies string_keyed((#[trigger] d[j]).1) by {}
    assert forall|j: int| 0 <= j < e.len() implies string_keyed((#[trigger] e[j]).1) by {}
    assert forall|j: int| 0 <= j < f.len() implies string_keyed((#[trigger] f[j]).1) by {}
    assert forall|j: int| 0 <= j < g.len() implies string_keyed((#[trigger] g[j]).1) by {}
}

/// A descriptor that was written to a file and is loaded from what the
/// codec reads back as the document written comes back with its location,
/// with the kind of each input emptied and all else as it was.
pub proof fn lemma_load_after_write(action: ActionView, bytes: Seq<u8>)
    requires
        action.well_formed(),
        action.path is Some,
        yaml_parse(bytes) == Ok::<DocumentView, Seq<char>>(encode(action)),
    ensures
        loaded(action.path.unwrap(), bytes) == Some(
            ActionView { path: action.path, ..action.stored() },
        ),
{
    lemma_round_trip(action);
}

/// An optional field that is absent is left out of the document
/// altogether: no entry has its key. One that is present has its entry.
pub proof fn lemma_absent_is_omitted(action: ActionView)
    ensures
        action.name is None <==> lookup(encode(action)->Table_0, "name"@) is Absent,
        action.description is None <==> lookup(encode(action)->Table_0, "description"@)
            is Absent,
        action.author is None <==> lookup(encode(action)->Table_0, "author"@) is Absent,
        action.branding is None <==> lookup(encode(action)->Table_0, "branding"@) is Absent,
        action.author is None ==> forall|i: int|
            0 <= i < encode(action)->Table_0.len() ==> (#[trigger] encode(action)->Table_0[i]).0
                != DocumentView::Text("author"@),
{
    lemma_descriptor_entries(action);
    if let Some(text) = action.name {
        lemma_lookup_entry("name"@, DocumentView::Text(text));
    }
    if let Some(text) = action.description {
        lemma_lookup_entry("description"@, DocumentView::Text(text));
    }
    if let Some(text) = action.author {
        lemma_lookup_entry("author"@, DocumentView::Text(text));
    }
    if let Some(branding) = action.branding {
        lemma_lookup_entry("branding"@, encode_branding(branding));
    }
    lemma_lookup_absent(encode(action)->Table_0, "author"@);
}

/// The optional fields of an input that are absent are left out of its
/// node, and those that are present have their entries.
pub proof fn lemma_absent_input_field_is_omitted(input: InputView)
    ensures
        input.description is None <==> lookup(encode_input(input)->Table_0, "description"@)
            is Absent,
        input.required is None <==> lookup(encode_input(input)->Table_0, "required"@) is Absent,
        input.default is None <==> lookup(encode_input(input)->Table_0, "default"@) is Absent,
        input.deprecation_message is None <==> lookup(
            encode_input(input)->Table_0,
            "deprecationMessage"@,
        ) is Absent,
{
    let a = text_entry("description"@, input.description);
    let b = flag_entry("required"@, input.required);
    let c = text_entry("default"@, input.default);
    let d = text_entry("deprecationMessage"@, input.deprecation_message);
    lemma_input_keys();
    lemma_lookup_join(a, b);
    lemma_lookup_join(a + b, c);
    lemma_lookup_join(a + b + c, d);
    if let Some(text) = input.description {
        lemma_lookup_entry("description"@, DocumentView::Text(text));
    }
    if let Some(flag) = input.required {
        lemma_lookup_entry("required"@, DocumentView::Bool(flag));
    }
    if let Some(text) = input.default {
        lemma_lookup_entry("default"@, DocumentView::Text(text));
    }
    if let Some(text) = input.deprecation_message {
        lemma_lookup_entry("deprecationMessage"@, DocumentView::Text(text));
    }
}

/// The location of a descriptor and the kinds of its inputs are no part of
/// its document: two descriptors that differ in nothing else are stored as
/// the same document.
pub proof fn lemma_location_and_kinds_not_stored(action: ActionView)
    ensures
        encode(action.stored()) == encode(action),
{
    let ours = encode_params::<ActionInput>(action.inputs)->Table_0;
    let theirs = encode_params::<ActionInput>(action.stored().inputs)->Table_0;
    assert(theirs =~= ours);
}

} // verus!
