//! The typed descriptor and its parts.

use vstd::prelude::*;
use crate::decode::{input_from_document, output_from_document};
use crate::document::{Document, DocumentView};
use crate::encode::{input_to_document, output_to_document};
use crate::error::StructureError;
use crate::params::{distinct_keys, ParamMap};
use crate::schema::{decode_input, decode_output, encode_input, encode_output, Declaration};

verus! {

/// The name that a fresh descriptor starts with.
pub const PACKAGE_NAME: &'static str = "ghactions-core";

/// The descriptor of an action: what it is called, what it takes and
/// gives, and how it runs.
#[derive(Debug, PartialEq)]
pub struct ActionYML {
    /// Where the descriptor is stored. Never part of the document.
    pub path: Option<String>,
    /// Action name.
    pub name: Option<String>,
    /// Action description.
    pub description: Option<String>,
    /// Action author.
    pub author: Option<String>,
    /// Action branding.
    pub branding: Option<ActionBranding>,
    /// Action inputs, by name.
    pub inputs: ParamMap<ActionInput>,
    /// Action outputs, by name.
    pub outputs: ParamMap<ActionOutput>,
    /// How the action runs.
    pub runs: ActionRuns,
}

/// The declaration of one input.
#[derive(Debug, PartialEq)]
pub struct ActionInput {
    /// Input type. Kept in memory only: never read from a document nor
    /// written to one.
    pub kind: String,
    /// Input description.
    pub description: Option<String>,
    /// Whether the input is required.
    pub required: Option<bool>,
    /// Input default value.
    pub default: Option<String>,
    /// Deprecation message.
    pub deprecation_message: Option<String>,
}

/// The declaration of one output.
#[derive(Debug, PartialEq)]
pub struct ActionOutput {
    /// Output description.
    pub description: Option<String>,
}

/// How the action presents itself.
#[derive(Debug, PartialEq)]
pub struct ActionBranding {
    /// Background color of the badge.
    pub color: String,
    /// Icon of the badge.
    pub icon: String,
}

/// How the action is executed.
#[derive(Debug, PartialEq)]
pub struct ActionRuns {
    /// The execution mechanism.
    pub using: String,
    /// The container image, as a path or a reference.
    pub image: Option<String>,
    /// The arguments handed to the container.
    pub args: Option<Vec<String>>,
}

/// The mathematical value of an [`ActionInput`].
pub struct InputView {
    pub kind: Seq<char>,
    pub description: Option<Seq<char>>,
    pub required: Option<bool>,
    pub default: Option<Seq<char>>,
    pub deprecation_message: Option<Seq<char>>,
}

/// The mathematical value of an [`ActionOutput`].
pub struct OutputView {
    pub description: Option<Seq<char>>,
}

/// The mathematical value of an [`ActionBranding`].
pub struct BrandingView {
    pub color: Seq<char>,
    pub icon: Seq<char>,
}

/// The mathematical value of an [`ActionRuns`].
pub struct RunsView {
    pub using: Seq<char>,
    pub image: Option<Seq<char>>,
    pub args: Option<Seq<Seq<char>>>,
}

/// The mathematical value of an [`ActionYML`].
pub struct ActionView {
    pub path: Option<Seq<char>>,
    pub name: Option<Seq<char>>,
    pub description: Option<Seq<char>>,
    pub author: Option<Seq<char>>,
    pub branding: Option<BrandingView>,
    pub inputs: Seq<(Seq<char>, InputView)>,
    pub outputs: Seq<(Seq<char>, OutputView)>,
    pub runs: RunsView,
}

impl View for ActionInput {
    type V = InputView;

    open spec fn view(&self) -> InputView {
        InputView {
            kind: self.kind@,
            description: self.description.deep_view(),
            required: self.required,
            default: self.default.deep_view(),
            deprecation_message: self.deprecation_message.deep_view(),
        }
    }
}

impl View for ActionOutput {
    type V = OutputView;

    open spec fn view(&self) -> OutputView {
        OutputView { description: self.description.deep_view() }
    }
}

impl View for ActionBranding {
    type V = BrandingView;

    open spec fn view(&self) -> BrandingView {
        BrandingView { color: self.color@, icon: self.icon@ }
    }
}

impl View for ActionRuns {
    type V = RunsView;

    open spec fn view(&self) -> RunsView {
        RunsView {
            using: self.using@,
            image: self.image.deep_view(),
            args: self.args.deep_view(),
        }
    }
}

impl View for ActionYML {
    type V = ActionView;

    open spec fn view(&self) -> ActionView {
        ActionView {
            path: self.path.deep_view(),
            name: self.name.deep_view(),
            description: self.description.deep_view(),
            author: self.author.deep_view(),
            branding: match self.branding {
                Some(branding) => Some(branding@),
                None => None,
            },
            inputs: self.inputs@,
            outputs: self.outputs@,
            runs: self.runs@,
        }
    }
}

impl InputView {
    /// An input of which nothing is said.
    pub open spec fn blank() -> InputView {
        InputView {
            kind: Seq::empty(),
            description: None,
            required: None,
            default: None,
            deprecation_message: None,
        }
    }

    /// The same input with its kind emptied.
    pub open spec fn without_kind(self) -> InputView {
        InputView { kind: Seq::empty(), ..self }
    }
}

impl RunsView {
    /// Execution in a container built from the Dockerfile beside the
    /// descriptor.
    pub open spec fn docker() -> RunsView {
        RunsView { using: "docker"@, image: Some("./Dockerfile"@), args: None }
    }
}

impl ActionView {
    /// No input name occurs twice, and no output name.
    pub open spec fn well_formed(self) -> bool {
        distinct_keys(self.inputs) && distinct_keys(self.outputs)
    }

    /// What is left of a descriptor once it has been stored: it has no
    /// location, the kind of each input is empty, and all else is as it
    /// was.
    pub open spec fn stored(self) -> ActionView {
        ActionView {
            path: None,
            inputs: Seq::new(
                self.inputs.len(),
                |i: int| (self.inputs[i].0, self.inputs[i].1.without_kind()),
            ),
            ..self
        }
    }

    /// The descriptor that `ActionYML::default` makes.
    pub open spec fn fresh() -> ActionView {
        ActionView {
            path: None,
            name: Some(PACKAGE_NAME@),
            description: None,
            author: None,
            branding: None,
            inputs: Seq::empty(),
            outputs: Seq::empty(),
            runs: RunsView::docker(),
        }
    }
}

impl Declaration for ActionInput {
    open spec fn decoded(doc: DocumentView) -> Result<InputView, StructureError> {
        decode_input(doc)
    }

    open spec fn encoded(value: InputView) -> DocumentView {
        encode_input(value)
    }

    /// The kind of an input is not stored.
    open spec fn stored(value: InputView) -> InputView {
        value.without_kind()
    }

    fn from_document(doc: &Document) -> (r: Result<ActionInput, StructureError>) {
        input_from_document(doc)
    }

    fn to_document(&self) -> (doc: Document) {
        input_to_document(self)
    }

    proof fn lemma_stored(value: InputView) {
        crate::laws::lemma_input_stored(value);
    }
}

impl Declaration for ActionOutput {
    open spec fn decoded(doc: DocumentView) -> Result<OutputView, StructureError> {
        decode_output(doc)
    }

    open spec fn encoded(value: OutputView) -> DocumentView {
        encode_output(value)
    }

    /// An output is stored whole.
    open spec fn stored(value: OutputView) -> OutputView {
        value
    }

    fn from_document(doc: &Document) -> (r: Result<ActionOutput, StructureError>) {
        output_from_document(doc)
    }

    fn to_document(&self) -> (doc: Document) {
        output_to_document(self)
    }

    proof fn lemma_stored(value: OutputView) {
        crate::laws::lemma_output_stored(value);
    }
}

impl Default for ActionInput {
    /// An input of which nothing is said.
    fn default() -> (input: ActionInput)
        ensures
            input@ == InputView::blank(),
    {
        ActionInput {
            kind: String::new(),
            description: None,
            required: None,
            default: None,
            deprecation_message: None,
        }
    }
}

impl Default for ActionOutput {
    /// An output of which nothing is said.
    fn default() -> (output: ActionOutput)
        ensures
            output@ == (OutputView { description: None }),
    {
        ActionOutput { description: None }
    }
}

impl Default for ActionRuns {
    /// Execution in a container built from `./Dockerfile`, without
    /// arguments.
    fn default() -> (runs: ActionRuns)
        ensures
            runs@ == RunsView::docker(),
    {
        ActionRuns {
            using: "docker".to_owned(),
            image: Some("./Dockerfile".to_owned()),
            args: None,
        }
    }
}

impl Default for ActionYML {
    /// A descriptor that is stored nowhere yet: it carries the package
    /// name, runs as `ActionRuns::default` says, and has nothing else.
    fn default() -> (action: ActionYML)
        ensures
            action@ == ActionView::fresh(),
    {
        ActionYML {
            path: None,
            name: Some(PACKAGE_NAME.to_owned()),
            description: None,
            author: None,
            branding: None,
            inputs: ParamMap::new(),
            outputs: ParamMap::new(),
            runs: ActionRuns::default(),
        }
    }
}

} // verus!
