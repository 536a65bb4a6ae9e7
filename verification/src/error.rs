//! The error types of the library.

use vstd::prelude::*;

verus! {

/// What can go wrong when a descriptor is written out.
#[derive(Debug, PartialEq)]
pub enum ActionsError {
    /// The document could not be produced or stored; the text is the
    /// underlying message.
    IOError(String),
    /// The descriptor has no location to be written to.
    NotImplemented,
}

/// A place in the descriptor's schema.
#[derive(Clone, Copy, Debug, PartialEq, Eq, Structural)]
pub enum Field {
    /// The document itself.
    Root,
    /// `name`.
    Name,
    /// `description`.
    Description,
    /// `author`.
    Author,
    /// `branding`.
    Branding,
    /// `color` under `branding`.
    BrandingColor,
    /// `icon` under `branding`.
    BrandingIcon,
    /// `inputs`.
    Inputs,
    /// The declaration of one input.
    Input,
    /// `description` of an input.
    InputDescription,
    /// `required` of an input.
    InputRequired,
    /// `default` of an input.
    InputDefault,
    /// `deprecationMessage` of an input.
    InputDeprecationMessage,
    /// `outputs`.
    Outputs,
    /// The declaration of one output.
    Output,
    /// `description` of an output.
    OutputDescription,
    /// `runs`.
    Runs,
    /// `using` under `runs`.
    RunsUsing,
    /// `image` under `runs`.
    RunsImage,
    /// `args` under `runs`.
    RunsArgs,
}

/// Why a document does not have the shape of a descriptor.
#[derive(Clone, Copy, Debug, PartialEq, Eq, Structural)]
pub enum StructureError {
    /// A mandatory key is absent from its mapping.
    Missing(Field),
    /// The value at this place has the wrong type. For `Inputs` and
    /// `Outputs` this also covers an entry whose key is not a string.
    Invalid(Field),
    /// A key of the schema occurs more than once in its mapping. For
    /// `Inputs` and `Outputs` it may also be a parameter name that occurs
    /// twice.
    Duplicate(Field),
}

/// Why a descriptor could not be loaded from the bytes of a file.
#[derive(Debug, PartialEq)]
pub enum LoadError {
    /// The bytes are not a YAML document; the text is the codec's message.
    Syntax(String),
    /// The document is not a descriptor.
    Structure(StructureError),
}

} // verus!
