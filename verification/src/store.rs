//! Loading a descriptor from the bytes of its file, and rendering it for
//! the file it belongs to. Reading and writing the file itself is left to
//! the caller.

use vstd::prelude::*;
use crate::error::{ActionsError, LoadError};
use crate::models::{ActionView, ActionYML};
use crate::schema::{decode, encode};
use crate::yaml::{emit_document, parse_document, yaml_emit, yaml_parse};

verus! {

/// The descriptor that a file at `path` holds when its bytes are `bytes`,
/// or `None` where they hold none.
pub open spec fn loaded(path: Seq<char>, bytes: Seq<u8>) -> Option<ActionView> {
    match yaml_parse(bytes) {
        Ok(doc) => match decode(doc) {
            Ok(action) => Some(ActionView { path: Some(path), ..action }),
            Err(_) => None,
        },
        Err(_) => None,
    }
}

impl ActionYML {
    /// Loads the descriptor that the file at `path` holds, given the bytes
    /// of that file.
    ///
    /// Bytes that the codec cannot read give `LoadError::Syntax` with its
    /// message; a document that is no descriptor gives
    /// `LoadError::Structure` with the reason that `decode` finds.
    /// Otherwise the descriptor is the one that `decode` finds, located at
    /// `path`.
    pub fn load_action(path: String, content: &[u8]) -> (r: Result<ActionYML, LoadError>)
        ensures
            match yaml_parse(content@) {
                Err(message) => r matches Err(LoadError::Syntax(text)) && text@ == message,
                Ok(doc) => match decode(doc) {
                    Err(e) => r matches Err(LoadError::Structure(reason)) && reason == e,
                    Ok(action) => r matches Ok(found) && found@ == (ActionView {
                        path: Some(path@),
                        ..action
                    }),
                },
            },
            r is Ok <==> loaded(path@, content@) is Some,
            r matches Ok(found) ==> Some(found@) == loaded(path@, content@),
    {
        let doc = match parse_document(content) {
            Ok(doc) => doc,
            Err(message) => {
                return Err(LoadError::Syntax(message));
            },
        };
        match ActionYML::from_document(&doc) {
            Ok(mut action) => {
                action.path = Some(path);
                Ok(action)
            },
            Err(reason) => Err(LoadError::Structure(reason)),
        }
    }

    /// Renders the descriptor for the file it belongs to: the path of that
    /// file and the text to put there.
    ///
    /// A descriptor without a location gives `ActionsError::NotImplemented`.
    /// Otherwise the path is the descriptor's own and the text is what the
    /// codec writes for `encode` of the descriptor; where the codec
    /// reports an error, the result is `ActionsError::IOError` with its
    /// message.
    pub fn write(&self) -> (r: Result<(String, String), ActionsError>)
        ensures
            match self@.path {
                None => r matches Err(ActionsError::NotImplemented),
                Some(path) => match yaml_emit(encode(self@)) {
                    Ok(text) => r matches Ok((target, content)) && target@ == path && content@
                        == text,
                    Err(message) => r matches Err(ActionsError::IOError(text)) && text@
                        == message,
                },
            },
    {
        let target = match &self.path {
            Some(path) => path.clone(),
            None => {
                return Err(ActionsError::NotImplemented);
            },
        };
        match emit_document(self.to_document()) {
            Ok(content) => Ok((target, content)),
            Err(message) => Err(ActionsError::IOError(message)),
        }
    }
}

} // verus!
