//! Model of an action descriptor file: the typed descriptor, the generic
//! document tree it is stored as, and how each is made from the other.

pub mod decode;
pub mod document;
pub mod encode;
pub mod error;
pub mod laws;
pub mod models;
pub mod params;
pub mod schema;
pub mod store;
pub mod yaml;

pub use document::Document;
pub use error::{ActionsError, Field, LoadError, StructureError};
pub use models::{
    ActionBranding, ActionInput, ActionOutput, ActionRuns, ActionYML, PACKAGE_NAME,
};
pub use params::ParamMap;
