//! Safe building blocks for PAM service modules.
//!
//! A service module is loaded by the authentication framework and driven through
//! six lifecycle phases. This crate holds everything such a module decides on its
//! own: the numeric result codes and flag bits shared with the framework, the
//! marshalling of text across the boundary, the interpretation of what the
//! framework answers, and the dispatch of a phase to the module's hook. Every
//! function here carries a contract that Verus proves.

pub mod entry;
pub mod flags;
pub mod libpam;
pub mod pam;
pub mod pam_types;
pub mod text;

pub use flags::{PamFlag, PamFlags};
pub use pam::{Pam, PamError, PamResult, PamServiceModule};
pub use pam_types::{LogLvl, PamItemType, PamMsgStyle};
pub use text::CText;
