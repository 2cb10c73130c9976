//! Provider switching for Codex: configuration models, input validation,
//! text sanitisation and the decisions of the switch transaction.

pub mod dialog;
pub mod digest;
mod fresh;
pub mod json;
pub mod json_text;
pub mod order;
pub mod path_utils;
pub mod paths;
pub mod pattern;
pub mod profiles;
pub mod switcher;
pub mod text;
pub mod toml_doc;
