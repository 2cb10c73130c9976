//! The provider switcher: data model, validation of provider drafts and the
//! decisions of the switch and restore transactions.

pub mod auth;
pub mod backup;
pub mod catalog;
pub mod config;
pub mod credential;
pub mod desktop;
pub mod flow;
pub mod models;
pub mod service;
pub mod sessions;
pub mod transaction;
pub mod store;
pub mod url;

use vstd::prelude::*;

use crate::text::copy_str;

verus! {

/// An error as the user interface receives it: a stable code, a message
/// and optional detail.
#[derive(Debug, Clone)]
pub struct ApiError {
    pub code: String,
    pub message: String,
    pub detail: Option<String>,
}

pub type ApiResult<T> = Result<T, ApiError>;

/// An error as values: code, message and detail.
pub struct ErrorSpec {
    pub code: Seq<char>,
    pub message: Seq<char>,
    pub detail: Option<Seq<char>>,
}

pub open spec fn error_spec(code: Seq<char>, message: Seq<char>) -> ErrorSpec {
    ErrorSpec { code, message, detail: None }
}

pub open spec fn detailed_spec(code: Seq<char>, message: Seq<char>, detail: Seq<char>) -> ErrorSpec {
    ErrorSpec { code, message, detail: Some(detail) }
}

impl View for ApiError {
    type V = ErrorSpec;

    open spec fn view(&self) -> ErrorSpec {
        ErrorSpec {
            code: self.code@,
            message: self.message@,
            detail: match self.detail {
                Some(d) => Some(d@),
                None => None,
            },
        }
    }
}

impl ApiError {
    pub fn new(code: &str, message: &str) -> (e: Self)
        ensures
            e@ == error_spec(code@, message@),
    {
        ApiError { code: copy_str(code), message: copy_str(message), detail: None }
    }

    pub fn detailed(code: &str, message: &str, detail: &str) -> (e: Self)
        ensures
            e@ == detailed_spec(code@, message@, detail@),
    {
        ApiError { code: copy_str(code), message: copy_str(message), detail: Some(copy_str(detail)) }
    }

    /// An equal copy.
    pub fn duplicate(&self) -> (e: Self)
        ensures
            e@ == self@,
    {
        ApiError {
            code: copy_str(self.code.as_str()),
            message: copy_str(self.message.as_str()),
            detail: match &self.detail {
                Some(d) => Some(copy_str(d.as_str())),
                None => None,
            },
        }
    }
}

} // verus!
