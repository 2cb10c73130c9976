//! The profile switcher: whole `auth.json` / `config.toml` combinations kept
//! per profile and written to the selected Codex targets.

pub mod backup;
pub mod commands;
pub mod connection;
pub mod editing;
pub mod logs;
pub mod models;
pub mod pipeline;
pub mod sessions;
pub mod store;
pub mod switch;
pub mod targets;
pub mod templates;
pub mod wsl;

use vstd::prelude::*;

use crate::switcher::ErrorSpec;
use crate::text::{copy_str, opt_text};

verus! {

/// An error of the profile switcher. Errors that come from I/O, JSON,
/// SQLite or HTTP carry the text of their cause.
#[derive(Debug)]
pub enum AppError {
    Validation { code: String, message: String },
    Io { code: String, message: String, source: String },
    Json { code: String, message: String, source: String },
    Sqlite { code: String, message: String, source: String },
    Http { code: String, message: String, source: String },
    Internal { code: String, message: String, detail: Option<String> },
}

pub type AppResult<T> = Result<T, AppError>;

/// An error as the user interface receives it.
#[derive(Debug, Clone)]
pub struct AppErrorDto {
    pub code: String,
    pub message: String,
    pub detail: Option<String>,
}

impl View for AppErrorDto {
    type V = ErrorSpec;

    open spec fn view(&self) -> ErrorSpec {
        ErrorSpec { code: self.code@, message: self.message@, detail: opt_text(self.detail) }
    }
}

/// What the user interface receives of an error: its code and message, and
/// the cause's text (or the internal detail) as detail.
pub open spec fn dto_spec(e: AppError) -> ErrorSpec {
    match e {
        AppError::Validation { code, message } => ErrorSpec {
            code: code@,
            message: message@,
            detail: None,
        },
        AppError::Io { code, message, source } => ErrorSpec {
            code: code@,
            message: message@,
            detail: Some(source@),
        },
        AppError::Json { code, message, source } => ErrorSpec {
            code: code@,
            message: message@,
            detail: Some(source@),
        },
        AppError::Sqlite { code, message, source } => ErrorSpec {
            code: code@,
            message: message@,
            detail: Some(source@),
        },
        AppError::Http { code, message, source } => ErrorSpec {
            code: code@,
            message: message@,
            detail: Some(source@),
        },
        AppError::Internal { code, message, detail } => ErrorSpec {
            code: code@,
            message: message@,
            detail: opt_text(detail),
        },
    }
}

/// The message of an error.
/// A text result as values.
pub open spec fn text_result(r: AppResult<String>) -> Result<Seq<char>, ErrorSpec> {
    match r {
        Ok(s) => Ok(s@),
        Err(e) => Err(dto_spec(e)),
    }
}

pub open spec fn message_of(e: AppError) -> Seq<char> {
    dto_spec(e).message
}

/// A validation error with the given code and message.
pub open spec fn validation_spec(code: Seq<char>, message: Seq<char>) -> ErrorSpec {
    ErrorSpec { code, message, detail: None }
}

/// The input was refused: a `Validation` error with this code and message.
pub open spec fn is_validation_error(e: AppError, code: Seq<char>, message: Seq<char>) -> bool {
    e matches AppError::Validation { code: c, message: m } && c@ == code && m@ == message
}

pub const IO_ERROR: &'static str = "io_error";

pub const IO_ERROR_MSG: &'static str = "文件系统操作失败。";

pub const JSON_ERROR: &'static str = "json_error";

pub const JSON_ERROR_MSG: &'static str = "JSON 数据处理失败。";

pub const SQLITE_ERROR: &'static str = "sqlite_error";

pub const SQLITE_ERROR_MSG: &'static str = "SQLite 操作失败。";

pub const HTTP_ERROR: &'static str = "http_error";

pub const HTTP_ERROR_MSG: &'static str = "网络请求失败。";

fn copy_opt(o: &Option<String>) -> (out: Option<String>)
    ensures
        opt_text(out) == opt_text(*o),
{
    match o {
        Some(s) => Some(copy_str(s.as_str())),
        None => None,
    }
}

impl AppError {
    pub fn validation(code: &str, message: &str) -> (e: Self)
        ensures
            e matches AppError::Validation { code: c, message: m } && c@ == code@ && m@ == message@,
    {
        AppError::Validation { code: copy_str(code), message: copy_str(message) }
    }

    pub fn internal(code: &str, message: &str, detail: &str) -> (e: Self)
        ensures
            e matches AppError::Internal { code: c, message: m, detail: Some(d) } && c@ == code@
                && m@ == message@ && d@ == detail@,
    {
        AppError::Internal {
            code: copy_str(code),
            message: copy_str(message),
            detail: Some(copy_str(detail)),
        }
    }

    /// A file-system failure, with the text of its cause.
    pub fn io(source: &str) -> (e: Self)
        ensures
            dto_spec(e) == (ErrorSpec { code: IO_ERROR@, message: IO_ERROR_MSG@, detail: Some(source@) }),
            e is Io,
    {
        AppError::Io { code: copy_str(IO_ERROR), message: copy_str(IO_ERROR_MSG), source: copy_str(source) }
    }

    /// A JSON failure, with the text of its cause.
    pub fn json(source: &str) -> (e: Self)
        ensures
            dto_spec(e) == (ErrorSpec { code: JSON_ERROR@, message: JSON_ERROR_MSG@, detail: Some(source@) }),
            e is Json,
    {
        AppError::Json {
            code: copy_str(JSON_ERROR),
            message: copy_str(JSON_ERROR_MSG),
            source: copy_str(source),
        }
    }

    /// A SQLite failure, with the text of its cause.
    pub fn sqlite(source: &str) -> (e: Self)
        ensures
            dto_spec(e) == (ErrorSpec { code: SQLITE_ERROR@, message: SQLITE_ERROR_MSG@, detail: Some(source@) }),
            e is Sqlite,
    {
        AppError::Sqlite {
            code: copy_str(SQLITE_ERROR),
            message: copy_str(SQLITE_ERROR_MSG),
            source: copy_str(source),
        }
    }

    /// An HTTP failure, with the text of its cause.
    pub fn http(source: &str) -> (e: Self)
        ensures
            dto_spec(e) == (ErrorSpec { code: HTTP_ERROR@, message: HTTP_ERROR_MSG@, detail: Some(source@) }),
            e is Http,
    {
        AppError::Http {
            code: copy_str(HTTP_ERROR),
            message: copy_str(HTTP_ERROR_MSG),
            source: copy_str(source),
        }
    }

    pub fn to_dto(&self) -> (out: AppErrorDto)
        ensures
            out@ == dto_spec(*self),
    {
        match self {
            AppError::Validation { code, message } => AppErrorDto {
                code: copy_str(code.as_str()),
                message: copy_str(message.as_str()),
                detail: None,
            },
            AppError::Io { code, message, source } => AppErrorDto {
                code: copy_str(code.as_str()),
                message: copy_str(message.as_str()),
                detail: Some(copy_str(source.as_str())),
            },
            AppError::Json { code, message, source } => AppErrorDto {
                code: copy_str(code.as_str()),
                message: copy_str(message.as_str()),
                detail: Some(copy_str(source.as_str())),
            },
            AppError::Sqlite { code, message, source } => AppErrorDto {
                code: copy_str(code.as_str()),
                message: copy_str(message.as_str()),
                detail: Some(copy_str(source.as_str())),
            },
            AppError::Http { code, message, source } => AppErrorDto {
                code: copy_str(code.as_str()),
                message: copy_str(message.as_str()),
                detail: Some(copy_str(source.as_str())),
            },
            AppError::Internal { code, message, detail } => AppErrorDto {
                code: copy_str(code.as_str()),
                message: copy_str(message.as_str()),
                detail: copy_opt(detail),
            },
        }
    }
}

} // verus!
