//! Moving recent Codex sessions to the provider of the profile switched to:
//! the first line of each session file names the provider.

use vstd::prelude::*;

use crate::json::{JsonValue, as_str, as_str_spec, get, get_spec};
use crate::json_text::{encode_json_string, json_string_literal};
use crate::pattern::{
    Pattern, capture_group, compile, regex_compiles, regex_group, regex_replace_first,
    replace_first,
};
use crate::profiles::models::ProviderCategory;
use crate::profiles::wsl::WslService;
use crate::profiles::{AppError, AppResult, dto_spec};
use crate::switcher::ErrorSpec;
use crate::text::{
    lemma_pushed_unique_distinct, push_unique,
    copy_str, opt_text, strings_view, push_str, trim_end_char, trim_end_char_str,
    trim_start_char, trim_start_char_str,
};

verus! {

pub const MODEL_PROVIDER_PATTERN: &'static str = r#"(?P<prefix>"model_provider"\s*:\s*")(?P<value>[^"\\]*(?:\\.[^"\\]*)*)(?P<suffix>")"#;

pub const SESSION_FILE_PATTERN: &'static str = r#"(?P<id>[0-9a-f]{8}-[0-9a-f]{4}-[0-9a-f]{4}-[0-9a-f]{4}-[0-9a-f]{12})\.jsonl$"#;

pub const OFFICIAL_PROVIDER: &'static str = "openai";

pub const ENCODE_FAILED_MSG: &'static str = "无法编码 Provider 名称。";

/// Rewrites the provider of recent sessions, in their files and in Codex's
/// state database.
pub struct SessionMigrationService {
    model_provider_pattern: Option<Pattern>,
    session_file_pattern: Option<Pattern>,
    pub wsl_service: WslService,
}

/// What rewriting the first line of a session file gives.
#[derive(Debug)]
pub enum FirstLineRewrite {
    /// The line names no provider.
    NoProvider,
    /// The line already names the target provider.
    Unchanged,
    /// The line with the provider replaced.
    Rewritten(String),
}

pub enum RewriteSpec {
    NoProvider,
    Unchanged,
    Rewritten(Seq<char>),
}

/// The provider that sessions move to: `openai` for OpenAI profiles, else
/// the API-key provider name.
pub fn target_provider(category: ProviderCategory, api_key_provider_name: &str) -> (out: String)
    ensures
        out@ == (if category == ProviderCategory::OpenAI {
            OFFICIAL_PROVIDER@
        } else {
            api_key_provider_name@
        }),
{
    if category == ProviderCategory::OpenAI {
        copy_str(OFFICIAL_PROVIDER)
    } else {
        copy_str(api_key_provider_name)
    }
}

/// How many days of sessions move: none for a setting of zero or less,
/// else the setting clamped to 1 to 30.
pub fn migration_days(session_migration_days: i32) -> (out: Option<i32>)
    ensures
        out == (if session_migration_days <= 0 {
            None
        } else if session_migration_days > 30 {
            Some(30i32)
        } else {
            Some(session_migration_days)
        }),
{
    if session_migration_days <= 0 {
        None
    } else if session_migration_days > 30 {
        Some(30)
    } else {
        Some(session_migration_days)
    }
}

/// How a day's sessions directory is named under `sessions/`: the year,
/// then the month, then the day, each a directory of its own.
pub const SESSION_YEAR_FORMAT: &'static str = "%Y";

pub const SESSION_MONTH_FORMAT: &'static str = "%m";

pub const SESSION_DAY_FORMAT: &'static str = "%d";

/// The year, month and day directory names, as chrono formats them with the
/// three session formats, of the date `days` days before the given year,
/// month and day; `None` when that is no date or the result is out of
/// chrono's range.
pub uninterp spec fn day_directory_before(year: int, month: int, day: int, days: int) -> Option<
    (Seq<char>, Seq<char>, Seq<char>),
>;

/// Three names as text.
pub open spec fn names_view(n: (String, String, String)) -> (Seq<char>, Seq<char>, Seq<char>) {
    (n.0@, n.1@, n.2@)
}

/// `NaiveDate::from_ymd_opt(year, month, day)`, then
/// `checked_sub_signed(Duration::days(days))`, then the date formatted with
/// each of the three session formats (a format chrono cannot read would
/// panic when written out, so only those are taken). The contract claims
/// that the result is the named function of the date and the day count.
#[verifier::external_body]
fn day_directory(
    today: (i32, u32, u32),
    days: i64,
    year_format: &str,
    month_format: &str,
    day_format: &str,
) -> (out: Option<(String, String, String)>)
    requires
        0 <= days <= 36500,
        year_format@ == SESSION_YEAR_FORMAT@,
        month_format@ == SESSION_MONTH_FORMAT@,
        day_format@ == SESSION_DAY_FORMAT@,
    ensures
        (match out {
            Some(n) => Some(names_view(n)),
            None => None,
        }) == day_directory_before(today.0 as int, today.1 as int, today.2 as int, days as int),
{
    let date = chrono::NaiveDate::from_ymd_opt(today.0, today.1, today.2)?
        .checked_sub_signed(chrono::Duration::days(days))?;
    Some((
        date.format(year_format).to_string(),
        date.format(month_format).to_string(),
        date.format(day_format).to_string(),
    ))
}

/// `chrono::Local::now().date_naive()` as year, month and day. Nothing is
/// stated of it: it is the date of the call in the machine's time zone.
#[verifier::external_body]
fn local_today() -> (out: (i32, u32, u32)) {
    let date = chrono::Local::now().date_naive();
    (chrono::Datelike::year(&date), chrono::Datelike::month(&date), chrono::Datelike::day(&date))
}

/// The day directories of the `count` days up to the given date, that day
/// first; a day that is no date in range is left out.
pub open spec fn day_dirs_spec(today: (i32, u32, u32), count: int) -> Seq<
    (Seq<char>, Seq<char>, Seq<char>),
>
    decreases count,
{
    if count <= 0 {
        Seq::empty()
    } else {
        let earlier = day_dirs_spec(today, count - 1);
        match day_directory_before(today.0 as int, today.1 as int, today.2 as int, count - 1) {
            Some(n) => earlier.push(n),
            None => earlier,
        }
    }
}

/// How many days `migration_days` allows: none for a setting of zero or
/// less, else the setting clamped to 1 to 30.
pub open spec fn migration_day_count(setting: i32) -> int {
    if setting <= 0 {
        0
    } else if setting > 30 {
        30
    } else {
        setting as int
    }
}

/// The directories whose sessions move, for the given date and setting:
/// the days that `migration_days` allows, newest first.
pub fn session_day_dirs(today: (i32, u32, u32), session_migration_days: i32) -> (out: Vec<
    (String, String, String),
>)
    ensures
        out@.map_values(|n: (String, String, String)| names_view(n)) == day_dirs_spec(
            today,
            migration_day_count(session_migration_days),
        ),
{
    let mut out: Vec<(String, String, String)> = Vec::new();
    let count: i32 = match migration_days(session_migration_days) {
        Some(d) => d,
        None => 0,
    };
    let mut offset: i32 = 0;
    while offset < count
        invariant
            0 <= offset <= count <= 30,
            out@.map_values(|n: (String, String, String)| names_view(n)) == day_dirs_spec(
                today,
                offset as int,
            ),
        decreases count - offset,
    {
        let ghost before = out@;
        match day_directory(
            today,
            offset as i64,
            SESSION_YEAR_FORMAT,
            SESSION_MONTH_FORMAT,
            SESSION_DAY_FORMAT,
        ) {
            Some(names) => {
                out.push(names);
                assert(out@.map_values(|n: (String, String, String)| names_view(n))
                    =~= before.map_values(|n: (String, String, String)| names_view(n)).push(
                    names_view(names),
                ));
            },
            None => {},
        }
        offset = offset + 1;
    }
    out
}

/// The day directories whose sessions move today, for the given setting
/// (see `session_day_dirs`); which days they are depends on the date of
/// the call.
pub fn recent_session_day_dirs(session_migration_days: i32) -> (out: Vec<(String, String, String)>)
    ensures
        exists|today: (i32, u32, u32)|
            out@.map_values(|n: (String, String, String)| names_view(n)) == #[trigger] day_dirs_spec(
                today,
                migration_day_count(session_migration_days),
            ),
{
    let today = local_today();
    session_day_dirs(today, session_migration_days)
}


/// Records a session that moved: its ID is added unless already listed.
pub fn add_session_id(ids: &mut Vec<String>, id: String)
    ensures
        strings_view(final(ids)@) == if strings_view(old(ids)@).contains(id@) {
            strings_view(old(ids)@)
        } else {
            strings_view(old(ids)@).push(id@)
        },
{
    push_unique(ids, id);
}

/// Recording sessions one by one keeps the list free of repeats.
pub proof fn lemma_session_ids_distinct(ids: Seq<Seq<char>>, id: Seq<char>)
    requires
        ids.no_duplicates(),
    ensures
        (if ids.contains(id) {
            ids
        } else {
            ids.push(id)
        }).no_duplicates(),
{
    lemma_pushed_unique_distinct(ids, id);
}

/// The session ID: the UUID in a file name `<uuid>.jsonl`, else the
/// `payload.id` of the first line.
pub open spec fn session_id_spec(
    file_name: Option<Seq<char>>,
    first_line: Option<crate::json::JsonSpec>,
) -> Option<Seq<char>> {
    let from_name = match file_name {
        Some(name) => if regex_compiles(SESSION_FILE_PATTERN@) {
            regex_group(SESSION_FILE_PATTERN@, name, "id"@)
        } else {
            None
        },
        None => None,
    };
    if from_name is Some {
        from_name
    } else {
        match first_line {
            Some(doc) => match get_spec(doc, "payload"@) {
                Some(payload) => as_str_spec(get_spec(payload, "id"@)),
                None => None,
            },
            None => None,
        }
    }
}

/// The text of a provider inside a JSON string: its JSON literal without
/// the surrounding quotes.
pub open spec fn escaped_provider(provider: Seq<char>) -> Option<Seq<char>> {
    match json_string_literal(provider) {
        Some(lit) => Some(trim_end_char(trim_start_char(lit, '"'), '"')),
        None => None,
    }
}

/// What rewriting a first line does: nothing when it names no provider or
/// already the target; else its first `"model_provider": "..."` names the
/// target.
pub open spec fn rewrite_spec(first_line: Seq<char>, provider: Seq<char>) -> Result<RewriteSpec, ErrorSpec> {
    let p = MODEL_PROVIDER_PATTERN@;
    if !regex_compiles(p) || regex_group(p, first_line, "prefix"@) is None {
        Ok(RewriteSpec::NoProvider)
    } else {
        match escaped_provider(provider) {
            None => Err(
                ErrorSpec {
                    code: crate::profiles::JSON_ERROR@,
                    message: crate::profiles::JSON_ERROR_MSG@,
                    detail: Some(ENCODE_FAILED_MSG@),
                },
            ),
            Some(escaped) => {
                let current = match regex_group(p, first_line, "value"@) {
                    Some(v) => v,
                    None => Seq::empty(),
                };
                let suffix = match regex_group(p, first_line, "suffix"@) {
                    Some(v) => v,
                    None => Seq::empty(),
                };
                if current == escaped {
                    Ok(RewriteSpec::Unchanged)
                } else {
                    Ok(
                        RewriteSpec::Rewritten(
                            regex_replace_first(
                                p,
                                first_line,
                                regex_group(p, first_line, "prefix"@)->0 + escaped + suffix,
                            ),
                        ),
                    )
                }
            },
        }
    }
}

pub open spec fn rewrite_result(r: AppResult<FirstLineRewrite>) -> Result<RewriteSpec, ErrorSpec> {
    match r {
        Ok(FirstLineRewrite::NoProvider) => Ok(RewriteSpec::NoProvider),
        Ok(FirstLineRewrite::Unchanged) => Ok(RewriteSpec::Unchanged),
        Ok(FirstLineRewrite::Rewritten(s)) => Ok(RewriteSpec::Rewritten(s@)),
        Err(e) => Err(dto_spec(e)),
    }
}

pub open spec fn opt_seq_of(o: Option<&str>) -> Option<Seq<char>> {
    match o {
        Some(s) => Some(s@),
        None => None,
    }
}

fn unwrap_or_empty(o: Option<String>) -> (out: String)
    ensures
        out@ == match o {
            Some(s) => s@,
            None => Seq::<char>::empty(),
        },
{
    match o {
        Some(s) => s,
        None => String::new(),
    }
}

impl SessionMigrationService {
    pub closed spec fn provider_pattern_ok(&self) -> bool {
        self.model_provider_pattern is Some ==> self.model_provider_pattern->0.source()
            == MODEL_PROVIDER_PATTERN@
    }

    pub closed spec fn file_pattern_ok(&self) -> bool {
        self.session_file_pattern is Some ==> self.session_file_pattern->0.source()
            == SESSION_FILE_PATTERN@
    }

    pub closed spec fn well_formed(&self) -> bool {
        &&& self.provider_pattern_ok()
        &&& self.file_pattern_ok()
        &&& (self.model_provider_pattern is Some <==> regex_compiles(MODEL_PROVIDER_PATTERN@))
        &&& (self.session_file_pattern is Some <==> regex_compiles(SESSION_FILE_PATTERN@))
    }

    pub fn new() -> (out: Self)
        ensures
            out.well_formed(),
    {
        SessionMigrationService {
            model_provider_pattern: compile(MODEL_PROVIDER_PATTERN),
            session_file_pattern: compile(SESSION_FILE_PATTERN),
            wsl_service: WslService::new(),
        }
    }

    /// The ID of a session from its file name and its first line (parsed as
    /// JSON, when it parses).
    pub fn try_get_session_id(&self, file_name: Option<&str>, first_line: Option<&JsonValue>) -> (out:
        Option<String>)
        requires
            self.well_formed(),
        ensures
            opt_text(out) == session_id_spec(
                opt_seq_of(file_name),
                match first_line {
                    Some(d) => Some(d@),
                    None => None,
                },
            ),
    {
        match (file_name, &self.session_file_pattern) {
            (Some(name), Some(pattern)) => match capture_group(pattern, name, "id") {
                Some(id) => {
                    return Some(id);
                },
                None => {},
            },
            _ => {},
        }
        match first_line {
            Some(doc) => match get(doc, "payload") {
                Some(payload) => match as_str(get(payload, "id")) {
                    Some(id) => Some(copy_str(id.as_str())),
                    None => None,
                },
                None => None,
            },
            None => None,
        }
    }

    /// The first line of a session file made to name `provider`.
    pub fn rewrite_first_line(&self, first_line: &str, provider: &str) -> (out: AppResult<
        FirstLineRewrite,
    >)
        requires
            self.well_formed(),
        ensures
            rewrite_result(out) == rewrite_spec(first_line@, provider@),
    {
        let pattern = match &self.model_provider_pattern {
            Some(p) => p,
            None => {
                return Ok(FirstLineRewrite::NoProvider);
            },
        };
        let prefix = match capture_group(pattern, first_line, "prefix") {
            Some(p) => p,
            None => {
                return Ok(FirstLineRewrite::NoProvider);
            },
        };
        let escaped = match encode_json_string(provider) {
            Some(lit) => {
                let s = trim_start_char_str(lit.as_str(), '"');
                trim_end_char_str(s.as_str(), '"')
            },
            None => {
                return Err(AppError::json(ENCODE_FAILED_MSG));
            },
        };
        let current = unwrap_or_empty(capture_group(pattern, first_line, "value"));
        let suffix = unwrap_or_empty(capture_group(pattern, first_line, "suffix"));
        let a = copy_str(current.as_str());
        let b = copy_str(escaped.as_str());
        if a == b {
            return Ok(FirstLineRewrite::Unchanged);
        }
        let mut replacement = prefix;
        push_str(&mut replacement, escaped.as_str());
        push_str(&mut replacement, suffix.as_str());
        Ok(FirstLineRewrite::Rewritten(replace_first(pattern, first_line, replacement.as_str())))
    }
}

} // verus!
