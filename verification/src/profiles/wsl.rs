//! Which WSL distribution and user a switch targets, and how their paths
//! look from Windows.

use vstd::prelude::*;

use crate::path_utils::{
    as_opt_str, linux_path, normalize_linux_path, normalize_optional_value, normalized_optional,
};
use crate::profiles::models::{ProfileDatabase, WslEnvironmentInfo, WslEnvironmentSpec};
use crate::profiles::{AppError, AppResult, dto_spec, validation_spec};
use crate::switcher::ErrorSpec;
use crate::text::{
    copy_str, opt_text, push_str, replace_all, replace_char, replace_str, strings_view, trim,
    trim_start_char, trim_start_char_str, trim_str,
};

verus! {

pub const WSL_DISTRO_MISSING: &'static str = "wsl_distro_missing";

pub const WSL_DISTRO_MISSING_MSG: &'static str = "未能识别默认 WSL 发行版。";

pub const WSL_USER_MISSING: &'static str = "wsl_user_missing";

pub const WSL_USER_MISSING_MSG: &'static str = "未能识别默认 WSL 用户。";

pub const WSL_HOME_MISSING: &'static str = "wsl_home_missing";

pub const WSL_HOME_MISSING_MSG: &'static str = "未能识别 WSL 家目录。";

pub const WSL_DISABLED_MSG: &'static str = "WSL 未启用。启用后会自动使用默认发行版和默认用户。";

pub const WSL_REFRESHING_MSG: &'static str = "WSL 默认值尚未缓存，正在后台读取。";

/// Runs commands in WSL through `wsl.exe` and resolves the WSL target.
#[derive(Debug)]
pub struct WslService;

/// The Windows path of a Linux path inside distribution `distro`:
/// `\\wsl$\<distro>\` followed by the normalised path with back slashes.
pub open spec fn windows_path_spec(distro: Seq<char>, linux: Seq<char>) -> Seq<char> {
    "\\\\wsl$\\"@ + distro + "\\"@ + replace_char(trim_start_char(linux_path(linux), '/'), '/', '\\')
}

/// The home directory of a user: `/home/<user>`.
pub open spec fn home_of(user: Seq<char>) -> Seq<char> {
    "/home/"@ + user
}

pub open spec fn unwrap_or_seq(o: Option<Seq<char>>, d: Seq<char>) -> Seq<char> {
    match o {
        Some(v) => v,
        None => d,
    }
}

/// The default environment recorded in the database, when its distribution,
/// user and home directory are all there and not blank.
pub open spec fn cached_spec(db: ProfileDatabase) -> Option<WslEnvironmentSpec> {
    match (
        normalized_optional(opt_text(db.cached_default_wsl_distro_name)),
        normalized_optional(opt_text(db.cached_default_wsl_user_name)),
        normalized_optional(opt_text(db.cached_default_wsl_home_directory)),
    ) {
        (Some(d), Some(u), Some(h)) => Some(
            WslEnvironmentSpec { distro_name: d, user_name: u, home_directory: h },
        ),
        _ => None,
    }
}

/// The WSL environment that the configured and cached values decide, or
/// `None` when the default environment has to be read from WSL: both
/// configured values win; without any, the cached default is used; with one
/// of them, the cached default fills in the other.
pub open spec fn known_spec(db: ProfileDatabase) -> Option<WslEnvironmentSpec> {
    let cd = normalized_optional(opt_text(db.wsl_distro_name));
    let cu = normalized_optional(opt_text(db.wsl_user_name));
    if cd is Some && cu is Some {
        Some(
            WslEnvironmentSpec {
                distro_name: cd->0,
                user_name: cu->0,
                home_directory: home_of(cu->0),
            },
        )
    } else {
        match cached_spec(db) {
            Some(c) => if cd is None && cu is None {
                Some(c)
            } else {
                let user = unwrap_or_seq(cu, c.user_name);
                Some(
                    WslEnvironmentSpec {
                        distro_name: unwrap_or_seq(cd, c.distro_name),
                        user_name: user,
                        home_directory: if db.wsl_user_name is Some {
                            home_of(user)
                        } else {
                            c.home_directory
                        },
                    },
                )
            },
            None => None,
        }
    }
}

/// The WSL environment from the configured values and the default
/// environment read from WSL, with the home directory normalised.
pub open spec fn with_default_spec(db: ProfileDatabase, d: WslEnvironmentSpec) -> WslEnvironmentSpec {
    let user = unwrap_or_seq(normalized_optional(opt_text(db.wsl_user_name)), d.user_name);
    WslEnvironmentSpec {
        distro_name: unwrap_or_seq(normalized_optional(opt_text(db.wsl_distro_name)), d.distro_name),
        user_name: user,
        home_directory: linux_path(
            if db.wsl_user_name is Some {
                home_of(user)
            } else {
                d.home_directory
            },
        ),
    }
}

/// What the three shell outputs of the default environment give: an error
/// for the first one that is empty, else the environment with its home
/// directory normalised.
pub open spec fn default_environment_spec(
    distro: Seq<char>,
    user: Seq<char>,
    home: Seq<char>,
) -> Result<WslEnvironmentSpec, ErrorSpec> {
    if distro.len() == 0 {
        Err(validation_spec(WSL_DISTRO_MISSING@, WSL_DISTRO_MISSING_MSG@))
    } else if user.len() == 0 {
        Err(validation_spec(WSL_USER_MISSING@, WSL_USER_MISSING_MSG@))
    } else if home.len() == 0 {
        Err(validation_spec(WSL_HOME_MISSING@, WSL_HOME_MISSING_MSG@))
    } else {
        Ok(WslEnvironmentSpec { distro_name: distro, user_name: user, home_directory: linux_path(home) })
    }
}

/// Process output with NUL characters and byte-order marks removed and
/// surrounding white space trimmed.
pub open spec fn cleanup_spec(value: Seq<char>) -> Seq<char> {
    trim(replace_all(replace_all(value, seq!['\0'], Seq::empty()), seq!['\u{FEFF}'], Seq::empty()))
}

/// The status line of the WSL target.
pub open spec fn status_spec(
    replace_wsl_target: bool,
    refreshing: bool,
    resolved: Result<WslEnvironmentSpec, ErrorSpec>,
) -> Seq<char> {
    if !replace_wsl_target {
        WSL_DISABLED_MSG@
    } else {
        match resolved {
            Ok(info) => "WSL 目标："@ + info.distro_name + " / "@ + info.user_name,
            Err(e) => if refreshing {
                WSL_REFRESHING_MSG@
            } else {
                e.message
            },
        }
    }
}

pub open spec fn opt_env(o: Option<WslEnvironmentInfo>) -> Option<WslEnvironmentSpec> {
    match o {
        Some(i) => Some(i@),
        None => None,
    }
}

pub open spec fn env_result(r: AppResult<WslEnvironmentInfo>) -> Result<WslEnvironmentSpec, ErrorSpec> {
    match r {
        Ok(i) => Ok(i@),
        Err(e) => Err(dto_spec(e)),
    }
}

fn home_directory_of(user: &str) -> (out: String)
    ensures
        out@ == home_of(user@),
{
    let mut out = copy_str("/home/");
    push_str(&mut out, user);
    out
}

fn unwrap_or_copy(o: Option<String>, d: &str) -> (out: String)
    ensures
        out@ == unwrap_or_seq(opt_text(o), d@),
{
    match o {
        Some(v) => v,
        None => copy_str(d),
    }
}

impl WslService {
    pub fn new() -> (out: Self) {
        WslService
    }

    /// The Windows path (`\\wsl$\...`) of a Linux path in a distribution.
    pub fn to_windows_path(&self, distro_name: &str, linux_path: &str) -> (out: String)
        ensures
            out@ == windows_path_spec(distro_name@, linux_path@),
    {
        let normalized = normalize_linux_path(linux_path);
        let relative = trim_start_char_str(normalized.as_str(), '/');
        let relative = crate::text::replace_char_str(relative.as_str(), '/', '\\');
        let mut out = copy_str("\\\\wsl$\\");
        push_str(&mut out, distro_name);
        push_str(&mut out, "\\");
        push_str(&mut out, relative.as_str());
        out
    }

    /// The default environment recorded in the database, if complete.
    pub fn cached_default_environment(&self, database: &ProfileDatabase) -> (out: Option<
        WslEnvironmentInfo,
    >)
        ensures
            opt_env(out) == cached_spec(*database),
    {
        let distro = normalize_optional_value(as_opt_str(&database.cached_default_wsl_distro_name));
        let user = normalize_optional_value(as_opt_str(&database.cached_default_wsl_user_name));
        let home = normalize_optional_value(as_opt_str(&database.cached_default_wsl_home_directory));
        match (distro, user, home) {
            (Some(d), Some(u), Some(h)) => Some(
                WslEnvironmentInfo { distro_name: d, user_name: u, home_directory: h },
            ),
            _ => None,
        }
    }

    /// The environment that the configured and cached values decide, or
    /// `None` when the default environment must be read from WSL first.
    pub fn known_environment(&self, database: &ProfileDatabase) -> (out: Option<WslEnvironmentInfo>)
        ensures
            opt_env(out) == known_spec(*database),
    {
        let configured_distro = normalize_optional_value(as_opt_str(&database.wsl_distro_name));
        let configured_user = normalize_optional_value(as_opt_str(&database.wsl_user_name));
        if configured_distro.is_some() && configured_user.is_some() {
            let distro_name = unwrap_or_copy(configured_distro, "");
            let user_name = unwrap_or_copy(configured_user, "");
            let home_directory = home_directory_of(user_name.as_str());
            return Some(WslEnvironmentInfo { distro_name, user_name, home_directory });
        }
        match self.cached_default_environment(database) {
            Some(cached) => {
                if configured_distro.is_none() && configured_user.is_none() {
                    Some(cached)
                } else {
                    let distro_name = unwrap_or_copy(configured_distro, cached.distro_name.as_str());
                    let user_name = unwrap_or_copy(configured_user, cached.user_name.as_str());
                    let home_directory = if database.wsl_user_name.is_some() {
                        home_directory_of(user_name.as_str())
                    } else {
                        cached.home_directory
                    };
                    Some(WslEnvironmentInfo { distro_name, user_name, home_directory })
                }
            },
            None => None,
        }
    }

    /// The environment from the configured values and the default
    /// environment read from WSL.
    pub fn environment_with_default(
        &self,
        database: &ProfileDatabase,
        default_environment: WslEnvironmentInfo,
    ) -> (out: WslEnvironmentInfo)
        ensures
            out@ == with_default_spec(*database, default_environment@),
    {
        let configured_distro = normalize_optional_value(as_opt_str(&database.wsl_distro_name));
        let configured_user = normalize_optional_value(as_opt_str(&database.wsl_user_name));
        let distro_name = unwrap_or_copy(configured_distro, default_environment.distro_name.as_str());
        let user_name = unwrap_or_copy(configured_user, default_environment.user_name.as_str());
        let home_directory = if database.wsl_user_name.is_some() {
            home_directory_of(user_name.as_str())
        } else {
            default_environment.home_directory
        };
        let home_directory = normalize_linux_path(home_directory.as_str());
        WslEnvironmentInfo { distro_name, user_name, home_directory }
    }

    /// The status line of the WSL target, given how resolving it went.
    pub fn build_status_text(
        &self,
        database: &ProfileDatabase,
        refreshing: bool,
        resolved: &AppResult<WslEnvironmentInfo>,
    ) -> (out: String)
        ensures
            out@ == status_spec(database.replace_wsl_target, refreshing, env_result(*resolved)),
    {
        if !database.replace_wsl_target {
            return copy_str(WSL_DISABLED_MSG);
        }
        match resolved {
            Ok(info) => {
                let mut out = copy_str("WSL 目标：");
                push_str(&mut out, info.distro_name.as_str());
                push_str(&mut out, " / ");
                push_str(&mut out, info.user_name.as_str());
                out
            },
            Err(error) => {
                if refreshing {
                    copy_str(WSL_REFRESHING_MSG)
                } else {
                    error.to_dto().message
                }
            },
        }
    }
}

/// The default environment from the outputs of the three shell queries
/// (distribution, user, home directory), already cleaned up.
pub fn default_environment_from_output(distro_name: String, user_name: String, home_directory: String) -> (out:
    AppResult<WslEnvironmentInfo>)
    ensures
        env_result(out) == default_environment_spec(distro_name@, user_name@, home_directory@),
{
    if distro_name.as_str().is_empty() {
        return Err(AppError::validation(WSL_DISTRO_MISSING, WSL_DISTRO_MISSING_MSG));
    }
    if user_name.as_str().is_empty() {
        return Err(AppError::validation(WSL_USER_MISSING, WSL_USER_MISSING_MSG));
    }
    if home_directory.as_str().is_empty() {
        return Err(AppError::validation(WSL_HOME_MISSING, WSL_HOME_MISSING_MSG));
    }
    let home_directory = normalize_linux_path(home_directory.as_str());
    Ok(WslEnvironmentInfo { distro_name, user_name, home_directory })
}

/// Cleans up the text a process printed.
pub fn cleanup_process_text(value: &str) -> (out: String)
    ensures
        out@ == cleanup_spec(value@),
{
    proof {
        reveal_strlit("\0");
        reveal_strlit("\u{FEFF}");
        reveal_strlit("");
        assert("\0"@ =~= seq!['\0']);
        assert("\u{FEFF}"@ =~= seq!['\u{FEFF}']);
        assert(""@ =~= Seq::<char>::empty());
    }
    let without_nul = replace_str(value, "\0", "");
    let without_bom = replace_str(without_nul.as_str(), "\u{FEFF}", "");
    trim_str(without_bom.as_str())
}

pub const WSL_COMMAND_FAILED: &'static str = "wsl_command_failed";

pub const WSL_OUTPUT_MISSING: &'static str = "wsl_output_missing";

pub const DISTRO_QUERY: &'static str = "printf '%s' \"$WSL_DISTRO_NAME\"";

pub const USER_QUERY: &'static str = "printf '%s' \"$USER\"";

pub const HOME_QUERY: &'static str = "printf '%s' \"$HOME\"";

/// A message followed by `：<detail>` when there is detail, else by `。`.
pub open spec fn with_stderr(message: Seq<char>, stderr: Seq<char>) -> Seq<char> {
    if stderr.len() == 0 {
        message + "。"@
    } else {
        message + "："@ + stderr
    }
}

/// What a `wsl.exe` run gives from its exit and its output (cleaned up): a
/// failure reports the error output; a run that must print something and
/// printed nothing is refused too; otherwise the output.
pub open spec fn command_outcome_spec(
    success: bool,
    stdout: Seq<char>,
    stderr: Seq<char>,
    require_output: bool,
) -> Result<Seq<char>, ErrorSpec> {
    let out = cleanup_spec(stdout);
    let err = cleanup_spec(stderr);
    if !success {
        Err(validation_spec(WSL_COMMAND_FAILED@, with_stderr("wsl.exe 执行失败"@, err)))
    } else if require_output && out.len() == 0 {
        Err(validation_spec(WSL_OUTPUT_MISSING@, with_stderr("wsl.exe 没有返回可用结果"@, err)))
    } else {
        Ok(out)
    }
}

pub open spec fn text_outcome(r: AppResult<String>) -> Result<Seq<char>, ErrorSpec> {
    match r {
        Ok(s) => Ok(s@),
        Err(e) => Err(dto_spec(e)),
    }
}

fn message_with_stderr(message: &str, stderr: &str) -> (out: String)
    ensures
        out@ == with_stderr(message@, stderr@),
{
    let mut out = copy_str(message);
    if stderr.is_empty() {
        push_str(&mut out, "。");
    } else {
        push_str(&mut out, "：");
        push_str(&mut out, stderr);
    }
    out
}

/// Judges a finished `wsl.exe` run from its exit status and its standard
/// output and error (decoded).
pub fn command_outcome(success: bool, stdout: &str, stderr: &str, require_output: bool) -> (out:
    AppResult<String>)
    ensures
        text_outcome(out) == command_outcome_spec(success, stdout@, stderr@, require_output),
{
    let out = cleanup_process_text(stdout);
    let err = cleanup_process_text(stderr);
    if !success {
        let message = message_with_stderr("wsl.exe 执行失败", err.as_str());
        return Err(AppError::validation(WSL_COMMAND_FAILED, message.as_str()));
    }
    if require_output && out.as_str().is_empty() {
        let message = message_with_stderr("wsl.exe 没有返回可用结果", err.as_str());
        return Err(AppError::validation(WSL_OUTPUT_MISSING, message.as_str()));
    }
    Ok(out)
}

/// The arguments of `wsl.exe`: the distribution and user when an
/// environment is given, then `-e`, the executable and its arguments.
pub fn wsl_arguments(
    environment: Option<&WslEnvironmentInfo>,
    executable: &str,
    arguments: &Vec<String>,
) -> (out: Vec<String>)
    ensures
        strings_view(out@) == (match environment {
            Some(e) => seq!["-d"@, e.distro_name@, "-u"@, e.user_name@],
            None => Seq::<Seq<char>>::empty(),
        }) + seq!["-e"@, executable@] + strings_view(arguments@),
{
    let mut out: Vec<String> = Vec::new();
    match environment {
        Some(e) => {
            out.push(copy_str("-d"));
            out.push(copy_str(e.distro_name.as_str()));
            out.push(copy_str("-u"));
            out.push(copy_str(e.user_name.as_str()));
        },
        None => {},
    }
    out.push(copy_str("-e"));
    out.push(copy_str(executable));
    let ghost head = strings_view(out@);
    let mut i: usize = 0;
    while i < arguments.len()
        invariant
            i <= arguments.len(),
            strings_view(out@) == head + strings_view(arguments@).take(i as int),
        decreases arguments.len() - i,
    {
        let ghost before = out@;
        out.push(copy_str(arguments[i].as_str()));
        proof {
            assert(strings_view(out@) =~= strings_view(before).push(arguments@[i as int]@));
            assert(strings_view(arguments@).take(i as int + 1) =~= strings_view(arguments@).take(
                i as int,
            ).push(arguments@[i as int]@));
        }
        i = i + 1;
    }
    assert(strings_view(arguments@).take(i as int) =~= strings_view(arguments@));
    out
}

} // verus!
