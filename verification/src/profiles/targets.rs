//! The Codex installations that a switch writes to: Windows and WSL.

use vstd::prelude::*;

use crate::path_utils::{
    combine_linux_path, directory_segment, joined_linux_path, sanitize_directory_segment,
};
use crate::paths::AppPaths;
use crate::profiles::models::{ProfileDatabase, WslEnvironmentInfo};
use crate::profiles::wsl::{WslService, env_result, status_spec};
use crate::profiles::{AppError, AppResult, dto_spec, validation_spec};
use crate::text::{copy_str, push_str};

verus! {

pub const WINDOWS_TARGET_KEY: &'static str = "windows";

pub const WINDOWS_DISPLAY_NAME: &'static str = "Windows";

pub const CODEX_DIRECTORY: &'static str = ".codex";

pub const TARGET_MISSING: &'static str = "switch_target_missing";

pub const TARGET_MISSING_MSG: &'static str = "请至少选择一个替换目标。";

/// One Codex installation to switch: its key and label, its directory as
/// Windows sees it, where its backups go, and for WSL the Linux path and
/// environment.
#[derive(Debug)]
pub struct TargetContext {
    pub target_key: String,
    pub display_name: String,
    pub codex_directory_path: std::path::PathBuf,
    pub backups_directory_path: std::path::PathBuf,
    pub codex_linux_path: Option<String>,
    pub wsl_environment: Option<WslEnvironmentInfo>,
}

/// Resolves the selected targets.
pub struct TargetService<'a> {
    pub paths: &'a AppPaths,
    pub wsl_service: WslService,
}

/// The names that a WSL target gets from its environment.
#[derive(Debug)]
pub struct WslTargetLabels {
    pub target_key: String,
    pub display_name: String,
    pub codex_linux_path: String,
    pub backup_leaf: String,
}

impl<'a> TargetService<'a> {
    pub fn new(paths: &'a AppPaths) -> (out: Self)
        ensures
            out.paths == paths,
    {
        TargetService { paths, wsl_service: WslService::new() }
    }

    pub fn wsl_service(&self) -> (out: &WslService)
        ensures
            out == &self.wsl_service,
    {
        &self.wsl_service
    }

    /// The status line of the WSL target, given how resolving it went.
    pub fn wsl_status_text(&self, database: &ProfileDatabase, resolved: &AppResult<WslEnvironmentInfo>) -> (out:
        String)
        ensures
            out@ == status_spec(database.replace_wsl_target, false, env_result(*resolved)),
    {
        self.wsl_service.build_status_text(database, false, resolved)
    }
}

/// The key, label, Codex directory and backup directory name of the WSL
/// target of an environment.
pub fn wsl_target_labels(info: &WslEnvironmentInfo) -> (out: WslTargetLabels)
    ensures
        out.target_key@ == "wsl:"@ + info.distro_name@ + ":"@ + info.user_name@,
        out.display_name@ == "WSL ("@ + info.distro_name@ + "/"@ + info.user_name@ + ")"@,
        out.codex_linux_path@ == joined_linux_path(info.home_directory@, CODEX_DIRECTORY@),
        out.backup_leaf@ == directory_segment(info.distro_name@) + "-"@ + directory_segment(
            info.user_name@,
        ),
{
    let mut target_key = copy_str("wsl:");
    push_str(&mut target_key, info.distro_name.as_str());
    push_str(&mut target_key, ":");
    push_str(&mut target_key, info.user_name.as_str());
    let mut display_name = copy_str("WSL (");
    push_str(&mut display_name, info.distro_name.as_str());
    push_str(&mut display_name, "/");
    push_str(&mut display_name, info.user_name.as_str());
    push_str(&mut display_name, ")");
    let codex_linux_path = combine_linux_path(info.home_directory.as_str(), CODEX_DIRECTORY);
    let mut backup_leaf = sanitize_directory_segment(info.distro_name.as_str());
    push_str(&mut backup_leaf, "-");
    let user = sanitize_directory_segment(info.user_name.as_str());
    push_str(&mut backup_leaf, user.as_str());
    WslTargetLabels { target_key, display_name, codex_linux_path, backup_leaf }
}

/// A switch needs at least one target.
pub fn ensure_target_selected(count: usize) -> (out: AppResult<()>)
    ensures
        out is Ok <==> count > 0,
        out matches Err(e) ==> dto_spec(e) == validation_spec(TARGET_MISSING@, TARGET_MISSING_MSG@),
{
    if count == 0 {
        return Err(AppError::validation(TARGET_MISSING, TARGET_MISSING_MSG));
    }
    Ok(())
}

} // verus!
