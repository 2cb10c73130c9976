//! What the profile switcher's commands decide: settings edits, the cached
//! WSL default, the batch connection test and the log view.

use vstd::prelude::*;

use crate::fresh::utc_now_nanos;
use crate::path_utils::{as_opt_str, normalize_optional_value, normalized_optional};
use crate::profiles::models::{
    CachedWslEnvironmentInfo, CodexProfile, ConnectionTestResultDto, ConnectionTestStatus,
    ProfileDatabase, SaveSettingsInput, SettingsSnapshot, UiPreferences, WslEnvironmentInfo,
    codex_profiles_view, copy_opt_text,
};
use crate::profiles::models::BatchConnectionTestItemDto;
use crate::profiles::store::{copy_profile, find_codex_profile, profile_index, PROFILE_NOT_FOUND};
use crate::profiles::targets::TargetService;
use crate::profiles::wsl::cached_spec;
use crate::profiles::{AppError, AppResult, is_validation_error, message_of};
use crate::text::{copy_str, opt_text, trim, trim_str};

verus! {

pub const DEFAULT_RECENT_LOG_LIMIT: usize = 200;

pub const MAX_RECENT_LOG_LIMIT: usize = 500;

pub const PROFILE_IDS_MISSING: &'static str = "profile_ids_missing";

pub const PROFILE_IDS_MISSING_MSG: &'static str = "请至少选择一个 APIKEY 组合。";

pub const BATCH_PROFILE_NOT_FOUND_MSG: &'static str = "存在未找到的测试组合。";

pub const TEST_PROFILE_NOT_FOUND_MSG: &'static str = "未找到要测试的组合。";

pub const INVALID_BACKUP_TARGET: &'static str = "invalid_backup_target";

pub const INVALID_BACKUP_TARGET_MSG: &'static str = "备份目标无效。";

pub const PROFILE_DISABLED_MSG: &'static str = "组合已手动禁用。";

pub const PROFILE_ENABLED_MSG: &'static str = "组合已恢复启用。";

pub open spec fn clamp_days(days: i32) -> i32 {
    if days < 0 {
        0
    } else if days > 30 {
        30
    } else {
        days
    }
}

/// Saves the settings: Windows stays selected unless WSL is, the WSL names
/// are trimmed (blank ones dropped), the migration window is clamped to 0 to
/// 30 days and the provider name is trimmed.
pub fn apply_settings_input(database: &mut ProfileDatabase, payload: &SaveSettingsInput)
    ensures
        final(database).replace_windows_target == (payload.replace_windows_target
            || !payload.replace_wsl_target),
        final(database).replace_wsl_target == payload.replace_wsl_target,
        opt_text(final(database).wsl_distro_name) == normalized_optional(
            opt_text(payload.wsl_distro_name),
        ),
        opt_text(final(database).wsl_user_name) == normalized_optional(
            opt_text(payload.wsl_user_name),
        ),
        final(database).session_migration_days == clamp_days(payload.session_migration_days),
        final(database).api_key_provider_name@ == trim(payload.api_key_provider_name@),
        final(database).ui_preferences.sidebar_collapsed
            == payload.ui_preferences.sidebar_collapsed,
        final(database).profiles == old(database).profiles,
        final(database).last_selected_profile_id == old(database).last_selected_profile_id,
        final(database).cached_default_wsl_distro_name == old(
            database,
        ).cached_default_wsl_distro_name,
        final(database).cached_default_wsl_user_name == old(database).cached_default_wsl_user_name,
        final(database).cached_default_wsl_home_directory == old(
            database,
        ).cached_default_wsl_home_directory,
        final(database).migration_version == old(database).migration_version,
        final(database).last_switch_summary == old(database).last_switch_summary,
{
    database.replace_windows_target = payload.replace_windows_target || !payload.replace_wsl_target;
    database.replace_wsl_target = payload.replace_wsl_target;
    database.wsl_distro_name = normalize_optional_value(as_opt_str(&payload.wsl_distro_name));
    database.wsl_user_name = normalize_optional_value(as_opt_str(&payload.wsl_user_name));
    database.session_migration_days = if payload.session_migration_days < 0 {
        0
    } else if payload.session_migration_days > 30 {
        30
    } else {
        payload.session_migration_days
    };
    database.api_key_provider_name = trim_str(payload.api_key_provider_name.as_str());
    database.ui_preferences = UiPreferences {
        sidebar_collapsed: payload.ui_preferences.sidebar_collapsed,
    };
}

/// What recording the outcome of reading the default WSL environment at
/// `now` does to the settings.
pub open spec fn wsl_refresh_recorded(
    before: ProfileDatabase,
    after: ProfileDatabase,
    outcome: AppResult<WslEnvironmentInfo>,
    now: i64,
) -> bool {
    &&& match outcome {
        Ok(info) => {
            &&& opt_text(after.cached_default_wsl_distro_name) == Some(info.distro_name@)
            &&& opt_text(after.cached_default_wsl_user_name) == Some(info.user_name@)
            &&& opt_text(after.cached_default_wsl_home_directory) == Some(info.home_directory@)
            &&& after.cached_default_wsl_detected_at_utc == Some(now)
            &&& after.cached_default_wsl_error_message is None
            &&& after.cached_default_wsl_error_at_utc is None
        },
        Err(e) => {
            &&& opt_text(after.cached_default_wsl_error_message) == Some(message_of(e))
            &&& after.cached_default_wsl_error_at_utc == Some(now)
            &&& after.cached_default_wsl_distro_name == before.cached_default_wsl_distro_name
            &&& after.cached_default_wsl_user_name == before.cached_default_wsl_user_name
            &&& after.cached_default_wsl_home_directory == before.cached_default_wsl_home_directory
            &&& after.cached_default_wsl_detected_at_utc == before.cached_default_wsl_detected_at_utc
        },
    }
    &&& after.profiles == before.profiles
    &&& after.replace_windows_target == before.replace_windows_target
    &&& after.replace_wsl_target == before.replace_wsl_target
}

/// Records the outcome of reading the default WSL environment at `now`: the
/// environment and its time, or the error's message and its time.
pub fn record_wsl_refresh(
    database: &mut ProfileDatabase,
    outcome: &AppResult<WslEnvironmentInfo>,
    now: i64,
)
    ensures
        wsl_refresh_recorded(*old(database), *final(database), *outcome, now),
{
    match outcome {
        Ok(info) => {
            database.cached_default_wsl_distro_name = Some(copy_str(info.distro_name.as_str()));
            database.cached_default_wsl_user_name = Some(copy_str(info.user_name.as_str()));
            database.cached_default_wsl_home_directory = Some(
                copy_str(info.home_directory.as_str()),
            );
            database.cached_default_wsl_detected_at_utc = Some(now);
            database.cached_default_wsl_error_message = None;
            database.cached_default_wsl_error_at_utc = None;
        },
        Err(error) => {
            database.cached_default_wsl_error_message = Some(error.to_dto().message);
            database.cached_default_wsl_error_at_utc = Some(now);
        },
    }
}

/// `record_wsl_refresh` at the time of the call; gives that time.
pub fn record_wsl_refresh_now(database: &mut ProfileDatabase, outcome: &AppResult<WslEnvironmentInfo>) -> (now:
    i64)
    ensures
        wsl_refresh_recorded(*old(database), *final(database), *outcome, now),
{
    let now = utc_now_nanos();
    record_wsl_refresh(database, outcome, now);
    now
}

/// The settings as the user interface shows them, with the cached default
/// WSL environment when it is complete.
pub fn build_settings_snapshot(database: &ProfileDatabase, target_service: &TargetService) -> (out:
    SettingsSnapshot)
    ensures
        out.replace_windows_target == database.replace_windows_target,
        out.replace_wsl_target == database.replace_wsl_target,
        opt_text(out.wsl_distro_name) == opt_text(database.wsl_distro_name),
        opt_text(out.wsl_user_name) == opt_text(database.wsl_user_name),
        match cached_spec(*database) {
            Some(c) => out.cached_default_wsl matches Some(w) && w.distro_name@ == c.distro_name
                && w.user_name@ == c.user_name,
            None => out.cached_default_wsl is None,
        },
        opt_text(out.cached_default_wsl_error_message) == opt_text(
            database.cached_default_wsl_error_message,
        ),
        out.session_migration_days == database.session_migration_days,
        out.api_key_provider_name@ == database.api_key_provider_name@,
        out.ui_preferences.sidebar_collapsed == database.ui_preferences.sidebar_collapsed,
        out.migration_version == database.migration_version,
{
    let cached = match target_service.wsl_service().cached_default_environment(database) {
        Some(item) => Some(
            CachedWslEnvironmentInfo { distro_name: item.distro_name, user_name: item.user_name },
        ),
        None => None,
    };
    SettingsSnapshot {
        replace_windows_target: database.replace_windows_target,
        replace_wsl_target: database.replace_wsl_target,
        wsl_distro_name: copy_opt_text(&database.wsl_distro_name),
        wsl_user_name: copy_opt_text(&database.wsl_user_name),
        cached_default_wsl: cached,
        cached_default_wsl_error_message: copy_opt_text(&database.cached_default_wsl_error_message),
        session_migration_days: database.session_migration_days,
        api_key_provider_name: copy_str(database.api_key_provider_name.as_str()),
        ui_preferences: UiPreferences { sidebar_collapsed: database.ui_preferences.sidebar_collapsed },
        migration_version: database.migration_version,
    }
}

/// A batch test needs at least one profile.
pub fn ensure_profile_ids(profile_ids: &Vec<String>) -> (out: AppResult<()>)
    ensures
        out is Ok <==> profile_ids.len() > 0,
        out matches Err(e) ==> is_validation_error(
            e,
            
            PROFILE_IDS_MISSING@,
            PROFILE_IDS_MISSING_MSG@,
        ),
{
    if profile_ids.len() == 0 {
        return Err(AppError::validation(PROFILE_IDS_MISSING, PROFILE_IDS_MISSING_MSG));
    }
    Ok(())
}

/// The profiles of a batch test, in the order asked; an unknown ID fails
/// the whole batch.
pub fn select_profiles(database: &ProfileDatabase, profile_ids: &Vec<String>) -> (out: AppResult<
    Vec<CodexProfile>,
>)
    ensures
        ({
            let ps = codex_profiles_view(database.profiles@);
            &&& out is Ok <==> forall|j: int|
                0 <= j < profile_ids.len() ==> profile_index(ps, (#[trigger] profile_ids@[j])@) >= 0
            &&& out matches Ok(v) ==> v@.len() == profile_ids.len() && forall|j: int|
                0 <= j < v@.len() ==> (#[trigger] v@[j])@ == ps[profile_index(ps, profile_ids@[j]@)]
            &&& out matches Err(e) ==> is_validation_error(
            e,
            
                PROFILE_NOT_FOUND@,
                BATCH_PROFILE_NOT_FOUND_MSG@,
            )
        }),
{
    let ghost ps = codex_profiles_view(database.profiles@);
    let mut out: Vec<CodexProfile> = Vec::new();
    let mut j: usize = 0;
    while j < profile_ids.len()
        invariant
            j <= profile_ids.len(),
            ps == codex_profiles_view(database.profiles@),
            out@.len() == j,
            forall|k: int| 0 <= k < j ==> profile_index(ps, (#[trigger] profile_ids@[k])@) >= 0,
            forall|k: int|
                0 <= k < j ==> (#[trigger] out@[k])@ == ps[profile_index(ps, profile_ids@[k]@)],
        decreases profile_ids.len() - j,
    {
        match find_codex_profile(&database.profiles, profile_ids[j].as_str()) {
            Some(i) => {
                proof {
                    assert(ps[i as int] == database.profiles@[i as int]@);
                }
                out.push(copy_profile(&database.profiles[i]));
            },
            None => {
                return Err(AppError::validation(PROFILE_NOT_FOUND, BATCH_PROFILE_NOT_FOUND_MSG));
            },
        }
        j = j + 1;
    }
    Ok(out)
}

/// The profile to test on its own, or `profile_not_found`.
pub fn find_test_profile(database: &ProfileDatabase, profile_id: &str) -> (out: AppResult<CodexProfile>)
    ensures
        ({
            let ps = codex_profiles_view(database.profiles@);
            let i = profile_index(ps, profile_id@);
            &&& out is Ok <==> i >= 0
            &&& out matches Ok(p) ==> p@ == ps[i]
            &&& out matches Err(e) ==> is_validation_error(
            e,
            
                PROFILE_NOT_FOUND@,
                TEST_PROFILE_NOT_FOUND_MSG@,
            )
        }),
{
    match find_codex_profile(&database.profiles, profile_id) {
        Some(i) => {
            proof {
                assert(codex_profiles_view(database.profiles@)[i as int] == database.profiles@[i as int]@);
            }
            Ok(copy_profile(&database.profiles[i]))
        },
        None => Err(AppError::validation(PROFILE_NOT_FOUND, TEST_PROFILE_NOT_FOUND_MSG)),
    }
}

/// One row of a batch test, and whether the profile is to be disabled: a
/// failure disables a profile that is not disabled yet when asked to.
pub fn batch_item(profile: &CodexProfile, result: ConnectionTestResultDto, disable_on_failure: bool) -> (out: (
    BatchConnectionTestItemDto,
    bool,
))
    ensures
        out.1 == (disable_on_failure && result.status == ConnectionTestStatus::Failure
            && !profile.auto_disabled),
        out.0.profile_id@ == profile.id@,
        out.0.profile_name@ == profile.name@,
        out.0.status == result.status,
        out.0.endpoint == result.endpoint,
        out.0.model == result.model,
        out.0.message == result.message,
        out.0.auto_disabled == (profile.auto_disabled || out.1),
{
    let should_disable = disable_on_failure && result.status == ConnectionTestStatus::Failure
        && !profile.auto_disabled;
    let item = BatchConnectionTestItemDto {
        profile_id: copy_str(profile.id.as_str()),
        profile_name: copy_str(profile.name.as_str()),
        status: result.status,
        endpoint: result.endpoint,
        model: result.model,
        message: result.message,
        auto_disabled: profile.auto_disabled || should_disable,
    };
    (item, should_disable)
}

/// How many log entries the log view reads: 200 unless asked, at most 500.
pub fn recent_log_limit(limit: Option<usize>) -> (out: usize)
    ensures
        out == match limit {
            Some(n) => if n > MAX_RECENT_LOG_LIMIT {
                MAX_RECENT_LOG_LIMIT
            } else {
                n
            },
            None => DEFAULT_RECENT_LOG_LIMIT,
        },
{
    let n = match limit {
        Some(n) => n,
        None => DEFAULT_RECENT_LOG_LIMIT,
    };
    if n > MAX_RECENT_LOG_LIMIT {
        MAX_RECENT_LOG_LIMIT
    } else {
        n
    }
}

/// The directory under the backup root that a target key names: `windows`
/// or `wsl`; any other key is refused.
pub fn backup_target_directory(target_key: &str) -> (out: AppResult<String>)
    ensures
        out is Ok <==> (target_key@ == "windows"@ || target_key@ == "wsl"@),
        out matches Ok(d) ==> d@ == target_key@,
        out matches Err(e) ==> is_validation_error(
            e,
            
            INVALID_BACKUP_TARGET@,
            INVALID_BACKUP_TARGET_MSG@,
        ),
{
    let key = copy_str(target_key);
    let windows = copy_str("windows");
    let wsl = copy_str("wsl");
    if key == windows || key == wsl {
        Ok(key)
    } else {
        Err(AppError::validation(INVALID_BACKUP_TARGET, INVALID_BACKUP_TARGET_MSG))
    }
}

/// The log message of disabling or enabling a profile by hand.
pub fn disable_toggle_message(disabled: bool) -> (out: &'static str)
    ensures
        out@ == (if disabled {
            PROFILE_DISABLED_MSG@
        } else {
            PROFILE_ENABLED_MSG@
        }),
{
    if disabled {
        PROFILE_DISABLED_MSG
    } else {
        PROFILE_ENABLED_MSG
    }
}

/// The profile that was switched to last, if it still exists.
pub fn active_profile(database: &ProfileDatabase) -> (out: Option<&CodexProfile>)
    ensures
        match database.last_selected_profile_id {
            Some(id) => {
                let ps = codex_profiles_view(database.profiles@);
                let i = profile_index(ps, id@);
                match out {
                    Some(p) => i >= 0 && p@ == ps[i],
                    None => i < 0,
                }
            },
            None => out is None,
        },
{
    match &database.last_selected_profile_id {
        Some(id) => match find_codex_profile(&database.profiles, id.as_str()) {
            Some(i) => {
                proof {
                    assert(codex_profiles_view(database.profiles@)[i as int] == database.profiles@[i as int]@);
                }
                Some(&database.profiles[i])
            },
            None => None,
        },
        None => None,
    }
}

} // verus!
