//! The decisions of the switch and official-restore transactions: closing
//! Codex, rollback reports, restart and model injection reports.

use vstd::prelude::*;

use crate::json::{JsonSpec, JsonValue, as_str, as_str_spec, get, get_spec, json_parse, parse_json};
use crate::fresh::utc_now_nanos;
use crate::switcher::models::{
    CodexRuntimeStatus, OfficialSnapshot, ProfileSpec, StoredProviderProfile, SwitchStep,
    SwitcherDatabase, profiles_view,
};
use crate::switcher::service::step;
use crate::switcher::{ApiError, ApiResult, ErrorSpec, detailed_spec, error_spec};
use crate::text::{copy_str, decimal, decimal_string, opt_text, push_str, strings_view};

verus! {

pub const FORCE_CLOSE_REQUIRED: &'static str = "codex_force_close_required";

pub const FORCE_CLOSE_SWITCH_MSG: &'static str = "Codex 在 8 秒内未退出。确认没有未保存操作后，可再次执行并允许强制关闭。";

pub const FORCE_CLOSE_RESTORE_MSG: &'static str = "Codex 在 8 秒内未退出，需要确认后强制关闭。";

pub const CLOSE_FAILED: &'static str = "codex_close_failed";

pub const CLOSE_FAILED_MSG: &'static str = "无法关闭正在运行的 Codex。";

/// After asking a running Codex to close: nothing more to do when it exited
/// in time (`Ok(false)`), a forced close when the user allowed one
/// (`Ok(true)`), otherwise the refusal with `refusal_message`.
pub fn after_close_request(exited: bool, force_close: bool, refusal_message: &str) -> (out: ApiResult<
    bool,
>)
    ensures
        match out {
            Ok(force) => force == !exited && (exited || force_close),
            Err(e) => !exited && !force_close && e@ == error_spec(
                FORCE_CLOSE_REQUIRED@,
                refusal_message@,
            ),
        },
{
    if exited {
        Ok(false)
    } else if force_close {
        Ok(true)
    } else {
        Err(ApiError::new(FORCE_CLOSE_REQUIRED, refusal_message))
    }
}

/// After a forced close, Codex must have exited.
pub fn after_forced_close(exited: bool) -> (out: ApiResult<()>)
    ensures
        out is Ok <==> exited,
        out matches Err(e) ==> e@ == error_spec(CLOSE_FAILED@, CLOSE_FAILED_MSG@),
{
    if exited {
        Ok(())
    } else {
        Err(ApiError::new(CLOSE_FAILED, CLOSE_FAILED_MSG))
    }
}

pub fn preflight_step() -> (out: SwitchStep)
    ensures
        out.phase@ == "preflight"@,
        out.status@ == "success"@,
        out.message@ == "配置、路径和磁盘写入权限检查完成。"@,
{
    step("preflight", "success", "配置、路径和磁盘写入权限检查完成。")
}

/// The step about closing Codex.
pub fn close_step(was_running: bool) -> (out: SwitchStep)
    ensures
        out.phase@ == "closeCodex"@,
        was_running ==> out.status@ == "success"@ && out.message@ == "Codex 已退出。"@,
        !was_running ==> out.status@ == "skipped"@ && out.message@ == "Codex 当前未运行。"@,
{
    if was_running {
        step("closeCodex", "success", "Codex 已退出。")
    } else {
        step("closeCodex", "skipped", "Codex 当前未运行。")
    }
}

pub fn backup_step(backup_id: &str) -> (out: SwitchStep)
    ensures
        out.phase@ == "backup"@,
        out.status@ == "success"@,
        out.message@ == "已创建备份 "@ + backup_id@ + "。"@,
{
    let mut message = copy_str("已创建备份 ");
    push_str(&mut message, backup_id);
    push_str(&mut message, "。");
    step("backup", "success", message.as_str())
}

pub fn write_config_step() -> (out: SwitchStep)
    ensures
        out.phase@ == "writeConfig"@,
        out.status@ == "success"@,
        out.message@ == "Provider、认证和模型目录已写入。"@,
{
    step("writeConfig", "success", "Provider、认证和模型目录已写入。")
}

pub fn migrate_step(count: usize) -> (out: SwitchStep)
    ensures
        out.phase@ == "migrateSessions"@,
        out.status@ == "success"@,
        out.message@ == "已同步 "@ + decimal(count as nat) + " 个历史会话。"@,
{
    let mut message = copy_str("已同步 ");
    let digits = decimal_string(count as u128);
    push_str(&mut message, digits.as_str());
    push_str(&mut message, " 个历史会话。");
    step("migrateSessions", "success", message.as_str())
}

/// The manifest status and the error reported after a failed stage was
/// rolled back: the first error when the rollback succeeded, otherwise
/// `code` with both messages in the detail.
pub open spec fn rollback_error_spec(
    error: ErrorSpec,
    rollback: Result<(), ErrorSpec>,
    code: Seq<char>,
    message: Seq<char>,
    label: Seq<char>,
) -> ErrorSpec {
    match rollback {
        Ok(_) => error,
        Err(r) => detailed_spec(
            code,
            message,
            label + ": "@ + error.message + "; rollback: "@ + r.message,
        ),
    }
}

pub open spec fn result_view(r: ApiResult<()>) -> Result<(), ErrorSpec> {
    match r {
        Ok(_) => Ok(()),
        Err(e) => Err(e@),
    }
}

pub fn rollback_outcome(
    error: ApiError,
    rollback: ApiResult<()>,
    code: &str,
    message: &str,
    label: &str,
) -> (out: (String, ApiError))
    ensures
        out.0@ == if rollback is Ok {
            "rolledBack"@
        } else {
            "rollbackFailed"@
        },
        out.1@ == rollback_error_spec(error@, result_view(rollback), code@, message@, label@),
{
    match rollback {
        Ok(_) => (copy_str("rolledBack"), error),
        Err(r) => {
            let mut detail = copy_str(label);
            push_str(&mut detail, ": ");
            push_str(&mut detail, error.message.as_str());
            push_str(&mut detail, "; rollback: ");
            push_str(&mut detail, r.message.as_str());
            (copy_str("rollbackFailed"), ApiError::detailed(code, message, detail.as_str()))
        },
    }
}

/// What happened when Codex was to be restarted after a switch.
pub enum RestartOutcome {
    /// The user chose not to restart Codex.
    NotRequested,
    /// Launching Codex failed.
    Failed(ApiError),
    /// Codex was launched; `injection` is the outcome of injecting the model
    /// catalog, absent when the provider does not inject models.
    Started { injection: Option<ApiResult<()>> },
}

pub struct RestartReport {
    pub steps: Vec<SwitchStep>,
    pub warnings: Vec<String>,
    pub restarted: bool,
    pub injected: bool,
}

pub struct StepSpec {
    pub phase: Seq<char>,
    pub status: Seq<char>,
    pub message: Seq<char>,
}

pub open spec fn step_view(s: SwitchStep) -> StepSpec {
    StepSpec { phase: s.phase@, status: s.status@, message: s.message@ }
}

pub open spec fn steps_view(v: Seq<SwitchStep>) -> Seq<StepSpec> {
    v.map_values(|s: SwitchStep| step_view(s))
}

pub open spec fn st(phase: Seq<char>, status: Seq<char>, message: Seq<char>) -> StepSpec {
    StepSpec { phase, status, message }
}

pub open spec fn restart_steps_spec(o: RestartOutcome) -> Seq<StepSpec> {
    match o {
        RestartOutcome::NotRequested => seq![
            st("restartCodex"@, "skipped"@, "已按设置跳过 Codex 重启。"@),
        ],
        RestartOutcome::Failed(_) => seq![
            st("restartCodex"@, "failure"@, "请手动启动 Codex，配置仍然有效。"@),
        ],
        RestartOutcome::Started { injection } => seq![
            st("restartCodex"@, "success"@, "Codex 已重新启动。"@),
            match injection {
                None => st("injectModels"@, "skipped"@, "此 Provider 未启用模型菜单注入。"@),
                Some(Ok(_)) => st("injectModels"@, "success"@, "自定义模型目录已注入 Codex Desktop。"@),
                Some(Err(_)) => st("injectModels"@, "failure"@, "模型菜单注入失败，Provider 配置仍然有效。"@),
            },
        ],
    }
}

pub open spec fn restart_warnings_spec(o: RestartOutcome) -> Seq<Seq<char>> {
    match o {
        RestartOutcome::Failed(e) => seq!["配置已经生效，但 Codex 重启失败："@ + e.message@],
        RestartOutcome::Started { injection: Some(Err(e)) } => seq![
            "配置已经生效，但模型菜单注入失败："@ + e.message@,
        ],
        _ => Seq::empty(),
    }
}

/// The steps and warnings that report the restart of Codex after a switch.
pub fn restart_report(outcome: RestartOutcome) -> (out: RestartReport)
    ensures
        steps_view(out.steps@) == restart_steps_spec(outcome),
        strings_view(out.warnings@) == restart_warnings_spec(outcome),
        out.restarted == (outcome is Started),
        out.injected == (outcome matches RestartOutcome::Started { injection: Some(Ok(_)) }),
{
    let ghost o = outcome;
    let mut steps: Vec<SwitchStep> = Vec::new();
    let mut warnings: Vec<String> = Vec::new();
    let mut restarted = false;
    let mut injected = false;
    match outcome {
        RestartOutcome::NotRequested => {
            steps.push(step("restartCodex", "skipped", "已按设置跳过 Codex 重启。"));
        },
        RestartOutcome::Failed(e) => {
            let mut w = copy_str("配置已经生效，但 Codex 重启失败：");
            push_str(&mut w, e.message.as_str());
            warnings.push(w);
            steps.push(step("restartCodex", "failure", "请手动启动 Codex，配置仍然有效。"));
        },
        RestartOutcome::Started { injection } => {
            restarted = true;
            steps.push(step("restartCodex", "success", "Codex 已重新启动。"));
            match injection {
                None => {
                    steps.push(step("injectModels", "skipped", "此 Provider 未启用模型菜单注入。"));
                },
                Some(Ok(_)) => {
                    injected = true;
                    steps.push(
                        step("injectModels", "success", "自定义模型目录已注入 Codex Desktop。"),
                    );
                },
                Some(Err(e)) => {
                    let mut w = copy_str("配置已经生效，但模型菜单注入失败：");
                    push_str(&mut w, e.message.as_str());
                    warnings.push(w);
                    steps.push(
                        step("injectModels", "failure", "模型菜单注入失败，Provider 配置仍然有效。"),
                    );
                },
            }
        },
    }
    assert(steps_view(steps@) =~= restart_steps_spec(o));
    assert(strings_view(warnings@) =~= restart_warnings_spec(o));
    RestartReport { steps, warnings, restarted, injected }
}

/// A warning that starts with `prefix` and ends with the error's message.
pub fn warning(prefix: &str, error: &ApiError) -> (out: String)
    ensures
        out@ == prefix@ + error.message@,
{
    let mut w = copy_str(prefix);
    push_str(&mut w, error.message.as_str());
    w
}

/// The steps that report a restore of official mode that moved `migrated`
/// sessions.
pub open spec fn official_steps_spec(migrated: nat) -> Seq<StepSpec> {
    seq![
        st("backup"@, "success"@, "恢复前备份已创建。"@),
        st("restoreOfficial"@, "success"@, "官方配置和认证字段已恢复。"@),
        st(
            "migrateSessions"@,
            "success"@,
            "已同步 "@ + decimal(migrated) + " 个会话到 openai Provider。"@,
        ),
    ]
}

/// The steps that report a restore of official mode.
pub fn official_steps(migrated: usize) -> (out: Vec<SwitchStep>)
    ensures
        steps_view(out@) == official_steps_spec(migrated as nat),
{
    let mut steps: Vec<SwitchStep> = Vec::new();
    steps.push(step("backup", "success", "恢复前备份已创建。"));
    steps.push(step("restoreOfficial", "success", "官方配置和认证字段已恢复。"));
    let mut message = copy_str("已同步 ");
    let digits = decimal_string(migrated as u128);
    push_str(&mut message, digits.as_str());
    push_str(&mut message, " 个会话到 openai Provider。");
    steps.push(step("migrateSessions", "success", message.as_str()));
    proof {
        let expected = seq![
            st("backup"@, "success"@, "恢复前备份已创建。"@),
            st("restoreOfficial"@, "success"@, "官方配置和认证字段已恢复。"@),
            st(
                "migrateSessions"@,
                "success"@,
                "已同步 "@ + decimal(migrated as nat) + " 个会话到 openai Provider。"@,
            ),
        ];
        assert(steps_view(steps@) =~= expected);
    }
    steps
}

/// Index of the first profile at or after `i` with the given provider ID,
/// or -1.
pub open spec fn provider_index_from(ps: Seq<ProfileSpec>, provider_id: Seq<char>, i: int) -> int
    decreases ps.len() - i,
{
    if i < 0 || i >= ps.len() {
        -1
    } else if ps[i].provider_id == provider_id {
        i
    } else {
        provider_index_from(ps, provider_id, i + 1)
    }
}

pub proof fn lemma_provider_index(ps: Seq<ProfileSpec>, provider_id: Seq<char>, i: int)
    requires
        0 <= i <= ps.len(),
    ensures
        provider_index_from(ps, provider_id, i) == -1 || (i <= provider_index_from(
            ps,
            provider_id,
            i,
        ) < ps.len() && ps[provider_index_from(ps, provider_id, i)].provider_id == provider_id),
    decreases ps.len() - i,
{
    if i < ps.len() && ps[i].provider_id != provider_id {
        lemma_provider_index(ps, provider_id, i + 1);
    }
}

/// The active profile recorded in the database follows the provider that
/// `config.toml` selects: the first profile with that provider ID, or none.
pub open spec fn synced_active(
    ps: Seq<ProfileSpec>,
    provider_id: Option<Seq<char>>,
) -> (Option<Seq<char>>, Option<Seq<char>>) {
    match provider_id {
        Some(p) => {
            let k = provider_index_from(ps, p, 0);
            if k >= 0 {
                (Some(ps[k].id), Some(ps[k].provider_id))
            } else {
                (None, None)
            }
        },
        None => (None, None),
    }
}

/// What a committed transaction records as active: the profile switched
/// to, or nothing after a restore of official mode.
pub fn record_active(database: &mut SwitcherDatabase, profile: Option<&StoredProviderProfile>)
    ensures
        final(database).profiles == old(database).profiles,
        final(database).settings == old(database).settings,
        final(database).schema_version == old(database).schema_version,
        final(database).official_snapshot == old(database).official_snapshot,
        opt_text(final(database).active_profile_id) == match profile {
            Some(p) => Some(p.id@),
            None => None::<Seq<char>>,
        },
        opt_text(final(database).active_provider_id) == match profile {
            Some(p) => Some(p.provider_id@),
            None => None::<Seq<char>>,
        },
{
    match profile {
        Some(p) => {
            database.active_profile_id = Some(copy_str(p.id.as_str()));
            database.active_provider_id = Some(copy_str(p.provider_id.as_str()));
        },
        None => {
            database.active_profile_id = None;
            database.active_provider_id = None;
        },
    }
}

pub fn sync_active_profile(database: &mut SwitcherDatabase, provider_id: Option<String>)
    ensures
        final(database).profiles == old(database).profiles,
        final(database).settings == old(database).settings,
        final(database).schema_version == old(database).schema_version,
        final(database).official_snapshot == old(database).official_snapshot,
        (opt_text(final(database).active_profile_id), opt_text(
            final(database).active_provider_id,
        )) == synced_active(profiles_view(old(database).profiles@), opt_text(provider_id)),
{
    let ghost ps = profiles_view(database.profiles@);
    match provider_id {
        Some(p) => {
            let mut i: usize = 0;
            while i < database.profiles.len()
                invariant
                    i <= database.profiles.len(),
                    ps == profiles_view(database.profiles@),
                    provider_index_from(ps, p@, 0) == provider_index_from(ps, p@, i as int),
                ensures
                    i <= database.profiles.len(),
                    provider_index_from(ps, p@, 0) == if i < database.profiles.len() {
                        i as int
                    } else {
                        -1
                    },
                decreases database.profiles.len() - i,
            {
                assert(ps[i as int] == database.profiles@[i as int]@);
                if database.profiles[i].provider_id == p {
                    break;
                }
                i = i + 1;
            }
            if i < database.profiles.len() {
                let id = copy_str(database.profiles[i].id.as_str());
                let pid = copy_str(database.profiles[i].provider_id.as_str());
                assert(ps[i as int] == database.profiles@[i as int]@);
                database.active_profile_id = Some(id);
                database.active_provider_id = Some(pid);
            } else {
                database.active_profile_id = None;
                database.active_provider_id = None;
            }
        },
        None => {
            database.active_profile_id = None;
            database.active_provider_id = None;
        },
    }
}

/// The last `n` values, newest (last) first.
pub open spec fn last_n_reversed<T>(values: Seq<T>, n: nat) -> Seq<T> {
    if values.len() > n {
        values.skip(values.len() - n).reverse()
    } else {
        values.reverse()
    }
}

pub fn take_last_reversed<T>(values: Vec<T>, n: usize) -> (out: Vec<T>)
    ensures
        out@ == last_n_reversed(values@, n as nat),
{
    let mut rest = values;
    let ghost all = rest@;
    let mut out: Vec<T> = Vec::new();
    while out.len() < n && rest.len() > 0
        invariant
            rest@ + out@.reverse() == all,
            out@.len() <= n,
        decreases rest.len(),
    {
        let ghost before = rest@;
        let x = rest.pop().unwrap();
        out.push(x);
        assert(before =~= rest@.push(x));
        assert(rest@ + out@.reverse() =~= all);
    }
    proof {
        if all.len() > n {
            assert(out@.len() == n);
            assert(all.skip(all.len() - n) =~= out@.reverse());
            assert(out@.reverse().reverse() =~= out@);
        } else {
            assert(rest@.len() == 0);
            assert(out@.reverse() =~= all);
            assert(out@.reverse().reverse() =~= out@);
        }
    }
    out
}

/// The switcher's log reader keeps between 1 and 500 of the latest entries,
/// newest first.
pub fn latest_log_values<T>(values: Vec<T>, limit: usize) -> (out: Vec<T>)
    ensures
        out@ == last_n_reversed(
            values@,
            (if limit < 1 {
                1
            } else if limit > 500 {
                500
            } else {
                limit
            }) as nat,
        ),
{
    let keep = if limit < 1 {
        1
    } else if limit > 500 {
        500
    } else {
        limit
    };
    take_last_reversed(values, keep)
}

pub const RECOVERY_CODEX_RUNNING: &'static str = "incomplete_transaction_codex_running";

pub const RECOVERY_CODEX_RUNNING_MSG: &'static str = "检测到上次未完成的切换事务。请关闭 Codex 后重新打开本工具，应用将自动回滚。";

pub const RECOVERY_BACKUP_MISSING: &'static str = "transaction_backup_missing";

pub const RECOVERY_BACKUP_MISSING_MSG: &'static str = "未完成事务检查点没有关联备份。";

pub const INTERRUPTED_STATUS: &'static str = "interruptedRolledBack";

pub const HOME_MISSING: &'static str = "home_directory_missing";

pub const HOME_MISSING_MSG: &'static str = "无法识别用户主目录。";

/// Whether an unfinished switch must be rolled back on start: only when its
/// marker exists, and never while Codex runs (that is refused).
pub fn recovery_needed(marker_exists: bool, codex_running: bool) -> (out: ApiResult<bool>)
    ensures
        !marker_exists ==> out == Ok::<bool, ApiError>(false),
        marker_exists && codex_running ==> (out matches Err(e) && e@ == error_spec(
            RECOVERY_CODEX_RUNNING@,
            RECOVERY_CODEX_RUNNING_MSG@,
        )),
        marker_exists && !codex_running ==> out == Ok::<bool, ApiError>(true),
{
    if !marker_exists {
        return Ok(false);
    }
    if codex_running {
        return Err(ApiError::new(RECOVERY_CODEX_RUNNING, RECOVERY_CODEX_RUNNING_MSG));
    }
    Ok(true)
}

/// The backup that an unfinished switch's marker names (`backupId`).
pub fn marker_backup_id(marker: &JsonValue) -> (out: ApiResult<String>)
    ensures
        match as_str_spec(get_spec(marker@, "backupId"@)) {
            Some(id) => out matches Ok(s) && s@ == id,
            None => out matches Err(e) && e@ == error_spec(
                RECOVERY_BACKUP_MISSING@,
                RECOVERY_BACKUP_MISSING_MSG@,
            ),
        },
{
    match as_str(get(marker, "backupId")) {
        Some(id) => Ok(copy_str(id.as_str())),
        None => Err(ApiError::new(RECOVERY_BACKUP_MISSING, RECOVERY_BACKUP_MISSING_MSG)),
    }
}

/// The log message of a rolled back unfinished switch.
pub fn recovery_message(backup_id: &str) -> (out: String)
    ensures
        out@ == "已自动回滚未完成事务 "@ + backup_id@,
{
    let mut out = copy_str("已自动回滚未完成事务 ");
    push_str(&mut out, backup_id);
    out
}

pub const SNAPSHOT_MISSING: &'static str = "official_snapshot_missing";

pub const SNAPSHOT_MISSING_MSG: &'static str = "尚未保存官方配置快照，无法执行一键恢复。";

/// Restoring the official configuration needs a captured snapshot.
pub fn ensure_official_snapshot(database: &SwitcherDatabase) -> (out: ApiResult<()>)
    ensures
        out is Ok <==> database.official_snapshot.captured_at_utc is Some,
        out matches Err(e) ==> e@ == error_spec(SNAPSHOT_MISSING@, SNAPSHOT_MISSING_MSG@),
{
    if database.official_snapshot.captured_at_utc.is_none() {
        return Err(ApiError::new(SNAPSHOT_MISSING, SNAPSHOT_MISSING_MSG));
    }
    Ok(())
}

pub const MUST_BE_CLOSED: &'static str = "codex_must_be_closed";

pub const MUST_BE_CLOSED_MSG: &'static str = "恢复备份前请先关闭 Codex，避免覆盖正在使用的会话和数据库文件。";

/// A backup is restored only while Codex is closed.
pub fn ensure_codex_closed(codex_running: bool) -> (out: ApiResult<()>)
    ensures
        out is Ok <==> !codex_running,
        out matches Err(e) ==> e@ == error_spec(MUST_BE_CLOSED@, MUST_BE_CLOSED_MSG@),
{
    if codex_running {
        return Err(ApiError::new(MUST_BE_CLOSED, MUST_BE_CLOSED_MSG));
    }
    Ok(())
}

/// The name that a restore of the official configuration reports.
pub const OFFICIAL_PROFILE_NAME: &'static str = "官方 OpenAI";

/// The official snapshot of the given texts, captured at the time of the
/// call.
pub fn captured_snapshot(config_text: Option<String>, protected_auth_text: Option<String>) -> (out:
    OfficialSnapshot)
    ensures
        out.config_text == config_text,
        out.protected_auth_text == protected_auth_text,
        out.captured_at_utc is Some,
{
    OfficialSnapshot { config_text, protected_auth_text, captured_at_utc: Some(utc_now_nanos()) }
}

/// The official configuration is captured only while no provider is
/// active.
pub fn needs_official_snapshot(database: &SwitcherDatabase) -> (out: bool)
    ensures
        out == database.active_profile_id is None,
{
    database.active_profile_id.is_none()
}

/// Where CODEX_HOME is: the override in settings, else a non-empty
/// `CODEX_HOME` variable, else `.codex` in the user's home directory.
#[derive(Debug)]
pub enum CodexHomeSource {
    Configured(String),
    Environment(String),
    UserHome,
}

pub fn codex_home_source(database: &SwitcherDatabase, environment: Option<String>, home_known: bool) -> (out:
    ApiResult<CodexHomeSource>)
    ensures
        match database.settings.codex_home_override {
            Some(o) => out matches Ok(CodexHomeSource::Configured(p)) && p@ == o@,
            None => match environment {
                Some(v) => if v@.len() > 0 {
                    out matches Ok(CodexHomeSource::Environment(p)) && p@ == v@
                } else if home_known {
                    out matches Ok(CodexHomeSource::UserHome)
                } else {
                    out matches Err(e) && e@ == error_spec(HOME_MISSING@, HOME_MISSING_MSG@)
                },
                None => if home_known {
                    out matches Ok(CodexHomeSource::UserHome)
                } else {
                    out matches Err(e) && e@ == error_spec(HOME_MISSING@, HOME_MISSING_MSG@)
                },
            },
        },
{
    match &database.settings.codex_home_override {
        Some(o) => {
            return Ok(CodexHomeSource::Configured(copy_str(o.as_str())));
        },
        None => {},
    }
    match environment {
        Some(v) => {
            if !v.as_str().is_empty() {
                return Ok(CodexHomeSource::Environment(v));
            }
        },
        None => {},
    }
    if home_known {
        Ok(CodexHomeSource::UserHome)
    } else {
        Err(ApiError::new(HOME_MISSING, HOME_MISSING_MSG))
    }
}

/// The runtime status: installed when the executable was found.
pub fn runtime_status(
    executable_path: Option<String>,
    running: bool,
    version: Option<String>,
    codex_home: String,
    database: &SwitcherDatabase,
) -> (out: CodexRuntimeStatus)
    ensures
        out.installed == executable_path is Some,
        out.running == running,
        out.version == version,
        out.executable_path == executable_path,
        out.codex_home == codex_home,
        opt_text(out.active_provider_id) == opt_text(database.active_provider_id),
{
    let installed = executable_path.is_some();
    CodexRuntimeStatus {
        installed,
        running,
        version,
        executable_path,
        codex_home,
        active_provider_id: crate::switcher::models::duplicate_opt(&database.active_provider_id),
    }
}

pub const MARKER_INVALID: &'static str = "transaction_marker_invalid";

pub const MARKER_INVALID_MSG: &'static str = "未完成事务检查点格式无效。";

/// The backup that an unfinished switch's marker names, from the marker's
/// text: a text that is no JSON is an error carrying the parser's message;
/// otherwise as `marker_backup_id`.
pub fn marker_backup_id_text(text: &str) -> (out: ApiResult<String>)
    ensures
        match json_parse(text@) {
            Ok(marker) => match as_str_spec(get_spec(marker, "backupId"@)) {
                Some(id) => out matches Ok(s) && s@ == id,
                None => out matches Err(e) && e@ == error_spec(
                    RECOVERY_BACKUP_MISSING@,
                    RECOVERY_BACKUP_MISSING_MSG@,
                ),
            },
            Err(message) => out matches Err(e) && e@ == detailed_spec(
                MARKER_INVALID@,
                MARKER_INVALID_MSG@,
                message,
            ),
        },
{
    match parse_json(text) {
        Ok(marker) => marker_backup_id(&marker),
        Err(message) => Err(ApiError::detailed(MARKER_INVALID, MARKER_INVALID_MSG, message.as_str())),
    }
}

/// The log entries among the lines of the log: each line that is JSON, in
/// order; other lines are left out.
pub open spec fn log_entries_spec(lines: Seq<Seq<char>>) -> Seq<JsonSpec>
    decreases lines.len(),
{
    if lines.len() == 0 {
        Seq::empty()
    } else {
        let earlier = log_entries_spec(lines.drop_last());
        match json_parse(lines.last()) {
            Ok(v) => earlier.push(v),
            Err(_) => earlier,
        }
    }
}

/// The log entries among the lines of the log (see `log_entries_spec`).
pub fn log_entries(lines: &Vec<String>) -> (out: Vec<JsonValue>)
    ensures
        out@.map_values(|v: JsonValue| v@) == log_entries_spec(strings_view(lines@)),
{
    let mut out: Vec<JsonValue> = Vec::new();
    let mut i: usize = 0;
    while i < lines.len()
        invariant
            i <= lines.len(),
            out@.map_values(|v: JsonValue| v@) == log_entries_spec(
                strings_view(lines@).take(i as int),
            ),
        decreases lines.len() - i,
    {
        let ghost before = out@;
        assert(strings_view(lines@).take(i + 1).drop_last() =~= strings_view(lines@).take(
            i as int,
        ));
        assert(strings_view(lines@).take(i + 1).last() == lines@[i as int]@);
        match parse_json(lines[i].as_str()) {
            Ok(v) => {
                out.push(v);
                assert(out@.map_values(|v: JsonValue| v@) =~= before.map_values(
                    |v: JsonValue| v@,
                ).push(v@));
            },
            Err(_) => {},
        }
        i = i + 1;
    }
    assert(strings_view(lines@).take(lines.len() as int) =~= strings_view(lines@));
    out
}

} // verus!
