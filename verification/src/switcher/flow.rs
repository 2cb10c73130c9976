//! The switch and official-restore transactions as a state machine. Each
//! phase names the outside work to do next; the caller does that work and
//! hands its outcome back, and the machine decides the next phase, the
//! steps and warnings of the report, and the final error.

use vstd::prelude::*;

use crate::switcher::models::{SwitchStep};
use crate::switcher::transaction::{
    CLOSE_FAILED, CLOSE_FAILED_MSG, FORCE_CLOSE_REQUIRED, FORCE_CLOSE_RESTORE_MSG,
    FORCE_CLOSE_SWITCH_MSG, RestartOutcome, StepSpec, after_close_request, after_forced_close,
    backup_step, close_step, migrate_step, official_steps, official_steps_spec, preflight_step,
    restart_report, restart_steps_spec, restart_warnings_spec, result_view, rollback_error_spec,
    rollback_outcome, st, steps_view, warning, write_config_step,
};
use crate::switcher::{ApiError, ApiResult, ErrorSpec, error_spec};
use crate::text::{copy_str, decimal, opt_text, strings_view};

verus! {

/// Which transaction runs.
#[derive(Debug, Clone, Copy, PartialEq, Eq, Structural)]
pub enum FlowKind {
    /// Switch to a third-party provider.
    Switch,
    /// Put back the official OpenAI configuration.
    RestoreOfficial,
}

/// The outside work that the transaction asks for next.
#[derive(Debug, Clone, Copy, PartialEq, Eq, Structural)]
pub enum Phase {
    /// Create CODEX_HOME.
    PrepareHome,
    /// Ask a running Codex to close and wait for it.
    CloseCodex,
    /// Force Codex to close and wait for it.
    ForceClose,
    /// Record the official configuration if none is recorded, and save.
    CaptureSnapshot,
    /// Back up the files that the transaction touches.
    CreateBackup,
    /// Write the transaction marker at stage `backup-complete`.
    MarkBackup,
    /// Write the provider's files, or merge the official snapshot back.
    ApplyFiles,
    /// Move the marker to stage `config-written`.
    MarkConfig,
    /// Move the recent sessions to the new provider.
    MigrateSessions,
    /// Move the marker to stage `sessions-migrated`.
    MarkSessions,
    /// Restore the backup after a failed stage.
    RollBack,
    /// Save the database, complete the manifest and clear the marker.
    Commit,
    /// Restore the backup after a failed commit and resynchronise the
    /// database with the restored configuration.
    RollBackCommit,
    /// Write the manifest's rollback status and clear the marker; failures
    /// here are ignored.
    RecordRollBack,
    /// Remove backups beyond the retention.
    PruneBackups,
    /// Launch Codex again.
    RestartCodex,
    /// Inject the model catalog into the restarted Codex.
    InjectModels,
    /// Nothing more to do.
    Done,
}

/// The transaction as values.
pub struct FlowState {
    pub kind: FlowKind,
    pub phase: Phase,
    pub force_close: bool,
    pub restart: bool,
    pub backup_id: Option<Seq<char>>,
    /// The marker has been written and not yet cleared.
    pub marker_written: bool,
    pub committed: bool,
    pub migrated: nat,
    /// The error that started a rollback.
    pub failure: Option<ErrorSpec>,
    pub rollback_status: Option<Seq<char>>,
    /// The error that the transaction ends with.
    pub error: Option<ErrorSpec>,
    pub steps: Seq<StepSpec>,
    pub warnings: Seq<Seq<char>>,
    pub restarted: bool,
    pub injected: bool,
}

pub open spec fn error_view(e: Option<ApiError>) -> Option<ErrorSpec> {
    match e {
        Some(x) => Some(x@),
        None => None,
    }
}

/// The phases that come after the backup was taken.
pub open spec fn after_backup(p: Phase) -> bool {
    !(p is PrepareHome || p is CloseCodex || p is ForceClose || p is CaptureSnapshot
        || p is CreateBackup || p is Done)
}

/// The phases in which Codex's files may differ from the backup, so that
/// the marker tells a later start to recover.
pub open spec fn marker_phase(p: Phase) -> bool {
    after_backup(p) && !(p is MarkBackup || p is PruneBackups || p is RestartCodex
        || p is InjectModels)
}

/// The phases after a successful commit.
pub open spec fn after_commit(p: Phase) -> bool {
    p is PruneBackups || p is RestartCodex || p is InjectModels
}

/// The phases that only a switch has.
pub open spec fn switch_only(p: Phase) -> bool {
    p is PrepareHome || p is CaptureSnapshot || p is MarkConfig || p is MarkSessions
        || p is InjectModels
}

/// What holds in every state of the transaction:
/// - no file of Codex is touched before a backup exists and the marker says
///   so, and the marker is cleared (or was never written) at the end;
/// - a rollback always has the error that caused it;
/// - the transaction has committed exactly when it is past the commit or
///   has ended without error, and a committed transaction has no error;
/// - the restore of official mode never runs the phases of a switch.
pub open spec fn flow_inv(s: FlowState) -> bool {
    &&& after_backup(s.phase) ==> s.backup_id is Some
    &&& s.marker_written <==> marker_phase(s.phase)
    &&& (s.phase is RollBack || s.phase is RollBackCommit) ==> s.failure is Some
    &&& s.phase is RecordRollBack ==> s.rollback_status is Some && s.error is Some
    &&& !(s.phase is Done || s.phase is RecordRollBack) ==> s.error is None
    &&& s.committed <==> (after_commit(s.phase) || (s.phase is Done && s.error is None))
    &&& s.committed ==> s.backup_id is Some
    &&& s.kind is RestoreOfficial ==> !switch_only(s.phase)
}

/// The exec state behind the machine.
struct FlowData {
    kind: FlowKind,
    phase: Phase,
    force_close: bool,
    restart: bool,
    backup_id: Option<String>,
    marker_written: bool,
    committed: bool,
    migrated: usize,
    failure: Option<ApiError>,
    rollback_status: Option<String>,
    error: Option<ApiError>,
    steps: Vec<SwitchStep>,
    warnings: Vec<String>,
    restarted: bool,
    injected: bool,
}

impl View for FlowData {
    type V = FlowState;

    closed spec fn view(&self) -> FlowState {
        FlowState {
            kind: self.kind,
            phase: self.phase,
            force_close: self.force_close,
            restart: self.restart,
            backup_id: opt_text(self.backup_id),
            marker_written: self.marker_written,
            committed: self.committed,
            migrated: self.migrated as nat,
            failure: error_view(self.failure),
            rollback_status: opt_text(self.rollback_status),
            error: error_view(self.error),
            steps: steps_view(self.steps@),
            warnings: strings_view(self.warnings@),
            restarted: self.restarted,
            injected: self.injected,
        }
    }
}

/// A running switch or official restore.
pub struct SwitchFlow {
    data: FlowData,
}

impl View for SwitchFlow {
    type V = FlowState;

    closed spec fn view(&self) -> FlowState {
        self.data@
    }
}

impl SwitchFlow {
    #[verifier::type_invariant]
    spec fn well_formed(self) -> bool {
        flow_inv(self.data@)
    }
}

/// The state in which a transaction of `kind` starts.
pub open spec fn initial_state(kind: FlowKind, force_close: bool, restart: bool) -> FlowState {
    FlowState {
        kind,
        phase: if kind is Switch { Phase::PrepareHome } else { Phase::CloseCodex },
        force_close,
        restart,
        backup_id: None,
        marker_written: false,
        committed: false,
        migrated: 0,
        failure: None,
        rollback_status: None,
        error: None,
        steps: Seq::empty(),
        warnings: Seq::empty(),
        restarted: false,
        injected: false,
    }
}

impl SwitchFlow {
    /// A switch: `force_close` allows closing Codex by force, `restart`
    /// launches it afterwards (and, when the launch opens a debugging port,
    /// the model catalog is injected).
    pub fn for_switch(force_close: bool, restart: bool) -> (out: SwitchFlow)
        ensures
            out@ == initial_state(FlowKind::Switch, force_close, restart),
    {
        let out = SwitchFlow { data: FlowData {
            kind: FlowKind::Switch,
            phase: Phase::PrepareHome,
            force_close,
            restart,
            backup_id: None,
            marker_written: false,
            committed: false,
            migrated: 0,
            failure: None,
            rollback_status: None,
            error: None,
            steps: Vec::new(),
            warnings: Vec::new(),
            restarted: false,
            injected: false,
        } };
        assert(out@.steps =~= Seq::<StepSpec>::empty());
        assert(out@.warnings =~= Seq::<Seq<char>>::empty());
        out
    }

    /// A restore of the official configuration.
    pub fn for_official(force_close: bool, restart: bool) -> (out: SwitchFlow)
        ensures
            out@ == initial_state(FlowKind::RestoreOfficial, force_close, restart),
    {
        let out = SwitchFlow { data: FlowData {
            kind: FlowKind::RestoreOfficial,
            phase: Phase::CloseCodex,
            force_close,
            restart,
            backup_id: None,
            marker_written: false,
            committed: false,
            migrated: 0,
            failure: None,
            rollback_status: None,
            error: None,
            steps: Vec::new(),
            warnings: Vec::new(),
            restarted: false,
            injected: false,
        } };
        assert(out@.steps =~= Seq::<StepSpec>::empty());
        assert(out@.warnings =~= Seq::<Seq<char>>::empty());
        out
    }

    /// The work to do next; every state satisfies `flow_inv`.
    pub fn phase(&self) -> (out: Phase)
        ensures
            out == self@.phase,
            flow_inv(self@),
    {
        proof {
            use_type_invariant(self);
        }
        self.data.phase
    }
}

pub open spec fn preflight_spec() -> StepSpec {
    st("preflight"@, "success"@, "配置、路径和磁盘写入权限检查完成。"@)
}

/// After creating CODEX_HOME: on to closing Codex, or the error.
pub open spec fn home_prepared_spec(s: FlowState, r: ApiResult<()>) -> FlowState {
    match r {
        Ok(_) => FlowState { phase: Phase::CloseCodex, steps: s.steps.push(preflight_spec()), ..s },
        Err(e) => FlowState { phase: Phase::Done, error: Some(e@), ..s },
    }
}

impl SwitchFlow {
    pub fn home_prepared(self, result: ApiResult<()>) -> (out: SwitchFlow)
        requires
            self@.phase is PrepareHome,
        ensures
            out@ == home_prepared_spec(self@, result),
    {
        proof {
            use_type_invariant(&self);
        }
        let mut d = self.data;
        match result {
            Ok(_) => {
                d.steps.push(preflight_step());
                d.phase = Phase::CloseCodex;
            },
            Err(e) => {
                d.error = Some(e);
                d.phase = Phase::Done;
            },
        }
        proof {
            assert(d@.steps =~= home_prepared_spec(self@, result).steps);
        }
        SwitchFlow { data: d }
    }
}


pub const SWITCH_ROLLBACK_FAILED: &'static str = "switch_and_rollback_failed";

pub const SWITCH_ROLLBACK_FAILED_MSG: &'static str = "切换失败，并且自动回滚未能完整完成。";

pub const SWITCH_COMMIT_FAILED: &'static str = "switch_commit_and_rollback_failed";

pub const SWITCH_COMMIT_FAILED_MSG: &'static str = "切换提交失败，并且自动回滚未能完整完成。";

pub const OFFICIAL_COMMIT_FAILED: &'static str = "official_commit_and_rollback_failed";

pub const OFFICIAL_COMMIT_FAILED_MSG: &'static str = "官方配置恢复提交失败，并且自动回滚未能完整完成。";

pub const SWITCH_PRUNE_WARNING: &'static str = "切换已完成，但清理旧备份失败：";

pub const OFFICIAL_PRUNE_WARNING: &'static str = "官方配置已恢复，但清理旧备份失败：";

pub const OFFICIAL_RESTART_WARNING: &'static str = "官方配置已恢复，但 Codex 重启失败：";

pub open spec fn refusal_message(kind: FlowKind) -> Seq<char> {
    if kind is Switch {
        FORCE_CLOSE_SWITCH_MSG@
    } else {
        FORCE_CLOSE_RESTORE_MSG@
    }
}

/// What comes after Codex is closed: a switch records the official
/// configuration first.
pub open spec fn after_close(kind: FlowKind) -> Phase {
    if kind is Switch {
        Phase::CaptureSnapshot
    } else {
        Phase::CreateBackup
    }
}

pub open spec fn close_step_spec(was_running: bool) -> StepSpec {
    if was_running {
        st("closeCodex"@, "success"@, "Codex 已退出。"@)
    } else {
        st("closeCodex"@, "skipped"@, "Codex 当前未运行。"@)
    }
}

/// Only a switch reports its steps as it goes.
pub open spec fn with_step(s: FlowState, step: StepSpec) -> Seq<StepSpec> {
    if s.kind is Switch {
        s.steps.push(step)
    } else {
        s.steps
    }
}

/// After asking Codex to close: on when it was not running or exited in
/// time; a forced close when allowed; otherwise the refusal.
pub open spec fn close_requested_spec(s: FlowState, was_running: bool, exited: bool) -> FlowState {
    if !was_running || exited {
        FlowState { phase: after_close(s.kind), steps: with_step(s, close_step_spec(was_running)), ..s }
    } else if s.force_close {
        FlowState { phase: Phase::ForceClose, ..s }
    } else {
        FlowState {
            phase: Phase::Done,
            error: Some(error_spec(FORCE_CLOSE_REQUIRED@, refusal_message(s.kind))),
            ..s
        }
    }
}

pub open spec fn force_closed_spec(s: FlowState, exited: bool) -> FlowState {
    if exited {
        FlowState { phase: after_close(s.kind), steps: with_step(s, close_step_spec(true)), ..s }
    } else {
        FlowState { phase: Phase::Done, error: Some(error_spec(CLOSE_FAILED@, CLOSE_FAILED_MSG@)), ..s }
    }
}

/// A failed outside step before the backup ends the transaction with its
/// error.
pub open spec fn or_stop(s: FlowState, r: ApiResult<()>, next: Phase) -> FlowState {
    match r {
        Ok(_) => FlowState { phase: next, ..s },
        Err(e) => FlowState { phase: Phase::Done, error: Some(e@), ..s },
    }
}

pub open spec fn backup_created_spec(s: FlowState, r: ApiResult<String>) -> FlowState {
    match r {
        Ok(id) => FlowState { phase: Phase::MarkBackup, backup_id: Some(id@), ..s },
        Err(e) => FlowState { phase: Phase::Done, error: Some(e@), ..s },
    }
}

pub open spec fn backup_step_spec(id: Seq<char>) -> StepSpec {
    st("backup"@, "success"@, "已创建备份 "@ + id + "。"@)
}

pub open spec fn backup_marked_spec(s: FlowState, r: ApiResult<()>) -> FlowState {
    match r {
        Ok(_) => FlowState {
            phase: Phase::ApplyFiles,
            marker_written: true,
            steps: with_step(s, backup_step_spec(s.backup_id.unwrap())),
            ..s
        },
        Err(e) => FlowState { phase: Phase::Done, error: Some(e@), ..s },
    }
}

/// A failed step after the backup starts a rollback.
pub open spec fn or_roll_back(s: FlowState, r: ApiResult<()>, next: Phase) -> FlowState {
    match r {
        Ok(_) => FlowState { phase: next, ..s },
        Err(e) => FlowState { phase: Phase::RollBack, failure: Some(e@), ..s },
    }
}

pub open spec fn files_applied_spec(s: FlowState, r: ApiResult<()>) -> FlowState {
    or_roll_back(s, r, if s.kind is Switch { Phase::MarkConfig } else { Phase::MigrateSessions })
}

pub open spec fn config_marked_spec(s: FlowState, r: ApiResult<()>) -> FlowState {
    or_roll_back(s, r, Phase::MigrateSessions)
}

pub open spec fn sessions_migrated_spec(s: FlowState, r: ApiResult<usize>) -> FlowState {
    match r {
        Ok(n) => FlowState {
            phase: if s.kind is Switch { Phase::MarkSessions } else { Phase::Commit },
            migrated: n as nat,
            ..s
        },
        Err(e) => FlowState { phase: Phase::RollBack, failure: Some(e@), ..s },
    }
}

pub open spec fn write_config_spec() -> StepSpec {
    st("writeConfig"@, "success"@, "Provider、认证和模型目录已写入。"@)
}

pub open spec fn migrate_spec(n: nat) -> StepSpec {
    st("migrateSessions"@, "success"@, "已同步 "@ + decimal(n) + " 个历史会话。"@)
}

pub open spec fn sessions_marked_spec(s: FlowState, r: ApiResult<()>) -> FlowState {
    match r {
        Ok(_) => FlowState {
            phase: Phase::Commit,
            steps: s.steps.push(write_config_spec()).push(migrate_spec(s.migrated)),
            ..s
        },
        Err(e) => FlowState { phase: Phase::RollBack, failure: Some(e@), ..s },
    }
}

pub open spec fn rollback_status_spec(r: ApiResult<()>) -> Seq<char> {
    if r is Ok {
        "rolledBack"@
    } else {
        "rollbackFailed"@
    }
}

/// After restoring the backup of a failed stage: a switch reports both
/// errors when the restore failed too; the official restore reports the
/// first error and marks the backup rolled back in any case.
pub open spec fn rolled_back_spec(s: FlowState, r: ApiResult<()>) -> FlowState {
    let f = s.failure.unwrap();
    if s.kind is Switch {
        FlowState {
            phase: Phase::RecordRollBack,
            rollback_status: Some(rollback_status_spec(r)),
            error: Some(
                rollback_error_spec(
                    f,
                    result_view(r),
                    SWITCH_ROLLBACK_FAILED@,
                    SWITCH_ROLLBACK_FAILED_MSG@,
                    "switch"@,
                ),
            ),
            ..s
        }
    } else {
        FlowState {
            phase: Phase::RecordRollBack,
            rollback_status: Some("rolledBack"@),
            error: Some(f),
            ..s
        }
    }
}

pub open spec fn committed_spec(s: FlowState, r: ApiResult<()>) -> FlowState {
    match r {
        Ok(_) => FlowState { phase: Phase::PruneBackups, committed: true, marker_written: false, ..s },
        Err(e) => FlowState { phase: Phase::RollBackCommit, failure: Some(e@), ..s },
    }
}

pub open spec fn commit_code(kind: FlowKind) -> Seq<char> {
    if kind is Switch {
        SWITCH_COMMIT_FAILED@
    } else {
        OFFICIAL_COMMIT_FAILED@
    }
}

pub open spec fn commit_message(kind: FlowKind) -> Seq<char> {
    if kind is Switch {
        SWITCH_COMMIT_FAILED_MSG@
    } else {
        OFFICIAL_COMMIT_FAILED_MSG@
    }
}

pub open spec fn commit_rolled_back_spec(s: FlowState, r: ApiResult<()>) -> FlowState {
    FlowState {
        phase: Phase::RecordRollBack,
        rollback_status: Some(rollback_status_spec(r)),
        error: Some(
            rollback_error_spec(
                s.failure.unwrap(),
                result_view(r),
                commit_code(s.kind),
                commit_message(s.kind),
                "commit"@,
            ),
        ),
        ..s
    }
}

pub open spec fn rollback_recorded_spec(s: FlowState) -> FlowState {
    FlowState { phase: Phase::Done, marker_written: false, ..s }
}

pub open spec fn prune_prefix(kind: FlowKind) -> Seq<char> {
    if kind is Switch {
        SWITCH_PRUNE_WARNING@
    } else {
        OFFICIAL_PRUNE_WARNING@
    }
}

/// After pruning old backups: a failure is only a warning; then Codex is
/// restarted when asked, or a switch reports that the restart was skipped.
pub open spec fn pruned_spec(s: FlowState, r: ApiResult<()>) -> FlowState {
    let warnings = match r {
        Ok(_) => s.warnings,
        Err(e) => s.warnings.push(prune_prefix(s.kind) + e@.message),
    };
    if s.restart {
        FlowState { phase: Phase::RestartCodex, warnings, ..s }
    } else if s.kind is Switch {
        FlowState {
            phase: Phase::Done,
            warnings,
            steps: s.steps + restart_steps_spec(RestartOutcome::NotRequested),
            ..s
        }
    } else {
        FlowState { phase: Phase::Done, warnings, ..s }
    }
}

/// After launching Codex: a switch goes on to inject the models when the
/// launch opened a debugging port; a failed launch is a warning.
pub open spec fn restarted_spec(s: FlowState, r: ApiResult<Option<u16>>) -> FlowState {
    if s.kind is Switch {
        match r {
            Ok(Some(_)) => FlowState { phase: Phase::InjectModels, restarted: true, ..s },
            Ok(None) => FlowState {
                phase: Phase::Done,
                restarted: true,
                steps: s.steps + restart_steps_spec(RestartOutcome::Started { injection: None }),
                ..s
            },
            Err(e) => FlowState {
                phase: Phase::Done,
                steps: s.steps + restart_steps_spec(RestartOutcome::Failed(e)),
                warnings: s.warnings + restart_warnings_spec(RestartOutcome::Failed(e)),
                ..s
            },
        }
    } else {
        match r {
            Ok(_) => FlowState { phase: Phase::Done, restarted: true, ..s },
            Err(e) => FlowState {
                phase: Phase::Done,
                warnings: s.warnings.push(OFFICIAL_RESTART_WARNING@ + e@.message),
                ..s
            },
        }
    }
}

pub open spec fn injected_spec(s: FlowState, r: ApiResult<()>) -> FlowState {
    let o = RestartOutcome::Started { injection: Some(r) };
    FlowState {
        phase: Phase::Done,
        injected: r is Ok,
        steps: s.steps + restart_steps_spec(o),
        warnings: s.warnings + restart_warnings_spec(o),
        ..s
    }
}


fn close_target(kind: FlowKind) -> (out: Phase)
    ensures
        out == after_close(kind),
{
    match kind {
        FlowKind::Switch => Phase::CaptureSnapshot,
        FlowKind::RestoreOfficial => Phase::CreateBackup,
    }
}

/// Appends `more` to `v`.
fn append_all<T>(v: &mut Vec<T>, more: Vec<T>)
    ensures
        final(v)@ == old(v)@ + more@,
{
    let mut more = more;
    v.append(&mut more);
}

proof fn lemma_steps_concat(a: Seq<SwitchStep>, b: Seq<SwitchStep>)
    ensures
        steps_view(a + b) == steps_view(a) + steps_view(b),
{
    assert(steps_view(a + b) =~= steps_view(a) + steps_view(b));
}

proof fn lemma_strings_concat(a: Seq<String>, b: Seq<String>)
    ensures
        strings_view(a + b) == strings_view(a) + strings_view(b),
{
    assert(strings_view(a + b) =~= strings_view(a) + strings_view(b));
}

/// The report of a finished transaction.
pub struct FlowReport {
    pub backup_id: String,
    pub steps: Vec<SwitchStep>,
    pub warnings: Vec<String>,
    pub restarted: bool,
    pub injected: bool,
    pub migrated: usize,
}

impl SwitchFlow {
    pub fn close_requested(self, was_running: bool, exited: bool) -> (out: SwitchFlow)
        requires
            self@.phase is CloseCodex,
        ensures
            out@ == close_requested_spec(self@, was_running, exited),
    {
        proof {
            use_type_invariant(&self);
        }
        let ghost s = self@;
        let mut d = self.data;
        if !was_running || exited {
            if d.kind == FlowKind::Switch {
                d.steps.push(close_step(was_running));
            }
            d.phase = close_target(d.kind);
        } else {
            let message = match d.kind {
                FlowKind::Switch => FORCE_CLOSE_SWITCH_MSG,
                FlowKind::RestoreOfficial => FORCE_CLOSE_RESTORE_MSG,
            };
            match after_close_request(false, d.force_close, message) {
                Ok(_) => {
                    d.phase = Phase::ForceClose;
                },
                Err(e) => {
                    d.error = Some(e);
                    d.phase = Phase::Done;
                },
            }
        }
        proof {
            assert(d@.steps =~= close_requested_spec(s, was_running, exited).steps);
        }
        SwitchFlow { data: d }
    }

    pub fn force_closed(self, exited: bool) -> (out: SwitchFlow)
        requires
            self@.phase is ForceClose,
        ensures
            out@ == force_closed_spec(self@, exited),
    {
        proof {
            use_type_invariant(&self);
        }
        let ghost s = self@;
        let mut d = self.data;
        match after_forced_close(exited) {
            Ok(_) => {
                if d.kind == FlowKind::Switch {
                    d.steps.push(close_step(true));
                }
                d.phase = close_target(d.kind);
            },
            Err(e) => {
                d.error = Some(e);
                d.phase = Phase::Done;
            },
        }
        proof {
            assert(d@.steps =~= force_closed_spec(s, exited).steps);
        }
        SwitchFlow { data: d }
    }

    pub fn snapshot_saved(self, result: ApiResult<()>) -> (out: SwitchFlow)
        requires
            self@.phase is CaptureSnapshot,
        ensures
            out@ == or_stop(self@, result, Phase::CreateBackup),
    {
        proof {
            use_type_invariant(&self);
        }
        let mut d = self.data;
        match result {
            Ok(_) => {
                d.phase = Phase::CreateBackup;
            },
            Err(e) => {
                d.error = Some(e);
                d.phase = Phase::Done;
            },
        }
        SwitchFlow { data: d }
    }

    pub fn backup_created(self, result: ApiResult<String>) -> (out: SwitchFlow)
        requires
            self@.phase is CreateBackup,
        ensures
            out@ == backup_created_spec(self@, result),
    {
        proof {
            use_type_invariant(&self);
        }
        let mut d = self.data;
        match result {
            Ok(id) => {
                d.backup_id = Some(id);
                d.phase = Phase::MarkBackup;
            },
            Err(e) => {
                d.error = Some(e);
                d.phase = Phase::Done;
            },
        }
        SwitchFlow { data: d }
    }

    pub fn backup_marked(self, result: ApiResult<()>) -> (out: SwitchFlow)
        requires
            self@.phase is MarkBackup,
        ensures
            out@ == backup_marked_spec(self@, result),
    {
        proof {
            use_type_invariant(&self);
        }
        let ghost s = self@;
        let mut d = self.data;
        match result {
            Ok(_) => {
                if d.kind == FlowKind::Switch {
                    let step = match &d.backup_id {
                        Some(id) => backup_step(id.as_str()),
                        None => backup_step(""),
                    };
                    d.steps.push(step);
                }
                d.marker_written = true;
                d.phase = Phase::ApplyFiles;
            },
            Err(e) => {
                d.error = Some(e);
                d.phase = Phase::Done;
            },
        }
        proof {
            assert(d@.steps =~= backup_marked_spec(s, result).steps);
        }
        SwitchFlow { data: d }
    }

    pub fn files_applied(self, result: ApiResult<()>) -> (out: SwitchFlow)
        requires
            self@.phase is ApplyFiles,
        ensures
            out@ == files_applied_spec(self@, result),
    {
        proof {
            use_type_invariant(&self);
        }
        let mut d = self.data;
        match result {
            Ok(_) => {
                d.phase = match d.kind {
                    FlowKind::Switch => Phase::MarkConfig,
                    FlowKind::RestoreOfficial => Phase::MigrateSessions,
                };
            },
            Err(e) => {
                d.failure = Some(e);
                d.phase = Phase::RollBack;
            },
        }
        SwitchFlow { data: d }
    }

    pub fn config_marked(self, result: ApiResult<()>) -> (out: SwitchFlow)
        requires
            self@.phase is MarkConfig,
        ensures
            out@ == config_marked_spec(self@, result),
    {
        proof {
            use_type_invariant(&self);
        }
        let mut d = self.data;
        match result {
            Ok(_) => {
                d.phase = Phase::MigrateSessions;
            },
            Err(e) => {
                d.failure = Some(e);
                d.phase = Phase::RollBack;
            },
        }
        SwitchFlow { data: d }
    }

    pub fn sessions_migrated(self, result: ApiResult<usize>) -> (out: SwitchFlow)
        requires
            self@.phase is MigrateSessions,
        ensures
            out@ == sessions_migrated_spec(self@, result),
    {
        proof {
            use_type_invariant(&self);
        }
        let mut d = self.data;
        match result {
            Ok(n) => {
                d.migrated = n;
                d.phase = match d.kind {
                    FlowKind::Switch => Phase::MarkSessions,
                    FlowKind::RestoreOfficial => Phase::Commit,
                };
            },
            Err(e) => {
                d.failure = Some(e);
                d.phase = Phase::RollBack;
            },
        }
        SwitchFlow { data: d }
    }

    pub fn sessions_marked(self, result: ApiResult<()>) -> (out: SwitchFlow)
        requires
            self@.phase is MarkSessions,
        ensures
            out@ == sessions_marked_spec(self@, result),
    {
        proof {
            use_type_invariant(&self);
        }
        let ghost s = self@;
        let mut d = self.data;
        match result {
            Ok(_) => {
                d.steps.push(write_config_step());
                let n = d.migrated;
                d.steps.push(migrate_step(n));
                d.phase = Phase::Commit;
            },
            Err(e) => {
                d.failure = Some(e);
                d.phase = Phase::RollBack;
            },
        }
        proof {
            assert(d@.steps =~= sessions_marked_spec(s, result).steps);
        }
        SwitchFlow { data: d }
    }

    /// The error that started the rollback, copied.
    fn failure_copy(d: &FlowData) -> (out: ApiError)
        requires
            d.failure is Some,
        ensures
            Some(out@) == d@.failure,
    {
        match &d.failure {
            Some(f) => f.duplicate(),
            None => ApiError::new("", ""),
        }
    }

    pub fn rolled_back(self, result: ApiResult<()>) -> (out: SwitchFlow)
        requires
            self@.phase is RollBack,
        ensures
            out@ == rolled_back_spec(self@, result),
    {
        proof {
            use_type_invariant(&self);
        }
        let mut d = self.data;
        let failure = Self::failure_copy(&d);
        match d.kind {
            FlowKind::Switch => {
                let (status, error) = rollback_outcome(
                    failure,
                    result,
                    SWITCH_ROLLBACK_FAILED,
                    SWITCH_ROLLBACK_FAILED_MSG,
                    "switch",
                );
                d.rollback_status = Some(status);
                d.error = Some(error);
            },
            FlowKind::RestoreOfficial => {
                d.rollback_status = Some(copy_str("rolledBack"));
                d.error = Some(failure);
            },
        }
        d.phase = Phase::RecordRollBack;
        SwitchFlow { data: d }
    }

    pub fn committed(self, result: ApiResult<()>) -> (out: SwitchFlow)
        requires
            self@.phase is Commit,
        ensures
            out@ == committed_spec(self@, result),
    {
        proof {
            use_type_invariant(&self);
        }
        let mut d = self.data;
        match result {
            Ok(_) => {
                d.committed = true;
                d.marker_written = false;
                d.phase = Phase::PruneBackups;
            },
            Err(e) => {
                d.failure = Some(e);
                d.phase = Phase::RollBackCommit;
            },
        }
        SwitchFlow { data: d }
    }

    pub fn commit_rolled_back(self, result: ApiResult<()>) -> (out: SwitchFlow)
        requires
            self@.phase is RollBackCommit,
        ensures
            out@ == commit_rolled_back_spec(self@, result),
    {
        proof {
            use_type_invariant(&self);
        }
        let mut d = self.data;
        let failure = Self::failure_copy(&d);
        let (code, message) = match d.kind {
            FlowKind::Switch => (SWITCH_COMMIT_FAILED, SWITCH_COMMIT_FAILED_MSG),
            FlowKind::RestoreOfficial => (OFFICIAL_COMMIT_FAILED, OFFICIAL_COMMIT_FAILED_MSG),
        };
        let (status, error) = rollback_outcome(failure, result, code, message, "commit");
        d.rollback_status = Some(status);
        d.error = Some(error);
        d.phase = Phase::RecordRollBack;
        SwitchFlow { data: d }
    }

    /// The status to write into the manifest of a rolled back transaction.
    pub fn rollback_status(&self) -> (out: String)
        requires
            self@.phase is RecordRollBack,
        ensures
            Some(out@) == self@.rollback_status,
    {
        proof {
            use_type_invariant(self);
        }
        match &self.data.rollback_status {
            Some(status) => copy_str(status.as_str()),
            None => String::new(),
        }
    }

    pub fn rollback_recorded(self) -> (out: SwitchFlow)
        requires
            self@.phase is RecordRollBack,
        ensures
            out@ == rollback_recorded_spec(self@),
    {
        proof {
            use_type_invariant(&self);
        }
        let mut d = self.data;
        d.marker_written = false;
        d.phase = Phase::Done;
        SwitchFlow { data: d }
    }

    pub fn backups_pruned(self, result: ApiResult<()>) -> (out: SwitchFlow)
        requires
            self@.phase is PruneBackups,
        ensures
            out@ == pruned_spec(self@, result),
    {
        proof {
            use_type_invariant(&self);
        }
        let ghost s = self@;
        let mut d = self.data;
        if let Err(e) = &result {
            let prefix = match d.kind {
                FlowKind::Switch => SWITCH_PRUNE_WARNING,
                FlowKind::RestoreOfficial => OFFICIAL_PRUNE_WARNING,
            };
            d.warnings.push(warning(prefix, e));
        }
        if d.restart {
            d.phase = Phase::RestartCodex;
        } else {
            if d.kind == FlowKind::Switch {
                let report = restart_report(RestartOutcome::NotRequested);
                proof {
                    lemma_steps_concat(d.steps@, report.steps@);
                }
                append_all(&mut d.steps, report.steps);
            }
            d.phase = Phase::Done;
        }
        proof {
            assert(d@.steps =~= pruned_spec(s, result).steps);
            assert(d@.warnings =~= pruned_spec(s, result).warnings);
        }
        SwitchFlow { data: d }
    }

    pub fn codex_restarted(self, result: ApiResult<Option<u16>>) -> (out: SwitchFlow)
        requires
            self@.phase is RestartCodex,
        ensures
            out@ == restarted_spec(self@, result),
    {
        proof {
            use_type_invariant(&self);
        }
        let ghost s = self@;
        let ghost r = result;
        let mut d = self.data;
        match d.kind {
            FlowKind::Switch => {
                match result {
                    Ok(Some(_)) => {
                        d.restarted = true;
                        d.phase = Phase::InjectModels;
                    },
                    Ok(None) => {
                        let report = restart_report(RestartOutcome::Started { injection: None });
                        proof {
                            lemma_steps_concat(d.steps@, report.steps@);
                        }
                        append_all(&mut d.steps, report.steps);
                        d.restarted = true;
                        d.phase = Phase::Done;
                    },
                    Err(e) => {
                        let report = restart_report(RestartOutcome::Failed(e));
                        proof {
                            lemma_steps_concat(d.steps@, report.steps@);
                            lemma_strings_concat(d.warnings@, report.warnings@);
                        }
                        append_all(&mut d.steps, report.steps);
                        append_all(&mut d.warnings, report.warnings);
                        d.phase = Phase::Done;
                    },
                }
            },
            FlowKind::RestoreOfficial => {
                match result {
                    Ok(_) => {
                        d.restarted = true;
                    },
                    Err(e) => {
                        d.warnings.push(warning(OFFICIAL_RESTART_WARNING, &e));
                    },
                }
                d.phase = Phase::Done;
            },
        }
        proof {
            assert(d@.steps =~= restarted_spec(s, r).steps);
            assert(d@.warnings =~= restarted_spec(s, r).warnings);
        }
        SwitchFlow { data: d }
    }

    pub fn models_injected(self, result: ApiResult<()>) -> (out: SwitchFlow)
        requires
            self@.phase is InjectModels,
        ensures
            out@ == injected_spec(self@, result),
    {
        proof {
            use_type_invariant(&self);
        }
        let ghost s = self@;
        let ghost r = result;
        let mut d = self.data;
        let report = restart_report(RestartOutcome::Started { injection: Some(result) });
        proof {
            lemma_steps_concat(d.steps@, report.steps@);
            lemma_strings_concat(d.warnings@, report.warnings@);
        }
        append_all(&mut d.steps, report.steps);
        append_all(&mut d.warnings, report.warnings);
        d.injected = report.injected;
        d.phase = Phase::Done;
        proof {
            assert(d@.steps =~= injected_spec(s, r).steps);
            assert(d@.warnings =~= injected_spec(s, r).warnings);
        }
        SwitchFlow { data: d }
    }

    /// The outcome of a finished transaction: its error, or the report of a
    /// committed one. A restore of official mode reports its fixed steps.
    pub fn finish(self) -> (out: ApiResult<FlowReport>)
        requires
            self@.phase is Done,
        ensures
            match out {
                Err(e) => self@.error == Some(e@) && !self@.committed,
                Ok(r) => {
                    &&& self@.error is None
                    &&& self@.committed
                    &&& self@.backup_id == Some(r.backup_id@)
                    &&& steps_view(r.steps@) == if self@.kind is Switch {
                        self@.steps
                    } else {
                        official_steps_spec(self@.migrated)
                    }
                    &&& strings_view(r.warnings@) == self@.warnings
                    &&& r.restarted == self@.restarted
                    &&& r.injected == self@.injected
                    &&& r.migrated == self@.migrated
                },
            },
    {
        proof {
            use_type_invariant(&self);
        }
        let d = self.data;
        match d.error {
            Some(e) => Err(e),
            None => {
                let backup_id = match d.backup_id {
                    Some(id) => id,
                    None => String::new(),
                };
                let steps = match d.kind {
                    FlowKind::Switch => d.steps,
                    FlowKind::RestoreOfficial => official_steps(d.migrated),
                };
                Ok(
                    FlowReport {
                        backup_id,
                        steps,
                        warnings: d.warnings,
                        restarted: d.restarted,
                        injected: d.injected,
                        migrated: d.migrated,
                    },
                )
            },
        }
    }
}


/// The state in which a rollback of `failure` starts.
pub open spec fn rolling_back(s: FlowState, phase: Phase, failure: ErrorSpec) -> FlowState {
    FlowState { phase, failure: Some(failure), ..s }
}

/// The state that ends the transaction with `error`.
pub open spec fn stopped(s: FlowState, error: ErrorSpec) -> FlowState {
    FlowState { phase: Phase::Done, error: Some(error), ..s }
}

/// Codex's files are written, and sessions moved, only once a backup exists
/// and the transaction marker records it.
pub proof fn lemma_files_change_after_backup(s: FlowState)
    requires
        flow_inv(s),
        s.phase is ApplyFiles || s.phase is MigrateSessions || s.phase is Commit,
    ensures
        s.backup_id is Some,
        s.marker_written,
{
}

/// A failure while writing Codex's files, moving sessions or recording the
/// progress restores the backup, with that failure as the cause.
pub proof fn lemma_failure_after_backup_rolls_back(s: FlowState, e: ApiError)
    requires
        flow_inv(s),
    ensures
        s.phase is ApplyFiles ==> files_applied_spec(s, Err(e)) == rolling_back(s, Phase::RollBack, e@),
        s.phase is MarkConfig ==> config_marked_spec(s, Err(e)) == rolling_back(s, Phase::RollBack, e@),
        s.phase is MigrateSessions ==> sessions_migrated_spec(s, Err(e)) == rolling_back(s, Phase::RollBack, e@),
        s.phase is MarkSessions ==> sessions_marked_spec(s, Err(e)) == rolling_back(s, Phase::RollBack, e@),
        s.phase is Commit ==> committed_spec(s, Err(e)) == rolling_back(s, Phase::RollBackCommit, e@),
{
}

/// A rollback, whether the restore succeeds or not, ends the transaction
/// with an error, uncommitted and with the marker cleared; when the restore
/// succeeds, the error is the failure that caused the rollback.
pub proof fn lemma_rollback_ends_in_error(s: FlowState, r: ApiResult<()>)
    requires
        flow_inv(s),
        s.phase is RollBack || s.phase is RollBackCommit,
    ensures
        ({
            let t = rollback_recorded_spec(
                if s.phase is RollBack {
                    rolled_back_spec(s, r)
                } else {
                    commit_rolled_back_spec(s, r)
                },
            );
            &&& t.phase is Done
            &&& t.error is Some
            &&& !t.committed
            &&& !t.marker_written
            &&& r is Ok ==> t.error == s.failure
        }),
{
}

/// A transaction ends without error only after its commit, and then with
/// its backup; every end leaves the marker cleared.
pub proof fn lemma_success_needs_commit(s: FlowState)
    requires
        flow_inv(s),
        s.phase is Done,
    ensures
        s.error is None <==> s.committed,
        s.committed ==> s.backup_id is Some,
        !s.marker_written,
{
}

/// A refusal or failure before the backup ends the transaction at once:
/// nothing is restored and no marker is left.
pub proof fn lemma_early_failure_stops(s: FlowState, e: ApiError)
    requires
        flow_inv(s),
    ensures
        s.phase is PrepareHome ==> home_prepared_spec(s, Err(e)) == stopped(s, e@),
        s.phase is CaptureSnapshot ==> or_stop(s, Err(e), Phase::CreateBackup) == stopped(s, e@),
        s.phase is CreateBackup ==> backup_created_spec(s, Err(e)) == stopped(s, e@),
        s.phase is MarkBackup ==> backup_marked_spec(s, Err(e)) == stopped(s, e@),
        s.phase is CloseCodex && !s.force_close ==> close_requested_spec(s, true, false) == stopped(
            s,
            error_spec(FORCE_CLOSE_REQUIRED@, refusal_message(s.kind)),
        ),
        (s.phase is PrepareHome || s.phase is CloseCodex || s.phase is ForceClose
            || s.phase is CaptureSnapshot || s.phase is CreateBackup || s.phase is MarkBackup)
            ==> !s.marker_written,
{
}

/// After the commit, failures to prune backups or to restart Codex are only
/// warnings: the transaction still ends without error.
pub proof fn lemma_after_commit_only_warns(s: FlowState, e: ApiError)
    requires
        flow_inv(s),
    ensures
        s.phase is PruneBackups ==> pruned_spec(s, Err(e)).error is None && pruned_spec(
            s,
            Err(e),
        ).committed,
        s.phase is RestartCodex ==> restarted_spec(s, Err(e)).phase is Done && restarted_spec(
            s,
            Err(e),
        ).error is None,
        s.phase is InjectModels ==> injected_spec(s, Err(e)).phase is Done && injected_spec(
            s,
            Err(e),
        ).error is None,
{
}

} // verus!
