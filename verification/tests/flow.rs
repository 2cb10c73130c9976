use codex_api_switcher_core::switcher::flow::{Phase, SwitchFlow};
use codex_api_switcher_core::switcher::ApiError;

fn failure(code: &str, message: &str) -> ApiError {
    ApiError::new(code, message)
}

fn phases_of(steps: &[codex_api_switcher_core::switcher::models::SwitchStep]) -> Vec<(String, String)> {
    steps.iter().map(|s| (s.phase.clone(), s.status.clone())).collect()
}

/// Drives a switch through the phases before the files are written.
fn switch_up_to_apply(force_close: bool, restart: bool) -> SwitchFlow {
    let flow = SwitchFlow::for_switch(force_close, restart);
    assert_eq!(flow.phase(), Phase::PrepareHome);
    let flow = flow.home_prepared(Ok(()));
    assert_eq!(flow.phase(), Phase::CloseCodex);
    let flow = flow.close_requested(false, true);
    assert_eq!(flow.phase(), Phase::CaptureSnapshot);
    let flow = flow.snapshot_saved(Ok(()));
    assert_eq!(flow.phase(), Phase::CreateBackup);
    let flow = flow.backup_created(Ok("b-1".to_string()));
    assert_eq!(flow.phase(), Phase::MarkBackup);
    let flow = flow.backup_marked(Ok(()));
    assert_eq!(flow.phase(), Phase::ApplyFiles);
    flow
}

#[test]
fn a_switch_runs_every_phase_in_order() {
    let flow = switch_up_to_apply(false, true).files_applied(Ok(()));
    assert_eq!(flow.phase(), Phase::MarkConfig);
    let flow = flow.config_marked(Ok(()));
    assert_eq!(flow.phase(), Phase::MigrateSessions);
    let flow = flow.sessions_migrated(Ok(3));
    assert_eq!(flow.phase(), Phase::MarkSessions);
    let flow = flow.sessions_marked(Ok(()));
    assert_eq!(flow.phase(), Phase::Commit);
    let flow = flow.committed(Ok(()));
    assert_eq!(flow.phase(), Phase::PruneBackups);
    let flow = flow.backups_pruned(Ok(()));
    assert_eq!(flow.phase(), Phase::RestartCodex);
    let flow = flow.codex_restarted(Ok(Some(9222)));
    assert_eq!(flow.phase(), Phase::InjectModels);
    let flow = flow.models_injected(Ok(()));
    assert_eq!(flow.phase(), Phase::Done);
    let report = flow.finish().unwrap();
    assert_eq!(report.backup_id, "b-1");
    assert_eq!(report.migrated, 3);
    assert!(report.restarted);
    assert!(report.injected);
    assert!(report.warnings.is_empty());
    let expected: Vec<(String, String)> = [
        ("preflight", "success"),
        ("closeCodex", "skipped"),
        ("backup", "success"),
        ("writeConfig", "success"),
        ("migrateSessions", "success"),
        ("restartCodex", "success"),
        ("injectModels", "success"),
    ]
    .iter()
    .map(|(p, s)| (p.to_string(), s.to_string()))
    .collect();
    assert_eq!(phases_of(&report.steps), expected);
    assert_eq!(report.steps[2].message, "已创建备份 b-1。");
    assert_eq!(report.steps[4].message, "已同步 3 个历史会话。");
}

#[test]
fn a_failed_write_restores_the_backup_and_reports_the_failure() {
    let flow = switch_up_to_apply(false, false)
        .files_applied(Err(failure("config_write_failed", "写入失败")));
    assert_eq!(flow.phase(), Phase::RollBack);
    let flow = flow.rolled_back(Ok(()));
    assert_eq!(flow.phase(), Phase::RecordRollBack);
    assert_eq!(flow.rollback_status(), "rolledBack");
    let flow = flow.rollback_recorded();
    assert_eq!(flow.phase(), Phase::Done);
    let error = flow.finish().err().unwrap();
    assert_eq!(error.code, "config_write_failed");
    assert_eq!(error.message, "写入失败");
}

#[test]
fn a_failed_rollback_reports_both_errors() {
    let flow = switch_up_to_apply(false, false)
        .files_applied(Ok(()))
        .config_marked(Ok(()))
        .sessions_migrated(Err(failure("session_failed", "迁移失败")))
        .rolled_back(Err(failure("restore_failed", "恢复失败")));
    assert_eq!(flow.rollback_status(), "rollbackFailed");
    let error = flow.rollback_recorded().finish().err().unwrap();
    assert_eq!(error.code, "switch_and_rollback_failed");
    assert_eq!(error.message, "切换失败，并且自动回滚未能完整完成。");
    assert_eq!(error.detail.as_deref(), Some("switch: 迁移失败; rollback: 恢复失败"));
}

#[test]
fn a_failed_commit_is_rolled_back() {
    let flow = switch_up_to_apply(false, false)
        .files_applied(Ok(()))
        .config_marked(Ok(()))
        .sessions_migrated(Ok(0))
        .sessions_marked(Ok(()))
        .committed(Err(failure("database_write_failed", "保存失败")));
    assert_eq!(flow.phase(), Phase::RollBackCommit);
    let flow = flow.commit_rolled_back(Err(failure("restore_failed", "恢复失败")));
    assert_eq!(flow.rollback_status(), "rollbackFailed");
    let error = flow.rollback_recorded().finish().err().unwrap();
    assert_eq!(error.code, "switch_commit_and_rollback_failed");
    assert_eq!(error.detail.as_deref(), Some("commit: 保存失败; rollback: 恢复失败"));
}

#[test]
fn a_running_codex_must_exit_or_be_forced() {
    let refused = SwitchFlow::for_switch(false, false)
        .home_prepared(Ok(()))
        .close_requested(true, false);
    assert_eq!(refused.phase(), Phase::Done);
    let error = refused.finish().err().unwrap();
    assert_eq!(error.code, "codex_force_close_required");
    assert_eq!(error.message, "Codex 在 8 秒内未退出。确认没有未保存操作后，可再次执行并允许强制关闭。");

    let forced = SwitchFlow::for_switch(true, false)
        .home_prepared(Ok(()))
        .close_requested(true, false);
    assert_eq!(forced.phase(), Phase::ForceClose);
    let stuck = forced.force_closed(false);
    assert_eq!(stuck.finish().err().unwrap().code, "codex_close_failed");

    let official = SwitchFlow::for_official(false, false).close_requested(true, false);
    assert_eq!(
        official.finish().err().unwrap().message,
        "Codex 在 8 秒内未退出，需要确认后强制关闭。"
    );
}

#[test]
fn an_early_failure_stops_without_rollback() {
    let flow = SwitchFlow::for_switch(false, false)
        .home_prepared(Err(failure("codex_home_create_failed", "创建 CODEX_HOME 失败。")));
    assert_eq!(flow.phase(), Phase::Done);
    assert_eq!(flow.finish().err().unwrap().code, "codex_home_create_failed");
    let flow = SwitchFlow::for_official(false, false)
        .close_requested(false, true)
        .backup_created(Err(failure("backup_create_failed", "创建备份失败。")));
    assert_eq!(flow.phase(), Phase::Done);
}

#[test]
fn warnings_after_the_commit_keep_the_switch_successful() {
    let flow = switch_up_to_apply(false, true)
        .files_applied(Ok(()))
        .config_marked(Ok(()))
        .sessions_migrated(Ok(1))
        .sessions_marked(Ok(()))
        .committed(Ok(()))
        .backups_pruned(Err(failure("prune_failed", "磁盘已满")))
        .codex_restarted(Err(failure("launch_failed", "找不到程序")));
    assert_eq!(flow.phase(), Phase::Done);
    let report = flow.finish().unwrap();
    assert!(!report.restarted);
    assert_eq!(
        report.warnings,
        vec![
            "切换已完成，但清理旧备份失败：磁盘已满".to_string(),
            "配置已经生效，但 Codex 重启失败：找不到程序".to_string(),
        ]
    );
    let last = report.steps.last().unwrap();
    assert_eq!((last.phase.as_str(), last.status.as_str()), ("restartCodex", "failure"));
}

#[test]
fn a_switch_without_restart_reports_the_skip() {
    let report = switch_up_to_apply(false, false)
        .files_applied(Ok(()))
        .config_marked(Ok(()))
        .sessions_migrated(Ok(0))
        .sessions_marked(Ok(()))
        .committed(Ok(()))
        .backups_pruned(Ok(()))
        .finish()
        .unwrap();
    let last = report.steps.last().unwrap();
    assert_eq!((last.phase.as_str(), last.status.as_str()), ("restartCodex", "skipped"));
}

#[test]
fn an_official_restore_reports_its_fixed_steps() {
    let flow = SwitchFlow::for_official(false, true);
    assert_eq!(flow.phase(), Phase::CloseCodex);
    let flow = flow.close_requested(true, true);
    assert_eq!(flow.phase(), Phase::CreateBackup);
    let flow = flow.backup_created(Ok("b-2".to_string())).backup_marked(Ok(()));
    assert_eq!(flow.phase(), Phase::ApplyFiles);
    let flow = flow.files_applied(Ok(()));
    assert_eq!(flow.phase(), Phase::MigrateSessions);
    let flow = flow.sessions_migrated(Ok(2));
    assert_eq!(flow.phase(), Phase::Commit);
    let flow = flow.committed(Ok(())).backups_pruned(Ok(()));
    assert_eq!(flow.phase(), Phase::RestartCodex);
    let flow = flow.codex_restarted(Err(failure("launch_failed", "找不到程序")));
    let report = flow.finish().unwrap();
    assert_eq!(report.backup_id, "b-2");
    assert_eq!(report.warnings, vec!["官方配置已恢复，但 Codex 重启失败：找不到程序".to_string()]);
    assert_eq!(report.steps.len(), 3);
    assert_eq!(report.steps[2].message, "已同步 2 个会话到 openai Provider。");
}

#[test]
fn an_official_restore_reports_the_first_error_after_rollback() {
    let flow = SwitchFlow::for_official(false, false)
        .close_requested(false, true)
        .backup_created(Ok("b-3".to_string()))
        .backup_marked(Ok(()))
        .files_applied(Err(failure("auth_write_failed", "写入失败")))
        .rolled_back(Err(failure("restore_failed", "恢复失败")));
    assert_eq!(flow.rollback_status(), "rolledBack");
    let error = flow.rollback_recorded().finish().err().unwrap();
    assert_eq!(error.code, "auth_write_failed");
}
