use std::path::PathBuf;

use codex_api_switcher_core::profiles::models::{SwitchExecutionStep, SwitchStepStatus};
use codex_api_switcher_core::profiles::pipeline::{PipelineFlow, Stage};
use codex_api_switcher_core::profiles::targets::TargetContext;
use codex_api_switcher_core::profiles::AppError;

fn target(name: &str) -> TargetContext {
    TargetContext {
        target_key: name.to_lowercase(),
        display_name: name.to_string(),
        codex_directory_path: PathBuf::from(format!("/tmp/{name}")),
        backups_directory_path: PathBuf::from(format!("/tmp/{name}-backups")),
        codex_linux_path: None,
        wsl_environment: None,
    }
}

fn names_of(steps: &[SwitchExecutionStep]) -> Vec<String> {
    steps.iter().map(|s| s.name.clone()).collect()
}

fn written_everything(targets: &Vec<TargetContext>) -> PipelineFlow {
    let mut flow = PipelineFlow::new(targets).validated(Ok(()));
    for _ in 0..targets.len() {
        assert_eq!(flow.stage(), Stage::Backup);
        flow = flow.backed_up(Ok(true));
    }
    for i in 0..targets.len() {
        assert_eq!(flow.stage(), Stage::WriteAuth);
        assert_eq!(flow.target(), i);
        flow = flow.auth_written(Ok(()));
    }
    flow
}

#[test]
fn every_target_is_backed_up_then_written_then_migrated() {
    let targets = vec![target("Windows"), target("WSL")];
    let mut flow = written_everything(&targets);
    for _ in 0..2 {
        assert_eq!(flow.stage(), Stage::WriteConfig);
        flow = flow.config_written(Ok(()));
    }
    for _ in 0..2 {
        assert_eq!(flow.stage(), Stage::Migrate);
        flow = flow.migrated(Ok(()));
    }
    assert_eq!(flow.stage(), Stage::Done);
    let (steps, error) = flow.finish();
    assert!(error.is_none());
    assert_eq!(
        names_of(&steps),
        vec![
            "validate",
            "backup",
            "backup",
            "write auth",
            "write auth",
            "write config",
            "write config",
            "migrate sessions",
            "migrate sessions",
            "finalize"
        ]
    );
    assert_eq!(steps[0].detail, "校验完成，共 2 个目标。");
    assert_eq!(steps[4].detail, "WSL 的 auth.json 已写入。");
}

#[test]
fn a_failed_config_write_restores_every_written_target_last_first() {
    let targets = vec![target("Windows"), target("WSL")];
    let flow = written_everything(&targets)
        .config_written(Err(AppError::validation("io_error", "写入失败")));
    assert_eq!(flow.stage(), Stage::RollBack);
    assert_eq!(flow.target(), 1);
    let flow = flow.restored(Ok(true));
    assert_eq!(flow.stage(), Stage::RollBack);
    assert_eq!(flow.target(), 0);
    let flow = flow.restored(Err("拒绝访问".to_string()));
    assert_eq!(flow.stage(), Stage::Done);
    let (steps, error) = flow.finish();
    assert_eq!(error.unwrap().to_dto().code, "io_error");
    let rollbacks: Vec<(String, SwitchStepStatus)> = steps
        .iter()
        .filter(|s| s.name == "rollback")
        .map(|s| (s.detail.clone(), s.status))
        .collect();
    assert_eq!(
        rollbacks,
        vec![
            ("WSL 已回滚到切换前快照。".to_string(), SwitchStepStatus::Success),
            ("Windows 回滚失败：拒绝访问".to_string(), SwitchStepStatus::Failure),
        ]
    );
}

#[test]
fn a_failed_first_auth_write_restores_nothing() {
    let targets = vec![target("Windows")];
    let flow = PipelineFlow::new(&targets)
        .validated(Ok(()))
        .backed_up(Ok(false))
        .auth_written(Err(AppError::validation("io_error", "写入失败")));
    assert_eq!(flow.stage(), Stage::Done);
    let (steps, error) = flow.finish();
    assert!(error.is_some());
    assert_eq!(names_of(&steps), vec!["validate", "backup"]);
    assert_eq!(steps[1].status, SwitchStepStatus::Skipped);
}

#[test]
fn a_second_auth_failure_restores_only_the_first_target() {
    let targets = vec![target("Windows"), target("WSL")];
    let flow = PipelineFlow::new(&targets)
        .validated(Ok(()))
        .backed_up(Ok(true))
        .backed_up(Ok(true))
        .auth_written(Ok(()))
        .auth_written(Err(AppError::validation("io_error", "写入失败")));
    assert_eq!(flow.stage(), Stage::RollBack);
    assert_eq!(flow.target(), 0);
    let (steps, _) = flow.restored(Ok(false)).finish();
    assert_eq!(steps.last().unwrap().detail, "Windows 无需回滚。");
}

#[test]
fn validation_or_backup_failures_end_before_any_write() {
    let targets = vec![target("Windows")];
    let (steps, error) = PipelineFlow::new(&targets)
        .validated(Err(AppError::validation("target_directory_missing", "未找到目录")))
        .finish();
    assert!(steps.is_empty());
    assert_eq!(error.unwrap().to_dto().code, "target_directory_missing");
    let flow = PipelineFlow::new(&targets)
        .validated(Ok(()))
        .backed_up(Err(AppError::validation("io_error", "备份失败")));
    assert_eq!(flow.stage(), Stage::Done);
}
