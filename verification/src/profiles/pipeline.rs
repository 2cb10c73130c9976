//! Switching the selected targets to a profile, as a state machine: the
//! payloads are validated, every target is backed up, then `auth.json` is
//! written to every target, then `config.toml`, then the sessions are
//! moved. A failure after the first write restores the written targets in
//! reverse order. The caller does the outside work of each stage.

use vstd::prelude::*;

use crate::profiles::models::{StepSpec, SwitchExecutionStep, SwitchStepStatus, steps_view};
use crate::profiles::switch::{
    backup_step, display_names, finalize_step, migrate_sessions_step, rollback_step, target_names,
    validated_step, write_auth_step, write_config_step,
};
use crate::profiles::targets::TargetContext;
use crate::profiles::{AppError, AppResult, dto_spec};
use crate::switcher::ErrorSpec;
use crate::text::{decimal, strings_view};

verus! {

/// The outside work that the switch asks for next.
#[derive(Debug, Clone, Copy, PartialEq, Eq, Structural)]
pub enum Stage {
    /// Look at the targets and prepare both payloads.
    Validate,
    /// Back up the current target.
    Backup,
    /// Write `auth.json` into the current target.
    WriteAuth,
    /// Write `config.toml` into the current target.
    WriteConfig,
    /// Move the current target's recent sessions to the profile's provider.
    Migrate,
    /// Restore the current target from its backup.
    RollBack,
    /// Nothing more to do.
    Done,
}

/// The switch as values. `index` is the target that the current stage works
/// on; while rolling back, the number of targets still to restore. The
/// first `touched` targets have had their `auth.json` replaced.
pub struct PipelineState {
    pub stage: Stage,
    pub names: Seq<Seq<char>>,
    pub index: nat,
    pub touched: nat,
    pub steps: Seq<StepSpec>,
    pub error: Option<ErrorSpec>,
}

pub open spec fn per_target(stage: Stage) -> bool {
    stage is Backup || stage is WriteAuth || stage is WriteConfig || stage is Migrate
}

/// What holds in every state:
/// - backups come before any write, and `config.toml` is written only once
///   every target has its new `auth.json`;
/// - a rollback restores only targets that were written, and carries the
///   error that caused it;
/// - the switch ends without error only when every target was written.
pub open spec fn pipeline_inv(s: PipelineState) -> bool {
    &&& s.touched <= s.names.len()
    &&& per_target(s.stage) ==> s.index < s.names.len()
    &&& (s.stage is Validate || s.stage is Backup) ==> s.touched == 0
    &&& s.stage is Validate ==> s.index == 0
    &&& s.stage is WriteAuth ==> s.touched == s.index
    &&& (s.stage is WriteConfig || s.stage is Migrate) ==> s.touched == s.names.len()
    &&& s.stage is RollBack ==> 0 < s.index <= s.touched && s.error is Some
    &&& !(s.stage is RollBack || s.stage is Done) ==> s.error is None
    &&& (s.stage is Done && s.error is None) ==> s.touched == s.names.len()
}

pub open spec fn validated_spec(n: nat) -> StepSpec {
    StepSpec {
        name: "validate"@,
        detail: "校验完成，共 "@ + decimal(n) + " 个目标。"@,
        status: SwitchStepStatus::Success,
    }
}

pub open spec fn backup_spec(name: Seq<char>, created: bool) -> StepSpec {
    if created {
        StepSpec {
            name: "backup"@,
            detail: name + " 已创建受管备份。"@,
            status: SwitchStepStatus::Success,
        }
    } else {
        StepSpec {
            name: "backup"@,
            detail: name + " 没有现有 auth/config 文件，跳过备份。"@,
            status: SwitchStepStatus::Skipped,
        }
    }
}

pub open spec fn auth_spec(name: Seq<char>) -> StepSpec {
    StepSpec {
        name: "write auth"@,
        detail: name + " 的 auth.json 已写入。"@,
        status: SwitchStepStatus::Success,
    }
}

pub open spec fn config_spec(name: Seq<char>) -> StepSpec {
    StepSpec {
        name: "write config"@,
        detail: name + " 的 config.toml 已写入。"@,
        status: SwitchStepStatus::Success,
    }
}

pub open spec fn migrate_spec(name: Seq<char>) -> StepSpec {
    StepSpec {
        name: "migrate sessions"@,
        detail: name + " 的活动对话、归档对话和 state_5.sqlite 迁移完成。"@,
        status: SwitchStepStatus::Success,
    }
}

pub open spec fn finalize_spec() -> StepSpec {
    StepSpec {
        name: "finalize"@,
        detail: "已更新最后选中组合和最近一次执行结果。"@,
        status: SwitchStepStatus::Success,
    }
}

pub open spec fn rollback_spec(name: Seq<char>, outcome: Result<bool, String>) -> StepSpec {
    match outcome {
        Ok(true) => StepSpec {
            name: "rollback"@,
            detail: name + " 已回滚到切换前快照。"@,
            status: SwitchStepStatus::Success,
        },
        Ok(false) => StepSpec {
            name: "rollback"@,
            detail: name + " 无需回滚。"@,
            status: SwitchStepStatus::Skipped,
        },
        Err(m) => StepSpec {
            name: "rollback"@,
            detail: name + " 回滚失败："@ + m@,
            status: SwitchStepStatus::Failure,
        },
    }
}

/// The stage after the last target of `stage`.
pub open spec fn next_stage(stage: Stage) -> Stage {
    match stage {
        Stage::Backup => Stage::WriteAuth,
        Stage::WriteAuth => Stage::WriteConfig,
        Stage::WriteConfig => Stage::Migrate,
        _ => Stage::Done,
    }
}

/// On to the next target, or to the next stage; after the last migration
/// the switch is finalized.
pub open spec fn advance(s: PipelineState) -> PipelineState {
    if s.index + 1 < s.names.len() {
        PipelineState { index: s.index + 1, ..s }
    } else if s.stage is Migrate {
        PipelineState { stage: Stage::Done, index: 0, steps: s.steps.push(finalize_spec()), ..s }
    } else {
        PipelineState { stage: next_stage(s.stage), index: 0, ..s }
    }
}

/// A failure after the backups: the written targets are restored, last
/// first; with none written the switch ends at once.
pub open spec fn fail(s: PipelineState, e: AppError) -> PipelineState {
    PipelineState {
        stage: if s.touched > 0 { Stage::RollBack } else { Stage::Done },
        index: s.touched,
        error: Some(dto_spec(e)),
        ..s
    }
}

pub open spec fn validated_step_spec(s: PipelineState, r: AppResult<()>) -> PipelineState {
    match r {
        Ok(_) => {
            let steps = s.steps.push(validated_spec(s.names.len()));
            if s.names.len() > 0 {
                PipelineState { stage: Stage::Backup, steps, ..s }
            } else {
                PipelineState { stage: Stage::Done, steps: steps.push(finalize_spec()), ..s }
            }
        },
        Err(e) => PipelineState { stage: Stage::Done, error: Some(dto_spec(e)), ..s },
    }
}

pub open spec fn backed_up_spec(s: PipelineState, r: AppResult<bool>) -> PipelineState {
    match r {
        Ok(created) => advance(
            PipelineState { steps: s.steps.push(backup_spec(s.names[s.index as int], created)), ..s },
        ),
        Err(e) => PipelineState { stage: Stage::Done, error: Some(dto_spec(e)), ..s },
    }
}

pub open spec fn auth_written_spec(s: PipelineState, r: AppResult<()>) -> PipelineState {
    match r {
        Ok(_) => advance(
            PipelineState {
                steps: s.steps.push(auth_spec(s.names[s.index as int])),
                touched: s.index + 1,
                ..s
            },
        ),
        Err(e) => fail(s, e),
    }
}

pub open spec fn config_written_spec(s: PipelineState, r: AppResult<()>) -> PipelineState {
    match r {
        Ok(_) => advance(PipelineState { steps: s.steps.push(config_spec(s.names[s.index as int])), ..s }),
        Err(e) => fail(s, e),
    }
}

pub open spec fn migrated_spec(s: PipelineState, r: AppResult<()>) -> PipelineState {
    match r {
        Ok(_) => advance(PipelineState { steps: s.steps.push(migrate_spec(s.names[s.index as int])), ..s }),
        Err(e) => fail(s, e),
    }
}

/// After restoring target `index - 1`: on to the one before it, or done.
pub open spec fn restored_spec(s: PipelineState, outcome: Result<bool, String>) -> PipelineState {
    let i = (s.index - 1) as nat;
    PipelineState {
        stage: if i == 0 { Stage::Done } else { Stage::RollBack },
        index: i,
        steps: s.steps.push(rollback_spec(s.names[i as int], outcome)),
        ..s
    }
}

struct PipelineData {
    stage: Stage,
    names: Vec<String>,
    index: usize,
    touched: usize,
    steps: Vec<SwitchExecutionStep>,
    error: Option<AppError>,
}

pub open spec fn app_error_view(e: Option<AppError>) -> Option<ErrorSpec> {
    match e {
        Some(x) => Some(dto_spec(x)),
        None => None,
    }
}

impl View for PipelineData {
    type V = PipelineState;

    closed spec fn view(&self) -> PipelineState {
        PipelineState {
            stage: self.stage,
            names: strings_view(self.names@),
            index: self.index as nat,
            touched: self.touched as nat,
            steps: steps_view(self.steps@),
            error: app_error_view(self.error),
        }
    }
}

/// A running switch of the selected targets.
pub struct PipelineFlow {
    data: PipelineData,
}

impl View for PipelineFlow {
    type V = PipelineState;

    closed spec fn view(&self) -> PipelineState {
        self.data@
    }
}

impl PipelineFlow {
    #[verifier::type_invariant]
    spec fn well_formed(self) -> bool {
        pipeline_inv(self.data@)
    }
}

/// Moves `d` past its current target, as `advance` says.
fn step_on(d: &mut PipelineData)
    requires
        per_target(old(d)@.stage),
        old(d)@.index < old(d)@.names.len(),
    ensures
        final(d)@ == advance(old(d)@),
{
    let ghost s = d@;
    let n = d.names.len();
    assert(d@.names.len() == n);
    if d.index + 1 < n {
        d.index = d.index + 1;
    } else {
        d.index = 0;
        let finishing = d.stage == Stage::Migrate;
        d.stage = match d.stage {
            Stage::Backup => Stage::WriteAuth,
            Stage::WriteAuth => Stage::WriteConfig,
            Stage::WriteConfig => Stage::Migrate,
            _ => Stage::Done,
        };
        if finishing {
            d.steps.push(finalize_step());
        }
    }
    proof {
        assert(d@.steps =~= advance(s).steps);
    }
}

/// Records a failure after the backups.
fn fail_with(d: &mut PipelineData, e: AppError)
    ensures
        final(d)@ == fail(old(d)@, e),
{
    d.error = Some(e);
    d.index = d.touched;
    d.stage = if d.touched > 0 {
        Stage::RollBack
    } else {
        Stage::Done
    };
}

impl PipelineFlow {
    /// A switch of `targets`, in their order.
    pub fn new(targets: &Vec<TargetContext>) -> (out: PipelineFlow)
        ensures
            out@ == (PipelineState {
                stage: Stage::Validate,
                names: target_names(targets@),
                index: 0,
                touched: 0,
                steps: Seq::empty(),
                error: None,
            }),
    {
        let out = PipelineFlow {
            data: PipelineData {
                stage: Stage::Validate,
                names: display_names(targets),
                index: 0,
                touched: 0,
                steps: Vec::new(),
                error: None,
            },
        };
        assert(out@.steps =~= Seq::<StepSpec>::empty());
        out
    }

    /// The work to do next; every state satisfies `pipeline_inv`.
    pub fn stage(&self) -> (out: Stage)
        ensures
            out == self@.stage,
            pipeline_inv(self@),
    {
        proof {
            use_type_invariant(self);
        }
        self.data.stage
    }

    /// The target that the current stage works on.
    pub fn target(&self) -> (out: usize)
        requires
            per_target(self@.stage) || self@.stage is RollBack,
        ensures
            per_target(self@.stage) ==> out == self@.index,
            self@.stage is RollBack ==> out == self@.index - 1,
            out < self@.names.len(),
    {
        proof {
            use_type_invariant(self);
        }
        if self.data.stage == Stage::RollBack {
            self.data.index - 1
        } else {
            self.data.index
        }
    }

    pub fn validated(self, result: AppResult<()>) -> (out: PipelineFlow)
        requires
            self@.stage is Validate,
        ensures
            out@ == validated_step_spec(self@, result),
    {
        proof {
            use_type_invariant(&self);
        }
        let ghost s = self@;
        let mut d = self.data;
        match result {
            Ok(_) => {
                let n = d.names.len();
                d.steps.push(validated_step(n));
                if n > 0 {
                    d.stage = Stage::Backup;
                } else {
                    d.steps.push(finalize_step());
                    d.stage = Stage::Done;
                }
            },
            Err(e) => {
                d.error = Some(e);
                d.stage = Stage::Done;
            },
        }
        proof {
            assert(d@.steps =~= validated_step_spec(s, result).steps);
        }
        PipelineFlow { data: d }
    }

    pub fn backed_up(self, result: AppResult<bool>) -> (out: PipelineFlow)
        requires
            self@.stage is Backup,
        ensures
            out@ == backed_up_spec(self@, result),
    {
        proof {
            use_type_invariant(&self);
        }
        let ghost s = self@;
        let mut d = self.data;
        match result {
            Ok(created) => {
                let n = d.names.len();
                assert(d@.names.len() == n);
                let step = backup_step(d.names[d.index].as_str(), created);
                d.steps.push(step);
                proof {
                    assert(d@.steps =~= s.steps.push(backup_spec(s.names[s.index as int], created)));
                }
                step_on(&mut d);
            },
            Err(e) => {
                d.error = Some(e);
                d.stage = Stage::Done;
            },
        }
        PipelineFlow { data: d }
    }

    pub fn auth_written(self, result: AppResult<()>) -> (out: PipelineFlow)
        requires
            self@.stage is WriteAuth,
        ensures
            out@ == auth_written_spec(self@, result),
    {
        proof {
            use_type_invariant(&self);
        }
        let ghost s = self@;
        let mut d = self.data;
        match result {
            Ok(_) => {
                let n = d.names.len();
                assert(d@.names.len() == n);
                let step = write_auth_step(d.names[d.index].as_str());
                d.steps.push(step);
                d.touched = d.index + 1;
                proof {
                    assert(d@.steps =~= s.steps.push(auth_spec(s.names[s.index as int])));
                }
                step_on(&mut d);
            },
            Err(e) => fail_with(&mut d, e),
        }
        PipelineFlow { data: d }
    }

    pub fn config_written(self, result: AppResult<()>) -> (out: PipelineFlow)
        requires
            self@.stage is WriteConfig,
        ensures
            out@ == config_written_spec(self@, result),
    {
        proof {
            use_type_invariant(&self);
        }
        let ghost s = self@;
        let mut d = self.data;
        match result {
            Ok(_) => {
                let step = write_config_step(d.names[d.index].as_str());
                d.steps.push(step);
                proof {
                    assert(d@.steps =~= s.steps.push(config_spec(s.names[s.index as int])));
                }
                step_on(&mut d);
            },
            Err(e) => fail_with(&mut d, e),
        }
        PipelineFlow { data: d }
    }

    pub fn migrated(self, result: AppResult<()>) -> (out: PipelineFlow)
        requires
            self@.stage is Migrate,
        ensures
            out@ == migrated_spec(self@, result),
    {
        proof {
            use_type_invariant(&self);
        }
        let ghost s = self@;
        let mut d = self.data;
        match result {
            Ok(_) => {
                let step = migrate_sessions_step(d.names[d.index].as_str());
                d.steps.push(step);
                proof {
                    assert(d@.steps =~= s.steps.push(migrate_spec(s.names[s.index as int])));
                }
                step_on(&mut d);
            },
            Err(e) => fail_with(&mut d, e),
        }
        PipelineFlow { data: d }
    }

    pub fn restored(self, outcome: Result<bool, String>) -> (out: PipelineFlow)
        requires
            self@.stage is RollBack,
        ensures
            out@ == restored_spec(self@, outcome),
    {
        proof {
            use_type_invariant(&self);
        }
        let ghost s = self@;
        let mut d = self.data;
        let i = d.index - 1;
        let step = rollback_step(d.names[i].as_str(), &outcome);
        d.steps.push(step);
        d.index = i;
        if i == 0 {
            d.stage = Stage::Done;
        }
        proof {
            assert(d@.steps =~= restored_spec(s, outcome).steps);
        }
        PipelineFlow { data: d }
    }

    /// The steps of a finished switch and its error, if it failed.
    pub fn finish(self) -> (out: (Vec<SwitchExecutionStep>, Option<AppError>))
        requires
            self@.stage is Done,
        ensures
            steps_view(out.0@) == self@.steps,
            app_error_view(out.1) == self@.error,
            out.1 is None ==> self@.touched == self@.names.len(),
    {
        proof {
            use_type_invariant(&self);
        }
        let d = self.data;
        (d.steps, d.error)
    }
}

/// Restoring `outcomes.len()` targets in turn, from a rollback state.
pub open spec fn restore_all(s: PipelineState, outcomes: Seq<Result<bool, String>>) -> PipelineState
    decreases outcomes.len(),
{
    if outcomes.len() == 0 {
        s
    } else {
        restore_all(restored_spec(s, outcomes[0]), outcomes.drop_first())
    }
}

/// The rollback steps for restoring the first `from` targets, last first.
pub open spec fn reverse_rollback_steps(
    names: Seq<Seq<char>>,
    from: nat,
    outcomes: Seq<Result<bool, String>>,
) -> Seq<StepSpec> {
    Seq::new(outcomes.len(), |k: int| rollback_spec(names[from - 1 - k], outcomes[k]))
}

/// A rollback restores exactly the targets whose `auth.json` was written,
/// last written first, reports one step for each, and ends the switch with
/// the error that caused it.
pub proof fn lemma_rollback_restores_written_targets(
    s: PipelineState,
    outcomes: Seq<Result<bool, String>>,
)
    requires
        pipeline_inv(s),
        s.stage is RollBack,
        outcomes.len() == s.index,
    ensures
        restore_all(s, outcomes).stage is Done,
        restore_all(s, outcomes).steps == s.steps + reverse_rollback_steps(
            s.names,
            s.index,
            outcomes,
        ),
        restore_all(s, outcomes).error == s.error,
        restore_all(s, outcomes).index == 0,
    decreases outcomes.len(),
{
    let t = restored_spec(s, outcomes[0]);
    if s.index == 1 {
        assert(outcomes.drop_first().len() == 0);
        assert(restore_all(t, outcomes.drop_first()) == t);
        assert(t.steps =~= s.steps + reverse_rollback_steps(s.names, s.index, outcomes));
    } else {
        lemma_rollback_restores_written_targets(t, outcomes.drop_first());
        assert(reverse_rollback_steps(s.names, s.index, outcomes) =~= seq![
            rollback_spec(s.names[s.index - 1], outcomes[0]),
        ] + reverse_rollback_steps(t.names, t.index, outcomes.drop_first()));
        assert(s.steps + reverse_rollback_steps(s.names, s.index, outcomes) =~= t.steps
            + reverse_rollback_steps(t.names, t.index, outcomes.drop_first()));
    }
}

/// `config.toml` is written, and sessions moved, only after every target
/// has its new `auth.json`; files are written only after every backup.
pub proof fn lemma_writes_follow_backups(s: PipelineState)
    requires
        pipeline_inv(s),
    ensures
        (s.stage is WriteConfig || s.stage is Migrate) ==> s.touched == s.names.len(),
        s.stage is Backup ==> s.touched == 0,
        s.stage is WriteAuth ==> s.touched == s.index,
{
}

/// A failure while writing or moving sessions starts the rollback of the
/// written targets, or ends the switch when none was written; a failure to
/// validate or to back up ends it with nothing written.
pub proof fn lemma_failure_after_writes_rolls_back(s: PipelineState, e: AppError)
    requires
        pipeline_inv(s),
    ensures
        s.stage is WriteAuth ==> auth_written_spec(s, Err(e)) == fail(s, e),
        s.stage is WriteConfig ==> config_written_spec(s, Err(e)) == fail(s, e),
        s.stage is Migrate ==> migrated_spec(s, Err(e)) == fail(s, e),
        (s.stage is WriteConfig || s.stage is Migrate) && s.names.len() > 0 ==> fail(s, e).stage is RollBack
            && fail(s, e).index == s.names.len(),
        s.stage is Backup ==> backed_up_spec(s, Err(e)).stage is Done && backed_up_spec(
            s,
            Err(e),
        ).touched == 0,
        s.stage is Validate ==> validated_step_spec(s, Err(e)).stage is Done,
{
}

} // verus!
