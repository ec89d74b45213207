//! The precondition that makes the controller interface available: where its
//! path is absent, one load of the kernel module with write support, and no
//! register access unless that load succeeded.
use vstd::prelude::*;
use crate::error::{LedError, SetupFailure};

verus! {

/// Name of the kernel module that exposes the controller interface.
pub const MODULE_NAME: &'static str = "ec_sys";

/// Option that enables write access in that module.
pub const MODULE_WRITE_OPTION: &'static str = "write_support=1";

/// What the caller is to do next.
#[derive(Clone, Copy, Debug, PartialEq, Eq, Structural)]
pub enum SetupAction {
    /// Invoke the privileged module-loading command once.
    LoadModule,
    /// The interface is available: register access may begin.
    Ready,
}

/// How the module-loading command ended.
#[derive(Clone, Copy, Debug, PartialEq, Eq, Structural)]
pub enum LoadOutcome {
    /// It ran and reported success.
    Loaded,
    /// It ran and reported failure.
    ExitFailure,
    /// It could not be launched.
    LaunchFailed,
}

/// Where the precondition stands.
#[derive(Clone, Copy, Debug, PartialEq, Eq, Structural)]
pub enum SetupPhase {
    /// The interface path has not been looked at yet.
    Unchecked,
    /// The module load has been asked for and its outcome is awaited.
    Loading,
    /// The interface is available.
    Ready,
    /// The module load failed: no register access is possible.
    Failed,
}

/// The precondition check, run once per process before any register access.
pub struct EcAccessCheck {
    phase: SetupPhase,
}

/// Phase and action after the interface path has been looked at.
pub open spec fn after_path_check(path_exists: bool) -> (SetupPhase, SetupAction) {
    if path_exists {
        (SetupPhase::Ready, SetupAction::Ready)
    } else {
        (SetupPhase::Loading, SetupAction::LoadModule)
    }
}

/// What a module load that ended with `outcome` gives.
pub open spec fn load_result(outcome: LoadOutcome) -> Result<(), LedError> {
    match outcome {
        LoadOutcome::Loaded => Ok(()),
        LoadOutcome::ExitFailure => Err(LedError::SetupError(SetupFailure::ExitFailure)),
        LoadOutcome::LaunchFailed => Err(LedError::SetupError(SetupFailure::LaunchFailed)),
    }
}

/// Phase after a module load that ended with `outcome`.
pub open spec fn after_load(outcome: LoadOutcome) -> SetupPhase {
    if outcome == LoadOutcome::Loaded {
        SetupPhase::Ready
    } else {
        SetupPhase::Failed
    }
}

impl EcAccessCheck {
    pub closed spec fn phase(&self) -> SetupPhase {
        self.phase
    }

    /// A check that has not looked at the interface path yet.
    pub fn new() -> (r: EcAccessCheck)
        ensures
            r.phase() == SetupPhase::Unchecked,
    {
        EcAccessCheck { phase: SetupPhase::Unchecked }
    }

    /// Records whether the interface path exists and says what to do: load the
    /// module where it is absent, else proceed.
    pub fn path_checked(&mut self, path_exists: bool) -> (r: SetupAction)
        requires
            old(self).phase() == SetupPhase::Unchecked,
        ensures
            (final(self).phase(), r) == after_path_check(path_exists),
    {
        if path_exists {
            self.phase = SetupPhase::Ready;
            SetupAction::Ready
        } else {
            self.phase = SetupPhase::Loading;
            SetupAction::LoadModule
        }
    }

    /// Records how the module load ended: success makes the interface
    /// available, any failure is a setup error.
    pub fn module_loaded(&mut self, outcome: LoadOutcome) -> (r: Result<(), LedError>)
        requires
            old(self).phase() == SetupPhase::Loading,
        ensures
            r == load_result(outcome),
            final(self).phase() == after_load(outcome),
    {
        match outcome {
            LoadOutcome::Loaded => {
                self.phase = SetupPhase::Ready;
                Ok(())
            },
            LoadOutcome::ExitFailure => {
                self.phase = SetupPhase::Failed;
                Err(LedError::SetupError(SetupFailure::ExitFailure))
            },
            LoadOutcome::LaunchFailed => {
                self.phase = SetupPhase::Failed;
                Err(LedError::SetupError(SetupFailure::LaunchFailed))
            },
        }
    }

    /// Whether the register may be accessed now.
    pub fn may_access_register(&self) -> (r: bool)
        ensures
            r == (self.phase() == SetupPhase::Ready),
    {
        self.phase == SetupPhase::Ready
    }

    /// Whether the check is awaiting the outcome of a module load.
    pub fn awaiting_load(&self) -> (r: bool)
        ensures
            r == (self.phase() == SetupPhase::Loading),
    {
        self.phase == SetupPhase::Loading
    }
}

/// Where the interface path is absent, the check asks for exactly one module
/// load and allows no register access before its outcome is known; once that
/// outcome is in, no further load is asked for, and register access is allowed
/// only if the load succeeded. Where the path exists, no load is asked for.
pub proof fn lemma_one_load_before_access(path_exists: bool, outcome: LoadOutcome)
    ensures
        path_exists ==> after_path_check(path_exists).1 == SetupAction::Ready
            && after_path_check(path_exists).0 == SetupPhase::Ready,
        !path_exists ==> after_path_check(path_exists).1 == SetupAction::LoadModule
            && after_path_check(path_exists).0 != SetupPhase::Ready
            && after_path_check(path_exists).0 == SetupPhase::Loading,
        after_load(outcome) != SetupPhase::Loading,
        after_load(outcome) != SetupPhase::Unchecked,
        (after_load(outcome) == SetupPhase::Ready) == (outcome == LoadOutcome::Loaded),
        load_result(outcome) is Ok <==> outcome == LoadOutcome::Loaded,
{
}

} // verus!
