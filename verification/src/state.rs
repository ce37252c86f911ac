//! Workflow state: the pipeline stage and the three artifact slots.
//!
//! The stage guards mutual exclusion of the pipeline operations: a busy stage
//! is entered only from `Idle`, atomically with the check, and every
//! operation releases it again on every exit path. The three slots remember
//! the most recent raw capture, the most recent processed output and the
//! operator-selected final artifact. The application keeps one value of this
//! state behind a single lock, so each method call is one critical section.

use vstd::prelude::*;

verus! {

/// The pipeline's current stage. Exactly one value at a time; `Idle` means no
/// stage-guarded operation is in flight.
#[derive(Clone, Copy, Debug, PartialEq, Eq, Structural)]
pub enum Stage {
    Idle,
    Capturing,
    PostProcessing,
}

/// The mathematical value of a [`WorkflowState`]: the stage and the three
/// artifact paths, an empty path standing for an empty slot.
pub struct WorkflowView {
    pub stage: Stage,
    pub last_raw: Seq<char>,
    pub last_output: Seq<char>,
    pub last_final: Seq<char>,
}

/// What `try_enter` does: from `Idle` the target stage is claimed and the
/// attempt succeeds; from any busy stage the state is left unchanged and the
/// attempt is refused.
pub open spec fn spec_try_enter(s: WorkflowView, target: Stage) -> (bool, WorkflowView) {
    if s.stage == Stage::Idle {
        (true, WorkflowView { stage: target, ..s })
    } else {
        (false, s)
    }
}

/// What `leave` does: the stage is reset to `Idle`, the slots are kept.
pub open spec fn spec_leave(s: WorkflowView) -> WorkflowView {
    WorkflowView { stage: Stage::Idle, ..s }
}

/// The process-wide mutable state shared across requests.
pub struct WorkflowState {
    stage: Stage,
    last_raw: String,
    last_output: String,
    last_final: String,
}

impl View for WorkflowState {
    type V = WorkflowView;

    closed spec fn view(&self) -> WorkflowView {
        WorkflowView {
            stage: self.stage,
            last_raw: self.last_raw@,
            last_output: self.last_output@,
            last_final: self.last_final@,
        }
    }
}

impl WorkflowState {
    /// A fresh state: idle, all slots empty.
    pub fn new() -> (s: Self)
        ensures
            s@.stage == Stage::Idle,
            s@.last_raw.len() == 0,
            s@.last_output.len() == 0,
            s@.last_final.len() == 0,
    {
        WorkflowState {
            stage: Stage::Idle,
            last_raw: String::new(),
            last_output: String::new(),
            last_final: String::new(),
        }
    }

    /// The state after a process restart: idle, the final slot recovered from
    /// disk, the other slots empty.
    pub fn recovered(last_final: String) -> (s: Self)
        ensures
            s@.stage == Stage::Idle,
            s@.last_raw.len() == 0,
            s@.last_output.len() == 0,
            s@.last_final == last_final@,
    {
        WorkflowState {
            stage: Stage::Idle,
            last_raw: String::new(),
            last_output: String::new(),
            last_final,
        }
    }

    /// Atomically: if the stage is `Idle`, claim `target` and succeed; else
    /// refuse and change nothing.
    pub fn try_enter(&mut self, target: Stage) -> (r: bool)
        ensures
            (r, final(self)@) == spec_try_enter(old(self)@, target),
    {
        if self.stage == Stage::Idle {
            self.stage = target;
            true
        } else {
            false
        }
    }

    /// Atomically reset the stage to `Idle`, keeping the slots.
    pub fn leave(&mut self)
        ensures
            final(self)@ == spec_leave(old(self)@),
    {
        self.stage = Stage::Idle;
    }

    pub fn stage(&self) -> (r: Stage)
        ensures
            r == self@.stage,
    {
        self.stage
    }

    pub fn last_raw(&self) -> (r: String)
        ensures
            r@ == self@.last_raw,
    {
        self.last_raw.clone()
    }

    pub fn last_output(&self) -> (r: String)
        ensures
            r@ == self@.last_output,
    {
        self.last_output.clone()
    }

    pub fn last_final(&self) -> (r: String)
        ensures
            r@ == self@.last_final,
    {
        self.last_final.clone()
    }

    pub fn set_last_raw(&mut self, path: String)
        ensures
            final(self)@ == (WorkflowView { last_raw: path@, ..old(self)@ }),
    {
        self.last_raw = path;
    }

    pub fn set_last_output(&mut self, path: String)
        ensures
            final(self)@ == (WorkflowView { last_output: path@, ..old(self)@ }),
    {
        self.last_output = path;
    }

    pub fn set_last_final(&mut self, path: String)
        ensures
            final(self)@ == (WorkflowView { last_final: path@, ..old(self)@ }),
    {
        self.last_final = path;
    }
}

} // verus!
