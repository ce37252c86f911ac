//! Pipeline coordinator: the state machine driving capture, post-processing
//! and finalization.
//!
//! Each operation is split at the points where the surrounding application
//! must act on the outside world (probe the filesystem, spawn a tool, create
//! the durable alias): the coordinator claims the stage, the application
//! performs the outside work and hands its result back as a plain value, and
//! the coordinator records the result and releases the stage — on every exit
//! path, success or failure. Each coordinator call is one critical section:
//! the application keeps the coordinator behind a single lock.

use vstd::prelude::*;
use vstd::string::*;

use crate::error::PipelineError;
use crate::invoker::InvokeResult;
use crate::invoker::ToolOutcome;
use crate::state::Stage;
use crate::state::WorkflowState;
use crate::state::WorkflowView;
use crate::state::spec_leave;
use crate::state::spec_try_enter;

verus! {

/// The raw-capture sequence: `images/raw_output{n}.jpg`.
pub fn raw_prefix() -> (r: String)
    ensures
        r@ == "images/raw_output"@,
{
    String::from_str("images/raw_output")
}

/// The finalized sequence: `images/final_output{n}.jpg`.
pub fn final_prefix() -> (r: String)
    ensures
        r@ == "images/final_output"@,
{
    String::from_str("images/final_output")
}

/// The common suffix of all three sequences.
pub fn image_suffix() -> (r: String)
    ensures
        r@ == ".jpg"@,
{
    String::from_str(".jpg")
}

/// The per-style output sequence: `images/output_{style}{n}.jpg`.
pub fn output_prefix_for(style: &str) -> (r: String)
    ensures
        r@ == "images/output_"@ + style@,
{
    let mut s = String::from_str("images/output_");
    s.append(style);
    s
}

/// The style/profile file handed to the processing tool: `style_{style}.xmp`.
pub fn style_profile(style: &str) -> (r: String)
    ensures
        r@ == "style_"@ + style@ + ".xmp"@,
{
    let mut s = String::from_str("style_");
    s.append(style);
    s.append(".xmp");
    proof {
        assert(s@ =~= "style_"@ + style@ + ".xmp"@);
    }
    s
}

/// The views of a vector of paths.
pub open spec fn paths_view(v: Seq<String>) -> Seq<Seq<char>> {
    v.map_values(|s: String| s@)
}

/// A path-or-error result, by view.
pub open spec fn path_result_view(r: Result<String, PipelineError>) -> Result<
    Seq<char>,
    PipelineError,
> {
    match r {
        Ok(p) => Ok(p@),
        Err(e) => Err(e),
    }
}

/// What finishing a capture does, for every way the tool run can end: on a
/// zero exit the new path is recorded as the last raw capture and returned;
/// on a non-zero exit or a failed launch nothing is recorded and the matching
/// error is reported. The stage is released in every case.
pub open spec fn spec_capture_finish(s: WorkflowView, path: Seq<char>, outcome: InvokeResult) -> (
    Result<Seq<char>, PipelineError>,
    WorkflowView,
) {
    match outcome {
        InvokeResult::Completed(ToolOutcome::Success(_)) => (
            Ok(path),
            WorkflowView { stage: Stage::Idle, last_raw: path, ..s },
        ),
        InvokeResult::Completed(ToolOutcome::Failure(_)) => (
            Err(PipelineError::ToolFailed),
            spec_leave(s),
        ),
        InvokeResult::LaunchFailed(_) => (Err(PipelineError::Internal), spec_leave(s)),
    }
}

/// A whole capture operation: claim the stage (or be refused busy), then
/// finish with the tool's outcome.
pub open spec fn spec_capture(s: WorkflowView, path: Seq<char>, outcome: InvokeResult) -> (
    Result<Seq<char>, PipelineError>,
    WorkflowView,
) {
    let (ok, s1) = spec_try_enter(s, Stage::Capturing);
    if ok {
        spec_capture_finish(s1, path, outcome)
    } else {
        (Err(PipelineError::Busy), s1)
    }
}

/// What beginning a post-process does: refused busy unless idle; refused as a
/// precondition failure when no raw capture was ever recorded or the style
/// list is empty (malformed input); otherwise the stage is claimed.
pub open spec fn spec_post_begin(s: WorkflowView, styles: Seq<Seq<char>>) -> (
    Result<(), PipelineError>,
    WorkflowView,
) {
    if s.stage != Stage::Idle {
        (Err(PipelineError::Busy), s)
    } else if s.last_raw.len() == 0 {
        (Err(PipelineError::Precondition), s)
    } else if styles.len() == 0 {
        (Err(PipelineError::Precondition), s)
    } else {
        (Ok(()), WorkflowView { stage: Stage::PostProcessing, ..s })
    }
}

/// The style loop from position `i` on, with `acc` the paths produced so far:
/// each success appends its output path; the last success records its path as
/// the last output and completes; the first failure aborts the remaining
/// styles at once. The stage is released in every case.
pub open spec fn spec_post_steps(
    s: WorkflowView,
    paths: Seq<Seq<char>>,
    outcomes: Seq<InvokeResult>,
    i: int,
    acc: Seq<Seq<char>>,
) -> (Result<Seq<Seq<char>>, PipelineError>, WorkflowView)
    decreases paths.len() - i,
{
    if i < 0 || i >= paths.len() || paths.len() != outcomes.len() {
        (Ok(acc), spec_leave(s))
    } else {
        match outcomes[i] {
            InvokeResult::Completed(ToolOutcome::Success(_)) => {
                if i + 1 == paths.len() {
                    (
                        Ok(acc.push(paths[i])),
                        WorkflowView { stage: Stage::Idle, last_output: paths[i], ..s },
                    )
                } else {
                    spec_post_steps(s, paths, outcomes, i + 1, acc.push(paths[i]))
                }
            },
            InvokeResult::Completed(ToolOutcome::Failure(_)) => (
                Err(PipelineError::ToolFailed),
                spec_leave(s),
            ),
            InvokeResult::LaunchFailed(_) => (Err(PipelineError::Internal), spec_leave(s)),
        }
    }
}

/// A whole post-process operation over the allocated output paths and the
/// tool outcomes, one of each per style.
pub open spec fn spec_post_process(
    s: WorkflowView,
    paths: Seq<Seq<char>>,
    outcomes: Seq<InvokeResult>,
) -> (Result<Seq<Seq<char>>, PipelineError>, WorkflowView) {
    let (r, s1) = spec_post_begin(s, paths);
    if r is Err {
        (Err(r->Err_0), s1)
    } else {
        spec_post_steps(s1, paths, outcomes, 0, Seq::empty())
    }
}

/// What finalization records: when the durable alias was created, the new
/// path becomes the final artifact and is returned; when aliasing failed,
/// nothing is recorded and an internal error is reported. No stage is
/// involved: finalization is not a busy-guarded operation.
pub open spec fn spec_finalize(s: WorkflowView, final_path: Seq<char>, linked: bool) -> (
    Result<Seq<char>, PipelineError>,
    WorkflowView,
) {
    if linked {
        (Ok(final_path), WorkflowView { last_final: final_path, ..s })
    } else {
        (Err(PipelineError::Internal), s)
    }
}

/// Resolves the caller-supplied relative selection against the current
/// working directory. An empty selection is malformed input.
pub fn selection_target(cwd: &str, selection: &str) -> (r: Result<String, PipelineError>)
    ensures
        selection@.len() == 0 ==> r == Err::<String, PipelineError>(PipelineError::Precondition),
        selection@.len() > 0 ==> (r matches Ok(p) && p@ == cwd@ + "/"@ + selection@),
{
    if selection.is_empty() {
        Err(PipelineError::Precondition)
    } else {
        let mut s = String::from_str(cwd);
        s.append("/");
        s.append(selection);
        proof {
            assert(s@ =~= cwd@ + "/"@ + selection@);
        }
        Ok(s)
    }
}

/// One in-flight post-processing operation: the constant input, the styles in
/// order, and the output paths produced so far — one per style already done.
pub struct PostJob {
    input: String,
    styles: Vec<String>,
    produced: Vec<String>,
}

/// The mathematical value of a [`PostJob`].
pub struct PostJobView {
    pub input: Seq<char>,
    pub styles: Seq<Seq<char>>,
    pub produced: Seq<Seq<char>>,
}

impl View for PostJob {
    type V = PostJobView;

    closed spec fn view(&self) -> PostJobView {
        PostJobView {
            input: self.input@,
            styles: paths_view(self.styles@),
            produced: paths_view(self.produced@),
        }
    }
}

impl PostJob {
    /// No more styles were done than there are.
    pub open spec fn wf(&self) -> bool {
        self@.produced.len() <= self@.styles.len()
    }

    /// Every style was done.
    pub open spec fn done(&self) -> bool {
        self@.produced.len() == self@.styles.len()
    }

    pub fn is_done(&self) -> (r: bool)
        ensures
            r == self.done(),
    {
        self.produced.len() == self.styles.len()
    }

    /// The style the next tool run is for.
    pub fn current_style(&self) -> (r: String)
        requires
            self.wf(),
            !self.done(),
        ensures
            r@ == self@.styles[self@.produced.len() as int],
    {
        self.styles[self.produced.len()].clone()
    }

    /// The processing input, constant across all styles of the operation.
    pub fn input(&self) -> (r: String)
        ensures
            r@ == self@.input,
    {
        self.input.clone()
    }

    /// The ordered list of output paths the operation produced.
    pub fn into_produced(self) -> (r: Vec<String>)
        ensures
            paths_view(r@) == self@.produced,
    {
        self.produced
    }
}

/// How one step of the style loop ends.
#[derive(Clone, Copy, Debug, PartialEq, Eq, Structural)]
pub enum PostStep {
    /// The style succeeded and styles remain.
    Continue,
    /// The last style succeeded: the operation is complete.
    Complete,
    /// The style's tool run failed: the operation is aborted.
    Abort(PipelineError),
}

/// The workflow coordinator, constructed once at startup and shared, behind
/// one lock, by every request handler.
pub struct Coordinator {
    state: WorkflowState,
}

impl View for Coordinator {
    type V = WorkflowView;

    closed spec fn view(&self) -> WorkflowView {
        self.state@
    }
}

impl Coordinator {
    /// A fresh coordinator: idle, no artifact recorded.
    pub fn new() -> (c: Self)
        ensures
            c@.stage == Stage::Idle,
            c@.last_raw.len() == 0,
            c@.last_output.len() == 0,
            c@.last_final.len() == 0,
    {
        Coordinator { state: WorkflowState::new() }
    }

    /// A coordinator after a process restart, with the final artifact
    /// recovered from the finalized sequence on disk.
    pub fn recovered(last_final: String) -> (c: Self)
        ensures
            c@.stage == Stage::Idle,
            c@.last_raw.len() == 0,
            c@.last_output.len() == 0,
            c@.last_final == last_final@,
    {
        Coordinator { state: WorkflowState::recovered(last_final) }
    }

    pub fn stage(&self) -> (r: Stage)
        ensures
            r == self@.stage,
    {
        self.state.stage()
    }

    /// The most recent raw capture, empty when none was recorded.
    pub fn last_raw(&self) -> (r: String)
        ensures
            r@ == self@.last_raw,
    {
        self.state.last_raw()
    }

    /// The most recent processed output, empty when none was recorded.
    pub fn last_output(&self) -> (r: String)
        ensures
            r@ == self@.last_output,
    {
        self.state.last_output()
    }

    /// The current final artifact: a pure read, safe to call while any other
    /// operation is in flight.
    pub fn get_result(&self) -> (r: String)
        ensures
            r@ == self@.last_final,
    {
        self.state.last_final()
    }

    /// Claims the capturing stage, or reports busy and changes nothing.
    pub fn capture_begin(&mut self) -> (r: Result<(), PipelineError>)
        ensures
            ({
                let (ok, s1) = spec_try_enter(old(self)@, Stage::Capturing);
                &&& final(self)@ == s1
                &&& (r is Ok) == ok
                &&& !ok ==> r == Err::<(), PipelineError>(PipelineError::Busy)
            }),
    {
        if self.state.try_enter(Stage::Capturing) {
            Ok(())
        } else {
            Err(PipelineError::Busy)
        }
    }

    /// Records the end of a capture: on a successful tool run the freshly
    /// allocated path becomes the last raw capture and is returned; on a
    /// failed run or a failed launch nothing is recorded. The stage is
    /// released on every path.
    pub fn capture_finish(&mut self, path: String, outcome: &InvokeResult) -> (r: Result<
        String,
        PipelineError,
    >)
        requires
            old(self)@.stage == Stage::Capturing,
        ensures
            (path_result_view(r), final(self)@) == spec_capture_finish(
                old(self)@,
                path@,
                *outcome,
            ),
    {
        match outcome {
            InvokeResult::Completed(ToolOutcome::Success(_)) => {
                self.state.set_last_raw(path.clone());
                self.state.leave();
                Ok(path)
            },
            InvokeResult::Completed(ToolOutcome::Failure(_)) => {
                self.state.leave();
                Err(PipelineError::ToolFailed)
            },
            InvokeResult::LaunchFailed(_) => {
                self.state.leave();
                Err(PipelineError::Internal)
            },
        }
    }

    /// Begins a post-process: refused busy unless idle; refused as a
    /// precondition failure — before any tool could run — when no raw capture
    /// was ever recorded or the style list is empty. On success the
    /// post-processing stage is claimed and the returned job carries the
    /// constant input and the styles in order.
    pub fn post_begin(&mut self, styles: Vec<String>) -> (r: Result<PostJob, PipelineError>)
        ensures
            ({
                let (rr, ss) = spec_post_begin(old(self)@, paths_view(styles@));
                &&& final(self)@ == ss
                &&& match (r, rr) {
                    (Ok(job), Ok(())) => {
                        &&& job@.input == old(self)@.last_raw
                        &&& job@.styles == paths_view(styles@)
                        &&& job@.produced.len() == 0
                    },
                    (Err(e), Err(f)) => e == f,
                    _ => false,
                }
            }),
    {
        if !self.state.try_enter(Stage::PostProcessing) {
            return Err(PipelineError::Busy);
        }
        let input = self.state.last_raw();
        if input.as_str().is_empty() {
            self.state.leave();
            return Err(PipelineError::Precondition);
        }
        if styles.len() == 0 {
            self.state.leave();
            return Err(PipelineError::Precondition);
        }
        proof {
            assert(paths_view(Seq::<String>::empty()) =~= Seq::<Seq<char>>::empty());
        }
        Ok(PostJob { input, styles, produced: Vec::new() })
    }

    /// Records the end of one style's tool run, realising one transition of
    /// [`spec_post_steps`]: a success appends the output path to the job, and
    /// when it was the last style records that path as the last output,
    /// releases the stage and completes; any failure aborts the operation at
    /// once, releases the stage, and promotes nothing — the prior last output
    /// is kept and the already produced paths are left behind in the job.
    pub fn post_step(
        &mut self,
        job: &mut PostJob,
        output_path: String,
        outcome: &InvokeResult,
    ) -> (r: PostStep)
        requires
            old(self)@.stage == Stage::PostProcessing,
            old(job).wf(),
            !old(job).done(),
        ensures
            final(job)@.input == old(job)@.input,
            final(job)@.styles == old(job)@.styles,
            final(job).wf(),
            match *outcome {
                InvokeResult::Completed(ToolOutcome::Success(_)) => {
                    &&& final(job)@.produced == old(job)@.produced.push(output_path@)
                    &&& if old(job)@.produced.len() + 1 == old(job)@.styles.len() {
                        &&& r == PostStep::Complete
                        &&& final(self)@ == (WorkflowView {
                            stage: Stage::Idle,
                            last_output: output_path@,
                            ..old(self)@
                        })
                    } else {
                        &&& r == PostStep::Continue
                        &&& final(self)@ == old(self)@
                    }
                },
                InvokeResult::Completed(ToolOutcome::Failure(_)) => {
                    &&& r == PostStep::Abort(PipelineError::ToolFailed)
                    &&& final(self)@ == spec_leave(old(self)@)
                    &&& final(job)@.produced == old(job)@.produced
                },
                InvokeResult::LaunchFailed(_) => {
                    &&& r == PostStep::Abort(PipelineError::Internal)
                    &&& final(self)@ == spec_leave(old(self)@)
                    &&& final(job)@.produced == old(job)@.produced
                },
            },
    {
        match outcome {
            InvokeResult::Completed(ToolOutcome::Success(_)) => {
                job.produced.push(output_path.clone());
                proof {
                    assert(paths_view(old(job).produced@.push(output_path))
                        =~= paths_view(old(job).produced@).push(output_path@));
                }
                if job.produced.len() == job.styles.len() {
                    self.state.set_last_output(output_path);
                    self.state.leave();
                    PostStep::Complete
                } else {
                    PostStep::Continue
                }
            },
            InvokeResult::Completed(ToolOutcome::Failure(_)) => {
                self.state.leave();
                PostStep::Abort(PipelineError::ToolFailed)
            },
            InvokeResult::LaunchFailed(_) => {
                self.state.leave();
                PostStep::Abort(PipelineError::Internal)
            },
        }
    }

    /// Records the outcome of the durable aliasing step of a finalize: when
    /// the alias was created, the new path becomes the final artifact and is
    /// returned; when aliasing failed, nothing is recorded and an internal
    /// error is reported.
    pub fn finalize_outcome(&mut self, final_path: String, linked: bool) -> (r: Result<
        String,
        PipelineError,
    >)
        ensures
            (path_result_view(r), final(self)@) == spec_finalize(old(self)@, final_path@, linked),
    {
        if linked {
            self.state.set_last_final(final_path.clone());
            Ok(final_path)
        } else {
            Err(PipelineError::Internal)
        }
    }
}

/// Law (mutual exclusion): against an idle coordinator, of two capture
/// attempts exactly one claims the capturing stage and the other is refused
/// with the state unchanged; once the winner's tool run completes — however
/// it completes — the stage is idle again.
pub proof fn lemma_capture_mutual_exclusion(s: WorkflowView, path: Seq<char>, outcome: InvokeResult)
    requires
        s.stage == Stage::Idle,
    ensures
        ({
            let (ok1, s1) = spec_try_enter(s, Stage::Capturing);
            let (ok2, s2) = spec_try_enter(s1, Stage::Capturing);
            &&& ok1
            &&& !ok2
            &&& s2 == s1
            &&& spec_capture_finish(s1, path, outcome).1.stage == Stage::Idle
        }),
{
}

/// Law (stage always released, capture): whatever the tool outcome — success,
/// failure, or a failed launch — a capture against an idle coordinator leaves
/// the stage idle.
pub proof fn lemma_capture_releases_stage(s: WorkflowView, path: Seq<char>, outcome: InvokeResult)
    requires
        s.stage == Stage::Idle,
    ensures
        spec_capture(s, path, outcome).1.stage == Stage::Idle,
{
}

proof fn lemma_post_steps_release_stage(
    s: WorkflowView,
    paths: Seq<Seq<char>>,
    outcomes: Seq<InvokeResult>,
    i: int,
    acc: Seq<Seq<char>>,
)
    ensures
        spec_post_steps(s, paths, outcomes, i, acc).1.stage == Stage::Idle,
    decreases paths.len() - i,
{
    if 0 <= i < paths.len() && paths.len() == outcomes.len() {
        match outcomes[i] {
            InvokeResult::Completed(ToolOutcome::Success(_)) => {
                if i + 1 < paths.len() {
                    lemma_post_steps_release_stage(s, paths, outcomes, i + 1, acc.push(paths[i]));
                }
            },
            _ => {},
        }
    }
}

/// Law (stage always released, post-processing): whatever the combination of
/// per-style tool outcomes, a post-process against an idle coordinator leaves
/// the stage idle.
pub proof fn lemma_post_process_releases_stage(
    s: WorkflowView,
    paths: Seq<Seq<char>>,
    outcomes: Seq<InvokeResult>,
)
    requires
        s.stage == Stage::Idle,
    ensures
        spec_post_process(s, paths, outcomes).1.stage == Stage::Idle,
{
    let (r, s1) = spec_post_begin(s, paths);
    if r is Ok {
        lemma_post_steps_release_stage(s1, paths, outcomes, 0, Seq::empty());
    }
}

/// Law (precondition enforcement): post-processing while no raw capture was
/// ever recorded is refused as a precondition failure and touches nothing;
/// in particular no tool is invoked — the result is the same whatever the
/// outcomes would have been.
pub proof fn lemma_post_process_requires_capture(
    s: WorkflowView,
    paths: Seq<Seq<char>>,
    outcomes: Seq<InvokeResult>,
)
    requires
        s.stage == Stage::Idle,
        s.last_raw.len() == 0,
    ensures
        spec_post_process(s, paths, outcomes) == (
            Err::<Seq<Seq<char>>, PipelineError>(PipelineError::Precondition),
            s,
        ),
{
}

proof fn lemma_post_steps_abort(
    s: WorkflowView,
    paths: Seq<Seq<char>>,
    outcomes: Seq<InvokeResult>,
    other: Seq<InvokeResult>,
    j: int,
    i: int,
    acc: Seq<Seq<char>>,
)
    requires
        paths.len() == outcomes.len(),
        other.len() == outcomes.len(),
        0 <= i <= j < outcomes.len(),
        forall|k: int| i <= k < j ==> (#[trigger] outcomes[k]) matches InvokeResult::Completed(
            ToolOutcome::Success(_),
        ),
        outcomes[j] matches InvokeResult::Completed(ToolOutcome::Failure(_)),
        forall|k: int| i <= k <= j ==> other[k] == outcomes[k],
    ensures
        spec_post_steps(s, paths, outcomes, i, acc) == (
            Err::<Seq<Seq<char>>, PipelineError>(PipelineError::ToolFailed),
            spec_leave(s),
        ),
        spec_post_steps(s, paths, other, i, acc) == spec_post_steps(s, paths, outcomes, i, acc),
    decreases j - i,
{
    if i < j {
        lemma_post_steps_abort(s, paths, outcomes, other, j, i + 1, acc.push(paths[i]));
    }
}

/// Law (partial post-process abort): when every style before position `j`
/// succeeds and the tool run for the style at position `j` fails, the whole
/// operation reports the tool failure, the recorded last output keeps its
/// prior value, and no style after position `j` is ever invoked: the result
/// is the same for any outcomes past that position.
pub proof fn lemma_post_process_abort(
    s: WorkflowView,
    paths: Seq<Seq<char>>,
    outcomes: Seq<InvokeResult>,
    other: Seq<InvokeResult>,
    j: int,
)
    requires
        s.stage == Stage::Idle,
        s.last_raw.len() > 0,
        paths.len() == outcomes.len(),
        other.len() == outcomes.len(),
        0 <= j < outcomes.len(),
        forall|k: int| 0 <= k < j ==> (#[trigger] outcomes[k]) matches InvokeResult::Completed(
            ToolOutcome::Success(_),
        ),
        outcomes[j] matches InvokeResult::Completed(ToolOutcome::Failure(_)),
        forall|k: int| 0 <= k <= j ==> other[k] == outcomes[k],
    ensures
        spec_post_process(s, paths, outcomes).0 == Err::<Seq<Seq<char>>, PipelineError>(
            PipelineError::ToolFailed,
        ),
        spec_post_process(s, paths, outcomes).1.last_output == s.last_output,
        spec_post_process(s, paths, outcomes).1.stage == Stage::Idle,
        spec_post_process(s, paths, other) == spec_post_process(s, paths, outcomes),
{
    let s1 = WorkflowView { stage: Stage::PostProcessing, ..s };
    lemma_post_steps_abort(s1, paths, outcomes, other, j, 0, Seq::empty());
}

proof fn lemma_post_steps_success(
    s: WorkflowView,
    paths: Seq<Seq<char>>,
    outcomes: Seq<InvokeResult>,
    i: int,
    acc: Seq<Seq<char>>,
)
    requires
        paths.len() == outcomes.len(),
        0 <= i < paths.len(),
        forall|k: int| i <= k < outcomes.len() ==> (#[trigger] outcomes[k]) matches InvokeResult::Completed(
            ToolOutcome::Success(_),
        ),
    ensures
        spec_post_steps(s, paths, outcomes, i, acc) == (
            Ok::<Seq<Seq<char>>, PipelineError>(acc + paths.skip(i)),
            WorkflowView { stage: Stage::Idle, last_output: paths.last(), ..s },
        ),
    decreases paths.len() - i,
{
    if i + 1 == paths.len() {
        assert(acc.push(paths[i]) =~= acc + paths.skip(i));
    } else {
        lemma_post_steps_success(s, paths, outcomes, i + 1, acc.push(paths[i]));
        assert(acc.push(paths[i]) + paths.skip(i + 1) =~= acc + paths.skip(i));
    }
}

/// Law (full success): when every style's tool run succeeds, post-processing
/// returns exactly the allocated output paths, in style order, and records
/// the last style's path as the last output.
pub proof fn lemma_post_process_success(
    s: WorkflowView,
    paths: Seq<Seq<char>>,
    outcomes: Seq<InvokeResult>,
)
    requires
        s.stage == Stage::Idle,
        s.last_raw.len() > 0,
        paths.len() == outcomes.len(),
        paths.len() > 0,
        forall|k: int| 0 <= k < outcomes.len() ==> (#[trigger] outcomes[k]) matches InvokeResult::Completed(
            ToolOutcome::Success(_),
        ),
    ensures
        spec_post_process(s, paths, outcomes) == (
            Ok::<Seq<Seq<char>>, PipelineError>(paths),
            WorkflowView { stage: Stage::Idle, last_output: paths.last(), ..s },
        ),
{
    let s1 = WorkflowView { stage: Stage::PostProcessing, ..s };
    lemma_post_steps_success(s1, paths, outcomes, 0, Seq::empty());
    assert(Seq::<Seq<char>>::empty() + paths.skip(0) =~= paths);
    assert((WorkflowView { stage: Stage::Idle, last_output: paths.last(), ..s1 }) == (
        WorkflowView { stage: Stage::Idle, last_output: paths.last(), ..s }
    ));
}

/// Law (finalize round trip, recorded state): once finalization records the
/// aliased path, the result query returns exactly that path, and the other
/// slots and the stage are untouched.
pub proof fn lemma_finalize_then_result(s: WorkflowView, final_path: Seq<char>)
    ensures
        spec_finalize(s, final_path, true).1.last_final == final_path,
        spec_finalize(s, final_path, true).0 == Ok::<Seq<char>, PipelineError>(final_path),
        spec_finalize(s, final_path, true).1.stage == s.stage,
        spec_finalize(s, final_path, true).1.last_raw == s.last_raw,
        spec_finalize(s, final_path, true).1.last_output == s.last_output,
        spec_finalize(s, final_path, false) == (
            Err::<Seq<char>, PipelineError>(PipelineError::Internal),
            s,
        ),
{
}

} // verus!
