use photobooth::coordinator::Coordinator;
use photobooth::coordinator::PostStep;
use photobooth::coordinator::final_prefix;
use photobooth::coordinator::image_suffix;
use photobooth::coordinator::output_prefix_for;
use photobooth::coordinator::raw_prefix;
use photobooth::coordinator::selection_target;
use photobooth::coordinator::style_profile;
use photobooth::error::PipelineError;
use photobooth::invoker::InvokeResult;
use photobooth::invoker::ToolOutcome;
use photobooth::invoker::capture_args;
use photobooth::invoker::capture_tool;
use photobooth::invoker::classify;
use photobooth::invoker::process_args;
use photobooth::invoker::process_tool;
use photobooth::state::Stage;
use photobooth::state::WorkflowState;

fn success() -> InvokeResult {
    InvokeResult::Completed(ToolOutcome::Success("captured".to_string()))
}

fn failure() -> InvokeResult {
    InvokeResult::Completed(ToolOutcome::Failure("tool exited 1".to_string()))
}

fn launch_failed() -> InvokeResult {
    InvokeResult::LaunchFailed("binary missing".to_string())
}

fn styles_abc() -> Vec<String> {
    vec!["a".to_string(), "b".to_string(), "c".to_string()]
}

#[test]
fn classify_goes_by_exit_status_alone() {
    assert!(matches!(
        classify(true, "out".to_string(), "err".to_string()),
        ToolOutcome::Success(s) if s == "out"
    ));
    assert!(matches!(
        classify(false, "out".to_string(), "err".to_string()),
        ToolOutcome::Failure(s) if s == "err"
    ));
}

#[test]
fn invocation_profiles() {
    assert_eq!(capture_tool(), "gphoto2");
    assert_eq!(
        capture_args("images/raw_output4.jpg"),
        vec![
            "--auto-detect".to_string(),
            "--capture-image-and-download".to_string(),
            "--filename".to_string(),
            "images/raw_output4.jpg".to_string(),
        ]
    );
    assert_eq!(process_tool(), "darktable-cli");
    assert_eq!(
        process_args("images/raw_output4.jpg", "style_a.xmp", "images/output_a0.jpg"),
        vec![
            "images/raw_output4.jpg".to_string(),
            "style_a.xmp".to_string(),
            "images/output_a0.jpg".to_string(),
        ]
    );
}

#[test]
fn sequence_names() {
    assert_eq!(raw_prefix(), "images/raw_output");
    assert_eq!(final_prefix(), "images/final_output");
    assert_eq!(image_suffix(), ".jpg");
    assert_eq!(output_prefix_for("a"), "images/output_a");
    assert_eq!(style_profile("a"), "style_a.xmp");
}

#[test]
fn workflow_state_try_enter_is_exclusive() {
    let mut s = WorkflowState::new();
    assert_eq!(s.stage(), Stage::Idle);
    assert!(s.try_enter(Stage::Capturing));
    assert_eq!(s.stage(), Stage::Capturing);
    assert!(!s.try_enter(Stage::Capturing));
    assert!(!s.try_enter(Stage::PostProcessing));
    assert_eq!(s.stage(), Stage::Capturing);
    s.leave();
    assert_eq!(s.stage(), Stage::Idle);
}

#[test]
fn capture_mutual_exclusion() {
    // Two capture attempts against an initially idle coordinator: exactly one
    // enters, the other observes busy; after both complete, the stage is idle.
    let mut c = Coordinator::new();
    assert!(c.capture_begin().is_ok());
    assert_eq!(c.capture_begin(), Err(PipelineError::Busy));
    assert_eq!(c.stage(), Stage::Capturing);
    let r = c.capture_finish("images/raw_output0.jpg".to_string(), &success());
    assert_eq!(r, Ok("images/raw_output0.jpg".to_string()));
    assert_eq!(c.stage(), Stage::Idle);
}

#[test]
fn capture_success_records_last_raw() {
    let mut c = Coordinator::new();
    assert!(c.capture_begin().is_ok());
    let r = c.capture_finish("images/raw_output0.jpg".to_string(), &success());
    assert_eq!(r, Ok("images/raw_output0.jpg".to_string()));
    assert_eq!(c.last_raw(), "images/raw_output0.jpg");
}

#[test]
fn capture_failure_records_nothing() {
    let mut c = Coordinator::new();
    assert!(c.capture_begin().is_ok());
    let r = c.capture_finish("images/raw_output0.jpg".to_string(), &failure());
    assert_eq!(r, Err(PipelineError::ToolFailed));
    assert_eq!(c.last_raw(), "");
    assert_eq!(c.stage(), Stage::Idle);
}

#[test]
fn capture_launch_failure_is_internal() {
    let mut c = Coordinator::new();
    assert!(c.capture_begin().is_ok());
    let r = c.capture_finish("images/raw_output0.jpg".to_string(), &launch_failed());
    assert_eq!(r, Err(PipelineError::Internal));
    assert_eq!(c.last_raw(), "");
    assert_eq!(c.stage(), Stage::Idle);
}

fn captured_coordinator() -> Coordinator {
    let mut c = Coordinator::new();
    c.capture_begin().unwrap();
    c.capture_finish("images/raw_output0.jpg".to_string(), &success())
        .unwrap();
    c
}

#[test]
fn stage_released_for_every_outcome_combination() {
    // Capture, then post-process with two styles, over every combination of
    // per-run success and failure: the stage is idle after each operation.
    for capture_ok in [true, false] {
        for first_ok in [true, false] {
            for second_ok in [true, false] {
                let mut c = Coordinator::new();
                c.capture_begin().unwrap();
                let outcome = if capture_ok { success() } else { failure() };
                let _ = c.capture_finish("images/raw_output0.jpg".to_string(), &outcome);
                assert_eq!(c.stage(), Stage::Idle);
                if !capture_ok {
                    continue;
                }
                let styles = vec!["a".to_string(), "b".to_string()];
                let mut job = c.post_begin(styles).unwrap();
                let first = if first_ok { success() } else { failure() };
                let step = c.post_step(&mut job, "images/output_a0.jpg".to_string(), &first);
                if first_ok {
                    assert_eq!(step, PostStep::Continue);
                    let second = if second_ok { success() } else { failure() };
                    let _ = c.post_step(&mut job, "images/output_b0.jpg".to_string(), &second);
                } else {
                    assert_eq!(step, PostStep::Abort(PipelineError::ToolFailed));
                }
                assert_eq!(c.stage(), Stage::Idle);
            }
        }
    }
}

#[test]
fn post_process_before_capture_is_refused() {
    // The input artifact reference is empty: a precondition failure, no job
    // is created and no tool can be invoked.
    let mut c = Coordinator::new();
    let r = c.post_begin(styles_abc());
    assert!(matches!(r, Err(PipelineError::Precondition)));
    assert_eq!(c.stage(), Stage::Idle);
}

#[test]
fn post_process_with_no_styles_is_refused() {
    let mut c = captured_coordinator();
    let r = c.post_begin(Vec::new());
    assert!(matches!(r, Err(PipelineError::Precondition)));
    assert_eq!(c.stage(), Stage::Idle);
}

#[test]
fn post_process_is_refused_while_capturing() {
    let mut c = captured_coordinator();
    c.capture_begin().unwrap();
    let r = c.post_begin(styles_abc());
    assert!(matches!(r, Err(PipelineError::Busy)));
    assert_eq!(c.stage(), Stage::Capturing);
}

#[test]
fn post_process_full_success_records_last_output() {
    let mut c = captured_coordinator();
    let mut job = c.post_begin(styles_abc()).unwrap();
    assert_eq!(job.input(), "images/raw_output0.jpg");
    assert_eq!(job.current_style(), "a");
    assert_eq!(
        c.post_step(&mut job, "images/output_a0.jpg".to_string(), &success()),
        PostStep::Continue
    );
    assert_eq!(job.current_style(), "b");
    assert_eq!(
        c.post_step(&mut job, "images/output_b0.jpg".to_string(), &success()),
        PostStep::Continue
    );
    assert_eq!(job.current_style(), "c");
    assert_eq!(
        c.post_step(&mut job, "images/output_c0.jpg".to_string(), &success()),
        PostStep::Complete
    );
    assert!(job.is_done());
    assert_eq!(
        job.into_produced(),
        vec![
            "images/output_a0.jpg".to_string(),
            "images/output_b0.jpg".to_string(),
            "images/output_c0.jpg".to_string(),
        ]
    );
    assert_eq!(c.last_output(), "images/output_c0.jpg");
    assert_eq!(c.stage(), Stage::Idle);
}

#[test]
fn post_process_aborts_on_first_failure() {
    // Styles [a, b, c] where b's tool run fails: one output produced for a,
    // none for b or c, a tool-failure result, and the last output keeps its
    // prior value.
    let mut c = captured_coordinator();

    // A first, fully successful run gives last_output a prior value.
    let mut first = c.post_begin(vec!["a".to_string()]).unwrap();
    assert_eq!(
        c.post_step(&mut first, "images/output_a0.jpg".to_string(), &success()),
        PostStep::Complete
    );
    assert_eq!(c.last_output(), "images/output_a0.jpg");

    let mut job = c.post_begin(styles_abc()).unwrap();
    assert_eq!(
        c.post_step(&mut job, "images/output_a1.jpg".to_string(), &success()),
        PostStep::Continue
    );
    assert_eq!(
        c.post_step(&mut job, "images/output_b0.jpg".to_string(), &failure()),
        PostStep::Abort(PipelineError::ToolFailed)
    );
    // The operation is over: style c is never reached, only a's output was
    // produced, and it was not promoted into the workflow state.
    assert_eq!(c.stage(), Stage::Idle);
    assert!(!job.is_done());
    assert_eq!(job.into_produced(), vec!["images/output_a1.jpg".to_string()]);
    assert_eq!(c.last_output(), "images/output_a0.jpg");
}

#[test]
fn post_process_abort_on_launch_failure_is_internal() {
    let mut c = captured_coordinator();
    let mut job = c.post_begin(styles_abc()).unwrap();
    assert_eq!(
        c.post_step(&mut job, "images/output_a0.jpg".to_string(), &launch_failed()),
        PostStep::Abort(PipelineError::Internal)
    );
    assert_eq!(c.stage(), Stage::Idle);
    assert_eq!(c.last_output(), "");
}

#[test]
fn selection_target_resolves_against_cwd() {
    assert_eq!(
        selection_target("/srv/booth", "images/output_a5.jpg"),
        Ok("/srv/booth/images/output_a5.jpg".to_string())
    );
}

#[test]
fn selection_target_rejects_empty_selection() {
    assert_eq!(selection_target("/srv/booth", ""), Err(PipelineError::Precondition));
}

#[test]
fn finalize_records_alias_and_result_returns_it() {
    // The selection images/output_a5.jpg is aliased under the next finalized
    // name; the result query then returns exactly that new path.
    let mut c = Coordinator::new();
    let target = selection_target("/srv/booth", "images/output_a5.jpg").unwrap();
    assert_eq!(target, "/srv/booth/images/output_a5.jpg");
    let r = c.finalize_outcome("images/final_output3.jpg".to_string(), true);
    assert_eq!(r, Ok("images/final_output3.jpg".to_string()));
    assert_eq!(c.get_result(), "images/final_output3.jpg");
    assert_eq!(c.stage(), Stage::Idle);
}

#[test]
fn finalize_alias_failure_records_nothing() {
    let mut c = Coordinator::recovered("images/final_output2.jpg".to_string());
    let r = c.finalize_outcome("images/final_output3.jpg".to_string(), false);
    assert_eq!(r, Err(PipelineError::Internal));
    assert_eq!(c.get_result(), "images/final_output2.jpg");
}

#[test]
fn recovered_coordinator_reports_prior_final() {
    let c = Coordinator::recovered("images/final_output7.jpg".to_string());
    assert_eq!(c.get_result(), "images/final_output7.jpg");
    assert_eq!(c.stage(), Stage::Idle);
    assert_eq!(c.last_raw(), "");
    assert_eq!(c.last_output(), "");
}
