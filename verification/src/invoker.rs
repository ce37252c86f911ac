//! External tool invoker: outcome classification and invocation profiles.
//!
//! The external processes themselves (the camera-tether tool and the
//! image-processing tool) are spawned by the surrounding application; this
//! module fixes what is handed to them — the executable names and the exact
//! argument vectors — and how a completed run is classified, solely by its
//! exit status.

use vstd::prelude::*;
use vstd::string::*;

verus! {

/// The domain result of a tool run that completed: zero exit status carries
/// the captured standard output, non-zero the captured standard error. The
/// captured text is diagnostic only and never drives a control decision.
#[derive(Debug)]
pub enum ToolOutcome {
    Success(String),
    Failure(String),
}

/// The result of attempting a tool run. Failing to even launch the process
/// (binary missing, exec error) is kept distinct from a run that completed
/// with a non-zero exit; the carried text describes the launch error.
#[derive(Debug)]
pub enum InvokeResult {
    Completed(ToolOutcome),
    LaunchFailed(String),
}

/// Classifies a completed run solely by its exit status: zero exit means
/// success with the captured standard output, non-zero means failure with
/// the captured standard error.
pub fn classify(exit_zero: bool, stdout_text: String, stderr_text: String) -> (r: ToolOutcome)
    ensures
        r == if exit_zero {
            ToolOutcome::Success(stdout_text)
        } else {
            ToolOutcome::Failure(stderr_text)
        },
{
    if exit_zero {
        ToolOutcome::Success(stdout_text)
    } else {
        ToolOutcome::Failure(stderr_text)
    }
}

/// The camera-tether executable.
pub fn capture_tool() -> (r: String)
    ensures
        r@ == "gphoto2"@,
{
    String::from_str("gphoto2")
}

/// The image-processing executable.
pub fn process_tool() -> (r: String)
    ensures
        r@ == "darktable-cli"@,
{
    String::from_str("darktable-cli")
}

/// The capture profile: auto-detect the camera, then capture an image and
/// download it to the target path.
pub fn capture_args(target: &str) -> (r: Vec<String>)
    ensures
        r@.len() == 4,
        r@[0]@ == "--auto-detect"@,
        r@[1]@ == "--capture-image-and-download"@,
        r@[2]@ == "--filename"@,
        r@[3]@ == target@,
{
    let mut args: Vec<String> = Vec::new();
    args.push(String::from_str("--auto-detect"));
    args.push(String::from_str("--capture-image-and-download"));
    args.push(String::from_str("--filename"));
    args.push(String::from_str(target));
    args
}

/// The process profile: the input path, the style/profile file and the
/// output path, in that order.
pub fn process_args(input: &str, style_file: &str, output: &str) -> (r: Vec<String>)
    ensures
        r@.len() == 3,
        r@[0]@ == input@,
        r@[1]@ == style_file@,
        r@[2]@ == output@,
{
    let mut args: Vec<String> = Vec::new();
    args.push(String::from_str(input));
    args.push(String::from_str(style_file));
    args.push(String::from_str(output));
    args
}

} // verus!
