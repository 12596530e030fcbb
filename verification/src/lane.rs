use crate::shell::{push_quoted, quoted};
use crate::tool::ToolOutput;
use vstd::prelude::*;
use vstd::string::StringExecFns;

verus! {

/// What a run of a lane gave.
#[derive(Clone, Debug, PartialEq, Eq)]
pub struct LaneRunResult {
    pub status: String,
    pub exit_code: i32,
    pub output: String,
    pub lane: String,
}

/// The shell command that runs a lane in the project's directory.
pub open spec fn lane_command_text(project_path: Seq<char>, lane: Seq<char>) -> Seq<char> {
    "cd "@ + quoted(project_path) + " && bundle exec fastlane ios "@ + lane
}

/// Builds the shell command that runs a lane in the project's directory.
pub fn lane_command(project_path: &str, lane: &str) -> (command: String)
    ensures
        command@ == lane_command_text(project_path@, lane@),
{
    let mut command = String::new();
    command.append("cd ");
    push_quoted(&mut command, project_path);
    command.append(" && bundle exec fastlane ios ");
    command.append(lane);
    assert(command@ =~= lane_command_text(project_path@, lane@));
    command
}

/// How the end of a run is called.
pub open spec fn status_text(success: bool) -> Seq<char> {
    if success {
        "success"@
    } else {
        "failed"@
    }
}

/// The exit code that is reported: that of the run, or -1 where it ended
/// without one.
pub open spec fn reported_code(exit_code: Option<i32>) -> i32 {
    match exit_code {
        Some(code) => code,
        None => -1i32,
    }
}

/// What is reported of the output: the standard output, a backslash and
/// the letter `n`, and the standard error.
pub open spec fn lane_output_text(output: ToolOutput) -> Seq<char> {
    output.stdout@ + seq!['\\', 'n'] + output.stderr@
}

/// The message for a lane that could not be started.
pub open spec fn lane_failure_text(reason: Seq<char>) -> Seq<char> {
    "Failed to run lane: "@ + reason
}

/// Reports the run of a lane: what the command gave, or the message for a
/// command that could not be started.
pub fn run_lane(lane: String, run: &Result<ToolOutput, String>) -> (r: Result<
    LaneRunResult,
    String,
>)
    ensures
        r is Ok <==> *run is Ok,
        r is Err ==> r->Err_0@ == lane_failure_text(run->Err_0@),
        r is Ok ==> {
            &&& r->Ok_0.status@ == status_text(run->Ok_0.success)
            &&& r->Ok_0.exit_code == reported_code(run->Ok_0.exit_code)
            &&& r->Ok_0.output@ == lane_output_text(run->Ok_0)
            &&& r->Ok_0.lane@ == lane@
        },
{
    match run {
        Ok(output) => {
            let status = if output.success {
                "success".to_owned()
            } else {
                "failed".to_owned()
            };
            let exit_code: i32 = match output.exit_code {
                Some(code) => code,
                None => -1,
            };
            let mut text = String::new();
            text.append(output.stdout.as_str());
            text.push('\\');
            text.push('n');
            text.append(output.stderr.as_str());
            assert(text@ =~= lane_output_text(*output));
            Ok(LaneRunResult { status, exit_code, output: text, lane })
        },
        Err(reason) => {
            let mut message = String::new();
            message.append("Failed to run lane: ");
            message.append(reason.as_str());
            assert(message@ =~= lane_failure_text(reason@));
            Err(message)
        },
    }
}

} // verus!
