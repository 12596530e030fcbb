use vstd::prelude::*;

verus! {

/// What one run of a command gave.
#[derive(Clone, Debug, PartialEq, Eq)]
pub struct ToolOutput {
    /// Whether the command ended with success.
    pub success: bool,
    /// The exit code, where the command ended with one.
    pub exit_code: Option<i32>,
    /// What the command wrote to its standard output.
    pub stdout: String,
    /// What the command wrote to its standard error.
    pub stderr: String,
}

} // verus!
