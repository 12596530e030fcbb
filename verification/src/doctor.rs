use crate::shell::{push_quoted, quoted};
use crate::text::{is_blank, lemma_trimmed_empty, to_chars, to_string, trim, trimmed};
use crate::tool::ToolOutput;
use vstd::prelude::*;
use vstd::string::StringExecFns;

verus! {

/// The outcome of one check of the machine's tools.
#[derive(Clone, Debug, PartialEq, Eq)]
pub struct DoctorCheck {
    pub name: String,
    pub status: String,
    pub detail: String,
    pub suggestion: Option<String>,
}

/// The outcomes of all checks.
#[derive(Clone, Debug, PartialEq, Eq)]
pub struct DoctorReport {
    pub checks: Vec<DoctorCheck>,
}

/// One command that the doctor runs: a program with its arguments, under a
/// name, with the advice to give where it fails.
#[derive(Clone, Debug, PartialEq, Eq)]
pub struct DoctorCommand {
    pub name: String,
    pub program: String,
    pub args: Vec<String>,
    pub suggestion: Option<String>,
}

/// An outcome, with texts in place of strings.
pub ghost struct CheckView {
    pub name: Seq<char>,
    pub status: Seq<char>,
    pub detail: Seq<char>,
    pub suggestion: Option<Seq<char>>,
}

impl DeepView for DoctorCheck {
    type V = CheckView;

    open spec fn deep_view(&self) -> CheckView {
        CheckView {
            name: self.name@,
            status: self.status@,
            detail: self.detail@,
            suggestion: self.suggestion.deep_view(),
        }
    }
}

/// A text, or `fallback` where the text is empty.
pub open spec fn text_or(text: Seq<char>, fallback: Seq<char>) -> Seq<char> {
    if text.len() > 0 {
        text
    } else {
        fallback
    }
}

/// The outcome of a check, given what its command gave or why it could not
/// be started. A command that succeeds passes, with what it wrote to its
/// standard output as the detail, or `ok`. One that fails warns, with what it
/// wrote to its standard error, else to its standard output, else
/// `command failed`, and with the advice. One that could not be started warns
/// with the reason and the advice.
pub open spec fn check_of(
    name: Seq<char>,
    run: Result<ToolOutput, String>,
    suggestion: Option<Seq<char>>,
) -> CheckView {
    match run {
        Ok(output) => {
            let stdout = trimmed(output.stdout@);
            let stderr = trimmed(output.stderr@);
            if output.success {
                CheckView {
                    name,
                    status: "pass"@,
                    detail: text_or(stdout, "ok"@),
                    suggestion: None,
                }
            } else {
                CheckView {
                    name,
                    status: "warn"@,
                    detail: text_or(stderr, text_or(stdout, "command failed"@)),
                    suggestion,
                }
            }
        },
        Err(reason) => CheckView {
            name,
            status: "warn"@,
            detail: "failed to execute: "@ + reason@,
            suggestion,
        },
    }
}

/// An owned copy of an optional text.
fn owned(text: Option<&str>) -> (r: Option<String>)
    ensures
        r.deep_view() == text.deep_view(),
{
    match text {
        Some(t) => Some(t.to_owned()),
        None => None,
    }
}

/// A text without the white space around it.
fn trimmed_string(text: &str) -> (r: String)
    ensures
        r@ == trimmed(text@),
{
    to_string(&trim(&to_chars(text)))
}

/// Judges one check by what its command gave.
pub fn check_cmd(name: &str, run: &Result<ToolOutput, String>, suggestion: Option<&str>) -> (r:
    DoctorCheck)
    ensures
        r.deep_view() == check_of(name@, *run, suggestion.deep_view()),
{
    match run {
        Ok(output) => {
            let stdout = trimmed_string(output.stdout.as_str());
            let stderr = trimmed_string(output.stderr.as_str());
            if output.success {
                let detail = if stdout.as_str().unicode_len() == 0 {
                    "ok".to_owned()
                } else {
                    stdout
                };
                DoctorCheck {
                    name: name.to_owned(),
                    status: "pass".to_owned(),
                    detail,
                    suggestion: None,
                }
            } else {
                let detail = if stderr.as_str().unicode_len() != 0 {
                    stderr
                } else if stdout.as_str().unicode_len() != 0 {
                    stdout
                } else {
                    "command failed".to_owned()
                };
                DoctorCheck {
                    name: name.to_owned(),
                    status: "warn".to_owned(),
                    detail,
                    suggestion: owned(suggestion),
                }
            }
        },
        Err(reason) => {
            let mut detail = String::new();
            detail.append("failed to execute: ");
            detail.append(reason.as_str());
            assert(detail@ =~= "failed to execute: "@ + reason@);
            DoctorCheck {
                name: name.to_owned(),
                status: "warn".to_owned(),
                detail,
                suggestion: owned(suggestion),
            }
        },
    }
}

/// A command, with texts in place of strings.
pub ghost struct CommandView {
    pub name: Seq<char>,
    pub program: Seq<char>,
    pub args: Seq<Seq<char>>,
    pub suggestion: Option<Seq<char>>,
}

impl DeepView for DoctorCommand {
    type V = CommandView;

    open spec fn deep_view(&self) -> CommandView {
        CommandView {
            name: self.name@,
            program: self.program@,
            args: self.args.deep_view(),
            suggestion: self.suggestion.deep_view(),
        }
    }
}

/// A check that hands one line to a login shell.
pub open spec fn shell_check(name: Seq<char>, line: Seq<char>, suggestion: Option<Seq<char>>)
    -> CommandView {
    CommandView { name, program: "/bin/zsh"@, args: seq!["-lc"@, line], suggestion }
}

/// The line that looks for a `Gemfile` in the directory `root`.
pub open spec fn gemfile_line(root: Seq<char>) -> Seq<char> {
    "cd "@ + quoted(root) + " && test -f Gemfile && echo ok"@
}

/// The commands that the doctor runs for the project at `root`, in order.
pub open spec fn doctor_plan(root: Seq<char>) -> Seq<CommandView> {
    seq![
        shell_check("Xcode CLI"@, "xcode-select -p"@, None),
        shell_check("Xcode Build"@, "xcodebuild -version"@, None),
        shell_check("Ruby"@, "ruby -v"@, Some("Install Ruby and ensure it is in PATH."@)),
        shell_check(
            "Bundler"@,
            "bundle -v"@,
            Some("Run `gem install bundler` or ensure Bundler is available."@),
        ),
        shell_check(
            "Fastlane"@,
            "fastlane --version"@,
            Some("Run `bundle install` or install fastlane."@),
        ),
        shell_check(
            "CocoaPods"@,
            "pod --version"@,
            Some("Install CocoaPods if your project depends on Pods."@),
        ),
        shell_check(
            "Gemfile"@,
            gemfile_line(root),
            Some("Create Gemfile to manage fastlane gems consistently."@),
        ),
    ]
}

/// The directory that the doctor looks at: the project's path where one is
/// given and not blank, else the current directory, else `.`.
pub open spec fn doctor_root_text(project_path: Option<Seq<char>>, current_dir: Option<Seq<char>>)
    -> Seq<char> {
    match project_path {
        Some(path) if !is_blank(path) => path,
        _ => match current_dir {
            Some(dir) => dir,
            None => "."@,
        },
    }
}

/// Picks the directory that the doctor looks at.
pub fn doctor_root(project_path: Option<String>, current_dir: Option<String>) -> (root: String)
    ensures
        root@ == doctor_root_text(project_path.deep_view(), current_dir.deep_view()),
{
    if let Some(path) = project_path {
        let chars = to_chars(path.as_str());
        proof {
            lemma_trimmed_empty(chars@);
        }
        if trim(&chars).len() != 0 {
            return path;
        }
    }
    match current_dir {
        Some(dir) => dir,
        None => ".".to_owned(),
    }
}

/// Builds a check that hands one line to a login shell.
fn shell_command(name: &str, line: String, suggestion: Option<&str>) -> (r: DoctorCommand)
    ensures
        r.deep_view() == shell_check(name@, line@, suggestion.deep_view()),
{
    let mut args: Vec<String> = Vec::new();
    args.push("-lc".to_owned());
    args.push(line);
    assert(args.deep_view() =~= seq!["-lc"@, line@]);
    DoctorCommand {
        name: name.to_owned(),
        program: "/bin/zsh".to_owned(),
        args,
        suggestion: owned(suggestion),
    }
}

/// Lists the commands that the doctor runs for the project at `root`.
pub fn doctor_commands(root: &str) -> (commands: Vec<DoctorCommand>)
    ensures
        commands.deep_view() == doctor_plan(root@),
{
    let mut gemfile = String::new();
    gemfile.append("cd ");
    push_quoted(&mut gemfile, root);
    gemfile.append(" && test -f Gemfile && echo ok");
    assert(gemfile@ =~= gemfile_line(root@));
    let mut commands: Vec<DoctorCommand> = Vec::new();
    commands.push(shell_command("Xcode CLI", "xcode-select -p".to_owned(), None));
    commands.push(shell_command("Xcode Build", "xcodebuild -version".to_owned(), None));
    commands.push(
        shell_command("Ruby", "ruby -v".to_owned(), Some("Install Ruby and ensure it is in PATH.")),
    );
    commands.push(
        shell_command(
            "Bundler",
            "bundle -v".to_owned(),
            Some("Run `gem install bundler` or ensure Bundler is available."),
        ),
    );
    commands.push(
        shell_command(
            "Fastlane",
            "fastlane --version".to_owned(),
            Some("Run `bundle install` or install fastlane."),
        ),
    );
    commands.push(
        shell_command(
            "CocoaPods",
            "pod --version".to_owned(),
            Some("Install CocoaPods if your project depends on Pods."),
        ),
    );
    commands.push(
        shell_command(
            "Gemfile",
            gemfile,
            Some("Create Gemfile to manage fastlane gems consistently."),
        ),
    );
    assert(commands.deep_view() =~= doctor_plan(root@));
    commands
}

/// The smaller of two lengths.
pub open spec fn shorter(a: int, b: int) -> int {
    if a <= b {
        a
    } else {
        b
    }
}

/// The outcomes of the commands, each judged by the run at its index; a
/// command without a run has no outcome.
pub open spec fn report_of(commands: Seq<DoctorCommand>, runs: Seq<Result<ToolOutput, String>>)
    -> Seq<CheckView> {
    Seq::new(
        shorter(commands.len() as int, runs.len() as int) as nat,
        |i: int| check_of(commands[i].name@, runs[i], commands[i].suggestion.deep_view()),
    )
}

/// Where each command has its run, the report holds one outcome for each
/// command, in the order of the commands.
pub proof fn lemma_one_check_per_command(
    commands: Seq<DoctorCommand>,
    runs: Seq<Result<ToolOutput, String>>,
)
    requires
        commands.len() == runs.len(),
    ensures
        report_of(commands, runs).len() == commands.len(),
        forall|i: int|
            0 <= i < commands.len() ==> (#[trigger] report_of(commands, runs)[i]) == check_of(
                commands[i].name@,
                runs[i],
                commands[i].suggestion.deep_view(),
            ),
{
}

/// Judges the commands of the doctor by what each gave.
pub fn doctor_check(commands: &Vec<DoctorCommand>, runs: &Vec<Result<ToolOutput, String>>) -> (r:
    Result<DoctorReport, String>)
    ensures
        r is Ok,
        r->Ok_0.checks.deep_view() == report_of(commands@, runs@),
{
    let n = if commands.len() <= runs.len() {
        commands.len()
    } else {
        runs.len()
    };
    let mut checks: Vec<DoctorCheck> = Vec::new();
    let mut i: usize = 0;
    while i < n
        invariant
            i <= n,
            n == shorter(commands.len() as int, runs.len() as int),
            checks.deep_view() =~= report_of(commands@, runs@).take(i as int),
        decreases n - i,
    {
        let ghost before = checks.deep_view();
        let command = &commands[i];
        let suggestion: Option<&str> = match &command.suggestion {
            Some(text) => Some(text.as_str()),
            None => None,
        };
        let check = check_cmd(command.name.as_str(), &runs[i], suggestion);
        checks.push(check);
        assert(checks.deep_view() =~= before.push(report_of(commands@, runs@)[i as int]));
        i += 1;
    }
    assert(report_of(commands@, runs@).take(n as int) =~= report_of(commands@, runs@));
    Ok(DoctorReport { checks })
}

} // verus!
