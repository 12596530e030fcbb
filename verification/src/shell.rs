use crate::text::to_chars;
use vstd::prelude::*;
use vstd::string::StringExecFns;

verus! {

/// What stands for one character inside single quotes of a shell command: a
/// single quote closes the quotes, stands escaped, and opens them again.
pub open spec fn escaped_char(c: char) -> Seq<char> {
    if c == '\'' {
        seq!['\'', '\\', '\'', '\'']
    } else {
        seq![c]
    }
}

/// A text with each of its characters written for single quotes.
pub open spec fn escaped(s: Seq<char>) -> Seq<char>
    decreases s.len(),
{
    if s.len() == 0 {
        Seq::empty()
    } else {
        escaped(s.drop_last()) + escaped_char(s.last())
    }
}

/// A text between single quotes, escaped for them.
pub open spec fn quoted(s: Seq<char>) -> Seq<char> {
    seq!['\''] + escaped(s) + seq!['\'']
}

/// Writes a text so that it can stand between single quotes in a shell
/// command.
pub fn escape_single_quote(value: &str) -> (r: String)
    ensures
        r@ == escaped(value@),
{
    let chars = to_chars(value);
    let mut r = String::new();
    let mut i: usize = 0;
    while i < chars.len()
        invariant
            i <= chars.len(),
            r@ == escaped(chars@.take(i as int)),
        decreases chars.len() - i,
    {
        let ghost before = r@;
        let c = chars[i];
        if c == '\'' {
            r.push('\'');
            r.push('\\');
            r.push('\'');
            r.push('\'');
        } else {
            r.push(c);
        }
        i += 1;
        proof {
            assert(r@ =~= before + escaped_char(c));
            assert(chars@.take(i as int).drop_last() =~= chars@.take(i - 1));
        }
    }
    assert(chars@.take(i as int) =~= chars@);
    r
}

/// Appends a text between single quotes, escaped for them.
pub(crate) fn push_quoted(command: &mut String, value: &str)
    ensures
        final(command)@ == old(command)@ + quoted(value@),
{
    let ghost before = command@;
    let inner = escape_single_quote(value);
    command.push('\'');
    command.append(inner.as_str());
    command.push('\'');
    assert(command@ =~= before + quoted(value@));
}

/// The argument that names the container to the build tool: the workspace
/// where there is one, else the project, else none.
pub open spec fn target_argument(workspace: Option<Seq<char>>, xcodeproj: Option<Seq<char>>)
    -> Option<Seq<char>> {
    match workspace {
        Some(ws) => Some("-workspace "@ + quoted(ws)),
        None => match xcodeproj {
            Some(proj) => Some("-project "@ + quoted(proj)),
            None => None,
        },
    }
}

/// The shell command that asks the build tool, in the directory `root`, to
/// list the schemes of the container; none without a container.
pub open spec fn list_command_text(
    root: Seq<char>,
    workspace: Option<Seq<char>>,
    xcodeproj: Option<Seq<char>>,
) -> Option<Seq<char>> {
    match target_argument(workspace, xcodeproj) {
        Some(target) => Some("cd "@ + quoted(root) + " && xcodebuild -list "@ + target),
        None => None,
    }
}

/// The shell command that asks the build tool, in the directory `root`, to
/// show the build settings of `scheme` in the container; none without a
/// container.
pub open spec fn settings_command_text(
    root: Seq<char>,
    workspace: Option<Seq<char>>,
    xcodeproj: Option<Seq<char>>,
    scheme: Seq<char>,
) -> Option<Seq<char>> {
    match target_argument(workspace, xcodeproj) {
        Some(target) => Some(
            "cd "@ + quoted(root) + " && xcodebuild -showBuildSettings "@ + target + " -scheme "@
                + quoted(scheme),
        ),
        None => None,
    }
}

/// Appends the argument that names the container, and says whether there
/// was a container to name.
fn push_target(command: &mut String, workspace: Option<&str>, xcodeproj: Option<&str>) -> (named:
    bool)
    ensures
        named == target_argument(workspace.deep_view(), xcodeproj.deep_view()) is Some,
        named ==> final(command)@ == old(command)@ + target_argument(
            workspace.deep_view(),
            xcodeproj.deep_view(),
        )->0,
        !named ==> final(command)@ == old(command)@,
{
    let ghost before = command@;
    match workspace {
        Some(ws) => {
            command.append("-workspace ");
            push_quoted(command, ws);
            assert(command@ =~= before + ("-workspace "@ + quoted(ws@)));
            true
        },
        None => match xcodeproj {
            Some(proj) => {
                command.append("-project ");
                push_quoted(command, proj);
                assert(command@ =~= before + ("-project "@ + quoted(proj@)));
                true
            },
            None => false,
        },
    }
}

/// Builds the shell command that lists the schemes of the workspace, or of
/// the project where there is no workspace.
pub fn list_command(root: &str, workspace: Option<&str>, xcodeproj: Option<&str>) -> (r: Option<
    String,
>)
    ensures
        r.deep_view() == list_command_text(root@, workspace.deep_view(), xcodeproj.deep_view()),
{
    let mut command = String::new();
    command.append("cd ");
    push_quoted(&mut command, root);
    command.append(" && xcodebuild -list ");
    let ghost head = command@;
    assert(head =~= "cd "@ + quoted(root@) + " && xcodebuild -list "@);
    if push_target(&mut command, workspace, xcodeproj) {
        Some(command)
    } else {
        None
    }
}

/// Builds the shell command that shows the build settings of `scheme` in the
/// workspace, or in the project where there is no workspace.
pub fn settings_command(
    root: &str,
    workspace: Option<&str>,
    xcodeproj: Option<&str>,
    scheme: &str,
) -> (r: Option<String>)
    ensures
        r.deep_view() == settings_command_text(
            root@,
            workspace.deep_view(),
            xcodeproj.deep_view(),
            scheme@,
        ),
{
    let mut command = String::new();
    command.append("cd ");
    push_quoted(&mut command, root);
    command.append(" && xcodebuild -showBuildSettings ");
    let ghost head = command@;
    assert(head =~= "cd "@ + quoted(root@) + " && xcodebuild -showBuildSettings "@);
    if push_target(&mut command, workspace, xcodeproj) {
        let ghost middle = command@;
        command.append(" -scheme ");
        push_quoted(&mut command, scheme);
        assert(command@ =~= middle + " -scheme "@ + quoted(scheme@));
        Some(command)
    } else {
        None
    }
}

} // verus!
