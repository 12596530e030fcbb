use crate::text::{to_chars, trim, trimmed};
use vstd::prelude::*;
use vstd::string::StringExecFns;

verus! {

/// The settings of one project, as they are kept in its profile.
#[derive(Clone, Debug, PartialEq, Eq)]
pub struct ProjectConfig {
    pub project_path: String,
    pub workspace: String,
    pub xcodeproj: String,
    pub scheme_dev: String,
    pub scheme_dis: String,
    pub bundle_id_dev: String,
    pub bundle_id_dis: String,
    pub team_id: String,
    pub signing_style: String,
    pub match_git_url: String,
    pub match_git_branch: String,
    pub pgyer_api_key: String,
    pub app_store_connect_api_key_path: String,
    pub enable_quality_gate: bool,
    pub enable_tests: bool,
    pub enable_swiftlint: bool,
    pub enable_snapshot: bool,
    pub metadata_path: String,
}

/// How a switch is written in the environment file.
pub open spec fn switch_text(on: bool) -> Seq<char> {
    if on {
        "true"@
    } else {
        "false"@
    }
}

/// The team as the environment file names it: the team id as it stands, or
/// a placeholder where the id is blank.
pub open spec fn team_text(team_id: Seq<char>) -> Seq<char> {
    if trimmed(team_id).len() == 0 {
        "TODO_TEAM_ID"@
    } else {
        team_id
    }
}

/// The text of the environment file for a profile: one `NAME=value` line for
/// each setting, with a line feed between two lines and none at the end.
pub open spec fn env_text(config: ProjectConfig) -> Seq<char> {
    "SCHEME_DEV="@ + config.scheme_dev@ + "\nSCHEME_DIS="@ + config.scheme_dis@
        + "\nBUNDLE_ID_DEV="@ + config.bundle_id_dev@ + "\nBUNDLE_ID_DIS="@ + config.bundle_id_dis@
        + "\nTEAM_ID="@ + team_text(config.team_id@) + "\nSIGNING_STYLE="@ + config.signing_style@
        + "\nMATCH_GIT_URL="@ + config.match_git_url@ + "\nMATCH_GIT_BRANCH="@
        + config.match_git_branch@ + "\nPGYER_API_KEY="@ + config.pgyer_api_key@
        + "\nAPP_STORE_CONNECT_API_KEY_PATH="@ + config.app_store_connect_api_key_path@
        + "\nENABLE_QUALITY_GATE="@ + switch_text(config.enable_quality_gate) + "\nENABLE_TESTS="@
        + switch_text(config.enable_tests) + "\nENABLE_SWIFTLINT="@ + switch_text(
        config.enable_swiftlint,
    ) + "\nENABLE_SNAPSHOT="@ + switch_text(config.enable_snapshot) + "\nMETADATA_PATH="@
        + config.metadata_path@
}

/// Appends a label and the text of a switch.
fn push_switch(out: &mut String, label: &str, on: bool)
    ensures
        final(out)@ == old(out)@ + label@ + switch_text(on),
{
    out.append(label);
    if on {
        out.append("true");
    } else {
        out.append("false");
    }
}

/// Appends a label and a value.
fn push_pair(out: &mut String, label: &str, value: &str)
    ensures
        final(out)@ == old(out)@ + label@ + value@,
{
    out.append(label);
    out.append(value);
}

/// Writes the environment file for a profile.
pub fn render_env(config: &ProjectConfig) -> (r: String)
    ensures
        r@ == env_text(*config),
{
    let team = to_chars(config.team_id.as_str());
    let team_blank = trim(&team).len() == 0;
    let mut out = String::new();
    out.append("SCHEME_DEV=");
    out.append(config.scheme_dev.as_str());
    assert(out@ =~= "SCHEME_DEV="@ + config.scheme_dev@);
    push_pair(&mut out, "\nSCHEME_DIS=", config.scheme_dis.as_str());
    push_pair(&mut out, "\nBUNDLE_ID_DEV=", config.bundle_id_dev.as_str());
    push_pair(&mut out, "\nBUNDLE_ID_DIS=", config.bundle_id_dis.as_str());
    if team_blank {
        push_pair(&mut out, "\nTEAM_ID=", "TODO_TEAM_ID");
    } else {
        push_pair(&mut out, "\nTEAM_ID=", config.team_id.as_str());
    }
    push_pair(&mut out, "\nSIGNING_STYLE=", config.signing_style.as_str());
    push_pair(&mut out, "\nMATCH_GIT_URL=", config.match_git_url.as_str());
    push_pair(&mut out, "\nMATCH_GIT_BRANCH=", config.match_git_branch.as_str());
    push_pair(&mut out, "\nPGYER_API_KEY=", config.pgyer_api_key.as_str());
    push_pair(
        &mut out,
        "\nAPP_STORE_CONNECT_API_KEY_PATH=",
        config.app_store_connect_api_key_path.as_str(),
    );
    push_switch(&mut out, "\nENABLE_QUALITY_GATE=", config.enable_quality_gate);
    push_switch(&mut out, "\nENABLE_TESTS=", config.enable_tests);
    push_switch(&mut out, "\nENABLE_SWIFTLINT=", config.enable_swiftlint);
    push_switch(&mut out, "\nENABLE_SNAPSHOT=", config.enable_snapshot);
    push_pair(&mut out, "\nMETADATA_PATH=", config.metadata_path.as_str());
    out
}

/// The text of the note that is left beside the environment file. Its
/// lines end with a backslash and the letter `n`.
pub open spec fn note_text(config: ProjectConfig) -> Seq<char> {
    "# Generated by iOS Fastlane Desktop\\n\\n- signing_style: "@ + config.signing_style@
        + "\\n- scheme_dev: "@ + config.scheme_dev@ + "\\n- scheme_dis: "@ + config.scheme_dis@
        + "\\n"@
}

/// Writes the note that is left beside the environment file.
pub fn render_note(config: &ProjectConfig) -> (r: String)
    ensures
        r@ == note_text(*config),
{
    let mut out = String::new();
    out.append("# Generated by iOS Fastlane Desktop\\n\\n- signing_style: ");
    out.append(config.signing_style.as_str());
    out.append("\\n- scheme_dev: ");
    out.append(config.scheme_dev.as_str());
    out.append("\\n- scheme_dis: ");
    out.append(config.scheme_dis.as_str());
    out.append("\\n");
    assert(out@ =~= note_text(*config));
    out
}

/// The message that names the two files that were written.
pub open spec fn generated_text(env_file: Seq<char>, note_file: Seq<char>) -> Seq<char> {
    "Generated files:\\n- "@ + env_file + "\\n- "@ + note_file
}

/// Writes the message that names the two files that were written.
pub fn generated_message(env_file: &str, note_file: &str) -> (r: String)
    ensures
        r@ == generated_text(env_file@, note_file@),
{
    let mut out = String::new();
    out.append("Generated files:\\n- ");
    out.append(env_file);
    out.append("\\n- ");
    out.append(note_file);
    assert(out@ =~= generated_text(env_file@, note_file@));
    out
}

} // verus!
