use crate::settings::{extract_build_setting, setting_value};
use crate::tool::ToolOutput;
use vstd::prelude::*;

verus! {

/// The identity of a project's two builds.
#[derive(Clone, Debug, PartialEq, Eq)]
pub struct IdentityResult {
    pub bundle_id_dev: Option<String>,
    pub bundle_id_dis: Option<String>,
    pub team_id: Option<String>,
}

/// The four runs of the build tool that the identity is read from. A run is
/// absent where its scheme or a container was missing and where the tool
/// could not be started.
#[derive(Clone, Debug, PartialEq, Eq)]
pub struct IdentityRuns {
    /// The run for the bundle identifier of the development scheme.
    pub bundle_dev: Option<ToolOutput>,
    /// The run for the bundle identifier of the distribution scheme.
    pub bundle_dis: Option<ToolOutput>,
    /// The run for the team of the development scheme.
    pub team_dev: Option<ToolOutput>,
    /// The run for the team of the distribution scheme.
    pub team_dis: Option<ToolOutput>,
}

/// The key of the setting that holds the bundle identifier.
pub open spec fn bundle_key() -> Seq<char> {
    "PRODUCT_BUNDLE_IDENTIFIER"@
}

/// The key of the setting that holds the signing team.
pub open spec fn team_key() -> Seq<char> {
    "DEVELOPMENT_TEAM"@
}

/// The value of the setting `key` that a run gave: that of its standard
/// output where the run succeeded, and none where it failed or is absent.
pub open spec fn setting_of_run(run: Option<ToolOutput>, key: Seq<char>) -> Option<Seq<char>> {
    match run {
        Some(output) => if output.success {
            setting_value(output.stdout@, key)
        } else {
            None
        },
        None => None,
    }
}

/// A run that is absent or failed gives no setting, whatever it wrote.
pub proof fn lemma_failed_run_gives_nothing(run: Option<ToolOutput>, key: Seq<char>)
    requires
        run is None || !run->0.success,
    ensures
        setting_of_run(run, key) is None,
{
}

/// The team in effect: that of the distribution scheme where it has one,
/// else that of the development scheme.
pub open spec fn effective_team(dis: Option<Seq<char>>, dev: Option<Seq<char>>) -> Option<
    Seq<char>,
> {
    match dis {
        Some(team) => Some(team),
        None => dev,
    }
}

/// Reads the setting `key` out of a run of the build tool.
pub fn resolve_build_setting(run: &Option<ToolOutput>, key: &str) -> (r: Option<String>)
    ensures
        r.deep_view() == setting_of_run(*run, key@),
{
    match run {
        Some(output) => {
            if output.success {
                extract_build_setting(output.stdout.as_str(), key)
            } else {
                None
            }
        },
        None => None,
    }
}

/// Reads the bundle identifiers and the team out of the four runs.
pub fn resolve_identity_internal(runs: &IdentityRuns) -> (r: IdentityResult)
    ensures
        r.bundle_id_dev.deep_view() == setting_of_run(runs.bundle_dev, bundle_key()),
        r.bundle_id_dis.deep_view() == setting_of_run(runs.bundle_dis, bundle_key()),
        r.team_id.deep_view() == effective_team(
            setting_of_run(runs.team_dis, team_key()),
            setting_of_run(runs.team_dev, team_key()),
        ),
{
    let bundle_id_dev = resolve_build_setting(&runs.bundle_dev, "PRODUCT_BUNDLE_IDENTIFIER");
    let bundle_id_dis = resolve_build_setting(&runs.bundle_dis, "PRODUCT_BUNDLE_IDENTIFIER");
    let team_id_dev = resolve_build_setting(&runs.team_dev, "DEVELOPMENT_TEAM");
    let team_id_dis = resolve_build_setting(&runs.team_dis, "DEVELOPMENT_TEAM");
    let team_id = match team_id_dis {
        Some(team) => Some(team),
        None => team_id_dev,
    };
    IdentityResult { bundle_id_dev, bundle_id_dis, team_id }
}

} // verus!
