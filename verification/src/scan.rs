use crate::containers::{find_first_with_ext, first_container, TreeEntry};
use crate::identity::{
    bundle_key, effective_team, resolve_identity_internal, setting_of_run, team_key,
    IdentityResult, IdentityRuns,
};
use crate::schemes::{
    development_choice, distribution_choice, listing_of_run, lowercase_each,
    parse_schemes_from_xcodebuild, pick_dev_dis_schemes,
};
use crate::shell::{list_command, list_command_text, settings_command, settings_command_text};
use crate::text::{is_blank, lemma_trimmed_empty, to_chars, trim};
use crate::tool::ToolOutput;
use vstd::prelude::*;
use vstd::string::StringExecFns;

verus! {

/// What a scan of a project found.
#[derive(Clone, Debug, PartialEq, Eq)]
pub struct ScanResult {
    pub project_name: String,
    pub workspace: Option<String>,
    pub xcodeproj: Option<String>,
    pub schemes: Vec<String>,
    pub bundle_id_dev: Option<String>,
    pub bundle_id_dis: Option<String>,
    pub team_id: Option<String>,
}

/// What a job is for.
#[derive(Clone, Copy, Debug, PartialEq, Eq, Structural)]
pub enum JobKind {
    /// A full scan: containers, schemes, identity.
    Scan,
    /// The identity alone, for schemes that the caller names.
    Identity,
}

/// What a job waits for.
#[derive(Clone, Copy, Debug, PartialEq, Eq, Structural)]
pub enum Phase {
    /// Whether the project's root exists.
    CheckRoot,
    /// The entries of the tree below the root.
    Walk,
    /// The run that lists the schemes.
    List,
    /// The run for the bundle identifier of the development scheme.
    BundleDev,
    /// The run for the bundle identifier of the distribution scheme.
    BundleDis,
    /// The run for the team of the development scheme.
    TeamDev,
    /// The run for the team of the distribution scheme.
    TeamDis,
    /// Nothing: the job is done.
    Done,
}

/// What the caller is asked to do next.
#[derive(Clone, Debug, PartialEq, Eq)]
pub enum Request {
    /// Say whether the project's root exists.
    CheckRoot,
    /// Walk the tree below the root, to the depth bound, without following
    /// symbolic links.
    Walk,
    /// Run this shell command once and hand back what it gave.
    Run(String),
    /// Nothing more: the result can be taken.
    Finished,
}

/// What the caller hands back.
#[derive(Clone, Debug, PartialEq, Eq)]
pub enum Event {
    /// Whether the project's root exists.
    RootChecked(bool),
    /// The entries of the walk that could be read, in its order.
    Walked(Vec<TreeEntry>),
    /// What the command gave; none where it could not be started.
    Ran(Option<ToolOutput>),
}

/// A request, with texts in place of strings.
pub enum RequestView {
    CheckRoot,
    Walk,
    Run(Seq<char>),
    Finished,
}

impl View for Request {
    type V = RequestView;

    open spec fn view(&self) -> RequestView {
        match self {
            Request::CheckRoot => RequestView::CheckRoot,
            Request::Walk => RequestView::Walk,
            Request::Run(command) => RequestView::Run(command@),
            Request::Finished => RequestView::Finished,
        }
    }
}

/// The state of a job, with texts in place of strings.
pub ghost struct JobView {
    pub kind: JobKind,
    pub phase: Phase,
    /// Whether the root was found missing.
    pub missing_root: bool,
    pub project_path: Seq<char>,
    /// The last component of the project's path, where it has one.
    pub name: Option<Seq<char>>,
    pub workspace: Option<Seq<char>>,
    pub xcodeproj: Option<Seq<char>>,
    pub schemes: Seq<Seq<char>>,
    pub scheme_dev: Option<Seq<char>>,
    pub scheme_dis: Option<Seq<char>>,
    pub runs: IdentityRuns,
}

/// The phase that follows `phase` where nothing is passed over.
pub open spec fn phase_after(phase: Phase) -> Phase {
    match phase {
        Phase::CheckRoot => Phase::Walk,
        Phase::Walk => Phase::List,
        Phase::List => Phase::BundleDev,
        Phase::BundleDev => Phase::BundleDis,
        Phase::BundleDis => Phase::TeamDev,
        Phase::TeamDev => Phase::TeamDis,
        Phase::TeamDis => Phase::Done,
        Phase::Done => Phase::Done,
    }
}

/// The place of a phase in the order of a job.
pub open spec fn phase_rank(phase: Phase) -> nat {
    match phase {
        Phase::CheckRoot => 0,
        Phase::Walk => 1,
        Phase::List => 2,
        Phase::BundleDev => 3,
        Phase::BundleDis => 4,
        Phase::TeamDev => 5,
        Phase::TeamDis => 6,
        Phase::Done => 7,
    }
}

/// The shell command that a phase runs: none for a phase that runs none,
/// without a container, and for a scheme that is absent.
pub open spec fn command_of(job: JobView, phase: Phase) -> Option<Seq<char>> {
    match phase {
        Phase::List => list_command_text(job.project_path, job.workspace, job.xcodeproj),
        Phase::BundleDev | Phase::TeamDev => match job.scheme_dev {
            Some(scheme) => settings_command_text(
                job.project_path,
                job.workspace,
                job.xcodeproj,
                scheme,
            ),
            None => None,
        },
        Phase::BundleDis | Phase::TeamDis => match job.scheme_dis {
            Some(scheme) => settings_command_text(
                job.project_path,
                job.workspace,
                job.xcodeproj,
                scheme,
            ),
            None => None,
        },
        _ => None,
    }
}

/// The first phase from `from` on that has a command to run, and `Done`
/// where none has.
pub open spec fn settle(job: JobView, from: Phase) -> Phase
    decreases 7 - phase_rank(from),
{
    if from == Phase::Done {
        Phase::Done
    } else if command_of(job, from) is Some {
        from
    } else {
        settle(job, phase_after(from))
    }
}

/// The phase in which the runs of a job begin.
pub open spec fn first_run(kind: JobKind) -> Phase {
    match kind {
        JobKind::Scan => Phase::List,
        JobKind::Identity => Phase::BundleDev,
    }
}

/// A container that the caller named, unless the name is blank.
pub open spec fn given_container(name: Option<Seq<char>>) -> Option<Seq<char>> {
    match name {
        Some(n) => if is_blank(n) {
            None
        } else {
            Some(n)
        },
        None => None,
    }
}

/// The first of two containers that is present.
pub open spec fn or_found(given: Option<Seq<char>>, found: Option<Seq<char>>) -> Option<
    Seq<char>,
> {
    match given {
        Some(g) => Some(g),
        None => found,
    }
}

/// The job moved to the first phase from `from` on that has a command to
/// run, and to `Done` where none has.
pub open spec fn settled_at(job: JobView, from: Phase) -> JobView {
    JobView { phase: settle(job, from), ..job }
}

/// The job with each container that it lacked: the first of its kind among
/// the entries of the walk.
pub open spec fn with_containers(job: JobView, entries: Seq<TreeEntry>) -> JobView {
    JobView {
        workspace: or_found(job.workspace, first_container(entries, "xcworkspace"@)),
        xcodeproj: or_found(job.xcodeproj, first_container(entries, "xcodeproj"@)),
        ..job
    }
}

/// The job with the schemes that the run lists, and the two that are
/// picked among them.
pub open spec fn with_schemes(job: JobView, run: Option<ToolOutput>) -> JobView {
    let schemes = listing_of_run(run);
    JobView {
        schemes,
        scheme_dev: development_choice(schemes, lowercase_each(schemes)),
        scheme_dis: distribution_choice(schemes, lowercase_each(schemes)),
        ..job
    }
}

/// The job with the run kept, whatever it gave, in the place of the phase
/// that asked for it.
pub open spec fn with_run(job: JobView, run: Option<ToolOutput>) -> JobView {
    let runs = match job.phase {
        Phase::BundleDev => IdentityRuns { bundle_dev: run, ..job.runs },
        Phase::BundleDis => IdentityRuns { bundle_dis: run, ..job.runs },
        Phase::TeamDev => IdentityRuns { team_dev: run, ..job.runs },
        Phase::TeamDis => IdentityRuns { team_dis: run, ..job.runs },
        _ => job.runs,
    };
    JobView { runs, ..job }
}

/// The job after the answer to whether its root exists. Without a root the
/// job is done. A job that lacks a container walks the tree next; one that
/// has both goes on to its runs.
pub open spec fn after_root(job: JobView, exists: bool) -> JobView {
    if !exists {
        JobView { phase: Phase::Done, missing_root: true, ..job }
    } else if job.workspace is Some && job.xcodeproj is Some {
        settled_at(job, first_run(job.kind))
    } else {
        JobView { phase: Phase::Walk, ..job }
    }
}

/// The job after the walk: it has the containers that were found, and goes
/// on to its runs.
pub open spec fn after_walk(job: JobView, entries: Seq<TreeEntry>) -> JobView {
    settled_at(with_containers(job, entries), first_run(job.kind))
}

/// The job after the run that lists the schemes: it has the schemes, and
/// goes on to the runs for the identity.
pub open spec fn after_list(job: JobView, run: Option<ToolOutput>) -> JobView {
    settled_at(with_schemes(job, run), Phase::BundleDev)
}

/// The job after one of the four runs for the identity: it keeps the run,
/// and goes on to the next one that has a command.
pub open spec fn after_setting(job: JobView, run: Option<ToolOutput>) -> JobView {
    settled_at(with_run(job, run), phase_after(job.phase))
}

/// Whether a phase is one of the four that run for the identity.
pub open spec fn is_setting_phase(phase: Phase) -> bool {
    phase == Phase::BundleDev || phase == Phase::BundleDis || phase == Phase::TeamDev || phase
        == Phase::TeamDis
}

/// The job after an event. An event that does not answer what the job waits
/// for leaves it as it is.
pub open spec fn after(job: JobView, event: Event) -> JobView {
    match event {
        Event::RootChecked(exists) => if job.phase == Phase::CheckRoot {
            after_root(job, exists)
        } else {
            job
        },
        Event::Walked(entries) => if job.phase == Phase::Walk {
            after_walk(job, entries@)
        } else {
            job
        },
        Event::Ran(run) => if job.phase == Phase::List {
            after_list(job, run)
        } else if is_setting_phase(job.phase) {
            after_setting(job, run)
        } else {
            job
        },
    }
}

/// What a job asks of its caller.
pub open spec fn request_of(job: JobView) -> RequestView {
    match job.phase {
        Phase::CheckRoot => RequestView::CheckRoot,
        Phase::Walk => RequestView::Walk,
        Phase::Done => RequestView::Finished,
        phase => match command_of(job, phase) {
            Some(command) => RequestView::Run(command),
            None => RequestView::Finished,
        },
    }
}

/// The name under which a project is shown: the last component of its
/// path, or a fixed name where the path has none.
pub open spec fn display_name(name: Option<Seq<char>>) -> Seq<char> {
    match name {
        Some(n) => n,
        None => "iOSProject"@,
    }
}

/// The message for a root that does not exist.
pub open spec fn missing_root_message(project_path: Seq<char>) -> Seq<char> {
    "Project path not found: "@ + project_path
}

/// Whether a job holds the name of its project: the last component of the
/// project's path.
pub open spec fn named(job: JobView) -> bool {
    job.name == last_component(job.project_path)
}

/// A step changes neither the path of the project nor its name, nor what
/// the job is for.
pub proof fn lemma_after_keeps_name(job: JobView, event: Event)
    ensures
        after(job, event).project_path == job.project_path,
        after(job, event).name == job.name,
        after(job, event).kind == job.kind,
        named(job) ==> named(after(job, event)),
{
}

/// What a finished scan calls the project is the last component of the
/// project's path, or `iOSProject` where the path has none.
pub proof fn lemma_project_name(result: ScanResult, job: JobView)
    ensures
        scan_matches(result, job) && named(job) ==> result.project_name@ == display_name(
            last_component(job.project_path),
        ),
{
}

/// Whether a job is in a state that its steps lead to: a phase that runs a
/// command has one, and a job without a root is done.
pub open spec fn well_formed(job: JobView) -> bool {
    &&& job.phase == Phase::List || is_setting_phase(job.phase) ==> command_of(job, job.phase)
        is Some
    &&& job.missing_root ==> job.phase == Phase::Done
}

/// Whether an event answers what a job in `phase` waits for.
pub open spec fn answers(phase: Phase, event: Event) -> bool {
    match event {
        Event::RootChecked(_) => phase == Phase::CheckRoot,
        Event::Walked(_) => phase == Phase::Walk,
        Event::Ran(_) => phase == Phase::List || is_setting_phase(phase),
    }
}

/// Whether a job has just been begun for the project at `project_path`: it
/// waits for its root, has listed no scheme and has run nothing.
pub open spec fn fresh(job: JobView, project_path: Seq<char>) -> bool {
    &&& job.phase == Phase::CheckRoot
    &&& !job.missing_root
    &&& job.project_path == project_path
    &&& job.schemes.len() == 0
    &&& job.runs.bundle_dev is None
    &&& job.runs.bundle_dis is None
    &&& job.runs.team_dev is None
    &&& job.runs.team_dis is None
}

/// Whether a job has just been begun as a scan: it knows no container and
/// no scheme yet.
pub open spec fn fresh_scan(job: JobView, project_path: Seq<char>) -> bool {
    &&& fresh(job, project_path)
    &&& job.kind == JobKind::Scan
    &&& job.workspace is None
    &&& job.xcodeproj is None
    &&& job.scheme_dev is None
    &&& job.scheme_dis is None
}

/// Whether a job has just been begun for the identity of two schemes: it
/// holds both, and each container that was given and is not blank.
pub open spec fn fresh_identity(
    job: JobView,
    project_path: Seq<char>,
    workspace: Option<Seq<char>>,
    xcodeproj: Option<Seq<char>>,
    scheme_dev: Seq<char>,
    scheme_dis: Seq<char>,
) -> bool {
    &&& fresh(job, project_path)
    &&& job.kind == JobKind::Identity
    &&& job.workspace == given_container(workspace)
    &&& job.xcodeproj == given_container(xcodeproj)
    &&& job.scheme_dev == Some(scheme_dev)
    &&& job.scheme_dis == Some(scheme_dis)
}

/// A job that has just been begun is well formed.
pub proof fn lemma_fresh_well_formed(job: JobView, project_path: Seq<char>)
    requires
        fresh(job, project_path),
    ensures
        well_formed(job),
{
}

/// Settling never goes back, and ends in a phase that has a command or in
/// `Done`.
pub proof fn lemma_settle(job: JobView, from: Phase)
    ensures
        phase_rank(settle(job, from)) >= phase_rank(from),
        settle(job, from) == Phase::Done || command_of(job, settle(job, from)) is Some,
    decreases 7 - phase_rank(from),
{
    if from != Phase::Done && command_of(job, from) is None {
        lemma_settle(job, phase_after(from));
    }
}

/// The commands of a job do not depend on its phase.
pub proof fn lemma_command_ignores_phase(job: JobView, phase: Phase, at: Phase)
    ensures
        command_of(JobView { phase, ..job }, at) == command_of(job, at),
{
}

/// A job that is moved on from `from` does not stand before `from`, and is
/// well formed unless it lacks its root.
pub proof fn lemma_settled_at(job: JobView, from: Phase)
    ensures
        phase_rank(settled_at(job, from).phase) >= phase_rank(from),
        !job.missing_root ==> well_formed(settled_at(job, from)),
{
    lemma_settle(job, from);
    lemma_command_ignores_phase(job, settle(job, from), settle(job, from));
}

/// An event that answers what a job waits for takes the job on, and leaves
/// it well formed unless it lacked its root before.
proof fn lemma_step(job: JobView, event: Event)
    requires
        answers(job.phase, event),
    ensures
        phase_rank(after(job, event).phase) > phase_rank(job.phase),
        !job.missing_root ==> well_formed(after(job, event)),
{
    match event {
        Event::RootChecked(_) => {
            lemma_settled_at(job, first_run(job.kind));
        },
        Event::Walked(entries) => {
            lemma_settled_at(with_containers(job, entries@), first_run(job.kind));
        },
        Event::Ran(run) => {
            if job.phase == Phase::List {
                lemma_settled_at(with_schemes(job, run), Phase::BundleDev);
            } else {
                lemma_settled_at(with_run(job, run), phase_after(job.phase));
            }
        },
    }
}

/// A step leaves a job well formed.
pub proof fn lemma_after_well_formed(job: JobView, event: Event)
    requires
        well_formed(job),
    ensures
        well_formed(after(job, event)),
{
    if answers(job.phase, event) {
        lemma_step(job, event);
    }
}

/// A step never takes a job back. An event that answers what the job waits
/// for takes it on, so a job is done after seven such events at most; any
/// other event leaves it as it is.
pub proof fn lemma_after_progress(job: JobView, event: Event)
    ensures
        answers(job.phase, event) ==> phase_rank(after(job, event).phase) > phase_rank(job.phase),
        !answers(job.phase, event) ==> after(job, event) == job,
{
    if answers(job.phase, event) {
        lemma_step(job, event);
    }
}

/// A well-formed job asks for nothing more exactly when it is done.
pub proof fn lemma_finished_when_done(job: JobView)
    requires
        well_formed(job),
    ensures
        request_of(job) is Finished <==> job.phase == Phase::Done,
{
}

/// A job fails in one way only: its root is found missing, and then it is
/// done at once. A job whose root exists never fails.
pub proof fn lemma_fails_only_without_root(job: JobView, event: Event)
    requires
        !job.missing_root,
    ensures
        after(job, event).missing_root <==> job.phase == Phase::CheckRoot && event
            == Event::RootChecked(false),
        after(job, event).missing_root ==> after(job, event).phase == Phase::Done,
{
}

/// A scan of a root that exists and holds no container is done after the
/// walk, without a single run of the build tool and without failure. What it
/// found holds no container, no scheme, no bundle identifier and no team.
pub proof fn lemma_scan_without_containers(job: JobView, entries: Vec<TreeEntry>)
    requires
        fresh_scan(job, job.project_path),
        first_container(entries@, "xcworkspace"@) is None,
        first_container(entries@, "xcodeproj"@) is None,
    ensures
        ({
            let walked = after(after(job, Event::RootChecked(true)), Event::Walked(entries));
            &&& after(job, Event::RootChecked(true)).phase == Phase::Walk
            &&& walked.phase == Phase::Done
            &&& !walked.missing_root
            &&& walked.name == job.name
            &&& forall|result: ScanResult| #[trigger]
                scan_matches(result, walked) ==> {
                    &&& result.workspace is None
                    &&& result.xcodeproj is None
                    &&& result.schemes@.len() == 0
                    &&& result.bundle_id_dev is None
                    &&& result.bundle_id_dis is None
                    &&& result.team_id is None
                }
        }),
{
    let rooted = after(job, Event::RootChecked(true));
    let walked = after(rooted, Event::Walked(entries));
    let found = with_containers(rooted, entries@);
    assert(found == rooted);
    assert(command_of(found, Phase::List) is None);
    assert(command_of(found, Phase::BundleDev) is None);
    assert(command_of(found, Phase::BundleDis) is None);
    assert(command_of(found, Phase::TeamDev) is None);
    assert(command_of(found, Phase::TeamDis) is None);
    reveal_with_fuel(settle, 6);
    assert(settle(found, Phase::List) == Phase::Done);
    assert forall|result: ScanResult| #[trigger] scan_matches(result, walked) implies {
        &&& result.workspace is None
        &&& result.xcodeproj is None
        &&& result.schemes@.len() == 0
        &&& result.bundle_id_dev is None
        &&& result.bundle_id_dis is None
        &&& result.team_id is None
    } by {
        assert(result.schemes.deep_view().len() == result.schemes@.len());
    }
}

/// Whether a scan result says what a finished job holds: the name, the
/// containers and the schemes as they stand, and the identity that the four
/// runs give.
pub open spec fn scan_matches(result: ScanResult, job: JobView) -> bool {
    &&& result.project_name@ == display_name(job.name)
    &&& result.workspace.deep_view() == job.workspace
    &&& result.xcodeproj.deep_view() == job.xcodeproj
    &&& result.schemes.deep_view() == job.schemes
    &&& result.bundle_id_dev.deep_view() == setting_of_run(job.runs.bundle_dev, bundle_key())
    &&& result.bundle_id_dis.deep_view() == setting_of_run(job.runs.bundle_dis, bundle_key())
    &&& result.team_id.deep_view() == effective_team(
        setting_of_run(job.runs.team_dis, team_key()),
        setting_of_run(job.runs.team_dev, team_key()),
    )
}

/// Whether an identity says what the four runs of a finished job give.
pub open spec fn identity_matches(result: IdentityResult, job: JobView) -> bool {
    &&& result.bundle_id_dev.deep_view() == setting_of_run(job.runs.bundle_dev, bundle_key())
    &&& result.bundle_id_dis.deep_view() == setting_of_run(job.runs.bundle_dis, bundle_key())
    &&& result.team_id.deep_view() == effective_team(
        setting_of_run(job.runs.team_dis, team_key()),
        setting_of_run(job.runs.team_dev, team_key()),
    )
}

/// A scan, or a resolution of the identity, in progress. The job says what
/// it waits for; its caller does that and hands back what came of it.
#[derive(Debug)]
pub struct ScanJob {
    kind: JobKind,
    phase: Phase,
    missing_root: bool,
    project_path: String,
    name: Option<String>,
    workspace: Option<String>,
    xcodeproj: Option<String>,
    schemes: Vec<String>,
    scheme_dev: Option<String>,
    scheme_dis: Option<String>,
    runs: IdentityRuns,
}

impl View for ScanJob {
    type V = JobView;

    closed spec fn view(&self) -> JobView {
        JobView {
            kind: self.kind,
            phase: self.phase,
            missing_root: self.missing_root,
            project_path: self.project_path@,
            name: self.name.deep_view(),
            workspace: self.workspace.deep_view(),
            xcodeproj: self.xcodeproj.deep_view(),
            schemes: self.schemes.deep_view(),
            scheme_dev: self.scheme_dev.deep_view(),
            scheme_dis: self.scheme_dis.deep_view(),
            runs: self.runs,
        }
    }
}

/// The last component of a path, as `Path::file_name` gives it: the name of
/// the file or directory that the path ends in, and none where the path ends
/// in `..` or is a root. Which characters part the components is the
/// platform's matter.
pub uninterp spec fn last_component(path: Seq<char>) -> Option<Seq<char>>;

/// Calls `Path::file_name` on the path: the last component, which
/// `last_component` names. `Path::new` and `OsStr::to_str` only convert: the
/// path comes as text, so its components are text too.
#[verifier::external_body]
fn final_component(path: &str) -> (name: Option<String>)
    ensures
        name.deep_view() == last_component(path@),
{
    match std::path::Path::new(path).file_name() {
        Some(component) => match component.to_str() {
            Some(text) => Some(text.to_string()),
            None => None,
        },
        None => None,
    }
}

/// A copy of a list of names.
fn copy_names(names: &Vec<String>) -> (r: Vec<String>)
    ensures
        r.deep_view() == names.deep_view(),
{
    let mut r: Vec<String> = Vec::new();
    let mut i: usize = 0;
    while i < names.len()
        invariant
            i <= names.len(),
            r.deep_view() =~= names.deep_view().take(i as int),
        decreases names.len() - i,
    {
        let ghost before = r.deep_view();
        r.push(names[i].clone());
        i += 1;
        assert(r.deep_view() =~= before.push(names.deep_view()[i - 1]));
    }
    assert(names.deep_view().take(i as int) =~= names.deep_view());
    r
}

/// The name of a container as the caller gave it, unless it is blank.
fn given(name: Option<String>) -> (r: Option<String>)
    ensures
        r.deep_view() == given_container(name.deep_view()),
{
    match name {
        Some(n) => {
            let chars = to_chars(n.as_str());
            proof {
                lemma_trimmed_empty(chars@);
            }
            if trim(&chars).len() == 0 {
                None
            } else {
                Some(n)
            }
        },
        None => None,
    }
}

/// The runs of a job that has run nothing.
fn no_runs() -> (runs: IdentityRuns)
    ensures
        runs.bundle_dev is None,
        runs.bundle_dis is None,
        runs.team_dev is None,
        runs.team_dis is None,
{
    IdentityRuns { bundle_dev: None, bundle_dis: None, team_dev: None, team_dis: None }
}

/// Begins a scan of the project at `project_path`: the job first asks
/// whether that root exists.
pub fn scan_project(project_path: String) -> (job: ScanJob)
    ensures
        fresh_scan(job@, project_path@),
        named(job@),
{
    let name = final_component(project_path.as_str());
    ScanJob {
        kind: JobKind::Scan,
        phase: Phase::CheckRoot,
        missing_root: false,
        project_path,
        name,
        workspace: None,
        xcodeproj: None,
        schemes: Vec::new(),
        scheme_dev: None,
        scheme_dis: None,
        runs: no_runs(),
    }
}

/// Begins a resolution of the identity of the project at `project_path`
/// for the two schemes. A container that is absent or blank is looked for
/// below the root.
pub fn resolve_identity(
    project_path: String,
    workspace: Option<String>,
    xcodeproj: Option<String>,
    scheme_dev: String,
    scheme_dis: String,
) -> (job: ScanJob)
    ensures
        fresh_identity(
            job@,
            project_path@,
            workspace.deep_view(),
            xcodeproj.deep_view(),
            scheme_dev@,
            scheme_dis@,
        ),
        named(job@),
{
    let name = final_component(project_path.as_str());
    ScanJob {
        kind: JobKind::Identity,
        phase: Phase::CheckRoot,
        missing_root: false,
        project_path,
        name,
        workspace: given(workspace),
        xcodeproj: given(xcodeproj),
        schemes: Vec::new(),
        scheme_dev: Some(scheme_dev),
        scheme_dis: Some(scheme_dis),
        runs: no_runs(),
    }
}

/// The phase that follows `phase` where nothing is passed over.
fn next_phase(phase: Phase) -> (r: Phase)
    ensures
        r == phase_after(phase),
{
    match phase {
        Phase::CheckRoot => Phase::Walk,
        Phase::Walk => Phase::List,
        Phase::List => Phase::BundleDev,
        Phase::BundleDev => Phase::BundleDis,
        Phase::BundleDis => Phase::TeamDev,
        Phase::TeamDev => Phase::TeamDis,
        Phase::TeamDis => Phase::Done,
        Phase::Done => Phase::Done,
    }
}

/// The phase in which the runs of a job begin.
fn first_run_phase(kind: JobKind) -> (p: Phase)
    ensures
        p == first_run(kind),
{
    match kind {
        JobKind::Scan => Phase::List,
        JobKind::Identity => Phase::BundleDev,
    }
}

impl ScanJob {
    /// The path of the project's root.
    pub fn project_path(&self) -> (path: &str)
        ensures
            path@ == self@.project_path,
    {
        self.project_path.as_str()
    }

    /// The shell command of a phase.
    fn command(&self, phase: Phase) -> (r: Option<String>)
        ensures
            r.deep_view() == command_of(self@, phase),
    {
        let workspace: Option<&str> = match &self.workspace {
            Some(ws) => Some(ws.as_str()),
            None => None,
        };
        let xcodeproj: Option<&str> = match &self.xcodeproj {
            Some(proj) => Some(proj.as_str()),
            None => None,
        };
        let root = self.project_path.as_str();
        match phase {
            Phase::List => list_command(root, workspace, xcodeproj),
            Phase::BundleDev | Phase::TeamDev => match &self.scheme_dev {
                Some(scheme) => settings_command(root, workspace, xcodeproj, scheme.as_str()),
                None => None,
            },
            Phase::BundleDis | Phase::TeamDis => match &self.scheme_dis {
                Some(scheme) => settings_command(root, workspace, xcodeproj, scheme.as_str()),
                None => None,
            },
            _ => None,
        }
    }

    /// Whether a phase has a command to run.
    fn has_command(&self, phase: Phase) -> (b: bool)
        ensures
            b == command_of(self@, phase) is Some,
    {
        let container = self.workspace.is_some() || self.xcodeproj.is_some();
        match phase {
            Phase::List => container,
            Phase::BundleDev | Phase::TeamDev => container && self.scheme_dev.is_some(),
            Phase::BundleDis | Phase::TeamDis => container && self.scheme_dis.is_some(),
            _ => false,
        }
    }

    /// The first phase from `from` on that has a command to run.
    fn settled(&self, from: Phase) -> (p: Phase)
        ensures
            p == settle(self@, from),
    {
        let mut p = from;
        while p != Phase::Done && !self.has_command(p)
            invariant
                settle(self@, p) == settle(self@, from),
            decreases 7 - phase_rank(p),
        {
            p = next_phase(p);
        }
        p
    }

    /// What the job asks of its caller next.
    pub fn pending(&self) -> (request: Request)
        ensures
            request@ == request_of(self@),
    {
        match self.phase {
            Phase::CheckRoot => Request::CheckRoot,
            Phase::Walk => Request::Walk,
            Phase::Done => Request::Finished,
            phase => match self.command(phase) {
                Some(command) => Request::Run(command),
                None => Request::Finished,
            },
        }
    }

    /// Takes what the caller hands back and moves on.
    pub fn advance(self, event: Event) -> (job: ScanJob)
        ensures
            job@ == after(self@, event),
            well_formed(self@) ==> well_formed(job@),
            named(self@) ==> named(job@),
    {
        proof {
            if well_formed(self@) {
                lemma_after_well_formed(self@, event);
            }
            lemma_after_keeps_name(self@, event);
        }
        let mut job = self;
        match event {
            Event::RootChecked(exists) => {
                if job.phase == Phase::CheckRoot {
                    if !exists {
                        job.phase = Phase::Done;
                        job.missing_root = true;
                    } else if job.workspace.is_some() && job.xcodeproj.is_some() {
                        job.phase = job.settled(first_run_phase(job.kind));
                    } else {
                        job.phase = Phase::Walk;
                    }
                }
            },
            Event::Walked(entries) => {
                if job.phase == Phase::Walk {
                    if job.workspace.is_none() {
                        job.workspace = find_first_with_ext(entries.as_slice(), "xcworkspace");
                    }
                    if job.xcodeproj.is_none() {
                        job.xcodeproj = find_first_with_ext(entries.as_slice(), "xcodeproj");
                    }
                    job.phase = job.settled(first_run_phase(job.kind));
                }
            },
            Event::Ran(run) => {
                if job.phase == Phase::List {
                    let schemes = parse_schemes_from_xcodebuild(&run);
                    let picked = pick_dev_dis_schemes(schemes.as_slice());
                    job.schemes = schemes;
                    job.scheme_dev = picked.0;
                    job.scheme_dis = picked.1;
                    job.phase = job.settled(Phase::BundleDev);
                } else if job.phase == Phase::BundleDev {
                    job.runs.bundle_dev = run;
                    job.phase = job.settled(Phase::BundleDis);
                } else if job.phase == Phase::BundleDis {
                    job.runs.bundle_dis = run;
                    job.phase = job.settled(Phase::TeamDev);
                } else if job.phase == Phase::TeamDev {
                    job.runs.team_dev = run;
                    job.phase = job.settled(Phase::TeamDis);
                } else if job.phase == Phase::TeamDis {
                    job.runs.team_dis = run;
                    job.phase = Phase::Done;
                }
            },
        }
        job
    }

    /// The identity that the job's runs gave, once the job is done; the
    /// message for a missing root where the job found none.
    pub fn identity_result(&self) -> (r: Option<Result<IdentityResult, String>>)
        ensures
            self@.phase != Phase::Done ==> r is None,
            self@.phase == Phase::Done && self@.missing_root ==> r is Some && r->0 is Err
                && r->0->Err_0@ == missing_root_message(self@.project_path),
            self@.phase == Phase::Done && !self@.missing_root ==> r is Some && r->0 is Ok
                && identity_matches(r->0->Ok_0, self@),
    {
        if self.phase != Phase::Done {
            None
        } else if self.missing_root {
            Some(Err(self.missing_root_text()))
        } else {
            Some(Ok(resolve_identity_internal(&self.runs)))
        }
    }

    /// What the scan found, once the job is done; the message for a missing
    /// root where the job found none.
    pub fn scan_result(&self) -> (r: Option<Result<ScanResult, String>>)
        ensures
            self@.phase != Phase::Done ==> r is None,
            self@.phase == Phase::Done && self@.missing_root ==> r is Some && r->0 is Err
                && r->0->Err_0@ == missing_root_message(self@.project_path),
            self@.phase == Phase::Done && !self@.missing_root ==> r is Some && r->0 is Ok
                && scan_matches(r->0->Ok_0, self@),
            self@.phase == Phase::Done && !self@.missing_root && named(self@) ==> r->0->Ok_0
                .project_name@ == display_name(last_component(self@.project_path)),
    {
        if self.phase != Phase::Done {
            None
        } else if self.missing_root {
            Some(Err(self.missing_root_text()))
        } else {
            let identity = resolve_identity_internal(&self.runs);
            let project_name = match &self.name {
                Some(name) => name.clone(),
                None => "iOSProject".to_owned(),
            };
            Some(
                Ok(
                    ScanResult {
                        project_name,
                        workspace: self.workspace.clone(),
                        xcodeproj: self.xcodeproj.clone(),
                        schemes: copy_names(&self.schemes),
                        bundle_id_dev: identity.bundle_id_dev,
                        bundle_id_dis: identity.bundle_id_dis,
                        team_id: identity.team_id,
                    },
                ),
            )
        }
    }

    /// The message for a root that does not exist.
    fn missing_root_text(&self) -> (message: String)
        ensures
            message@ == missing_root_message(self@.project_path),
    {
        let mut message = String::new();
        message.append("Project path not found: ");
        message.append(self.project_path.as_str());
        assert(message@ =~= missing_root_message(self@.project_path));
        message
    }
}

} // verus!
