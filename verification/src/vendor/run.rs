//! A vendoring run: which operation comes next, given how the ones before it
//! went.
//!
//! A run starts at [`VendorMod::vendor`]. Its owner performs the pending
//! [`action`](VendorRun::action) and reports what came of it to
//! [`advance`](VendorRun::advance), until the run is finished.

use super::config::VendorConfig;
use super::error::{VendorError, VendorErrorOf};
use super::plan::{plan, planned, DirPath, ExternalFile, Job, JobView, DENY_CONFIG};
use super::url::{extract_file_name, file_name, url_path_segments};
use crate::path::{join_path, joined_path, law_plain_name};
use crate::text::{join_all, joined};
use vstd::prelude::*;

verus! {

/// The environment variable that names the directory of the tools.
pub const TOOLS_DIR_VAR: &'static str = "TWOLITER_TOOLS_DIR";

/// The mode of the script: everybody may do everything.
pub const SCRIPT_MODE: u32 = 0o777;

/// One of the two directories that a run works in.
#[derive(Debug, Clone, Copy, PartialEq, Eq, Structural)]
pub enum Dir {
    Package,
    Root,
}

/// A path, relative to one of the two directories.
#[derive(Debug)]
pub struct PlaceOf<T> {
    pub dir: Dir,
    pub name: T,
}

/// How far a run has come.
#[derive(Debug)]
pub enum StageOf<T> {
    /// The archive is to be looked for.
    CheckInput,
    /// The build is to be told which file the run produces.
    AnnounceOutput,
    CreateScript,
    SetPermissions,
    WriteScript,
    /// The license configuration is to be looked for.
    CheckDenyConfig,
    ReadToolsDir,
    AnnounceProgram { program: T },
    RunTool { program: T },
    PrintOutput { success: bool, output: T },
    /// The script is to be removed; `outcome` is what came of the tool.
    RemoveScript { outcome: Result<(), VendorErrorOf<T>> },
    SetMtime,
    Finished { outcome: Result<(), VendorErrorOf<T>> },
}

/// What the owner of a run is to do next.
#[derive(Debug)]
pub enum ActionOf<T, L> {
    /// Report whether a regular file stands there.
    CheckFile { place: PlaceOf<T> },
    /// Write a line to the standard output.
    Print { line: T },
    CreateFile { place: PlaceOf<T> },
    SetMode { place: PlaceOf<T>, mode: u32 },
    WriteFile { place: PlaceOf<T>, contents: T },
    ReadEnvironment { var: T },
    /// Run a program and wait for it. Its two output streams are taken as one.
    Run { program: T, args: L },
    RemoveFile { place: PlaceOf<T> },
    /// Set the modification time of a file to that of the sources.
    SetMtime { path: T },
    /// Nothing: the run is finished.
    Finish { outcome: Result<(), VendorErrorOf<T>> },
}

/// What came of an action.
#[derive(Debug)]
pub enum EventOf<T> {
    /// Whether the file is there.
    Checked { found: bool },
    Succeeded,
    Failed { source: T },
    /// What was read.
    Value { text: T },
    /// The program ran and exited.
    Exited { success: bool, output: T },
}

pub type Stage = StageOf<String>;

pub type StageView = StageOf<Seq<char>>;

pub type Action = ActionOf<String, Vec<String>>;

pub type ActionView = ActionOf<Seq<char>, Seq<Seq<char>>>;

pub type Event = EventOf<String>;

pub type EventView = EventOf<Seq<char>>;

/// An outcome, in contracts.
pub open spec fn outcome_view(outcome: Result<(), VendorError>) -> Result<
    (),
    VendorErrorOf<Seq<char>>,
> {
    match outcome {
        Ok(()) => Ok(()),
        Err(e) => Err(e@),
    }
}

impl View for PlaceOf<String> {
    type V = PlaceOf<Seq<char>>;

    open spec fn view(&self) -> PlaceOf<Seq<char>> {
        PlaceOf { dir: self.dir, name: self.name@ }
    }
}

impl View for StageOf<String> {
    type V = StageView;

    open spec fn view(&self) -> StageView {
        match *self {
            StageOf::CheckInput => StageOf::CheckInput,
            StageOf::AnnounceOutput => StageOf::AnnounceOutput,
            StageOf::CreateScript => StageOf::CreateScript,
            StageOf::SetPermissions => StageOf::SetPermissions,
            StageOf::WriteScript => StageOf::WriteScript,
            StageOf::CheckDenyConfig => StageOf::CheckDenyConfig,
            StageOf::ReadToolsDir => StageOf::ReadToolsDir,
            StageOf::AnnounceProgram { program } => StageOf::AnnounceProgram { program: program@ },
            StageOf::RunTool { program } => StageOf::RunTool { program: program@ },
            StageOf::PrintOutput { success, output } => StageOf::PrintOutput {
                success,
                output: output@,
            },
            StageOf::RemoveScript { outcome } => StageOf::RemoveScript {
                outcome: outcome_view(outcome),
            },
            StageOf::SetMtime => StageOf::SetMtime,
            StageOf::Finished { outcome } => StageOf::Finished { outcome: outcome_view(outcome) },
        }
    }
}

impl View for EventOf<String> {
    type V = EventView;

    open spec fn view(&self) -> EventView {
        match *self {
            EventOf::Checked { found } => EventOf::Checked { found },
            EventOf::Succeeded => EventOf::Succeeded,
            EventOf::Failed { source } => EventOf::Failed { source: source@ },
            EventOf::Value { text } => EventOf::Value { text: text@ },
            EventOf::Exited { success, output } => EventOf::Exited { success, output: output@ },
        }
    }
}

impl View for ActionOf<String, Vec<String>> {
    type V = ActionView;

    open spec fn view(&self) -> ActionView {
        match *self {
            ActionOf::CheckFile { place } => ActionOf::CheckFile { place: place@ },
            ActionOf::Print { line } => ActionOf::Print { line: line@ },
            ActionOf::CreateFile { place } => ActionOf::CreateFile { place: place@ },
            ActionOf::SetMode { place, mode } => ActionOf::SetMode { place: place@, mode },
            ActionOf::WriteFile { place, contents } => ActionOf::WriteFile {
                place: place@,
                contents: contents@,
            },
            ActionOf::ReadEnvironment { var } => ActionOf::ReadEnvironment { var: var@ },
            ActionOf::Run { program, args } => ActionOf::Run {
                program: program@,
                args: args.deep_view(),
            },
            ActionOf::RemoveFile { place } => ActionOf::RemoveFile { place: place@ },
            ActionOf::SetMtime { path } => ActionOf::SetMtime { path: path@ },
            ActionOf::Finish { outcome } => ActionOf::Finish { outcome: outcome_view(outcome) },
        }
    }
}

/// Whether a stage comes only where the tool's arguments could be written.
pub open spec fn needs_args(stage: StageView) -> bool {
    ||| stage is ReadToolsDir
    ||| stage is AnnounceProgram
    ||| stage is RunTool
    ||| stage is PrintOutput
}

/// A vendoring run.
#[derive(Debug)]
pub struct VendorRun {
    job: Job,
    stage: Stage,
}

/// A vendoring run, in contracts.
pub struct RunView {
    pub job: JobView,
    pub stage: StageView,
}

impl View for VendorRun {
    type V = RunView;

    closed spec fn view(&self) -> RunView {
        RunView { job: self.job@, stage: self.stage@ }
    }
}

impl VendorRun {
    /// Past the check of the license configuration, the tool's arguments are
    /// known.
    #[verifier::type_invariant]
    spec fn wf(self) -> bool {
        needs_args(self.stage@) ==> self.job.args is Some
    }
}

/// The place of the script.
pub open spec fn script_place(job: JobView) -> PlaceOf<Seq<char>> {
    PlaceOf { dir: Dir::Package, name: job.script_name }
}

/// The action that a stage waits for.
pub open spec fn pending(job: JobView, stage: StageView) -> ActionView {
    match stage {
        StageOf::CheckInput => ActionOf::CheckFile {
            place: PlaceOf { dir: Dir::Package, name: job.local_file_name },
        },
        StageOf::AnnounceOutput => ActionOf::Print {
            line: "cargo:rerun-if-changed="@ + job.output_path,
        },
        StageOf::CreateScript => ActionOf::CreateFile { place: script_place(job) },
        StageOf::SetPermissions => ActionOf::SetMode {
            place: script_place(job),
            mode: SCRIPT_MODE,
        },
        StageOf::WriteScript => ActionOf::WriteFile {
            place: script_place(job),
            contents: job.script,
        },
        StageOf::CheckDenyConfig => ActionOf::CheckFile {
            place: PlaceOf { dir: Dir::Root, name: DENY_CONFIG@ },
        },
        StageOf::ReadToolsDir => ActionOf::ReadEnvironment { var: TOOLS_DIR_VAR@ },
        StageOf::AnnounceProgram { program } => ActionOf::Print { line: "program: "@ + program },
        StageOf::RunTool { program } => ActionOf::Run { program, args: job.args.unwrap() },
        StageOf::PrintOutput { success, output } => ActionOf::Print { line: output },
        StageOf::RemoveScript { outcome } => ActionOf::RemoveFile { place: script_place(job) },
        StageOf::SetMtime => ActionOf::SetMtime { path: job.output_path },
        StageOf::Finished { outcome } => ActionOf::Finish { outcome },
    }
}

/// Where an event takes a run. One that does not answer the pending action
/// leaves the run where it is.
pub open spec fn next_stage(job: JobView, stage: StageView, event: EventView) -> StageView {
    match (stage, event) {
        (StageOf::CheckInput, EventOf::Checked { found }) => if found {
            StageOf::AnnounceOutput
        } else {
            failed(VendorErrorOf::InputFileBad { path: job.input_path })
        },
        (StageOf::AnnounceOutput, EventOf::Succeeded) => StageOf::CreateScript,
        (StageOf::CreateScript, EventOf::Succeeded) => StageOf::SetPermissions,
        (StageOf::CreateScript, EventOf::Failed { source }) => failed(
            VendorErrorOf::CreateFile { path: job.script_path, source },
        ),
        (StageOf::SetPermissions, EventOf::Succeeded) => StageOf::WriteScript,
        (StageOf::SetPermissions, EventOf::Failed { source }) => failed(
            VendorErrorOf::SetFilePermissions { path: job.script_path, source },
        ),
        (StageOf::WriteScript, EventOf::Succeeded) => StageOf::CheckDenyConfig,
        (StageOf::WriteScript, EventOf::Failed { source }) => failed(
            VendorErrorOf::WriteFile { path: job.script_path, source },
        ),
        (StageOf::CheckDenyConfig, EventOf::Checked { found }) => if !found {
            tool_failed(VendorErrorOf::InputFileBad { path: job.deny_config })
        } else if job.args is None {
            tool_failed(VendorErrorOf::InputFile)
        } else {
            StageOf::ReadToolsDir
        },
        (StageOf::ReadToolsDir, EventOf::Value { text }) => StageOf::AnnounceProgram {
            program: joined_path(text, job.tool),
        },
        (StageOf::ReadToolsDir, EventOf::Failed { source }) => tool_failed(
            VendorErrorOf::Environment { var: TOOLS_DIR_VAR@, source },
        ),
        (StageOf::AnnounceProgram { program }, EventOf::Succeeded) => StageOf::RunTool { program },
        (StageOf::RunTool { program }, EventOf::Exited { success, output }) => {
            StageOf::PrintOutput { success, output }
        },
        (StageOf::RunTool { program }, EventOf::Failed { source }) => tool_failed(
            VendorErrorOf::CommandStart { source },
        ),
        (StageOf::PrintOutput { success, output }, EventOf::Succeeded) => if success {
            StageOf::RemoveScript { outcome: Ok(()) }
        } else {
            tool_failed(
                VendorErrorOf::DockerExecution {
                    tool: job.tool,
                    args: joined(job.args.unwrap(), " "@),
                },
            )
        },
        (StageOf::RemoveScript { outcome }, EventOf::Succeeded) => match outcome {
            Ok(()) => StageOf::SetMtime,
            Err(e) => StageOf::Finished { outcome: Err(e) },
        },
        (StageOf::RemoveScript { outcome }, EventOf::Failed { source }) => failed(
            VendorErrorOf::RemoveFile { path: job.script_path, source },
        ),
        (StageOf::SetMtime, EventOf::Succeeded) => StageOf::Finished { outcome: Ok(()) },
        (StageOf::SetMtime, EventOf::Failed { source }) => failed(
            VendorErrorOf::SetMtime { path: job.output_path, source },
        ),
        _ => stage,
    }
}

/// The run is over: it failed before the script was written, or after it was
/// removed.
pub open spec fn failed(error: VendorErrorOf<Seq<char>>) -> StageView {
    StageOf::Finished { outcome: Err(error) }
}

/// The tool failed; the script is still to be removed.
pub open spec fn tool_failed(error: VendorErrorOf<Seq<char>>) -> StageView {
    StageOf::RemoveScript { outcome: Err(error) }
}

/// Makes a copy of an error.
fn clone_error(error: &VendorError) -> (copy: VendorError)
    ensures
        copy@ == error@,
{
    match error {
        VendorErrorOf::InputUrl { url, source } => VendorErrorOf::InputUrl {
            url: url.clone(),
            source: source.clone(),
        },
        VendorErrorOf::InputFile => VendorErrorOf::InputFile,
        VendorErrorOf::InputFileBad { path } => VendorErrorOf::InputFileBad { path: path.clone() },
        VendorErrorOf::CreateFile { path, source } => VendorErrorOf::CreateFile {
            path: path.clone(),
            source: source.clone(),
        },
        VendorErrorOf::SetFilePermissions { path, source } => VendorErrorOf::SetFilePermissions {
            path: path.clone(),
            source: source.clone(),
        },
        VendorErrorOf::WriteFile { path, source } => VendorErrorOf::WriteFile {
            path: path.clone(),
            source: source.clone(),
        },
        VendorErrorOf::RemoveFile { path, source } => VendorErrorOf::RemoveFile {
            path: path.clone(),
            source: source.clone(),
        },
        VendorErrorOf::SetMtime { path, source } => VendorErrorOf::SetMtime {
            path: path.clone(),
            source: source.clone(),
        },
        VendorErrorOf::Environment { var, source } => VendorErrorOf::Environment {
            var: var.clone(),
            source: source.clone(),
        },
        VendorErrorOf::CommandStart { source } => VendorErrorOf::CommandStart {
            source: source.clone(),
        },
        VendorErrorOf::DockerExecution { tool, args } => VendorErrorOf::DockerExecution {
            tool: tool.clone(),
            args: args.clone(),
        },
    }
}

/// Makes a copy of a list of texts.
fn clone_texts(texts: &Vec<String>) -> (copy: Vec<String>)
    ensures
        copy.deep_view() == texts.deep_view(),
{
    let mut copy: Vec<String> = Vec::new();
    let mut i: usize = 0;
    while i < texts.len()
        invariant
            i <= texts@.len(),
            copy@.len() == i,
            forall|k: int| 0 <= k < i ==> (#[trigger] copy@[k])@ == texts@[k]@,
        decreases texts@.len() - i,
    {
        copy.push(texts[i].clone());
        i += 1;
    }
    assert(copy.deep_view() =~= texts.deep_view());
    copy
}

impl VendorRun {
    fn script_place(&self) -> (place: PlaceOf<String>)
        ensures
            place@ == script_place(self@.job),
    {
        PlaceOf { dir: Dir::Package, name: self.job.script_name.clone() }
    }

    /// The action that the run waits for.
    pub fn action(&self) -> (action: Action)
        ensures
            action@ == pending(self@.job, self@.stage),
    {
        proof {
            use_type_invariant(self);
        }
        match &self.stage {
            StageOf::CheckInput => ActionOf::CheckFile {
                place: PlaceOf { dir: Dir::Package, name: self.job.local_file_name.clone() },
            },
            StageOf::AnnounceOutput => ActionOf::Print {
                line: "cargo:rerun-if-changed=".to_string().concat(self.job.output_path.as_str()),
            },
            StageOf::CreateScript => ActionOf::CreateFile { place: self.script_place() },
            StageOf::SetPermissions => ActionOf::SetMode {
                place: self.script_place(),
                mode: SCRIPT_MODE,
            },
            StageOf::WriteScript => ActionOf::WriteFile {
                place: self.script_place(),
                contents: self.job.script.clone(),
            },
            StageOf::CheckDenyConfig => ActionOf::CheckFile {
                place: PlaceOf { dir: Dir::Root, name: DENY_CONFIG.to_string() },
            },
            StageOf::ReadToolsDir => ActionOf::ReadEnvironment { var: TOOLS_DIR_VAR.to_string() },
            StageOf::AnnounceProgram { program } => ActionOf::Print {
                line: "program: ".to_string().concat(program.as_str()),
            },
            StageOf::RunTool { program } => ActionOf::Run {
                program: program.clone(),
                args: match &self.job.args {
                    Some(args) => clone_texts(args),
                    None => Vec::new(),
                },
            },
            StageOf::PrintOutput { success: _, output } => ActionOf::Print {
                line: output.clone(),
            },
            StageOf::RemoveScript { outcome: _ } => ActionOf::RemoveFile {
                place: self.script_place(),
            },
            StageOf::SetMtime => ActionOf::SetMtime { path: self.job.output_path.clone() },
            StageOf::Finished { outcome } => ActionOf::Finish {
                outcome: match outcome {
                    Ok(()) => Ok(()),
                    Err(e) => Err(clone_error(e)),
                },
            },
        }
    }

    /// Takes the run on, given what came of the pending action.
    pub fn advance(self, event: Event) -> (next: VendorRun)
        ensures
            next@.job == self@.job,
            next@.stage == next_stage(self@.job, self@.stage, event@),
    {
        proof {
            use_type_invariant(&self);
        }
        let VendorRun { job, stage } = self;
        let stage: Stage = match (stage, event) {
            (StageOf::CheckInput, EventOf::Checked { found }) => if found {
                StageOf::AnnounceOutput
            } else {
                StageOf::Finished {
                    outcome: Err(VendorErrorOf::InputFileBad { path: job.input_path.clone() }),
                }
            },
            (StageOf::AnnounceOutput, EventOf::Succeeded) => StageOf::CreateScript,
            (StageOf::CreateScript, EventOf::Succeeded) => StageOf::SetPermissions,
            (StageOf::CreateScript, EventOf::Failed { source }) => StageOf::Finished {
                outcome: Err(VendorErrorOf::CreateFile { path: job.script_path.clone(), source }),
            },
            (StageOf::SetPermissions, EventOf::Succeeded) => StageOf::WriteScript,
            (StageOf::SetPermissions, EventOf::Failed { source }) => StageOf::Finished {
                outcome: Err(
                    VendorErrorOf::SetFilePermissions { path: job.script_path.clone(), source },
                ),
            },
            (StageOf::WriteScript, EventOf::Succeeded) => StageOf::CheckDenyConfig,
            (StageOf::WriteScript, EventOf::Failed { source }) => StageOf::Finished {
                outcome: Err(VendorErrorOf::WriteFile { path: job.script_path.clone(), source }),
            },
            (StageOf::CheckDenyConfig, EventOf::Checked { found }) => if !found {
                StageOf::RemoveScript {
                    outcome: Err(VendorErrorOf::InputFileBad { path: job.deny_config.clone() }),
                }
            } else if job.args.is_none() {
                StageOf::RemoveScript { outcome: Err(VendorErrorOf::InputFile) }
            } else {
                StageOf::ReadToolsDir
            },
            (StageOf::ReadToolsDir, EventOf::Value { text }) => StageOf::AnnounceProgram {
                program: join_path(text.as_str(), job.tool.as_str()),
            },
            (StageOf::ReadToolsDir, EventOf::Failed { source }) => StageOf::RemoveScript {
                outcome: Err(
                    VendorErrorOf::Environment { var: TOOLS_DIR_VAR.to_string(), source },
                ),
            },
            (StageOf::AnnounceProgram { program }, EventOf::Succeeded) => StageOf::RunTool {
                program,
            },
            (StageOf::RunTool { program: _ }, EventOf::Exited { success, output }) => {
                StageOf::PrintOutput { success, output }
            },
            (StageOf::RunTool { program: _ }, EventOf::Failed { source }) => {
                StageOf::RemoveScript { outcome: Err(VendorErrorOf::CommandStart { source }) }
            },
            (StageOf::PrintOutput { success, output: _ }, EventOf::Succeeded) => if success {
                StageOf::RemoveScript { outcome: Ok(()) }
            } else {
                StageOf::RemoveScript {
                    outcome: Err(
                        VendorErrorOf::DockerExecution {
                            tool: job.tool.clone(),
                            args: match &job.args {
                                Some(args) => join_all(args, " "),
                                None => String::new(),
                            },
                        },
                    ),
                }
            },
            (StageOf::RemoveScript { outcome }, EventOf::Succeeded) => match outcome {
                Ok(()) => StageOf::SetMtime,
                Err(e) => StageOf::Finished { outcome: Err(e) },
            },
            (StageOf::RemoveScript { outcome: _ }, EventOf::Failed { source }) => {
                StageOf::Finished {
                    outcome: Err(
                        VendorErrorOf::RemoveFile { path: job.script_path.clone(), source },
                    ),
                }
            },
            (StageOf::SetMtime, EventOf::Succeeded) => StageOf::Finished { outcome: Ok(()) },
            (StageOf::SetMtime, EventOf::Failed { source }) => StageOf::Finished {
                outcome: Err(VendorErrorOf::SetMtime { path: job.output_path.clone(), source }),
            },
            (stage, _) => stage,
        };
        VendorRun { job, stage }
    }
}

/// Vendoring of Go and Rust modules.
pub struct VendorMod;

/// A freshly planned run, or why there is none.
pub open spec fn started(
    config: VendorConfig,
    root_dir: DirPath,
    package_dir: DirPath,
    external_file: ExternalFile,
    sdk: Seq<char>,
    url_file_name: Result<Seq<char>, VendorErrorOf<Seq<char>>>,
) -> Result<JobView, VendorErrorOf<Seq<char>>> {
    match url_file_name {
        Err(e) => Err(e),
        Ok(name) => planned(config, root_dir, package_dir, external_file, sdk, name),
    }
}

impl VendorMod {
    /// Starts a vendoring run. The URL has to end in a file name even where the
    /// file is given a local name.
    pub fn vendor(
        config: &VendorConfig,
        root_dir: &DirPath,
        package_dir: &DirPath,
        external_file: &ExternalFile,
        sdk: &str,
    ) -> (result: Result<VendorRun, VendorError>)
        requires
            external_file.url@.len() <= i32::MAX,
        ensures
            ({
                let started = started(
                    *config,
                    *root_dir,
                    *package_dir,
                    *external_file,
                    sdk@,
                    file_name(external_file.url@, url_path_segments(external_file.url@)),
                );
                match result {
                    Ok(run) => started == Ok::<JobView, VendorErrorOf<Seq<char>>>(run@.job)
                        && run@.stage == StageView::CheckInput,
                    Err(e) => started == Err::<JobView, VendorErrorOf<Seq<char>>>(e@),
                }
            }),
            // A URL that has path segments ends in one of them.
            url_path_segments(external_file.url@) matches Ok(Some(segments)) ==> segments.len() > 0,
            // A file without a local name is refused for its name only where its URL ends in none.
            external_file.path is None && result is Err && result->Err_0 is InputFile ==> file_name(
                external_file.url@,
                url_path_segments(external_file.url@),
            ) == Ok::<Seq<char>, VendorErrorOf<Seq<char>>>(Seq::empty()),
    {
        let url_file_name = match extract_file_name(external_file.url.as_str()) {
            Ok(name) => name,
            Err(e) => return Err(e),
        };
        proof {
            law_plain_name(url_file_name@);
            assert(url_file_name@.len() == 0 ==> url_file_name@ =~= Seq::empty());
        }
        match plan(config, root_dir, package_dir, external_file, sdk, url_file_name) {
            Ok(job) => Ok(VendorRun { job, stage: Stage::CheckInput }),
            Err(e) => Err(e),
        }
    }
}

} // verus!
