//! Contracts speak of the texts that a value holds, each of them as it is.

use super::error::{VendorError, VendorErrorOf};
use super::plan::Job;
use super::run::{
    outcome_view, Action, ActionOf, ActionView, Event, EventOf, EventView, PlaceOf,
};
use vstd::prelude::*;

verus! {

/// An error is looked at as its kind and its texts.
pub proof fn law_error_view(error: VendorError)
    ensures
        match error {
            VendorErrorOf::InputUrl { url, source } => error@ == (VendorErrorOf::InputUrl {
                url: url@,
                source: source@,
            }),
            VendorErrorOf::InputFile => error@ == VendorErrorOf::<Seq<char>>::InputFile,
            VendorErrorOf::InputFileBad { path } => error@ == (VendorErrorOf::InputFileBad {
                path: path@,
            }),
            VendorErrorOf::CreateFile { path, source } => error@ == (VendorErrorOf::CreateFile {
                path: path@,
                source: source@,
            }),
            VendorErrorOf::SetFilePermissions { path, source } => error@ == (
            VendorErrorOf::SetFilePermissions { path: path@, source: source@ }),
            VendorErrorOf::WriteFile { path, source } => error@ == (VendorErrorOf::WriteFile {
                path: path@,
                source: source@,
            }),
            VendorErrorOf::RemoveFile { path, source } => error@ == (VendorErrorOf::RemoveFile {
                path: path@,
                source: source@,
            }),
            VendorErrorOf::SetMtime { path, source } => error@ == (VendorErrorOf::SetMtime {
                path: path@,
                source: source@,
            }),
            VendorErrorOf::Environment { var, source } => error@ == (VendorErrorOf::Environment {
                var: var@,
                source: source@,
            }),
            VendorErrorOf::CommandStart { source } => error@ == (VendorErrorOf::CommandStart {
                source: source@,
            }),
            VendorErrorOf::DockerExecution { tool, args } => error@ == (
            VendorErrorOf::DockerExecution { tool: tool@, args: args@ }),
        },
        outcome_view(Err(error)) == Err::<(), VendorErrorOf<Seq<char>>>(error@),
        outcome_view(Ok(())) == Ok::<(), VendorErrorOf<Seq<char>>>(()),
{
}

/// A job is looked at as its texts, and its arguments as texts in their order.
pub proof fn law_job_view(job: Job, i: int)
    ensures
        job@.local_file_name == job.local_file_name@,
        job@.script_name == job.script_name@,
        job@.script == job.script@,
        job@.output_path == job.output_path@,
        job@.tool == job.tool@,
        job@.input_path == job.input_path@,
        job@.script_path == job.script_path@,
        job@.deny_config == job.deny_config@,
        job@.args is Some <==> job.args is Some,
        job.args matches Some(args) ==> job@.args->0.len() == args@.len() && (0 <= i < args@.len()
            ==> job@.args->0[i] == args@[i]@),
{
}

/// An event is looked at as what came of an action.
pub proof fn law_event_view(event: Event)
    ensures
        match event {
            EventOf::Checked { found } => event@ == (EventView::Checked { found }),
            EventOf::Succeeded => event@ == EventView::Succeeded,
            EventOf::Failed { source } => event@ == (EventView::Failed { source: source@ }),
            EventOf::Value { text } => event@ == (EventView::Value { text: text@ }),
            EventOf::Exited { success, output } => event@ == (EventView::Exited {
                success,
                output: output@,
            }),
        },
{
}

/// An action is looked at as what is to be done, to the last text and in the
/// same order.
pub proof fn law_action_view(action: Action, i: int)
    ensures
        match action {
            ActionOf::CheckFile { place } => action@ == (ActionView::CheckFile {
                place: PlaceOf { dir: place.dir, name: place.name@ },
            }),
            ActionOf::Print { line } => action@ == (ActionView::Print { line: line@ }),
            ActionOf::CreateFile { place } => action@ == (ActionView::CreateFile {
                place: PlaceOf { dir: place.dir, name: place.name@ },
            }),
            ActionOf::SetMode { place, mode } => action@ == (ActionView::SetMode {
                place: PlaceOf { dir: place.dir, name: place.name@ },
                mode,
            }),
            ActionOf::WriteFile { place, contents } => action@ == (ActionView::WriteFile {
                place: PlaceOf { dir: place.dir, name: place.name@ },
                contents: contents@,
            }),
            ActionOf::ReadEnvironment { var } => action@ == (ActionView::ReadEnvironment {
                var: var@,
            }),
            ActionOf::Run { program, args } => {
                &&& action@ is Run
                &&& action@->Run_program == program@
                &&& action@->Run_args.len() == args@.len()
                &&& 0 <= i < args@.len() ==> action@->Run_args[i] == args@[i]@
            },
            ActionOf::RemoveFile { place } => action@ == (ActionView::RemoveFile {
                place: PlaceOf { dir: place.dir, name: place.name@ },
            }),
            ActionOf::SetMtime { path } => action@ == (ActionView::SetMtime { path: path@ }),
            ActionOf::Finish { outcome: Ok(()) } => action@ == (ActionView::Finish {
                outcome: Ok(()),
            }),
            ActionOf::Finish { outcome: Err(error) } => action@ == (ActionView::Finish {
                outcome: Err(error@),
            }),
        },
{
}

} // verus!
