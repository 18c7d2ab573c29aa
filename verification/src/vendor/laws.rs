//! What holds of every vendoring run, whatever comes of its actions.

use super::config::VendorConfig;
use super::error::VendorErrorOf;
use super::plan::{args_are_text, planned, rendered_script, text_or, DirPath, ExternalFile, JobView};
use super::run::{
    needs_args, next_stage, pending, script_place, ActionView, EventOf, EventView, StageOf, StageView,
};
use crate::path::components;
use vstd::prelude::*;

verus! {

/// Where a run stands after the events, if it stood at `stage` before them.
pub open spec fn stage_after(job: JobView, stage: StageView, events: Seq<EventView>) -> StageView
    decreases events.len(),
{
    if events.len() == 0 {
        stage
    } else {
        next_stage(job, stage_after(job, stage, events.drop_last()), events.last())
    }
}

/// Where a fresh run stands after the first `n` of the events.
pub open spec fn stage_at(job: JobView, events: Seq<EventView>, n: int) -> StageView {
    stage_after(job, StageOf::CheckInput, events.take(n))
}

/// The stages in the order in which a run goes through them.
pub open spec fn position(stage: StageView) -> nat {
    match stage {
        StageOf::CheckInput => 0,
        StageOf::AnnounceOutput => 1,
        StageOf::CreateScript => 2,
        StageOf::SetPermissions => 3,
        StageOf::WriteScript => 4,
        StageOf::CheckDenyConfig => 5,
        StageOf::ReadToolsDir => 6,
        StageOf::AnnounceProgram { program } => 7,
        StageOf::RunTool { program } => 8,
        StageOf::PrintOutput { success, output } => 9,
        StageOf::RemoveScript { outcome } => 10,
        StageOf::SetMtime => 11,
        StageOf::Finished { outcome } => 12,
    }
}

/// Whether an event can come of the action that a stage waits for.
pub open spec fn answers(stage: StageView, event: EventView) -> bool {
    match stage {
        StageOf::CheckInput | StageOf::CheckDenyConfig => event is Checked,
        StageOf::AnnounceOutput => event is Succeeded,
        StageOf::CreateScript | StageOf::SetPermissions | StageOf::WriteScript => event is Succeeded
            || event is Failed,
        StageOf::ReadToolsDir => event is Value || event is Failed,
        StageOf::AnnounceProgram { program } => event is Succeeded,
        StageOf::RunTool { program } => event is Exited || event is Failed,
        StageOf::PrintOutput { success, output } => event is Succeeded,
        StageOf::RemoveScript { outcome } => event is Succeeded || event is Failed,
        StageOf::SetMtime => event is Succeeded || event is Failed,
        StageOf::Finished { outcome } => false,
    }
}

/// Whether a stage comes between the writing of the script and its removal.
pub open spec fn script_written(stage: StageView) -> bool {
    5 <= position(stage) <= 10
}

/// Every answer to the pending action takes a run forward, and nothing else
/// moves it. So a run ends after twelve answers at the latest.
pub proof fn law_run_moves_forward(job: JobView, stage: StageView, event: EventView)
    ensures
        answers(stage, event) ==> position(next_stage(job, stage, event)) > position(stage),
        !answers(stage, event) ==> next_stage(job, stage, event) == stage,
        position(stage) <= 12,
        position(stage) == 12 <==> stage is Finished,
{
}

/// A run in which every event answers the pending action is finished after
/// twelve of them, or sooner.
pub proof fn law_run_ends(job: JobView, events: Seq<EventView>)
    requires
        forall|i: int|
            0 <= i < events.len() && !(stage_at(job, events, i) is Finished) ==> answers(
                #[trigger] stage_at(job, events, i),
                events[i],
            ),
        events.len() >= 12,
    ensures
        stage_at(job, events, events.len() as int) is Finished,
{
    lemma_answered_position(job, events, events.len() as int);
}

proof fn lemma_answered_position(job: JobView, events: Seq<EventView>, n: int)
    requires
        0 <= n <= events.len(),
        forall|i: int|
            0 <= i < n && !(stage_at(job, events, i) is Finished) ==> answers(
                #[trigger] stage_at(job, events, i),
                events[i],
            ),
    ensures
        position(stage_at(job, events, n)) >= n || stage_at(job, events, n) is Finished,
    decreases n,
{
    if n > 0 {
        lemma_answered_position(job, events, n - 1);
        lemma_stage_step(job, events, n - 1);
        law_run_moves_forward(job, stage_at(job, events, n - 1), events[n - 1]);
    }
}

/// One event on.
pub(crate) proof fn lemma_stage_step(job: JobView, events: Seq<EventView>, n: int)
    requires
        0 <= n < events.len(),
    ensures
        stage_at(job, events, n + 1) == next_stage(job, stage_at(job, events, n), events[n]),
        n == 0 ==> stage_at(job, events, n) == StageView::CheckInput,
{
    assert(events.take(n + 1).drop_last() =~= events.take(n));
}

/// Past the check of the license configuration, the tool's arguments are
/// known.
pub proof fn law_args_known(job: JobView, stage: StageView, event: EventView)
    requires
        needs_args(stage) ==> job.args is Some,
    ensures
        needs_args(next_stage(job, stage, event)) ==> job.args is Some,
{
}

/// The tool is run only where the archive was found, and the script was
/// created, made executable and written before.
pub proof fn law_tool_runs_written_script(job: JobView, events: Seq<EventView>, n: int)
    requires
        0 <= n <= events.len(),
        script_written(stage_at(job, events, n)),
    ensures
        exists|k: int|
            0 <= k < n && #[trigger] stage_at(job, events, k) is CheckInput && events[k]
                == (EventView::Checked { found: true }),
        exists|k: int|
            0 <= k < n && #[trigger] stage_at(job, events, k) is CreateScript
                && events[k] is Succeeded,
        exists|k: int|
            0 <= k < n && #[trigger] stage_at(job, events, k) is SetPermissions
                && events[k] is Succeeded,
        exists|k: int|
            0 <= k < n && #[trigger] stage_at(job, events, k) is WriteScript
                && events[k] is Succeeded,
{
    lemma_passed(job, events, n);
}

/// A run that is at one of the stages before the removal of the script, or at
/// the removal, has passed all the stages up to the writing of the script that
/// come before its own, and each of them went well.
proof fn lemma_passed(job: JobView, events: Seq<EventView>, n: int)
    requires
        0 <= n <= events.len(),
        position(stage_at(job, events, n)) <= 10,
    ensures
        position(stage_at(job, events, n)) > 0 ==> exists|k: int|
            0 <= k < n && #[trigger] stage_at(job, events, k) is CheckInput && events[k]
                == (EventView::Checked { found: true }),
        position(stage_at(job, events, n)) > 2 ==> exists|k: int|
            0 <= k < n && #[trigger] stage_at(job, events, k) is CreateScript
                && events[k] is Succeeded,
        position(stage_at(job, events, n)) > 3 ==> exists|k: int|
            0 <= k < n && #[trigger] stage_at(job, events, k) is SetPermissions
                && events[k] is Succeeded,
        position(stage_at(job, events, n)) > 4 ==> exists|k: int|
            0 <= k < n && #[trigger] stage_at(job, events, k) is WriteScript
                && events[k] is Succeeded,
    decreases n,
{
    if n > 0 {
        lemma_stage_step(job, events, n - 1);
        law_run_moves_forward(job, stage_at(job, events, n - 1), events[n - 1]);
        lemma_passed(job, events, n - 1);
    }
}

/// Once the script is written, a run does not end without its removal having
/// been tried.
pub proof fn law_script_is_removed(job: JobView, events: Seq<EventView>, m: int, n: int)
    requires
        0 <= m <= n <= events.len(),
        script_written(stage_at(job, events, m)),
        !script_written(stage_at(job, events, n)),
    ensures
        exists|k: int|
            m <= k < n && #[trigger] stage_at(job, events, k) is RemoveScript && (
            events[k] is Succeeded || events[k] is Failed),
    decreases n - m,
{
    let before = stage_at(job, events, n - 1);
    lemma_stage_step(job, events, n - 1);
    law_run_moves_forward(job, before, events[n - 1]);
    if !script_written(before) {
        law_script_is_removed(job, events, m, n - 1);
    }
}

/// The modification time is set only where the tool exited with success and
/// the script was removed.
pub proof fn law_mtime_only_after_success(job: JobView, events: Seq<EventView>, n: int)
    requires
        0 <= n <= events.len(),
        stage_at(job, events, n) is SetMtime,
    ensures
        exists|k: int|
            0 <= k < n && #[trigger] stage_at(job, events, k) is RunTool && events[k] is Exited
                && events[k]->success,
        exists|k: int|
            0 <= k < n && #[trigger] stage_at(job, events, k) is RemoveScript
                && events[k] is Succeeded,
{
    lemma_tool_succeeded(job, events, n);
}

/// Whether a stage comes only after the tool exited with success.
spec fn after_success(stage: StageView) -> bool {
    match stage {
        StageOf::PrintOutput { success, output } => success,
        StageOf::RemoveScript { outcome } => outcome is Ok,
        StageOf::SetMtime => true,
        StageOf::Finished { outcome } => outcome is Ok,
        _ => false,
    }
}

proof fn lemma_tool_succeeded(job: JobView, events: Seq<EventView>, n: int)
    requires
        0 <= n <= events.len(),
        after_success(stage_at(job, events, n)),
    ensures
        exists|k: int|
            0 <= k < n && #[trigger] stage_at(job, events, k) is RunTool && events[k] is Exited
                && events[k]->success,
        position(stage_at(job, events, n)) > 10 ==> exists|k: int|
            0 <= k < n && #[trigger] stage_at(job, events, k) is RemoveScript
                && events[k] is Succeeded,
        stage_at(job, events, n) is Finished ==> exists|k: int|
            0 <= k < n && #[trigger] stage_at(job, events, k) is SetMtime
                && events[k] is Succeeded,
    decreases n,
{
    if n == 0 {
        assert(events.take(0).len() == 0);
    } else {
        let before = stage_at(job, events, n - 1);
        lemma_stage_step(job, events, n - 1);
        if after_success(before) {
            lemma_tool_succeeded(job, events, n - 1);
        } else {
            assert(before is RunTool);
        }
    }
}

/// A run ends well only where the tool exited with success, the script was
/// removed and the modification time of the bundle was set.
pub proof fn law_success_means_all_went_well(job: JobView, events: Seq<EventView>, n: int)
    requires
        0 <= n <= events.len(),
        stage_at(job, events, n) == (StageView::Finished { outcome: Ok(()) }),
    ensures
        exists|k: int|
            0 <= k < n && #[trigger] stage_at(job, events, k) is RunTool && events[k] is Exited
                && events[k]->success,
        exists|k: int|
            0 <= k < n && #[trigger] stage_at(job, events, k) is RemoveScript
                && events[k] is Succeeded,
        exists|k: int|
            0 <= k < n && #[trigger] stage_at(job, events, k) is SetMtime
                && events[k] is Succeeded,
{
    lemma_tool_succeeded(job, events, n);
}

/// Where everything goes well, the run ends well: the tool is the one of that
/// name in the directory that the environment names.
pub proof fn law_all_well_ends_well(job: JobView, tools_dir: Seq<char>, output: Seq<char>)
    requires
        job.args is Some,
    ensures
        stage_after(
            job,
            StageOf::CheckInput,
            seq![
                EventOf::Checked { found: true },
                EventOf::Succeeded,
                EventOf::Succeeded,
                EventOf::Succeeded,
                EventOf::Succeeded,
                EventOf::Checked { found: true },
                EventOf::Value { text: tools_dir },
                EventOf::Succeeded,
                EventOf::Exited { success: true, output },
                EventOf::Succeeded,
                EventOf::Succeeded,
                EventOf::Succeeded,
            ],
        ) == (StageView::Finished { outcome: Ok(()) }),
{
    let events: Seq<EventView> = seq![
        EventOf::Checked { found: true },
        EventOf::Succeeded,
        EventOf::Succeeded,
        EventOf::Succeeded,
        EventOf::Succeeded,
        EventOf::Checked { found: true },
        EventOf::Value { text: tools_dir },
        EventOf::Succeeded,
        EventOf::Exited { success: true, output },
        EventOf::Succeeded,
        EventOf::Succeeded,
        EventOf::Succeeded,
    ];
    lemma_stage_step(job, events, 0);
    lemma_stage_step(job, events, 1);
    lemma_stage_step(job, events, 2);
    lemma_stage_step(job, events, 3);
    lemma_stage_step(job, events, 4);
    lemma_stage_step(job, events, 5);
    lemma_stage_step(job, events, 6);
    lemma_stage_step(job, events, 7);
    lemma_stage_step(job, events, 8);
    lemma_stage_step(job, events, 9);
    lemma_stage_step(job, events, 10);
    lemma_stage_step(job, events, 11);
    assert(events.take(12) =~= events);
}

/// What came of the tool is what the run reports, unless the script cannot be
/// removed: that comes first.
pub proof fn law_removal_failure_comes_first(
    job: JobView,
    outcome: Result<(), VendorErrorOf<Seq<char>>>,
    source: Seq<char>,
)
    ensures
        outcome is Err ==> next_stage(job, StageOf::RemoveScript { outcome }, EventOf::Succeeded)
            == (StageView::Finished { outcome }),
        next_stage(job, StageOf::RemoveScript { outcome }, EventOf::Failed { source }) == (
        StageView::Finished {
            outcome: Err(VendorErrorOf::RemoveFile { path: job.script_path, source }),
        }),
{
}

/// The file that a run creates, writes and removes is the one that the tool is
/// told to run, in the package directory; the bundle whose path goes into the
/// script is the one that is announced and whose modification time is set. The
/// tool's arguments are known exactly where the package directory and the cache
/// directory can be written as text.
pub proof fn law_job_is_consistent(
    config: VendorConfig,
    root_dir: DirPath,
    package_dir: DirPath,
    external_file: ExternalFile,
    sdk: Seq<char>,
    url_file_name: Seq<char>,
    outcome: Result<(), VendorErrorOf<Seq<char>>>,
)
    requires
        planned(config, root_dir, package_dir, external_file, sdk, url_file_name) is Ok,
    ensures
        ({
            let job =
                planned(config, root_dir, package_dir, external_file, sdk, url_file_name)->Ok_0;
            &&& components(job.local_file_name) == 1
            &&& pending(job, StageOf::CreateScript) == (ActionView::CreateFile {
                place: script_place(job),
            })
            &&& pending(job, StageOf::WriteScript) == (ActionView::WriteFile {
                place: script_place(job),
                contents: rendered_script(
                    config.script_template@,
                    job.local_file_name,
                    text_or(external_file.bundle_root_path, Seq::empty()),
                    job.output_path,
                ),
            })
            &&& pending(job, StageOf::RemoveScript { outcome }) == (ActionView::RemoveFile {
                place: script_place(job),
            })
            &&& job.args is Some <==> args_are_text(config, root_dir, package_dir)
            &&& job.args is Some ==> {
                &&& job.args->0.len() == 10
                &&& job.args->0[1] == package_dir.text@
                &&& job.args->0[9] == "./"@ + job.script_name
            }
            &&& pending(job, StageOf::AnnounceOutput) == (ActionView::Print {
                line: "cargo:rerun-if-changed="@ + job.output_path,
            })
            &&& pending(job, StageOf::SetMtime) == (ActionView::SetMtime { path: job.output_path })
        }),
{
}

} // verus!
