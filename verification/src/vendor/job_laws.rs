//! What a vendoring run does, in terms of what
//! [`vendor`](super::run::VendorMod::vendor) was given.

use super::config::VendorConfig;
use super::error::VendorErrorOf;
use super::laws::{lemma_stage_step, stage_at};
use super::plan::{
    args_are_text, planned, rendered_script, tool_args, DirPath, ExternalFile, JobView,
};
use super::run::{
    next_stage, pending, started, ActionOf, ActionView, Dir, EventOf, EventView, PlaceOf, StageOf,
    StageView,
};
use crate::path::{components, joined_path};
use crate::text::joined;
use vstd::prelude::*;

verus! {

/// The bundle goes where the manifest says, whatever else it says. Where it
/// does not say, the bundle is called after the archive, and the archive, where
/// it is given no name of its own, after the end of its URL.
pub proof fn law_output_path(
    config: VendorConfig,
    root_dir: DirPath,
    package_dir: DirPath,
    external_file: ExternalFile,
    sdk: Seq<char>,
    url_file_name: Seq<char>,
)
    requires
        started(config, root_dir, package_dir, external_file, sdk, Ok(url_file_name)) is Ok,
    ensures
        ({
            let job =
                started(config, root_dir, package_dir, external_file, sdk, Ok(url_file_name))->Ok_0;
            &&& external_file.path matches Some(path) ==> job.local_file_name == path@
            &&& external_file.path is None ==> job.local_file_name == url_file_name
            &&& external_file.bundle_output_path matches Some(path) ==> job.output_path == path@
            &&& external_file.bundle_output_path is None ==> job.output_path == "bundled-"@
                + job.local_file_name
        }),
{
}

/// A run is refused for the archive's name alone, and exactly where the name is
/// not a single path component.
pub proof fn law_names_are_single_components(
    config: VendorConfig,
    root_dir: DirPath,
    package_dir: DirPath,
    external_file: ExternalFile,
    sdk: Seq<char>,
    url_file_name: Seq<char>,
)
    ensures
        ({
            let name = match external_file.path {
                Some(path) => path@,
                None => url_file_name,
            };
            let result =
                started(config, root_dir, package_dir, external_file, sdk, Ok(url_file_name));
            &&& components(name) == 1 <==> result is Ok
            &&& components(name) != 1 <==> result == Err::<JobView, VendorErrorOf<Seq<char>>>(
                VendorErrorOf::InputFile,
            )
        }),
{
}

/// A run starts with the job that is planned for the file name of its URL, and
/// does not start where the URL ends in none.
pub proof fn law_started(
    config: VendorConfig,
    root_dir: DirPath,
    package_dir: DirPath,
    external_file: ExternalFile,
    sdk: Seq<char>,
    url_file_name: Seq<char>,
    error: VendorErrorOf<Seq<char>>,
)
    ensures
        started(config, root_dir, package_dir, external_file, sdk, Ok(url_file_name)) == planned(
            config,
            root_dir,
            package_dir,
            external_file,
            sdk,
            url_file_name,
        ),
        started(config, root_dir, package_dir, external_file, sdk, Err(error)) == Err::<
            JobView,
            VendorErrorOf<Seq<char>>,
        >(error),
{
}

/// What a job holds follows from what the run was given: the names and the
/// tool from the configuration, the paths from the two directories.
pub proof fn law_job(
    config: VendorConfig,
    root_dir: DirPath,
    package_dir: DirPath,
    external_file: ExternalFile,
    sdk: Seq<char>,
    url_file_name: Seq<char>,
)
    requires
        started(config, root_dir, package_dir, external_file, sdk, Ok(url_file_name)) is Ok,
    ensures
        ({
            let archive = match external_file.path {
                Some(path) => path@,
                None => url_file_name,
            };
            let bundle = match external_file.bundle_output_path {
                Some(path) => path@,
                None => "bundled-"@ + archive,
            };
            let sub_dir = match external_file.bundle_root_path {
                Some(path) => path@,
                None => ""@,
            };
            let job =
                started(config, root_dir, package_dir, external_file, sdk, Ok(url_file_name))->Ok_0;
            &&& job.local_file_name == archive
            &&& job.output_path == bundle
            &&& job.script_name == config.script_name@
            &&& job.tool == config.docker_tool@
            &&& job.script == rendered_script(config.script_template@, archive, sub_dir, bundle)
            &&& job.input_path == joined_path(package_dir.text@, archive)
            &&& job.script_path == joined_path(package_dir.text@, config.script_name@)
            &&& job.deny_config == joined_path(root_dir.text@, "sources/deny.toml"@)
        }),
{
    reveal_strlit("");
    assert(""@ =~= Seq::empty());
}

/// The tool is run with ten arguments: four options, each with its value, and
/// the cache directory's option, which the configuration names. The image is
/// the one that was asked for, to the letter; the cache and the license
/// configuration are those under the root.
pub proof fn law_tool_arguments(
    config: VendorConfig,
    root_dir: DirPath,
    package_dir: DirPath,
    external_file: ExternalFile,
    sdk: Seq<char>,
    url_file_name: Seq<char>,
    program: Seq<char>,
)
    requires
        started(config, root_dir, package_dir, external_file, sdk, Ok(url_file_name)) is Ok,
        package_dir.is_utf8,
        root_dir.is_utf8 || config.cache_dir@.len() > 0 && config.cache_dir@[0] == '/',
    ensures
        ({
            let job =
                started(config, root_dir, package_dir, external_file, sdk, Ok(url_file_name))->Ok_0;
            &&& job.args is Some
            &&& pending(job, StageOf::RunTool { program }) matches ActionOf::Run {
                program: run,
                args,
            } && {
                &&& run == program
                &&& args.len() == 10
                &&& args[0] == "--module-path"@
                &&& args[1] == package_dir.text@
                &&& args[2] == "--sdk-image"@
                &&& args[3] == sdk
                &&& args[4] == config.cache_arg_name@
                &&& args[5] == joined_path(root_dir.text@, config.cache_dir@)
                &&& args[6] == "--deny-config"@
                &&& args[7] == joined_path(root_dir.text@, "sources/deny.toml"@)
                &&& args[8] == "--command"@
                &&& args[9] == "./"@ + config.script_name@
            }
        }),
{
}

/// Two runs that differ in the image alone run their tool with arguments that
/// differ in that place alone.
pub proof fn law_image_is_passed_on(
    config: VendorConfig,
    root_dir: DirPath,
    package_dir: DirPath,
    external_file: ExternalFile,
    sdk: Seq<char>,
    url_file_name: Seq<char>,
    other: Seq<char>,
    program: Seq<char>,
)
    requires
        started(config, root_dir, package_dir, external_file, sdk, Ok(url_file_name)) is Ok,
        package_dir.is_utf8,
        root_dir.is_utf8 || config.cache_dir@.len() > 0 && config.cache_dir@[0] == '/',
    ensures
        ({
            let stage = StageOf::RunTool { program };
            let a = pending(started(config, root_dir, package_dir, external_file, sdk, Ok(url_file_name))->Ok_0, stage);
            let b = pending(
                started(
                    config,
                    root_dir,
                    package_dir,
                    external_file,
                    other,
                    Ok(url_file_name),
                )->Ok_0,
                stage,
            );
            a is Run && b is Run && b->Run_args == a->Run_args.update(3, other) && a->Run_args[3]
                == sdk
        }),
{
    let a =
        started(config, root_dir, package_dir, external_file, sdk, Ok(url_file_name))->Ok_0.args->0;
    let b = started(
        config,
        root_dir,
        package_dir,
        external_file,
        other,
        Ok(url_file_name),
    )->Ok_0.args->0;
    assert(b =~= a.update(3, other));
}

/// Where the package directory or the cache directory cannot be written as
/// text, there are no arguments, and a run fails for it right before the tool.
pub proof fn law_arguments_are_text(
    config: VendorConfig,
    root_dir: DirPath,
    package_dir: DirPath,
    external_file: ExternalFile,
    sdk: Seq<char>,
    url_file_name: Seq<char>,
)
    requires
        started(config, root_dir, package_dir, external_file, sdk, Ok(url_file_name)) is Ok,
    ensures
        ({
            let job =
                started(config, root_dir, package_dir, external_file, sdk, Ok(url_file_name))->Ok_0;
            let writable = package_dir.is_utf8 && (root_dir.is_utf8 || config.cache_dir@.len() > 0
                && config.cache_dir@[0] == '/');
            &&& job.args is Some <==> writable
            &&& args_are_text(config, root_dir, package_dir) <==> writable
            &&& !writable ==> next_stage(
                job,
                StageOf::CheckDenyConfig,
                EventOf::Checked { found: true },
            ) == (StageView::RemoveScript { outcome: Err(VendorErrorOf::InputFile) })
            // A missing license configuration is reported all the same.
            &&& next_stage(job, StageOf::CheckDenyConfig, EventOf::Checked { found: false }) == (
            StageView::RemoveScript {
                outcome: Err(
                    VendorErrorOf::InputFileBad {
                        path: joined_path(root_dir.text@, "sources/deny.toml"@),
                    },
                ),
            })
        }),
{
}

/// The tool's arguments are the four options, the cache directory's, and their
/// values.
pub proof fn law_tool_args(
    module_dir: Seq<char>,
    sdk_image: Seq<char>,
    cache_arg_name: Seq<char>,
    cache_dir: Seq<char>,
    deny_config: Seq<char>,
    command: Seq<char>,
)
    ensures
        ({
            let args = tool_args(
                module_dir,
                sdk_image,
                cache_arg_name,
                cache_dir,
                deny_config,
                command,
            );
            &&& args.len() == 10
            &&& args.take(2) == seq!["--module-path"@, module_dir]
            &&& args.subrange(2, 4) == seq!["--sdk-image"@, sdk_image]
            &&& args.subrange(4, 6) == seq![cache_arg_name, cache_dir]
            &&& args.subrange(6, 8) == seq!["--deny-config"@, deny_config]
            &&& args.skip(8) == seq!["--command"@, command]
        }),
{
    let args = tool_args(module_dir, sdk_image, cache_arg_name, cache_dir, deny_config, command);
    assert(args.take(2) =~= seq!["--module-path"@, module_dir]);
    assert(args.subrange(2, 4) =~= seq!["--sdk-image"@, sdk_image]);
    assert(args.subrange(4, 6) =~= seq![cache_arg_name, cache_dir]);
    assert(args.subrange(6, 8) =~= seq!["--deny-config"@, deny_config]);
    assert(args.skip(8) =~= seq!["--command"@, command]);
}

/// A run in which everything goes well: it finds the archive, announces the
/// bundle, creates the script, opens it to everybody and writes it, finds the
/// license configuration, reads where the tools are, announces the tool and
/// runs it, prints what the tool said, removes the script, and sets the time of
/// the bundle. Then it is finished, and went well.
pub proof fn law_good_run(
    config: VendorConfig,
    root_dir: DirPath,
    package_dir: DirPath,
    external_file: ExternalFile,
    sdk: Seq<char>,
    url_file_name: Seq<char>,
    tools_dir: Seq<char>,
    output: Seq<char>,
)
    requires
        started(config, root_dir, package_dir, external_file, sdk, Ok(url_file_name)) is Ok,
        package_dir.is_utf8,
        root_dir.is_utf8 || config.cache_dir@.len() > 0 && config.cache_dir@[0] == '/',
    ensures
        ({
            let archive = match external_file.path {
                Some(path) => path@,
                None => url_file_name,
            };
            let bundle = match external_file.bundle_output_path {
                Some(path) => path@,
                None => "bundled-"@ + archive,
            };
            let sub_dir = match external_file.bundle_root_path {
                Some(path) => path@,
                None => ""@,
            };
            let script = PlaceOf { dir: Dir::Package, name: config.script_name@ };
            let program = joined_path(tools_dir, config.docker_tool@);
            let args = seq![
                "--module-path"@,
                package_dir.text@,
                "--sdk-image"@,
                sdk,
                config.cache_arg_name@,
                joined_path(root_dir.text@, config.cache_dir@),
                "--deny-config"@,
                joined_path(root_dir.text@, "sources/deny.toml"@),
                "--command"@,
                "./"@ + config.script_name@,
            ];
            let job =
                started(config, root_dir, package_dir, external_file, sdk, Ok(url_file_name))->Ok_0;
            let events = good_events(tools_dir, output);
            &&& pending(job, stage_at(job, events, 0)) == (ActionView::CheckFile {
                place: PlaceOf { dir: Dir::Package, name: archive },
            })
            &&& pending(job, stage_at(job, events, 1)) == (ActionView::Print {
                line: "cargo:rerun-if-changed="@ + bundle,
            })
            &&& pending(job, stage_at(job, events, 2)) == (ActionView::CreateFile {
                place: script,
            })
            &&& pending(job, stage_at(job, events, 3)) == (ActionView::SetMode {
                place: script,
                mode: 0o777,
            })
            &&& pending(job, stage_at(job, events, 4)) == (ActionView::WriteFile {
                place: script,
                contents: rendered_script(config.script_template@, archive, sub_dir, bundle),
            })
            &&& pending(job, stage_at(job, events, 5)) == (ActionView::CheckFile {
                place: PlaceOf { dir: Dir::Root, name: "sources/deny.toml"@ },
            })
            &&& pending(job, stage_at(job, events, 6)) == (ActionView::ReadEnvironment {
                var: "TWOLITER_TOOLS_DIR"@,
            })
            &&& pending(job, stage_at(job, events, 7)) == (ActionView::Print {
                line: "program: "@ + program,
            })
            &&& pending(job, stage_at(job, events, 8)) == (ActionView::Run { program, args })
            &&& pending(job, stage_at(job, events, 9)) == (ActionView::Print { line: output })
            &&& pending(job, stage_at(job, events, 10)) == (ActionView::RemoveFile {
                place: script,
            })
            &&& pending(job, stage_at(job, events, 11)) == (ActionView::SetMtime {
                path: bundle,
            })
            &&& pending(job, stage_at(job, events, 12)) == (ActionView::Finish {
                outcome: Ok(()),
            })
        }),
{
    law_job(config, root_dir, package_dir, external_file, sdk, url_file_name);
    let job = started(config, root_dir, package_dir, external_file, sdk, Ok(url_file_name))->Ok_0;
    let events = good_events(tools_dir, output);
    assert(events.len() == 12);
    lemma_stage_step(job, events, 0);
    lemma_stage_step(job, events, 1);
    lemma_stage_step(job, events, 2);
    lemma_stage_step(job, events, 3);
    lemma_stage_step(job, events, 4);
    lemma_stage_step(job, events, 5);
    lemma_stage_step(job, events, 6);
    lemma_stage_step(job, events, 7);
    lemma_stage_step(job, events, 8);
    lemma_stage_step(job, events, 9);
    lemma_stage_step(job, events, 10);
    lemma_stage_step(job, events, 11);
}

/// Whatever its directories are called, a run goes well up to the check of the
/// license configuration in the same way: it finds the archive, announces the
/// bundle, and creates the script, opens it to everybody and writes it.
pub proof fn law_script_is_prepared(
    config: VendorConfig,
    root_dir: DirPath,
    package_dir: DirPath,
    external_file: ExternalFile,
    sdk: Seq<char>,
    url_file_name: Seq<char>,
    tools_dir: Seq<char>,
    output: Seq<char>,
)
    requires
        started(config, root_dir, package_dir, external_file, sdk, Ok(url_file_name)) is Ok,
    ensures
        ({
            let archive = match external_file.path {
                Some(path) => path@,
                None => url_file_name,
            };
            let bundle = match external_file.bundle_output_path {
                Some(path) => path@,
                None => "bundled-"@ + archive,
            };
            let sub_dir = match external_file.bundle_root_path {
                Some(path) => path@,
                None => ""@,
            };
            let script = PlaceOf { dir: Dir::Package, name: config.script_name@ };
            let job =
                started(config, root_dir, package_dir, external_file, sdk, Ok(url_file_name))->Ok_0;
            let events = good_events(tools_dir, output);
            &&& pending(job, stage_at(job, events, 0)) == (ActionView::CheckFile {
                place: PlaceOf { dir: Dir::Package, name: archive },
            })
            &&& pending(job, stage_at(job, events, 1)) == (ActionView::Print {
                line: "cargo:rerun-if-changed="@ + bundle,
            })
            &&& pending(job, stage_at(job, events, 2)) == (ActionView::CreateFile {
                place: script,
            })
            &&& pending(job, stage_at(job, events, 3)) == (ActionView::SetMode {
                place: script,
                mode: 0o777,
            })
            &&& pending(job, stage_at(job, events, 4)) == (ActionView::WriteFile {
                place: script,
                contents: rendered_script(config.script_template@, archive, sub_dir, bundle),
            })
            &&& pending(job, stage_at(job, events, 5)) == (ActionView::CheckFile {
                place: PlaceOf { dir: Dir::Root, name: "sources/deny.toml"@ },
            })
        }),
{
    law_job(config, root_dir, package_dir, external_file, sdk, url_file_name);
    let job = started(config, root_dir, package_dir, external_file, sdk, Ok(url_file_name))->Ok_0;
    let events = good_events(tools_dir, output);
    assert(events.len() == 12);
    lemma_stage_step(job, events, 0);
    lemma_stage_step(job, events, 1);
    lemma_stage_step(job, events, 2);
    lemma_stage_step(job, events, 3);
    lemma_stage_step(job, events, 4);
}

/// What comes of the twelve actions of a run in which everything goes well.
pub open spec fn good_events(tools_dir: Seq<char>, output: Seq<char>) -> Seq<EventView> {
    seq![
        EventOf::Checked { found: true },
        EventOf::Succeeded,
        EventOf::Succeeded,
        EventOf::Succeeded,
        EventOf::Succeeded,
        EventOf::Checked { found: true },
        EventOf::Value { text: tools_dir },
        EventOf::Succeeded,
        EventOf::Exited { success: true, output },
        EventOf::Succeeded,
        EventOf::Succeeded,
        EventOf::Succeeded,
    ]
}

/// What goes wrong before the script is there to be run, or when it is removed
/// or afterwards, ends the run, with an error that names the file and what was
/// reported of it.
pub proof fn law_early_and_late_failures(
    config: VendorConfig,
    root_dir: DirPath,
    package_dir: DirPath,
    external_file: ExternalFile,
    sdk: Seq<char>,
    url_file_name: Seq<char>,
    outcome: Result<(), VendorErrorOf<Seq<char>>>,
    source: Seq<char>,
)
    requires
        started(config, root_dir, package_dir, external_file, sdk, Ok(url_file_name)) is Ok,
    ensures
        ({
            let archive = match external_file.path {
                Some(path) => path@,
                None => url_file_name,
            };
            let bundle = match external_file.bundle_output_path {
                Some(path) => path@,
                None => "bundled-"@ + archive,
            };
            let script = joined_path(package_dir.text@, config.script_name@);
            let job =
                started(config, root_dir, package_dir, external_file, sdk, Ok(url_file_name))->Ok_0;
            let failure = EventOf::Failed { source };
            &&& next_stage(job, StageOf::CheckInput, EventOf::Checked { found: false }) == (
            StageView::Finished {
                outcome: Err(
                    VendorErrorOf::InputFileBad { path: joined_path(package_dir.text@, archive) },
                ),
            })
            &&& next_stage(job, StageOf::CreateScript, failure) == (StageView::Finished {
                outcome: Err(VendorErrorOf::CreateFile { path: script, source }),
            })
            &&& next_stage(job, StageOf::SetPermissions, failure) == (StageView::Finished {
                outcome: Err(VendorErrorOf::SetFilePermissions { path: script, source }),
            })
            &&& next_stage(job, StageOf::WriteScript, failure) == (StageView::Finished {
                outcome: Err(VendorErrorOf::WriteFile { path: script, source }),
            })
            &&& next_stage(job, StageOf::RemoveScript { outcome }, failure) == (
            StageView::Finished {
                outcome: Err(VendorErrorOf::RemoveFile { path: script, source }),
            })
            &&& next_stage(job, StageOf::SetMtime, failure) == (StageView::Finished {
                outcome: Err(VendorErrorOf::SetMtime { path: bundle, source }),
            })
        }),
{
    law_job(config, root_dir, package_dir, external_file, sdk, url_file_name);
}

/// What goes wrong with the tool or on the way to it is reported once the
/// script is removed. A tool that failed is reported with its name and with its
/// arguments, a blank between each two.
pub proof fn law_tool_failures(
    config: VendorConfig,
    root_dir: DirPath,
    package_dir: DirPath,
    external_file: ExternalFile,
    sdk: Seq<char>,
    url_file_name: Seq<char>,
    program: Seq<char>,
    output: Seq<char>,
    source: Seq<char>,
)
    requires
        started(config, root_dir, package_dir, external_file, sdk, Ok(url_file_name)) is Ok,
        package_dir.is_utf8,
        root_dir.is_utf8 || config.cache_dir@.len() > 0 && config.cache_dir@[0] == '/',
    ensures
        ({
            let args = seq![
                "--module-path"@,
                package_dir.text@,
                "--sdk-image"@,
                sdk,
                config.cache_arg_name@,
                joined_path(root_dir.text@, config.cache_dir@),
                "--deny-config"@,
                joined_path(root_dir.text@, "sources/deny.toml"@),
                "--command"@,
                "./"@ + config.script_name@,
            ];
            let job =
                started(config, root_dir, package_dir, external_file, sdk, Ok(url_file_name))->Ok_0;
            let failure = EventOf::Failed { source };
            let no_config: VendorErrorOf<Seq<char>> = VendorErrorOf::InputFileBad {
                path: joined_path(root_dir.text@, "sources/deny.toml"@),
            };
            let no_tools: VendorErrorOf<Seq<char>> = VendorErrorOf::Environment {
                var: "TWOLITER_TOOLS_DIR"@,
                source,
            };
            let no_start: VendorErrorOf<Seq<char>> = VendorErrorOf::CommandStart { source };
            let bad_exit: VendorErrorOf<Seq<char>> = VendorErrorOf::DockerExecution {
                tool: config.docker_tool@,
                args: joined(args, " "@),
            };
            &&& next_stage(job, StageOf::CheckDenyConfig, EventOf::Checked { found: false }) == (
            StageView::RemoveScript { outcome: Err(no_config) })
            &&& next_stage(job, StageOf::ReadToolsDir, failure) == (StageView::RemoveScript {
                outcome: Err(no_tools),
            })
            &&& next_stage(job, StageOf::RunTool { program }, failure) == (
            StageView::RemoveScript { outcome: Err(no_start) })
            &&& next_stage(
                job,
                StageOf::PrintOutput { success: false, output },
                EventOf::Succeeded,
            ) == (StageView::RemoveScript { outcome: Err(bad_exit) })
            &&& next_stage(
                job,
                StageOf::RunTool { program },
                EventOf::Exited { success: false, output },
            ) == (StageView::PrintOutput { success: false, output })
        }),
{
    law_job(config, root_dir, package_dir, external_file, sdk, url_file_name);
}

/// What the tool said is printed whether or not it failed, the script is
/// removed whatever came of the tool, and what a run came to is handed to its
/// owner as it is.
pub proof fn law_reports(
    config: VendorConfig,
    root_dir: DirPath,
    package_dir: DirPath,
    external_file: ExternalFile,
    sdk: Seq<char>,
    url_file_name: Seq<char>,
    success: bool,
    output: Seq<char>,
    outcome: Result<(), VendorErrorOf<Seq<char>>>,
)
    requires
        started(config, root_dir, package_dir, external_file, sdk, Ok(url_file_name)) is Ok,
    ensures
        ({
            let job =
                started(config, root_dir, package_dir, external_file, sdk, Ok(url_file_name))->Ok_0;
            &&& pending(job, StageOf::PrintOutput { success, output }) == (ActionView::Print {
                line: output,
            })
            &&& pending(job, StageOf::RemoveScript { outcome }) == (ActionView::RemoveFile {
                place: PlaceOf { dir: Dir::Package, name: config.script_name@ },
            })
            &&& pending(job, StageOf::Finished { outcome }) == (ActionView::Finish { outcome })
            &&& outcome is Err ==> next_stage(
                job,
                StageOf::RemoveScript { outcome },
                EventOf::Succeeded,
            ) == (StageView::Finished { outcome })
        }),
{
}

} // verus!
