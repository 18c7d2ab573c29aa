use twoliter_tools::path::{component_count, join_path};
use twoliter_tools::vendor::config::{go_config, rust_config, VendorConfig};
use twoliter_tools::vendor::error::{VendorError, VendorErrorOf};
use twoliter_tools::vendor::plan::{
    docker_tool_args, plan, render_script, DirPath, ExternalFile, Job,
};
use twoliter_tools::vendor::run::{Action, ActionOf, Dir, Event, EventOf, VendorMod, VendorRun};
use twoliter_tools::vendor::url::{extract_file_name, last_segment};

fn dir(text: &str) -> DirPath {
    DirPath { text: text.to_string(), is_utf8: true }
}

fn file(url: &str, path: Option<&str>) -> ExternalFile {
    ExternalFile {
        url: url.to_string(),
        path: path.map(String::from),
        bundle_root_path: None,
        bundle_output_path: None,
    }
}

fn start(config: &VendorConfig) -> VendorRun {
    VendorMod::vendor(
        config,
        &dir("/root"),
        &dir("/root/packages/pkg"),
        &file("https://example.com/dl/mod-1.0.tar.gz", None),
        "sdk:latest",
    )
    .unwrap()
}

fn found() -> Event {
    EventOf::Checked { found: true }
}

fn missing() -> Event {
    EventOf::Checked { found: false }
}

fn ok() -> Event {
    EventOf::Succeeded
}

fn failed() -> Event {
    EventOf::Failed { source: "broken".to_string() }
}

fn tools() -> Event {
    EventOf::Value { text: "/tools".to_string() }
}

fn exited(success: bool) -> Event {
    EventOf::Exited { success, output: "said".to_string() }
}

fn drive(run: VendorRun, events: Vec<Event>) -> (VendorRun, Vec<Action>) {
    let mut run = run;
    let mut actions = Vec::new();
    for event in events {
        actions.push(run.action());
        run = run.advance(event);
    }
    (run, actions)
}

fn outcome(run: &VendorRun) -> Option<Result<(), VendorError>> {
    match run.action() {
        ActionOf::Finish { outcome } => Some(outcome),
        _ => None,
    }
}

fn all_well() -> Vec<Event> {
    vec![
        found(),
        ok(),
        ok(),
        ok(),
        ok(),
        found(),
        tools(),
        ok(),
        exited(true),
        ok(),
        ok(),
        ok(),
    ]
}

#[test]
fn file_name_is_the_last_path_segment() {
    let name = |url: &str| extract_file_name(url).unwrap();
    assert_eq!(name("https://example.com/dl/mod-1.0.tar.gz"), "mod-1.0.tar.gz");
    assert_eq!(name("https://example.com/a/b.tar.gz?x=/y#z/w"), "b.tar.gz");
    assert_eq!(name("https://example.com/a b.tar"), "a%20b.tar");
    assert_eq!(name("https://example.com/caf\u{e9}.tar"), "caf%C3%A9.tar");
    assert_eq!(name("https://example.com/b.tar#c?d"), "b.tar");
    assert_eq!(name("https://example.com/a/../b.tar"), "b.tar");
    assert_eq!(name("https://example.com/dir/"), "");
    assert_eq!(name("https://example.com"), "");
}

#[test]
fn urls_without_a_file_are_refused() {
    match extract_file_name("no url") {
        Err(VendorErrorOf::InputUrl { url, source }) => {
            assert_eq!(url, "no url");
            assert_eq!(source, "relative URL without a base");
        }
        other => panic!("{:?}", other),
    }
    match extract_file_name("data:text/plain,HelloWorld") {
        Err(VendorErrorOf::InputFileBad { path }) => {
            assert_eq!(path, "data:text/plain,HelloWorld")
        }
        other => panic!("{:?}", other),
    }
}

#[test]
fn last_segment_picks_from_what_was_parsed() {
    let segments = vec!["a".to_string(), "b".to_string()];
    assert_eq!(last_segment("u", Ok(Some(segments))).unwrap(), "b");
    assert!(matches!(
        last_segment("u", Ok(Some(Vec::new()))),
        Err(VendorErrorOf::InputFileBad { .. })
    ));
    assert!(matches!(last_segment("u", Ok(None)), Err(VendorErrorOf::InputFileBad { .. })));
    assert!(matches!(
        last_segment("u", Err("bad".to_string())),
        Err(VendorErrorOf::InputUrl { .. })
    ));
}

#[test]
fn components_are_counted_as_paths_have_them() {
    for path in [
        "", "a", "a/b", "a//b", "/", "//", "/a", ".", "./", "./a", "a/.", "a/", "a/./b", "..", "../a",
        "a/..", "/.", "/./a", "./.", ".//.", "...", ".a", "a.", "/..", "./..", "\u{e9}/b", "a/.b", "a/.b/.",
    ] {
        assert_eq!(
            component_count(path),
            std::path::Path::new(path).components().count(),
            "{:?}",
            path
        );
    }
}

#[test]
fn paths_are_joined_as_paths_are() {
    for base in ["", "a", "a/", "/", "/a/b", "a//", "\u{e9}"] {
        for path in ["", "b", "/b", "b/c", "./b", "/", "\u{e9}"] {
            assert_eq!(
                join_path(base, path),
                std::path::Path::new(base).join(path).to_str().unwrap(),
                "{:?} {:?}",
                base,
                path
            );
        }
    }
}

#[test]
fn scripts_are_filled_in_like_text() {
    for (name, mod_dir, output) in [
        ("mod.tar", "", "bundled-mod.tar"),
        ("mod.tar", "mod/sub", "out.tar"),
        ("__MOD_DIR__", "__OUTPUT__", "__LOCAL_FILE_NAME__"),
        ("___MOD_DIR___OUTPUT__", "_", "\u{e9}"),
        ("__LOCAL_FILE_NAME__", "__MOD_DIR__", "__OUTPUT__"),
    ] {
        for template in [
            go_config().script_template,
            rust_config().script_template,
            "",
            "__LOCAL_FILE_NAME_",
            "__LOCAL_FILE_NAME____LOCAL_FILE_NAME__",
            "___MOD_DIR____OUTPUT__OUTPUT__",
            "\u{e9}__OUTPUT__\u{e9}",
        ] {
            let expected = template
                .replace("__LOCAL_FILE_NAME__", name)
                .replace("__MOD_DIR__", mod_dir)
                .replace("__OUTPUT__", output);
            assert_eq!(render_script(template, name, mod_dir, output), expected);
        }
    }
}

#[test]
fn go_script_says_what_it_should() {
    let expected = "#!/bin/bash

set -e

toplevel=$(tar tf \"mod-1.0.tar.gz\" | head -1)
if [ -z \"\" ] ; then
    targetdir=\"${toplevel}\"
else
    targetdir=\"\"
fi

tar xf \"mod-1.0.tar.gz\"

pushd \"${targetdir}\"
    go list -mod=readonly ./... >/dev/null && go mod vendor
popd

tar czf \"bundled-mod-1.0.tar.gz\" \"${targetdir}\"/vendor
rm -rf \"${targetdir}\"
touch -r \"mod-1.0.tar.gz\" \"bundled-mod-1.0.tar.gz\"
";
    let (_, actions) = drive(start(&go_config()), vec![found(), ok(), ok(), ok(), ok()]);
    match &actions[4] {
        ActionOf::WriteFile { contents, .. } => assert_eq!(contents, expected),
        other => panic!("{:?}", other),
    }
}

#[test]
fn rust_script_says_what_it_should() {
    let expected = "#!/bin/bash

set -e

toplevel=$(tar tf \"mod-1.0.tar.gz\" | head -1)
if [ -z \"sub\" ] ; then
    targetdir=\"${toplevel}\"
else
    targetdir=\"sub\"
fi

tar xf \"mod-1.0.tar.gz\"

pushd \"${targetdir}\"
    mkdir -p .cargo
    cargo metadata --locked --format-version 1 >/dev/null && cargo vendor --locked > .cargo/config.toml
    cargo deny --config /deny.toml check --disable-fetch licenses bans sources
popd

tar czf \"out.tar.gz\" -C \"${targetdir}\" vendor .cargo/config.toml
rm -rf \"${targetdir}\"
touch -r \"mod-1.0.tar.gz\" \"out.tar.gz\"
";
    assert_eq!(
        render_script(rust_config().script_template, "mod-1.0.tar.gz", "sub", "out.tar.gz"),
        expected
    );
}

#[test]
fn configurations_name_their_tools() {
    let go = go_config();
    assert_eq!(go.script_name, "docker-go-script.sh");
    assert_eq!(go.docker_tool, "docker-go");
    assert_eq!(go.cache_dir, ".gomodcache");
    assert_eq!(go.cache_arg_name, "--go-mod-cache");
    let rust = rust_config();
    assert_eq!(rust.script_name, "docker-cargo-script.sh");
    assert_eq!(rust.docker_tool, "docker-cargo");
    assert_eq!(rust.cache_dir, ".cargo");
    assert_eq!(rust.cache_arg_name, "--cargo-home");
}

fn planned(file: &ExternalFile, url_name: &str) -> Result<Job, VendorError> {
    plan(&go_config(), &dir("r"), &dir("p"), file, "sdk", url_name.to_string())
}

#[test]
fn a_job_follows_from_its_inputs() {
    let job = planned(&file("u", None), "m.tar").unwrap();
    assert_eq!(job.local_file_name, "m.tar");
    assert_eq!(job.output_path, "bundled-m.tar");
    assert_eq!(job.input_path, "p/m.tar");
    assert_eq!(job.script_path, "p/docker-go-script.sh");
    assert_eq!(job.deny_config, "r/sources/deny.toml");
    assert_eq!(
        job.args.unwrap(),
        vec![
            "--module-path",
            "p",
            "--sdk-image",
            "sdk",
            "--go-mod-cache",
            "r/.gomodcache",
            "--deny-config",
            "r/sources/deny.toml",
            "--command",
            "./docker-go-script.sh",
        ]
    );
    let given = ExternalFile {
        url: "u".to_string(),
        path: Some("local.tar".to_string()),
        bundle_root_path: Some("sub".to_string()),
        bundle_output_path: Some("out.tar".to_string()),
    };
    let job = planned(&given, "m.tar").unwrap();
    assert_eq!(job.local_file_name, "local.tar");
    assert_eq!(job.output_path, "out.tar");
    assert!(job.script.contains("targetdir=\"sub\""));
}

#[test]
fn local_names_are_single_components() {
    assert!(matches!(planned(&file("u", Some("a/b")), "m"), Err(VendorErrorOf::InputFile)));
    assert!(matches!(planned(&file("u", Some("")), "m"), Err(VendorErrorOf::InputFile)));
    assert!(matches!(planned(&file("u", None), ""), Err(VendorErrorOf::InputFile)));
    assert!(planned(&file("u", Some("a/")), "").is_ok());
}

#[test]
fn a_url_is_needed_beside_a_local_name() {
    let result = VendorMod::vendor(
        &go_config(),
        &dir("r"),
        &dir("p"),
        &file("no url", Some("local.tar")),
        "sdk",
    );
    assert!(matches!(result, Err(VendorErrorOf::InputUrl { .. })));
    let result = VendorMod::vendor(
        &go_config(),
        &dir("r"),
        &dir("p"),
        &file("https://example.com/", Some("local.tar")),
        "sdk",
    );
    match result.unwrap().action() {
        ActionOf::CheckFile { place } => assert_eq!(place.name, "local.tar"),
        other => panic!("{:?}", other),
    }
}

#[test]
fn arguments_come_in_their_order() {
    assert_eq!(
        docker_tool_args("m", "s", "--c", "d", "y", "x"),
        vec![
            "--module-path",
            "m",
            "--sdk-image",
            "s",
            "--c",
            "d",
            "--deny-config",
            "y",
            "--command",
            "x"
        ]
    );
}

#[test]
fn a_run_performs_its_actions_in_order() {
    let (run, actions) = drive(start(&go_config()), all_well());
    assert!(matches!(outcome(&run), Some(Ok(()))));
    assert_eq!(actions.len(), 12);
    let mut actions = actions.into_iter();
    match actions.next().unwrap() {
        ActionOf::CheckFile { place } => {
            assert_eq!(place.dir, Dir::Package);
            assert_eq!(place.name, "mod-1.0.tar.gz");
        }
        other => panic!("{:?}", other),
    }
    match actions.next().unwrap() {
        ActionOf::Print { line } => {
            assert_eq!(line, "cargo:rerun-if-changed=bundled-mod-1.0.tar.gz")
        }
        other => panic!("{:?}", other),
    }
    match actions.next().unwrap() {
        ActionOf::CreateFile { place } => {
            assert_eq!(place.dir, Dir::Package);
            assert_eq!(place.name, "docker-go-script.sh");
        }
        other => panic!("{:?}", other),
    }
    match actions.next().unwrap() {
        ActionOf::SetMode { place, mode } => {
            assert_eq!(place.name, "docker-go-script.sh");
            assert_eq!(mode, 0o777);
        }
        other => panic!("{:?}", other),
    }
    match actions.next().unwrap() {
        ActionOf::WriteFile { place, contents } => {
            assert_eq!(place.name, "docker-go-script.sh");
            assert_eq!(
                contents,
                render_script(
                    go_config().script_template,
                    "mod-1.0.tar.gz",
                    "",
                    "bundled-mod-1.0.tar.gz"
                )
            );
        }
        other => panic!("{:?}", other),
    }
    match actions.next().unwrap() {
        ActionOf::CheckFile { place } => {
            assert_eq!(place.dir, Dir::Root);
            assert_eq!(place.name, "sources/deny.toml");
        }
        other => panic!("{:?}", other),
    }
    match actions.next().unwrap() {
        ActionOf::ReadEnvironment { var } => assert_eq!(var, "TWOLITER_TOOLS_DIR"),
        other => panic!("{:?}", other),
    }
    match actions.next().unwrap() {
        ActionOf::Print { line } => assert_eq!(line, "program: /tools/docker-go"),
        other => panic!("{:?}", other),
    }
    match actions.next().unwrap() {
        ActionOf::Run { program, args } => {
            assert_eq!(program, "/tools/docker-go");
            assert_eq!(args.len(), 10);
            assert_eq!(args[1], "/root/packages/pkg");
            assert_eq!(args[9], "./docker-go-script.sh");
        }
        other => panic!("{:?}", other),
    }
    match actions.next().unwrap() {
        ActionOf::Print { line } => assert_eq!(line, "said"),
        other => panic!("{:?}", other),
    }
    match actions.next().unwrap() {
        ActionOf::RemoveFile { place } => assert_eq!(place.name, "docker-go-script.sh"),
        other => panic!("{:?}", other),
    }
    match actions.next().unwrap() {
        ActionOf::SetMtime { path } => assert_eq!(path, "bundled-mod-1.0.tar.gz"),
        other => panic!("{:?}", other),
    }
}

#[test]
fn failures_before_the_script_is_written_end_the_run() {
    let (run, _) = drive(start(&go_config()), vec![missing()]);
    match outcome(&run) {
        Some(Err(VendorErrorOf::InputFileBad { path })) => {
            assert_eq!(path, "/root/packages/pkg/mod-1.0.tar.gz")
        }
        other => panic!("{:?}", other),
    }
    let (run, _) = drive(start(&go_config()), vec![found(), ok(), failed()]);
    match outcome(&run) {
        Some(Err(VendorErrorOf::CreateFile { path, source })) => {
            assert_eq!(path, "/root/packages/pkg/docker-go-script.sh");
            assert_eq!(source, "broken");
        }
        other => panic!("{:?}", other),
    }
    let (run, _) = drive(start(&go_config()), vec![found(), ok(), ok(), failed()]);
    assert!(matches!(outcome(&run), Some(Err(VendorErrorOf::SetFilePermissions { .. }))));
    let (run, _) = drive(start(&go_config()), vec![found(), ok(), ok(), ok(), failed()]);
    assert!(matches!(outcome(&run), Some(Err(VendorErrorOf::WriteFile { .. }))));
}

#[test]
fn the_script_is_removed_whatever_comes_of_the_tool() {
    let written = || vec![found(), ok(), ok(), ok(), ok()];
    let tails: Vec<Vec<Event>> = vec![
        vec![missing()],
        vec![found(), failed()],
        vec![found(), tools(), ok(), failed()],
        vec![found(), tools(), ok(), exited(false), ok()],
        vec![found(), tools(), ok(), exited(true), ok()],
    ];
    for tail in tails {
        let (run, _) = drive(start(&rust_config()), written());
        let (run, _) = drive(run, tail);
        assert!(matches!(run.action(), ActionOf::RemoveFile { .. }));
    }
}

#[test]
fn the_tools_failure_is_reported_after_the_removal() {
    let written = || vec![found(), ok(), ok(), ok(), ok()];
    let finish = |tail: Vec<Event>| {
        let (run, _) = drive(start(&go_config()), written());
        let (run, _) = drive(run, tail);
        outcome(&run.advance(ok())).unwrap().unwrap_err()
    };
    match finish(vec![missing()]) {
        VendorErrorOf::InputFileBad { path } => assert_eq!(path, "/root/sources/deny.toml"),
        other => panic!("{:?}", other),
    }
    match finish(vec![found(), failed()]) {
        VendorErrorOf::Environment { var, source } => {
            assert_eq!(var, "TWOLITER_TOOLS_DIR");
            assert_eq!(source, "broken");
        }
        other => panic!("{:?}", other),
    }
    match finish(vec![found(), tools(), ok(), failed()]) {
        VendorErrorOf::CommandStart { source } => assert_eq!(source, "broken"),
        other => panic!("{:?}", other),
    }
    match finish(vec![found(), tools(), ok(), exited(false), ok()]) {
        VendorErrorOf::DockerExecution { tool, args } => {
            assert_eq!(tool, "docker-go");
            assert_eq!(
                args,
                "--module-path /root/packages/pkg --sdk-image sdk:latest --go-mod-cache \
                 /root/.gomodcache --deny-config /root/sources/deny.toml --command \
                 ./docker-go-script.sh"
            );
        }
        other => panic!("{:?}", other),
    }
}

#[test]
fn a_failed_removal_comes_before_the_tools_failure() {
    let events = vec![found(), ok(), ok(), ok(), ok(), missing(), failed()];
    let (run, _) = drive(start(&go_config()), events);
    assert!(matches!(outcome(&run), Some(Err(VendorErrorOf::RemoveFile { .. }))));
}

#[test]
fn a_failed_time_stamp_fails_the_run() {
    let mut events = all_well();
    events.pop();
    events.push(failed());
    let (run, _) = drive(start(&go_config()), events);
    match outcome(&run) {
        Some(Err(VendorErrorOf::SetMtime { path, source })) => {
            assert_eq!(path, "bundled-mod-1.0.tar.gz");
            assert_eq!(source, "broken");
        }
        other => panic!("{:?}", other),
    }
}

#[test]
fn directories_that_are_no_text_fail_before_the_tool() {
    let package = DirPath { text: "p\u{fffd}".to_string(), is_utf8: false };
    let run = VendorMod::vendor(
        &go_config(),
        &dir("r"),
        &package,
        &file("https://example.com/m.tar", None),
        "sdk",
    )
    .unwrap();
    let (run, _) = drive(run, vec![found(), ok(), ok(), ok(), ok(), found()]);
    assert!(matches!(run.action(), ActionOf::RemoveFile { .. }));
    assert!(matches!(outcome(&run.advance(ok())), Some(Err(VendorErrorOf::InputFile))));
}

fn start_in_odd_root(cache_dir: &'static str) -> VendorRun {
    let root = DirPath { text: "r\u{fffd}".to_string(), is_utf8: false };
    let config = VendorConfig {
        script_name: "script.sh",
        script_template: "",
        docker_tool: "tool",
        cache_dir,
        cache_arg_name: "--cache",
    };
    let run = VendorMod::vendor(
        &config,
        &root,
        &dir("p"),
        &file("https://example.com/m.tar", None),
        "sdk",
    )
    .unwrap();
    drive(run, vec![found(), ok(), ok(), ok(), ok(), found()]).0
}

#[test]
fn a_relative_cache_needs_a_root_that_is_text() {
    let run = start_in_odd_root("cache");
    assert!(matches!(run.action(), ActionOf::RemoveFile { .. }));
    assert!(matches!(outcome(&run.advance(ok())), Some(Err(VendorErrorOf::InputFile))));
    let run = start_in_odd_root("");
    assert!(matches!(run.action(), ActionOf::RemoveFile { .. }));
}

#[test]
fn an_absolute_cache_does_not_depend_on_the_root() {
    let run = start_in_odd_root("/cache");
    assert!(matches!(run.action(), ActionOf::ReadEnvironment { .. }));
    let (run, _) = drive(run, vec![tools(), ok()]);
    match run.action() {
        ActionOf::Run { program, args } => {
            assert_eq!(program, "/tools/tool");
            assert_eq!(
                args,
                vec![
                    "--module-path",
                    "p",
                    "--sdk-image",
                    "sdk",
                    "--cache",
                    "/cache",
                    "--deny-config",
                    "r\u{fffd}/sources/deny.toml",
                    "--command",
                    "./script.sh",
                ]
            );
        }
        other => panic!("{:?}", other),
    }
    let (run, _) = drive(run, vec![exited(true), ok(), ok(), ok()]);
    assert!(matches!(outcome(&run), Some(Ok(()))));

    let (run, _) = drive(start_in_odd_root("/cache"), vec![failed(), ok()]);
    assert!(matches!(outcome(&run), Some(Err(VendorErrorOf::Environment { .. }))));
}

#[test]
fn events_that_answer_nothing_change_nothing() {
    let (run, _) = drive(start(&go_config()), vec![ok(), failed(), tools(), exited(true)]);
    assert!(matches!(run.action(), ActionOf::CheckFile { .. }));
    let (run, _) = drive(run, all_well());
    let (run, _) = drive(run, vec![failed(), missing(), ok()]);
    assert!(matches!(outcome(&run), Some(Ok(()))));
}
