//! Configuration for language-specific vendoring behavior.

use vstd::prelude::*;

verus! {

/// Configuration for language-specific vendoring behavior.
pub struct VendorConfig {
    pub script_name: &'static str,
    pub script_template: &'static str,
    pub docker_tool: &'static str,
    pub cache_dir: &'static str,
    pub cache_arg_name: &'static str,
}

/// The script that vendors a Go module.
pub const GO_SCRIPT_TMPL: &'static str = r#"#!/bin/bash

set -e

toplevel=$(tar tf "__LOCAL_FILE_NAME__" | head -1)
if [ -z "__MOD_DIR__" ] ; then
    targetdir="${toplevel}"
else
    targetdir="__MOD_DIR__"
fi

tar xf "__LOCAL_FILE_NAME__"

pushd "${targetdir}"
    go list -mod=readonly ./... >/dev/null && go mod vendor
popd

tar czf "__OUTPUT__" "${targetdir}"/vendor
rm -rf "${targetdir}"
touch -r "__LOCAL_FILE_NAME__" "__OUTPUT__"
"#;

/// The script that vendors a Rust workspace.
pub const RUST_SCRIPT_TMPL: &'static str = r#"#!/bin/bash

set -e

toplevel=$(tar tf "__LOCAL_FILE_NAME__" | head -1)
if [ -z "__MOD_DIR__" ] ; then
    targetdir="${toplevel}"
else
    targetdir="__MOD_DIR__"
fi

tar xf "__LOCAL_FILE_NAME__"

pushd "${targetdir}"
    mkdir -p .cargo
    cargo metadata --locked --format-version 1 >/dev/null && cargo vendor --locked > .cargo/config.toml
    cargo deny --config /deny.toml check --disable-fetch licenses bans sources
popd

tar czf "__OUTPUT__" -C "${targetdir}" vendor .cargo/config.toml
rm -rf "${targetdir}"
touch -r "__LOCAL_FILE_NAME__" "__OUTPUT__"
"#;

/// Go vendoring configuration.
pub fn go_config() -> (config: VendorConfig)
    ensures
        config.script_name@ == "docker-go-script.sh"@,
        config.script_template@ == GO_SCRIPT_TMPL@,
        config.docker_tool@ == "docker-go"@,
        config.cache_dir@ == ".gomodcache"@,
        config.cache_arg_name@ == "--go-mod-cache"@,
{
    VendorConfig {
        script_name: "docker-go-script.sh",
        script_template: GO_SCRIPT_TMPL,
        docker_tool: "docker-go",
        cache_dir: ".gomodcache",
        cache_arg_name: "--go-mod-cache",
    }
}

/// Rust vendoring configuration.
pub fn rust_config() -> (config: VendorConfig)
    ensures
        config.script_name@ == "docker-cargo-script.sh"@,
        config.script_template@ == RUST_SCRIPT_TMPL@,
        config.docker_tool@ == "docker-cargo"@,
        config.cache_dir@ == ".cargo"@,
        config.cache_arg_name@ == "--cargo-home"@,
{
    VendorConfig {
        script_name: "docker-cargo-script.sh",
        script_template: RUST_SCRIPT_TMPL,
        docker_tool: "docker-cargo",
        cache_dir: ".cargo",
        cache_arg_name: "--cargo-home",
    }
}

} // verus!
