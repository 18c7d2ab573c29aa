//! What a vendoring run will do, worked out from its inputs.

use super::config::VendorConfig;
use super::error::{VendorError, VendorErrorOf};
use crate::path::{
    component_count, components, is_absolute, join_path, joined_path, starts_at_root,
};
use crate::text::{replace_all, replaced};
use vstd::prelude::*;

verus! {

/// An upstream archive that a package names: where it comes from, what it is
/// called locally, the directory in it to vendor from, and where the bundle
/// goes.
#[derive(Debug)]
pub struct ExternalFile {
    pub url: String,
    pub path: Option<String>,
    pub bundle_root_path: Option<String>,
    pub bundle_output_path: Option<String>,
}

/// A directory. Where its path is not UTF-8, the text is only a rendering of
/// it.
#[derive(Debug)]
pub struct DirPath {
    pub text: String,
    pub is_utf8: bool,
}

/// A vendoring job, with its texts held as `T` and its lists of texts as `L`.
#[derive(Debug)]
pub struct JobOf<T, L> {
    /// The archive's name in the package directory.
    pub local_file_name: T,
    /// The script's name in the package directory.
    pub script_name: T,
    /// What the script says.
    pub script: T,
    /// Where the script puts the bundle.
    pub output_path: T,
    /// The tool that runs the script.
    pub tool: T,
    /// The path of the archive.
    pub input_path: T,
    /// The path of the script.
    pub script_path: T,
    /// The path of the configuration that licenses are held against.
    pub deny_config: T,
    /// The tool's arguments, where all of them can be written as text.
    pub args: Option<L>,
}

pub type Job = JobOf<String, Vec<String>>;

pub type JobView = JobOf<Seq<char>, Seq<Seq<char>>>;

impl View for JobOf<String, Vec<String>> {
    type V = JobView;

    open spec fn view(&self) -> JobView {
        JobOf {
            local_file_name: self.local_file_name@,
            script_name: self.script_name@,
            script: self.script@,
            output_path: self.output_path@,
            tool: self.tool@,
            input_path: self.input_path@,
            script_path: self.script_path@,
            deny_config: self.deny_config@,
            args: match self.args {
                Some(args) => Some(args.deep_view()),
                None => None,
            },
        }
    }
}

/// The path of the license configuration, relative to the root directory.
pub const DENY_CONFIG: &'static str = "sources/deny.toml";

/// A text that may be left out, or what stands in for it.
pub open spec fn text_or(text: Option<String>, default: Seq<char>) -> Seq<char> {
    match text {
        Some(text) => text@,
        None => default,
    }
}

/// A text that may be left out, or what stands in for it.
fn clone_or(text: &Option<String>, default: String) -> (result: String)
    ensures
        result@ == text_or(*text, default@),
{
    match text {
        Some(text) => text.clone(),
        None => default,
    }
}

/// The script that a template gives: the archive's name, the directory to
/// vendor from and the path of the bundle are filled in, in that order.
pub open spec fn rendered_script(
    template: Seq<char>,
    local_file_name: Seq<char>,
    mod_dir: Seq<char>,
    output_path: Seq<char>,
) -> Seq<char> {
    replaced(
        replaced(
            replaced(template, "__LOCAL_FILE_NAME__"@, local_file_name),
            "__MOD_DIR__"@,
            mod_dir,
        ),
        "__OUTPUT__"@,
        output_path,
    )
}

/// Fills a script template in.
pub fn render_script(
    template: &str,
    local_file_name: &str,
    mod_dir: &str,
    output_path: &str,
) -> (script: String)
    ensures
        script@ == rendered_script(template@, local_file_name@, mod_dir@, output_path@),
{
    proof {
        reveal_strlit("__LOCAL_FILE_NAME__");
        reveal_strlit("__MOD_DIR__");
        reveal_strlit("__OUTPUT__");
    }
    let named = replace_all(template, "__LOCAL_FILE_NAME__", local_file_name);
    let rooted = replace_all(named.as_str(), "__MOD_DIR__", mod_dir);
    replace_all(rooted.as_str(), "__OUTPUT__", output_path)
}

/// The arguments of the tool that runs the script.
pub open spec fn tool_args(
    module_dir: Seq<char>,
    sdk_image: Seq<char>,
    cache_arg_name: Seq<char>,
    cache_dir: Seq<char>,
    deny_config: Seq<char>,
    command: Seq<char>,
) -> Seq<Seq<char>> {
    seq![
        "--module-path"@,
        module_dir,
        "--sdk-image"@,
        sdk_image,
        cache_arg_name,
        cache_dir,
        "--deny-config"@,
        deny_config,
        "--command"@,
        command,
    ]
}

/// The arguments of the tool that runs the script.
pub fn docker_tool_args(
    module_dir: &str,
    sdk_image: &str,
    cache_arg_name: &str,
    cache_dir: &str,
    deny_config: &str,
    command: &str,
) -> (args: Vec<String>)
    ensures
        args.deep_view() == tool_args(
            module_dir@,
            sdk_image@,
            cache_arg_name@,
            cache_dir@,
            deny_config@,
            command@,
        ),
{
    let mut args: Vec<String> = Vec::new();
    args.push("--module-path".to_string());
    args.push(module_dir.to_string());
    args.push("--sdk-image".to_string());
    args.push(sdk_image.to_string());
    args.push(cache_arg_name.to_string());
    args.push(cache_dir.to_string());
    args.push("--deny-config".to_string());
    args.push(deny_config.to_string());
    args.push("--command".to_string());
    args.push(command.to_string());
    assert(args.deep_view() =~= tool_args(
        module_dir@,
        sdk_image@,
        cache_arg_name@,
        cache_dir@,
        deny_config@,
        command@,
    ));
    args
}

/// Whether the package directory and the cache directory can be written as
/// text, as the tool's arguments need it. An absolute cache directory does not
/// depend on the root.
pub open spec fn args_are_text(
    config: VendorConfig,
    root_dir: DirPath,
    package_dir: DirPath,
) -> bool {
    package_dir.is_utf8 && (root_dir.is_utf8 || is_absolute(config.cache_dir@))
}

/// The job for an archive that the URL calls `url_file_name`, unless the file
/// is given a local name. A local name that is not a single path component is
/// refused.
pub open spec fn planned(
    config: VendorConfig,
    root_dir: DirPath,
    package_dir: DirPath,
    external_file: ExternalFile,
    sdk: Seq<char>,
    url_file_name: Seq<char>,
) -> Result<JobView, VendorErrorOf<Seq<char>>> {
    let local_file_name = text_or(external_file.path, url_file_name);
    if components(local_file_name) != 1 {
        Err(VendorErrorOf::InputFile)
    } else {
        let mod_dir = text_or(external_file.bundle_root_path, Seq::empty());
        let output_path = text_or(
            external_file.bundle_output_path,
            "bundled-"@ + local_file_name,
        );
        let deny_config = joined_path(root_dir.text@, DENY_CONFIG@);
        Ok(
            JobOf {
                local_file_name,
                script_name: config.script_name@,
                script: rendered_script(
                    config.script_template@,
                    local_file_name,
                    mod_dir,
                    output_path,
                ),
                output_path,
                tool: config.docker_tool@,
                input_path: joined_path(package_dir.text@, local_file_name),
                script_path: joined_path(package_dir.text@, config.script_name@),
                deny_config,
                args: if args_are_text(config, root_dir, package_dir) {
                    Some(
                        tool_args(
                            package_dir.text@,
                            sdk,
                            config.cache_arg_name@,
                            joined_path(root_dir.text@, config.cache_dir@),
                            deny_config,
                            "./"@ + config.script_name@,
                        ),
                    )
                } else {
                    None
                },
            },
        )
    }
}

/// Works out the job for an archive whose URL ends in `url_file_name`.
pub fn plan(
    config: &VendorConfig,
    root_dir: &DirPath,
    package_dir: &DirPath,
    external_file: &ExternalFile,
    sdk: &str,
    url_file_name: String,
) -> (result: Result<Job, VendorError>)
    ensures
        match result {
            Ok(job) => planned(
                *config,
                *root_dir,
                *package_dir,
                *external_file,
                sdk@,
                url_file_name@,
            ) == Ok::<JobView, VendorErrorOf<Seq<char>>>(job@),
            Err(e) => planned(
                *config,
                *root_dir,
                *package_dir,
                *external_file,
                sdk@,
                url_file_name@,
            ) == Err::<JobView, VendorErrorOf<Seq<char>>>(e@),
        },
{
    let local_file_name = clone_or(&external_file.path, url_file_name);
    if component_count(local_file_name.as_str()) != 1 {
        return Err(VendorErrorOf::InputFile);
    }
    let mod_dir = clone_or(&external_file.bundle_root_path, String::new());
    let default_output_path = "bundled-".to_string().concat(local_file_name.as_str());
    let output_path = clone_or(&external_file.bundle_output_path, default_output_path);
    let script = render_script(
        config.script_template,
        local_file_name.as_str(),
        mod_dir.as_str(),
        output_path.as_str(),
    );
    let deny_config = join_path(root_dir.text.as_str(), DENY_CONFIG);
    let cache_is_utf8: bool = root_dir.is_utf8 || starts_at_root(config.cache_dir);
    let args: Option<Vec<String>> = if package_dir.is_utf8 && cache_is_utf8 {
        let cache_dir = join_path(root_dir.text.as_str(), config.cache_dir);
        let command = "./".to_string().concat(config.script_name);
        Some(
            docker_tool_args(
                package_dir.text.as_str(),
                sdk,
                config.cache_arg_name,
                cache_dir.as_str(),
                deny_config.as_str(),
                command.as_str(),
            ),
        )
    } else {
        None
    };
    let input_path = join_path(package_dir.text.as_str(), local_file_name.as_str());
    let script_path = join_path(package_dir.text.as_str(), config.script_name);
    Ok(
        JobOf {
            local_file_name,
            script_name: config.script_name.to_string(),
            script,
            output_path,
            tool: config.docker_tool.to_string(),
            input_path,
            script_path,
            deny_config,
            args,
        },
    )
}

} // verus!
