//! Why a vendoring run failed.

use vstd::prelude::*;

verus! {

/// Why a vendoring run failed, with its texts held as `T`: strings when the
/// program runs, sequences of characters in contracts. A `source` is what the
/// failed operation reported.
#[derive(Debug)]
pub enum VendorErrorOf<T> {
    InputUrl { url: T, source: T },
    InputFile,
    InputFileBad { path: T },
    CreateFile { path: T, source: T },
    SetFilePermissions { path: T, source: T },
    WriteFile { path: T, source: T },
    RemoveFile { path: T, source: T },
    SetMtime { path: T, source: T },
    Environment { var: T, source: T },
    CommandStart { source: T },
    DockerExecution { tool: T, args: T },
}

pub type VendorError = VendorErrorOf<String>;

impl View for VendorErrorOf<String> {
    type V = VendorErrorOf<Seq<char>>;

    open spec fn view(&self) -> VendorErrorOf<Seq<char>> {
        match *self {
            VendorErrorOf::InputUrl { url, source } => VendorErrorOf::InputUrl {
                url: url@,
                source: source@,
            },
            VendorErrorOf::InputFile => VendorErrorOf::InputFile,
            VendorErrorOf::InputFileBad { path } => VendorErrorOf::InputFileBad { path: path@ },
            VendorErrorOf::CreateFile { path, source } => VendorErrorOf::CreateFile {
                path: path@,
                source: source@,
            },
            VendorErrorOf::SetFilePermissions { path, source } => {
                VendorErrorOf::SetFilePermissions { path: path@, source: source@ }
            },
            VendorErrorOf::WriteFile { path, source } => VendorErrorOf::WriteFile {
                path: path@,
                source: source@,
            },
            VendorErrorOf::RemoveFile { path, source } => VendorErrorOf::RemoveFile {
                path: path@,
                source: source@,
            },
            VendorErrorOf::SetMtime { path, source } => VendorErrorOf::SetMtime {
                path: path@,
                source: source@,
            },
            VendorErrorOf::Environment { var, source } => VendorErrorOf::Environment {
                var: var@,
                source: source@,
            },
            VendorErrorOf::CommandStart { source } => VendorErrorOf::CommandStart {
                source: source@,
            },
            VendorErrorOf::DockerExecution { tool, args } => VendorErrorOf::DockerExecution {
                tool: tool@,
                args: args@,
            },
        }
    }
}

} // verus!
