//! Where the managed payload lives, relative to the executable's directory,
//! and the names of the entry point inside it.

use vstd::prelude::*;
use vstd::string::{StrSliceExecFns, StringExecFns};

verus! {

/// Subdirectory of the executable's directory that holds the payload.
pub const PAYLOAD_DIR: &'static str = "dotnet";

/// Base name shared by the runtime configuration file and the assembly.
pub const PAYLOAD_BASE: &'static str = "TauriDotNetBridge";

/// Extension of the runtime configuration file.
pub const RUNTIME_CONFIG_EXT: &'static str = ".runtimeconfig.json";

/// Extension of the managed assembly.
pub const ASSEMBLY_EXT: &'static str = ".dll";

/// Assembly-qualified name of the type that declares the entry point.
pub const ENTRY_TYPE: &'static str = "TauriDotNetBridge.Bridge, TauriDotNetBridge";

/// Name of the static entry-point method.
pub const ENTRY_METHOD: &'static str = "ProcessRequest";

pub open spec fn is_separator(c: char) -> bool {
    c == '/' || c == '\\'
}

/// `name` placed inside `dir`: a separator is put between the two unless
/// `dir` is empty or already ends in one.
pub open spec fn joined(dir: Seq<char>, name: Seq<char>) -> Seq<char> {
    if dir.len() == 0 {
        name
    } else if is_separator(dir.last()) {
        dir + name
    } else {
        dir + seq!['/'] + name
    }
}

pub open spec fn payload_dir_spec(exe_dir: Seq<char>) -> Seq<char> {
    joined(exe_dir, PAYLOAD_DIR@)
}

pub open spec fn runtime_config_path_spec(exe_dir: Seq<char>) -> Seq<char> {
    joined(payload_dir_spec(exe_dir), PAYLOAD_BASE@ + RUNTIME_CONFIG_EXT@)
}

pub open spec fn assembly_path_spec(exe_dir: Seq<char>) -> Seq<char> {
    joined(payload_dir_spec(exe_dir), PAYLOAD_BASE@ + ASSEMBLY_EXT@)
}

/// Places `name` inside `dir`.
pub fn join_path(dir: &str, name: &str) -> (r: String)
    ensures
        r@ == joined(dir@, name@),
{
    let n = dir.unicode_len();
    let mut r = String::from_str(dir);
    if n > 0 {
        let last = dir.get_char(n - 1);
        if last != '/' && last != '\\' {
            r.append("/");
            proof {
                reveal_strlit("/");
            }
        }
    }
    r.append(name);
    r
}

/// The payload directory next to the executable.
pub fn payload_dir(exe_dir: &str) -> (r: String)
    ensures
        r@ == payload_dir_spec(exe_dir@),
{
    join_path(exe_dir, PAYLOAD_DIR)
}

/// The runtime configuration file of the payload.
pub fn runtime_config_path(exe_dir: &str) -> (r: String)
    ensures
        r@ == runtime_config_path_spec(exe_dir@),
{
    let dir = payload_dir(exe_dir);
    let mut name = String::from_str(PAYLOAD_BASE);
    name.append(RUNTIME_CONFIG_EXT);
    join_path(dir.as_str(), name.as_str())
}

/// The managed assembly of the payload.
pub fn assembly_path(exe_dir: &str) -> (r: String)
    ensures
        r@ == assembly_path_spec(exe_dir@),
{
    let dir = payload_dir(exe_dir);
    let mut name = String::from_str(PAYLOAD_BASE);
    name.append(ASSEMBLY_EXT);
    join_path(dir.as_str(), name.as_str())
}

} // verus!
