//! The configuration of the host application, and the command lines with
//! which it keeps its Python environment.

use vstd::prelude::*;

verus! {

/// The directories of the host application.
#[derive(Clone, Debug)]
pub struct Dirs {
    pub data_dir: String,
    pub local_data_dir: String,
    pub resource_dir: String,
    pub plugin_manager_dir: String,
    pub default_plugins_dir: String,
    pub dist_dir: String,
}

/// The Python part of the configuration.
#[derive(Clone, Debug)]
pub struct PythonConfig {
    /// The version to install where none is there yet.
    pub default_version: String,
}

/// The configuration of the host application.
#[derive(Clone, Debug)]
pub struct AppConfig {
    pub python: PythonConfig,
}

/// What is known of the installed Python.
#[derive(Clone, Debug)]
pub struct PythonStatus {
    pub installed: bool,
    pub version: Option<String>,
}

/// The arguments that every call of the package manager ends with: the
/// directory to work in, and no cache.
pub fn get_base_args<'a>(appdata_dir: &'a str) -> (args: Vec<&'a str>)
    ensures
        args@.len() == 3,
        args@[0]@ == "--directory"@,
        args@[1]@ == appdata_dir@,
        args@[2]@ == "--no-cache"@,
{
    let mut args: Vec<&'a str> = Vec::new();
    args.push("--directory");
    args.push(appdata_dir);
    args.push("--no-cache");
    args
}

/// The arguments that bring the packages of the environment up to date.
pub fn sync_args<'a>(appdata_dir: &'a str) -> (args: Vec<&'a str>)
    ensures
        args@.len() == 4,
        args@[0]@ == "sync"@,
        args@[1]@ == "--directory"@,
        args@[2]@ == appdata_dir@,
        args@[3]@ == "--no-cache"@,
{
    let mut args: Vec<&'a str> = Vec::new();
    args.push("sync");
    args.push("--directory");
    args.push(appdata_dir);
    args.push("--no-cache");
    args
}

/// The operator of a version requirement: `~=` for a version that newer
/// compatible ones may stand in for, `==` for exactly that version.
pub fn version_operator(is_vague: bool) -> (operator: &'static str)
    ensures
        operator@ == (if is_vague {
            "~="@
        } else {
            "=="@
        }),
{
    if is_vague {
        "~="
    } else {
        "=="
    }
}

/// Whether the installation has to be repeated: the check found no matching
/// Python, and fewer than three installations were tried.
pub fn should_retry_install(status: &PythonStatus, try_count: u32) -> (retry: bool)
    ensures
        retry == (!status.installed && try_count < 3),
{
    !status.installed && try_count < 3
}

/// The version to install after a check: the one the check asks for, or the
/// default of the configuration where it asks for none; and whether newer
/// compatible versions will do, which is so exactly when the default is
/// taken.
pub fn version_to_install<'a>(status: &'a PythonStatus, config: &'a AppConfig) -> (chosen: (
    &'a String,
    bool,
))
    ensures
        chosen.0@ == (match status.version {
            Some(version) => version@,
            None => config.python.default_version@,
        }),
        chosen.1 == status.version.is_none(),
{
    match &status.version {
        Some(version) => (version, false),
        None => (&config.python.default_version, true),
    }
}

} // verus!
