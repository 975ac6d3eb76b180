//! The typed configuration the controller and the payload consume.
//!
//! A collaborator parses the structured configuration document and hands the
//! core this value together with the document's own location, which is needed
//! to resolve relative paths. Paths are carried as plain strings.

use vstd::prelude::*;

verus! {

/// The whole configuration: module location, target process, payload layout,
/// and entrypoint descriptor.
#[derive(Clone, Debug)]
pub struct Config {
    pub goalnet: ConfigGoalnet,
    pub process: ConfigProcess,
    pub payload: ConfigPayload,
    pub entrypoint: ConfigEntrypoint,
}

/// Where the injectable module lives and which logging channels are on.
#[derive(Clone, Debug)]
pub struct ConfigGoalnet {
    /// Path of the injectable module, absolute or relative to the
    /// configuration file; absent means no module location was configured.
    pub path: Option<String>,
    /// Log payload bring-up failures to the target's standard error.
    pub stderr_log: bool,
    /// Report payload bring-up failures through a blocking notification.
    pub msgbox_log: bool,
}

/// How to pick the target process: exactly one of name or pid.
#[derive(Clone, Debug)]
pub struct ConfigProcess {
    pub name: Option<String>,
    pub pid: Option<u32>,
}

/// Where the hosted payload's files live.
#[derive(Clone, Debug)]
pub struct ConfigPayload {
    /// Payload directory, absolute or relative to the configuration file.
    pub directory: String,
    /// File name of the payload assembly inside the directory.
    pub dll: String,
    /// File name of the runtime configuration inside the directory.
    pub runtime_config: String,
    /// Stage a scratch copy of the payload directory before loading.
    pub copy_build_artifacts: bool,
}

/// The managed entrypoint the payload resolves and invokes.
#[derive(Clone, Debug)]
pub struct ConfigEntrypoint {
    pub managed_type: String,
    pub method_name: String,
    pub delegate_type_name: String,
    /// Await the hosted runtime's unload signal and tear the session down.
    pub unload: bool,
}

/// The default of every optional boolean setting.
pub fn default_false() -> (r: bool)
    ensures
        r == false,
{
    false
}

} // verus!
