use vstd::prelude::*;

verus! {

/// The configuration file's contents, every field optional but the target list.
#[derive(Clone, Debug, PartialEq, Eq)]
pub struct ApplicationToml {
    pub interval: Option<String>,
    pub targets: Vec<TargetToml>,
    pub logger: Option<LoggerToml>,
}

/// One `[[targets]]` entry of the configuration file.
#[derive(Clone, Debug, PartialEq, Eq)]
pub struct TargetToml {
    pub mount_point: Option<String>,
    pub check_method: Option<String>,
    pub threshold: Option<String>,
}

/// The `[logger]` section of the configuration file.
#[derive(Clone, Debug, PartialEq, Eq)]
pub struct LoggerToml {
    pub chan_size: Option<usize>,
    pub is_async: Option<bool>,
    pub level: Option<String>,
    pub airbrake_host: Option<String>,
    pub airbrake_project_id: Option<String>,
    pub airbrake_project_key: Option<String>,
    pub airbrake_environment: Option<String>,
}

} // verus!
