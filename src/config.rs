//! The run's configuration, as the command line gives it.
use vstd::prelude::*;

verus! {

/// How much the program logs.
#[derive(Clone, Copy, Debug, PartialEq, Eq, Structural)]
pub enum DebugLevel {
    Trace,
    Debug,
    Info,
    Warn,
    Error,
}

/// A kind of destination.
#[derive(Clone, Copy, Debug, PartialEq, Eq, Structural)]
pub enum UploadTarget {
    Local,
    SshServer,
    SmbServer,
    FtpServer,
}

/// How to reach a remote destination.
#[derive(Clone, Debug)]
pub struct ServerParams {
    pub ip: Option<String>,
    pub port: Option<i64>,
    pub username: Option<String>,
    pub password: Option<String>,
    pub key_auth: bool,
}

/// Where a local destination lies.
#[derive(Clone, Debug)]
pub struct LocalParams {
    pub copy_to: String,
}

/// Which destinations to use, and under which folder name.
#[derive(Clone, Debug)]
pub struct TargetParams {
    pub upload_targets: Vec<UploadTarget>,
    pub target_folder_name: Option<String>,
}

/// What to scan, and how often.
#[derive(Clone, Debug)]
pub struct ScanParams {
    pub usb: bool,
    pub refresh_interval: u64,
    pub desktop_path: Option<String>,
    pub min_depth: Option<usize>,
    pub max_depth: Option<usize>,
    pub add_paths: Option<Vec<String>>,
    pub regex: Option<String>,
    pub formats: Vec<String>,
}

/// The mode the program runs in.
#[derive(Clone, Debug)]
pub enum Commands {
    Gui,
    NoGui { server_params: ServerParams, target_params: TargetParams, scan_params: ScanParams },
}

/// The whole command line.
#[derive(Clone, Debug)]
pub struct Cli {
    pub command: Option<Commands>,
    pub debug_level: DebugLevel,
}

/// The refresh interval used when none is given, in seconds.
pub const DEFAULT_REFRESH_SECONDS: u64 = 30;

} // verus!
