use vstd::prelude::*;
use std::path::PathBuf;

verus! {

/// Declares std's `PathBuf`, which command options carry as they are given.
#[verifier::external_type_specification]
#[verifier::external_body]
pub struct ExPathBuf(PathBuf);

/// The parsed command line.
pub struct Cli {
    pub subcommand: Subcommand,
}

/// The subcommands of the tool.
pub enum Subcommand {
    /// Copy a database from its source to its target.
    Dump(DumpCommand),
    /// Change the resolution of images.
    Resize(ResizeCommand),
    /// Compress PNG images.
    Compress(CompressCommand),
    /// Convert PNG and JPEG images to WebP.
    Webpify(WebpifyCommand),
    /// Fetch or manage development credentials.
    Cred(CredCommand),
    /// List or delete assets that no file refers to.
    Unused(UnusedCommand),
    /// Watch a deployment in the background until it ends.
    Watch(WatchCommand),
    /// Stop the watcher of a deployment.
    Unwatch(UnwatchCommand),
}

pub struct DumpCommand {
    pub service: String,
    pub collections: Option<Vec<String>>,
    pub family: Option<String>,
}

pub struct ResizeCommand {
    pub input_dir: PathBuf,
    pub output_dir: PathBuf,
    pub width: u32,
    pub height: u32,
    pub file_name: Option<String>,
}

pub struct CompressCommand {
    pub input_dir: PathBuf,
    pub output_dir: PathBuf,
    pub file_name: Option<String>,
    pub level: i64,
    pub drop_color: bool,
    pub speed: i64,
    pub quality: i64,
}

pub struct WebpifyCommand {
    pub input_dir: PathBuf,
    pub output_dir: PathBuf,
}

pub struct CredCommand {
    pub mode: CredMode,
    pub user_name: Option<String>,
    pub password: Option<String>,
    pub confirm_password: Option<String>,
    pub aws_access_key_id: Option<String>,
    pub aws_secret_access_key: Option<String>,
    pub role_arn: Option<String>,
    pub profile: Option<String>,
    pub region: Option<String>,
}

#[derive(PartialEq, Eq, Structural, Clone, Copy, Debug)]
pub enum CredMode {
    Develop,
    Private,
    Register,
    Update,
    Awscli,
    Session,
    Revoke,
    AddProfile,
    UpdateProfile,
}

pub struct UnusedCommand {
    pub asset_dir: PathBuf,
    pub target_dir: PathBuf,
    pub asset_depth: i64,
    pub target_depth: i64,
    pub delete: bool,
}

/// The services whose deployments can be watched.
#[derive(PartialEq, Eq, Structural, Clone, Copy, Debug)]
pub enum WatchService {
    Online,
    OnlineTest,
    Swc,
    SwcTest,
    Hhv2,
    Hhv2Test,
    Nbc,
    NbcTest,
    Intellipick,
    IntellipickTest,
    H99,
    H99Test,
}

pub struct WatchCommand {
    pub service: WatchService,
    /// Names of the users to mention when the deployment ends.
    pub notify: Option<Vec<String>>,
}

pub struct UnwatchCommand {
    pub service: WatchService,
}

} // verus!
