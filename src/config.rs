use vstd::prelude::*;
use std::collections::HashMap;
use crate::cli::WatchService;
use crate::notify::KnownUsers;

verus! {

/// The tool's configuration.
pub struct Config {
    /// How to copy the database of each service, by service name.
    pub mongo_dump: HashMap<String, MongoDumpInstruction>,
    /// What the deployment watcher needs, where it is configured.
    pub watch: Option<WatchServiceConfig>,
}

/// How to copy the database of one service.
pub struct MongoDumpInstruction {
    pub source_uri: String,
    pub target_uri: String,
    pub db_name: String,
    /// Collections left out of a full copy.
    pub excludes: Vec<String>,
    /// Named groups of collections that can be copied together.
    pub family: HashMap<String, Vec<String>>,
}

/// The pipeline that deploys each watchable service.
pub struct PipelineNames {
    pub online: String,
    pub online_test: String,
    pub swc: String,
    pub swc_test: String,
    pub hhv2: String,
    pub hhv2_test: String,
    pub nbc: String,
    pub nbc_test: String,
    pub intellipick: String,
    pub intellipick_test: String,
    pub h99: String,
    pub h99_test: String,
}

/// Where and to whom the end of a deployment is announced.
pub struct SlackConfig {
    pub webhook_url: String,
    /// The owner, who is mentioned in every notification.
    pub user_id: String,
    /// Names that stand for member ids in mentions.
    pub known_users: KnownUsers,
}

/// Configuration of the deployment watcher.
pub struct WatchServiceConfig {
    pub pipeline: PipelineNames,
    pub slack: SlackConfig,
    /// Directory under which the watch files of each pipeline are kept.
    pub runtime_root: String,
}

impl PipelineNames {
    /// The pipeline configured for `service`.
    pub open spec fn spec_name_for(&self, service: WatchService) -> String {
        match service {
            WatchService::Online => self.online,
            WatchService::OnlineTest => self.online_test,
            WatchService::Swc => self.swc,
            WatchService::SwcTest => self.swc_test,
            WatchService::Hhv2 => self.hhv2,
            WatchService::Hhv2Test => self.hhv2_test,
            WatchService::Nbc => self.nbc,
            WatchService::NbcTest => self.nbc_test,
            WatchService::Intellipick => self.intellipick,
            WatchService::IntellipickTest => self.intellipick_test,
            WatchService::H99 => self.h99,
            WatchService::H99Test => self.h99_test,
        }
    }

    /// The pipeline that deploys `service`.
    pub fn name_for(&self, service: WatchService) -> (r: &String)
        ensures
            *r == self.spec_name_for(service),
    {
        match service {
            WatchService::Online => &self.online,
            WatchService::OnlineTest => &self.online_test,
            WatchService::Swc => &self.swc,
            WatchService::SwcTest => &self.swc_test,
            WatchService::Hhv2 => &self.hhv2,
            WatchService::Hhv2Test => &self.hhv2_test,
            WatchService::Nbc => &self.nbc,
            WatchService::NbcTest => &self.nbc_test,
            WatchService::Intellipick => &self.intellipick,
            WatchService::IntellipickTest => &self.intellipick_test,
            WatchService::H99 => &self.h99,
            WatchService::H99Test => &self.h99_test,
        }
    }
}

} // verus!
