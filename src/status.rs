use vstd::prelude::*;

verus! {

/// Status of the latest execution of a delivery pipeline.
pub enum PipelineStatus {
    InProgress,
    Succeeded,
    Failed,
    /// Any other status, by the name the delivery service gave it.
    Other(String),
}

impl PipelineStatus {
    pub open spec fn spec_is_in_progress(&self) -> bool {
        self is InProgress
    }

    /// Whether the execution is still running.
    pub fn is_in_progress(&self) -> (r: bool)
        ensures
            r == self.spec_is_in_progress(),
    {
        match self {
            PipelineStatus::InProgress => true,
            _ => false,
        }
    }
}

/// Reads a status by the name the delivery service gives it.
pub fn status_from_name(name: &str) -> (r: PipelineStatus)
    ensures
        name@ == "InProgress"@ <==> r is InProgress,
        name@ == "Succeeded"@ <==> r is Succeeded,
        name@ == "Failed"@ <==> r is Failed,
        r matches PipelineStatus::Other(n) ==> n@ == name@,
{
    let n = String::from_str(name);
    proof {
        reveal_strlit("InProgress");
        reveal_strlit("Succeeded");
        reveal_strlit("Failed");
        assert("InProgress"@[0] != "Succeeded"@[0]);
        assert("InProgress"@[0] != "Failed"@[0]);
        assert("Succeeded"@[0] != "Failed"@[0]);
    }
    if n == String::from_str("InProgress") {
        PipelineStatus::InProgress
    } else if n == String::from_str("Succeeded") {
        PipelineStatus::Succeeded
    } else if n == String::from_str("Failed") {
        PipelineStatus::Failed
    } else {
        PipelineStatus::Other(n)
    }
}

/// What the delivery service reports of the latest execution of a pipeline.
pub struct ExecutionSnapshot {
    pub status: PipelineStatus,
    /// When the execution started, in seconds since the Unix epoch.
    pub start_time: i64,
    /// When the execution last changed, in seconds since the Unix epoch.
    pub last_update_time: i64,
    /// The message of the revision that the execution deploys.
    pub revision_message: String,
}

/// Whether to start watching, decided from one status check.
#[derive(PartialEq, Eq, Structural, Clone, Copy, Debug)]
pub enum Decision {
    /// The pipeline is deploying: go on and watch it.
    Proceed,
    /// The pipeline is not deploying: there is nothing to watch.
    NotInProgress,
}

/// Decides from the status of a pipeline whether watching it is worth while:
/// only an execution in progress is watched.
pub fn preflight(status: &PipelineStatus) -> (r: Decision)
    ensures
        r == Decision::Proceed <==> status.spec_is_in_progress(),
        r == Decision::NotInProgress <==> !status.spec_is_in_progress(),
{
    if status.is_in_progress() {
        Decision::Proceed
    } else {
        Decision::NotInProgress
    }
}

} // verus!
