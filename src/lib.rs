// Operations tool for a delivery team. Its core watches a deployment
// pipeline in the background: one watcher per pipeline, guarded by a marker
// file (`guard`); a polling state machine with bounded retries and a deadline
// (`poll`); and one notification when the watch ends (`notify`). The other
// modules hold the logic of the remaining subcommands.
use vstd::prelude::*;

pub mod assets;
pub mod cli;
pub mod config;
pub mod credential;
pub mod dump;
pub mod guard;
pub mod notify;
pub mod pixels;
pub mod poll;
pub mod status;
pub mod watch;

verus! {

} // verus!
