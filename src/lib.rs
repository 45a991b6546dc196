//! Keeps a local working directory in step with a remote git repository.
//!
//! The library holds the decisions: the repository descriptor and its branch
//! default, the synchronization state machine (validate, update, recover by
//! re-cloning), the credential check of the trigger endpoint and the JSON
//! envelopes it answers with. Running git, touching the disk and serving HTTP
//! is left to the caller.

pub mod descriptor;
pub mod engine;
pub mod error;
pub mod snapshot;
pub mod auth;

pub use auth::{AuthenticatedUser, Credentials, authenticate, extract_token_auth, split_credentials, token_param};
pub use descriptor::Repo;
pub use error::{ApiError, error_body, success_body};
pub use snapshot::{CommitSnapshot, branch_label, snapshot_file};
pub use engine::{Action, Event, SyncEngine, SyncState, is_valid_git_repo};
