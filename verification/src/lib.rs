//! Release preparation for a git repository: the latest semantic-version tag,
//! the default branch, and the commits that a release describes.
//!
//! `resolve` reads the repository. What is decided on its answers stands in
//! `tags`, `base` and `walk`; `version` holds semantic versions and `commit`
//! commits as plain values. The other modules serve the tool around it:
//! `remote_url` reads organization and repository out of a remote URL,
//! `changelog`, `llm` and `conf` hold what is decided about changelog, model
//! and configuration, and `tree` draws error reports.
pub mod base;
pub mod changelog;
pub mod commit;
pub mod conf;
pub mod error;
pub mod git;
pub mod llm;
pub mod remote_url;
pub mod resolve;
pub mod tags;
pub mod text;
pub mod tree;
pub mod version;
pub mod walk;

pub use crate::commit::{get_abbreviated_hash, get_short_message};
pub use crate::llm::validate_llm_settings;
pub use crate::resolve::{get_commits_after_latest_tag, get_org_and_repo};
pub use crate::tree::TreeFormatter;
