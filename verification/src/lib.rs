//! Turn a code-review "suggested change" comment into a byte-exact edit of a
//! tracked file: locate the replacement text inside the comment body, splice it
//! into the referenced line range of the original content, and express the
//! result as a unified diff.
//!
//! The line-oriented text surgery (block extraction, line-ending sniffing,
//! splicing) is verified here; the version-control storage layer and the
//! network are capabilities the surrounding program supplies.

pub mod arg;
pub mod config;
pub mod coords;
pub mod diff_options;
pub mod fence;
pub mod gitdiff;
pub mod owner_repo;
pub mod suggestion;
pub mod text;
pub mod urlparse;

pub use arg::is_suggestion_id;
pub use config::Config;
pub use coords::SuggestionUrl;
pub use owner_repo::OwnerRepo;
pub use suggestion::Suggestion;
