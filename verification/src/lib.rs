//! Scaffolder for a layered "bounded context" module skeleton.
//!
//! Given a context name, the library computes a complete plan of the
//! directories and files to materialize: a fixed tree of layer
//! directories, one module-declaration file per directory (content
//! selected by the directory's leaf name), a package manifest, and a
//! root module file wiring the three top-level layers together.
//! Performing the filesystem writes is left to the caller; everything
//! decided here is stated in contracts and verified.

pub mod cli;
pub mod content;
pub mod laws;
pub mod plan;
pub mod run;
pub mod strutil;
pub mod template;

pub use cli::already_exists_message;
pub use cli::parse_invocation;
pub use cli::success_message;
pub use cli::usage_message;
pub use content::manifest_content;
pub use content::mod_file_content;
pub use content::root_module_content;
pub use plan::scaffold_plan;
pub use run::decide_run;
pub use run::RunOutcome;
pub use plan::FileSpec;
pub use plan::ScaffoldPlan;
pub use strutil::leaf_name;
pub use strutil::str_eq;
pub use template::template_dirs;
