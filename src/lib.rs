//! Build-time helpers for a native browser-embedding library: the aggregate
//! header over its C API, the allow-list of the generated bindings, the
//! linker directives for the target platform, and the plan for staging the
//! library's runtime files next to the built executable.
//!
//! Paths are handled as `/`-separated strings; reading the environment and
//! the filesystem work itself are left to the caller.

mod text;
mod layout;
mod header;
mod bindings;
mod platform;
mod staging;

pub use text::{str_eq, ends_with, normalize_separators, find_char};
pub use layout::{join_path, cef_dir, cef_binary_dir_name, cef_resources_dir_name, BuildError};
pub use header::{
    is_header_name, include_directive, aggregate_header_lines, aggregate_header_needs_writing,
    aggregate_lines_one_per_header,
};
pub use bindings::binding_allow_list;
pub use platform::{
    Platform, target_component, classify_os, get_platform, platform_link_directives, config_linker,
};
pub use staging::{
    CopyJob, CopyAction, StagingPlan, cef_binary_file_names, copy_file_to_target, copy_action,
    staging_target_dir, staging_plan, bulk_copy_report, staging_outcome,
};
