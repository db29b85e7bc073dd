//! A managed runtime acquisition and execution layer for a versioned,
//! platform-specific toolchain: a runtime binary plus its companion package
//! manager. The library resolves the running platform to the toolchain's
//! release naming scheme, computes the on-disk install layout (honoring
//! user-supplied overrides), decides when an installation must be repaired
//! and exactly what to download, plans every package-manager invocation
//! with a cleared environment and pinned cache, applies the retry policy,
//! and decides when a package is due for installation.
//!
//! Every decision and computation is a verified function with a contract;
//! the filesystem, network and subprocess actions those contracts describe
//! are carried out by a thin unverified shell around the library.

mod chars;
mod command;
mod context;
mod errors;
mod install;
mod platform;
mod paths;
mod proxy;
mod settings;
mod version;

pub use command::{
    build_probe_plan, build_subcommand_plan, check_binaries_present, node_command_spec,
    npm_base_args_spec, npm_command_spec, parent_dir, parent_of, probe_plan_spec,
    resolve_subcommand_outcome, search_path_entries, search_path_spec, subcommand_args_spec,
    subcommand_env_spec, subcommand_plan_spec, CommandPlan, CommandPlanView, ProcessOutput,
};
pub use context::{ContextItem, ContextItemType};
pub use errors::NodeError;
pub use install::{
    after_probe, download_url_spec, file_name_spec, housekeeping_plan, lemma_configure_defers,
    pinned_version, prepare_install, DownloadPlan, Housekeeping, InstallAttempt,
};
pub use platform::{Arch, ArchiveType, Os};
pub use platform::{
    arch_token, arch_token_spec, archive_extension, archive_extension_spec, archive_type_for,
    archive_type_spec, os_token, os_token_spec, resolve_arch, resolve_os,
};
pub use paths::{
    compute_paths, containing_dir_spec, folder_name, folder_name_spec, install_dir_spec, join_path,
    join_path_spec, node_rel_spec, npm_rel_spec, resolved_paths_spec, NodePaths, NodePathsView,
};
pub use proxy::{ascii_lower_char, lower_seq, remap_proxy, remap_proxy_spec, replace_localhost};
pub use settings::{empty_settings, ConfigurationChannel, NodeRuntimeSettings, SettingsView};
pub use version::{
    info_args_spec, install_args_spec, installed_version_from_manifest, latest_from_info,
    network_flags_spec, npm_info_args, npm_install_args, package_at_spec, package_json_path,
    package_json_path_spec, semver_before, semver_parses, should_install_npm_package,
    ManifestReadOutcome, NpmInfo, NpmInfoDistTags,
};
