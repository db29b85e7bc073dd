use vstd::prelude::*;
use vstd::string::StringExecFns;
use crate::command::{build_probe_plan, probe_plan_spec, CommandPlan};
use crate::errors::NodeError;
use crate::paths::{
    compute_paths, containing_dir_spec, join_path, join_path_spec, resolved_paths_spec, NodePaths,
};
use crate::platform::{
    arch_token_spec, archive_extension, archive_type_spec, archive_type_for, os_token_spec,
    resolve_arch, resolve_arch_spec, resolve_os, resolve_os_spec, Arch, ArchiveType, Os,
};
use crate::settings::{ConfigurationChannel, SettingsView};

verus! {

/// The pinned toolchain version this layer installs.
pub fn pinned_version() -> (r: String)
    ensures
        r@ == "v22.5.1"@,
{
    String::from_str("v22.5.1")
}

/// One prepared installation attempt: the resolved platform, the resolved
/// layout, whether an explicit override is in force, and the validity probe
/// to run against the layout.
pub struct InstallAttempt {
    /// The resolved OS.
    pub os: Os,
    /// The resolved CPU architecture.
    pub arch: Arch,
    /// The pinned version the layout was computed for.
    pub version: String,
    /// The support directory the layout was computed under.
    pub support_dir: String,
    /// The resolved install layout.
    pub paths: NodePaths,
    /// Whether the runtime binary or package-manager path was explicitly
    /// overridden by configuration.
    pub has_override: bool,
    /// The validity probe to execute against the layout.
    pub probe: CommandPlan,
}

impl InstallAttempt {
    /// The resolved path of the runtime binary this attempt validated.
    pub fn binary_path(&self) -> (r: String)
        ensures
            r@ == self.paths@.node,
    {
        String::from_str(self.paths.node.as_str())
    }
}

/// The repair a failed probe calls for: wipe the containing directory,
/// recreate it, fetch the archive from the built URL and unpack it there,
/// streaming, in the format the platform's release uses.
#[derive(Debug, PartialEq, Eq)]
pub struct DownloadPlan {
    /// The directory to delete recursively (ignoring errors) and recreate.
    pub containing_dir: String,
    /// The release archive's filename.
    pub file_name: String,
    /// The URL to fetch.
    pub url: String,
    /// The archive format to unpack with.
    pub archive: ArchiveType,
}

/// The best-effort housekeeping done after every installation check: ensure
/// the cache directory and both blank placeholder config files exist.
/// Failures here are swallowed; they never fail the operation.
pub struct Housekeeping {
    /// The directory to create if absent.
    pub cache_dir: String,
    /// The files to write empty if absent.
    pub blank_files: Vec<String>,
}

/// The release archive's filename for a platform and version.
pub open spec fn file_name_spec(version: Seq<char>, os: Os, arch: Arch) -> Seq<char> {
    "node-"@ + version + "-"@ + os_token_spec(os) + "-"@ + arch_token_spec(arch) + "."@
        + crate::platform::archive_extension_spec(archive_type_spec(os))
}

/// The download URL for a platform and version, on the toolchain's
/// conventional distribution host.
pub open spec fn download_url_spec(version: Seq<char>, os: Os, arch: Arch) -> Seq<char> {
    "https://nodejs.org/dist/"@ + version + "/"@ + file_name_spec(version, os, arch)
}

/// Prepares one installation attempt. Pending configuration updates are
/// drained first, so the attempt sees every update published before it and
/// none published after. An unsupported OS or architecture fails fast with
/// an unsupported-platform error before any layout is computed: no
/// filesystem or network action is part of a failed preparation.
pub fn prepare_install(
    channel: &mut ConfigurationChannel,
    os_name: &str,
    arch_name: &str,
    support_dir: &str,
    version: &str,
) -> (r: Result<InstallAttempt, NodeError>)
    ensures
        final(channel).pending_spec() == Seq::<SettingsView>::empty(),
        final(channel).current_spec() == (if old(channel).pending_spec().len() > 0 {
            old(channel).pending_spec().last()
        } else {
            old(channel).current_spec()
        }),
        (resolve_os_spec(os_name@) is Some && resolve_arch_spec(arch_name@) is Some) <==> r is Ok,
        resolve_os_spec(os_name@) is None ==> (r matches Err(e) && e
            matches NodeError::UnsupportedPlatform { what } && what@ == os_name@),
        resolve_os_spec(os_name@) is Some && resolve_arch_spec(arch_name@) is None ==> (r
            matches Err(e) && e matches NodeError::UnsupportedPlatform { what } && what@
            == arch_name@),
        r matches Ok(a) ==> ({
            &&& resolve_os_spec(os_name@) == Some(a.os)
            &&& resolve_arch_spec(arch_name@) == Some(a.arch)
            &&& a.version@ == version@
            &&& a.support_dir@ == support_dir@
            &&& a.paths@ == resolved_paths_spec(
                support_dir@,
                version@,
                a.os,
                a.arch,
                final(channel).current_spec(),
            )
            &&& a.has_override == (final(channel).current_spec().npm is Some
                || final(channel).current_spec().node is Some)
            &&& a.probe@ == probe_plan_spec(a.paths@, a.os)
        }),
{
    channel.drain();
    let os = match resolve_os(os_name) {
        Ok(o) => o,
        Err(e) => {
            return Err(e);
        },
    };
    let arch = match resolve_arch(arch_name) {
        Ok(a) => a,
        Err(e) => {
            return Err(e);
        },
    };
    let settings = channel.current();
    let has_override = settings.npm.is_some() || settings.node.is_some();
    let paths = compute_paths(support_dir, version, os, arch, &settings);
    let probe = build_probe_plan(&paths, os);
    Ok(
        InstallAttempt {
            os,
            arch,
            version: String::from_str(version),
            support_dir: String::from_str(support_dir),
            paths,
            has_override,
            probe,
        },
    )
}

/// Decides what follows the validity probe. A successful probe needs no
/// repair. A failed probe with an explicit override in force is a fatal
/// configuration error naming the overridden binary: this layer never
/// silently installs elsewhere when the user pinned a path, and no
/// directory is deleted. A failed probe without an override yields exactly
/// one download plan: wipe and recreate the containing directory, fetch the
/// one archive the platform's release naming scheme designates, and unpack
/// it there.
pub fn after_probe(attempt: &InstallAttempt, probe_ok: bool) -> (r: Result<
    Option<DownloadPlan>,
    NodeError,
>)
    ensures
        probe_ok ==> (r matches Ok(p) && p is None),
        !probe_ok && attempt.has_override ==> (r matches Err(e) && e
            matches NodeError::OverrideInvalid { path } && path@ == attempt.paths@.node),
        !probe_ok && !attempt.has_override ==> (r matches Ok(po) && po matches Some(p) && ({
            &&& p.containing_dir@ == containing_dir_spec(attempt.support_dir@)
            &&& p.file_name@ == file_name_spec(attempt.version@, attempt.os, attempt.arch)
            &&& p.url@ == download_url_spec(attempt.version@, attempt.os, attempt.arch)
            &&& p.archive == archive_type_spec(attempt.os)
        })),
{
    if probe_ok {
        return Ok(None);
    }
    if attempt.has_override {
        return Err(
            NodeError::OverrideInvalid { path: String::from_str(attempt.paths.node.as_str()) },
        );
    }
    let containing_dir = join_path(attempt.support_dir.as_str(), "node");
    let archive = archive_type_for(attempt.os);
    let extension = archive_extension(archive);
    let mut file_name = String::from_str("node-");
    file_name.append(attempt.version.as_str());
    file_name.append("-");
    let os_tok = crate::platform::os_token(attempt.os);
    file_name.append(os_tok.as_str());
    file_name.append("-");
    let arch_tok = crate::platform::arch_token(attempt.arch);
    file_name.append(arch_tok.as_str());
    file_name.append(".");
    file_name.append(extension.as_str());
    proof {
        reveal_strlit(".");
        assert("."@ =~= seq!['.']);
        assert(file_name@ =~= file_name_spec(attempt.version@, attempt.os, attempt.arch));
    }
    let mut url = String::from_str("https://nodejs.org/dist/");
    url.append(attempt.version.as_str());
    url.append("/");
    url.append(file_name.as_str());
    proof {
        reveal_strlit("/");
        assert("/"@ =~= seq!['/']);
        assert(url@ =~= download_url_spec(attempt.version@, attempt.os, attempt.arch));
    }
    Ok(Some(DownloadPlan { containing_dir, file_name, url, archive }))
}

/// A configuration update published while an operation is in flight does
/// not change the effective settings that operation already resolved, so
/// the layout it computed from them stands as it is; the update is applied
/// only when the next operation drains the queue. The premises are exactly
/// what holds of the channel after such a publication.
pub proof fn lemma_configure_defers(
    before: ConfigurationChannel,
    after: ConfigurationChannel,
    published: SettingsView,
    support_dir: Seq<char>,
    version: Seq<char>,
    os: Os,
    arch: Arch,
)
    requires
        after.current_spec() == before.current_spec(),
        after.pending_spec() == before.pending_spec().push(published),
    ensures
        resolved_paths_spec(support_dir, version, os, arch, after.current_spec())
            == resolved_paths_spec(support_dir, version, os, arch, before.current_spec()),
{
}

/// Builds the best-effort housekeeping that follows every installation
/// check, repaired or not: the cache directory, and the user-level and
/// global-level blank placeholder config files inside it.
pub fn housekeeping_plan(paths: &NodePaths) -> (r: Housekeeping)
    ensures
        r.cache_dir@ == paths@.cache,
        r.blank_files.deep_view() == seq![
            join_path_spec(paths@.cache, "blank_user_npmrc"@),
            join_path_spec(paths@.cache, "blank_global_npmrc"@),
        ],
{
    let mut blank_files: Vec<String> = Vec::new();
    blank_files.push(paths.user_rc());
    blank_files.push(paths.global_rc());
    proof {
        assert(blank_files.deep_view() =~= seq![
            join_path_spec(paths@.cache, "blank_user_npmrc"@),
            join_path_spec(paths@.cache, "blank_global_npmrc"@),
        ]);
    }
    Housekeeping { cache_dir: String::from_str(paths.cache.as_str()), blank_files }
}

} // verus!
