use vstd::prelude::*;
use vstd::string::StringExecFns;
use crate::platform::{arch_token, arch_token_spec, os_token, os_token_spec, Arch, Os};
use crate::settings::{NodeRuntimeSettings, SettingsView};

verus! {

/// A path joined with one more component, separated by a slash.
pub open spec fn join_path_spec(base: Seq<char>, rel: Seq<char>) -> Seq<char> {
    base + seq!['/'] + rel
}

/// Joins a base path and a relative component with a slash.
pub fn join_path(base: &str, rel: &str) -> (r: String)
    ensures
        r@ == join_path_spec(base@, rel@),
{
    proof {
        reveal_strlit("/");
        assert("/"@ =~= seq!['/']);
    }
    let mut s = String::from_str(base);
    s.append("/");
    s.append(rel);
    proof {
        assert(s@ =~= join_path_spec(base@, rel@));
    }
    s
}

/// The resolved, absolute paths of one toolchain installation: the runtime
/// binary, the package-manager entry point, and the private cache directory.
pub struct NodePaths {
    pub node: String,
    pub npm: String,
    pub cache: String,
}

/// The mathematical value of a `NodePaths`: each path as its character
/// sequence.
#[verifier::ext_equal]
pub struct NodePathsView {
    pub node: Seq<char>,
    pub npm: Seq<char>,
    pub cache: Seq<char>,
}

impl View for NodePaths {
    type V = NodePathsView;

    open spec fn view(&self) -> NodePathsView {
        NodePathsView { node: self.node@, npm: self.npm@, cache: self.cache@ }
    }
}

/// The directory that holds every toolchain installation, under the
/// platform's support directory.
pub open spec fn containing_dir_spec(support_dir: Seq<char>) -> Seq<char> {
    join_path_spec(support_dir, "node"@)
}

/// The folder name of one versioned, platform-specific installation.
pub open spec fn folder_name_spec(version: Seq<char>, os: Os, arch: Arch) -> Seq<char> {
    "node-"@ + version + "-"@ + os_token_spec(os) + "-"@ + arch_token_spec(arch)
}

/// The installation directory of one versioned, platform-specific toolchain.
pub open spec fn install_dir_spec(support_dir: Seq<char>, version: Seq<char>, os: Os, arch: Arch) -> Seq<
    char,
> {
    join_path_spec(containing_dir_spec(support_dir), folder_name_spec(version, os, arch))
}

/// The relative path of the runtime binary inside an installation, which
/// differs between the Windows and Unix release archives.
pub open spec fn node_rel_spec(os: Os) -> Seq<char> {
    if os == Os::Windows {
        "node.exe"@
    } else {
        "bin/node"@
    }
}

/// The relative path of the package-manager entry point inside an
/// installation.
pub open spec fn npm_rel_spec(os: Os) -> Seq<char> {
    if os == Os::Windows {
        "node_modules/npm/bin/npm-cli.js"@
    } else {
        "bin/npm"@
    }
}

/// The paths an installation resolves to: each component is its override
/// when one is set, else the computed default under the install directory.
pub open spec fn resolved_paths_spec(
    support_dir: Seq<char>,
    version: Seq<char>,
    os: Os,
    arch: Arch,
    s: SettingsView,
) -> NodePathsView {
    let dir = install_dir_spec(support_dir, version, os, arch);
    NodePathsView {
        node: match s.node {
            Some(p) => p,
            None => join_path_spec(dir, node_rel_spec(os)),
        },
        npm: match s.npm {
            Some(p) => p,
            None => join_path_spec(dir, npm_rel_spec(os)),
        },
        cache: match s.cache {
            Some(p) => p,
            None => join_path_spec(dir, "cache"@),
        },
    }
}

/// Returns the folder name of one versioned, platform-specific installation.
pub fn folder_name(version: &str, os: Os, arch: Arch) -> (r: String)
    ensures
        r@ == folder_name_spec(version@, os, arch),
{
    let mut s = String::from_str("node-");
    s.append(version);
    s.append("-");
    let os_tok = os_token(os);
    s.append(os_tok.as_str());
    s.append("-");
    let arch_tok = arch_token(arch);
    s.append(arch_tok.as_str());
    proof {
        assert(s@ =~= folder_name_spec(version@, os, arch));
    }
    s
}

fn node_rel(os: Os) -> (r: String)
    ensures
        r@ == node_rel_spec(os),
{
    if os == Os::Windows {
        String::from_str("node.exe")
    } else {
        String::from_str("bin/node")
    }
}

fn npm_rel(os: Os) -> (r: String)
    ensures
        r@ == npm_rel_spec(os),
{
    if os == Os::Windows {
        String::from_str("node_modules/npm/bin/npm-cli.js")
    } else {
        String::from_str("bin/npm")
    }
}

/// Resolves the install layout for a pinned version and platform under the
/// given support directory, honoring the overrides in `settings`.
pub fn compute_paths(
    support_dir: &str,
    version: &str,
    os: Os,
    arch: Arch,
    settings: &NodeRuntimeSettings,
) -> (r: NodePaths)
    ensures
        r@ == resolved_paths_spec(support_dir@, version@, os, arch, settings@),
{
    let containing = join_path(support_dir, "node");
    let folder = folder_name(version, os, arch);
    let dir = join_path(containing.as_str(), folder.as_str());
    let node = match &settings.node {
        Some(p) => String::from_str(p.as_str()),
        None => {
            let rel = node_rel(os);
            join_path(dir.as_str(), rel.as_str())
        },
    };
    let npm = match &settings.npm {
        Some(p) => String::from_str(p.as_str()),
        None => {
            let rel = npm_rel(os);
            join_path(dir.as_str(), rel.as_str())
        },
    };
    let cache = match &settings.cache {
        Some(p) => String::from_str(p.as_str()),
        None => join_path(dir.as_str(), "cache"),
    };
    let r = NodePaths { node, npm, cache };
    proof {
        assert(r@ =~= resolved_paths_spec(support_dir@, version@, os, arch, settings@));
    }
    r
}

impl NodePaths {
    /// The user-level blank placeholder config file inside the cache
    /// directory, which keeps the package manager from reading ambient
    /// user configuration.
    pub fn user_rc(&self) -> (r: String)
        ensures
            r@ == join_path_spec(self.cache@, "blank_user_npmrc"@),
    {
        join_path(self.cache.as_str(), "blank_user_npmrc")
    }

    /// The global-level blank placeholder config file inside the cache
    /// directory.
    pub fn global_rc(&self) -> (r: String)
        ensures
            r@ == join_path_spec(self.cache@, "blank_global_npmrc"@),
    {
        join_path(self.cache.as_str(), "blank_global_npmrc")
    }
}

} // verus!
