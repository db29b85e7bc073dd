use vstd::prelude::*;
use vstd::string::StringExecFns;
use crate::chars::push_char;
use crate::command::push_arg;
use crate::errors::NodeError;
use crate::paths::{join_path, join_path_spec};

verus! {

/// Whether semantic-version text is well formed.
pub uninterp spec fn semver_parses(s: Seq<char>) -> bool;

/// Whether one well-formed semantic version precedes another.
pub uninterp spec fn semver_before(a: Seq<char>, b: Seq<char>) -> bool;

/// Relies on semver::Version::parse and the derived ordering of
/// semver::Version: both are deterministic functions of the version text
/// alone. `parse` succeeds exactly on well-formed semantic versions, and
/// the ordering compares major, minor and patch numerically, then the
/// pre-release and build identifiers.
#[verifier::external_body]
pub(crate) fn compare_semver(installed: &str, latest: &str) -> (r: Option<bool>)
    ensures
        (r is Some) == (semver_parses(installed@) && semver_parses(latest@)),
        r matches Some(b) ==> b == semver_before(installed@, latest@),
{
    match (semver::Version::parse(installed), semver::Version::parse(latest)) {
        (Ok(a), Ok(b)) => Some(a < b),
        _ => None,
    }
}

/// The optional distribution tags of a registry metadata response.
#[derive(Debug)]
pub struct NpmInfoDistTags {
    /// The version the registry currently labels as latest.
    pub latest: Option<String>,
}

/// A parsed registry metadata response: an optional latest tag and the
/// registry-supplied, typically ascending, list of published versions.
#[derive(Debug)]
pub struct NpmInfo {
    /// The distribution tags.
    pub dist_tags: NpmInfoDistTags,
    /// Every published version, in registry order.
    pub versions: Vec<String>,
}

/// Picks the published version a registry response designates: the latest
/// tag when present, else the last entry of the versions list, else a
/// not-found error naming the package.
pub fn latest_from_info(name: &str, info: NpmInfo) -> (r: Result<String, NodeError>)
    ensures
        info.dist_tags.latest matches Some(v) ==> (r matches Ok(s) && s@ == v@),
        info.dist_tags.latest is None && info.versions@.len() > 0 ==> (r matches Ok(s) && s@
            == info.versions@.last()@),
        info.dist_tags.latest is None && info.versions@.len() == 0 ==> (r matches Err(e) && e
            matches NodeError::MetadataNotFound { package } && package@ == name@),
{
    match info.dist_tags.latest {
        Some(v) => Ok(v),
        None => {
            let mut versions = info.versions;
            match versions.pop() {
                Some(s) => Ok(s),
                None => Err(NodeError::MetadataNotFound { package: String::from_str(name) }),
            }
        },
    }
}

/// The fixed network-resilience flags every registry-touching subcommand
/// carries.
pub open spec fn network_flags_spec() -> Seq<Seq<char>> {
    seq![
        "--fetch-retry-mintimeout"@,
        "2000"@,
        "--fetch-retry-maxtimeout"@,
        "5000"@,
        "--fetch-timeout"@,
        "5000"@,
    ]
}

fn push_network_flags(args: &mut Vec<String>)
    ensures
        final(args).deep_view() == old(args).deep_view() + network_flags_spec(),
{
    push_arg(args, String::from_str("--fetch-retry-mintimeout"));
    push_arg(args, String::from_str("2000"));
    push_arg(args, String::from_str("--fetch-retry-maxtimeout"));
    push_arg(args, String::from_str("5000"));
    push_arg(args, String::from_str("--fetch-timeout"));
    push_arg(args, String::from_str("5000"));
    proof {
        assert(args.deep_view() =~= old(args).deep_view() + network_flags_spec());
    }
}

/// The arguments of the registry metadata query for one package.
pub open spec fn info_args_spec(name: Seq<char>) -> Seq<Seq<char>> {
    seq![name, "--json"@] + network_flags_spec()
}

/// Builds the arguments of the registry metadata query for one package.
pub fn npm_info_args(name: &str) -> (r: Vec<String>)
    ensures
        r.deep_view() == info_args_spec(name@),
{
    let mut args: Vec<String> = Vec::new();
    push_arg(&mut args, String::from_str(name));
    push_arg(&mut args, String::from_str("--json"));
    push_network_flags(&mut args);
    proof {
        assert(args.deep_view() =~= info_args_spec(name@));
    }
    args
}

/// A package pinned to a version, as the install subcommand spells it.
pub open spec fn package_at_spec(name: Seq<char>, version: Seq<char>) -> Seq<char> {
    name + seq!['@'] + version
}

/// The arguments of the install subcommand for a list of pinned packages:
/// each package as `name@version`, then `--save-exact` and the fixed
/// network-resilience flags.
pub open spec fn install_args_spec(packages: Seq<(Seq<char>, Seq<char>)>) -> Seq<Seq<char>> {
    packages.map(|i: int, p: (Seq<char>, Seq<char>)| package_at_spec(p.0, p.1)) + seq![
        "--save-exact"@,
    ] + network_flags_spec()
}

fn package_at(name: &str, version: &str) -> (r: String)
    ensures
        r@ == package_at_spec(name@, version@),
{
    let mut s = String::from_str(name);
    push_char(&mut s, '@');
    s.append(version);
    proof {
        assert(s@ =~= package_at_spec(name@, version@));
    }
    s
}

/// Builds the arguments of the install subcommand for a list of pinned
/// packages.
pub fn npm_install_args(packages: &Vec<(String, String)>) -> (r: Vec<String>)
    ensures
        r.deep_view() == install_args_spec(packages.deep_view()),
{
    let mut args: Vec<String> = Vec::new();
    let mut i: usize = 0;
    while i < packages.len()
        invariant
            i <= packages@.len(),
            args.deep_view().len() == i,
            forall|j: int|
                0 <= j < i ==> args.deep_view()[j] == package_at_spec(
                    packages.deep_view()[j].0,
                    packages.deep_view()[j].1,
                ),
        decreases packages@.len() - i,
    {
        let pair = &packages[i];
        push_arg(&mut args, package_at(pair.0.as_str(), pair.1.as_str()));
        i = i + 1;
    }
    proof {
        assert(args.deep_view() =~= packages.deep_view().map(
            |i: int, p: (Seq<char>, Seq<char>)| package_at_spec(p.0, p.1),
        ));
    }
    push_arg(&mut args, String::from_str("--save-exact"));
    push_network_flags(&mut args);
    proof {
        assert(args.deep_view() =~= install_args_spec(packages.deep_view()));
    }
    args
}

/// The manifest file an installed package declares its version in.
pub open spec fn package_json_path_spec(dir: Seq<char>, name: Seq<char>) -> Seq<char> {
    join_path_spec(join_path_spec(join_path_spec(dir, "node_modules"@), name), "package.json"@)
}

/// Builds the path of the manifest file an installed package declares its
/// version in.
pub fn package_json_path(dir: &str, name: &str) -> (r: String)
    ensures
        r@ == package_json_path_spec(dir@, name@),
{
    let a = join_path(dir, "node_modules");
    let b = join_path(a.as_str(), name);
    join_path(b.as_str(), "package.json")
}

/// What reading and parsing a package manifest produced.
pub enum ManifestReadOutcome {
    /// The manifest file does not exist: the package is simply not
    /// installed.
    Missing,
    /// The manifest exists but could not be read or parsed; carries the
    /// underlying message.
    Unreadable(String),
    /// The version the manifest declares.
    Parsed(String),
}

/// Interprets a manifest read. A missing manifest is not an error — the
/// package is not installed — while any other read or parse failure
/// propagates as a manifest error.
pub fn installed_version_from_manifest(outcome: ManifestReadOutcome) -> (r: Result<
    Option<String>,
    NodeError,
>)
    ensures
        outcome is Missing ==> (r matches Ok(o) && o is None),
        outcome matches ManifestReadOutcome::Unreadable(d) ==> (r matches Err(e) && e
            matches NodeError::ManifestUnreadable { detail } && detail@ == d@),
        outcome matches ManifestReadOutcome::Parsed(v) ==> (r matches Ok(o) && o matches Some(s)
            && s@ == v@),
{
    match outcome {
        ManifestReadOutcome::Missing => Ok(None),
        ManifestReadOutcome::Unreadable(d) => Err(NodeError::ManifestUnreadable { detail: d }),
        ManifestReadOutcome::Parsed(v) => Ok(Some(v)),
    }
}

/// Decides whether a package is due for installation: yes when the local
/// executable is absent, when the installed-version lookup failed or found
/// nothing, when either version text is not a well-formed semantic version,
/// and otherwise exactly when the installed version precedes the latest.
/// Every doubtful case resolves toward installing, never toward silently
/// running a broken or missing tool.
pub fn should_install_npm_package(
    executable_present: bool,
    installed: &Result<Option<String>, NodeError>,
    latest_version: &str,
) -> (r: bool)
    ensures
        !executable_present ==> r,
        executable_present && installed is Err ==> r,
        executable_present ==> (installed matches Ok(o) ==> ((o is None ==> r) && (o matches Some(
            v,
        ) ==> r == (!semver_parses(v@) || !semver_parses(latest_version@) || semver_before(
            v@,
            latest_version@,
        ))))),
{
    if !executable_present {
        return true;
    }
    match installed {
        Err(_) => true,
        Ok(None) => true,
        Ok(Some(v)) => match compare_semver(v.as_str(), latest_version) {
            Some(b) => b,
            None => true,
        },
    }
}

} // verus!
