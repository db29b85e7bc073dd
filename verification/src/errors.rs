use vstd::prelude::*;
use vstd::string::StringExecFns;

verus! {

/// The error taxonomy of the runtime layer.
///
/// Each variant carries the identifying context of the failure so that a
/// caller can tell which stage went wrong and with which inputs.
#[derive(Debug, PartialEq, Eq)]
pub enum NodeError {
    /// The running OS or CPU architecture has no published release; fatal,
    /// never retried. Carries the unrecognized identifier.
    UnsupportedPlatform { what: String },
    /// A user-supplied override path failed its validity probe; fatal, the
    /// user must fix their configuration. Carries the overridden binary path.
    OverrideInvalid { path: String },
    /// Fetching the release archive failed. Carries the URL that was fetched.
    DownloadFailed { url: String },
    /// Decompressing or unpacking the release archive failed.
    ExtractFailed { detail: String },
    /// A managed file that an installation should have provided is absent on
    /// disk; distinct from a spawn failure to aid diagnosis.
    MissingManagedBinary { path: String },
    /// Spawning the package-manager subprocess failed on both attempts.
    /// Carries the subcommand and the second attempt's error.
    SpawnFailed { subcommand: String, cause: Box<NodeError> },
    /// The package manager ran but exited with a non-zero status; not
    /// retried. Carries the captured output for diagnosis.
    NonZeroExit { subcommand: String, stdout: Vec<u8>, stderr: Vec<u8> },
    /// The registry metadata query returned no usable version.
    MetadataNotFound { package: String },
    /// A package manifest on disk exists but could not be read or parsed;
    /// distinct from the manifest simply not being there.
    ManifestUnreadable { detail: String },
    /// An I/O step outside this layer's own logic failed; carries the
    /// reporting stage and the underlying message.
    Io { stage: String, detail: String },
}

impl NodeError {
    /// A short human-readable description, in place of a `Display` impl.
    pub fn message(&self) -> String {
        let mut m = String::new();
        match self {
            NodeError::UnsupportedPlatform { what } => {
                m.append("running on unsupported platform: ");
                m.append(what.as_str());
            },
            NodeError::OverrideInvalid { path } => {
                m.append("node override could not be executed: ");
                m.append(path.as_str());
            },
            NodeError::DownloadFailed { url } => {
                m.append("error downloading node release archive: ");
                m.append(url.as_str());
            },
            NodeError::ExtractFailed { detail } => {
                m.append("error extracting node release archive: ");
                m.append(detail.as_str());
            },
            NodeError::MissingManagedBinary { path } => {
                m.append("missing managed binary file: ");
                m.append(path.as_str());
            },
            NodeError::SpawnFailed { subcommand, .. } => {
                m.append("failed to launch npm subcommand ");
                m.append(subcommand.as_str());
            },
            NodeError::NonZeroExit { subcommand, .. } => {
                m.append("failed to execute npm subcommand ");
                m.append(subcommand.as_str());
            },
            NodeError::MetadataNotFound { package } => {
                m.append("no version found for npm package ");
                m.append(package.as_str());
            },
            NodeError::ManifestUnreadable { detail } => {
                m.append("could not read installed package manifest: ");
                m.append(detail.as_str());
            },
            NodeError::Io { stage, detail } => {
                m.append(stage.as_str());
                m.append(": ");
                m.append(detail.as_str());
            },
        }
        m
    }
}

} // verus!
