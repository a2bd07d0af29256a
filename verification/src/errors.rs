//! Error values for manifest resolution, argument rendering and downloads.
//!
//! Conditions that would otherwise abort (an unknown rule, a library without
//! an artifact path) are reported as tagged variants so a caller can fail
//! fast without the process aborting.

use vstd::prelude::*;

verus! {

/// A manifest field an operation may find missing after merging.
#[derive(Debug, Clone, Copy, PartialEq, Eq, Structural)]
pub enum ManifestField {
    Libraries,
    AssetIndex,
    Downloads,
    MainClass,
    Arguments,
    JavaVersion,
}

/// The name a manifest field carries on the wire.
pub open spec fn spec_manifest_field_name(f: ManifestField) -> Seq<char> {
    match f {
        ManifestField::Libraries => "libraries"@,
        ManifestField::AssetIndex => "assetIndex"@,
        ManifestField::Downloads => "downloads"@,
        ManifestField::MainClass => "mainClass"@,
        ManifestField::Arguments => "arguments"@,
        ManifestField::JavaVersion => "javaVersion"@,
    }
}

impl ManifestField {
    /// The name this field carries on the wire.
    pub fn name(&self) -> (s: String)
        ensures
            s@ == spec_manifest_field_name(*self),
    {
        match self {
            ManifestField::Libraries => "libraries".to_owned(),
            ManifestField::AssetIndex => "assetIndex".to_owned(),
            ManifestField::Downloads => "downloads".to_owned(),
            ManifestField::MainClass => "mainClass".to_owned(),
            ManifestField::Arguments => "arguments".to_owned(),
            ManifestField::JavaVersion => "javaVersion".to_owned(),
        }
    }
}

/// A library coordinate (`group:artifact:version`) could not be parsed.
#[derive(Debug, Clone, PartialEq, Eq, Structural)]
pub enum MavenIdentifierParseError {
    /// There were not enough `:`-separated parts in the coordinate.
    NotEnoughArgs,
}

/// Building a download descriptor from a maven coordinate failed.
#[derive(Debug, Clone, PartialEq, Eq, Structural)]
pub enum CreateLibraryDownloadError {
    /// The library name is not a valid maven coordinate.
    MavenParseError(MavenIdentifierParseError),
    /// The metadata request did not report a content length.
    NoContentLength,
    /// The reported content length is not a valid number.
    CannotParseContentLength,
}

/// A single download attempt or task failed.
#[derive(Debug, Clone, PartialEq, Eq)]
pub enum DownloadError {
    /// The destination path has no parent directory component.
    NoPathParent,
    /// An I/O operation failed; the message describes the cause.
    IoError(String),
    /// The request itself failed; the message describes the cause.
    RequestError(String),
}

/// Errors from resolving a version manifest into download tasks.
#[derive(Debug, Clone, PartialEq, Eq, Structural)]
pub enum VersionError {
    /// A selected artifact carries no install path.
    NoArtifactPath,
    /// A selected native classifier carries no install path.
    NoClassifierPath,
    /// A library has neither a download descriptor nor a base url to build one.
    NoLibraryUrl,
    /// A fallback download descriptor could not be built from the library name.
    LibraryDownloadError(CreateLibraryDownloadError),
    /// A section required for the requested operation is absent after
    /// merging; the payload names the field.
    IncompleteManifest(ManifestField),
}

/// Errors from evaluating argument rules and placeholders.
#[derive(Debug, Clone, PartialEq, Eq)]
pub enum JavaArgumentsError {
    /// A section required for rendering is absent after merging; the payload
    /// names the field.
    IncompleteManifest(ManifestField),
    /// A library's primary artifact carries no install path.
    NoDownloadArtifactPath,
    /// A native classifier carries no install path.
    NoLibsPath,
    /// A rule names an operating system that is not recognized.
    UnrecognisedOs,
    /// A rule names a cpu architecture that is not recognized.
    UnrecognisedOsArch,
    /// A rule names an os version pattern that is not recognized; the payload
    /// holds the pattern.
    UnrecognisedOsVersion(String),
    /// A fallback download descriptor could not be built from a library name.
    LibraryDownloadError(CreateLibraryDownloadError),
    /// A library has neither a download descriptor nor a base url to build one.
    NoLibraryUrl,
    /// A disallow rule on a jvm argument is not supported.
    NoDissalows,
    /// A resolution placeholder was used without a custom resolution.
    NoCustomResolutionProvided,
    /// A `${...}` placeholder names an unrecognized value; the payload holds
    /// the name.
    UnrecognisedGameArgument(String),
    /// An allow rule on a game argument tests no recognized feature.
    UnrecognisedAllowRule,
    /// A disallow rule on a game argument is not supported.
    UnrecognisedDisallowRule,
}

/// Errors from assembling the full launch invocation.
#[derive(Debug, Clone, PartialEq, Eq)]
pub enum LauncherError {
    /// An argument could not be rendered.
    JavaArgumentParseError(JavaArgumentsError),
    /// No main class is present in the manifest.
    NoMainClass,
    /// No argument lists are present in the manifest.
    NoArgs,
}

} // verus!
