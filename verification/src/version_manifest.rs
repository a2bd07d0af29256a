//! The complete version manifest: the same shape as [`crate::version`] but
//! with every field present, as a fully specified release describes itself.

use vstd::prelude::*;

use crate::download::{DownloadTask, TaskModel};
use crate::errors::VersionError;
use crate::version::{
    spec_check_rules, spec_resolve_libraries, Arguments, AssetIndex, JavaVersion, LibResolution,
    Library, LibraryRule, Logging, Name, Version, VersionInfoDownloads,
};

verus! {

/// A version manifest with every field present: the form a complete,
/// non-layered release takes.
#[derive(Debug, Clone, PartialEq, Eq)]
pub struct VersionManifest {
    pub arguments: Arguments,
    pub asset_index: AssetIndex,
    pub assets: String,
    pub compliance_level: i64,
    pub downloads: VersionInfoDownloads,
    pub id: String,
    pub java_version: JavaVersion,
    pub libraries: Vec<Library>,
    pub logging: Logging,
    pub main_class: String,
    pub minimum_launcher_version: i64,
    pub release_time: String,
    pub time: String,
    pub version_info_type: String,
}

impl VersionManifest {
    /// Evaluates a library's rule list against the given platform; same
    /// semantics as [`Version::check_library_rules`].
    pub fn check_rules(rules: &Vec<LibraryRule>, os: Name) -> (r: bool)
        ensures
            r == spec_check_rules(rules@, os),
    {
        Version::check_library_rules(rules, os)
    }

    /// Resolves the library list into download tasks under `save_path`, in
    /// declaration order; same semantics as [`Version::resolve_libraries`],
    /// but a complete manifest always has a library list.
    pub fn resolve_libraries(&self, save_path: &str, os: Name) -> (r: Result<
        Vec<DownloadTask>,
        VersionError,
    >)
        ensures
            match spec_resolve_libraries(self.libraries@, os, save_path@) {
                LibResolution::Tasks(models) => r matches Ok(out) && out@.len() == models.len()
                    && (forall|i: int| 0 <= i < models.len() ==> out@[i]@ == models[i]),
                LibResolution::Fail(e) => r == Err::<Vec<DownloadTask>, VersionError>(e),
            },
    {
        Version::resolve_library_list(&self.libraries, save_path, os)
    }

    /// The single task fetching the client jar to `save_path`.
    pub fn resolve_client_jar(&self, save_path: String) -> (t: DownloadTask)
        ensures
            t@ == (TaskModel {
                url: self.downloads.client.url@,
                path: save_path@,
                size: Some(self.downloads.client.size as int),
                sha1: Some(self.downloads.client.sha1@),
            }),
    {
        DownloadTask {
            url: self.downloads.client.url.clone(),
            path: save_path,
            size: Some(self.downloads.client.size),
            sha1: Some(self.downloads.client.sha1.clone()),
        }
    }

    /// The single task fetching the server jar to `save_path`.
    pub fn resolve_server_jar(&self, save_path: String) -> (t: DownloadTask)
        ensures
            t@ == (TaskModel {
                url: self.downloads.server.url@,
                path: save_path@,
                size: Some(self.downloads.server.size as int),
                sha1: Some(self.downloads.server.sha1@),
            }),
    {
        DownloadTask {
            url: self.downloads.server.url.clone(),
            path: save_path,
            size: Some(self.downloads.server.size),
            sha1: Some(self.downloads.server.sha1.clone()),
        }
    }
}

} // verus!
