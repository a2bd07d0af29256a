//! The version manifest model: a possibly partial description of one
//! release, merging of a derived manifest over a base one, rule-gated
//! library selection, and resolution into concrete download tasks.

use vstd::prelude::*;

use crate::download::{DownloadTask, TaskModel};
use crate::errors::{
    CreateLibraryDownloadError, ManifestField, MavenIdentifierParseError, VersionError,
};
use crate::util::{spec_maven_parses, spec_maven_rel_path, MavenIdentifier};

verus! {

/// Whether a rule admits or rejects its subject when its predicate holds.
#[derive(Debug, Clone, Copy, PartialEq, Eq, Structural)]
pub enum Action {
    Allow,
    Disallow,
}

/// An operating system a library rule can name.
#[derive(Debug, Clone, Copy, PartialEq, Eq, Structural)]
pub enum Name {
    Osx,
    Linux,
    Windows,
}

/// The operating-system predicate of a library rule.
#[derive(Debug, Clone, Copy, PartialEq, Eq, Structural)]
pub struct FluffyOs {
    pub name: Name,
}

/// One rule gating whether a library applies on a platform.
#[derive(Debug, Clone, Copy, PartialEq, Eq, Structural)]
pub struct LibraryRule {
    pub action: Action,
    pub os: Option<FluffyOs>,
}

/// The feature predicate of a game-argument rule.
#[derive(Debug, Clone, Copy, PartialEq, Eq, Structural)]
pub struct Features {
    pub is_demo_user: Option<bool>,
    pub has_custom_resolution: Option<bool>,
}

/// One rule gating whether a conditional game argument applies.
#[derive(Debug, Clone, Copy, PartialEq, Eq, Structural)]
pub struct GameRule {
    pub action: Action,
    pub features: Features,
}

/// The platform predicate of a jvm-argument rule. The fields are free-form
/// names from the manifest; unrecognized ones are reported, not skipped.
#[derive(Debug, Clone, PartialEq, Eq)]
pub struct PurpleOs {
    pub name: Option<String>,
    pub version: Option<String>,
    pub arch: Option<String>,
}

/// One rule gating whether a conditional jvm argument applies.
#[derive(Debug, Clone, PartialEq, Eq)]
pub struct JvmRule {
    pub action: Action,
    pub os: PurpleOs,
}

/// The value of a conditional argument entry: one string, or several that
/// are joined with single spaces.
#[derive(Debug, Clone, PartialEq, Eq)]
pub enum Value {
    String(String),
    StringArray(Vec<String>),
}

/// A conditional game-argument entry.
#[derive(Debug, Clone, PartialEq, Eq)]
pub struct GameClass {
    pub rules: Vec<GameRule>,
    pub value: Value,
}

/// A conditional jvm-argument entry.
#[derive(Debug, Clone, PartialEq, Eq)]
pub struct JvmClass {
    pub rules: Vec<JvmRule>,
    pub value: Value,
}

/// One declared game argument: literal or conditional.
#[derive(Debug, Clone, PartialEq, Eq)]
pub enum GameElement {
    GameClass(GameClass),
    String(String),
}

/// One declared jvm argument: literal or conditional.
#[derive(Debug, Clone, PartialEq, Eq)]
pub enum JvmElement {
    JvmClass(JvmClass),
    String(String),
}

/// The manifest's two declared argument lists.
#[derive(Debug, Clone, PartialEq, Eq)]
pub struct Arguments {
    pub game: Vec<GameElement>,
    pub jvm: Vec<JvmElement>,
}

/// A reference to this version's asset index: where to fetch it and what it
/// should contain.
#[derive(Debug, Clone, PartialEq, Eq)]
pub struct AssetIndex {
    pub id: String,
    pub sha1: String,
    pub size: i64,
    pub total_size: Option<i64>,
    pub url: String,
}

/// One remote artifact descriptor: content hash, size, source url, and the
/// relative install path where one applies.
#[derive(Debug, Clone, PartialEq, Eq)]
pub struct MappingsClass {
    pub sha1: String,
    pub size: i64,
    pub url: String,
    pub path: Option<String>,
}

/// The manifest's download section: client and server jars and their
/// obfuscation mappings.
#[derive(Debug, Clone, PartialEq, Eq)]
pub struct VersionInfoDownloads {
    pub client: MappingsClass,
    pub client_mappings: MappingsClass,
    pub server: MappingsClass,
    pub server_mappings: MappingsClass,
}

/// The java runtime this version asks for.
#[derive(Debug, Clone, PartialEq, Eq)]
pub struct JavaVersion {
    pub component: String,
    pub major_version: i64,
}

/// Per-platform native artifact descriptors of one library.
#[derive(Debug, Clone, PartialEq, Eq)]
pub struct Classifiers {
    pub javadoc: Option<MappingsClass>,
    pub natives_linux: Option<MappingsClass>,
    pub natives_macos: Option<MappingsClass>,
    pub natives_windows: Option<MappingsClass>,
    pub sources: Option<MappingsClass>,
    pub natives_osx: Option<MappingsClass>,
}

/// Names of the native classifier to use per platform.
#[derive(Debug, Clone, PartialEq, Eq)]
pub struct Natives {
    pub osx: Option<String>,
    pub linux: Option<String>,
    pub windows: Option<String>,
}

/// Extraction exclusions for a native archive.
#[derive(Debug, Clone, PartialEq, Eq)]
pub struct Extract {
    pub exclude: Vec<String>,
}

/// The download descriptors of one library: a primary artifact and optional
/// per-platform native classifiers.
#[derive(Debug, Clone, PartialEq, Eq)]
pub struct LibraryDownloads {
    pub artifact: MappingsClass,
    pub classifiers: Option<Classifiers>,
}

/// One library the version depends on. When it carries no download
/// descriptor, its maven-style coordinate `name` together with the base
/// `url` determines a conventional fallback location.
#[derive(Debug, Clone, PartialEq, Eq)]
pub struct Library {
    pub downloads: Option<LibraryDownloads>,
    pub name: String,
    pub rules: Option<Vec<LibraryRule>>,
    pub natives: Option<Natives>,
    pub extract: Option<Extract>,
    pub url: Option<String>,
}

/// The manifest's logging client configuration.
#[derive(Debug, Clone, PartialEq, Eq)]
pub struct LoggingClient {
    pub argument: String,
    pub file: AssetIndex,
    pub client_type: String,
}

/// The manifest's logging section.
#[derive(Debug, Clone, PartialEq, Eq)]
pub struct Logging {
    pub client: LoggingClient,
}

/// A version manifest in which every field may be absent: a derived manifest
/// (a mod-loader overlay) omits what must come from its base.
#[derive(Debug, Clone, PartialEq, Eq)]
pub struct Version {
    pub arguments: Option<Arguments>,
    pub asset_index: Option<AssetIndex>,
    pub assets: Option<String>,
    pub compliance_level: Option<i64>,
    pub downloads: Option<VersionInfoDownloads>,
    pub id: Option<String>,
    pub inherits_from: Option<String>,
    pub java_version: Option<JavaVersion>,
    pub libraries: Option<Vec<Library>>,
    pub logging: Option<Logging>,
    pub main_class: Option<String>,
    pub minimum_launcher_version: Option<i64>,
    pub release_time: Option<String>,
    pub time: Option<String>,
    pub version_info_type: Option<String>,
}

/// The value an overriding field takes after a merge: the derived (first)
/// value when present, else the base value.
pub open spec fn merge_opt<T>(hi: Option<T>, lo: Option<T>) -> Option<T> {
    if hi is Some {
        hi
    } else {
        lo
    }
}

/// Whether one rule admits the given platform: an allow rule requires its
/// predicate to hold, a disallow rule requires it not to; a rule without a
/// predicate passes or rejects unconditionally by its action.
pub open spec fn spec_rule_allows(rule: LibraryRule, os: Name) -> bool {
    match rule.action {
        Action::Allow => match rule.os {
            Some(o) => o.name == os,
            None => true,
        },
        Action::Disallow => match rule.os {
            Some(o) => o.name != os,
            None => false,
        },
    }
}

/// Whether a whole rule list admits the platform: every rule must.
/// An empty list admits unconditionally.
pub open spec fn spec_check_rules(rules: Seq<LibraryRule>, os: Name) -> bool {
    forall|i: int| 0 <= i < rules.len() ==> spec_rule_allows(rules[i], os)
}

/// Every element of the library list of an optional manifest section, empty
/// when the section is absent.
pub open spec fn opt_libs(o: Option<Vec<Library>>) -> Seq<Library> {
    match o {
        Some(v) => v@,
        None => Seq::empty(),
    }
}

/// The declared game arguments of an optional argument section.
pub open spec fn opt_game_args(o: Option<Arguments>) -> Seq<GameElement> {
    match o {
        Some(a) => a.game@,
        None => Seq::empty(),
    }
}

/// The declared jvm arguments of an optional argument section.
pub open spec fn opt_jvm_args(o: Option<Arguments>) -> Seq<JvmElement> {
    match o {
        Some(a) => a.jvm@,
        None => Seq::empty(),
    }
}

/// All the overriding (scalar) fields of `r` are merged from `hi` over `lo`.
pub open spec fn spec_merged_scalars(r: Version, hi: Version, lo: Version) -> bool {
    &&& r.asset_index == merge_opt(hi.asset_index, lo.asset_index)
    &&& r.assets == merge_opt(hi.assets, lo.assets)
    &&& r.compliance_level == merge_opt(hi.compliance_level, lo.compliance_level)
    &&& r.downloads == merge_opt(hi.downloads, lo.downloads)
    &&& r.id == merge_opt(hi.id, lo.id)
    &&& r.inherits_from == merge_opt(hi.inherits_from, lo.inherits_from)
    &&& r.java_version == merge_opt(hi.java_version, lo.java_version)
    &&& r.logging == merge_opt(hi.logging, lo.logging)
    &&& r.main_class == merge_opt(hi.main_class, lo.main_class)
    &&& r.minimum_launcher_version == merge_opt(
        hi.minimum_launcher_version,
        lo.minimum_launcher_version,
    )
    &&& r.release_time == merge_opt(hi.release_time, lo.release_time)
    &&& r.time == merge_opt(hi.time, lo.time)
    &&& r.version_info_type == merge_opt(hi.version_info_type, lo.version_info_type)
}

impl Version {
    /// Merges this (derived) manifest over a base one. Overriding fields
    /// take the derived value when present, else the base value; the library
    /// and argument lists are concatenated with the derived entries first;
    /// fields absent on both sides stay absent. Merging is pure and total.
    pub fn merge(self, lower: Self) -> (r: Self)
        ensures
            spec_merged_scalars(r, self, lower),
            r.arguments is Some <==> (self.arguments is Some || lower.arguments is Some),
            r.arguments matches Some(a) ==> a.game@ =~= opt_game_args(self.arguments)
                + opt_game_args(lower.arguments),
            r.arguments matches Some(a) ==> a.jvm@ =~= opt_jvm_args(self.arguments) + opt_jvm_args(
                lower.arguments,
            ),
            r.libraries is Some <==> (self.libraries is Some || lower.libraries is Some),
            r.libraries matches Some(v) ==> v@ =~= opt_libs(self.libraries) + opt_libs(
                lower.libraries,
            ),
    {
        let arguments = match (self.arguments, lower.arguments) {
            (None, None) => None,
            (Some(a), None) => Some(a),
            (None, Some(b)) => Some(b),
            (Some(mut a), Some(mut b)) => {
                a.game.append(&mut b.game);
                a.jvm.append(&mut b.jvm);
                Some(Arguments { game: a.game, jvm: a.jvm })
            },
        };
        let libraries = match (self.libraries, lower.libraries) {
            (None, None) => None,
            (Some(v), None) => Some(v),
            (None, Some(v)) => Some(v),
            (Some(mut a), Some(mut b)) => {
                a.append(&mut b);
                Some(a)
            },
        };
        Version {
            arguments,
            asset_index: match self.asset_index {
                Some(x) => Some(x),
                None => lower.asset_index,
            },
            assets: match self.assets {
                Some(x) => Some(x),
                None => lower.assets,
            },
            compliance_level: match self.compliance_level {
                Some(x) => Some(x),
                None => lower.compliance_level,
            },
            downloads: match self.downloads {
                Some(x) => Some(x),
                None => lower.downloads,
            },
            id: match self.id {
                Some(x) => Some(x),
                None => lower.id,
            },
            inherits_from: match self.inherits_from {
                Some(x) => Some(x),
                None => lower.inherits_from,
            },
            java_version: match self.java_version {
                Some(x) => Some(x),
                None => lower.java_version,
            },
            libraries,
            logging: match self.logging {
                Some(x) => Some(x),
                None => lower.logging,
            },
            main_class: match self.main_class {
                Some(x) => Some(x),
                None => lower.main_class,
            },
            minimum_launcher_version: match self.minimum_launcher_version {
                Some(x) => Some(x),
                None => lower.minimum_launcher_version,
            },
            release_time: match self.release_time {
                Some(x) => Some(x),
                None => lower.release_time,
            },
            time: match self.time {
                Some(x) => Some(x),
                None => lower.time,
            },
            version_info_type: match self.version_info_type {
                Some(x) => Some(x),
                None => lower.version_info_type,
            },
        }
    }

    /// Evaluates a library's rule list against the given platform, in order:
    /// an allow rule whose platform predicate fails rejects, a disallow rule
    /// whose predicate holds rejects, anything else continues; an empty list
    /// admits.
    pub fn check_library_rules(rules: &Vec<LibraryRule>, os: Name) -> (r: bool)
        ensures
            r == spec_check_rules(rules@, os),
    {
        let mut i: usize = 0;
        while i < rules.len()
            invariant
                i <= rules@.len(),
                forall|j: int| 0 <= j < i ==> spec_rule_allows(rules@[j], os),
            decreases rules@.len() - i,
        {
            let rule = &rules[i];
            let allowed = match rule.action {
                Action::Allow => match &rule.os {
                    Some(o) => o.name == os,
                    None => true,
                },
                Action::Disallow => match &rule.os {
                    Some(o) => o.name != os,
                    None => false,
                },
            };
            if !allowed {
                proof {
                    assert(!spec_rule_allows(rules@[i as int], os));
                }
                return false;
            }
            i = i + 1;
        }
        true
    }
}

/// What a manifest must be complete for: fetching its artifacts, or
/// launching the resolved program.
#[derive(Debug, Clone, Copy, PartialEq, Eq, Structural)]
pub enum Purpose {
    Download,
    Launch,
}

/// Whether a library's rule list (if any) admits the platform.
pub open spec fn spec_passes(lib: Library, os: Name) -> bool {
    match lib.rules {
        Some(rs) => spec_check_rules(rs@, os),
        None => true,
    }
}

/// The native classifier the platform selects: windows and linux each take
/// their own entry, a macOS host prefers the `macos` entry and falls back to
/// the `osx` one.
pub open spec fn spec_classifier(cl: Classifiers, os: Name) -> Option<MappingsClass> {
    match os {
        Name::Windows => cl.natives_windows,
        Name::Osx => if cl.natives_macos is Some {
            cl.natives_macos
        } else {
            cl.natives_osx
        },
        Name::Linux => cl.natives_linux,
    }
}

/// The task fetching one declared artifact into the tree under `root`.
pub open spec fn spec_artifact_task(mc: MappingsClass, root: Seq<char>) -> TaskModel {
    TaskModel {
        url: mc.url@,
        path: root + "/"@ + mc.path->0@,
        size: Some(mc.size as int),
        sha1: Some(mc.sha1@),
    }
}

/// The task fetching a library that declares no descriptor: its coordinate
/// is mapped to the conventional repository path under the library's base
/// url; no expected size or hash is known yet.
pub open spec fn spec_fallback_task(lib: Library, root: Seq<char>) -> TaskModel {
    TaskModel {
        url: lib.url->0@ + spec_maven_rel_path(lib.name@),
        path: root + "/"@ + spec_maven_rel_path(lib.name@),
        size: None,
        sha1: None,
    }
}

/// The outcome of resolving libraries into download tasks.
pub enum LibResolution {
    Tasks(Seq<TaskModel>),
    Fail(VersionError),
}

/// The tasks one library contributes: none when its rules reject the
/// platform, else its primary artifact and at most one platform-matching
/// native classifier; a selected descriptor without an install path is an
/// error, as is a descriptor-less library without a base url or with an
/// unparseable coordinate.
pub open spec fn spec_resolve_lib(lib: Library, os: Name, root: Seq<char>) -> LibResolution {
    if !spec_passes(lib, os) {
        LibResolution::Tasks(Seq::empty())
    } else {
        match lib.downloads {
            Some(d) => {
                if d.artifact.path is None {
                    LibResolution::Fail(VersionError::NoArtifactPath)
                } else {
                    let first = spec_artifact_task(d.artifact, root);
                    match d.classifiers {
                        Some(cl) => match spec_classifier(cl, os) {
                            Some(mc) => if mc.path is None {
                                LibResolution::Fail(VersionError::NoClassifierPath)
                            } else {
                                LibResolution::Tasks(seq![first, spec_artifact_task(mc, root)])
                            },
                            None => LibResolution::Tasks(seq![first]),
                        },
                        None => LibResolution::Tasks(seq![first]),
                    }
                }
            },
            None => match lib.url {
                Some(_) => if spec_maven_parses(lib.name@) {
                    LibResolution::Tasks(seq![spec_fallback_task(lib, root)])
                } else {
                    LibResolution::Fail(
                        VersionError::LibraryDownloadError(
                            CreateLibraryDownloadError::MavenParseError(
                                MavenIdentifierParseError::NotEnoughArgs,
                            ),
                        ),
                    )
                },
                None => LibResolution::Fail(VersionError::NoLibraryUrl),
            },
        }
    }
}

/// The tasks a whole library list contributes, in declaration order, or the
/// first error encountered.
pub open spec fn spec_resolve_libraries(libs: Seq<Library>, os: Name, root: Seq<char>) -> LibResolution
    decreases libs.len(),
{
    if libs.len() == 0 {
        LibResolution::Tasks(Seq::empty())
    } else {
        match spec_resolve_lib(libs[0], os, root) {
            LibResolution::Fail(e) => LibResolution::Fail(e),
            LibResolution::Tasks(ts) => match spec_resolve_libraries(libs.skip(1), os, root) {
                LibResolution::Fail(e) => LibResolution::Fail(e),
                LibResolution::Tasks(rest) => LibResolution::Tasks(ts + rest),
            },
        }
    }
}

/// A manifest has everything a download pass needs.
pub open spec fn spec_download_ready(v: Version) -> bool {
    v.libraries is Some && v.asset_index is Some && v.downloads is Some
}

/// A manifest has everything a launch needs.
pub open spec fn spec_launch_ready(v: Version) -> bool {
    spec_download_ready(v) && v.main_class is Some && v.arguments is Some && v.java_version is Some
}

/// The first field found missing when validating, in the order the fields
/// are checked.
pub open spec fn spec_first_missing(v: Version) -> ManifestField {
    if v.libraries is None {
        ManifestField::Libraries
    } else if v.asset_index is None {
        ManifestField::AssetIndex
    } else if v.downloads is None {
        ManifestField::Downloads
    } else if v.main_class is None {
        ManifestField::MainClass
    } else if v.arguments is None {
        ManifestField::Arguments
    } else {
        ManifestField::JavaVersion
    }
}

impl Version {
    /// Checks that every field the requested operation needs is present
    /// after merging: a download pass needs libraries, an asset index and
    /// the download section; a launch additionally needs the main class,
    /// the argument lists and the java version. The error names the first
    /// missing field.
    pub fn validate_for(&self, purpose: Purpose) -> (r: Result<(), VersionError>)
        ensures
            purpose == Purpose::Download ==> (r is Ok <==> spec_download_ready(*self)),
            purpose == Purpose::Launch ==> (r is Ok <==> spec_launch_ready(*self)),
            r matches Err(e) ==> e == VersionError::IncompleteManifest(spec_first_missing(*self)),
    {
        if self.libraries.is_none() {
            return Err(VersionError::IncompleteManifest(ManifestField::Libraries));
        }
        if self.asset_index.is_none() {
            return Err(VersionError::IncompleteManifest(ManifestField::AssetIndex));
        }
        if self.downloads.is_none() {
            return Err(VersionError::IncompleteManifest(ManifestField::Downloads));
        }
        match purpose {
            Purpose::Download => Ok(()),
            Purpose::Launch => {
                if self.main_class.is_none() {
                    return Err(VersionError::IncompleteManifest(ManifestField::MainClass));
                }
                if self.arguments.is_none() {
                    return Err(VersionError::IncompleteManifest(ManifestField::Arguments));
                }
                if self.java_version.is_none() {
                    return Err(VersionError::IncompleteManifest(ManifestField::JavaVersion));
                }
                Ok(())
            },
        }
    }

    /// Resolves the library list into download tasks under `save_path`, in
    /// declaration order: rule-rejected libraries contribute nothing, every
    /// other library its primary artifact and at most one platform-matching
    /// native classifier.
    pub fn resolve_libraries(&self, save_path: &str, os: Name) -> (r: Result<
        Vec<DownloadTask>,
        VersionError,
    >)
        ensures
            self.libraries is None ==> r == Err::<Vec<DownloadTask>, VersionError>(
                VersionError::IncompleteManifest(ManifestField::Libraries),
            ),
            self.libraries matches Some(libs) ==> match spec_resolve_libraries(
                libs@,
                os,
                save_path@,
            ) {
                LibResolution::Tasks(models) => r matches Ok(out) && out@.len() == models.len()
                    && (forall|i: int| 0 <= i < models.len() ==> out@[i]@ == models[i]),
                LibResolution::Fail(e) => r == Err::<Vec<DownloadTask>, VersionError>(e),
            },
    {
        let libs = match &self.libraries {
            Some(libs) => libs,
            None => {
                return Err(VersionError::IncompleteManifest(ManifestField::Libraries));
            },
        };
        Self::resolve_library_list(libs, save_path, os)
    }

    /// Resolves one library list into download tasks under `save_path`; the
    /// work behind [`Version::resolve_libraries`], shared with the complete
    /// manifest form.
    pub(crate) fn resolve_library_list(libs: &Vec<Library>, save_path: &str, os: Name) -> (r:
        Result<Vec<DownloadTask>, VersionError>)
        ensures
            match spec_resolve_libraries(libs@, os, save_path@) {
                LibResolution::Tasks(models) => r matches Ok(out) && out@.len() == models.len()
                    && (forall|i: int| 0 <= i < models.len() ==> out@[i]@ == models[i]),
                LibResolution::Fail(e) => r == Err::<Vec<DownloadTask>, VersionError>(e),
            },
    {
        let ghost all = libs@;
        let ghost root = save_path@;
        let mut out: Vec<DownloadTask> = Vec::new();
        let mut i: usize = 0;
        proof {
            assert(all.skip(0) =~= all);
        }
        while i < libs.len()
            invariant
                i <= all.len(),
                all == libs@,
                root == save_path@,
                match spec_resolve_libraries(all.skip(i as int), os, root) {
                    LibResolution::Fail(e) => spec_resolve_libraries(all, os, root)
                        == LibResolution::Fail(e),
                    LibResolution::Tasks(rest) => spec_resolve_libraries(all, os, root)
                        == LibResolution::Tasks(
                        out@.map_values(|t: DownloadTask| t@) + rest,
                    ),
                },
            decreases all.len() - i,
        {
            let ghost models_before = out@.map_values(|t: DownloadTask| t@);
            proof {
                let tail = all.skip(i as int);
                assert(tail[0] == all[i as int]);
                assert(tail.skip(1) =~= all.skip(i + 1));
                assert(spec_resolve_libraries(tail, os, root) == (match spec_resolve_lib(
                    tail[0],
                    os,
                    root,
                ) {
                    LibResolution::Fail(e) => LibResolution::Fail(e),
                    LibResolution::Tasks(ts) => match spec_resolve_libraries(
                        tail.skip(1),
                        os,
                        root,
                    ) {
                        LibResolution::Fail(e2) => LibResolution::Fail(e2),
                        LibResolution::Tasks(rest) => LibResolution::Tasks(ts + rest),
                    },
                }));
            }
            let lib = &libs[i];
            let passes = match &lib.rules {
                Some(rules) => Self::check_library_rules(rules, os),
                None => true,
            };
            if passes {
                match &lib.downloads {
                    Some(d) => {
                        match &d.artifact.path {
                            None => {
                                return Err(VersionError::NoArtifactPath);
                            },
                            Some(_) => (),
                        }
                        let task = artifact_task(&d.artifact, save_path);
                        out.push(task);
                        match &d.classifiers {
                            Some(cl) => {
                                let selected = select_classifier(cl, os);
                                match selected {
                                    Some(mc) => {
                                        match &mc.path {
                                            None => {
                                                return Err(VersionError::NoClassifierPath);
                                            },
                                            Some(_) => (),
                                        }
                                        let ntask = artifact_task(mc, save_path);
                                        out.push(ntask);
                                    },
                                    None => (),
                                }
                            },
                            None => (),
                        }
                    },
                    None => {
                        match &lib.url {
                            None => {
                                return Err(VersionError::NoLibraryUrl);
                            },
                            Some(base) => {
                                let identifier = match MavenIdentifier::from_str(lib.name.as_str()) {
                                    Ok(m) => m,
                                    Err(e) => {
                                        return Err(
                                            VersionError::LibraryDownloadError(
                                                CreateLibraryDownloadError::MavenParseError(e),
                                            ),
                                        );
                                    },
                                };
                                let rel = identifier.rel_path();
                                let mut url = base.clone();
                                url.append(rel.as_str());
                                let mut dest = save_path.to_owned();
                                dest.append("/");
                                dest.append(rel.as_str());
                                out.push(DownloadTask { url, path: dest, size: None, sha1: None });
                            },
                        }
                    },
                }
            }
            proof {
                let contributed = match spec_resolve_lib(all[i as int], os, root) {
                    LibResolution::Tasks(ts) => ts,
                    LibResolution::Fail(_) => Seq::empty(),
                };
                assert(out@.map_values(|t: DownloadTask| t@) =~= models_before + contributed);
                match spec_resolve_libraries(all.skip(i + 1), os, root) {
                    LibResolution::Tasks(rest2) => {
                        assert(models_before + (contributed + rest2) =~= (models_before
                            + contributed) + rest2);
                    },
                    LibResolution::Fail(_) => (),
                }
            }
            i = i + 1;
        }
        proof {
            assert(all.skip(all.len() as int) =~= Seq::<Library>::empty());
            assert(out@.map_values(|t: DownloadTask| t@) + Seq::<TaskModel>::empty() =~= out@
                .map_values(|t: DownloadTask| t@));
        }
        Ok(out)
    }

    /// The single task fetching the client jar to `save_path`.
    pub fn resolve_client_jar(&self, save_path: String) -> (r: Result<DownloadTask, VersionError>)
        ensures
            self.downloads is None ==> r == Err::<DownloadTask, VersionError>(
                VersionError::IncompleteManifest(ManifestField::Downloads),
            ),
            self.downloads matches Some(d) ==> (r matches Ok(t) && t@ == (TaskModel {
                url: d.client.url@,
                path: save_path@,
                size: Some(d.client.size as int),
                sha1: Some(d.client.sha1@),
            })),
    {
        match &self.downloads {
            None => Err(VersionError::IncompleteManifest(ManifestField::Downloads)),
            Some(d) => Ok(
                DownloadTask {
                    url: d.client.url.clone(),
                    path: save_path,
                    size: Some(d.client.size),
                    sha1: Some(d.client.sha1.clone()),
                },
            ),
        }
    }

    /// The single task fetching the server jar to `save_path`.
    pub fn resolve_server_jar(&self, save_path: String) -> (r: Result<DownloadTask, VersionError>)
        ensures
            self.downloads is None ==> r == Err::<DownloadTask, VersionError>(
                VersionError::IncompleteManifest(ManifestField::Downloads),
            ),
            self.downloads matches Some(d) ==> (r matches Ok(t) && t@ == (TaskModel {
                url: d.server.url@,
                path: save_path@,
                size: Some(d.server.size as int),
                sha1: Some(d.server.sha1@),
            })),
    {
        match &self.downloads {
            None => Err(VersionError::IncompleteManifest(ManifestField::Downloads)),
            Some(d) => Ok(
                DownloadTask {
                    url: d.server.url.clone(),
                    path: save_path,
                    size: Some(d.server.size),
                    sha1: Some(d.server.sha1.clone()),
                },
            ),
        }
    }
}

/// The task fetching one declared artifact into the tree under `root`.
fn artifact_task(mc: &MappingsClass, root: &str) -> (t: DownloadTask)
    requires
        mc.path is Some,
    ensures
        t@ == spec_artifact_task(*mc, root@),
{
    let sub = match &mc.path {
        Some(s) => s.as_str(),
        None => unreached(),
    };
    let mut dest = root.to_owned();
    dest.append("/");
    dest.append(sub);
    DownloadTask {
        url: mc.url.clone(),
        path: dest,
        size: Some(mc.size),
        sha1: Some(mc.sha1.clone()),
    }
}

/// The platform's native classifier, with the macOS fallback.
pub(crate) fn select_classifier<'a>(cl: &'a Classifiers, os: Name) -> (r: &'a Option<MappingsClass>)
    ensures
        *r == spec_classifier(*cl, os),
{
    match os {
        Name::Windows => &cl.natives_windows,
        Name::Osx => if cl.natives_macos.is_some() {
            &cl.natives_macos
        } else {
            &cl.natives_osx
        },
        Name::Linux => &cl.natives_linux,
    }
}

/// Law: resolving the same library list twice yields identical task lists —
/// the same urls and the same destination paths, in the same order.
pub proof fn lemma_resolve_libraries_idempotent(
    libs: Seq<Library>,
    os: Name,
    root: Seq<char>,
    t1: Seq<TaskModel>,
    t2: Seq<TaskModel>,
)
    requires
        spec_resolve_libraries(libs, os, root) == LibResolution::Tasks(t1),
        spec_resolve_libraries(libs, os, root) == LibResolution::Tasks(t2),
    ensures
        t1 == t2,
{
}

/// Law: merging associates over a chain for every overriding field — the
/// merged value is the first manifest's value when present, else the
/// second's, else the third's, whichever fields each of them provides.
pub proof fn lemma_merge_override_chain(a: Version, b: Version, c: Version, bc: Version, abc: Version)
    requires
        spec_merged_scalars(bc, b, c),
        spec_merged_scalars(abc, a, bc),
    ensures
        abc.asset_index == if a.asset_index is Some {
            a.asset_index
        } else if b.asset_index is Some {
            b.asset_index
        } else {
            c.asset_index
        },
        abc.assets == if a.assets is Some {
            a.assets
        } else if b.assets is Some {
            b.assets
        } else {
            c.assets
        },
        abc.compliance_level == if a.compliance_level is Some {
            a.compliance_level
        } else if b.compliance_level is Some {
            b.compliance_level
        } else {
            c.compliance_level
        },
        abc.downloads == if a.downloads is Some {
            a.downloads
        } else if b.downloads is Some {
            b.downloads
        } else {
            c.downloads
        },
        abc.id == if a.id is Some {
            a.id
        } else if b.id is Some {
            b.id
        } else {
            c.id
        },
        abc.inherits_from == if a.inherits_from is Some {
            a.inherits_from
        } else if b.inherits_from is Some {
            b.inherits_from
        } else {
            c.inherits_from
        },
        abc.java_version == if a.java_version is Some {
            a.java_version
        } else if b.java_version is Some {
            b.java_version
        } else {
            c.java_version
        },
        abc.logging == if a.logging is Some {
            a.logging
        } else if b.logging is Some {
            b.logging
        } else {
            c.logging
        },
        abc.main_class == if a.main_class is Some {
            a.main_class
        } else if b.main_class is Some {
            b.main_class
        } else {
            c.main_class
        },
        abc.minimum_launcher_version == if a.minimum_launcher_version is Some {
            a.minimum_launcher_version
        } else if b.minimum_launcher_version is Some {
            b.minimum_launcher_version
        } else {
            c.minimum_launcher_version
        },
        abc.release_time == if a.release_time is Some {
            a.release_time
        } else if b.release_time is Some {
            b.release_time
        } else {
            c.release_time
        },
        abc.time == if a.time is Some {
            a.time
        } else if b.time is Some {
            b.time
        } else {
            c.time
        },
        abc.version_info_type == if a.version_info_type is Some {
            a.version_info_type
        } else if b.version_info_type is Some {
            b.version_info_type
        } else {
            c.version_info_type
        },
{
}

} // verus!
