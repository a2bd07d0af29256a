//! Maven coordinates and their conventional repository paths, plus small
//! path helpers.

use vstd::prelude::*;

use crate::errors::{CreateLibraryDownloadError, MavenIdentifierParseError};
use crate::version::{LibraryDownloads, MappingsClass};

verus! {

/// The position of the first occurrence of `c` in `s` at or after `from`,
/// or `s.len()` when there is none.
pub open spec fn spec_find(s: Seq<char>, c: char, from: int) -> int
    decreases s.len() - from,
{
    if from < 0 || from >= s.len() {
        s.len() as int
    } else if s[from] == c {
        from
    } else {
        spec_find(s, c, from + 1)
    }
}

/// Whether a maven-style coordinate holds at least the three `:`-separated
/// parts `group:artifact:version`.
pub open spec fn spec_maven_parses(s: Seq<char>) -> bool {
    spec_find(s, ':', 0) < s.len() && spec_find(s, ':', spec_find(s, ':', 0) + 1) < s.len()
}

/// The group part of a coordinate: everything before the first `:`.
pub open spec fn spec_maven_group(s: Seq<char>) -> Seq<char> {
    s.subrange(0, spec_find(s, ':', 0))
}

/// The artifact part of a coordinate: between the first and second `:`.
pub open spec fn spec_maven_artifact(s: Seq<char>) -> Seq<char> {
    s.subrange(spec_find(s, ':', 0) + 1, spec_find(s, ':', spec_find(s, ':', 0) + 1))
}

/// The version part of a coordinate: between the second `:` and the third
/// (or the end); anything after a third `:` is ignored.
pub open spec fn spec_maven_version(s: Seq<char>) -> Seq<char> {
    let i2 = spec_find(s, ':', spec_find(s, ':', 0) + 1);
    s.subrange(i2 + 1, spec_find(s, ':', i2 + 1))
}

/// Every `.` replaced by `/`.
pub open spec fn spec_slash_dots(s: Seq<char>) -> Seq<char> {
    s.map_values(
        |c: char|
            if c == '.' {
                '/'
            } else {
                c
            },
    )
}

/// The conventional repository path of a coordinate:
/// `group/with/dots/as/slashes/artifact/version/artifact-version.jar`.
pub open spec fn spec_maven_rel_path(s: Seq<char>) -> Seq<char> {
    spec_slash_dots(spec_maven_group(s)) + "/"@ + spec_maven_artifact(s) + "/"@
        + spec_maven_version(s) + "/"@ + spec_maven_artifact(s) + "-"@ + spec_maven_version(s)
        + ".jar"@
}

/// A maven-style library coordinate, e.g.
/// `net.fabricmc:tiny-mappings-parser:0.3.0+build.17`.
#[derive(Debug, Clone, PartialEq, Eq)]
pub struct MavenIdentifier {
    pub group_id: String,
    pub artifact_id: String,
    pub version: String,
}

/// The position of the first occurrence of `c` in `s` at or after `from`,
/// or the length of `s` when there is none.
pub(crate) fn find_char_from(s: &str, c: char, from: usize) -> (r: usize)
    requires
        from <= s@.len(),
    ensures
        r == spec_find(s@, c, from as int),
        from <= r <= s@.len(),
{
    let len = s.unicode_len();
    let mut i: usize = from;
    while i < len
        invariant
            from <= i <= len,
            len == s@.len(),
            spec_find(s@, c, from as int) == spec_find(s@, c, i as int),
        decreases len - i,
    {
        if s.get_char(i) == c {
            return i;
        }
        i = i + 1;
    }
    i
}

impl MavenIdentifier {
    /// Splits a coordinate into its group, artifact and version parts;
    /// a coordinate with fewer than three `:`-separated parts is rejected.
    pub fn from_str(s: &str) -> (r: Result<MavenIdentifier, MavenIdentifierParseError>)
        ensures
            spec_maven_parses(s@) <==> r is Ok,
            r matches Ok(m) ==> m.group_id@ == spec_maven_group(s@) && m.artifact_id@
                == spec_maven_artifact(s@) && m.version@ == spec_maven_version(s@),
            !spec_maven_parses(s@) ==> r == Err::<MavenIdentifier, MavenIdentifierParseError>(
                MavenIdentifierParseError::NotEnoughArgs,
            ),
    {
        let len = s.unicode_len();
        let i1 = find_char_from(s, ':', 0);
        if i1 == len {
            return Err(MavenIdentifierParseError::NotEnoughArgs);
        }
        let i2 = find_char_from(s, ':', i1 + 1);
        if i2 == len {
            return Err(MavenIdentifierParseError::NotEnoughArgs);
        }
        let i3 = find_char_from(s, ':', i2 + 1);
        let group_id = s.substring_char(0, i1).to_owned();
        let artifact_id = s.substring_char(i1 + 1, i2).to_owned();
        let version = s.substring_char(i2 + 1, i3).to_owned();
        Ok(MavenIdentifier { group_id, artifact_id, version })
    }

    /// The conventional repository path this coordinate maps to.
    pub fn rel_path(&self) -> (r: String)
        ensures
            r@ == spec_slash_dots(self.group_id@) + "/"@ + self.artifact_id@ + "/"@ + self.version@
                + "/"@ + self.artifact_id@ + "-"@ + self.version@ + ".jar"@,
    {
        let mut out = slash_dots(self.group_id.as_str());
        out.append("/");
        out.append(self.artifact_id.as_str());
        out.append("/");
        out.append(self.version.as_str());
        out.append("/");
        out.append(self.artifact_id.as_str());
        out.append("-");
        out.append(self.version.as_str());
        out.append(".jar");
        out
    }
}

/// Replaces every `.` by `/`.
fn slash_dots(s: &str) -> (r: String)
    ensures
        r@ == spec_slash_dots(s@),
{
    let len = s.unicode_len();
    let mut out = String::new();
    let mut i: usize = 0;
    while i < len
        invariant
            i <= len,
            len == s@.len(),
            out@ =~= spec_slash_dots(s@.subrange(0, i as int)),
        decreases len - i,
    {
        let c = s.get_char(i);
        if c == '.' {
            out.append("/");
        } else {
            let piece = s.substring_char(i, i + 1);
            out.append(piece);
        }
        proof {
            reveal_strlit("/");
            assert(spec_slash_dots(s@.subrange(0, i + 1)) =~= spec_slash_dots(
                s@.subrange(0, i as int),
            ) + seq![if s@[i as int] == '.' { '/' } else { s@[i as int] }]);
        }
        i = i + 1;
    }
    proof {
        assert(s@.subrange(0, s@.len() as int) =~= s@);
    }
    out
}

/// Builds the fallback download descriptor for a library that declares no
/// explicit one: its coordinate is mapped to the conventional repository
/// path under the given base url. The expected size and checksum come from a
/// preliminary metadata request the caller has already made.
pub fn create_library_download(url: &str, name: &str, size: i64, sha1: String) -> (r: Result<
    LibraryDownloads,
    CreateLibraryDownloadError,
>)
    ensures
        spec_maven_parses(name@) <==> r is Ok,
        r matches Ok(d) ==> {
            &&& d.artifact.path matches Some(p) && p@ == spec_maven_rel_path(name@)
            &&& d.artifact.url@ == url@ + spec_maven_rel_path(name@)
            &&& d.artifact.size == size
            &&& d.artifact.sha1 == sha1
            &&& d.classifiers is None
        },
        !spec_maven_parses(name@) ==> r == Err::<LibraryDownloads, CreateLibraryDownloadError>(
            CreateLibraryDownloadError::MavenParseError(MavenIdentifierParseError::NotEnoughArgs),
        ),
{
    let identifier = match MavenIdentifier::from_str(name) {
        Ok(m) => m,
        Err(e) => {
            return Err(CreateLibraryDownloadError::MavenParseError(e));
        },
    };
    let maven_url = identifier.rel_path();
    let mut download_url = url.to_owned();
    download_url.append(maven_url.as_str());
    Ok(
        LibraryDownloads {
            artifact: MappingsClass { sha1, size, url: download_url, path: Some(maven_url) },
            classifiers: None,
        },
    )
}

/// A path written as a string, with `/` as the separator; `div` appends one
/// component.
#[derive(Debug, Clone, PartialEq, Eq)]
pub struct DivPathBuf(pub String);

impl DivPathBuf {
    /// This path with one more component appended.
    pub fn div(&self, rhs: &str) -> (r: DivPathBuf)
        ensures
            r.0@ == self.0@ + "/"@ + rhs@,
    {
        let mut out = self.0.clone();
        out.append("/");
        out.append(rhs);
        DivPathBuf(out)
    }
}

/// How a caller asked for a version: by id, or by a manifest file already on
/// disk. Whether the string names an existing file is a fact about the disk
/// that the caller supplies.
#[derive(Debug, Clone, PartialEq, Eq)]
pub enum VersionId {
    Id(String),
    Path(String),
}

impl VersionId {
    /// Classifies a version argument: a string that names an existing file
    /// is a manifest path, anything else is a version id.
    pub fn from_str(s: String, exists_on_disk: bool) -> (r: VersionId)
        ensures
            exists_on_disk ==> (r matches VersionId::Path(p) && p@ == s@),
            !exists_on_disk ==> (r matches VersionId::Id(i) && i@ == s@),
    {
        if exists_on_disk {
            VersionId::Path(s)
        } else {
            VersionId::Id(s)
        }
    }
}

} // verus!
