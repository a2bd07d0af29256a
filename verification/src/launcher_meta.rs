//! The top-level catalog of available versions: each version's id, kind and
//! manifest location, and which ids are the latest release and snapshot.

use vstd::prelude::*;

verus! {

/// The kind of one catalogued version.
#[derive(Debug, Clone, Copy, PartialEq, Eq, Structural)]
pub enum Type {
    OldAlpha,
    OldBeta,
    Release,
    Snapshot,
}

/// One catalogued version: its id, kind, manifest url and timestamps.
#[derive(Debug, Clone, PartialEq, Eq)]
pub struct Version {
    pub id: String,
    pub version_type: Type,
    pub url: String,
    pub time: String,
    pub release_time: String,
}

/// The ids of the latest release and the latest snapshot.
#[derive(Debug, Clone, PartialEq, Eq)]
pub struct Latest {
    pub release: String,
    pub snapshot: String,
}

/// The whole catalog.
#[derive(Debug, Clone, PartialEq, Eq)]
pub struct LauncherMeta {
    pub latest: Latest,
    pub versions: Vec<Version>,
}

/// The position of the first catalogued version carrying `id`, at or after
/// `from`; the catalog's length when there is none.
pub open spec fn spec_index_of_id(versions: Seq<Version>, id: Seq<char>, from: int) -> int
    decreases versions.len() - from,
{
    if from < 0 || from >= versions.len() {
        versions.len() as int
    } else if versions[from].id@ == id {
        from
    } else {
        spec_index_of_id(versions, id, from + 1)
    }
}

/// The catalog holds a version carrying `id`.
pub open spec fn spec_has_id(versions: Seq<Version>, id: Seq<char>) -> bool {
    spec_index_of_id(versions, id, 0) < versions.len()
}

/// The first catalogued version carrying `id`; call only where one exists.
fn find_version<'a>(versions: &'a Vec<Version>, id: &str) -> (r: &'a Version)
    requires
        spec_has_id(versions@, id@),
    ensures
        *r == versions@[spec_index_of_id(versions@, id@, 0)],
{
    let ghost all = versions@;
    let mut i: usize = 0;
    while i < versions.len()
        invariant
            i <= all.len(),
            all == versions@,
            spec_has_id(all, id@),
            spec_index_of_id(all, id@, 0) == spec_index_of_id(all, id@, i as int),
        decreases all.len() - i,
    {
        if crate::text::str_eq(versions[i].id.as_str(), id) {
            return &versions[i];
        }
        i = i + 1;
    }
    proof {
        assert(spec_index_of_id(all, id@, all.len() as int) == all.len());
    }
    unreached()
}

impl Latest {
    /// The catalog entry of the latest release; the catalog must hold it.
    pub fn version_for_release<'a>(&self, launcher_meta: &'a LauncherMeta) -> (r: &'a Version)
        requires
            spec_has_id(launcher_meta.versions@, self.release@),
        ensures
            *r == launcher_meta.versions@[spec_index_of_id(
                launcher_meta.versions@,
                self.release@,
                0,
            )],
    {
        find_version(&launcher_meta.versions, self.release.as_str())
    }

    /// The catalog entry of the latest snapshot; the catalog must hold it.
    pub fn version_for_snapshot<'a>(&self, launcher_meta: &'a LauncherMeta) -> (r: &'a Version)
        requires
            spec_has_id(launcher_meta.versions@, self.snapshot@),
        ensures
            *r == launcher_meta.versions@[spec_index_of_id(
                launcher_meta.versions@,
                self.snapshot@,
                0,
            )],
    {
        find_version(&launcher_meta.versions, self.snapshot.as_str())
    }
}

} // verus!
