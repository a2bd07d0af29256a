//! The asset index: logical asset paths mapped to content-addressed objects,
//! and their resolution into deduplicated download tasks.

use vstd::prelude::*;

use crate::download::{DownloadTask, TaskModel};
use crate::text::vec_contains_string;

verus! {

/// One content-addressed object: its hash and its size in bytes.
#[derive(Debug, Clone, PartialEq, Eq)]
pub struct Object {
    pub hash: String,
    pub size: i64,
}

/// One entry of the index: a logical asset path and the object it names.
#[derive(Debug, Clone, PartialEq, Eq)]
pub struct ObjectEntry {
    pub path: String,
    pub object: Object,
}

/// The asset index of one version: a mapping from logical asset path to
/// content-addressed object, kept in declaration order.
#[derive(Debug, Clone, PartialEq, Eq)]
pub struct AssetIndex {
    pub objects: Vec<ObjectEntry>,
}

/// The two-character bucket an object is filed under: the first two
/// characters of its content hash.
pub open spec fn spec_bucket(hash: Seq<char>) -> Seq<char> {
    hash.subrange(0, 2)
}

/// The remote location of an object: the fixed object store, keyed by
/// bucket and hash.
pub open spec fn spec_asset_url(hash: Seq<char>) -> Seq<char> {
    "https://resources.download.minecraft.net/"@ + spec_bucket(hash) + "/"@ + hash
}

/// The path of an object below the objects root: `<bucket>/<hash>`.
pub open spec fn spec_asset_rel(hash: Seq<char>) -> Seq<char> {
    spec_bucket(hash) + "/"@ + hash
}

/// The task fetching one object into the tree under `root`.
pub open spec fn spec_asset_task(hash: Seq<char>, root: Seq<char>) -> TaskModel {
    TaskModel {
        url: spec_asset_url(hash),
        path: root + "/"@ + spec_asset_rel(hash),
        size: None,
        sha1: Some(hash),
    }
}

/// The hashes with later duplicates removed: each hash keeps its first
/// occurrence only, in order.
pub open spec fn spec_dedup(hashes: Seq<Seq<char>>) -> Seq<Seq<char>>
    decreases hashes.len(),
{
    if hashes.len() == 0 {
        Seq::empty()
    } else {
        let rest = spec_dedup(hashes.drop_last());
        if rest.contains(hashes.last()) {
            rest
        } else {
            rest.push(hashes.last())
        }
    }
}

/// The hashes of the index's objects, in declaration order.
pub open spec fn spec_hashes(objects: Seq<ObjectEntry>) -> Seq<Seq<char>> {
    objects.map_values(|e: ObjectEntry| e.object.hash@)
}

/// The download tasks an index resolves to: one per distinct content hash,
/// in order of first occurrence.
pub open spec fn spec_asset_tasks(objects: Seq<ObjectEntry>, root: Seq<char>) -> Seq<TaskModel> {
    spec_dedup(spec_hashes(objects)).map_values(|h: Seq<char>| spec_asset_task(h, root))
}

impl AssetIndex {
    /// The index's invariant: each logical path appears once.
    pub open spec fn wf(&self) -> bool {
        forall|i: int, j: int|
            0 <= i < j < self.objects@.len() ==> self.objects@[i].path@ != self.objects@[j].path@
    }

    /// Resolves the index into download tasks under `save_path`: one task
    /// per distinct content hash — logical paths sharing an object share its
    /// single task — each keyed into a two-character bucket by its hash.
    ///
    /// Every hash must have at least the two characters its bucket takes.
    pub fn resolve_assets(&self, save_path: &str) -> (r: Vec<DownloadTask>)
        requires
            forall|i: int| 0 <= i < self.objects@.len() ==> self.objects@[i].object.hash@.len() >= 2,
        ensures
            r@.len() == spec_asset_tasks(self.objects@, save_path@).len(),
            forall|i: int|
                0 <= i < r@.len() ==> r@[i]@ == spec_asset_tasks(self.objects@, save_path@)[i],
    {
        let ghost all = self.objects@;
        let ghost root = save_path@;
        let mut out: Vec<DownloadTask> = Vec::new();
        let mut seen: Vec<String> = Vec::new();
        let mut i: usize = 0;
        proof {
            assert(spec_hashes(all.subrange(0, 0)) =~= Seq::<Seq<char>>::empty());
        }
        while i < self.objects.len()
            invariant
                i <= all.len(),
                all == self.objects@,
                root == save_path@,
                forall|k: int| 0 <= k < all.len() ==> all[k].object.hash@.len() >= 2,
                seen@.map_values(|s: String| s@) =~= spec_dedup(
                    spec_hashes(all.subrange(0, i as int)),
                ),
                out@.len() == seen@.len(),
                forall|k: int|
                    0 <= k < out@.len() ==> out@[k]@ == spec_asset_task(
                        seen@.map_values(|s: String| s@)[k],
                        root,
                    ),
            decreases all.len() - i,
        {
            let hash = &self.objects[i].object.hash;
            proof {
                let pre = all.subrange(0, i as int);
                let cur = all.subrange(0, i + 1);
                assert(spec_hashes(cur).drop_last() =~= spec_hashes(pre));
                assert(spec_hashes(cur).last() == hash@);
            }
            if !vec_contains_string(&seen, hash) {
                let task = asset_task(hash, save_path);
                out.push(task);
                seen.push(hash.clone());
                proof {
                    assert(seen@.map_values(|s: String| s@) =~= spec_dedup(
                        spec_hashes(all.subrange(0, i as int)),
                    ).push(hash@));
                }
            }
            i = i + 1;
        }
        proof {
            assert(all.subrange(0, all.len() as int) =~= all);
        }
        out
    }
}

/// The task fetching one object into the tree under `root`.
fn asset_task(hash: &String, root: &str) -> (t: DownloadTask)
    requires
        hash@.len() >= 2,
    ensures
        t@ == spec_asset_task(hash@, root@),
{
    let bucket = hash.as_str().substring_char(0, 2);
    let mut url: String = "https://resources.download.minecraft.net/".to_owned();
    url.append(bucket);
    url.append("/");
    url.append(hash.as_str());
    let mut dest = root.to_owned();
    dest.append("/");
    dest.append(bucket);
    dest.append("/");
    dest.append(hash.as_str());
    proof {
        assert(url@ =~= spec_asset_url(hash@));
        assert(dest@ =~= root@ + "/"@ + spec_asset_rel(hash@));
    }
    DownloadTask { url, path: dest, size: None, sha1: Some(hash.clone()) }
}

/// Law: the resolved tasks carry pairwise distinct content hashes — an index
/// in which several logical paths share one hash yields exactly one task for
/// it — and they cover exactly the hashes the index holds.
pub proof fn lemma_dedup_unique(hashes: Seq<Seq<char>>)
    ensures
        forall|i: int, j: int|
            0 <= i < j < spec_dedup(hashes).len() ==> spec_dedup(hashes)[i] != spec_dedup(
                hashes,
            )[j],
        forall|i: int|
            0 <= i < spec_dedup(hashes).len() ==> hashes.contains(#[trigger] spec_dedup(hashes)[i]),
        forall|i: int| 0 <= i < hashes.len() ==> spec_dedup(hashes).contains(#[trigger] hashes[i]),
    decreases hashes.len(),
{
    if hashes.len() > 0 {
        let front = hashes.drop_last();
        lemma_dedup_unique(front);
        let d = spec_dedup(hashes);
        let dl = spec_dedup(front);
        assert forall|i: int| 0 <= i < d.len() implies hashes.contains(#[trigger] d[i]) by {
            if i < dl.len() {
                assert(front.contains(dl[i]));
                let w = choose|w: int| 0 <= w < front.len() && front[w] == dl[i];
                assert(hashes[w] == dl[i]);
            } else {
                assert(d[i] == hashes.last());
                assert(hashes[hashes.len() - 1] == hashes.last());
            }
        }
        assert forall|i: int| 0 <= i < hashes.len() implies d.contains(#[trigger] hashes[i]) by {
            if i < hashes.len() - 1 {
                assert(front[i] == hashes[i]);
                assert(front.contains(front[i]));
                assert(dl.contains(hashes[i]));
                let w = choose|w: int| 0 <= w < dl.len() && dl[w] == hashes[i];
                if dl.contains(hashes.last()) {
                    assert(d == dl);
                } else {
                    assert(d[w] == hashes[i]);
                }
            } else {
                if dl.contains(hashes.last()) {
                    let w = choose|w: int| 0 <= w < dl.len() && dl[w] == hashes.last();
                    assert(d[w] == hashes[i]);
                } else {
                    assert(d[d.len() - 1] == hashes[i]);
                }
            }
        }
    }
}

/// Law: resolving the same index twice yields identical task lists — the
/// same urls and the same destination paths, in the same order.
pub proof fn lemma_resolve_assets_idempotent(
    objects: Seq<ObjectEntry>,
    root: Seq<char>,
    t1: Seq<TaskModel>,
    t2: Seq<TaskModel>,
)
    requires
        t1.len() == spec_asset_tasks(objects, root).len(),
        forall|i: int| 0 <= i < t1.len() ==> t1[i] == spec_asset_tasks(objects, root)[i],
        t2.len() == spec_asset_tasks(objects, root).len(),
        forall|i: int| 0 <= i < t2.len() ==> t2[i] == spec_asset_tasks(objects, root)[i],
    ensures
        t1 =~= t2,
{
}

} // verus!
