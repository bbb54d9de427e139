use vstd::prelude::*;

verus! {

/// The kinds of display element whose assets are kept on disk.
#[derive(Clone, Copy, Debug, PartialEq, Eq, Structural)]
pub enum AssetKind {
    StaticImage,
    ConditionalImage,
}

/// Named blobs: (name, bytes) pairs.
pub type Blobs = Vec<(String, Vec<u8>)>;

/// The view of named blobs.
pub open spec fn blobs_view(b: Seq<(String, Vec<u8>)>) -> Seq<(Seq<char>, Seq<u8>)> {
    b.map_values(|e: (String, Vec<u8>)| (e.0@, e.1@))
}

/// The name → bytes mapping that a list of named blobs describes; a later
/// entry replaces an earlier one of the same name.
pub open spec fn blob_map(entries: Seq<(Seq<char>, Seq<u8>)>) -> Map<Seq<char>, Seq<u8>>
    decreases entries.len(),
{
    if entries.len() == 0 {
        Map::empty()
    } else {
        blob_map(entries.drop_last()).insert(entries.last().0, entries.last().1)
    }
}

/// No two entries share a name.
pub open spec fn distinct_names<V>(entries: Seq<(Seq<char>, V)>) -> bool {
    forall|i: int, j: int|
        0 <= i < j < entries.len() ==> #[trigger] entries[i].0 != #[trigger] entries[j].0
}

/// One step of writing an element's cache directory.
#[derive(Debug)]
pub enum FileOp {
    /// Remove the directory with all it holds; a missing directory is fine.
    RemoveDir,
    /// Create the directory, empty.
    CreateDir,
    /// Write one file into the directory.
    Write(String, Vec<u8>),
}

/// The steps that bring one element's cache directory up to date.
pub struct ElementWrite {
    pub kind: AssetKind,
    pub element_id: String,
    pub ops: Vec<FileOp>,
}

/// The files of the cache, by directory: (kind, element id) → (name → bytes).
pub type CacheModel = Map<(AssetKind, Seq<char>), Map<Seq<char>, Seq<u8>>>;

/// The cache after one step on the directory `dir`. Writing into a missing
/// directory fails and changes nothing.
pub open spec fn apply_op(cache: CacheModel, dir: (AssetKind, Seq<char>), op: FileOp) -> CacheModel {
    match op {
        FileOp::RemoveDir => cache.remove(dir),
        FileOp::CreateDir => if cache.contains_key(dir) {
            cache
        } else {
            cache.insert(dir, Map::empty())
        },
        FileOp::Write(name, bytes) => if cache.contains_key(dir) {
            cache.insert(dir, cache[dir].insert(name@, bytes@))
        } else {
            cache
        },
    }
}

/// The cache after the steps `ops` on the directory `dir`, in order.
pub open spec fn apply_ops(cache: CacheModel, dir: (AssetKind, Seq<char>), ops: Seq<FileOp>) -> CacheModel
    decreases ops.len(),
{
    if ops.len() == 0 {
        cache
    } else {
        apply_op(apply_ops(cache, dir, ops.drop_last()), dir, ops.last())
    }
}

impl ElementWrite {
    pub open spec fn dir(&self) -> (AssetKind, Seq<char>) {
        (self.kind, self.element_id@)
    }

    /// The cache once these steps have run.
    pub open spec fn applied(&self, cache: CacheModel) -> CacheModel {
        apply_ops(cache, self.dir(), self.ops@)
    }

    /// Clears the directory of element `element_id`, then writes exactly `files` into it.
    pub fn replace_dir(kind: AssetKind, element_id: String, files: &Blobs) -> (w: Self)
        ensures
            w.kind == kind,
            w.element_id == element_id,
            forall|cache: CacheModel| #[trigger] w.applied(cache) == cache.insert(
                (kind, element_id@),
                blob_map(blobs_view(files@)),
            ),
    {
        let mut ops: Vec<FileOp> = Vec::new();
        ops.push(FileOp::RemoveDir);
        ops.push(FileOp::CreateDir);
        let ghost dir = (kind, element_id@);
        assert forall|cache: CacheModel| #[trigger] apply_ops(cache, dir, ops@) == cache.insert(
            dir,
            blob_map(blobs_view(files@.take(0))),
        ) by {
            let first = ops@.drop_last();
            assert(first =~= seq![FileOp::RemoveDir]);
            assert(first.drop_last() =~= Seq::<FileOp>::empty());
            assert(apply_ops(cache, dir, first.drop_last()) == cache);
            assert(apply_ops(cache, dir, first) == cache.remove(dir));
            assert(blobs_view(files@.take(0)) =~= Seq::empty());
            assert(cache.remove(dir).insert(dir, Map::empty()) =~= cache.insert(dir, Map::empty()));
        }
        let mut i: usize = 0;
        while i < files.len()
            invariant
                i <= files.len(),
                ops@.len() == i + 2,
                forall|cache: CacheModel| #[trigger] apply_ops(cache, dir, ops@) == cache.insert(
                    dir,
                    blob_map(blobs_view(files@.take(i as int))),
                ),
            decreases files.len() - i,
        {
            let name = files[i].0.clone();
            let bytes = files[i].1.clone();
            assert(bytes@ == files@[i as int].1@);
            let ghost before = ops@;
            ops.push(FileOp::Write(name, bytes));
            assert forall|cache: CacheModel| #[trigger] apply_ops(cache, dir, ops@) == cache.insert(
                dir,
                blob_map(blobs_view(files@.take(i + 1))),
            ) by {
                assert(ops@.drop_last() =~= before);
                assert(blobs_view(files@.take(i + 1)).drop_last() =~= blobs_view(files@.take(i as int)));
                assert(apply_ops(cache, dir, before) == cache.insert(
                    dir,
                    blob_map(blobs_view(files@.take(i as int))),
                ));
                assert(cache.insert(dir, blob_map(blobs_view(files@.take(i as int)))).insert(
                    dir,
                    blob_map(blobs_view(files@.take(i + 1))),
                ) =~= cache.insert(dir, blob_map(blobs_view(files@.take(i + 1)))));
            }
            i = i + 1;
        }
        assert(files@.take(files@.len() as int) =~= files@);
        ElementWrite { kind, element_id, ops }
    }
}

/// The names that a list of named entries mentions.
pub open spec fn names_of<V>(entries: Seq<(Seq<char>, V)>) -> Set<Seq<char>> {
    entries.map_values(|e: (Seq<char>, V)| e.0).to_set()
}

/// Writes for a static-image message: each element's directory is cleared
/// and then holds one file, named by the element id, with the element's bytes.
pub fn static_image_writes(assets: &Blobs) -> (r: Vec<ElementWrite>)
    ensures
        r@.len() == assets@.len(),
        forall|i: int|
            0 <= i < r@.len() ==> {
                &&& #[trigger] r@[i].kind == AssetKind::StaticImage
                &&& r@[i].element_id@ == assets@[i].0@
                &&& forall|cache: CacheModel| #[trigger] r@[i].applied(cache) == cache.insert(
                    (AssetKind::StaticImage, assets@[i].0@),
                    map![assets@[i].0@ => assets@[i].1@],
                )
            },
{
    let mut r: Vec<ElementWrite> = Vec::new();
    let mut i: usize = 0;
    while i < assets.len()
        invariant
            i <= assets.len(),
            r@.len() == i,
            forall|k: int|
                0 <= k < i ==> {
                    &&& #[trigger] r@[k].kind == AssetKind::StaticImage
                    &&& r@[k].element_id@ == assets@[k].0@
                    &&& forall|cache: CacheModel| #[trigger] r@[k].applied(cache) == cache.insert(
                        (AssetKind::StaticImage, assets@[k].0@),
                        map![assets@[k].0@ => assets@[k].1@],
                    )
                },
        decreases assets.len() - i,
    {
        let id = assets[i].0.clone();
        let bytes = assets[i].1.clone();
        assert(bytes@ == assets@[i as int].1@);
        let files: Blobs = vec![(id.clone(), bytes)];
        let ghost entries = blobs_view(files@);
        assert(files@.len() == 1);
        assert(entries.last() == (assets@[i as int].0@, assets@[i as int].1@));
        assert(entries.drop_last() =~= Seq::empty());
        assert(blob_map(entries.drop_last()) == Map::<Seq<char>, Seq<u8>>::empty());
        assert(blob_map(entries) =~= map![assets@[i as int].0@ => assets@[i as int].1@]);
        let w = ElementWrite::replace_dir(AssetKind::StaticImage, id, &files);
        r.push(w);
        i = i + 1;
    }
    r
}

/// Writes for a conditional-image message: each element's directory is
/// cleared and then holds exactly the element's named images.
pub fn conditional_image_writes(assets: &Vec<(String, Blobs)>) -> (r: Vec<ElementWrite>)
    ensures
        r@.len() == assets@.len(),
        forall|i: int|
            0 <= i < r@.len() ==> {
                &&& #[trigger] r@[i].kind == AssetKind::ConditionalImage
                &&& r@[i].element_id@ == assets@[i].0@
                &&& forall|cache: CacheModel| #[trigger] r@[i].applied(cache) == cache.insert(
                    (AssetKind::ConditionalImage, assets@[i].0@),
                    blob_map(blobs_view(assets@[i].1@)),
                )
            },
{
    let mut r: Vec<ElementWrite> = Vec::new();
    let mut i: usize = 0;
    while i < assets.len()
        invariant
            i <= assets.len(),
            r@.len() == i,
            forall|k: int|
                0 <= k < i ==> {
                    &&& #[trigger] r@[k].kind == AssetKind::ConditionalImage
                    &&& r@[k].element_id@ == assets@[k].0@
                    &&& forall|cache: CacheModel| #[trigger] r@[k].applied(cache) == cache.insert(
                        (AssetKind::ConditionalImage, assets@[k].0@),
                        blob_map(blobs_view(assets@[k].1@)),
                    )
                },
        decreases assets.len() - i,
    {
        let id = assets[i].0.clone();
        let w = ElementWrite::replace_dir(AssetKind::ConditionalImage, id, &assets[i].1);
        r.push(w);
        i = i + 1;
    }
    r
}

/// The names that `blob_map` holds are those the entries mention.
pub proof fn lemma_blob_map_names(entries: Seq<(Seq<char>, Seq<u8>)>)
    ensures
        blob_map(entries).dom() == names_of(entries),
    decreases entries.len(),
{
    if entries.len() > 0 {
        let prefix = entries.drop_last();
        lemma_blob_map_names(prefix);
        assert(entries =~= prefix.push(entries.last()));
        assert(entries.map_values(|e: (Seq<char>, Seq<u8>)| e.0) =~= prefix.map_values(
            |e: (Seq<char>, Seq<u8>)| e.0,
        ).push(entries.last().0));
        prefix.map_values(|e: (Seq<char>, Seq<u8>)| e.0).lemma_push_to_set_commute(entries.last().0);
    } else {
        assert(names_of(entries) =~= Set::empty());
    }
    assert(blob_map(entries).dom() =~= names_of(entries));
}

/// A file of a prepare message that no later entry renames holds the bytes
/// the message gave it.
pub proof fn lemma_blob_map_value(entries: Seq<(Seq<char>, Seq<u8>)>, i: int)
    requires
        0 <= i < entries.len(),
        distinct_names(entries),
    ensures
        blob_map(entries).contains_key(entries[i].0),
        blob_map(entries)[entries[i].0] == entries[i].1,
    decreases entries.len(),
{
    let prefix = entries.drop_last();
    if i < entries.len() - 1 {
        assert(distinct_names(prefix)) by {
            assert forall|a: int, b: int| 0 <= a < b < prefix.len() implies #[trigger] prefix[a].0
                != #[trigger] prefix[b].0 by {
                assert(prefix[a] == entries[a] && prefix[b] == entries[b]);
            }
        }
        lemma_blob_map_value(prefix, i);
        assert(entries[i].0 != entries[entries.len() - 1].0);
    }
}

/// After the writes for one element, its cache directory holds exactly the
/// files that the message names, with the message's bytes, and none that
/// were there before; every other directory is left as it was.
pub proof fn lemma_prepare_replaces_dir(
    cache: CacheModel,
    kind: AssetKind,
    element_id: Seq<char>,
    files: Seq<(Seq<char>, Seq<u8>)>,
)
    requires
        distinct_names(files),
    ensures
        ({
            let after = cache.insert((kind, element_id), blob_map(files));
            &&& after.contains_key((kind, element_id))
            &&& after[(kind, element_id)].dom() == names_of(files)
            &&& forall|i: int|
                0 <= i < files.len() ==> after[(kind, element_id)][#[trigger] files[i].0] == files[i].1
            &&& forall|d: (AssetKind, Seq<char>)|
                d != (kind, element_id) ==> (#[trigger] after.contains_key(d) == cache.contains_key(d)
                    && (cache.contains_key(d) ==> after[d] == cache[d]))
        }),
{
    lemma_blob_map_names(files);
    assert forall|i: int| 0 <= i < files.len() implies blob_map(files)[#[trigger] files[i].0]
        == files[i].1 by {
        lemma_blob_map_value(files, i);
    }
}

} // verus!
