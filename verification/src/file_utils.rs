//! Content-aware file synchronization, the layer that makes regeneration
//! idempotent.
//!
//! A directory tree is modeled as the flat collection of its files, each
//! keyed by its path components and carrying its text content and a
//! modification stamp.  Synchronizing a freshly generated tree into a
//! persistent destination replaces a file only when its content differs,
//! so an up-to-date destination is left entirely untouched.

use vstd::prelude::*;

verus! {

/// One file of a tree: path components relative to the tree root, the full
/// text content, and a modification stamp.
#[derive(Debug)]
pub struct FsFile {
    pub path: Vec<String>,
    pub content: String,
    pub stamp: u64,
}

/// Mathematical view of `FsFile`.
pub struct FsFileV {
    pub path: Seq<Seq<char>>,
    pub content: Seq<char>,
    pub stamp: u64,
}

impl View for FsFile {
    type V = FsFileV;

    open spec fn view(&self) -> FsFileV {
        FsFileV { path: self.path.deep_view(), content: self.content@, stamp: self.stamp }
    }
}

impl DeepView for FsFile {
    type V = FsFileV;

    open spec fn deep_view(&self) -> FsFileV {
        self.view()
    }
}

/// A directory tree, flattened to the collection of its files.
#[derive(Debug)]
pub struct FsTree {
    pub files: Vec<FsFile>,
}

impl View for FsTree {
    type V = Seq<FsFileV>;

    open spec fn view(&self) -> Seq<FsFileV> {
        self.files.deep_view()
    }
}

/// The first file at the given path, if any.
pub open spec fn lookup(files: Seq<FsFileV>, path: Seq<Seq<char>>) -> Option<FsFileV>
    decreases files.len(),
{
    if files.len() == 0 {
        Option::None
    } else if files[0].path == path {
        Option::Some(files[0])
    } else {
        lookup(files.subrange(1, files.len() as int), path)
    }
}

/// The files of a tree as a map from path to file; where a path repeats,
/// the first occurrence wins, as in `lookup`.
pub open spec fn tree_map(files: Seq<FsFileV>) -> Map<Seq<Seq<char>>, FsFileV>
    decreases files.len(),
{
    if files.len() == 0 {
        Map::empty()
    } else {
        tree_map(files.subrange(1, files.len() as int)).insert(files[0].path, files[0])
    }
}

/// Two trees hold the same file set with the same byte content; stamps may
/// differ.
pub open spec fn same_contents(a: Seq<FsFileV>, b: Seq<FsFileV>) -> bool {
    &&& tree_map(a).dom() == tree_map(b).dom()
    &&& forall|p: Seq<Seq<char>>|
        tree_map(a).dom().contains(p) ==> #[trigger] tree_map(a)[p].content == tree_map(b)[p].content
}

/// What one source file becomes when moved onto the destination: a
/// destination file with identical content stays untouched, stamp included;
/// anything else is replaced by the source file.
pub open spec fn moved_file(f: FsFileV, dst: Seq<FsFileV>) -> FsFileV {
    match lookup(dst, f.path) {
        Option::Some(d) => if d.content == f.content {
            d
        } else {
            f
        },
        Option::None => f,
    }
}

/// The result of synchronizing a source tree into a destination tree:
/// exactly the source's files, with up-to-date destination files kept.
pub open spec fn moved_files(src: Seq<FsFileV>, dst: Seq<FsFileV>) -> Seq<FsFileV> {
    Seq::new(src.len(), |i: int| moved_file(src[i], dst))
}

pub proof fn lemma_lookup_properties(files: Seq<FsFileV>, path: Seq<Seq<char>>)
    ensures
        match lookup(files, path) {
            Option::Some(d) => d.path == path,
            Option::None => true,
        },
        lookup(files, path) is Some <==> tree_map(files).dom().contains(path),
        (match lookup(files, path) {
            Option::Some(d) => tree_map(files)[path] == d,
            Option::None => true,
        }),
    decreases files.len(),
{
    if files.len() > 0 {
        lemma_lookup_properties(files.subrange(1, files.len() as int), path);
    }
}

pub proof fn lemma_lookup_moved(src: Seq<FsFileV>, dst: Seq<FsFileV>, path: Seq<Seq<char>>)
    ensures
        lookup(moved_files(src, dst), path) == (match lookup(src, path) {
            Option::Some(s) => Option::Some(moved_file(s, dst)),
            Option::None => Option::<FsFileV>::None,
        }),
    decreases src.len(),
{
    if src.len() > 0 {
        let tail = src.subrange(1, src.len() as int);
        lemma_lookup_moved(tail, dst, path);
        assert(moved_files(src, dst).subrange(1, src.len() as int) =~= moved_files(tail, dst));
        if src[0].path == path {
            lemma_lookup_properties(dst, path);
            assert(moved_file(src[0], dst).path == path);
        } else {
            lemma_lookup_properties(dst, src[0].path);
            assert(moved_file(src[0], dst).path == src[0].path);
        }
    }
}

/// Law: after synchronization the destination holds exactly the source's
/// file set, with the source's byte content; only stamps may differ from
/// the source's.
pub proof fn lemma_sync_mirrors_source(src: Seq<FsFileV>, dst: Seq<FsFileV>)
    ensures
        same_contents(moved_files(src, dst), src),
        moved_files(src, dst).len() == src.len(),
        forall|i: int|
            0 <= i < src.len() ==> (#[trigger] moved_files(src, dst)[i]).path == src[i].path
                && moved_files(src, dst)[i].content == src[i].content,
{
    let moved = moved_files(src, dst);
    assert forall|i: int|
        0 <= i < src.len() implies (#[trigger] moved[i]).path == src[i].path && moved[i].content
        == src[i].content by {
        lemma_lookup_properties(dst, src[i].path);
    }
    assert forall|p: Seq<Seq<char>>|
        tree_map(moved).dom().contains(p) implies tree_map(src).dom().contains(p) by {
        lemma_lookup_properties(moved, p);
        lemma_lookup_moved(src, dst, p);
        lemma_lookup_properties(src, p);
    }
    assert forall|p: Seq<Seq<char>>|
        tree_map(src).dom().contains(p) implies tree_map(moved).dom().contains(p) by {
        lemma_lookup_properties(moved, p);
        lemma_lookup_moved(src, dst, p);
        lemma_lookup_properties(src, p);
    }
    assert(tree_map(moved).dom() =~= tree_map(src).dom());
    assert forall|p: Seq<Seq<char>>|
        tree_map(moved).dom().contains(p) implies #[trigger] tree_map(moved)[p].content
        == tree_map(src)[p].content by {
        lemma_lookup_properties(moved, p);
        lemma_lookup_moved(src, dst, p);
        lemma_lookup_properties(src, p);
        lemma_lookup_properties(dst, p);
    }
}

/// Law: synchronizing into an up-to-date destination — one whose file set
/// and contents already equal the source's — keeps every destination file
/// untouched, modification stamps included.
pub proof fn lemma_sync_idempotent(src: Seq<FsFileV>, dst: Seq<FsFileV>)
    requires
        same_contents(src, dst),
    ensures
        tree_map(moved_files(src, dst)) == tree_map(dst),
{
    let moved = moved_files(src, dst);
    lemma_sync_mirrors_source(src, dst);
    assert forall|p: Seq<Seq<char>>|
        tree_map(moved).dom().contains(p) implies tree_map(dst).dom().contains(p)
        && #[trigger] tree_map(moved)[p] == tree_map(dst)[p] by {
        lemma_lookup_properties(moved, p);
        lemma_lookup_moved(src, dst, p);
        lemma_lookup_properties(src, p);
        lemma_lookup_properties(dst, p);
    }
    assert forall|p: Seq<Seq<char>>|
        tree_map(dst).dom().contains(p) implies tree_map(moved).dom().contains(p) by {
        assert(tree_map(src).dom().contains(p));
    }
    assert(tree_map(moved).dom() =~= tree_map(dst).dom());
    assert(tree_map(moved) =~= tree_map(dst));
}

/// Compares two paths componentwise.
pub fn path_eq(a: &Vec<String>, b: &Vec<String>) -> (r: bool)
    ensures
        r == (a.deep_view() == b.deep_view()),
{
    let ghost av = a.deep_view();
    let ghost bv = b.deep_view();
    if a.len() != b.len() {
        assert(av.len() != bv.len());
        return false;
    }
    let mut i: usize = 0;
    while i < a.len()
        invariant
            av == a.deep_view(),
            bv == b.deep_view(),
            av.len() == a@.len(),
            bv.len() == b@.len(),
            av.len() == bv.len(),
            i <= av.len(),
            forall|j: int| 0 <= j < i ==> av[j] == bv[j],
        decreases av.len() - i,
    {
        if !crate::str_eq(a[i].as_str(), b[i].as_str()) {
            proof {
                assert(av[i as int] != bv[i as int]);
                assert(av != bv) by {
                    if av == bv {
                        assert(av[i as int] == bv[i as int]);
                    }
                }
            }
            return false;
        }
        i += 1;
    }
    proof {
        assert(av =~= bv);
    }
    true
}

/// Finds the first file at the given path.
pub fn find_file<'a>(files: &'a Vec<FsFile>, path: &Vec<String>) -> (r: Option<&'a FsFile>)
    ensures
        match r {
            Option::Some(f) => lookup(files.deep_view(), path.deep_view()) == Option::Some(f@),
            Option::None => lookup(files.deep_view(), path.deep_view()) is None,
        },
{
    let ghost fv = files.deep_view();
    let ghost pv = path.deep_view();
    let mut i: usize = 0;
    proof {
        assert(fv.subrange(0, fv.len() as int) =~= fv);
    }
    while i < files.len()
        invariant
            i <= fv.len(),
            fv == files.deep_view(),
            pv == path.deep_view(),
            fv.len() == files@.len(),
            lookup(fv, pv) == lookup(fv.subrange(i as int, fv.len() as int), pv),
        decreases fv.len() - i,
    {
        if path_eq(&files[i].path, path) {
            proof {
                assert(fv.subrange(i as int, fv.len() as int)[0] == fv[i as int]);
            }
            return Option::Some(&files[i]);
        }
        proof {
            let tail = fv.subrange(i as int, fv.len() as int);
            assert(tail[0] == fv[i as int]);
            assert(tail.subrange(1, tail.len() as int) =~= fv.subrange(i + 1, fv.len() as int));
        }
        i += 1;
    }
    proof {
        assert(fv.subrange(fv.len() as int, fv.len() as int) =~= Seq::<FsFileV>::empty());
    }
    Option::None
}

/// Clones a path, component by component.
fn clone_path(p: &Vec<String>) -> (r: Vec<String>)
    ensures
        r.deep_view() == p.deep_view(),
{
    let ghost pv = p.deep_view();
    let mut r: Vec<String> = Vec::new();
    let mut i: usize = 0;
    while i < p.len()
        invariant
            i <= pv.len(),
            pv == p.deep_view(),
            pv.len() == p@.len(),
            r.deep_view().len() == i,
            forall|j: int| 0 <= j < i ==> r.deep_view()[j] == pv[j],
        decreases pv.len() - i,
    {
        let c = p[i].clone();
        let ghost prev_raw = r@;
        r.push(c);
        proof {
            assert forall|j: int| 0 <= j < i + 1 implies r.deep_view()[j] == pv[j] by {
                if j < i {
                    assert(r@[j] == prev_raw[j]);
                } else {
                    assert(r.deep_view()[j] == c@);
                }
            }
        }
        i += 1;
    }
    proof {
        assert(r.deep_view() =~= pv);
    }
    r
}

/// Clones a file, keeping path, content and stamp.
fn clone_file(f: &FsFile) -> (r: FsFile)
    ensures
        r@ == f@,
{
    let r = FsFile { path: clone_path(&f.path), content: f.content.clone(), stamp: f.stamp };
    proof {
        assert(r@ =~= f@);
    }
    r
}

/// Moves one rendered file onto its destination slot: when the destination
/// already holds a file with identical content, the destination file is kept
/// with its stamp; otherwise the source file takes its place, as a
/// delete-then-rename does.
pub fn move_one_file(src: FsFile, dst: Option<&FsFile>) -> (r: FsFile)
    requires
        (dst matches Option::Some(d) ==> d@.path == src@.path),
    ensures
        r@ == (match dst {
            Option::Some(d) => if d@.content == src@.content {
                d@
            } else {
                src@
            },
            Option::None => src@,
        }),
{
    match dst {
        Option::Some(d) => {
            if crate::str_eq(d.content.as_str(), src.content.as_str()) {
                clone_file(d)
            } else {
                src
            }
        },
        Option::None => src,
    }
}

/// Synchronizes a freshly generated source tree into a destination tree:
/// the result holds exactly the source's files; a destination file whose
/// content already matches stays untouched, stamp included; everything else
/// comes from the source.  Destination files absent from the source are
/// dropped, and the source tree is consumed.
pub fn move_files(src: FsTree, dst: &FsTree) -> (r: FsTree)
    ensures
        r@ == moved_files(src@, dst@),
{
    let ghost sv = src@;
    let ghost dv = dst@;
    let mut out: Vec<FsFile> = Vec::new();
    let mut i: usize = 0;
    while i < src.files.len()
        invariant
            i <= sv.len(),
            sv == src@,
            dv == dst@,
            sv.len() == src.files@.len(),
            out.deep_view().len() == i,
            forall|j: int| 0 <= j < i ==> out.deep_view()[j] == moved_file(sv[j], dv),
        decreases sv.len() - i,
    {
        let f = &src.files[i];
        let replaced: FsFile;
        match find_file(&dst.files, &f.path) {
            Option::Some(d) => {
                if crate::str_eq(d.content.as_str(), f.content.as_str()) {
                    replaced = clone_file(d);
                } else {
                    replaced = clone_file(f);
                }
            },
            Option::None => {
                replaced = clone_file(f);
            },
        }
        proof {
            assert(replaced@ == moved_file(sv[i as int], dv));
        }
        let ghost prev_raw = out@;
        let ghost prev = out.deep_view();
        out.push(replaced);
        proof {
            assert forall|j: int|
                0 <= j < i + 1 implies out.deep_view()[j] == moved_file(sv[j], dv) by {
                if j < i {
                    assert(out@[j] == prev_raw[j]);
                    assert(prev[j] == prev_raw[j].deep_view());
                } else {
                    assert(out.deep_view()[j] == replaced@);
                }
            }
        }
        i += 1;
    }
    let r = FsTree { files: out };
    proof {
        assert(r@ =~= moved_files(sv, dv));
    }
    r
}

/// Copies a tree: the copy has the source's paths and contents, with every
/// file freshly stamped; the source stays in place.
pub fn copy_recursively(src: &FsTree, stamp: u64) -> (r: FsTree)
    ensures
        r@ == Seq::new(
            src@.len(),
            |i: int| (FsFileV { path: src@[i].path, content: src@[i].content, stamp }),
        ),
{
    let ghost sv = src@;
    let mut out: Vec<FsFile> = Vec::new();
    let mut i: usize = 0;
    while i < src.files.len()
        invariant
            i <= sv.len(),
            sv == src@,
            sv.len() == src.files@.len(),
            out.deep_view().len() == i,
            forall|j: int|
                0 <= j < i ==> out.deep_view()[j] == (FsFileV {
                    path: sv[j].path,
                    content: sv[j].content,
                    stamp,
                }),
        decreases sv.len() - i,
    {
        let f = &src.files[i];
        let copied = FsFile { path: clone_path(&f.path), content: f.content.clone(), stamp };
        proof {
            assert(copied@ == (FsFileV { path: sv[i as int].path, content: sv[i as int].content, stamp }));
        }
        let ghost prev_raw = out@;
        let ghost prev = out.deep_view();
        out.push(copied);
        proof {
            assert forall|j: int|
                0 <= j < i + 1 implies out.deep_view()[j] == (FsFileV {
                    path: sv[j].path,
                    content: sv[j].content,
                    stamp,
                }) by {
                if j < i {
                    assert(out@[j] == prev_raw[j]);
                    assert(prev[j] == prev_raw[j].deep_view());
                } else {
                    assert(out.deep_view()[j] == copied@);
                }
            }
        }
        i += 1;
    }
    let r = FsTree { files: out };
    proof {
        assert(r@ =~= Seq::new(
            sv.len(),
            |i: int| (FsFileV { path: sv[i].path, content: sv[i].content, stamp }),
        ));
    }
    r
}

} // verus!
