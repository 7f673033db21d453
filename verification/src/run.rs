//! A model of a whole run: the destination tree as a map from path to
//! file bytes, and one run as a fold of per-file steps over the
//! enumerated list.  The model assumes that every attempted copy
//! succeeds; a failed copy leaves the tree as it was and only changes the
//! printed log line.

use vstd::prelude::*;
use crate::date::chrono_format_ymd;
use crate::meta::extracted_date;
use crate::plan::base_name_spec;
use crate::plan::planned_dest;

verus! {

/// The destination tree: each destination path and the bytes stored there.
pub type DestTree = Map<Seq<char>, Seq<u8>>;

/// One enumerated file: its path and its bytes, `None` when unreadable.
pub type RunFile = (Seq<char>, Option<Seq<u8>>);

/// One step of a run: when the file plans a copy, its bytes land at the
/// planned destination, overwriting whatever was there; otherwise the
/// tree is untouched.
pub open spec fn run_step(fs: DestTree, file: RunFile, out_root: Seq<char>, mask: Seq<char>) -> DestTree {
    match file.1 {
        None => fs,
        Some(b) => match planned_dest(Some(b), file.0, out_root, mask) {
            None => fs,
            Some(dest) => fs.insert(dest, b),
        },
    }
}

/// A whole run: the per-file steps applied in enumeration order.
pub open spec fn run(fs: DestTree, files: Seq<RunFile>, out_root: Seq<char>, mask: Seq<char>) -> DestTree
    decreases files.len(),
{
    if files.len() == 0 {
        fs
    } else {
        run_step(run(fs, files.drop_last(), out_root, mask), files.last(), out_root, mask)
    }
}

/// A file with a valid, extractable capture date and a mask that formats
/// it is copied: after its step the destination tree holds the file's
/// bytes — byte-identical — at `<out_root>/<formatted date>/<base name>`.
pub proof fn lemma_copied_file(fs: DestTree, file: RunFile, out_root: Seq<char>, mask: Seq<char>)
    requires
        file.1 matches Some(b) && planned_dest(Some(b), file.0, out_root, mask) is Some,
    ensures
        file.1 matches Some(b) && planned_dest(Some(b), file.0, out_root, mask) matches Some(dest)
            && run_step(fs, file, out_root, mask) == fs.insert(dest, b),
{
}

/// A file lacking extractable metadata, or whose date text does not
/// parse, adds nothing to the destination tree: its step leaves the tree
/// exactly as it was.
pub proof fn lemma_skipped_file(fs: DestTree, file: RunFile, out_root: Seq<char>, mask: Seq<char>)
    requires
        file.1 matches Some(b) ==> extracted_date(b) is None,
    ensures
        run_step(fs, file, out_root, mask) == fs,
{
}

/// What one run adds to the destination tree depends on the enumerated
/// files alone: a run is the prior tree overlaid with the run's own
/// entries.
proof fn lemma_run_union(fs: DestTree, files: Seq<RunFile>, out_root: Seq<char>, mask: Seq<char>)
    ensures
        run(fs, files, out_root, mask) == fs.union_prefer_right(
            run(Map::empty(), files, out_root, mask),
        ),
    decreases files.len(),
{
    broadcast use vstd::map_lib::lemma_union_insert_right;

    if files.len() == 0 {
        assert(run(fs, files, out_root, mask) =~= fs.union_prefer_right(
            run(Map::empty(), files, out_root, mask),
        ));
    } else {
        lemma_run_union(fs, files.drop_last(), out_root, mask);
        lemma_run_union(Map::empty(), files.drop_last(), out_root, mask);
        assert(Map::<Seq<char>, Seq<u8>>::empty().union_prefer_right(
            run(Map::empty(), files.drop_last(), out_root, mask),
        ) =~= run(Map::empty(), files.drop_last(), out_root, mask));
    }
}

/// A run writes only under the output root: every entry that a run adds
/// or changes lies at a path that begins with `<out_root>/`; everything
/// else in the destination tree is left exactly as it was.
pub proof fn lemma_run_writes_under_output(
    fs: DestTree,
    files: Seq<RunFile>,
    out_root: Seq<char>,
    mask: Seq<char>,
)
    ensures
        forall|p: Seq<char>| #[trigger] run(fs, files, out_root, mask).contains_key(p) ==> (
        fs.contains_key(p) && run(fs, files, out_root, mask)[p] == fs[p]) || (out_root
            + "/"@).is_prefix_of(p),
    decreases files.len(),
{
    if files.len() > 0 {
        lemma_run_writes_under_output(fs, files.drop_last(), out_root, mask);
        let prev = run(fs, files.drop_last(), out_root, mask);
        let cur = run(fs, files, out_root, mask);
        let file = files.last();
        let pre = out_root + "/"@;
        match file.1 {
            None => {
                assert(cur == prev);
            },
            Some(b) => match extracted_date(b) {
                None => {
                    assert(cur == prev);
                },
                Some(ymd) => match chrono_format_ymd(ymd.0, ymd.1, ymd.2, mask) {
                    None => {
                        assert(cur == prev);
                    },
                    Some(f) => {
                        let dest = pre + f + "/"@ + base_name_spec(file.0);
                        assert(pre.is_prefix_of(dest)) by {
                            assert(pre =~= dest.subrange(0, pre.len() as int));
                        }
                        assert(cur == prev.insert(dest, b));
                        assert forall|p: Seq<char>| #[trigger] cur.contains_key(p) implies (
                        fs.contains_key(p) && cur[p] == fs[p]) || pre.is_prefix_of(p) by {
                            if p != dest {
                                assert(prev.contains_key(p));
                                assert(cur[p] == prev[p]);
                            }
                        }
                    },
                },
            },
        }
    }
}

/// Running the tool twice with the same file list, output root and mask
/// leaves the destination tree exactly as one run leaves it: the same set
/// of destination paths with the same bytes — each copy overwrites, none
/// duplicates.
pub proof fn lemma_run_idempotent(fs: DestTree, files: Seq<RunFile>, out_root: Seq<char>, mask: Seq<char>)
    ensures
        run(run(fs, files, out_root, mask), files, out_root, mask) == run(fs, files, out_root, mask),
{
    let delta = run(Map::empty(), files, out_root, mask);
    lemma_run_union(fs, files, out_root, mask);
    lemma_run_union(run(fs, files, out_root, mask), files, out_root, mask);
    assert(fs.union_prefer_right(delta).union_prefer_right(delta) =~= fs.union_prefer_right(
        delta,
    ));
}

} // verus!
