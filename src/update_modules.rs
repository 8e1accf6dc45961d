use vstd::prelude::*;

verus! {

/// Why a module is scheduled in an incremental rebuild.
#[derive(Clone, Copy, Debug, PartialEq, Eq, Structural)]
pub enum UpdateType {
    Added,
    Updated,
    Removed,
}

/// The modules already scheduled for an incremental rebuild, in order.
#[derive(Clone, Debug)]
pub struct PluginUpdateModulesHookParams {
    pub paths: Vec<(String, UpdateType)>,
}

/// The paths of a list of scheduled modules.
pub open spec fn paths_of(entries: Seq<(String, UpdateType)>) -> Seq<Seq<char>> {
    entries.map_values(|e: (String, UpdateType)| e.0@)
}

/// The paths scheduled after the paths of `extra` are appended to `existing` in
/// order, each one only if no earlier entry already holds it.
pub open spec fn merged(existing: Seq<Seq<char>>, extra: Seq<Seq<char>>) -> Seq<Seq<char>>
    decreases extra.len(),
{
    if extra.len() == 0 {
        existing
    } else {
        let before = merged(existing, extra.drop_last());
        if before.contains(extra.last()) {
            before
        } else {
            before.push(extra.last())
        }
    }
}

/// Merging keeps the scheduled paths as a prefix, and holds every path offered.
pub proof fn lemma_merged_extends(existing: Seq<Seq<char>>, extra: Seq<Seq<char>>)
    ensures
        existing.len() <= merged(existing, extra).len(),
        merged(existing, extra).subrange(0, existing.len() as int) == existing,
        forall|j: int| 0 <= j < extra.len() ==> merged(existing, extra).contains(#[trigger] extra[j]),
    decreases extra.len(),
{
    if extra.len() > 0 {
        let rest = extra.drop_last();
        lemma_merged_extends(existing, rest);
        let before = merged(existing, rest);
        let after = merged(existing, extra);
        assert forall|j: int| 0 <= j < extra.len() implies after.contains(#[trigger] extra[j]) by {
            if j < extra.len() - 1 {
                assert(rest[j] == extra[j]);
                let w = choose|w: int| 0 <= w < before.len() && before[w] == rest[j];
                assert(after[w] == extra[j]);
            } else if !before.contains(extra.last()) {
                assert(after[after.len() - 1] == extra[j]);
            }
        }
        assert(after.subrange(0, existing.len() as int) == before.subrange(
            0,
            existing.len() as int,
        ));
    }
}

/// Merging never schedules a path twice: without repeated paths before, there
/// are none after, whatever the hook returned, repeats included.
pub proof fn lemma_merged_no_duplicates(existing: Seq<Seq<char>>, extra: Seq<Seq<char>>)
    requires
        existing.no_duplicates(),
    ensures
        merged(existing, extra).no_duplicates(),
    decreases extra.len(),
{
    if extra.len() > 0 {
        lemma_merged_no_duplicates(existing, extra.drop_last());
    }
}

/// A merge offers nothing new when every offered path is already scheduled.
pub proof fn lemma_merged_all_present(existing: Seq<Seq<char>>, extra: Seq<Seq<char>>)
    requires
        forall|j: int| 0 <= j < extra.len() ==> existing.contains(#[trigger] extra[j]),
    ensures
        merged(existing, extra) == existing,
    decreases extra.len(),
{
    if extra.len() > 0 {
        let rest = extra.drop_last();
        assert forall|j: int| 0 <= j < rest.len() implies existing.contains(#[trigger] rest[j]) by {
            assert(rest[j] == extra[j]);
        }
        lemma_merged_all_present(existing, rest);
        assert(existing.contains(extra[extra.len() - 1]));
    }
}

/// Merging the same hook output a second time leaves the schedule as it is.
pub proof fn lemma_merge_twice(existing: Seq<Seq<char>>, extra: Seq<Seq<char>>)
    ensures
        merged(merged(existing, extra), extra) == merged(existing, extra),
{
    lemma_merged_extends(existing, extra);
    lemma_merged_all_present(merged(existing, extra), extra);
}

/// Whether some entry of `entries` has the path `path`.
fn contains_path(entries: &Vec<(String, UpdateType)>, path: &String) -> (r: bool)
    ensures
        r == paths_of(entries@).contains(path@),
{
    let mut i: usize = 0;
    while i < entries.len()
        invariant
            i <= entries@.len(),
            forall|j: int| 0 <= j < i ==> entries@[j].0@ != path@,
        decreases entries@.len() - i,
    {
        if entries[i].0 == *path {
            assert(paths_of(entries@)[i as int] == path@);
            return true;
        }
        i = i + 1;
    }
    assert forall|j: int| 0 <= j < paths_of(entries@).len() implies paths_of(entries@)[j]
        != path@ by {
        assert(paths_of(entries@)[j] == entries@[j].0@);
    }
    false
}

/// Appends each path of `extra` that is not scheduled yet, in order, marked as
/// updated. Entries already there keep their place and their kind.
pub fn merge_update_modules(paths: &mut Vec<(String, UpdateType)>, extra: &Vec<String>)
    ensures
        paths_of(final(paths)@) == merged(paths_of(old(paths)@), extra@.map_values(
            |s: String| s@,
        )),
        final(paths)@.subrange(0, old(paths)@.len() as int) == old(paths)@,
        forall|i: int|
            old(paths)@.len() <= i < final(paths)@.len() ==> #[trigger] final(paths)@[i].1
                == UpdateType::Updated,
{
    let ghost original = paths@;
    let ghost extra_paths = extra@.map_values(|s: String| s@);
    let mut k: usize = 0;
    while k < extra.len()
        invariant
            k <= extra@.len(),
            extra_paths == extra@.map_values(|s: String| s@),
            paths_of(paths@) == merged(paths_of(original), extra_paths.subrange(0, k as int)),
            original.len() <= paths@.len(),
            paths@.subrange(0, original.len() as int) == original,
            forall|i: int|
                original.len() <= i < paths@.len() ==> #[trigger] paths@[i].1
                    == UpdateType::Updated,
        decreases extra@.len() - k,
    {
        let item = &extra[k];
        assert(extra_paths.subrange(0, k + 1).drop_last() == extra_paths.subrange(0, k as int));
        assert(extra_paths.subrange(0, k + 1).last() == item@);
        if !contains_path(paths, item) {
            let ghost before = paths@;
            paths.push((item.clone(), UpdateType::Updated));
            assert(paths_of(paths@) == paths_of(before).push(item@));
            assert(paths@.subrange(0, original.len() as int) == before.subrange(
                0,
                original.len() as int,
            ));
        }
        k = k + 1;
    }
    assert(extra_paths.subrange(0, extra@.len() as int) == extra_paths);
}

} // verus!
