//! The import set of a generated file: paths in the order in which they were
//! first added, each at most once.

use crate::guard::{guard_text, push_guard};
use crate::model::{Version, VersionModel};
use crate::text::{joined, lemma_joined_empty, lemma_joined_take};
use vstd::prelude::*;

verus! {

/// One import: a path and the version that it is restricted to, if any.
#[derive(Clone, Debug, PartialEq, Eq)]
pub struct Import {
    pub path: String,
    pub version: Option<Version>,
}

/// The mathematical content of an [`Import`].
pub struct ImportModel {
    pub path: Seq<char>,
    pub version: Option<VersionModel>,
}

impl View for Import {
    type V = ImportModel;

    open spec fn view(&self) -> ImportModel {
        ImportModel { path: self.path@, version: self.version.deep_view() }
    }
}

impl DeepView for Import {
    type V = ImportModel;

    open spec fn deep_view(&self) -> ImportModel {
        self@
    }
}

/// Whether some entry has the path.
pub open spec fn has_path(entries: Seq<ImportModel>, path: Seq<char>) -> bool {
    exists|i: int| 0 <= i < entries.len() && (#[trigger] entries[i]).path == path
}

/// No two entries have the same path.
pub open spec fn distinct_paths(entries: Seq<ImportModel>) -> bool {
    forall|i: int, j: int|
        0 <= i < j < entries.len() ==> (#[trigger] entries[i]).path != (#[trigger] entries[j]).path
}

/// The entries after one import was added: a path that is already there
/// stays as it was first added, with the version of that time; a new path
/// goes to the end.
pub open spec fn added(entries: Seq<ImportModel>, entry: ImportModel) -> Seq<ImportModel> {
    if has_path(entries, entry.path) {
        entries
    } else {
        entries.push(entry)
    }
}

/// The entries after a run of imports was added, one after the other.
pub open spec fn added_all(entries: Seq<ImportModel>, run: Seq<ImportModel>) -> Seq<ImportModel>
    decreases run.len(),
{
    if run.len() == 0 {
        entries
    } else {
        added(added_all(entries, run.drop_last()), run.last())
    }
}

/// The paths of the entries, without their order.
pub open spec fn path_set(entries: Seq<ImportModel>) -> Set<Seq<char>> {
    Set::new(|path: Seq<char>| has_path(entries, path))
}

/// The line of one import under its guard.
pub open spec fn import_text(entry: ImportModel) -> Seq<char> {
    guard_text(entry.version) + "use "@ + entry.path + ";\n"@
}

/// The piece that each import adds to the block of imports.
pub open spec fn import_part() -> spec_fn(ImportModel) -> Seq<char> {
    |entry: ImportModel| import_text(entry)
}

/// The block of imports: one line for each entry, in order.
pub open spec fn uses_text(entries: Seq<ImportModel>) -> Seq<char> {
    joined(entries, import_part())
}

/// Adding an import to entries with distinct paths leaves the paths distinct:
/// no path is ever there twice.
pub proof fn lemma_added_distinct(entries: Seq<ImportModel>, entry: ImportModel)
    requires
        distinct_paths(entries),
    ensures
        distinct_paths(added(entries, entry)),
{
}

/// An import whose path is already there changes nothing: the entry that
/// was added first keeps its place and its version.
pub proof fn lemma_added_first_wins(entries: Seq<ImportModel>, entry: ImportModel)
    requires
        has_path(entries, entry.path),
    ensures
        added(entries, entry) == entries,
{
}

/// The paths of a run with one more entry are those of the run and that of
/// the entry.
proof fn lemma_pushed_path_set(entries: Seq<ImportModel>, entry: ImportModel)
    ensures
        path_set(entries.push(entry)) == path_set(entries).insert(entry.path),
{
    let after = entries.push(entry);
    assert forall|path: Seq<char>| has_path(after, path) <==> (has_path(entries, path) || path
        == entry.path) by {
        if has_path(entries, path) {
            let i = choose|i: int| 0 <= i < entries.len() && (#[trigger] entries[i]).path == path;
            assert(after[i].path == path);
        }
        if path == entry.path {
            assert(after[entries.len() as int].path == path);
        }
    }
    assert(path_set(after) =~= path_set(entries).insert(entry.path));
}

/// After an import was added, the paths are those from before and the new
/// one.
pub proof fn lemma_added_path_set(entries: Seq<ImportModel>, entry: ImportModel)
    ensures
        path_set(added(entries, entry)) == path_set(entries).insert(entry.path),
{
    if has_path(entries, entry.path) {
        assert(path_set(entries) =~= path_set(entries).insert(entry.path));
    } else {
        lemma_pushed_path_set(entries, entry);
    }
}

/// Which paths an import set holds does not depend on the order in which two
/// imports were added.
pub proof fn lemma_added_order(entries: Seq<ImportModel>, first: ImportModel, second: ImportModel)
    ensures
        path_set(added(added(entries, first), second)) == path_set(
            added(added(entries, second), first),
        ),
{
    lemma_added_path_set(entries, first);
    lemma_added_path_set(added(entries, first), second);
    lemma_added_path_set(entries, second);
    lemma_added_path_set(added(entries, second), first);
    assert(path_set(entries).insert(first.path).insert(second.path) =~= path_set(entries).insert(
        second.path,
    ).insert(first.path));
}

/// After a run of imports was added, the paths are those from before and
/// those of the run, and they are distinct if they were.
pub proof fn lemma_added_all_path_set(entries: Seq<ImportModel>, run: Seq<ImportModel>)
    ensures
        path_set(added_all(entries, run)) == path_set(entries).union(path_set(run)),
        distinct_paths(entries) ==> distinct_paths(added_all(entries, run)),
    decreases run.len(),
{
    if run.len() == 0 {
        assert(path_set(entries).union(path_set(run)) =~= path_set(entries));
    } else {
        let init = run.drop_last();
        lemma_added_all_path_set(entries, init);
        lemma_added_path_set(added_all(entries, init), run.last());
        if distinct_paths(entries) {
            lemma_added_distinct(added_all(entries, init), run.last());
        }
        assert(run =~= init.push(run.last()));
        lemma_pushed_path_set(init, run.last());
        assert(path_set(entries).union(path_set(init)).insert(run.last().path) =~= path_set(
            entries,
        ).union(path_set(run)));
    }
}

/// Which paths an import set holds depends on which imports were added, not
/// on their order nor on how often each was added: two runs with the same
/// paths give the same paths.
pub proof fn lemma_added_all_order(
    entries: Seq<ImportModel>,
    run: Seq<ImportModel>,
    other: Seq<ImportModel>,
)
    requires
        path_set(run) == path_set(other),
    ensures
        path_set(added_all(entries, run)) == path_set(added_all(entries, other)),
{
    lemma_added_all_path_set(entries, run);
    lemma_added_all_path_set(entries, other);
}

/// An ordered set of imports, unique by path.
#[derive(Debug, PartialEq, Eq)]
pub struct ImportSet {
    entries: Vec<Import>,
}

impl View for ImportSet {
    type V = Seq<ImportModel>;

    closed spec fn view(&self) -> Seq<ImportModel> {
        self.entries.deep_view()
    }
}

impl ImportSet {
    #[verifier::type_invariant]
    spec fn paths_are_distinct(&self) -> bool {
        distinct_paths(self.entries.deep_view())
    }

    /// An import set without entries.
    pub fn new() -> (imports: ImportSet)
        ensures
            imports@ == Seq::<ImportModel>::empty(),
    {
        ImportSet { entries: Vec::new() }
    }

    /// The number of entries.
    pub fn len(&self) -> (n: usize)
        ensures
            n == self@.len(),
    {
        self.entries.len()
    }

    /// Whether the path has been added.
    pub fn contains(&self, path: &str) -> (found: bool)
        ensures
            found == has_path(self@, path@),
    {
        let wanted = String::from_str(path);
        let mut i: usize = 0;
        while i < self.entries.len()
            invariant
                i <= self.entries.len(),
                wanted@ == path@,
                forall|j: int| 0 <= j < i ==> (#[trigger] self@[j]).path != path@,
            decreases self.entries.len() - i,
        {
            if self.entries[i].path == wanted {
                assert(self@[i as int].path == path@);
                return true;
            }
            i = i + 1;
        }
        false
    }

    /// Adds an import. A path that is already in the set is left as it was
    /// first added: its version is not replaced and not combined with the
    /// new one.
    pub fn add(&mut self, path: &str, version: Option<Version>)
        ensures
            final(self)@ == added(
                old(self)@,
                ImportModel { path: path@, version: version.deep_view() },
            ),
            distinct_paths(final(self)@),
    {
        proof {
            use_type_invariant(&*self);
        }
        if !self.contains(path) {
            let entry = Import { path: String::from_str(path), version };
            let mut taken = ImportSet::new();
            std::mem::swap(self, &mut taken);
            let mut entries = taken.entries;
            let ghost before = entries.deep_view();
            entries.push(entry);
            assert(entries.deep_view() =~= before.push(entry@));
            *self = ImportSet { entries };
        }
    }

    /// The entry at a position, counted in the order in which the paths
    /// were first added.
    pub fn get(&self, i: usize) -> (entry: Option<&Import>)
        ensures
            match entry {
                Some(entry) => i < self@.len() && entry@ == self@[i as int],
                None => i >= self@.len(),
            },
    {
        if i < self.entries.len() {
            Some(&self.entries[i])
        } else {
            None
        }
    }

    /// Writes the block of imports: for each entry, in order, its guard and
    /// its line.
    pub fn render(&self) -> (text: String)
        ensures
            text@ == uses_text(self@),
    {
        let mut text = String::new();
        let mut i: usize = 0;
        proof {
            lemma_joined_empty(import_part());
        }
        while i < self.entries.len()
            invariant
                i <= self.entries.len(),
                text@ == uses_text(self@.take(i as int)),
            decreases self.entries.len() - i,
        {
            proof {
                lemma_joined_take(self@, i as int, import_part());
            }
            let entry = &self.entries[i];
            push_guard(&mut text, &entry.version);
            text.append("use ");
            text.append(entry.path.as_str());
            text.append(";\n");
            i = i + 1;
        }
        assert(self@.take(i as int) =~= self@);
        text
    }
}

} // verus!
