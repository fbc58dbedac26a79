//! Replacing the analysis database with a fresh one: which file overrides
//! move across, and when a swap is due.
use vstd::prelude::*;

use cairo_lang_utils::ordered_hash_map::OrderedHashMap;

verus! {

/// Identity of a file in one database.
pub type FileId = u64;

/// Content overrides of files, one per file, in cairo_lang_utils'
/// `OrderedHashMap`, which keeps the order of insertion. Verus cannot name
/// the map's default hasher, so the map is held out of its sight here.
#[verifier::external_body]
pub struct FileOverrides {
    entries: OrderedHashMap<FileId, String>,
}

/// The override of each file that has one.
pub uninterp spec fn overrides_of(overrides: FileOverrides) -> Map<FileId, String>;

/// No file overridden.
pub open spec fn no_overrides() -> Map<FileId, String> {
    Map::empty()
}

/// Relies on `OrderedHashMap::default`: an empty map.
#[verifier::external_body]
fn overrides_new() -> (r: FileOverrides)
    ensures
        overrides_of(r) == no_overrides(),
{
    FileOverrides { entries: OrderedHashMap::default() }
}

/// Relies on `IndexMap::get`, which `OrderedHashMap` derefs to: the value
/// of `file`, if it has one.
#[verifier::external_body]
fn overrides_get(overrides: &FileOverrides, file: FileId) -> (r: Option<&String>)
    ensures
        match r {
            Some(content) => overrides_of(*overrides).contains_key(file) && *content
                == overrides_of(*overrides)[file],
            None => !overrides_of(*overrides).contains_key(file),
        },
{
    overrides.entries.get(&file)
}

/// Relies on `IndexMap::insert`, which `OrderedHashMap` derefs to: `file`
/// then maps to `content`, every other file as before.
#[verifier::external_body]
fn overrides_insert(overrides: &mut FileOverrides, file: FileId, content: String)
    ensures
        overrides_of(*final(overrides)) == overrides_of(*old(overrides)).insert(file, content),
{
    overrides.entries.insert(file, content);
}

/// An open file's identity in the old database and in the fresh one, for a
/// file that the old database knows.
#[derive(Debug, Clone, Copy, PartialEq, Eq, Structural)]
pub struct FileTranslation {
    pub old_id: FileId,
    pub new_id: FileId,
}

impl FileOverrides {
    /// The override of each file that has one.
    pub open spec fn view(&self) -> Map<FileId, String> {
        overrides_of(*self)
    }

    /// No override.
    pub fn new() -> (r: Self)
        ensures
            r@ == Map::<FileId, String>::empty(),
    {
        overrides_new()
    }

    /// The override of `file`, if it has one.
    pub fn get(&self, file: FileId) -> (r: Option<&String>)
        ensures
            r == if self@.contains_key(file) {
                Some(&self@[file])
            } else {
                None::<&String>
            },
    {
        overrides_get(self, file)
    }

    /// Sets the override of `file`; an existing one is replaced in place.
    pub fn insert(&mut self, file: FileId, content: String)
        ensures
            final(self)@ == old(self)@.insert(file, content),
    {
        overrides_insert(self, file, content)
    }
}

/// The overrides that the fresh database gets: for each open file that the
/// old database knows and that has an override there, that override under
/// the file's new identity. Files without an override are read from disk
/// and need none.
pub open spec fn carried_overrides(
    old_overrides: Map<FileId, String>,
    open_files: Seq<Option<FileTranslation>>,
) -> Map<FileId, String>
    decreases open_files.len(),
{
    if open_files.len() == 0 {
        Map::empty()
    } else {
        let before = carried_overrides(old_overrides, open_files.drop_last());
        match open_files.last() {
            Some(t) => if old_overrides.contains_key(t.old_id) {
                before.insert(t.new_id, old_overrides[t.old_id])
            } else {
                before
            },
            None => before,
        }
    }
}

/// Carries the overrides of the open files over to a fresh database.
/// `open_files` gives, for each open file, its identities in the old and
/// the fresh database, or `None` where the old database does not know it.
pub fn ensure_exists_in_db(
    old_overrides: &FileOverrides,
    open_files: &Vec<Option<FileTranslation>>,
) -> (r: FileOverrides)
    ensures
        r@ == carried_overrides(old_overrides@, open_files@),
{
    let mut new_overrides = FileOverrides::new();
    let mut i: usize = 0;
    while i < open_files.len()
        invariant
            i <= open_files@.len(),
            new_overrides@ == carried_overrides(old_overrides@, open_files@.subrange(0, i as int)),
        decreases open_files@.len() - i,
    {
        let ghost done = open_files@.subrange(0, i + 1);
        assert(done.drop_last() == open_files@.subrange(0, i as int));
        if let Some(t) = open_files[i] {
            if let Some(content) = old_overrides.get(t.old_id) {
                new_overrides.insert(t.new_id, content.clone());
            }
        }
        i = i + 1;
    }
    assert(open_files@.subrange(0, open_files@.len() as int) == open_files@);
    new_overrides
}

/// Whether a swap is due at `now`: at least `interval` has passed since the
/// last one at `last_replace`, as for the debouncer. A clock that went back counts as no
/// time passed.
pub fn swap_due(last_replace: u64, now: u64, interval: u64) -> (r: bool)
    ensures
        r == (now >= last_replace && now - last_replace >= interval),
{
    now >= last_replace && now - last_replace >= interval
}

} // verus!
