//! Where a fence keeps the files dropped on it, how paths are compared,
//! how desktop items are hidden while a fence shows them, and how items
//! are put back.
//!
//! Moving files, reading attributes and resolving paths on disk are done
//! by the host program; it hands the results to these functions.

use vstd::prelude::*;

use crate::fence::{file_stem_of, path_file_stem, FenceItem, FenceItemView};
use crate::text::{
    ascii_lower, concat3, decimal, decimal_string, starts_with, str_eq, strip_prefix,
    to_ascii_lowercase,
};

verus! {

// ---------------------------------------------------------------------------
// Comparing paths
// ---------------------------------------------------------------------------

/// The `\\?\` prefix of extended-length Windows paths.
pub open spec fn verbatim_prefix() -> Seq<char> {
    seq!['\\', '\\', '?', '\\']
}

/// The key two paths are compared by: the resolved path without an
/// extended-length prefix, lower-cased (Windows paths ignore case).
pub open spec fn path_key_of(resolved: Seq<char>) -> Seq<char> {
    ascii_lower(
        if starts_with(resolved, verbatim_prefix()) {
            resolved.subrange(4, resolved.len() as int)
        } else {
            resolved
        },
    )
}

/// The comparison key of a path as the file system resolved it (or as it
/// was written, when it could not be resolved).
pub fn path_key(resolved: &str) -> (r: String)
    ensures
        r@ == path_key_of(resolved@),
{
    proof {
        reveal_strlit("\\\\?\\");
        assert("\\\\?\\"@ =~= verbatim_prefix());
    }
    match strip_prefix(resolved, "\\\\?\\") {
        Some(rest) => to_ascii_lowercase(rest.as_str()),
        None => to_ascii_lowercase(resolved),
    }
}

/// Whether two resolved paths name the same file.
pub fn paths_equal(a: &str, b: &str) -> (r: bool)
    ensures
        r == (path_key_of(a@) == path_key_of(b@)),
{
    let ka = path_key(a);
    let kb = path_key(b);
    str_eq(ka.as_str(), kb.as_str())
}

/// An item shows a desktop entry in place (rather than a file moved into
/// the fence's storage) exactly when it is still at its original path.
pub open spec fn in_place(filename: Seq<char>, original: Option<Seq<char>>) -> bool {
    match original {
        Some(o) => path_key_of(filename) == path_key_of(o),
        None => false,
    }
}

/// Whether an item stands for a desktop entry left where it is, given its
/// resolved file name and resolved original path.
pub fn is_in_place_desktop_item(filename: &str, original: Option<&str>) -> (r: bool)
    ensures
        r == in_place(filename@, match original {
            Some(o) => Some(o@),
            None => None,
        }),
{
    match original {
        Some(o) => paths_equal(filename, o),
        None => false,
    }
}

/// Whether resolved `path` lies somewhere below resolved directory `root`.
pub open spec fn under(root: Seq<char>, path: Seq<char>) -> bool {
    starts_with(path_key_of(path), path_key_of(root).push('\\'))
}

/// Whether `path` lies inside the storage root `root` (both resolved).
pub fn is_inside_storage(root: &str, path: &str) -> (r: bool)
    ensures
        r == under(root@, path@),
{
    let root_key = path_key(root);
    let key = path_key(path);
    let mut prefix = root_key;
    crate::text::push_char(&mut prefix, '\\');
    crate::text::has_prefix(key.as_str(), prefix.as_str())
}

/// A path is never inside a storage root that is the path itself.
pub proof fn lemma_root_not_inside_itself(root: Seq<char>)
    ensures
        !under(root, root),
{
}

// ---------------------------------------------------------------------------
// Storage directories
// ---------------------------------------------------------------------------

/// What `std::path::Path::join` gives for a base directory and a name.
/// Joining follows the compile target's path rules (separator, absolute
/// and prefixed names), so the result is fixed per target.
pub uninterp spec fn path_join(base: Seq<char>, name: Seq<char>) -> Seq<char>;

/// `Path::new(base).join(name)`, as a string. A path made from strings
/// turns back into the same characters.
#[verifier::external_body]
fn join_path(base: &str, name: &str) -> (r: String)
    ensures
        r@ == path_join(base@, name@),
{
    std::path::Path::new(base).join(name).to_string_lossy().into_owned()
}

/// `name` under directory `base`.
pub fn join_under(base: &str, name: &str) -> (r: String)
    ensures
        r@ == path_join(base@, name@),
{
    join_path(base, name)
}

/// The root of the files kept by all fences: `<profile_dir>/items`.
pub fn items_root(profile_dir: &str) -> (r: String)
    ensures
        r@ == path_join(profile_dir@, "items"@),
{
    join_path(profile_dir, "items")
}

/// The directory holding the files of one fence: `<profile_dir>/items/<id>`.
pub fn fence_storage(profile_dir: &str, fence_id: &str) -> (r: String)
    ensures
        r@ == path_join(path_join(profile_dir@, "items"@), fence_id@),
{
    let root = items_root(profile_dir);
    join_path(root.as_str(), fence_id)
}

// ---------------------------------------------------------------------------
// Hiding desktop entries
// ---------------------------------------------------------------------------

/// The hidden and system attribute bits.
pub const FILE_ATTRIBUTE_HIDDEN: u32 = 0x2;
pub const FILE_ATTRIBUTE_SYSTEM: u32 = 0x4;

/// The attributes of an entry the fence hides (or shows again): the hidden
/// and system bits set (or cleared), every other bit kept.
pub fn managed_hidden_attrs(attrs: u32, hidden: bool) -> (r: u32)
    ensures
        r & 6u32 == (if hidden {
            6u32
        } else {
            0u32
        }),
        r & !6u32 == attrs & !6u32,
{
    if hidden {
        let r = attrs | FILE_ATTRIBUTE_HIDDEN | FILE_ATTRIBUTE_SYSTEM;
        assert(r & 6u32 == 6u32 && r & !6u32 == attrs & !6u32) by (bit_vector)
            requires
                r == attrs | 2u32 | 4u32,
        ;
        r
    } else {
        let r = attrs & !FILE_ATTRIBUTE_HIDDEN & !FILE_ATTRIBUTE_SYSTEM;
        assert(r & 6u32 == 0u32 && r & !6u32 == attrs & !6u32) by (bit_vector)
            requires
                r == attrs & !2u32 & !4u32,
        ;
        r
    }
}

/// The attributes to write when hiding or showing an entry, or nothing
/// when they already are as wanted.
pub fn attrs_update(attrs: u32, hidden: bool) -> (r: Option<u32>)
    ensures
        match r {
            Some(n) => n != attrs && n & 6u32 == (if hidden {
                6u32
            } else {
                0u32
            }) && n & !6u32 == attrs & !6u32,
            None => attrs & 6u32 == (if hidden {
                6u32
            } else {
                0u32
            }),
        },
{
    let n = managed_hidden_attrs(attrs, hidden);
    if n == attrs {
        None
    } else {
        Some(n)
    }
}

/// Hiding an entry and showing it again gives back its attributes, when
/// the hidden and system bits were clear to begin with.
pub proof fn lemma_hide_then_show(attrs: u32, hidden_attrs: u32, shown_attrs: u32)
    requires
        attrs & 6u32 == 0u32,
        hidden_attrs & 6u32 == 6u32,
        hidden_attrs & !6u32 == attrs & !6u32,
        shown_attrs & 6u32 == 0u32,
        shown_attrs & !6u32 == hidden_attrs & !6u32,
    ensures
        shown_attrs == attrs,
{
    assert(shown_attrs == attrs) by (bit_vector)
        requires
            attrs & 6u32 == 0u32,
            shown_attrs & 6u32 == 0u32,
            shown_attrs & !6u32 == attrs & !6u32,
    ;
}

/// The shell notification that makes the desktop drop (or show again) an
/// entry whose visibility changed.
#[derive(Debug, Clone, Copy, PartialEq, Eq, Structural)]
pub enum ShellEvent {
    RemovedDirectory,
    Deleted,
    MadeDirectory,
    Created,
}

/// The notification for hiding (or showing) a directory or file.
pub fn visibility_event(hidden: bool, is_dir: bool) -> (r: ShellEvent)
    ensures
        r == (if hidden {
            if is_dir {
                ShellEvent::RemovedDirectory
            } else {
                ShellEvent::Deleted
            }
        } else {
            if is_dir {
                ShellEvent::MadeDirectory
            } else {
                ShellEvent::Created
            }
        }),
{
    match (hidden, is_dir) {
        (true, true) => ShellEvent::RemovedDirectory,
        (true, false) => ShellEvent::Deleted,
        (false, true) => ShellEvent::MadeDirectory,
        (false, false) => ShellEvent::Created,
    }
}

// ---------------------------------------------------------------------------
// Names that do not collide
// ---------------------------------------------------------------------------

/// What `std::path::Path::extension` gives for a path. The final component
/// is found by the compile target's path rules, so the result is fixed per
/// target.
pub uninterp spec fn path_extension(path: Seq<char>) -> Option<Seq<char>>;

/// `Path::new(path).extension()` as a string slice; the extension of a
/// path made from a `str` is valid Unicode.
#[verifier::external_body]
pub(crate) fn extension_of<'a>(path: &'a str) -> (r: Option<&'a str>)
    ensures
        match r {
            Some(s) => path_extension(path@) == Some(s@),
            None => path_extension(path@) is None,
        },
{
    match std::path::Path::new(path).extension() {
        Some(s) => s.to_str(),
        None => None,
    }
}

/// `stem (n).ext`, or `stem (n)` for a name without an extension.
pub open spec fn numbered_name(stem: Seq<char>, n: nat, ext: Option<Seq<char>>) -> Seq<char> {
    stem + " ("@ + decimal(n) + ")"@ + match ext {
        Some(e) => "."@ + e,
        None => Seq::empty(),
    }
}

/// The name tried at `attempt` when moving an entry named `name` into a
/// directory: the name itself first, then numbered variants.
pub open spec fn candidate(name: Seq<char>, attempt: nat) -> Seq<char> {
    if attempt == 0 {
        name
    } else {
        numbered_name(
            match path_file_stem(name) {
                Some(s) => s,
                None => Seq::empty(),
            },
            attempt,
            path_extension(name),
        )
    }
}

/// The candidate name for an entry named `name` at `attempt`.
pub fn candidate_name(name: &str, attempt: u32) -> (r: String)
    ensures
        r@ == candidate(name@, attempt as nat),
{
    if attempt == 0 {
        return String::from_str(name);
    }
    let stem = match file_stem_of(name) {
        Some(s) => s,
        None => "",
    };
    let number = decimal_string(attempt as u64);
    let base = concat3(stem, " (", number.as_str());
    let mut out = concat3(base.as_str(), ")", "");
    match extension_of(name) {
        Some(e) => {
            out.append(".");
            out.append(e);
        },
        None => {},
    }
    proof {
        reveal_strlit("");
        reveal_strlit(".");
        reveal_strlit(" (");
        reveal_strlit(")");
    }
    assert(out@ =~= candidate(name@, attempt as nat));
    out
}

/// How many candidate names are tried before falling back to a stamped
/// name.
pub const NAME_ATTEMPTS: u32 = 1000;

/// The next move in the search for a free name.
#[derive(Debug, Clone, Copy, PartialEq, Eq, Structural)]
pub enum NameSearch {
    /// The candidate just tried is free: use it.
    Use,
    /// It is taken: try the candidate of this attempt next.
    Next(u32),
    /// Every numbered candidate is taken: use the stamped name.
    Fallback,
}

/// After trying the candidate of `attempt`, which is `taken` or free.
pub fn name_search_step(attempt: u32, taken: bool) -> (r: NameSearch)
    requires
        attempt < NAME_ATTEMPTS,
    ensures
        r == (if !taken {
            NameSearch::Use
        } else if attempt + 1 < NAME_ATTEMPTS {
            NameSearch::Next((attempt + 1) as u32)
        } else {
            NameSearch::Fallback
        }),
{
    if !taken {
        NameSearch::Use
    } else if attempt + 1 < NAME_ATTEMPTS {
        NameSearch::Next(attempt + 1)
    } else {
        NameSearch::Fallback
    }
}

/// The last-resort name for an entry named `name`: its stem (empty when it
/// has none), a hyphen and a stamp, then its extension when it has one,
/// so the entry keeps its type.
pub open spec fn stamped_name(name: Seq<char>, stamp: nat) -> Seq<char> {
    let stem = match path_file_stem(name) {
        Some(s) => s,
        None => Seq::empty(),
    };
    stem + "-"@ + decimal(stamp) + match path_extension(name) {
        Some(e) => "."@ + e,
        None => Seq::empty(),
    }
}

/// The stamped name for an entry named `name`.
pub fn stamped_name_of(name: &str, stamp: u64) -> (r: String)
    ensures
        r@ == stamped_name(name@, stamp as nat),
{
    let stem = match file_stem_of(name) {
        Some(s) => s,
        None => "",
    };
    proof {
        reveal_strlit("");
        reveal_strlit("-");
        reveal_strlit(".");
    }
    let number = decimal_string(stamp);
    let mut out = concat3(stem, "-", number.as_str());
    match extension_of(name) {
        Some(e) => {
            out.append(".");
            out.append(e);
        },
        None => {},
    }
    assert(out@ =~= stamped_name(name@, stamp as nat));
    out
}

/// Numbered candidates differ from one another, so trying them in turn
/// never repeats a name.
pub proof fn lemma_candidates_distinct(name: Seq<char>, a: nat, b: nat)
    requires
        1 <= a,
        1 <= b,
        a != b,
    ensures
        candidate(name, a) != candidate(name, b),
{
    let stem = match path_file_stem(name) {
        Some(s) => s,
        None => Seq::<char>::empty(),
    };
    let tail = match path_extension(name) {
        Some(e) => "."@ + e,
        None => Seq::<char>::empty(),
    };
    reveal_strlit(" (");
    reveal_strlit(")");
    crate::text::lemma_decimal_injective(a, b);
    let da = decimal(a);
    let db = decimal(b);
    let ca = stem + " ("@ + da + ")"@ + tail;
    let cb = stem + " ("@ + db + ")"@ + tail;
    if ca == cb {
        let p: int = stem.len() as int + 2;
        crate::text::lemma_decimal_digits(a);
        crate::text::lemma_decimal_digits(b);
        if da.len() < db.len() {
            assert(ca[p + da.len() as int] == ')');
            assert(cb[p + da.len() as int] == db[da.len() as int]);
        } else if db.len() < da.len() {
            assert(cb[p + db.len() as int] == ')');
            assert(ca[p + db.len() as int] == da[db.len() as int]);
        } else {
            assert forall|k: int| 0 <= k < da.len() implies da[k] == db[k] by {
                assert(ca[p + k] == da[k]);
                assert(cb[p + k] == db[k]);
            }
            assert(da =~= db);
        }
    }
}

// ---------------------------------------------------------------------------
// Putting items back
// ---------------------------------------------------------------------------

/// What to do with an item taken out of a fence (or with the items of a
/// deleted fence) so its file is not lost.
#[derive(Debug, PartialEq, Eq)]
pub enum Restore {
    /// A desktop entry shown in place: make it visible on the desktop again.
    Unhide,
    /// A file moved into storage: move it back to this original path.
    MoveBack(String),
    /// A file that was never moved: nothing to do.
    Keep,
}

/// Decide how to put back an item; `in_place` is what
/// [`is_in_place_desktop_item`] said of it.
pub fn restore_plan(in_place: bool, original_path: &Option<String>) -> (r: Restore)
    ensures
        in_place ==> r == Restore::Unhide,
        !in_place ==> match original_path {
            Some(o) => r matches Restore::MoveBack(p) && p@ == o@,
            None => r == Restore::Keep,
        },
{
    if in_place {
        Restore::Unhide
    } else {
        match original_path {
            Some(o) => Restore::MoveBack(o.clone()),
            None => Restore::Keep,
        }
    }
}

/// What starting the program does with an item that older versions moved
/// out of a desktop folder.
#[derive(Debug, Clone, Copy, PartialEq, Eq, Structural)]
pub enum MigrationStep {
    /// Nothing to do.
    Skip,
    /// The item already stands for a desktop folder in place: hide the
    /// folder on the desktop and mark the item as a folder.
    HideInPlace,
    /// Move the folder back to the desktop, hide it there and point the
    /// item at it.
    MoveBack,
}

/// The migration step for an item. `original_on_desktop` says its
/// original path lies directly on the desktop, `in_place` what
/// [`is_in_place_desktop_item`] said, and `is_dir` whether its file is a
/// directory.
pub open spec fn migration(item: FenceItemView, original_on_desktop: bool, in_place: bool, is_dir: bool) -> MigrationStep {
    if item.original_path is None || !original_on_desktop {
        MigrationStep::Skip
    } else if in_place {
        if is_dir {
            MigrationStep::HideInPlace
        } else {
            MigrationStep::Skip
        }
    } else if !is_dir {
        MigrationStep::Skip
    } else {
        MigrationStep::MoveBack
    }
}

/// Decide the migration step for an item.
pub fn migration_step(item: &FenceItem, original_on_desktop: bool, in_place: bool, is_dir: bool) -> (r: MigrationStep)
    ensures
        r == migration(item@, original_on_desktop, in_place, is_dir),
{
    if item.original_path.is_none() || !original_on_desktop {
        MigrationStep::Skip
    } else if in_place {
        if is_dir {
            MigrationStep::HideInPlace
        } else {
            MigrationStep::Skip
        }
    } else if !is_dir {
        MigrationStep::Skip
    } else {
        MigrationStep::MoveBack
    }
}

/// Record a completed migration step in the item; returns whether the
/// stored configuration changed (only a move back changes it). After a
/// move back the item's file is its original path.
pub fn record_migration(item: &mut FenceItem, step: MigrationStep) -> (changed: bool)
    ensures
        changed == (step == MigrationStep::MoveBack && old(item).original_path is Some),
        step == MigrationStep::Skip ==> final(item)@ == old(item)@,
        step == MigrationStep::HideInPlace ==> final(item)@ == (FenceItemView { is_folder: true, ..old(item)@ }),
        step == MigrationStep::MoveBack ==> match old(item)@.original_path {
            Some(o) => final(item)@ == (FenceItemView { filename: o, is_folder: true, ..old(item)@ }),
            None => final(item)@ == old(item)@,
        },
{
    match step {
        MigrationStep::Skip => false,
        MigrationStep::HideInPlace => {
            item.is_folder = true;
            false
        },
        MigrationStep::MoveBack => {
            match &item.original_path {
                Some(o) => {
                    let o2 = o.clone();
                    item.filename = o2;
                    item.is_folder = true;
                    true
                },
                None => false,
            }
        },
    }
}

} // verus!
