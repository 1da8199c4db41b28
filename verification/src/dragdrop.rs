//! Files dropped onto a fence, and items dragged out of one.
//!
//! The host program talks to the system's drag and drop and to the file
//! system; these functions decide what each dropped file becomes and what
//! a finished drag out means.

use vstd::prelude::*;

use crate::fence::{file_stem_of, opt_chars, path_file_stem, FenceItem, FenceItemView};
use crate::storage::{path_key, path_key_of, under};
use crate::text::{ascii_lower, ends_with, has_suffix, str_eq, to_ascii_lowercase};

verus! {

// ---------------------------------------------------------------------------
// Dropping files on a fence
// ---------------------------------------------------------------------------

/// Where a dropped file ends up.
#[derive(Debug, PartialEq, Eq)]
pub enum DropPlacement {
    /// It came from this fence's own storage: nothing to do.
    SameFence,
    /// The fence already shows it: nothing to do.
    Duplicate,
    /// It came from another fence's storage: move it into this fence's
    /// storage and keep the original path recorded by that fence.
    FromOtherFence { original_path: Option<String> },
    /// It lies on the desktop: move it into this fence's storage and
    /// remember where it came from.
    FromDesktop,
    /// Anything else is shown where it is.
    InPlace,
}

/// Whether resolved path `p` equals one of the resolved paths of the
/// destination fence's items (file names and original paths).
pub open spec fn shown_by(p: Seq<char>, files: Seq<Seq<char>>, originals: Seq<Option<Seq<char>>>) -> bool {
    (exists|k: int| 0 <= k < files.len() && path_key_of(#[trigger] files[k]) == path_key_of(p)) || (
    exists|k: int|
        0 <= k < originals.len() && #[trigger] originals[k] is Some && path_key_of(originals[k]->0)
            == path_key_of(p))
}

/// The views of a run of strings.
pub open spec fn strs(v: Seq<String>) -> Seq<Seq<char>> {
    v.map_values(|s: String| s@)
}

/// The views of a run of optional strings.
pub open spec fn opt_strs(v: Seq<Option<String>>) -> Seq<Option<Seq<char>>> {
    v.map_values(|o: Option<String>| opt_chars(o))
}

/// The views of (file, original) pairs.
pub open spec fn pairs(v: Seq<(String, Option<String>)>) -> Seq<(Seq<char>, Option<Seq<char>>)> {
    v.map_values(|e: (String, Option<String>)| (e.0@, opt_chars(e.1)))
}

/// The original path recorded for the first item (of the other fences,
/// in order) whose resolved file name is `p`; nothing when there is no
/// such item or it records none.
pub open spec fn inherited(p: Seq<char>, others: Seq<(Seq<char>, Option<Seq<char>>)>) -> Option<Seq<char>>
    decreases others.len(),
{
    if others.len() == 0 {
        None
    } else if path_key_of(others[0].0) == path_key_of(p) {
        others[0].1
    } else {
        inherited(p, others.drop_first())
    }
}

/// Where a dropped file goes. All paths are as the file system resolves
/// them: the file `p`, its parent directory, the storage root of all
/// fences and this fence's own storage directory. `files` and
/// `originals` are the destination's items; `others` pairs each item of
/// the other fences (resolved file name) with its recorded original path.
pub open spec fn placement(
    p: Seq<char>,
    parent: Option<Seq<char>>,
    root: Seq<char>,
    own_dir: Seq<char>,
    on_desktop: bool,
    files: Seq<Seq<char>>,
    originals: Seq<Option<Seq<char>>>,
    others: Seq<(Seq<char>, Option<Seq<char>>)>,
) -> (int, Option<Seq<char>>) {
    let in_storage = under(root, p);
    if in_storage && parent is Some && path_key_of(parent->0) == path_key_of(own_dir) {
        (0, None)
    } else if shown_by(p, files, originals) {
        (1, None)
    } else if in_storage {
        (2, inherited(p, others))
    } else if on_desktop {
        (3, None)
    } else {
        (4, None)
    }
}

/// The number [`placement`] uses for each kind of placement, with the
/// carried original path.
pub open spec fn placement_code(d: DropPlacement) -> (int, Option<Seq<char>>) {
    match d {
        DropPlacement::SameFence => (0, None),
        DropPlacement::Duplicate => (1, None),
        DropPlacement::FromOtherFence { original_path } => (2, match original_path {
            Some(o) => Some(o@),
            None => None,
        }),
        DropPlacement::FromDesktop => (3, None),
        DropPlacement::InPlace => (4, None),
    }
}

fn shown_by_items(p: &str, files: &[String], originals: &[Option<String>]) -> (r: bool)
    ensures
        r == shown_by(p@, strs(files@), opt_strs(originals@)),
{
    let key = path_key(p);
    let mut i: usize = 0;
    while i < files.len()
        invariant
            i <= files@.len(),
            key@ == path_key_of(p@),
            forall|k: int| 0 <= k < i ==> path_key_of(#[trigger] files@[k]@) != path_key_of(p@),
        decreases files@.len() - i,
    {
        let k = path_key(files[i].as_str());
        if str_eq(k.as_str(), key.as_str()) {
            assert(strs(files@)[i as int] == files@[i as int]@);
            return true;
        }
        i = i + 1;
    }
    let mut j: usize = 0;
    while j < originals.len()
        invariant
            j <= originals@.len(),
            key@ == path_key_of(p@),
            forall|k: int| 0 <= k < files@.len() ==> path_key_of(#[trigger] files@[k]@) != path_key_of(p@),
            forall|k: int|
                0 <= k < j ==> !(#[trigger] originals@[k] is Some && path_key_of(originals@[k]->0@)
                    == path_key_of(p@)),
        decreases originals@.len() - j,
    {
        match &originals[j] {
            Some(o) => {
                let k = path_key(o.as_str());
                if str_eq(k.as_str(), key.as_str()) {
                    assert(opt_strs(originals@)[j as int] == opt_chars(originals@[j as int]));
                    return true;
                }
            },
            None => {},
        }
        j = j + 1;
    }
    assert forall|k: int| 0 <= k < strs(files@).len() implies path_key_of(
        #[trigger] strs(files@)[k],
    ) != path_key_of(p@) by {
        assert(strs(files@)[k] == files@[k]@);
    }
    assert forall|k: int| 0 <= k < opt_strs(originals@).len() implies !(#[trigger] opt_strs(
        originals@,
    )[k] is Some && path_key_of(opt_strs(originals@)[k]->0) == path_key_of(p@)) by {
        assert(opt_strs(originals@)[k] == opt_chars(originals@[k]));
    }
    false
}

fn inherited_original(p: &str, others: &[(String, Option<String>)]) -> (r: Option<String>)
    ensures
        opt_chars(r) == inherited(p@, pairs(others@)),
{
    let key = path_key(p);
    let mut i: usize = 0;
    let ghost all = pairs(others@);
    assert(all.subrange(0, all.len() as int) =~= all);
    while i < others.len()
        invariant
            i <= others@.len(),
            all == pairs(others@),
            key@ == path_key_of(p@),
            inherited(p@, all.subrange(i as int, all.len() as int)) == inherited(p@, all),
        decreases others@.len() - i,
    {
        let ghost rest = all.subrange(i as int, all.len() as int);
        assert(rest[0] == (others@[i as int].0@, opt_chars(others@[i as int].1)));
        assert(rest.drop_first() =~= all.subrange(i + 1, all.len() as int));
        let k = path_key(others[i].0.as_str());
        if str_eq(k.as_str(), key.as_str()) {
            return match &others[i].1 {
                Some(o) => Some(o.clone()),
                None => None,
            };
        }
        i = i + 1;
    }
    None
}

/// Decide where a dropped file goes (see [`placement`]).
pub fn place_drop(
    p: &str,
    parent: Option<&str>,
    root: &str,
    own_dir: &str,
    on_desktop: bool,
    files: &[String],
    originals: &[Option<String>],
    others: &[(String, Option<String>)],
) -> (r: DropPlacement)
    ensures
        placement_code(r) == placement(
            p@,
            match parent {
                Some(q) => Some(q@),
                None => None,
            },
            root@,
            own_dir@,
            on_desktop,
            strs(files@),
            opt_strs(originals@),
            pairs(others@),
        ),
{
    let in_storage = crate::storage::is_inside_storage(root, p);
    if in_storage {
        match parent {
            Some(q) => {
                if crate::storage::paths_equal(q, own_dir) {
                    return DropPlacement::SameFence;
                }
            },
            None => {},
        }
    }
    if shown_by_items(p, files, originals) {
        return DropPlacement::Duplicate;
    }
    if in_storage {
        DropPlacement::FromOtherFence { original_path: inherited_original(p, others) }
    } else if on_desktop {
        DropPlacement::FromDesktop
    } else {
        DropPlacement::InPlace
    }
}

/// A file the fence took in from the desktop, or shows where it lies, is
/// recognized as already shown when dropped again: what is recorded for
/// it (see [`recorded`]) names it by its file or its original path.
pub proof fn lemma_dropping_again_is_duplicate(
    p: Seq<char>,
    parent: Option<Seq<char>>,
    root: Seq<char>,
    own_dir: Seq<char>,
    on_desktop: bool,
    files: Seq<Seq<char>>,
    originals: Seq<Option<Seq<char>>>,
    others: Seq<(Seq<char>, Option<Seq<char>>)>,
    kept: Seq<char>,
    original: Option<Seq<char>>,
)
    requires
        placement(p, parent, root, own_dir, on_desktop, files, originals, others).0 == 3
            || placement(p, parent, root, own_dir, on_desktop, files, originals, others).0 == 4,
        kept == p || original == Some(p),
    ensures
        placement(p, parent, root, own_dir, on_desktop, files.push(kept), originals.push(original), others).0 == 1,
{
    let f2 = files.push(kept);
    let o2 = originals.push(original);
    if kept == p {
        assert(f2[files.len() as int] == p);
    } else {
        assert(o2[originals.len() as int] == original);
    }
    assert(shown_by(p, f2, o2));
}

/// The file name and original path to record for a dropped file `p`
/// once its placement was carried out; `moved_to` is where the file was
/// moved, or nothing when the move failed (or none was made). A file from
/// another fence that could not be moved is skipped; a desktop file that
/// could not be moved is shown where it is.
pub open spec fn recorded(placement: DropPlacement, p: Seq<char>, moved_to: Option<Seq<char>>) -> Option<(Seq<char>, Option<Seq<char>>)> {
    match placement {
        DropPlacement::SameFence => None,
        DropPlacement::Duplicate => None,
        DropPlacement::FromOtherFence { original_path } => match moved_to {
            Some(m) => Some((m, match original_path {
                Some(o) => Some(o@),
                None => None,
            })),
            None => None,
        },
        DropPlacement::FromDesktop => match moved_to {
            Some(m) => Some((m, Some(p))),
            None => Some((p, None)),
        },
        DropPlacement::InPlace => Some((p, None)),
    }
}

/// What recording a drop does, placement by placement: the fence gains an
/// item for every dropped file except one from its own storage, one it
/// already shows, and one from another fence that could not be moved
/// into it. The item names the dropped file itself, or where it was moved
/// to; a file shown where it lies is added with no original path, and a
/// file moved in from the desktop remembers where it lay.
pub proof fn lemma_drop_recording(placement: DropPlacement, p: Seq<char>, moved_to: Option<Seq<char>>)
    ensures
        recorded(placement, p, moved_to) is None <==> (placement is SameFence
            || placement is Duplicate || (placement is FromOtherFence && moved_to is None)),
        match recorded(placement, p, moved_to) {
            Some((file, _)) => file == p || Some(file) == moved_to,
            None => true,
        },
        placement is InPlace ==> recorded(placement, p, moved_to) == Some((p, None::<Seq<char>>)),
        placement is FromDesktop && moved_to is Some ==> recorded(placement, p, moved_to) == Some(
            (moved_to->0, Some(p)),
        ),
{
}

/// Whether a file name names a shortcut (`.lnk` or `.url`, any case).
pub open spec fn is_shortcut_name(filename: Seq<char>) -> bool {
    ends_with(ascii_lower(filename), ".lnk"@) || ends_with(ascii_lower(filename), ".url"@)
}

/// The item a dropped file becomes: labelled by its file stem, marked as
/// a folder or a shortcut, placed after the `position` items already
/// there.
pub open spec fn new_dropped(filename: Seq<char>, is_dir: bool, original: Option<Seq<char>>, position: int) -> FenceItemView {
    FenceItemView {
        filename,
        display_name: match path_file_stem(filename) {
            Some(s) => s,
            None => Seq::empty(),
        },
        is_folder: is_dir,
        is_link: is_shortcut_name(filename),
        display_order: position as i32,
        arguments: None,
        original_path: original,
    }
}

/// Build the item for a dropped file.
pub fn dropped_item(filename: String, is_dir: bool, original_path: Option<String>, position: usize) -> (r: FenceItem)
    ensures
        r@ == new_dropped(filename@, is_dir, match original_path {
            Some(o) => Some(o@),
            None => None,
        }, position as int),
{
    let lower = to_ascii_lowercase(filename.as_str());
    let is_link = has_suffix(lower.as_str(), ".lnk") || has_suffix(lower.as_str(), ".url");
    let display = match file_stem_of(filename.as_str()) {
        Some(s) => String::from_str(s),
        None => String::new(),
    };
    FenceItem {
        filename,
        display_name: display,
        is_folder: is_dir,
        is_link,
        display_order: position as i32,
        arguments: None,
        original_path,
    }
}

/// Decide what to record for a dropped file after its placement was
/// carried out, and add the item at the end of `items`.
pub fn record_drop(
    items: &mut Vec<FenceItem>,
    placement: DropPlacement,
    p: String,
    moved_to: Option<String>,
    is_dir: bool,
) -> (added: bool)
    ensures
        match recorded(placement, p@, match moved_to {
            Some(m) => Some(m@),
            None => None,
        }) {
            Some((f, o)) => added && final(items)@.len() == old(items)@.len() + 1
                && final(items)@.subrange(0, old(items)@.len() as int) == old(items)@
                && final(items)@.last()@ == new_dropped(f, is_dir, o, old(items)@.len() as int),
            None => !added && final(items)@ == old(items)@,
        },
{
    let rec: Option<(String, Option<String>)> = match placement {
        DropPlacement::SameFence => None,
        DropPlacement::Duplicate => None,
        DropPlacement::FromOtherFence { original_path } => match moved_to {
            Some(m) => Some((m, original_path)),
            None => None,
        },
        DropPlacement::FromDesktop => match moved_to {
            Some(m) => Some((m, Some(p))),
            None => Some((p, None)),
        },
        DropPlacement::InPlace => Some((p, None)),
    };
    match rec {
        Some((f, o)) => {
            let position = items.len();
            let item = dropped_item(f, is_dir, o, position);
            items.push(item);
            assert(items@.subrange(0, position as int) =~= old(items)@);
            true
        },
        None => false,
    }
}

// ---------------------------------------------------------------------------
// Dragging an item out
// ---------------------------------------------------------------------------

/// What the system's drag loop is told after each input change.
#[derive(Debug, Clone, Copy, PartialEq, Eq, Structural)]
pub enum DragDecision {
    /// Escape was pressed: abandon the drag.
    Cancel,
    /// The left button was released: drop here.
    Drop,
    /// Keep dragging.
    Continue,
}

/// The left mouse button bit of a key state.
pub const MK_LBUTTON: u32 = 0x0001;

/// Decide whether a drag goes on: Escape cancels it, releasing the left
/// button drops, anything else continues.
pub fn query_continue_drag(escape_pressed: bool, key_state: u32) -> (r: DragDecision)
    ensures
        r == (if escape_pressed {
            DragDecision::Cancel
        } else if key_state % 2 == 0 {
            DragDecision::Drop
        } else {
            DragDecision::Continue
        }),
{
    if escape_pressed {
        return DragDecision::Cancel;
    }
    assert((key_state & 1u32 == 0u32) == (key_state % 2 == 0)) by (bit_vector);
    if key_state & MK_LBUTTON == 0 {
        DragDecision::Drop
    } else {
        DragDecision::Continue
    }
}

/// What became of an item dragged out of a fence.
#[derive(Debug, Clone, Copy, PartialEq, Eq, Structural)]
pub enum DragOutResult {
    /// The target moved the file away: the item leaves the fence.
    Moved,
    /// The target copied the file: the item stays.
    Copied,
    /// The drag was abandoned or refused.
    Cancelled,
}

/// The copy bit of a drop effect.
pub const DROPEFFECT_COPY: u32 = 1;

/// Judge a finished drag out. `dropped` says the target accepted the drop;
/// `source_exists` whether the file is still where it was (a target may
/// move a file while reporting a copy, so a vanished file means a move);
/// `effect` is the drop effect the target reported.
pub fn drag_out_result(dropped: bool, source_exists: bool, effect: u32) -> (r: DragOutResult)
    ensures
        r == (if !dropped {
            DragOutResult::Cancelled
        } else if !source_exists {
            DragOutResult::Moved
        } else if effect % 2 == 1 {
            DragOutResult::Copied
        } else {
            DragOutResult::Cancelled
        }),
{
    if !dropped {
        return DragOutResult::Cancelled;
    }
    if !source_exists {
        return DragOutResult::Moved;
    }
    assert((effect & 1u32 != 0u32) == (effect % 2 == 1)) by (bit_vector);
    if effect & DROPEFFECT_COPY != 0 {
        DragOutResult::Copied
    } else {
        DragOutResult::Cancelled
    }
}

} // verus!
