//! What a fence window decides: animation pacing, where icons sit while one
//! is dragged, reordering, rolling up, locking, the note editor, the
//! right-click menu and what its commands do, and how an item is launched.
//!
//! The window procedure itself, painting and every system call live in the
//! program that hosts the library; it asks these functions what to do.

use vstd::prelude::*;

use crate::fence::{
    items_view, notes_view, opt_chars, Fence, FenceItem, FenceItemView, FenceView, NoteItem,
    NoteItemView,
};
use crate::customize::{
    build_customize_menu, fence_customize_view, is_customize_menu, CustomizeView, KIND_COUNT,
    KIND_STRIDE,
};
use crate::locales::{keys, t, t_named, translated, Locale};
use crate::menu::{is_item, is_popup_titled, is_separator, popup_entries, MenuEntry};
use crate::shortcut::{ShortcutInfo, ShortcutView};
use crate::text::{
    ascii_lower, concat3, ends_with, has_suffix, to_ascii_lowercase, replace_all,
    join_with, lemma_split_join, split_char, split_on, starts_with, str_eq, strip_prefix,
    trim_end_char, trim_end_matches_char,
};

verus! {

// ---------------------------------------------------------------------------
// Animation pacing
// ---------------------------------------------------------------------------

/// The frame-rate presets offered for animations, in menu order; 0 turns
/// animation off.
pub open spec fn anim_fps_preset_list() -> Seq<i32> {
    seq![0i32, 30, 60, 90, 120, 144, 240]
}

/// The frame-rate presets offered for animations.
pub fn anim_fps_presets() -> (r: &'static [i32])
    ensures
        r@ == anim_fps_preset_list(),
{
    let r: &'static [i32] = &[0, 30, 60, 90, 120, 144, 240];
    assert(r@ =~= anim_fps_preset_list());
    r
}

/// The label of a frame-rate preset under language `code`.
pub open spec fn fps_label_text(code: Seq<char>, fps: i32) -> Seq<char> {
    if fps == 0 {
        translated(code, keys::FPS_OFF@)
    } else if fps == 60 {
        translated(code, keys::FPS_DEFAULT@)
    } else if fps == 30 {
        "30 FPS"@
    } else if fps == 90 {
        "90 FPS"@
    } else if fps == 120 {
        "120 FPS"@
    } else if fps == 144 {
        "144 FPS"@
    } else if fps == 240 {
        "240 FPS"@
    } else {
        "FPS"@
    }
}

/// Localized label for a frame-rate preset.
pub fn fps_label(locale: &Locale, fps: i32) -> (r: &'static str)
    ensures
        r@ == fps_label_text(locale.code(), fps),
{
    match fps {
        0 => t(locale, keys::FPS_OFF),
        60 => t(locale, keys::FPS_DEFAULT),
        30 => "30 FPS",
        90 => "90 FPS",
        120 => "120 FPS",
        144 => "144 FPS",
        240 => "240 FPS",
        _ => "FPS",
    }
}

/// Milliseconds between animation frames at `fps`: the rate is taken
/// within 10..=240 frames per second (so a tiny rate cannot stall the
/// timer and a huge one cannot pin a processor) and the interval is
/// `1000 / fps`; no timer at all when animation is off (`fps <= 0`).
pub open spec fn timer_interval(fps: int) -> Option<u32> {
    if fps <= 0 {
        None
    } else {
        let f: int = if fps < 10 {
            10
        } else if fps > 240 {
            240
        } else {
            fps
        };
        Some((1000int / f) as u32)
    }
}

/// The animation timer interval for a frame rate.
pub fn anim_timer_interval(fps: i32) -> (r: Option<u32>)
    ensures
        r == timer_interval(fps as int),
        r matches Some(ms) ==> 4 <= ms <= 100,
{
    if fps <= 0 {
        return None;
    }
    let f: i32 = if fps < 10 {
        10
    } else if fps > 240 {
        240
    } else {
        fps
    };
    let ms: i32 = 1000 / f;
    assert(4 <= ms <= 100) by (nonlinear_arith)
        requires
            10 <= f <= 240,
            ms == 1000i32 / f,
    {
    }
    Some(ms as u32)
}

// ---------------------------------------------------------------------------
// Dragging an icon to a new place
// ---------------------------------------------------------------------------

/// Where item `i` is drawn while the item at `src` is dragged over the
/// slot `target`: the dragged item takes the target slot and the items
/// between close up behind it. With no target everything stays put.
pub open spec fn slot(i: int, src: int, target: Option<int>) -> int {
    match target {
        None => i,
        Some(t) => if i == src {
            t
        } else if src < t && src < i && i <= t {
            i - 1
        } else if t < src && t <= i && i < src {
            i + 1
        } else {
            i
        },
    }
}

/// The slot item `i` is drawn in while `src` is dragged over `target`.
pub fn slot_of(i: usize, src: usize, target: Option<usize>) -> (r: usize)
    ensures
        r == slot(
            i as int,
            src as int,
            match target {
                Some(t) => Some(t as int),
                None => None,
            },
        ),
{
    match target {
        None => i,
        Some(t) => {
            if i == src {
                t
            } else if src < t && src < i && i <= t {
                i - 1
            } else if t < src && t <= i && i < src {
                i + 1
            } else {
                i
            }
        },
    }
}

/// The sequence with the element at `src` taken out and put back at
/// `dst` (or at the end when `dst` lies past the shortened sequence).
pub open spec fn reordered<T>(s: Seq<T>, src: int, dst: int) -> Seq<T> {
    let rest = s.remove(src);
    let at = if dst < rest.len() {
        dst
    } else {
        rest.len() as int
    };
    rest.insert(at, s[src])
}

/// The drag preview shows the order a drop will leave: with `n` items,
/// dropping the item at `src` on the item at `dst` puts every item `i`
/// exactly where the preview drew it, and the preview slots are a
/// rearrangement of `0..n`.
pub proof fn lemma_preview_matches_drop<T>(s: Seq<T>, src: int, dst: int, i: int, j: int)
    requires
        0 <= src < s.len(),
        0 <= dst < s.len(),
        0 <= i < s.len(),
        0 <= j < s.len(),
    ensures
        0 <= slot(i, src, Some(dst)) < s.len(),
        reordered(s, src, dst).len() == s.len(),
        reordered(s, src, dst)[slot(i, src, Some(dst))] == s[i],
        i != j ==> slot(i, src, Some(dst)) != slot(j, src, Some(dst)),
{
    let rest = s.remove(src);
    s.remove_ensures(src);
    assert(rest.len() == s.len() - 1);
    let r = reordered(s, src, dst);
    assert(r == rest.insert(dst, s[src]));
    rest.insert_ensures(dst, s[src]);
    let t = slot(i, src, Some(dst));
    if i == src {
        assert(t == dst);
        assert(r[t] == s[i]);
    } else if src < dst && src < i && i <= dst {
        assert(t == i - 1 && t < dst);
        assert(r[t] == rest[i - 1]);
        assert(rest[i - 1] == s[i]);
    } else if dst < src && dst <= i && i < src {
        assert(t == i + 1 && t > dst);
        assert(r[t] == rest[i]);
        assert(rest[i] == s[i]);
    } else if i < src {
        assert(t == i && t < dst);
        assert(r[t] == rest[i]);
    } else {
        assert(t == i && i > src && t > dst);
        assert(r[t] == rest[i - 1]);
        assert(rest[i - 1] == s[i]);
    }
}

/// `v` with its display order set to `k`.
pub open spec fn with_order(v: FenceItemView, k: int) -> FenceItemView {
    FenceItemView { display_order: k as i32, ..v }
}

/// Renumber `display_order` to follow the position of each item.
pub open spec fn renumbered(s: Seq<FenceItemView>) -> Seq<FenceItemView> {
    Seq::new(s.len(), |k: int| with_order(s[k], k))
}

/// The items after dropping the one at `src` on the one at `dst`: nothing
/// changes unless the two differ and `src` names an item.
pub open spec fn dropped_at(s: Seq<FenceItemView>, src: int, dst: int) -> Seq<FenceItemView> {
    if dst != src && 0 <= src < s.len() {
        renumbered(reordered(s, src, dst))
    } else {
        s
    }
}

/// Move the item at `src` to the place of the item at `dst` and renumber
/// every item's display order; returns whether anything moved.
pub fn move_item(items: &mut Vec<FenceItem>, src: usize, dst: usize) -> (moved: bool)
    ensures
        moved == (dst != src && src < old(items)@.len()),
        items_view(final(items)@) == dropped_at(items_view(old(items)@), src as int, dst as int),
{
    let ghost before = items_view(items@);
    if dst == src || src >= items.len() {
        return false;
    }
    let item = items.remove(src);
    let at = if dst < items.len() {
        dst
    } else {
        items.len()
    };
    items.insert(at, item);
    let ghost mid = items_view(items@);
    assert(mid =~= reordered(before, src as int, dst as int));
    let n = items.len();
    let mut k: usize = 0;
    while k < n
        invariant
            n == items@.len(),
            n == mid.len(),
            k <= n,
            forall|j: int|
                0 <= j < k ==> #[trigger] items@[j]@ == with_order(mid[j], j),
            forall|j: int| k <= j < n ==> #[trigger] items@[j]@ == mid[j],
        decreases n - k,
    {
        let ghost prior = items@;
        let mut it = items.remove(k);
        it.display_order = k as i32;
        items.insert(k, it);
        assert(items@ =~= prior.update(k as int, it));
        assert(prior[k as int]@ == mid[k as int]);
        assert(items@[k as int]@.display_order == with_order(mid[k as int], k as int).display_order);
        assert(items@[k as int]@ == with_order(mid[k as int], k as int));
        k = k + 1;
    }
    assert(items_view(items@) =~= renumbered(mid));
    true
}

// ---------------------------------------------------------------------------
// The note editor
// ---------------------------------------------------------------------------

/// The marker written before a checked to-do row in the editor.
pub open spec fn checked_marker() -> Seq<char> {
    seq!['[', 'x', ']', ' ']
}

/// The marker also read as "checked".
pub open spec fn checked_marker_upper() -> Seq<char> {
    seq!['[', 'X', ']', ' ']
}

/// The marker read as "not checked".
pub open spec fn unchecked_marker() -> Seq<char> {
    seq!['[', ' ', ']', ' ']
}

/// The editor line for one to-do row.
pub open spec fn editor_line(n: NoteItemView) -> Seq<char> {
    if n.checked {
        checked_marker() + n.text
    } else {
        n.text
    }
}

/// The editor lines for a run of to-do rows.
pub open spec fn editor_lines(notes: Seq<NoteItemView>) -> Seq<Seq<char>> {
    notes.map_values(|n: NoteItemView| editor_line(n))
}

/// The text the note editor opens with for to-do rows: one line per row.
pub open spec fn editor_text(notes: Seq<NoteItemView>) -> Seq<char> {
    join_with(editor_lines(notes), seq!['\n'])
}

/// An edited line without trailing carriage returns, split into an
/// explicit check state (from a leading marker) and the row text.
pub open spec fn parsed_line(raw: Seq<char>) -> (Option<bool>, Seq<char>) {
    let l = trim_end_char(raw, '\r');
    if starts_with(l, checked_marker()) {
        (Some(true), l.subrange(4, l.len() as int))
    } else if starts_with(l, checked_marker_upper()) {
        (Some(true), l.subrange(4, l.len() as int))
    } else if starts_with(l, unchecked_marker()) {
        (Some(false), l.subrange(4, l.len() as int))
    } else {
        (None, l)
    }
}

/// The check state of the last old row with this text; `false` when no
/// old row has it.
pub open spec fn last_checked(old: Seq<NoteItemView>, text: Seq<char>) -> bool
    decreases old.len(),
{
    if old.len() == 0 {
        false
    } else if old.last().text == text {
        old.last().checked
    } else {
        last_checked(old.drop_last(), text)
    }
}

/// The rows read back from edited lines: empty lines are dropped, a
/// marker decides the check state, and an unmarked line keeps the state
/// of an old row with the same text.
pub open spec fn edited_rows(old: Seq<NoteItemView>, lines: Seq<Seq<char>>) -> Seq<NoteItemView>
    decreases lines.len(),
{
    if lines.len() == 0 {
        Seq::empty()
    } else {
        let prev = edited_rows(old, lines.drop_last());
        let (marker, body) = parsed_line(lines.last());
        if body.len() == 0 {
            prev
        } else {
            prev.push(
                NoteItemView {
                    text: body,
                    checked: match marker {
                        Some(b) => b,
                        None => last_checked(old, body),
                    },
                },
            )
        }
    }
}

/// The to-do rows the edited `text` describes.
pub open spec fn edited_notes(old: Seq<NoteItemView>, text: Seq<char>) -> Seq<NoteItemView> {
    edited_rows(old, split_on(text, '\n'))
}

/// Row `i` comes back from a round trip through the editor unchanged:
/// its text is a non-empty single line not ending in a carriage return,
/// and an unchecked row neither starts with a marker nor shares its text
/// with a later checked row.
pub open spec fn row_survives_edit(notes: Seq<NoteItemView>, i: int) -> bool {
    let n = notes[i];
    &&& n.text.len() > 0
    &&& !n.text.contains('\n')
    &&& n.text.last() != '\r'
    &&& !n.checked ==> {
        &&& !starts_with(n.text, checked_marker())
        &&& !starts_with(n.text, checked_marker_upper())
        &&& !starts_with(n.text, unchecked_marker())
        &&& !last_checked(notes, n.text)
    }
}

proof fn lemma_parse_editor_line(notes: Seq<NoteItemView>, i: int)
    requires
        0 <= i < notes.len(),
        row_survives_edit(notes, i),
    ensures
        parsed_line(editor_line(notes[i])).1 == notes[i].text,
        match parsed_line(editor_line(notes[i])).0 {
            Some(b) => b == notes[i].checked,
            None => last_checked(notes, notes[i].text) == notes[i].checked,
        },
{
    let n = notes[i];
    let raw = editor_line(n);
    assert(raw.last() == n.text.last());
    assert(trim_end_char(raw, '\r') == raw);
    if n.checked {
        assert(raw.subrange(0, 4) =~= checked_marker());
        assert(raw.subrange(4, raw.len() as int) =~= n.text);
    }
}

proof fn lemma_edited_prefix(notes: Seq<NoteItemView>, k: int)
    requires
        0 <= k <= notes.len(),
        forall|i: int| 0 <= i < notes.len() ==> row_survives_edit(notes, i),
    ensures
        edited_rows(notes, editor_lines(notes).take(k)) == notes.take(k),
    decreases k,
{
    let lines = editor_lines(notes);
    if k == 0 {
        assert(lines.take(0) =~= Seq::<Seq<char>>::empty());
        assert(notes.take(0) =~= Seq::<NoteItemView>::empty());
    } else {
        lemma_edited_prefix(notes, k - 1);
        lemma_parse_editor_line(notes, k - 1);
        let t = lines.take(k);
        assert(lines.len() == notes.len());
        assert(t.len() == k);
        assert(t.drop_last() =~= lines.take(k - 1));
        assert(t.last() == editor_line(notes[k - 1]));
        let n = notes[k - 1];
        let (marker, body) = parsed_line(t.last());
        assert(body == n.text);
        let row = NoteItemView {
            text: body,
            checked: match marker {
                Some(b) => b,
                None => last_checked(notes, body),
            },
        };
        assert(row == n);
        assert(t.len() > 0);
        assert(row_survives_edit(notes, k - 1));
        assert(n.text.len() > 0);
        assert(parsed_line(t.last()).1.len() > 0);
        assert(parsed_line(t.last()).1 == body);
        assert(parsed_line(t.last()).0 == marker);
        assert(edited_rows(notes, t) == edited_rows(notes, t.drop_last()).push(row));
        assert(notes.take(k - 1).push(n) =~= notes.take(k));
    }
}

/// Opening the note editor on to-do rows and confirming it unchanged
/// gives the same rows back, check states included, for rows that
/// survive the trip (see [`row_survives_edit`]).
pub proof fn lemma_note_edit_round_trip(notes: Seq<NoteItemView>)
    requires
        forall|i: int| 0 <= i < notes.len() ==> row_survives_edit(notes, i),
    ensures
        edited_notes(notes, editor_text(notes)) == notes,
{
    let lines = editor_lines(notes);
    if notes.len() == 0 {
        assert(editor_text(notes) =~= Seq::<char>::empty());
        let one = split_on(Seq::<char>::empty(), '\n');
        assert(one.drop_last() =~= Seq::<Seq<char>>::empty());
        assert(one.len() == 1);
        assert(one.last() =~= Seq::<char>::empty());
        assert(trim_end_char(one.last(), '\r') =~= Seq::<char>::empty());
        assert(parsed_line(one.last()).1.len() == 0);
        assert(edited_rows(notes, one.drop_last()) =~= Seq::<NoteItemView>::empty());
        assert(edited_rows(notes, one) =~= Seq::<NoteItemView>::empty());
        assert(notes =~= Seq::<NoteItemView>::empty());
    } else {
        assert forall|k: int| 0 <= k < lines.len() implies !(#[trigger] lines[k]).contains('\n') by {
            let n = notes[k];
            assert(row_survives_edit(notes, k));
            if lines[k].contains('\n') {
                let j = choose|j: int| 0 <= j < lines[k].len() && lines[k][j] == '\n';
                if n.checked {
                    if j >= 4 {
                        assert(n.text[j - 4] == '\n');
                    }
                } else {
                    assert(n.text[j] == '\n');
                }
            }
        }
        lemma_split_join(lines, '\n');
        assert(split_on(editor_text(notes), '\n') == lines);
        lemma_edited_prefix(notes, notes.len() as int);
        assert(lines.len() == notes.len());
        assert(lines.take(lines.len() as int) =~= lines);
        assert(notes.take(notes.len() as int) =~= notes);
        assert(edited_rows(notes, lines) == notes);
    }
}

/// The editor text for to-do rows.
pub fn note_editor_text(notes: &[NoteItem]) -> (r: String)
    ensures
        r@ == editor_text(notes_view(notes@)),
{
    let ghost lines = editor_lines(notes_view(notes@));
    let mut out = String::new();
    let mut i: usize = 0;
    proof {
        assert(lines.take(0) =~= Seq::<Seq<char>>::empty());
    }
    while i < notes.len()
        invariant
            i <= notes@.len(),
            lines == editor_lines(notes_view(notes@)),
            lines.len() == notes@.len(),
            out@ == join_with(lines.take(i as int), seq!['\n']),
        decreases notes@.len() - i,
    {
        let n = &notes[i];
        proof {
            let t = lines.take(i + 1);
            assert(t.drop_last() =~= lines.take(i as int));
            assert(t.last() == lines[i as int]);
            assert(lines[i as int] == editor_line(notes[i as int]@));
        }
        if i > 0 {
            out.append("\n");
            proof {
                reveal_strlit("\n");
            }
        }
        if n.checked {
            out.append("[x] ");
            proof {
                reveal_strlit("[x] ");
            }
        }
        out.append(n.text.as_str());
        i = i + 1;
        proof {
            if i == 1 {
                assert(out@ =~= lines.take(1)[0]);
            } else {
                assert(out@ =~= join_with(lines.take(i - 1), seq!['\n']) + seq!['\n'] + lines[i
                    - 1]);
            }
        }
    }
    assert(lines.take(notes@.len() as int) =~= lines);
    out
}

/// Split an edited line into its explicit check state and its text.
pub fn parse_note_line(raw: &str) -> (r: (Option<bool>, String))
    ensures
        (r.0, r.1@) == parsed_line(raw@),
{
    proof {
        reveal_strlit("[x] ");
        reveal_strlit("[X] ");
        reveal_strlit("[ ] ");
        assert("[x] "@ =~= checked_marker());
        assert("[X] "@ =~= checked_marker_upper());
        assert("[ ] "@ =~= unchecked_marker());
    }
    let l = trim_end_matches_char(raw, '\r');
    if let Some(rest) = strip_prefix(l.as_str(), "[x] ") {
        (Some(true), rest)
    } else if let Some(rest) = strip_prefix(l.as_str(), "[X] ") {
        (Some(true), rest)
    } else if let Some(rest) = strip_prefix(l.as_str(), "[ ] ") {
        (Some(false), rest)
    } else {
        (None, l)
    }
}

/// The check state of the last old row whose text is `text`.
fn last_checked_in(old: &[NoteItem], text: &str) -> (r: bool)
    ensures
        r == last_checked(notes_view(old@), text@),
{
    let ghost all = notes_view(old@);
    let mut i: usize = old.len();
    assert(all.take(old@.len() as int) =~= all);
    while i > 0
        invariant
            i <= old@.len(),
            all == notes_view(old@),
            last_checked(all.take(i as int), text@) == last_checked(all, text@),
        decreases i,
    {
        let ghost pre = all.take(i as int);
        assert(pre.drop_last() =~= all.take(i - 1));
        assert(pre.last() == old@[i - 1]@);
        if str_eq(old[i - 1].text.as_str(), text) {
            return old[i - 1].checked;
        }
        i = i - 1;
    }
    assert(all.take(0) =~= Seq::<NoteItemView>::empty());
    false
}

/// The to-do rows read back from the edited text.
pub fn edited_note_items(old: &[NoteItem], text: &str) -> (r: Vec<NoteItem>)
    ensures
        notes_view(r@) == edited_notes(notes_view(old@), text@),
{
    let lines = split_char(text, '\n');
    let ghost ls = split_on(text@, '\n');
    let ghost o = notes_view(old@);
    let mut out: Vec<NoteItem> = Vec::new();
    let mut i: usize = 0;
    assert(ls.take(0) =~= Seq::<Seq<char>>::empty());
    while i < lines.len()
        invariant
            i <= lines@.len(),
            lines@.len() == ls.len(),
            o == notes_view(old@),
            forall|k: int| 0 <= k < lines@.len() ==> #[trigger] lines@[k]@ == ls[k],
            notes_view(out@) == edited_rows(o, ls.take(i as int)),
        decreases lines@.len() - i,
    {
        proof {
            let t = ls.take(i + 1);
            assert(t.drop_last() =~= ls.take(i as int));
            assert(t.last() == lines@[i as int]@);
        }
        let (marker, body) = parse_note_line(lines[i].as_str());
        if body.as_str().is_empty() {
        } else {
            let checked = match marker {
                Some(b) => b,
                None => last_checked_in(old, body.as_str()),
            };
            let ghost before = notes_view(out@);
            out.push(NoteItem { text: body, checked });
            assert(notes_view(out@) =~= before.push(out@[out@.len() - 1]@));
        }
        i = i + 1;
    }
    assert(ls.take(ls.len() as int) =~= ls);
    out
}

/// A fence after the note editor returned `text`: to-do fences take the
/// rows read from it, text notes take the text itself (nothing when empty).
pub open spec fn note_edited(f: FenceView, text: Seq<char>) -> FenceView {
    if f.note_mode == "todo"@ {
        FenceView { note_items: edited_notes(f.note_items, text), ..f }
    } else {
        FenceView {
            note_content: if text.len() == 0 {
                None
            } else {
                Some(text)
            },
            ..f
        }
    }
}

/// Store what the note editor returned.
pub fn apply_note_edit(fence: &mut Fence, text: String)
    ensures
        final(fence)@ == note_edited(old(fence)@, text@),
{
    if str_eq(fence.note_mode.as_str(), "todo") {
        let rows = edited_note_items(fence.note_items.as_slice(), text.as_str());
        fence.note_items = rows;
    } else {
        if text.as_str().is_empty() {
            fence.note_content = None;
        } else {
            fence.note_content = Some(text);
        }
    }
}

/// The editor text for a note fence: the rows of a to-do fence, the
/// stored text of a text note.
pub open spec fn note_editor_initial(f: FenceView) -> Seq<char> {
    if f.note_mode == "todo"@ {
        editor_text(f.note_items)
    } else {
        match f.note_content {
            Some(c) => c,
            None => Seq::empty(),
        }
    }
}

/// What the note editor opens with for this fence.
pub fn note_editor_initial_text(fence: &Fence) -> (r: String)
    ensures
        r@ == note_editor_initial(fence@),
{
    if str_eq(fence.note_mode.as_str(), "todo") {
        note_editor_text(fence.note_items.as_slice())
    } else {
        match &fence.note_content {
            Some(c) => c.clone(),
            None => String::new(),
        }
    }
}

// ---------------------------------------------------------------------------
// Note mode, lock and roll
// ---------------------------------------------------------------------------

/// The other note mode: `"todo"` becomes `"text"`, anything else `"todo"`.
pub open spec fn other_note_mode(mode: Seq<char>) -> Seq<char> {
    if mode == "todo"@ {
        "text"@
    } else {
        "todo"@
    }
}

/// Switch a note fence between a plain text note and a to-do list. The
/// text and the rows are both kept, so switching back restores the note.
pub fn toggle_note_mode(fence: &mut Fence)
    ensures
        final(fence)@ == (FenceView { note_mode: other_note_mode(old(fence)@.note_mode), ..old(fence)@ }),
{
    if str_eq(fence.note_mode.as_str(), "todo") {
        fence.note_mode = String::from_str("text");
    } else {
        fence.note_mode = String::from_str("todo");
    }
    proof {
        reveal_strlit("text");
        reveal_strlit("todo");
    }
}

/// Switching the note mode twice gives back the fence as it was, whichever
/// of the two modes it was in.
pub proof fn lemma_note_mode_toggle_twice(f: FenceView)
    requires
        f.note_mode == "todo"@ || f.note_mode == "text"@,
    ensures
        (FenceView {
            note_mode: other_note_mode(other_note_mode(f.note_mode)),
            ..f
        }) == f,
{
    reveal_strlit("text");
    reveal_strlit("todo");
    assert("todo"@ != "text"@) by {
        assert("todo"@[1] != "text"@[1]);
    }
}

/// `"true"` becomes `"false"`, anything else `"true"`.
pub open spec fn flipped(flag: Seq<char>) -> Seq<char> {
    if flag == "true"@ {
        "false"@
    } else {
        "true"@
    }
}

/// Lock or unlock a fence.
pub fn toggle_lock(fence: &mut Fence)
    ensures
        final(fence)@ == (FenceView { is_locked: flipped(old(fence)@.is_locked), ..old(fence)@ }),
{
    if str_eq(fence.is_locked.as_str(), "true") {
        fence.is_locked = String::from_str("false");
    } else {
        fence.is_locked = String::from_str("true");
    }
    proof {
        reveal_strlit("true");
        reveal_strlit("false");
    }
}

/// Locking twice gives back the fence as it was.
pub proof fn lemma_lock_toggle_twice(f: FenceView)
    requires
        f.is_locked == "true"@ || f.is_locked == "false"@,
    ensures
        (FenceView { is_locked: flipped(flipped(f.is_locked)), ..f }) == f,
{
    reveal_strlit("true");
    reveal_strlit("false");
    assert("true"@ != "false"@) by {
        assert("true"@.len() != "false"@.len());
    }
}

/// How a roll toggle proceeds.
#[derive(Debug, Clone, Copy, PartialEq, Eq)]
pub struct RollPlan {
    /// Whether the fence ends up rolled up.
    pub target_rolled: bool,
    /// Whether the current height is remembered as the height to unroll to.
    pub remember_height: bool,
    /// Frame interval of the animation; `None` resizes at once.
    pub interval: Option<u32>,
}

/// Whether a roll toggle leaves the fence rolled up: it reverses whatever
/// the running animation is heading for, or the settled state when
/// nothing runs.
pub open spec fn roll_target(rolled: bool, animating_to: Option<bool>) -> bool {
    !(match animating_to {
        Some(t) => t,
        None => rolled,
    })
}

/// Whether a roll toggle remembers the current height as the height to
/// unroll to: only when a settled, unrolled fence starts rolling up.
pub open spec fn roll_remembers_height(rolled: bool, animating_to: Option<bool>) -> bool {
    roll_target(rolled, animating_to) && !rolled
}

/// What a roll toggle does. `rolled` is the settled state, which an
/// animation only changes when it ends; reversing mid-animation therefore
/// never records a partial height.
pub fn plan_roll(rolled: bool, animating_to: Option<bool>, anim_fps: i32) -> (p: RollPlan)
    ensures
        p.target_rolled == roll_target(rolled, animating_to),
        p.remember_height == roll_remembers_height(rolled, animating_to),
        p.interval == timer_interval(anim_fps as int),
{
    let heading = match animating_to {
        Some(t) => t,
        None => rolled,
    };
    let target_rolled = !heading;
    RollPlan {
        target_rolled,
        remember_height: target_rolled && !rolled,
        interval: anim_timer_interval(anim_fps),
    }
}

/// Two roll toggles bring a fence back to the state it was in, whether
/// the first animation finished in between or the second toggle reversed
/// it midway; a reversal midway never records a height.
pub proof fn lemma_roll_twice(rolled: bool)
    ensures
        roll_target(roll_target(rolled, None), None) == rolled,
        roll_target(rolled, Some(roll_target(rolled, None))) == rolled,
        !roll_remembers_height(rolled, Some(roll_target(rolled, None))),
{
}

// ---------------------------------------------------------------------------
// The right-click menu
// ---------------------------------------------------------------------------

/// Command identifiers of the fence menu.
pub const ID_FENCE_ROLL: usize = 2001;
pub const ID_FENCE_RENAME: usize = 2002;
pub const ID_FENCE_DELETE: usize = 2003;
pub const ID_FENCE_LOCK_TOGGLE: usize = 2004;
pub const ID_FENCE_BLUR_RADIUS: usize = 2005;
pub const ID_ITEM_OPEN: usize = 2010;
pub const ID_ITEM_REMOVE: usize = 2011;
pub const ID_ITEM_OPEN_LOCATION: usize = 2012;
pub const ID_NOTE_EDIT: usize = 2020;
pub const ID_NOTE_MODE_TOGGLE: usize = 2021;
/// Base of the identifiers of the Customize submenu.
pub const ID_CUSTOMIZE_BASE: usize = 3000;

/// The item a right-click concerns: note fences have no items.
pub open spec fn menu_target(f: FenceView, hit: Option<usize>) -> Option<usize> {
    if f.items_type == "Note"@ {
        None
    } else {
        hit
    }
}

/// The item a right-click at a point over item `hit` concerns.
pub fn context_target(fence: &Fence, hit: Option<usize>) -> (r: Option<usize>)
    ensures
        r == menu_target(fence@, hit),
{
    if str_eq(fence.items_type.as_str(), "Note") {
        None
    } else {
        hit
    }
}

/// The right-click menu of fence `f` under language `code`: the item
/// commands over an item; otherwise (for notes, first the editor and the
/// mode switch) roll, rename, lock, Customize and delete.
pub open spec fn is_fence_menu(
    code: Seq<char>,
    f: FenceView,
    target: Option<usize>,
    bg_opacity_choice: Option<usize>,
    m: Seq<MenuEntry>,
) -> bool {
    if target is Some {
        &&& m.len() == 4
        &&& is_item(m[0], ID_ITEM_OPEN as int, translated(code, keys::FENCE_OPEN@), false)
        &&& is_item(m[1], ID_ITEM_OPEN_LOCATION as int, translated(code, keys::FENCE_OPEN_LOCATION@), false)
        &&& is_separator(m[2])
        &&& is_item(m[3], ID_ITEM_REMOVE as int, translated(code, keys::FENCE_REMOVE@), false)
    } else {
        let k: int = if f.items_type == "Note"@ { 3 } else { 0 };
        &&& m.len() == k + 6
        &&& (f.items_type == "Note"@ ==> {
            &&& is_item(m[0], ID_NOTE_EDIT as int, translated(code, keys::NOTE_EDIT@), false)
            &&& is_item(m[1], ID_NOTE_MODE_TOGGLE as int, translated(code, if f.note_mode == "todo"@ {
                keys::NOTE_SWITCH_TO_TEXT@
            } else {
                keys::NOTE_SWITCH_TO_TODO@
            }), false)
            &&& is_separator(m[2])
        })
        &&& is_item(m[k], ID_FENCE_ROLL as int, translated(code, if f.is_rolled == "true"@ {
            keys::FENCE_UNROLL@
        } else {
            keys::FENCE_ROLL_UP@
        }), false)
        &&& is_item(m[k + 1], ID_FENCE_RENAME as int, translated(code, keys::FENCE_RENAME@), false)
        &&& is_item(m[k + 2], ID_FENCE_LOCK_TOGGLE as int, translated(code, if f.is_locked == "true"@ {
            keys::FENCE_UNLOCK@
        } else {
            keys::FENCE_LOCK@
        }), false)
        &&& is_popup_titled(m[k + 3], translated(code, keys::FENCE_CUSTOMIZE@))
        &&& is_customize_menu(code, fence_customize_view(f, bg_opacity_choice), ID_CUSTOMIZE_BASE as int, ID_FENCE_BLUR_RADIUS as int, popup_entries(m[k + 3]))
        &&& is_separator(m[k + 4])
        &&& is_item(m[k + 5], ID_FENCE_DELETE as int, translated(code, keys::FENCE_DELETE@), false)
    }
}

fn command(locale: &Locale, id: usize, key: &'static str) -> (e: MenuEntry)
    ensures
        is_item(e, id as int, translated(locale.code(), key@), false),
{
    MenuEntry::Item { id, label: String::from_str(t(locale, key)), checked: false }
}

/// Build the right-click menu of a fence. `target` is the item under the
/// pointer (see [`context_target`]); `bg_opacity_choice` is the opacity
/// preset matching the fence's opacity, if one does.
pub fn fence_context_menu(
    locale: &Locale,
    fence: &Fence,
    target: Option<usize>,
    bg_opacity_choice: Option<usize>,
) -> (m: Vec<MenuEntry>)
    ensures
        is_fence_menu(locale.code(), fence@, target, bg_opacity_choice, m@),
{
    let mut m: Vec<MenuEntry> = Vec::new();
    if target.is_some() {
        m.push(command(locale, ID_ITEM_OPEN, keys::FENCE_OPEN));
        m.push(command(locale, ID_ITEM_OPEN_LOCATION, keys::FENCE_OPEN_LOCATION));
        m.push(MenuEntry::Separator);
        m.push(command(locale, ID_ITEM_REMOVE, keys::FENCE_REMOVE));
        return m;
    }
    if str_eq(fence.items_type.as_str(), "Note") {
        m.push(command(locale, ID_NOTE_EDIT, keys::NOTE_EDIT));
        let mode_key = if str_eq(fence.note_mode.as_str(), "todo") {
            keys::NOTE_SWITCH_TO_TEXT
        } else {
            keys::NOTE_SWITCH_TO_TODO
        };
        m.push(command(locale, ID_NOTE_MODE_TOGGLE, mode_key));
        m.push(MenuEntry::Separator);
    }
    let roll_key = if str_eq(fence.is_rolled.as_str(), "true") {
        keys::FENCE_UNROLL
    } else {
        keys::FENCE_ROLL_UP
    };
    m.push(command(locale, ID_FENCE_ROLL, roll_key));
    m.push(command(locale, ID_FENCE_RENAME, keys::FENCE_RENAME));
    let lock_key = if str_eq(fence.is_locked.as_str(), "true") {
        keys::FENCE_UNLOCK
    } else {
        keys::FENCE_LOCK
    };
    m.push(command(locale, ID_FENCE_LOCK_TOGGLE, lock_key));
    let view = CustomizeView::from_fence(fence, bg_opacity_choice);
    let entries = build_customize_menu(locale, &view, ID_CUSTOMIZE_BASE, ID_FENCE_BLUR_RADIUS);
    m.push(MenuEntry::Popup { label: String::from_str(t(locale, keys::FENCE_CUSTOMIZE)), entries });
    m.push(MenuEntry::Separator);
    m.push(command(locale, ID_FENCE_DELETE, keys::FENCE_DELETE));
    m
}

/// What a command chosen from the fence menu asks for.
#[derive(Debug, Clone, Copy, PartialEq, Eq)]
pub enum FenceCommand {
    OpenItem(usize),
    OpenItemLocation(usize),
    RemoveItem(usize),
    ToggleRoll,
    Rename,
    ToggleLock,
    Delete,
    PromptBlurRadius,
    EditNote,
    ToggleNoteMode,
    /// A Customize choice, given as its code relative to the submenu base.
    Customize(usize),
    /// The menu was dismissed, or the command needs an item and none was
    /// under the pointer.
    Nothing,
}

/// The command identifier `id` stands for; `target` is the item the
/// menu was opened on.
pub open spec fn fence_command(id: int, target: Option<usize>) -> FenceCommand {
    if id == ID_ITEM_OPEN {
        match target { Some(i) => FenceCommand::OpenItem(i), None => FenceCommand::Nothing }
    } else if id == ID_ITEM_OPEN_LOCATION {
        match target { Some(i) => FenceCommand::OpenItemLocation(i), None => FenceCommand::Nothing }
    } else if id == ID_ITEM_REMOVE {
        match target { Some(i) => FenceCommand::RemoveItem(i), None => FenceCommand::Nothing }
    } else if id == ID_FENCE_ROLL {
        FenceCommand::ToggleRoll
    } else if id == ID_FENCE_RENAME {
        FenceCommand::Rename
    } else if id == ID_FENCE_LOCK_TOGGLE {
        FenceCommand::ToggleLock
    } else if id == ID_FENCE_DELETE {
        FenceCommand::Delete
    } else if id == ID_FENCE_BLUR_RADIUS {
        FenceCommand::PromptBlurRadius
    } else if id == ID_NOTE_EDIT {
        FenceCommand::EditNote
    } else if id == ID_NOTE_MODE_TOGGLE {
        FenceCommand::ToggleNoteMode
    } else if ID_CUSTOMIZE_BASE <= id < ID_CUSTOMIZE_BASE + KIND_COUNT * KIND_STRIDE {
        FenceCommand::Customize((id - ID_CUSTOMIZE_BASE) as usize)
    } else {
        FenceCommand::Nothing
    }
}

/// Decode the identifier returned by the fence menu.
pub fn decode_fence_command(id: usize, target: Option<usize>) -> (c: FenceCommand)
    ensures
        c == fence_command(id as int, target),
{
    if id == ID_ITEM_OPEN {
        match target { Some(i) => FenceCommand::OpenItem(i), None => FenceCommand::Nothing }
    } else if id == ID_ITEM_OPEN_LOCATION {
        match target { Some(i) => FenceCommand::OpenItemLocation(i), None => FenceCommand::Nothing }
    } else if id == ID_ITEM_REMOVE {
        match target { Some(i) => FenceCommand::RemoveItem(i), None => FenceCommand::Nothing }
    } else if id == ID_FENCE_ROLL {
        FenceCommand::ToggleRoll
    } else if id == ID_FENCE_RENAME {
        FenceCommand::Rename
    } else if id == ID_FENCE_LOCK_TOGGLE {
        FenceCommand::ToggleLock
    } else if id == ID_FENCE_DELETE {
        FenceCommand::Delete
    } else if id == ID_FENCE_BLUR_RADIUS {
        FenceCommand::PromptBlurRadius
    } else if id == ID_NOTE_EDIT {
        FenceCommand::EditNote
    } else if id == ID_NOTE_MODE_TOGGLE {
        FenceCommand::ToggleNoteMode
    } else if ID_CUSTOMIZE_BASE <= id && id < ID_CUSTOMIZE_BASE + KIND_COUNT * KIND_STRIDE {
        FenceCommand::Customize(id - ID_CUSTOMIZE_BASE)
    } else {
        FenceCommand::Nothing
    }
}

/// The heading of the delete confirmation: the fence's title when it has
/// one.
pub open spec fn delete_heading(code: Seq<char>, title: Seq<char>) -> Seq<char> {
    if title.len() == 0 {
        translated(code, keys::DELETE_TITLE@)
    } else {
        replace_all(translated(code, keys::DELETE_TITLE_NAMED@), "{}"@, title)
    }
}

/// The heading shown when asking whether to delete a fence titled `title`.
pub fn delete_instruction(locale: &Locale, title: &str) -> (r: String)
    ensures
        r@ == delete_heading(locale.code(), title@),
{
    if title.is_empty() {
        String::from_str(t(locale, keys::DELETE_TITLE))
    } else {
        t_named(locale, keys::DELETE_TITLE_NAMED, title)
    }
}

/// Flip the check box of to-do row `idx`; other rows and fields stay.
pub fn toggle_note_row(fence: &mut Fence, idx: usize)
    requires
        idx < old(fence).note_items@.len(),
    ensures
        final(fence)@ == (FenceView {
            note_items: old(fence)@.note_items.update(
                idx as int,
                NoteItemView {
                    checked: !old(fence)@.note_items[idx as int].checked,
                    ..old(fence)@.note_items[idx as int]
                },
            ),
            ..old(fence)@
        }),
{
    let mut row = fence.note_items.remove(idx);
    row.checked = !row.checked;
    fence.note_items.insert(idx, row);
    proof {
        assert(notes_view(fence.note_items@) =~= notes_view(old(fence).note_items@).update(
            idx as int,
            NoteItemView {
                checked: !old(fence)@.note_items[idx as int].checked,
                ..old(fence)@.note_items[idx as int]
            },
        ));
    }
}

// ---------------------------------------------------------------------------
// Pointer gestures on the icons
// ---------------------------------------------------------------------------

/// The state of the left button over a fence.
#[derive(Debug, Clone, Copy, PartialEq, Eq)]
pub enum Press {
    /// Nothing pressed.
    Idle,
    /// Pressed on item `idx` at client pixel (`x`, `y`); not yet a drag.
    Pending { idx: usize, x: i32, y: i32 },
    /// Item `src` is being dragged to a new place.
    Dragging { src: usize },
}

/// What a press of the left button does.
#[derive(Debug, Clone, Copy, PartialEq, Eq)]
pub enum PressOutcome {
    /// Ctrl+click on the title: rename the fence.
    Rename,
    /// A click on the check box of to-do row `idx`.
    ToggleRow(usize),
    /// The button went down on an item: wait to see whether it is a
    /// click or a drag.
    Pressed(Press),
    /// Nothing to do.
    Nothing,
}

/// The item under the pointer, given the item the icon grid places
/// there; a rolled-up fence shows no items.
pub open spec fn visible_hit(f: FenceView, grid: Option<usize>) -> Option<usize> {
    if f.is_rolled == "true"@ {
        None
    } else {
        grid
    }
}

/// The item under the pointer on this fence.
pub fn icon_hit(fence: &Fence, grid: Option<usize>) -> (r: Option<usize>)
    ensures
        r == visible_hit(fence@, grid),
{
    if str_eq(fence.is_rolled.as_str(), "true") {
        None
    } else {
        grid
    }
}

/// Whether check boxes take clicks: an unrolled to-do note.
pub open spec fn todo_clickable(f: FenceView) -> bool {
    f.items_type == "Note"@ && f.note_mode == "todo"@ && f.is_rolled != "true"@
}

/// What pressing the left button at client row `y` does. `checkbox` is
/// the to-do row whose check box lies under the pointer and `item` the
/// item under it (see [`icon_hit`]).
pub open spec fn press_outcome_of(
    f: FenceView,
    ctrl: bool,
    x: i32,
    y: i32,
    title_h: i32,
    checkbox: Option<usize>,
    item: Option<usize>,
) -> PressOutcome {
    if ctrl && y < title_h {
        PressOutcome::Rename
    } else if todo_clickable(f) && checkbox is Some && checkbox->0 < f.note_items.len() {
        PressOutcome::ToggleRow(checkbox->0)
    } else if let Some(i) = item {
        PressOutcome::Pressed(Press::Pending { idx: i, x, y })
    } else {
        PressOutcome::Nothing
    }
}

/// Decide what a press of the left button does.
pub fn press_outcome(
    fence: &Fence,
    ctrl: bool,
    x: i32,
    y: i32,
    title_h: i32,
    checkbox: Option<usize>,
    item: Option<usize>,
) -> (r: PressOutcome)
    ensures
        r == press_outcome_of(fence@, ctrl, x, y, title_h, checkbox, item),
{
    if ctrl && y < title_h {
        return PressOutcome::Rename;
    }
    let clickable = str_eq(fence.items_type.as_str(), "Note") && str_eq(
        fence.note_mode.as_str(),
        "todo",
    ) && !str_eq(fence.is_rolled.as_str(), "true");
    if clickable {
        if let Some(r) = checkbox {
            if r < fence.note_items.len() {
                return PressOutcome::ToggleRow(r);
            }
        }
    }
    match item {
        Some(i) => PressOutcome::Pressed(Press::Pending { idx: i, x, y }),
        None => PressOutcome::Nothing,
    }
}

/// What moving the pointer does.
#[derive(Debug, Clone, Copy, PartialEq, Eq)]
pub enum MoveAction {
    Nothing,
    /// The pointer moved far enough: item `src` starts being dragged,
    /// hovering over `target`.
    StartDrag { src: usize, target: Option<usize> },
    /// The drag now hovers over `target`.
    Retarget(Option<usize>),
    /// The pointer left the fence: hand item `src` to the system's
    /// drag and drop so it can be dropped elsewhere.
    HandOff(usize),
}

/// How far the pointer moved along one axis.
pub open spec fn distance(a: i32, b: i32) -> int {
    if a >= b {
        a - b
    } else {
        b - a
    }
}

/// What moving the pointer to client pixel (`x`, `y`) does. `outside`
/// says the pointer left the fence; `keep_on_desktop` that the dragged
/// item stands for a desktop folder and the pointer is over the desktop,
/// where it is dropped back rather than handed off; `hit` is the item
/// under the pointer; `thr_x`, `thr_y` the system's drag distances.
pub open spec fn motion(
    press: Press,
    x: i32,
    y: i32,
    outside: bool,
    keep_on_desktop: bool,
    hit: Option<usize>,
    thr_x: i32,
    thr_y: i32,
) -> MoveAction {
    match press {
        Press::Idle => MoveAction::Nothing,
        Press::Dragging { src } => if outside {
            if keep_on_desktop {
                MoveAction::Retarget(None)
            } else {
                MoveAction::HandOff(src)
            }
        } else {
            MoveAction::Retarget(hit)
        },
        Press::Pending { idx, x: sx, y: sy } => {
            let tx: int = if thr_x < 1 { 1 } else { thr_x as int };
            let ty: int = if thr_y < 1 { 1 } else { thr_y as int };
            if distance(x, sx) >= tx || distance(y, sy) >= ty {
                MoveAction::StartDrag { src: idx, target: hit }
            } else {
                MoveAction::Nothing
            }
        },
    }
}

fn axis_distance(a: i32, b: i32) -> (r: i64)
    ensures
        r == distance(a, b),
{
    if a >= b {
        a as i64 - b as i64
    } else {
        b as i64 - a as i64
    }
}

/// Decide what moving the pointer does.
pub fn move_action(
    press: Press,
    x: i32,
    y: i32,
    outside: bool,
    keep_on_desktop: bool,
    hit: Option<usize>,
    thr_x: i32,
    thr_y: i32,
) -> (r: MoveAction)
    ensures
        r == motion(press, x, y, outside, keep_on_desktop, hit, thr_x, thr_y),
{
    match press {
        Press::Idle => MoveAction::Nothing,
        Press::Dragging { src } => {
            if outside {
                if keep_on_desktop {
                    MoveAction::Retarget(None)
                } else {
                    MoveAction::HandOff(src)
                }
            } else {
                MoveAction::Retarget(hit)
            }
        },
        Press::Pending { idx, x: sx, y: sy } => {
            let tx: i64 = if thr_x < 1 { 1 } else { thr_x as i64 };
            let ty: i64 = if thr_y < 1 { 1 } else { thr_y as i64 };
            if axis_distance(x, sx) >= tx || axis_distance(y, sy) >= ty {
                MoveAction::StartDrag { src: idx, target: hit }
            } else {
                MoveAction::Nothing
            }
        },
    }
}

/// What releasing the left button does.
#[derive(Debug, Clone, Copy, PartialEq, Eq)]
pub enum ReleaseAction {
    Nothing,
    /// A click: open item `idx`.
    Launch(usize),
    /// A drag ended on another item: move `src` to `dst` (see [`move_item`]).
    Reorder { src: usize, dst: usize },
    /// A desktop folder was dragged out onto the desktop: take item `idx`
    /// out of the fence and show the folder on the desktop again.
    ReturnToDesktop(usize),
    /// A drag ended where it started: just redraw.
    Repaint,
}

/// What releasing the button does. `src_is_desktop_folder` says the
/// dragged item stands for a folder on the desktop.
pub open spec fn release(
    press: Press,
    outside: bool,
    src_is_desktop_folder: bool,
    hit: Option<usize>,
    items_len: int,
) -> ReleaseAction {
    match press {
        Press::Idle => ReleaseAction::Nothing,
        Press::Pending { idx, x: _, y: _ } => if hit == Some(idx) && idx < items_len {
            ReleaseAction::Launch(idx)
        } else {
            ReleaseAction::Nothing
        },
        Press::Dragging { src } => if outside && src < items_len && src_is_desktop_folder {
            ReleaseAction::ReturnToDesktop(src)
        } else {
            let dst = match hit {
                Some(d) => d,
                None => src,
            };
            if dst != src && src < items_len {
                ReleaseAction::Reorder { src, dst }
            } else {
                ReleaseAction::Repaint
            }
        },
    }
}

/// Decide what releasing the left button does; the press state is idle
/// afterwards.
pub fn release_action(
    press: Press,
    outside: bool,
    src_is_desktop_folder: bool,
    hit: Option<usize>,
    items_len: usize,
) -> (r: ReleaseAction)
    ensures
        r == release(press, outside, src_is_desktop_folder, hit, items_len as int),
{
    match press {
        Press::Idle => ReleaseAction::Nothing,
        Press::Pending { idx, x: _, y: _ } => {
            if hit == Some(idx) && idx < items_len {
                ReleaseAction::Launch(idx)
            } else {
                ReleaseAction::Nothing
            }
        },
        Press::Dragging { src } => {
            if outside && src < items_len && src_is_desktop_folder {
                ReleaseAction::ReturnToDesktop(src)
            } else {
                let dst = match hit {
                    Some(d) => d,
                    None => src,
                };
                if dst != src && src < items_len {
                    ReleaseAction::Reorder { src, dst }
                } else {
                    ReleaseAction::Repaint
                }
            }
        },
    }
}

/// A click that neither moved nor ended on its own item opens nothing, and
/// a drag released on its own item or on no item leaves the items as they
/// were.
pub proof fn lemma_release_without_move_keeps_items(
    items: Seq<FenceItemView>,
    src: usize,
    outside: bool,
    hit: Option<usize>,
)
    requires
        !outside,
        hit is None || hit == Some(src),
    ensures
        release(Press::Dragging { src }, outside, false, hit, items.len() as int)
            == ReleaseAction::Repaint,
        dropped_at(items, src as int, src as int) == items,
{
}

/// Find the item to take out once a drag to another program moved its
/// file: the first item with that file name (the list may have changed
/// meanwhile), else the item the drag started from, if it still exists.
pub fn index_after_drag_out(items: &[FenceItem], path: &str, src: usize) -> (r: Option<usize>)
    ensures
        match r {
            Some(i) => i < items@.len() && ((items@[i as int].filename@ == path@ && (forall|j: int|
                0 <= j < i ==> items@[j].filename@ != path@)) || (i == src && (forall|j: int|
                0 <= j < items@.len() ==> items@[j].filename@ != path@))),
            None => src >= items@.len() && (forall|j: int|
                0 <= j < items@.len() ==> items@[j].filename@ != path@),
        },
{
    let mut k: usize = 0;
    while k < items.len()
        invariant
            k <= items@.len(),
            forall|j: int| 0 <= j < k ==> items@[j].filename@ != path@,
        decreases items@.len() - k,
    {
        if str_eq(items[k].filename.as_str(), path) {
            return Some(k);
        }
        k = k + 1;
    }
    if src < items.len() {
        Some(src)
    } else {
        None
    }
}

/// What a double click on the title bar does.
#[derive(Debug, Clone, Copy, PartialEq, Eq)]
pub enum TitleDoubleClick {
    /// On the title text: roll the fence up or down.
    ToggleRoll,
    /// On the empty part: bring the fence above the others.
    Raise,
    /// On the empty part again: send it back below the others.
    Lower,
}

/// Decide what a double click on the title bar does; `raised` remembers,
/// for this session, which way the next double click on the empty part
/// of the title moves the fence.
pub fn title_double_click(on_text: bool, raised: &mut bool) -> (r: TitleDoubleClick)
    ensures
        on_text ==> r == TitleDoubleClick::ToggleRoll && *final(raised) == *old(raised),
        !on_text ==> *final(raised) == !*old(raised) && r == (if *final(raised) {
            TitleDoubleClick::Raise
        } else {
            TitleDoubleClick::Lower
        }),
{
    if on_text {
        TitleDoubleClick::ToggleRoll
    } else {
        *raised = !*raised;
        if *raised {
            TitleDoubleClick::Raise
        } else {
            TitleDoubleClick::Lower
        }
    }
}

// ---------------------------------------------------------------------------
// Launching items
// ---------------------------------------------------------------------------

/// Whether an item is a shell link whose target must be read first.
pub open spec fn is_shell_link(item: FenceItemView) -> bool {
    item.is_link || ends_with(ascii_lower(item.filename), ".lnk"@)
}

/// Whether launching `item` first needs its shortcut resolved.
pub fn needs_shortcut_resolution(item: &FenceItem) -> (r: bool)
    ensures
        r == is_shell_link(item@),
{
    if item.is_link {
        return true;
    }
    let lower = to_ascii_lowercase(item.filename.as_str());
    has_suffix(lower.as_str(), ".lnk")
}

/// What the shell is asked to open.
#[derive(Debug)]
pub struct LaunchCommand {
    pub target: String,
    /// Empty when there are no arguments.
    pub args: String,
    /// Empty when the shell picks the directory.
    pub working_dir: String,
}

/// `"path"`, quoted for a command line.
pub open spec fn quoted(p: Seq<char>) -> Seq<char> {
    seq!['"'] + p + seq!['"']
}

/// Extra files as command-line arguments: each quoted, separated by spaces.
pub open spec fn quoted_files(files: Seq<Seq<char>>) -> Seq<char> {
    join_with(files.map_values(|p: Seq<char>| quoted(p)), seq![' '])
}

/// Target, arguments and working directory of an item, before extra
/// files are added. A shell link uses its target, directory and
/// arguments, unless the item overrides the arguments with non-empty
/// ones; when the link could not be read the item's file is opened.
pub open spec fn launch_parts(item: FenceItemView, link: Option<ShortcutView>) -> (Seq<char>, Seq<char>, Seq<char>) {
    let own_args = match item.arguments {
        Some(a) => a,
        None => Seq::empty(),
    };
    if is_shell_link(item) && link is Some {
        let info = link->0;
        let args = match item.arguments {
            Some(a) => if a.len() > 0 {
                a
            } else {
                info.arguments
            },
            None => info.arguments,
        };
        (info.target, args, info.working_dir)
    } else {
        (item.filename, own_args, Seq::empty())
    }
}

/// What the shell is asked to run for `item` with `extra` files appended,
/// or nothing when there is no target.
pub open spec fn launch_spec(item: FenceItemView, link: Option<ShortcutView>, extra: Seq<Seq<char>>) -> Option<(Seq<char>, Seq<char>, Seq<char>)> {
    let (target, args, dir) = launch_parts(item, link);
    let all_args = if extra.len() == 0 {
        args
    } else if args.len() == 0 {
        quoted_files(extra)
    } else {
        args + seq![' '] + quoted_files(extra)
    };
    if target.len() == 0 {
        None
    } else {
        Some((target, all_args, dir))
    }
}

/// Files dropped on an item always reach the program: whenever there is
/// something to launch and extra files are given, the arguments end with
/// those files, each quoted, separated by spaces — for a shortcut as for
/// a plain file — after the item's own arguments and a space, if it has
/// any. Without extra files the item's own arguments are passed as they
/// are. A shortcut that was read launches its target in its directory.
pub proof fn lemma_launch_passes_dropped_files(
    item: FenceItemView,
    link: Option<ShortcutView>,
    extra: Seq<Seq<char>>,
)
    ensures
        match launch_spec(item, link, extra) {
            Some((target, args, dir)) => {
                let own = launch_parts(item, link).1;
                &&& extra.len() > 0 ==> ends_with(args, quoted_files(extra))
                &&& extra.len() > 0 && own.len() > 0 ==> args == own + seq![' '] + quoted_files(extra)
                &&& extra.len() == 0 ==> args == own
                &&& is_shell_link(item) && link is Some ==> target == link->0.target && dir
                    == link->0.working_dir
            },
            None => true,
        },
{
    match launch_spec(item, link, extra) {
        Some((target, args, dir)) => {
            let own = launch_parts(item, link).1;
            let q = quoted_files(extra);
            if extra.len() > 0 {
                if own.len() == 0 {
                    assert(args == q);
                    assert(args.subrange(0, args.len() as int) =~= args);
                } else {
                    assert(args == own + seq![' '] + q);
                    assert(args.subrange(args.len() - q.len(), args.len() as int) =~= q);
                }
            }
        },
        None => {},
    }
}

fn quote_files(files: &[String]) -> (r: String)
    ensures
        r@ == quoted_files(files@.map_values(|f: String| f@)),
{
    let ghost qs = files@.map_values(|f: String| f@).map_values(|p: Seq<char>| quoted(p));
    let mut out = String::new();
    let mut i: usize = 0;
    proof {
        assert(qs.take(0) =~= Seq::<Seq<char>>::empty());
    }
    while i < files.len()
        invariant
            i <= files@.len(),
            qs == files@.map_values(|f: String| f@).map_values(|p: Seq<char>| quoted(p)),
            qs.len() == files@.len(),
            out@ == join_with(qs.take(i as int), seq![' ']),
        decreases files@.len() - i,
    {
        proof {
            reveal_strlit("\"");
            reveal_strlit(" ");
            let t = qs.take(i + 1);
            assert(t.drop_last() =~= qs.take(i as int));
            assert(t.last() == quoted(files@[i as int]@));
        }
        if i > 0 {
            out.append(" ");
        }
        let q = concat3("\"", files[i].as_str(), "\"");
        out.append(q.as_str());
        i = i + 1;
        proof {
            if i == 1 {
                assert(out@ =~= qs.take(1)[0]);
            } else {
                assert(out@ =~= join_with(qs.take(i - 1), seq![' ']) + seq![' '] + qs[i - 1]);
            }
        }
    }
    assert(qs.take(files@.len() as int) =~= qs);
    out
}

fn string_or_empty(o: &Option<String>) -> (r: String)
    ensures
        r@ == match opt_chars(*o) {
            Some(a) => a,
            None => Seq::empty(),
        },
{
    match o {
        Some(a) => a.clone(),
        None => String::new(),
    }
}

/// The shell command that opens `item`, with `extra` files (dropped on
/// it) appended as quoted arguments. `link` is what the shortcut
/// resolved to, when [`needs_shortcut_resolution`] asked for it.
pub fn launch_command(item: &FenceItem, link: Option<ShortcutInfo>, extra: &[String]) -> (r: Option<LaunchCommand>)
    ensures
        match r {
            Some(c) => launch_spec(item@, match link {
                Some(l) => Some(l@),
                None => None,
            }, extra@.map_values(|f: String| f@)) == Some((c.target@, c.args@, c.working_dir@)),
            None => launch_spec(item@, match link {
                Some(l) => Some(l@),
                None => None,
            }, extra@.map_values(|f: String| f@)) is None,
        },
{
    let is_link = needs_shortcut_resolution(item);
    let (target, args, working_dir) = match link {
        Some(info) if is_link => {
            let args = match &item.arguments {
                Some(a) => if a.as_str().is_empty() {
                    info.arguments
                } else {
                    a.clone()
                },
                None => info.arguments,
            };
            (info.target, args, info.working_dir)
        },
        _ => (item.filename.clone(), string_or_empty(&item.arguments), String::new()),
    };
    if target.as_str().is_empty() {
        return None;
    }
    let all_args = if extra.len() == 0 {
        args
    } else {
        let q = quote_files(extra);
        if args.as_str().is_empty() {
            q
        } else {
            proof {
                reveal_strlit(" ");
            }
            concat3(args.as_str(), " ", q.as_str())
        }
    };
    Some(LaunchCommand { target, args: all_args, working_dir })
}

/// The argument that makes Explorer open the folder of `path` with it
/// selected; a shortcut is shown by its target when that is known.
pub open spec fn explorer_arg(path: Seq<char>, link_target: Option<Seq<char>>) -> Seq<char> {
    let target = if ends_with(ascii_lower(path), ".lnk"@) && link_target is Some
        && link_target->0.len() > 0 {
        link_target->0
    } else {
        path
    };
    "/select,"@ + quoted(target)
}

/// Whether opening the location of `path` first needs its shortcut target.
pub fn location_needs_resolution(path: &str) -> (r: bool)
    ensures
        r == ends_with(ascii_lower(path@), ".lnk"@),
{
    let lower = to_ascii_lowercase(path);
    has_suffix(lower.as_str(), ".lnk")
}

/// The Explorer argument for opening the location of `path`.
pub fn explorer_select_arg(path: &str, link_target: Option<String>) -> (r: String)
    ensures
        r@ == explorer_arg(path@, match link_target {
            Some(t) => Some(t@),
            None => None,
        }),
{
    let use_link = location_needs_resolution(path);
    let target = match link_target {
        Some(t) if use_link && !t.as_str().is_empty() => t,
        _ => String::from_str(path),
    };
    proof {
        reveal_strlit("/select,\"");
        reveal_strlit("\"");
        reveal_strlit("/select,");
        assert("/select,\""@ =~= "/select,"@ + seq!['"']);
    }
    concat3("/select,\"", target.as_str(), "\"")
}

// ---------------------------------------------------------------------------
// Placing a dropped item on the desktop
// ---------------------------------------------------------------------------

/// How many times the desktop view is asked to find a dropped item.
pub const ITEM_LOOKUP_ATTEMPTS: u32 = 3;

/// What follows a failed lookup of a dropped item in the desktop view.
#[derive(Debug, Clone, Copy, PartialEq, Eq, Structural)]
pub enum LookupRetry {
    /// Wait a moment and ask again, refreshing the view first when
    /// `refresh` is set.
    Retry { refresh: bool },
    /// Report the failure.
    GiveUp,
}

/// After lookup `attempt` (counting from 0) failed: retry until the last
/// attempt, refreshing the view before the final one.
pub fn item_lookup_retry(attempt: u32) -> (r: LookupRetry)
    ensures
        r == (if attempt + 1 < ITEM_LOOKUP_ATTEMPTS {
            LookupRetry::Retry { refresh: attempt + 2 == ITEM_LOOKUP_ATTEMPTS }
        } else {
            LookupRetry::GiveUp
        }),
{
    if attempt < ITEM_LOOKUP_ATTEMPTS - 1 {
        LookupRetry::Retry { refresh: attempt == ITEM_LOOKUP_ATTEMPTS - 2 }
    } else {
        LookupRetry::GiveUp
    }
}

} // verus!
