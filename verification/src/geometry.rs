//! Integer window geometry: DPI scaling of whole logical lengths, edge and
//! title hit-testing, snapping while a fence is dragged, and the icon grid.

use vstd::prelude::*;

verus! {

/// The largest coordinate magnitude the geometry below works with; screen
/// coordinates are far smaller.
pub open spec fn coord_limit() -> int {
    0x1000_0000
}

/// A screen or client rectangle; `right` and `bottom` are exclusive.
#[derive(Debug, Clone, Copy, PartialEq, Eq)]
pub struct Rect {
    pub left: i32,
    pub top: i32,
    pub right: i32,
    pub bottom: i32,
}

/// A point in screen or client coordinates.
#[derive(Debug, Clone, Copy, PartialEq, Eq)]
pub struct Point {
    pub x: i32,
    pub y: i32,
}

impl Rect {
    /// Every edge lies within the coordinate limit.
    pub open spec fn bounded(self) -> bool {
        -coord_limit() <= self.left <= coord_limit() && -coord_limit() <= self.top
            <= coord_limit() && -coord_limit() <= self.right <= coord_limit() && -coord_limit()
            <= self.bottom <= coord_limit()
    }
}

// ---------------------------------------------------------------------------
// DPI scaling
// ---------------------------------------------------------------------------

/// `dip` logical units at `dpi` dots per inch, in physical pixels:
/// `dip * dpi / 96` rounded to the nearest integer, halves rounded up.
pub open spec fn scaled(dip: int, dpi: int) -> int {
    (2 * (dip * dpi) + 96) / 192
}

/// Physical pixels for a whole number of logical units.
pub fn dip_to_px(dip: u32, dpi: u32) -> (r: i32)
    requires
        dip <= 10_000,
        dpi <= 10_000,
    ensures
        r == scaled(dip as int, dpi as int),
{
    let d = dip as u64;
    let e = dpi as u64;
    assert(d * e <= 100_000_000) by (nonlinear_arith)
        requires
            d <= 10_000,
            e <= 10_000,
    ;
    let prod = d * e;
    let p = (2 * prod + 96) / 192;
    assert(prod == dip * dpi);
    p as i32
}

/// At 96 dots per inch a logical unit is one pixel.
pub proof fn lemma_scaled_at_96(dip: int)
    requires
        dip >= 0,
    ensures
        scaled(dip, 96) == dip,
{
    assert((2 * (dip * 96) + 96) / 192 == dip) by (nonlinear_arith)
        requires
            dip >= 0,
    ;
}

/// The DPI to use for a window: the reported value, or 96 when the system
/// reports none.
pub fn effective_dpi(reported: u32) -> (r: u32)
    ensures
        r == if reported == 0 { 96 } else { reported },
{
    if reported == 0 {
        96
    } else {
        reported
    }
}

/// The DPI a drawing surface uses: the window's DPI kept within 72..=480.
pub fn clamp_dpi(dpi: u32) -> (r: u32)
    ensures
        r == if dpi < 72 { 72 } else if dpi > 480 { 480 } else { dpi },
{
    if dpi < 72 {
        72
    } else if dpi > 480 {
        480
    } else {
        dpi
    }
}

/// Whether `p` lies inside `r`.
pub fn point_in_rect(r: &Rect, p: Point) -> (res: bool)
    ensures
        res == (p.x >= r.left && p.x < r.right && p.y >= r.top && p.y < r.bottom),
{
    p.x >= r.left && p.x < r.right && p.y >= r.top && p.y < r.bottom
}

// ---------------------------------------------------------------------------
// Non-client hit-testing of a fence window
// ---------------------------------------------------------------------------

/// Height of a fence's title band in logical units.
pub const TITLE_H_DIP: u32 = 32;

/// What part of a fence window a point is over.
#[derive(Debug, Clone, Copy, PartialEq, Eq)]
pub enum HitZone {
    TopLeft,
    TopRight,
    BottomLeft,
    BottomRight,
    Top,
    Bottom,
    Left,
    Right,
    /// The title band, which drags the window.
    Caption,
    Client,
}

/// The zone for window-relative point (`lx`, `ly`) in a `w` x `h` window.
/// Unlocked fences resize from 6-unit edges and 12-unit corners (16 for
/// the bottom-right grip) and move by their title band; a locked fence
/// is all client area.
pub open spec fn hit_zone(lx: int, ly: int, w: int, h: int, dpi: int, locked: bool) -> HitZone {
    let border = scaled(6, dpi);
    let corner = scaled(12, dpi);
    let grip = scaled(16, dpi);
    let title_h = scaled(32, dpi);
    if !locked && lx < corner && ly < corner {
        HitZone::TopLeft
    } else if !locked && lx > w - corner && ly < corner {
        HitZone::TopRight
    } else if !locked && lx < corner && ly > h - corner {
        HitZone::BottomLeft
    } else if !locked && lx > w - grip && ly > h - grip {
        HitZone::BottomRight
    } else if !locked && ly < border {
        HitZone::Top
    } else if !locked && ly > h - border {
        HitZone::Bottom
    } else if !locked && lx < border {
        HitZone::Left
    } else if !locked && lx > w - border {
        HitZone::Right
    } else if ly >= 0 && ly < title_h && !locked {
        HitZone::Caption
    } else {
        HitZone::Client
    }
}

/// Classify a point of a fence window for the window manager.
pub fn nc_hit_test(lx: i32, ly: i32, w: i32, h: i32, dpi: u32, locked: bool) -> (z: HitZone)
    requires
        -coord_limit() <= lx <= coord_limit(),
        -coord_limit() <= ly <= coord_limit(),
        -coord_limit() <= w <= coord_limit(),
        -coord_limit() <= h <= coord_limit(),
        dpi <= 10_000,
    ensures
        z == hit_zone(lx as int, ly as int, w as int, h as int, dpi as int, locked),
{
    let border = dip_to_px(6, dpi);
    let corner = dip_to_px(12, dpi);
    let grip = dip_to_px(16, dpi);
    let title_h = dip_to_px(TITLE_H_DIP, dpi);
    if !locked {
        if lx < corner && ly < corner {
            return HitZone::TopLeft;
        }
        if lx > w - corner && ly < corner {
            return HitZone::TopRight;
        }
        if lx < corner && ly > h - corner {
            return HitZone::BottomLeft;
        }
        if lx > w - grip && ly > h - grip {
            return HitZone::BottomRight;
        }
        if ly < border {
            return HitZone::Top;
        }
        if ly > h - border {
            return HitZone::Bottom;
        }
        if lx < border {
            return HitZone::Left;
        }
        if lx > w - border {
            return HitZone::Right;
        }
    }
    if ly >= 0 && ly < title_h {
        if locked {
            return HitZone::Client;
        } else {
            return HitZone::Caption;
        }
    }
    HitZone::Client
}

/// A locked fence can be neither moved nor resized: every point of it is
/// client area.
pub proof fn lemma_locked_is_client(lx: int, ly: int, w: int, h: int, dpi: int)
    ensures
        hit_zone(lx, ly, w, h, dpi, true) == HitZone::Client,
{
}

/// The edge scale grows with its length: at any DPI the border is no wider
/// than a corner, and a corner no wider than the grip.
proof fn lemma_edge_sizes(dpi: int)
    requires
        dpi >= 0,
    ensures
        0 <= scaled(6, dpi) <= scaled(12, dpi) <= scaled(16, dpi),
{
    assert(0 <= 2 * (6 * dpi) + 96 <= 2 * (12 * dpi) + 96 <= 2 * (16 * dpi) + 96);
    assert((2 * (6 * dpi) + 96) / 192 <= (2 * (12 * dpi) + 96) / 192) by (nonlinear_arith)
        requires
            0 <= 2 * (6 * dpi) + 96 <= 2 * (12 * dpi) + 96,
    ;
    assert((2 * (12 * dpi) + 96) / 192 <= (2 * (16 * dpi) + 96) / 192) by (nonlinear_arith)
        requires
            0 <= 2 * (12 * dpi) + 96 <= 2 * (16 * dpi) + 96,
    ;
}

/// A resize zone names the side of the window the point is near: in a
/// window more than two grips wide and tall, the left zones (left edge,
/// left corners) lie in its left half and the right zones in its right
/// half, the top zones in its top half and the bottom zones in its bottom
/// half. And a point on the left or right border band, away from the
/// corners and the top and bottom bands, resizes that very edge.
pub proof fn lemma_hit_zone_sides(lx: int, ly: int, w: int, h: int, dpi: int, locked: bool)
    requires
        dpi >= 0,
        w > 2 * scaled(16, dpi),
        h > 2 * scaled(16, dpi),
    ensures
        ({
            let z = hit_zone(lx, ly, w, h, dpi, locked);
            &&& (z == HitZone::Left || z == HitZone::TopLeft || z == HitZone::BottomLeft) ==> 2 * lx < w
            &&& (z == HitZone::Right || z == HitZone::TopRight || z == HitZone::BottomRight) ==> 2 * lx > w
            &&& (z == HitZone::Top || z == HitZone::TopLeft || z == HitZone::TopRight) ==> 2 * ly < h
            &&& (z == HitZone::Bottom || z == HitZone::BottomLeft || z == HitZone::BottomRight) ==> 2 * ly > h
        }),
        !locked && lx < scaled(6, dpi) && scaled(12, dpi) <= ly && ly <= h - scaled(16, dpi)
            && scaled(6, dpi) <= ly && ly <= h - scaled(6, dpi) ==> hit_zone(lx, ly, w, h, dpi, locked)
            == HitZone::Left,
        !locked && lx > w - scaled(6, dpi) && scaled(12, dpi) <= ly && ly <= h - scaled(16, dpi)
            && scaled(6, dpi) <= ly && ly <= h - scaled(6, dpi) ==> hit_zone(lx, ly, w, h, dpi, locked)
            == HitZone::Right,
{
    lemma_edge_sizes(dpi);
}

// ---------------------------------------------------------------------------
// Snapping while a fence is moved
// ---------------------------------------------------------------------------

pub open spec fn abs(x: int) -> int {
    if x < 0 {
        -x
    } else {
        x
    }
}

/// New left edge: the work area's edges first, then every other fence in
/// turn, a later match overriding an earlier one.
pub open spec fn snapped_left(r: Rect, work: Rect, others: Seq<Rect>, thr: int) -> int
    decreases others.len(),
{
    let w = r.right - r.left;
    if others.len() == 0 {
        if abs(r.left - work.left) <= thr {
            work.left as int
        } else if abs(r.right - work.right) <= thr {
            work.right - w
        } else {
            r.left as int
        }
    } else {
        let o = others.last();
        let prev = snapped_left(r, work, others.drop_last(), thr);
        let overlaps = r.bottom > o.top && r.top < o.bottom;
        if abs(r.right - o.left) <= thr && overlaps {
            o.left - w
        } else if abs(r.left - o.right) <= thr && overlaps {
            o.right as int
        } else {
            prev
        }
    }
}

/// New top edge, chosen the same way as the left edge.
pub open spec fn snapped_top(r: Rect, work: Rect, others: Seq<Rect>, thr: int) -> int
    decreases others.len(),
{
    let h = r.bottom - r.top;
    if others.len() == 0 {
        if abs(r.top - work.top) <= thr {
            work.top as int
        } else if abs(r.bottom - work.bottom) <= thr {
            work.bottom - h
        } else {
            r.top as int
        }
    } else {
        let o = others.last();
        let prev = snapped_top(r, work, others.drop_last(), thr);
        let overlaps = r.right > o.left && r.left < o.right;
        if abs(r.bottom - o.top) <= thr && overlaps {
            o.top - h
        } else if abs(r.top - o.bottom) <= thr && overlaps {
            o.bottom as int
        } else {
            prev
        }
    }
}

proof fn lemma_snapped_bounds(r: Rect, work: Rect, others: Seq<Rect>, thr: int)
    requires
        r.bounded(),
        work.bounded(),
        forall|i: int| 0 <= i < others.len() ==> (#[trigger] others[i]).bounded(),
    ensures
        -3 * coord_limit() <= snapped_left(r, work, others, thr) <= 3 * coord_limit(),
        -3 * coord_limit() <= snapped_top(r, work, others, thr) <= 3 * coord_limit(),
    decreases others.len(),
{
    if others.len() > 0 {
        let o = others.last();
        assert(others[others.len() - 1] == o);
        let rest = others.drop_last();
        assert forall|i: int| 0 <= i < rest.len() implies (#[trigger] rest[i]).bounded() by {
            assert(rest[i] == others[i]);
        }
        lemma_snapped_bounds(r, work, rest, thr);
    }
}

/// The left edge a snap may give: the edge where it was, a work-area
/// edge, or flush against the near side of another fence.
pub open spec fn left_candidate(r: Rect, work: Rect, others: Seq<Rect>, x: int) -> bool {
    let w = r.right - r.left;
    x == r.left || x == work.left || x + w == work.right || exists|k: int|
        0 <= k < others.len() && (x + w == (#[trigger] others[k]).left || x == others[k].right)
}

/// The top edge a snap may give, likewise.
pub open spec fn top_candidate(r: Rect, work: Rect, others: Seq<Rect>, y: int) -> bool {
    let h = r.bottom - r.top;
    y == r.top || y == work.top || y + h == work.bottom || exists|k: int|
        0 <= k < others.len() && (y + h == (#[trigger] others[k]).top || y == others[k].bottom)
}

/// Snapping only nudges: a fence moves by at most the threshold on each
/// axis, and its edges end up where they were, on a work-area edge, or
/// flush against another fence's facing edge (its bottom on their top, its
/// top on their bottom, its right on their left, its left on their right).
/// In particular, a fence snapped against another fence's edge touches it
/// without covering it on that axis.
pub proof fn lemma_snap_nudges(r: Rect, work: Rect, others: Seq<Rect>, thr: int)
    requires
        thr >= 0,
    ensures
        abs(snapped_left(r, work, others, thr) - r.left) <= thr,
        abs(snapped_top(r, work, others, thr) - r.top) <= thr,
        left_candidate(r, work, others, snapped_left(r, work, others, thr)),
        top_candidate(r, work, others, snapped_top(r, work, others, thr)),
    decreases others.len(),
{
    if others.len() > 0 {
        let rest = others.drop_last();
        let o = others.last();
        lemma_snap_nudges(r, work, rest, thr);
        let x = snapped_left(r, work, others, thr);
        let y = snapped_top(r, work, others, thr);
        let n = others.len() - 1;
        assert(others[n] == o);
        if x == snapped_left(r, work, rest, thr) {
            if !(x == r.left || x == work.left || x + (r.right - r.left) == work.right) {
                let k = choose|k: int|
                    0 <= k < rest.len() && (x + (r.right - r.left) == (#[trigger] rest[k]).left
                        || x == rest[k].right);
                assert(rest[k] == others[k]);
            }
        }
        if y == snapped_top(r, work, rest, thr) {
            if !(y == r.top || y == work.top || y + (r.bottom - r.top) == work.bottom) {
                let k = choose|k: int|
                    0 <= k < rest.len() && (y + (r.bottom - r.top) == (#[trigger] rest[k]).top
                        || y == rest[k].bottom);
                assert(rest[k] == others[k]);
            }
        }
    }
}

/// When the last fence in the list is met edge to edge, the snap lands
/// flush on it: a bottom edge within the threshold of its top (with the
/// two overlapping side to side) ends exactly on its top, so the fences
/// touch and do not overlap; likewise for the other three edges.
pub proof fn lemma_snap_onto_last_fence(r: Rect, work: Rect, others: Seq<Rect>, thr: int)
    requires
        others.len() > 0,
    ensures
        ({
            let o = others.last();
            let s_left = snapped_left(r, work, others, thr);
            let s_top = snapped_top(r, work, others, thr);
            let w = r.right - r.left;
            let h = r.bottom - r.top;
            let side_by_side = r.bottom > o.top && r.top < o.bottom;
            let one_above_other = r.right > o.left && r.left < o.right;
            &&& one_above_other && abs(r.bottom - o.top) <= thr ==> s_top + h == o.top
            &&& one_above_other && abs(r.bottom - o.top) > thr && abs(r.top - o.bottom) <= thr
                ==> s_top == o.bottom
            &&& side_by_side && abs(r.right - o.left) <= thr ==> s_left + w == o.left
            &&& side_by_side && abs(r.right - o.left) > thr && abs(r.left - o.right) <= thr
                ==> s_left == o.right
        }),
{
}

/// Where a fence being dragged to `r` lands: its left and top edges snap
/// to the work area and to other fences within `thr` pixels, and it keeps
/// its size.
pub fn snap_rect(r: Rect, work: Rect, others: &[Rect], thr: i32) -> (s: Rect)
    requires
        r.bounded(),
        work.bounded(),
        forall|i: int| 0 <= i < others@.len() ==> (#[trigger] others@[i]).bounded(),
        0 <= thr <= coord_limit(),
    ensures
        s.left == snapped_left(r, work, others@, thr as int),
        s.top == snapped_top(r, work, others@, thr as int),
        s.right - s.left == r.right - r.left,
        s.bottom - s.top == r.bottom - r.top,
{
    let w = r.right - r.left;
    let h = r.bottom - r.top;
    let mut new_left = r.left;
    let mut new_top = r.top;
    if abs_i32(r.left - work.left) <= thr {
        new_left = work.left;
    } else if abs_i32(r.right - work.right) <= thr {
        new_left = work.right - w;
    }
    if abs_i32(r.top - work.top) <= thr {
        new_top = work.top;
    } else if abs_i32(r.bottom - work.bottom) <= thr {
        new_top = work.bottom - h;
    }
    proof {
        assert(others@.subrange(0, 0) =~= Seq::<Rect>::empty());
    }
    let mut i: usize = 0;
    while i < others.len()
        invariant
            r.bounded(),
            work.bounded(),
            forall|j: int| 0 <= j < others@.len() ==> (#[trigger] others@[j]).bounded(),
            0 <= thr <= coord_limit(),
            w == r.right - r.left,
            h == r.bottom - r.top,
            i <= others@.len(),
            new_left == snapped_left(r, work, others@.subrange(0, i as int), thr as int),
            new_top == snapped_top(r, work, others@.subrange(0, i as int), thr as int),
        decreases others@.len() - i,
    {
        let o = others[i];
        proof {
            let s = others@.subrange(0, i + 1);
            assert(s.drop_last() =~= others@.subrange(0, i as int));
            assert(s.last() == o);
            assert forall|j: int| 0 <= j < s.len() implies (#[trigger] s[j]).bounded() by {
                assert(s[j] == others@[j]);
            }
            lemma_snapped_bounds(r, work, s, thr as int);
        }
        if abs_i32(r.right - o.left) <= thr && r.bottom > o.top && r.top < o.bottom {
            new_left = o.left - w;
        } else if abs_i32(r.left - o.right) <= thr && r.bottom > o.top && r.top < o.bottom {
            new_left = o.right;
        }
        if abs_i32(r.bottom - o.top) <= thr && r.right > o.left && r.left < o.right {
            new_top = o.top - h;
        } else if abs_i32(r.top - o.bottom) <= thr && r.right > o.left && r.left < o.right {
            new_top = o.bottom;
        }
        i = i + 1;
    }
    proof {
        assert(others@.subrange(0, others@.len() as int) =~= others@);
        lemma_snapped_bounds(r, work, others@, thr as int);
    }
    Rect { left: new_left, top: new_top, right: new_left + w, bottom: new_top + h }
}

fn abs_i32(x: i32) -> (r: i32)
    requires
        x > i32::MIN,
    ensures
        r == abs(x as int),
{
    if x < 0 {
        -x
    } else {
        x
    }
}

// ---------------------------------------------------------------------------
// The icon grid
// ---------------------------------------------------------------------------

/// Column and row of the cell holding item `idx` in a grid `cols` wide.
pub fn grid_cell(idx: usize, cols: usize) -> (r: (usize, usize))
    requires
        cols > 0,
    ensures
        r.0 == idx % cols,
        r.1 == idx / cols,
{
    (idx % cols, idx / cols)
}

/// The item in cell (`col`, `row`) of a grid `cols` wide holding
/// `items_len` items, if that cell is populated.
pub fn grid_hit(col: usize, row: usize, cols: usize, items_len: usize) -> (r: Option<usize>)
    requires
        col >= cols || row * cols + col <= usize::MAX,
    ensures
        r == if col >= cols || row * cols + col >= items_len {
            None::<usize>
        } else {
            Some((row * cols + col) as usize)
        },
{
    if col >= cols {
        return None;
    }
    let idx = row * cols + col;
    if idx >= items_len {
        None
    } else {
        Some(idx)
    }
}

/// Hitting the cell that holds an item finds that item.
pub proof fn lemma_grid_round_trip(idx: int, cols: int, items_len: int)
    requires
        cols > 0,
        0 <= idx < items_len,
    ensures
        idx % cols < cols,
        (idx / cols) * cols + idx % cols == idx,
{
    assert((idx / cols) * cols + idx % cols == idx) by (nonlinear_arith)
        requires
            cols > 0,
            idx >= 0,
    ;
}

} // verus!
