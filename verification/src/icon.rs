//! Icons: which file an item's icon is read from, how it is extracted,
//! and the bookkeeping of the bounded, least-recently-used icon cache.
//!
//! The cache here keeps the keys and the use order; the host program
//! keeps the bitmaps in the slots it is told about.

use vstd::prelude::*;

use crate::shortcut::{ShortcutInfo, ShortcutView};
use crate::text::{ascii_lower, ends_with, has_suffix, str_eq, to_ascii_lowercase};

verus! {

// ---------------------------------------------------------------------------
// Where an icon comes from
// ---------------------------------------------------------------------------

/// The file and index an item's icon is read from. A shortcut names its
/// icon, or failing that its target gives the icon; anything else shows
/// its own icon.
pub open spec fn icon_source_of(path: Seq<char>, link: Option<ShortcutView>) -> (Seq<char>, i32) {
    match link {
        Some(info) => if info.icon_path.len() > 0 {
            (info.icon_path, info.icon_index)
        } else if info.target.len() > 0 {
            (info.target, 0)
        } else {
            (path, 0)
        },
        None => (path, 0),
    }
}

/// Decide where the icon of `path` is read from; `link` is what the file
/// resolved to when it is a shortcut.
pub fn resolve_icon_source(path: &str, link: Option<ShortcutInfo>) -> (r: (String, i32))
    ensures
        (r.0@, r.1) == icon_source_of(path@, match link {
            Some(l) => Some(l@),
            None => None,
        }),
{
    match link {
        Some(info) => {
            if !info.icon_path.as_str().is_empty() {
                (info.icon_path, info.icon_index)
            } else if !info.target.as_str().is_empty() {
                (info.target, 0)
            } else {
                (String::from_str(path), 0)
            }
        },
        None => (String::from_str(path), 0),
    }
}

/// How an icon bitmap is obtained.
#[derive(Debug, Clone, Copy, PartialEq, Eq)]
pub struct IconPlan {
    /// Ask the shell's image factory first: sharp large renderings.
    pub try_image_factory: bool,
    /// The icon file holds icons to extract by index (programs, libraries
    /// and icon files).
    pub embedded: bool,
    /// Take the large rather than the small system icon.
    pub large: bool,
}

/// Whether a file carries icons to extract by index.
pub open spec fn has_embedded_icons(path: Seq<char>) -> bool {
    let l = ascii_lower(path);
    ends_with(l, ".exe"@) || ends_with(l, ".dll"@) || ends_with(l, ".ico"@)
}

/// The plan for an icon of `px` pixels read from `source`.
pub fn icon_plan(source: &str, px: u32) -> (r: IconPlan)
    ensures
        r.try_image_factory == (px >= 40),
        r.embedded == has_embedded_icons(source@),
        r.large == (px > 24),
{
    let lower = to_ascii_lowercase(source);
    let embedded = has_suffix(lower.as_str(), ".exe") || has_suffix(lower.as_str(), ".dll")
        || has_suffix(lower.as_str(), ".ico");
    IconPlan { try_image_factory: px >= 40, embedded, large: px > 24 }
}

// ---------------------------------------------------------------------------
// The cache index
// ---------------------------------------------------------------------------

/// How many icons the cache holds at most.
pub const ICON_CACHE_CAPACITY: usize = 512;

/// One cached icon: its file, its size and when it was last used.
#[derive(Debug)]
pub struct IconSlot {
    pub path: String,
    pub px: u32,
    pub tick: u64,
}

/// The clock after one more use (it wraps around).
pub open spec fn next_tick(t: u64) -> u64 {
    if t == u64::MAX {
        0
    } else {
        (t + 1) as u64
    }
}

/// Keys and use times of the cached icons, by slot.
pub struct IconIndex {
    slots: Vec<IconSlot>,
    tick: u64,
}

/// The contents of an [`IconIndex`].
pub struct IconIndexView {
    /// (file, size, last use) by slot.
    pub slots: Seq<(Seq<char>, u32, u64)>,
    /// The use clock.
    pub tick: u64,
}

impl View for IconIndex {
    type V = IconIndexView;

    closed spec fn view(&self) -> IconIndexView {
        IconIndexView {
            slots: self.slots@.map_values(|s: IconSlot| (s.path@, s.px, s.tick)),
            tick: self.tick,
        }
    }
}

/// Slot `i` holds the icon of `path` at `px` pixels.
pub open spec fn holds(v: IconIndexView, i: int, path: Seq<char>, px: u32) -> bool {
    0 <= i < v.slots.len() && v.slots[i].0 == path && v.slots[i].1 == px
}

/// The cache never holds more than its capacity, and never one key twice.
pub open spec fn well_formed(v: IconIndexView) -> bool {
    &&& v.slots.len() <= ICON_CACHE_CAPACITY
    &&& forall|i: int, j: int|
        0 <= i < j < v.slots.len() ==> !(#[trigger] v.slots[i].0 == #[trigger] v.slots[j].0
            && v.slots[i].1 == v.slots[j].1)
}

impl IconIndex {
    #[verifier::type_invariant]
    spec fn bounded(self) -> bool {
        well_formed(self@)
    }

    /// An empty cache.
    pub fn new() -> (r: IconIndex)
        ensures
            r@.slots.len() == 0,
            r@.tick == 0,
            well_formed(r@),
    {
        let r = IconIndex { slots: Vec::new(), tick: 0 };
        assert(r@.slots =~= Seq::<(Seq<char>, u32, u64)>::empty());
        r
    }

    /// Forget every icon (their files may have changed).
    pub fn invalidate(&mut self)
        ensures
            final(self)@.slots.len() == 0,
            final(self)@.tick == old(self)@.tick,
            well_formed(final(self)@),
    {
        self.slots = Vec::new();
        assert(self@.slots =~= Seq::<(Seq<char>, u32, u64)>::empty());
    }

    /// The number of cached icons.
    pub fn len(&self) -> (n: usize)
        ensures
            n == self@.slots.len(),
            n <= ICON_CACHE_CAPACITY,
            well_formed(self@),
    {
        proof {
            use_type_invariant(self);
        }
        self.slots.len()
    }

    fn find(&self, path: &str, px: u32) -> (r: Option<usize>)
        ensures
            match r {
                Some(i) => holds(self@, i as int, path@, px),
                None => forall|i: int| 0 <= i < self@.slots.len() ==> !holds(self@, i, path@, px),
            },
    {
        let mut i: usize = 0;
        while i < self.slots.len()
            invariant
                i <= self@.slots.len(),
                self@.slots.len() == self.slots@.len(),
                self@.slots == self.slots@.map_values(|s: IconSlot| (s.path@, s.px, s.tick)),
                forall|k: int| 0 <= k < i ==> !holds(self@, k, path@, px),
            decreases self.slots@.len() - i,
        {
            if self.slots[i].px == px && str_eq(self.slots[i].path.as_str(), path) {
                return Some(i);
            }
            i = i + 1;
        }
        None
    }

    /// Use the icon of `path` at `px` pixels: the clock advances, and when
    /// the icon is cached its slot is returned and marked as just used.
    pub fn lookup(&mut self, path: &str, px: u32) -> (r: Option<usize>)
        ensures
            well_formed(final(self)@),
            final(self)@.tick == next_tick(old(self)@.tick),
            match r {
                Some(i) => holds(old(self)@, i as int, path@, px) && final(self)@.slots
                    == old(self)@.slots.update(i as int, (path@, px, final(self)@.tick)),
                None => (forall|i: int|
                    0 <= i < old(self)@.slots.len() ==> !holds(old(self)@, i, path@, px))
                    && final(self)@.slots == old(self)@.slots,
            },
    {
        proof {
            use_type_invariant(&*self);
        }
        let t = if self.tick == u64::MAX {
            0
        } else {
            self.tick + 1
        };
        self.tick = t;
        assert(self@.slots == old(self)@.slots);
        match self.find(path, px) {
            Some(i) => {
                let ghost before = self@.slots;
                assert(holds(old(self)@, i as int, path@, px));
                let mut slots: Vec<IconSlot> = Vec::new();
                std::mem::swap(&mut slots, &mut self.slots);
                let mut slot = slots.remove(i);
                slot.tick = t;
                slots.insert(i, slot);
                assert(slots@.map_values(|s: IconSlot| (s.path@, s.px, s.tick)) =~= before.update(
                    i as int,
                    (path@, px, t),
                ));
                proof {
                    let now = slots@.map_values(|s: IconSlot| (s.path@, s.px, s.tick));
                    assert forall|a: int, b: int|
                        0 <= a < b < now.len() implies !(#[trigger] now[a].0 == #[trigger] now[b].0
                            && now[a].1 == now[b].1) by {
                        assert(now[a].0 == before[a].0 && now[a].1 == before[a].1);
                        assert(now[b].0 == before[b].0 && now[b].1 == before[b].1);
                    }
                }
                self.slots = slots;
                assert(self@.slots == old(self)@.slots.update(i as int, (path@, px, self@.tick)));
                proof {
                    use_type_invariant(&*self);
                }
                Some(i)
            },
            None => {
                assert forall|i: int| 0 <= i < old(self)@.slots.len() implies !holds(
                    old(self)@,
                    i,
                    path@,
                    px,
                ) by {
                    assert(!holds(self@, i, path@, px));
                }
                proof {
                    use_type_invariant(&*self);
                }
                None
            },
        }
    }

    /// The slot whose icon was used longest ago (the first such slot).
    fn oldest(&self) -> (r: usize)
        requires
            self@.slots.len() > 0,
        ensures
            r < self@.slots.len(),
            forall|k: int| 0 <= k < self@.slots.len() ==> self@.slots[r as int].2 <= #[trigger] self@.slots[k].2,
    {
        let mut best: usize = 0;
        let mut i: usize = 1;
        while i < self.slots.len()
            invariant
                1 <= i <= self@.slots.len(),
                best < i,
                self@.slots.len() == self.slots@.len(),
                self@.slots == self.slots@.map_values(|s: IconSlot| (s.path@, s.px, s.tick)),
                forall|k: int| 0 <= k < i ==> self@.slots[best as int].2 <= #[trigger] self@.slots[k].2,
            decreases self.slots@.len() - i,
        {
            if self.slots[i].tick < self.slots[best].tick {
                best = i;
            }
            i = i + 1;
        }
        best
    }

    /// Store a freshly loaded icon of `path` at `px` pixels, stamped with
    /// the current clock, and return its slot. A cached key keeps its slot;
    /// otherwise a full cache gives up the slot used longest ago, and a
    /// cache with room adds a slot at the end.
    pub fn store(&mut self, path: &str, px: u32) -> (slot: usize)
        ensures
            well_formed(final(self)@),
            final(self)@.tick == old(self)@.tick,
            slot < final(self)@.slots.len(),
            final(self)@.slots[slot as int] == (path@, px, old(self)@.tick),
            forall|i: int| #[trigger] holds(old(self)@, i, path@, px) ==> slot == i,
            holds(old(self)@, slot as int, path@, px) ==> final(self)@.slots == old(self)@.slots.update(
                slot as int,
                (path@, px, old(self)@.tick),
            ),
            (forall|i: int| 0 <= i < old(self)@.slots.len() ==> !holds(old(self)@, i, path@, px))
                ==> if old(self)@.slots.len() < ICON_CACHE_CAPACITY {
                slot == old(self)@.slots.len() && final(self)@.slots == old(self)@.slots.push(
                    (path@, px, old(self)@.tick),
                )
            } else {
                (forall|k: int|
                    0 <= k < old(self)@.slots.len() ==> old(self)@.slots[slot as int].2
                        <= #[trigger] old(self)@.slots[k].2) && final(self)@.slots
                    == old(self)@.slots.update(slot as int, (path@, px, old(self)@.tick))
            },
    {
        proof {
            use_type_invariant(&*self);
        }
        let ghost before = self@.slots;
        let t = self.tick;
        let fresh = IconSlot { path: String::from_str(path), px, tick: t };
        let found = self.find(path, px);
        let full = self.slots.len() >= ICON_CACHE_CAPACITY;
        let victim = if found.is_none() && full {
            self.oldest()
        } else {
            0
        };
        let mut slots: Vec<IconSlot> = Vec::new();
        std::mem::swap(&mut slots, &mut self.slots);
        let ghost view_of = |v: Seq<IconSlot>| v.map_values(|s: IconSlot| (s.path@, s.px, s.tick));
        assert(view_of(slots@) == before);
        let r = match found {
            Some(i) => {
                let _old = slots.remove(i);
                slots.insert(i, fresh);
                assert(view_of(slots@) =~= before.update(i as int, (path@, px, t)));
                i
            },
            None => {
                if !full {
                    slots.push(fresh);
                    assert(view_of(slots@) =~= before.push((path@, px, t)));
                    slots.len() - 1
                } else {
                    let _old = slots.remove(victim);
                    slots.insert(victim, fresh);
                    assert(view_of(slots@) =~= before.update(victim as int, (path@, px, t)));
                    victim
                }
            },
        };
        proof {
            let now = view_of(slots@);
            assert forall|a: int, b: int|
                0 <= a < b < now.len() implies !(#[trigger] now[a].0 == #[trigger] now[b].0
                    && now[a].1 == now[b].1) by {
                if a != r && b != r {
                    assert(before[a] == now[a] && before[b] == now[b]);
                } else if a == r {
                    if b < before.len() {
                        assert(before[b] == now[b]);
                        if found is Some {
                            assert(holds(old(self)@, a, path@, px));
                        } else {
                            assert(!holds(old(self)@, b, path@, px));
                        }
                    }
                } else {
                    if a < before.len() {
                        assert(before[a] == now[a]);
                        if found is Some {
                            assert(holds(old(self)@, b, path@, px));
                        } else {
                            assert(!holds(old(self)@, a, path@, px));
                        }
                    }
                }
            }
        }
        self.slots = slots;
        proof {
            use_type_invariant(&*self);
            assert forall|i: int| #[trigger] holds(old(self)@, i, path@, px) implies r == i by {
                lemma_one_slot_per_icon(old(self)@, i, r as int, path@, px);
            }
        }
        r
    }
}

/// A cached icon lives in one slot only: in a well-formed cache, two slots
/// that hold the same file at the same size are the same slot. So what
/// `store` put in a slot is what a later `lookup` of that key finds there.
pub proof fn lemma_one_slot_per_icon(v: IconIndexView, i: int, j: int, path: Seq<char>, px: u32)
    requires
        well_formed(v),
        holds(v, i, path, px),
        holds(v, j, path, px),
    ensures
        i == j,
{
    if i < j {
        assert(v.slots[i].0 == v.slots[j].0 && v.slots[i].1 == v.slots[j].1);
    } else if j < i {
        assert(v.slots[j].0 == v.slots[i].0 && v.slots[j].1 == v.slots[i].1);
    }
}

} // verus!
