use vstd::prelude::*;
use crate::sizes::RecordStatus;

verus! {

/// The buttons that can orbit the idle pill.
#[derive(Clone, Copy, Debug, PartialEq, Eq, Structural)]
pub enum OrbKind {
    Shelf,
    Recording,
}

impl OrbKind {
    /// The slot identifier under which a layout keeps this button.
    pub fn id(&self) -> (r: u8)
        ensures
            r == orb_id(*self),
    {
        match self {
            OrbKind::Shelf => 0,
            OrbKind::Recording => 1,
        }
    }
}

pub open spec fn orb_id(kind: OrbKind) -> u8 {
    match kind {
        OrbKind::Shelf => 0,
        OrbKind::Recording => 1,
    }
}

/// Which side of the pill a button sits on.
#[derive(Clone, Copy, Debug, PartialEq, Eq, Structural)]
pub enum Side {
    Left,
    Right,
}

/// One button of the orbit: its identifier, its side, whether it is wanted,
/// and the rank it moves towards (0 is next to the pill).
#[derive(Clone, Copy, Debug, PartialEq, Eq, Structural)]
pub struct OrbSlot {
    pub kind: u8,
    pub side: Side,
    pub active: bool,
    pub rank: usize,
}

/// Number of wanted buttons on `side`.
pub open spec fn active_on(s: Seq<OrbSlot>, side: Side) -> nat
    decreases s.len(),
{
    if s.len() == 0 {
        0
    } else {
        active_on(s.drop_last(), side) + (if s.last().active && s.last().side == side {
            1nat
        } else {
            0nat
        })
    }
}

/// Every wanted button's rank is the number of wanted buttons before it on
/// its side: ranks on a side run 0, 1, 2, ... without gaps.
pub open spec fn ranked(s: Seq<OrbSlot>) -> bool {
    forall|i: int|
        0 <= i < s.len() && #[trigger] s[i].active ==> s[i].rank == active_on(s.take(i), s[i].side)
}

/// No button appears twice.
pub open spec fn kinds_unique(s: Seq<OrbSlot>) -> bool {
    forall|i: int, j: int| 0 <= i < j < s.len() ==> #[trigger] s[i].kind != #[trigger] s[j].kind
}

pub open spec fn slots_wf(s: Seq<OrbSlot>) -> bool {
    ranked(s) && kinds_unique(s)
}

/// The rank each wanted button should move to.
pub open spec fn renumber(s: Seq<OrbSlot>) -> Seq<OrbSlot> {
    Seq::new(
        s.len(),
        |i: int|
            if s[i].active {
                OrbSlot { rank: active_on(s.take(i), s[i].side) as usize, ..s[i] }
            } else {
                s[i]
            },
    )
}

/// Index of the slot of `kind`, or -1.
pub open spec fn find_kind(s: Seq<OrbSlot>, kind: u8) -> int
    decreases s.len(),
{
    if s.len() == 0 {
        -1
    } else if find_kind(s.drop_last(), kind) >= 0 {
        find_kind(s.drop_last(), kind)
    } else if s.last().kind == kind {
        s.len() - 1
    } else {
        -1
    }
}

pub open spec fn has_active(s: Seq<OrbSlot>, kind: u8) -> bool {
    exists|i: int| 0 <= i < s.len() && s[i].kind == kind && s[i].active
}

/// A newly wanted button goes to the side with fewer wanted buttons, the
/// left one on a tie.
pub open spec fn pick_side(s: Seq<OrbSlot>) -> Side {
    if active_on(s, Side::Left) <= active_on(s, Side::Right) {
        Side::Left
    } else {
        Side::Right
    }
}

/// Wanting a button: its old slot, if any, leaves its place and the button
/// joins the end of the list on the chosen side, at the next free rank.
pub open spec fn activate_spec(s: Seq<OrbSlot>, kind: u8) -> Seq<OrbSlot> {
    let side = pick_side(s);
    let rank = active_on(s, side);
    let i = find_kind(s, kind);
    let rest = if i >= 0 {
        s.remove(i)
    } else {
        s
    };
    rest.push(OrbSlot { kind, side, active: true, rank: rank as usize })
}

/// No longer wanting a button: it stays in place, marked unwanted, so that
/// it can fade out where it is.
pub open spec fn deactivate_spec(s: Seq<OrbSlot>, kind: u8) -> Seq<OrbSlot> {
    let i = find_kind(s, kind);
    s.update(i, OrbSlot { active: false, ..s[i] })
}

pub open spec fn set_active_spec(s: Seq<OrbSlot>, kind: u8, active: bool) -> Seq<OrbSlot> {
    if has_active(s, kind) == active {
        s
    } else if active {
        renumber(activate_spec(s, kind))
    } else {
        renumber(deactivate_spec(s, kind))
    }
}

/// Slots kept by a tick: the wanted ones and those still fading out.
pub open spec fn kept(s: Seq<OrbSlot>, animating: Seq<bool>) -> Seq<OrbSlot>
    decreases s.len(),
{
    if s.len() == 0 {
        Seq::empty()
    } else {
        let rest = kept(s.drop_last(), animating.take(s.len() - 1));
        if s.last().active || animating[s.len() - 1] {
            rest.push(s.last())
        } else {
            rest
        }
    }
}

/// What a call of `set_active` did to the button's slot, so that the
/// caller can start or continue its motions.
#[derive(Clone, Copy, Debug, PartialEq, Eq, Structural)]
pub enum OrbChange {
    /// The button was already in the wanted state.
    Unchanged,
    /// The button got a new slot.
    Placed,
    /// The button came back on the other side: its fade starts over.
    Moved,
    /// The button came back on the side it had.
    Returned,
    /// The button is no longer wanted.
    Retired,
}

pub open spec fn change_spec(s: Seq<OrbSlot>, kind: u8, active: bool) -> OrbChange {
    if has_active(s, kind) == active {
        OrbChange::Unchanged
    } else if !active {
        OrbChange::Retired
    } else if find_kind(s, kind) < 0 {
        OrbChange::Placed
    } else if s[find_kind(s, kind)].side != pick_side(s) {
        OrbChange::Moved
    } else {
        OrbChange::Returned
    }
}

/// The placement of the orbit buttons around the pill.
pub struct OrbLayout {
    slots: Vec<OrbSlot>,
    visible: bool,
}

impl OrbLayout {
    pub closed spec fn spec_slots(&self) -> Seq<OrbSlot> {
        self.slots@
    }

    pub closed spec fn spec_visible(&self) -> bool {
        self.visible
    }

    pub open spec fn wf(&self) -> bool {
        slots_wf(self.spec_slots())
    }

    /// Whether slot `i` should be shown: the orbit is visible and the
    /// button is wanted.
    pub open spec fn shown(&self, i: int) -> bool {
        self.spec_visible() && self.spec_slots()[i].active
    }

    pub fn new() -> (r: Self)
        ensures
            r.spec_slots() == Seq::<OrbSlot>::empty(),
            r.spec_visible(),
            r.wf(),
    {
        OrbLayout { slots: Vec::new(), visible: true }
    }

    pub fn is_visible(&self) -> (r: bool)
        ensures
            r == self.spec_visible(),
    {
        self.visible
    }

    pub fn len(&self) -> (r: usize)
        ensures
            r == self.spec_slots().len(),
    {
        self.slots.len()
    }

    pub fn slot(&self, i: usize) -> (r: OrbSlot)
        requires
            i < self.spec_slots().len(),
        ensures
            r == self.spec_slots()[i as int],
    {
        self.slots[i]
    }

    fn count_active(&self, side: Side) -> (r: usize)
        ensures
            r == active_on(self.spec_slots(), side),
    {
        let mut n: usize = 0;
        let mut i: usize = 0;
        while i < self.slots.len()
            invariant
                i <= self.slots@.len(),
                n == active_on(self.slots@.take(i as int), side),
                n <= i,
            decreases self.slots@.len() - i,
        {
            proof {
                assert(self.slots@.take(i as int + 1).drop_last() == self.slots@.take(i as int));
            }
            if self.slots[i].active && self.slots[i].side == side {
                n = n + 1;
            }
            i = i + 1;
        }
        proof {
            assert(self.slots@.take(i as int) == self.slots@);
        }
        n
    }

    fn position(&self, kind: u8) -> (r: Option<usize>)
        ensures
            match r {
                Some(i) => i == find_kind(self.spec_slots(), kind),
                None => find_kind(self.spec_slots(), kind) < 0,
            },
    {
        let mut i: usize = 0;
        while i < self.slots.len()
            invariant
                i <= self.slots@.len(),
                find_kind(self.slots@.take(i as int), kind) < 0,
            decreases self.slots@.len() - i,
        {
            proof {
                assert(self.slots@.take(i as int + 1).drop_last() == self.slots@.take(i as int));
            }
            if self.slots[i].kind == kind {
                proof {
                    lemma_find_kind_prefix(self.slots@, kind, i as int + 1);
                }
                return Some(i);
            }
            i = i + 1;
        }
        proof {
            assert(self.slots@.take(i as int) == self.slots@);
        }
        None
    }

    fn any_active(&self, kind: u8) -> (r: bool)
        ensures
            r == has_active(self.spec_slots(), kind),
    {
        let mut i: usize = 0;
        while i < self.slots.len()
            invariant
                i <= self.slots@.len(),
                forall|j: int|
                    0 <= j < i ==> !(self.slots@[j].kind == kind && self.slots@[j].active),
            decreases self.slots@.len() - i,
        {
            if self.slots[i].kind == kind && self.slots[i].active {
                return true;
            }
            i = i + 1;
        }
        false
    }

    fn renumber_slots(&mut self)
        ensures
            final(self).spec_slots() == renumber(old(self).spec_slots()),
            final(self).spec_visible() == old(self).spec_visible(),
    {
        let ghost s = self.slots@;
        let mut left: usize = 0;
        let mut right: usize = 0;
        let mut i: usize = 0;
        while i < self.slots.len()
            invariant
                self.slots@.len() == s.len(),
                i <= s.len(),
                left == active_on(s.take(i as int), Side::Left),
                right == active_on(s.take(i as int), Side::Right),
                left <= i,
                right <= i,
                forall|j: int| 0 <= j < i ==> self.slots@[j] == renumber(s)[j],
                forall|j: int| i <= j < s.len() ==> self.slots@[j] == s[j],
                self.visible == old(self).visible,
            decreases s.len() - i,
        {
            proof {
                assert(s.take(i as int + 1).drop_last() == s.take(i as int));
            }
            let slot = self.slots[i];
            if slot.active {
                if slot.side == Side::Left {
                    self.slots.set(i, OrbSlot { rank: left, ..slot });
                    left = left + 1;
                } else {
                    self.slots.set(i, OrbSlot { rank: right, ..slot });
                    right = right + 1;
                }
            }
            i = i + 1;
        }
        proof {
            assert(self.slots@ == renumber(s));
        }
    }

    /// Marks the button `kind` as wanted or not, and moves every wanted
    /// button towards its rank.
    pub fn set_active(&mut self, kind: u8, active: bool) -> (r: OrbChange)
        requires
            old(self).wf(),
        ensures
            final(self).spec_slots() == set_active_spec(old(self).spec_slots(), kind, active),
            final(self).spec_visible() == old(self).spec_visible(),
            r == change_spec(old(self).spec_slots(), kind, active),
            final(self).wf(),
    {
        let ghost s = self.slots@;
        let _len = self.slots.len();
        proof {
            lemma_find_kind_props(s, kind);
        }
        if self.any_active(kind) == active {
            return OrbChange::Unchanged;
        }
        let change;
        if active {
            let left = self.count_active(Side::Left);
            let right = self.count_active(Side::Right);
            let side = if left <= right {
                Side::Left
            } else {
                Side::Right
            };
            let rank = if side == Side::Left {
                left
            } else {
                right
            };
            match self.position(kind) {
                Some(i) => {
                    let previous = self.slots.remove(i);
                    change = if previous.side != side {
                        OrbChange::Moved
                    } else {
                        OrbChange::Returned
                    };
                },
                None => {
                    change = OrbChange::Placed;
                },
            }
            self.slots.push(OrbSlot { kind, side, active: true, rank });
            let _n = self.slots.len();
            proof {
                assert(self.slots@ == activate_spec(s, kind));
            }
        } else {
            proof {
                lemma_has_active_found(s, kind);
            }
            match self.position(kind) {
                Some(i) => {
                    let slot = self.slots[i];
                    self.slots.set(i, OrbSlot { active: false, ..slot });
                },
                None => {},
            }
            change = OrbChange::Retired;
            proof {
                assert(self.slots@ == deactivate_spec(s, kind));
            }
        }
        self.renumber_slots();
        proof {
            lemma_set_active_wf(s, kind, active);
        }
        change
    }

    /// Follows the services: the shelf button is wanted while the shelf
    /// holds items, the recording button while a recording runs or is
    /// paused. Returns what happened to each, shelf first.
    pub fn sync_services(&mut self, shelf_count: usize, record: RecordStatus) -> (r: (
        OrbChange,
        OrbChange,
    ))
        requires
            old(self).wf(),
        ensures
            final(self).wf(),
            final(self).spec_visible() == old(self).spec_visible(),
            final(self).spec_slots() == set_active_spec(
                set_active_spec(old(self).spec_slots(), orb_id(OrbKind::Shelf), shelf_count > 0),
                orb_id(OrbKind::Recording),
                record != RecordStatus::Stopped,
            ),
            r.0 == change_spec(old(self).spec_slots(), orb_id(OrbKind::Shelf), shelf_count > 0),
            r.1 == change_spec(
                set_active_spec(old(self).spec_slots(), orb_id(OrbKind::Shelf), shelf_count > 0),
                orb_id(OrbKind::Recording),
                record != RecordStatus::Stopped,
            ),
    {
        let shelf = self.set_active(OrbKind::Shelf.id(), shelf_count > 0);
        let recording = self.set_active(
            OrbKind::Recording.id(),
            record == RecordStatus::Recording || record == RecordStatus::Paused,
        );
        (shelf, recording)
    }

    /// Shows or hides the whole orbit; every slot keeps its place.
    pub fn set_visible(&mut self, visible: bool)
        ensures
            final(self).spec_slots() == old(self).spec_slots(),
            final(self).spec_visible() == visible,
    {
        self.visible = visible;
    }

    /// Drops the slots that are neither wanted nor still fading out;
    /// `animating[i]` tells whether slot `i` is still fading.
    pub fn retain_live(&mut self, animating: &Vec<bool>)
        requires
            old(self).wf(),
            animating@.len() == old(self).spec_slots().len(),
        ensures
            final(self).spec_slots() == kept(old(self).spec_slots(), animating@),
            final(self).spec_visible() == old(self).spec_visible(),
            final(self).wf(),
    {
        let ghost s = self.slots@;
        let mut out: Vec<OrbSlot> = Vec::new();
        let mut i: usize = 0;
        while i < self.slots.len()
            invariant
                self.slots@ == s,
                animating@.len() == s.len(),
                i <= s.len(),
                out@ == kept(s.take(i as int), animating@.take(i as int)),
            decreases s.len() - i,
        {
            proof {
                assert(s.take(i as int + 1).drop_last() == s.take(i as int));
                assert(animating@.take(i as int + 1).take(i as int) == animating@.take(i as int));
            }
            let slot = self.slots[i];
            if slot.active || animating[i] {
                out.push(slot);
            }
            i = i + 1;
        }
        proof {
            assert(s.take(i as int) == s);
            assert(animating@.take(i as int) == animating@);
            lemma_kept_wf(s, animating@);
        }
        self.slots = out;
    }

    /// The wanted buttons in list order, with their side and rank.
    pub fn positions(&self) -> (r: Vec<(u8, Side, usize)>)
        ensures
            r@ == wanted_positions(self.spec_slots()),
    {
        let mut out: Vec<(u8, Side, usize)> = Vec::new();
        let mut i: usize = 0;
        while i < self.slots.len()
            invariant
                i <= self.slots@.len(),
                out@ == wanted_positions(self.slots@.take(i as int)),
            decreases self.slots@.len() - i,
        {
            proof {
                assert(self.slots@.take(i as int + 1).drop_last() == self.slots@.take(i as int));
            }
            let slot = self.slots[i];
            if slot.active {
                out.push((slot.kind, slot.side, slot.rank));
            }
            i = i + 1;
        }
        proof {
            assert(self.slots@.take(i as int) == self.slots@);
        }
        out
    }
}

pub open spec fn wanted_positions(s: Seq<OrbSlot>) -> Seq<(u8, Side, usize)>
    decreases s.len(),
{
    if s.len() == 0 {
        Seq::empty()
    } else if s.last().active {
        wanted_positions(s.drop_last()).push((s.last().kind, s.last().side, s.last().rank))
    } else {
        wanted_positions(s.drop_last())
    }
}

// ---------------------------------------------------------------------
// Lemmas

proof fn lemma_active_on_le(s: Seq<OrbSlot>, side: Side)
    ensures
        active_on(s, side) <= s.len(),
    decreases s.len(),
{
    if s.len() > 0 {
        lemma_active_on_le(s.drop_last(), side);
    }
}

proof fn lemma_active_on_add(a: Seq<OrbSlot>, b: Seq<OrbSlot>, side: Side)
    ensures
        active_on(a + b, side) == active_on(a, side) + active_on(b, side),
    decreases b.len(),
{
    if b.len() == 0 {
        assert(a + b == a);
    } else {
        assert((a + b).drop_last() == a + b.drop_last());
        lemma_active_on_add(a, b.drop_last(), side);
    }
}

/// Counting depends only on the sides and wanted flags.
proof fn lemma_active_on_shape(a: Seq<OrbSlot>, b: Seq<OrbSlot>, side: Side)
    requires
        a.len() == b.len(),
        forall|i: int| 0 <= i < a.len() ==> a[i].active == b[i].active && a[i].side == b[i].side,
    ensures
        active_on(a, side) == active_on(b, side),
    decreases a.len(),
{
    if a.len() > 0 {
        lemma_active_on_shape(a.drop_last(), b.drop_last(), side);
    }
}

proof fn lemma_find_kind_prefix(s: Seq<OrbSlot>, kind: u8, n: int)
    requires
        0 < n <= s.len(),
        find_kind(s.take(n - 1), kind) < 0,
        s[n - 1].kind == kind,
    ensures
        find_kind(s, kind) == n - 1,
    decreases s.len(),
{
    assert(s.take(n).drop_last() == s.take(n - 1));
    assert(find_kind(s.take(n), kind) == n - 1);
    if n < s.len() {
        assert(s.drop_last().take(n) == s.take(n));
        assert(s.drop_last().take(n - 1) == s.take(n - 1));
        lemma_find_kind_prefix(s.drop_last(), kind, n);
    } else {
        assert(s.take(n) == s);
    }
}

proof fn lemma_find_kind_props(s: Seq<OrbSlot>, kind: u8)
    ensures
        -1 <= find_kind(s, kind) < s.len(),
        find_kind(s, kind) >= 0 ==> s[find_kind(s, kind)].kind == kind,
        find_kind(s, kind) < 0 ==> forall|i: int| 0 <= i < s.len() ==> s[i].kind != kind,
    decreases s.len(),
{
    if s.len() > 0 {
        lemma_find_kind_props(s.drop_last(), kind);
        if find_kind(s.drop_last(), kind) < 0 {
            assert forall|i: int| 0 <= i < s.len() - 1 implies s[i].kind != kind by {
                assert(s.drop_last()[i] == s[i]);
            }
        }
    }
}

proof fn lemma_has_active_found(s: Seq<OrbSlot>, kind: u8)
    requires
        has_active(s, kind),
        kinds_unique(s),
    ensures
        find_kind(s, kind) >= 0,
        s[find_kind(s, kind)].active,
{
    lemma_find_kind_props(s, kind);
    let i = choose|i: int| 0 <= i < s.len() && s[i].kind == kind && s[i].active;
    let f = find_kind(s, kind);
    if f != i {
        if f < i {
            assert(s[f].kind != s[i].kind);
        } else {
            assert(s[i].kind != s[f].kind);
        }
    }
}

proof fn lemma_renumber_props(s: Seq<OrbSlot>)
    requires
        s.len() <= usize::MAX,
    ensures
        renumber(s).len() == s.len(),
        forall|i: int|
            0 <= i < s.len() ==> #[trigger] renumber(s)[i].kind == s[i].kind && renumber(s)[i].side
                == s[i].side && renumber(s)[i].active == s[i].active,
        forall|i: int| 0 <= i < s.len() && !s[i].active ==> #[trigger] renumber(s)[i] == s[i],
        forall|side: Side| #[trigger] active_on(renumber(s), side) == active_on(s, side),
        ranked(renumber(s)),
        kinds_unique(s) ==> kinds_unique(renumber(s)),
{
    let r = renumber(s);
    assert forall|side: Side| #[trigger] active_on(r, side) == active_on(s, side) by {
        lemma_active_on_shape(r, s, side);
    }
    assert forall|i: int| 0 <= i < r.len() && #[trigger] r[i].active implies r[i].rank
        == active_on(r.take(i), r[i].side) by {
        let rt = r.take(i);
        let st = s.take(i);
        assert forall|j: int| 0 <= j < rt.len() implies rt[j].active == st[j].active
            && rt[j].side == st[j].side by {
            assert(rt[j] == r[j]);
            assert(st[j] == s[j]);
        }
        lemma_active_on_shape(rt, st, r[i].side);
        lemma_active_on_le(st, r[i].side);
    }
}

proof fn lemma_set_active_wf(s: Seq<OrbSlot>, kind: u8, active: bool)
    requires
        slots_wf(s),
        s.len() <= usize::MAX,
        active ==> activate_spec(s, kind).len() <= usize::MAX,
        has_active(s, kind) != active,
    ensures
        active ==> slots_wf(renumber(activate_spec(s, kind))),
        !active ==> slots_wf(renumber(deactivate_spec(s, kind))),
{
    lemma_find_kind_props(s, kind);
    if active {
        let a = activate_spec(s, kind);
        lemma_renumber_props(a);
        let i = find_kind(s, kind);
        let rest = if i >= 0 {
            s.remove(i)
        } else {
            s
        };
        assert(a == rest.push(a.last()));
        assert forall|p: int, q: int| 0 <= p < q < a.len() implies #[trigger] a[p].kind
            != #[trigger] a[q].kind by {
            if i >= 0 {
                if q == a.len() - 1 {
                    if p < i {
                        assert(s[p].kind != s[i].kind);
                    } else {
                        assert(s[p + 1].kind != s[i].kind) by {
                            assert(s[i].kind != s[p + 1].kind);
                        }
                    }
                } else {
                    let pp = if p < i { p } else { p + 1 };
                    let qq = if q < i { q } else { q + 1 };
                    assert(a[p] == s[pp]);
                    assert(a[q] == s[qq]);
                }
            } else {
                if q == a.len() - 1 {
                    assert(s[p].kind != kind);
                }
            }
        }
    } else {
        lemma_has_active_found(s, kind);
        let d = deactivate_spec(s, kind);
        lemma_renumber_props(d);
        assert forall|p: int, q: int| 0 <= p < q < d.len() implies #[trigger] d[p].kind
            != #[trigger] d[q].kind by {
            assert(s[p].kind != s[q].kind);
        }
    }
}

proof fn lemma_kept_props(s: Seq<OrbSlot>, a: Seq<bool>)
    requires
        a.len() == s.len(),
    ensures
        kept(s, a).len() <= s.len(),
        forall|side: Side| #[trigger] active_on(kept(s, a), side) == active_on(s, side),
        forall|i: int|
            0 <= i < kept(s, a).len() ==> exists|j: int|
                0 <= j < s.len() && #[trigger] kept(s, a)[i] == s[j],
    decreases s.len(),
{
    if s.len() > 0 {
        let p = s.drop_last();
        let pa = a.take(s.len() - 1);
        lemma_kept_props(p, pa);
        let k = kept(p, pa);
        assert forall|i: int| 0 <= i < kept(s, a).len() implies exists|j: int|
            0 <= j < s.len() && #[trigger] kept(s, a)[i] == s[j] by {
            if i < k.len() {
                let j = choose|j: int| 0 <= j < p.len() && k[i] == p[j];
                assert(kept(s, a)[i] == s[j]);
            } else {
                assert(kept(s, a)[i] == s[s.len() - 1]);
            }
        }
        assert forall|side: Side| #[trigger] active_on(kept(s, a), side) == active_on(s, side) by {
            assert(active_on(k, side) == active_on(p, side));
            if s.last().active || a[s.len() - 1] {
                assert(kept(s, a) == k.push(s.last()));
                assert(kept(s, a).drop_last() == k);
                assert(kept(s, a).last() == s.last());
            } else {
                assert(kept(s, a) == k);
            }
        }
    }
}

proof fn lemma_kept_wf(s: Seq<OrbSlot>, a: Seq<bool>)
    requires
        a.len() == s.len(),
        slots_wf(s),
    ensures
        slots_wf(kept(s, a)),
    decreases s.len(),
{
    if s.len() > 0 {
        let p = s.drop_last();
        let pa = a.take(s.len() - 1);
        assert(ranked(p)) by {
            assert forall|i: int| 0 <= i < p.len() && #[trigger] p[i].active implies p[i].rank
                == active_on(p.take(i), p[i].side) by {
                assert(p.take(i) == s.take(i));
                assert(s[i].active);
            }
        }
        assert(kinds_unique(p)) by {
            assert forall|i: int, j: int| 0 <= i < j < p.len() implies #[trigger] p[i].kind
                != #[trigger] p[j].kind by {
                assert(s[i].kind != s[j].kind);
            }
        }
        lemma_kept_wf(p, pa);
        lemma_kept_props(p, pa);
        let k = kept(p, pa);
        if s.last().active || a[s.len() - 1] {
            let r = kept(s, a);
            assert(r == k.push(s.last()));
            assert(r.drop_last() == k);
            assert forall|i: int| 0 <= i < r.len() && #[trigger] r[i].active implies r[i].rank
                == active_on(r.take(i), r[i].side) by {
                if i == r.len() - 1 {
                    assert(r.take(i) == k);
                    assert(s.take(s.len() - 1) == p);
                } else {
                    assert(r.take(i) == k.take(i));
                }
            }
            assert forall|i: int, j: int| 0 <= i < j < r.len() implies #[trigger] r[i].kind
                != #[trigger] r[j].kind by {
                if j == r.len() - 1 {
                    let jj = choose|jj: int| 0 <= jj < p.len() && k[i] == p[jj];
                    assert(s[jj].kind != s[s.len() - 1].kind);
                }
            }
        }
    }
}

// ---------------------------------------------------------------------
// Laws

/// After `set_active(kind, active)` the button is wanted exactly when
/// `active` says so.
pub proof fn lemma_set_active_reaches_goal(s: Seq<OrbSlot>, kind: u8, active: bool)
    requires
        slots_wf(s),
        s.len() < usize::MAX,
    ensures
        has_active(set_active_spec(s, kind, active), kind) == active,
{
    lemma_find_kind_props(s, kind);
    if has_active(s, kind) != active {
        if active {
            let a = activate_spec(s, kind);
            lemma_renumber_props(a);
            let r = renumber(a);
            assert(r[a.len() - 1].kind == kind && r[a.len() - 1].active);
        } else {
            lemma_has_active_found(s, kind);
            let d = deactivate_spec(s, kind);
            lemma_renumber_props(d);
            let r = renumber(d);
            let f = find_kind(s, kind);
            assert forall|i: int| 0 <= i < r.len() implies !(r[i].kind == kind && r[i].active) by {
                if i != f && r[i].kind == kind {
                    if i < f {
                        assert(s[i].kind != s[f].kind);
                    } else {
                        assert(s[f].kind != s[i].kind);
                    }
                }
            }
        }
    }
}

/// Asking twice for the same state is the same as asking once.
pub proof fn lemma_set_active_idempotent(s: Seq<OrbSlot>, kind: u8, active: bool)
    requires
        slots_wf(s),
        s.len() < usize::MAX,
    ensures
        set_active_spec(set_active_spec(s, kind, active), kind, active) == set_active_spec(
            s,
            kind,
            active,
        ),
{
    lemma_set_active_reaches_goal(s, kind, active);
}

/// Changing one button never switches another button's side, never
/// changes whether it is wanted, and never adds or drops another button.
pub proof fn lemma_others_keep_sides(s: Seq<OrbSlot>, kind: u8, active: bool, other: u8)
    requires
        slots_wf(s),
        s.len() < usize::MAX,
        other != kind,
    ensures
        (find_kind(set_active_spec(s, kind, active), other) >= 0) == (find_kind(s, other) >= 0),
        find_kind(s, other) >= 0 ==> ({
            let t = set_active_spec(s, kind, active);
            &&& t[find_kind(t, other)].side == s[find_kind(s, other)].side
            &&& t[find_kind(t, other)].active == s[find_kind(s, other)].active
        }),
{
    let t = set_active_spec(s, kind, active);
    lemma_find_kind_props(s, kind);
    lemma_find_kind_props(s, other);
    lemma_find_kind_props(t, other);
    if has_active(s, kind) != active {
        let base = if active {
            activate_spec(s, kind)
        } else {
            deactivate_spec(s, kind)
        };
        lemma_renumber_props(base);
        let f = find_kind(s, kind);
        let o = find_kind(s, other);
        // map each index of `s` other than the changed one into `base`
        if o >= 0 {
            let oo = if active && f >= 0 && o > f {
                o - 1
            } else {
                o
            };
            assert(base[oo] == s[o]);
            assert(t[oo].kind == other);
            let to = find_kind(t, other);
            if to != oo {
                // two slots of `other` in t would need two in s
                assert(base[to].kind == other);
                if active && to == base.len() - 1 {
                    assert(base[to].kind == kind);
                } else {
                    let tt = if active && f >= 0 && to >= f {
                        to + 1
                    } else {
                        to
                    };
                    assert(base[to] == s[tt] || (!active && to == f));
                    if !active && to == f {
                        assert(s[f].kind == kind);
                    } else {
                        assert(s[tt].kind == other);
                        if tt < o {
                            assert(s[tt].kind != s[o].kind);
                        } else if tt > o {
                            assert(s[o].kind != s[tt].kind);
                        }
                    }
                }
            }
        } else {
            let to = find_kind(t, other);
            if to >= 0 {
                assert(base[to].kind == other);
                if active && to == base.len() - 1 {
                    assert(base[to].kind == kind);
                } else {
                    let tt = if active && f >= 0 && to >= f {
                        to + 1
                    } else {
                        to
                    };
                    if !active && to == f {
                        assert(s[f].kind == kind);
                    } else {
                        assert(base[to] == s[tt]);
                    }
                }
            }
        }
    }
}

/// `set_active` keeps the layout well formed: on each side the wanted
/// buttons, in list order, have the ranks 0, 1, 2, ... without gaps, and no
/// button has two slots. Afterwards the button is wanted exactly when
/// asked, and every other button keeps its slot, its side and whether it
/// is wanted.
pub proof fn lemma_set_active_keeps_layout(s: Seq<OrbSlot>, kind: u8, active: bool)
    requires
        slots_wf(s),
        s.len() < usize::MAX,
    ensures
        slots_wf(set_active_spec(s, kind, active)),
        has_active(set_active_spec(s, kind, active), kind) == active,
        forall|other: u8|
            other != kind ==> ((find_kind(set_active_spec(s, kind, active), other) >= 0) == (
            find_kind(s, other) >= 0)),
        forall|other: u8|
            other != kind && #[trigger] find_kind(s, other) >= 0 ==> ({
                let t = set_active_spec(s, kind, active);
                &&& t[find_kind(t, other)].side == s[find_kind(s, other)].side
                &&& t[find_kind(t, other)].active == s[find_kind(s, other)].active
            }),
{
    if has_active(s, kind) != active {
        lemma_find_kind_props(s, kind);
        lemma_set_active_wf(s, kind, active);
    }
    lemma_set_active_reaches_goal(s, kind, active);
    assert forall|other: u8| other != kind implies ((find_kind(
        set_active_spec(s, kind, active),
        other,
    ) >= 0) == (find_kind(s, other) >= 0)) by {
        lemma_others_keep_sides(s, kind, active, other);
    }
    assert forall|other: u8| other != kind && #[trigger] find_kind(s, other) >= 0 implies ({
        let t = set_active_spec(s, kind, active);
        &&& t[find_kind(t, other)].side == s[find_kind(s, other)].side
        &&& t[find_kind(t, other)].active == s[find_kind(s, other)].active
    }) by {
        lemma_others_keep_sides(s, kind, active, other);
    }
}

/// A button that becomes wanted goes to the emptier side (left on a tie),
/// at the rank right after the buttons already there.
pub proof fn lemma_new_button_takes_emptier_side(s: Seq<OrbSlot>, kind: u8)
    requires
        slots_wf(s),
        s.len() < usize::MAX,
        !has_active(s, kind),
    ensures
        ({
            let t = set_active_spec(s, kind, true);
            &&& t.last().kind == kind
            &&& t.last().active
            &&& t.last().side == pick_side(s)
            &&& t.last().rank == active_on(s, pick_side(s))
        }),
{
    lemma_find_kind_props(s, kind);
    let a = activate_spec(s, kind);
    lemma_renumber_props(a);
    lemma_set_active_wf(s, kind, true);
    let f = find_kind(s, kind);
    let rest = if f >= 0 {
        s.remove(f)
    } else {
        s
    };
    assert(a.take(a.len() - 1) == rest);
    if f >= 0 {
        assert(s == s.take(f) + seq![s[f]] + s.skip(f + 1));
        assert(rest == s.take(f) + s.skip(f + 1));
        lemma_active_on_add(s.take(f) + seq![s[f]], s.skip(f + 1), pick_side(s));
        lemma_active_on_add(s.take(f), seq![s[f]], pick_side(s));
        lemma_active_on_add(s.take(f), s.skip(f + 1), pick_side(s));
        assert(!s[f].active);
        assert(seq![s[f]].drop_last() == Seq::<OrbSlot>::empty());
        assert(seq![s[f]].last() == s[f]);
        assert(active_on(Seq::<OrbSlot>::empty(), pick_side(s)) == 0);
        assert(active_on(seq![s[f]], pick_side(s)) == 0);
        assert(s.remove(f) =~= s.take(f) + s.skip(f + 1));
        assert(active_on(rest, pick_side(s)) == active_on(s, pick_side(s)));
    }
    lemma_active_on_le(s, pick_side(s));
    let side = pick_side(s);
    assert(active_on(rest, side) == active_on(s, side));
    let t = renumber(a);
    let n = a.len() - 1;
    assert(a[n].active);
    assert(t[n].rank == active_on(a.take(n), a[n].side) as usize);
    assert(t.last() == t[n]);
}

proof fn lemma_active_on_first(t: Seq<OrbSlot>, side: Side)
    requires
        t.len() > 0,
        t[0].active,
        t[0].side == side,
    ensures
        active_on(t, side) >= 1,
    decreases t.len(),
{
    if t.len() > 1 {
        lemma_active_on_first(t.drop_last(), side);
    }
}

/// In a well-formed layout the wanted buttons of a side have the ranks
/// 0, 1, ..., n - 1 in list order, n being their number.
pub proof fn lemma_ranks_contiguous(s: Seq<OrbSlot>, i: int, j: int)
    requires
        slots_wf(s),
        0 <= i < j < s.len(),
        s[i].active,
        s[j].active,
        s[i].side == s[j].side,
    ensures
        s[i].rank < s[j].rank,
        s[j].rank < active_on(s, s[j].side),
{
    let side = s[i].side;
    assert(s.take(j) == s.take(i) + s.subrange(i, j));
    lemma_active_on_add(s.take(i), s.subrange(i, j), side);
    lemma_active_on_first(s.subrange(i, j), side);
    assert(s == s.take(j) + s.skip(j));
    lemma_active_on_add(s.take(j), s.skip(j), side);
    lemma_active_on_first(s.skip(j), side);
}

/// A tick never moves, reorders or drops a wanted button.
pub proof fn lemma_tick_keeps_wanted(s: Seq<OrbSlot>, animating: Seq<bool>)
    requires
        animating.len() == s.len(),
    ensures
        wanted_positions(kept(s, animating)) == wanted_positions(s),
    decreases s.len(),
{
    if s.len() > 0 {
        let p = s.drop_last();
        let pa = animating.take(s.len() - 1);
        lemma_tick_keeps_wanted(p, pa);
        let k = kept(p, pa);
        if s.last().active || animating[s.len() - 1] {
            let r = k.push(s.last());
            assert(r.drop_last() == k);
        }
    }
}

/// A newly wanted button goes to the side with fewer wanted buttons, the
/// left one on a tie, and joins the end of that side's row.
pub proof fn lemma_new_button_side(s: Seq<OrbSlot>, kind: u8)
    requires
        slots_wf(s),
        s.len() < usize::MAX,
        !has_active(s, kind),
    ensures
        ({
            let t = set_active_spec(s, kind, true);
            &&& active_on(s, Side::Left) <= active_on(s, Side::Right) ==> t.last().side
                == Side::Left && t.last().rank == active_on(s, Side::Left)
            &&& active_on(s, Side::Left) > active_on(s, Side::Right) ==> t.last().side
                == Side::Right && t.last().rank == active_on(s, Side::Right)
            &&& t.last().kind == kind && t.last().active
        }),
{
    lemma_new_button_takes_emptier_side(s, kind);
}

} // verus!
