use std::collections::VecDeque;
use vstd::prelude::*;

verus! {

/// Smallest width of a satellite panel, in logical pixels.
pub const PANEL_MIN_W: u32 = 280;

/// Vertical gap between two stacked panels.
pub const PANEL_GAP: u32 = 8;

/// Horizontal gap between the capsule and a lane.
pub const LANE_GAP: u32 = 12;

/// Height of a panel that did not measure itself yet.
pub const DEFAULT_PANEL_H: u32 = 120;

/// The two columns of panels beside the dashboard.
#[derive(Clone, Copy, Debug, PartialEq, Eq, Structural)]
pub enum Lane {
    Left,
    Right,
}

/// What a satellite panel shows; a tray panel belongs to one tray item.
#[derive(Clone, Copy, Debug, PartialEq, Eq, Structural)]
pub enum PanelKind {
    Tray(usize),
    Wifi,
    Bluetooth,
    Calendar,
    Volume,
    Media,
}

/// A panel in a lane: its height, and whether it is on its way out.
#[derive(Clone, Copy, Debug, PartialEq, Eq, Structural)]
pub struct OpenPanel {
    pub lane: Lane,
    pub kind: PanelKind,
    pub height: u32,
    pub closing: bool,
}

impl OpenPanel {
    pub fn is_closing(&self) -> (r: bool)
        ensures
            r == self.closing,
    {
        self.closing
    }
}

/// Sum of the heights of the panels that are not closing.
pub open spec fn open_height(s: Seq<OpenPanel>) -> int
    decreases s.len(),
{
    if s.len() == 0 {
        0
    } else {
        open_height(s.drop_last()) + if s.last().closing {
            0
        } else {
            s.last().height as int
        }
    }
}

/// Number of panels that are not closing.
pub open spec fn open_count(s: Seq<OpenPanel>) -> nat
    decreases s.len(),
{
    if s.len() == 0 {
        0
    } else {
        open_count(s.drop_last()) + if s.last().closing {
            0nat
        } else {
            1nat
        }
    }
}

/// Height taken by the open panels of a lane, gaps between them included.
pub open spec fn lane_used_spec(s: Seq<OpenPanel>) -> int {
    open_height(s) + if open_count(s) > 0 {
        (open_count(s) - 1) * PANEL_GAP as int
    } else {
        0
    }
}

/// Room left in a lane of height `max_h` for one more panel, after the gap
/// that would separate it from the panels already open; never negative.
pub open spec fn lane_free_spec(s: Seq<OpenPanel>, max_h: u32) -> int {
    let v = max_h - lane_used_spec(s) - if open_count(s) > 0 {
        PANEL_GAP as int
    } else {
        0
    };
    if v > 0 {
        v
    } else {
        0
    }
}

/// Index of the panel of `kind`, or -1.
pub open spec fn find_panel(s: Seq<OpenPanel>, kind: PanelKind) -> int
    decreases s.len(),
{
    if s.len() == 0 {
        -1
    } else if find_panel(s.drop_last(), kind) >= 0 {
        find_panel(s.drop_last(), kind)
    } else if s.last().kind == kind {
        s.len() - 1
    } else {
        -1
    }
}

/// Index of the first panel that is not closing, or -1.
pub open spec fn first_open(s: Seq<OpenPanel>) -> int
    decreases s.len(),
{
    if s.len() == 0 {
        -1
    } else if first_open(s.drop_last()) >= 0 {
        first_open(s.drop_last())
    } else if !s.last().closing {
        s.len() - 1
    } else {
        -1
    }
}

pub open spec fn set_closing(s: Seq<OpenPanel>, i: int, closing: bool) -> Seq<OpenPanel> {
    s.update(i, OpenPanel { closing, ..s[i] })
}

/// Closes the oldest open panels of a lane, one at a time, until a panel of
/// height `h` fits or no open panel is left.
pub open spec fn evict(s: Seq<OpenPanel>, h: u32, max_h: u32) -> Seq<OpenPanel>
    decreases open_count(s),
{
    if lane_free_spec(s, max_h) >= h || first_open(s) < 0 {
        s
    } else {
        proof {
            lemma_first_open_props(s);
            lemma_close_decreases(s, first_open(s));
        }
        evict(set_closing(s, first_open(s), true), h, max_h)
    }
}

/// The lane a new panel goes to: the one asked for, else the one with more
/// room, the left one on a tie.
pub open spec fn choose_lane(
    left: Seq<OpenPanel>,
    right: Seq<OpenPanel>,
    max_h: u32,
    preferred: Option<Lane>,
) -> Lane {
    match preferred {
        Some(l) => l,
        None => if lane_free_spec(left, max_h) >= lane_free_spec(right, max_h) {
            Lane::Left
        } else {
            Lane::Right
        },
    }
}

/// The two lanes after toggling `kind`: a panel already there reverses
/// direction; otherwise a new panel opens at the end of the chosen lane,
/// after the oldest panels there made room for it.
pub open spec fn toggle_spec(
    left: Seq<OpenPanel>,
    right: Seq<OpenPanel>,
    kind: PanelKind,
    h: u32,
    max_h: u32,
    preferred: Option<Lane>,
) -> (Seq<OpenPanel>, Seq<OpenPanel>) {
    let li = find_panel(left, kind);
    let ri = find_panel(right, kind);
    if li >= 0 {
        (set_closing(left, li, !left[li].closing), right)
    } else if ri >= 0 {
        (left, set_closing(right, ri, !right[ri].closing))
    } else {
        let lane = choose_lane(left, right, max_h, preferred);
        let panel = OpenPanel { lane, kind, height: h, closing: false };
        match lane {
            Lane::Left => (evict(left, h, max_h).push(panel), right),
            Lane::Right => (left, evict(right, h, max_h).push(panel)),
        }
    }
}

/// Every panel of a lane carries that lane.
pub open spec fn lane_tagged(s: Seq<OpenPanel>, lane: Lane) -> bool {
    forall|i: int| 0 <= i < s.len() ==> #[trigger] s[i].lane == lane
}

/// No kind of panel appears twice over both lanes.
pub open spec fn panels_unique(left: Seq<OpenPanel>, right: Seq<OpenPanel>) -> bool {
    &&& forall|i: int, j: int|
        0 <= i < j < left.len() ==> #[trigger] left[i].kind != #[trigger] left[j].kind
    &&& forall|i: int, j: int|
        0 <= i < j < right.len() ==> #[trigger] right[i].kind != #[trigger] right[j].kind
    &&& forall|i: int, j: int|
        0 <= i < left.len() && 0 <= j < right.len() ==> #[trigger] left[i].kind
            != #[trigger] right[j].kind
}

pub open spec fn lanes_wf(left: Seq<OpenPanel>, right: Seq<OpenPanel>) -> bool {
    &&& lane_tagged(left, Lane::Left)
    &&& lane_tagged(right, Lane::Right)
    &&& panels_unique(left, right)
}

/// Both lanes of satellite panels beside the dashboard.
pub struct PanelManager {
    pub left: VecDeque<OpenPanel>,
    pub right: VecDeque<OpenPanel>,
}

/// What a toggle did.
#[derive(Clone, Copy, Debug, PartialEq, Eq, Structural)]
pub enum PanelToggle {
    /// The panel was there and now closes.
    Closing,
    /// The panel was closing and now opens again.
    Reopened,
    /// A new panel opened in this lane.
    Opened(Lane),
}

pub open spec fn toggle_result_spec(left: Seq<OpenPanel>, right: Seq<OpenPanel>, kind: PanelKind, max_h: u32, preferred: Option<Lane>) -> PanelToggle {
    let li = find_panel(left, kind);
    let ri = find_panel(right, kind);
    if li >= 0 {
        if left[li].closing { PanelToggle::Reopened } else { PanelToggle::Closing }
    } else if ri >= 0 {
        if right[ri].closing { PanelToggle::Reopened } else { PanelToggle::Closing }
    } else {
        PanelToggle::Opened(choose_lane(left, right, max_h, preferred))
    }
}

fn position(lane: &VecDeque<OpenPanel>, kind: PanelKind) -> (r: Option<usize>)
    ensures
        match r {
            Some(i) => i == find_panel(lane@, kind),
            None => find_panel(lane@, kind) < 0,
        },
{
    let mut i: usize = 0;
    while i < lane.len()
        invariant
            i <= lane@.len(),
            find_panel(lane@.take(i as int), kind) < 0,
        decreases lane@.len() - i,
    {
        proof {
            assert(lane@.take(i as int + 1).drop_last() == lane@.take(i as int));
        }
        if lane[i].kind == kind {
            proof {
                lemma_find_panel_prefix(lane@, kind, i as int + 1);
            }
            return Some(i);
        }
        i = i + 1;
    }
    proof {
        assert(lane@.take(i as int) == lane@);
    }
    None
}

fn position_open(lane: &VecDeque<OpenPanel>) -> (r: Option<usize>)
    ensures
        match r {
            Some(i) => i == first_open(lane@),
            None => first_open(lane@) < 0,
        },
{
    let mut i: usize = 0;
    while i < lane.len()
        invariant
            i <= lane@.len(),
            first_open(lane@.take(i as int)) < 0,
        decreases lane@.len() - i,
    {
        proof {
            assert(lane@.take(i as int + 1).drop_last() == lane@.take(i as int));
        }
        if !lane[i].closing {
            proof {
                lemma_first_open_prefix(lane@, i as int + 1);
            }
            return Some(i);
        }
        i = i + 1;
    }
    proof {
        assert(lane@.take(i as int) == lane@);
    }
    None
}

/// Puts `x` in place of the panel at `i`.
fn replace_at(lane: &mut VecDeque<OpenPanel>, i: usize, x: OpenPanel)
    requires
        i < old(lane)@.len(),
    ensures
        final(lane)@ == old(lane)@.update(i as int, x),
{
    let ghost s = lane@;
    lane.remove(i);
    lane.insert(i, x);
    assert(lane@ =~= s.update(i as int, x));
}

fn set_closing_at(lane: &mut VecDeque<OpenPanel>, i: usize, closing: bool)
    requires
        i < old(lane)@.len(),
    ensures
        final(lane)@ == set_closing(old(lane)@, i as int, closing),
{
    let p = lane[i];
    replace_at(lane, i, OpenPanel { closing, ..p });
}

fn evict_lane(lane: &mut VecDeque<OpenPanel>, h: u32, max_h: u32)
    ensures
        final(lane)@ == evict(old(lane)@, h, max_h),
{
    loop
        invariant
            evict(lane@, h, max_h) == evict(old(lane)@, h, max_h),
        ensures
            lane@ == evict(old(lane)@, h, max_h),
        decreases open_count(lane@),
    {
        if PanelManager::lane_free(lane, max_h) >= h {
            break;
        }
        match position_open(lane) {
            Some(i) => {
                proof {
                    lemma_first_open_props(lane@);
                    lemma_close_decreases(lane@, i as int);
                }
                set_closing_at(lane, i, true);
            },
            None => {
                proof {
                    lemma_first_open_props(lane@);
                }
                break;
            },
        }
    }
}

impl PanelManager {
    pub open spec fn wf(&self) -> bool {
        lanes_wf(self.left@, self.right@)
    }

    pub fn new() -> (r: Self)
        ensures
            r.left@ == Seq::<OpenPanel>::empty(),
            r.right@ == Seq::<OpenPanel>::empty(),
            r.wf(),
    {
        PanelManager { left: VecDeque::new(), right: VecDeque::new() }
    }

    /// Height taken by the open panels of `lane`, gaps included.
    pub fn lane_used(lane: &VecDeque<OpenPanel>) -> (r: u128)
        ensures
            r == lane_used_spec(lane@),
    {
        let mut used: u128 = 0;
        let mut count: u128 = 0;
        let mut i: usize = 0;
        while i < lane.len()
            invariant
                i <= lane@.len(),
                used == open_height(lane@.take(i as int)),
                count == open_count(lane@.take(i as int)),
                count <= i,
                used <= i * (u32::MAX as int),
            decreases lane@.len() - i,
        {
            proof {
                assert(lane@.take(i as int + 1).drop_last() == lane@.take(i as int));
            }
            let p = lane[i];
            if !p.closing {
                proof {
                    assert(used + p.height <= (i + 1) * (u32::MAX as int)) by (nonlinear_arith)
                        requires
                            used <= i * (u32::MAX as int),
                            p.height <= u32::MAX,
                    ;
                    assert((i as int) * (u32::MAX as int) <= (usize::MAX as int) * (u32::MAX as int)) by (nonlinear_arith)
                        requires i <= usize::MAX;
                }
                used = used + p.height as u128;
                count = count + 1;
            } else {
                proof {
                    assert(i * (u32::MAX as int) <= (i + 1) * (u32::MAX as int)) by (nonlinear_arith);
                }
            }
            i = i + 1;
        }
        proof {
            assert(lane@.take(i as int) == lane@);
            assert(used <= 0x1_0000_0000_0000_0000_0000_0000) by (nonlinear_arith)
                requires
                    used <= i * (u32::MAX as int),
                    i <= usize::MAX,
                    usize::MAX <= u64::MAX,
            ;
            assert(count <= 0x1_0000_0000_0000_0000);
        }
        if count > 0 {
            let gaps: u128 = (count - 1) * 8;
            assert(gaps <= 0x10_0000_0000_0000_0000);
            used + gaps
        } else {
            used
        }
    }

    /// Room left in `lane`, of total height `max_h`, for one more panel.
    pub fn lane_free(lane: &VecDeque<OpenPanel>, max_h: u32) -> (r: u32)
        ensures
            r == lane_free_spec(lane@, max_h),
    {
        let used = Self::lane_used(lane);
        let has_active = Self::any_open(lane);
        let gap: u128 = if has_active {
            PANEL_GAP as u128
        } else {
            0
        };
        proof {
            lemma_open_count_pos(lane@);
        }
        if used > max_h as u128 {
            return 0;
        }
        if (max_h as u128) > used + gap {
            (max_h as u128 - used - gap) as u32
        } else {
            0
        }
    }

    fn any_open(lane: &VecDeque<OpenPanel>) -> (r: bool)
        ensures
            r == (open_count(lane@) > 0),
    {
        let r = position_open(lane);
        proof {
            lemma_first_open_props(lane@);
        }
        r.is_some()
    }

    /// Whether any panel of either lane is open (not closing).
    pub fn has_open(&self) -> (r: bool)
        ensures
            r == (open_count(self.left@) > 0 || open_count(self.right@) > 0),
    {
        Self::any_open(&self.left) || Self::any_open(&self.right)
    }

    /// Whether the panel of `kind` is open (present and not closing).
    pub fn is_open(&self, kind: PanelKind) -> (r: bool)
        ensures
            r == ((exists|i: int|
                0 <= i < self.left@.len() && self.left@[i].kind == kind && !self.left@[i].closing)
                || (exists|i: int|
                0 <= i < self.right@.len() && self.right@[i].kind == kind
                    && !self.right@[i].closing)),
    {
        let a = Self::lane_has_open_kind(&self.left, kind);
        let b = Self::lane_has_open_kind(&self.right, kind);
        a || b
    }

    fn lane_has_open_kind(lane: &VecDeque<OpenPanel>, kind: PanelKind) -> (r: bool)
        ensures
            r == (exists|i: int| 0 <= i < lane@.len() && lane@[i].kind == kind && !lane@[i].closing),
    {
        let mut i: usize = 0;
        while i < lane.len()
            invariant
                i <= lane@.len(),
                forall|j: int| 0 <= j < i ==> !(lane@[j].kind == kind && !lane@[j].closing),
            decreases lane@.len() - i,
        {
            if lane[i].kind == kind && !lane[i].closing {
                return true;
            }
            i = i + 1;
        }
        false
    }

    /// Toggles the panel of `kind` and lets the lanes make room for it.
    pub fn toggle(&mut self, kind: PanelKind, panel_h: u32, max_lane_h: u32) -> (r: PanelToggle)
        requires
            old(self).wf(),
        ensures
            (final(self).left@, final(self).right@) == toggle_spec(
                old(self).left@,
                old(self).right@,
                kind,
                panel_h,
                max_lane_h,
                None,
            ),
            r == toggle_result_spec(old(self).left@, old(self).right@, kind, max_lane_h, None),
            final(self).wf(),
    {
        self.toggle_in_lane(kind, panel_h, max_lane_h, None)
    }

    /// Toggles the panel of `kind`; a new panel goes to `preferred_lane` when
    /// one is given.
    pub fn toggle_in_lane(
        &mut self,
        kind: PanelKind,
        panel_h: u32,
        max_lane_h: u32,
        preferred_lane: Option<Lane>,
    ) -> (r: PanelToggle)
        requires
            old(self).wf(),
        ensures
            (final(self).left@, final(self).right@) == toggle_spec(
                old(self).left@,
                old(self).right@,
                kind,
                panel_h,
                max_lane_h,
                preferred_lane,
            ),
            r == toggle_result_spec(old(self).left@, old(self).right@, kind, max_lane_h, preferred_lane),
            final(self).wf(),
    {
        let ghost l0 = self.left@;
        let ghost r0 = self.right@;
        proof {
            lemma_find_panel_props(l0, kind);
            lemma_find_panel_props(r0, kind);
        }
        match position(&self.left, kind) {
            Some(i) => {
                let was = self.left[i].closing;
                set_closing_at(&mut self.left, i, !was);
                proof {
                    lemma_set_closing_wf(l0, r0, i as int, !was, true);
                }
                return if was {
                    PanelToggle::Reopened
                } else {
                    PanelToggle::Closing
                };
            },
            None => {},
        }
        match position(&self.right, kind) {
            Some(i) => {
                let was = self.right[i].closing;
                set_closing_at(&mut self.right, i, !was);
                proof {
                    lemma_set_closing_wf(l0, r0, i as int, !was, false);
                }
                return if was {
                    PanelToggle::Reopened
                } else {
                    PanelToggle::Closing
                };
            },
            None => {},
        }
        let lane = match preferred_lane {
            Some(l) => l,
            None => if Self::lane_free(&self.left, max_lane_h) >= Self::lane_free(
                &self.right,
                max_lane_h,
            ) {
                Lane::Left
            } else {
                Lane::Right
            },
        };
        let panel = OpenPanel { lane, kind, height: panel_h, closing: false };
        match lane {
            Lane::Left => {
                evict_lane(&mut self.left, panel_h, max_lane_h);
                self.left.push_back(panel);
            },
            Lane::Right => {
                evict_lane(&mut self.right, panel_h, max_lane_h);
                self.right.push_back(panel);
            },
        }
        proof {
            lemma_evict_shape(l0, panel_h, max_lane_h);
            lemma_evict_shape(r0, panel_h, max_lane_h);
            lemma_open_new_wf(l0, r0, kind, panel_h, max_lane_h, lane);
        }
        PanelToggle::Opened(lane)
    }

    /// Starts closing the panel of `kind`, if there is one.
    pub fn close(&mut self, kind: PanelKind)
        requires
            old(self).wf(),
        ensures
            find_panel(old(self).left@, kind) >= 0 ==> final(self).left@ == set_closing(
                old(self).left@,
                find_panel(old(self).left@, kind),
                true,
            ) && final(self).right@ == old(self).right@,
            find_panel(old(self).left@, kind) < 0 && find_panel(old(self).right@, kind) >= 0
                ==> final(self).left@ == old(self).left@ && final(self).right@ == set_closing(
                old(self).right@,
                find_panel(old(self).right@, kind),
                true,
            ),
            find_panel(old(self).left@, kind) < 0 && find_panel(old(self).right@, kind) < 0
                ==> final(self).left@ == old(self).left@ && final(self).right@ == old(self).right@,
            final(self).wf(),
    {
        let ghost l0 = self.left@;
        let ghost r0 = self.right@;
        proof {
            lemma_find_panel_props(l0, kind);
            lemma_find_panel_props(r0, kind);
        }
        match position(&self.left, kind) {
            Some(i) => {
                set_closing_at(&mut self.left, i, true);
                proof {
                    lemma_set_closing_wf(l0, r0, i as int, true, true);
                }
                return ;
            },
            None => {},
        }
        match position(&self.right, kind) {
            Some(i) => {
                set_closing_at(&mut self.right, i, true);
                proof {
                    lemma_set_closing_wf(l0, r0, i as int, true, false);
                }
            },
            None => {},
        }
    }

    /// Starts closing every panel.
    pub fn close_all(&mut self)
        requires
            old(self).wf(),
        ensures
            final(self).left@ == all_closing(old(self).left@),
            final(self).right@ == all_closing(old(self).right@),
            final(self).wf(),
    {
        let ghost l0 = self.left@;
        let ghost r0 = self.right@;
        close_every(&mut self.left);
        close_every(&mut self.right);
        proof {
            lemma_same_shape_wf(l0, r0, self.left@, self.right@);
        }
    }

    /// Drops every panel at once, without animation.
    pub fn clear(&mut self)
        ensures
            final(self).left@ == Seq::<OpenPanel>::empty(),
            final(self).right@ == Seq::<OpenPanel>::empty(),
            final(self).wf(),
    {
        self.left.clear();
        self.right.clear();
    }

    /// Starts closing the tray panels whose item index is no longer valid.
    pub fn prune_invalid(&mut self, valid_tray_len: usize)
        requires
            old(self).wf(),
        ensures
            final(self).left@ == pruned(old(self).left@, valid_tray_len),
            final(self).right@ == pruned(old(self).right@, valid_tray_len),
            final(self).wf(),
    {
        let ghost l0 = self.left@;
        let ghost r0 = self.right@;
        prune_lane(&mut self.left, valid_tray_len);
        prune_lane(&mut self.right, valid_tray_len);
        proof {
            lemma_same_shape_wf(l0, r0, self.left@, self.right@);
        }
    }

    /// Removes the closing panels whose closing animation is over;
    /// `finished_left[i]` and `finished_right[i]` tell it of panel `i`.
    pub fn drop_finished(&mut self, finished_left: &Vec<bool>, finished_right: &Vec<bool>)
        requires
            old(self).wf(),
            finished_left@.len() == old(self).left@.len(),
            finished_right@.len() == old(self).right@.len(),
        ensures
            final(self).left@ == unfinished(old(self).left@, finished_left@),
            final(self).right@ == unfinished(old(self).right@, finished_right@),
            final(self).wf(),
    {
        let ghost l0 = self.left@;
        let ghost r0 = self.right@;
        let l = keep_unfinished(&self.left, finished_left);
        let r = keep_unfinished(&self.right, finished_right);
        self.left = l;
        self.right = r;
        proof {
            lemma_unfinished_subseq(l0, finished_left@);
            lemma_unfinished_subseq(r0, finished_right@);
            lemma_subseq_wf(l0, r0, self.left@, self.right@);
        }
    }

    /// The tray item indices that have a panel, left lane first.
    pub fn open_tray_indices(&self) -> (r: Vec<usize>)
        ensures
            r@ == tray_indices(self.left@) + tray_indices(self.right@),
    {
        let mut out = lane_tray_indices(&self.left);
        let mut more = lane_tray_indices(&self.right);
        out.append(&mut more);
        out
    }

    /// Whether a media panel is present in either lane.
    pub fn has_media_panel(&self) -> (r: bool)
        ensures
            r == (find_panel(self.left@, PanelKind::Media) >= 0 || find_panel(
                self.right@,
                PanelKind::Media,
            ) >= 0),
    {
        position(&self.left, PanelKind::Media).is_some() || position(
            &self.right,
            PanelKind::Media,
        ).is_some()
    }
}

pub open spec fn all_closing(s: Seq<OpenPanel>) -> Seq<OpenPanel> {
    Seq::new(s.len(), |i: int| OpenPanel { closing: true, ..s[i] })
}

pub open spec fn tray_invalid(kind: PanelKind, valid_tray_len: usize) -> bool {
    match kind {
        PanelKind::Tray(index) => index >= valid_tray_len,
        _ => false,
    }
}

pub open spec fn pruned(s: Seq<OpenPanel>, valid_tray_len: usize) -> Seq<OpenPanel> {
    Seq::new(
        s.len(),
        |i: int|
            if tray_invalid(s[i].kind, valid_tray_len) {
                OpenPanel { closing: true, ..s[i] }
            } else {
                s[i]
            },
    )
}

/// The panels that stay after a tick: all but the closing ones whose
/// animation ended.
pub open spec fn unfinished(s: Seq<OpenPanel>, finished: Seq<bool>) -> Seq<OpenPanel>
    decreases s.len(),
{
    if s.len() == 0 {
        Seq::empty()
    } else {
        let rest = unfinished(s.drop_last(), finished.take(s.len() - 1));
        if s.last().closing && finished[s.len() - 1] {
            rest
        } else {
            rest.push(s.last())
        }
    }
}

pub open spec fn tray_indices(s: Seq<OpenPanel>) -> Seq<usize>
    decreases s.len(),
{
    if s.len() == 0 {
        Seq::empty()
    } else {
        match s.last().kind {
            PanelKind::Tray(index) => tray_indices(s.drop_last()).push(index),
            _ => tray_indices(s.drop_last()),
        }
    }
}

fn close_every(lane: &mut VecDeque<OpenPanel>)
    ensures
        final(lane)@ == all_closing(old(lane)@),
{
    let ghost s = lane@;
    let mut i: usize = 0;
    while i < lane.len()
        invariant
            lane@.len() == s.len(),
            i <= s.len(),
            forall|j: int| 0 <= j < i ==> lane@[j] == all_closing(s)[j],
            forall|j: int| i <= j < s.len() ==> lane@[j] == s[j],
        decreases s.len() - i,
    {
        let p = lane[i];
        replace_at(lane, i, OpenPanel { closing: true, ..p });
        i = i + 1;
    }
    assert(lane@ == all_closing(s));
}

fn prune_lane(lane: &mut VecDeque<OpenPanel>, valid_tray_len: usize)
    ensures
        final(lane)@ == pruned(old(lane)@, valid_tray_len),
{
    let ghost s = lane@;
    let mut i: usize = 0;
    while i < lane.len()
        invariant
            lane@.len() == s.len(),
            i <= s.len(),
            forall|j: int| 0 <= j < i ==> lane@[j] == pruned(s, valid_tray_len)[j],
            forall|j: int| i <= j < s.len() ==> lane@[j] == s[j],
        decreases s.len() - i,
    {
        let p = lane[i];
        let invalid = match p.kind {
            PanelKind::Tray(index) => index >= valid_tray_len,
            _ => false,
        };
        if invalid {
            replace_at(lane, i, OpenPanel { closing: true, ..p });
        }
        i = i + 1;
    }
    assert(lane@ == pruned(s, valid_tray_len));
}

fn keep_unfinished(lane: &VecDeque<OpenPanel>, finished: &Vec<bool>) -> (r: VecDeque<OpenPanel>)
    requires
        finished@.len() == lane@.len(),
    ensures
        r@ == unfinished(lane@, finished@),
{
    let mut out: VecDeque<OpenPanel> = VecDeque::new();
    let mut i: usize = 0;
    while i < lane.len()
        invariant
            finished@.len() == lane@.len(),
            i <= lane@.len(),
            out@ == unfinished(lane@.take(i as int), finished@.take(i as int)),
        decreases lane@.len() - i,
    {
        proof {
            assert(lane@.take(i as int + 1).drop_last() == lane@.take(i as int));
            assert(finished@.take(i as int + 1).take(i as int) == finished@.take(i as int));
        }
        let p = lane[i];
        if !(p.closing && finished[i]) {
            out.push_back(p);
        }
        i = i + 1;
    }
    proof {
        assert(lane@.take(i as int) == lane@);
        assert(finished@.take(i as int) == finished@);
    }
    out
}

fn lane_tray_indices(lane: &VecDeque<OpenPanel>) -> (r: Vec<usize>)
    ensures
        r@ == tray_indices(lane@),
{
    let mut out: Vec<usize> = Vec::new();
    let mut i: usize = 0;
    while i < lane.len()
        invariant
            i <= lane@.len(),
            out@ == tray_indices(lane@.take(i as int)),
        decreases lane@.len() - i,
    {
        proof {
            assert(lane@.take(i as int + 1).drop_last() == lane@.take(i as int));
        }
        match lane[i].kind {
            PanelKind::Tray(index) => {
                out.push(index);
            },
            _ => {},
        }
        i = i + 1;
    }
    proof {
        assert(lane@.take(i as int) == lane@);
    }
    out
}

// ---------------------------------------------------------------------
// Lemmas

proof fn lemma_find_panel_prefix(s: Seq<OpenPanel>, kind: PanelKind, n: int)
    requires
        0 < n <= s.len(),
        find_panel(s.take(n - 1), kind) < 0,
        s[n - 1].kind == kind,
    ensures
        find_panel(s, kind) == n - 1,
    decreases s.len(),
{
    assert(s.take(n).drop_last() == s.take(n - 1));
    if n < s.len() {
        assert(s.drop_last().take(n) == s.take(n));
        assert(s.drop_last().take(n - 1) == s.take(n - 1));
        lemma_find_panel_prefix(s.drop_last(), kind, n);
    } else {
        assert(s.take(n) == s);
    }
}

proof fn lemma_find_panel_props(s: Seq<OpenPanel>, kind: PanelKind)
    ensures
        -1 <= find_panel(s, kind) < s.len(),
        find_panel(s, kind) >= 0 ==> s[find_panel(s, kind)].kind == kind,
        find_panel(s, kind) < 0 ==> forall|i: int| 0 <= i < s.len() ==> s[i].kind != kind,
    decreases s.len(),
{
    if s.len() > 0 {
        lemma_find_panel_props(s.drop_last(), kind);
        if find_panel(s.drop_last(), kind) < 0 {
            assert forall|i: int| 0 <= i < s.len() - 1 implies s[i].kind != kind by {
                assert(s.drop_last()[i] == s[i]);
            }
        }
    }
}

proof fn lemma_first_open_prefix(s: Seq<OpenPanel>, n: int)
    requires
        0 < n <= s.len(),
        first_open(s.take(n - 1)) < 0,
        !s[n - 1].closing,
    ensures
        first_open(s) == n - 1,
    decreases s.len(),
{
    assert(s.take(n).drop_last() == s.take(n - 1));
    if n < s.len() {
        assert(s.drop_last().take(n) == s.take(n));
        assert(s.drop_last().take(n - 1) == s.take(n - 1));
        lemma_first_open_prefix(s.drop_last(), n);
    } else {
        assert(s.take(n) == s);
    }
}

pub proof fn lemma_first_open_props(s: Seq<OpenPanel>)
    ensures
        -1 <= first_open(s) < s.len(),
        first_open(s) >= 0 ==> !s[first_open(s)].closing,
        first_open(s) < 0 ==> forall|i: int| 0 <= i < s.len() ==> s[i].closing,
        forall|i: int| 0 <= i < first_open(s) ==> #[trigger] s[i].closing,
        (first_open(s) >= 0) == (open_count(s) > 0),
    decreases s.len(),
{
    if s.len() > 0 {
        lemma_first_open_props(s.drop_last());
        if first_open(s.drop_last()) < 0 {
            assert forall|i: int| 0 <= i < s.len() - 1 implies s[i].closing by {
                assert(s.drop_last()[i] == s[i]);
            }
        } else {
            assert forall|i: int| 0 <= i < first_open(s) implies #[trigger] s[i].closing by {
                assert(s.drop_last()[i] == s[i]);
            }
        }
    }
}

proof fn lemma_open_count_pos(s: Seq<OpenPanel>)
    ensures
        open_count(s) <= s.len(),
        open_height(s) >= 0,
    decreases s.len(),
{
    if s.len() > 0 {
        lemma_open_count_pos(s.drop_last());
    }
}

pub proof fn lemma_close_decreases(s: Seq<OpenPanel>, i: int)
    requires
        0 <= i < s.len(),
        !s[i].closing,
    ensures
        open_count(set_closing(s, i, true)) + 1 == open_count(s),
    decreases s.len(),
{
    let t = set_closing(s, i, true);
    if i == s.len() - 1 {
        assert(t.drop_last() == s.drop_last());
    } else {
        assert(t.drop_last() == set_closing(s.drop_last(), i, true));
        lemma_close_decreases(s.drop_last(), i);
    }
}

/// Closing panels keeps their kinds, lanes and order.
proof fn lemma_evict_shape(s: Seq<OpenPanel>, h: u32, max_h: u32)
    ensures
        evict(s, h, max_h).len() == s.len(),
        forall|i: int|
            0 <= i < s.len() ==> #[trigger] evict(s, h, max_h)[i].kind == s[i].kind && evict(
                s,
                h,
                max_h,
            )[i].lane == s[i].lane && evict(s, h, max_h)[i].height == s[i].height,
    decreases open_count(s),
{
    if !(lane_free_spec(s, max_h) >= h || first_open(s) < 0) {
        lemma_first_open_props(s);
        lemma_close_decreases(s, first_open(s));
        lemma_evict_shape(set_closing(s, first_open(s), true), h, max_h);
    }
}

proof fn lemma_set_closing_wf(
    l: Seq<OpenPanel>,
    r: Seq<OpenPanel>,
    i: int,
    closing: bool,
    on_left: bool,
)
    requires
        lanes_wf(l, r),
        on_left ==> 0 <= i < l.len(),
        !on_left ==> 0 <= i < r.len(),
    ensures
        on_left ==> lanes_wf(set_closing(l, i, closing), r),
        !on_left ==> lanes_wf(l, set_closing(r, i, closing)),
{
    if on_left {
        let t = set_closing(l, i, closing);
        assert forall|a: int, b: int| 0 <= a < b < t.len() implies #[trigger] t[a].kind
            != #[trigger] t[b].kind by {
            assert(l[a].kind != l[b].kind);
        }
        assert forall|a: int, b: int| 0 <= a < t.len() && 0 <= b < r.len() implies #[trigger] t[a].kind
            != #[trigger] r[b].kind by {
            assert(l[a].kind != r[b].kind);
        }
    } else {
        let t = set_closing(r, i, closing);
        assert forall|a: int, b: int| 0 <= a < b < t.len() implies #[trigger] t[a].kind
            != #[trigger] t[b].kind by {
            assert(r[a].kind != r[b].kind);
        }
        assert forall|a: int, b: int| 0 <= a < l.len() && 0 <= b < t.len() implies #[trigger] l[a].kind
            != #[trigger] t[b].kind by {
            assert(l[a].kind != r[b].kind);
        }
    }
}

proof fn lemma_open_new_wf(
    l: Seq<OpenPanel>,
    r: Seq<OpenPanel>,
    kind: PanelKind,
    h: u32,
    max_h: u32,
    lane: Lane,
)
    requires
        lanes_wf(l, r),
        find_panel(l, kind) < 0,
        find_panel(r, kind) < 0,
    ensures
        lane == Lane::Left ==> lanes_wf(
            evict(l, h, max_h).push(OpenPanel { lane, kind, height: h, closing: false }),
            r,
        ),
        lane == Lane::Right ==> lanes_wf(
            l,
            evict(r, h, max_h).push(OpenPanel { lane, kind, height: h, closing: false }),
        ),
{
    lemma_find_panel_props(l, kind);
    lemma_find_panel_props(r, kind);
    lemma_evict_shape(l, h, max_h);
    lemma_evict_shape(r, h, max_h);
    let p = OpenPanel { lane, kind, height: h, closing: false };
    if lane == Lane::Left {
        let t = evict(l, h, max_h).push(p);
        assert forall|a: int| 0 <= a < t.len() implies #[trigger] t[a].lane == Lane::Left by {
            if a < l.len() {
                assert(t[a] == evict(l, h, max_h)[a]);
                assert(evict(l, h, max_h)[a].kind == l[a].kind);
            }
        }
        assert forall|a: int, b: int| 0 <= a < b < t.len() implies #[trigger] t[a].kind
            != #[trigger] t[b].kind by {
            if b < l.len() {
                assert(l[a].kind != l[b].kind);
            } else {
                assert(l[a].kind != kind);
            }
        }
        assert forall|a: int, b: int| 0 <= a < t.len() && 0 <= b < r.len() implies #[trigger] t[a].kind
            != #[trigger] r[b].kind by {
            if a < l.len() {
                assert(l[a].kind != r[b].kind);
            }
        }
    } else {
        let t = evict(r, h, max_h).push(p);
        assert forall|a: int| 0 <= a < t.len() implies #[trigger] t[a].lane == Lane::Right by {
            if a < r.len() {
                assert(t[a] == evict(r, h, max_h)[a]);
                assert(evict(r, h, max_h)[a].kind == r[a].kind);
            }
        }
        assert forall|a: int, b: int| 0 <= a < b < t.len() implies #[trigger] t[a].kind
            != #[trigger] t[b].kind by {
            if b < r.len() {
                assert(r[a].kind != r[b].kind);
            } else {
                assert(r[a].kind != kind);
            }
        }
        assert forall|a: int, b: int| 0 <= a < l.len() && 0 <= b < t.len() implies #[trigger] l[a].kind
            != #[trigger] t[b].kind by {
            if b < r.len() {
                assert(l[a].kind != r[b].kind);
            }
        }
    }
}

proof fn lemma_same_shape_wf(
    l: Seq<OpenPanel>,
    r: Seq<OpenPanel>,
    l2: Seq<OpenPanel>,
    r2: Seq<OpenPanel>,
)
    requires
        lanes_wf(l, r),
        l2.len() == l.len(),
        r2.len() == r.len(),
        forall|i: int| 0 <= i < l.len() ==> l2[i].kind == l[i].kind && l2[i].lane == l[i].lane,
        forall|i: int| 0 <= i < r.len() ==> r2[i].kind == r[i].kind && r2[i].lane == r[i].lane,
    ensures
        lanes_wf(l2, r2),
{
    assert forall|a: int, b: int| 0 <= a < b < l2.len() implies #[trigger] l2[a].kind
        != #[trigger] l2[b].kind by {
        assert(l[a].kind != l[b].kind);
    }
    assert forall|a: int, b: int| 0 <= a < b < r2.len() implies #[trigger] r2[a].kind
        != #[trigger] r2[b].kind by {
        assert(r[a].kind != r[b].kind);
    }
    assert forall|a: int, b: int| 0 <= a < l2.len() && 0 <= b < r2.len() implies #[trigger] l2[a].kind
        != #[trigger] r2[b].kind by {
        assert(l[a].kind != r[b].kind);
    }
    assert forall|a: int| 0 <= a < l2.len() implies #[trigger] l2[a].lane == Lane::Left by {
        assert(l[a].lane == Lane::Left);
    }
    assert forall|a: int| 0 <= a < r2.len() implies #[trigger] r2[a].lane == Lane::Right by {
        assert(r[a].lane == Lane::Right);
    }
}

/// `t` lists some of the panels of `s`, in their order.
pub open spec fn is_subseq(t: Seq<OpenPanel>, s: Seq<OpenPanel>) -> bool {
    exists|m: Seq<int>|
        #![trigger m.len()]
        m.len() == t.len() && (forall|i: int| 0 <= i < t.len() ==> 0 <= #[trigger] m[i] < s.len()
            && t[i] == s[m[i]]) && (forall|i: int, j: int|
            0 <= i < j < t.len() ==> #[trigger] m[i] < #[trigger] m[j])
}

proof fn lemma_unfinished_subseq(s: Seq<OpenPanel>, f: Seq<bool>)
    requires
        f.len() == s.len(),
    ensures
        is_subseq(unfinished(s, f), s),
        forall|i: int| 0 <= i < s.len() && !s[i].closing ==> unfinished(s, f).contains(s[i]),
    decreases s.len(),
{
    if s.len() == 0 {
        let m = Seq::<int>::empty();
        assert(m.len() == 0);
    } else {
        let p = s.drop_last();
        let pf = f.take(s.len() - 1);
        lemma_unfinished_subseq(p, pf);
        let k = unfinished(p, pf);
        let m = choose|m: Seq<int>|
            #![trigger m.len()]
            m.len() == k.len() && (forall|i: int|
                0 <= i < k.len() ==> 0 <= #[trigger] m[i] < p.len() && k[i] == p[m[i]]) && (
            forall|i: int, j: int| 0 <= i < j < k.len() ==> #[trigger] m[i] < #[trigger] m[j]);
        if s.last().closing && f[s.len() - 1] {
            assert(m.len() == k.len());
            assert forall|i: int| 0 <= i < s.len() && !s[i].closing implies unfinished(
                s,
                f,
            ).contains(s[i]) by {
                assert(p[i] == s[i]);
            }
        } else {
            let t = k.push(s.last());
            let m2 = m.push(s.len() - 1);
            assert(m2.len() == t.len());
            assert forall|i: int| 0 <= i < t.len() implies 0 <= #[trigger] m2[i] < s.len() && t[i]
                == s[m2[i]] by {
                if i < k.len() {
                    assert(m2[i] == m[i]);
                }
            }
            assert forall|i: int, j: int| 0 <= i < j < t.len() implies #[trigger] m2[i]
                < #[trigger] m2[j] by {
                if j < k.len() {
                    assert(m[i] < m[j]);
                } else {
                    assert(m2[i] == m[i]);
                }
            }
            assert forall|i: int| 0 <= i < s.len() && !s[i].closing implies unfinished(
                s,
                f,
            ).contains(s[i]) by {
                if i < s.len() - 1 {
                    assert(p[i] == s[i]);
                    let w = choose|w: int| 0 <= w < k.len() && k[w] == p[i];
                    assert(t[w] == s[i]);
                } else {
                    assert(t[k.len() as int] == s[i]);
                }
            }
        }
    }
}

proof fn lemma_subseq_wf(
    l: Seq<OpenPanel>,
    r: Seq<OpenPanel>,
    l2: Seq<OpenPanel>,
    r2: Seq<OpenPanel>,
)
    requires
        lanes_wf(l, r),
        is_subseq(l2, l),
        is_subseq(r2, r),
    ensures
        lanes_wf(l2, r2),
{
    let ml = choose|m: Seq<int>|
        #![trigger m.len()]
        m.len() == l2.len() && (forall|i: int|
            0 <= i < l2.len() ==> 0 <= #[trigger] m[i] < l.len() && l2[i] == l[m[i]]) && (forall|
            i: int,
            j: int,
        | 0 <= i < j < l2.len() ==> #[trigger] m[i] < #[trigger] m[j]);
    let mr = choose|m: Seq<int>|
        #![trigger m.len()]
        m.len() == r2.len() && (forall|i: int|
            0 <= i < r2.len() ==> 0 <= #[trigger] m[i] < r.len() && r2[i] == r[m[i]]) && (forall|
            i: int,
            j: int,
        | 0 <= i < j < r2.len() ==> #[trigger] m[i] < #[trigger] m[j]);
    assert forall|a: int, b: int| 0 <= a < b < l2.len() implies #[trigger] l2[a].kind
        != #[trigger] l2[b].kind by {
        assert(ml[a] < ml[b]);
        assert(l[ml[a]].kind != l[ml[b]].kind);
    }
    assert forall|a: int, b: int| 0 <= a < b < r2.len() implies #[trigger] r2[a].kind
        != #[trigger] r2[b].kind by {
        assert(mr[a] < mr[b]);
        assert(r[mr[a]].kind != r[mr[b]].kind);
    }
    assert forall|a: int, b: int| 0 <= a < l2.len() && 0 <= b < r2.len() implies #[trigger] l2[a].kind
        != #[trigger] r2[b].kind by {
        assert(l[ml[a]].kind != r[mr[b]].kind);
    }
    assert forall|a: int| 0 <= a < l2.len() implies #[trigger] l2[a].lane == Lane::Left by {
        assert(l[ml[a]].lane == Lane::Left);
    }
    assert forall|a: int| 0 <= a < r2.len() implies #[trigger] r2[a].lane == Lane::Right by {
        assert(r[mr[a]].lane == Lane::Right);
    }
}

// ---------------------------------------------------------------------
// Laws

/// Toggling a panel that is present twice puts both lanes back as they
/// were: the second toggle reverses the first.
pub proof fn lemma_toggle_twice_restores(
    l: Seq<OpenPanel>,
    r: Seq<OpenPanel>,
    kind: PanelKind,
    h: u32,
    max_h: u32,
    preferred: Option<Lane>,
)
    requires
        lanes_wf(l, r),
        find_panel(l, kind) >= 0 || find_panel(r, kind) >= 0,
    ensures
        ({
            let once = toggle_spec(l, r, kind, h, max_h, preferred);
            toggle_spec(once.0, once.1, kind, h, max_h, preferred) == (l, r)
        }),
{
    lemma_find_panel_props(l, kind);
    lemma_find_panel_props(r, kind);
    let once = toggle_spec(l, r, kind, h, max_h, preferred);
    let li = find_panel(l, kind);
    let ri = find_panel(r, kind);
    if li >= 0 {
        lemma_find_panel_same_kinds(l, once.0, kind);
        assert(set_closing(once.0, li, !once.0[li].closing) =~= l);
    } else {
        lemma_find_panel_same_kinds(l, once.0, kind);
        lemma_find_panel_same_kinds(r, once.1, kind);
        assert(set_closing(once.1, ri, !once.1[ri].closing) =~= r);
    }
}

proof fn lemma_find_panel_same_kinds(a: Seq<OpenPanel>, b: Seq<OpenPanel>, kind: PanelKind)
    requires
        a.len() == b.len(),
        forall|i: int| 0 <= i < a.len() ==> a[i].kind == b[i].kind,
    ensures
        find_panel(a, kind) == find_panel(b, kind),
    decreases a.len(),
{
    if a.len() > 0 {
        lemma_find_panel_same_kinds(a.drop_last(), b.drop_last(), kind);
    }
}

/// Toggling a panel that is absent opens it, at the end of the chosen
/// lane, and keeps every other panel in its lane and place.
pub proof fn lemma_toggle_opens_absent(
    l: Seq<OpenPanel>,
    r: Seq<OpenPanel>,
    kind: PanelKind,
    h: u32,
    max_h: u32,
    preferred: Option<Lane>,
)
    requires
        lanes_wf(l, r),
        find_panel(l, kind) < 0,
        find_panel(r, kind) < 0,
    ensures
        ({
            let (l2, r2) = toggle_spec(l, r, kind, h, max_h, preferred);
            let lane = choose_lane(l, r, max_h, preferred);
            let panel = OpenPanel { lane, kind, height: h, closing: false };
            &&& lane == Lane::Left ==> l2.len() == l.len() + 1 && l2.last() == panel && r2 == r
            &&& lane == Lane::Right ==> r2.len() == r.len() + 1 && r2.last() == panel && l2 == l
            &&& forall|i: int|
                0 <= i < l.len() ==> #[trigger] l2[i].kind == l[i].kind && l2[i].height
                    == l[i].height
            &&& forall|i: int|
                0 <= i < r.len() ==> #[trigger] r2[i].kind == r[i].kind && r2[i].height
                    == r[i].height
        }),
{
    lemma_evict_shape(l, h, max_h);
    lemma_evict_shape(r, h, max_h);
}

/// Making room closes panels until the new one fits or the lane has no
/// open panel left, and never reopens a closing panel.
pub proof fn lemma_evict_makes_room(s: Seq<OpenPanel>, h: u32, max_h: u32)
    ensures
        lane_free_spec(evict(s, h, max_h), max_h) >= h || open_count(evict(s, h, max_h)) == 0,
        evict(s, h, max_h).len() == s.len(),
        forall|i: int| 0 <= i < s.len() && s[i].closing ==> #[trigger] evict(s, h, max_h)[i].closing,
    decreases open_count(s),
{
    lemma_first_open_props(s);
    if !(lane_free_spec(s, max_h) >= h || first_open(s) < 0) {
        let f = first_open(s);
        lemma_close_decreases(s, f);
        let t = set_closing(s, f, true);
        lemma_evict_makes_room(t, h, max_h);
        assert forall|i: int| 0 <= i < s.len() && s[i].closing implies #[trigger] evict(
            s,
            h,
            max_h,
        )[i].closing by {
            assert(t[i].closing);
        }
    }
}

/// Making room closes the oldest open panels first: a panel it closes
/// never leaves an older open panel open.
pub proof fn lemma_evict_closes_oldest_first(s: Seq<OpenPanel>, h: u32, max_h: u32)
    ensures
        forall|i: int, j: int|
            0 <= i < j < s.len() && !s[i].closing && !s[j].closing && #[trigger] evict(
                s,
                h,
                max_h,
            )[j].closing ==> #[trigger] evict(s, h, max_h)[i].closing,
    decreases open_count(s),
{
    if !(lane_free_spec(s, max_h) >= h || first_open(s) < 0) {
        lemma_first_open_props(s);
        let f = first_open(s);
        lemma_close_decreases(s, f);
        let t = set_closing(s, f, true);
        lemma_evict_closes_oldest_first(t, h, max_h);
        lemma_evict_makes_room(t, h, max_h);
        lemma_evict_shape(t, h, max_h);
        assert forall|i: int, j: int|
            0 <= i < j < s.len() && !s[i].closing && !s[j].closing && #[trigger] evict(
                s,
                h,
                max_h,
            )[j].closing implies #[trigger] evict(s, h, max_h)[i].closing by {
            if i == f {
                assert(t[f].closing);
            } else {
                assert(f < i);
                assert(t[i] == s[i]);
                assert(t[j] == s[j]);
            }
        }
    }
}

/// A new panel goes to the lane asked for; without a wish, to the lane
/// with more room left, the left one on a tie.
pub proof fn lemma_choose_lane(left: Seq<OpenPanel>, right: Seq<OpenPanel>, max_h: u32, preferred: Option<Lane>)
    ensures
        preferred matches Some(l) ==> choose_lane(left, right, max_h, preferred) == l,
        preferred is None && lane_free_spec(left, max_h) >= lane_free_spec(right, max_h)
            ==> choose_lane(left, right, max_h, preferred) == Lane::Left,
        preferred is None && lane_free_spec(left, max_h) < lane_free_spec(right, max_h)
            ==> choose_lane(left, right, max_h, preferred) == Lane::Right,
{
}

/// A lane's used height grows by a new open panel's height, plus one gap
/// when panels were open already; a closing panel takes no room; an empty
/// lane leaves its whole height free.
pub proof fn lemma_lane_room(s: Seq<OpenPanel>, p: OpenPanel, max_h: u32)
    ensures
        !p.closing ==> lane_used_spec(s.push(p)) == lane_used_spec(s) + p.height + if open_count(
            s,
        ) > 0 {
            8int
        } else {
            0
        },
        p.closing ==> lane_used_spec(s.push(p)) == lane_used_spec(s),
        lane_free_spec(Seq::<OpenPanel>::empty(), max_h) == max_h,
        lane_free_spec(s, max_h) >= 0,
{
    assert(s.push(p).drop_last() =~= s);
}

/// Dropping finished panels never drops one that is still open.
pub proof fn lemma_drop_keeps_open(s: Seq<OpenPanel>, finished: Seq<bool>)
    requires
        finished.len() == s.len(),
    ensures
        forall|i: int| 0 <= i < s.len() && !s[i].closing ==> unfinished(s, finished).contains(s[i]),
{
    lemma_unfinished_subseq(s, finished);
}

/// Where each panel kept by a tick came from in the lane before it.
proof fn lemma_unfinished_index_map(s: Seq<OpenPanel>, f: Seq<bool>) -> (m: Seq<int>)
    requires
        f.len() == s.len(),
    ensures
        m.len() == unfinished(s, f).len(),
        forall|k: int|
            0 <= k < m.len() ==> 0 <= #[trigger] m[k] < s.len() && unfinished(s, f)[k] == s[m[k]],
        forall|k: int, j: int| 0 <= k < j < m.len() ==> #[trigger] m[k] < #[trigger] m[j],
        forall|i: int| 0 <= i < s.len() ==> (#[trigger] m.contains(i) <==> !(s[i].closing && f[i])),
    decreases s.len(),
{
    if s.len() == 0 {
        Seq::empty()
    } else {
        let p = s.drop_last();
        let pf = f.take(s.len() - 1);
        let n = s.len() - 1;
        let m0 = lemma_unfinished_index_map(p, pf);
        if s.last().closing && f[n] {
            assert forall|i: int| 0 <= i < s.len() implies (#[trigger] m0.contains(i) <==> !(
            s[i].closing && f[i])) by {
                if i < n {
                    assert(p[i] == s[i]);
                    assert(pf[i] == f[i]);
                } else if m0.contains(i) {
                    let k = choose|k: int| 0 <= k < m0.len() && m0[k] == i;
                    assert(m0[k] < p.len());
                }
            }
            m0
        } else {
            let m = m0.push(n);
            let u0 = unfinished(p, pf);
            assert(unfinished(s, f) == u0.push(s.last()));
            assert forall|k: int| 0 <= k < m.len() implies 0 <= #[trigger] m[k] < s.len()
                && unfinished(s, f)[k] == s[m[k]] by {
                if k < m0.len() {
                    assert(m[k] == m0[k]);
                    assert(p[m0[k]] == s[m0[k]]);
                }
            }
            assert forall|k: int, j: int| 0 <= k < j < m.len() implies #[trigger] m[k]
                < #[trigger] m[j] by {
                if j < m0.len() {
                    assert(m0[k] < m0[j]);
                } else {
                    assert(m[k] == m0[k]);
                }
            }
            assert forall|i: int| 0 <= i < s.len() implies (#[trigger] m.contains(i) <==> !(
            s[i].closing && f[i])) by {
                if i < n {
                    assert(p[i] == s[i]);
                    assert(pf[i] == f[i]);
                    if m.contains(i) {
                        let k = choose|k: int| 0 <= k < m.len() && m[k] == i;
                        assert(k < m0.len());
                        assert(m0[k] == i);
                    }
                    if m0.contains(i) {
                        let k = choose|k: int| 0 <= k < m0.len() && m0[k] == i;
                        assert(m[k] == i);
                    }
                } else {
                    assert(m[m0.len() as int] == i);
                }
            }
            m
        }
    }
}

/// A tick keeps a lane's panels in their order and unchanged, less exactly
/// the closing panels whose animation is over; a panel that is not closing
/// is never removed.
pub proof fn lemma_drop_finished_exact(s: Seq<OpenPanel>, finished: Seq<bool>)
    requires
        finished.len() == s.len(),
    ensures
        exists|m: Seq<int>|
            #![trigger m.len()]
            {
                let u = unfinished(s, finished);
                &&& m.len() == u.len()
                &&& forall|k: int|
                    0 <= k < m.len() ==> 0 <= #[trigger] m[k] < s.len() && u[k] == s[m[k]]
                &&& forall|k: int, j: int| 0 <= k < j < m.len() ==> #[trigger] m[k] < #[trigger] m[j]
                &&& forall|i: int|
                    0 <= i < s.len() ==> (#[trigger] m.contains(i) <==> !(s[i].closing
                        && finished[i]))
            },
        forall|i: int| 0 <= i < s.len() && !s[i].closing ==> unfinished(s, finished).contains(s[i]),
{
    let m = lemma_unfinished_index_map(s, finished);
    assert(m.len() == unfinished(s, finished).len());
    lemma_unfinished_subseq(s, finished);
}

// ---------------------------------------------------------------------
// Panel heights

pub open spec fn clamp_spec(v: int, lo: int, hi: int) -> int {
    if v < lo {
        lo
    } else if v > hi {
        hi
    } else {
        v
    }
}

/// Height of the Wi-Fi panel: a header, one row per access point (a
/// placeholder row when there is none) and a footer that grows while a
/// connection is under way or failed; between 150 and 420.
pub open spec fn wifi_panel_height_spec(ap_count: nat, busy: bool) -> int {
    let items: int = if ap_count == 0 {
        32
    } else {
        ap_count as int * 36
    };
    let extra: int = if busy {
        80
    } else {
        55
    };
    clamp_spec(80 + items + extra, 150, 420)
}

pub fn compute_wifi_panel_height(ap_count: usize, busy: bool) -> (r: u32)
    ensures
        r == wifi_panel_height_spec(ap_count as nat, busy),
{
    if ap_count > 10 {
        return 420;
    }
    let items: u32 = if ap_count == 0 {
        32
    } else {
        ap_count as u32 * 36
    };
    let extra: u32 = if busy {
        80
    } else {
        55
    };
    let v = 80 + items + extra;
    if v < 150 {
        150
    } else if v > 420 {
        420
    } else {
        v
    }
}

/// Height of the Bluetooth panel: a header and one row per device (one row
/// when there is none); between 150 and 420.
pub open spec fn bluetooth_panel_height_spec(device_count: nat) -> int {
    let items: int = if device_count == 0 {
        36
    } else {
        device_count as int * 36
    };
    clamp_spec(80 + items, 150, 420)
}

pub fn compute_bluetooth_panel_height(device_count: usize) -> (r: u32)
    ensures
        r == bluetooth_panel_height_spec(device_count as nat),
{
    if device_count > 10 {
        return 420;
    }
    let items: u32 = if device_count == 0 {
        36
    } else {
        device_count as u32 * 36
    };
    let v = 80 + items;
    if v < 150 {
        150
    } else if v > 420 {
        420
    } else {
        v
    }
}

/// Height of the volume panel: a header and one row per output device;
/// between 100 and 320.
pub open spec fn volume_panel_height_spec(sink_count: nat) -> int {
    clamp_spec(65 + sink_count as int * 32, 100, 320)
}

pub fn compute_volume_panel_height(sink_count: usize) -> (r: u32)
    ensures
        r == volume_panel_height_spec(sink_count as nat),
{
    if sink_count > 10 {
        return 320;
    }
    let v: u32 = 65 + sink_count as u32 * 32;
    if v < 100 {
        100
    } else if v > 320 {
        320
    } else {
        v
    }
}

pub fn compute_media_panel_height() -> (r: u32)
    ensures
        r == 195,
{
    195
}

pub fn compute_calendar_panel_height() -> (r: u32)
    ensures
        r == 274,
{
    274
}

} // verus!
