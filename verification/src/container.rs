use vstd::prelude::*;
use crate::mode::CapsuleMode;

verus! {

/// What a click on the pill does.
#[derive(Clone, Copy, Debug, PartialEq, Eq, Structural)]
pub enum PillClick {
    /// The idle pill opens the dashboard.
    OpenDashboard,
    /// The settings sheet keeps its clicks to itself.
    Swallow,
    /// Every other view lets the click through.
    PassThrough,
}

/// A click on the pill: the idle pill opens the dashboard; the settings
/// sheet, and in the free-floating pill also the shelf, keep their clicks.
pub open spec fn pill_click_spec(mode: CapsuleMode, floating: bool) -> PillClick {
    if mode == CapsuleMode::Default {
        PillClick::OpenDashboard
    } else if mode == CapsuleMode::Settings || (floating && mode == CapsuleMode::Shelf) {
        PillClick::Swallow
    } else {
        PillClick::PassThrough
    }
}

/// The pill hanging from the top edge, with concave wings.
pub struct ConcaveContainer;

/// The free-floating rounded pill.
pub struct NormalContainer;

impl ConcaveContainer {
    pub fn new() -> (r: Self)
        ensures
            r == (ConcaveContainer),
    {
        ConcaveContainer
    }

    /// What a click on the pill does in `mode`.
    pub fn click_action(&self, mode: CapsuleMode) -> (r: PillClick)
        ensures
            r == pill_click_spec(mode, false),
    {
        pill_click(mode, false)
    }
}

impl Default for ConcaveContainer {
    fn default() -> (r: Self)
        ensures
            r == (ConcaveContainer),
    {
        Self::new()
    }
}

impl NormalContainer {
    pub fn new() -> (r: Self)
        ensures
            r == (NormalContainer),
    {
        NormalContainer
    }

    /// What a click on the pill does in `mode`.
    pub fn click_action(&self, mode: CapsuleMode) -> (r: PillClick)
        ensures
            r == pill_click_spec(mode, true),
    {
        pill_click(mode, true)
    }
}

impl Default for NormalContainer {
    fn default() -> (r: Self)
        ensures
            r == (NormalContainer),
    {
        Self::new()
    }
}

fn pill_click(mode: CapsuleMode, floating: bool) -> (r: PillClick)
    ensures
        r == pill_click_spec(mode, floating),
{
    if mode == CapsuleMode::Default {
        PillClick::OpenDashboard
    } else if mode == CapsuleMode::Settings || (floating && mode == CapsuleMode::Shelf) {
        PillClick::Swallow
    } else {
        PillClick::PassThrough
    }
}

/// A click on the pill opens the dashboard from the idle pill; the
/// settings sheet keeps its clicks in both styles, the shelf only in the
/// free-floating pill; every other view lets the click through.
pub proof fn lemma_pill_clicks(mode: CapsuleMode, floating: bool)
    ensures
        pill_click_spec(CapsuleMode::Default, floating) == PillClick::OpenDashboard,
        pill_click_spec(CapsuleMode::Settings, floating) == PillClick::Swallow,
        pill_click_spec(CapsuleMode::Shelf, true) == PillClick::Swallow,
        pill_click_spec(CapsuleMode::Shelf, false) == PillClick::PassThrough,
        !(mode == CapsuleMode::Default || mode == CapsuleMode::Settings || mode
            == CapsuleMode::Shelf) ==> pill_click_spec(mode, floating) == PillClick::PassThrough,
{
}

} // verus!
