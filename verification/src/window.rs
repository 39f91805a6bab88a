//! Windows as the host reports them, and the choice of candidates among them.
use crate::sequences::{lemma_filter_keeps_only, lemma_filter_push};
use vstd::prelude::*;

verus! {

/// The host's name for a window. The picker never makes or destroys windows;
/// it only compares handles and hands them back.
#[derive(Clone, Copy, Debug, PartialEq, Eq, Hash, Structural)]
pub struct WindowHandle {
    pub id: u64,
}

/// What a floating window is positioned relative to.
#[derive(Clone, Copy, Debug, PartialEq, Eq, Structural)]
pub enum Anchor {
    Editor,
    Window,
    Cursor,
    Mouse,
}

/// The two settings of a window that decide whether it can be chosen.
#[derive(Clone, Copy, Debug, PartialEq, Eq)]
pub struct WindowConfig {
    /// Set for a floating window, absent for a tiled one.
    pub relative: Option<Anchor>,
    /// Whether the window takes focus; absent means that it does.
    pub focusable: Option<bool>,
}

/// One window of the current tab: its handle, its rectangle on screen as
/// `(x, y, width, height)`, and its settings.
#[derive(Clone, Copy, Debug, PartialEq, Eq)]
pub struct WindowInfo {
    pub handle: WindowHandle,
    pub geom: (i64, i64, i64, i64),
    pub config: WindowConfig,
}

impl WindowConfig {
    /// A window can be chosen unless it floats or is marked as not focusable.
    pub open spec fn spec_selectable(&self) -> bool {
        self.focusable != Some(false) && self.relative is None
    }

    /// Whether a window with these settings can be chosen.
    #[verifier::when_used_as_spec(spec_selectable)]
    pub fn selectable(&self) -> (r: bool)
        ensures
            r == self.spec_selectable(),
    {
        let refuses_focus = match self.focusable {
            Some(f) => !f,
            None => false,
        };
        let floats = match self.relative {
            Some(_) => true,
            None => false,
        };
        !(refuses_focus || floats)
    }
}

/// The test that a window can be chosen.
pub open spec fn can_be_chosen() -> spec_fn(WindowInfo) -> bool {
    |w: WindowInfo| w.config.spec_selectable()
}

/// The windows of a listing that can be chosen, in the order of the listing.
pub open spec fn selectable_windows(listed: Seq<WindowInfo>) -> Seq<WindowInfo> {
    listed.filter(can_be_chosen())
}

/// The handles of a sequence of windows, in the same order.
pub open spec fn handles_of(windows: Seq<WindowInfo>) -> Seq<WindowHandle> {
    windows.map_values(|w: WindowInfo| w.handle)
}

/// The geometries of a sequence of windows, in the same order.
pub open spec fn geoms_of(windows: Seq<WindowInfo>) -> Seq<(i64, i64, i64, i64)> {
    windows.map_values(|w: WindowInfo| w.geom)
}

/// The test that a handle is not `current`.
pub open spec fn other_than(current: WindowHandle) -> spec_fn(WindowHandle) -> bool {
    |h: WindowHandle| h != current
}

/// The candidates of a pick: the handles of the windows that can be chosen, in
/// the order of the listing, without the current window where it is excluded.
pub open spec fn candidate_set(
    listed: Seq<WindowInfo>,
    current: WindowHandle,
    exclude_current: bool,
) -> Seq<WindowHandle> {
    let handles = handles_of(selectable_windows(listed));
    if exclude_current {
        handles.filter(other_than(current))
    } else {
        handles
    }
}

/// Every candidate is the handle of a listed window that neither floats nor
/// refuses focus, and is not the current window where that is excluded.
pub proof fn lemma_candidates_can_be_chosen(
    listed: Seq<WindowInfo>,
    current: WindowHandle,
    exclude_current: bool,
    h: WindowHandle,
)
    requires
        candidate_set(listed, current, exclude_current).contains(h),
    ensures
        exists|j: int|
            0 <= j < listed.len() && (#[trigger] listed[j]).handle == h
                && listed[j].config.spec_selectable(),
        exclude_current ==> h != current,
{
    let windows = selectable_windows(listed);
    let handles = handles_of(windows);
    if exclude_current {
        lemma_filter_keeps_only(handles, other_than(current), h);
    }
    let i = choose|i: int| 0 <= i < handles.len() && handles[i] == h;
    assert(windows.contains(windows[i]));
    lemma_filter_keeps_only(listed, can_be_chosen(), windows[i]);
    let j = choose|j: int| 0 <= j < listed.len() && listed[j] == windows[i];
    assert(listed[j].handle == h);
}

/// Every listed window that neither floats nor refuses focus is a candidate,
/// but for the current window where that is excluded.
pub proof fn lemma_selectable_windows_are_candidates(
    listed: Seq<WindowInfo>,
    current: WindowHandle,
    exclude_current: bool,
    j: int,
)
    requires
        0 <= j < listed.len(),
        listed[j].config.spec_selectable(),
        exclude_current ==> listed[j].handle != current,
    ensures
        candidate_set(listed, current, exclude_current).contains(listed[j].handle),
{
    let windows = selectable_windows(listed);
    let handles = handles_of(windows);
    listed.lemma_filter_contains(can_be_chosen(), j);
    let i = choose|i: int| 0 <= i < windows.len() && windows[i] == listed[j];
    assert(handles[i] == listed[j].handle);
    if exclude_current {
        handles.lemma_filter_contains(other_than(current), i);
    }
}

/// The windows of a listing that can be chosen, in the order of the listing.
pub fn select_windows(listed: &[WindowInfo]) -> (r: Vec<WindowInfo>)
    ensures
        r@ == selectable_windows(listed@),
{
    let ghost pred = can_be_chosen();
    let mut ret: Vec<WindowInfo> = Vec::new();
    let mut i: usize = 0;
    proof {
        reveal(Seq::filter);
        assert(listed@.take(0) =~= Seq::<WindowInfo>::empty());
    }
    while i < listed.len()
        invariant
            i <= listed.len(),
            pred == can_be_chosen(),
            ret@ == listed@.take(i as int).filter(pred),
        decreases listed.len() - i,
    {
        let w = listed[i];
        proof {
            lemma_filter_push(listed@.take(i as int), w, pred);
            assert(listed@.take(i as int).push(w) =~= listed@.take(i + 1));
        }
        if w.config.selectable() {
            ret.push(w);
        }
        i += 1;
    }
    proof {
        assert(listed@.take(listed@.len() as int) =~= listed@);
    }
    ret
}

/// The candidates of a pick among the windows that the host lists.
pub fn list_candidates(listed: &[WindowInfo], current: WindowHandle, exclude_current: bool) -> (r:
    Vec<WindowHandle>)
    ensures
        r@ == candidate_set(listed@, current, exclude_current),
{
    let windows = select_windows(listed);
    let ghost handles = handles_of(windows@);
    let ghost pred = other_than(current);
    let mut ret: Vec<WindowHandle> = Vec::new();
    let mut i: usize = 0;
    proof {
        reveal(Seq::filter);
        assert(handles.take(0) =~= Seq::<WindowHandle>::empty());
    }
    while i < windows.len()
        invariant
            i <= windows.len(),
            handles == handles_of(windows@),
            pred == other_than(current),
            exclude_current ==> ret@ == handles.take(i as int).filter(pred),
            !exclude_current ==> ret@ == handles.take(i as int),
        decreases windows.len() - i,
    {
        let h = windows[i].handle;
        proof {
            lemma_filter_push(handles.take(i as int), h, pred);
            assert(handles.take(i as int).push(h) =~= handles.take(i + 1));
        }
        if !(exclude_current && h == current) {
            ret.push(h);
        }
        i += 1;
    }
    proof {
        assert(handles.take(handles.len() as int) =~= handles);
    }
    ret
}

} // verus!
