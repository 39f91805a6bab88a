//! Moves that need no hint: to the next or previous window in layout order,
//! and to the neighbour in a direction.
//!
//! Each operation takes what the host reports, the windows of the tab and the
//! current window, and names the window to go to. Going there is the
//! caller's part.
use crate::error::Error;
use crate::geometry::{find_dir, is_candidate, is_nearest, rects_of, Dir};
use crate::sequences::{is_first_index, lemma_first_index};
use crate::session::NviWin;
use crate::window::{
    geoms_of, handles_of, select_windows, selectable_windows, WindowHandle, WindowInfo,
};
use vstd::arithmetic::div_mod::{lemma_mod_add_multiples_vanish, lemma_mod_self_0, lemma_small_mod};
use vstd::prelude::*;

verus! {

/// The place after `pos` in a list of `len`, wrapping at the end.
pub open spec fn next_index(pos: int, len: int) -> int {
    (pos + 1) % len
}

/// The place before `pos` in a list of `len`, wrapping at the start.
pub open spec fn prev_index(pos: int, len: int) -> int {
    (pos + len - 1) % len
}

/// The window after `current` in `windows`, wrapping at the end; `None`
/// where `current` is not among them.
pub open spec fn spec_next(windows: Seq<WindowHandle>, current: WindowHandle) -> Option<
    WindowHandle,
> {
    match windows.index_of_first(current) {
        Some(pos) => Some(windows[next_index(pos, windows.len() as int)]),
        None => None,
    }
}

/// The window before `current` in `windows`, wrapping at the start; `None`
/// where `current` is not among them.
pub open spec fn spec_prev(windows: Seq<WindowHandle>, current: WindowHandle) -> Option<
    WindowHandle,
> {
    match windows.index_of_first(current) {
        Some(pos) => Some(windows[prev_index(pos, windows.len() as int)]),
        None => None,
    }
}

/// Whether `target` is where a move in direction `dir` from `current` goes,
/// among `windows`: `current` is one of them, and `target` is the handle of
/// the nearest window in that direction from the place where `current` first
/// stands.
pub open spec fn is_destination(
    dir: Dir,
    windows: Seq<WindowInfo>,
    current: WindowHandle,
    target: WindowHandle,
) -> bool {
    exists|pos: int, i: int|
        {
            &&& handles_of(windows).index_of_first(current) == Some(pos)
            &&& #[trigger] is_nearest(dir, pos, rects_of(geoms_of(windows)), i)
            &&& windows[i].handle == target
        }
}

/// Whether a move in direction `dir` from `current` has nowhere to go among
/// `windows`, of which `current` is one.
pub open spec fn has_no_destination(
    dir: Dir,
    windows: Seq<WindowInfo>,
    current: WindowHandle,
) -> bool {
    exists|pos: int|
        {
            &&& #[trigger] handles_of(windows).index_of_first(current) == Some(pos)
            &&& forall|j: int| !is_candidate(dir, pos, rects_of(geoms_of(windows)), j)
        }
}

/// The places after and before a place of a list are places of the list,
/// and each undoes the other.
pub proof fn lemma_next_and_prev_index(pos: int, len: int)
    requires
        0 <= pos < len,
    ensures
        0 <= next_index(pos, len) < len,
        0 <= prev_index(pos, len) < len,
        next_index(pos, len) == if pos + 1 == len {
            0
        } else {
            pos + 1
        },
        prev_index(pos, len) == if pos == 0 {
            len - 1
        } else {
            pos - 1
        },
        prev_index(next_index(pos, len), len) == pos,
        next_index(prev_index(pos, len), len) == pos,
{
    lemma_steps_wrap(pos, len);
    lemma_steps_wrap(next_index(pos, len), len);
    lemma_steps_wrap(prev_index(pos, len), len);
}

/// The places after and before a place, written without a remainder.
proof fn lemma_steps_wrap(pos: int, len: int)
    requires
        0 <= pos < len,
    ensures
        next_index(pos, len) == if pos + 1 == len {
            0
        } else {
            pos + 1
        },
        prev_index(pos, len) == if pos == 0 {
            len - 1
        } else {
            pos - 1
        },
{
    if pos + 1 == len {
        lemma_mod_self_0(len);
    } else {
        lemma_small_mod((pos + 1) as nat, len as nat);
    }
    if pos == 0 {
        lemma_small_mod((len - 1) as nat, len as nat);
    } else {
        lemma_mod_add_multiples_vanish(pos - 1, len);
        lemma_small_mod((pos - 1) as nat, len as nat);
    }
}

/// Where no window is listed twice, going to the next window and then to
/// the previous one leads back to the start, and so does going to the
/// previous window and then to the next.
pub proof fn lemma_next_then_prev_returns(windows: Seq<WindowHandle>, current: WindowHandle)
    requires
        windows.no_duplicates(),
        windows.contains(current),
    ensures
        spec_next(windows, current) matches Some(next) && spec_prev(windows, next) == Some(current),
        spec_prev(windows, current) matches Some(prev) && spec_next(windows, prev) == Some(current),
{
    let len = windows.len() as int;
    lemma_first_index(windows, current);
    let pos = windows.index_of_first(current).unwrap();
    lemma_next_and_prev_index(pos, len);
    let after = next_index(pos, len);
    let before = prev_index(pos, len);
    assert(is_first_index(windows, windows[after], after));
    lemma_first_index(windows, windows[after]);
    assert(is_first_index(windows, windows[before], before));
    lemma_first_index(windows, windows[before]);
}

/// The first place of `windows` whose handle is `current`.
pub fn window_position(windows: &[WindowInfo], current: WindowHandle) -> (r: Option<usize>)
    ensures
        match r {
            Some(i) => handles_of(windows@).index_of_first(current) == Some(i as int) && i
                < windows.len(),
            None => handles_of(windows@).index_of_first(current) is None && !handles_of(
                windows@,
            ).contains(current),
        },
{
    let ghost handles = handles_of(windows@);
    let mut i: usize = 0;
    while i < windows.len()
        invariant
            i <= windows.len(),
            handles == handles_of(windows@),
            forall|j: int| 0 <= j < i ==> handles[j] != current,
        decreases windows.len() - i,
    {
        if windows[i].handle == current {
            proof {
                assert(is_first_index(handles, current, i as int));
                lemma_first_index(handles, current);
            }
            return Some(i);
        }
        i += 1;
    }
    proof {
        lemma_first_index(handles, current);
    }
    None
}

impl NviWin {
    /// The windows to choose from: those of the listing that neither float
    /// nor refuse focus, in layout order.
    pub fn windows(&self, listed: &[WindowInfo]) -> (r: Vec<WindowInfo>)
        ensures
            r@ == selectable_windows(listed@),
    {
        select_windows(listed)
    }

    /// The geometry of each of `windows`, in the same order.
    pub fn geoms(&self, windows: &[WindowInfo]) -> (r: Vec<(i64, i64, i64, i64)>)
        ensures
            r@ == geoms_of(windows@),
    {
        let mut ret: Vec<(i64, i64, i64, i64)> = Vec::new();
        let mut i: usize = 0;
        while i < windows.len()
            invariant
                i <= windows.len(),
                ret@ == geoms_of(windows@.take(i as int)),
            decreases windows.len() - i,
        {
            ret.push(windows[i].geom);
            assert(windows@.take(i + 1) =~= windows@.take(i as int).push(windows@[i as int]));
            i += 1;
        }
        assert(windows@.take(windows@.len() as int) =~= windows@);
        ret
    }

    /// The windows to choose from and the place of the current window among
    /// them. That the current window is not among them is an inconsistency
    /// of the host's report.
    pub fn get_window_info(&self, listed: &[WindowInfo], current: WindowHandle) -> (r: Result<
        (usize, Vec<WindowInfo>),
        Error,
    >)
        ensures
            match r {
                Ok((offset, windows)) => {
                    &&& windows@ == selectable_windows(listed@)
                    &&& handles_of(windows@).index_of_first(current) == Some(offset as int)
                    &&& offset < windows@.len()
                },
                Err(e) => {
                    &&& e == Error::StateInconsistency
                    &&& !handles_of(selectable_windows(listed@)).contains(current)
                    &&& handles_of(selectable_windows(listed@)).index_of_first(current) is None
                },
            },
    {
        let windows = self.windows(listed);
        match window_position(windows.as_slice(), current) {
            Some(offset) => Ok((offset, windows)),
            None => Err(Error::StateInconsistency),
        }
    }

    /// The next window in layout order, wrapping if needed.
    pub fn next(&self, listed: &[WindowInfo], current: WindowHandle) -> (r: Result<
        WindowHandle,
        Error,
    >)
        ensures
            match r {
                Ok(w) => spec_next(handles_of(selectable_windows(listed@)), current) == Some(w),
                Err(e) => e == Error::StateInconsistency && spec_next(
                    handles_of(selectable_windows(listed@)),
                    current,
                ) is None,
            },
    {
        match self.get_window_info(listed, current) {
            Ok((offset, windows)) => {
                let len = windows.len();
                proof {
                    lemma_next_and_prev_index(offset as int, len as int);
                }
                Ok(windows[(offset + 1) % len].handle)
            },
            Err(e) => Err(e),
        }
    }

    /// The previous window in layout order, wrapping if needed.
    pub fn prev(&self, listed: &[WindowInfo], current: WindowHandle) -> (r: Result<
        WindowHandle,
        Error,
    >)
        ensures
            match r {
                Ok(w) => spec_prev(handles_of(selectable_windows(listed@)), current) == Some(w),
                Err(e) => e == Error::StateInconsistency && spec_prev(
                    handles_of(selectable_windows(listed@)),
                    current,
                ) is None,
            },
    {
        match self.get_window_info(listed, current) {
            Ok((offset, windows)) => {
                proof {
                    lemma_next_and_prev_index(offset as int, windows@.len() as int);
                }
                let before = if offset == 0 {
                    windows.len() - 1
                } else {
                    offset - 1
                };
                Ok(windows[before].handle)
            },
            Err(e) => Err(e),
        }
    }

    /// The window to go to for a move in direction `dir`: the nearest
    /// neighbour of the current window on that side, or `None` where there
    /// is none, which means to stay.
    pub fn move_to_dir(&self, dir: Dir, listed: &[WindowInfo], current: WindowHandle) -> (r: Result<
        Option<WindowHandle>,
        Error,
    >)
        ensures
            match r {
                Ok(Some(target)) => is_destination(
                    dir,
                    selectable_windows(listed@),
                    current,
                    target,
                ),
                Ok(None) => has_no_destination(dir, selectable_windows(listed@), current),
                Err(e) => e == Error::StateInconsistency && !handles_of(
                    selectable_windows(listed@),
                ).contains(current),
            },
    {
        match self.get_window_info(listed, current) {
            Ok((offset, windows)) => {
                let geoms = self.geoms(windows.as_slice());
                match find_dir(dir, offset, geoms.as_slice()) {
                    Some(idx) => {
                        assert(is_nearest(
                            dir,
                            offset as int,
                            rects_of(geoms_of(windows@)),
                            idx as int,
                        ));
                        Ok(Some(windows[idx].handle))
                    },
                    None => Ok(None),
                }
            },
            Err(e) => Err(e),
        }
    }

    /// The window to the left of the current window.
    pub fn left(&self, listed: &[WindowInfo], current: WindowHandle) -> (r: Result<
        Option<WindowHandle>,
        Error,
    >)
        ensures
            match r {
                Ok(Some(target)) => is_destination(
                    Dir::Left,
                    selectable_windows(listed@),
                    current,
                    target,
                ),
                Ok(None) => has_no_destination(Dir::Left, selectable_windows(listed@), current),
                Err(e) => e == Error::StateInconsistency && !handles_of(
                    selectable_windows(listed@),
                ).contains(current),
            },
    {
        self.move_to_dir(Dir::Left, listed, current)
    }

    /// The window to the right of the current window.
    pub fn right(&self, listed: &[WindowInfo], current: WindowHandle) -> (r: Result<
        Option<WindowHandle>,
        Error,
    >)
        ensures
            match r {
                Ok(Some(target)) => is_destination(
                    Dir::Right,
                    selectable_windows(listed@),
                    current,
                    target,
                ),
                Ok(None) => has_no_destination(Dir::Right, selectable_windows(listed@), current),
                Err(e) => e == Error::StateInconsistency && !handles_of(
                    selectable_windows(listed@),
                ).contains(current),
            },
    {
        self.move_to_dir(Dir::Right, listed, current)
    }

    /// The window above the current window.
    pub fn up(&self, listed: &[WindowInfo], current: WindowHandle) -> (r: Result<
        Option<WindowHandle>,
        Error,
    >)
        ensures
            match r {
                Ok(Some(target)) => is_destination(
                    Dir::Up,
                    selectable_windows(listed@),
                    current,
                    target,
                ),
                Ok(None) => has_no_destination(Dir::Up, selectable_windows(listed@), current),
                Err(e) => e == Error::StateInconsistency && !handles_of(
                    selectable_windows(listed@),
                ).contains(current),
            },
    {
        self.move_to_dir(Dir::Up, listed, current)
    }

    /// The window below the current window.
    pub fn down(&self, listed: &[WindowInfo], current: WindowHandle) -> (r: Result<
        Option<WindowHandle>,
        Error,
    >)
        ensures
            match r {
                Ok(Some(target)) => is_destination(
                    Dir::Down,
                    selectable_windows(listed@),
                    current,
                    target,
                ),
                Ok(None) => has_no_destination(Dir::Down, selectable_windows(listed@), current),
                Err(e) => e == Error::StateInconsistency && !handles_of(
                    selectable_windows(listed@),
                ).contains(current),
            },
    {
        self.move_to_dir(Dir::Down, listed, current)
    }
}

} // verus!
