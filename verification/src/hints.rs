//! Hint labels: which key stands for which candidate, and back.
//!
//! Hints are given by position. The candidate at place `i` shows the key at
//! place `i` of the key sequence; a candidate beyond the end of the key
//! sequence shows nothing and cannot be picked.
use crate::sequences::{is_first_index, lemma_first_index};
use crate::window::WindowHandle;
use vstd::prelude::*;

verus! {

/// The default key sequence: the lower-case letters, home row first.
pub const DEFAULT_KEYS: &'static str = "asdfghjklqwertyuiopzxcvbnm";

/// The default width of a hint overlay, in columns.
pub const FLOAT_WIDTH: usize = 7;

/// The default height of a hint overlay, in rows.
pub const FLOAT_HEIGHT: usize = 3;

/// How a pick ends when nothing failed.
#[derive(Clone, Copy, Debug, PartialEq, Eq, Structural)]
pub enum PickResult {
    /// The key pressed is the hint of this window.
    Resolved(WindowHandle),
    /// The key pressed is no hint, or the hint of no candidate.
    Cancelled,
}

/// The hint that the candidate at place `index` shows, if it shows one.
pub open spec fn hint_of(keys: Seq<char>, index: int) -> Option<char> {
    if 0 <= index < keys.len() {
        Some(keys[index])
    } else {
        None
    }
}

/// How many of the candidates show a hint.
pub open spec fn hinted(keys: Seq<char>, candidates: Seq<WindowHandle>) -> nat {
    if keys.len() <= candidates.len() {
        keys.len()
    } else {
        candidates.len()
    }
}

/// The window that the key named `key` stands for. A key name of any length
/// but one is no hint; a hint counts at its first place in `keys`; a hint
/// whose place is beyond the candidates stands for nothing.
pub open spec fn spec_resolve(
    keys: Seq<char>,
    key: Seq<char>,
    candidates: Seq<WindowHandle>,
) -> PickResult {
    if key.len() == 1 {
        match keys.index_of_first(key[0]) {
            Some(offset) => if offset < candidates.len() {
                PickResult::Resolved(candidates[offset])
            } else {
                PickResult::Cancelled
            },
            None => PickResult::Cancelled,
        }
    } else {
        PickResult::Cancelled
    }
}

/// The first place of `keys` that holds `c`.
pub fn key_offset(keys: &[char], c: char) -> (r: Option<usize>)
    ensures
        match r {
            Some(i) => is_first_index(keys@, c, i as int) && keys@.index_of_first(c) == Some(
                i as int,
            ),
            None => !keys@.contains(c) && keys@.index_of_first(c) is None,
        },
{
    let mut i: usize = 0;
    while i < keys.len()
        invariant
            i <= keys.len(),
            forall|j: int| 0 <= j < i ==> keys@[j] != c,
        decreases keys.len() - i,
    {
        if keys[i] == c {
            proof {
                assert(is_first_index(keys@, c, i as int));
                lemma_first_index(keys@, c);
            }
            return Some(i);
        }
        i += 1;
    }
    proof {
        lemma_first_index(keys@, c);
    }
    None
}

/// The hint that the candidate at place `index` shows, if it shows one.
pub fn hint_label(keys: &[char], index: usize) -> (r: Option<char>)
    ensures
        r == hint_of(keys@, index as int),
{
    if index < keys.len() {
        Some(keys[index])
    } else {
        None
    }
}

/// Maps the name of the key that was pressed to a candidate: the candidate at
/// the place where `keys` first holds that key, or `Cancelled` where the name
/// is not one character, is not in `keys`, or has its place beyond the
/// candidates.
pub fn resolve(keys: &[char], key: &str, candidates: &[WindowHandle]) -> (r: PickResult)
    ensures
        r == spec_resolve(keys@, key@, candidates@),
{
    if key.unicode_len() != 1 {
        return PickResult::Cancelled;
    }
    let c = key.get_char(0);
    match key_offset(keys, c) {
        Some(offset) => {
            if offset < candidates.len() {
                PickResult::Resolved(candidates[offset])
            } else {
                PickResult::Cancelled
            }
        },
        None => PickResult::Cancelled,
    }
}

/// A key resolves to a window exactly if its name is one character, that
/// character is in the key sequence, and its first place there is the place
/// of a candidate: then it resolves to that candidate.
pub proof fn lemma_resolve_by_offset(
    keys: Seq<char>,
    key: Seq<char>,
    candidates: Seq<WindowHandle>,
)
    ensures
        match spec_resolve(keys, key, candidates) {
            PickResult::Resolved(w) => exists|offset: int|
                {
                    &&& key.len() == 1
                    &&& #[trigger] is_first_index(keys, key[0], offset)
                    &&& offset < candidates.len()
                    &&& candidates[offset] == w
                },
            PickResult::Cancelled => forall|offset: int|
                key.len() == 1 && #[trigger] is_first_index(keys, key[0], offset) ==> offset
                    >= candidates.len(),
        },
{
    if key.len() == 1 {
        lemma_first_index(keys, key[0]);
    }
}

/// A candidate without a hint is never picked: whatever the key, a resolved
/// window stands among the candidates at a place that shows a hint.
pub proof fn lemma_only_hinted_candidates_resolve(
    keys: Seq<char>,
    key: Seq<char>,
    candidates: Seq<WindowHandle>,
)
    ensures
        spec_resolve(keys, key, candidates) matches PickResult::Resolved(w) ==> exists|i: int|
            0 <= i < hinted(keys, candidates) && #[trigger] candidates[i] == w && hint_of(keys, i)
                == Some(key[0]),
{
    if key.len() == 1 {
        lemma_first_index(keys, key[0]);
        if let Some(offset) = keys.index_of_first(key[0]) {
            if offset < candidates.len() {
                assert(candidates[offset] == candidates[offset]);
            }
        }
    }
}

/// With no key twice in the key sequence, pressing the hint that a candidate
/// shows picks that candidate.
pub proof fn lemma_hint_picks_its_candidate(
    keys: Seq<char>,
    candidates: Seq<WindowHandle>,
    i: int,
)
    requires
        keys.no_duplicates(),
        0 <= i < hinted(keys, candidates),
    ensures
        spec_resolve(keys, seq![keys[i]], candidates) == PickResult::Resolved(candidates[i]),
{
    lemma_first_index(keys, keys[i]);
    assert(is_first_index(keys, keys[i], i));
}

} // verus!
