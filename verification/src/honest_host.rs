//! What a pick returns when the host does as it is asked.
//!
//! The laws of [`crate::session_laws`] hold whatever the host replies. Here the
//! host answers each request in turn and nothing fails; then a pick is the
//! composition that its name promises: candidates, hints, one key, the hints
//! taken down, and the key resolved.
use crate::hints::{hinted, spec_resolve, PickResult};
use crate::session::{step_spec, Action, OverlayHandle, Reply, Request, Session};
use crate::session_laws::run;
use crate::window::{candidate_set, WindowHandle, WindowInfo};
use vstd::prelude::*;

verus! {

/// What the session answers to the last of a run of replies; `first` where
/// the run is empty.
pub open spec fn last_action(s: Session, first: Action, replies: Seq<Reply>) -> Action
    decreases replies.len(),
{
    if replies.len() == 0 {
        first
    } else {
        last_action(
            step_spec(s, replies.first()).0,
            step_spec(s, replies.first()).1,
            replies.drop_first(),
        )
    }
}

/// The host reports each of `made` as an overlay that it has put up.
pub open spec fn overlays_created(made: Seq<OverlayHandle>) -> Seq<Reply> {
    Seq::new(made.len(), |i: int| Reply::OverlayCreated(made[i]))
}

/// The host reports `n` overlays as taken down.
pub open spec fn overlays_destroyed(n: nat) -> Seq<Reply> {
    Seq::new(n, |i: int| Reply::OverlayDestroyed)
}

/// The replies of a host that does as it is asked, from the start of a pick
/// to the last overlay taken down: the current window, the listing, one
/// overlay for each hint, the redraw, the key, and each overlay destroyed.
pub open spec fn honest_replies(
    current: WindowHandle,
    listed: Vec<WindowInfo>,
    made: Seq<OverlayHandle>,
    name: String,
) -> Seq<Reply> {
    seq![Reply::CurrentWindow(current), Reply::Windows(listed)] + overlays_created(made)
        + seq![Reply::Redrawn, Reply::Key(name)] + overlays_destroyed(made.len())
}

/// A run of replies can be taken in two parts.
pub proof fn lemma_run_in_parts(s: Session, first: Action, a: Seq<Reply>, b: Seq<Reply>)
    ensures
        run(s, a + b) == run(run(s, a), b),
        last_action(s, first, a + b) == last_action(run(s, a), last_action(s, first, a), b),
    decreases a.len(),
{
    if a.len() == 0 {
        assert(a + b =~= b);
    } else {
        assert((a + b).first() == a.first());
        assert((a + b).drop_first() =~= a.drop_first() + b);
        lemma_run_in_parts(
            step_spec(s, a.first()).0,
            step_spec(s, a.first()).1,
            a.drop_first(),
            b,
        );
    }
}

/// A run of one reply is one step.
pub proof fn lemma_run_of_one(s: Session, first: Action, reply: Reply)
    ensures
        run(s, seq![reply]) == step_spec(s, reply).0,
        last_action(s, first, seq![reply]) == step_spec(s, reply).1,
{
    let replies = seq![reply];
    assert(replies.first() == reply);
    assert(replies.drop_first() =~= Seq::<Reply>::empty());
    assert(run(step_spec(s, reply).0, replies.drop_first()) == step_spec(s, reply).0);
    assert(last_action(step_spec(s, reply).0, step_spec(s, reply).1, replies.drop_first())
        == step_spec(s, reply).1);
}

/// A run of two replies is two steps.
pub proof fn lemma_run_of_two(s: Session, first: Action, a: Reply, b: Reply)
    ensures
        run(s, seq![a, b]) == step_spec(step_spec(s, a).0, b).0,
        last_action(s, first, seq![a, b]) == step_spec(step_spec(s, a).0, b).1,
{
    assert(seq![a, b] =~= seq![a] + seq![b]);
    lemma_run_in_parts(s, first, seq![a], seq![b]);
    lemma_run_of_one(s, first, a);
    lemma_run_of_one(step_spec(s, a).0, step_spec(s, a).1, b);
}

/// The hints go up one by one. A session that shows the first `n` of its
/// hints, and is told of the others as the host makes them, shows them all
/// and asks for the redraw.
proof fn lemma_all_hints_go_up(s: Session, made: Seq<OverlayHandle>, n: int)
    requires
        0 <= n <= made.len(),
        made.len() == hinted(s.keys, s.candidates),
        s.overlays == made.take(n),
        s == s.show_hints().0,
    ensures
        run(s, overlays_created(made.skip(n))) == (Session {
            overlays: made,
            pending: Some(Request::Redraw),
            ..s
        }),
        last_action(s, s.show_hints().1, overlays_created(made.skip(n))) == Action::Call(
            Request::Redraw,
        ),
    decreases made.len() - n,
{
    let replies = overlays_created(made.skip(n));
    if n == made.len() {
        assert(made.take(n) =~= made);
        assert(run(s, replies) =~= (Session {
            overlays: made,
            pending: Some(Request::Redraw),
            ..s
        }));
    } else {
        let next = step_spec(s, replies.first()).0;
        assert(replies.first() == Reply::OverlayCreated(made[n]));
        assert(made.take(n).push(made[n]) =~= made.take(n + 1));
        assert(replies.drop_first() =~= overlays_created(made.skip(n + 1)));
        lemma_all_hints_go_up(next, made, n + 1);
        assert((Session { overlays: made, pending: Some(Request::Redraw), ..next }) =~= (Session {
            overlays: made,
            pending: Some(Request::Redraw),
            ..s
        }));
    }
}

/// The hints come down one by one. A session that has `n` overlays left to
/// take down, the newest pending, and is told of each as destroyed, ends as
/// it concludes with none left.
proof fn lemma_all_hints_come_down(s: Session, n: nat)
    requires
        n > 0,
        s.overlays.len() == n,
        s.pending == Some(Request::DestroyOverlay { overlay: s.overlays.last() }),
    ensures
        run(s, overlays_destroyed(n)) == (Session { overlays: Seq::empty(), ..s }).conclude().0,
        last_action(s, Action::Call(s.pending.unwrap()), overlays_destroyed(n)) == (Session {
            overlays: Seq::empty(),
            ..s
        }).conclude().1,
    decreases n,
{
    let replies = overlays_destroyed(n);
    let next = step_spec(s, replies.first()).0;
    let cleared = Session { overlays: Seq::empty(), ..s };
    assert(replies.first() == Reply::OverlayDestroyed);
    assert(replies.drop_first() =~= overlays_destroyed((n - 1) as nat));
    if n == 1 {
        assert(s.release_overlay(false) =~= cleared);
        assert(replies =~= seq![Reply::OverlayDestroyed]);
        lemma_run_of_one(s, Action::Call(s.pending.unwrap()), Reply::OverlayDestroyed);
    } else {
        lemma_all_hints_come_down(next, (n - 1) as nat);
        assert((Session { overlays: Seq::empty(), ..next }).conclude() =~= cleared.conclude());
    }
}

/// A pick returns the window whose hint was pressed. Start a pick from rest
/// and let the host do as it is asked: it reports the current window and the
/// windows of the tab, makes an overlay for each candidate that has a key,
/// redraws, reads the key named `name`, and destroys each overlay. Then with
/// the last overlay gone the session returns, and what it returns is `name`
/// resolved against the candidates among the windows listed. No overlay is
/// left.
pub proof fn lemma_pick_resolves_the_key(
    s: Session,
    exclude_current: bool,
    current: WindowHandle,
    listed: Vec<WindowInfo>,
    made: Seq<OverlayHandle>,
    name: String,
)
    requires
        s.pending is None,
        s.overlays.len() == 0,
        made.len() == hinted(s.keys, candidate_set(listed@, current, exclude_current)),
    ensures
        ({
            let started = s.begin(false, exclude_current);
            let replies = honest_replies(current, listed, made, name);
            let candidates = candidate_set(listed@, current, exclude_current);
            &&& last_action(started.0, started.1, replies) == Action::Return(
                Ok(spec_resolve(s.keys, name@, candidates)),
            )
            &&& run(started.0, replies).pending is None
            &&& run(started.0, replies).overlays.len() == 0
        }),
{
    let started = s.begin(false, exclude_current);
    lemma_honest_run_concludes(started.0, started.1, current, listed, made, name);
}

/// A jump asks for the window whose hint was pressed to be made current, and
/// for nothing else where the key is no hint. Start a jump from rest and let
/// the host do as it is asked, up to the last overlay destroyed. Then the
/// session asks for the move to the resolved window, and returns that window
/// once the host has moved; or, where the key resolves to nothing, it
/// returns `Cancelled`.
pub proof fn lemma_jump_moves_to_the_key(
    s: Session,
    current: WindowHandle,
    listed: Vec<WindowInfo>,
    made: Seq<OverlayHandle>,
    name: String,
)
    requires
        s.pending is None,
        s.overlays.len() == 0,
        made.len() == hinted(s.keys, candidate_set(listed@, current, true)),
    ensures
        ({
            let started = s.begin(true, true);
            let replies = honest_replies(current, listed, made, name);
            let candidates = candidate_set(listed@, current, true);
            match spec_resolve(s.keys, name@, candidates) {
                PickResult::Resolved(window) => {
                    &&& last_action(started.0, started.1, replies) == Action::Call(
                        Request::SetCurrentWindow { window },
                    )
                    &&& last_action(
                        started.0,
                        started.1,
                        replies.push(Reply::CurrentWindowSet),
                    ) == Action::Return(Ok(PickResult::Resolved(window)))
                    &&& run(started.0, replies).overlays.len() == 0
                },
                PickResult::Cancelled => {
                    &&& last_action(started.0, started.1, replies) == Action::Return(
                        Ok(PickResult::Cancelled),
                    )
                    &&& run(started.0, replies).pending is None
                },
            }
        }),
{
    let started = s.begin(true, true);
    let replies = honest_replies(current, listed, made, name);
    lemma_honest_run_concludes(started.0, started.1, current, listed, made, name);
    assert(replies.push(Reply::CurrentWindowSet) =~= replies + seq![Reply::CurrentWindowSet]);
    lemma_run_in_parts(started.0, started.1, replies, seq![Reply::CurrentWindowSet]);
    lemma_run_of_one(
        run(started.0, replies),
        last_action(started.0, started.1, replies),
        Reply::CurrentWindowSet,
    );
}

/// With a host that does as it is asked, a session that has just begun ends
/// the run of `honest_replies` as it concludes: with the candidates of the
/// listing, the key that was read, and no overlay.
proof fn lemma_honest_run_concludes(
    started: Session,
    first: Action,
    current: WindowHandle,
    listed: Vec<WindowInfo>,
    made: Seq<OverlayHandle>,
    name: String,
)
    requires
        started.pending == Some(Request::CurrentWindow),
        started.overlays.len() == 0,
        started.key is None,
        made.len() == hinted(
            started.keys,
            candidate_set(listed@, current, started.exclude_current),
        ),
    ensures
        ({
            let replies = honest_replies(current, listed, made, name);
            let concluding = Session {
                current: Some(current),
                candidates: candidate_set(listed@, current, started.exclude_current),
                key: Some(name@),
                overlays: Seq::empty(),
                ..started
            };
            &&& run(started, replies) == concluding.conclude().0
            &&& last_action(started, first, replies) == concluding.conclude().1
        }),
{
    let opening = seq![Reply::CurrentWindow(current), Reply::Windows(listed)];
    let posting = overlays_created(made);
    let asking = seq![Reply::Redrawn, Reply::Key(name)];
    let clearing = overlays_destroyed(made.len());
    let candidates = candidate_set(listed@, current, started.exclude_current);

    // The current window and the listing.
    let s1 = step_spec(started, opening[0]);
    let s2 = step_spec(s1.0, opening[1]);
    lemma_run_of_two(started, first, opening[0], opening[1]);
    let hinting = Session { current: Some(current), candidates, ..started };
    assert(s2 == hinting.show_hints());

    // The hints.
    assert(made.take(0) =~= Seq::<OverlayHandle>::empty());
    assert(s2.0.overlays =~= made.take(0));
    assert(made.skip(0) =~= made);
    lemma_all_hints_go_up(s2.0, made, 0);
    let s3 = Session { overlays: made, pending: Some(Request::Redraw), ..s2.0 };
    lemma_run_in_parts(started, first, opening, posting);

    // The redraw and the key.
    let s4 = step_spec(s3, asking[0]);
    let s5 = step_spec(s4.0, asking[1]);
    lemma_run_of_two(s3, Action::Call(Request::Redraw), asking[0], asking[1]);
    lemma_run_in_parts(started, first, opening + posting, asking);

    // The hints taken down.
    let concluding = Session {
        current: Some(current),
        candidates,
        key: Some(name@),
        overlays: Seq::empty(),
        ..started
    };
    if made.len() > 0 {
        lemma_all_hints_come_down(s5.0, made.len());
        assert((Session { overlays: Seq::empty(), ..s5.0 }).conclude() =~= concluding.conclude());
    } else {
        assert(s5.0.overlays =~= Seq::<OverlayHandle>::empty());
        assert((Session { key: Some(name@), ..s4.0 }).conclude() =~= concluding.conclude());
        assert(clearing =~= Seq::<Reply>::empty());
    }
    lemma_run_in_parts(started, first, opening + posting + asking, clearing);
}

} // verus!
