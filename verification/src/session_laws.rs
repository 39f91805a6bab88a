//! What holds of every pick session, proved of the model in
//! [`crate::session`].
use crate::hints::hinted;
use crate::session::{step_spec, Action, OverlayHandle, Reply, Request, Session};
use vstd::prelude::*;

verus! {

impl Session {
    /// What holds of the picker in every state that it reaches.
    ///
    /// * No overlay is on screen while no session is in flight, while the
    ///   candidates are collected, and while the picked window is made
    ///   current.
    /// * No more overlays are on screen than candidates show a hint.
    /// * While hints go up, the overlay that is asked for is the one of the
    ///   first candidate without, showing that candidate's key.
    /// * The redraw and the wait for the key come only when every candidate
    ///   that has a key shows it, and no key has been read before.
    /// * While hints come down, the overlay whose destruction is pending is
    ///   the newest on screen.
    pub open spec fn inv(self) -> bool {
        &&& self.overlays.len() <= hinted(self.keys, self.candidates)
        &&& match self.pending {
            None => self.overlays.len() == 0,
            Some(Request::CurrentWindow) => self.overlays.len() == 0 && self.key is None,
            Some(Request::ListWindows) => self.overlays.len() == 0 && self.key is None
                && self.current is Some,
            Some(Request::CreateOverlay { window, label, width, height }) => {
                let n = self.overlays.len() as int;
                &&& n < hinted(self.keys, self.candidates)
                &&& window == self.candidates[n]
                &&& label == self.keys[n]
                &&& width == self.width
                &&& height == self.height
                &&& self.key is None
            },
            Some(Request::Redraw) | Some(Request::Keypress) => {
                &&& self.overlays.len() == hinted(self.keys, self.candidates)
                &&& self.key is None
            },
            Some(Request::DestroyOverlay { overlay }) => self.overlays.len() > 0 && overlay
                == self.overlays.last(),
            Some(Request::SetCurrentWindow { .. }) => self.overlays.len() == 0,
        }
    }

    /// The overlays on screen whose destruction has not been asked for.
    pub open spec fn unrequested(self) -> Seq<OverlayHandle> {
        if self.pending matches Some(Request::DestroyOverlay { .. }) && self.overlays.len() > 0 {
            self.overlays.drop_last()
        } else {
            self.overlays
        }
    }

    /// Whether hints may still go up in this session.
    pub open spec fn posting(self) -> bool {
        match self.pending {
            Some(Request::CurrentWindow) | Some(Request::ListWindows) | Some(
                Request::CreateOverlay { .. },
            ) => true,
            _ => false,
        }
    }

    /// An upper bound on the number of replies that the session still takes
    /// before it returns, once its candidates are known. While they are
    /// collected there is no bound to give, and the value says nothing.
    pub open spec fn fuel(self) -> nat {
        let left = (hinted(self.keys, self.candidates) - self.overlays.len()) as nat;
        match self.pending {
            None => 0,
            Some(Request::SetCurrentWindow { .. }) => 1,
            Some(Request::DestroyOverlay { .. }) => self.overlays.len() + 1,
            Some(Request::Keypress) => self.overlays.len() + 2,
            Some(Request::Redraw) => self.overlays.len() + 3,
            Some(Request::CreateOverlay { .. }) => 2 * left + self.overlays.len() + 3,
            Some(Request::ListWindows) | Some(Request::CurrentWindow) => 0,
        }
    }

    /// How far the session has come, by the request that is pending: the
    /// requests in the order in which a session makes them, and rest last.
    pub open spec fn stage(self) -> nat {
        match self.pending {
            Some(Request::CurrentWindow) => 0,
            Some(Request::ListWindows) => 1,
            Some(Request::CreateOverlay { .. }) => 2,
            Some(Request::Redraw) => 3,
            Some(Request::Keypress) => 4,
            Some(Request::DestroyOverlay { .. }) => 5,
            Some(Request::SetCurrentWindow { .. }) => 6,
            None => 7,
        }
    }
}

/// The state after a run of replies, each handed to the session in turn.
pub open spec fn run(s: Session, replies: Seq<Reply>) -> Session
    decreases replies.len(),
{
    if replies.len() == 0 {
        s
    } else {
        run(step_spec(s, replies.first()).0, replies.drop_first())
    }
}

/// The overlays that the host makes during a run, in the order in which it
/// reports them: those it reports in answer to a request for one.
pub open spec fn created_during(s: Session, replies: Seq<Reply>) -> Seq<OverlayHandle>
    decreases replies.len(),
{
    if replies.len() == 0 {
        Seq::empty()
    } else {
        let head = match (s.pending, replies.first()) {
            (Some(Request::CreateOverlay { .. }), Reply::OverlayCreated(overlay)) => seq![overlay],
            _ => Seq::empty(),
        };
        head + created_during(step_spec(s, replies.first()).0, replies.drop_first())
    }
}

/// The overlays whose destruction the session asks for during a run, in the
/// order in which it asks.
pub open spec fn destroyed_during(s: Session, replies: Seq<Reply>) -> Seq<OverlayHandle>
    decreases replies.len(),
{
    if replies.len() == 0 {
        Seq::empty()
    } else {
        let head = match step_spec(s, replies.first()).1 {
            Action::Call(Request::DestroyOverlay { overlay }) => seq![overlay],
            _ => Seq::empty(),
        };
        head + destroyed_during(step_spec(s, replies.first()).0, replies.drop_first())
    }
}

/// The picker at rest is in a valid state.
pub proof fn lemma_at_rest_is_valid(keys: Seq<char>, width: usize, height: usize)
    ensures
        Session::at_rest(keys, width, height).inv(),
{
}

/// Starting a pick keeps the state valid. The session begins only from rest,
/// and then with nothing on screen.
pub proof fn lemma_begin_keeps_valid(s: Session, jump: bool, exclude_current: bool)
    requires
        s.inv(),
    ensures
        s.begin(jump, exclude_current).0.inv(),
        s.pending is None ==> s.begin(jump, exclude_current).1 == Action::Call(
            Request::CurrentWindow,
        ),
        s.pending is Some ==> s.begin(jump, exclude_current).0 == s,
{
}

/// Every step keeps the state valid, whatever the host replies.
pub proof fn lemma_step_keeps_valid(s: Session, reply: Reply)
    requires
        s.inv(),
    ensures
        step_spec(s, reply).0.inv(),
{
}

/// A session that returns leaves no overlay on screen: whatever the reply,
/// if the step answers with `Return` then the session is at rest and holds
/// no overlay, and the other way round.
pub proof fn lemma_return_leaves_no_overlay(s: Session, reply: Reply)
    requires
        s.inv(),
    ensures
        step_spec(s, reply).1 is Return <==> step_spec(s, reply).0.pending is None,
        step_spec(s, reply).1 is Return ==> step_spec(s, reply).0.overlays.len() == 0,
        step_spec(s, reply).1 matches Action::Call(request) ==> step_spec(s, reply).0.pending
            == Some(request),
{
}

/// The wait for the key begins only after the redraw, and the redraw only
/// when every candidate that has a key shows its hint: a step asks for the
/// key only in answer to the redraw, with all hints on screen, and asks for
/// the redraw only once no hint is missing.
pub proof fn lemma_key_awaited_after_all_hints(s: Session, reply: Reply)
    requires
        s.inv(),
    ensures
        step_spec(s, reply).1 == Action::Call(Request::Keypress) ==> {
            &&& s.pending == Some(Request::Redraw)
            &&& reply is Redrawn
            &&& s.overlays.len() == hinted(s.keys, s.candidates)
        },
        step_spec(s, reply).1 == Action::Call(Request::Redraw) ==> step_spec(
            s,
            reply,
        ).0.overlays.len() == hinted(step_spec(s, reply).0.keys, step_spec(s, reply).0.candidates),
{
}

/// A session only moves forward. No step leads back to an earlier request,
/// and only the hints, going up and coming down one by one, let a session
/// stay where it is. So a session asks once for the current window, once for
/// the listing, once for the redraw and once for a key, and it moves at most
/// once.
pub proof fn lemma_session_only_advances(s: Session, reply: Reply)
    ensures
        step_spec(s, reply).0.stage() >= s.stage(),
        s.pending is Some && !(s.pending matches Some(Request::CreateOverlay { .. })) && !(
        s.pending matches Some(Request::DestroyOverlay { .. })) ==> step_spec(s, reply).0.stage()
            > s.stage(),
{
}

/// Every reachable state is valid: a run of any replies from a valid state
/// ends in a valid state.
pub proof fn lemma_run_keeps_valid(s: Session, replies: Seq<Reply>)
    requires
        s.inv(),
    ensures
        run(s, replies).inv(),
    decreases replies.len(),
{
    if replies.len() > 0 {
        lemma_step_keeps_valid(s, replies.first());
        lemma_run_keeps_valid(step_spec(s, replies.first()).0, replies.drop_first());
    }
}

/// A pick leaves no overlay behind, however it ends. Start a pick or a jump
/// from any valid state and let the host reply anything, failures and
/// replies out of turn included: whenever the session has returned, no
/// overlay is on screen.
pub proof fn lemma_pick_leaves_no_overlay(
    s: Session,
    jump: bool,
    exclude_current: bool,
    replies: Seq<Reply>,
)
    requires
        s.inv(),
    ensures
        run(s.begin(jump, exclude_current).0, replies).pending is None ==> run(
            s.begin(jump, exclude_current).0,
            replies,
        ).overlays.len() == 0,
{
    lemma_begin_keeps_valid(s, jump, exclude_current);
    lemma_run_keeps_valid(s.begin(jump, exclude_current).0, replies);
}

/// Once the hints stop going up, the host makes no further overlay for the
/// session.
pub proof fn lemma_nothing_created_after_posting(s: Session, replies: Seq<Reply>)
    requires
        !s.posting(),
    ensures
        created_during(s, replies) == Seq::<OverlayHandle>::empty(),
    decreases replies.len(),
{
    if replies.len() > 0 {
        lemma_nothing_created_after_posting(step_spec(s, replies.first()).0, replies.drop_first());
    }
}

/// Once the hints stop going up, a session that returns has asked for the
/// destruction of every overlay that was on screen and not yet asked for,
/// each once, the newest first.
pub proof fn lemma_cleanup_destroys_newest_first(s: Session, replies: Seq<Reply>)
    requires
        s.inv(),
        !s.posting(),
        run(s, replies).pending is None,
    ensures
        destroyed_during(s, replies) == s.unrequested().reverse(),
    decreases replies.len(),
{
    if replies.len() == 0 {
        assert(s.unrequested().reverse() =~= Seq::<OverlayHandle>::empty());
    } else {
        let next = step_spec(s, replies.first()).0;
        lemma_step_keeps_valid(s, replies.first());
        lemma_cleanup_destroys_newest_first(next, replies.drop_first());
        if let Some(Request::DestroyOverlay { overlay }) = next.pending {
            assert(s.unrequested() == next.overlays);
            assert(next.overlays.reverse() =~= seq![overlay] + next.overlays.drop_last().reverse());
        } else {
            assert(next.unrequested() =~= s.unrequested());
        }
    }
}

/// Every overlay comes down, in reverse order of creation. Whatever the
/// host replies to a valid session, if the session returns then the overlays
/// whose destruction it asked for are those on screen at the start and those
/// made since, each once, the newest first.
pub proof fn lemma_destroys_all_in_reverse(s: Session, replies: Seq<Reply>)
    requires
        s.inv(),
        run(s, replies).pending is None,
    ensures
        destroyed_during(s, replies) == (s.unrequested() + created_during(s, replies)).reverse(),
    decreases replies.len(),
{
    if !s.posting() {
        lemma_nothing_created_after_posting(s, replies);
        lemma_cleanup_destroys_newest_first(s, replies);
        assert(s.unrequested() + Seq::<OverlayHandle>::empty() =~= s.unrequested());
    } else {
        let reply = replies.first();
        let next = step_spec(s, reply).0;
        let rest = replies.drop_first();
        lemma_step_keeps_valid(s, reply);
        lemma_destroys_all_in_reverse(next, rest);
        if next.posting() {
            assert(next.unrequested() + created_during(next, rest) =~= s.unrequested()
                + created_during(s, replies));
        } else {
            lemma_nothing_created_after_posting(next, rest);
            assert(next.unrequested() + Seq::<OverlayHandle>::empty() =~= next.unrequested());
            if let Some(Request::DestroyOverlay { overlay }) = next.pending {
                assert(created_during(s, replies) =~= Seq::<OverlayHandle>::empty());
                assert(s.unrequested() + Seq::<OverlayHandle>::empty() =~= s.overlays);
                assert(s.overlays.reverse() =~= seq![overlay] + s.overlays.drop_last().reverse());
            } else {
                assert(next.unrequested() =~= s.unrequested() + created_during(s, replies));
            }
        }
    }
}

/// A pick takes down exactly the overlays that it put up, the newest first:
/// from the start of a pick or jump to its return, the overlays whose
/// destruction was asked for are the overlays that the host made, in reverse
/// order.
pub proof fn lemma_pick_destroys_what_it_created(
    s: Session,
    jump: bool,
    exclude_current: bool,
    replies: Seq<Reply>,
)
    requires
        s.inv(),
        s.pending is None,
        run(s.begin(jump, exclude_current).0, replies).pending is None,
    ensures
        destroyed_during(s.begin(jump, exclude_current).0, replies) == created_during(
            s.begin(jump, exclude_current).0,
            replies,
        ).reverse(),
{
    let started = s.begin(jump, exclude_current).0;
    lemma_begin_keeps_valid(s, jump, exclude_current);
    lemma_destroys_all_in_reverse(started, replies);
    assert(started.unrequested() + created_during(started, replies) =~= created_during(
        started,
        replies,
    ));
}

/// Once the candidates are known every reply brings the return nearer: the
/// bound `fuel` goes down with each step.
pub proof fn lemma_step_burns_fuel(s: Session, reply: Reply)
    requires
        s.inv(),
        s.pending is Some,
        s.phase() != crate::session::Phase::CollectingCandidates,
    ensures
        step_spec(s, reply).0.fuel() < s.fuel(),
        step_spec(s, reply).0.phase() != crate::session::Phase::CollectingCandidates,
{
}

/// A session returns. Once the candidates are known, the session is at rest
/// after `fuel` replies at the latest, whatever they are: the hints cannot
/// stay up for ever, and taking them down runs to its end where the host
/// fails.
pub proof fn lemma_session_returns(s: Session, replies: Seq<Reply>)
    requires
        s.inv(),
        s.phase() != crate::session::Phase::CollectingCandidates,
        replies.len() >= s.fuel(),
    ensures
        run(s, replies).pending is None,
    decreases replies.len(),
{
    if replies.len() > 0 {
        let next = step_spec(s, replies.first()).0;
        lemma_step_keeps_valid(s, replies.first());
        if s.pending is Some {
            lemma_step_burns_fuel(s, replies.first());
        }
        lemma_session_returns(next, replies.drop_first());
    }
}

} // verus!
