//! The pick session: hints go up, one key is read, hints come down, and the
//! key is resolved to a window.
//!
//! The session does no input or output. It is a machine that hands out one
//! [`Request`] at a time and is told the host's [`Reply`] to it; whoever drives
//! it performs the requests. [`step_spec`] is the whole behaviour, and the
//! executable [`NviWin::step`] is proved to compute it.
use crate::error::Error;
use crate::hints::{
    hint_label, hint_of, resolve, spec_resolve, PickResult, DEFAULT_KEYS, FLOAT_HEIGHT, FLOAT_WIDTH,
};
use crate::session_laws::{lemma_begin_keeps_valid, lemma_step_keeps_valid};
use crate::window::{candidate_set, list_candidates, WindowHandle, WindowInfo};
use vstd::prelude::*;

verus! {

/// The host's name for a hint overlay that it has put on screen.
#[derive(Clone, Copy, Debug, PartialEq, Eq, Hash, Structural)]
pub struct OverlayHandle {
    pub id: u64,
}

/// A round trip that the session asks of the host.
#[derive(Clone, Copy, Debug, PartialEq, Eq, Structural)]
pub enum Request {
    /// Report the current window.
    CurrentWindow,
    /// List the windows of the current tab, in layout order.
    ListWindows,
    /// Put an overlay of the given size at the centre of `window`, showing
    /// `label`.
    CreateOverlay { window: WindowHandle, label: char, width: usize, height: usize },
    /// Redraw the screen once.
    Redraw,
    /// Wait for one key and report its name.
    Keypress,
    /// Take an overlay off the screen.
    DestroyOverlay { overlay: OverlayHandle },
    /// Make `window` the current window.
    SetCurrentWindow { window: WindowHandle },
}

/// What the host answers to a request.
#[derive(Debug, PartialEq, Eq)]
pub enum Reply {
    CurrentWindow(WindowHandle),
    Windows(Vec<WindowInfo>),
    OverlayCreated(OverlayHandle),
    Redrawn,
    Key(String),
    OverlayDestroyed,
    CurrentWindowSet,
    /// The round trip failed.
    Failed,
}

/// What the driver of a session does next.
#[derive(Clone, Copy, Debug, PartialEq, Eq)]
pub enum Action {
    /// Perform the request and hand the reply to `step`.
    Call(Request),
    /// The session is over, with this outcome.
    Return(Result<PickResult, Error>),
}

/// Where a session stands.
#[derive(Clone, Copy, Debug, PartialEq, Eq, Structural)]
pub enum Phase {
    /// No session is in flight.
    Idle,
    /// The current window and the windows of the tab are asked for.
    CollectingCandidates,
    /// The hints go up, one overlay after the other, and the screen is
    /// redrawn.
    ShowingHints,
    /// The user is to press a key.
    AwaitingKey,
    /// The hints come down, one overlay after the other.
    Cleanup,
    /// The key has been resolved to a window, which is made current.
    Resolving,
}

/// The state of the picker as a mathematical value.
#[verifier::ext_equal]
pub struct Session {
    /// The key sequence that hints are drawn from.
    pub keys: Seq<char>,
    /// The size of a hint overlay.
    pub width: usize,
    pub height: usize,
    /// The request that the host has been asked and not yet answered; `None`
    /// while no session is in flight.
    pub pending: Option<Request>,
    /// Whether the session ends by making the picked window current.
    pub jump: bool,
    /// Whether the current window is left out of the candidates.
    pub exclude_current: bool,
    /// The current window, once the host has reported it.
    pub current: Option<WindowHandle>,
    /// The candidates, in layout order.
    pub candidates: Seq<WindowHandle>,
    /// The overlays that are on screen, oldest first.
    pub overlays: Seq<OverlayHandle>,
    /// The name of the key that was pressed, once it has been read.
    pub key: Option<Seq<char>>,
    /// How many overlays the host failed to take down in this session.
    pub destroy_errors: nat,
}

impl Session {
    /// The picker at rest, with its settings: no session, nothing on screen.
    pub open spec fn at_rest(keys: Seq<char>, width: usize, height: usize) -> Session {
        Session {
            keys,
            width,
            height,
            pending: None,
            jump: false,
            exclude_current: true,
            current: None,
            candidates: Seq::empty(),
            overlays: Seq::empty(),
            key: None,
            destroy_errors: 0,
        }
    }

    /// Where the session stands, read off the request that is pending.
    pub open spec fn phase(self) -> Phase {
        match self.pending {
            None => Phase::Idle,
            Some(Request::CurrentWindow) => Phase::CollectingCandidates,
            Some(Request::ListWindows) => Phase::CollectingCandidates,
            Some(Request::CreateOverlay { .. }) | Some(Request::Redraw) => Phase::ShowingHints,
            Some(Request::Keypress) => Phase::AwaitingKey,
            Some(Request::DestroyOverlay { .. }) => Phase::Cleanup,
            Some(Request::SetCurrentWindow { .. }) => Phase::Resolving,
        }
    }

    /// The session asks `request` of the host.
    pub open spec fn call(self, request: Request) -> (Session, Action) {
        (Session { pending: Some(request), ..self }, Action::Call(request))
    }

    /// The session ends with `outcome`. What it knew of the windows is
    /// forgotten; the overlays are not touched.
    pub open spec fn finish(self, outcome: Result<PickResult, Error>) -> (Session, Action) {
        (
            Session {
                pending: None,
                current: None,
                candidates: Seq::empty(),
                key: None,
                ..self
            },
            Action::Return(outcome),
        )
    }

    /// A pick begins, unless one is in flight.
    pub open spec fn begin(self, jump: bool, exclude_current: bool) -> (Session, Action) {
        if self.pending is Some {
            (self, Action::Return(Err(Error::SessionInFlight)))
        } else {
            Session {
                jump,
                exclude_current,
                current: None,
                candidates: Seq::empty(),
                key: None,
                destroy_errors: 0,
                ..self
            }.call(Request::CurrentWindow)
        }
    }

    /// The next hint goes up: the first candidate that shows none yet gets an
    /// overlay with its key. When every candidate that has a key shows it, the
    /// screen is redrawn once.
    pub open spec fn show_hints(self) -> (Session, Action) {
        let n = self.overlays.len() as int;
        match hint_of(self.keys, n) {
            Some(label) if n < self.candidates.len() => self.call(
                Request::CreateOverlay {
                    window: self.candidates[n],
                    label,
                    width: self.width,
                    height: self.height,
                },
            ),
            _ => self.call(Request::Redraw),
        }
    }

    /// The hints come down, newest first. When none is left the session
    /// concludes.
    pub open spec fn destroy_all(self) -> (Session, Action) {
        if self.overlays.len() > 0 {
            self.call(Request::DestroyOverlay { overlay: self.overlays.last() })
        } else {
            self.conclude()
        }
    }

    /// The session settles its outcome. Without a key the host has failed.
    /// With one, the key is resolved; a jump then asks the host to make the
    /// window current.
    pub open spec fn conclude(self) -> (Session, Action) {
        match self.key {
            None => self.finish(Err(Error::HostQueryFailure)),
            Some(key) => match spec_resolve(self.keys, key, self.candidates) {
                PickResult::Resolved(window) => if self.jump {
                    self.call(Request::SetCurrentWindow { window })
                } else {
                    self.finish(Ok(PickResult::Resolved(window)))
                },
                PickResult::Cancelled => self.finish(Ok(PickResult::Cancelled)),
            },
        }
    }

    /// The newest overlay is no longer the session's to take down: the host
    /// has answered the request to destroy it. `failed` says that it answered
    /// with a failure, which is counted.
    pub open spec fn release_overlay(self, failed: bool) -> Session {
        if self.overlays.len() > 0 {
            Session {
                overlays: self.overlays.drop_last(),
                destroy_errors: if failed {
                    self.destroy_errors + 1
                } else {
                    self.destroy_errors
                },
                ..self
            }
        } else {
            self
        }
    }
}

/// One step of the picker: the state after the host's reply to the pending
/// request, and what to do next.
///
/// A reply that does not answer the pending request counts as a failure of
/// that request. A failure while candidates are collected, hints go up or the
/// key is awaited takes the hints down and then ends the session with
/// `HostQueryFailure`; a failure to take one hint down is counted and the next
/// hint is taken down all the same.
pub open spec fn step_spec(s: Session, reply: Reply) -> (Session, Action) {
    match s.pending {
        None => (s, Action::Return(Err(Error::NoSession))),
        Some(Request::CurrentWindow) => match reply {
            Reply::CurrentWindow(w) => Session { current: Some(w), ..s }.call(Request::ListWindows),
            _ => s.destroy_all(),
        },
        Some(Request::ListWindows) => match (reply, s.current) {
            (Reply::Windows(listed), Some(current)) => Session {
                candidates: candidate_set(listed@, current, s.exclude_current),
                ..s
            }.show_hints(),
            _ => s.destroy_all(),
        },
        Some(Request::CreateOverlay { .. }) => match reply {
            Reply::OverlayCreated(overlay) => Session {
                overlays: s.overlays.push(overlay),
                ..s
            }.show_hints(),
            _ => s.destroy_all(),
        },
        Some(Request::Redraw) => match reply {
            Reply::Redrawn => s.call(Request::Keypress),
            _ => s.destroy_all(),
        },
        Some(Request::Keypress) => match reply {
            Reply::Key(name) => Session { key: Some(name@), ..s }.destroy_all(),
            _ => s.destroy_all(),
        },
        Some(Request::DestroyOverlay { .. }) => match reply {
            Reply::OverlayDestroyed => s.release_overlay(false).destroy_all(),
            _ => s.release_overlay(true).destroy_all(),
        },
        Some(Request::SetCurrentWindow { window }) => match reply {
            Reply::CurrentWindowSet => s.finish(Ok(PickResult::Resolved(window))),
            _ => s.finish(Err(Error::HostQueryFailure)),
        },
    }
}

/// The picker: its settings and the session in flight, if there is one.
pub struct NviWin {
    keys: Vec<char>,
    width: usize,
    height: usize,
    pending: Option<Request>,
    jump: bool,
    exclude_current: bool,
    current: Option<WindowHandle>,
    candidates: Vec<WindowHandle>,
    overlays: Vec<OverlayHandle>,
    key: Option<String>,
    destroy_errors: usize,
}

impl View for NviWin {
    type V = Session;

    closed spec fn view(&self) -> Session {
        Session {
            keys: self.keys@,
            width: self.width,
            height: self.height,
            pending: self.pending,
            jump: self.jump,
            exclude_current: self.exclude_current,
            current: self.current,
            candidates: self.candidates@,
            overlays: self.overlays@,
            key: match self.key {
                Some(name) => Some(name@),
                None => None,
            },
            destroy_errors: self.destroy_errors as nat,
        }
    }
}

impl NviWin {
    /// What holds of every picker, at rest and in flight: without a session
    /// no overlay is on screen, and none is while the picked window is made
    /// current; no failure to destroy is on the count before the hints start
    /// to come down.
    #[verifier::type_invariant]
    spec fn well_formed(&self) -> bool {
        &&& self.pending is None ==> self.overlays@.len() == 0
        &&& self.pending matches Some(Request::SetCurrentWindow { .. }) ==> self.overlays@.len()
            == 0
        &&& self.pending is Some && !(self.pending matches Some(Request::DestroyOverlay { .. }))
            && !(self.pending matches Some(Request::SetCurrentWindow { .. }))
            ==> self.destroy_errors == 0
        &&& self.destroy_errors + self.overlays@.len() <= usize::MAX
    }

    /// A picker with the default keys and overlay size, at rest.
    pub fn new() -> (r: NviWin)
        ensures
            r@ == Session::at_rest(DEFAULT_KEYS@, FLOAT_WIDTH, FLOAT_HEIGHT),
            r@.inv(),
    {
        let mut keys: Vec<char> = Vec::new();
        let n = DEFAULT_KEYS.unicode_len();
        let mut i: usize = 0;
        while i < n
            invariant
                i <= n,
                n == DEFAULT_KEYS@.len(),
                keys@ == DEFAULT_KEYS@.take(i as int),
            decreases n - i,
        {
            keys.push(DEFAULT_KEYS.get_char(i));
            assert(DEFAULT_KEYS@.take(i as int).push(DEFAULT_KEYS@[i as int])
                =~= DEFAULT_KEYS@.take(i + 1));
            i += 1;
        }
        assert(DEFAULT_KEYS@.take(n as int) =~= DEFAULT_KEYS@);
        NviWin::with_config(keys, FLOAT_WIDTH, FLOAT_HEIGHT)
    }

    /// A picker with the given key sequence and overlay size, at rest.
    pub fn with_config(keys: Vec<char>, width: usize, height: usize) -> (r: NviWin)
        ensures
            r@ == Session::at_rest(keys@, width, height),
            r@.inv(),
    {
        NviWin {
            keys,
            width,
            height,
            pending: None,
            jump: false,
            exclude_current: true,
            current: None,
            candidates: Vec::new(),
            overlays: Vec::new(),
            key: None,
            destroy_errors: 0,
        }
    }

    /// Starts a pick: the session that ends with the window whose hint the
    /// user pressed, or with `Cancelled`. With `exclude_current` the current
    /// window is no candidate. While a session is in flight nothing changes
    /// and the answer is `SessionInFlight`.
    pub fn pick(&mut self, exclude_current: bool) -> (action: Action)
        ensures
            final(self)@ == old(self)@.begin(false, exclude_current).0,
            action == old(self)@.begin(false, exclude_current).1,
            old(self)@.inv() ==> final(self)@.inv(),
    {
        proof {
            if self@.inv() {
                lemma_begin_keeps_valid(self@, false, exclude_current);
            }
        }
        self.begin(false, exclude_current)
    }

    /// Starts a jump: a pick among the other windows that ends by making the
    /// picked window current.
    pub fn jump(&mut self) -> (action: Action)
        ensures
            final(self)@ == old(self)@.begin(true, true).0,
            action == old(self)@.begin(true, true).1,
            old(self)@.inv() ==> final(self)@.inv(),
    {
        proof {
            if self@.inv() {
                lemma_begin_keeps_valid(self@, true, true);
            }
        }
        self.begin(true, true)
    }

    /// Takes the host's reply to the pending request and says what to do
    /// next.
    pub fn step(&mut self, reply: Reply) -> (action: Action)
        ensures
            final(self)@ == step_spec(old(self)@, reply).0,
            action == step_spec(old(self)@, reply).1,
            final(self)@.pending is None ==> final(self)@.overlays.len() == 0,
            action is Return ==> final(self)@.pending is None,
            old(self)@.inv() ==> final(self)@.inv(),
    {
        proof {
            use_type_invariant(&*self);
            if self@.inv() {
                lemma_step_keeps_valid(self@, reply);
            }
        }
        let action = match self.pending {
            None => Action::Return(Err(Error::NoSession)),
            Some(Request::CurrentWindow) => match reply {
                Reply::CurrentWindow(w) => {
                    self.current = Some(w);
                    self.call(Request::ListWindows)
                },
                _ => self.destroy_all(),
            },
            Some(Request::ListWindows) => match (reply, self.current) {
                (Reply::Windows(listed), Some(current)) => {
                    self.candidates = list_candidates(
                        listed.as_slice(),
                        current,
                        self.exclude_current,
                    );
                    self.show_hints()
                },
                _ => self.destroy_all(),
            },
            Some(Request::CreateOverlay { .. }) => match reply {
                Reply::OverlayCreated(overlay) => {
                    self.adopt_overlay(overlay);
                    self.show_hints()
                },
                _ => self.destroy_all(),
            },
            Some(Request::Redraw) => match reply {
                Reply::Redrawn => self.call(Request::Keypress),
                _ => self.destroy_all(),
            },
            Some(Request::Keypress) => match reply {
                Reply::Key(name) => {
                    self.key = Some(name);
                    self.destroy_all()
                },
                _ => self.destroy_all(),
            },
            Some(Request::DestroyOverlay { .. }) => match reply {
                Reply::OverlayDestroyed => {
                    self.release_overlay(false);
                    self.destroy_all()
                },
                _ => {
                    self.release_overlay(true);
                    self.destroy_all()
                },
            },
            Some(Request::SetCurrentWindow { window }) => match reply {
                Reply::CurrentWindowSet => self.finish(Ok(PickResult::Resolved(window))),
                _ => self.finish(Err(Error::HostQueryFailure)),
            },
        };
        proof {
            use_type_invariant(&*self);
        }
        action
    }

    /// Where the session stands.
    pub fn phase(&self) -> (phase: Phase)
        ensures
            phase == self@.phase(),
    {
        match self.pending {
            None => Phase::Idle,
            Some(Request::CurrentWindow) => Phase::CollectingCandidates,
            Some(Request::ListWindows) => Phase::CollectingCandidates,
            Some(Request::CreateOverlay { .. }) | Some(Request::Redraw) => Phase::ShowingHints,
            Some(Request::Keypress) => Phase::AwaitingKey,
            Some(Request::DestroyOverlay { .. }) => Phase::Cleanup,
            Some(Request::SetCurrentWindow { .. }) => Phase::Resolving,
        }
    }

    /// The request that the host has been asked and not yet answered.
    pub fn pending(&self) -> (pending: Option<Request>)
        ensures
            pending == self@.pending,
    {
        self.pending
    }

    /// How many overlays of the session are on screen. It is 0 whenever no
    /// session is in flight.
    pub fn live_overlays(&self) -> (n: usize)
        ensures
            n == self@.overlays.len(),
            self@.pending is None ==> n == 0,
    {
        proof {
            use_type_invariant(self);
        }
        self.overlays.len()
    }

    /// How many overlays the host failed to take down in the last session.
    pub fn destroy_errors(&self) -> (n: usize)
        ensures
            n == self@.destroy_errors,
    {
        self.destroy_errors
    }

    /// The key sequence that hints are drawn from.
    pub fn keys(&self) -> (keys: &[char])
        ensures
            keys@ == self@.keys,
    {
        self.keys.as_slice()
    }

    /// The candidates of the session in flight, in layout order.
    pub fn candidates(&self) -> (candidates: &[WindowHandle])
        ensures
            candidates@ == self@.candidates,
    {
        self.candidates.as_slice()
    }

    fn begin(&mut self, jump: bool, exclude_current: bool) -> (action: Action)
        ensures
            final(self)@ == old(self)@.begin(jump, exclude_current).0,
            action == old(self)@.begin(jump, exclude_current).1,
    {
        proof {
            use_type_invariant(&*self);
        }
        if self.pending.is_some() {
            return Action::Return(Err(Error::SessionInFlight));
        }
        self.jump = jump;
        self.exclude_current = exclude_current;
        self.current = None;
        self.candidates = Vec::new();
        self.key = None;
        self.destroy_errors = 0;
        self.call(Request::CurrentWindow)
    }

    fn call(&mut self, request: Request) -> (action: Action)
        requires
            request is SetCurrentWindow ==> old(self)@.overlays.len() == 0,
            !(request is SetCurrentWindow) && !(request is DestroyOverlay) ==> old(
                self,
            )@.destroy_errors == 0,
        ensures
            final(self)@ == old(self)@.call(request).0,
            action == old(self)@.call(request).1,
    {
        proof {
            use_type_invariant(&*self);
        }
        self.pending = Some(request);
        Action::Call(request)
    }

    fn finish(&mut self, outcome: Result<PickResult, Error>) -> (action: Action)
        requires
            old(self)@.overlays.len() == 0,
        ensures
            final(self)@ == old(self)@.finish(outcome).0,
            action == old(self)@.finish(outcome).1,
    {
        proof {
            use_type_invariant(&*self);
        }
        self.pending = None;
        self.current = None;
        self.candidates = Vec::new();
        self.key = None;
        Action::Return(outcome)
    }

    /// Asks for the next hint overlay, or for the redraw once all are posted.
    fn show_hints(&mut self) -> (action: Action)
        requires
            old(self)@.destroy_errors == 0,
        ensures
            final(self)@ == old(self)@.show_hints().0,
            action == old(self)@.show_hints().1,
    {
        let n = self.overlays.len();
        match hint_label(self.keys.as_slice(), n) {
            Some(label) if n < self.candidates.len() => {
                let request = Request::CreateOverlay {
                    window: self.candidates[n],
                    label,
                    width: self.width,
                    height: self.height,
                };
                self.call(request)
            },
            _ => self.call(Request::Redraw),
        }
    }

    /// Asks for the destruction of the newest overlay, or concludes once
    /// none is left.
    fn destroy_all(&mut self) -> (action: Action)
        ensures
            final(self)@ == old(self)@.destroy_all().0,
            action == old(self)@.destroy_all().1,
    {
        let n = self.overlays.len();
        if n > 0 {
            let overlay = self.overlays[n - 1];
            self.call(Request::DestroyOverlay { overlay })
        } else {
            self.conclude()
        }
    }

    fn conclude(&mut self) -> (action: Action)
        requires
            old(self)@.overlays.len() == 0,
        ensures
            final(self)@ == old(self)@.conclude().0,
            action == old(self)@.conclude().1,
    {
        let resolved = match &self.key {
            Some(name) => Some(
                resolve(self.keys.as_slice(), name.as_str(), self.candidates.as_slice()),
            ),
            None => None,
        };
        match resolved {
            None => self.finish(Err(Error::HostQueryFailure)),
            Some(PickResult::Resolved(window)) => {
                if self.jump {
                    self.call(Request::SetCurrentWindow { window })
                } else {
                    self.finish(Ok(PickResult::Resolved(window)))
                }
            },
            Some(PickResult::Cancelled) => self.finish(Ok(PickResult::Cancelled)),
        }
    }

    /// Takes the overlay that the host has made into the session's care.
    fn adopt_overlay(&mut self, overlay: OverlayHandle)
        requires
            old(self)@.pending matches Some(Request::CreateOverlay { .. }),
        ensures
            final(self)@ == (Session { overlays: old(self)@.overlays.push(overlay), ..old(self)@ }),
    {
        proof {
            use_type_invariant(&*self);
        }
        let mut overlays: Vec<OverlayHandle> = Vec::new();
        core::mem::swap(&mut self.overlays, &mut overlays);
        overlays.push(overlay);
        assert(overlays@.len() == overlays.len() <= usize::MAX);
        core::mem::swap(&mut self.overlays, &mut overlays);
    }

    /// Lets go of the newest overlay, whose destruction the host has
    /// answered, and counts the answer if it was a failure.
    fn release_overlay(&mut self, failed: bool)
        requires
            old(self)@.pending matches Some(Request::DestroyOverlay { .. }),
        ensures
            final(self)@ == old(self)@.release_overlay(failed),
    {
        proof {
            use_type_invariant(&*self);
        }
        let mut overlays: Vec<OverlayHandle> = Vec::new();
        core::mem::swap(&mut self.overlays, &mut overlays);
        let released = overlays.pop();
        core::mem::swap(&mut self.overlays, &mut overlays);
        if failed && released.is_some() {
            self.destroy_errors = self.destroy_errors + 1;
        }
    }
}

} // verus!
