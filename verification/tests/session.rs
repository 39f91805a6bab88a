use nvi_win::error::Error;
use nvi_win::hints::PickResult;
use nvi_win::session::{Action, NviWin, OverlayHandle, Phase, Reply, Request};
use nvi_win::window::{Anchor, WindowConfig, WindowHandle, WindowInfo};

fn h(id: u64) -> WindowHandle {
    WindowHandle { id }
}

fn tiled(id: u64, geom: (i64, i64, i64, i64)) -> WindowInfo {
    WindowInfo {
        handle: h(id),
        geom,
        config: WindowConfig { relative: None, focusable: None },
    }
}

fn floating(id: u64, geom: (i64, i64, i64, i64)) -> WindowInfo {
    WindowInfo {
        handle: h(id),
        geom,
        config: WindowConfig { relative: Some(Anchor::Window), focusable: None },
    }
}

/// An editor that answers the picker's requests and keeps count of what is on
/// screen.
struct Host {
    current: WindowHandle,
    windows: Vec<WindowInfo>,
    key: String,
    next_overlay: u64,
    live: Vec<OverlayHandle>,
    created: Vec<OverlayHandle>,
    destroyed: Vec<OverlayHandle>,
    log: Vec<Request>,
    /// The requests, counted from 0, that fail.
    failing: Vec<usize>,
}

impl Host {
    /// Three windows, as after a vertical split and a split of the left half;
    /// the newest, at the top left, is current.
    fn three_windows(key: &str) -> Host {
        Host {
            current: h(1002),
            windows: vec![
                tiled(1002, (0, 0, 40, 11)),
                tiled(1001, (0, 12, 40, 11)),
                tiled(1000, (41, 0, 39, 23)),
            ],
            key: key.to_string(),
            next_overlay: 1,
            live: vec![],
            created: vec![],
            destroyed: vec![],
            log: vec![],
            failing: vec![],
        }
    }

    fn perform(&mut self, request: Request) -> Reply {
        let at = self.log.len();
        self.log.push(request);
        let fails = self.failing.contains(&at);
        match request {
            // An overlay whose destruction fails is gone from the picker's
            // care all the same; whether it is still on screen is the host's
            // business. Here it stays.
            Request::DestroyOverlay { overlay } => {
                self.destroyed.push(overlay);
                if fails {
                    return Reply::Failed;
                }
                self.live.retain(|o| *o != overlay);
                Reply::OverlayDestroyed
            }
            _ if fails => Reply::Failed,
            Request::CurrentWindow => Reply::CurrentWindow(self.current),
            Request::ListWindows => Reply::Windows(self.windows.clone()),
            Request::CreateOverlay { .. } => {
                let overlay = OverlayHandle { id: self.next_overlay };
                self.next_overlay += 1;
                self.live.push(overlay);
                self.created.push(overlay);
                Reply::OverlayCreated(overlay)
            }
            Request::Redraw => Reply::Redrawn,
            Request::Keypress => Reply::Key(self.key.clone()),
            Request::SetCurrentWindow { window } => {
                self.current = window;
                Reply::CurrentWindowSet
            }
        }
    }
}

/// Performs requests until the session returns.
fn drive(plugin: &mut NviWin, host: &mut Host, first: Action) -> Result<PickResult, Error> {
    let mut action = first;
    for _ in 0..1000 {
        match action {
            Action::Call(request) => {
                assert_eq!(plugin.pending(), Some(request));
                let reply = host.perform(request);
                action = plugin.step(reply);
            }
            Action::Return(outcome) => {
                assert_eq!(plugin.phase(), Phase::Idle);
                assert_eq!(plugin.pending(), None);
                assert_eq!(plugin.live_overlays(), 0);
                assert_eq!(plugin.candidates(), &[]);
                return outcome;
            }
        }
    }
    panic!("the session does not return");
}

fn overlay(window: u64, label: char) -> Request {
    Request::CreateOverlay { window: h(window), label, width: 7, height: 3 }
}

fn destroy(id: u64) -> Request {
    Request::DestroyOverlay { overlay: OverlayHandle { id } }
}

#[test]
fn startup() {
    let mut plugin = NviWin::new();
    let mut host = Host::three_windows("a");
    let current = host.current;
    let first = plugin.pick(true);
    let result = drive(&mut plugin, &mut host, first).unwrap();
    match result {
        PickResult::Resolved(window) => assert!(window != current),
        PickResult::Cancelled => panic!("the key is a hint"),
    }
    assert_eq!(result, PickResult::Resolved(h(1001)));
}

#[test]
fn pick() {
    let mut plugin = NviWin::new();
    let mut host = Host::three_windows("a");
    let before = host.current;
    let first = plugin.jump();
    drive(&mut plugin, &mut host, first).unwrap();
    let after = host.current;
    assert!(before != after);
    assert_eq!(after, h(1001));
}

#[test]
fn a_new_picker_is_at_rest() {
    let plugin = NviWin::new();
    assert_eq!(plugin.phase(), Phase::Idle);
    assert_eq!(plugin.pending(), None);
    assert_eq!(plugin.live_overlays(), 0);
    assert_eq!(plugin.destroy_errors(), 0);
    assert_eq!(plugin.candidates(), &[]);
    let keys: Vec<char> = "asdfghjklqwertyuiopzxcvbnm".chars().collect();
    assert_eq!(plugin.keys(), &keys[..]);
    let custom = NviWin::with_config(vec!['x', 'y'], 6, 3);
    assert_eq!(custom.keys(), &['x', 'y']);
    assert_eq!(custom.phase(), Phase::Idle);
}

#[test]
fn a_pick_asks_the_host_in_order() {
    let mut plugin = NviWin::new();
    let mut host = Host::three_windows("s");
    let first = plugin.pick(true);
    assert_eq!(first, Action::Call(Request::CurrentWindow));
    let result = drive(&mut plugin, &mut host, first);
    assert_eq!(result, Ok(PickResult::Resolved(h(1000))));
    assert_eq!(
        host.log,
        vec![
            Request::CurrentWindow,
            Request::ListWindows,
            overlay(1001, 'a'),
            overlay(1000, 's'),
            Request::Redraw,
            Request::Keypress,
            destroy(2),
            destroy(1),
        ]
    );
    assert_eq!(host.live, vec![]);
    // A pick does not move.
    assert_eq!(host.current, h(1002));
}

#[test]
fn a_pick_goes_through_the_phases() {
    let mut plugin = NviWin::new();
    let mut host = Host::three_windows("a");
    let mut action = plugin.pick(true);
    let mut phases = vec![plugin.phase()];
    while let Action::Call(request) = action {
        action = plugin.step(host.perform(request));
        phases.push(plugin.phase());
    }
    assert_eq!(
        phases,
        vec![
            Phase::CollectingCandidates,
            Phase::CollectingCandidates,
            Phase::ShowingHints,
            Phase::ShowingHints,
            Phase::ShowingHints,
            Phase::AwaitingKey,
            Phase::Cleanup,
            Phase::Cleanup,
            Phase::Idle,
        ]
    );
    assert_eq!(action, Action::Return(Ok(PickResult::Resolved(h(1001)))));
}

#[test]
fn a_jump_makes_the_picked_window_current() {
    let mut plugin = NviWin::new();
    let mut host = Host::three_windows("s");
    let first = plugin.jump();
    let result = drive(&mut plugin, &mut host, first);
    assert_eq!(result, Ok(PickResult::Resolved(h(1000))));
    assert_eq!(host.current, h(1000));
    assert_eq!(
        host.log,
        vec![
            Request::CurrentWindow,
            Request::ListWindows,
            overlay(1001, 'a'),
            overlay(1000, 's'),
            Request::Redraw,
            Request::Keypress,
            destroy(2),
            destroy(1),
            Request::SetCurrentWindow { window: h(1000) },
        ]
    );
}

#[test]
fn a_jump_resolves_while_the_window_is_made_current() {
    let mut plugin = NviWin::new();
    let mut host = Host::three_windows("a");
    let mut action = plugin.jump();
    while action != Action::Call(Request::SetCurrentWindow { window: h(1001) }) {
        match action {
            Action::Call(request) => action = plugin.step(host.perform(request)),
            Action::Return(_) => panic!("returned before the move"),
        }
    }
    assert_eq!(plugin.phase(), Phase::Resolving);
    assert_eq!(plugin.live_overlays(), 0);
    assert_eq!(host.live, vec![]);
}

#[test]
fn a_key_that_is_no_hint_cancels_and_nothing_moves() {
    for key in ["x", "f", "<Esc>", "", "A"] {
        let mut plugin = NviWin::new();
        let mut host = Host::three_windows(key);
        let first = plugin.jump();
        let result = drive(&mut plugin, &mut host, first);
        assert_eq!(result, Ok(PickResult::Cancelled));
        assert_eq!(host.current, h(1002));
        assert_eq!(host.live, vec![]);
        assert!(!host.log.iter().any(|r| matches!(r, Request::SetCurrentWindow { .. })));
    }
}

#[test]
fn the_current_window_can_be_a_candidate() {
    let mut plugin = NviWin::new();
    let mut host = Host::three_windows("a");
    let first = plugin.pick(false);
    let result = drive(&mut plugin, &mut host, first);
    assert_eq!(result, Ok(PickResult::Resolved(h(1002))));
    assert_eq!(
        host.log[2..5],
        [overlay(1002, 'a'), overlay(1001, 's'), overlay(1000, 'd')]
    );
}

#[test]
fn floating_windows_get_no_hint() {
    let mut plugin = NviWin::new();
    let mut host = Host::three_windows("s");
    host.windows.insert(1, floating(2000, (5, 5, 10, 3)));
    let first = plugin.pick(true);
    let result = drive(&mut plugin, &mut host, first);
    assert_eq!(result, Ok(PickResult::Resolved(h(1000))));
    assert_eq!(host.created.len(), 2);
    assert_eq!(host.log[2..4], [overlay(1001, 'a'), overlay(1000, 's')]);
}

#[test]
fn candidates_beyond_the_keys_get_no_hint() {
    let mut plugin = NviWin::with_config(vec!['j'], 6, 3);
    let mut host = Host::three_windows("j");
    let first = plugin.pick(false);
    let result = drive(&mut plugin, &mut host, first);
    assert_eq!(result, Ok(PickResult::Resolved(h(1002))));
    assert_eq!(
        host.log,
        vec![
            Request::CurrentWindow,
            Request::ListWindows,
            Request::CreateOverlay { window: h(1002), label: 'j', width: 6, height: 3 },
            Request::Redraw,
            Request::Keypress,
            destroy(1),
        ]
    );
}

#[test]
fn without_keys_nothing_can_be_picked() {
    let mut plugin = NviWin::with_config(vec![], 7, 3);
    let mut host = Host::three_windows("a");
    let first = plugin.pick(true);
    let result = drive(&mut plugin, &mut host, first);
    assert_eq!(result, Ok(PickResult::Cancelled));
    assert_eq!(host.created, vec![]);
}

#[test]
fn a_single_window_leaves_nothing_to_pick() {
    let mut plugin = NviWin::new();
    let mut host = Host::three_windows("a");
    host.windows = vec![tiled(1002, (0, 0, 80, 23))];
    let first = plugin.pick(true);
    let result = drive(&mut plugin, &mut host, first);
    assert_eq!(result, Ok(PickResult::Cancelled));
    // The key is read all the same, after the one redraw.
    assert_eq!(
        host.log,
        vec![Request::CurrentWindow, Request::ListWindows, Request::Redraw, Request::Keypress]
    );
}

#[test]
fn one_redraw_after_all_hints_and_before_the_key() {
    let mut plugin = NviWin::new();
    let mut host = Host::three_windows("a");
    let first = plugin.pick(false);
    drive(&mut plugin, &mut host, first).unwrap();
    let redraws: Vec<usize> = host
        .log
        .iter()
        .enumerate()
        .filter(|(_, r)| **r == Request::Redraw)
        .map(|(i, _)| i)
        .collect();
    assert_eq!(redraws, vec![5]);
    assert_eq!(host.log[6], Request::Keypress);
    assert!(host.log[2..5].iter().all(|r| matches!(r, Request::CreateOverlay { .. })));
    assert_eq!(host.log.iter().filter(|r| **r == Request::Keypress).count(), 1);
}

#[test]
fn overlays_come_down_newest_first() {
    let mut plugin = NviWin::new();
    let mut host = Host::three_windows("a");
    let first = plugin.pick(false);
    drive(&mut plugin, &mut host, first).unwrap();
    let mut reversed = host.created.clone();
    reversed.reverse();
    assert_eq!(host.created.len(), 3);
    assert_eq!(host.destroyed, reversed);
}

#[test]
fn a_failed_first_query_returns_the_failure() {
    let mut plugin = NviWin::new();
    let mut host = Host::three_windows("a");
    host.failing = vec![0];
    let first = plugin.pick(true);
    assert_eq!(drive(&mut plugin, &mut host, first), Err(Error::HostQueryFailure));
    assert_eq!(host.log, vec![Request::CurrentWindow]);
}

#[test]
fn a_failed_listing_returns_the_failure() {
    let mut plugin = NviWin::new();
    let mut host = Host::three_windows("a");
    host.failing = vec![1];
    let first = plugin.jump();
    assert_eq!(drive(&mut plugin, &mut host, first), Err(Error::HostQueryFailure));
    assert_eq!(host.log, vec![Request::CurrentWindow, Request::ListWindows]);
    assert_eq!(host.current, h(1002));
}

#[test]
fn a_failed_overlay_takes_down_those_already_up() {
    let mut plugin = NviWin::new();
    let mut host = Host::three_windows("a");
    // The third overlay fails.
    host.failing = vec![4];
    let first = plugin.pick(false);
    assert_eq!(drive(&mut plugin, &mut host, first), Err(Error::HostQueryFailure));
    assert_eq!(
        host.log,
        vec![
            Request::CurrentWindow,
            Request::ListWindows,
            overlay(1002, 'a'),
            overlay(1001, 's'),
            overlay(1000, 'd'),
            destroy(2),
            destroy(1),
        ]
    );
    assert_eq!(host.live, vec![]);
    assert_eq!(plugin.destroy_errors(), 0);
}

#[test]
fn a_failed_first_overlay_has_nothing_to_take_down() {
    let mut plugin = NviWin::new();
    let mut host = Host::three_windows("a");
    host.failing = vec![2];
    let first = plugin.pick(true);
    assert_eq!(drive(&mut plugin, &mut host, first), Err(Error::HostQueryFailure));
    assert_eq!(host.log.len(), 3);
}

#[test]
fn a_failed_redraw_takes_the_hints_down() {
    let mut plugin = NviWin::new();
    let mut host = Host::three_windows("a");
    host.failing = vec![4];
    let first = plugin.pick(true);
    assert_eq!(drive(&mut plugin, &mut host, first), Err(Error::HostQueryFailure));
    assert_eq!(host.log[4..], [Request::Redraw, destroy(2), destroy(1)]);
    assert_eq!(host.live, vec![]);
}

#[test]
fn a_failed_keypress_takes_the_hints_down() {
    let mut plugin = NviWin::new();
    let mut host = Host::three_windows("a");
    host.failing = vec![5];
    let first = plugin.jump();
    assert_eq!(drive(&mut plugin, &mut host, first), Err(Error::HostQueryFailure));
    assert_eq!(host.log[5..], [Request::Keypress, destroy(2), destroy(1)]);
    assert_eq!(host.live, vec![]);
    assert_eq!(host.current, h(1002));
}

#[test]
fn a_failed_destroy_does_not_stop_the_others() {
    let mut plugin = NviWin::new();
    let mut host = Host::three_windows("d");
    // The first destruction, of the newest overlay, fails.
    host.failing = vec![7];
    let first = plugin.pick(false);
    let result = drive(&mut plugin, &mut host, first);
    assert_eq!(result, Ok(PickResult::Resolved(h(1000))));
    assert_eq!(host.log[7..], [destroy(3), destroy(2), destroy(1)]);
    assert_eq!(plugin.destroy_errors(), 1);
    assert_eq!(plugin.live_overlays(), 0);
    // What the host could not take down is still there; the rest is gone.
    assert_eq!(host.live, vec![OverlayHandle { id: 3 }]);
}

#[test]
fn every_destroy_may_fail() {
    let mut plugin = NviWin::new();
    let mut host = Host::three_windows("zz");
    host.failing = vec![7, 8, 9];
    let first = plugin.jump();
    // Three candidates with the current one left out would be two; list four.
    host.windows.push(tiled(900, (0, 24, 80, 5)));
    let result = drive(&mut plugin, &mut host, first);
    assert_eq!(result, Ok(PickResult::Cancelled));
    assert_eq!(host.destroyed.len(), 3);
    assert_eq!(plugin.destroy_errors(), 3);
    assert_eq!(plugin.live_overlays(), 0);
}

#[test]
fn the_count_of_failed_destroys_starts_anew() {
    let mut plugin = NviWin::new();
    let mut host = Host::three_windows("a");
    host.failing = vec![6];
    let first = plugin.pick(true);
    drive(&mut plugin, &mut host, first).unwrap();
    assert_eq!(plugin.destroy_errors(), 1);
    let mut host = Host::three_windows("a");
    let first = plugin.pick(true);
    drive(&mut plugin, &mut host, first).unwrap();
    assert_eq!(plugin.destroy_errors(), 0);
}

#[test]
fn a_failed_move_returns_the_failure() {
    let mut plugin = NviWin::new();
    let mut host = Host::three_windows("a");
    host.failing = vec![8];
    let first = plugin.jump();
    assert_eq!(drive(&mut plugin, &mut host, first), Err(Error::HostQueryFailure));
    assert_eq!(host.log[8], Request::SetCurrentWindow { window: h(1001) });
    assert_eq!(host.current, h(1002));
    assert_eq!(host.live, vec![]);
}

#[test]
fn a_second_pick_in_flight_is_refused() {
    let mut plugin = NviWin::new();
    let mut host = Host::three_windows("a");
    let mut action = plugin.pick(true);
    for _ in 0..3 {
        match action {
            Action::Call(request) => action = plugin.step(host.perform(request)),
            Action::Return(_) => panic!("returned early"),
        }
    }
    let pending = plugin.pending();
    assert_eq!(plugin.pick(true), Action::Return(Err(Error::SessionInFlight)));
    assert_eq!(plugin.jump(), Action::Return(Err(Error::SessionInFlight)));
    // The session in flight is as it was and runs to its end.
    assert_eq!(plugin.pending(), pending);
    assert_eq!(plugin.live_overlays(), 1);
    let result = drive(&mut plugin, &mut host, action);
    assert_eq!(result, Ok(PickResult::Resolved(h(1001))));
    // It did not become a jump.
    assert_eq!(host.current, h(1002));
}

#[test]
fn a_reply_without_a_session_is_refused() {
    let mut plugin = NviWin::new();
    assert_eq!(plugin.step(Reply::Redrawn), Action::Return(Err(Error::NoSession)));
    assert_eq!(
        plugin.step(Reply::OverlayCreated(OverlayHandle { id: 1 })),
        Action::Return(Err(Error::NoSession))
    );
    assert_eq!(plugin.phase(), Phase::Idle);
    assert_eq!(plugin.live_overlays(), 0);
    // And after a session has returned.
    let mut host = Host::three_windows("a");
    let first = plugin.pick(true);
    drive(&mut plugin, &mut host, first).unwrap();
    assert_eq!(
        plugin.step(Reply::Key("a".to_string())),
        Action::Return(Err(Error::NoSession))
    );
}

#[test]
fn a_reply_out_of_turn_counts_as_a_failure() {
    // The host answers the request for the key with something else.
    let mut plugin = NviWin::new();
    let mut host = Host::three_windows("a");
    let mut action = plugin.pick(true);
    while action != Action::Call(Request::Keypress) {
        match action {
            Action::Call(request) => action = plugin.step(host.perform(request)),
            Action::Return(_) => panic!("returned early"),
        }
    }
    host.log.push(Request::Keypress);
    let action = plugin.step(Reply::Redrawn);
    assert_eq!(action, Action::Call(destroy(2)));
    assert_eq!(drive(&mut plugin, &mut host, action), Err(Error::HostQueryFailure));
    assert_eq!(host.live, vec![]);

    // The same for each request of the way there.
    for at in 0..5 {
        let mut plugin = NviWin::new();
        let mut host = Host::three_windows("a");
        let mut action = plugin.pick(true);
        for _ in 0..at {
            match action {
                Action::Call(request) => action = plugin.step(host.perform(request)),
                Action::Return(_) => panic!("returned early"),
            }
        }
        let action = plugin.step(Reply::CurrentWindowSet);
        assert_eq!(drive(&mut plugin, &mut host, action), Err(Error::HostQueryFailure));
        assert_eq!(host.live, vec![]);
    }
}

#[test]
fn a_pick_leaves_no_overlay_whatever_fails() {
    // Every set of failing requests among the first eleven.
    for mask in 0u32..(1 << 11) {
        for jump in [false, true] {
            let mut plugin = NviWin::new();
            let mut host = Host::three_windows("s");
            host.failing = (0..11).filter(|i| mask & (1 << i) != 0).collect();
            let first = if jump { plugin.jump() } else { plugin.pick(false) };
            let result = drive(&mut plugin, &mut host, first);
            assert_eq!(plugin.live_overlays(), 0);
            assert_eq!(plugin.phase(), Phase::Idle);
            // Whatever was put up was asked to come down, newest first.
            let mut reversed = host.created.clone();
            reversed.reverse();
            assert_eq!(host.destroyed, reversed);
            // Only failed destructions leave anything on screen.
            assert_eq!(host.live.len(), plugin.destroy_errors());
            // A failure before the hints come down is reported.
            let before_cleanup = 2 + host.created.len() + 2;
            let failed_early = host.failing.iter().any(|i| {
                *i < host.log.len()
                    && !matches!(
                        host.log[*i],
                        Request::DestroyOverlay { .. } | Request::SetCurrentWindow { .. }
                    )
                    && *i < before_cleanup
            });
            if failed_early {
                assert_eq!(result, Err(Error::HostQueryFailure));
            }
        }
    }
}

#[test]
fn the_picker_can_be_used_again() {
    let mut plugin = NviWin::new();
    for (key, expected) in [("a", 1001), ("s", 1000), ("a", 1001)] {
        let mut host = Host::three_windows(key);
        let first = plugin.jump();
        assert_eq!(first, Action::Call(Request::CurrentWindow));
        let result = drive(&mut plugin, &mut host, first);
        assert_eq!(result, Ok(PickResult::Resolved(h(expected))));
    }
    // After a failure too.
    let mut host = Host::three_windows("a");
    host.failing = vec![3];
    let first = plugin.pick(true);
    assert_eq!(drive(&mut plugin, &mut host, first), Err(Error::HostQueryFailure));
    let mut host = Host::three_windows("a");
    let first = plugin.pick(true);
    assert_eq!(
        drive(&mut plugin, &mut host, first),
        Ok(PickResult::Resolved(h(1001)))
    );
}
