use window_toggle::invocation::{hide_window, show_window, toggle_window, Action, Invocation};
use window_toggle::window::{on_focus_lost, reported_visibility, WindowCall, MAIN_WINDOW_LABEL};

/// A window that applies calls as the windowing subsystem would, and fails
/// the one call named in `fail` with the given cause.
struct SimWindow {
    visible: bool,
    focused: bool,
    fail: Option<(WindowCall, String)>,
    log: Vec<WindowCall>,
}

impl SimWindow {
    fn new(visible: bool, focused: bool) -> SimWindow {
        SimWindow { visible, focused, fail: None, log: Vec::new() }
    }

    fn perform(&mut self, c: WindowCall) -> Result<(), String> {
        self.log.push(c);
        if let Some((f, cause)) = &self.fail {
            if *f == c {
                return Err(cause.clone());
            }
        }
        match c {
            WindowCall::Show => self.visible = true,
            WindowCall::Hide => {
                self.visible = false;
                self.focused = false;
            }
            WindowCall::SetFocus => self.focused = true,
        }
        Ok(())
    }

    fn query(&self) -> Option<bool> {
        Some(self.visible)
    }
}

fn drive(inv: &mut Invocation, w: &mut SimWindow) -> Result<(), String> {
    loop {
        match inv.next_action() {
            Action::Call(c) => {
                let r = w.perform(c);
                inv.record(r);
            }
            Action::Finish(r) => return r,
        }
    }
}

#[test]
fn toggle_from_hidden_shows_then_hides() {
    let mut w = SimWindow::new(false, false);
    let mut inv = toggle_window(w.query());
    assert_eq!(drive(&mut inv, &mut w), Ok(()));
    assert!(w.visible);
    assert!(w.focused);
    assert_eq!(w.log, vec![WindowCall::Show, WindowCall::SetFocus]);

    let mut inv = toggle_window(w.query());
    assert_eq!(drive(&mut inv, &mut w), Ok(()));
    assert!(!w.visible);
    assert_eq!(w.log, vec![WindowCall::Show, WindowCall::SetFocus, WindowCall::Hide]);
}

#[test]
fn toggles_alternate_from_hidden() {
    let mut w = SimWindow::new(false, false);
    for i in 1..=7u32 {
        let mut inv = toggle_window(w.query());
        assert_eq!(drive(&mut inv, &mut w), Ok(()));
        assert_eq!(w.visible, i % 2 == 1);
    }
}

#[test]
fn toggle_with_failed_query_shows() {
    let mut w = SimWindow::new(true, false);
    let mut inv = toggle_window(None);
    assert_eq!(drive(&mut inv, &mut w), Ok(()));
    assert_eq!(w.log, vec![WindowCall::Show, WindowCall::SetFocus]);
    assert!(w.visible);
    assert!(w.focused);
}

#[test]
fn toggle_reports_show_failure() {
    let mut w = SimWindow::new(false, false);
    w.fail = Some((WindowCall::Show, "no display".to_string()));
    let mut inv = toggle_window(w.query());
    assert_eq!(drive(&mut inv, &mut w), Err("no display".to_string()));
    assert_eq!(w.log, vec![WindowCall::Show]);
}

#[test]
fn show_makes_window_visible_from_either_state() {
    for start in [false, true] {
        let mut w = SimWindow::new(start, false);
        let mut inv = show_window();
        assert_eq!(drive(&mut inv, &mut w), Ok(()));
        assert!(w.visible);
        assert!(w.focused);
        assert_eq!(w.log, vec![WindowCall::Show, WindowCall::SetFocus]);
    }
}

#[test]
fn show_focus_failure_keeps_window_visible() {
    let mut w = SimWindow::new(false, false);
    w.fail = Some((WindowCall::SetFocus, "focus refused".to_string()));
    let mut inv = show_window();
    assert_eq!(drive(&mut inv, &mut w), Err("focus refused".to_string()));
    assert!(w.visible);
    assert!(!w.focused);
    assert_eq!(w.log, vec![WindowCall::Show, WindowCall::SetFocus]);
}

#[test]
fn hide_makes_window_hidden_from_either_state() {
    for start in [false, true] {
        let mut w = SimWindow::new(start, start);
        let mut inv = hide_window();
        assert_eq!(drive(&mut inv, &mut w), Ok(()));
        assert!(!w.visible);
        assert_eq!(w.log, vec![WindowCall::Hide]);
    }
}

#[test]
fn hide_failure_reports_cause_unchanged() {
    let mut w = SimWindow::new(true, true);
    w.fail = Some((WindowCall::Hide, "window is gone".to_string()));
    let mut inv = hide_window();
    assert_eq!(drive(&mut inv, &mut w), Err("window is gone".to_string()));
    assert!(w.visible);
    assert_eq!(w.log, vec![WindowCall::Hide]);
}

#[test]
fn finished_request_keeps_its_answer() {
    let mut inv = hide_window();
    assert!(!inv.is_finished());
    assert_eq!(inv.next_action(), Action::Call(WindowCall::Hide));
    inv.record(Err("lost".to_string()));
    assert!(inv.is_finished());
    assert_eq!(inv.next_action(), Action::Finish(Err("lost".to_string())));
    assert_eq!(inv.next_action(), Action::Finish(Err("lost".to_string())));
}

#[test]
fn blur_hides_visible_window() {
    let mut w = SimWindow::new(true, true);
    let _ = w.perform(on_focus_lost());
    assert!(!w.visible);
    assert!(!w.focused);
}

#[test]
fn blur_with_failing_hide_surfaces_nothing() {
    let mut w = SimWindow::new(true, true);
    w.fail = Some((WindowCall::Hide, "hide failed".to_string()));
    let c = on_focus_lost();
    assert_eq!(c, WindowCall::Hide);
    let _ = w.perform(c);
    assert_eq!(w.log, vec![WindowCall::Hide]);
}

#[test]
fn visibility_defaults_to_hidden() {
    assert!(reported_visibility(Some(true)));
    assert!(!reported_visibility(Some(false)));
    assert!(!reported_visibility(None));
}

#[test]
fn main_window_label() {
    assert_eq!(MAIN_WINDOW_LABEL, "main");
}
