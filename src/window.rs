use vstd::prelude::*;

verus! {

/// Label under which the windowing subsystem registers the managed window.
pub const MAIN_WINDOW_LABEL: &'static str = "main";

/// One call into the windowing subsystem that a request may make.
#[derive(Clone, Copy, Debug, PartialEq, Eq, Structural)]
pub enum WindowCall {
    Show,
    Hide,
    SetFocus,
}

/// What the controller can set on the managed window.
pub struct WindowModel {
    pub visible: bool,
    pub focused: bool,
}

/// The managed window after `c` succeeded on `w`.
///
/// A hidden window holds no input focus.
pub open spec fn effect(w: WindowModel, c: WindowCall) -> WindowModel {
    match c {
        WindowCall::Show => WindowModel { visible: true, focused: w.focused },
        WindowCall::Hide => WindowModel { visible: false, focused: false },
        WindowCall::SetFocus => WindowModel { visible: w.visible, focused: true },
    }
}

/// The managed window after every call of `cs` succeeded, in order.
pub open spec fn apply_calls(w: WindowModel, cs: Seq<WindowCall>) -> WindowModel
    decreases cs.len(),
{
    if cs.len() == 0 {
        w
    } else {
        apply_calls(effect(w, cs[0]), cs.drop_first())
    }
}

/// Calls made by a toggle on a window whose visibility reads `visible`.
pub open spec fn toggle_plan(visible: bool) -> Seq<WindowCall> {
    if visible {
        seq![WindowCall::Hide]
    } else {
        seq![WindowCall::Show, WindowCall::SetFocus]
    }
}

/// Calls made by a show request.
pub open spec fn show_plan() -> Seq<WindowCall> {
    seq![WindowCall::Show, WindowCall::SetFocus]
}

/// Calls made by a hide request.
pub open spec fn hide_plan() -> Seq<WindowCall> {
    seq![WindowCall::Hide]
}

/// Visibility as the controller acts on it: a query that failed
/// (`None`) counts as not visible.
pub fn reported_visibility(query: Option<bool>) -> (r: bool)
    ensures
        r == (query == Some(true)),
{
    match query {
        Some(v) => v,
        None => false,
    }
}

/// The call made when the main window loses input focus.  Its result is
/// discarded: nothing is reported to anyone.
pub fn on_focus_lost() -> (c: WindowCall)
    ensures
        c == WindowCall::Hide,
{
    WindowCall::Hide
}

} // verus!
