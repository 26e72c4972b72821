use vstd::prelude::*;
use crate::window::WindowHandle;

verus! {

/// A window handle as the window-manager core passes it: one this backend minted,
/// or one that belongs to another display server.
#[derive(PartialEq, Eq, Structural, Clone, Copy, Debug)]
pub enum WmWindowHandle {
    Smithay(WindowHandle),
    Xlib(u64),
}

/// One window of a batch geometry update: where the core wants it and how large.
#[derive(PartialEq, Eq, Structural, Clone, Copy, Debug)]
pub struct WindowUpdate {
    pub handle: WmWindowHandle,
    pub x: i32,
    pub y: i32,
    pub width: i32,
    pub height: i32,
}

/// Commands the window-manager core issues to the display server.
#[derive(Clone, Debug)]
pub enum DisplayAction {
    KillWindow(WmWindowHandle),
    AddedWindow(WmWindowHandle, bool, bool),
    MoveMouseOver(WmWindowHandle, bool),
    MoveMouseOverPoint(i32, i32),
    SetState(WmWindowHandle, bool),
    SetWindowOrder(Vec<WmWindowHandle>),
    MoveToTop(WmWindowHandle),
    DestroyedWindow(WmWindowHandle),
    WindowTakeFocus(WmWindowHandle, Option<WmWindowHandle>),
    Unfocus(Option<WmWindowHandle>, bool),
    FocusWindowUnderCursor,
    ReplayClick(WmWindowHandle, u32),
    ReadyToResizeWindow(WmWindowHandle),
    ReadyToMoveWindow(WmWindowHandle),
    SetCurrentTags(Option<usize>),
    SetWindowTag(WmWindowHandle, Option<usize>),
    NormalMode,
    ConfigureXlibWindow(WmWindowHandle),
}

/// What travels over the action channel into the backend's event loop.
#[derive(Clone, Debug)]
pub enum InternalAction {
    Flush,
    GenerateVerifyFocusEvent,
    UpdateWindows(Vec<WindowUpdate>),
    DisplayAction(DisplayAction),
}

/// How the dispatcher treats a display action.
#[derive(PartialEq, Eq, Structural, Clone, Copy, Debug)]
pub enum ActionPolicy {
    /// Applied to the backend state.
    Handled,
    /// Accepted and ignored.
    Suppressed,
    /// Not implemented: reaching it stops the backend.
    Unimplemented,
}

/// The classification table of display actions.
pub open spec fn policy_of(a: DisplayAction) -> ActionPolicy {
    match a {
        DisplayAction::AddedWindow(..) => ActionPolicy::Handled,
        DisplayAction::WindowTakeFocus(..) => ActionPolicy::Handled,
        DisplayAction::FocusWindowUnderCursor => ActionPolicy::Handled,
        DisplayAction::SetWindowTag(..) => ActionPolicy::Handled,
        DisplayAction::SetWindowOrder(..) => ActionPolicy::Suppressed,
        DisplayAction::SetCurrentTags(..) => ActionPolicy::Suppressed,
        _ => ActionPolicy::Unimplemented,
    }
}

pub fn classify(a: &DisplayAction) -> (r: ActionPolicy)
    ensures
        r == policy_of(*a),
{
    match a {
        DisplayAction::AddedWindow(..) => ActionPolicy::Handled,
        DisplayAction::WindowTakeFocus(..) => ActionPolicy::Handled,
        DisplayAction::FocusWindowUnderCursor => ActionPolicy::Handled,
        DisplayAction::SetWindowTag(..) => ActionPolicy::Handled,
        DisplayAction::SetWindowOrder(..) => ActionPolicy::Suppressed,
        DisplayAction::SetCurrentTags(..) => ActionPolicy::Suppressed,
        _ => ActionPolicy::Unimplemented,
    }
}

} // verus!
