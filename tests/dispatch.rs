use smithay_display_server::action::{classify, ActionPolicy, DisplayAction, InternalAction, WindowUpdate, WmWindowHandle};
use smithay_display_server::backend::{
    ActionEvent, Backend, DispatchError, Effect, FocusBehaviour, LeftwmConfig, PLACEMENT_OFFSET, TICK_MILLIS,
};
use smithay_display_server::window::{ManagedWindowData, Rectangle, SurfaceId, WindowHandle};

fn config(sloppy: bool) -> LeftwmConfig {
    LeftwmConfig { focus_behavior: FocusBehaviour::Sloppy, sloppy_mouse_follows_focus: sloppy }
}

fn backend_with(n: u64) -> (Backend, Vec<WindowHandle>) {
    let mut b = Backend::new(config(false));
    let hs = (0..n).map(|i| b.register_window(SurfaceId { id: 100 + i })).collect();
    (b, hs)
}

fn wm(h: WindowHandle) -> WmWindowHandle {
    WmWindowHandle::Smithay(h)
}

fn update(h: WmWindowHandle, x: i32, y: i32, width: i32, height: i32) -> WindowUpdate {
    WindowUpdate { handle: h, x, y, width, height }
}

#[test]
fn placement_offset_is_eleven() {
    assert_eq!(PLACEMENT_OFFSET, 11);
    assert_eq!(TICK_MILLIS, 16);
}

#[test]
fn flush_yields_flush_clients() {
    let (mut b, _) = backend_with(1);
    assert_eq!(b.dispatch(InternalAction::Flush), Ok(vec![Effect::FlushClients]));
    assert!(b.running);
}

#[test]
fn verify_focus_is_a_no_op() {
    let (mut b, hs) = backend_with(1);
    assert_eq!(b.dispatch(InternalAction::GenerateVerifyFocusEvent), Ok(vec![]));
    assert_eq!(b.registry.get(hs[0]).data(), ManagedWindowData::new());
}

#[test]
fn update_windows_places_with_offset_and_resizes() {
    let (mut b, hs) = backend_with(2);
    let r = b.dispatch(InternalAction::UpdateWindows(vec![update(wm(hs[1]), 100, 50, 640, 480)]));
    assert_eq!(
        r,
        Ok(vec![
            Effect::MapWindow(hs[1], 89, 39),
            Effect::ResizeWindow(hs[1], 640, 480),
            Effect::SendConfigure(hs[1]),
        ])
    );
    assert_eq!(
        b.registry.get(hs[1]).data().geometry,
        Some(Rectangle { x: 89, y: 39, width: 640, height: 480 })
    );
    assert_eq!(b.registry.get(hs[0]).data(), ManagedWindowData::new());
}

#[test]
fn update_windows_last_entry_wins() {
    let (mut b, hs) = backend_with(1);
    let r = b.update_windows(&vec![update(wm(hs[0]), 0, 0, 10, 10), update(wm(hs[0]), 20, 30, 40, 50)]);
    assert_eq!(r.map(|e| e.len()), Ok(6));
    assert_eq!(b.registry.get(hs[0]).data().geometry, Some(Rectangle { x: 9, y: 19, width: 40, height: 50 }));
}

#[test]
fn update_windows_extreme_coordinates_do_not_overflow() {
    let (mut b, hs) = backend_with(1);
    b.update_windows(&vec![update(wm(hs[0]), i32::MIN, i32::MIN, 1, 1)]).unwrap();
    let g = b.registry.get(hs[0]).data().geometry.unwrap();
    assert_eq!(g.x, i32::MIN as i64 - 11);
}

#[test]
fn update_windows_with_foreign_handle_fails_untouched() {
    let (mut b, hs) = backend_with(1);
    let r = b.dispatch(InternalAction::UpdateWindows(vec![
        update(wm(hs[0]), 5, 5, 5, 5),
        update(WmWindowHandle::Xlib(3), 1, 1, 1, 1),
    ]));
    assert_eq!(r, Err(DispatchError::InvalidHandle));
    assert_eq!(b.registry.get(hs[0]).data().geometry, None);
    let r = b.dispatch(InternalAction::UpdateWindows(vec![update(wm(WindowHandle { id: 9 }), 1, 1, 1, 1)]));
    assert_eq!(r, Err(DispatchError::InvalidHandle));
}

#[test]
fn added_window_marks_managed_and_focuses() {
    let (mut b, hs) = backend_with(2);
    let r = b.dispatch(InternalAction::DisplayAction(DisplayAction::AddedWindow(wm(hs[0]), true, true)));
    assert_eq!(r, Ok(vec![Effect::FocusWindow(hs[0], true)]));
    let d = b.registry.get(hs[0]).data();
    assert!(d.managed && d.floating);
    let r = b.dispatch(InternalAction::DisplayAction(DisplayAction::AddedWindow(wm(hs[1]), false, false)));
    assert_eq!(r, Ok(vec![]));
    let d = b.registry.get(hs[1]).data();
    assert!(d.managed && !d.floating);
}

#[test]
fn take_focus_follows_sloppy_setting() {
    let mut b = Backend::new(config(true));
    let h = b.register_window(SurfaceId { id: 1 });
    let r = b.dispatch(InternalAction::DisplayAction(DisplayAction::WindowTakeFocus(wm(h), None)));
    assert_eq!(r, Ok(vec![Effect::FocusWindow(h, true)]));
    let (mut b, hs) = backend_with(1);
    let r = b.dispatch(InternalAction::DisplayAction(DisplayAction::WindowTakeFocus(wm(hs[0]), None)));
    assert_eq!(r, Ok(vec![Effect::FocusWindow(hs[0], false)]));
}

#[test]
fn set_window_tag_stores_tag() {
    let (mut b, hs) = backend_with(1);
    let r = b.dispatch(InternalAction::DisplayAction(DisplayAction::SetWindowTag(wm(hs[0]), Some(4))));
    assert_eq!(r, Ok(vec![]));
    assert_eq!(b.registry.get(hs[0]).data().tag, Some(4));
}

#[test]
fn focus_under_cursor_is_forwarded() {
    let (mut b, _) = backend_with(0);
    let r = b.dispatch(InternalAction::DisplayAction(DisplayAction::FocusWindowUnderCursor));
    assert_eq!(r, Ok(vec![Effect::FocusWindowUnderCursor]));
}

#[test]
fn suppressed_actions_keep_running() {
    let (mut b, hs) = backend_with(1);
    let e = b.on_action_event(ActionEvent::Msg(InternalAction::DisplayAction(DisplayAction::SetWindowOrder(
        vec![wm(hs[0])],
    ))));
    assert!(e.is_empty());
    assert!(b.running);
    b.on_action_event(ActionEvent::Msg(InternalAction::DisplayAction(DisplayAction::SetCurrentTags(Some(1)))));
    assert!(b.running);
}

#[test]
fn kill_window_stops_the_loop() {
    let (mut b, hs) = backend_with(1);
    let a = DisplayAction::KillWindow(wm(hs[0]));
    assert_eq!(classify(&a), ActionPolicy::Unimplemented);
    assert_eq!(b.dispatch(InternalAction::DisplayAction(a.clone())), Err(DispatchError::Unimplemented));
    assert!(b.running);
    b.on_action_event(ActionEvent::Msg(InternalAction::DisplayAction(a)));
    assert!(!b.running);
}

#[test]
fn every_unimplemented_action_stops_the_loop() {
    let h = WmWindowHandle::Xlib(1);
    let actions = vec![
        DisplayAction::MoveMouseOver(h, true),
        DisplayAction::MoveMouseOverPoint(1, 2),
        DisplayAction::SetState(h, true),
        DisplayAction::MoveToTop(h),
        DisplayAction::DestroyedWindow(h),
        DisplayAction::Unfocus(None, false),
        DisplayAction::ReplayClick(h, 1),
        DisplayAction::ReadyToResizeWindow(h),
        DisplayAction::ReadyToMoveWindow(h),
        DisplayAction::NormalMode,
        DisplayAction::ConfigureXlibWindow(h),
    ];
    for a in actions {
        assert_eq!(classify(&a), ActionPolicy::Unimplemented);
        let (mut b, _) = backend_with(1);
        b.on_action_event(ActionEvent::Msg(InternalAction::DisplayAction(a)));
        assert!(!b.running);
    }
    assert_eq!(classify(&DisplayAction::SetCurrentTags(None)), ActionPolicy::Suppressed);
    assert_eq!(classify(&DisplayAction::FocusWindowUnderCursor), ActionPolicy::Handled);
}

#[test]
fn invalid_handle_stops_the_loop() {
    let (mut b, _) = backend_with(1);
    let r = b.dispatch(InternalAction::DisplayAction(DisplayAction::AddedWindow(WmWindowHandle::Xlib(0), false, false)));
    assert_eq!(r, Err(DispatchError::InvalidHandle));
    b.on_action_event(ActionEvent::Msg(InternalAction::DisplayAction(DisplayAction::SetWindowTag(
        wm(WindowHandle { id: 5 }),
        None,
    ))));
    assert!(!b.running);
}

#[test]
fn closed_channel_stops_the_loop() {
    let (mut b, _) = backend_with(1);
    let e = b.on_action_event(ActionEvent::Closed);
    assert!(e.is_empty());
    assert!(!b.running);
}

#[test]
fn finish_iteration_refreshes_or_stops() {
    let (mut b, _) = backend_with(0);
    assert_eq!(b.finish_iteration(true), vec![Effect::RefreshSpace, Effect::FlushClients]);
    assert!(b.running);
    assert_eq!(b.finish_iteration(false), vec![]);
    assert!(!b.running);
}
