use smithay_display_server::backend::{Backend, FocusBehaviour, LeftwmConfig};
use smithay_display_server::event_channel::EventQueue;
use smithay_display_server::input::{
    filter_key, led_state, InputEventKind, InputRoute, KeyAction, Leds, Modifiers, KEY_Q, KEY_RETURN,
    KEY_SWITCH_VT_1, KEY_SWITCH_VT_12, TERMINAL_PROGRAM,
};
use smithay_display_server::session::{RenderDevice, SessionCoordinator, SessionEffect};

fn mods(logo: bool, shift: bool) -> Modifiers {
    Modifiers { ctrl: false, alt: false, shift, caps_lock: false, logo, num_lock: false }
}

fn backend() -> Backend {
    Backend::new(LeftwmConfig { focus_behavior: FocusBehaviour::ClickTo, sloppy_mouse_follows_focus: false })
}

#[test]
fn pause_then_resume_reactivates_every_device_once() {
    let mut s = SessionCoordinator::new();
    assert!(s.add_device(3));
    assert!(s.add_device(8));
    assert!(!s.add_device(3));
    let p = s.pause();
    assert_eq!(p, vec![SessionEffect::SuspendInput, SessionEffect::PauseDevice(3), SessionEffect::PauseDevice(8)]);
    assert!(s.input_suspended);
    assert!(s.devices.iter().all(|d| !d.active));
    let r = s.resume();
    assert!(!s.input_suspended);
    assert_eq!(s.devices, vec![RenderDevice { node: 3, active: true }, RenderDevice { node: 8, active: true }]);
    assert_eq!(
        r,
        vec![
            SessionEffect::ResumeInput,
            SessionEffect::ActivateDevice(3),
            SessionEffect::ResetSurfaces(3),
            SessionEffect::ScheduleRender(3),
            SessionEffect::ActivateDevice(8),
            SessionEffect::ResetSurfaces(8),
            SessionEffect::ScheduleRender(8),
        ]
    );
    for n in [3u64, 8] {
        let renders = r.iter().filter(|e| **e == SessionEffect::ScheduleRender(n)).count();
        assert_eq!(renders, 1);
    }
}

#[test]
fn pause_resume_without_devices() {
    let mut s = SessionCoordinator::new();
    assert_eq!(s.pause(), vec![SessionEffect::SuspendInput]);
    assert_eq!(s.resume(), vec![SessionEffect::ResumeInput]);
}

#[test]
fn key_bindings() {
    assert_eq!(filter_key(true, mods(true, true), KEY_RETURN), KeyAction::LaunchTerminal);
    assert_eq!(filter_key(true, mods(true, true), KEY_Q), KeyAction::Quit);
    assert_eq!(filter_key(true, mods(true, false), KEY_Q), KeyAction::Forward);
    assert_eq!(filter_key(false, mods(true, true), KEY_Q), KeyAction::Forward);
    assert_eq!(filter_key(true, mods(false, false), KEY_SWITCH_VT_1), KeyAction::SwitchVt(1));
    assert_eq!(filter_key(true, mods(false, false), KEY_SWITCH_VT_12), KeyAction::SwitchVt(12));
    assert_eq!(filter_key(true, mods(false, false), KEY_SWITCH_VT_1 + 4), KeyAction::SwitchVt(5));
    assert_eq!(filter_key(true, mods(false, false), KEY_SWITCH_VT_12 + 1), KeyAction::Forward);
    assert_eq!(filter_key(true, mods(false, false), 0x61), KeyAction::Forward);
    assert_eq!(TERMINAL_PROGRAM, "kitty");
}

#[test]
fn leds_mirror_lock_modifiers() {
    let m = Modifiers { ctrl: false, alt: false, shift: false, caps_lock: true, logo: false, num_lock: false };
    assert_eq!(led_state(m), Leds { caps_lock: true, num_lock: false });
    let mut b = backend();
    let o = b.on_key(true, m, 0x61);
    assert_eq!(o.leds, Some(Leds { caps_lock: true, num_lock: false }));
    assert_eq!(o.action, KeyAction::Forward);
    assert_eq!(b.on_key(false, m, 0x61).leds, None);
}

#[test]
fn quit_binding_clears_running() {
    let mut b = backend();
    assert_eq!(b.on_key(true, mods(true, true), KEY_RETURN).action, KeyAction::LaunchTerminal);
    assert!(b.running);
    assert_eq!(b.on_key(true, mods(true, true), KEY_Q).action, KeyAction::Quit);
    assert!(!b.running);
}

#[test]
fn input_routing() {
    let mut b = backend();
    assert_eq!(b.route_input(InputEventKind::Keyboard), InputRoute::Key);
    assert_eq!(b.route_input(InputEventKind::PointerMotion), InputRoute::MovePointer);
    assert_eq!(b.route_input(InputEventKind::DeviceAdded), InputRoute::EnableTapping);
    assert_eq!(b.route_input(InputEventKind::Other), InputRoute::Ignore);
    assert!(b.running);
    assert_eq!(b.route_input(InputEventKind::PointerMotionAbsolute), InputRoute::Unsupported);
    assert!(!b.running);
}

#[test]
fn events_drain_in_order_and_exhaustively() {
    let mut q: EventQueue<u32> = EventQueue::new();
    assert!(!q.is_readable());
    q.push(1);
    q.push(2);
    assert!(q.is_readable());
    assert_eq!(q.collect_events(), vec![1, 2]);
    assert!(q.collect_events().is_empty());
    assert!(!q.is_readable());
    q.push(3);
    assert_eq!(q.collect_events(), vec![3]);
}
