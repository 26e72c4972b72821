use vstd::prelude::*;
use crate::backend::Backend;

verus! {

/// Keysym of the Return key.
pub const KEY_RETURN: u32 = 0xff0d;
/// Keysym of the upper-case letter Q.
pub const KEY_Q: u32 = 0x0051;
/// First keysym of the range reserved for virtual-terminal switch requests.
pub const KEY_SWITCH_VT_1: u32 = 0x1008fe01;
/// Last keysym of the range reserved for virtual-terminal switch requests.
pub const KEY_SWITCH_VT_12: u32 = 0x1008fe0c;

/// The program the launch binding starts.
pub const TERMINAL_PROGRAM: &'static str = "kitty";

/// Modifier state of the keyboard when a key event arrives.
#[derive(PartialEq, Eq, Structural, Clone, Copy, Debug)]
pub struct Modifiers {
    pub ctrl: bool,
    pub alt: bool,
    pub shift: bool,
    pub caps_lock: bool,
    pub logo: bool,
    pub num_lock: bool,
}

/// Keyboard LEDs to light on the device.
#[derive(PartialEq, Eq, Structural, Clone, Copy, Debug)]
pub struct Leds {
    pub caps_lock: bool,
    pub num_lock: bool,
}

/// What becomes of a key event after the built-in bindings have seen it.
#[derive(PartialEq, Eq, Structural, Clone, Copy, Debug)]
pub enum KeyAction {
    /// Hand the key to the focused client.
    Forward,
    /// Start the terminal program.
    LaunchTerminal,
    /// Stop the backend.
    Quit,
    /// Intercept the key and switch to the given virtual terminal.
    SwitchVt(i32),
}

/// The key event's effect on the device LEDs and on the dispatch.
#[derive(PartialEq, Eq, Structural, Clone, Copy, Debug)]
pub struct KeyOutcome {
    pub leds: Option<Leds>,
    pub action: KeyAction,
}

pub open spec fn is_vt_switch(sym: u32) -> bool {
    KEY_SWITCH_VT_1 <= sym <= KEY_SWITCH_VT_12
}

pub open spec fn key_action(pressed: bool, mods: Modifiers, sym: u32) -> KeyAction {
    if !pressed {
        KeyAction::Forward
    } else if mods.logo && mods.shift && sym == KEY_RETURN {
        KeyAction::LaunchTerminal
    } else if mods.logo && mods.shift && sym == KEY_Q {
        KeyAction::Quit
    } else if is_vt_switch(sym) {
        KeyAction::SwitchVt((sym - KEY_SWITCH_VT_1 + 1) as i32)
    } else {
        KeyAction::Forward
    }
}

/// The LEDs that mirror the lock modifiers.
pub fn led_state(mods: Modifiers) -> (r: Leds)
    ensures
        r == (Leds { caps_lock: mods.caps_lock, num_lock: mods.num_lock }),
{
    Leds { caps_lock: mods.caps_lock, num_lock: mods.num_lock }
}

/// Applies the built-in key bindings. Only presses are filtered; releases pass through.
pub fn filter_key(pressed: bool, mods: Modifiers, sym: u32) -> (r: KeyAction)
    ensures
        r == key_action(pressed, mods, sym),
        r matches KeyAction::SwitchVt(vt) ==> 1 <= vt <= 12,
{
    if !pressed {
        KeyAction::Forward
    } else if mods.logo && mods.shift && sym == KEY_RETURN {
        KeyAction::LaunchTerminal
    } else if mods.logo && mods.shift && sym == KEY_Q {
        KeyAction::Quit
    } else if KEY_SWITCH_VT_1 <= sym && sym <= KEY_SWITCH_VT_12 {
        KeyAction::SwitchVt((sym - KEY_SWITCH_VT_1 + 1) as i32)
    } else {
        KeyAction::Forward
    }
}

/// Kinds of raw input event the backend receives.
#[derive(PartialEq, Eq, Structural, Clone, Copy, Debug)]
pub enum InputEventKind {
    Keyboard,
    PointerMotion,
    PointerMotionAbsolute,
    DeviceAdded,
    Other,
}

/// Where a raw input event goes.
#[derive(PartialEq, Eq, Structural, Clone, Copy, Debug)]
pub enum InputRoute {
    /// Through the key filter, then to keyboard focus handling.
    Key,
    /// To pointer-move handling.
    MovePointer,
    /// Absolute pointer motion has no handling: the backend stops.
    Unsupported,
    /// A new device: enable tap-to-click and tap-drag, ignoring failures.
    EnableTapping,
    Ignore,
}

pub open spec fn route_of(kind: InputEventKind) -> InputRoute {
    match kind {
        InputEventKind::Keyboard => InputRoute::Key,
        InputEventKind::PointerMotion => InputRoute::MovePointer,
        InputEventKind::PointerMotionAbsolute => InputRoute::Unsupported,
        InputEventKind::DeviceAdded => InputRoute::EnableTapping,
        InputEventKind::Other => InputRoute::Ignore,
    }
}

impl Backend {
    /// Runs a key event through the built-in bindings: a press mirrors the lock
    /// modifiers to the LEDs, and the quit binding clears the running flag.
    pub fn on_key(&mut self, pressed: bool, mods: Modifiers, sym: u32) -> (r: KeyOutcome)
        ensures
            final(self).registry@ == old(self).registry@,
            final(self).config == old(self).config,
            final(self).running == (old(self).running && key_action(pressed, mods, sym) != KeyAction::Quit),
            r.action == key_action(pressed, mods, sym),
            r.leds == (if pressed { Some(Leds { caps_lock: mods.caps_lock, num_lock: mods.num_lock }) } else { None }),
    {
        let action = filter_key(pressed, mods, sym);
        let leds = if pressed { Some(led_state(mods)) } else { None };
        if action == KeyAction::Quit {
            self.running = false;
        }
        KeyOutcome { leds, action }
    }

    /// Decides where a raw input event goes; an unsupported one stops the backend.
    pub fn route_input(&mut self, kind: InputEventKind) -> (r: InputRoute)
        ensures
            r == route_of(kind),
            final(self).registry@ == old(self).registry@,
            final(self).config == old(self).config,
            final(self).running == (old(self).running && r != InputRoute::Unsupported),
    {
        let r = match kind {
            InputEventKind::Keyboard => InputRoute::Key,
            InputEventKind::PointerMotion => InputRoute::MovePointer,
            InputEventKind::PointerMotionAbsolute => InputRoute::Unsupported,
            InputEventKind::DeviceAdded => InputRoute::EnableTapping,
            InputEventKind::Other => InputRoute::Ignore,
        };
        if r == InputRoute::Unsupported {
            self.running = false;
        }
        r
    }
}

} // verus!
