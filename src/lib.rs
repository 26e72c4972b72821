//! Decision core of a display-server backend that sits between a window-manager
//! core and a compositor toolkit: the window registry, the action dispatcher, the
//! session coordinator, the input filter and the event queue.

pub mod window;
pub mod registry;
pub mod action;
pub mod backend;
pub mod session;
pub mod input;
pub mod event_channel;
