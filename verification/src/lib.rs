//! Wayland client protocol handlers, modelled as verified state machines.
//!
//! Each protocol module holds the state that a handler keeps between Wayland
//! events and user requests, the functions that decide how an event changes
//! that state and which event is passed on to subscribers, and the functions
//! that decide whether a user request can be served and with which protocol
//! objects. Sending requests on the Wayland socket and forwarding events over
//! channels is left to the caller.

pub mod copies;
pub mod protocol_objects;
pub mod ext_idle_notify_v1;
pub mod ext_session_lock_v1;
pub mod zwlr_foreign_toplevel_management_v1;
pub mod zwlr_output_management_v1;
pub mod zwlr_screencopy_v1;
pub mod zwp_input_method_v2;
pub mod zwp_virtual_keyboard_v1;
