//! The decisions of a clipboard context for Wayland, apart from the protocol
//! work itself.
//!
//! A Wayland clipboard selection belongs to a seat. The context remembers the
//! name of the seat as the compositor announces it and names that seat in
//! every request it makes of the clipboard engine. Talking to the compositor
//! and to the engine is left to the caller: the context is told of each seat
//! event and answers with the request to perform.

pub mod context;
pub mod seat;

pub use context::{LoadRequest, StoreRequest, WaylandClipboardContext};
pub use seat::{SeatEvent, SEAT_VERSION_MAX, SEAT_VERSION_MIN};
