//! The clipboard context: the seat it knows and the requests it makes.

use crate::seat::{initial_seat, seat_after, SeatEvent};
use vstd::prelude::*;

verus! {

/// A request to the clipboard engine for the text of one seat's selection.
#[derive(Debug, PartialEq, Eq)]
pub struct LoadRequest {
    /// The name of the seat to read from.
    pub seat: String,
}

/// A request to the clipboard engine to make `text` one seat's selection.
#[derive(Debug, PartialEq, Eq)]
pub struct StoreRequest {
    /// The name of the seat to write to.
    pub seat: String,
    /// The text to offer.
    pub text: String,
}

/// Clipboard context for Wayland clipboards.
///
/// It holds the name of the active seat. The name is empty until the
/// compositor announces one; a request made before that names the empty seat
/// and is left to the engine to answer.
#[derive(Debug)]
pub struct WaylandClipboardContext {
    seat_name: String,
}

impl WaylandClipboardContext {
    /// The seat name that the context knows.
    pub closed spec fn seat(&self) -> Seq<char> {
        self.seat_name@
    }

    /// Create a new clipboard context, which knows no seat name yet.
    pub fn new() -> (context: Self)
        ensures
            context.seat() == initial_seat(),
    {
        WaylandClipboardContext { seat_name: String::new() }
    }

    /// The seat name that requests will carry.
    pub fn seat_name(&self) -> (name: &str)
        ensures
            name@ == self.seat(),
    {
        self.seat_name.as_str()
    }

    /// Take note of an event of the seat global: a name event replaces the
    /// seat name, any other event changes nothing.
    pub fn handle_seat_event(&mut self, event: SeatEvent)
        ensures
            final(self).seat() == seat_after(old(self).seat(), event@),
    {
        match event {
            SeatEvent::Name { name } => {
                self.seat_name = name;
            },
            SeatEvent::Capabilities { .. } => {},
        }
    }

    /// Ask for the clipboard text: the request names the seat known now.
    pub fn get_contents(&self) -> (request: LoadRequest)
        ensures
            request.seat@ == self.seat(),
    {
        LoadRequest { seat: self.seat_name.clone() }
    }

    /// Ask for `data` to become the clipboard text: the request names the
    /// seat known now and carries `data` as it came.
    pub fn set_contents(&self, data: String) -> (request: StoreRequest)
        ensures
            request.seat@ == self.seat(),
            request.text@ == data@,
    {
        StoreRequest { seat: self.seat_name.clone(), text: data }
    }
}

} // verus!
