//! Seat events and the seat name that follows from them.

use vstd::prelude::*;

verus! {

/// The lowest version of the seat global that announces the seat's name.
pub const SEAT_VERSION_MIN: u32 = 2;

/// The highest version of the seat global that the context asks for.
pub const SEAT_VERSION_MAX: u32 = 6;

/// An event of the seat global, as plain values.
#[derive(Debug, PartialEq, Eq)]
pub enum SeatEvent {
    /// The seat gained or lost devices; `capabilities` is the new bit mask.
    Capabilities { capabilities: u32 },
    /// The compositor announced the seat's name.
    Name { name: String },
}

/// A seat event with its name read as a sequence of characters.
pub enum SeatEventView {
    Capabilities { capabilities: u32 },
    Name { name: Seq<char> },
}

impl View for SeatEvent {
    type V = SeatEventView;

    open spec fn view(&self) -> SeatEventView {
        match self {
            SeatEvent::Capabilities { capabilities } => SeatEventView::Capabilities {
                capabilities: *capabilities,
            },
            SeatEvent::Name { name } => SeatEventView::Name { name: name@ },
        }
    }
}

/// The seat name before any event: empty.
pub open spec fn initial_seat() -> Seq<char> {
    Seq::empty()
}

/// The seat name once `event` has been seen with `seat` known before: a name
/// event replaces it, any other event leaves it.
pub open spec fn seat_after(seat: Seq<char>, event: SeatEventView) -> Seq<char> {
    match event {
        SeatEventView::Name { name } => name,
        SeatEventView::Capabilities { .. } => seat,
    }
}

/// A name event makes its name the seat name, whatever was known before.
pub proof fn lemma_name_event_sets_seat(seat: Seq<char>, name: Seq<char>)
    ensures
        seat_after(seat, SeatEventView::Name { name }) == name,
{
}

/// An event that announces no name leaves the seat name as it was.
pub proof fn lemma_other_event_keeps_seat(seat: Seq<char>, event: SeatEventView)
    requires
        !(event is Name),
    ensures
        seat_after(seat, event) == seat,
{
}

/// The seat name once every event of `events` has been seen in order, with
/// `seat` known before the first.
pub open spec fn seat_after_all(seat: Seq<char>, events: Seq<SeatEventView>) -> Seq<char>
    decreases events.len(),
{
    if events.len() == 0 {
        seat
    } else {
        seat_after(seat_after_all(seat, events.drop_last()), events.last())
    }
}

/// Seeing `first` and then `rest` is seeing the two one after the other.
pub proof fn lemma_seat_after_all_concat(
    seat: Seq<char>,
    first: Seq<SeatEventView>,
    rest: Seq<SeatEventView>,
)
    ensures
        seat_after_all(seat, first + rest) == seat_after_all(seat_after_all(seat, first), rest),
    decreases rest.len(),
{
    if rest.len() == 0 {
        assert(first + rest =~= first);
    } else {
        assert((first + rest).drop_last() =~= first + rest.drop_last());
        assert((first + rest).last() == rest.last());
        lemma_seat_after_all_concat(seat, first, rest.drop_last());
    }
}

/// Events that announce no name leave the seat name as it was.
pub proof fn lemma_seat_kept_without_name(seat: Seq<char>, events: Seq<SeatEventView>)
    requires
        forall|i: int| 0 <= i < events.len() ==> !(#[trigger] events[i] is Name),
    ensures
        seat_after_all(seat, events) == seat,
    decreases events.len(),
{
    if events.len() > 0 {
        let earlier = events.drop_last();
        assert forall|i: int| 0 <= i < earlier.len() implies !(#[trigger] earlier[i] is Name) by {
            assert(earlier[i] == events[i]);
        }
        lemma_seat_kept_without_name(seat, earlier);
        assert(!(events[events.len() - 1] is Name));
    }
}

/// The latest name wins: when the event at `last` announces a name and none
/// after it does, that name is the seat name, whatever was known or announced
/// before.
pub proof fn lemma_latest_name_wins(seat: Seq<char>, events: Seq<SeatEventView>, last: int)
    requires
        0 <= last < events.len(),
        events[last] is Name,
        forall|i: int| last < i < events.len() ==> !(#[trigger] events[i] is Name),
    ensures
        seat_after_all(seat, events) == events[last]->name,
{
    let upto = events.subrange(0, last + 1);
    let tail = events.subrange(last + 1, events.len() as int);
    assert(events =~= upto + tail);
    assert(upto.last() == events[last]);
    assert forall|i: int| 0 <= i < tail.len() implies !(#[trigger] tail[i] is Name) by {
        assert(tail[i] == events[last + 1 + i]);
    }
    lemma_seat_after_all_concat(seat, upto, tail);
    lemma_seat_kept_without_name(seat_after_all(seat, upto), tail);
}

} // verus!
