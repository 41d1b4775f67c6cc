//! The events that the recognizer consumes and produces.

use vstd::prelude::*;
use crate::geometry::{Point, Vec2};

verus! {

/// Identifies one physical contact for as long as it touches the surface.
pub type PointerId = u64;

/// What a pointer event carries: which contact it is about, and where it is.
#[derive(Clone, Copy, Debug, PartialEq, Eq, Structural)]
pub struct PointerEvent {
    pub id: PointerId,
    pub pos: Point,
}

/// An event of the host's stream. The five pointer variants are the input
/// of the recognizer, the two gesture variants are what it synthesizes, and
/// `Other` stands for every event that is neither.
#[derive(Clone, Copy, Debug, PartialEq, Eq, Structural)]
pub enum Event {
    PointerDown(PointerEvent),
    PointerUp(PointerEvent),
    PointerMove(PointerEvent),
    PointerEnter(PointerEvent),
    PointerLeave(PointerEvent),
    /// The content is to be moved by this displacement.
    GesturePan(Vec2),
    /// The zoom ratio changed by `zoom` (in steps of one-in-`ZOOM_ONE`)
    /// around `center`.
    GestureZoom { zoom: i64, center: Point },
    Other,
}

impl Event {
    /// Whether this is one of the five pointer variants.
    pub open spec fn is_pointer(self) -> bool {
        self is PointerDown || self is PointerUp || self is PointerMove || self is PointerEnter
            || self is PointerLeave
    }

    /// The payload of a pointer variant.
    pub open spec fn pointer(self) -> PointerEvent
        recommends
            self.is_pointer(),
    {
        match self {
            Event::PointerDown(p) => p,
            Event::PointerUp(p) => p,
            Event::PointerMove(p) => p,
            Event::PointerEnter(p) => p,
            Event::PointerLeave(p) => p,
            _ => arbitrary(),
        }
    }
}

/// The payload of a pointer event, or `None` for any other event.
pub fn pointer_event(evt: &Event) -> (r: Option<&PointerEvent>)
    ensures
        r is Some <==> evt.is_pointer(),
        r matches Some(p) ==> *p == evt.pointer(),
{
    match evt {
        Event::PointerDown(pointer_event) => Some(pointer_event),
        Event::PointerUp(pointer_event) => Some(pointer_event),
        Event::PointerMove(pointer_event) => Some(pointer_event),
        Event::PointerEnter(pointer_event) => Some(pointer_event),
        Event::PointerLeave(pointer_event) => Some(pointer_event),
        _ => None,
    }
}

/// The payload of an event that the caller knows to be a pointer event.
pub fn pointer_event_unchecked(evt: &Event) -> (r: &PointerEvent)
    requires
        evt.is_pointer(),
    ensures
        *r == evt.pointer(),
{
    match evt {
        Event::PointerDown(pointer_event) => pointer_event,
        Event::PointerUp(pointer_event) => pointer_event,
        Event::PointerMove(pointer_event) => pointer_event,
        Event::PointerEnter(pointer_event) => pointer_event,
        Event::PointerLeave(pointer_event) => pointer_event,
        _ => unreached(),
    }
}

} // verus!
