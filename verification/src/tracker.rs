//! The set of pointers that are down, each with its latest position.

use vstd::prelude::*;
use std::collections::HashMap;
use vstd::std_specs::hash::spec_keys_iter;
use vstd::std_specs::iter::IteratorSpec;
use crate::event::{Event, PointerId};
use crate::geometry::Point;

verus! {

broadcast use vstd::std_specs::hash::group_hash_axioms;

/// The pointers after `event`: a pointer enters with its `PointerDown`,
/// follows its `PointerDown` and `PointerMove` events while it is there, and
/// leaves with its `PointerUp` or `PointerLeave`. Any other event, and a move
/// of a pointer that is not there, changes nothing.
pub open spec fn pointers_after(pointers: Map<PointerId, Point>, event: Event) -> Map<
    PointerId,
    Point,
> {
    match event {
        Event::PointerDown(p) => pointers.insert(p.id, p.pos),
        Event::PointerMove(p) => if pointers.contains_key(p.id) {
            pointers.insert(p.id, p.pos)
        } else {
            pointers
        },
        Event::PointerUp(p) => pointers.remove(p.id),
        Event::PointerLeave(p) => pointers.remove(p.id),
        _ => pointers,
    }
}

/// Whether `event` adds a pointer to `pointers` or removes one from it.
pub open spec fn membership_changes(pointers: Map<PointerId, Point>, event: Event) -> bool {
    match event {
        Event::PointerDown(p) => !pointers.contains_key(p.id),
        Event::PointerUp(p) => pointers.contains_key(p.id),
        Event::PointerLeave(p) => pointers.contains_key(p.id),
        _ => false,
    }
}

/// The active pointers and the latest position of each.
pub struct PointerTrack {
    latest: HashMap<PointerId, Point>,
}

impl View for PointerTrack {
    type V = Map<PointerId, Point>;

    closed spec fn view(&self) -> Map<PointerId, Point> {
        self.latest@
    }
}

impl PointerTrack {
    /// A tracker without pointers.
    pub fn new() -> (track: PointerTrack)
        ensures
            track@ == Map::<PointerId, Point>::empty(),
    {
        PointerTrack { latest: HashMap::new() }
    }

    /// The number of active pointers.
    pub fn active_count(&self) -> (n: usize)
        ensures
            self@.dom().finite(),
            n == self@.len(),
    {
        self.latest.len()
    }

    /// The latest position of pointer `id`, or `None` if it is not active.
    pub fn pointer_pos(&self, id: &PointerId) -> (pos: Option<Point>)
        ensures
            pos == (if self@.contains_key(*id) {
                Some(self@[*id])
            } else {
                None
            }),
    {
        if let Some(pos) = self.latest.get(id) {
            Some(*pos)
        } else {
            None
        }
    }

    /// Records `event` and returns whether a pointer was added or removed.
    pub fn update_pointers(&mut self, event: &Event) -> (pointers_changed: bool)
        ensures
            final(self)@ == pointers_after(old(self)@, *event),
            pointers_changed == membership_changes(old(self)@, *event),
    {
        match event {
            Event::PointerDown(pointer_event) => {
                let previous = self.latest.insert(pointer_event.id, pointer_event.pos);
                previous.is_none()
            },
            Event::PointerMove(pointer_event) => {
                if self.latest.contains_key(&pointer_event.id) {
                    self.latest.insert(pointer_event.id, pointer_event.pos);
                }
                false
            },
            Event::PointerUp(pointer_event) | Event::PointerLeave(pointer_event) => {
                let previous = self.latest.remove(&pointer_event.id);
                previous.is_some()
            },
            _ => false,
        }
    }

    /// The identifiers of the active pointers, each once, in no particular
    /// order.
    pub fn pointer_ids(&self) -> (ids: Vec<PointerId>)
        ensures
            ids@.no_duplicates(),
            ids@.to_set() == self@.dom(),
            ids@.len() == self@.len(),
    {
        let mut ids: Vec<PointerId> = Vec::new();
        for id in it: self.latest.keys()
            invariant
                it.seq() == spec_keys_iter(&self.latest).remaining(),
                ids@ == it.seq().take(it.index()).unref(),
        {
            ids.push(*id);
        }
        assert(ids@ == spec_keys_iter(&self.latest).remaining().unref());
        ids
    }
}

} // verus!
