//! What a request carries of the events that it delivers.

use crate::text::copy_text;
use vstd::prelude::*;

verus! {

/// What became of events.
#[derive(Clone, Copy, Debug, PartialEq, Eq, Structural)]
pub enum EventStatus {
    /// They were delivered.
    Delivered,
    /// They were not delivered; a later attempt may deliver them.
    Errored,
    /// They were refused.
    Rejected,
}

/// The batches to notify of what became of their events, by number.
#[derive(Debug)]
pub struct EventFinalizers {
    pub batches: Vec<u64>,
}

impl EventFinalizers {
    pub open spec fn is_empty(self) -> bool {
        self.batches@.len() == 0
    }
}

impl Clone for EventFinalizers {
    fn clone(&self) -> (copy: EventFinalizers)
        ensures
            copy.batches@ == self.batches@,
    {
        let mut batches: Vec<u64> = Vec::new();
        batches.extend_from_slice(self.batches.as_slice());
        EventFinalizers { batches }
    }
}

impl Default for EventFinalizers {
    fn default() -> (finalizers: EventFinalizers)
        ensures
            finalizers.is_empty(),
            finalizers.batches@.len() == 0,
    {
        EventFinalizers { batches: Vec::new() }
    }
}

/// A number of events and their size in bytes.
#[derive(Clone, Copy, Debug, PartialEq, Eq, Structural)]
pub struct CountByteSize {
    pub count: usize,
    pub byte_size: usize,
}

/// Events, as a whole or by the source and service that they come from.
#[derive(Debug)]
pub enum GroupedCountByteSize {
    Untagged { size: CountByteSize },
    Tagged { sizes: Vec<EventGroup> },
}

impl GroupedCountByteSize {
    /// Whether both stand for the same events.
    pub open spec fn agrees(self, other: GroupedCountByteSize) -> bool {
        match (self, other) {
            (
                GroupedCountByteSize::Untagged { size: a },
                GroupedCountByteSize::Untagged { size: b },
            ) => a == b,
            (
                GroupedCountByteSize::Tagged { sizes: a },
                GroupedCountByteSize::Tagged { sizes: b },
            ) => a@ == b@,
            _ => false,
        }
    }
}

impl Clone for GroupedCountByteSize {
    fn clone(&self) -> (copy: GroupedCountByteSize)
        ensures
            copy.agrees(*self),
            match *self {
                GroupedCountByteSize::Untagged { size } => copy == (
                GroupedCountByteSize::Untagged { size }),
                GroupedCountByteSize::Tagged { sizes } => copy is Tagged && copy->sizes@ == sizes@,
            },
    {
        match self {
            GroupedCountByteSize::Untagged { size } => GroupedCountByteSize::Untagged {
                size: *size,
            },
            GroupedCountByteSize::Tagged { sizes } => {
                let mut copies: Vec<EventGroup> = Vec::new();
                let mut i: usize = 0;
                while i < sizes.len()
                    invariant
                        i <= sizes@.len(),
                        copies@ =~= sizes@.take(i as int),
                    decreases sizes@.len() - i,
                {
                    copies.push(sizes[i].clone());
                    i = i + 1;
                }
                assert(copies@ =~= sizes@);
                GroupedCountByteSize::Tagged { sizes: copies }
            },
        }
    }
}

/// The events of one source and service.
#[derive(Debug)]
pub struct EventGroup {
    pub source: Option<String>,
    pub service: Option<String>,
    pub size: CountByteSize,
}

impl Clone for EventGroup {
    fn clone(&self) -> (copy: EventGroup)
        ensures
            copy == *self,
    {
        EventGroup {
            source: copy_text(&self.source),
            service: copy_text(&self.service),
            size: self.size,
        }
    }
}

/// The size of a request.
#[derive(Debug)]
pub struct RequestMetadata {
    /// The number of events.
    pub event_count: usize,
    /// The size of the events in memory.
    pub events_byte_size: usize,
    /// The estimated size of the events encoded in JSON.
    pub events_estimated_json_encoded_byte_size: GroupedCountByteSize,
    /// The size of the body before compression.
    pub request_encoded_size: usize,
    /// The size of the body as it is sent.
    pub request_wire_size: usize,
}

impl RequestMetadata {
    /// Whether both hold the same sizes.
    pub open spec fn agrees(self, other: RequestMetadata) -> bool {
        &&& self.event_count == other.event_count
        &&& self.events_byte_size == other.events_byte_size
        &&& self.events_estimated_json_encoded_byte_size.agrees(
            other.events_estimated_json_encoded_byte_size,
        )
        &&& self.request_encoded_size == other.request_encoded_size
        &&& self.request_wire_size == other.request_wire_size
    }

    /// Leaves only the estimated size of the events encoded in JSON.
    pub fn into_events_estimated_json_encoded_byte_size(self) -> (size: GroupedCountByteSize)
        ensures
            size == self.events_estimated_json_encoded_byte_size,
    {
        self.events_estimated_json_encoded_byte_size
    }
}

impl Clone for RequestMetadata {
    fn clone(&self) -> (copy: RequestMetadata)
        ensures
            copy.agrees(*self),
            copy.event_count == self.event_count,
            copy.events_byte_size == self.events_byte_size,
            copy.request_encoded_size == self.request_encoded_size,
            copy.request_wire_size == self.request_wire_size,
            match self.events_estimated_json_encoded_byte_size {
                GroupedCountByteSize::Untagged { size } =>
                    copy.events_estimated_json_encoded_byte_size == (
                GroupedCountByteSize::Untagged { size }),
                GroupedCountByteSize::Tagged { sizes } =>
                    copy.events_estimated_json_encoded_byte_size is Tagged
                        && copy.events_estimated_json_encoded_byte_size->sizes@ == sizes@,
            },
    {
        RequestMetadata {
            event_count: self.event_count,
            events_byte_size: self.events_byte_size,
            events_estimated_json_encoded_byte_size:
                self.events_estimated_json_encoded_byte_size.clone(),
            request_encoded_size: self.request_encoded_size,
            request_wire_size: self.request_wire_size,
        }
    }
}

} // verus!
