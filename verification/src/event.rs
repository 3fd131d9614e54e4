//! Events.

use vstd::prelude::*;
use crate::metadata::Metadata;

verus! {

/// An event to be handled by a collector: a message and the metadata of the
/// statement that emitted it.
#[derive(Debug)]
pub struct Event {
    message: String,
    metadata: Metadata,
}

impl Clone for Event {
    fn clone(&self) -> (r: Event)
        ensures
            r == *self,
    {
        Event { message: self.message.clone(), metadata: self.metadata.clone() }
    }
}

impl Event {
    /// The event's message, as a specification.
    pub closed spec fn spec_message(&self) -> Seq<char> {
        self.message@
    }

    /// The event's metadata, as a specification.
    pub closed spec fn spec_metadata(&self) -> Metadata {
        self.metadata
    }

    /// Creates a new event given a message and metadata.
    pub fn new(message: String, metadata: Metadata) -> (r: Event)
        ensures
            r.spec_message() == message@,
            r.spec_metadata() == metadata,
    {
        Event { message, metadata }
    }

    /// Returns the message string to be logged.
    pub fn message(&self) -> (r: &String)
        ensures
            r@ == self.spec_message(),
    {
        &self.message
    }

    /// Returns the metadata describing this event.
    pub fn metadata(&self) -> (r: &Metadata)
        ensures
            *r == self.spec_metadata(),
    {
        &self.metadata
    }
}

} // verus!
