//! Spans as far as a dispatch forwards them.

use vstd::prelude::*;
use crate::metadata::Metadata;

verus! {

/// Identifies a span to the collector that made it.
#[derive(Copy, Clone, Debug, PartialEq, Eq, Structural, Hash)]
pub struct Id {
    pub value: u64,
}

/// The identifier that a dispatch without a collector gives to every new
/// span.
pub const DISABLED_SPAN: u64 = 0xDEAD;

impl Id {
    /// The identifier with the given number.
    pub fn from_u64(value: u64) -> (r: Id)
        ensures
            r.value == value,
    {
        Id { value }
    }

    /// The identifier's number.
    pub fn into_u64(&self) -> (r: u64)
        ensures
            r == self.value,
    {
        self.value
    }
}

/// Where a new span hangs in the tree of spans.
#[derive(Copy, Clone, Debug, PartialEq, Eq, Structural)]
pub enum Parent {
    /// The new span will be a root span.
    Root,
    /// The new span will be rooted in the current span.
    Current,
    /// The new span has an explicitly-specified parent.
    Explicit(Id),
}

/// What a collector is told of a span that is being made.
#[derive(Debug)]
pub struct Attributes {
    pub metadata: Metadata,
    pub parent: Parent,
}

impl Attributes {
    /// Attributes of a span under the given parent.
    pub fn new(metadata: Metadata, parent: Parent) -> (r: Attributes)
        ensures
            r.metadata == metadata,
            r.parent == parent,
    {
        Attributes { metadata, parent }
    }
}

/// Values recorded on a span, as text.
#[derive(Debug)]
pub struct Record {
    pub values: String,
}

impl Record {
    /// A record of the given values.
    pub fn new(values: String) -> (r: Record)
        ensures
            r.values == values,
    {
        Record { values }
    }
}

/// A collector's view of the span that is current.
#[derive(Debug)]
pub enum Current {
    /// The collector does not track a current span.
    Unknown,
    /// No span is current.
    Outside,
    /// The span that is current.
    Span(Id, Metadata),
}

impl Current {
    /// The answer of a collector that does not track the current span.
    pub fn unknown() -> (r: Current)
        ensures
            r == Current::Unknown,
    {
        Current::Unknown
    }

    /// The answer that no span is current.
    pub fn none() -> (r: Current)
        ensures
            r == Current::Outside,
    {
        Current::Outside
    }

    /// The answer that the span `id` is current.
    pub fn new(id: Id, metadata: Metadata) -> (r: Current)
        ensures
            r == Current::Span(id, metadata),
    {
        Current::Span(id, metadata)
    }

    /// Whether the collector knows which span is current, if any.
    pub fn is_known(&self) -> (r: bool)
        ensures
            r == !(*self is Unknown),
    {
        !matches!(self, Current::Unknown)
    }

    /// The current span's identifier, if a span is current.
    pub fn id(&self) -> (r: Option<Id>)
        ensures
            r == match *self {
                Current::Span(id, _) => Some(id),
                _ => None,
            },
    {
        match self {
            Current::Span(id, _) => Some(*id),
            _ => None,
        }
    }
}

/// A handle on a span as the instrumented code holds it. A span that no
/// collector wanted is disabled: it has its metadata and no identifier.
#[derive(Debug)]
pub struct Span {
    pub id: Option<Id>,
    pub metadata: Metadata,
}

impl Span {
    /// The span of the given metadata that no collector knows of.
    pub fn new_disabled(metadata: Metadata) -> (r: Span)
        ensures
            r.id is None,
            r.metadata == metadata,
    {
        Span { id: None, metadata }
    }

    /// Whether no collector knows of the span.
    pub fn is_disabled(&self) -> (r: bool)
        ensures
            r == (self.id is None),
    {
        self.id.is_none()
    }
}

} // verus!
