//! Metadata describing one log statement.

use vstd::prelude::*;
use crate::level::Level;

verus! {

/// Identifies one occurrence of a log statement: its level, where it stands
/// in the source, and the node and process that it ran in.
#[derive(Debug)]
pub struct Metadata {
    level: Level,
    target: String,
    file: String,
    line: u32,
    node_id: u64,
    process_id: u64,
}

/// What a `Metadata` holds, as plain values.
pub struct MetadataView {
    pub level: Level,
    pub target: Seq<char>,
    pub file: Seq<char>,
    pub line: u32,
    pub node_id: u64,
    pub process_id: u64,
}

impl View for Metadata {
    type V = MetadataView;

    closed spec fn view(&self) -> MetadataView {
        MetadataView {
            level: self.level,
            target: self.target@,
            file: self.file@,
            line: self.line,
            node_id: self.node_id,
            process_id: self.process_id,
        }
    }
}

impl Clone for Metadata {
    fn clone(&self) -> (r: Metadata)
        ensures
            r == *self,
    {
        Metadata {
            level: self.level,
            target: self.target.clone(),
            file: self.file.clone(),
            line: self.line,
            node_id: self.node_id,
            process_id: self.process_id,
        }
    }
}

impl Metadata {
    /// Creates a new instance of metadata.
    pub fn new(
        level: Level,
        target: String,
        file: String,
        line: u32,
        node_id: u64,
        process_id: u64,
    ) -> (r: Metadata)
        ensures
            r@ == (MetadataView {
                level,
                target: target@,
                file: file@,
                line,
                node_id,
                process_id,
            }),
    {
        Metadata { level, target, file, line, node_id, process_id }
    }

    /// The level of verbosity of the described span.
    pub fn level(&self) -> (r: Level)
        ensures
            r == self@.level,
    {
        self.level
    }

    /// The name of the Rust module where the span occurred.
    pub fn target(&self) -> (r: &str)
        ensures
            r@ == self@.target,
    {
        self.target.as_str()
    }

    /// The name of the source code file where the span occurred.
    pub fn file(&self) -> (r: &str)
        ensures
            r@ == self@.file,
    {
        self.file.as_str()
    }

    /// The line number in the source code file where the span occurred.
    pub fn line(&self) -> (r: u32)
        ensures
            r == self@.line,
    {
        self.line
    }

    /// The node ID where the span occurred.
    pub fn node_id(&self) -> (r: u64)
        ensures
            r == self@.node_id,
    {
        self.node_id
    }

    /// The process ID where the span occurred.
    pub fn process_id(&self) -> (r: u64)
        ensures
            r == self@.process_id,
    {
        self.process_id
    }

    /// Whether two metadata hold the same values.
    pub fn same(&self, other: &Metadata) -> (r: bool)
        ensures
            r == (self@ == other@),
    {
        self.level.rank() == other.level.rank() && self.target == other.target
            && self.file == other.file && self.line == other.line && self.node_id
            == other.node_id && self.process_id == other.process_id
    }
}

} // verus!
