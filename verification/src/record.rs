//! The data carried by one log event.
//!
//! `Metadata` is what an enablement query sees: level and target. `Record` is
//! the full event: metadata plus the formatted message and the source
//! location. Both are borrowed read-only for the duration of one call.

use vstd::prelude::*;

use crate::level::Level;

verus! {

/// The part of a record used to decide enablement without materializing the
/// message: its level and target.
pub struct Metadata {
    pub level: Level,
    pub target: String,
}

/// The mathematical view of a [`Metadata`].
pub struct MetadataView {
    pub level: Level,
    pub target: Seq<char>,
}

impl View for Metadata {
    type V = MetadataView;

    open spec fn view(&self) -> MetadataView {
        MetadataView { level: self.level, target: self.target@ }
    }
}

/// One log event: level, target, the formatted message, and the source
/// location it was emitted from.
pub struct Record {
    pub level: Level,
    pub target: String,
    pub message: String,
    pub module: Option<String>,
    pub file: Option<String>,
    pub line: Option<u32>,
}

/// The mathematical view of a [`Record`].
pub struct RecordView {
    pub level: Level,
    pub target: Seq<char>,
    pub message: Seq<char>,
    pub module: Option<Seq<char>>,
    pub file: Option<Seq<char>>,
    pub line: Option<u32>,
}

impl RecordView {
    /// The metadata of the record: what an enablement query for it would see.
    pub open spec fn metadata(self) -> MetadataView {
        MetadataView { level: self.level, target: self.target }
    }
}

impl View for Record {
    type V = RecordView;

    open spec fn view(&self) -> RecordView {
        RecordView {
            level: self.level,
            target: self.target@,
            message: self.message@,
            module: self.module.deep_view(),
            file: self.file.deep_view(),
            line: self.line,
        }
    }
}

} // verus!
