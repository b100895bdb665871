//! The sink capability: the trio of operations every logging backend exposes.

use vstd::prelude::*;

use crate::record::Metadata;
use crate::record::MetadataView;
use crate::record::Record;
use crate::record::RecordView;

verus! {

/// One capability call a sink has received: a record delivered by `log`, or a
/// flush.
pub enum SinkEvent {
    Log(RecordView),
    Flush,
}

/// The capability a logging backend exposes: an enablement query, record
/// delivery, and flush.
///
/// Two ghost projections describe a sink for the contracts: `delivered()` is
/// the sequence of capability calls the sink has received so far, and
/// `accepts(m)` is the answer its enablement query gives for metadata `m`.
/// What a sink does with a delivered record — keep it, write it, drop it —
/// is the sink's own business: each sink performs its own per-record
/// filtering.
pub trait Sink {
    /// The capability calls this sink has received so far, oldest first.
    ///
    /// The default lets a backend outside this crate implement just the three
    /// operations; nothing is proved about such a backend.
    open spec fn delivered(&self) -> Seq<SinkEvent> {
        Seq::empty()
    }

    /// Whether the sink reports itself enabled for metadata `m`.
    ///
    /// The default lets a backend outside this crate implement just the three
    /// operations; nothing is proved about such a backend.
    open spec fn accepts(&self, m: MetadataView) -> bool {
        false
    }

    /// The enablement query: would this sink want a record with metadata
    /// `metadata`?
    fn enabled(&self, metadata: &Metadata) -> (r: bool)
        ensures
            r == self.accepts(metadata@),
    ;

    /// Delivers one record to the sink. The sink has no error channel: it
    /// absorbs its own failures.
    fn log(&mut self, record: &Record)
        ensures
            final(self).delivered() == old(self).delivered().push(SinkEvent::Log(record@)),
    ;

    /// Flushes whatever the sink has buffered. Best-effort; returns nothing.
    fn flush(&mut self)
        ensures
            final(self).delivered() == old(self).delivered().push(SinkEvent::Flush),
    ;
}

} // verus!
