//! An in-memory sink: the simplest backend, and one whose effect is fully
//! observable.

use vstd::prelude::*;

use crate::level::Level;
use crate::record::Metadata;
use crate::record::MetadataView;
use crate::record::Record;
use crate::sink::Sink;
use crate::sink::SinkEvent;

verus! {

/// A sink with a fixed severity threshold that appends the message of every
/// record it accepts to a buffer. It accepts exactly the records whose level
/// is at least as severe as the threshold, and performs that filtering itself
/// on each delivered record.
pub struct VecSink {
    threshold: Level,
    messages: Vec<String>,
    history: Ghost<Seq<SinkEvent>>,
}

impl VecSink {
    /// The sink's own severity threshold.
    pub closed spec fn threshold_spec(&self) -> Level {
        self.threshold
    }

    /// The messages of the accepted records, oldest first.
    pub closed spec fn messages_seq(&self) -> Seq<Seq<char>> {
        self.messages.deep_view()
    }

    /// Creates a sink that accepts exactly the records at least as severe as
    /// `threshold`, with an empty buffer.
    pub fn new(threshold: Level) -> (sink: Self)
        ensures
            sink.threshold_spec() == threshold,
            sink.messages_seq() == Seq::<Seq<char>>::empty(),
            sink.delivered() == Seq::<SinkEvent>::empty(),
    {
        VecSink { threshold, messages: Vec::new(), history: Ghost(Seq::empty()) }
    }

    /// Borrows the accepted messages, oldest first.
    pub fn messages(&self) -> (r: &Vec<String>)
        ensures
            r.deep_view() == self.messages_seq(),
    {
        &self.messages
    }

    /// The sink's severity threshold.
    pub fn threshold(&self) -> (r: Level)
        ensures
            r == self.threshold_spec(),
    {
        self.threshold
    }
}

impl Sink for VecSink {
    closed spec fn delivered(&self) -> Seq<SinkEvent> {
        self.history@
    }

    /// Enabled for exactly the metadata whose level is at least as severe as
    /// the threshold.
    open spec fn accepts(&self, m: MetadataView) -> bool {
        m.level.verbosity() <= self.threshold_spec().verbosity()
    }

    fn enabled(&self, metadata: &Metadata) -> (r: bool) {
        metadata.level.at_most(self.threshold)
    }

    /// Keeps the record's message iff the sink accepts the record's metadata;
    /// the threshold never changes.
    fn log(&mut self, record: &Record)
        ensures
            final(self).threshold_spec() == old(self).threshold_spec(),
            final(self).messages_seq() == (if old(self).accepts(record@.metadata()) {
                old(self).messages_seq().push(record@.message)
            } else {
                old(self).messages_seq()
            }),
    {
        if record.level.at_most(self.threshold) {
            self.messages.push(record.message.clone());
        }
        self.history = Ghost(self.history@.push(SinkEvent::Log(record@)));
    }

    /// Nothing is buffered besides the messages themselves, so flushing
    /// changes nothing observable.
    fn flush(&mut self)
        ensures
            final(self).threshold_spec() == old(self).threshold_spec(),
            final(self).messages_seq() == old(self).messages_seq(),
    {
        self.history = Ghost(self.history@.push(SinkEvent::Flush));
    }
}

} // verus!
