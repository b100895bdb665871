//! The fan-out adapter: one sink that forwards every capability call to an
//! ordered, immutable list of child sinks.

use vstd::prelude::*;

use crate::record::Metadata;
use crate::record::MetadataView;
use crate::record::Record;
use crate::sink::Sink;
use crate::sink::SinkEvent;

verus! {

/// The schedule of one forwarded capability call: the event `e`, sent to each
/// of the `n` children in construction order, as (child index, event) pairs.
/// The schedule depends on the child count and the event alone: the adapter
/// keeps nothing that could change it between calls.
pub open spec fn dispatch_order(n: nat, e: SinkEvent) -> Seq<(int, SinkEvent)> {
    Seq::new(n, |i: int| (i, e))
}

/// Logger that forwards log records to all the loggers it encapsulates.
///
/// The list of children is fixed at construction; every capability call is
/// forwarded to each child in construction order.
pub struct MultiLogger<S: Sink> {
    loggers: Vec<S>,
    dispatch: Ghost<Seq<(int, SinkEvent)>>,
}

impl<S: Sink> MultiLogger<S> {
    /// The children, in construction order.
    pub closed spec fn children(&self) -> Seq<S> {
        self.loggers@
    }

    /// Every capability call forwarded so far, as (child index, event) pairs,
    /// in the order the children received them.
    pub closed spec fn dispatched(&self) -> Seq<(int, SinkEvent)> {
        self.dispatch@
    }

    /// True iff at least one child accepts metadata `m`: what `enabled`
    /// returns.
    pub open spec fn some_child_accepts(&self, m: MetadataView) -> bool {
        exists|i: int| 0 <= i < self.children().len() && #[trigger] self.children()[i].accepts(m)
    }

    /// Creates a MultiLogger from any number of other loggers. It carries
    /// exactly those loggers, in that order; an empty list is permitted and
    /// yields a sink that accepts nothing and forwards nothing.
    pub fn new(loggers: Vec<S>) -> (logger: Self)
        ensures
            logger.children() == loggers@,
            logger.dispatched() == Seq::<(int, SinkEvent)>::empty(),
    {
        MultiLogger { loggers, dispatch: Ghost(Seq::empty()) }
    }

    /// Borrows the children, in construction order.
    pub fn loggers(&self) -> (r: &Vec<S>)
        ensures
            r@ == self.children(),
    {
        &self.loggers
    }

    /// The enablement query: true iff at least one child reports enabled for
    /// the same metadata; false iff all children decline, and in particular
    /// false when there are no children.
    pub fn enabled(&self, metadata: &Metadata) -> (r: bool)
        ensures
            r == self.some_child_accepts(metadata@),
    {
        let n = self.loggers.len();
        let mut i: usize = 0;
        while i < n
            invariant
                i <= n,
                n == self.loggers@.len(),
                forall|j: int| 0 <= j < i ==> !(#[trigger] self.loggers@[j].accepts(metadata@)),
            decreases n - i,
        {
            if self.loggers[i].enabled(metadata) {
                assert(self.children()[i as int].accepts(metadata@));
                return true;
            }
            i += 1;
        }
        false
    }

    /// Delivers the record to every child: each child receives exactly one
    /// `log` call for it, in construction order. No per-child enablement check
    /// is made; each child filters for itself.
    pub fn log(&mut self, record: &Record)
        ensures
            final(self).children().len() == old(self).children().len(),
            forall|i: int| 0 <= i < old(self).children().len() ==> (#[trigger] final(self).children()[i]).delivered()
                == old(self).children()[i].delivered().push(SinkEvent::Log(record@)),
            final(self).dispatched() == old(self).dispatched() + dispatch_order(
                old(self).children().len(),
                SinkEvent::Log(record@),
            ),
    {
        let n = self.loggers.len();
        let mut i: usize = 0;
        while i < n
            invariant
                i <= n,
                n == old(self).loggers@.len(),
                self.loggers@.len() == n,
                forall|j: int| 0 <= j < i ==> (#[trigger] self.loggers@[j]).delivered()
                    == old(self).loggers@[j].delivered().push(SinkEvent::Log(record@)),
                forall|j: int| i <= j < n ==> self.loggers@[j] == old(self).loggers@[j],
                self.dispatch@ == old(self).dispatch@ + dispatch_order(
                    i as nat,
                    SinkEvent::Log(record@),
                ),
            decreases n - i,
        {
            self.loggers[i].log(record);
            self.dispatch = Ghost(self.dispatch@.push((i as int, SinkEvent::Log(record@))));
            proof {
                lemma_dispatch_order_step(i as nat, SinkEvent::Log(record@));
            }
            i += 1;
        }
    }

    /// Invokes flush exactly once on each child, in construction order.
    /// Best-effort; returns no error.
    pub fn flush(&mut self)
        ensures
            final(self).children().len() == old(self).children().len(),
            forall|i: int| 0 <= i < old(self).children().len() ==> (#[trigger] final(self).children()[i]).delivered()
                == old(self).children()[i].delivered().push(SinkEvent::Flush),
            final(self).dispatched() == old(self).dispatched() + dispatch_order(
                old(self).children().len(),
                SinkEvent::Flush,
            ),
    {
        let n = self.loggers.len();
        let mut i: usize = 0;
        while i < n
            invariant
                i <= n,
                n == old(self).loggers@.len(),
                self.loggers@.len() == n,
                forall|j: int| 0 <= j < i ==> (#[trigger] self.loggers@[j]).delivered()
                    == old(self).loggers@[j].delivered().push(SinkEvent::Flush),
                forall|j: int| i <= j < n ==> self.loggers@[j] == old(self).loggers@[j],
                self.dispatch@ == old(self).dispatch@ + dispatch_order(i as nat, SinkEvent::Flush),
            decreases n - i,
        {
            self.loggers[i].flush();
            self.dispatch = Ghost(self.dispatch@.push((i as int, SinkEvent::Flush)));
            proof {
                lemma_dispatch_order_step(i as nat, SinkEvent::Flush);
            }
            i += 1;
        }
    }
}

/// Extending a dispatch schedule by one more child appends that child's pair.
proof fn lemma_dispatch_order_step(n: nat, e: SinkEvent)
    ensures
        dispatch_order(n + 1, e) == dispatch_order(n, e).push((n as int, e)),
{
    assert(dispatch_order(n + 1, e) =~= dispatch_order(n, e).push((n as int, e)));
}

/// The adapter holds no observable state of its own: with the same children,
/// the enablement answer for any metadata is the same, whatever either adapter
/// has forwarded before.
pub proof fn lemma_enabled_stateless<S: Sink>(a: &MultiLogger<S>, b: &MultiLogger<S>, m: MetadataView)
    requires
        a.children() == b.children(),
    ensures
        a.some_child_accepts(m) == b.some_child_accepts(m),
{
}

/// A MultiLogger with no children is a valid no-op sink: it reports every
/// metadata disabled, and a forwarded call reaches no child.
pub proof fn lemma_empty_is_noop<S: Sink>(logger: &MultiLogger<S>, m: MetadataView, e: SinkEvent)
    requires
        logger.children().len() == 0,
    ensures
        !logger.some_child_accepts(m),
        dispatch_order(logger.children().len(), e) == Seq::<(int, SinkEvent)>::empty(),
{
    assert(dispatch_order(0, e) =~= Seq::<(int, SinkEvent)>::empty());
}

/// From the adapter's perspective, flush is idempotent: a flush leaves the
/// child count unchanged, so a second flush forwards exactly the same schedule
/// as the first — one flush per child, in construction order. What repeated
/// flushes mean is for the children alone to define.
pub proof fn lemma_flush_idempotent<S: Sink>(before: &MultiLogger<S>, after: &MultiLogger<S>)
    requires
        after.children().len() == before.children().len(),
    ensures
        dispatch_order(after.children().len(), SinkEvent::Flush) == dispatch_order(
            before.children().len(),
            SinkEvent::Flush,
        ),
{
}

} // verus!
