//! Collection of display handles during one enumeration pass.
//!
//! The platform enumerates active outputs by invoking a callback once per
//! output; the callback appends the output's handle to an accumulator and
//! always signals that enumeration should continue.

use vstd::prelude::*;

verus! {

/// An opaque, process-lifetime handle that the platform issues for one
/// logical display output (physical, virtual or mirrored). Only the
/// platform interprets `raw`; this crate carries it unexamined. A handle
/// stays valid only while the display configuration is unchanged.
#[derive(Clone, Copy, Debug, PartialEq, Eq, Hash)]
pub struct MonitorHandle {
    pub raw: isize,
}

/// The handle sequence that one enumeration pass yields when the platform
/// reports the outputs `reported`, in that order: exactly the reported
/// handles, none dropped, reordered or invented.
pub open spec fn enumeration_result(reported: Seq<MonitorHandle>) -> Seq<MonitorHandle> {
    reported
}

/// Accumulator for one enumeration pass: the platform's callback hands it
/// each discovered output's handle in turn.
pub struct MonitorCollector {
    pub handles: Vec<MonitorHandle>,
}

impl MonitorCollector {
    /// An empty accumulator for a fresh enumeration pass.
    pub fn new() -> (c: Self)
        ensures
            c.handles@ =~= Seq::<MonitorHandle>::empty(),
    {
        MonitorCollector { handles: Vec::new() }
    }

    /// One callback invocation: append the reported handle and signal that
    /// enumeration should continue (a pass never stops early).
    pub fn record(&mut self, handle: MonitorHandle) -> (keep_going: bool)
        ensures
            final(self).handles@ == old(self).handles@.push(handle),
            keep_going,
    {
        self.handles.push(handle);
        true
    }
}

/// One full enumeration pass over the outputs the platform reports: the
/// result is exactly the reported handles in report order. In particular a
/// pass during which the platform reports nothing — zero displays
/// connected, or the enumeration call failed — yields an empty list, never
/// an error.
pub fn collect_handles(reported: &Vec<MonitorHandle>) -> (out: Vec<MonitorHandle>)
    ensures
        out@ == enumeration_result(reported@),
{
    let mut collector = MonitorCollector::new();
    let mut i: usize = 0;
    while i < reported.len()
        invariant
            i <= reported.len(),
            collector.handles@ =~= reported@.subrange(0, i as int),
        decreases reported@.len() - i,
    {
        let _ = collector.record(reported[i]);
        i = i + 1;
    }
    collector.handles
}

/// Two enumeration passes during which the platform reports the same
/// number of outputs yield handle sequences of equal length: the count of
/// enumerated outputs is stable absent a configuration change.
pub proof fn lemma_enumeration_count_stable(first: Seq<MonitorHandle>, second: Seq<MonitorHandle>)
    requires
        first.len() == second.len(),
    ensures
        enumeration_result(first).len() == enumeration_result(second).len(),
{
}

/// A pass with no reported outputs yields the empty handle sequence.
pub proof fn lemma_enumeration_empty(reported: Seq<MonitorHandle>)
    requires
        reported.len() == 0,
    ensures
        enumeration_result(reported) =~= Seq::<MonitorHandle>::empty(),
{
}

} // verus!
