//! An explicit logging sink.
//!
//! Components that want to log are handed a sink value and append lines to
//! it; whoever owns the sink decides what to do with the collected lines.
//! There is no hidden global state, so the pipeline stays a pure function
//! and can be exercised without any filesystem.

use vstd::prelude::*;

verus! {

/// An in-memory log: the lines recorded so far, oldest first.
pub struct LogSink {
    pub lines: Vec<String>,
}

impl LogSink {
    /// An empty log.
    pub fn new() -> (s: LogSink)
        ensures
            s.lines@ == Seq::<String>::empty(),
    {
        LogSink { lines: Vec::new() }
    }

    /// How many lines have been recorded.
    pub fn len(&self) -> (n: usize)
        ensures
            n == self.lines@.len(),
    {
        self.lines.len()
    }
}

/// Records one message: appends it to the sink, leaving every earlier line
/// in place.
pub fn log_fn(sink: &mut LogSink, msg: String)
    ensures
        final(sink).lines@ == old(sink).lines@.push(msg),
{
    sink.lines.push(msg);
}

} // verus!
