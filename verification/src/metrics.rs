//! Counters of what the node has seen.
//!
//! The counters are plain numbers owned by one `Metrics` value. A host that
//! counts from several tasks shares that value behind a lock.

use vstd::prelude::*;

verus! {

/// A snapshot of the counters.
#[derive(Debug, Clone, Copy, PartialEq, Eq, Structural)]
pub struct MetricsData {
    pub peers: usize,
    pub messages_broadcasted: usize,
    pub messages_received: usize,
    pub total_connections: usize,
}

/// The counters.
#[derive(Debug)]
pub struct Metrics {
    peers: usize,
    messages_broadcasted: usize,
    messages_received: usize,
    total_connections: usize,
}

/// The count after `n`. Counts wrap around at the largest number.
pub open spec fn count_after(n: usize) -> usize {
    if n == usize::MAX {
        0
    } else {
        (n + 1) as usize
    }
}

/// The count before `n`. Counts wrap around at zero.
pub open spec fn count_before(n: usize) -> usize {
    if n == 0 {
        usize::MAX
    } else {
        (n - 1) as usize
    }
}

fn increment(n: usize) -> (r: usize)
    ensures
        r == count_after(n),
{
    if n == usize::MAX {
        0
    } else {
        n + 1
    }
}

fn decrement(n: usize) -> (r: usize)
    ensures
        r == count_before(n),
{
    if n == 0 {
        usize::MAX
    } else {
        n - 1
    }
}

impl View for Metrics {
    type V = MetricsData;

    closed spec fn view(&self) -> MetricsData {
        MetricsData {
            peers: self.peers,
            messages_broadcasted: self.messages_broadcasted,
            messages_received: self.messages_received,
            total_connections: self.total_connections,
        }
    }
}

impl Metrics {
    /// Counters that all stand at zero.
    pub fn new() -> (metrics: Self)
        ensures
            metrics@ == (MetricsData {
                peers: 0,
                messages_broadcasted: 0,
                messages_received: 0,
                total_connections: 0,
            }),
    {
        Metrics { peers: 0, messages_broadcasted: 0, messages_received: 0, total_connections: 0 }
    }

    /// Counts one more peer and returns the new number of peers.
    pub fn increment_peers(&mut self) -> (peers: usize)
        ensures
            final(self)@ == (MetricsData { peers: count_after(old(self)@.peers), ..old(self)@ }),
            peers == count_after(old(self)@.peers),
    {
        self.peers = increment(self.peers);
        self.peers
    }

    /// Counts one peer less and returns the new number of peers.
    pub fn decrement_peers(&mut self) -> (peers: usize)
        ensures
            final(self)@ == (MetricsData { peers: count_before(old(self)@.peers), ..old(self)@ }),
            peers == count_before(old(self)@.peers),
    {
        self.peers = decrement(self.peers);
        self.peers
    }

    /// Counts one more message received.
    pub fn increment_messages_received(&mut self)
        ensures
            final(self)@ == (MetricsData {
                messages_received: count_after(old(self)@.messages_received),
                ..old(self)@
            }),
    {
        self.messages_received = increment(self.messages_received);
    }

    /// Counts one more message broadcasted.
    pub fn increment_messages_broadcasted(&mut self)
        ensures
            final(self)@ == (MetricsData {
                messages_broadcasted: count_after(old(self)@.messages_broadcasted),
                ..old(self)@
            }),
    {
        self.messages_broadcasted = increment(self.messages_broadcasted);
    }

    /// The counters as they stand.
    pub fn get_metrics(&self) -> (data: MetricsData)
        ensures
            data == self@,
    {
        MetricsData {
            peers: self.peers,
            messages_broadcasted: self.messages_broadcasted,
            messages_received: self.messages_received,
            total_connections: self.total_connections,
        }
    }
}

} // verus!
