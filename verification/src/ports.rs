//! Port allocation: scan a half-open range of TCP ports and pick the
//! first one that is free.
//!
//! Whether a given port is free is an observation that only the caller
//! can make, by trying to bind a listener on the loopback interface.
//! The scanner below hands out candidate ports in ascending order and
//! is told about each failed attempt; `find_available_port` states the
//! selection rule itself: the first free port of the range wins.
//!
//! The caller releases its probe listener before the backend binds the
//! chosen port, so another process may claim the port in between.
//! That gap is accepted by design: holding the listener open would
//! require handing the socket to the child.

use vstd::prelude::*;

verus! {

/// A half-open interval `[start, end)` of TCP ports.
#[derive(Clone, Copy)]
pub struct PortRange {
    pub start: u16,
    pub end: u16,
}

impl PortRange {
    /// The interval is non-empty.
    pub open spec fn wf(self) -> bool {
        self.start < self.end
    }

    /// `p` lies inside the interval.
    pub open spec fn contains(self, p: int) -> bool {
        self.start <= p < self.end
    }

    /// Number of ports in the interval.
    pub open spec fn width(self) -> int {
        self.end - self.start
    }
}

/// Walks the ports of a range in ascending order.  The caller asks for
/// the next candidate, tries to bind it, and reports a failure back;
/// a successful bind ends the scan with that candidate.
pub struct PortScan {
    range: PortRange,
    next: u16,
}

impl PortScan {
    /// The scanner never leaves its range.
    pub closed spec fn wf(self) -> bool {
        &&& self.range.wf()
        &&& self.range.start <= self.next <= self.range.end
    }

    /// The range being scanned.
    pub closed spec fn range_spec(self) -> PortRange {
        self.range
    }

    /// The next port that will be offered.
    pub closed spec fn next_spec(self) -> int {
        self.next as int
    }

    pub fn new(range: PortRange) -> (s: Self)
        requires
            range.wf(),
        ensures
            s.wf(),
            s.range_spec() == range,
            s.next_spec() == range.start,
    {
        PortScan { range, next: range.start }
    }

    /// The port to try next, or `None` once the range is exhausted.
    pub fn candidate(&self) -> (r: Option<u16>)
        requires
            self.wf(),
        ensures
            self.next_spec() < self.range_spec().end ==> r == Some(
                self.next_spec() as u16,
            ),
            self.next_spec() >= self.range_spec().end ==> r == None::<u16>,
    {
        if self.next < self.range.end {
            Some(self.next)
        } else {
            None
        }
    }

    /// Record that binding the current candidate failed, moving on to
    /// the next port.
    pub fn mark_unavailable(&mut self)
        requires
            old(self).wf(),
            old(self).next_spec() < old(self).range_spec().end,
        ensures
            final(self).wf(),
            final(self).range_spec() == old(self).range_spec(),
            final(self).next_spec() == old(self).next_spec() + 1,
    {
        self.next = self.next + 1;
    }
}

/// Selection rule of the port allocator: given, for each port of the
/// range, whether binding it would succeed (`free[p - start]` for port
/// `p`), return the first free port, or `None` when every port of the
/// range is taken.
pub fn find_available_port(range: PortRange, free: &Vec<bool>) -> (r: Option<u16>)
    requires
        range.wf(),
        free@.len() == range.width(),
    ensures
        match r {
            Some(p) => range.contains(p as int) && free@[p - range.start] && (forall|i: int|
                0 <= i < p - range.start ==> !free@[i]),
            None => forall|i: int| 0 <= i < free@.len() ==> !free@[i],
        },
{
    let mut scan = PortScan::new(range);
    loop
        invariant
            scan.wf(),
            scan.range_spec() == range,
            free@.len() == range.width(),
            forall|i: int|
                0 <= i < scan.next_spec() - range.start ==> !free@[i],
        decreases range.end - scan.next_spec(),
    {
        match scan.candidate() {
            Some(p) => {
                if free[(p - range.start) as usize] {
                    return Some(p);
                }
                scan.mark_unavailable();
            },
            None => {
                return None;
            },
        }
    }
}

/// Fallback rule of the caller: use the allocated port when one was
/// found, a fixed default port otherwise.
pub fn port_or_default(found: Option<u16>, fallback: u16) -> (r: u16)
    ensures
        r == match found {
            Some(p) => p,
            None => fallback,
        },
{
    match found {
        Some(p) => p,
        None => fallback,
    }
}

} // verus!
