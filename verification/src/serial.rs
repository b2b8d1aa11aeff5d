//! Serials: process-wide monotonically increasing identifiers. Every focus
//! change, input event batch, and grab is stamped with a freshly minted
//! serial; ordering between serials is the sole basis for conflict
//! resolution.

use vstd::prelude::*;

verus! {

/// A serial minted by the compositor. Later serials compare greater.
#[derive(Clone, Copy, PartialEq, Eq, Structural, Debug, Hash)]
pub struct Serial {
    /// The counter value this serial was minted with.
    pub value: u64,
}

impl Serial {
    /// The spec-level value of the serial.
    pub open spec fn spec_value(self) -> u64 {
        self.value
    }

    /// Whether `self` was minted strictly before `other`.
    pub open spec fn spec_lt(self, other: Serial) -> bool {
        self.value < other.value
    }

    /// Compare two serials: true iff `self` was minted strictly before `other`.
    pub fn is_older_than(&self, other: &Serial) -> (r: bool)
        ensures
            r == self.spec_lt(*other),
    {
        self.value < other.value
    }
}

/// Mints strictly increasing serials.
#[derive(Debug)]
pub struct SerialCounter {
    /// The value the next minted serial will carry.
    pub next: u64,
}

impl SerialCounter {
    /// A fresh counter, starting at one so that zero can serve callers that
    /// need a sentinel older than every minted serial.
    pub fn new() -> (r: SerialCounter)
        ensures
            r.next == 1u64,
    {
        SerialCounter { next: 1 }
    }

    /// Mint the next serial. Minting is strictly increasing: the serial
    /// handed out equals the old `next`, and the counter advances past it.
    pub fn next_serial(&mut self) -> (r: Serial)
        requires
            old(self).next < u64::MAX,
        ensures
            r.value == old(self).next,
            final(self).next == old(self).next + 1,
            r.spec_lt(Serial { value: final(self).next }),
    {
        let s = Serial { value: self.next };
        self.next = self.next + 1;
        s
    }
}

/// Any two serials minted by one counter in order compare in that order:
/// if a mint left the counter at `mid` and a later mint starts at or past
/// `mid`, the earlier serial is strictly older than the later one.
pub proof fn lemma_serial_monotone(earlier: Serial, mid: u64, later: Serial)
    requires
        earlier.value < mid,
        mid <= later.value,
    ensures
        earlier.spec_lt(later),
{
}

} // verus!
