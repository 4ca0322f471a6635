//! User identifiers.

use vstd::prelude::*;

verus! {

/// An opaque identifier of a user: a plain unsigned integer on the wire.
#[derive(Clone, Copy, Debug, PartialEq, Eq, Hash, Structural)]
pub struct Id(pub u64);

/// Relies on `SystemTime::elapsed`, applied to the Unix epoch: the time now
/// in nanoseconds since the epoch, or `None` where the clock reads earlier
/// than the epoch. Nothing is promised of the value.
#[verifier::external_body]
fn nanos_since_epoch() -> (r: Option<u128>) {
    match std::time::UNIX_EPOCH.elapsed() {
        Ok(since) => Some(since.as_nanos()),
        Err(_) => None,
    }
}

impl Id {
    /// Turns a clock reading into an identifier: its low 64 bits, with zero,
    /// and a missing reading, taken as one, so that an identifier is never zero.
    pub fn from_clock_reading(reading: Option<u128>) -> (r: Id)
        ensures
            r.0 != 0,
            r.0 == match reading {
                Some(n) => if n % 0x1_0000_0000_0000_0000 == 0 {
                    1
                } else {
                    n % 0x1_0000_0000_0000_0000
                },
                None => 1,
            },
    {
        match reading {
            Some(n) => {
                let low: u64 = (n % 0x1_0000_0000_0000_0000u128) as u64;
                if low == 0 {
                    Id(1)
                } else {
                    Id(low)
                }
            },
            None => Id(1),
        }
    }

    /// An identifier drawn from the clock. It is never zero, but two draws
    /// may give the same value: the users service numbers the users it
    /// creates itself, from a counter, and does not use it.
    pub fn new() -> (r: Id)
        ensures
            r.0 != 0,
    {
        Id::from_clock_reading(nanos_since_epoch())
    }
}

impl Default for Id {
    fn default() -> (r: Id)
        ensures
            r.0 != 0,
    {
        Id::new()
    }
}

impl From<u64> for Id {
    fn from(value: u64) -> (r: Id) {
        Id(value)
    }
}

impl vstd::std_specs::convert::FromSpecImpl<u64> for Id {
    open spec fn obeys_from_spec() -> bool {
        true
    }

    open spec fn from_spec(value: u64) -> Id {
        Id(value)
    }
}

impl From<Id> for u64 {
    fn from(id: Id) -> (r: u64) {
        id.0
    }
}

impl vstd::std_specs::convert::FromSpecImpl<Id> for u64 {
    open spec fn obeys_from_spec() -> bool {
        true
    }

    open spec fn from_spec(id: Id) -> u64 {
        id.0
    }
}

} // verus!
