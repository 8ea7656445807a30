//! The scenario clock: a trusted monotonic source of nanosecond readings.

use vstd::prelude::*;

verus! {

/// Declares `std::time::Instant` so that an opaque instant can sit in a field.
#[verifier::external_type_specification]
#[verifier::external_body]
pub struct ExInstant(std::time::Instant);

/// A monotonic clock for one scenario run. Readings are nanoseconds since the
/// clock's construction, and every new reading is at least the previous one.
/// The fields are private, so every clock a verified caller can hold comes
/// from `new` and advances only through `now_nanos`.
pub struct Clock {
    origin: std::time::Instant,
    last: u128,
}

impl Clock {
    /// The most recent reading handed out (zero before the first).
    pub closed spec fn last_reading(self) -> u128 {
        self.last
    }

    /// Relies on `std::time::Instant::now` to fix the clock's origin.
    #[verifier::external_body]
    pub fn new() -> (c: Clock)
        ensures
            c.last_reading() == 0,
    {
        Clock { origin: std::time::Instant::now(), last: 0 }
    }

    /// Relies on `std::time::Instant::elapsed`: `Instant` is monotonic, so
    /// successive readings of one genuine clock never decrease (`as_nanos`
    /// only converts the resulting `Duration` to an integer, and `elapsed`
    /// saturates rather than panics).
    #[verifier::external_body]
    pub fn now_nanos(&mut self) -> (r: u128)
        ensures
            r >= old(self).last_reading(),
            final(self).last_reading() == r,
    {
        let r = self.origin.elapsed().as_nanos();
        self.last = r;
        r
    }

    /// The most recent reading, as a value.
    pub fn last(&self) -> (r: u128)
        ensures
            r == self.last_reading(),
    {
        self.last
    }
}

} // verus!
