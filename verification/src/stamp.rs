//! What a new record takes from outside the program: a fresh identifier and
//! the current time.

use vstd::prelude::*;

verus! {

/// A fresh identifier together with the time at which it was drawn, in
/// microseconds since the Unix epoch.
#[derive(Debug, Clone, Copy, PartialEq, Eq, Structural)]
pub struct Stamp {
    pub id: u128,
    pub now: i64,
}

/// The bits of an identifier that say how it was made: the four bits of the
/// version and the two bits of the variant.
pub const MADE_MASK: u128 = 0x0000_0000_0000_f000_c000_0000_0000_0000;

/// What those bits hold in a UUID of version 4, the random kind, in the
/// variant of RFC 4122.
pub const MADE_RANDOM: u128 = 0x0000_0000_0000_4000_8000_0000_0000_0000;

/// Whether a 128-bit value is that of a random UUID: version 4, variant of
/// RFC 4122. The other 122 bits are free.
pub open spec fn is_random_uuid(id: u128) -> bool {
    id & MADE_MASK == MADE_RANDOM
}

/// Calls `uuid::Uuid::new_v4` and `Uuid::as_u128`. The crate draws 128 random
/// bits and overwrites the version with 4 and the variant with that of
/// RFC 4122, and the 128-bit value of a UUID is the value it was made from;
/// the contract claims those six bits and nothing of the others.
#[verifier::external_body]
fn fresh_id() -> (id: u128)
    ensures
        is_random_uuid(id),
{
    uuid::Uuid::new_v4().as_u128()
}

/// Calls `chrono::Utc::now` and `DateTime::timestamp_micros`: the current
/// time in microseconds since the Unix epoch. The crate measures the time
/// that has passed since the epoch and does not return for a clock that
/// stands before it, so the value is not negative; the contract claims no
/// more.
#[verifier::external_body]
pub(crate) fn now_micros() -> (now: i64)
    ensures
        now >= 0,
{
    chrono::Utc::now().timestamp_micros()
}

impl Stamp {
    /// What holds of every stamp that is drawn: the identifier is that of a
    /// random UUID, and the time is not before the epoch.
    pub open spec fn drawn(self) -> bool {
        is_random_uuid(self.id) && self.now >= 0
    }

    /// Draws a random identifier of version 4 and reads the clock. Which
    /// identifier and which time is not determined, and two stamps may be
    /// the same.
    pub fn draw() -> (stamp: Stamp)
        ensures
            stamp.drawn(),
    {
        let id = fresh_id();
        let now = now_micros();
        Stamp { id, now }
    }
}

} // verus!
