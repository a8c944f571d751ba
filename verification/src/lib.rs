//! Protocol core for a multi-anchor, multi-tag AltDS-TWR ultra-wideband
//! ranging exchange: wire packet codecs, per-role phase state machines with
//! their type-erased wrappers, and the frame airtime calculator.

use vstd::prelude::*;

pub mod anchor_state_machine;
pub mod hvec;
pub mod packet;
pub mod tag_state_machine;
pub mod util;

verus! {

/// Errors reported by the timestamp setters.
#[derive(Clone, Copy, PartialEq, Eq, Structural, Debug)]
pub enum TwrError {
    /// An address-keyed setter was given an address absent from the peer list.
    AddressNotFound,
    /// An index-keyed setter was given a position at or past the peer count.
    IndexOutOfRange,
}

} // verus!
