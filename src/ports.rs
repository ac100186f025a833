//! The two capabilities the core depends on but does not implement: the peer
//! network used for discovery and matching, and the settlement ledger.
//! Callers inject implementations of them.

use vstd::prelude::*;

use crate::identity::Location;
use crate::reputation::DriverProfile;
use crate::ride::Ride;

verus! {

/// Discovery and matching over a peer-to-peer overlay.
pub trait MobilityNetwork {
    /// Announce availability at `loc`. Fire-and-forget; no ordering with other
    /// broadcasts.
    fn broadcast_location(&self, loc: Location);

    /// An unordered snapshot of the drivers within `radius_m` metres of `loc`.
    /// Consumers re-query rather than cache it.
    fn find_nearby_drivers(&self, loc: Location, radius_m: u64) -> Vec<DriverProfile>;

    /// Announce `ride` for matching. Announcing the same ride again must not
    /// create a second match.
    fn propose_ride(&self, ride: &Ride);
}

/// Escrow and release of a ride's payment on a settlement ledger. Both
/// operations answer with a transaction hash or the reason for the failure.
pub trait ConsensusLayer {
    /// Escrow `amount` (in the ledger's smallest unit) for the ride `ride_id`.
    fn lock_funds(&self, ride_id: uuid::Uuid, amount: u64) -> Result<String, String>;

    /// Release the escrow of `ride_id`, authorised by the passenger's and the
    /// driver's signatures, in that order.
    fn settle_ride(&self, ride_id: uuid::Uuid, signatures: (String, String)) -> Result<
        String,
        String,
    >;
}

} // verus!
