//! Trust-minimised core of a peer-to-peer ride-hailing protocol: the
//! lifecycle of one ride, the driver reputation and fee model, and the two
//! ports (peer network, settlement ledger) through which the core talks to the
//! outside world.

mod outside;

pub mod identity;
pub mod reputation;
pub mod ride;
pub mod ports;
pub mod laws;

pub use identity::{Did, Location};
pub use reputation::{DriverProfile, DriverTier};
pub use ride::{Ride, RideError, RideEvent, RideState, MIN_PRESENCE_TOKENS};
pub use ports::{ConsensusLayer, MobilityNetwork};
