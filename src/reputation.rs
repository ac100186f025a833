//! Reputation engine: a driver's experience, attestations and governance
//! weight, and the tier and protocol fee derived from them.

use vstd::prelude::*;

use crate::identity::{texts, Did};

verus! {

/// Experience a driver must exceed to reach the veteran tier.
pub const VETERAN_MIN_XP: u64 = 1000;

/// Completed rides a driver must exceed to reach the veteran tier.
pub const VETERAN_MIN_RIDES: u32 = 50;

/// Protocol fee, in percent of the settlement amount, for an initiate.
pub const INITIATE_FEE_PERCENT: u32 = 15;

/// Protocol fee, in percent of the settlement amount, for a veteran.
pub const VETERAN_FEE_PERCENT: u32 = 5;

/// Experience earned by one unit of oracle work.
pub const ORACLE_WORK_XP: u64 = 5;

/// Governance weight earned by one unit of oracle work.
pub const ORACLE_WORK_GOVERNANCE: u32 = 10;

/// A driver's reputation class.
#[derive(Clone, Copy, Debug, PartialEq, Eq, Structural, Hash)]
pub enum DriverTier {
    Initiate,
    Veteran,
}

/// The tier earned by `xp` experience over `total_rides` completed rides:
/// veteran only when both strictly exceed their thresholds.
pub open spec fn tier_of(xp: u64, total_rides: u32) -> DriverTier {
    if xp > VETERAN_MIN_XP && total_rides > VETERAN_MIN_RIDES {
        DriverTier::Veteran
    } else {
        DriverTier::Initiate
    }
}

/// The protocol fee, in percent, charged to a driver of tier `t`.
pub open spec fn fee_percent_of(t: DriverTier) -> u32 {
    match t {
        DriverTier::Initiate => INITIATE_FEE_PERCENT,
        DriverTier::Veteran => VETERAN_FEE_PERCENT,
    }
}

/// `a + b`, held at `u64::MAX`.
pub open spec fn sat_add_u64(a: u64, b: u64) -> u64 {
    if a + b > u64::MAX { u64::MAX } else { (a + b) as u64 }
}

/// `a + b`, held at `u32::MAX`.
pub open spec fn sat_add_u32(a: u32, b: u32) -> u32 {
    if a + b > u32::MAX { u32::MAX } else { (a + b) as u32 }
}

/// What a driver profile holds, as mathematical values.
pub struct DriverProfileView {
    pub did: Seq<char>,
    pub xp: u64,
    pub verified_by: Seq<Seq<char>>,
    pub total_rides: u32,
    pub governance_score: u32,
}

impl DriverProfileView {
    /// The profile's tier, recomputed from its inputs.
    pub open spec fn tier(self) -> DriverTier {
        tier_of(self.xp, self.total_rides)
    }

    /// `self` can evolve into `later`: the key is kept, the counters never
    /// decrease and the attestations are only appended to.
    pub open spec fn grows_into(self, later: DriverProfileView) -> bool {
        &&& later.did == self.did
        &&& later.xp >= self.xp
        &&& later.total_rides >= self.total_rides
        &&& later.governance_score >= self.governance_score
        &&& later.verified_by.len() >= self.verified_by.len()
        &&& later.verified_by.subrange(0, self.verified_by.len() as int) == self.verified_by
    }
}

/// One driver's reputation record. The counters only grow and the
/// attestations are only appended to; tier and fee are recomputed on demand.
#[derive(Clone, Debug)]
pub struct DriverProfile {
    did: Did,
    xp: u64,
    verified_by: Vec<String>,
    total_rides: u32,
    governance_score: u32,
}

impl View for DriverProfile {
    type V = DriverProfileView;

    closed spec fn view(&self) -> DriverProfileView {
        DriverProfileView {
            did: self.did@,
            xp: self.xp,
            verified_by: texts(self.verified_by@),
            total_rides: self.total_rides,
            governance_score: self.governance_score,
        }
    }
}

impl Default for DriverProfile {
    /// A profile with an empty identifier and nothing earned.
    fn default() -> (r: DriverProfile)
        ensures
            r@.did.len() == 0,
            r@.xp == 0,
            r@.verified_by.len() == 0,
            r@.total_rides == 0,
            r@.governance_score == 0,
    {
        DriverProfile {
            did: Did(String::new()),
            xp: 0,
            verified_by: Vec::new(),
            total_rides: 0,
            governance_score: 0,
        }
    }
}

impl DriverProfile {
    /// A fresh profile for `did`, with nothing earned yet.
    pub fn new(did: Did) -> (r: DriverProfile)
        ensures
            r@.did == did@,
            r@.xp == 0,
            r@.verified_by.len() == 0,
            r@.total_rides == 0,
            r@.governance_score == 0,
    {
        DriverProfile { did, xp: 0, verified_by: Vec::new(), total_rides: 0, governance_score: 0 }
    }

    /// A profile rebuilt from values kept elsewhere, as they were stored.
    pub fn from_parts(
        did: Did,
        xp: u64,
        verified_by: Vec<String>,
        total_rides: u32,
        governance_score: u32,
    ) -> (r: DriverProfile)
        ensures
            r@.did == did@,
            r@.xp == xp,
            r@.verified_by == texts(verified_by@),
            r@.total_rides == total_rides,
            r@.governance_score == governance_score,
    {
        DriverProfile { did, xp, verified_by, total_rides, governance_score }
    }

    /// The driver's identifier.
    pub fn did(&self) -> (r: &Did)
        ensures
            r@ == self@.did,
    {
        &self.did
    }

    /// Accumulated experience.
    pub fn xp(&self) -> (r: u64)
        ensures
            r == self@.xp,
    {
        self.xp
    }

    /// Identifiers of the credential issuers that attested this driver.
    pub fn verified_by(&self) -> (r: &Vec<String>)
        ensures
            texts(r@) == self@.verified_by,
    {
        &self.verified_by
    }

    /// Number of completed rides.
    pub fn total_rides(&self) -> (r: u32)
        ensures
            r == self@.total_rides,
    {
        self.total_rides
    }

    /// Weight in protocol voting.
    pub fn governance_score(&self) -> (r: u32)
        ensures
            r == self@.governance_score,
    {
        self.governance_score
    }

    /// The driver's tier: veteran when experience exceeds 1000 and completed
    /// rides exceed 50, initiate otherwise.
    pub fn get_tier(&self) -> (r: DriverTier)
        ensures
            r == tier_of(self@.xp, self@.total_rides),
    {
        if self.xp > VETERAN_MIN_XP && self.total_rides > VETERAN_MIN_RIDES {
            DriverTier::Veteran
        } else {
            DriverTier::Initiate
        }
    }

    /// The protocol's cut of a settled ride, in percent: 15 for an initiate,
    /// 5 for a veteran.
    pub fn get_fee_percentage(&self) -> (r: u32)
        ensures
            r == fee_percent_of(self@.tier()),
    {
        match self.get_tier() {
            DriverTier::Initiate => INITIATE_FEE_PERCENT,
            DriverTier::Veteran => VETERAN_FEE_PERCENT,
        }
    }

    /// Credit one unit of verification work done for the network: governance
    /// weight grows by 10 and experience by 5, each held at its type's maximum.
    pub fn perform_oracle_work(&mut self)
        ensures
            final(self)@.governance_score == sat_add_u32(
                old(self)@.governance_score,
                ORACLE_WORK_GOVERNANCE,
            ),
            final(self)@.xp == sat_add_u64(old(self)@.xp, ORACLE_WORK_XP),
            final(self)@.did == old(self)@.did,
            final(self)@.verified_by == old(self)@.verified_by,
            final(self)@.total_rides == old(self)@.total_rides,
            old(self)@.grows_into(final(self)@),
    {
        self.governance_score = self.governance_score.saturating_add(ORACLE_WORK_GOVERNANCE);
        self.xp = self.xp.saturating_add(ORACLE_WORK_XP);
        proof {
            assert(self@.verified_by.subrange(0, old(self)@.verified_by.len() as int)
                =~= old(self)@.verified_by);
        }
    }

    /// Count one more completed ride, held at `u32::MAX`.
    pub fn record_completed_ride(&mut self)
        ensures
            final(self)@.total_rides == sat_add_u32(old(self)@.total_rides, 1),
            final(self)@.did == old(self)@.did,
            final(self)@.xp == old(self)@.xp,
            final(self)@.verified_by == old(self)@.verified_by,
            final(self)@.governance_score == old(self)@.governance_score,
            old(self)@.grows_into(final(self)@),
    {
        self.total_rides = self.total_rides.saturating_add(1);
        proof {
            assert(self@.verified_by.subrange(0, old(self)@.verified_by.len() as int)
                =~= old(self)@.verified_by);
        }
    }

    /// Append the attestation of the credential issuer `issuer`.
    pub fn add_attestation(&mut self, issuer: String)
        ensures
            final(self)@.verified_by == old(self)@.verified_by.push(issuer@),
            final(self)@.did == old(self)@.did,
            final(self)@.xp == old(self)@.xp,
            final(self)@.total_rides == old(self)@.total_rides,
            final(self)@.governance_score == old(self)@.governance_score,
            old(self)@.grows_into(final(self)@),
    {
        let ghost issuer_text = issuer@;
        self.verified_by.push(issuer);
        proof {
            assert(self@.verified_by =~= old(self)@.verified_by.push(issuer_text));
            assert(self@.verified_by.subrange(0, old(self)@.verified_by.len() as int)
                =~= old(self)@.verified_by);
        }
    }
}

} // verus!
