//! The ride state machine: the authoritative lifecycle of one ride, from the
//! passenger's request to settlement, with its proof-of-presence log.
//!
//! Each operation is specified by a transition of `RideView`, the ride as
//! mathematical values; a rejected operation leaves the ride as it was.

use vstd::prelude::*;

use crate::identity::{texts, Did, Location};
use crate::outside::{fresh_ride_id, unix_now};
use crate::ports::ConsensusLayer;

verus! {

/// Presence tokens that must have been exchanged before a ride can be
/// completed.
pub const MIN_PRESENCE_TOKENS: usize = 1;

/// Where a ride stands in its lifecycle.
#[derive(Clone, Copy, Debug, PartialEq, Eq, Structural, Hash)]
pub enum RideState {
    /// The passenger is looking for a driver.
    Searching,
    /// A driver has offered to serve the ride.
    Offered,
    /// The passenger accepted; the driver is on the way.
    Accepted,
    /// The trip is under way; presence tokens are exchanged.
    InProgress,
    /// The destination was reached; payment awaits settlement.
    Completed,
    /// Payment was settled on the ledger.
    Settled,
    /// Arbitration was invoked.
    Disputed,
}

/// `Settled` and `Disputed` have no outgoing transitions.
pub open spec fn is_terminal(s: RideState) -> bool {
    s is Settled || s is Disputed
}

/// The edges of the lifecycle: the main line from `Searching` to `Settled`,
/// and `Disputed` from any state that is not terminal.
pub open spec fn is_edge(from: RideState, to: RideState) -> bool {
    ||| from is Searching && to is Offered
    ||| from is Offered && to is Accepted
    ||| from is Accepted && to is InProgress
    ||| from is InProgress && to is Completed
    ||| from is Completed && to is Settled
    ||| !is_terminal(from) && to is Disputed
}

impl RideState {
    /// Whether the state is `Settled` or `Disputed`.
    pub fn is_terminal(&self) -> (r: bool)
        ensures
            r == is_terminal(*self),
    {
        match self {
            RideState::Settled | RideState::Disputed => true,
            _ => false,
        }
    }
}

/// Why an operation on a ride was rejected. A rejected operation changes
/// nothing.
#[derive(Clone, Debug, PartialEq, Eq)]
pub enum RideError {
    /// The lifecycle has no edge from `from` to `to`.
    InvalidTransition { from: RideState, to: RideState },
    /// A driver is already assigned to the ride.
    DriverAlreadyAssigned,
    /// The trip's start time is already recorded.
    StartTimeAlreadySet,
    /// A presence token arrived while the trip was not in progress.
    NotInProgress,
    /// Completion was attempted before enough presence tokens were exchanged.
    InsufficientPresence { required: usize, recorded: usize },
    /// A settlement signature is empty.
    MissingSignature,
    /// The ride is settled or disputed; no funds can be locked for it.
    RideClosed,
    /// The settlement ledger refused or failed, for the reason given.
    Port(String),
}

/// Something that happens to a ride and may move it forward.
#[derive(Debug)]
pub enum RideEvent {
    /// A driver offers to serve the ride.
    DriverProposed,
    /// The passenger accepts the driver.
    PassengerAccepted(Did),
    /// The driver picked the passenger up, at this time (Unix seconds).
    DriverArrived(i64),
    /// Passenger and driver exchanged this presence token.
    PresenceToken(String),
    /// Arrival at the destination was confirmed.
    DestinationReached,
    /// The settlement ledger answered with a transaction hash or a failure.
    SettlementOutcome(Result<String, String>),
    /// Arbitration was invoked.
    DisputeRaised,
}

/// A ride as mathematical values.
pub struct RideView {
    pub id: uuid::Uuid,
    pub passenger: Seq<char>,
    pub driver: Option<Seq<char>>,
    pub state: RideState,
    pub origin: Location,
    pub destination: Location,
    /// Unix seconds at which the trip began.
    pub start_time: Option<i64>,
    pub log: Seq<Seq<char>>,
}

/// A ride just requested by `passenger`.
pub open spec fn requested(
    id: uuid::Uuid,
    passenger: Seq<char>,
    origin: Location,
    destination: Location,
) -> RideView {
    RideView {
        id,
        passenger,
        driver: None,
        state: RideState::Searching,
        origin,
        destination,
        start_time: None,
        log: Seq::empty(),
    }
}

impl RideView {
    /// The same ride in state `s`.
    pub open spec fn with_state(self, s: RideState) -> RideView {
        RideView { state: s, ..self }
    }

    /// What holds in every state the lifecycle reaches: a driver is assigned
    /// exactly from acceptance on, the start time is recorded exactly from
    /// the trip's start on, nothing is logged before the trip, and a completed
    /// ride logged enough presence. A disputed ride may stand at any stage.
    pub open spec fn wf(self) -> bool {
        &&& (self.state is Searching || self.state is Offered) ==> self.driver is None
        &&& (self.state is Searching || self.state is Offered || self.state is Accepted) ==> {
            &&& self.start_time is None
            &&& self.log.len() == 0
        }
        &&& (self.state is Accepted || self.state is InProgress || self.state is Completed
            || self.state is Settled) ==> self.driver is Some
        &&& (self.state is InProgress || self.state is Completed || self.state is Settled)
            ==> self.start_time is Some
        &&& (self.state is Completed || self.state is Settled) ==> self.log.len()
            >= MIN_PRESENCE_TOKENS
    }

    /// A driver offers to serve the ride: `Searching` to `Offered`, while no
    /// driver is assigned.
    pub open spec fn offer(self) -> Result<RideView, RideError> {
        if self.driver is Some {
            Err(RideError::DriverAlreadyAssigned)
        } else if !(self.state is Searching) {
            Err(RideError::InvalidTransition { from: self.state, to: RideState::Offered })
        } else {
            Ok(self.with_state(RideState::Offered))
        }
    }

    /// The passenger accepts `driver`: `Offered` to `Accepted`, assigning the
    /// driver once and for all.
    pub open spec fn accept(self, driver: Seq<char>) -> Result<RideView, RideError> {
        if self.driver is Some {
            Err(RideError::DriverAlreadyAssigned)
        } else if !(self.state is Offered) {
            Err(RideError::InvalidTransition { from: self.state, to: RideState::Accepted })
        } else {
            Ok(RideView { driver: Some(driver), state: RideState::Accepted, ..self })
        }
    }

    /// The driver arrives at time `now`: `Accepted` to `InProgress`, recording
    /// the start time once and for all.
    pub open spec fn begin(self, now: i64) -> Result<RideView, RideError> {
        if self.start_time is Some {
            Err(RideError::StartTimeAlreadySet)
        } else if !(self.state is Accepted) {
            Err(RideError::InvalidTransition { from: self.state, to: RideState::InProgress })
        } else {
            Ok(RideView { start_time: Some(now), state: RideState::InProgress, ..self })
        }
    }

    /// A presence token is appended to the log, only while in progress.
    pub open spec fn add_token(self, token: Seq<char>) -> Result<RideView, RideError> {
        if !(self.state is InProgress) {
            Err(RideError::NotInProgress)
        } else {
            Ok(RideView { log: self.log.push(token), ..self })
        }
    }

    /// Arrival is confirmed: `InProgress` to `Completed`, once enough presence
    /// was logged.
    pub open spec fn complete(self) -> Result<RideView, RideError> {
        if !(self.state is InProgress) {
            Err(RideError::InvalidTransition { from: self.state, to: RideState::Completed })
        } else if self.log.len() < MIN_PRESENCE_TOKENS {
            Err(
                RideError::InsufficientPresence {
                    required: MIN_PRESENCE_TOKENS,
                    recorded: self.log.len() as usize,
                },
            )
        } else {
            Ok(self.with_state(RideState::Completed))
        }
    }

    /// The ledger answered `outcome`: `Completed` to `Settled` on success; on
    /// failure the ride stays completed and the failure is reported.
    pub open spec fn settlement(self, outcome: Result<String, String>) -> Result<
        RideView,
        RideError,
    > {
        if !(self.state is Completed) {
            Err(RideError::InvalidTransition { from: self.state, to: RideState::Settled })
        } else {
            match outcome {
                Ok(_) => Ok(self.with_state(RideState::Settled)),
                Err(reason) => Err(RideError::Port(reason)),
            }
        }
    }

    /// Arbitration is invoked: any state that is not terminal to `Disputed`.
    pub open spec fn dispute(self) -> Result<RideView, RideError> {
        if is_terminal(self.state) {
            Err(RideError::InvalidTransition { from: self.state, to: RideState::Disputed })
        } else {
            Ok(self.with_state(RideState::Disputed))
        }
    }

    /// The ride after `e`, or why `e` is rejected.
    pub open spec fn next(self, e: RideEvent) -> Result<RideView, RideError> {
        match e {
            RideEvent::DriverProposed => self.offer(),
            RideEvent::PassengerAccepted(d) => self.accept(d@),
            RideEvent::DriverArrived(now) => self.begin(now),
            RideEvent::PresenceToken(t) => self.add_token(t@),
            RideEvent::DestinationReached => self.complete(),
            RideEvent::SettlementOutcome(outcome) => self.settlement(outcome),
            RideEvent::DisputeRaised => self.dispute(),
        }
    }

    /// The ride after `e` if `e` is accepted, unchanged if it is rejected.
    pub open spec fn after(self, e: RideEvent) -> RideView {
        match self.next(e) {
            Ok(n) => n,
            Err(_) => self,
        }
    }
}

/// The ride after each of `events` in turn; rejected events change nothing.
pub open spec fn run(v: RideView, events: Seq<RideEvent>) -> RideView
    decreases events.len(),
{
    if events.len() == 0 {
        v
    } else {
        run(v.after(events[0]), events.drop_first())
    }
}

/// `r` reports transition `m` from `before` to `after`: success and the new
/// ride, or the error with the ride unchanged.
pub open spec fn reports<T>(
    before: RideView,
    after: RideView,
    r: Result<T, RideError>,
    m: Result<RideView, RideError>,
) -> bool {
    match m {
        Ok(n) => r is Ok && after == n,
        Err(e) => r == Err::<T, RideError>(e) && after == before,
    }
}

/// One ride's lifecycle. It is owned by a single process, which applies the
/// transitions one at a time.
#[derive(Clone, Debug)]
pub struct Ride {
    id: uuid::Uuid,
    passenger_did: Did,
    driver_did: Option<Did>,
    state: RideState,
    origin: Location,
    destination: Location,
    start_time: Option<i64>,
    proof_of_presence_log: Vec<String>,
}

/// The driver's identifier as text, if one is assigned.
pub open spec fn did_text(d: Option<Did>) -> Option<Seq<char>> {
    match d {
        Some(d) => Some(d@),
        None => None,
    }
}

impl View for Ride {
    type V = RideView;

    closed spec fn view(&self) -> RideView {
        RideView {
            id: self.id,
            passenger: self.passenger_did@,
            driver: did_text(self.driver_did),
            state: self.state,
            origin: self.origin,
            destination: self.destination,
            start_time: self.start_time,
            log: texts(self.proof_of_presence_log@),
        }
    }
}

impl Ride {
    /// A ride requested by `passenger` from `origin` to `dest`, with a fresh
    /// random identifier, searching for a driver.
    pub fn new(passenger: Did, origin: Location, dest: Location) -> (r: Ride)
        ensures
            r@ == requested(r@.id, passenger@, origin, dest),
            r@.wf(),
    {
        let id = fresh_ride_id();
        Ride::with_id(id, passenger, origin, dest)
    }

    /// A ride with identifier `id` requested by `passenger` from `origin` to
    /// `dest`, searching for a driver.
    pub fn with_id(id: uuid::Uuid, passenger: Did, origin: Location, dest: Location) -> (r: Ride)
        ensures
            r@ == requested(id, passenger@, origin, dest),
            r@.wf(),
    {
        let r = Ride {
            id,
            passenger_did: passenger,
            driver_did: None,
            state: RideState::Searching,
            origin,
            destination: dest,
            start_time: None,
            proof_of_presence_log: Vec::new(),
        };
        assert(r@.log =~= Seq::<Seq<char>>::empty());
        r
    }

    /// A ride rebuilt from parts kept or received elsewhere, or `None` when
    /// they describe a state that no ride reaches.
    pub fn restore(
        id: uuid::Uuid,
        passenger: Did,
        driver: Option<Did>,
        state: RideState,
        origin: Location,
        destination: Location,
        start_time: Option<i64>,
        log: Vec<String>,
    ) -> (r: Option<Ride>)
        ensures
            ({
                let v = RideView {
                    id,
                    passenger: passenger@,
                    driver: did_text(driver),
                    state,
                    origin,
                    destination,
                    start_time,
                    log: texts(log@),
                };
                &&& r is Some <==> v.wf()
                &&& r matches Some(ride) ==> ride@ == v
            }),
    {
        let n = log.len();
        let has_driver = driver.is_some();
        let has_start = start_time.is_some();
        let early = match state {
            RideState::Searching | RideState::Offered => true,
            _ => false,
        };
        let before_trip = match state {
            RideState::Searching | RideState::Offered | RideState::Accepted => true,
            _ => false,
        };
        let assigned = match state {
            RideState::Accepted | RideState::InProgress | RideState::Completed
            | RideState::Settled => true,
            _ => false,
        };
        let started = match state {
            RideState::InProgress | RideState::Completed | RideState::Settled => true,
            _ => false,
        };
        let finished = match state {
            RideState::Completed | RideState::Settled => true,
            _ => false,
        };
        if (early && has_driver) || (before_trip && (has_start || n > 0)) || (assigned
            && !has_driver) || (started && !has_start) || (finished && n < MIN_PRESENCE_TOKENS) {
            return None;
        }
        Some(
            Ride {
                id,
                passenger_did: passenger,
                driver_did: driver,
                state,
                origin,
                destination,
                start_time,
                proof_of_presence_log: log,
            },
        )
    }

    /// The ride's identifier.
    pub fn id(&self) -> (r: uuid::Uuid)
        ensures
            r == self@.id,
    {
        self.id
    }

    /// The passenger who requested the ride.
    pub fn passenger_did(&self) -> (r: &Did)
        ensures
            r@ == self@.passenger,
    {
        &self.passenger_did
    }

    /// The assigned driver, if any.
    pub fn driver_did(&self) -> (r: Option<&Did>)
        ensures
            self@.driver == match r {
                Some(d) => Some(d@),
                None => None::<Seq<char>>,
            },
    {
        match &self.driver_did {
            Some(d) => Some(d),
            None => None,
        }
    }

    /// Where the ride stands.
    pub fn state(&self) -> (r: RideState)
        ensures
            r == self@.state,
    {
        self.state
    }

    /// Where the ride starts.
    pub fn origin(&self) -> (r: Location)
        ensures
            r == self@.origin,
    {
        self.origin
    }

    /// Where the ride ends.
    pub fn destination(&self) -> (r: Location)
        ensures
            r == self@.destination,
    {
        self.destination
    }

    /// When the trip began, in Unix seconds, if it has.
    pub fn start_time(&self) -> (r: Option<i64>)
        ensures
            r == self@.start_time,
    {
        self.start_time
    }

    /// The presence tokens exchanged so far, oldest first.
    pub fn proof_of_presence_log(&self) -> (r: &Vec<String>)
        ensures
            texts(r@) == self@.log,
    {
        &self.proof_of_presence_log
    }

    /// A driver offers to serve the ride: `Searching` to `Offered`. Rejected
    /// when a driver is already assigned or the ride is not searching.
    pub fn offer(&mut self) -> (r: Result<(), RideError>)
        ensures
            reports(old(self)@, final(self)@, r, old(self)@.offer()),
    {
        if self.driver_did.is_some() {
            return Err(RideError::DriverAlreadyAssigned);
        }
        match self.state {
            RideState::Searching => {
                self.state = RideState::Offered;
                Ok(())
            },
            from => Err(RideError::InvalidTransition { from, to: RideState::Offered }),
        }
    }

    /// The passenger accepts `driver`: `Offered` to `Accepted`, and the driver
    /// is assigned. Rejected when a driver is already assigned (whatever the
    /// state) or the ride has no offer pending.
    pub fn accept(&mut self, driver: Did) -> (r: Result<(), RideError>)
        ensures
            reports(old(self)@, final(self)@, r, old(self)@.accept(driver@)),
    {
        if self.driver_did.is_some() {
            return Err(RideError::DriverAlreadyAssigned);
        }
        match self.state {
            RideState::Offered => {
                self.driver_did = Some(driver);
                self.state = RideState::Accepted;
                Ok(())
            },
            from => Err(RideError::InvalidTransition { from, to: RideState::Accepted }),
        }
    }

    /// The driver arrives and the trip begins at `now` (Unix seconds):
    /// `Accepted` to `InProgress`, and the start time is recorded. Rejected
    /// when a start time is already recorded or the ride is not accepted.
    pub fn begin_trip_at(&mut self, now: i64) -> (r: Result<(), RideError>)
        ensures
            reports(old(self)@, final(self)@, r, old(self)@.begin(now)),
    {
        if self.start_time.is_some() {
            return Err(RideError::StartTimeAlreadySet);
        }
        match self.state {
            RideState::Accepted => {
                self.start_time = Some(now);
                self.state = RideState::InProgress;
                Ok(())
            },
            from => Err(RideError::InvalidTransition { from, to: RideState::InProgress }),
        }
    }

    /// As `begin_trip_at`, at the current time of the system clock.
    pub fn begin_trip(&mut self) -> (r: Result<(), RideError>)
        ensures
            exists|now: i64| reports(old(self)@, final(self)@, r, #[trigger] old(self)@.begin(now)),
    {
        let now = unix_now();
        let r = self.begin_trip_at(now);
        assert(reports(old(self)@, self@, r, old(self)@.begin(now)));
        r
    }

    /// Append `token`, exchanged between passenger and driver, to the
    /// proof-of-presence log. Rejected unless the trip is in progress.
    pub fn add_presence_token(&mut self, token: String) -> (r: Result<(), RideError>)
        ensures
            reports(old(self)@, final(self)@, r, old(self)@.add_token(token@)),
    {
        match self.state {
            RideState::InProgress => {
                let ghost t = token@;
                self.proof_of_presence_log.push(token);
                assert(self@.log =~= old(self)@.log.push(t));
                Ok(())
            },
            _ => Err(RideError::NotInProgress),
        }
    }

    /// Arrival at the destination is confirmed: `InProgress` to `Completed`.
    /// Rejected when the trip is not in progress, or when fewer than
    /// `MIN_PRESENCE_TOKENS` tokens were logged.
    pub fn complete(&mut self) -> (r: Result<(), RideError>)
        ensures
            reports(old(self)@, final(self)@, r, old(self)@.complete()),
    {
        match self.state {
            RideState::InProgress => {
                let recorded = self.proof_of_presence_log.len();
                if recorded < MIN_PRESENCE_TOKENS {
                    Err(RideError::InsufficientPresence { required: MIN_PRESENCE_TOKENS, recorded })
                } else {
                    self.state = RideState::Completed;
                    Ok(())
                }
            },
            from => Err(RideError::InvalidTransition { from, to: RideState::Completed }),
        }
    }

    /// Record the ledger's answer to a settlement request: on `Ok(tx)` the
    /// ride goes from `Completed` to `Settled` and `tx` is returned; on
    /// `Err(reason)` the ride stays completed and `RideError::Port(reason)`
    /// is returned. Rejected, without looking at `outcome`, unless the ride
    /// is completed.
    pub fn record_settlement(&mut self, outcome: Result<String, String>) -> (r: Result<
        String,
        RideError,
    >)
        ensures
            reports(old(self)@, final(self)@, r, old(self)@.settlement(outcome)),
            r is Ok ==> outcome == Ok::<String, String>(r->Ok_0),
    {
        match self.state {
            RideState::Completed => {
                match outcome {
                    Ok(tx) => {
                        self.state = RideState::Settled;
                        Ok(tx)
                    },
                    Err(reason) => Err(RideError::Port(reason)),
                }
            },
            from => Err(RideError::InvalidTransition { from, to: RideState::Settled }),
        }
    }

    /// Ask `layer` to release the payment of this completed ride, with the
    /// passenger's and the driver's signatures, and record its answer as
    /// `record_settlement` does. Rejected without asking the ledger when the
    /// ride is not completed or a signature is empty.
    pub fn settle<C: ConsensusLayer>(&mut self, layer: &C, signatures: (String, String)) -> (r:
        Result<String, RideError>)
        ensures
            !(old(self)@.state is Completed) ==> r == Err::<String, RideError>(
                RideError::InvalidTransition { from: old(self)@.state, to: RideState::Settled },
            ),
            old(self)@.state is Completed && (signatures.0@.len() == 0 || signatures.1@.len()
                == 0) ==> r == Err::<String, RideError>(RideError::MissingSignature),
            old(self)@.state is Completed && signatures.0@.len() > 0 && signatures.1@.len() > 0
                ==> exists|outcome: Result<String, String>|
                reports(old(self)@, final(self)@, r, #[trigger] old(self)@.settlement(outcome)),
            r is Ok ==> final(self)@ == old(self)@.with_state(RideState::Settled),
            r is Err ==> final(self)@ == old(self)@,
    {
        match self.state {
            RideState::Completed => {},
            from => {
                return Err(RideError::InvalidTransition { from, to: RideState::Settled });
            },
        }
        if signatures.0.as_str().is_empty() || signatures.1.as_str().is_empty() {
            return Err(RideError::MissingSignature);
        }
        let outcome = layer.settle_ride(self.id, signatures);
        let ghost seen = outcome;
        let r = self.record_settlement(outcome);
        assert(reports(old(self)@, self@, r, old(self)@.settlement(seen)));
        r
    }

    /// Ask `layer` to escrow `amount` for this ride, and return the ledger's
    /// transaction hash, or its failure as `RideError::Port`. The ride itself
    /// is left as it is. Rejected without asking the ledger when the ride is
    /// settled or disputed.
    pub fn lock_funds<C: ConsensusLayer>(&self, layer: &C, amount: u64) -> (r: Result<
        String,
        RideError,
    >)
        ensures
            is_terminal(self@.state) ==> r == Err::<String, RideError>(RideError::RideClosed),
            !is_terminal(self@.state) ==> (r is Ok || r matches Err(RideError::Port(_))),
    {
        if self.state.is_terminal() {
            return Err(RideError::RideClosed);
        }
        match layer.lock_funds(self.id, amount) {
            Ok(tx) => Ok(tx),
            Err(reason) => Err(RideError::Port(reason)),
        }
    }

    /// Arbitration is invoked: any state that is not terminal to `Disputed`.
    /// Rejected when the ride is already settled or disputed.
    pub fn dispute(&mut self) -> (r: Result<(), RideError>)
        ensures
            reports(old(self)@, final(self)@, r, old(self)@.dispute()),
    {
        if self.state.is_terminal() {
            return Err(RideError::InvalidTransition { from: self.state, to: RideState::Disputed });
        }
        self.state = RideState::Disputed;
        Ok(())
    }

    /// Apply `event` to the ride; see the operation each event stands for.
    pub fn handle(&mut self, event: RideEvent) -> (r: Result<(), RideError>)
        ensures
            reports(old(self)@, final(self)@, r, old(self)@.next(event)),
    {
        match event {
            RideEvent::DriverProposed => self.offer(),
            RideEvent::PassengerAccepted(d) => self.accept(d),
            RideEvent::DriverArrived(now) => self.begin_trip_at(now),
            RideEvent::PresenceToken(t) => self.add_presence_token(t),
            RideEvent::DestinationReached => self.complete(),
            RideEvent::SettlementOutcome(outcome) => match self.record_settlement(outcome) {
                Ok(_) => Ok(()),
                Err(e) => Err(e),
            },
            RideEvent::DisputeRaised => self.dispute(),
        }
    }
}

} // verus!
