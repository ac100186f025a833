use std::cell::Cell;

use uuid::Uuid;
use zubi_core::{
    ConsensusLayer, Did, Location, Ride, RideError, RideEvent, RideState, MIN_PRESENCE_TOKENS,
};

/// A settlement ledger double that answers each call as configured and counts
/// the calls it gets.
struct Ledger {
    lock: Result<String, String>,
    settle: Result<String, String>,
    calls: Cell<u32>,
}

impl Ledger {
    fn new(lock: Result<String, String>, settle: Result<String, String>) -> Ledger {
        Ledger { lock, settle, calls: Cell::new(0) }
    }
}

impl ConsensusLayer for Ledger {
    fn lock_funds(&self, _ride_id: Uuid, _amount: u64) -> Result<String, String> {
        self.calls.set(self.calls.get() + 1);
        self.lock.clone()
    }

    fn settle_ride(&self, _ride_id: Uuid, _signatures: (String, String)) -> Result<String, String> {
        self.calls.set(self.calls.get() + 1);
        self.settle.clone()
    }
}

fn sao_paulo_ride() -> Ride {
    Ride::new(
        Did("did:zubi:passenger:1".to_string()),
        Location::new(-23_550_000, -46_630_000),
        Location::new(-23_580_000, -46_650_000),
    )
}

fn driver() -> Did {
    Did("did:zubi:driver:12345".to_string())
}

fn in_progress_ride() -> Ride {
    let mut ride = sao_paulo_ride();
    ride.offer().unwrap();
    ride.accept(driver()).unwrap();
    ride.begin_trip_at(1_700_000_000).unwrap();
    ride
}

fn completed_ride() -> Ride {
    let mut ride = in_progress_ride();
    for i in 0..3 {
        ride.add_presence_token(format!("PRESENCE_TOKEN_{}", i)).unwrap();
    }
    ride.complete().unwrap();
    ride
}

fn sigs() -> (String, String) {
    ("sig:passenger".to_string(), "sig:driver".to_string())
}

#[test]
fn new_ride_is_searching() {
    let ride = sao_paulo_ride();
    assert_eq!(ride.state(), RideState::Searching);
    assert_eq!(ride.passenger_did(), &Did("did:zubi:passenger:1".to_string()));
    assert_eq!(ride.driver_did(), None);
    assert_eq!(ride.origin(), Location::new(-23_550_000, -46_630_000));
    assert_eq!(ride.destination(), Location::new(-23_580_000, -46_650_000));
    assert_eq!(ride.start_time(), None);
    assert!(ride.proof_of_presence_log().is_empty());
}

#[test]
fn with_id_keeps_the_given_id() {
    let id = Uuid::from_u128(42);
    let ride = Ride::with_id(id, driver(), Location::new(0, 0), Location::new(1, 1));
    assert_eq!(ride.id(), id);
}

#[test]
fn new_rides_get_distinct_ids() {
    assert_ne!(sao_paulo_ride().id(), sao_paulo_ride().id());
}

#[test]
fn clone_keeps_the_id() {
    let ride = sao_paulo_ride();
    let copy = ride.clone();
    assert_eq!(copy.id(), ride.id());
    assert_eq!(copy.state(), ride.state());
}

#[test]
fn full_lifecycle_reaches_settled() {
    let mut ride = sao_paulo_ride();
    assert_eq!(ride.offer(), Ok(()));
    assert_eq!(ride.state(), RideState::Offered);
    assert_eq!(ride.accept(driver()), Ok(()));
    assert_eq!(ride.state(), RideState::Accepted);
    assert_eq!(ride.driver_did(), Some(&driver()));
    assert_eq!(ride.begin_trip_at(1_700_000_000), Ok(()));
    assert_eq!(ride.state(), RideState::InProgress);
    assert_eq!(ride.start_time(), Some(1_700_000_000));
    for i in 0..3 {
        assert_eq!(ride.add_presence_token(format!("PRESENCE_TOKEN_{}", i)), Ok(()));
    }
    assert_eq!(ride.proof_of_presence_log().len(), 3);
    assert_eq!(ride.complete(), Ok(()));
    assert_eq!(ride.state(), RideState::Completed);
    let ledger = Ledger::new(Ok("0xlock".to_string()), Ok("0xsettle".to_string()));
    assert_eq!(ride.settle(&ledger, sigs()), Ok("0xsettle".to_string()));
    assert_eq!(ride.state(), RideState::Settled);

    assert!(ride.offer().is_err());
    assert!(ride.accept(driver()).is_err());
    assert!(ride.begin_trip_at(1).is_err());
    assert!(ride.add_presence_token("late".to_string()).is_err());
    assert!(ride.complete().is_err());
    assert!(ride.dispute().is_err());
    assert!(ride.settle(&ledger, sigs()).is_err());
    assert_eq!(ride.state(), RideState::Settled);
    assert_eq!(ride.proof_of_presence_log().len(), 3);
}

#[test]
fn failed_lock_leaves_ride_before_settlement() {
    let ride = completed_ride();
    let ledger = Ledger::new(Err("insufficient funds".to_string()), Ok("0xsettle".to_string()));
    assert_eq!(
        ride.lock_funds(&ledger, 2_500),
        Err(RideError::Port("insufficient funds".to_string()))
    );
    assert_eq!(ride.state(), RideState::Completed);
    assert_eq!(ride.proof_of_presence_log().len(), 3);
}

#[test]
fn successful_lock_returns_the_hash() {
    let ride = in_progress_ride();
    let ledger = Ledger::new(Ok("0xlock".to_string()), Ok("0xsettle".to_string()));
    assert_eq!(ride.lock_funds(&ledger, 2_500), Ok("0xlock".to_string()));
    assert_eq!(ride.state(), RideState::InProgress);
}

#[test]
fn lock_on_settled_ride_is_refused_without_asking() {
    let mut ride = completed_ride();
    let ledger = Ledger::new(Ok("0xlock".to_string()), Ok("0xsettle".to_string()));
    ride.settle(&ledger, sigs()).unwrap();
    let calls = ledger.calls.get();
    assert_eq!(ride.lock_funds(&ledger, 1), Err(RideError::RideClosed));
    assert_eq!(ledger.calls.get(), calls);
}

#[test]
fn failed_settlement_keeps_ride_completed() {
    let mut ride = completed_ride();
    let ledger = Ledger::new(Ok("0xlock".to_string()), Err("timeout".to_string()));
    assert_eq!(ride.settle(&ledger, sigs()), Err(RideError::Port("timeout".to_string())));
    assert_eq!(ride.state(), RideState::Completed);
    let retry = Ledger::new(Ok("0xlock".to_string()), Ok("0xabc".to_string()));
    assert_eq!(ride.settle(&retry, sigs()), Ok("0xabc".to_string()));
    assert_eq!(ride.state(), RideState::Settled);
}

#[test]
fn settlement_needs_both_signatures() {
    let mut ride = completed_ride();
    let ledger = Ledger::new(Ok("0xlock".to_string()), Ok("0xsettle".to_string()));
    assert_eq!(
        ride.settle(&ledger, (String::new(), "sig:driver".to_string())),
        Err(RideError::MissingSignature)
    );
    assert_eq!(
        ride.settle(&ledger, ("sig:passenger".to_string(), String::new())),
        Err(RideError::MissingSignature)
    );
    assert_eq!(ledger.calls.get(), 0);
    assert_eq!(ride.state(), RideState::Completed);
}

#[test]
fn settle_before_completion_is_refused_without_asking() {
    let mut ride = in_progress_ride();
    let ledger = Ledger::new(Ok("0xlock".to_string()), Ok("0xsettle".to_string()));
    assert_eq!(
        ride.settle(&ledger, sigs()),
        Err(RideError::InvalidTransition { from: RideState::InProgress, to: RideState::Settled })
    );
    assert_eq!(ledger.calls.get(), 0);
    assert_eq!(ride.state(), RideState::InProgress);
}

#[test]
fn second_driver_assignment_conflicts() {
    let mut ride = sao_paulo_ride();
    ride.offer().unwrap();
    let first = ride.accept(Did("did:zubi:driver:A".to_string()));
    let second = ride.accept(Did("did:zubi:driver:B".to_string()));
    assert_eq!(first, Ok(()));
    assert_eq!(second, Err(RideError::DriverAlreadyAssigned));
    assert_eq!(ride.driver_did(), Some(&Did("did:zubi:driver:A".to_string())));
    assert_eq!(ride.state(), RideState::Accepted);
}

#[test]
fn second_start_time_conflicts() {
    let mut ride = in_progress_ride();
    assert_eq!(ride.begin_trip_at(1_800_000_000), Err(RideError::StartTimeAlreadySet));
    assert_eq!(ride.start_time(), Some(1_700_000_000));
    assert_eq!(ride.state(), RideState::InProgress);
}

#[test]
fn begin_trip_reads_the_clock() {
    let mut ride = sao_paulo_ride();
    ride.offer().unwrap();
    ride.accept(driver()).unwrap();
    assert_eq!(ride.begin_trip(), Ok(()));
    assert_eq!(ride.state(), RideState::InProgress);
    assert!(ride.start_time().unwrap() > 1_600_000_000);
}

#[test]
fn accept_without_offer_is_invalid() {
    let mut ride = sao_paulo_ride();
    assert_eq!(
        ride.accept(driver()),
        Err(RideError::InvalidTransition { from: RideState::Searching, to: RideState::Accepted })
    );
    assert_eq!(ride.state(), RideState::Searching);
    assert_eq!(ride.driver_did(), None);
}

#[test]
fn offer_twice_is_invalid() {
    let mut ride = sao_paulo_ride();
    ride.offer().unwrap();
    assert_eq!(
        ride.offer(),
        Err(RideError::InvalidTransition { from: RideState::Offered, to: RideState::Offered })
    );
}

#[test]
fn offer_after_acceptance_conflicts() {
    let mut ride = sao_paulo_ride();
    ride.offer().unwrap();
    ride.accept(driver()).unwrap();
    assert_eq!(ride.offer(), Err(RideError::DriverAlreadyAssigned));
    assert_eq!(ride.state(), RideState::Accepted);
}

#[test]
fn begin_before_acceptance_is_invalid() {
    let mut ride = sao_paulo_ride();
    ride.offer().unwrap();
    assert_eq!(
        ride.begin_trip_at(5),
        Err(RideError::InvalidTransition { from: RideState::Offered, to: RideState::InProgress })
    );
    assert_eq!(ride.start_time(), None);
}

#[test]
fn token_outside_trip_is_rejected() {
    let mut ride = sao_paulo_ride();
    assert_eq!(ride.add_presence_token("t".to_string()), Err(RideError::NotInProgress));
    assert!(ride.proof_of_presence_log().is_empty());
    let mut done = completed_ride();
    assert_eq!(done.add_presence_token("t".to_string()), Err(RideError::NotInProgress));
    assert_eq!(done.proof_of_presence_log().len(), 3);
}

#[test]
fn tokens_are_logged_in_order() {
    let mut ride = in_progress_ride();
    ride.add_presence_token("a".to_string()).unwrap();
    ride.add_presence_token("b".to_string()).unwrap();
    assert_eq!(ride.proof_of_presence_log(), &vec!["a".to_string(), "b".to_string()]);
}

#[test]
fn completion_needs_presence() {
    let mut ride = in_progress_ride();
    assert_eq!(
        ride.complete(),
        Err(RideError::InsufficientPresence { required: MIN_PRESENCE_TOKENS, recorded: 0 })
    );
    assert_eq!(ride.state(), RideState::InProgress);
    ride.add_presence_token("only".to_string()).unwrap();
    assert_eq!(MIN_PRESENCE_TOKENS, 1);
    assert_eq!(ride.complete(), Ok(()));
    assert_eq!(ride.state(), RideState::Completed);
}

#[test]
fn complete_before_trip_is_invalid() {
    let mut ride = sao_paulo_ride();
    assert_eq!(
        ride.complete(),
        Err(RideError::InvalidTransition { from: RideState::Searching, to: RideState::Completed })
    );
}

#[test]
fn dispute_from_any_open_state() {
    let mut searching = sao_paulo_ride();
    assert_eq!(searching.dispute(), Ok(()));
    assert_eq!(searching.state(), RideState::Disputed);
    let mut running = in_progress_ride();
    assert_eq!(running.dispute(), Ok(()));
    assert_eq!(running.state(), RideState::Disputed);
    assert!(running.start_time().is_some());
    let mut completed = completed_ride();
    assert_eq!(completed.dispute(), Ok(()));
}

#[test]
fn disputed_ride_is_terminal() {
    let mut ride = sao_paulo_ride();
    ride.dispute().unwrap();
    assert_eq!(
        ride.dispute(),
        Err(RideError::InvalidTransition { from: RideState::Disputed, to: RideState::Disputed })
    );
    assert_eq!(
        ride.offer(),
        Err(RideError::InvalidTransition { from: RideState::Disputed, to: RideState::Offered })
    );
    assert!(ride.state().is_terminal());
    assert!(!RideState::Completed.is_terminal());
}

#[test]
fn events_drive_the_lifecycle() {
    let mut ride = sao_paulo_ride();
    assert_eq!(ride.handle(RideEvent::DriverProposed), Ok(()));
    assert_eq!(ride.handle(RideEvent::PassengerAccepted(driver())), Ok(()));
    assert_eq!(ride.handle(RideEvent::DriverArrived(10)), Ok(()));
    assert_eq!(ride.handle(RideEvent::PresenceToken("p".to_string())), Ok(()));
    assert_eq!(ride.handle(RideEvent::DestinationReached), Ok(()));
    assert_eq!(
        ride.handle(RideEvent::SettlementOutcome(Err("rejected".to_string()))),
        Err(RideError::Port("rejected".to_string()))
    );
    assert_eq!(ride.state(), RideState::Completed);
    assert_eq!(ride.handle(RideEvent::SettlementOutcome(Ok("0x1".to_string()))), Ok(()));
    assert_eq!(ride.state(), RideState::Settled);
    assert!(ride.handle(RideEvent::DisputeRaised).is_err());
}

#[test]
fn record_settlement_returns_the_hash() {
    let mut ride = completed_ride();
    assert_eq!(ride.record_settlement(Ok("0xfeed".to_string())), Ok("0xfeed".to_string()));
    assert_eq!(ride.state(), RideState::Settled);
}

#[test]
fn restore_accepts_a_consistent_ride() {
    let id = Uuid::from_u128(7);
    let ride = Ride::restore(
        id,
        Did("did:zubi:passenger:1".to_string()),
        Some(driver()),
        RideState::InProgress,
        Location::new(1, 2),
        Location::new(3, 4),
        Some(99),
        vec!["t".to_string()],
    )
    .unwrap();
    assert_eq!(ride.id(), id);
    assert_eq!(ride.state(), RideState::InProgress);
    assert_eq!(ride.start_time(), Some(99));
    assert_eq!(ride.proof_of_presence_log(), &vec!["t".to_string()]);
}

#[test]
fn restore_refuses_an_inconsistent_ride() {
    let parts = |driver_did: Option<Did>, state: RideState, start: Option<i64>, log: Vec<String>| {
        Ride::restore(
            Uuid::from_u128(7),
            Did("p".to_string()),
            driver_did,
            state,
            Location::new(0, 0),
            Location::new(0, 0),
            start,
            log,
        )
    };
    assert!(parts(Some(driver()), RideState::Searching, None, vec![]).is_none());
    assert!(parts(None, RideState::Accepted, None, vec![]).is_none());
    assert!(parts(Some(driver()), RideState::Accepted, Some(1), vec![]).is_none());
    assert!(parts(Some(driver()), RideState::InProgress, None, vec![]).is_none());
    assert!(parts(Some(driver()), RideState::Completed, Some(1), vec![]).is_none());
    assert!(parts(None, RideState::Offered, None, vec!["t".to_string()]).is_none());
    assert!(parts(None, RideState::Disputed, Some(1), vec!["t".to_string()]).is_some());
    assert!(parts(None, RideState::Searching, None, vec![]).is_some());
}
