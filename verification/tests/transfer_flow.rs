use winefi::errors::TransferError;
use winefi::orchestrator::{RemoteFaults, Transfer};
use winefi::principal::Principal;
use winefi::registry::BottleFactory;
use winefi::traceability::{EventType, TraceabilityLog};

fn minted_setup() -> (Transfer, BottleFactory, TraceabilityLog, String, Principal) {
    let admin = Principal(1);
    let producer = Principal(2);
    let mut factory = BottleFactory::new();
    factory.init(admin, 0).unwrap();
    let (bottle_id, _) = factory
        .mint_bottle(
            String::from("LOT1"),
            1,
            producer,
            String::from("Malbec"),
            2024,
            String::from("uri"),
            admin,
            0,
        )
        .unwrap();
    let mut orchestrator = Transfer::new();
    orchestrator.init(Principal(100), Principal(101), 0).unwrap();
    (orchestrator, factory, TraceabilityLog::new(), bottle_id, producer)
}

#[test]
fn test_test_init() {
    let mut orchestrator = Transfer::new();
    let bottle_factory = Principal(100);
    let traceability_log = Principal(101);

    orchestrator.init(bottle_factory, traceability_log, 0).unwrap();

    assert_eq!(orchestrator.bottle_factory(0).unwrap(), bottle_factory);
    assert_eq!(orchestrator.traceability_log(0).unwrap(), traceability_log);
}

#[test]
fn transfer_init_twice_is_refused() {
    let mut orchestrator = Transfer::new();
    orchestrator.init(Principal(100), Principal(101), 0).unwrap();
    let r = orchestrator.init(Principal(102), Principal(103), 0);
    assert_eq!(r.unwrap_err(), TransferError::AlreadyInitialized);
}

#[test]
fn transfer_before_init_is_refused() {
    let mut orchestrator = Transfer::new();
    let mut factory = BottleFactory::new();
    let mut log = TraceabilityLog::new();
    let r = orchestrator.transfer(
        &mut factory,
        &mut log,
        &String::from("LOT1-0001"),
        Principal(3),
        Principal(2),
        RemoteFaults::none(),
        0,
    );
    assert_eq!(r.unwrap_err(), TransferError::NotInitialized);
}

#[test]
fn end_to_end_mint_transfer_history() {
    let (mut orchestrator, mut factory, mut log, bottle_id, producer) = minted_setup();
    let buyer = Principal(3);

    assert_eq!(bottle_id, "LOT1-0001");

    let completed = orchestrator
        .transfer(
            &mut factory,
            &mut log,
            &bottle_id,
            buyer,
            producer,
            RemoteFaults::none(),
            0,
        )
        .unwrap();
    assert_eq!(completed.bottle_id, bottle_id);
    assert_eq!(completed.from, producer);
    assert_eq!(completed.to, buyer);

    let owner = orchestrator.get_owner(&mut factory, &bottle_id, 0).unwrap();
    assert_eq!(owner, buyer);

    let history = log.get_history(&bottle_id, 0);
    assert_eq!(history.len(), 1);
    assert_eq!(history[0].event_type, EventType::Shipped);
    assert_eq!(history[0].actor, producer);
    assert_eq!(history[0].description, "Transferred ownership");
}

#[test]
fn transfer_by_non_owner_is_refused() {
    let (mut orchestrator, mut factory, mut log, bottle_id, producer) = minted_setup();
    let stranger = Principal(9);

    let r = orchestrator.transfer(
        &mut factory,
        &mut log,
        &bottle_id,
        Principal(3),
        stranger,
        RemoteFaults::none(),
        0,
    );
    assert_eq!(r.unwrap_err(), TransferError::Unauthorized);
    // Zero custody mutation, no history entry.
    assert_eq!(factory.get_bottle(&bottle_id, 0).unwrap().current_owner, producer);
    assert!(log.get_history(&bottle_id, 0).is_empty());
}

#[test]
fn transfer_of_unknown_bottle_is_not_found() {
    let (mut orchestrator, mut factory, mut log, _bottle_id, producer) = minted_setup();
    let r = orchestrator.transfer(
        &mut factory,
        &mut log,
        &String::from("LOT9-0001"),
        Principal(3),
        producer,
        RemoteFaults::none(),
        0,
    );
    assert_eq!(r.unwrap_err(), TransferError::BottleNotFound);
}

#[test]
fn registry_fault_reports_factory_call_failed() {
    let (mut orchestrator, mut factory, mut log, bottle_id, producer) = minted_setup();
    let faults = RemoteFaults { factory_get: true, factory_update: false, log_append: false };
    let r = orchestrator.transfer(
        &mut factory,
        &mut log,
        &bottle_id,
        Principal(3),
        producer,
        faults,
        0,
    );
    assert_eq!(r.unwrap_err(), TransferError::FactoryCallFailed);
    assert_eq!(factory.get_bottle(&bottle_id, 0).unwrap().current_owner, producer);
    assert!(log.get_history(&bottle_id, 0).is_empty());

    let faults = RemoteFaults { factory_get: false, factory_update: true, log_append: false };
    let r = orchestrator.transfer(
        &mut factory,
        &mut log,
        &bottle_id,
        Principal(3),
        producer,
        faults,
        0,
    );
    assert_eq!(r.unwrap_err(), TransferError::FactoryCallFailed);
    assert_eq!(factory.get_bottle(&bottle_id, 0).unwrap().current_owner, producer);
    assert!(log.get_history(&bottle_id, 0).is_empty());
}

#[test]
fn log_fault_leaves_custody_committed() {
    // The documented inconsistency window: the registry shows the
    // new owner, the history entry is missing, and the caller learns
    // which half failed.
    let (mut orchestrator, mut factory, mut log, bottle_id, producer) = minted_setup();
    let buyer = Principal(3);
    let faults = RemoteFaults { factory_get: false, factory_update: false, log_append: true };

    let r = orchestrator.transfer(
        &mut factory,
        &mut log,
        &bottle_id,
        buyer,
        producer,
        faults,
        0,
    );
    assert_eq!(r.unwrap_err(), TransferError::LogCallFailed);
    assert_eq!(factory.get_bottle(&bottle_id, 0).unwrap().current_owner, buyer);
    assert!(log.get_history(&bottle_id, 0).is_empty());
}

#[test]
fn reconcile_repairs_missing_history_entry() {
    let (mut orchestrator, mut factory, mut log, bottle_id, producer) = minted_setup();
    let buyer = Principal(3);
    let faults = RemoteFaults { factory_get: false, factory_update: false, log_append: true };
    let r = orchestrator.transfer(
        &mut factory,
        &mut log,
        &bottle_id,
        buyer,
        producer,
        faults,
        0,
    );
    assert_eq!(r.unwrap_err(), TransferError::LogCallFailed);

    orchestrator.reconcile_shipped(&mut log, &bottle_id, producer, producer, 1).unwrap();

    let history = log.get_history(&bottle_id, 1);
    assert_eq!(history.len(), 1);
    assert_eq!(history[0].event_type, EventType::Shipped);
    assert_eq!(history[0].actor, producer);
    assert_eq!(history[0].description, "Transferred ownership");
}

#[test]
fn reconcile_needs_prior_owner_authorization() {
    let (mut orchestrator, _factory, mut log, bottle_id, producer) = minted_setup();
    let r = orchestrator.reconcile_shipped(&mut log, &bottle_id, producer, Principal(9), 0);
    assert_eq!(r.unwrap_err(), TransferError::Unauthorized);
    assert!(log.get_history(&bottle_id, 0).is_empty());
}

#[test]
fn get_owner_before_init_is_refused() {
    let mut orchestrator = Transfer::new();
    let mut factory = BottleFactory::new();
    let r = orchestrator.get_owner(&mut factory, &String::from("LOT1-0001"), 0);
    assert_eq!(r.unwrap_err(), TransferError::NotInitialized);
}
