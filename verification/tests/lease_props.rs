use winefi::errors::BottleFactoryError;
use winefi::lease::{CONFIG_RENEWAL, RECORD_RENEWAL, RECORD_THRESHOLD};
use winefi::principal::Principal;
use winefi::registry::BottleFactory;
use winefi::traceability::{EventType, TraceabilityLog};

fn factory_with_bottle() -> (BottleFactory, String) {
    let admin = Principal(1);
    let mut factory = BottleFactory::new();
    factory.init(admin, 0).unwrap();
    let (bottle_id, _) = factory
        .mint_bottle(
            String::from("LOT1"),
            1,
            Principal(2),
            String::from("Malbec"),
            2024,
            String::from("uri"),
            admin,
            0,
        )
        .unwrap();
    (factory, bottle_id)
}

#[test]
fn read_inside_renewal_window_keeps_record_alive() {
    let (mut factory, bottle_id) = factory_with_bottle();
    // Advance past the renewal threshold with no access: the record
    // is still present, and the read renews its lease.
    let t1 = RECORD_RENEWAL - RECORD_THRESHOLD / 2;
    assert!(factory.get_bottle(&bottle_id, t1).is_ok());

    // Without that renewal the record would have lapsed by now; the
    // renewed lease keeps it readable past its original expiry.
    let t2 = RECORD_RENEWAL + 1;
    assert!(factory.get_bottle(&bottle_id, t2).is_ok());
}

#[test]
fn record_with_lapsed_lease_behaves_as_absent() {
    let (mut factory, bottle_id) = factory_with_bottle();
    // Zero access until the full expiry: not found.
    let r = factory.get_bottle(&bottle_id, RECORD_RENEWAL);
    assert_eq!(r.unwrap_err(), BottleFactoryError::BottleNotFound);
}

#[test]
fn lapsed_identifier_can_be_minted_again() {
    let (mut factory, bottle_id) = factory_with_bottle();
    let t = RECORD_RENEWAL;
    // The admin lease has lapsed too by then; re-initialize first.
    factory.init(Principal(1), t).unwrap();
    let (bottle_id2, _) = factory
        .mint_bottle(
            String::from("LOT1"),
            1,
            Principal(7),
            String::from("Malbec"),
            2024,
            String::from("uri"),
            Principal(1),
            t,
        )
        .unwrap();
    assert_eq!(bottle_id2, bottle_id);
    assert_eq!(factory.get_bottle(&bottle_id, t).unwrap().current_owner, Principal(7));
}

#[test]
fn configuration_lease_governs_the_admin_entry() {
    let mut factory = BottleFactory::new();
    factory.init(Principal(1), 0).unwrap();
    // Lapsed configuration entry: the registry reports uninitialized
    // and accepts a fresh initialization.
    assert_eq!(
        factory.admin(CONFIG_RENEWAL).unwrap_err(),
        BottleFactoryError::NotInitialized
    );
    factory.init(Principal(2), CONFIG_RENEWAL).unwrap();
    assert_eq!(factory.admin(CONFIG_RENEWAL).unwrap(), Principal(2));
}

#[test]
fn history_lease_lapses_and_restarts() {
    let mut log = TraceabilityLog::new();
    let actor = Principal(5);
    let bottle_id = String::from("LOT1-0001");
    log.log_event(
        bottle_id.clone(),
        EventType::Bottling,
        actor,
        String::from("first"),
        actor,
        0,
    )
    .unwrap();

    // Lapsed without access: the history is gone.
    assert!(log.get_history(&bottle_id, RECORD_RENEWAL).is_empty());

    // A later append starts a fresh history.
    log.log_event(
        bottle_id.clone(),
        EventType::Scanned,
        actor,
        String::from("second"),
        actor,
        RECORD_RENEWAL,
    )
    .unwrap();
    let history = log.get_history(&bottle_id, RECORD_RENEWAL);
    assert_eq!(history.len(), 1);
    assert_eq!(history[0].description, "second");
}

#[test]
fn read_renews_history_lease() {
    let mut log = TraceabilityLog::new();
    let actor = Principal(5);
    let bottle_id = String::from("LOT1-0001");
    log.log_event(
        bottle_id.clone(),
        EventType::Bottling,
        actor,
        String::from("first"),
        actor,
        0,
    )
    .unwrap();
    // A read inside the renewal window keeps the history alive past
    // its original expiry.
    let t1 = RECORD_RENEWAL - RECORD_THRESHOLD / 2;
    assert_eq!(log.get_history(&bottle_id, t1).len(), 1);
    assert_eq!(log.get_history(&bottle_id, RECORD_RENEWAL + 1).len(), 1);
}
