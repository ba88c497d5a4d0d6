use winefi::errors::TraceabilityLogError;
use winefi::principal::Principal;
use winefi::traceability::{EventType, TraceabilityLog};

#[test]
fn test_log_event() {
    let mut log = TraceabilityLog::new();
    let actor = Principal(5);

    let bottle_id = String::from("MALBEC-2024-001-0001");
    let description = String::from("Bottled at winery");

    log.log_event(
        bottle_id.clone(),
        EventType::Bottling,
        actor,
        description.clone(),
        actor,
        0,
    )
    .unwrap();

    let history = log.get_history(&bottle_id, 0);
    assert_eq!(history.len(), 1);

    let event = &history[0];
    assert_eq!(event.bottle_id, bottle_id);
    assert_eq!(event.event_type, EventType::Bottling);
    assert_eq!(event.actor, actor);
    assert_eq!(event.description, description);
}

#[test]
fn test_multiple_events() {
    let mut log = TraceabilityLog::new();
    let winery = Principal(2);
    let distributor = Principal(3);
    let consumer = Principal(4);

    let bottle_id = String::from("MALBEC-2024-001-0001");

    // Log Bottling event.
    log.log_event(
        bottle_id.clone(),
        EventType::Bottling,
        winery,
        String::from("Bottled"),
        winery,
        0,
    )
    .unwrap();

    // Log Shipped event.
    log.log_event(
        bottle_id.clone(),
        EventType::Shipped,
        winery,
        String::from("Shipped to distributor"),
        winery,
        1,
    )
    .unwrap();

    // Log Received event.
    log.log_event(
        bottle_id.clone(),
        EventType::Received,
        distributor,
        String::from("Received at warehouse"),
        distributor,
        2,
    )
    .unwrap();

    // Log Scanned event.
    log.log_event(
        bottle_id.clone(),
        EventType::Scanned,
        consumer,
        String::from("Scanned by consumer"),
        consumer,
        3,
    )
    .unwrap();

    let history = log.get_history(&bottle_id, 3);
    assert_eq!(history.len(), 4);

    assert_eq!(history[0].event_type, EventType::Bottling);
    assert_eq!(history[1].event_type, EventType::Shipped);
    assert_eq!(history[2].event_type, EventType::Received);
    assert_eq!(history[3].event_type, EventType::Scanned);
}

#[test]
fn history_of_unknown_bottle_is_empty() {
    // The log has no notion of bottle existence: an unknown
    // identifier has an empty history, not an error.
    let mut log = TraceabilityLog::new();
    let history = log.get_history(&String::from("NO-SUCH-ID"), 0);
    assert!(history.is_empty());
}

#[test]
fn append_needs_actor_authorization() {
    let mut log = TraceabilityLog::new();
    let actor = Principal(5);
    let stranger = Principal(6);
    let r = log.log_event(
        String::from("LOT1-0001"),
        EventType::Scanned,
        actor,
        String::from("Scanned"),
        stranger,
        0,
    );
    assert_eq!(r.unwrap_err(), TraceabilityLogError::Unauthorized);
    assert!(log.get_history(&String::from("LOT1-0001"), 0).is_empty());
}

#[test]
fn append_grows_history_by_one_in_order() {
    let mut log = TraceabilityLog::new();
    let actor = Principal(5);
    let bottle_id = String::from("LOT1-0001");
    for n in 0..5u64 {
        let before = log.get_history(&bottle_id, n).len();
        log.log_event(
            bottle_id.clone(),
            EventType::Scanned,
            actor,
            format!("scan {}", n),
            actor,
            n,
        )
        .unwrap();
        let after = log.get_history(&bottle_id, n);
        assert_eq!(after.len(), before + 1);
        // Earlier entries keep their positions and contents.
        for (i, event) in after.iter().enumerate() {
            assert_eq!(event.description, format!("scan {}", i));
            assert_eq!(event.timestamp, i as u64);
        }
    }
}

#[test]
fn histories_are_independent_per_bottle() {
    let mut log = TraceabilityLog::new();
    let actor = Principal(5);
    log.log_event(
        String::from("A-0001"),
        EventType::Bottling,
        actor,
        String::from("a"),
        actor,
        0,
    )
    .unwrap();
    log.log_event(
        String::from("B-0001"),
        EventType::Bottling,
        actor,
        String::from("b"),
        actor,
        0,
    )
    .unwrap();
    assert_eq!(log.get_history(&String::from("A-0001"), 0).len(), 1);
    assert_eq!(log.get_history(&String::from("B-0001"), 0).len(), 1);
    assert_eq!(log.get_history(&String::from("A-0001"), 0)[0].description, "a");
    assert_eq!(log.get_history(&String::from("B-0001"), 0)[0].description, "b");
}
