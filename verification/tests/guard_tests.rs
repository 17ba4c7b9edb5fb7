use engagement::domain::{CreateEventRequest, EventKind};
use engagement::api::ApiError;
use engagement::guard::InternalAuthLayer;
use engagement::pipeline::{handle_get_devices, handle_get_events};
use engagement::store::{EventRepository, InMemoryStore};

fn guarded_store() -> InMemoryStore {
    let mut store = InMemoryStore::new();
    store
        .create_event(
            CreateEventRequest {
                post_id: "abcdefghij".to_string(),
                kind: EventKind::View,
                device: None,
            },
            Some("alice".to_string()),
        )
        .unwrap();
    store
}

#[test]
fn authorize_requires_exact_equality() {
    let guard = InternalAuthLayer::new("internal-secret".to_string()).layer();
    assert!(guard.authorize(&Some("internal-secret".to_string())));
    assert!(!guard.authorize(&Some("Internal-Secret".to_string())));
    assert!(!guard.authorize(&Some("internal-secret ".to_string())));
    assert!(!guard.authorize(&Some("".to_string())));
    assert!(!guard.authorize(&None));
}

#[test]
fn get_events_without_token_is_unauthorized() {
    let store = guarded_store();
    let guard = InternalAuthLayer::new("internal-secret".to_string()).layer();
    let r = handle_get_events(&guard, &None, &store, &None, &None);
    match r {
        Err(ApiError::Unauthorized(detail)) => assert!(detail.is_none()),
        _ => panic!("expected an unauthorized rejection"),
    }
}

#[test]
fn get_events_with_wrong_token_is_unauthorized() {
    let store = guarded_store();
    let guard = InternalAuthLayer::new("internal-secret".to_string()).layer();
    let r = handle_get_events(&guard, &Some("wrong".to_string()), &store, &None, &None);
    assert!(matches!(r, Err(ApiError::Unauthorized(None))));
}

#[test]
fn get_events_with_correct_token_lists_events() {
    let store = guarded_store();
    let guard = InternalAuthLayer::new("internal-secret".to_string()).layer();
    let r = handle_get_events(&guard, &Some("internal-secret".to_string()), &store, &None, &None);
    let events = r.unwrap();
    assert_eq!(events.len(), 1);
    assert_eq!(events[0].user_id.as_deref(), Some("alice"));
}

#[test]
fn get_events_with_correct_token_applies_filters() {
    let store = guarded_store();
    let guard = InternalAuthLayer::new("internal-secret".to_string()).layer();
    let r = handle_get_events(
        &guard,
        &Some("internal-secret".to_string()),
        &store,
        &Some("bob".to_string()),
        &None,
    );
    assert!(r.unwrap().is_empty());
}

#[test]
fn get_devices_is_gated_by_the_same_guard() {
    let store = guarded_store();
    let guard = InternalAuthLayer::new("internal-secret".to_string()).layer();
    assert!(matches!(
        handle_get_devices(&guard, &None, &store),
        Err(ApiError::Unauthorized(None))
    ));
    let devices = handle_get_devices(&guard, &Some("internal-secret".to_string()), &store).unwrap();
    assert!(devices.is_empty());
}
