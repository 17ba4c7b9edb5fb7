use engagement::domain::{CreateEventRequest, DeviceRequest, EventKind};
use engagement::store::{EventRepository, InMemoryStore};

fn device(os: &str, browser: &str, screen: &str, lang: &str) -> DeviceRequest {
    DeviceRequest {
        os: Some(os.to_string()),
        browser: Some(browser.to_string()),
        screen_resolution: Some(screen.to_string()),
        language: Some(lang.to_string()),
    }
}

fn request(post_id: &str, kind: EventKind, device: Option<DeviceRequest>) -> CreateEventRequest {
    CreateEventRequest {
        post_id: post_id.to_string(),
        kind,
        device,
    }
}

#[test]
fn create_assigns_monotonic_ids() {
    let mut store = InMemoryStore::new();
    let id1 = store
        .create_event(request("post-one", EventKind::View, None), None)
        .unwrap();
    let id2 = store
        .create_event(request("post-two", EventKind::Like, None), None)
        .unwrap();
    assert_eq!(id1, 1);
    assert_eq!(id2, 2);
    let all = store.find_all_events();
    assert_eq!(all.len(), 2);
    assert_eq!(all[0].id, 1);
    assert_eq!(all[1].id, 2);
    assert_eq!(all[0].post_id, "post-one");
    assert_eq!(all[1].post_id, "post-two");
}

#[test]
fn find_events_filters_by_user_and_post() {
    let mut store = InMemoryStore::new();
    store
        .create_event(request("post-a", EventKind::View, None), Some("alice".to_string()))
        .unwrap();
    store
        .create_event(request("post-b", EventKind::Like, None), Some("alice".to_string()))
        .unwrap();
    store
        .create_event(request("post-a", EventKind::Share, None), Some("bob".to_string()))
        .unwrap();
    store
        .create_event(request("post-a", EventKind::View, None), None)
        .unwrap();

    let all = store.find_events(&None, &None).unwrap();
    assert_eq!(all.len(), 4);

    let alice = store.find_events(&Some("alice".to_string()), &None).unwrap();
    assert_eq!(alice.len(), 2);
    assert!(alice.iter().all(|e| e.user_id.as_deref() == Some("alice")));

    let post_a = store.find_events(&None, &Some("post-a".to_string())).unwrap();
    assert_eq!(post_a.len(), 3);

    // An anonymous event never matches a user filter; both filters compose.
    let alice_post_a = store
        .find_events(&Some("alice".to_string()), &Some("post-a".to_string()))
        .unwrap();
    assert_eq!(alice_post_a.len(), 1);
    assert_eq!(alice_post_a[0].kind, EventKind::View);
}

#[test]
fn unfiltered_listing_keeps_insertion_order() {
    let mut store = InMemoryStore::new();
    store.create_event(request("post-one", EventKind::View, None), None).unwrap();
    store.create_event(request("post-two", EventKind::Like, None), None).unwrap();
    store.create_event(request("post-three", EventKind::Share, None), None).unwrap();
    let all = store.find_events(&None, &None).unwrap();
    let ids: Vec<i64> = all.iter().map(|e| e.id).collect();
    assert_eq!(ids, vec![1, 2, 3]);
    // Timestamps are captured in insertion order.
    assert!(all[0].timestamp <= all[1].timestamp && all[1].timestamp <= all[2].timestamp);
}

#[test]
fn summary_counts_per_kind_and_missing_kinds_report_zero() {
    let mut store = InMemoryStore::new();
    store.create_event(request("post-a", EventKind::View, None), None).unwrap();
    store.create_event(request("post-a", EventKind::View, None), None).unwrap();
    store.create_event(request("post-a", EventKind::Like, None), None).unwrap();
    store.create_event(request("post-b", EventKind::Share, None), None).unwrap();

    let s = store.find_event_summary(&None, &Some("post-a".to_string())).unwrap();
    assert_eq!(s.views, 2);
    assert_eq!(s.likes, 1);
    assert_eq!(s.shares, 0);
}

#[test]
fn summary_counts_sum_to_find_events_size() {
    let mut store = InMemoryStore::new();
    store.create_event(request("post-a", EventKind::View, None), Some("alice".to_string())).unwrap();
    store.create_event(request("post-a", EventKind::Like, None), None).unwrap();
    store.create_event(request("post-b", EventKind::Share, None), Some("alice".to_string())).unwrap();
    store.create_event(request("post-b", EventKind::View, None), Some("bob".to_string())).unwrap();

    let filters: Vec<(Option<String>, Option<String>)> = vec![
        (None, None),
        (Some("alice".to_string()), None),
        (None, Some("post-a".to_string())),
        (Some("alice".to_string()), Some("post-b".to_string())),
        (Some("nobody".to_string()), Some("post-c".to_string())),
    ];
    for (user, post) in filters {
        let events = store.find_events(&user, &post).unwrap();
        let summary = store.find_event_summary(&user, &post).unwrap();
        assert_eq!(summary.views + summary.likes + summary.shares, events.len());
    }
}

#[test]
fn identical_device_tuple_is_deduplicated() {
    let mut store = InMemoryStore::new();
    let d = || Some(device("Linux", "Firefox", "1920x1080", "en"));
    store.create_event(request("post-a", EventKind::View, d()), None).unwrap();
    store.create_event(request("post-b", EventKind::Like, d()), None).unwrap();

    let devices = store.find_devices().unwrap();
    assert_eq!(devices.len(), 1);
    assert_eq!(devices[0].os.as_deref(), Some("Linux"));
    assert_eq!(devices[0].browser.as_deref(), Some("Firefox"));
    assert_eq!(devices[0].screen_resolution.as_deref(), Some("1920x1080"));
    assert_eq!(devices[0].language.as_deref(), Some("en"));

    let events = store.find_all_events();
    assert_eq!(events.len(), 2);
    assert_eq!(events[0].device_id, Some(devices[0].id));
    assert_eq!(events[1].device_id, Some(devices[0].id));
}

#[test]
fn differing_device_tuples_get_distinct_rows() {
    let mut store = InMemoryStore::new();
    store
        .create_event(
            request("post-a", EventKind::View, Some(device("Linux", "Firefox", "1920x1080", "en"))),
            None,
        )
        .unwrap();
    store
        .create_event(
            request("post-a", EventKind::View, Some(device("Linux", "Firefox", "1920x1080", "de"))),
            None,
        )
        .unwrap();
    let devices = store.find_devices().unwrap();
    assert_eq!(devices.len(), 2);
    assert_eq!(devices[0].id, 1);
    assert_eq!(devices[1].id, 2);
}

#[test]
fn absent_device_fields_are_part_of_the_dedup_key() {
    let mut store = InMemoryStore::new();
    let partial = || {
        Some(DeviceRequest {
            os: Some("Linux".to_string()),
            browser: None,
            screen_resolution: None,
            language: None,
        })
    };
    store.create_event(request("post-a", EventKind::View, partial()), None).unwrap();
    store.create_event(request("post-a", EventKind::Like, partial()), None).unwrap();
    store
        .create_event(
            request(
                "post-a",
                EventKind::Share,
                Some(DeviceRequest {
                    os: Some("Linux".to_string()),
                    browser: Some("Firefox".to_string()),
                    screen_resolution: None,
                    language: None,
                }),
            ),
            None,
        )
        .unwrap();
    let devices = store.find_devices().unwrap();
    assert_eq!(devices.len(), 2);
}

#[test]
fn event_without_device_has_no_device_reference() {
    let mut store = InMemoryStore::new();
    store.create_event(request("post-a", EventKind::View, None), None).unwrap();
    let events = store.find_all_events();
    assert_eq!(events[0].device_id, None);
    assert!(store.find_devices().unwrap().is_empty());
}

#[test]
fn empty_store_answers_empty_results_and_zero_counts() {
    let store = InMemoryStore::new();
    assert!(store.find_events(&None, &None).unwrap().is_empty());
    assert!(store.find_devices().unwrap().is_empty());
    assert!(store.find_all_events().is_empty());
    let s = store.find_event_summary(&None, &None).unwrap();
    assert_eq!((s.views, s.likes, s.shares), (0, 0, 0));
}

#[test]
fn find_event_by_id_is_an_explicit_empty_result_when_absent() {
    let mut store = InMemoryStore::new();
    store.create_event(request("post-a", EventKind::View, None), None).unwrap();
    let found = store.find_event_by_id(1);
    assert!(found.is_some());
    assert_eq!(found.unwrap().post_id, "post-a");
    assert!(store.find_event_by_id(2).is_none());
    assert!(store.find_event_by_id(0).is_none());
    assert!(store.find_event_by_id(-1).is_none());
}
