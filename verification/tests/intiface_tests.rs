use std::time::{Duration, Instant};

use cs2love::intiface::{list_devices, plan_vibration, DiscoveredToy, LastEventClock};

fn names(list: &[&str]) -> Vec<String> {
    list.iter().map(|s| s.to_string()).collect()
}

#[test]
fn list_devices_without_client_is_empty() {
    assert!(list_devices(None).is_empty());
}

#[test]
fn list_devices_keeps_index_name_and_order() {
    let toys = list_devices(Some(vec![(3, "Lush 3".to_string()), (0, "Edge".to_string())]));
    assert_eq!(
        toys,
        vec![
            DiscoveredToy { index: 3, name: "Lush 3".into() },
            DiscoveredToy { index: 0, name: "Edge".into() },
        ]
    );
}

#[test]
fn plan_vibration_skips_empty_selection_or_zero_duration() {
    let devices = names(&["Lush 3"]);
    assert!(plan_vibration(&Vec::new(), 50, 1000, &devices).is_none());
    assert!(plan_vibration(&names(&["Lush 3"]), 50, 0, &devices).is_none());
}

#[test]
fn plan_vibration_selects_matching_devices_and_caps_strength() {
    let devices = names(&["Edge", "Lush 3", "Nora", "Lush 3"]);
    let plan = plan_vibration(&names(&["Lush 3", "Hush"]), 250, 1500, &devices).unwrap();
    assert_eq!(plan.strength_percent, 100);
    assert_eq!(plan.duration_ms, 1500);
    assert_eq!(plan.devices, vec![1, 3]);
}

#[test]
fn plan_vibration_with_no_matching_device_has_no_targets() {
    let plan = plan_vibration(&names(&["Hush"]), 40, 500, &names(&["Edge"])).unwrap();
    assert_eq!(plan.strength_percent, 40);
    assert!(plan.devices.is_empty());
}

#[test]
fn last_event_helpers_round_trip_through_global_state() {
    let mut clock = LastEventClock::new();

    clock.clear();
    assert!(clock.elapsed().is_none());

    clock.touch();
    let elapsed = clock.elapsed().expect("touch should populate last event");
    assert!(elapsed.as_secs() < 5);

    clock.clear();
    assert!(clock.elapsed().is_none());
}

#[test]
fn last_event_clock_measures_from_the_touch() {
    let mut clock = LastEventClock::new();
    let at = Instant::now();
    clock.touch_at(at);
    assert_eq!(clock.elapsed_at(at + Duration::from_secs(3)), Some(Duration::from_secs(3)));
    assert_eq!(clock.elapsed_at(at), Some(Duration::ZERO));
}
