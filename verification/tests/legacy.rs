use keyaura::legacy::{fallback_to_legacy, migrate_from_legacy, migrate_window_places};

#[test]
fn legacy_shared_pill_radius_migrates_to_both_pills() {
    let text = r#"{"pill_border_radius":12.0}"#;
    let legacy = Some(12.0_f64);
    assert_eq!(migrate_from_legacy(text, "layer_pill_border_radius", legacy, 368.0), 12.0);
    assert_eq!(migrate_from_legacy(text, "offline_pill_border_radius", legacy, 0.0), 12.0);
}

#[test]
fn own_key_wins_over_legacy_value() {
    let text = r#"{"pill_border_radius":12.0,"layer_pill_border_radius":4.0}"#;
    assert_eq!(migrate_from_legacy(text, "layer_pill_border_radius", Some(12.0_f64), 4.0), 4.0);
    assert_eq!(migrate_from_legacy(text, "offline_pill_border_radius", Some(12.0_f64), 0.0), 12.0);
}

#[test]
fn without_legacy_value_or_json_nothing_moves() {
    assert_eq!(migrate_from_legacy(r#"{"opacity":0.5}"#, "layer_pill_border_radius", None, 368.0), 368.0);
    assert_eq!(migrate_from_legacy("{not json", "layer_pill_border_radius", Some(1.0_f64), 368.0), 368.0);
    assert_eq!(migrate_from_legacy("[1,2]", "layer_pill_border_radius", Some(1.0_f64), 368.0), 1.0);
    assert_eq!(migrate_from_legacy("", "layer_pill_border_radius", Some(1.0_f64), 368.0), 368.0);
}

#[test]
fn fallback_follows_key_presence() {
    assert_eq!(fallback_to_legacy(Some(false), Some(7), 1), 7);
    assert_eq!(fallback_to_legacy(Some(false), None, 1), 1);
    assert_eq!(fallback_to_legacy(Some(true), Some(7), 1), 1);
    assert_eq!(fallback_to_legacy(None, Some(7), 1), 1);
}

#[test]
fn legacy_window_by_monitor_migrates_to_a_single_monitor_arrangement() {
    let entries: Vec<(String, Option<(f64, f64, f64, f64)>)> = vec![
        ("Built-in Retina Display".to_string(), Some((10.0, 20.0, 800.0, 300.0))),
        ("broken".to_string(), None),
        ("DELL U2720Q".to_string(), Some((1.0, 2.0, 3.0, 4.0))),
    ];
    let places = migrate_window_places(true, true, &entries);
    assert_eq!(places.len(), 2);
    assert_eq!(places[0].key, "Built-in Retina Display");
    assert_eq!(places[0].monitor, "Built-in Retina Display");
    assert_eq!(places[0].rect, (10.0, 20.0, 800.0, 300.0));
    assert_eq!(places[1].key, "DELL U2720Q");
    assert_eq!(places[1].monitor, "DELL U2720Q");
    assert!(migrate_window_places(false, true, &entries).is_empty());
    assert!(migrate_window_places(true, false, &entries).is_empty());
}
