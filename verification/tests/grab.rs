use keyaura::grab::{
    combo_active, combo_mask, known_modifier, poll_grab, GrabPoller, windows_modifier_flags, MASK_ALT, MASK_CMD,
    MASK_CTRL, MASK_SHIFT,
};

#[test]
fn masks_map_to_cg_flags() {
    assert_eq!(combo_mask(&["cmd".into()]), MASK_CMD);
    assert_eq!(
        combo_mask(&["cmd".into(), "alt".into()]),
        MASK_CMD | MASK_ALT
    );
    assert_eq!(combo_mask(&["bogus".into()]), 0);
}

#[test]
fn combo_requires_all_and_nonempty() {
    let m = MASK_CMD | MASK_ALT;
    assert!(combo_active(MASK_CMD | MASK_ALT | MASK_SHIFT, m));
    assert!(!combo_active(MASK_CMD, m));
    assert!(!combo_active(MASK_CMD, 0));
}

#[test]
fn mask_bits_are_the_cg_device_independent_modifier_bits() {
    assert_eq!(MASK_SHIFT, 1 << 17);
    assert_eq!(MASK_CTRL, 1 << 18);
    assert_eq!(MASK_ALT, 1 << 19);
    assert_eq!(MASK_CMD, 1 << 20);
}

#[test]
fn mask_ignores_order_repeats_and_unknown_names() {
    let all: Vec<String> = vec!["shift".into(), "ctrl".into(), "alt".into(), "cmd".into()];
    assert_eq!(combo_mask(&all), MASK_CMD | MASK_ALT | MASK_CTRL | MASK_SHIFT);
    let messy: Vec<String> = vec![
        "alt".into(),
        "unknown".into(),
        "cmd".into(),
        "alt".into(),
        "CMD".into(),
        "".into(),
    ];
    assert_eq!(combo_mask(&messy), MASK_CMD | MASK_ALT);
    assert_eq!(combo_mask(&[]), 0);
}

#[test]
fn combo_of_named_modifiers_is_held_only_when_all_are_down() {
    let names: Vec<String> = vec!["ctrl".into(), "shift".into(), "bogus".into()];
    let mask = combo_mask(&names);
    assert!(combo_active(MASK_CTRL | MASK_SHIFT, mask));
    assert!(combo_active(MASK_CTRL | MASK_SHIFT | MASK_CMD | 1, mask));
    assert!(!combo_active(MASK_CTRL, mask));
    assert!(!combo_active(MASK_SHIFT, mask));
    let unknown_only: Vec<String> = vec!["bogus".into()];
    assert!(!combo_active(u64::MAX, combo_mask(&unknown_only)));
}

#[test]
fn known_modifier_names() {
    assert!(known_modifier("cmd"));
    assert!(known_modifier("alt"));
    assert!(known_modifier("ctrl"));
    assert!(known_modifier("shift"));
    assert!(!known_modifier("Cmd"));
    assert!(!known_modifier("option"));
    assert!(!known_modifier(""));
}

#[test]
fn poll_applies_only_changes_and_never_while_hidden() {
    let mask = MASK_CMD | MASK_ALT;
    let first = poll_grab(None, 0, mask, false, false);
    assert!(!first.interactive);
    assert!(first.changed);
    let same = poll_grab(Some(first.interactive), 0, mask, false, false);
    assert!(!same.changed);
    let grabbed = poll_grab(Some(false), MASK_CMD | MASK_ALT, mask, false, false);
    assert!(grabbed.interactive);
    assert!(grabbed.changed);
    let unpinned = poll_grab(Some(true), 0, mask, true, false);
    assert!(unpinned.interactive);
    assert!(!unpinned.changed);
    let hidden = poll_grab(Some(true), MASK_CMD | MASK_ALT, mask, true, true);
    assert!(!hidden.interactive);
    assert!(hidden.changed);
}

#[test]
fn windows_keys_translate_and_altgr_is_not_ctrl() {
    assert_eq!(windows_modifier_flags(false, false, false, false, false), 0);
    assert_eq!(windows_modifier_flags(true, false, false, false, false), MASK_CMD);
    assert_eq!(windows_modifier_flags(false, true, true, false, true), MASK_ALT | MASK_CTRL | MASK_SHIFT);
    // AltGr: synthetic Left-Ctrl with Right-Alt (which is also an Alt).
    assert_eq!(windows_modifier_flags(false, true, true, true, false), MASK_ALT);
    let ctrl_combo: Vec<String> = vec!["ctrl".into(), "alt".into()];
    assert!(!combo_active(windows_modifier_flags(false, true, true, true, false), combo_mask(&ctrl_combo)));
}

#[test]
fn poller_announces_alternating_changes_and_settles() {
    let mask = MASK_CMD;
    let mut poller = GrabPoller::new();
    // held, held, released, released, held, then constant
    let inputs = [MASK_CMD, MASK_CMD, 0, 0, MASK_CMD, MASK_CMD, MASK_CMD];
    let mut announced = Vec::new();
    for flags in inputs {
        let poll = poller.tick(flags, mask, false, false);
        if poll.changed {
            announced.push(poll.interactive);
        }
    }
    assert_eq!(announced, vec![true, false, true]);
    assert_eq!(poller.last_interactive, Some(true));
    for _ in 0..5 {
        assert!(!poller.tick(MASK_CMD, mask, false, false).changed);
    }
}
