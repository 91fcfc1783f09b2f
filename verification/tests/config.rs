use keyaura::config::Settings;
use keyaura::grab::combo_mask;

#[test]
fn default_config_values() {
    let c = Settings::default();
    assert!(c.oryx_url.is_empty());
    assert_eq!(c.oryx_revision, "latest");
    assert_eq!(c.grab_combo, vec!["cmd".to_string(), "alt".to_string()]);
    assert_eq!(c.toggle_macro, vec![18, 18, 18]);
    assert_eq!(c.hide_side, "bottom");
    assert_eq!(c.layer_indicator, "icon");
    assert!(c.use_oryx_colors);
    assert!(!c.overlay_pinned);
    assert_eq!(c.bg_color, "#ffffff");
    assert_eq!(c.text_color, "#ffffff");
    assert_eq!(c.legend_color, "#ffffff");
    assert_eq!(c.border_color, "#ffffff");
    assert_eq!(c.heatmap_color, "#ff0030");
    assert_eq!(c.alternate_color, "#f8fadb");
    assert_eq!(c.offline_pill_fill_color, "#d92c2c");
    assert_eq!(c.key_shadow_position, "glow");
    assert!(!c.show_shift_icons);
    assert!(!c.show_alternate_action_icons);
    assert!(c.offline_font_bold);
    assert!(c.font_ligatures);
}

#[test]
fn clamp_keeps_default_settings() {
    let mut c = Settings::default();
    c.clamp();
    assert_eq!(c, Settings::default());
}

#[test]
fn validates_imported_colors_shortcuts_and_rectangles() {
    let mut cfg = Settings {
        text_color: "#gggggg".into(),
        bg_color: "x".into(),
        heatmap_color: "#12Ab9F".into(),
        hide_side: "elsewhere".into(),
        layer_indicator: "banner".into(),
        key_shadow_position: "middle".into(),
        pressed_key_shadow_position: "bottom-left".into(),
        grab_combo: vec!["cmd".into(), "unknown".into()],
        toggle_macro: vec![51; 80],
        ..Settings::default()
    };
    cfg.toggle_macro[0] = 255;
    cfg.clamp();
    assert_eq!(cfg.text_color, Settings::default().text_color);
    assert_eq!(cfg.bg_color, Settings::default().bg_color);
    assert_eq!(cfg.heatmap_color, "#12Ab9F");
    assert_eq!(cfg.hide_side, "right");
    assert_eq!(cfg.layer_indicator, "icon");
    assert_eq!(cfg.key_shadow_position, "glow");
    assert_eq!(cfg.pressed_key_shadow_position, "bottom-left");
    assert_eq!(cfg.grab_combo, ["cmd"]);
    assert_eq!(cfg.toggle_macro, vec![51; 64]);
}

#[test]
fn clamp_color_edges() {
    let mut cfg = Settings {
        border_color: "#ABCDEF".into(),
        shift_color: "#abcde".into(),
        legend_color: "#abcdef0".into(),
        key_fill_color: "ffffff0".into(),
        grab_outline_color: "#12345g".into(),
        base_outline_color: "#é2345".into(),
        ..Settings::default()
    };
    cfg.clamp();
    assert_eq!(cfg.border_color, "#ABCDEF");
    assert_eq!(cfg.shift_color, "#ffffff");
    assert_eq!(cfg.legend_color, "#ffffff");
    assert_eq!(cfg.key_fill_color, "#000000");
    assert_eq!(cfg.grab_outline_color, "#ffdc78");
    assert_eq!(cfg.base_outline_color, "#ff40ff");
}

#[test]
fn clamp_keeps_short_macros_in_order_and_drops_unknown_keys() {
    let mut cfg = Settings {
        toggle_macro: vec![3, 52, 0, 200, 51, 7],
        grab_combo: vec!["shift".into(), "meta".into(), "ctrl".into(), "shift".into()],
        ..Settings::default()
    };
    cfg.clamp();
    assert_eq!(cfg.toggle_macro, vec![3, 0, 51, 7]);
    assert_eq!(cfg.grab_combo, ["shift", "ctrl", "shift"]);
    let mut empty = Settings {
        toggle_macro: vec![],
        grab_combo: vec![],
        ..Settings::default()
    };
    empty.clamp();
    assert!(empty.toggle_macro.is_empty());
    assert!(empty.grab_combo.is_empty());
}

#[test]
fn clamp_is_idempotent() {
    let mut cfg = Settings {
        text_color: "nope".into(),
        hide_side: "".into(),
        toggle_macro: vec![60; 100],
        grab_combo: vec!["x".into(), "alt".into()],
        ..Settings::default()
    };
    cfg.clamp();
    let once = cfg.clone();
    cfg.clamp();
    assert_eq!(cfg, once);
}

#[test]
fn clamp_keeps_the_combo_mask() {
    let names: Vec<String> = vec!["cmd".into(), "hyper".into(), "alt".into()];
    let mut cfg = Settings {
        grab_combo: names.clone(),
        ..Settings::default()
    };
    cfg.clamp();
    assert_eq!(combo_mask(&cfg.grab_combo), combo_mask(&names));
}

#[test]
fn stale_settings_do_not_overwrite_runtime_owned_fields() {
    let mut live = Settings {
        overlay_pinned: true,
        oryx_url: "abc".into(),
        oryx_revision: "rev2".into(),
        ..Settings::default()
    };
    let previous = live.clone();
    live.apply_preferences(Settings {
        text_color: "#123456".into(),
        show_heatmap: true,
        ..Settings::default()
    });
    assert_eq!(live.text_color, "#123456");
    assert!(live.show_heatmap);
    assert_eq!(live.oryx_url, previous.oryx_url);
    assert_eq!(live.oryx_revision, previous.oryx_revision);
    assert!(live.overlay_pinned);
}

#[test]
fn applied_preferences_are_sanitised() {
    let mut live = Settings::default();
    live.apply_preferences(Settings {
        hide_side: "sideways".into(),
        bg_color: "#1".into(),
        toggle_macro: vec![99, 1],
        ..Settings::default()
    });
    assert_eq!(live.hide_side, "right");
    assert_eq!(live.bg_color, "#ffffff");
    assert_eq!(live.toggle_macro, vec![1]);
    let once = live.clone();
    live.apply_preferences(Settings {
        hide_side: "sideways".into(),
        bg_color: "#1".into(),
        toggle_macro: vec![99, 1],
        ..Settings::default()
    });
    assert_eq!(live, once);
}
