//! The text, list and switch settings of the overlay, and how imported or
//! hand-edited values are brought back into the ranges the Settings window
//! offers. Numeric (floating-point) settings are kept beside these by the
//! application.

use vstd::prelude::*;
use vstd::string::*;
use crate::grab::{combo_mask_of, is_modifier_name, known_modifier, string_views};
use crate::text::{hex_color, is_hex_color, str_eq};

verus! {

/// Longest toggle sequence that is kept.
pub const MAX_TOGGLE_MACRO_LEN: usize = 64;

/// Key positions at or above this are not keys of a supported keyboard.
pub const KEY_POSITION_LIMIT: u8 = 52;

/// The text, list and switch settings of the overlay.
#[derive(Clone, Debug, PartialEq, Eq)]
pub struct Settings {
    /// Layout address read from the keyboard's identity; owned by the HID side.
    pub oryx_url: String,
    /// Layout revision read from the keyboard; owned by the HID side.
    pub oryx_revision: String,
    /// Modifier names that, held together, make the overlay movable.
    pub grab_combo: Vec<String>,
    /// Whether the overlay is unpinned for moving (legacy name); owned by the tray.
    pub overlay_pinned: bool,
    /// Key positions that, pressed in order, hide or show the overlay.
    pub toggle_macro: Vec<u8>,
    /// Screen edge the overlay hides towards.
    pub hide_side: String,
    pub use_oryx_colors: bool,
    pub start_hidden: bool,
    pub show_layer_action_icons: bool,
    /// How the active layer is shown.
    pub layer_indicator: String,
    pub show_shift_icons: bool,
    pub show_alternate_action_icons: bool,
    pub show_heatmap: bool,
    pub show_heatmap_counts: bool,
    pub heatmap_color: String,
    pub key_fill_color: String,
    pub bg_color: String,
    pub text_color: String,
    pub legend_color: String,
    pub shift_color: String,
    pub alternate_color: String,
    pub border_color: String,
    pub pressed_key_color: String,
    pub pressed_key_border_color: String,
    pub layer_pill_text_color: String,
    pub layer_pill_fill_color: String,
    pub layer_pill_border_color: String,
    pub offline_pill_text_color: String,
    pub offline_pill_fill_color: String,
    pub offline_pill_border_color: String,
    pub show_key_shadows: bool,
    pub show_pressed_key_shadow: bool,
    pub key_shadow_color: String,
    pub pressed_key_shadow_color: String,
    pub key_shadow_position: String,
    pub pressed_key_shadow_position: String,
    pub base_outline_enabled: bool,
    pub base_outline_color: String,
    pub grab_outline_enabled: bool,
    pub grab_outline_color: String,
    pub key_font_family: String,
    pub key_font_bold: bool,
    pub key_font_italic: bool,
    pub legend_font_family: String,
    pub legend_font_bold: bool,
    pub legend_font_italic: bool,
    pub layer_name_font_family: String,
    pub layer_name_font_bold: bool,
    pub layer_name_font_italic: bool,
    pub offline_font_family: String,
    pub offline_font_bold: bool,
    pub offline_font_italic: bool,
    pub font_ligatures: bool,
}

/// The settings as mathematical values: strings as character sequences.
pub struct SettingsView {
    pub oryx_url: Seq<char>,
    pub oryx_revision: Seq<char>,
    pub grab_combo: Seq<Seq<char>>,
    pub overlay_pinned: bool,
    pub toggle_macro: Seq<u8>,
    pub hide_side: Seq<char>,
    pub use_oryx_colors: bool,
    pub start_hidden: bool,
    pub show_layer_action_icons: bool,
    pub layer_indicator: Seq<char>,
    pub show_shift_icons: bool,
    pub show_alternate_action_icons: bool,
    pub show_heatmap: bool,
    pub show_heatmap_counts: bool,
    pub heatmap_color: Seq<char>,
    pub key_fill_color: Seq<char>,
    pub bg_color: Seq<char>,
    pub text_color: Seq<char>,
    pub legend_color: Seq<char>,
    pub shift_color: Seq<char>,
    pub alternate_color: Seq<char>,
    pub border_color: Seq<char>,
    pub pressed_key_color: Seq<char>,
    pub pressed_key_border_color: Seq<char>,
    pub layer_pill_text_color: Seq<char>,
    pub layer_pill_fill_color: Seq<char>,
    pub layer_pill_border_color: Seq<char>,
    pub offline_pill_text_color: Seq<char>,
    pub offline_pill_fill_color: Seq<char>,
    pub offline_pill_border_color: Seq<char>,
    pub show_key_shadows: bool,
    pub show_pressed_key_shadow: bool,
    pub key_shadow_color: Seq<char>,
    pub pressed_key_shadow_color: Seq<char>,
    pub key_shadow_position: Seq<char>,
    pub pressed_key_shadow_position: Seq<char>,
    pub base_outline_enabled: bool,
    pub base_outline_color: Seq<char>,
    pub grab_outline_enabled: bool,
    pub grab_outline_color: Seq<char>,
    pub key_font_family: Seq<char>,
    pub key_font_bold: bool,
    pub key_font_italic: bool,
    pub legend_font_family: Seq<char>,
    pub legend_font_bold: bool,
    pub legend_font_italic: bool,
    pub layer_name_font_family: Seq<char>,
    pub layer_name_font_bold: bool,
    pub layer_name_font_italic: bool,
    pub offline_font_family: Seq<char>,
    pub offline_font_bold: bool,
    pub offline_font_italic: bool,
    pub font_ligatures: bool,
}

impl View for Settings {
    type V = SettingsView;

    open spec fn view(&self) -> SettingsView {
        SettingsView {
            oryx_url: self.oryx_url@,
            oryx_revision: self.oryx_revision@,
            grab_combo: string_views(self.grab_combo@),
            overlay_pinned: self.overlay_pinned,
            toggle_macro: self.toggle_macro@,
            hide_side: self.hide_side@,
            use_oryx_colors: self.use_oryx_colors,
            start_hidden: self.start_hidden,
            show_layer_action_icons: self.show_layer_action_icons,
            layer_indicator: self.layer_indicator@,
            show_shift_icons: self.show_shift_icons,
            show_alternate_action_icons: self.show_alternate_action_icons,
            show_heatmap: self.show_heatmap,
            show_heatmap_counts: self.show_heatmap_counts,
            heatmap_color: self.heatmap_color@,
            key_fill_color: self.key_fill_color@,
            bg_color: self.bg_color@,
            text_color: self.text_color@,
            legend_color: self.legend_color@,
            shift_color: self.shift_color@,
            alternate_color: self.alternate_color@,
            border_color: self.border_color@,
            pressed_key_color: self.pressed_key_color@,
            pressed_key_border_color: self.pressed_key_border_color@,
            layer_pill_text_color: self.layer_pill_text_color@,
            layer_pill_fill_color: self.layer_pill_fill_color@,
            layer_pill_border_color: self.layer_pill_border_color@,
            offline_pill_text_color: self.offline_pill_text_color@,
            offline_pill_fill_color: self.offline_pill_fill_color@,
            offline_pill_border_color: self.offline_pill_border_color@,
            show_key_shadows: self.show_key_shadows,
            show_pressed_key_shadow: self.show_pressed_key_shadow,
            key_shadow_color: self.key_shadow_color@,
            pressed_key_shadow_color: self.pressed_key_shadow_color@,
            key_shadow_position: self.key_shadow_position@,
            pressed_key_shadow_position: self.pressed_key_shadow_position@,
            base_outline_enabled: self.base_outline_enabled,
            base_outline_color: self.base_outline_color@,
            grab_outline_enabled: self.grab_outline_enabled,
            grab_outline_color: self.grab_outline_color@,
            key_font_family: self.key_font_family@,
            key_font_bold: self.key_font_bold,
            key_font_italic: self.key_font_italic,
            legend_font_family: self.legend_font_family@,
            legend_font_bold: self.legend_font_bold,
            legend_font_italic: self.legend_font_italic,
            layer_name_font_family: self.layer_name_font_family@,
            layer_name_font_bold: self.layer_name_font_bold,
            layer_name_font_italic: self.layer_name_font_italic,
            offline_font_family: self.offline_font_family@,
            offline_font_bold: self.offline_font_bold,
            offline_font_italic: self.offline_font_italic,
            font_ligatures: self.font_ligatures,
        }
    }
}

/// The settings of a fresh installation.
pub open spec fn default_settings() -> SettingsView {
    SettingsView {
        oryx_url: Seq::<char>::empty(),
        oryx_revision: "latest"@,
        grab_combo: seq!["cmd"@, "alt"@],
        overlay_pinned: false,
        toggle_macro: seq![18u8, 18u8, 18u8],
        hide_side: "bottom"@,
        use_oryx_colors: true,
        start_hidden: false,
        show_layer_action_icons: true,
        layer_indicator: "icon"@,
        show_shift_icons: false,
        show_alternate_action_icons: false,
        show_heatmap: false,
        show_heatmap_counts: false,
        heatmap_color: "#ff0030"@,
        key_fill_color: "#000000"@,
        bg_color: "#ffffff"@,
        text_color: "#ffffff"@,
        legend_color: "#ffffff"@,
        shift_color: "#ffffff"@,
        alternate_color: "#f8fadb"@,
        border_color: "#ffffff"@,
        pressed_key_color: "#000000"@,
        pressed_key_border_color: "#7ad7ff"@,
        layer_pill_text_color: "#ffffff"@,
        layer_pill_fill_color: "#ffffff"@,
        layer_pill_border_color: "#ffffff"@,
        offline_pill_text_color: "#ffffff"@,
        offline_pill_fill_color: "#d92c2c"@,
        offline_pill_border_color: "#ffffff"@,
        show_key_shadows: true,
        show_pressed_key_shadow: true,
        key_shadow_color: "#c4bc00"@,
        pressed_key_shadow_color: "#ffffff"@,
        key_shadow_position: "glow"@,
        pressed_key_shadow_position: "glow"@,
        base_outline_enabled: false,
        base_outline_color: "#ff40ff"@,
        grab_outline_enabled: true,
        grab_outline_color: "#ffdc78"@,
        key_font_family: Seq::<char>::empty(),
        key_font_bold: false,
        key_font_italic: false,
        legend_font_family: Seq::<char>::empty(),
        legend_font_bold: false,
        legend_font_italic: false,
        layer_name_font_family: Seq::<char>::empty(),
        layer_name_font_bold: false,
        layer_name_font_italic: false,
        offline_font_family: Seq::<char>::empty(),
        offline_font_bold: true,
        offline_font_italic: false,
        font_ligatures: true,
    }
}

impl Default for Settings {
    fn default() -> (s: Self)
        ensures
            s@ == default_settings(),
    {
        let mut names: Vec<String> = Vec::new();
        names.push(String::from_str("cmd"));
        names.push(String::from_str("alt"));
        let mut keys: Vec<u8> = Vec::new();
        keys.push(18);
        keys.push(18);
        keys.push(18);
        let s = Settings {
            oryx_url: String::new(),
            oryx_revision: String::from_str("latest"),
            grab_combo: names,
            overlay_pinned: false,
            toggle_macro: keys,
            hide_side: String::from_str("bottom"),
            use_oryx_colors: true,
            start_hidden: false,
            show_layer_action_icons: true,
            layer_indicator: String::from_str("icon"),
            show_shift_icons: false,
            show_alternate_action_icons: false,
            show_heatmap: false,
            show_heatmap_counts: false,
            heatmap_color: String::from_str("#ff0030"),
            key_fill_color: String::from_str("#000000"),
            bg_color: String::from_str("#ffffff"),
            text_color: String::from_str("#ffffff"),
            legend_color: String::from_str("#ffffff"),
            shift_color: String::from_str("#ffffff"),
            alternate_color: String::from_str("#f8fadb"),
            border_color: String::from_str("#ffffff"),
            pressed_key_color: String::from_str("#000000"),
            pressed_key_border_color: String::from_str("#7ad7ff"),
            layer_pill_text_color: String::from_str("#ffffff"),
            layer_pill_fill_color: String::from_str("#ffffff"),
            layer_pill_border_color: String::from_str("#ffffff"),
            offline_pill_text_color: String::from_str("#ffffff"),
            offline_pill_fill_color: String::from_str("#d92c2c"),
            offline_pill_border_color: String::from_str("#ffffff"),
            show_key_shadows: true,
            show_pressed_key_shadow: true,
            key_shadow_color: String::from_str("#c4bc00"),
            pressed_key_shadow_color: String::from_str("#ffffff"),
            key_shadow_position: String::from_str("glow"),
            pressed_key_shadow_position: String::from_str("glow"),
            base_outline_enabled: false,
            base_outline_color: String::from_str("#ff40ff"),
            grab_outline_enabled: true,
            grab_outline_color: String::from_str("#ffdc78"),
            key_font_family: String::new(),
            key_font_bold: false,
            key_font_italic: false,
            legend_font_family: String::new(),
            legend_font_bold: false,
            legend_font_italic: false,
            layer_name_font_family: String::new(),
            layer_name_font_bold: false,
            layer_name_font_italic: false,
            offline_font_family: String::new(),
            offline_font_bold: true,
            offline_font_italic: false,
            font_ligatures: true,
        };
        proof {
            assert(keys@ =~= seq![18u8, 18u8, 18u8]);
            assert(string_views(names@) =~= seq!["cmd"@, "alt"@]);
        }
        s
    }
}

/// The screen edges the overlay can hide towards.
pub open spec fn is_hide_side(s: Seq<char>) -> bool {
    s == "left"@ || s == "right"@ || s == "top"@ || s == "bottom"@
}

/// The ways the active layer can be shown.
pub open spec fn is_layer_indicator(s: Seq<char>) -> bool {
    s == "none"@ || s == "textual"@ || s == "icon"@
}

/// The places a key shadow can be cast.
pub open spec fn is_shadow_position(s: Seq<char>) -> bool {
    s == "glow"@ || s == "top-right"@ || s == "top-left"@ || s == "bottom-right"@ || s
        == "bottom-left"@
}

/// An unknown hide side falls back to the right edge.
pub open spec fn hide_side_or_default(s: Seq<char>) -> Seq<char> {
    if is_hide_side(s) {
        s
    } else {
        "right"@
    }
}

/// An unknown layer indicator falls back to the icon.
pub open spec fn layer_indicator_or_default(s: Seq<char>) -> Seq<char> {
    if is_layer_indicator(s) {
        s
    } else {
        "icon"@
    }
}

/// An unknown shadow position falls back to the glow.
pub open spec fn shadow_position_or_default(s: Seq<char>) -> Seq<char> {
    if is_shadow_position(s) {
        s
    } else {
        "glow"@
    }
}

/// A malformed colour falls back to the given default.
pub open spec fn color_or(c: Seq<char>, fallback: Seq<char>) -> Seq<char> {
    if is_hex_color(c) {
        c
    } else {
        fallback
    }
}

/// Key positions that a supported keyboard can report.
pub open spec fn macro_key_pred() -> spec_fn(u8) -> bool {
    |k: u8| k < KEY_POSITION_LIMIT
}

/// Names that are recognised modifiers.
pub open spec fn modifier_pred() -> spec_fn(Seq<char>) -> bool {
    |n: Seq<char>| is_modifier_name(n)
}

/// The toggle sequence without unknown positions, cut to its longest length.
pub open spec fn kept_macro(m: Seq<u8>) -> Seq<u8> {
    let f = m.filter(macro_key_pred());
    if f.len() <= MAX_TOGGLE_MACRO_LEN {
        f
    } else {
        f.take(MAX_TOGGLE_MACRO_LEN as int)
    }
}

/// The grab combo without the names that are not modifiers, in order.
pub open spec fn kept_modifiers(names: Seq<Seq<char>>) -> Seq<Seq<char>> {
    names.filter(modifier_pred())
}

/// Incoming preferences with the fields that the live settings own.
pub open spec fn with_runtime_fields(incoming: SettingsView, live: SettingsView) -> SettingsView {
    SettingsView {
        oryx_url: live.oryx_url,
        oryx_revision: live.oryx_revision,
        overlay_pinned: live.overlay_pinned,
        ..incoming
    }
}

/// The settings after `Settings::apply_preferences`.
pub open spec fn preferences_applied(live: SettingsView, incoming: SettingsView) -> SettingsView {
    sanitized(with_runtime_fields(incoming, live))
}

fn hide_side_ok(s: &str) -> (r: bool)
    ensures
        r == is_hide_side(s@),
{
    str_eq(s, "left") || str_eq(s, "right") || str_eq(s, "top") || str_eq(s, "bottom")
}

fn layer_indicator_ok(s: &str) -> (r: bool)
    ensures
        r == is_layer_indicator(s@),
{
    str_eq(s, "none") || str_eq(s, "textual") || str_eq(s, "icon")
}

fn shadow_position_ok(s: &str) -> (r: bool)
    ensures
        r == is_shadow_position(s@),
{
    str_eq(s, "glow") || str_eq(s, "top-right") || str_eq(s, "top-left") || str_eq(
        s,
        "bottom-right",
    ) || str_eq(s, "bottom-left")
}

fn reset_invalid_shadow_position(p: &mut String)
    ensures
        final(p)@ == shadow_position_or_default(old(p)@),
{
    if !shadow_position_ok(p.as_str()) {
        *p = String::from_str("glow");
    }
}

fn reset_invalid_color(c: &mut String, fallback: &String)
    ensures
        final(c)@ == color_or(old(c)@, fallback@),
{
    if !hex_color(c.as_str()) {
        *c = fallback.clone();
    }
}

/// The toggle sequence without positions a supported keyboard cannot report.
fn keep_macro_keys(keys: &Vec<u8>) -> (r: Vec<u8>)
    ensures
        r@ == keys@.filter(macro_key_pred()),
{
    let mut out: Vec<u8> = Vec::new();
    let mut i: usize = 0;
    proof {
        assert(keys@.take(0) =~= Seq::<u8>::empty());
        reveal(Seq::filter);
    }
    while i < keys.len()
        invariant
            i <= keys@.len(),
            out@ == keys@.take(i as int).filter(macro_key_pred()),
        decreases keys@.len() - i,
    {
        let k = keys[i];
        proof {
            assert(keys@.take(i + 1) =~= keys@.take(i as int).push(k));
            keys@.take(i as int).lemma_filter_push(k, macro_key_pred());
        }
        if k < KEY_POSITION_LIMIT {
            out.push(k);
        }
        i = i + 1;
    }
    proof {
        assert(keys@.take(keys@.len() as int) =~= keys@);
    }
    out
}

/// The grab combo without names that are not modifiers.
fn keep_modifier_names(names: &Vec<String>) -> (r: Vec<String>)
    ensures
        string_views(r@) == kept_modifiers(string_views(names@)),
{
    let mut out: Vec<String> = Vec::new();
    let mut i: usize = 0;
    let ghost views = string_views(names@);
    proof {
        assert(views.take(0) =~= Seq::<Seq<char>>::empty());
        reveal(Seq::filter);
        assert(string_views(out@) =~= Seq::<Seq<char>>::empty());
    }
    while i < names.len()
        invariant
            i <= names@.len(),
            views == string_views(names@),
            string_views(out@) == views.take(i as int).filter(modifier_pred()),
        decreases names@.len() - i,
    {
        let keep = known_modifier(names[i].as_str());
        proof {
            assert(views.take(i + 1) =~= views.take(i as int).push(names@[i as int]@));
            views.take(i as int).lemma_filter_push(names@[i as int]@, modifier_pred());
        }
        if keep {
            let ghost before = out@;
            out.push(names[i].clone());
            proof {
                assert(string_views(out@) =~= string_views(before).push(names@[i as int]@));
            }
        }
        i = i + 1;
    }
    proof {
        assert(views.take(names@.len() as int) =~= views);
    }
    out
}

impl Settings {
    /// Brings every setting into what the Settings window can produce, so a
    /// value written by something other than the window (a hand-edited file,
    /// an imported backup) cannot reach the renderer: unknown choices take
    /// their fallback, the toggle sequence keeps only key positions below
    /// `KEY_POSITION_LIMIT` and at most `MAX_TOGGLE_MACRO_LEN` of them, the
    /// grab combo keeps only modifier names, and colours that are not
    /// `#rrggbb` take their default.
    pub fn clamp(&mut self)
        ensures
            final(self)@ == sanitized(old(self)@),
    {
        if !hide_side_ok(self.hide_side.as_str()) {
            self.hide_side = String::from_str("right");
        }
        if !layer_indicator_ok(self.layer_indicator.as_str()) {
            self.layer_indicator = String::from_str("icon");
        }
        reset_invalid_shadow_position(&mut self.key_shadow_position);
        reset_invalid_shadow_position(&mut self.pressed_key_shadow_position);
        let mut kept = keep_macro_keys(&self.toggle_macro);
        kept.truncate(MAX_TOGGLE_MACRO_LEN);
        self.toggle_macro = kept;
        self.grab_combo = keep_modifier_names(&self.grab_combo);
        // Imported colours must be usable both by CSS and the colour inputs.
        let defaults = Settings::default();
        reset_invalid_color(&mut self.heatmap_color, &defaults.heatmap_color);
        reset_invalid_color(&mut self.key_fill_color, &defaults.key_fill_color);
        reset_invalid_color(&mut self.bg_color, &defaults.bg_color);
        reset_invalid_color(&mut self.text_color, &defaults.text_color);
        reset_invalid_color(&mut self.legend_color, &defaults.legend_color);
        reset_invalid_color(&mut self.shift_color, &defaults.shift_color);
        reset_invalid_color(&mut self.alternate_color, &defaults.alternate_color);
        reset_invalid_color(&mut self.border_color, &defaults.border_color);
        reset_invalid_color(&mut self.pressed_key_color, &defaults.pressed_key_color);
        reset_invalid_color(&mut self.pressed_key_border_color, &defaults.pressed_key_border_color);
        reset_invalid_color(&mut self.layer_pill_text_color, &defaults.layer_pill_text_color);
        reset_invalid_color(&mut self.layer_pill_fill_color, &defaults.layer_pill_fill_color);
        reset_invalid_color(&mut self.layer_pill_border_color, &defaults.layer_pill_border_color);
        reset_invalid_color(&mut self.offline_pill_text_color, &defaults.offline_pill_text_color);
        reset_invalid_color(&mut self.offline_pill_fill_color, &defaults.offline_pill_fill_color);
        reset_invalid_color(&mut self.offline_pill_border_color, &defaults.offline_pill_border_color);
        reset_invalid_color(&mut self.key_shadow_color, &defaults.key_shadow_color);
        reset_invalid_color(&mut self.pressed_key_shadow_color, &defaults.pressed_key_shadow_color);
        reset_invalid_color(&mut self.base_outline_color, &defaults.base_outline_color);
        reset_invalid_color(&mut self.grab_outline_color, &defaults.grab_outline_color);
        proof {
            reveal(sanitized);
            assert(self@.toggle_macro =~= kept_macro(old(self)@.toggle_macro));
        }
    }

    /// The incoming preferences with the layout identity and pin state of
    /// the live settings.
    fn keep_runtime_fields(incoming: Settings, live: &Settings) -> (r: Settings)
        ensures
            r@ == with_runtime_fields(incoming@, live@),
    {
        let mut r = incoming;
        r.oryx_url = live.oryx_url.clone();
        r.oryx_revision = live.oryx_revision.clone();
        r.overlay_pinned = live.overlay_pinned;
        r
    }

    /// Takes preferences sent by the Settings window without letting them
    /// overwrite the fields owned by the keyboard connection and the tray
    /// while the window was open (layout address and revision, pin state),
    /// then sanitises the result.
    pub fn apply_preferences(&mut self, incoming: Self)
        ensures
            final(self)@ == preferences_applied(old(self)@, incoming@),
    {
        let mut prepared = Settings::keep_runtime_fields(incoming, self);
        prepared.clamp();
        *self = prepared;
    }

}

/// The settings after `Settings::clamp`: unknown choices fall back, the
/// toggle sequence and grab combo lose what no keyboard can produce, and
/// malformed colours take their default.
#[verifier::opaque]
pub open spec fn sanitized(v: SettingsView) -> SettingsView {
    SettingsView {
        oryx_url: v.oryx_url,
        oryx_revision: v.oryx_revision,
        grab_combo: kept_modifiers(v.grab_combo),
        overlay_pinned: v.overlay_pinned,
        toggle_macro: kept_macro(v.toggle_macro),
        hide_side: hide_side_or_default(v.hide_side),
        use_oryx_colors: v.use_oryx_colors,
        start_hidden: v.start_hidden,
        show_layer_action_icons: v.show_layer_action_icons,
        layer_indicator: layer_indicator_or_default(v.layer_indicator),
        show_shift_icons: v.show_shift_icons,
        show_alternate_action_icons: v.show_alternate_action_icons,
        show_heatmap: v.show_heatmap,
        show_heatmap_counts: v.show_heatmap_counts,
        heatmap_color: color_or(v.heatmap_color, default_settings().heatmap_color),
        key_fill_color: color_or(v.key_fill_color, default_settings().key_fill_color),
        bg_color: color_or(v.bg_color, default_settings().bg_color),
        text_color: color_or(v.text_color, default_settings().text_color),
        legend_color: color_or(v.legend_color, default_settings().legend_color),
        shift_color: color_or(v.shift_color, default_settings().shift_color),
        alternate_color: color_or(v.alternate_color, default_settings().alternate_color),
        border_color: color_or(v.border_color, default_settings().border_color),
        pressed_key_color: color_or(v.pressed_key_color, default_settings().pressed_key_color),
        pressed_key_border_color: color_or(v.pressed_key_border_color, default_settings().pressed_key_border_color),
        layer_pill_text_color: color_or(v.layer_pill_text_color, default_settings().layer_pill_text_color),
        layer_pill_fill_color: color_or(v.layer_pill_fill_color, default_settings().layer_pill_fill_color),
        layer_pill_border_color: color_or(v.layer_pill_border_color, default_settings().layer_pill_border_color),
        offline_pill_text_color: color_or(v.offline_pill_text_color, default_settings().offline_pill_text_color),
        offline_pill_fill_color: color_or(v.offline_pill_fill_color, default_settings().offline_pill_fill_color),
        offline_pill_border_color: color_or(v.offline_pill_border_color, default_settings().offline_pill_border_color),
        show_key_shadows: v.show_key_shadows,
        show_pressed_key_shadow: v.show_pressed_key_shadow,
        key_shadow_color: color_or(v.key_shadow_color, default_settings().key_shadow_color),
        pressed_key_shadow_color: color_or(v.pressed_key_shadow_color, default_settings().pressed_key_shadow_color),
        key_shadow_position: shadow_position_or_default(v.key_shadow_position),
        pressed_key_shadow_position: shadow_position_or_default(v.pressed_key_shadow_position),
        base_outline_enabled: v.base_outline_enabled,
        base_outline_color: color_or(v.base_outline_color, default_settings().base_outline_color),
        grab_outline_enabled: v.grab_outline_enabled,
        grab_outline_color: color_or(v.grab_outline_color, default_settings().grab_outline_color),
        key_font_family: v.key_font_family,
        key_font_bold: v.key_font_bold,
        key_font_italic: v.key_font_italic,
        legend_font_family: v.legend_font_family,
        legend_font_bold: v.legend_font_bold,
        legend_font_italic: v.legend_font_italic,
        layer_name_font_family: v.layer_name_font_family,
        layer_name_font_bold: v.layer_name_font_bold,
        layer_name_font_italic: v.layer_name_font_italic,
        offline_font_family: v.offline_font_family,
        offline_font_bold: v.offline_font_bold,
        offline_font_italic: v.offline_font_italic,
        font_ligatures: v.font_ligatures,
    }
}

/// What `Settings::clamp` guarantees of its result.
pub open spec fn settings_valid(v: SettingsView) -> bool {
    &&& is_hide_side(v.hide_side)
    &&& is_layer_indicator(v.layer_indicator)
    &&& is_shadow_position(v.key_shadow_position)
    &&& is_shadow_position(v.pressed_key_shadow_position)
    &&& v.toggle_macro.len() <= MAX_TOGGLE_MACRO_LEN
    &&& forall|i: int| 0 <= i < v.toggle_macro.len() ==> #[trigger] v.toggle_macro[i] < KEY_POSITION_LIMIT
    &&& forall|i: int| 0 <= i < v.grab_combo.len() ==> is_modifier_name(#[trigger] v.grab_combo[i])
    &&& colors_valid(v)
}

/// The colours, each with its default.
pub open spec fn colors_valid(v: SettingsView) -> bool {
    &&& is_hex_color(v.heatmap_color)
    &&& is_hex_color(v.key_fill_color)
    &&& is_hex_color(v.bg_color)
    &&& is_hex_color(v.text_color)
    &&& is_hex_color(v.legend_color)
    &&& is_hex_color(v.shift_color)
    &&& is_hex_color(v.alternate_color)
    &&& is_hex_color(v.border_color)
    &&& is_hex_color(v.pressed_key_color)
    &&& is_hex_color(v.pressed_key_border_color)
    &&& is_hex_color(v.layer_pill_text_color)
    &&& is_hex_color(v.layer_pill_fill_color)
    &&& is_hex_color(v.layer_pill_border_color)
    &&& is_hex_color(v.offline_pill_text_color)
    &&& is_hex_color(v.offline_pill_fill_color)
    &&& is_hex_color(v.offline_pill_border_color)
    &&& is_hex_color(v.key_shadow_color)
    &&& is_hex_color(v.pressed_key_shadow_color)
    &&& is_hex_color(v.base_outline_color)
    &&& is_hex_color(v.grab_outline_color)
}

/// Keeping every element of a sequence that passes a test changes nothing
/// when all of them pass it.
proof fn lemma_filter_keeps_all<A>(s: Seq<A>, pred: spec_fn(A) -> bool)
    requires
        forall|i: int| 0 <= i < s.len() ==> pred(#[trigger] s[i]),
    ensures
        s.filter(pred) == s,
    decreases s.len(),
{
    reveal(Seq::filter);
    if s.len() > 0 {
        lemma_filter_keeps_all(s.drop_last(), pred);
        assert(s.drop_last().push(s.last()) =~= s);
    }
}

proof fn lemma_default_colors_valid()
    ensures
        colors_valid(default_settings()),
{
    reveal_strlit("#000000");
    reveal_strlit("#7ad7ff");
    reveal_strlit("#c4bc00");
    reveal_strlit("#d92c2c");
    reveal_strlit("#f8fadb");
    reveal_strlit("#ff0030");
    reveal_strlit("#ff40ff");
    reveal_strlit("#ffdc78");
    reveal_strlit("#ffffff");
}

proof fn lemma_kept_macro_valid(m: Seq<u8>)
    ensures
        kept_macro(m).len() <= MAX_TOGGLE_MACRO_LEN,
        forall|i: int| 0 <= i < kept_macro(m).len() ==> #[trigger] kept_macro(m)[i] < KEY_POSITION_LIMIT,
{
    broadcast use vstd::seq_lib::group_filter_ensures;

    let f = m.filter(macro_key_pred());
    assert forall|i: int| 0 <= i < kept_macro(m).len() implies #[trigger] kept_macro(m)[i]
        < KEY_POSITION_LIMIT by {
        assert(kept_macro(m)[i] == f[i]);
        assert(macro_key_pred()(f[i]));
    }
}

proof fn lemma_kept_modifiers_valid(names: Seq<Seq<char>>)
    ensures
        forall|i: int|
            0 <= i < kept_modifiers(names).len() ==> is_modifier_name(#[trigger] kept_modifiers(names)[i]),
{
    broadcast use vstd::seq_lib::group_filter_ensures;

    assert forall|i: int| 0 <= i < kept_modifiers(names).len() implies is_modifier_name(
        #[trigger] kept_modifiers(names)[i],
    ) by {
        assert(modifier_pred()(names.filter(modifier_pred())[i]));
    }
}

/// Whatever the settings held, sanitised settings are valid: every choice is
/// one the Settings window offers, the toggle sequence holds at most
/// `MAX_TOGGLE_MACRO_LEN` positions below `KEY_POSITION_LIMIT`, the grab
/// combo names only modifiers, and every colour is `#rrggbb`.
pub proof fn lemma_sanitized_is_valid(v: SettingsView)
    ensures
        settings_valid(sanitized(v)),
{
    reveal(sanitized);
    lemma_default_colors_valid();
    lemma_kept_macro_valid(v.toggle_macro);
    lemma_kept_modifiers_valid(v.grab_combo);
}

/// Valid settings come through sanitising unchanged.
pub proof fn lemma_valid_is_unchanged(v: SettingsView)
    requires
        settings_valid(v),
    ensures
        sanitized(v) == v,
{
    reveal(sanitized);
    lemma_filter_keeps_all(v.toggle_macro, macro_key_pred());
    lemma_filter_keeps_all(v.grab_combo, modifier_pred());
    assert(sanitized(v).toggle_macro =~= v.toggle_macro);
    assert(sanitized(v).grab_combo =~= v.grab_combo);
}

/// Sanitising twice is sanitising once.
pub proof fn lemma_sanitize_idempotent(v: SettingsView)
    ensures
        sanitized(sanitized(v)) == sanitized(v),
{
    lemma_sanitized_is_valid(v);
    lemma_valid_is_unchanged(sanitized(v));
}

/// The settings of a fresh installation are valid, so sanitising leaves
/// them as they are.
pub proof fn lemma_default_settings_valid()
    ensures
        settings_valid(default_settings()),
        sanitized(default_settings()) == default_settings(),
{
    lemma_default_colors_valid();
    reveal_strlit("cmd");
    reveal_strlit("alt");
    let d = default_settings();
    assert(d.grab_combo[0] == "cmd"@);
    assert(d.grab_combo[1] == "alt"@);
    lemma_valid_is_unchanged(d);
}

/// Applying preferences keeps the layout identity and pin state of the live
/// settings and takes everything else, sanitised, from the preferences.
pub proof fn lemma_apply_keeps_runtime_fields(live: SettingsView, incoming: SettingsView)
    ensures
        preferences_applied(live, incoming) == with_runtime_fields(sanitized(incoming), live),
        preferences_applied(live, incoming).oryx_url == live.oryx_url,
        preferences_applied(live, incoming).oryx_revision == live.oryx_revision,
        preferences_applied(live, incoming).overlay_pinned == live.overlay_pinned,
{
    reveal(sanitized);
}

/// Applying the same preferences a second time changes nothing.
pub proof fn lemma_apply_twice(live: SettingsView, incoming: SettingsView)
    ensures
        preferences_applied(preferences_applied(live, incoming), incoming) == preferences_applied(
            live,
            incoming,
        ),
{
    lemma_apply_keeps_runtime_fields(live, incoming);
    lemma_apply_keeps_runtime_fields(preferences_applied(live, incoming), incoming);
}

/// Dropping the names that are not modifiers from a grab combo does not
/// change the combo's mask.
pub proof fn lemma_sanitize_keeps_combo_mask(v: SettingsView)
    ensures
        combo_mask_of(sanitized(v).grab_combo) == combo_mask_of(v.grab_combo),
{
    reveal(sanitized);
    broadcast use vstd::seq_lib::group_filter_ensures;

    let names = v.grab_combo;
    let kept = names.filter(modifier_pred());
    assert forall|n: Seq<char>| is_modifier_name(n) implies (kept.contains(n) <==> names.contains(n)) by {
        if names.contains(n) {
            let k = choose|k: int| 0 <= k < names.len() && names[k] == n;
            names.lemma_filter_contains(modifier_pred(), k);
        }
        if kept.contains(n) {
            names.lemma_filter_contains_rev(modifier_pred(), n);
        }
    }
    assert(is_modifier_name("cmd"@));
    assert(is_modifier_name("alt"@));
    assert(is_modifier_name("ctrl"@));
    assert(is_modifier_name("shift"@));
}

/// Sanitising keeps a hide side the Settings window offers ("left",
/// "right", "top", "bottom") and turns any other value into "right".
pub proof fn lemma_sanitize_hide_side(v: SettingsView)
    ensures
        (v.hide_side == "left"@ || v.hide_side == "right"@ || v.hide_side == "top"@ || v.hide_side
            == "bottom"@) ==> sanitized(v).hide_side == v.hide_side,
        !(v.hide_side == "left"@ || v.hide_side == "right"@ || v.hide_side == "top"@ || v.hide_side
            == "bottom"@) ==> sanitized(v).hide_side == "right"@,
{
    reveal(sanitized);
}

/// Sanitising keeps a layer indicator the Settings window offers ("none",
/// "textual", "icon") and turns any other value into "icon".
pub proof fn lemma_sanitize_layer_indicator(v: SettingsView)
    ensures
        (v.layer_indicator == "none"@ || v.layer_indicator == "textual"@ || v.layer_indicator
            == "icon"@) ==> sanitized(v).layer_indicator == v.layer_indicator,
        !(v.layer_indicator == "none"@ || v.layer_indicator == "textual"@ || v.layer_indicator
            == "icon"@) ==> sanitized(v).layer_indicator == "icon"@,
{
    reveal(sanitized);
}

/// Sanitising keeps a shadow position the Settings window offers ("glow",
/// "top-right", "top-left", "bottom-right", "bottom-left") and turns any
/// other value into "glow", for both shadows.
pub proof fn lemma_sanitize_shadow_positions(v: SettingsView)
    ensures
        (v.key_shadow_position == "glow"@ || v.key_shadow_position == "top-right"@
            || v.key_shadow_position == "top-left"@ || v.key_shadow_position == "bottom-right"@
            || v.key_shadow_position == "bottom-left"@) ==> sanitized(v).key_shadow_position
            == v.key_shadow_position,
        !(v.key_shadow_position == "glow"@ || v.key_shadow_position == "top-right"@
            || v.key_shadow_position == "top-left"@ || v.key_shadow_position == "bottom-right"@
            || v.key_shadow_position == "bottom-left"@) ==> sanitized(v).key_shadow_position
            == "glow"@,
        (v.pressed_key_shadow_position == "glow"@ || v.pressed_key_shadow_position == "top-right"@
            || v.pressed_key_shadow_position == "top-left"@ || v.pressed_key_shadow_position
            == "bottom-right"@ || v.pressed_key_shadow_position == "bottom-left"@) ==> sanitized(
            v,
        ).pressed_key_shadow_position == v.pressed_key_shadow_position,
        !(v.pressed_key_shadow_position == "glow"@ || v.pressed_key_shadow_position == "top-right"@
            || v.pressed_key_shadow_position == "top-left"@ || v.pressed_key_shadow_position
            == "bottom-right"@ || v.pressed_key_shadow_position == "bottom-left"@) ==> sanitized(
            v,
        ).pressed_key_shadow_position == "glow"@,
{
    reveal(sanitized);
}

/// Sanitising keeps every well-formed colour and gives each malformed one
/// its default.
pub proof fn lemma_sanitize_colors(v: SettingsView)
    ensures
        sanitized(v).heatmap_color == (if is_hex_color(v.heatmap_color) {
            v.heatmap_color
        } else {
            "#ff0030"@
        }),
        sanitized(v).key_fill_color == (if is_hex_color(v.key_fill_color) {
            v.key_fill_color
        } else {
            "#000000"@
        }),
        sanitized(v).bg_color == (if is_hex_color(v.bg_color) {
            v.bg_color
        } else {
            "#ffffff"@
        }),
        sanitized(v).text_color == (if is_hex_color(v.text_color) {
            v.text_color
        } else {
            "#ffffff"@
        }),
        sanitized(v).legend_color == (if is_hex_color(v.legend_color) {
            v.legend_color
        } else {
            "#ffffff"@
        }),
        sanitized(v).shift_color == (if is_hex_color(v.shift_color) {
            v.shift_color
        } else {
            "#ffffff"@
        }),
        sanitized(v).alternate_color == (if is_hex_color(v.alternate_color) {
            v.alternate_color
        } else {
            "#f8fadb"@
        }),
        sanitized(v).border_color == (if is_hex_color(v.border_color) {
            v.border_color
        } else {
            "#ffffff"@
        }),
        sanitized(v).pressed_key_color == (if is_hex_color(v.pressed_key_color) {
            v.pressed_key_color
        } else {
            "#000000"@
        }),
        sanitized(v).pressed_key_border_color == (if is_hex_color(v.pressed_key_border_color) {
            v.pressed_key_border_color
        } else {
            "#7ad7ff"@
        }),
        sanitized(v).layer_pill_text_color == (if is_hex_color(v.layer_pill_text_color) {
            v.layer_pill_text_color
        } else {
            "#ffffff"@
        }),
        sanitized(v).layer_pill_fill_color == (if is_hex_color(v.layer_pill_fill_color) {
            v.layer_pill_fill_color
        } else {
            "#ffffff"@
        }),
        sanitized(v).layer_pill_border_color == (if is_hex_color(v.layer_pill_border_color) {
            v.layer_pill_border_color
        } else {
            "#ffffff"@
        }),
        sanitized(v).offline_pill_text_color == (if is_hex_color(v.offline_pill_text_color) {
            v.offline_pill_text_color
        } else {
            "#ffffff"@
        }),
        sanitized(v).offline_pill_fill_color == (if is_hex_color(v.offline_pill_fill_color) {
            v.offline_pill_fill_color
        } else {
            "#d92c2c"@
        }),
        sanitized(v).offline_pill_border_color == (if is_hex_color(v.offline_pill_border_color) {
            v.offline_pill_border_color
        } else {
            "#ffffff"@
        }),
        sanitized(v).key_shadow_color == (if is_hex_color(v.key_shadow_color) {
            v.key_shadow_color
        } else {
            "#c4bc00"@
        }),
        sanitized(v).pressed_key_shadow_color == (if is_hex_color(v.pressed_key_shadow_color) {
            v.pressed_key_shadow_color
        } else {
            "#ffffff"@
        }),
        sanitized(v).base_outline_color == (if is_hex_color(v.base_outline_color) {
            v.base_outline_color
        } else {
            "#ff40ff"@
        }),
        sanitized(v).grab_outline_color == (if is_hex_color(v.grab_outline_color) {
            v.grab_outline_color
        } else {
            "#ffdc78"@
        }),
{
    reveal(sanitized);
}

/// The toggle sequence keeps, in order, the key positions below 52 and at
/// most the first 64 of them.
pub proof fn lemma_sanitize_toggle_macro(v: SettingsView)
    ensures
        ({
            let kept = v.toggle_macro.filter(|k: u8| k < 52);
            sanitized(v).toggle_macro == if kept.len() <= 64 {
                kept
            } else {
                kept.take(64)
            }
        }),
{
    reveal(sanitized);
    assert(macro_key_pred() =~= (|k: u8| k < 52));
}

/// The grab combo keeps, in order, exactly the names "cmd", "alt", "ctrl"
/// and "shift".
pub proof fn lemma_sanitize_grab_combo(v: SettingsView)
    ensures
        sanitized(v).grab_combo == v.grab_combo.filter(
            |n: Seq<char>| n == "cmd"@ || n == "alt"@ || n == "ctrl"@ || n == "shift"@,
        ),
{
    reveal(sanitized);
    assert(modifier_pred() =~= (|n: Seq<char>| n == "cmd"@ || n == "alt"@ || n == "ctrl"@ || n
        == "shift"@));
}

/// Sanitising changes nothing but the choices, the toggle sequence, the grab
/// combo and the colours: every switch, font and layout field stays.
pub proof fn lemma_sanitize_touches_only_checked_fields(v: SettingsView)
    ensures
        sanitized(v) == (SettingsView {
            hide_side: sanitized(v).hide_side,
            layer_indicator: sanitized(v).layer_indicator,
            key_shadow_position: sanitized(v).key_shadow_position,
            pressed_key_shadow_position: sanitized(v).pressed_key_shadow_position,
            toggle_macro: sanitized(v).toggle_macro,
            grab_combo: sanitized(v).grab_combo,
            heatmap_color: sanitized(v).heatmap_color,
            key_fill_color: sanitized(v).key_fill_color,
            bg_color: sanitized(v).bg_color,
            text_color: sanitized(v).text_color,
            legend_color: sanitized(v).legend_color,
            shift_color: sanitized(v).shift_color,
            alternate_color: sanitized(v).alternate_color,
            border_color: sanitized(v).border_color,
            pressed_key_color: sanitized(v).pressed_key_color,
            pressed_key_border_color: sanitized(v).pressed_key_border_color,
            layer_pill_text_color: sanitized(v).layer_pill_text_color,
            layer_pill_fill_color: sanitized(v).layer_pill_fill_color,
            layer_pill_border_color: sanitized(v).layer_pill_border_color,
            offline_pill_text_color: sanitized(v).offline_pill_text_color,
            offline_pill_fill_color: sanitized(v).offline_pill_fill_color,
            offline_pill_border_color: sanitized(v).offline_pill_border_color,
            key_shadow_color: sanitized(v).key_shadow_color,
            pressed_key_shadow_color: sanitized(v).pressed_key_shadow_color,
            base_outline_color: sanitized(v).base_outline_color,
            grab_outline_color: sanitized(v).grab_outline_color,
            ..v
        }),
{
    reveal(sanitized);
}

/// Applying preferences takes the layout address, the layout revision and
/// the pin flag from the live settings, and every other field from the
/// sanitised preferences.
pub proof fn lemma_apply_takes_all_other_fields(live: SettingsView, incoming: SettingsView)
    ensures
        preferences_applied(live, incoming) == (SettingsView {
            oryx_url: live.oryx_url,
            oryx_revision: live.oryx_revision,
            overlay_pinned: live.overlay_pinned,
            ..sanitized(incoming)
        }),
        preferences_applied(live, incoming).start_hidden == incoming.start_hidden,
{
    reveal(sanitized);
}

} // verus!
