//! Grab-combo matching: which held modifier keys make the overlay movable.
//!
//! Modifier state is a bit set in the layout of CoreGraphics' `CGEventFlags`
//! device-independent modifier bits, so the value read on macOS can be used
//! as it is; other platforms translate into the same bits.

use vstd::prelude::*;
use crate::text::str_eq;

verus! {

/// Shift (bit 17).
pub const MASK_SHIFT: u64 = 0x2_0000;
/// Control (bit 18).
pub const MASK_CTRL: u64 = 0x4_0000;
/// Option / Alt (bit 19).
pub const MASK_ALT: u64 = 0x8_0000;
/// Command, or the Windows key on a PC keyboard (bit 20).
pub const MASK_CMD: u64 = 0x10_0000;

/// The views of a sequence of strings.
pub open spec fn string_views(v: Seq<String>) -> Seq<Seq<char>> {
    v.map_values(|s: String| s@)
}

/// The bit set with the bits of the modifiers whose flag is set.
pub open spec fn modifier_bits(cmd: bool, alt: bool, ctrl: bool, shift: bool) -> u64 {
    (if cmd { MASK_CMD } else { 0u64 }) | (if alt { MASK_ALT } else { 0u64 }) | (if ctrl {
        MASK_CTRL
    } else {
        0u64
    }) | (if shift { MASK_SHIFT } else { 0u64 })
}

/// Whether a name is one of the recognised modifier names.
pub fn known_modifier(name: &str) -> (r: bool)
    ensures
        r == is_modifier_name(name@),
{
    str_eq(name, "cmd") || str_eq(name, "alt") || str_eq(name, "ctrl") || str_eq(name, "shift")
}

/// The bit of one modifier name; names that are not "cmd", "alt", "ctrl" or
/// "shift" have none.
pub open spec fn name_mask(name: Seq<char>) -> u64 {
    if name == "cmd"@ {
        MASK_CMD
    } else if name == "alt"@ {
        MASK_ALT
    } else if name == "ctrl"@ {
        MASK_CTRL
    } else if name == "shift"@ {
        MASK_SHIFT
    } else {
        0u64
    }
}

/// Whether a name is one of the four recognised modifier names.
pub open spec fn is_modifier_name(name: Seq<char>) -> bool {
    name == "cmd"@ || name == "alt"@ || name == "ctrl"@ || name == "shift"@
}

/// The mask of a combo: the bits of every recognised modifier named in it.
pub open spec fn combo_mask_of(names: Seq<Seq<char>>) -> u64 {
    modifier_bits(
        names.contains("cmd"@),
        names.contains("alt"@),
        names.contains("ctrl"@),
        names.contains("shift"@),
    )
}

/// A combo is held when its mask is not empty and every bit of it is set.
pub open spec fn combo_held(flags: u64, mask: u64) -> bool {
    mask != 0 && flags & mask == mask
}

/// The overlay takes mouse input while the combo is held or it is unpinned,
/// unless it is hidden completely.
pub open spec fn overlay_interactive(flags: u64, mask: u64, pinned: bool, fully_hidden: bool) -> bool {
    (combo_held(flags, mask) || pinned) && !fully_hidden
}

proof fn lemma_modifier_names_distinct()
    ensures
        "cmd"@ != "alt"@,
        "cmd"@ != "ctrl"@,
        "cmd"@ != "shift"@,
        "alt"@ != "ctrl"@,
        "alt"@ != "shift"@,
        "ctrl"@ != "shift"@,
{
    reveal_strlit("cmd");
    reveal_strlit("alt");
    reveal_strlit("ctrl");
    reveal_strlit("shift");
    assert("cmd"@[0] != "alt"@[0]);
    assert("cmd"@[1] != "ctrl"@[1]);
    assert("cmd"@[0] != "shift"@[0]);
    assert("alt"@[0] != "ctrl"@[0]);
    assert("alt"@[0] != "shift"@[0]);
    assert("ctrl"@[0] != "shift"@[0]);
}

proof fn lemma_bits_union(c1: bool, a1: bool, t1: bool, s1: bool, c2: bool, a2: bool, t2: bool, s2: bool)
    ensures
        modifier_bits(c1 || c2, a1 || a2, t1 || t2, s1 || s2) == modifier_bits(c1, a1, t1, s1)
            | modifier_bits(c2, a2, t2, s2),
{
    assert(((if c1 || c2 { 0x10_0000u64 } else { 0u64 }) | (if a1 || a2 { 0x8_0000u64 } else {
        0u64
    }) | (if t1 || t2 { 0x4_0000u64 } else { 0u64 }) | (if s1 || s2 { 0x2_0000u64 } else { 0u64 }))
        == ((if c1 { 0x10_0000u64 } else { 0u64 }) | (if a1 { 0x8_0000u64 } else { 0u64 }) | (if t1 {
        0x4_0000u64
    } else {
        0u64
    }) | (if s1 { 0x2_0000u64 } else { 0u64 })) | ((if c2 { 0x10_0000u64 } else { 0u64 }) | (if a2 {
        0x8_0000u64
    } else {
        0u64
    }) | (if t2 { 0x4_0000u64 } else { 0u64 }) | (if s2 { 0x2_0000u64 } else { 0u64 })))
        by (bit_vector);
}

proof fn lemma_name_mask_bits(name: Seq<char>)
    ensures
        name_mask(name) == modifier_bits(
            name == "cmd"@,
            name == "alt"@,
            name == "ctrl"@,
            name == "shift"@,
        ),
{
    lemma_modifier_names_distinct();
    assert(modifier_bits(true, false, false, false) == MASK_CMD) by (bit_vector);
    assert(modifier_bits(false, true, false, false) == MASK_ALT) by (bit_vector);
    assert(modifier_bits(false, false, true, false) == MASK_CTRL) by (bit_vector);
    assert(modifier_bits(false, false, false, true) == MASK_SHIFT) by (bit_vector);
    assert(modifier_bits(false, false, false, false) == 0u64) by (bit_vector);
}

proof fn lemma_combo_mask_push(names: Seq<Seq<char>>, name: Seq<char>)
    ensures
        combo_mask_of(names.push(name)) == combo_mask_of(names) | name_mask(name),
{
    let p = names.push(name);
    assert forall|n: Seq<char>| p.contains(n) <==> (names.contains(n) || n == name) by {
        if names.contains(n) {
            let k = choose|k: int| 0 <= k < names.len() && names[k] == n;
            assert(p[k] == n);
        }
        if n == name {
            assert(p[names.len() as int] == n);
        }
        if p.contains(n) {
            let k = choose|k: int| 0 <= k < p.len() && p[k] == n;
            if k < names.len() {
                assert(names[k] == n);
            }
        }
    }
    lemma_name_mask_bits(name);
    lemma_bits_union(
        names.contains("cmd"@),
        names.contains("alt"@),
        names.contains("ctrl"@),
        names.contains("shift"@),
        name == "cmd"@,
        name == "alt"@,
        name == "ctrl"@,
        name == "shift"@,
    );
}

/// The bit of one modifier name, as `name_mask` says.
fn modifier_mask(name: &str) -> (m: u64)
    ensures
        m == name_mask(name@),
{
    if str_eq(name, "cmd") {
        MASK_CMD
    } else if str_eq(name, "alt") {
        MASK_ALT
    } else if str_eq(name, "ctrl") {
        MASK_CTRL
    } else if str_eq(name, "shift") {
        MASK_SHIFT
    } else {
        0
    }
}

/// The mask of a saved grab combo: every recognised modifier name contributes
/// its bit, and other names are ignored.
pub fn combo_mask(names: &[String]) -> (mask: u64)
    ensures
        mask == combo_mask_of(string_views(names@)),
{
    let mut mask: u64 = 0;
    let mut i: usize = 0;
    proof {
        assert(string_views(names@).take(0) =~= Seq::<Seq<char>>::empty());
        assert(modifier_bits(false, false, false, false) == 0u64) by (bit_vector);
    }
    while i < names.len()
        invariant
            i <= names@.len(),
            mask == combo_mask_of(string_views(names@).take(i as int)),
        decreases names@.len() - i,
    {
        let bit = modifier_mask(names[i].as_str());
        proof {
            let views = string_views(names@);
            assert(views.take(i + 1) =~= views.take(i as int).push(names@[i as int]@));
            lemma_combo_mask_push(views.take(i as int), names@[i as int]@);
        }
        mask = mask | bit;
        i = i + 1;
    }
    proof {
        assert(string_views(names@).take(names@.len() as int) =~= string_views(names@));
    }
    mask
}

/// Translates the keys that Windows reports as down into modifier bits. The
/// Windows key stands where Cmd stands on a Mac keyboard. AltGr, used to type
/// on most non-US layouts, arrives as a synthetic Left-Ctrl together with
/// Right-Alt, so Ctrl does not count while Right-Alt is down.
pub fn windows_modifier_flags(
    windows_key_down: bool,
    alt_down: bool,
    ctrl_down: bool,
    right_alt_down: bool,
    shift_down: bool,
) -> (flags: u64)
    ensures
        flags == modifier_bits(windows_key_down, alt_down, ctrl_down && !right_alt_down, shift_down),
{
    (if windows_key_down { MASK_CMD } else { 0 }) | (if alt_down { MASK_ALT } else { 0 }) | (if ctrl_down
        && !right_alt_down {
        MASK_CTRL
    } else {
        0
    }) | (if shift_down { MASK_SHIFT } else { 0 })
}

/// While AltGr (Right-Alt) is down, a combo that needs Ctrl is not held on
/// Windows, whatever else is down.
pub proof fn lemma_altgr_is_not_ctrl(
    names: Seq<Seq<char>>,
    windows_key_down: bool,
    alt_down: bool,
    ctrl_down: bool,
    right_alt_down: bool,
    shift_down: bool,
)
    requires
        names.contains("ctrl"@),
        right_alt_down,
    ensures
        !combo_held(
            modifier_bits(windows_key_down, alt_down, ctrl_down && !right_alt_down, shift_down),
            combo_mask_of(names),
        ),
{
    let flags = modifier_bits(windows_key_down, alt_down, false, shift_down);
    lemma_combo_held_iff_named_modifiers_down(names, flags);
    assert(modifier_bits(windows_key_down, alt_down, false, shift_down) & 0x4_0000u64
        != 0x4_0000u64) by (bit_vector);
}

/// Whether the held modifiers cover a combo: the mask must not be empty and
/// every one of its bits must be held; other held modifiers do not matter.
pub fn combo_active(flags: u64, mask: u64) -> (held: bool)
    ensures
        held == combo_held(flags, mask),
{
    mask != 0 && flags & mask == mask
}

/// What one tick of the grab poll decides.
pub struct GrabPoll {
    /// Whether the overlay should take mouse input now.
    pub interactive: bool,
    /// Whether that differs from what was applied last, so that the window
    /// flag must be set and the change announced.
    pub changed: bool,
}

/// One tick of the grab poll: the overlay is interactive while the combo is
/// held or the overlay is unpinned, and never while it is fully hidden; the
/// window is touched only when that differs from what was last applied.
pub fn poll_grab(
    last_interactive: Option<bool>,
    flags: u64,
    mask: u64,
    pinned: bool,
    fully_hidden: bool,
) -> (r: GrabPoll)
    ensures
        r.interactive == overlay_interactive(flags, mask, pinned, fully_hidden),
        fully_hidden ==> !r.interactive,
        !fully_hidden ==> r.interactive == ((mask != 0 && flags & mask == mask) || pinned),
        r.changed == (last_interactive != Some(r.interactive)),
{
    let grabbed = combo_active(flags, mask);
    let interactive = (grabbed || pinned) && !fully_hidden;
    let changed = match last_interactive {
        Some(last) => last != interactive,
        None => true,
    };
    GrabPoll { interactive, changed }
}

/// A combo is held exactly when it names at least one recognised modifier and
/// every recognised modifier it names is down; names it does not recognise
/// neither count nor block.
pub proof fn lemma_combo_held_iff_named_modifiers_down(names: Seq<Seq<char>>, flags: u64)
    ensures
        combo_held(flags, combo_mask_of(names)) <==> {
            &&& (names.contains("cmd"@) || names.contains("alt"@) || names.contains("ctrl"@)
                || names.contains("shift"@))
            &&& (names.contains("cmd"@) ==> flags & MASK_CMD == MASK_CMD)
            &&& (names.contains("alt"@) ==> flags & MASK_ALT == MASK_ALT)
            &&& (names.contains("ctrl"@) ==> flags & MASK_CTRL == MASK_CTRL)
            &&& (names.contains("shift"@) ==> flags & MASK_SHIFT == MASK_SHIFT)
        },
{
    let c = names.contains("cmd"@);
    let a = names.contains("alt"@);
    let t = names.contains("ctrl"@);
    let s = names.contains("shift"@);
    assert({
        let m = (if c { 0x10_0000u64 } else { 0u64 }) | (if a { 0x8_0000u64 } else { 0u64 }) | (if t {
            0x4_0000u64
        } else {
            0u64
        }) | (if s { 0x2_0000u64 } else { 0u64 });
        (m != 0 && flags & m == m) <==> {
            &&& (c || a || t || s)
            &&& (c ==> flags & 0x10_0000u64 == 0x10_0000u64)
            &&& (a ==> flags & 0x8_0000u64 == 0x8_0000u64)
            &&& (t ==> flags & 0x4_0000u64 == 0x4_0000u64)
            &&& (s ==> flags & 0x2_0000u64 == 0x2_0000u64)
        }
    }) by (bit_vector);
}

/// The mask of a combo depends only on which names it holds, not on their
/// order or how often each appears.
pub proof fn lemma_combo_mask_depends_on_names_only(a: Seq<Seq<char>>, b: Seq<Seq<char>>)
    requires
        forall|n: Seq<char>| a.contains(n) <==> b.contains(n),
    ensures
        combo_mask_of(a) == combo_mask_of(b),
{
}

/// The grab poll across ticks: it remembers what it applied last, so that
/// the window is touched only when the decision changes.
pub struct GrabPoller {
    /// What the last tick decided; nothing before the first tick.
    pub last_interactive: Option<bool>,
}

impl GrabPoller {
    /// A poller that has not ticked yet.
    pub fn new() -> (p: Self)
        ensures
            p.last_interactive is None,
    {
        GrabPoller { last_interactive: None }
    }

    /// One tick: decides as `poll_grab` does and remembers the decision.
    pub fn tick(&mut self, flags: u64, mask: u64, pinned: bool, fully_hidden: bool) -> (r: GrabPoll)
        ensures
            r.interactive == overlay_interactive(flags, mask, pinned, fully_hidden),
            fully_hidden ==> !r.interactive,
            !fully_hidden ==> r.interactive == ((mask != 0 && flags & mask == mask) || pinned),
            r.changed == (old(self).last_interactive != Some(r.interactive)),
            final(self).last_interactive == Some(r.interactive),
    {
        let r = poll_grab(self.last_interactive, flags, mask, pinned, fully_hidden);
        self.last_interactive = Some(r.interactive);
        r
    }
}

/// The `changed` flags of a run of ticks whose decisions are `values`, for a
/// poller that last applied `last`.
pub open spec fn run_changes(last: Option<bool>, values: Seq<bool>) -> Seq<bool>
    decreases values.len(),
{
    if values.len() == 0 {
        Seq::empty()
    } else {
        seq![last != Some(values[0])] + run_changes(Some(values[0]), values.drop_first())
    }
}

/// Whether a fresh poller announces at tick `k` of a run: at the first tick,
/// and at every tick whose decision differs from the one before.
pub open spec fn announced_at(values: Seq<bool>, k: int) -> bool {
    k == 0 || values[k - 1] != values[k]
}

proof fn lemma_run_changes_len(last: Option<bool>, values: Seq<bool>)
    ensures
        run_changes(last, values).len() == values.len(),
    decreases values.len(),
{
    if values.len() > 0 {
        lemma_run_changes_len(Some(values[0]), values.drop_first());
    }
}

proof fn lemma_run_changes_at(last: Option<bool>, values: Seq<bool>, k: int)
    requires
        0 <= k < values.len(),
    ensures
        run_changes(last, values)[k] == (if k == 0 {
            last != Some(values[0])
        } else {
            values[k - 1] != values[k]
        }),
    decreases values.len(),
{
    let rest = values.drop_first();
    lemma_run_changes_len(Some(values[0]), rest);
    if k > 0 {
        lemma_run_changes_at(Some(values[0]), rest, k - 1);
        if k > 1 {
            assert(rest[k - 2] == values[k - 1]);
        }
        assert(rest[k - 1] == values[k]);
    }
}

/// A fresh poller announces exactly at the ticks where `announced_at` holds.
pub proof fn lemma_fresh_run_announces(values: Seq<bool>, k: int)
    requires
        0 <= k < values.len(),
    ensures
        run_changes(None, values).len() == values.len(),
        run_changes(None, values)[k] == announced_at(values, k),
{
    lemma_run_changes_len(None, values);
    lemma_run_changes_at(None, values, k);
}

proof fn lemma_quiet_ticks_keep_value(values: Seq<bool>, j: int, m: int)
    requires
        0 <= j <= m < values.len(),
        forall|i: int| j < i <= m ==> !announced_at(values, i),
    ensures
        values[m] == values[j],
    decreases m - j,
{
    if m > j {
        lemma_quiet_ticks_keep_value(values, j, m - 1);
        assert(!announced_at(values, m));
    }
}

/// Announcements alternate: two announcements with none between them carry
/// different values.
pub proof fn lemma_announcements_alternate(values: Seq<bool>, j: int, k: int)
    requires
        0 <= j < k < values.len(),
        announced_at(values, j),
        announced_at(values, k),
        forall|i: int| j < i < k ==> !announced_at(values, i),
    ensures
        values[j] != values[k],
{
    lemma_quiet_ticks_keep_value(values, j, k - 1);
}

/// At every tick, the last announcement so far carries that tick's decision.
pub proof fn lemma_last_announcement_is_current(values: Seq<bool>, k: int)
    requires
        0 <= k < values.len(),
    ensures
        exists|j: int|
            0 <= j <= k && announced_at(values, j) && values[j] == values[k] && (forall|i: int|
                j < i <= k ==> !announced_at(values, i)),
    decreases k,
{
    if announced_at(values, k) {
        assert(0 <= k <= k && announced_at(values, k) && values[k] == values[k] && (forall|i: int|
            k < i <= k ==> !announced_at(values, i)));
    } else {
        lemma_last_announcement_is_current(values, k - 1);
        let j = choose|j: int|
            0 <= j <= k - 1 && announced_at(values, j) && values[j] == values[k - 1] && (forall|
                i: int,
            |
                j < i <= k - 1 ==> !announced_at(values, i));
        assert(0 <= j <= k && announced_at(values, j) && values[j] == values[k] && (forall|i: int|
            j < i <= k ==> !announced_at(values, i)));
    }
}

/// Once the inputs, and so the decisions, stay the same from tick `t` on,
/// no tick after `t` announces anything.
pub proof fn lemma_constant_inputs_settle(values: Seq<bool>, t: int)
    requires
        0 <= t < values.len(),
        forall|m: int| t <= m < values.len() ==> values[m] == values[t],
    ensures
        forall|k: int| t < k < values.len() ==> !announced_at(values, k),
{
    assert forall|k: int| t < k < values.len() implies !announced_at(values, k) by {
        assert(values[k - 1] == values[t]);
        assert(values[k] == values[t]);
    }
}

/// A fully hidden overlay never takes mouse input; otherwise it does exactly
/// when every bit of a non-empty combo is held or the overlay is unpinned.
pub proof fn lemma_interactive_meaning(flags: u64, mask: u64, pinned: bool, fully_hidden: bool)
    ensures
        fully_hidden ==> !overlay_interactive(flags, mask, pinned, fully_hidden),
        !fully_hidden ==> (overlay_interactive(flags, mask, pinned, fully_hidden) <==> ((mask != 0
            && flags & mask == mask) || pinned)),
{
}

/// Holding more keys never releases a held combo, the empty combo is never
/// held, and a non-empty combo is held by exactly its own keys.
pub proof fn lemma_combo_held_relations(flags: u64, extra: u64, mask: u64)
    ensures
        combo_held(flags, mask) ==> combo_held(flags | extra, mask),
        !combo_held(flags, 0),
        mask != 0 ==> combo_held(mask, mask),
{
    assert(flags & mask == mask ==> (flags | extra) & mask == mask) by (bit_vector);
    assert(mask & mask == mask) by (bit_vector);
}

/// Each of the four modifier bits is set exactly when its modifier is in
/// the set, and no other bit is ever set.
pub proof fn lemma_modifier_bits_meaning(cmd: bool, alt: bool, ctrl: bool, shift: bool)
    ensures
        (modifier_bits(cmd, alt, ctrl, shift) & 0x10_0000u64 != 0) == cmd,
        (modifier_bits(cmd, alt, ctrl, shift) & 0x8_0000u64 != 0) == alt,
        (modifier_bits(cmd, alt, ctrl, shift) & 0x4_0000u64 != 0) == ctrl,
        (modifier_bits(cmd, alt, ctrl, shift) & 0x2_0000u64 != 0) == shift,
        modifier_bits(cmd, alt, ctrl, shift) & !0x1e_0000u64 == 0,
{
    let m = modifier_bits(cmd, alt, ctrl, shift);
    assert(m == (if cmd { 0x10_0000u64 } else { 0u64 }) | (if alt { 0x8_0000u64 } else { 0u64 }) | (
    if ctrl {
        0x4_0000u64
    } else {
        0u64
    }) | (if shift { 0x2_0000u64 } else { 0u64 }));
    assert({
        let m = (if cmd { 0x10_0000u64 } else { 0u64 }) | (if alt { 0x8_0000u64 } else { 0u64 }) | (
        if ctrl {
            0x4_0000u64
        } else {
            0u64
        }) | (if shift { 0x2_0000u64 } else { 0u64 });
        &&& (m & 0x10_0000u64 != 0) == cmd
        &&& (m & 0x8_0000u64 != 0) == alt
        &&& (m & 0x4_0000u64 != 0) == ctrl
        &&& (m & 0x2_0000u64 != 0) == shift
        &&& m & !0x1e_0000u64 == 0
    }) by (bit_vector);
}

/// The mask of a combo has the Cmd, Alt, Ctrl and Shift bits exactly for
/// the names "cmd", "alt", "ctrl" and "shift" it holds, and no other bit.
pub proof fn lemma_combo_mask_meaning(names: Seq<Seq<char>>)
    ensures
        (combo_mask_of(names) & 0x10_0000u64 != 0) == names.contains("cmd"@),
        (combo_mask_of(names) & 0x8_0000u64 != 0) == names.contains("alt"@),
        (combo_mask_of(names) & 0x4_0000u64 != 0) == names.contains("ctrl"@),
        (combo_mask_of(names) & 0x2_0000u64 != 0) == names.contains("shift"@),
        combo_mask_of(names) & !0x1e_0000u64 == 0,
{
    lemma_modifier_bits_meaning(
        names.contains("cmd"@),
        names.contains("alt"@),
        names.contains("ctrl"@),
        names.contains("shift"@),
    );
}

/// On Windows the Windows key gives the Cmd bit, Alt the Alt bit, Shift the
/// Shift bit, and Ctrl the Ctrl bit only while Right-Alt is up.
pub proof fn lemma_windows_flags_meaning(win: bool, alt: bool, ctrl: bool, right_alt: bool, shift: bool)
    ensures
        (modifier_bits(win, alt, ctrl && !right_alt, shift) & 0x10_0000u64 != 0) == win,
        (modifier_bits(win, alt, ctrl && !right_alt, shift) & 0x8_0000u64 != 0) == alt,
        (modifier_bits(win, alt, ctrl && !right_alt, shift) & 0x4_0000u64 != 0) == (ctrl
            && !right_alt),
        (modifier_bits(win, alt, ctrl && !right_alt, shift) & 0x2_0000u64 != 0) == shift,
{
    lemma_modifier_bits_meaning(win, alt, ctrl && !right_alt, shift);
}

} // verus!
