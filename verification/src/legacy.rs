//! Reading preference files written by earlier versions: a value that used to
//! be shared between settings under one key is carried over to each setting
//! that the file does not name yet, and window rectangles saved per monitor
//! become places of one-monitor arrangements.

use vstd::prelude::*;

verus! {

/// What parsing `text` as JSON says of `key`: `None` when the text is not
/// JSON, otherwise whether its top level is an object that holds `key`.
pub uninterp spec fn json_key_presence(text: Seq<char>, key: Seq<char>) -> Option<bool>;

/// Parses `text` with `serde_json::from_str` into a `serde_json::Value` and
/// asks `Value::get` for `key`. The contract claims only that the result is
/// a function of the text and the key; what JSON parsing accepts is not
/// stated. (`Value::get` with a string finds a key of an object and finds
/// nothing in any other value.)
#[verifier::external_body]
fn json_top_level_key(text: &str, key: &str) -> (r: Option<bool>)
    ensures
        r == json_key_presence(text@, key@),
{
    match serde_json::from_str::<serde_json::Value>(text) {
        Ok(value) => Some(value.get(key).is_some()),
        Err(_) => None,
    }
}

/// The value a setting takes when its file was read: a file that is JSON and
/// does not name the setting takes the former shared value if it has one;
/// otherwise the setting keeps the value it was read with.
pub open spec fn migrated_value<T>(presence: Option<bool>, legacy: Option<T>, current: T) -> T {
    match presence {
        Some(false) => match legacy {
            Some(v) => v,
            None => current,
        },
        _ => current,
    }
}

/// Chooses between the value read for a setting and the former shared
/// value, given what the file says of the setting's own key.
pub fn fallback_to_legacy<T>(presence: Option<bool>, legacy: Option<T>, current: T) -> (r: T)
    ensures
        r == migrated_value(presence, legacy, current),
{
    match presence {
        Some(false) => match legacy {
            Some(v) => v,
            None => current,
        },
        _ => current,
    }
}

/// Carries the former shared value `legacy` over to the setting stored
/// under `key` when the preference file `text` does not name that key.
pub fn migrate_from_legacy<T>(text: &str, key: &str, legacy: Option<T>, current: T) -> (r: T)
    ensures
        r == migrated_value(json_key_presence(text@, key@), legacy, current),
{
    let presence = json_top_level_key(text, key);
    fallback_to_legacy(presence, legacy, current)
}

/// A window place saved by versions that stored one rectangle per monitor,
/// read as if that monitor had been the only one connected: the monitor's
/// key names both the arrangement and the monitor within it.
pub struct LegacyPlace<R> {
    /// The key of the monitor, and of its one-monitor arrangement.
    pub key: String,
    /// The monitor the window sat on.
    pub monitor: String,
    /// The saved rectangle.
    pub rect: R,
}

/// The views of the entries of a former per-monitor rectangle table, each
/// with its rectangle if it could be read.
pub open spec fn entry_views<R>(entries: Seq<(String, Option<R>)>) -> Seq<(Seq<char>, Option<R>)> {
    entries.map_values(|e: (String, Option<R>)| (e.0@, e.1))
}

/// The views of migrated places, as (key, monitor, rectangle).
pub open spec fn place_views<R>(places: Seq<LegacyPlace<R>>) -> Seq<(Seq<char>, Seq<char>, R)> {
    places.map_values(|p: LegacyPlace<R>| (p.key@, p.monitor@, p.rect))
}

/// Every readable entry becomes a place on the monitor of its own key, in
/// order; unreadable entries are skipped.
pub open spec fn readable_places<R>(entries: Seq<(Seq<char>, Option<R>)>) -> Seq<(Seq<char>, Seq<char>, R)>
    decreases entries.len(),
{
    if entries.len() == 0 {
        Seq::empty()
    } else {
        let rest = readable_places(entries.drop_last());
        match entries.last().1 {
            Some(r) => rest.push((entries.last().0, entries.last().0, r)),
            None => rest,
        }
    }
}

/// The places carried over from a former per-monitor table: only when the
/// file holds no sizes and no arrangement places of its own.
pub open spec fn migrated_places<R>(
    sizes_empty: bool,
    places_empty: bool,
    entries: Seq<(Seq<char>, Option<R>)>,
) -> Seq<(Seq<char>, Seq<char>, R)> {
    if sizes_empty && places_empty {
        readable_places(entries)
    } else {
        Seq::empty()
    }
}

/// Carries the rectangles of a former per-monitor table over to one-monitor
/// arrangements, unless the file already holds sizes or places of its own.
pub fn migrate_window_places<R: Copy>(
    sizes_empty: bool,
    places_empty: bool,
    entries: &Vec<(String, Option<R>)>,
) -> (places: Vec<LegacyPlace<R>>)
    ensures
        place_views(places@) == migrated_places(sizes_empty, places_empty, entry_views(entries@)),
{
    let mut places: Vec<LegacyPlace<R>> = Vec::new();
    if !(sizes_empty && places_empty) {
        proof {
            assert(place_views(places@) =~= Seq::<(Seq<char>, Seq<char>, R)>::empty());
        }
        return places;
    }
    let ghost views = entry_views(entries@);
    let mut i: usize = 0;
    proof {
        assert(views.take(0) =~= Seq::<(Seq<char>, Option<R>)>::empty());
        assert(place_views(places@) =~= Seq::<(Seq<char>, Seq<char>, R)>::empty());
    }
    while i < entries.len()
        invariant
            i <= entries@.len(),
            views == entry_views(entries@),
            place_views(places@) == readable_places(views.take(i as int)),
        decreases entries@.len() - i,
    {
        let entry = &entries[i];
        proof {
            assert(views.take(i + 1).drop_last() =~= views.take(i as int));
            assert(views.take(i + 1).last() == views[i as int]);
        }
        match entry.1 {
            Some(rect) => {
                let ghost before = places@;
                places.push(LegacyPlace { key: entry.0.clone(), monitor: entry.0.clone(), rect });
                proof {
                    assert(place_views(places@) =~= place_views(before).push(
                        (entries@[i as int].0@, entries@[i as int].0@, rect),
                    ));
                }
            },
            None => {},
        }
        i = i + 1;
    }
    proof {
        assert(views.take(entries@.len() as int) =~= views);
    }
    places
}

/// A file that names the setting keeps the value read for it; a file that is
/// JSON and does not name it takes the former shared value when there is
/// one; text that is not JSON changes nothing.
pub proof fn lemma_migration_cases<T>(legacy: Option<T>, current: T)
    ensures
        migrated_value(Some(true), legacy, current) == current,
        migrated_value(None::<bool>, legacy, current) == current,
        legacy is Some ==> migrated_value(Some(false), legacy, current) == legacy->0,
        legacy is None ==> migrated_value(Some(false), legacy, current) == current,
{
}

/// Every carried-over place sits on the monitor of its own key, comes from a
/// readable entry, and when every entry is readable each becomes a place,
/// in order.
pub proof fn lemma_readable_places_meaning<R>(entries: Seq<(Seq<char>, Option<R>)>)
    ensures
        readable_places(entries).len() <= entries.len(),
        forall|i: int|
            0 <= i < readable_places(entries).len() ==> (#[trigger] readable_places(entries)[i]).0
                == readable_places(entries)[i].1,
        forall|i: int|
            0 <= i < readable_places(entries).len() ==> exists|j: int|
                0 <= j < entries.len() && entries[j].0 == (#[trigger] readable_places(entries)[i]).0
                    && entries[j].1 == Some(readable_places(entries)[i].2),
        (forall|j: int| 0 <= j < entries.len() ==> (#[trigger] entries[j]).1 is Some) ==> (
        readable_places(entries).len() == entries.len() && forall|i: int|
            0 <= i < entries.len() ==> #[trigger] readable_places(entries)[i] == (
                entries[i].0,
                entries[i].0,
                entries[i].1->0,
            )),
        (forall|j: int| 0 <= j < entries.len() ==> (#[trigger] entries[j]).1 is None) ==> readable_places(
            entries,
        ).len() == 0,
    decreases entries.len(),
{
    if entries.len() > 0 {
        let front = entries.drop_last();
        lemma_readable_places_meaning(front);
        let rest = readable_places(front);
        let out = readable_places(entries);
        assert forall|i: int| 0 <= i < out.len() implies exists|j: int|
            0 <= j < entries.len() && entries[j].0 == (#[trigger] out[i]).0 && entries[j].1 == Some(
                out[i].2,
            ) by {
            if i < rest.len() {
                assert(out[i] == rest[i]);
                let j = choose|j: int|
                    0 <= j < front.len() && front[j].0 == rest[i].0 && front[j].1 == Some(rest[i].2);
                assert(entries[j] == front[j]);
            } else {
                assert(entries[entries.len() - 1] == entries.last());
            }
        }
        if forall|j: int| 0 <= j < entries.len() ==> (#[trigger] entries[j]).1 is Some {
            assert forall|j: int| 0 <= j < front.len() implies (#[trigger] front[j]).1 is Some by {
                assert(front[j] == entries[j]);
            }
            assert(entries[entries.len() - 1] == entries.last());
            assert forall|i: int| 0 <= i < entries.len() implies #[trigger] out[i] == (
                entries[i].0,
                entries[i].0,
                entries[i].1->0,
            ) by {
                if i < entries.len() - 1 {
                    assert(front[i] == entries[i]);
                }
            }
        }
        if forall|j: int| 0 <= j < entries.len() ==> (#[trigger] entries[j]).1 is None {
            assert forall|j: int| 0 <= j < front.len() implies (#[trigger] front[j]).1 is None by {
                assert(front[j] == entries[j]);
            }
            assert(entries[entries.len() - 1] == entries.last());
        }
    }
}

} // verus!
