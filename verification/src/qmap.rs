//! An association from strings to variant values, with the single-entry-
//! per-key discipline of the native map type: inserting an existing key
//! replaces its value, and looking a key up never fails — an absent key
//! yields the default value.

use vstd::prelude::*;

use crate::qstring::QString;

verus! {

/// A loosely typed value a map can carry. The native variant's
/// floating-point payloads have no place in the library and stay outside.
#[derive(PartialEq, Eq, Debug)]
pub enum QVariant {
    /// No value.
    Null,
    /// A boolean.
    Bool(bool),
    /// A signed 32-bit integer.
    I32(i32),
    /// An unsigned 32-bit integer.
    U32(u32),
    /// A signed 64-bit integer.
    I64(i64),
    /// An unsigned 64-bit integer.
    U64(u64),
    /// A string of UTF-16 units.
    String16(QString),
}

/// Mathematical model of a variant value.
#[verifier::ext_equal]
pub enum GVariant {
    Null,
    Bool(bool),
    I32(i32),
    U32(u32),
    I64(i64),
    U64(u64),
    String16(Seq<u16>),
}

impl View for QVariant {
    type V = GVariant;

    open spec fn view(&self) -> GVariant {
        match self {
            QVariant::Null => GVariant::Null,
            QVariant::Bool(b) => GVariant::Bool(*b),
            QVariant::I32(v) => GVariant::I32(*v),
            QVariant::U32(v) => GVariant::U32(*v),
            QVariant::I64(v) => GVariant::I64(*v),
            QVariant::U64(v) => GVariant::U64(*v),
            QVariant::String16(s) => GVariant::String16(s@),
        }
    }
}

impl QVariant {
    /// An exact copy of this value.
    pub fn clone_variant(&self) -> (r: QVariant)
        ensures
            r@ == self@,
    {
        match self {
            QVariant::Null => QVariant::Null,
            QVariant::Bool(b) => QVariant::Bool(*b),
            QVariant::I32(v) => QVariant::I32(*v),
            QVariant::U32(v) => QVariant::U32(*v),
            QVariant::I64(v) => QVariant::I64(*v),
            QVariant::U64(v) => QVariant::U64(*v),
            QVariant::String16(s) => QVariant::String16(s.clone_string()),
        }
    }
}

/// The element pair the map is instantiated with: a string key and a
/// variant value.
#[allow(non_camel_case_types)]
#[derive(PartialEq, Eq, Debug)]
pub struct QMapPair_QString_QVariant {
    /// The key.
    pub key: QString,
    /// The value.
    pub value: QVariant,
}

/// A map from strings to variant values, each key held at most once.
#[derive(PartialEq, Eq, Debug)]
pub struct QVariantMap {
    /// The entries, in insertion order of their keys.
    pub entries: Vec<QMapPair_QString_QVariant>,
}

/// The model of the entries: key and value sequences, paired by index.
pub open spec fn map_view(m: QVariantMap) -> Seq<(Seq<u16>, GVariant)> {
    m.entries@.map_values(|p: QMapPair_QString_QVariant| (p.key@, p.value@))
}

/// The value of the first entry with the given key, if any.
pub open spec fn spec_map_get(
    entries: Seq<(Seq<u16>, GVariant)>,
    key: Seq<u16>,
) -> Option<GVariant>
    decreases entries.len(),
{
    if entries.len() == 0 {
        Option::None
    } else if entries[0].0 == key {
        Option::Some(entries[0].1)
    } else {
        spec_map_get(entries.drop_first(), key)
    }
}

/// Well-formed: no key occurs twice.
pub open spec fn map_wf(entries: Seq<(Seq<u16>, GVariant)>) -> bool {
    forall|i: int, j: int| 0 <= i < j < entries.len() ==> (#[trigger] entries[i]).0 != (
    #[trigger] entries[j]).0
}

/// An empty map.
pub fn default() -> (r: QVariantMap)
    ensures
        map_view(r).len() == 0,
        map_wf(map_view(r)),
{
    let r = QVariantMap { entries: Vec::new() };
    proof {
        assert(map_view(r) =~= Seq::<(Seq<u16>, GVariant)>::empty());
    }
    r
}

/// An exact copy of the map.
#[verifier::loop_isolation(false)]
pub fn clone(map: &QVariantMap) -> (r: QVariantMap)
    ensures
        map_view(r) == map_view(*map),
{
    let ghost gmap = map_view(*map);
    let mut entries: Vec<QMapPair_QString_QVariant> = Vec::new();
    proof {
        assert(entries@.map_values(|p: QMapPair_QString_QVariant| (p.key@, p.value@))
            =~= gmap.subrange(0, 0));
    }
    let mut i: usize = 0;
    while i < map.entries.len()
        invariant
            0 <= i <= map.entries@.len(),
            entries@.map_values(|p: QMapPair_QString_QVariant| (p.key@, p.value@))
                == gmap.subrange(0, i as int),
        decreases map.entries@.len() - i,
    {
        let entry = &map.entries[i];
        entries.push(
            QMapPair_QString_QVariant {
                key: entry.key.clone_string(),
                value: entry.value.clone_variant(),
            },
        );
        proof {
            assert(entries@.map_values(|p: QMapPair_QString_QVariant| (p.key@, p.value@))
                =~= gmap.subrange(0, i + 1int));
        }
        i = i + 1;
    }
    proof {
        assert(gmap.subrange(0, gmap.len() as int) =~= gmap);
        assert(map_view(QVariantMap { entries }) =~= gmap);
    }
    QVariantMap { entries }
}

/// Empty the map.
pub fn clear(map: &mut QVariantMap)
    ensures
        map_view(*final(map)).len() == 0,
        map_wf(map_view(*final(map))),
{
    map.entries = Vec::new();
    proof {
        assert(map_view(*map) =~= Seq::<(Seq<u16>, GVariant)>::empty());
    }
}

/// The number of entries.
pub fn len(map: &QVariantMap) -> (r: usize)
    ensures
        r == map_view(*map).len(),
{
    map.entries.len()
}

/// The index of the first entry with the given key, if any.
#[verifier::loop_isolation(false)]
fn position_of(map: &QVariantMap, key: &QString) -> (r: Option<usize>)
    ensures
        match r {
            Option::Some(i) => i < map_view(*map).len() && map_view(*map)[i as int].0 == key@
                && spec_map_get(map_view(*map), key@) == Option::Some(
                map_view(*map)[i as int].1,
            ) && forall|j: int| 0 <= j < i ==> map_view(*map)[j].0 != key@,
            Option::None => spec_map_get(map_view(*map), key@) is None,
        },
{
    let ghost gmap = map_view(*map);
    proof {
        assert(gmap.skip(0) =~= gmap);
    }
    let mut i: usize = 0;
    while i < map.entries.len()
        invariant
            0 <= i <= map.entries@.len(),
            gmap.len() == map.entries@.len(),
            spec_map_get(gmap, key@) == spec_map_get(gmap.skip(i as int), key@),
            forall|j: int| 0 <= j < i ==> gmap[j].0 != key@,
        decreases map.entries@.len() - i,
    {
        proof {
            assert(gmap.skip(i as int)[0] == gmap[i as int]);
            assert(gmap.skip(i as int).drop_first() =~= gmap.skip(i + 1int));
        }
        if map.entries[i].key.eq_units(key) {
            return Option::Some(i);
        }
        i = i + 1;
    }
    proof {
        assert(gmap.skip(gmap.len() as int).len() == 0);
    }
    Option::None
}

/// Whether the map holds the key.
pub fn contains(map: &QVariantMap, key: &QString) -> (r: bool)
    ensures
        r == (spec_map_get(map_view(*map), key@) is Some),
{
    position_of(map, key).is_some()
}

/// The value of the key, or the default value where the key is absent.
pub fn get_or_default(map: &QVariantMap, key: &QString) -> (r: QVariant)
    ensures
        r@ == match spec_map_get(map_view(*map), key@) {
            Option::Some(v) => v,
            Option::None => GVariant::Null,
        },
{
    match position_of(map, key) {
        Option::Some(i) => map.entries[i].value.clone_variant(),
        Option::None => QVariant::Null,
    }
}

/// Map the key to the value, replacing the value of an existing key.
#[verifier::loop_isolation(false)]
pub fn insert(map: &mut QVariantMap, key: &QString, value: &QVariant)
    requires
        map_wf(map_view(*old(map))),
    ensures
        map_wf(map_view(*final(map))),
        spec_map_get(map_view(*final(map)), key@) == Option::Some(value@),
        forall|k: Seq<u16>| k != key@ ==> spec_map_get(map_view(*final(map)), k)
            == spec_map_get(map_view(*old(map)), k),
{
    let ghost gmap = map_view(*map);
    let pair = QMapPair_QString_QVariant {
        key: key.clone_string(),
        value: value.clone_variant(),
    };
    match position_of(map, key) {
        Option::Some(i) => {
            map.entries.set(i, pair);
            proof {
                let gnew = map_view(*map);
                assert(gnew =~= gmap.update(i as int, (key@, value@)));
                lemma_map_get_update(gmap, i as int, key@, value@);
            }
        },
        Option::None => {
            map.entries.push(pair);
            proof {
                let gnew = map_view(*map);
                assert(gnew =~= gmap.push((key@, value@)));
                lemma_map_get_absent_push(gmap, key@, value@);
            }
        },
    }
}

/// Take the key out of the map; whether it was there.
#[verifier::loop_isolation(false)]
pub fn remove(map: &mut QVariantMap, key: &QString) -> (r: bool)
    requires
        map_wf(map_view(*old(map))),
    ensures
        map_wf(map_view(*final(map))),
        r == (spec_map_get(map_view(*old(map)), key@) is Some),
        spec_map_get(map_view(*final(map)), key@) is None,
        forall|k: Seq<u16>| k != key@ ==> spec_map_get(map_view(*final(map)), k)
            == spec_map_get(map_view(*old(map)), k),
{
    let ghost gmap = map_view(*map);
    match position_of(map, key) {
        Option::Some(i) => {
            map.entries.remove(i);
            proof {
                let gnew = map_view(*map);
                assert(gnew =~= gmap.remove(i as int));
                lemma_map_get_remove(gmap, i as int, key@);
            }
            true
        },
        Option::None => false,
    }
}

/// How lookups read through an update of entry `i`: the updated key (which
/// only entry `i` held) now reads the new value, every other key is
/// untouched.
proof fn lemma_map_get_update(
    entries: Seq<(Seq<u16>, GVariant)>,
    i: int,
    key: Seq<u16>,
    value: GVariant,
)
    requires
        map_wf(entries),
        0 <= i < entries.len(),
        entries[i].0 == key,
    ensures
        map_wf(entries.update(i, (key, value))),
        spec_map_get(entries.update(i, (key, value)), key) == Option::Some(value),
        forall|k: Seq<u16>| k != key ==> spec_map_get(entries.update(i, (key, value)), k)
            == spec_map_get(entries, k),
    decreases entries.len(),
{
    let updated = entries.update(i, (key, value));
    assert forall|a: int, b: int| 0 <= a < b < updated.len() implies (
    #[trigger] updated[a]).0 != (#[trigger] updated[b]).0 by {
        assert(entries[a].0 != entries[b].0);
    }
    if i == 0 {
        assert(updated[0].0 == key);
        assert forall|k: Seq<u16>| k != key implies spec_map_get(updated, k) == spec_map_get(
            entries,
            k,
        ) by {
            assert(updated.drop_first() =~= entries.drop_first());
            assert(spec_map_get(updated, k) == spec_map_get(updated.drop_first(), k));
            assert(spec_map_get(entries, k) == spec_map_get(entries.drop_first(), k));
        }
    } else {
        assert(entries[0].0 != key);
        assert(updated[0] == entries[0]);
        assert(updated.drop_first() =~= entries.drop_first().update(i - 1, (key, value)));
        assert(entries.drop_first()[i - 1].0 == key);
        assert(map_wf(entries.drop_first())) by {
            assert forall|a: int, b: int| 0 <= a < b < entries.drop_first().len() implies (
            #[trigger] entries.drop_first()[a]).0 != (
            #[trigger] entries.drop_first()[b]).0 by {
                assert(entries[a + 1].0 != entries[b + 1].0);
            }
        }
        lemma_map_get_update(entries.drop_first(), i - 1, key, value);
        assert(spec_map_get(updated, key) == spec_map_get(updated.drop_first(), key));
        assert forall|k: Seq<u16>| k != key implies spec_map_get(updated, k) == spec_map_get(
            entries,
            k,
        ) by {
            if entries[0].0 == k {
                assert(spec_map_get(updated, k) == Option::Some(updated[0].1));
                assert(spec_map_get(entries, k) == Option::Some(entries[0].1));
            } else {
                assert(spec_map_get(updated, k) == spec_map_get(updated.drop_first(), k));
                assert(spec_map_get(entries, k) == spec_map_get(entries.drop_first(), k));
            }
        }
    }
}

/// How lookups read through pushing an absent key: the new key reads the
/// new value, every other key is untouched.
proof fn lemma_map_get_absent_push(
    entries: Seq<(Seq<u16>, GVariant)>,
    key: Seq<u16>,
    value: GVariant,
)
    requires
        map_wf(entries),
        spec_map_get(entries, key) is None,
    ensures
        map_wf(entries.push((key, value))),
        spec_map_get(entries.push((key, value)), key) == Option::Some(value),
        forall|k: Seq<u16>| k != key ==> spec_map_get(entries.push((key, value)), k)
            == spec_map_get(entries, k),
    decreases entries.len(),
{
    lemma_map_get_none_means_absent(entries, key);
    let pushed = entries.push((key, value));
    assert forall|a: int, b: int| 0 <= a < b < pushed.len() implies (
    #[trigger] pushed[a]).0 != (#[trigger] pushed[b]).0 by {
        if b < entries.len() {
            assert(entries[a].0 != entries[b].0);
        } else {
            assert(pushed[b].0 == key);
            assert(pushed[a] == entries[a]);
        }
    }
    if entries.len() == 0 {
        assert(pushed[0].0 == key);
        assert forall|k: Seq<u16>| k != key implies spec_map_get(pushed, k) == spec_map_get(
            entries,
            k,
        ) by {
            assert(pushed.drop_first() =~= entries);
            assert(spec_map_get(pushed, k) == spec_map_get(pushed.drop_first(), k));
        }
    } else {
        assert(entries[0].0 != key);
        assert(pushed[0] == entries[0]);
        assert(pushed.drop_first() =~= entries.drop_first().push((key, value)));
        assert(map_wf(entries.drop_first())) by {
            assert forall|a: int, b: int| 0 <= a < b < entries.drop_first().len() implies (
            #[trigger] entries.drop_first()[a]).0 != (
            #[trigger] entries.drop_first()[b]).0 by {
                assert(entries[a + 1].0 != entries[b + 1].0);
            }
        }
        assert(spec_map_get(entries.drop_first(), key) is None) by {
            assert(spec_map_get(entries, key) == spec_map_get(entries.drop_first(), key));
        }
        lemma_map_get_absent_push(entries.drop_first(), key, value);
        assert(spec_map_get(pushed, key) == spec_map_get(pushed.drop_first(), key));
        assert forall|k: Seq<u16>| k != key implies spec_map_get(pushed, k) == spec_map_get(
            entries,
            k,
        ) by {
            if entries[0].0 == k {
                assert(spec_map_get(pushed, k) == Option::Some(pushed[0].1));
                assert(spec_map_get(entries, k) == Option::Some(entries[0].1));
            } else {
                assert(spec_map_get(pushed, k) == spec_map_get(pushed.drop_first(), k));
                assert(spec_map_get(entries, k) == spec_map_get(entries.drop_first(), k));
            }
        }
    }
}

/// A lookup that fails means no entry holds the key.
proof fn lemma_map_get_none_means_absent(entries: Seq<(Seq<u16>, GVariant)>, key: Seq<u16>)
    requires
        spec_map_get(entries, key) is None,
    ensures
        forall|i: int| 0 <= i < entries.len() ==> (#[trigger] entries[i]).0 != key,
    decreases entries.len(),
{
    if entries.len() > 0 {
        lemma_map_get_none_means_absent(entries.drop_first(), key);
        assert forall|i: int| 0 <= i < entries.len() implies (
        #[trigger] entries[i]).0 != key by {
            if i > 0 {
                assert(entries.drop_first()[i - 1] == entries[i]);
            }
        }
    }
}

/// How lookups read through removing entry `i`: its key (which only entry
/// `i` held) is gone, every other key is untouched.
proof fn lemma_map_get_remove(entries: Seq<(Seq<u16>, GVariant)>, i: int, key: Seq<u16>)
    requires
        map_wf(entries),
        0 <= i < entries.len(),
        entries[i].0 == key,
    ensures
        map_wf(entries.remove(i)),
        spec_map_get(entries.remove(i), key) is None,
        forall|k: Seq<u16>| k != key ==> spec_map_get(entries.remove(i), k) == spec_map_get(
            entries,
            k,
        ),
    decreases entries.len(),
{
    let removed = entries.remove(i);
    assert(removed =~= entries.subrange(0, i) + entries.subrange(
        i + 1,
        entries.len() as int,
    ));
    assert forall|a: int, b: int| 0 <= a < b < removed.len() implies (
    #[trigger] removed[a]).0 != (#[trigger] removed[b]).0 by {
        let oa = if a < i {
            a
        } else {
            a + 1
        };
        let ob = if b < i {
            b
        } else {
            b + 1
        };
        assert(removed[a] == entries[oa]);
        assert(removed[b] == entries[ob]);
        assert(entries[oa].0 != entries[ob].0);
    }
    if i == 0 {
        assert(removed =~= entries.drop_first());
        lemma_wf_head_not_in_rest(entries, key);
        assert forall|k: Seq<u16>| k != key implies spec_map_get(removed, k) == spec_map_get(
            entries,
            k,
        ) by {
            assert(spec_map_get(entries, k) == spec_map_get(entries.drop_first(), k));
        }
    } else {
        assert(removed[0] == entries[0]);
        assert(entries[0].0 != key);
        assert(removed.drop_first() =~= entries.drop_first().remove(i - 1));
        assert(entries.drop_first()[i - 1].0 == key);
        assert(map_wf(entries.drop_first())) by {
            assert forall|a: int, b: int| 0 <= a < b < entries.drop_first().len() implies (
            #[trigger] entries.drop_first()[a]).0 != (
            #[trigger] entries.drop_first()[b]).0 by {
                assert(entries[a + 1].0 != entries[b + 1].0);
            }
        }
        lemma_map_get_remove(entries.drop_first(), i - 1, key);
        assert(spec_map_get(removed, key) == spec_map_get(removed.drop_first(), key));
        assert forall|k: Seq<u16>| k != key implies spec_map_get(removed, k) == spec_map_get(
            entries,
            k,
        ) by {
            if entries[0].0 == k {
                assert(spec_map_get(removed, k) == Option::Some(removed[0].1));
                assert(spec_map_get(entries, k) == Option::Some(entries[0].1));
            } else {
                assert(spec_map_get(removed, k) == spec_map_get(removed.drop_first(), k));
                assert(spec_map_get(entries, k) == spec_map_get(entries.drop_first(), k));
            }
        }
    }
}

/// In a well-formed map whose first entry holds `key`, the rest does not.
proof fn lemma_wf_head_not_in_rest(entries: Seq<(Seq<u16>, GVariant)>, key: Seq<u16>)
    requires
        map_wf(entries),
        entries.len() > 0,
        entries[0].0 == key,
    ensures
        spec_map_get(entries.drop_first(), key) is None,
    decreases entries.len(),
{
    let rest = entries.drop_first();
    assert forall|i: int| 0 <= i < rest.len() implies (#[trigger] rest[i]).0 != key by {
        assert(rest[i] == entries[i + 1]);
        assert(entries[0].0 != entries[i + 1].0);
    }
    lemma_wf_head_not_in_rest_from(rest, key);
}

/// No entry of the sequence holds `key`, so a lookup fails.
proof fn lemma_wf_head_not_in_rest_from(entries: Seq<(Seq<u16>, GVariant)>, key: Seq<u16>)
    requires
        forall|i: int| 0 <= i < entries.len() ==> (#[trigger] entries[i]).0 != key,
    ensures
        spec_map_get(entries, key) is None,
    decreases entries.len(),
{
    if entries.len() > 0 {
        assert forall|i: int| 0 <= i < entries.drop_first().len() implies (
        #[trigger] entries.drop_first()[i]).0 != key by {
            assert(entries.drop_first()[i] == entries[i + 1]);
        }
        lemma_wf_head_not_in_rest_from(entries.drop_first(), key);
    }
}

} // verus!
