//! Configuration values as TOML and JSON documents hold them, and the ways
//! layers of them are combined: recursive merging and dotted-path overrides.
use vstd::prelude::*;

use crate::strmap::StrMap;
use crate::text::{from_chars, split, split_spec, to_chars, vviews};

verus! {

/// A configuration value: a scalar, an array, or a table with string keys.
#[derive(Debug)]
pub enum ConfigValue {
    /// JSON `null`; TOML has no such value.
    Null,
    Bool(bool),
    Int(i64),
    /// A floating-point number, by its bits.
    Float(u64),
    Str(String),
    /// A TOML date or time, as written.
    Datetime(String),
    Array(Vec<ConfigValue>),
    Table(StrMap<ConfigValue>),
}

/// What a configuration value is: tables as maps from keys to values.
pub enum ValueView {
    Null,
    Bool(bool),
    Int(i64),
    Float(u64),
    Str(Seq<char>),
    Datetime(Seq<char>),
    Array(Seq<ValueView>),
    Table(Map<Seq<char>, ValueView>),
}

/// The view of a configuration value.
pub open spec fn value_view(v: ConfigValue) -> ValueView
    decreases v,
{
    match v {
        ConfigValue::Null => ValueView::Null,
        ConfigValue::Bool(b) => ValueView::Bool(b),
        ConfigValue::Int(i) => ValueView::Int(i),
        ConfigValue::Float(f) => ValueView::Float(f),
        ConfigValue::Str(s) => ValueView::Str(s@),
        ConfigValue::Datetime(s) => ValueView::Datetime(s@),
        ConfigValue::Array(a) => ValueView::Array(
            Seq::new(
                a@.len(),
                |i: int|
                    if 0 <= i < a@.len() {
                        value_view(a@[i])
                    } else {
                        ValueView::Null
                    },
            ),
        ),
        ConfigValue::Table(m) => ValueView::Table(
            Map::new(
                |k: Seq<char>| m.to_map().contains_key(k),
                |k: Seq<char>|
                    if m.to_map().contains_key(k) {
                        proof {
                            m.lemma_value_decreases(k);
                        }
                        value_view(m.to_map()[k])
                    } else {
                        ValueView::Null
                    },
            ),
        ),
    }
}

impl View for ConfigValue {
    type V = ValueView;

    open spec fn view(&self) -> ValueView {
        value_view(*self)
    }
}

/// The views of the values of a map.
pub open spec fn views_of(m: Map<Seq<char>, ConfigValue>) -> Map<Seq<char>, ValueView> {
    Map::new(|k: Seq<char>| m.contains_key(k), |k: Seq<char>| value_view(m[k]))
}

/// A table's view is the map of its values' views.
pub proof fn lemma_table_view(m: StrMap<ConfigValue>)
    ensures
        value_view(ConfigValue::Table(m)) == ValueView::Table(views_of(m.to_map())),
{
    assert(value_view(ConfigValue::Table(m))->Table_0 =~= views_of(m.to_map()));
}

/// The entries of a table; nothing for other values.
pub open spec fn as_table(v: ValueView) -> Map<Seq<char>, ValueView> {
    match v {
        ValueView::Table(m) => m,
        _ => Map::empty(),
    }
}

/// `overlay` merged into `base`: tables merge key by key, recursively, and
/// anything else in `overlay` replaces what `base` holds.
pub open spec fn merged(base: ValueView, overlay: ValueView) -> ValueView
    decreases overlay,
{
    match overlay {
        ValueView::Table(o) => match base {
            ValueView::Table(b) => ValueView::Table(
                Map::new(
                    |k: Seq<char>| b.contains_key(k) || o.contains_key(k),
                    |k: Seq<char>|
                        if o.contains_key(k) {
                            if b.contains_key(k) {
                                merged(b[k], o[k])
                            } else {
                                o[k]
                            }
                        } else {
                            b[k]
                        },
                ),
            ),
            _ => overlay,
        },
        _ => overlay,
    }
}

/// `overlay` merged into `base` as JSON documents merge: `null` in `overlay`
/// changes nothing, objects merge key by key (recursing where both sides hold
/// an object), and anything else in `overlay` replaces what `base` holds.
pub open spec fn json_merged(base: ValueView, overlay: ValueView) -> ValueView
    decreases overlay,
{
    match overlay {
        ValueView::Null => base,
        ValueView::Table(o) => match base {
            ValueView::Table(b) => ValueView::Table(
                Map::new(
                    |k: Seq<char>| b.contains_key(k) || (o.contains_key(k) && !(o[k] is Null)),
                    |k: Seq<char>|
                        if o.contains_key(k) && !(o[k] is Null) {
                            if b.contains_key(k) && b[k] is Table && o[k] is Table {
                                json_merged(b[k], o[k])
                            } else {
                                o[k]
                            }
                        } else {
                            b[k]
                        },
                ),
            ),
            _ => overlay,
        },
        _ => overlay,
    }
}

/// The value reached from `v` by following the keys of `path`.
pub open spec fn lookup(v: ValueView, path: Seq<Seq<char>>) -> Option<ValueView>
    decreases path.len(),
{
    if path.len() == 0 {
        Some(v)
    } else if as_table(v).contains_key(path[0]) {
        lookup(as_table(v)[path[0]], path.drop_first())
    } else {
        None
    }
}

/// `root` with `value` set at the path of keys `segs`: each key but the last
/// names a table, made (or replacing what was there) where needed.
pub open spec fn overridden(root: ValueView, segs: Seq<Seq<char>>, value: ValueView) -> ValueView
    decreases segs.len(),
{
    let t = as_table(root);
    if segs.len() <= 1 {
        ValueView::Table(t.insert(segs[0], value))
    } else {
        let child = if t.contains_key(segs[0]) {
            t[segs[0]]
        } else {
            ValueView::Table(Map::empty())
        };
        ValueView::Table(t.insert(segs[0], overridden(child, segs.drop_first(), value)))
    }
}

/// The keys of a dotted path.
pub open spec fn path_segments(path: Seq<char>) -> Seq<Seq<char>> {
    split_spec(path, seq!['.'])
}

/// An empty table.
pub open spec fn empty_table() -> ValueView {
    ValueView::Table(Map::empty())
}

/// The layer built from overrides applied in order to an empty table.
pub open spec fn overrides_applied(overrides: Seq<(String, ConfigValue)>) -> ValueView
    decreases overrides.len(),
{
    if overrides.len() == 0 {
        empty_table()
    } else {
        overridden(
            overrides_applied(overrides.drop_last()),
            path_segments(overrides.last().0@),
            overrides.last().1@,
        )
    }
}

/// The keys in a list of keys, as a set.
pub open spec fn key_set(ks: Seq<Seq<char>>) -> Set<Seq<char>> {
    Set::new(|k: Seq<char>| ks.contains(k))
}

/// One more key of a list adds that key to the set of keys before it.
pub proof fn lemma_key_set_step(ks: Seq<Seq<char>>, i: int)
    requires
        0 <= i < ks.len(),
    ensures
        key_set(ks.take(i + 1)) == key_set(ks.take(i)).insert(ks[i]),
        key_set(ks.take(ks.len() as int)) == key_set(ks),
{
    assert forall|k: Seq<char>| #[trigger] key_set(ks.take(i + 1)).contains(k) == key_set(ks.take(i)).insert(
        ks[i],
    ).contains(k) by {
        if ks.take(i + 1).contains(k) {
            let j = choose|j: int| 0 <= j < i + 1 && #[trigger] ks.take(i + 1)[j] == k;
            if j < i {
                assert(ks.take(i)[j] == k);
            }
        }
        if ks.take(i).contains(k) {
            let j = choose|j: int| 0 <= j < i && #[trigger] ks.take(i)[j] == k;
            assert(ks.take(i + 1)[j] == k);
        }
        if k == ks[i] {
            assert(ks.take(i + 1)[i] == k);
        }
    }
    assert(key_set(ks.take(i + 1)) =~= key_set(ks.take(i)).insert(ks[i]));
    assert(ks.take(ks.len() as int) =~= ks);
}

/// An equal copy of a configuration value.
pub fn copy_value(v: &ConfigValue) -> (r: ConfigValue)
    ensures
        r@ == v@,
    decreases v,
{
    match v {
        ConfigValue::Null => ConfigValue::Null,
        ConfigValue::Bool(b) => ConfigValue::Bool(*b),
        ConfigValue::Int(i) => ConfigValue::Int(*i),
        ConfigValue::Float(f) => ConfigValue::Float(*f),
        ConfigValue::Str(s) => ConfigValue::Str(s.clone()),
        ConfigValue::Datetime(s) => ConfigValue::Datetime(s.clone()),
        ConfigValue::Array(a) => {
            let mut out: Vec<ConfigValue> = Vec::new();
            let mut i: usize = 0;
            while i < a.len()
                invariant
                    *v == ConfigValue::Array(*a),
                    i <= a@.len(),
                    out@.len() == i,
                    forall|j: int| 0 <= j < i ==> (#[trigger] out@[j])@ == a@[j]@,
                decreases a@.len() - i,
            {
                proof {
                    assert(decreases_to!(*v => v->Array_0));
                    assert(decreases_to!(*a => a@));
                    assert(decreases_to!(a@ => a@[i as int]));
                }
                let c = copy_value(&a[i]);
                out.push(c);
                i = i + 1;
            }
            let r = ConfigValue::Array(out);
            assert(r@->Array_0 =~= v@->Array_0);
            r
        },
        ConfigValue::Table(m) => {
            let ghost src = m.to_map();
            let mut out: StrMap<ConfigValue> = StrMap::new();
            let n = m.len();
            let _ = m.sorted();
            proof {
                m.lemma_view();
            }
            let mut i: usize = 0;
            while i < n
                invariant
                    *v == ConfigValue::Table(*m),
                    src == m.to_map(),
                    n == m.keys().len(),
                    m.keys().len() == m.values().len(),
                    forall|j: int| 0 <= j < n ==> #[trigger] src.contains_key(m.keys()[j]) && src[m.keys()[j]]
                        == m.values()[j],
                    forall|k: Seq<char>| #[trigger] src.contains_key(k) <==> m.keys().contains(k),
                    i <= n,
                    views_of(out.to_map()) == views_of(src).restrict(key_set(m.keys().take(i as int))),
                decreases n - i,
            {
                let k = m.key_at(i);
                let x = m.value_at(i);
                assert(src.contains_key(m.keys()[i as int]));
                proof {
                    assert(decreases_to!(*v => v->Table_0));
                    m.lemma_value_decreases(k@);
                }
                let c = copy_value(x);
                let ghost before = out.to_map();
                out.insert(k.clone(), c);
                proof {
                    lemma_key_set_step(m.keys(), i as int);
                }
                assert(*x == src[k@]);
                assert(views_of(out.to_map()) =~= views_of(before).insert(k@, c@));
                assert(views_of(src).restrict(key_set(m.keys().take(i as int)).insert(k@)) =~= views_of(
                    src,
                ).restrict(key_set(m.keys().take(i as int))).insert(k@, value_view(src[k@])));
                assert(views_of(out.to_map()) =~= views_of(src).restrict(key_set(m.keys().take(i + 1))));
                i = i + 1;
            }
            assert(m.keys().take(n as int) =~= m.keys());
            assert(views_of(src).restrict(key_set(m.keys())) =~= views_of(src));
            let r = ConfigValue::Table(out);
            proof {
                lemma_table_view(out);
                lemma_table_view(*m);
            }
            r
        },
    }
}

/// Two tables merged key by key as `merged` merges them.
pub open spec fn merge_maps(b: Map<Seq<char>, ValueView>, o: Map<Seq<char>, ValueView>) -> Map<
    Seq<char>,
    ValueView,
> {
    Map::new(
        |k: Seq<char>| b.contains_key(k) || o.contains_key(k),
        |k: Seq<char>|
            if o.contains_key(k) {
                if b.contains_key(k) {
                    merged(b[k], o[k])
                } else {
                    o[k]
                }
            } else {
                b[k]
            },
    )
}

/// Two tables merged key by key as `json_merged` merges them.
pub open spec fn json_merge_maps(b: Map<Seq<char>, ValueView>, o: Map<Seq<char>, ValueView>) -> Map<
    Seq<char>,
    ValueView,
> {
    Map::new(
        |k: Seq<char>| b.contains_key(k) || (o.contains_key(k) && !(o[k] is Null)),
        |k: Seq<char>|
            if o.contains_key(k) && !(o[k] is Null) {
                if b.contains_key(k) && b[k] is Table && o[k] is Table {
                    json_merged(b[k], o[k])
                } else {
                    o[k]
                }
            } else {
                b[k]
            },
    )
}

/// Merging tables is merging their maps.
pub proof fn lemma_merged_tables(b: Map<Seq<char>, ValueView>, o: Map<Seq<char>, ValueView>)
    ensures
        merged(ValueView::Table(b), ValueView::Table(o)) == ValueView::Table(merge_maps(b, o)),
        json_merged(ValueView::Table(b), ValueView::Table(o)) == ValueView::Table(json_merge_maps(b, o)),
{
    assert(merged(ValueView::Table(b), ValueView::Table(o))->Table_0 =~= merge_maps(b, o));
    assert(json_merged(ValueView::Table(b), ValueView::Table(o))->Table_0 =~= json_merge_maps(b, o));
}

/// Merges `overlay` into `base`, `overlay` taking precedence: tables merge
/// key by key, recursively, and anything else in `overlay` replaces `base`.
pub fn merge_toml_values(base: &mut ConfigValue, overlay: &ConfigValue)
    ensures
        final(base)@ == merged(old(base)@, overlay@),
    decreases overlay,
{
    let ghost base0 = base@;
    match overlay {
        ConfigValue::Table(o) => {
            let mut taken = ConfigValue::Null;
            std::mem::swap(&mut taken, base);
            match taken {
                ConfigValue::Table(mut b) => {
                    let ghost b0 = views_of(b.to_map());
                    let ghost ov = views_of(o.to_map());
                    let ghost ks = o.keys();
                    let n = o.len();
                    let _ = o.sorted();
                    proof {
                        o.lemma_view();
                        lemma_table_view(b);
                    }
                    let mut i: usize = 0;
                    while i < n
                        invariant
                            *overlay == ConfigValue::Table(*o),
                            ov == views_of(o.to_map()),
                            ks == o.keys(),
                            n == ks.len(),
                            ks.len() == o.values().len(),
                            ks.no_duplicates(),
                            forall|j: int| 0 <= j < n ==> #[trigger] o.to_map().contains_key(o.keys()[j])
                                && o.to_map()[o.keys()[j]] == o.values()[j],
                            forall|k: Seq<char>| #[trigger] o.to_map().contains_key(k) <==> ks.contains(k),
                            i <= n,
                            views_of(b.to_map()) == merge_maps(b0, ov.restrict(key_set(ks.take(i as int)))),
                        decreases n - i,
                    {
                        let k = o.key_at(i);
                        let x = o.value_at(i);
                        assert(o.to_map().contains_key(ks[i as int]));
                        proof {
                            assert(decreases_to!(*overlay => overlay->Table_0));
                            o.lemma_value_decreases(k@);
                            lemma_key_set_step(ks, i as int);
                            assert(!ks.take(i as int).contains(k@)) by {
                                if ks.take(i as int).contains(k@) {
                                    let j = choose|j: int| 0 <= j < i && #[trigger] ks.take(i as int)[j] == k@;
                                    assert(ks[j] == ks[i as int]);
                                }
                            }
                        }
                        let ghost m = views_of(b.to_map());
                        let ghost bm = b.to_map();
                        let ghost s0 = key_set(ks.take(i as int));
                        assert(!s0.contains(k@));
                        assert(!ov.restrict(s0).contains_key(k@));
                        assert(m.contains_key(k@) == b0.contains_key(k@));
                        match b.take(k.as_str()) {
                            Some(mut existing) => {
                                assert(existing == bm[k@]);
                                assert(m[k@] == existing@);
                                assert(merge_maps(b0, ov.restrict(s0))[k@] == b0[k@]);
                                merge_toml_values(&mut existing, x);
                                let ghost e2 = existing@;
                                b.insert(k.clone(), existing);
                                assert(views_of(b.to_map()) =~= m.insert(k@, e2));
                            },
                            None => {
                                let c = copy_value(x);
                                let ghost e2 = c@;
                                b.insert(k.clone(), c);
                                assert(views_of(b.to_map()) =~= m.insert(k@, e2));
                            },
                        }
                        assert(merge_maps(b0, ov.restrict(s0.insert(k@))) =~= m.insert(
                            k@,
                            if b0.contains_key(k@) {
                                merged(b0[k@], ov[k@])
                            } else {
                                ov[k@]
                            },
                        ));
                        i = i + 1;
                    }
                    proof {
                        assert(ks.take(n as int) =~= ks);
                        assert(ov.restrict(key_set(ks)) =~= ov);
                        lemma_table_view(b);
                        lemma_table_view(*o);
                        lemma_merged_tables(b0, ov);
                    }
                    *base = ConfigValue::Table(b);
                },
                _ => {
                    *base = copy_value(overlay);
                },
            }
        },
        _ => {
            *base = copy_value(overlay);
        },
    }
}

/// Merges JSON `overlay` into `base`: `null` changes nothing, objects merge key
/// by key (recursing where both hold an object), anything else replaces `base`.
pub fn merge_json(base: &mut ConfigValue, overlay: &ConfigValue)
    ensures
        final(base)@ == json_merged(old(base)@, overlay@),
    decreases overlay,
{
    match overlay {
        ConfigValue::Null => {},
        ConfigValue::Table(o) => {
            let mut taken = ConfigValue::Null;
            std::mem::swap(&mut taken, base);
            match taken {
                ConfigValue::Table(mut b) => {
                    let ghost b0 = views_of(b.to_map());
                    let ghost ov = views_of(o.to_map());
                    let ghost ks = o.keys();
                    let n = o.len();
                    let _ = o.sorted();
                    proof {
                        o.lemma_view();
                        lemma_table_view(b);
                    }
                    let mut i: usize = 0;
                    while i < n
                        invariant
                            *overlay == ConfigValue::Table(*o),
                            ov == views_of(o.to_map()),
                            ks == o.keys(),
                            n == ks.len(),
                            ks.len() == o.values().len(),
                            ks.no_duplicates(),
                            forall|j: int| 0 <= j < n ==> #[trigger] o.to_map().contains_key(o.keys()[j])
                                && o.to_map()[o.keys()[j]] == o.values()[j],
                            forall|k: Seq<char>| #[trigger] o.to_map().contains_key(k) <==> ks.contains(k),
                            i <= n,
                            views_of(b.to_map()) == json_merge_maps(b0, ov.restrict(key_set(ks.take(i as int)))),
                        decreases n - i,
                    {
                        let k = o.key_at(i);
                        let x = o.value_at(i);
                        assert(o.to_map().contains_key(ks[i as int]));
                        proof {
                            assert(decreases_to!(*overlay => overlay->Table_0));
                            o.lemma_value_decreases(k@);
                            lemma_key_set_step(ks, i as int);
                            assert(!ks.take(i as int).contains(k@)) by {
                                if ks.take(i as int).contains(k@) {
                                    let j = choose|j: int| 0 <= j < i && #[trigger] ks.take(i as int)[j] == k@;
                                    assert(ks[j] == ks[i as int]);
                                }
                            }
                        }
                        let ghost m = views_of(b.to_map());
                        let ghost bm = b.to_map();
                        let ghost s0 = key_set(ks.take(i as int));
                        assert(!s0.contains(k@));
                        assert(!ov.restrict(s0).contains_key(k@));
                        assert(m.contains_key(k@) == b0.contains_key(k@));
                        let x_null = match x {
                            ConfigValue::Null => true,
                            _ => false,
                        };
                        if x_null {
                            assert(json_merge_maps(b0, ov.restrict(s0.insert(k@))) =~= m);
                        } else {
                            let x_table = match x {
                                ConfigValue::Table(_) => true,
                                _ => false,
                            };
                            match b.take(k.as_str()) {
                                Some(mut existing) => {
                                    assert(existing == bm[k@]);
                                    assert(m[k@] == existing@);
                                    assert(json_merge_maps(b0, ov.restrict(s0))[k@] == b0[k@]);
                                    let e_table = match existing {
                                        ConfigValue::Table(_) => true,
                                        _ => false,
                                    };
                                    if x_table && e_table {
                                        merge_json(&mut existing, x);
                                    } else {
                                        existing = copy_value(x);
                                    }
                                    let ghost e2 = existing@;
                                    b.insert(k.clone(), existing);
                                    assert(views_of(b.to_map()) =~= m.insert(k@, e2));
                                },
                                None => {
                                    let c = copy_value(x);
                                    let ghost e2 = c@;
                                    b.insert(k.clone(), c);
                                    assert(views_of(b.to_map()) =~= m.insert(k@, e2));
                                },
                            }
                            assert(json_merge_maps(b0, ov.restrict(s0.insert(k@))) =~= m.insert(
                                k@,
                                if b0.contains_key(k@) && b0[k@] is Table && ov[k@] is Table {
                                    json_merged(b0[k@], ov[k@])
                                } else {
                                    ov[k@]
                                },
                            ));
                        }
                        i = i + 1;
                    }
                    proof {
                        assert(ks.take(n as int) =~= ks);
                        assert(ov.restrict(key_set(ks)) =~= ov);
                        lemma_table_view(b);
                        lemma_table_view(*o);
                        lemma_merged_tables(b0, ov);
                    }
                    *base = ConfigValue::Table(b);
                },
                _ => {
                    *base = copy_value(overlay);
                },
            }
        },
        _ => {
            *base = copy_value(overlay);
        },
    }
}

/// An empty table stored as a value views as the empty table.
proof fn lemma_empty_table_view(m: StrMap<ConfigValue>)
    requires
        m.to_map() == Map::<Seq<char>, ConfigValue>::empty(),
    ensures
        value_view(ConfigValue::Table(m)) == empty_table(),
{
    lemma_table_view(m);
    assert(views_of(m.to_map()) =~= Map::<Seq<char>, ValueView>::empty());
}

/// Sets `value` at the path `segs[i..]` below `node`.
fn set_path(node: &mut ConfigValue, segs: &Vec<Vec<char>>, i: usize, value: ConfigValue)
    requires
        i < segs.len(),
    ensures
        final(node)@ == overridden(old(node)@, vviews(segs@).skip(i as int), value@),
    decreases segs.len() - i,
{
    let ghost old_view = node@;
    let ghost path = vviews(segs@).skip(i as int);
    let mut taken = ConfigValue::Null;
    std::mem::swap(&mut taken, node);
    let mut t: StrMap<ConfigValue> = match taken {
        ConfigValue::Table(m) => {
            proof {
                lemma_table_view(m);
            }
            m
        },
        _ => {
            let e = StrMap::new();
            assert(views_of(e.to_map()) =~= Map::<Seq<char>, ValueView>::empty());
            e
        },
    };
    assert(views_of(t.to_map()) == as_table(old_view));
    let ghost tv = views_of(t.to_map());
    let key = from_chars(segs[i].as_slice());
    assert(path[0] == key@);
    if i + 1 == segs.len() {
        let ghost val = value@;
        t.insert(key, value);
        assert(views_of(t.to_map()) =~= tv.insert(path[0], val));
    } else {
        let mut child = match t.take(key.as_str()) {
            Some(c) => c,
            None => {
                let e = StrMap::new();
                proof {
                    lemma_empty_table_view(e);
                }
                ConfigValue::Table(e)
            },
        };
        assert(child@ == if tv.contains_key(path[0]) {
            tv[path[0]]
        } else {
            empty_table()
        });
        set_path(&mut child, segs, i + 1, value);
        assert(path.drop_first() =~= vviews(segs@).skip(i + 1));
        let ghost c2 = child@;
        t.insert(key, child);
        assert(views_of(t.to_map()) =~= tv.insert(path[0], c2));
    }
    proof {
        lemma_table_view(t);
    }
    *node = ConfigValue::Table(t);
}

/// Sets `value` at a dotted path below `root` (`"tui.theme"` sets key `theme`
/// of table `tui`), making tables where the path needs them.
pub fn apply_toml_override(root: &mut ConfigValue, path: &str, value: ConfigValue)
    ensures
        final(root)@ == overridden(old(root)@, path_segments(path@), value@),
{
    let chars = to_chars(path);
    let dot = vec!['.'];
    assert(dot@ =~= seq!['.']);
    let segs = split(chars.as_slice(), dot.as_slice());
    assert(vviews(segs@).skip(0) =~= vviews(segs@));
    set_path(root, &segs, 0, value);
}

/// The layer of `--set key=value` overrides: each dotted path set to its value,
/// in order, starting from an empty table.
pub fn build_cli_overrides_layer(cli_overrides: &[(String, ConfigValue)]) -> (r: ConfigValue)
    ensures
        r@ == overrides_applied(cli_overrides@),
{
    let e = StrMap::new();
    proof {
        lemma_empty_table_view(e);
    }
    let mut root = ConfigValue::Table(e);
    let mut i: usize = 0;
    while i < cli_overrides.len()
        invariant
            i <= cli_overrides@.len(),
            root@ == overrides_applied(cli_overrides@.take(i as int)),
        decreases cli_overrides@.len() - i,
    {
        let (path, value) = &cli_overrides[i];
        assert(cli_overrides@.take(i + 1).drop_last() =~= cli_overrides@.take(i as int));
        apply_toml_override(&mut root, path.as_str(), copy_value(value));
        i = i + 1;
    }
    assert(cli_overrides@.take(i as int) =~= cli_overrides@);
    root
}

/// After a value is set at a path, reading that path gives the value.
pub proof fn law_override_then_lookup(root: ValueView, segs: Seq<Seq<char>>, value: ValueView)
    requires
        segs.len() >= 1,
    ensures
        lookup(overridden(root, segs, value), segs) == Some(value),
    decreases segs.len(),
{
    let t = as_table(root);
    let r = overridden(root, segs, value);
    if segs.len() == 1 {
        assert(as_table(r).contains_key(segs[0]));
        assert(segs.drop_first().len() == 0);
    } else {
        let child = if t.contains_key(segs[0]) {
            t[segs[0]]
        } else {
            ValueView::Table(Map::empty())
        };
        law_override_then_lookup(child, segs.drop_first(), value);
        assert(as_table(r)[segs[0]] == overridden(child, segs.drop_first(), value));
    }
}

/// Setting a value at a path leaves every other top-level key as it was.
pub proof fn law_override_keeps_other_keys(root: ValueView, segs: Seq<Seq<char>>, value: ValueView, k: Seq<char>)
    requires
        segs.len() >= 1,
        k != segs[0],
    ensures
        as_table(overridden(root, segs, value)).contains_key(k) == as_table(root).contains_key(k),
        as_table(root).contains_key(k) ==> as_table(overridden(root, segs, value))[k] == as_table(root)[k],
{
}

/// What an overlay holds at a path, unless it is a table, is what the merge
/// holds there.
pub proof fn law_overlay_value_wins(base: ValueView, overlay: ValueView, path: Seq<Seq<char>>, x: ValueView)
    requires
        lookup(overlay, path) == Some(x),
        !(x is Table),
    ensures
        lookup(merged(base, overlay), path) == Some(x),
    decreases path.len(),
{
    if path.len() > 0 {
        let o = as_table(overlay);
        let k = path[0];
        assert(o.contains_key(k));
        assert(overlay is Table);
        match base {
            ValueView::Table(b) => {
                lemma_merged_tables(b, o);
                if b.contains_key(k) {
                    law_overlay_value_wins(b[k], o[k], path.drop_first(), x);
                }
            },
            _ => {},
        }
    }
}

/// What a JSON overlay holds at a path, unless it is `null` or an object, is
/// what the merge holds there.
pub proof fn law_json_overlay_value_wins(base: ValueView, overlay: ValueView, path: Seq<Seq<char>>, x: ValueView)
    requires
        lookup(overlay, path) == Some(x),
        !(x is Table),
        !(x is Null),
    ensures
        lookup(json_merged(base, overlay), path) == Some(x),
    decreases path.len(),
{
    if path.len() > 0 {
        let o = as_table(overlay);
        let k = path[0];
        assert(o.contains_key(k));
        assert(overlay is Table);
        assert(!(o[k] is Null)) by {
            if o[k] is Null {
                if path.len() == 1 {
                    assert(lookup(o[k], path.drop_first()) == Some(o[k]));
                } else {
                    assert(as_table(o[k]) == Map::<Seq<char>, ValueView>::empty());
                }
            }
        }
        match base {
            ValueView::Table(b) => {
                lemma_merged_tables(b, o);
                if b.contains_key(k) && b[k] is Table && o[k] is Table {
                    law_json_overlay_value_wins(b[k], o[k], path.drop_first(), x);
                }
            },
            _ => {},
        }
    }
}

/// A JSON overlay without a (non-null) entry for a top-level key leaves that
/// key of the base as it was.
pub proof fn law_json_merge_keeps_untouched_key(base: ValueView, overlay: ValueView, k: Seq<char>)
    requires
        base is Table,
        overlay is Table || overlay is Null,
        !as_table(overlay).contains_key(k) || as_table(overlay)[k] is Null,
    ensures
        as_table(json_merged(base, overlay)).contains_key(k) == as_table(base).contains_key(k),
        as_table(base).contains_key(k) ==> as_table(json_merged(base, overlay))[k] == as_table(base)[k],
{
    if overlay is Table {
        lemma_merged_tables(as_table(base), as_table(overlay));
    }
}

} // verus!
