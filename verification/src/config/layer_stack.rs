//! Layers of configuration merged by priority: managed (MDM) settings over
//! system, user, project and session ones.
use vstd::prelude::*;

use crate::config::value::{
    as_table, copy_value, json_merged, law_json_merge_keeps_untouched_key, law_json_overlay_value_wins,
    lemma_merged_tables, lookup, merge_json, ConfigValue, ValueView,
};
use crate::text::{str_eq, to_chars};

verus! {

/// Where a layer of configuration comes from, from lowest to highest priority.
#[derive(Debug, Clone, Copy, PartialEq, Eq, Structural)]
pub enum ConfigLayer {
    Session,
    Project,
    User,
    System,
    Mdm,
}

/// The priority of a layer: higher wins.
pub open spec fn rank(l: ConfigLayer) -> nat {
    match l {
        ConfigLayer::Session => 0,
        ConfigLayer::Project => 1,
        ConfigLayer::User => 2,
        ConfigLayer::System => 3,
        ConfigLayer::Mdm => 4,
    }
}

/// The layer of a given priority.
pub open spec fn layer_of_rank(r: nat) -> ConfigLayer {
    if r == 0 {
        ConfigLayer::Session
    } else if r == 1 {
        ConfigLayer::Project
    } else if r == 2 {
        ConfigLayer::User
    } else if r == 3 {
        ConfigLayer::System
    } else {
        ConfigLayer::Mdm
    }
}

fn layer_of_rank_exec(r: u8) -> (l: ConfigLayer)
    ensures
        l == layer_of_rank(r as nat),
{
    if r == 0 {
        ConfigLayer::Session
    } else if r == 1 {
        ConfigLayer::Project
    } else if r == 2 {
        ConfigLayer::User
    } else if r == 3 {
        ConfigLayer::System
    } else {
        ConfigLayer::Mdm
    }
}

/// Whether an entry belongs to layer `l`.
pub open spec fn in_layer(l: ConfigLayer) -> spec_fn((ConfigLayer, ValueView)) -> bool {
    |e: (ConfigLayer, ValueView)| e.0 == l
}

/// The entries of layer `l`, in the order they were added.
pub open spec fn of_layer(ls: Seq<(ConfigLayer, ValueView)>, l: ConfigLayer) -> Seq<(ConfigLayer, ValueView)> {
    ls.filter(in_layer(l))
}

/// The entries of the layers of priority below `r`, lowest first, each layer's
/// entries in the order they were added.
pub open spec fn below_rank(ls: Seq<(ConfigLayer, ValueView)>, r: nat) -> Seq<(ConfigLayer, ValueView)>
    decreases r,
{
    if r == 0 {
        Seq::empty()
    } else {
        below_rank(ls, (r - 1) as nat) + of_layer(ls, layer_of_rank((r - 1) as nat))
    }
}

/// The entries ordered by priority, lowest first; entries of one layer keep
/// the order in which they were added.
pub open spec fn by_priority(ls: Seq<(ConfigLayer, ValueView)>) -> Seq<(ConfigLayer, ValueView)> {
    below_rank(ls, 5)
}

/// `base` with each entry's value merged into it in turn.
pub open spec fn merge_all(base: ValueView, ls: Seq<(ConfigLayer, ValueView)>) -> ValueView
    decreases ls.len(),
{
    if ls.len() == 0 {
        base
    } else {
        json_merged(merge_all(base, ls.drop_last()), ls.last().1)
    }
}

/// The settings of the profile `name`, when `merged` has one, merged over
/// `merged`; `merged` itself otherwise.
pub open spec fn with_profile(merged: ValueView, name: Seq<char>) -> ValueView {
    let t = as_table(merged);
    if t.contains_key("profiles"@) && as_table(t["profiles"@]).contains_key(name) {
        json_merged(merged, as_table(t["profiles"@])[name])
    } else {
        merged
    }
}

/// Merging a concatenation is merging its parts in turn.
pub proof fn lemma_merge_all_append(
    base: ValueView,
    a: Seq<(ConfigLayer, ValueView)>,
    b: Seq<(ConfigLayer, ValueView)>,
)
    ensures
        merge_all(base, a + b) == merge_all(merge_all(base, a), b),
    decreases b.len(),
{
    if b.len() == 0 {
        assert(a + b =~= a);
    } else {
        assert((a + b).drop_last() =~= a + b.drop_last());
        lemma_merge_all_append(base, a, b.drop_last());
    }
}

/// A stack of configuration layers.
#[derive(Debug)]
pub struct ConfigLayerStack {
    layers: Vec<(ConfigLayer, ConfigValue)>,
}

impl ConfigLayerStack {
    /// The layers in the order they were added, each with its settings.
    pub closed spec fn spec_layers(&self) -> Seq<(ConfigLayer, ValueView)> {
        Seq::new(self.layers@.len(), |i: int| (self.layers@[i].0, self.layers@[i].1@))
    }

    /// An empty stack.
    pub fn new() -> (r: Self)
        ensures
            r.spec_layers() == Seq::<(ConfigLayer, ValueView)>::empty(),
    {
        let r = ConfigLayerStack { layers: Vec::new() };
        assert(r.spec_layers() =~= Seq::<(ConfigLayer, ValueView)>::empty());
        r
    }

    /// Adds a layer of settings (a table of them).
    pub fn add_layer(&mut self, layer: ConfigLayer, config: ConfigValue)
        ensures
            final(self).spec_layers() == old(self).spec_layers().push((layer, config@)),
    {
        let ghost before = self.spec_layers();
        self.layers.push((layer, config));
        assert(self.spec_layers() =~= before.push((layer, config@)));
    }

    /// All layers merged over `defaults` by priority: each layer's settings
    /// override those of the layers below it, `null` settings changing nothing.
    pub fn merge(&self, defaults: &ConfigValue) -> (r: ConfigValue)
        ensures
            r@ == merge_all(defaults@, by_priority(self.spec_layers())),
    {
        let ghost ls = self.spec_layers();
        let mut acc = copy_value(defaults);
        let mut r: u8 = 0;
        while r < 5
            invariant
                r <= 5,
                ls == self.spec_layers(),
                acc@ == merge_all(defaults@, below_rank(ls, r as nat)),
            decreases 5 - r,
        {
            let l = layer_of_rank_exec(r);
            let ghost start = acc@;
            let mut i: usize = 0;
            while i < self.layers.len()
                invariant
                    i <= self.layers@.len(),
                    ls == self.spec_layers(),
                    ls.len() == self.layers@.len(),
                    acc@ == merge_all(start, of_layer(ls.take(i as int), l)),
                decreases self.layers@.len() - i,
            {
                let ghost e = ls[i as int];
                assert(ls.take(i + 1).drop_last() =~= ls.take(i as int));
                assert(ls.take(i + 1).last() == e);
                proof {
                    reveal(Seq::filter);
                }
                if self.layers[i].0 == l {
                    let ghost before = of_layer(ls.take(i as int), l);
                    merge_json(&mut acc, &self.layers[i].1);
                    assert(of_layer(ls.take(i + 1), l) == before.push(e));
                    assert(before.push(e).drop_last() =~= before);
                } else {
                    assert(of_layer(ls.take(i + 1), l) == of_layer(ls.take(i as int), l));
                }
                i = i + 1;
            }
            assert(ls.take(i as int) =~= ls);
            proof {
                lemma_merge_all_append(defaults@, below_rank(ls, r as nat), of_layer(ls, l));
            }
            r = r + 1;
        }
        acc
    }

    /// The merged layers with the named profile's settings merged over them.
    pub fn resolve_with_profile(&self, defaults: &ConfigValue, profile_name: &str) -> (r: ConfigValue)
        ensures
            r@ == with_profile(merge_all(defaults@, by_priority(self.spec_layers())), profile_name@),
    {
        let base = self.merge(defaults);
        apply_profile(base, profile_name)
    }
}

/// `merged` with the settings of its profile `name` merged over it, when its
/// `profiles` table has that profile.
pub fn apply_profile(merged: ConfigValue, name: &str) -> (r: ConfigValue)
    ensures
        r@ == with_profile(merged@, name@),
{
    let profile = match &merged {
        ConfigValue::Table(t) => {
            proof {
                crate::config::value::lemma_table_view(*t);
                reveal_strlit("profiles");
            }
            match t.get("profiles") {
                Some(ConfigValue::Table(ps)) => {
                    proof {
                        crate::config::value::lemma_table_view(*ps);
                    }
                    match ps.get(name) {
                        Some(p) => Some(copy_value(p)),
                        None => None,
                    }
                },
                _ => None,
            }
        },
        _ => None,
    };
    match profile {
        Some(p) => {
            let mut out = merged;
            merge_json(&mut out, &p);
            out
        },
        None => merged,
    }
}

/// Merging table layers into a table gives a table.
pub proof fn lemma_merge_all_table(base: ValueView, ls: Seq<(ConfigLayer, ValueView)>)
    requires
        base is Table,
        forall|i: int| 0 <= i < ls.len() ==> (#[trigger] ls[i]).1 is Table,
    ensures
        merge_all(base, ls) is Table,
    decreases ls.len(),
{
    if ls.len() > 0 {
        lemma_merge_all_table(base, ls.drop_last());
        lemma_merged_tables(as_table(merge_all(base, ls.drop_last())), as_table(ls.last().1));
    }
}

/// The last entry that sets a top-level key decides it, when it sets it to
/// something other than `null` or a table.
pub proof fn lemma_last_setter_wins(base: ValueView, ls: Seq<(ConfigLayer, ValueView)>, j: int, k: Seq<char>)
    requires
        base is Table,
        forall|i: int| 0 <= i < ls.len() ==> (#[trigger] ls[i]).1 is Table,
        0 <= j < ls.len(),
        as_table(ls[j].1).contains_key(k),
        !(as_table(ls[j].1)[k] is Null),
        !(as_table(ls[j].1)[k] is Table),
        forall|i: int| j < i < ls.len() ==> !as_table((#[trigger] ls[i]).1).contains_key(k) || as_table(
            ls[i].1,
        )[k] is Null,
    ensures
        as_table(merge_all(base, ls)).contains_key(k),
        as_table(merge_all(base, ls))[k] == as_table(ls[j].1)[k],
    decreases ls.len(),
{
    let x = as_table(ls[j].1)[k];
    let prev = merge_all(base, ls.drop_last());
    if j == ls.len() - 1 {
        let path = seq![k];
        assert(path[0] == k);
        assert(path.drop_first().len() == 0);
        assert(lookup(x, path.drop_first()) == Some(x));
        assert(lookup(ls[j].1, path) == Some(x));
        law_json_overlay_value_wins(prev, ls.last().1, path, x);
        let r = merge_all(base, ls);
        assert(lookup(r, path) == Some(x));
        assert(as_table(r).contains_key(k));
        assert(lookup(r, path) == lookup(as_table(r)[k], path.drop_first()));
    } else {
        assert(ls.drop_last()[j] == ls[j]);
        lemma_last_setter_wins(base, ls.drop_last(), j, k);
        lemma_merge_all_table(base, ls.drop_last());
        law_json_merge_keeps_untouched_key(prev, ls.last().1, k);
    }
}

/// Of the layers that set a top-level key, the one of highest priority (the
/// latest added among equals) decides it, when it sets it to something other
/// than `null` or a table.
pub proof fn law_highest_layer_wins(
    defaults: ValueView,
    layers: Seq<(ConfigLayer, ValueView)>,
    j: int,
    k: Seq<char>,
)
    requires
        defaults is Table,
        forall|i: int| 0 <= i < layers.len() ==> (#[trigger] layers[i]).1 is Table,
        0 <= j < by_priority(layers).len(),
        as_table(by_priority(layers)[j].1).contains_key(k),
        !(as_table(by_priority(layers)[j].1)[k] is Null),
        !(as_table(by_priority(layers)[j].1)[k] is Table),
        forall|i: int| j < i < by_priority(layers).len() ==> !as_table((#[trigger] by_priority(layers)[i]).1).contains_key(k)
            || as_table(by_priority(layers)[i].1)[k] is Null,
    ensures
        as_table(merge_all(defaults, by_priority(layers)))[k] == as_table(by_priority(layers)[j].1)[k],
{
    let ls = by_priority(layers);
    assert forall|i: int| 0 <= i < ls.len() implies (#[trigger] ls[i]).1 is Table by {
        lemma_priority_entries(layers, 5, i);
    }
    lemma_last_setter_wins(defaults, ls, j, k);
}

/// Layers are merged from lowest to highest priority: session, project, user,
/// system, then managed (MDM) settings, each layer's entries in the order they
/// were added; so a layer of higher rank overrides the ones below it.
pub proof fn law_merge_order(ls: Seq<(ConfigLayer, ValueView)>)
    ensures
        by_priority(ls) == of_layer(ls, ConfigLayer::Session) + of_layer(ls, ConfigLayer::Project) + of_layer(
            ls,
            ConfigLayer::User,
        ) + of_layer(ls, ConfigLayer::System) + of_layer(ls, ConfigLayer::Mdm),
{
    reveal_with_fuel(below_rank, 6);
    assert(Seq::<(ConfigLayer, ValueView)>::empty() + of_layer(ls, ConfigLayer::Session) =~= of_layer(
        ls,
        ConfigLayer::Session,
    ));
}

/// A user layer outranks a project layer, whichever was added first: the
/// project's settings are merged first and the user's over them.
pub proof fn law_user_outranks_project(defaults: ValueView, user: ValueView, project: ValueView)
    ensures
        by_priority(seq![(ConfigLayer::User, user), (ConfigLayer::Project, project)]) == seq![
            (ConfigLayer::Project, project),
            (ConfigLayer::User, user),
        ],
        by_priority(seq![(ConfigLayer::Project, project), (ConfigLayer::User, user)]) == seq![
            (ConfigLayer::Project, project),
            (ConfigLayer::User, user),
        ],
        merge_all(defaults, by_priority(seq![(ConfigLayer::User, user), (ConfigLayer::Project, project)]))
            == json_merged(json_merged(defaults, project), user),
        merge_all(defaults, by_priority(seq![(ConfigLayer::Project, project), (ConfigLayer::User, user)]))
            == json_merged(json_merged(defaults, project), user),
{
    let u = (ConfigLayer::User, user);
    let p = (ConfigLayer::Project, project);
    let a = seq![u, p];
    let b = seq![p, u];
    law_merge_order(a);
    law_merge_order(b);
    reveal_with_fuel(Seq::filter, 3);
    assert(a.drop_last() =~= seq![u]);
    assert(seq![u].drop_last() =~= Seq::<(ConfigLayer, ValueView)>::empty());
    assert(b.drop_last() =~= seq![p]);
    assert(seq![p].drop_last() =~= Seq::<(ConfigLayer, ValueView)>::empty());
    assert(of_layer(a, ConfigLayer::Session) =~= Seq::<(ConfigLayer, ValueView)>::empty());
    assert(of_layer(a, ConfigLayer::Project) =~= seq![p]);
    assert(of_layer(a, ConfigLayer::User) =~= seq![u]);
    assert(of_layer(a, ConfigLayer::System) =~= Seq::<(ConfigLayer, ValueView)>::empty());
    assert(of_layer(a, ConfigLayer::Mdm) =~= Seq::<(ConfigLayer, ValueView)>::empty());
    assert(of_layer(b, ConfigLayer::Session) =~= Seq::<(ConfigLayer, ValueView)>::empty());
    assert(of_layer(b, ConfigLayer::Project) =~= seq![p]);
    assert(of_layer(b, ConfigLayer::User) =~= seq![u]);
    assert(of_layer(b, ConfigLayer::System) =~= Seq::<(ConfigLayer, ValueView)>::empty());
    assert(of_layer(b, ConfigLayer::Mdm) =~= Seq::<(ConfigLayer, ValueView)>::empty());
    let order = seq![p, u];
    assert(by_priority(a) =~= order);
    assert(by_priority(b) =~= order);
    assert(order.drop_last() =~= seq![p]);
    assert(merge_all(defaults, seq![p]) == json_merged(merge_all(defaults, seq![p].drop_last()), project));
}

/// A key that a user layer sets (to something other than `null` or a table)
/// keeps the user's value in the merge, whatever a project layer sets it to
/// and whichever was added first.
pub proof fn law_user_value_beats_project(defaults: ValueView, user: ValueView, project: ValueView, k: Seq<char>)
    requires
        defaults is Table,
        user is Table,
        project is Table,
        as_table(user).contains_key(k),
        !(as_table(user)[k] is Null),
        !(as_table(user)[k] is Table),
    ensures
        as_table(merge_all(defaults, by_priority(seq![(ConfigLayer::User, user), (ConfigLayer::Project, project)])))[k]
            == as_table(user)[k],
        as_table(merge_all(defaults, by_priority(seq![(ConfigLayer::Project, project), (ConfigLayer::User, user)])))[k]
            == as_table(user)[k],
{
    let order = seq![(ConfigLayer::Project, project), (ConfigLayer::User, user)];
    law_user_outranks_project(defaults, user, project);
    assert(order.drop_last() =~= seq![(ConfigLayer::Project, project)]);
    assert(seq![(ConfigLayer::Project, project)].drop_last() =~= Seq::<(ConfigLayer, ValueView)>::empty());
    lemma_last_setter_wins(defaults, order, 1, k);
}

/// Every entry in priority order is an entry of the stack.
proof fn lemma_priority_entries(ls: Seq<(ConfigLayer, ValueView)>, r: nat, i: int)
    requires
        0 <= i < below_rank(ls, r).len(),
    ensures
        ls.contains(below_rank(ls, r)[i]),
    decreases r,
{
    if r > 0 {
        let a = below_rank(ls, (r - 1) as nat);
        let b = of_layer(ls, layer_of_rank((r - 1) as nat));
        if i < a.len() {
            lemma_priority_entries(ls, (r - 1) as nat, i);
        } else {
            ls.lemma_filter_contains_rev(in_layer(layer_of_rank((r - 1) as nat)), b[i - a.len()]);
            assert(b.contains(b[i - a.len()]));
        }
    }
}

/// A setting that the selected profile gives, other than `null` or a table,
/// is what the resolved configuration holds.
pub proof fn law_profile_value_wins(merged: ValueView, name: Seq<char>, k: Seq<char>)
    requires
        as_table(merged).contains_key("profiles"@),
        as_table(as_table(merged)["profiles"@]).contains_key(name),
        as_table(as_table(as_table(merged)["profiles"@])[name]).contains_key(k),
        !(as_table(as_table(as_table(merged)["profiles"@])[name])[k] is Null),
        !(as_table(as_table(as_table(merged)["profiles"@])[name])[k] is Table),
    ensures
        as_table(with_profile(merged, name)).contains_key(k),
        as_table(with_profile(merged, name))[k] == as_table(as_table(as_table(merged)["profiles"@])[name])[k],
{
    let p = as_table(as_table(merged)["profiles"@])[name];
    let x = as_table(p)[k];
    let path = seq![k];
    assert(path[0] == k);
    assert(path.drop_first().len() == 0);
    assert(lookup(x, path.drop_first()) == Some(x));
    assert(lookup(p, path) == Some(x));
    law_json_overlay_value_wins(merged, p, path, x);
    let r = with_profile(merged, name);
    assert(lookup(r, path) == Some(x));
    assert(as_table(r).contains_key(k));
    assert(lookup(r, path) == lookup(as_table(r)[k], path.drop_first()));
}

} // verus!
