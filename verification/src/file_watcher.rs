//! Watching directory roots for changes: which changed paths count, how
//! registrations of one root are counted, and how bursts of changes are
//! coalesced into one event per interval.
//!
//! A path is the list of its components, as `Path::components` yields them;
//! paths are compared and ordered component by component, as `Path` does.
use vstd::prelude::*;

use crate::strmap::{compare_chars, lemma_str_lt_asymmetric, lemma_str_lt_irreflexive, lemma_str_lt_total, lemma_str_lt_transitive, str_lt, str_views};
use crate::text::{clone_strings, to_chars};

verus! {

/// Milliseconds between two change events.
pub const THROTTLE_INTERVAL_MS: u64 = 10_000;

/// Events the watcher sends.
#[derive(Debug, Clone)]
pub enum FileWatcherEvent {
    /// Files under watched roots changed.
    Changed { paths: Vec<Vec<String>> },
}

/// A path by its components.
pub open spec fn path_view(p: Vec<String>) -> Seq<Seq<char>> {
    str_views(p@)
}

/// The components of a list of paths.
pub open spec fn paths_view(ps: Seq<Vec<String>>) -> Seq<Seq<Seq<char>>> {
    Seq::new(ps.len(), |i: int| path_view(ps[i]))
}

/// Component-by-component order on paths.
pub open spec fn path_lt(a: Seq<Seq<char>>, b: Seq<Seq<char>>) -> bool
    decreases a.len(),
{
    if a.len() == 0 {
        b.len() > 0
    } else if b.len() == 0 {
        false
    } else if str_lt(a[0], b[0]) {
        true
    } else if a[0] == b[0] {
        path_lt(a.drop_first(), b.drop_first())
    } else {
        false
    }
}

/// `path_lt` is irreflexive.
pub proof fn lemma_path_lt_irreflexive(a: Seq<Seq<char>>)
    ensures
        !path_lt(a, a),
    decreases a.len(),
{
    if a.len() > 0 {
        lemma_str_lt_irreflexive(a[0]);
        lemma_path_lt_irreflexive(a.drop_first());
    }
}

/// `path_lt` is transitive.
pub proof fn lemma_path_lt_transitive(a: Seq<Seq<char>>, b: Seq<Seq<char>>, c: Seq<Seq<char>>)
    requires
        path_lt(a, b),
        path_lt(b, c),
    ensures
        path_lt(a, c),
    decreases a.len(),
{
    if a.len() > 0 && b.len() > 0 && c.len() > 0 {
        if str_lt(a[0], b[0]) && str_lt(b[0], c[0]) {
            lemma_str_lt_transitive(a[0], b[0], c[0]);
        } else if a[0] == b[0] && b[0] == c[0] {
            lemma_path_lt_transitive(a.drop_first(), b.drop_first(), c.drop_first());
        }
    }
}

/// `path_lt` is total on distinct paths.
pub proof fn lemma_path_lt_total(a: Seq<Seq<char>>, b: Seq<Seq<char>>)
    ensures
        a == b || path_lt(a, b) || path_lt(b, a),
    decreases a.len(),
{
    if a.len() > 0 && b.len() > 0 {
        lemma_str_lt_total(a[0], b[0]);
        if a[0] == b[0] {
            lemma_path_lt_total(a.drop_first(), b.drop_first());
            if a.drop_first() == b.drop_first() {
                assert(a =~= seq![a[0]] + a.drop_first());
                assert(b =~= seq![b[0]] + b.drop_first());
            }
        } else if str_lt(b[0], a[0]) {
            lemma_str_lt_asymmetric(b[0], a[0]);
        }
    } else if a.len() == 0 && b.len() == 0 {
        assert(a =~= b);
    }
}

/// `path_lt` is asymmetric.
pub proof fn lemma_path_lt_asymmetric(a: Seq<Seq<char>>, b: Seq<Seq<char>>)
    requires
        path_lt(a, b),
    ensures
        !path_lt(b, a),
{
    if path_lt(b, a) {
        lemma_path_lt_transitive(a, b, a);
        lemma_path_lt_irreflexive(a);
    }
}

/// Compares two paths: `Some(true)` when `a` comes first, `Some(false)` when
/// `b` does, `None` when they are equal.
pub fn compare_paths(a: &Vec<String>, b: &Vec<String>) -> (r: Option<bool>)
    ensures
        r == Some(true) <==> path_lt(path_view(*a), path_view(*b)),
        r == Some(false) <==> path_lt(path_view(*b), path_view(*a)),
        r is None <==> path_view(*a) == path_view(*b),
{
    let ghost av = path_view(*a);
    let ghost bv = path_view(*b);
    let mut i: usize = 0;
    assert(av.skip(0) =~= av);
    assert(bv.skip(0) =~= bv);
    while i < a.len() && i < b.len()
        invariant
            av == path_view(*a),
            bv == path_view(*b),
            i <= a.len(),
            i <= b.len(),
            av.take(i as int) == bv.take(i as int),
            path_lt(av, bv) == path_lt(av.skip(i as int), bv.skip(i as int)),
            path_lt(bv, av) == path_lt(bv.skip(i as int), av.skip(i as int)),
        decreases a.len() - i,
    {
        let x = to_chars(a[i].as_str());
        let y = to_chars(b[i].as_str());
        assert(av.skip(i as int)[0] == av[i as int]);
        assert(bv.skip(i as int)[0] == bv[i as int]);
        match compare_chars(x.as_slice(), y.as_slice()) {
            Some(true) => {
                proof {
                    lemma_str_lt_irreflexive(av[i as int]);
                    lemma_str_lt_asymmetric(av[i as int], bv[i as int]);
                    assert(av[i as int] != bv[i as int]);
                    assert(av != bv) by {
                        if av == bv {
                            assert(av[i as int] == bv[i as int]);
                        }
                    }
                }
                return Some(true);
            },
            Some(false) => {
                proof {
                    lemma_str_lt_irreflexive(bv[i as int]);
                    lemma_str_lt_asymmetric(bv[i as int], av[i as int]);
                    assert(av != bv) by {
                        if av == bv {
                            assert(av[i as int] == bv[i as int]);
                        }
                    }
                }
                return Some(false);
            },
            None => {},
        }
        proof {
            assert(av.skip(i as int).drop_first() =~= av.skip(i + 1));
            assert(bv.skip(i as int).drop_first() =~= bv.skip(i + 1));
            assert(av.take(i + 1) =~= av.take(i as int).push(av[i as int]));
            assert(bv.take(i + 1) =~= bv.take(i as int).push(bv[i as int]));
        }
        i = i + 1;
    }
    if a.len() < b.len() {
        proof {
            assert(av.skip(i as int).len() == 0);
            assert(av != bv) by {
                if av == bv {
                    assert(av.len() == bv.len());
                }
            }
        }
        Some(true)
    } else if b.len() < a.len() {
        proof {
            assert(bv.skip(i as int).len() == 0);
            assert(av != bv) by {
                if av == bv {
                    assert(av.len() == bv.len());
                }
            }
        }
        Some(false)
    } else {
        assert(av =~= av.take(i as int));
        assert(bv =~= bv.take(i as int));
        proof {
            lemma_path_lt_irreflexive(av);
        }
        None
    }
}

/// Paths in strictly ascending order.
pub open spec fn strictly_sorted(ps: Seq<Seq<Seq<char>>>) -> bool {
    forall|i: int, j: int| 0 <= i < j < ps.len() ==> path_lt(ps[i], ps[j])
}

/// `p` lies under `root`: the root's components begin the path's.
pub open spec fn under(p: Seq<Seq<char>>, root: Seq<Seq<char>>) -> bool {
    root.len() <= p.len() && p.take(root.len() as int) == root
}

/// `p` lies under one of `roots`.
pub open spec fn under_some(p: Seq<Seq<char>>, roots: Seq<Seq<Seq<char>>>) -> bool {
    exists|i: int| 0 <= i < roots.len() && under(p, #[trigger] roots[i])
}

/// The paths of a change event that lie under a watched root.
pub open spec fn relevant_paths(paths: Seq<Seq<Seq<char>>>, roots: Seq<Seq<Seq<char>>>) -> Seq<Seq<Seq<char>>>
    decreases paths.len(),
{
    if paths.len() == 0 {
        Seq::empty()
    } else {
        let rest = relevant_paths(paths.drop_last(), roots);
        if under_some(paths.last(), roots) {
            rest.push(paths.last())
        } else {
            rest
        }
    }
}

fn is_under(p: &Vec<String>, root: &Vec<String>) -> (r: bool)
    ensures
        r == under(path_view(*p), path_view(*root)),
{
    if root.len() > p.len() {
        return false;
    }
    let mut i: usize = 0;
    while i < root.len()
        invariant
            root.len() <= p.len(),
            i <= root.len(),
            path_view(*p).take(i as int) == path_view(*root).take(i as int),
        decreases root.len() - i,
    {
        let x = to_chars(p[i].as_str());
        let y = to_chars(root[i].as_str());
        if compare_chars(x.as_slice(), y.as_slice()).is_some() {
            assert(path_view(*p).take(root.len() as int)[i as int] == path_view(*p)[i as int]);
            return false;
        }
        assert(path_view(*p).take(i + 1) =~= path_view(*p).take(i as int).push(path_view(*p)[i as int]));
        assert(path_view(*root).take(i + 1) =~= path_view(*root).take(i as int).push(path_view(*root)[i as int]));
        i = i + 1;
    }
    assert(path_view(*root).take(i as int) =~= path_view(*root));
    true
}

fn copy_path(p: &Vec<String>) -> (r: Vec<String>)
    ensures
        path_view(r) == path_view(*p),
{
    let r = clone_strings(p);
    assert(path_view(r) =~= path_view(*p));
    r
}

/// The paths of a filesystem event that matter: none unless files were
/// created, modified or removed; otherwise those under a watched root.
pub fn classify(is_change: bool, paths: &[Vec<String>], roots: &[Vec<String>]) -> (r: Vec<Vec<String>>)
    ensures
        !is_change ==> r@.len() == 0,
        is_change ==> paths_view(r@) == relevant_paths(paths_view(paths@), paths_view(roots@)),
{
    let mut out: Vec<Vec<String>> = Vec::new();
    if !is_change {
        return out;
    }
    let ghost rv = paths_view(roots@);
    let ghost pv = paths_view(paths@);
    let mut i: usize = 0;
    while i < paths.len()
        invariant
            i <= paths@.len(),
            rv == paths_view(roots@),
            pv == paths_view(paths@),
            paths_view(out@) == relevant_paths(pv.take(i as int), rv),
        decreases paths@.len() - i,
    {
        assert(pv.take(i + 1).drop_last() =~= pv.take(i as int));
        assert(pv.take(i + 1).last() == pv[i as int]);
        let mut hit = false;
        let mut k: usize = 0;
        while k < roots.len()
            invariant
                k <= roots@.len(),
                rv == paths_view(roots@),
                pv == paths_view(paths@),
                i < paths@.len(),
                hit == exists|m: int| 0 <= m < k && under(pv[i as int], #[trigger] rv[m]),
            decreases roots@.len() - k,
        {
            assert(rv[k as int] == path_view(roots@[k as int]));
            assert(pv[i as int] == path_view(paths@[i as int]));
            let u = is_under(&paths[i], &roots[k]);
            if u {
                hit = true;
            }
            assert(hit == exists|m: int| 0 <= m < k + 1 && under(pv[i as int], #[trigger] rv[m])) by {
                if u {
                    assert(under(pv[i as int], rv[k as int]));
                }
            }
            k = k + 1;
        }
        if hit {
            let ghost before = paths_view(out@);
            out.push(copy_path(&paths[i]));
            assert(paths_view(out@) =~= before.push(pv[i as int]));
        }
        i = i + 1;
    }
    assert(pv.take(i as int) =~= pv);
    out
}

/// Changed paths waiting to be reported, and the time (milliseconds on the
/// watcher's clock) from which reporting is allowed again.
#[derive(Debug)]
pub struct ThrottledPaths {
    pending: Vec<Vec<String>>,
    next_allowed: u64,
}

impl ThrottledPaths {
    /// The pending paths are held once each, in ascending order.
    #[verifier::type_invariant]
    spec fn inv(self) -> bool {
        strictly_sorted(paths_view(self.pending@))
    }

    /// The pending paths, in ascending order.
    pub closed spec fn spec_pending(&self) -> Seq<Seq<Seq<char>>> {
        paths_view(self.pending@)
    }

    /// When reporting is allowed again.
    pub closed spec fn spec_next_allowed(&self) -> u64 {
        self.next_allowed
    }

    /// Nothing pending; reporting allowed from `now`.
    pub fn new(now: u64) -> (r: Self)
        ensures
            r.spec_pending() == Seq::<Seq<Seq<char>>>::empty(),
            r.spec_next_allowed() == now,
    {
        let r = ThrottledPaths { pending: Vec::new(), next_allowed: now };
        assert(r.spec_pending() =~= Seq::<Seq<Seq<char>>>::empty());
        r
    }

    /// The pending paths are held once each, in ascending order.
    pub fn sorted(&self) -> (r: bool)
        ensures
            r,
            strictly_sorted(self.spec_pending()),
    {
        proof {
            use_type_invariant(self);
        }
        true
    }

    fn insert(&mut self, p: &Vec<String>)
        ensures
            final(self).spec_pending().to_set() == old(self).spec_pending().to_set().insert(path_view(*p)),
            final(self).spec_next_allowed() == old(self).spec_next_allowed(),
    {
        proof {
            use_type_invariant(&*self);
        }
        let ghost x = path_view(*p);
        let mut v: Vec<Vec<String>> = Vec::new();
        std::mem::swap(&mut v, &mut self.pending);
        let ghost ov = paths_view(v@);
        let mut j: usize = 0;
        let mut equal = false;
        while j < v.len()
            invariant_except_break
                !equal,
            invariant
                j <= v@.len(),
                ov == paths_view(v@),
                x == path_view(*p),
                forall|k: int| 0 <= k < j ==> path_lt(#[trigger] ov[k], x),
            ensures
                j <= v@.len(),
                forall|k: int| 0 <= k < j ==> path_lt(#[trigger] ov[k], x),
                equal ==> j < v@.len() && ov[j as int] == x,
                !equal && j < v@.len() ==> path_lt(x, ov[j as int]),
            decreases v@.len() - j,
        {
            assert(ov[j as int] == path_view(v@[j as int]));
            match compare_paths(&v[j], p) {
                Some(true) => {},
                Some(false) => {
                    break;
                },
                None => {
                    equal = true;
                    break;
                },
            }
            j = j + 1;
        }
        if !equal {
            v.insert(j, copy_path(p));
            let ghost nv = paths_view(v@);
            assert(nv =~= ov.insert(j as int, x));
            assert(strictly_sorted(nv)) by {
                assert forall|a: int, b: int| 0 <= a < b < nv.len() implies path_lt(nv[a], nv[b]) by {
                    if a < j && b == j {
                    } else if a == j && b > j {
                        if b - 1 > j {
                            lemma_path_lt_transitive(x, ov[j as int], ov[b - 1]);
                        }
                    } else if a < j && b > j {
                        if b - 1 > j {
                            lemma_path_lt_transitive(x, ov[j as int], ov[b - 1]);
                        }
                        lemma_path_lt_transitive(ov[a], x, ov[b - 1]);
                    } else if a > j {
                        assert(path_lt(ov[a - 1], ov[b - 1]));
                    } else {
                        assert(path_lt(ov[a], ov[b]));
                    }
                }
            }
            assert(nv.to_set() =~= ov.to_set().insert(x)) by {
                assert forall|y: Seq<Seq<char>>| #[trigger] nv.to_set().contains(y) == ov.to_set().insert(x).contains(y) by {
                    if nv.contains(y) {
                        let k = choose|k: int| 0 <= k < nv.len() && #[trigger] nv[k] == y;
                        if k < j {
                            assert(ov[k] == y);
                        } else if k > j {
                            assert(ov[k - 1] == y);
                        }
                    }
                    if ov.contains(y) {
                        let k = choose|k: int| 0 <= k < ov.len() && #[trigger] ov[k] == y;
                        if k < j {
                            assert(nv[k] == y);
                        } else {
                            assert(nv[k + 1] == y);
                        }
                    }
                    if y == x {
                        assert(nv[j as int] == x);
                    }
                }
            }
        } else {
            assert(ov.to_set() =~= ov.to_set().insert(x)) by {
                assert(ov.contains(x)) by {
                    assert(ov[j as int] == x);
                }
            }
        }
        self.pending = v;
    }

    /// Adds changed paths to those pending.
    pub fn add(&mut self, paths: Vec<Vec<String>>)
        ensures
            final(self).spec_pending().to_set() == old(self).spec_pending().to_set() + paths_view(paths@).to_set(),
            final(self).spec_next_allowed() == old(self).spec_next_allowed(),
    {
        let ghost start = self.spec_pending().to_set();
        let ghost pv = paths_view(paths@);
        let mut i: usize = 0;
        assert(start + pv.take(0).to_set() =~= start);
        while i < paths.len()
            invariant
                i <= paths@.len(),
                pv == paths_view(paths@),
                self.spec_pending().to_set() == start + pv.take(i as int).to_set(),
                self.spec_next_allowed() == old(self).spec_next_allowed(),
            decreases paths@.len() - i,
        {
            self.insert(&paths[i]);
            assert(pv.take(i + 1) =~= pv.take(i as int).push(pv[i as int]));
            assert(pv.take(i + 1).to_set() =~= pv.take(i as int).to_set().insert(pv[i as int])) by {
                assert forall|y: Seq<Seq<char>>| #[trigger] pv.take(i + 1).to_set().contains(y)
                    == pv.take(i as int).to_set().insert(pv[i as int]).contains(y) by {
                    if pv.take(i + 1).contains(y) {
                        let k = choose|k: int| 0 <= k < i + 1 && #[trigger] pv.take(i + 1)[k] == y;
                        if k < i {
                            assert(pv.take(i as int)[k] == y);
                        }
                    }
                    if pv.take(i as int).contains(y) {
                        let k = choose|k: int| 0 <= k < i && #[trigger] pv.take(i as int)[k] == y;
                        assert(pv.take(i + 1)[k] == y);
                    }
                    if y == pv[i as int] {
                        assert(pv.take(i + 1)[i as int] == y);
                    }
                }
            }
            assert(self.spec_pending().to_set() =~= start + pv.take(i + 1).to_set());
            i = i + 1;
        }
        assert(pv.take(i as int) =~= pv);
    }

    fn drain(&mut self, now: u64) -> (r: Vec<Vec<String>>)
        requires
            now <= u64::MAX - THROTTLE_INTERVAL_MS,
        ensures
            paths_view(r@) == old(self).spec_pending(),
            final(self).spec_pending() == Seq::<Seq<Seq<char>>>::empty(),
            final(self).spec_next_allowed() == now + THROTTLE_INTERVAL_MS,
    {
        let mut v: Vec<Vec<String>> = Vec::new();
        std::mem::swap(&mut v, &mut self.pending);
        self.next_allowed = now + THROTTLE_INTERVAL_MS;
        assert(self.spec_pending() =~= Seq::<Seq<Seq<char>>>::empty());
        v
    }

    /// The pending paths, in ascending order, when some are pending and
    /// reporting is allowed at `now`; reporting is then next allowed one
    /// interval after `now`. Otherwise nothing changes.
    pub fn take_ready(&mut self, now: u64) -> (r: Option<Vec<Vec<String>>>)
        requires
            old(self).spec_pending().len() > 0 && now >= old(self).spec_next_allowed() ==> now <= u64::MAX
                - THROTTLE_INTERVAL_MS,
        ensures
            (old(self).spec_pending().len() == 0 || now < old(self).spec_next_allowed()) ==> (r is None
                && final(self).spec_pending() == old(self).spec_pending() && final(self).spec_next_allowed()
                == old(self).spec_next_allowed()),
            (old(self).spec_pending().len() > 0 && now >= old(self).spec_next_allowed()) ==> (r matches Some(ps)
                && paths_view(ps@) == old(self).spec_pending() && final(self).spec_pending()
                == Seq::<Seq<Seq<char>>>::empty() && final(self).spec_next_allowed() == now + THROTTLE_INTERVAL_MS),
    {
        if self.pending.len() == 0 || now < self.next_allowed {
            return None;
        }
        Some(self.drain(now))
    }

    /// All pending paths, in ascending order, when some are pending, whatever
    /// the time; reporting is then next allowed one interval after `now`.
    pub fn take_pending(&mut self, now: u64) -> (r: Option<Vec<Vec<String>>>)
        requires
            old(self).spec_pending().len() > 0 ==> now <= u64::MAX - THROTTLE_INTERVAL_MS,
        ensures
            old(self).spec_pending().len() == 0 ==> (r is None && final(self).spec_pending() == old(self).spec_pending()
                && final(self).spec_next_allowed() == old(self).spec_next_allowed()),
            old(self).spec_pending().len() > 0 ==> (r matches Some(ps) && paths_view(ps@) == old(self).spec_pending()
                && final(self).spec_pending() == Seq::<Seq<Seq<char>>>::empty() && final(self).spec_next_allowed()
                == now + THROTTLE_INTERVAL_MS),
    {
        if self.pending.len() == 0 {
            return None;
        }
        Some(self.drain(now))
    }

    /// When pending paths are held back at `now`: the time they may be reported.
    pub fn next_deadline(&self, now: u64) -> (r: Option<u64>)
        ensures
            r == if self.spec_pending().len() > 0 && now < self.spec_next_allowed() {
                Some(self.spec_next_allowed())
            } else {
                None
            },
    {
        if self.pending.len() > 0 && now < self.next_allowed {
            Some(self.next_allowed)
        } else {
            None
        }
    }
}

/// The counts a registration of `root` leaves: one more for it.
pub open spec fn registered(m: Map<Seq<Seq<char>>, nat>, root: Seq<Seq<char>>) -> Map<Seq<Seq<char>>, nat> {
    m.insert(
        root,
        if m.contains_key(root) {
            m[root] + 1
        } else {
            1
        },
    )
}

/// The counts an unregistration of `root` leaves: one less for it, and no
/// entry once none is left.
pub open spec fn unregistered(m: Map<Seq<Seq<char>>, nat>, root: Seq<Seq<char>>) -> Map<Seq<Seq<char>>, nat> {
    if m.contains_key(root) {
        if m[root] > 1 {
            m.insert(root, (m[root] - 1) as nat)
        } else {
            m.remove(root)
        }
    } else {
        m
    }
}

/// Unregistering a root right after registering it restores the counts.
pub proof fn law_register_then_unregister(m: Map<Seq<Seq<char>>, nat>, root: Seq<Seq<char>>)
    requires
        forall|k: Seq<Seq<char>>| #[trigger] m.contains_key(k) ==> m[k] >= 1,
    ensures
        unregistered(registered(m, root), root) == m,
{
    if m.contains_key(root) {
        assert(registered(m, root).insert(root, (registered(m, root)[root] - 1) as nat) =~= m);
    } else {
        assert(registered(m, root).remove(root) =~= m);
    }
}

/// The root of each entry.
pub open spec fn root_keys(e: Seq<(Vec<String>, usize)>) -> Seq<Seq<Seq<char>>> {
    Seq::new(e.len(), |i: int| path_view(e[i].0))
}

/// The registration count of each root.
pub open spec fn counts_map(e: Seq<(Vec<String>, usize)>) -> Map<Seq<Seq<char>>, nat> {
    Map::new(|k: Seq<Seq<char>>| root_keys(e).contains(k), |k: Seq<Seq<char>>| e[root_keys(e).index_of(k)].1 as nat)
}

/// With each root held once, the count of the root of entry `i` is that entry's.
proof fn lemma_counts_at(e: Seq<(Vec<String>, usize)>, i: int)
    requires
        root_keys(e).no_duplicates(),
        0 <= i < e.len(),
    ensures
        counts_map(e).contains_key(root_keys(e)[i]),
        counts_map(e)[root_keys(e)[i]] == e[i].1 as nat,
{
    assert(root_keys(e).contains(root_keys(e)[i]));
}

/// The watched roots, with how many registrations each has.
#[derive(Debug)]
pub struct WatchedRoots {
    entries: Vec<(Vec<String>, usize)>,
}

impl WatchedRoots {
    /// Each root is held once, with at least one registration.
    #[verifier::type_invariant]
    spec fn inv(self) -> bool {
        &&& root_keys(self.entries@).no_duplicates()
        &&& forall|i: int| 0 <= i < self.entries@.len() ==> (#[trigger] self.entries@[i]).1 >= 1
    }

    /// The registration counts, by root.
    pub closed spec fn spec_counts(&self) -> Map<Seq<Seq<char>>, nat> {
        counts_map(self.entries@)
    }

    /// No roots.
    pub fn new() -> (r: Self)
        ensures
            r.spec_counts() == Map::<Seq<Seq<char>>, nat>::empty(),
    {
        let r = WatchedRoots { entries: Vec::new() };
        assert(r.spec_counts() =~= Map::<Seq<Seq<char>>, nat>::empty());
        r
    }

    /// Every count is at least one.
    pub fn counts_positive(&self) -> (r: bool)
        ensures
            r,
            forall|k: Seq<Seq<char>>| #[trigger] self.spec_counts().contains_key(k) ==> self.spec_counts()[k] >= 1,
    {
        proof {
            use_type_invariant(self);
            assert forall|k: Seq<Seq<char>>| #[trigger] self.spec_counts().contains_key(k) implies self.spec_counts()[k]
                >= 1 by {
                let i = root_keys(self.entries@).index_of(k);
                assert(self.entries@[i].1 >= 1);
            }
        }
        true
    }

    fn position(&self, root: &Vec<String>) -> (r: Option<usize>)
        ensures
            match r {
                Some(i) => i < self.entries@.len() && root_keys(self.entries@)[i as int] == path_view(*root),
                None => !root_keys(self.entries@).contains(path_view(*root)),
            },
    {
        let ghost ks = root_keys(self.entries@);
        let mut i: usize = 0;
        while i < self.entries.len()
            invariant
                i <= self.entries@.len(),
                ks == root_keys(self.entries@),
                forall|j: int| 0 <= j < i ==> ks[j] != path_view(*root),
            decreases self.entries@.len() - i,
        {
            if compare_paths(&self.entries[i].0, root).is_none() {
                return Some(i);
            }
            i = i + 1;
        }
        None
    }

    /// How many registrations a root has.
    pub fn count(&self, root: &Vec<String>) -> (r: usize)
        ensures
            r == if self.spec_counts().contains_key(path_view(*root)) {
                self.spec_counts()[path_view(*root)]
            } else {
                0
            },
    {
        proof {
            use_type_invariant(self);
        }
        match self.position(root) {
            Some(i) => {
                proof {
                    lemma_counts_at(self.entries@, i as int);
                }
                self.entries[i].1
            },
            None => 0,
        }
    }

    /// How many roots are watched.
    pub fn len(&self) -> (r: usize)
        ensures
            r == self.spec_counts().dom().len(),
    {
        proof {
            use_type_invariant(self);
            let ks = root_keys(self.entries@);
            ks.unique_seq_to_set();
            assert(self.spec_counts().dom() =~= ks.to_set());
        }
        self.entries.len()
    }

    /// Registers a root once more; the result says whether it was not watched
    /// before, so that watching it must start.
    pub fn add_root(&mut self, root: &Vec<String>) -> (first: bool)
        requires
            old(self).spec_counts().contains_key(path_view(*root)) ==> old(self).spec_counts()[path_view(*root)]
                < usize::MAX,
        ensures
            final(self).spec_counts() == registered(old(self).spec_counts(), path_view(*root)),
            first == !old(self).spec_counts().contains_key(path_view(*root)),
    {
        proof {
            use_type_invariant(&*self);
        }
        let ghost before = self.spec_counts();
        let ghost x = path_view(*root);
        let mut e: Vec<(Vec<String>, usize)> = Vec::new();
        std::mem::swap(&mut e, &mut self.entries);
        let ghost oe = e@;
        let found = {
            let probe = WatchedRoots { entries: e };
            let pos = probe.position(root);
            e = probe.entries;
            pos
        };
        match found {
            Some(i) => {
                proof {
                    lemma_counts_at(oe, i as int);
                }
                let c = e[i].1;
                let k = copy_path(&e[i].0);
                e.set(i, (k, c + 1));
                proof {
                    assert(root_keys(e@) =~= root_keys(oe));
                    assert forall|y: Seq<Seq<char>>| #[trigger] counts_map(e@).contains_key(y) implies counts_map(e@)[y]
                        == registered(before, x)[y] by {
                        let j = root_keys(e@).index_of(y);
                        assert(root_keys(e@).contains(y));
                        lemma_counts_at(e@, j);
                        lemma_counts_at(oe, j);
                        if y == x {
                            assert(j == i);
                        }
                    }
                    assert(counts_map(e@) =~= registered(before, x));
                }
                self.entries = e;
                false
            },
            None => {
                e.push((copy_path(root), 1));
                proof {
                    assert(root_keys(e@) =~= root_keys(oe).push(x));
                    assert(root_keys(e@).no_duplicates()) by {
                        assert forall|a: int, b: int| 0 <= a < b < root_keys(e@).len() implies root_keys(e@)[a] != root_keys(
                            e@,
                        )[b] by {
                            if b == oe.len() {
                                assert(root_keys(oe)[a] == root_keys(e@)[a]);
                            }
                        }
                    }
                    assert forall|y: Seq<Seq<char>>| #[trigger] counts_map(e@).contains_key(y) == registered(before, x).contains_key(y)
                        by {
                        if root_keys(e@).contains(y) && y != x {
                            let j = choose|j: int| 0 <= j < root_keys(e@).len() && #[trigger] root_keys(e@)[j] == y;
                            assert(root_keys(oe)[j] == y);
                        }
                        if root_keys(oe).contains(y) {
                            let j = choose|j: int| 0 <= j < root_keys(oe).len() && #[trigger] root_keys(oe)[j] == y;
                            assert(root_keys(e@)[j] == y);
                        }
                        if y == x {
                            assert(root_keys(e@)[oe.len() as int] == x);
                        }
                    }
                    assert forall|y: Seq<Seq<char>>| #[trigger] counts_map(e@).contains_key(y) implies counts_map(e@)[y]
                        == registered(before, x)[y] by {
                        let j = root_keys(e@).index_of(y);
                        assert(root_keys(e@).contains(y));
                        lemma_counts_at(e@, j);
                        if j < oe.len() {
                            lemma_counts_at(oe, j);
                        }
                    }
                    assert(counts_map(e@) =~= registered(before, x));
                }
                self.entries = e;
                true
            },
        }
    }

    /// Drops one registration of a root; the result says whether that was the
    /// last one, so that watching it must stop. Unknown roots change nothing.
    pub fn unregister_root(&mut self, root: &Vec<String>) -> (last: bool)
        ensures
            final(self).spec_counts() == unregistered(old(self).spec_counts(), path_view(*root)),
            last == (old(self).spec_counts().contains_key(path_view(*root)) && old(self).spec_counts()[path_view(
                *root,
            )] == 1),
    {
        proof {
            use_type_invariant(&*self);
        }
        let ghost before = self.spec_counts();
        let ghost x = path_view(*root);
        let mut e: Vec<(Vec<String>, usize)> = Vec::new();
        std::mem::swap(&mut e, &mut self.entries);
        let ghost oe = e@;
        let found = {
            let probe = WatchedRoots { entries: e };
            let pos = probe.position(root);
            e = probe.entries;
            pos
        };
        match found {
            Some(i) => {
                proof {
                    lemma_counts_at(oe, i as int);
                }
                let c = e[i].1;
                if c > 1 {
                    let k = copy_path(&e[i].0);
                    e.set(i, (k, c - 1));
                    proof {
                        assert(root_keys(e@) =~= root_keys(oe));
                        assert forall|y: Seq<Seq<char>>| #[trigger] counts_map(e@).contains_key(y) implies counts_map(
                            e@,
                        )[y] == unregistered(before, x)[y] by {
                            let j = root_keys(e@).index_of(y);
                            assert(root_keys(e@).contains(y));
                            lemma_counts_at(e@, j);
                            lemma_counts_at(oe, j);
                            if y == x {
                                assert(j == i);
                            }
                        }
                        assert(counts_map(e@) =~= unregistered(before, x));
                    }
                    self.entries = e;
                    false
                } else {
                    e.remove(i);
                    proof {
                        assert(root_keys(e@) =~= root_keys(oe).remove(i as int));
                        assert(root_keys(e@).no_duplicates()) by {
                            assert forall|a: int, b: int| 0 <= a < b < root_keys(e@).len() implies root_keys(e@)[a]
                                != root_keys(e@)[b] by {
                                let a2 = if a < i { a } else { a + 1 };
                                let b2 = if b < i { b } else { b + 1 };
                                assert(root_keys(e@)[a] == root_keys(oe)[a2]);
                                assert(root_keys(e@)[b] == root_keys(oe)[b2]);
                            }
                        }
                        assert forall|y: Seq<Seq<char>>| #[trigger] counts_map(e@).contains_key(y) == unregistered(
                            before,
                            x,
                        ).contains_key(y) by {
                            if root_keys(e@).contains(y) {
                                let j = choose|j: int| 0 <= j < root_keys(e@).len() && #[trigger] root_keys(e@)[j] == y;
                                let j2 = if j < i { j } else { j + 1 };
                                assert(root_keys(oe)[j2] == y);
                                assert(j2 != i);
                            }
                            if root_keys(oe).contains(y) && y != x {
                                let j = choose|j: int| 0 <= j < root_keys(oe).len() && #[trigger] root_keys(oe)[j] == y;
                                assert(j != i);
                                if j < i {
                                    assert(root_keys(e@)[j] == y);
                                } else {
                                    assert(root_keys(e@)[j - 1] == y);
                                }
                            }
                        }
                        assert forall|y: Seq<Seq<char>>| #[trigger] counts_map(e@).contains_key(y) implies counts_map(
                            e@,
                        )[y] == unregistered(before, x)[y] by {
                            let j = root_keys(e@).index_of(y);
                            assert(root_keys(e@).contains(y));
                            lemma_counts_at(e@, j);
                            let j2 = if j < i { j } else { j + 1 };
                            assert(root_keys(oe)[j2] == y);
                            lemma_counts_at(oe, j2);
                        }
                        assert(counts_map(e@) =~= unregistered(before, x));
                    }
                    self.entries = e;
                    true
                }
            },
            None => {
                self.entries = e;
                false
            },
        }
    }

    /// The watched roots.
    pub fn roots(&self) -> (r: Vec<Vec<String>>)
        ensures
            paths_view(r@).to_set() == self.spec_counts().dom(),
    {
        let mut out: Vec<Vec<String>> = Vec::new();
        let ghost ks = root_keys(self.entries@);
        let mut i: usize = 0;
        while i < self.entries.len()
            invariant
                i <= self.entries@.len(),
                ks == root_keys(self.entries@),
                paths_view(out@) == ks.take(i as int),
            decreases self.entries@.len() - i,
        {
            let ghost before = paths_view(out@);
            out.push(copy_path(&self.entries[i].0));
            assert(paths_view(out@) =~= before.push(ks[i as int]));
            assert(ks.take(i + 1) =~= ks.take(i as int).push(ks[i as int]));
            i = i + 1;
        }
        assert(ks.take(i as int) =~= ks);
        assert(paths_view(out@).to_set() =~= self.spec_counts().dom());
        out
    }
}

} // verus!
