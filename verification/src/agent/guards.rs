//! Spawn guards of a user session: how many sub-agents run at once, and the
//! pool of agent nicknames with its recycling.
use vstd::prelude::*;

use crate::protocol::{CodexError, ErrorCode};
use crate::strmap::StrMap;
use crate::text::{decimal, decimal_spec, extend_chars, extend_str, from_chars, to_chars};

verus! {

/// The depth of a thread spawned from a thread at `current_depth` (saturating).
pub fn next_thread_spawn_depth(current_depth: usize) -> (r: usize)
    ensures
        r == if current_depth == usize::MAX {
            usize::MAX as int
        } else {
            current_depth + 1
        },
{
    current_depth.saturating_add(1)
}

/// Whether `depth` is beyond the allowed `max_depth`.
pub fn exceeds_thread_spawn_depth_limit(depth: usize, max_depth: usize) -> (r: bool)
    ensures
        r == (depth > max_depth),
{
    depth > max_depth
}

/// The text views of a list of strings, as a set.
pub open spec fn str_set(v: Seq<String>) -> Set<Seq<char>> {
    Set::new(|s: Seq<char>| exists|i: int| 0 <= i < v.len() && (#[trigger] v[i])@ == s)
}

fn contains_str(v: &Vec<String>, s: &str) -> (r: bool)
    ensures
        r == str_set(v@).contains(s@),
{
    let mut i: usize = 0;
    while i < v.len()
        invariant
            i <= v@.len(),
            forall|k: int| 0 <= k < i ==> (#[trigger] v@[k])@ != s@,
        decreases v@.len() - i,
    {
        if crate::text::str_eq(v[i].as_str(), s) {
            return true;
        }
        i = i + 1;
    }
    false
}

fn insert_str(v: &mut Vec<String>, s: &str)
    ensures
        str_set(final(v)@) == str_set(old(v)@).insert(s@),
        final(v)@.len() <= old(v)@.len() + 1,
{
    if !contains_str(v, s) {
        let ghost before = v@;
        v.push(s.to_owned());
        assert forall|x: Seq<char>| str_set(v@).contains(x) == str_set(before).insert(s@).contains(x) by {
            if str_set(before).contains(x) {
                let i = choose|i: int| 0 <= i < before.len() && (#[trigger] before[i])@ == x;
                assert(v@[i] == before[i]);
            }
            if x == s@ {
                assert(v@[before.len() as int]@ == x);
            }
        }
        assert(str_set(v@) =~= str_set(before).insert(s@));
    } else {
        assert(str_set(v@) =~= str_set(v@).insert(s@));
    }
}

fn remove_str(v: &mut Vec<String>, s: &str) -> (r: bool)
    ensures
        r == str_set(old(v)@).contains(s@),
        str_set(final(v)@) == str_set(old(v)@).remove(s@),
        r ==> final(v)@.len() + 1 <= old(v)@.len(),
        final(v)@.len() <= old(v)@.len(),
{
    let ghost orig = v@;
    let mut out: Vec<String> = Vec::new();
    let mut found = false;
    let mut i: usize = 0;
    while i < v.len()
        invariant
            v@ == orig,
            i <= orig.len(),
            found == exists|k: int| 0 <= k < i && (#[trigger] orig[k])@ == s@,
            str_set(out@) == str_set(orig.take(i as int)).remove(s@),
            out@.len() + (if found { 1int } else { 0int }) <= i,
        decreases orig.len() - i,
    {
        let ghost before = out@;
        if crate::text::str_eq(v[i].as_str(), s) {
            found = true;
        } else {
            out.push(v[i].clone());
        }
        assert forall|x: Seq<char>| str_set(out@).contains(x) == str_set(orig.take(i + 1)).remove(
            s@,
        ).contains(x) by {
            if str_set(out@).contains(x) {
                let k = choose|k: int| 0 <= k < out@.len() && (#[trigger] out@[k])@ == x;
                if k < before.len() {
                    assert(str_set(before).contains(x));
                    let j = choose|j: int| 0 <= j < i && (#[trigger] orig.take(i as int)[j])@ == x;
                    assert(orig.take(i + 1)[j] == orig.take(i as int)[j]);
                } else {
                    assert(orig.take(i + 1)[i as int]@ == x);
                }
            }
            if str_set(orig.take(i + 1)).remove(s@).contains(x) {
                let j = choose|j: int| 0 <= j < i + 1 && (#[trigger] orig.take(i + 1)[j])@ == x;
                if j < i {
                    assert(orig.take(i as int)[j] == orig.take(i + 1)[j]);
                    assert(str_set(before).contains(x));
                    let k = choose|k: int| 0 <= k < before.len() && (#[trigger] before[k])@ == x;
                    assert(out@[k] == before[k]);
                } else {
                    assert(out@[before.len() as int]@ == x);
                }
            }
        }
        assert(str_set(out@) =~= str_set(orig.take(i + 1)).remove(s@));
        proof {
            if found {
                if exists|k: int| 0 <= k < i && (#[trigger] orig[k])@ == s@ {
                } else {
                    assert(orig[i as int]@ == s@);
                }
            }
        }
        i = i + 1;
    }
    assert(orig.take(i as int) =~= orig);
    assert(found == str_set(orig).contains(s@));
    *v = out;
    found
}

/// Session-wide spawn bookkeeping: registered threads with their nicknames,
/// nicknames used so far, how often that pool was reset, and the number of
/// slots taken (reserved or registered).
#[derive(Debug)]
pub struct Guards {
    threads: Vec<String>,
    thread_agent_nicknames: StrMap<String>,
    used_agent_nicknames: Vec<String>,
    nickname_reset_count: usize,
    total_count: usize,
    /// Reservations not yet committed or cancelled.
    reserved_count: usize,
}

/// A reserved spawn slot. It is either committed, which registers the thread,
/// or cancelled, which gives the slot back.
#[derive(Debug)]
pub struct SpawnReservation {
    active: bool,
    reserved_agent_nickname: Option<String>,
}

/// A reservation is granted when there is no limit or fewer slots than it are taken.
pub open spec fn reserve_granted(total: nat, max: Option<usize>) -> bool {
    match max {
        Some(m) => total < m,
        None => true,
    }
}

/// Slots taken after a reservation attempt: one more when it is granted.
pub open spec fn slots_after_reserve(total: nat, max: Option<usize>) -> nat {
    if reserve_granted(total, max) {
        total + 1
    } else {
        total
    }
}

/// Slots taken after a reservation is cancelled: one fewer when it still held its slot.
pub open spec fn slots_after_cancel(total: nat, active: bool) -> nat {
    if active && total > 0 {
        (total - 1) as nat
    } else {
        total
    }
}

/// Slots taken after thread `id` is released: one fewer when it was registered.
pub open spec fn slots_after_release(total: nat, threads: Set<Seq<char>>, id: Seq<char>) -> nat {
    if threads.contains(id) && total > 0 {
        (total - 1) as nat
    } else {
        total
    }
}

/// A granted reservation that is cancelled gives its slot back; one that is
/// committed (which keeps the count) gives it back when its thread is released;
/// releasing a thread that is not registered changes nothing; and with a limit,
/// reservations never take more slots than the limit.
pub proof fn law_spawn_slots_are_returned(
    total: nat,
    max: Option<usize>,
    threads: Set<Seq<char>>,
    id: Seq<char>,
)
    ensures
        reserve_granted(total, max) ==> slots_after_cancel(slots_after_reserve(total, max), true)
            == total,
        reserve_granted(total, max) ==> slots_after_release(
            slots_after_reserve(total, max),
            threads.insert(id),
            id,
        ) == total,
        !threads.contains(id) ==> slots_after_release(total, threads, id) == total,
        max matches Some(m) ==> (total <= m ==> slots_after_reserve(total, max) <= m),
{
}

/// Releasing a thread twice frees its slot once: the second release finds the
/// thread gone and changes nothing; a registered thread always holds a slot, so
/// its release frees exactly one.
pub proof fn law_release_is_idempotent(total: nat, threads: Set<Seq<char>>, id: Seq<char>)
    requires
        threads.contains(id) ==> total > 0,
    ensures
        threads.contains(id) ==> slots_after_release(total, threads, id) + 1 == total,
        slots_after_release(slots_after_release(total, threads, id), threads.remove(id), id)
            == slots_after_release(total, threads, id),
        threads.remove(id).remove(id) == threads.remove(id),
{
    assert(threads.remove(id).remove(id) =~= threads.remove(id));
}

/// The message of a refused reservation.
pub open spec fn limit_message(max: nat) -> Seq<char> {
    "Agent limit reached: max "@ + decimal_spec(max) + " concurrent agents"@
}

impl SpawnReservation {
    /// The nickname reserved so far, in specifications.
    pub closed spec fn spec_nickname(&self) -> Option<String> {
        self.reserved_agent_nickname
    }

    /// The slot is still held by this reservation.
    pub closed spec fn spec_active(&self) -> bool {
        self.active
    }
}

impl Guards {
    /// Every registered thread and every open reservation holds a slot.
    #[verifier::type_invariant]
    spec fn inv(self) -> bool {
        self.threads@.len() + self.reserved_count <= self.total_count
    }

    /// Slots taken.
    pub closed spec fn spec_total(&self) -> nat {
        self.total_count as nat
    }

    /// Reservations not yet committed or cancelled.
    pub closed spec fn spec_reserved(&self) -> nat {
        self.reserved_count as nat
    }

    /// Registered threads.
    pub closed spec fn spec_threads(&self) -> Set<Seq<char>> {
        str_set(self.threads@)
    }

    /// Nicknames in use since the last reset of the pool.
    pub closed spec fn spec_used(&self) -> Set<Seq<char>> {
        str_set(self.used_agent_nicknames@)
    }

    /// Nicknames of registered threads.
    pub closed spec fn spec_thread_nicknames(&self) -> Map<Seq<char>, String> {
        self.thread_agent_nicknames.to_map()
    }

    /// Resets of the nickname pool.
    pub closed spec fn spec_resets(&self) -> nat {
        self.nickname_reset_count as nat
    }

    /// Guards with nothing reserved or registered.
    pub fn new() -> (r: Self)
        ensures
            r.spec_total() == 0,
            r.spec_threads() == Set::<Seq<char>>::empty(),
            r.spec_used() == Set::<Seq<char>>::empty(),
            r.spec_thread_nicknames() == Map::<Seq<char>, String>::empty(),
            r.spec_resets() == 0,
            r.spec_reserved() == 0,
    {
        let r = Guards {
            threads: Vec::new(),
            thread_agent_nicknames: StrMap::new(),
            used_agent_nicknames: Vec::new(),
            nickname_reset_count: 0,
            total_count: 0,
            reserved_count: 0,
        };
        assert(r.spec_threads() =~= Set::<Seq<char>>::empty());
        assert(r.spec_used() =~= Set::<Seq<char>>::empty());
        proof {
            r.thread_agent_nicknames.lemma_view();
        }
        assert(r.spec_thread_nicknames() =~= Map::<Seq<char>, String>::empty());
        r
    }

    /// How many times the nickname pool was reset.
    pub fn nickname_reset_count(&self) -> (r: usize)
        ensures
            r == self.spec_resets(),
    {
        self.nickname_reset_count
    }

    /// Slots taken, by registered threads and open reservations.
    pub fn total_count(&self) -> (r: usize)
        ensures
            r == self.spec_total(),
    {
        self.total_count
    }

    /// Reservations not yet committed or cancelled.
    pub fn reserved_count(&self) -> (r: usize)
        ensures
            r == self.spec_reserved(),
    {
        self.reserved_count
    }

    /// Takes a slot if fewer than `max_threads` are taken (any number without a
    /// limit); the error says the limit was reached.
    pub fn reserve_spawn_slot(&mut self, max_threads: Option<usize>) -> (r: Result<
        SpawnReservation,
        CodexError,
    >)
        requires
            old(self).spec_total() < usize::MAX,
        ensures
            final(self).spec_threads() == old(self).spec_threads(),
            final(self).spec_used() == old(self).spec_used(),
            final(self).spec_thread_nicknames() == old(self).spec_thread_nicknames(),
            final(self).spec_resets() == old(self).spec_resets(),
            final(self).spec_total() == slots_after_reserve(old(self).spec_total(), max_threads),
            r is Ok <==> reserve_granted(old(self).spec_total(), max_threads),
            r matches Ok(res) ==> res.spec_active() && res.spec_nickname() is None,
            r matches Err(e) ==> e.code == ErrorCode::SessionError && e.message@ == limit_message(
                max_threads.unwrap() as nat,
            ),
            final(self).spec_reserved() == if reserve_granted(old(self).spec_total(), max_threads) {
                old(self).spec_reserved() + 1
            } else {
                old(self).spec_reserved()
            },
    {
        proof {
            use_type_invariant(&*self);
        }
        if let Some(max) = max_threads {
            if self.total_count >= max {
                let mut msg = to_chars("Agent limit reached: max ");
                let d = decimal(max as u64);
                extend_chars(&mut msg, d.as_slice());
                extend_str(&mut msg, " concurrent agents");
                return Err(CodexError::new(ErrorCode::SessionError, from_chars(msg.as_slice())));
            }
        }
        self.total_count = self.total_count + 1;
        self.reserved_count = self.reserved_count + 1;
        Ok(SpawnReservation { active: true, reserved_agent_nickname: None })
    }

    /// Takes a slot if fewer than `max_threads` are taken.
    pub fn try_increment_spawned(&mut self, max_threads: usize) -> (r: bool)
        ensures
            r == (old(self).spec_total() < max_threads),
            final(self).spec_total() == if r {
                old(self).spec_total() + 1
            } else {
                old(self).spec_total()
            },
            final(self).spec_threads() == old(self).spec_threads(),
            final(self).spec_used() == old(self).spec_used(),
            final(self).spec_thread_nicknames() == old(self).spec_thread_nicknames(),
            final(self).spec_resets() == old(self).spec_resets(),
            final(self).spec_reserved() == old(self).spec_reserved(),
    {
        proof {
            use_type_invariant(&*self);
        }
        if self.total_count >= max_threads {
            return false;
        }
        self.total_count = self.total_count + 1;
        true
    }

    /// Unregisters a thread and frees its slot; unknown threads change nothing.
    pub fn release_spawned_thread(&mut self, thread_id: &str)
        ensures
            final(self).spec_threads() == old(self).spec_threads().remove(thread_id@),
            final(self).spec_thread_nicknames() == old(self).spec_thread_nicknames().remove(
                thread_id@,
            ),
            final(self).spec_used() == old(self).spec_used(),
            final(self).spec_resets() == old(self).spec_resets(),
            final(self).spec_total() == slots_after_release(
                old(self).spec_total(),
                old(self).spec_threads(),
                thread_id@,
            ),
            old(self).spec_threads().contains(thread_id@) ==> final(self).spec_total() + 1 == old(
                self,
            ).spec_total(),
            !old(self).spec_threads().contains(thread_id@) ==> final(self).spec_total() == old(self).spec_total(),
            final(self).spec_reserved() == old(self).spec_reserved(),
    {
        proof {
            use_type_invariant(&*self);
        }
        let mut threads: Vec<String> = Vec::new();
        std::mem::swap(&mut threads, &mut self.threads);
        let removed = remove_str(&mut threads, thread_id);
        self.threads = threads;
        let mut nicknames: StrMap<String> = StrMap::new();
        std::mem::swap(&mut nicknames, &mut self.thread_agent_nicknames);
        nicknames.remove(thread_id);
        self.thread_agent_nicknames = nicknames;
        if removed && self.total_count > 0 {
            self.total_count = self.total_count - 1;
        }
    }

    /// Registers a thread, with the nickname it was given; the slot of the
    /// reservation it was spawned under stays taken, now for the thread.
    fn register_spawned_thread(&mut self, thread_id: &str, agent_nickname: Option<String>)
        requires
            old(self).spec_reserved() > 0,
        ensures
            final(self).spec_reserved() + 1 == old(self).spec_reserved(),
            final(self).spec_threads() == old(self).spec_threads().insert(thread_id@),
            final(self).spec_total() == old(self).spec_total(),
            final(self).spec_resets() == old(self).spec_resets(),
            match agent_nickname {
                Some(n) => final(self).spec_used() == old(self).spec_used().insert(n@)
                    && final(self).spec_thread_nicknames() == old(self).spec_thread_nicknames().insert(
                    thread_id@,
                    n,
                ),
                None => final(self).spec_used() == old(self).spec_used()
                    && final(self).spec_thread_nicknames() == old(self).spec_thread_nicknames(),
            },
    {
        proof {
            use_type_invariant(&*self);
        }
        self.reserved_count = self.reserved_count - 1;
        let mut threads: Vec<String> = Vec::new();
        std::mem::swap(&mut threads, &mut self.threads);
        insert_str(&mut threads, thread_id);
        self.threads = threads;
        if let Some(nickname) = agent_nickname {
            let mut used: Vec<String> = Vec::new();
            std::mem::swap(&mut used, &mut self.used_agent_nicknames);
            insert_str(&mut used, nickname.as_str());
            self.used_agent_nicknames = used;
            let mut nicknames: StrMap<String> = StrMap::new();
            std::mem::swap(&mut nicknames, &mut self.thread_agent_nicknames);
            nicknames.insert(thread_id.to_owned(), nickname);
            self.thread_agent_nicknames = nicknames;
        }
    }

    /// Picks a nickname: the preferred one if given, else a random name not in
    /// use; when every name is in use the pool is reset first. `None` without names.
    fn reserve_agent_nickname(&mut self, names: &[&str], preferred: Option<&str>) -> (r: Option<String>)
        ensures
            final(self).spec_threads() == old(self).spec_threads(),
            final(self).spec_thread_nicknames() == old(self).spec_thread_nicknames(),
            final(self).spec_total() == old(self).spec_total(),
            nickname_reserved(*old(self), *final(self), names_view(names@), match preferred {
                Some(p) => Some(p@),
                None => None,
            }, r),
    {
        proof {
            use_type_invariant(&*self);
        }
        let nickname = match preferred {
            Some(p) => p.to_owned(),
            None => {
                if names.len() == 0 {
                    return None;
                }
                let mut available: Vec<String> = Vec::new();
                let mut i: usize = 0;
                while i < names.len()
                    invariant
                        i <= names@.len(),
                        forall|k: int|
                            0 <= k < available@.len() ==> names_view(names@).contains(
                                (#[trigger] available@[k])@,
                            ) && !str_set(self.used_agent_nicknames@).contains(available@[k]@),
                        (exists|k: int|
                            0 <= k < i && !str_set(self.used_agent_nicknames@).contains(
                                #[trigger] names_view(names@)[k],
                            )) ==> available@.len() > 0,
                    decreases names@.len() - i,
                {
                    if !contains_str(&self.used_agent_nicknames, names[i]) {
                        available.push(names[i].to_owned());
                        assert(names_view(names@)[i as int] == names@[i as int]@);
                    }
                    i = i + 1;
                }
                match choose_name(&available) {
                    Some(name) => name,
                    None => {
                        self.used_agent_nicknames = Vec::new();
                        assert(str_set(self.used_agent_nicknames@) =~= Set::<Seq<char>>::empty());
                        if self.nickname_reset_count < usize::MAX {
                            self.nickname_reset_count = self.nickname_reset_count + 1;
                        }
                        let mut all: Vec<String> = Vec::new();
                        let mut j: usize = 0;
                        while j < names.len()
                            invariant
                                j <= names@.len(),
                                all@.len() == j,
                                forall|k: int| 0 <= k < j ==> (#[trigger] all@[k])@ == names@[k]@,
                            decreases names@.len() - j,
                        {
                            all.push(names[j].to_owned());
                            j = j + 1;
                        }
                        match choose_name(&all) {
                            Some(name) => {
                                assert(names_view(names@).contains(name@)) by {
                                    let k = choose|k: int| 0 <= k < all@.len() && (#[trigger] all@[k])@ == name@;
                                    assert(names_view(names@)[k] == name@);
                                }
                                name
                            },
                            None => return None,
                        }
                    },
                }
            },
        };
        let mut used: Vec<String> = Vec::new();
        std::mem::swap(&mut used, &mut self.used_agent_nicknames);
        insert_str(&mut used, nickname.as_str());
        self.used_agent_nicknames = used;
        Some(nickname)
    }
}

/// The text views of a list of names.
pub open spec fn names_view(v: Seq<&str>) -> Seq<Seq<char>> {
    Seq::new(v.len(), |i: int| v[i]@)
}

/// The outcome of a nickname reservation from `names`: the preferred name if
/// given; else a name not in use, or, when all are in use, any name after the
/// pool is reset (counted); `None` only without names. The name is then in use.
pub open spec fn nickname_reserved(
    before: Guards,
    after: Guards,
    names: Seq<Seq<char>>,
    preferred: Option<Seq<char>>,
    r: Option<String>,
) -> bool {
    match preferred {
        Some(p) => r matches Some(n) && n@ == p && after.spec_used() == before.spec_used().insert(p)
            && after.spec_resets() == before.spec_resets(),
        None => if names.len() == 0 {
            r is None && after.spec_used() == before.spec_used() && after.spec_resets()
                == before.spec_resets()
        } else if exists|k: int| 0 <= k < names.len() && !before.spec_used().contains(#[trigger] names[k]) {
            r matches Some(n) && names.contains(n@) && !before.spec_used().contains(n@)
                && after.spec_used() == before.spec_used().insert(n@) && after.spec_resets()
                == before.spec_resets()
        } else {
            r matches Some(n) && names.contains(n@) && after.spec_used() == Set::<Seq<char>>::empty().insert(n@)
                && after.spec_resets() == (if before.spec_resets() < usize::MAX {
                before.spec_resets() + 1
            } else {
                before.spec_resets()
            })
        },
    }
}

/// A random element of `items` (`rand`'s `IndexedRandom::choose` with the thread
/// generator); `None` only when `items` is empty.
#[verifier::external_body]
fn choose_name(items: &Vec<String>) -> (r: Option<String>)
    ensures
        r is None <==> items@.len() == 0,
        r matches Some(x) ==> exists|i: int| 0 <= i < items@.len() && (#[trigger] items@[i])@ == x@,
{
    rand::seq::IndexedRandom::choose(items.as_slice(), &mut rand::rng()).cloned()
}

impl SpawnReservation {
    /// Reserves a random unused nickname from `names`.
    pub fn reserve_agent_nickname(&mut self, guards: &mut Guards, names: &[&str]) -> (r: Result<
        String,
        CodexError,
    >)
        ensures
            final(guards).spec_threads() == old(guards).spec_threads(),
            final(guards).spec_total() == old(guards).spec_total(),
            nickname_reserved(*old(guards), *final(guards), names_view(names@), None, match r {
                Ok(n) => Some(n),
                Err(_) => None,
            }),
            r matches Err(e) ==> e.code == ErrorCode::SessionError && e.message@
                == "No available agent nicknames"@,
            r matches Ok(n) ==> final(self).spec_nickname() == Some(n),
            r is Err ==> final(self).spec_nickname() == old(self).spec_nickname(),
            final(self).spec_active() == old(self).spec_active(),
    {
        self.reserve_agent_nickname_with_preference(guards, names, None)
    }

    /// Reserves the preferred nickname, or a random unused one from `names`.
    pub fn reserve_agent_nickname_with_preference(
        &mut self,
        guards: &mut Guards,
        names: &[&str],
        preferred: Option<&str>,
    ) -> (r: Result<String, CodexError>)
        ensures
            final(guards).spec_threads() == old(guards).spec_threads(),
            final(guards).spec_total() == old(guards).spec_total(),
            nickname_reserved(*old(guards), *final(guards), names_view(names@), match preferred {
                Some(p) => Some(p@),
                None => None,
            }, match r {
                Ok(n) => Some(n),
                Err(_) => None,
            }),
            r matches Err(e) ==> e.code == ErrorCode::SessionError && e.message@
                == "No available agent nicknames"@,
            r matches Ok(n) ==> final(self).spec_nickname() == Some(n),
            r is Err ==> final(self).spec_nickname() == old(self).spec_nickname(),
            final(self).spec_active() == old(self).spec_active(),
    {
        match guards.reserve_agent_nickname(names, preferred) {
            Some(nickname) => {
                self.reserved_agent_nickname = Some(nickname.clone());
                Ok(nickname)
            },
            None => Err(
                CodexError::new(ErrorCode::SessionError, "No available agent nicknames".to_owned()),
            ),
        }
    }

    /// Registers the thread and keeps the slot for it.
    pub fn commit(self, guards: &mut Guards, thread_id: &str)
        requires
            old(guards).spec_reserved() > 0,
        ensures
            final(guards).spec_reserved() + 1 == old(guards).spec_reserved(),
            final(guards).spec_threads() == old(guards).spec_threads().insert(thread_id@),
            final(guards).spec_total() == old(guards).spec_total(),
            final(guards).spec_resets() == old(guards).spec_resets(),
            match self.spec_nickname() {
                Some(n) => final(guards).spec_used() == old(guards).spec_used().insert(n@)
                    && final(guards).spec_thread_nicknames() == old(
                    guards,
                ).spec_thread_nicknames().insert(thread_id@, n),
                None => final(guards).spec_used() == old(guards).spec_used()
                    && final(guards).spec_thread_nicknames() == old(guards).spec_thread_nicknames(),
            },
    {
        self.commit_with_agent_nickname(guards, thread_id, None)
    }

    /// Registers the thread with the reserved nickname, or else `agent_nickname`.
    pub fn commit_with_agent_nickname(
        self,
        guards: &mut Guards,
        thread_id: &str,
        agent_nickname: Option<String>,
    )
        requires
            old(guards).spec_reserved() > 0,
        ensures
            final(guards).spec_reserved() + 1 == old(guards).spec_reserved(),
            final(guards).spec_threads() == old(guards).spec_threads().insert(thread_id@),
            final(guards).spec_total() == old(guards).spec_total(),
            final(guards).spec_resets() == old(guards).spec_resets(),
            match (match self.spec_nickname() {
                Some(n) => Some(n),
                None => agent_nickname,
            }) {
                Some(n) => final(guards).spec_used() == old(guards).spec_used().insert(n@)
                    && final(guards).spec_thread_nicknames() == old(
                    guards,
                ).spec_thread_nicknames().insert(thread_id@, n),
                None => final(guards).spec_used() == old(guards).spec_used()
                    && final(guards).spec_thread_nicknames() == old(guards).spec_thread_nicknames(),
            },
    {
        let nickname = match self.reserved_agent_nickname {
            Some(n) => Some(n),
            None => agent_nickname,
        };
        guards.register_spawned_thread(thread_id, nickname);
    }

    /// Gives the slot back without spawning; a nickname reserved stays in use.
    pub fn cancel(self, guards: &mut Guards)
        requires
            old(guards).spec_reserved() > 0,
        ensures
            final(guards).spec_reserved() + 1 == old(guards).spec_reserved(),
            final(guards).spec_total() == slots_after_cancel(old(guards).spec_total(), self.spec_active()),
            final(guards).spec_threads() == old(guards).spec_threads(),
            final(guards).spec_used() == old(guards).spec_used(),
            final(guards).spec_thread_nicknames() == old(guards).spec_thread_nicknames(),
            final(guards).spec_resets() == old(guards).spec_resets(),
    {
        proof {
            use_type_invariant(&*guards);
        }
        guards.reserved_count = guards.reserved_count - 1;
        if self.active && guards.total_count > 0 {
            guards.total_count = guards.total_count - 1;
        }
    }
}

} // verus!
