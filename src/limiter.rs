//! The shared rate limiter and block list: targets known to be gone for good,
//! and per-target cooldowns kept as absolute expiry times in milliseconds.
use crate::request::Request;
use vstd::prelude::*;

verus! {

#[verifier::external_type_specification]
#[verifier::external_body]
#[verifier::reject_recursive_types(K)]
#[verifier::reject_recursive_types(S)]
pub struct ExPapayaSet<K, S>(papaya::HashSet<K, S>);

#[verifier::external_type_specification]
#[verifier::external_body]
#[verifier::reject_recursive_types(K)]
#[verifier::reject_recursive_types(V)]
#[verifier::reject_recursive_types(S)]
pub struct ExPapayaMap<K, V, S>(papaya::HashMap<K, V, S>);

// papaya's tables accept changes through shared references; the wrappers
// below that change one take it by `&mut`, so that what a table holds is a
// function of its value.

/// The targets that a papaya set of strings holds.
pub uninterp spec fn set_members(s: papaya::HashSet<String>) -> Set<Seq<char>>;

/// A papaya map from targets to cooldown expiry times.
pub type CooldownMap = papaya::HashMap<String, u64>;

/// The entries that a papaya map from strings to expiry times holds.
pub uninterp spec fn map_entries(m: CooldownMap) -> Map<Seq<char>, u64>;

/// Relies on `papaya::HashSet::new`: a new set is empty.
#[verifier::external_body]
fn dead_set_new() -> (r: papaya::HashSet<String>)
    ensures
        set_members(r) == Set::<Seq<char>>::empty(),
{
    papaya::HashSet::new()
}

/// Relies on `papaya::HashSetRef::insert`: the key is a member afterwards,
/// and nothing else changes.
#[verifier::external_body]
fn dead_set_insert(s: &mut papaya::HashSet<String>, key: &String)
    ensures
        set_members(*final(s)) == set_members(*old(s)).insert(key@),
{
    s.pin().insert(key.clone());
}

/// Relies on `papaya::HashSetRef::remove`: the key is no member afterwards,
/// and nothing else changes.
#[verifier::external_body]
fn dead_set_remove(s: &mut papaya::HashSet<String>, key: &String)
    ensures
        set_members(*final(s)) == set_members(*old(s)).remove(key@),
{
    s.pin().remove(key);
}

/// Relies on `papaya::HashSetRef::contains`.
#[verifier::external_body]
fn dead_set_contains(s: &papaya::HashSet<String>, key: &String) -> (r: bool)
    ensures
        r == set_members(*s).contains(key@),
{
    s.pin().contains(key)
}

/// Relies on `papaya::HashSetRef::iter`: each member comes out once, in
/// some order.
#[verifier::external_body]
fn dead_set_list(s: &papaya::HashSet<String>) -> (r: Vec<String>)
    ensures
        r@.len() == set_members(*s).len(),
        forall|i: int| 0 <= i < r@.len() ==> set_members(*s).contains(#[trigger] r@[i]@),
        forall|i: int, j: int| 0 <= i < j < r@.len() ==> r@[i]@ != r@[j]@,
{
    s.pin().iter().cloned().collect()
}

/// Relies on `papaya::HashMap::new`: a new map is empty.
#[verifier::external_body]
fn cooldown_map_new() -> (r: CooldownMap)
    ensures
        map_entries(r).dom() == Set::<Seq<char>>::empty(),
{
    papaya::HashMap::new()
}

/// Relies on `papaya::HashMapRef::get`.
#[verifier::external_body]
fn cooldown_map_get(m: &CooldownMap, key: &String) -> (r: Option<u64>)
    ensures
        r == (if map_entries(*m).contains_key(key@) {
            Some(map_entries(*m)[key@])
        } else {
            None
        }),
{
    m.pin().get(key).copied()
}

/// Relies on `papaya::HashMapRef::update_or_insert`: a present value is
/// replaced by `update` applied to it, an absent one is set to `value`, and
/// the stored value is returned.
#[verifier::external_body]
fn cooldown_map_raise(m: &mut CooldownMap, key: &String, value: u64) -> (r: u64)
    ensures
        r == (if map_entries(*old(m)).contains_key(key@) {
            later(map_entries(*old(m))[key@], value)
        } else {
            value
        }),
        map_entries(*final(m)) == map_entries(*old(m)).insert(key@, r),
{
    *m.pin().update_or_insert(key.clone(), |current| later_of(*current, value), value)
}

/// The later of two instants.
pub open spec fn later(a: u64, b: u64) -> u64 {
    if a >= b { a } else { b }
}

/// The later of two instants.
pub fn later_of(a: u64, b: u64) -> (r: u64)
    ensures
        r == later(a, b),
{
    if a >= b { a } else { b }
}

/// How a request stands against the limiter right now.
#[derive(Debug, PartialEq, Eq, Structural)]
pub enum Status {
    Pass,
    /// The target cools down for this many more milliseconds.
    Ratelimited(u64),
    Known404,
    RetryLimitReached,
}

/// The limiter's state: the dead targets, and each target's cooldown expiry.
pub struct LimiterView {
    pub dead: Set<Seq<char>>,
    pub cooldowns: Map<Seq<char>, u64>,
}

/// The classification that `Limiter::current` computes: retry limit first,
/// then the dead set, then an active cooldown.
pub open spec fn classify(v: LimiterView, retry_count: usize, retry_limit: usize, target: Seq<char>, now: u64) -> Status {
    if retry_count > retry_limit {
        Status::RetryLimitReached
    } else if v.dead.contains(target) {
        Status::Known404
    } else if v.cooldowns.contains_key(target) && v.cooldowns[target] >= now {
        Status::Ratelimited((v.cooldowns[target] - now) as u64)
    } else {
        Status::Pass
    }
}

/// The expiry stored for `target` after a cooldown of `ms` starting at `now`:
/// never earlier than the one stored before.
pub open spec fn raised_expiry(v: LimiterView, target: Seq<char>, ms: u64, now: u64) -> u64 {
    let proposed = if now as int + ms as int > u64::MAX as int { u64::MAX } else { (now + ms) as u64 };
    if v.cooldowns.contains_key(target) && v.cooldowns[target] >= proposed {
        v.cooldowns[target]
    } else {
        proposed
    }
}

/// The state after `target` is marked dead.
pub open spec fn after_notfound(v: LimiterView, target: Seq<char>) -> LimiterView {
    LimiterView { dead: v.dead.insert(target), cooldowns: v.cooldowns }
}

/// The state after each of `targets` is taken out of the dead set.
pub open spec fn after_clear(v: LimiterView, targets: Seq<Seq<char>>) -> LimiterView {
    LimiterView { dead: v.dead.difference(targets.to_set()), cooldowns: v.cooldowns }
}

/// The state after a cooldown of `ms` starting at `now` is applied to `target`.
pub open spec fn after_cooldown(v: LimiterView, target: Seq<char>, ms: u64, now: u64) -> LimiterView {
    LimiterView { dead: v.dead, cooldowns: v.cooldowns.insert(target, raised_expiry(v, target, ms, now)) }
}

/// The views of a list of targets.
pub open spec fn target_views(targets: Seq<String>) -> Seq<Seq<char>> {
    targets.map_values(|t: String| t@)
}

/// Dead targets and cooldowns, shared by every connection.
pub struct Limiter {
    notfound_set: papaya::HashSet<String>,
    ratelimits: CooldownMap,
}

impl View for Limiter {
    type V = LimiterView;

    closed spec fn view(&self) -> LimiterView {
        LimiterView { dead: set_members(self.notfound_set), cooldowns: map_entries(self.ratelimits) }
    }
}

impl Default for Limiter {
    /// The same as `Limiter::new`.
    fn default() -> (r: Limiter)
        ensures
            r@.dead == Set::<Seq<char>>::empty(),
            r@.cooldowns.dom() == Set::<Seq<char>>::empty(),
    {
        Limiter::new()
    }
}

impl Limiter {
    /// A limiter with no dead target and no cooldown.
    pub fn new() -> (r: Limiter)
        ensures
            r@.dead == Set::<Seq<char>>::empty(),
            r@.cooldowns.dom() == Set::<Seq<char>>::empty(),
    {
        Limiter { notfound_set: dead_set_new(), ratelimits: cooldown_map_new() }
    }

    /// The dead targets, each once, in no particular order.
    pub fn notfounds(&self) -> (r: Vec<String>)
        ensures
            r@.len() == self@.dead.len(),
            forall|i: int| 0 <= i < r@.len() ==> self@.dead.contains(#[trigger] r@[i]@),
            forall|i: int, j: int| 0 <= i < j < r@.len() ==> r@[i]@ != r@[j]@,
    {
        dead_set_list(&self.notfound_set)
    }

    /// Classifies `request` at time `now` (milliseconds).
    pub fn current(&self, request: &Request, now: u64) -> (r: Status)
        ensures
            r == classify(self@, request.retry_count, request.context.retry_limit, request.target@, now),
    {
        if request.retry_count > request.context.retry_limit {
            return Status::RetryLimitReached;
        }
        if dead_set_contains(&self.notfound_set, &request.target) {
            return Status::Known404;
        }
        match cooldown_map_get(&self.ratelimits, &request.target) {
            Some(until) => {
                if until >= now {
                    Status::Ratelimited(until - now)
                } else {
                    Status::Pass
                }
            },
            None => Status::Pass,
        }
    }

    /// Marks `target` as gone for good.
    pub fn tell_notfound(&mut self, target: &String)
        ensures
            final(self)@ == after_notfound(old(self)@, target@),
    {
        dead_set_insert(&mut self.notfound_set, target);
    }

    /// Takes each of `targets` out of the dead set.
    pub fn clear_notfounds(&mut self, targets: &Vec<String>)
        ensures
            final(self)@ == after_clear(old(self)@, target_views(targets@)),
    {
        let ghost listed = targets@.map_values(|t: String| t@);
        let mut i: usize = 0;
        while i < targets.len()
            invariant
                i <= targets@.len(),
                listed == targets@.map_values(|t: String| t@),
                self@.dead == old(self)@.dead.difference(listed.take(i as int).to_set()),
                self@.cooldowns == old(self)@.cooldowns,
            decreases targets@.len() - i,
        {
            dead_set_remove(&mut self.notfound_set, &targets[i]);
            proof {
                assert(listed.take(i + 1) == listed.take(i as int).push(targets@[i as int]@));
                assert(listed.take(i as int).push(targets@[i as int]@).to_set()
                    == listed.take(i as int).to_set().insert(targets@[i as int]@)) by {
                    listed.take(i as int).lemma_push_to_set_commute(targets@[i as int]@);
                }
            }
            i = i + 1;
        }
        proof {
            assert(listed.take(targets@.len() as int) == listed);
        }
    }

    /// Starts a cooldown of `ms` milliseconds at `now` for `target`, unless a
    /// later one is already in force, and returns the time left until the
    /// expiry now stored.
    pub fn tell_ratelimit(&mut self, target: &String, ms: u64, now: u64) -> (r: u64)
        ensures
            final(self)@ == after_cooldown(old(self)@, target@, ms, now),
            r == raised_expiry(old(self)@, target@, ms, now) - now,
    {
        let limit_to = now.saturating_add(ms);
        let until = cooldown_map_raise(&mut self.ratelimits, target, limit_to);
        until - now
    }
}

/// A shorter cooldown applied after a longer one, at the same instant, leaves
/// the longer one's expiry in force; and no cooldown, whenever applied, ever
/// moves a stored expiry earlier.
pub proof fn cooldown_is_monotonic(v: LimiterView, target: Seq<char>, long_ms: u64, short_ms: u64, now: u64, later_ms: u64, later_now: u64)
    requires
        short_ms <= long_ms,
    ensures
        after_cooldown(after_cooldown(v, target, long_ms, now), target, short_ms, now).cooldowns[target]
            == after_cooldown(v, target, long_ms, now).cooldowns[target],
        after_cooldown(after_cooldown(v, target, long_ms, now), target, later_ms, later_now).cooldowns[target]
            >= after_cooldown(v, target, long_ms, now).cooldowns[target],
        v.cooldowns.contains_key(target) ==> after_cooldown(v, target, later_ms, later_now).cooldowns[target]
            >= v.cooldowns[target],
{
}

/// A request past its retry limit is classified `RetryLimitReached`, whether
/// or not its target is dead or cooling down.
pub proof fn retry_limit_comes_first(v: LimiterView, retry_count: usize, retry_limit: usize, target: Seq<char>, now: u64, ms: u64, since: u64)
    requires
        retry_count > retry_limit,
    ensures
        classify(v, retry_count, retry_limit, target, now) == Status::RetryLimitReached,
        classify(after_notfound(v, target), retry_count, retry_limit, target, now) == Status::RetryLimitReached,
        classify(after_cooldown(v, target, ms, since), retry_count, retry_limit, target, now) == Status::RetryLimitReached,
{
}

/// Once a target is marked dead, every request to it within its retry limit
/// is classified `Known404`, at any time, until the target is cleared; once
/// cleared, such a request is no longer `Known404`.
pub proof fn dead_until_cleared(v: LimiterView, target: Seq<char>, retry_count: usize, retry_limit: usize, now: u64)
    requires
        retry_count <= retry_limit,
    ensures
        classify(after_notfound(v, target), retry_count, retry_limit, target, now) == Status::Known404,
        classify(after_clear(after_notfound(v, target), seq![target]), retry_count, retry_limit, target, now)
            != Status::Known404,
{
    assert(seq![target].to_set().contains(seq![target][0]));
}

/// After a cooldown of `ms` at `now`, a request to a live target within its
/// retry limit is held back at every instant before `now + ms`, for at least
/// the time left until then.
pub proof fn cooldown_holds_back(v: LimiterView, target: Seq<char>, retry_count: usize, retry_limit: usize, ms: u64, now: u64, at: u64)
    requires
        retry_count <= retry_limit,
        !v.dead.contains(target),
        now <= at,
        at as int <= now as int + ms as int,
        now as int + ms as int <= u64::MAX,
    ensures
        classify(after_cooldown(v, target, ms, now), retry_count, retry_limit, target, at) is Ratelimited,
        classify(after_cooldown(v, target, ms, now), retry_count, retry_limit, target, at)->Ratelimited_0 as int
            >= now as int + ms as int - at as int,
{
}

/// Marking a target dead twice is the same as marking it once.
pub proof fn notfound_is_idempotent(v: LimiterView, target: Seq<char>)
    ensures
        after_notfound(after_notfound(v, target), target) == after_notfound(v, target),
{
    assert(v.dead.insert(target).insert(target) =~= v.dead.insert(target));
}

/// Clearing takes out exactly the listed targets: they are no longer dead,
/// every other target keeps its standing, and clearing twice is clearing once.
pub proof fn clear_removes_only_listed(v: LimiterView, targets: Seq<Seq<char>>, other: Seq<char>)
    ensures
        forall|i: int| 0 <= i < targets.len() ==> !after_clear(v, targets).dead.contains(#[trigger] targets[i]),
        !targets.contains(other) ==> (after_clear(v, targets).dead.contains(other) == v.dead.contains(other)),
        after_clear(v, targets).cooldowns == v.cooldowns,
        after_clear(after_clear(v, targets), targets) == after_clear(v, targets),
{
    assert forall|i: int| 0 <= i < targets.len() implies !after_clear(v, targets).dead.contains(#[trigger] targets[i]) by {
        assert(targets.to_set().contains(targets[i]));
    }
    assert(v.dead.difference(targets.to_set()).difference(targets.to_set()) =~= v.dead.difference(targets.to_set()));
}

} // verus!
