use vstd::prelude::*;

verus! {

/// Length of a cooldown window, in milliseconds.
pub const COOLDOWN_MS: u64 = 60_000;

#[verifier::external_type_specification]
#[verifier::external_body]
#[verifier::reject_recursive_types(K)]
#[verifier::reject_recursive_types(V)]
#[verifier::reject_recursive_types(S)]
pub struct ExDashMap<K, V, S>(dashmap::DashMap<K, V, S>);

/// The last-seen timestamps that a table holds, by subject.
pub uninterp spec fn stamps(m: dashmap::DashMap<u64, u64>) -> Map<u64, u64>;

/// Relies on dashmap::DashMap::new: a new map is empty.
#[verifier::external_body]
fn stamps_new() -> (r: dashmap::DashMap<u64, u64>)
    ensures
        stamps(r).is_empty(),
{
    dashmap::DashMap::new()
}

/// Relies on dashmap::DashMap::get: the value stored under `k`, if any.
#[verifier::external_body]
fn stamps_get(m: &dashmap::DashMap<u64, u64>, k: u64) -> (r: Option<u64>)
    ensures
        r == (if stamps(*m).contains_key(k) { Some(stamps(*m)[k]) } else { None }),
{
    m.get(&k).map(|e| *e.value())
}

/// Relies on dashmap::DashMap::insert: `k` maps to `v` afterwards, the rest is kept.
#[verifier::external_body]
fn stamps_insert(m: &mut dashmap::DashMap<u64, u64>, k: u64, v: u64)
    ensures
        stamps(*final(m)) == stamps(*old(m)).insert(k, v),
{
    m.insert(k, v);
}

/// Whether a subject last seen at `last` is still cooling at `now`.
pub open spec fn cooling(last: u64, now: u64) -> bool {
    now < last + COOLDOWN_MS
}

/// Whether a subject with the given table entry is cooling at `now`.
pub open spec fn cooling_in(table: Map<u64, u64>, id: u64, now: u64) -> bool {
    table.contains_key(id) && cooling(table[id], now)
}

/// Outcome of an admission check.
#[derive(Clone, Copy, Debug, PartialEq, Eq, Structural)]
pub enum Verdict {
    Admitted,
    ChannelCooling,
    UserCooling,
}

/// Abstract state of a gate: last-seen times by channel and by user.
pub struct GateView {
    pub channels: Map<u64, u64>,
    pub users: Map<u64, u64>,
}

/// The verdict that `check` gives for a request at `now`.
pub open spec fn verdict_of(g: GateView, channel: u64, user: u64, now: u64) -> Verdict {
    if cooling_in(g.channels, channel, now) {
        Verdict::ChannelCooling
    } else if cooling_in(g.users, user, now) {
        Verdict::UserCooling
    } else {
        Verdict::Admitted
    }
}

/// The limiter after a request: both stamps move to `now` on admission only.
pub open spec fn after_check(g: GateView, channel: u64, user: u64, now: u64) -> GateView {
    if verdict_of(g, channel, user, now) == Verdict::Admitted {
        GateView { channels: g.channels.insert(channel, now), users: g.users.insert(user, now) }
    } else {
        g
    }
}

/// Per-channel and per-user rate limiter over last-seen timestamps (milliseconds).
pub struct CooldownGate {
    channels: dashmap::DashMap<u64, u64>,
    users: dashmap::DashMap<u64, u64>,
}

impl CooldownGate {
    pub closed spec fn view(&self) -> GateView {
        GateView { channels: stamps(self.channels), users: stamps(self.users) }
    }

    /// A gate that has seen no subject.
    pub fn new() -> (r: CooldownGate)
        ensures
            r.view().channels == Map::<u64, u64>::empty(),
            r.view().users == Map::<u64, u64>::empty(),
    {
        CooldownGate { channels: stamps_new(), users: stamps_new() }
    }

    /// Admission check for a request from `user` in `channel` at time `now`.
    /// The channel is checked first; on admission both stamps are set to `now`.
    pub fn check(&mut self, channel: u64, user: u64, now: u64) -> (r: Verdict)
        ensures
            r == verdict_of(old(self).view(), channel, user, now),
            final(self).view() == after_check(old(self).view(), channel, user, now),
    {
        if let Some(last) = stamps_get(&self.channels, channel) {
            if is_cooling(last, now) {
                return Verdict::ChannelCooling;
            }
        }
        if let Some(last) = stamps_get(&self.users, user) {
            if is_cooling(last, now) {
                return Verdict::UserCooling;
            }
        }
        stamps_insert(&mut self.channels, channel, now);
        stamps_insert(&mut self.users, user, now);
        Verdict::Admitted
    }
}

/// Whether a subject last seen at `last` is still cooling at `now`; a clock
/// that reads earlier than `last` counts as no time elapsed.
pub fn is_cooling(last: u64, now: u64) -> (r: bool)
    ensures
        r == cooling(last, now),
{
    now < last || now - last < COOLDOWN_MS
}

/// Two admissions on one channel: a check less than a window after an
/// admission is refused for the channel; one a full window later, by the same
/// user, is admitted.
pub proof fn lemma_cooldown_window(g: GateView, channel: u64, user: u64, t1: u64, t2: u64, other: u64)
    requires
        verdict_of(g, channel, user, t1) == Verdict::Admitted,
        t1 <= t2,
    ensures
        t2 < t1 + COOLDOWN_MS ==> verdict_of(after_check(g, channel, user, t1), channel, other, t2)
            == Verdict::ChannelCooling,
        t2 >= t1 + COOLDOWN_MS ==> verdict_of(after_check(g, channel, user, t1), channel, user, t2)
            == Verdict::Admitted,
{
}

} // verus!
