use vstd::prelude::*;
use crate::cache::{after_put, ResponseCache};
use crate::cooldown::{after_check, verdict_of, CooldownGate, GateView, Verdict};
use crate::queue::{QueueItem, RequestQueue};

verus! {

/// Calls made for one item before it is given up.
pub const MAX_ATTEMPTS: u64 = 5;

/// Backoff after the first failed call, in seconds.
pub const INITIAL_DELAY_SECS: u64 = 1;

/// Largest backoff, in seconds.
pub const MAX_DELAY_SECS: u64 = 32;

/// Pause after each resolved item, in seconds.
pub const PACING_SECS: u64 = 1;

/// The backoff that follows `d`: doubled, capped at the largest backoff.
pub open spec fn next_delay(d: u64) -> u64 {
    if 2 * d > MAX_DELAY_SECS {
        MAX_DELAY_SECS
    } else {
        (2 * d) as u64
    }
}

/// Where the drain loop stands.
#[derive(Debug)]
pub enum Phase {
    /// No drain loop is running.
    Idle,
    /// A drain loop was asked for and has not taken its first item yet.
    Ready,
    /// Call number `attempt` for `item` is in flight; `delay` is the backoff
    /// that follows if it fails.
    Calling { item: QueueItem, attempt: u64, delay: u64 },
    /// Call number `attempt` for `item` failed; the loop sleeps `delay` seconds.
    Backoff { item: QueueItem, attempt: u64, delay: u64 },
    /// The item is resolved and its reply is being delivered.
    Notifying,
    /// The loop pauses before it takes the next item.
    Pacing,
}

/// What the drain loop reports to the relay.
#[derive(Debug, PartialEq, Eq)]
pub enum Event {
    /// The loop has been started.
    Start,
    /// The completion service answered: `Some(text)` on success, `None` on failure.
    Reply(Option<String>),
    /// A sleep that the relay asked for is over.
    Woke,
    /// A reply that the relay asked for has been handed to the notifier.
    Sent,
}

/// What the relay asks the drain loop to do next.
#[derive(Debug, PartialEq, Eq)]
pub enum Action {
    /// Call the completion service with `prompt`.
    Call { prompt: String },
    /// Sleep for `secs` seconds.
    Sleep { secs: u64 },
    /// Send `text` to `channel`.
    Deliver { channel: u64, text: String },
    /// Send the fixed failure message to `channel`.
    DeliverFailure { channel: u64 },
    /// The queue is empty: the loop ends.
    Stop,
    /// The event does not fit where the loop stands; nothing changed.
    Nothing,
}

/// Outcome of an inbound request.
#[derive(Debug, PartialEq, Eq)]
pub enum Admission {
    /// Sent by an automated sender: dropped.
    Ignored,
    /// Refused: the channel is cooling.
    ChannelCooling,
    /// Refused: the user is cooling.
    UserCooling,
    /// Answered at once from the cache.
    Cached { text: String },
    /// Queued; `start_drain` says whether the caller must start the drain loop.
    Queued { start_drain: bool },
}

pub enum EventView {
    Start,
    Reply(Option<Seq<char>>),
    Woke,
    Sent,
}

pub enum ActionView {
    Call(Seq<char>),
    Sleep(u64),
    Deliver(u64, Seq<char>),
    DeliverFailure(u64),
    Stop,
    Nothing,
}

pub enum AdmissionView {
    Ignored,
    ChannelCooling,
    UserCooling,
    Cached(Seq<char>),
    Queued(bool),
}

impl View for Event {
    type V = EventView;

    open spec fn view(&self) -> EventView {
        match self {
            Event::Start => EventView::Start,
            Event::Reply(Some(t)) => EventView::Reply(Some(t@)),
            Event::Reply(None) => EventView::Reply(None),
            Event::Woke => EventView::Woke,
            Event::Sent => EventView::Sent,
        }
    }
}

impl View for Action {
    type V = ActionView;

    open spec fn view(&self) -> ActionView {
        match self {
            Action::Call { prompt } => ActionView::Call(prompt@),
            Action::Sleep { secs } => ActionView::Sleep(*secs),
            Action::Deliver { channel, text } => ActionView::Deliver(*channel, text@),
            Action::DeliverFailure { channel } => ActionView::DeliverFailure(*channel),
            Action::Stop => ActionView::Stop,
            Action::Nothing => ActionView::Nothing,
        }
    }
}

impl View for Admission {
    type V = AdmissionView;

    open spec fn view(&self) -> AdmissionView {
        match self {
            Admission::Ignored => AdmissionView::Ignored,
            Admission::ChannelCooling => AdmissionView::ChannelCooling,
            Admission::UserCooling => AdmissionView::UserCooling,
            Admission::Cached { text } => AdmissionView::Cached(text@),
            Admission::Queued { start_drain } => AdmissionView::Queued(*start_drain),
        }
    }
}

/// Abstract state of a relay.
pub struct RelayView {
    pub gate: GateView,
    pub cache: Map<Seq<char>, Seq<char>>,
    pub capacity: nat,
    pub queue: Seq<QueueItem>,
    pub phase: Phase,
}

/// Whether a drain loop is running.
pub open spec fn draining(p: Phase) -> bool {
    !(p is Idle)
}

/// Attempt counts and backoffs stay within their bounds.
pub open spec fn phase_wf(p: Phase) -> bool {
    match p {
        Phase::Calling { attempt, delay, .. } | Phase::Backoff { attempt, delay, .. } => {
            1 <= attempt <= MAX_ATTEMPTS && 1 <= delay <= MAX_DELAY_SECS
        },
        _ => true,
    }
}

/// Taking the next item: the loop stops on an empty queue; an item whose
/// prompt is cached by now is answered from the cache without a call.
pub open spec fn take_next(v: RelayView) -> (RelayView, ActionView) {
    if v.queue.len() == 0 {
        (RelayView { phase: Phase::Idle, ..v }, ActionView::Stop)
    } else {
        let item = v.queue[0];
        let rest = v.queue.drop_first();
        if v.cache.contains_key(item.prompt@) {
            (
                RelayView { queue: rest, phase: Phase::Notifying, ..v },
                ActionView::Deliver(item.channel, v.cache[item.prompt@]),
            )
        } else {
            (
                RelayView {
                    queue: rest,
                    phase: Phase::Calling { item, attempt: 1, delay: INITIAL_DELAY_SECS },
                    ..v
                },
                ActionView::Call(item.prompt@),
            )
        }
    }
}

/// One transition of the drain loop: the new state and the next action.
pub open spec fn step_spec(v: RelayView, e: EventView) -> (RelayView, ActionView) {
    match v.phase {
        Phase::Ready => if e is Start {
            take_next(v)
        } else {
            (v, ActionView::Nothing)
        },
        Phase::Pacing => if e is Woke {
            take_next(v)
        } else {
            (v, ActionView::Nothing)
        },
        Phase::Calling { item, attempt, delay } => match e {
            EventView::Reply(Some(t)) => (
                RelayView {
                    cache: after_put(v.cache, v.capacity, item.prompt@, t),
                    phase: Phase::Notifying,
                    ..v
                },
                ActionView::Deliver(item.channel, t),
            ),
            EventView::Reply(None) => (
                RelayView { phase: Phase::Backoff { item, attempt, delay }, ..v },
                ActionView::Sleep(delay),
            ),
            _ => (v, ActionView::Nothing),
        },
        Phase::Backoff { item, attempt, delay } => if e is Woke {
            if attempt < MAX_ATTEMPTS {
                (
                    RelayView {
                        phase: Phase::Calling { item, attempt: (attempt + 1) as u64, delay: next_delay(delay) },
                        ..v
                    },
                    ActionView::Call(item.prompt@),
                )
            } else {
                (RelayView { phase: Phase::Notifying, ..v }, ActionView::DeliverFailure(item.channel))
            }
        } else {
            (v, ActionView::Nothing)
        },
        Phase::Notifying => if e is Sent {
            (RelayView { phase: Phase::Pacing, ..v }, ActionView::Sleep(PACING_SECS))
        } else {
            (v, ActionView::Nothing)
        },
        Phase::Idle => (v, ActionView::Nothing),
    }
}

/// An inbound request: bots are dropped, then the cooldowns decide, then the
/// cache; a miss is queued and starts the drain loop only if none is running.
pub open spec fn receive_spec(v: RelayView, item: QueueItem, from_bot: bool, now: u64) -> (
    RelayView,
    AdmissionView,
) {
    if from_bot {
        (v, AdmissionView::Ignored)
    } else {
        match verdict_of(v.gate, item.channel, item.user, now) {
            Verdict::ChannelCooling => (v, AdmissionView::ChannelCooling),
            Verdict::UserCooling => (v, AdmissionView::UserCooling),
            Verdict::Admitted => {
                let gate = after_check(v.gate, item.channel, item.user, now);
                if v.cache.contains_key(item.prompt@) {
                    (RelayView { gate, ..v }, AdmissionView::Cached(v.cache[item.prompt@]))
                } else {
                    (
                        RelayView {
                            gate,
                            queue: v.queue.push(item),
                            phase: if draining(v.phase) {
                                v.phase
                            } else {
                                Phase::Ready
                            },
                            ..v
                        },
                        AdmissionView::Queued(!draining(v.phase)),
                    )
                }
            },
        }
    }
}

/// The state shared by every request: cooldown gate, response cache, queue
/// of pending requests, and where the single drain loop stands.
pub struct Relay {
    gate: CooldownGate,
    cache: ResponseCache,
    queue: RequestQueue,
    phase: Phase,
}

impl View for Relay {
    type V = RelayView;

    closed spec fn view(&self) -> RelayView {
        RelayView {
            gate: self.gate@,
            cache: self.cache@,
            capacity: self.cache.capacity(),
            queue: self.queue@,
            phase: self.phase,
        }
    }
}

impl Relay {
    pub closed spec fn wf(&self) -> bool {
        self.cache.wf() && phase_wf(self.phase)
    }

    /// A relay with empty state whose cache holds at most `cache_capacity` prompts.
    pub fn new(cache_capacity: usize) -> (r: Relay)
        requires
            cache_capacity > 0,
        ensures
            r.wf(),
            r@.gate.channels == Map::<u64, u64>::empty(),
            r@.gate.users == Map::<u64, u64>::empty(),
            r@.cache == Map::<Seq<char>, Seq<char>>::empty(),
            r@.capacity == cache_capacity,
            r@.queue == Seq::<QueueItem>::empty(),
            r@.phase == Phase::Idle,
    {
        Relay {
            gate: CooldownGate::new(),
            cache: ResponseCache::new(cache_capacity),
            queue: RequestQueue::new(),
            phase: Phase::Idle,
        }
    }

    /// The completion cached for `prompt`, if any.
    pub fn cached(&self, prompt: &str) -> (r: Option<String>)
        ensures
            r.is_some() == self@.cache.contains_key(prompt@),
            r.is_some() ==> r.unwrap()@ == self@.cache[prompt@],
    {
        self.cache.get(prompt)
    }

    /// Number of requests waiting in the queue.
    pub fn pending(&self) -> (r: usize)
        ensures
            r == self@.queue.len(),
    {
        self.queue.len()
    }

    /// Whether a drain loop is running.
    pub fn is_draining(&self) -> (r: bool)
        ensures
            r == draining(self@.phase),
    {
        !matches!(self.phase, Phase::Idle)
    }

    /// Handles an inbound request from `user` in `channel` at `now` (milliseconds).
    pub fn receive(&mut self, channel: u64, user: u64, prompt: String, from_bot: bool, now: u64) -> (r: Admission)
        requires
            old(self).wf(),
        ensures
            final(self).wf(),
            (final(self)@, r@) == receive_spec(old(self)@, (QueueItem { channel, user, prompt }), from_bot, now),
    {
        if from_bot {
            return Admission::Ignored;
        }
        match self.gate.check(channel, user, now) {
            Verdict::ChannelCooling => Admission::ChannelCooling,
            Verdict::UserCooling => Admission::UserCooling,
            Verdict::Admitted => {
                match self.cache.get(prompt.as_str()) {
                    Some(text) => Admission::Cached { text },
                    None => {
                        self.queue.enqueue(QueueItem { channel, user, prompt });
                        let start_drain = matches!(self.phase, Phase::Idle);
                        if start_drain {
                            self.phase = Phase::Ready;
                        }
                        Admission::Queued { start_drain }
                    },
                }
            },
        }
    }

    /// Takes the next item off the queue.
    fn take_next(&mut self) -> (r: Action)
        requires
            old(self).wf(),
        ensures
            final(self).wf(),
            (final(self)@, r@) == take_next(old(self)@),
    {
        match self.queue.dequeue() {
            None => {
                self.phase = Phase::Idle;
                Action::Stop
            },
            Some(item) => {
                match self.cache.get(item.prompt.as_str()) {
                    Some(text) => {
                        self.phase = Phase::Notifying;
                        Action::Deliver { channel: item.channel, text }
                    },
                    None => {
                        let prompt = item.prompt.clone();
                        self.phase = Phase::Calling { item, attempt: 1, delay: INITIAL_DELAY_SECS };
                        Action::Call { prompt }
                    },
                }
            },
        }
    }

    /// Advances the drain loop by one event and says what it must do next.
    pub fn step(&mut self, event: Event) -> (r: Action)
        requires
            old(self).wf(),
        ensures
            final(self).wf(),
            (final(self)@, r@) == step_spec(old(self)@, event@),
    {
        let mut phase = Phase::Idle;
        std::mem::swap(&mut self.phase, &mut phase);
        match phase {
            Phase::Idle => Action::Nothing,
            Phase::Ready => {
                if matches!(event, Event::Start) {
                    self.take_next()
                } else {
                    self.phase = Phase::Ready;
                    Action::Nothing
                }
            },
            Phase::Pacing => {
                if matches!(event, Event::Woke) {
                    self.take_next()
                } else {
                    self.phase = Phase::Pacing;
                    Action::Nothing
                }
            },
            Phase::Calling { item, attempt, delay } => {
                match event {
                    Event::Reply(Some(text)) => {
                        let channel = item.channel;
                        self.cache.put(item.prompt, text.clone());
                        self.phase = Phase::Notifying;
                        Action::Deliver { channel, text }
                    },
                    Event::Reply(None) => {
                        self.phase = Phase::Backoff { item, attempt, delay };
                        Action::Sleep { secs: delay }
                    },
                    _ => {
                        self.phase = Phase::Calling { item, attempt, delay };
                        Action::Nothing
                    },
                }
            },
            Phase::Backoff { item, attempt, delay } => {
                if matches!(event, Event::Woke) {
                    if attempt < MAX_ATTEMPTS {
                        let prompt = item.prompt.clone();
                        let next = if delay > MAX_DELAY_SECS / 2 {
                            MAX_DELAY_SECS
                        } else {
                            2 * delay
                        };
                        self.phase = Phase::Calling { item, attempt: attempt + 1, delay: next };
                        Action::Call { prompt }
                    } else {
                        self.phase = Phase::Notifying;
                        Action::DeliverFailure { channel: item.channel }
                    }
                } else {
                    self.phase = Phase::Backoff { item, attempt, delay };
                    Action::Nothing
                }
            },
            Phase::Notifying => {
                if matches!(event, Event::Sent) {
                    self.phase = Phase::Pacing;
                    Action::Sleep { secs: PACING_SECS }
                } else {
                    self.phase = Phase::Notifying;
                    Action::Nothing
                }
            },
        }
    }
}

} // verus!
