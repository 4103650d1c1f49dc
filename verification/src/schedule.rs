use vstd::prelude::*;

use crate::eventspec::EventSpec;
use crate::focus::XContext;
use crate::focus::XContextV;

verus! {

/// What one queued action injects: a key still known by name, a key already
/// resolved to a backend code, or a mouse button.
#[derive(Debug, PartialEq, Eq)]
pub enum InputType {
    Keyboard(String),
    XKeyboard(u8),
    Mouse(u8),
}

/// Spec-level image of an `InputType`.
pub enum InputTypeV {
    Keyboard(Seq<char>),
    XKeyboard(u8),
    Mouse(u8),
}

impl View for InputType {
    type V = InputTypeV;

    open spec fn view(&self) -> InputTypeV {
        match self {
            InputType::Keyboard(name) => InputTypeV::Keyboard(name@),
            InputType::XKeyboard(code) => InputTypeV::XKeyboard(*code),
            InputType::Mouse(button) => InputTypeV::Mouse(*button),
        }
    }
}

impl InputType {
    /// An identical copy.
    pub fn duplicate(&self) -> (r: InputType)
        ensures
            r@ == self@,
    {
        match self {
            InputType::Keyboard(name) => InputType::Keyboard(name.clone()),
            InputType::XKeyboard(code) => InputType::XKeyboard(*code),
            InputType::Mouse(button) => InputType::Mouse(*button),
        }
    }

    /// Replaces a key name with the backend code the caller resolved for it;
    /// anything already resolved is left alone.
    pub fn as_x(&mut self, keycode: u8)
        ensures
            final(self)@ == (match old(self)@ {
                InputTypeV::Keyboard(_) => InputTypeV::XKeyboard(keycode),
                other => other,
            }),
    {
        let is_name = match self {
            InputType::Keyboard(_) => true,
            _ => false,
        };
        if is_name {
            *self = InputType::XKeyboard(keycode);
        }
    }
}

/// The scheduler's working record of one periodic action.  `remaining` is the
/// delay until the event is due, relative to the entry immediately ahead of it
/// in the queue, not an absolute deadline.  All times are in milliseconds.
#[derive(Debug, PartialEq, Eq)]
pub struct InputEvent {
    pub event: InputType,
    pub interval: u64,
    pub remaining: u64,
}

/// Spec-level image of an `InputEvent`.
pub struct InputEventV {
    pub event: InputTypeV,
    pub interval: u64,
    pub remaining: u64,
}

impl View for InputEvent {
    type V = InputEventV;

    open spec fn view(&self) -> InputEventV {
        InputEventV { event: self.event@, interval: self.interval, remaining: self.remaining }
    }
}

impl InputEvent {
    /// An identical copy.
    pub fn duplicate(&self) -> (r: InputEvent)
        ensures
            r@ == self@,
    {
        InputEvent {
            event: self.event.duplicate(),
            interval: self.interval,
            remaining: self.remaining,
        }
    }
}

/// A fresh record for a parsed specification: the action it names, its
/// interval, and no delay assigned yet.
pub open spec fn spec_event_of(spec: EventSpec) -> InputEvent {
    match spec {
        EventSpec::KeyboardEvent(key, interval) => InputEvent {
            event: InputType::Keyboard(key),
            interval,
            remaining: 0,
        },
        EventSpec::MouseEvent(button, interval) => InputEvent {
            event: InputType::Mouse(button),
            interval,
            remaining: 0,
        },
    }
}

impl From<EventSpec> for InputEvent {
    /// The queue record a parsed specification first produces.
    fn from(spec: EventSpec) -> (r: InputEvent) {
        match spec {
            EventSpec::KeyboardEvent(key, interval) => InputEvent {
                event: InputType::Keyboard(key),
                interval,
                remaining: 0,
            },
            EventSpec::MouseEvent(button, interval) => InputEvent {
                event: InputType::Mouse(button),
                interval,
                remaining: 0,
            },
        }
    }
}

impl vstd::std_specs::convert::FromSpecImpl<EventSpec> for InputEvent {
    open spec fn obeys_from_spec() -> bool {
        true
    }

    open spec fn from_spec(spec: EventSpec) -> InputEvent {
        spec_event_of(spec)
    }
}

/// Absolute time until entry `i` of a delta-encoded queue is due: the sum of
/// `remaining` from the front through entry `i`.
pub open spec fn due_of(evs: Seq<InputEventV>, i: int) -> int
    decreases i,
{
    if i <= 0 {
        evs[0].remaining as int
    } else {
        due_of(evs, i - 1) + evs[i].remaining
    }
}

/// The absolute due times of a delta-encoded queue, front first.
pub open spec fn spec_dues(evs: Seq<InputEventV>) -> Seq<int> {
    Seq::new(evs.len(), |i: int| due_of(evs, i))
}

/// A queue entry with its due time made absolute.
pub struct AbsEvent {
    pub event: InputTypeV,
    pub interval: u64,
    pub due: int,
}

/// The queue with its delta encoding unfolded: every entry paired with its
/// absolute due time.
pub open spec fn abs_view(evs: Seq<InputEventV>) -> Seq<AbsEvent> {
    Seq::new(
        evs.len(),
        |i: int| AbsEvent { event: evs[i].event, interval: evs[i].interval, due: due_of(evs, i) },
    )
}

/// The due times of an unfolded queue.
pub open spec fn abs_dues(abs: Seq<AbsEvent>) -> Seq<int> {
    Seq::new(abs.len(), |i: int| abs[i].due)
}

/// Where a new entry due at `t` goes: after every entry due at or before `t`
/// (so on an exact tie the earlier-registered entry stays in front), before
/// the first entry due later.
pub open spec fn insert_pos(dues: Seq<int>, t: int) -> int
    decreases dues.len(),
{
    if dues.len() == 0 {
        0
    } else if t < dues[0] {
        0
    } else {
        1 + insert_pos(dues.skip(1), t)
    }
}

/// What `insert_pos` returns: the first index whose due time exceeds `t`.
pub proof fn lemma_insert_pos(dues: Seq<int>, t: int)
    ensures
        0 <= insert_pos(dues, t) <= dues.len(),
        forall|j: int| 0 <= j < insert_pos(dues, t) ==> dues[j] <= t,
        insert_pos(dues, t) < dues.len() ==> t < dues[insert_pos(dues, t)],
    decreases dues.len(),
{
    if dues.len() > 0 && !(t < dues[0]) {
        lemma_insert_pos(dues.skip(1), t);
        assert(forall|j: int| 1 <= j < dues.len() ==> dues[j] == dues.skip(1)[j - 1]);
    }
}

/// Scheduling a new occurrence of `event` with a full `interval` of delay:
/// the unfolded queue gains one entry due `interval` from now, placed by
/// `insert_pos`; nothing else moves.
pub open spec fn spec_add_abs(abs: Seq<AbsEvent>, event: InputTypeV, interval: u64) -> Seq<
    AbsEvent,
> {
    abs.insert(
        insert_pos(abs_dues(abs), interval as int),
        AbsEvent { event, interval, due: interval as int },
    )
}

/// Due times depend only on the entries up to the index asked about.
proof fn lemma_due_agree(a: Seq<InputEventV>, b: Seq<InputEventV>, j: int)
    requires
        0 <= j < a.len(),
        j < b.len(),
        forall|k: int| 0 <= k <= j ==> a[k].remaining == b[k].remaining,
    ensures
        due_of(a, j) == due_of(b, j),
    decreases j,
{
    if j > 0 {
        lemma_due_agree(a, b, j - 1);
    }
}

/// The shape a delta-encoded queue `n` has after inserting an entry due at
/// `t` into `o` at position `idx`: the prefix is untouched, the new entry
/// carries the leftover delta, the old entry at `idx` had that delta taken
/// off its own, and the rest follows unchanged.
spec fn inserted_shape(
    o: Seq<InputEventV>,
    n: Seq<InputEventV>,
    idx: int,
    t: int,
) -> bool {
    &&& 0 <= idx <= o.len()
    &&& n.len() == o.len() + 1
    &&& (forall|k: int| 0 <= k < idx ==> n[k].remaining == o[k].remaining)
    &&& n[idx].remaining as int == t - (if idx == 0 {
        0
    } else {
        due_of(o, idx - 1)
    })
    &&& (idx < o.len() ==> n[idx + 1].remaining as int == o[idx].remaining - n[idx].remaining)
    &&& (forall|k: int| idx + 1 < k < n.len() ==> n[k].remaining == o[k - 1].remaining)
}

/// Due times after an insertion: the new entry is due at `t`, and every other
/// entry keeps exactly the absolute due time it had before.
proof fn lemma_due_insert(o: Seq<InputEventV>, n: Seq<InputEventV>, idx: int, t: int, j: int)
    requires
        inserted_shape(o, n, idx, t),
        idx <= j < n.len(),
    ensures
        j == idx ==> due_of(n, j) == t,
        j > idx ==> due_of(n, j) == due_of(o, j - 1),
    decreases j - idx,
{
    if j == idx {
        if idx > 0 {
            lemma_due_agree(n, o, idx - 1);
        }
    } else {
        lemma_due_insert(o, n, idx, t, j - 1);
    }
}

/// All due times after an insertion at once.
proof fn lemma_due_insert_all(o: Seq<InputEventV>, n: Seq<InputEventV>, idx: int, t: int)
    requires
        inserted_shape(o, n, idx, t),
    ensures
        forall|j: int| 0 <= j < idx ==> due_of(n, j) == due_of(o, j),
        due_of(n, idx) == t,
        forall|j: int| idx < j < n.len() ==> due_of(n, j) == due_of(o, j - 1),
{
    assert forall|j: int| 0 <= j < idx implies due_of(n, j) == due_of(o, j) by {
        lemma_due_agree(n, o, j);
    }
    lemma_due_insert(o, n, idx, t, idx);
    assert forall|j: int| idx < j < n.len() implies due_of(n, j) == due_of(o, j - 1) by {
        lemma_due_insert(o, n, idx, t, j);
    }
}

/// How long one idle tick sleeps when the queue is empty, in milliseconds.
pub const IDLE_SLEEP_MS: u64 = 100;

/// How often the activity indicator is polled while paused, in milliseconds.
pub const PAUSE_POLL_MS: u64 = 500;

/// The keyboard indicator bit that signals user activity.
pub const ACTIVITY_INDICATOR_MASK: u32 = 0x02;

/// What the caller must do for one scheduler step: sleep through an idle tick
/// because the queue is empty, or sleep off a (possibly zero) delay and then
/// inject the target.
#[derive(Debug, PartialEq, Eq)]
pub enum RunAction {
    Idle { sleep_ms: u64 },
    Fire { sleep_ms: u64, target: InputType },
}

/// Spec-level image of a `RunAction`.
pub enum RunActionV {
    Idle { sleep_ms: u64 },
    Fire { sleep_ms: u64, target: InputTypeV },
}

impl View for RunAction {
    type V = RunActionV;

    open spec fn view(&self) -> RunActionV {
        match self {
            RunAction::Idle { sleep_ms } => RunActionV::Idle { sleep_ms: *sleep_ms },
            RunAction::Fire { sleep_ms, target } => RunActionV::Fire {
                sleep_ms: *sleep_ms,
                target: target@,
            },
        }
    }
}

/// Wall-clock time elapsed since the reference point, never negative.
pub open spec fn spec_elapsed(last_active: u64, now_ms: u64) -> int {
    if now_ms >= last_active {
        now_ms - last_active
    } else {
        0
    }
}

/// The delay still to sleep before an event with `remaining` on its clock is
/// really due, `elapsed` after the reference point: zero once real time has
/// caught up with the nominal due time.
pub open spec fn spec_sleep_ms(remaining: u64, elapsed: int) -> int {
    if remaining > elapsed {
        remaining - elapsed
    } else {
        0
    }
}

/// Whether injection is suppressed: a raised activity indicator means the
/// user is active and injection must pause; a failed query counts as not
/// active.
pub open spec fn spec_paused(indicator: Option<u32>) -> bool {
    match indicator {
        Some(bits) => bits & ACTIVITY_INDICATOR_MASK == ACTIVITY_INDICATOR_MASK,
        None => false,
    }
}

/// The delta-encoded event scheduler: pending events ordered soonest-due
/// first, the display state the injections run against, and the wall-clock
/// reference (in milliseconds) up to which the queue's delays have been
/// charged.
#[derive(Debug)]
pub struct InputEventQueue {
    pub events: Vec<InputEvent>,
    pub xctx: XContext,
    pub last_active: u64,
}

/// Spec-level image of an `InputEventQueue`.
pub struct InputEventQueueV {
    pub events: Seq<InputEventV>,
    pub xctx: XContextV,
    pub last_active: u64,
}

impl View for InputEventQueue {
    type V = InputEventQueueV;

    open spec fn view(&self) -> InputEventQueueV {
        InputEventQueueV {
            events: self.events@.map_values(|e: InputEvent| e@),
            xctx: self.xctx@,
            last_active: self.last_active,
        }
    }
}

impl InputEventQueue {
    /// An empty queue over the given display state, with the clock reference
    /// set to the caller's current time.
    pub fn new(xctx: XContext, now_ms: u64) -> (r: InputEventQueue)
        ensures
            r@.events == Seq::<InputEventV>::empty(),
            r@.xctx == xctx@,
            r@.last_active == now_ms,
    {
        let r = InputEventQueue { events: Vec::new(), xctx, last_active: now_ms };
        proof {
            assert(r@.events =~= Seq::<InputEventV>::empty());
        }
        r
    }

    /// Walks the queue to the position where an event starting a full cycle of
    /// `event.interval` belongs, leaving `event.remaining` set to the delta it
    /// will carry there: its interval less the due time of the entry ahead.
    fn find_insertion_point(&self, event: &mut InputEvent) -> (idx: usize)
        ensures
            idx <= self.events@.len(),
            idx == insert_pos(spec_dues(self@.events), old(event).interval as int),
            final(event)@.event == old(event)@.event,
            final(event)@.interval == old(event)@.interval,
            final(event).remaining as int == old(event).interval as int - (if idx == 0 {
                0
            } else {
                due_of(self@.events, idx - 1)
            }),
    {
        let ghost evs = self@.events;
        let ghost t = event.interval as int;
        let ghost orig = event@;
        proof {
            lemma_insert_pos(spec_dues(evs), t);
        }
        event.remaining = event.interval;
        let n = self.events.len();
        let mut i: usize = 0;
        while i < n
            invariant
                n == self.events@.len(),
                i <= n,
                evs == self@.events,
                evs.len() == n,
                orig == old(event)@,
                t == orig.interval as int,
                event@.event == orig.event,
                event@.interval == orig.interval,
                event.remaining as int == t - (if i == 0 {
                    0int
                } else {
                    due_of(evs, i as int - 1)
                }),
                forall|j: int| 0 <= j < i ==> spec_dues(evs)[j] <= t,
                0 <= insert_pos(spec_dues(evs), t) <= evs.len(),
                forall|j: int| 0 <= j < insert_pos(spec_dues(evs), t) ==> spec_dues(evs)[j] <= t,
                insert_pos(spec_dues(evs), t) < evs.len() ==> t < spec_dues(evs)[insert_pos(
                    spec_dues(evs),
                    t,
                )],
            decreases n - i,
        {
            let ahead = self.events[i].remaining;
            proof {
                assert(due_of(evs, i as int) == (if i == 0 {
                    0int
                } else {
                    due_of(evs, i as int - 1)
                }) + evs[i as int].remaining);
            }
            if event.remaining < ahead {
                proof {
                    let p = insert_pos(spec_dues(evs), t);
                    assert(t < spec_dues(evs)[i as int]);
                    if p < i {
                        assert(spec_dues(evs)[p] <= t);
                    }
                    if p > i {
                        assert(spec_dues(evs)[i as int] <= t);
                    }
                    assert(p == i as int);
                }
                return i;
            }
            event.remaining = event.remaining - ahead;
            i += 1;
        }
        proof {
            let p = insert_pos(spec_dues(evs), t);
            if p < n {
                assert(spec_dues(evs)[p] <= t);
            }
        }
        n
    }

    /// Schedules a new occurrence of `event`, a full `interval` from now.
    /// The unfolded queue gains exactly one entry, due `interval` after the
    /// clock reference, placed behind every entry due no later; every other
    /// entry keeps its absolute due time.
    pub fn add_event(&mut self, event: InputEvent)
        ensures
            final(self)@.xctx == old(self)@.xctx,
            final(self)@.last_active == old(self)@.last_active,
            abs_view(final(self)@.events) == spec_add_abs(
                abs_view(old(self)@.events),
                event@.event,
                event@.interval,
            ),
    {
        let ghost o = self@.events;
        let ghost t = event.interval as int;
        let ghost orig = event@;
        let mut event = event;
        let idx = self.find_insertion_point(&mut event);
        proof {
            assert(spec_dues(o) =~= abs_dues(abs_view(o)));
            lemma_insert_pos(spec_dues(o), t);
        }
        if idx < self.events.len() {
            proof {
                assert(due_of(o, idx as int) == (if idx == 0 {
                    0int
                } else {
                    due_of(o, idx as int - 1)
                }) + o[idx as int].remaining);
                assert(t < spec_dues(o)[idx as int]);
            }
            let mut next = self.events.remove(idx);
            next.remaining = next.remaining - event.remaining;
            self.events.insert(idx, next);
        }
        self.events.insert(idx, event);
        proof {
            let n = self@.events;
            assert(inserted_shape(o, n, idx as int, t));
            lemma_due_insert_all(o, n, idx as int, t);
            assert(abs_view(n) =~= spec_add_abs(abs_view(o), orig.event, orig.interval));
        }
    }

    /// One step of the run loop at wall-clock time `now_ms`.  An empty queue
    /// asks for an idle tick and changes nothing.  Otherwise the earliest-due
    /// event is popped and rescheduled a full interval ahead, and the action
    /// says how long to sleep before injecting it: the event's remaining delay
    /// less the time already elapsed, or — when real time has already passed
    /// the due point — no sleep at all, the reference clock instead advancing
    /// by exactly the event's remaining delay (never by the larger elapsed
    /// time), so that backlog is fast-forwarded through rather than slept off.
    pub fn run_next(&mut self, now_ms: u64) -> (r: RunAction)
        requires
            old(self)@.events.len() > 0 ==> now_ms + old(self)@.events[0].remaining <= u64::MAX,
        ensures
            final(self)@.xctx == old(self)@.xctx,
            match r@ {
                RunActionV::Idle { sleep_ms } => {
                    &&& old(self)@.events.len() == 0
                    &&& sleep_ms == IDLE_SLEEP_MS
                    &&& final(self)@.events == old(self)@.events
                    &&& final(self)@.last_active == old(self)@.last_active
                },
                RunActionV::Fire { sleep_ms, target } => {
                    let e = old(self)@.events[0];
                    let elapsed = spec_elapsed(old(self)@.last_active, now_ms);
                    &&& old(self)@.events.len() > 0
                    &&& target == e.event
                    &&& sleep_ms as int == spec_sleep_ms(e.remaining, elapsed)
                    &&& final(self)@.last_active as int == (if e.remaining > elapsed {
                        now_ms + sleep_ms
                    } else {
                        old(self)@.last_active + e.remaining
                    })
                    &&& abs_view(final(self)@.events) == spec_add_abs(
                        abs_view(old(self)@.events.skip(1)),
                        e.event,
                        e.interval,
                    )
                },
            },
    {
        if self.events.len() == 0 {
            return RunAction::Idle { sleep_ms: IDLE_SLEEP_MS };
        }
        let ghost o = self@;
        let event = self.events.remove(0);
        proof {
            assert(self@.events =~= o.events.skip(1));
        }
        let elapsed: u64 = if now_ms >= self.last_active {
            now_ms - self.last_active
        } else {
            0
        };
        let sleep_ms: u64;
        if event.remaining > elapsed {
            sleep_ms = event.remaining - elapsed;
            self.last_active = now_ms + sleep_ms;
        } else {
            sleep_ms = 0;
            self.last_active = self.last_active + event.remaining;
        }
        let target = event.event.duplicate();
        self.add_event(event);
        RunAction::Fire { sleep_ms, target }
    }

    /// Whether injection is currently suppressed, given the keyboard activity
    /// indicator the caller queried (or failed to query) from the backend.
    pub fn paused(&self, indicator: Option<u32>) -> (r: bool)
        ensures
            r == spec_paused(indicator),
    {
        match indicator {
            Some(bits) => bits & ACTIVITY_INDICATOR_MASK == ACTIVITY_INDICATOR_MASK,
            None => false,
        }
    }

    /// Resets the clock reference on leaving the paused state, so that time
    /// spent paused is never charged against any event's remaining delay.
    /// The queue itself is untouched.
    pub fn note_resumed(&mut self, now_ms: u64)
        ensures
            final(self)@.events == old(self)@.events,
            final(self)@.xctx == old(self)@.xctx,
            final(self)@.last_active == now_ms,
    {
        self.last_active = now_ms;
    }
}

/// The action an event specification injects.
pub open spec fn spec_target_of(spec: EventSpec) -> InputTypeV {
    match spec {
        EventSpec::KeyboardEvent(key, _) => InputTypeV::Keyboard(key@),
        EventSpec::MouseEvent(button, _) => InputTypeV::Mouse(button),
    }
}

/// The repeat interval an event specification asks for.
pub open spec fn spec_interval_of(spec: EventSpec) -> u64 {
    match spec {
        EventSpec::KeyboardEvent(_, interval) => interval,
        EventSpec::MouseEvent(_, interval) => interval,
    }
}

/// The unfolded queue that scheduling each specification in turn produces,
/// every event starting a full cycle from the same reference point.
pub open spec fn spec_schedule(specs: Seq<EventSpec>) -> Seq<AbsEvent>
    decreases specs.len(),
{
    if specs.len() == 0 {
        Seq::<AbsEvent>::empty()
    } else {
        spec_add_abs(
            spec_schedule(specs.drop_last()),
            spec_target_of(specs.last()),
            spec_interval_of(specs.last()),
        )
    }
}

/// Builds the scheduler for a configuration: a fresh display state for
/// `displayname` and one queued event per specification, scheduled in order,
/// with the clock reference set to the caller's current time.
pub fn process_events(
    displayname: Option<String>,
    eventspecs: Vec<EventSpec>,
    now_ms: u64,
) -> (r: InputEventQueue)
    ensures
        r@.last_active == now_ms,
        r@.xctx.display_name == (match displayname {
            Some(name) => Some(name@),
            None => None::<Seq<char>>,
        }),
        r@.xctx.window is None,
        r@.xctx.key_name_to_code == Seq::<(Seq<char>, u8)>::empty(),
        abs_view(r@.events) == spec_schedule(eventspecs@),
{
    let ghost all = eventspecs@;
    let xctx = XContext::new(displayname);
    let mut queue = InputEventQueue::new(xctx, now_ms);
    proof {
        assert(all.skip(0) =~= all);
        assert(all.take(0) =~= Seq::<EventSpec>::empty());
        assert(abs_view(queue@.events) =~= Seq::<AbsEvent>::empty());
    }
    let mut specs = eventspecs;
    while specs.len() > 0
        invariant
            specs@.len() <= all.len(),
            specs@ == all.skip(all.len() - specs@.len()),
            abs_view(queue@.events) == spec_schedule(all.take(all.len() - specs@.len())),
            queue@.last_active == now_ms,
            queue@.xctx.display_name == (match displayname {
                Some(name) => Some(name@),
                None => None::<Seq<char>>,
            }),
            queue@.xctx.window is None,
            queue@.xctx.key_name_to_code == Seq::<(Seq<char>, u8)>::empty(),
        decreases specs@.len(),
    {
        let ghost k = all.len() - specs@.len();
        let spec = specs.remove(0);
        proof {
            assert(spec == all[k]);
            assert(specs@ =~= all.skip(k + 1));
            assert(all.take(k + 1).drop_last() =~= all.take(k));
            assert(all.take(k + 1).last() == all[k]);
        }
        let event = InputEvent::from(spec);
        queue.add_event(event);
    }
    proof {
        assert(all.take(all.len() as int) =~= all);
    }
    queue
}

/// Due times never decrease along the queue: the delta encoding sums
/// non-negative delays, so the queue is implicitly sorted by due time.
proof fn lemma_due_monotone(evs: Seq<InputEventV>, i: int, j: int)
    requires
        0 <= i <= j < evs.len(),
    ensures
        due_of(evs, i) <= due_of(evs, j),
    decreases j - i,
{
    if i < j {
        lemma_due_monotone(evs, i, j - 1);
    }
}

/// Ordering: an event due strictly earlier than another stands strictly
/// ahead of it in the queue.
pub proof fn lemma_queue_ordering(evs: Seq<InputEventV>, i: int, j: int)
    requires
        0 <= i < evs.len(),
        0 <= j < evs.len(),
        due_of(evs, i) < due_of(evs, j),
    ensures
        i < j,
{
    if i >= j {
        lemma_due_monotone(evs, j, i);
    }
}

/// Queue invariant under insertion: scheduling a new event due a full
/// `interval` from the reference point adds exactly one entry, due exactly
/// `interval`, and every entry already queued keeps the absolute due time it
/// had — those due no later than the newcomer (ties included, so the
/// earlier-registered event keeps precedence) keep their places ahead of it,
/// the rest move back by one place unchanged.
pub proof fn lemma_insert_preserves_due_times(abs: Seq<AbsEvent>, event: InputTypeV, interval: u64)
    ensures
        ({
            let k = insert_pos(abs_dues(abs), interval as int);
            let out = spec_add_abs(abs, event, interval);
            &&& 0 <= k <= abs.len()
            &&& out.len() == abs.len() + 1
            &&& out[k] == (AbsEvent { event, interval, due: interval as int })
            &&& (forall|j: int| 0 <= j < k ==> out[j] == abs[j])
            &&& (forall|j: int| k <= j < abs.len() ==> out[j + 1] == abs[j])
            &&& (forall|j: int| 0 <= j < k ==> abs[j].due <= interval)
            &&& (k < abs.len() ==> interval < abs[k].due)
        }),
{
    lemma_insert_pos(abs_dues(abs), interval as int);
    assert(forall|j: int| 0 <= j < abs.len() ==> abs_dues(abs)[j] == abs[j].due);
    let k = insert_pos(abs_dues(abs), interval as int);
    assert forall|j: int| 0 <= j < k implies abs[j].due <= interval by {
        assert(abs_dues(abs)[j] <= interval as int);
    }
}

/// Absolute due times after popping the front entry, measured from a
/// reference advanced by the popped delta: every remaining entry is due
/// exactly when it was before.
pub proof fn lemma_pop_shifts_dues(evs: Seq<InputEventV>, j: int)
    requires
        evs.len() > 0,
        0 <= j < evs.len() - 1,
    ensures
        due_of(evs.skip(1), j) == due_of(evs, j + 1) - evs[0].remaining,
    decreases j,
{
    assert(evs.skip(1)[j] == evs[j + 1]);
    if j > 0 {
        lemma_pop_shifts_dues(evs, j - 1);
    } else {
        assert(due_of(evs, 1) == due_of(evs, 0) + evs[1].remaining);
    }
}

/// Idempotent re-insertion: popping the front event and immediately
/// reinserting it with its original interval — no wall-clock time passing,
/// the reference clock advancing by the popped delta exactly as the catch-up
/// step does — leaves every other event at its place with its absolute due
/// time unchanged, and puts the popped event back at the front, due one full
/// interval after the instant it was due.  Ordering-wise the queue is as if
/// the pop had never happened.  The hypothesis keeps out the inputs on which
/// this fails: where the popped event's next occurrence would overtake some
/// other queued entry, reinsertion properly places it further back.
pub proof fn lemma_pop_reinsert(evs: Seq<InputEventV>)
    requires
        evs.len() > 0,
        forall|j: int| 1 <= j < evs.len() ==> evs[0].remaining + evs[0].interval < due_of(evs, j),
    ensures
        ({
            let out = spec_add_abs(abs_view(evs.skip(1)), evs[0].event, evs[0].interval);
            &&& out.len() == evs.len()
            &&& out[0] == (AbsEvent {
                event: evs[0].event,
                interval: evs[0].interval,
                due: evs[0].interval as int,
            })
            &&& (forall|j: int| 1 <= j < evs.len() ==> out[j] == (AbsEvent {
                event: evs[j].event,
                interval: evs[j].interval,
                due: due_of(evs, j) - evs[0].remaining,
            }))
        }),
{
    let rest = evs.skip(1);
    assert forall|j: int| 0 <= j < rest.len() implies due_of(rest, j) == due_of(evs, j + 1)
        - evs[0].remaining by {
        lemma_pop_shifts_dues(evs, j);
    }
    let dues = abs_dues(abs_view(rest));
    if rest.len() > 0 {
        assert(dues[0] == due_of(evs, 1) - evs[0].remaining);
        assert(evs[0].interval < dues[0]);
    }
    assert(insert_pos(dues, evs[0].interval as int) == 0);
    let out = spec_add_abs(abs_view(rest), evs[0].event, evs[0].interval);
    assert forall|j: int| 1 <= j < evs.len() implies out[j] == (AbsEvent {
        event: evs[j].event,
        interval: evs[j].interval,
        due: due_of(evs, j) - evs[0].remaining,
    }) by {
        assert(out[j] == abs_view(rest)[j - 1]);
        assert(rest[j - 1] == evs[j]);
    }
}

/// Pause isolation: however long the tool stayed paused, once the clock
/// reference is reset to the resume instant the very next step sleeps the
/// front event's full remaining delay — time spent paused is charged to no
/// event.  (While paused, nothing touches the queue itself.)
pub proof fn lemma_pause_isolation(remaining: u64, pause_started: u64, pause_len: u64)
    requires
        pause_started + pause_len <= u64::MAX,
    ensures
        ({
            let resume = (pause_started + pause_len) as u64;
            spec_sleep_ms(remaining, spec_elapsed(resume, resume)) == remaining
        }),
{
}

} // verus!

