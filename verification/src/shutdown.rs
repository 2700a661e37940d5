//! The broadcast-once shutdown signal and the watcher that fires it.
//!
//! A [`ShutdownSignal`] is one boolean latch with a firing side and any number
//! of listeners. The latch goes from "not fired" to "fired" at most once and
//! never back. The [`Watcher`] decides when to fire it: on an operating-system
//! interrupt, always, and on the end of standard input, only when that watch
//! was asked for. The program around the watcher waits for the sources that
//! [`Watcher::sources`] names and reports each arrival to
//! [`Watcher::on_event`].

use vstd::prelude::*;

verus! {

/// The firing half of a `triggered` pair.
#[verifier::external_type_specification]
#[verifier::external_body]
pub struct ExTrigger(triggered::Trigger);

/// The waiting half of a `triggered` pair.
#[verifier::external_type_specification]
#[verifier::external_body]
pub struct ExListener(triggered::Listener);

/// Whether the pair that `trigger` belongs to has fired: the completion flag
/// that `triggered` keeps for the pair. The flag is shared by every handle of
/// the pair and can be set through any `Trigger` of it, so it is a property of
/// a `Trigger` value only under the discipline that this module keeps: a
/// [`ShutdownSignal`] holds the one `Trigger` of its pair in a private field,
/// never clones it and never hands it out, and fires it only through `&mut`.
pub uninterp spec fn fired_of(trigger: triggered::Trigger) -> bool;

/// The latch that `listener` waits on: the state that it shares with the
/// other handles of its pair. Two listeners wait on the same latch exactly if
/// this is the same for both.
pub uninterp spec fn latch_of(listener: triggered::Listener) -> int;

/// `triggered::trigger`: a fresh trigger and the listener bound to it. The
/// pair is created with its completion flag unset.
#[verifier::external_body]
fn bound_pair() -> (pair: (triggered::Trigger, triggered::Listener))
    ensures
        !fired_of(pair.0),
{
    triggered::trigger()
}

/// `triggered::Trigger::trigger`: sets the completion flag of the pair and
/// wakes every listener that waits on it. A call on a pair that has fired
/// does nothing. The outside method takes `&self`; `&mut` is asked for here so
/// that the one `Trigger` of a signal changes only where a caller can see it.
#[verifier::external_body]
fn wake_listeners(trigger: &mut triggered::Trigger)
    ensures
        fired_of(*final(trigger)),
{
    trigger.trigger()
}

/// `triggered::Trigger::is_triggered`: reads the completion flag of the pair.
#[verifier::external_body]
fn has_fired(trigger: &triggered::Trigger) -> (fired: bool)
    ensures
        fired == fired_of(*trigger),
{
    trigger.is_triggered()
}

/// `Clone::clone` of `triggered::Listener`: one more listener, which shares
/// the state of the one it was made from and so waits on the same latch.
#[verifier::external_body]
fn another_listener(listener: &triggered::Listener) -> (other: triggered::Listener)
    ensures
        latch_of(other) == latch_of(*listener),
{
    listener.clone()
}

/// The state of the latch.
pub struct Latch {
    /// Whether the latch has fired.
    pub fired: bool,
}

impl Latch {
    /// The latch after a firing: fired, whatever it was.
    pub open spec fn fire(self) -> Latch {
        Latch { fired: true }
    }

    /// What a listener that looks at the latch sees.
    pub open spec fn observe(self) -> bool {
        self.fired
    }

    /// Whether going from `self` to `next` is the one transition of the
    /// latch, from "not fired" to "fired".
    pub open spec fn transition(self, next: Latch) -> bool {
        !self.fired && next.fired
    }
}

/// A broadcast-once signal: the firing side, kept here, and a listener from
/// which any number of further listeners are made. This value holds the only
/// `Trigger` of its pair, so nothing else can fire the latch.
#[derive(Debug)]
pub struct ShutdownSignal {
    trigger: triggered::Trigger,
    listener: triggered::Listener,
}

impl View for ShutdownSignal {
    type V = Latch;

    closed spec fn view(&self) -> Latch {
        Latch { fired: fired_of(self.trigger) }
    }
}

impl ShutdownSignal {
    /// The latch that the listeners of this signal wait on.
    pub closed spec fn latch(&self) -> int {
        latch_of(self.listener)
    }

    /// A signal that has not fired.
    pub fn new() -> (signal: ShutdownSignal)
        ensures
            !signal@.fired,
    {
        let (trigger, listener) = bound_pair();
        ShutdownSignal { trigger, listener }
    }

    /// Fires the latch. Firing a latch that has fired already changes
    /// nothing and is no error.
    pub fn trigger(&mut self)
        ensures
            final(self)@ == old(self)@.fire(),
            final(self)@.fired,
            final(self).latch() == old(self).latch(),
    {
        wake_listeners(&mut self.trigger);
    }

    /// Whether the latch has fired.
    pub fn is_fired(&self) -> (fired: bool)
        ensures
            fired == self@.observe(),
    {
        has_fired(&self.trigger)
    }

    /// A listener of this signal, to be awaited by whoever has to stop when
    /// the latch fires. Making one does not touch the latch.
    pub fn listener(&self) -> (listener: triggered::Listener)
        ensures
            latch_of(listener) == self.latch(),
    {
        another_listener(&self.listener)
    }
}

/// How an attempt to read standard input ended.
#[derive(Clone, Copy, Debug, PartialEq, Eq, Structural)]
pub enum ReadOutcome {
    /// The read returned this many bytes. Zero bytes is the end of the
    /// stream.
    Bytes(usize),
    /// The read failed.
    Failed,
}

/// How the wait for an interrupt from the operating system ended.
#[derive(Clone, Copy, Debug, PartialEq, Eq, Structural)]
pub enum WaitOutcome {
    /// The interrupt was delivered.
    Delivered,
    /// The wait failed: no interrupt can be heard.
    Failed,
}

/// What the watcher is told has happened.
#[derive(Clone, Copy, Debug, PartialEq, Eq, Structural)]
pub enum WatchEvent {
    /// The wait for an interrupt from the operating system ended.
    Interrupt(WaitOutcome),
    /// A read from standard input ended.
    StdinRead(ReadOutcome),
}

/// The sources that the watcher waits for next.
#[derive(Clone, Copy, Debug, PartialEq, Eq, Structural)]
pub struct Sources {
    /// Wait for an interrupt from the operating system.
    pub interrupt: bool,
    /// Read standard input. Where this is unset, standard input is not to be
    /// read at all.
    pub stdin: bool,
}

/// What the watcher does after an event.
#[derive(Clone, Copy, Debug, PartialEq, Eq, Structural)]
pub enum WatchAction {
    /// Nothing fired: keep waiting for [`Watcher::sources`].
    Wait,
    /// The latch has fired: the watcher is done.
    Exit,
}

/// The state of a watcher: whether it watches standard input, and the latch.
pub struct WatcherState {
    pub stdin_watch: bool,
    pub latch: Latch,
}

impl WatchEvent {
    /// Whether this event fires the latch of a watcher that is still
    /// waiting. The end of the wait for an interrupt always does, however
    /// the wait ended: a watcher that can no longer hear the interrupt shuts
    /// the process down rather than leave it without a way to be stopped. A
    /// read from standard input does only where the watch is on and the read
    /// was of zero bytes.
    pub open spec fn fires(self, stdin_watch: bool) -> bool {
        match self {
            WatchEvent::Interrupt(_) => true,
            WatchEvent::StdinRead(outcome) => stdin_watch && outcome == ReadOutcome::Bytes(0),
        }
    }
}

impl WatcherState {
    /// A watcher that has seen nothing yet.
    pub open spec fn start(stdin_watch: bool) -> WatcherState {
        WatcherState { stdin_watch, latch: Latch { fired: false } }
    }

    /// The state after one event. A watcher whose latch has fired has left
    /// and takes no notice of anything.
    pub open spec fn step(self, event: WatchEvent) -> WatcherState {
        if !self.latch.fired && event.fires(self.stdin_watch) {
            WatcherState { stdin_watch: self.stdin_watch, latch: self.latch.fire() }
        } else {
            self
        }
    }

    /// The state after a sequence of events, first to last.
    pub open spec fn run(self, events: Seq<WatchEvent>) -> WatcherState
        decreases events.len(),
    {
        if events.len() == 0 {
            self
        } else {
            self.run(events.drop_last()).step(events.last())
        }
    }

    /// How many times the latch went from "not fired" to "fired" over a
    /// sequence of events.
    pub open spec fn firings(self, events: Seq<WatchEvent>) -> nat
        decreases events.len(),
    {
        if events.len() == 0 {
            0
        } else {
            let before = self.run(events.drop_last());
            let flipped: nat = if before.latch.transition(before.step(events.last()).latch) {
                1
            } else {
                0
            };
            self.firings(events.drop_last()) + flipped
        }
    }

    /// The sources a watcher in this state waits for.
    pub open spec fn sources(self) -> Sources {
        Sources { interrupt: !self.latch.fired, stdin: !self.latch.fired && self.stdin_watch }
    }
}

/// A latch that has fired stays fired, whatever the watcher is told next.
pub proof fn lemma_fired_stays_fired(state: WatcherState, events: Seq<WatchEvent>)
    requires
        state.latch.fired,
    ensures
        state.run(events) == state,
    decreases events.len(),
{
    if events.len() > 0 {
        lemma_fired_stays_fired(state, events.drop_last());
    }
}

/// A run never changes whether standard input is watched.
pub proof fn lemma_run_keeps_watch(state: WatcherState, events: Seq<WatchEvent>)
    ensures
        state.run(events).stdin_watch == state.stdin_watch,
    decreases events.len(),
{
    if events.len() > 0 {
        lemma_run_keeps_watch(state, events.drop_last());
    }
}

/// The latch has fired after a run exactly if it had fired before, or some
/// event of the run fires it.
pub proof fn lemma_fired_iff_some_event_fires(state: WatcherState, events: Seq<WatchEvent>)
    ensures
        state.run(events).latch.fired <==> state.latch.fired || exists|i: int|
            0 <= i < events.len() && (#[trigger] events[i]).fires(state.stdin_watch),
    decreases events.len(),
{
    if events.len() > 0 {
        let front = events.drop_last();
        lemma_fired_iff_some_event_fires(state, front);
        lemma_run_keeps_watch(state, front);
        if state.run(events).latch.fired && !state.latch.fired {
            if state.run(front).latch.fired {
                let i = choose|i: int|
                    0 <= i < front.len() && (#[trigger] front[i]).fires(state.stdin_watch);
                assert(events[i] == front[i]);
            } else {
                assert(events[events.len() - 1].fires(state.stdin_watch));
            }
        }
        if exists|i: int| 0 <= i < events.len() && (#[trigger] events[i]).fires(state.stdin_watch) {
            let i = choose|i: int|
                0 <= i < events.len() && (#[trigger] events[i]).fires(state.stdin_watch);
            if i < front.len() {
                assert(front[i] == events[i]);
            }
        }
    }
}

/// Over any sequence of events, in any order, the latch goes from "not
/// fired" to "fired" at most once: once exactly if it ends fired and had not
/// fired at the start, and never otherwise.
pub proof fn lemma_fires_at_most_once(state: WatcherState, events: Seq<WatchEvent>)
    ensures
        state.firings(events) <= 1,
        state.firings(events) == 1 <==> !state.latch.fired && state.run(events).latch.fired,
    decreases events.len(),
{
    if events.len() > 0 {
        lemma_fires_at_most_once(state, events.drop_last());
        if state.latch.fired {
            lemma_fired_stays_fired(state, events.drop_last());
        }
    }
}

/// Once the latch has fired it is seen as fired at every later moment: a
/// listener that starts to look after `later` events sees what one saw after
/// `earlier` events, whenever that one saw the latch fired.
pub proof fn lemma_observed_permanently(
    state: WatcherState,
    events: Seq<WatchEvent>,
    earlier: int,
    later: int,
)
    requires
        0 <= earlier <= later <= events.len(),
        state.run(events.take(earlier)).latch.observe(),
    ensures
        state.run(events.take(later)).latch.observe(),
    decreases later - earlier,
{
    if earlier < later {
        lemma_observed_permanently(state, events, earlier, later - 1);
        assert(events.take(later).drop_last() == events.take(later - 1));
    }
}

/// While standard input is not watched, only the end of the wait for an
/// interrupt fires the latch: no read from standard input does, whatever it
/// returned.
pub proof fn lemma_unwatched_stdin_never_fires(events: Seq<WatchEvent>)
    ensures
        WatcherState::start(false).run(events).latch.fired <==> exists|i: int|
            0 <= i < events.len() && (#[trigger] events[i]) is Interrupt,
{
    let state = WatcherState::start(false);
    lemma_fired_iff_some_event_fires(state, events);
    if state.run(events).latch.fired {
        let i = choose|i: int| 0 <= i < events.len() && (#[trigger] events[i]).fires(false);
        assert(events[i] is Interrupt);
    }
    if exists|i: int| 0 <= i < events.len() && (#[trigger] events[i]) is Interrupt {
        let i = choose|i: int| 0 <= i < events.len() && (#[trigger] events[i]) is Interrupt;
        assert(events[i].fires(false));
    }
}

/// While standard input is watched, a read of zero bytes fires the latch,
/// whether or not an interrupt is ever delivered.
pub proof fn lemma_end_of_stdin_fires(events: Seq<WatchEvent>, at: int)
    requires
        0 <= at < events.len(),
        events[at] == WatchEvent::StdinRead(ReadOutcome::Bytes(0)),
    ensures
        WatcherState::start(true).run(events).latch.fired,
{
    lemma_fired_iff_some_event_fires(WatcherState::start(true), events);
    assert(events[at].fires(true));
}

/// Firing twice is firing once: the second firing leaves the latch as the
/// first left it, and is not counted as a transition.
pub proof fn lemma_firing_is_idempotent(latch: Latch)
    ensures
        latch.fire().fire() == latch.fire(),
        !latch.fire().transition(latch.fire().fire()),
{
}

/// Telling the watcher of the same event twice in a row leaves it as telling
/// it once does, and the latch makes no second transition.
pub proof fn lemma_repeated_event_changes_nothing(
    state: WatcherState,
    events: Seq<WatchEvent>,
    event: WatchEvent,
)
    ensures
        state.run(events.push(event).push(event)) == state.run(events.push(event)),
        state.firings(events.push(event).push(event)) == state.firings(events.push(event)),
{
    let once = events.push(event);
    let twice = once.push(event);
    assert(twice.drop_last() == once);
    assert(once.drop_last() == events);
    lemma_run_keeps_watch(state, events);
}

/// Decides when the shutdown latch fires.
#[derive(Debug)]
pub struct Watcher {
    stdin_watch: bool,
    signal: ShutdownSignal,
}

impl View for Watcher {
    type V = WatcherState;

    closed spec fn view(&self) -> WatcherState {
        WatcherState { stdin_watch: self.stdin_watch, latch: self.signal@ }
    }
}

impl Watcher {
    /// The latch that the listeners of the watched signal wait on.
    pub closed spec fn latch(&self) -> int {
        self.signal.latch()
    }

    /// A watcher over `signal`, watching standard input only if
    /// `stdin_watch` is set.
    pub fn new(stdin_watch: bool, signal: ShutdownSignal) -> (watcher: Watcher)
        ensures
            watcher@ == (WatcherState { stdin_watch, latch: signal@ }),
            watcher.latch() == signal.latch(),
    {
        Watcher { stdin_watch, signal }
    }

    /// The sources to wait for next: the interrupt until the latch has
    /// fired, and standard input only where the watch was asked for.
    pub fn sources(&self) -> (sources: Sources)
        ensures
            sources == self@.sources(),
            !self@.stdin_watch ==> !sources.stdin,
    {
        let waiting = !self.signal.is_fired();
        Sources { interrupt: waiting, stdin: waiting && self.stdin_watch }
    }

    /// Takes one event. Fires the latch if the event calls for it, and says
    /// whether to go on waiting.
    pub fn on_event(&mut self, event: WatchEvent) -> (action: WatchAction)
        ensures
            final(self)@ == old(self)@.step(event),
            action is Exit <==> final(self)@.latch.fired,
            final(self).latch() == old(self).latch(),
    {
        if self.signal.is_fired() {
            return WatchAction::Exit;
        }
        let fires = match event {
            WatchEvent::Interrupt(_) => true,
            WatchEvent::StdinRead(outcome) => self.stdin_watch && match outcome {
                ReadOutcome::Bytes(n) => n == 0,
                ReadOutcome::Failed => false,
            },
        };
        if fires {
            self.signal.trigger();
            WatchAction::Exit
        } else {
            WatchAction::Wait
        }
    }

    /// Whether the latch has fired.
    pub fn is_fired(&self) -> (fired: bool)
        ensures
            fired == self@.latch.observe(),
    {
        self.signal.is_fired()
    }

    /// A listener of the watched signal.
    pub fn listener(&self) -> (listener: triggered::Listener)
        ensures
            latch_of(listener) == self.latch(),
    {
        self.signal.listener()
    }
}

} // verus!
