//! Watching the user's file for changes.
//!
//! The watch on the file is one-shot: once it has fired it is gone, and it
//! has to be registered anew. `ConfigManager` keeps track of that. It touches
//! neither the file nor the kernel: it says what is to be done next, as an
//! `Action`, and is told how that went, as an `Event`. One poll of the file
//! starts with `Event::Poll` and is over with `Action::Done`.

use vstd::prelude::*;
use crate::button::FunctionLayer;
use crate::config::{layer_views, load_config, Config, ConfigProxy};

verus! {

/// Why the kernel refused a request, as far as the manager tells the reasons
/// apart.
#[derive(Clone, Copy, Debug, PartialEq, Eq, Structural)]
pub enum WatchFailure {
    /// `ENOENT`: the file to watch does not exist.
    NotFound,
    /// `EAGAIN`: there is nothing to read yet.
    WouldBlock,
    /// Any other error, by its number.
    Other(i32),
}

/// Whether a watch on the user's file is registered, and under which
/// descriptor.
#[derive(Clone, Copy, Debug, PartialEq, Eq, Structural)]
pub enum WatchState {
    Armed(i32),
    Unarmed,
}

/// What ends a poll, or the making of a manager, without a result.
#[derive(Clone, Copy, Debug, PartialEq, Eq, Structural)]
pub enum WatchError {
    /// The watch could not be registered, and not because the file is
    /// missing.
    Register(WatchFailure),
    /// The pending events could not be read, and not because there are none.
    Read(WatchFailure),
    /// The event does not answer the action that the manager asked for.
    OutOfTurn,
}

/// What the manager waits for.
#[derive(Clone, Copy, Debug, PartialEq, Eq, Structural)]
pub enum Phase {
    /// The next poll.
    Idle,
    /// The outcome of registering the watch, asked for because a poll found
    /// none registered.
    Arming,
    /// The pending events.
    Reading,
    /// The configuration, loaded anew.
    Reloading,
    /// The outcome of registering the watch, asked for because it has fired.
    Rearming,
}

/// What the caller is to do next.
#[derive(Clone, Copy, Debug, PartialEq, Eq, Structural)]
pub enum Action {
    /// Register a one-shot watch on the user's file, and answer with
    /// `Event::Armed`.
    Arm,
    /// Read the pending events without blocking, and answer with
    /// `Event::Read`.
    Read,
    /// Load the configuration anew, and answer with `Event::Reloaded`.
    Reload,
    /// Nothing: the poll is over. The flag tells whether the configuration
    /// was replaced in its course.
    Done(bool),
}

/// What the caller reports.
pub enum Event<F> {
    /// A new poll begins.
    Poll,
    /// Registering the watch gave this descriptor, or failed so.
    Armed(Result<i32, WatchFailure>),
    /// Reading gave events of these watch descriptors, in this order, or
    /// failed so.
    Read(Result<Vec<i32>, WatchFailure>),
    /// The configuration was loaded anew, to this snapshot.
    Reloaded(Config<F>, [FunctionLayer; 2]),
}

/// An event without the snapshot it may carry.
pub enum Signal {
    Poll,
    Armed(Result<i32, WatchFailure>),
    Read(Result<Seq<i32>, WatchFailure>),
    Reloaded,
}

impl<F> View for Event<F> {
    type V = Signal;

    open spec fn view(&self) -> Signal {
        match *self {
            Event::Poll => Signal::Poll,
            Event::Armed(outcome) => Signal::Armed(outcome),
            Event::Read(Ok(events)) => Signal::Read(Ok(events@)),
            Event::Read(Err(failure)) => Signal::Read(Err(failure)),
            Event::Reloaded(_, _) => Signal::Reloaded,
        }
    }
}

/// The state of the watch after an attempt to register it. A missing file
/// leaves the watch unarmed and is no error; any other failure is one.
pub open spec fn armed(outcome: Result<i32, WatchFailure>) -> Result<WatchState, WatchError> {
    match outcome {
        Ok(descriptor) => Ok(WatchState::Armed(descriptor)),
        Err(WatchFailure::NotFound) => Ok(WatchState::Unarmed),
        Err(failure) => Err(WatchError::Register(failure)),
    }
}

/// A manager as contracts see it.
pub struct ManagerView {
    pub watch: WatchState,
    pub phase: Phase,
    /// The descriptors of the events that were read and not yet looked at.
    pub pending: Seq<i32>,
}

impl ManagerView {
    /// The manager between two polls.
    pub open spec fn idle(watch: WatchState) -> ManagerView {
        ManagerView { watch, phase: Phase::Idle, pending: Seq::empty() }
    }

    /// Looks through the pending events for the first that the armed watch
    /// gave. With it the watch has fired: it is unarmed from then on, the
    /// events behind it stay pending, and the configuration is to be loaded
    /// anew. Events of other descriptors are passed over, and if no other
    /// is left the poll is over.
    pub open spec fn seek(watch: WatchState, pending: Seq<i32>, changed: bool) -> (
        ManagerView,
        Action,
    )
        decreases pending.len(),
    {
        if pending.len() == 0 {
            (ManagerView::idle(watch), Action::Done(changed))
        } else if watch == WatchState::Armed(pending.first()) {
            (
                ManagerView {
                    watch: WatchState::Unarmed,
                    phase: Phase::Reloading,
                    pending: pending.drop_first(),
                },
                Action::Reload,
            )
        } else {
            ManagerView::seek(watch, pending.drop_first(), changed)
        }
    }

    /// Whether the event brings a snapshot that the manager has asked for.
    pub open spec fn installs(self, signal: Signal) -> bool {
        self.phase == Phase::Reloading && signal is Reloaded
    }

    /// What holds of a manager at every moment: between two polls nothing is
    /// pending; it asks for the watch to be registered only while unarmed, and
    /// for the events only while armed; and once the watch has fired it is
    /// unarmed until the answer to `Action::Arm` is in.
    pub open spec fn consistent(self) -> bool {
        match self.phase {
            Phase::Idle => self.pending.len() == 0,
            Phase::Arming => self.watch == WatchState::Unarmed && self.pending.len() == 0,
            Phase::Reading => self.watch is Armed && self.pending.len() == 0,
            Phase::Reloading => self.watch == WatchState::Unarmed,
            Phase::Rearming => self.watch == WatchState::Unarmed,
        }
    }

    /// The manager after an event, and what it asks for or fails with.
    ///
    /// A poll of an unarmed manager only tries to register the watch. A poll
    /// of an armed one reads the pending events; where there are none yet it
    /// is over at once. Each event of the armed watch is followed by loading
    /// the configuration and registering the watch anew, in this order,
    /// before the events behind it are looked at. An event that answers no
    /// request changes nothing.
    pub open spec fn step(self, signal: Signal) -> (ManagerView, Result<Action, WatchError>) {
        match (self.phase, signal) {
            (Phase::Idle, Signal::Poll) => match self.watch {
                WatchState::Unarmed => (
                    ManagerView { phase: Phase::Arming, ..self },
                    Ok(Action::Arm),
                ),
                WatchState::Armed(_) => (
                    ManagerView { phase: Phase::Reading, ..self },
                    Ok(Action::Read),
                ),
            },
            (Phase::Arming, Signal::Armed(outcome)) => match armed(outcome) {
                Ok(watch) => (ManagerView::idle(watch), Ok(Action::Done(false))),
                Err(error) => (ManagerView::idle(WatchState::Unarmed), Err(error)),
            },
            (Phase::Reading, Signal::Read(Ok(events))) => {
                let (next, action) = ManagerView::seek(self.watch, events, false);
                (next, Ok(action))
            },
            (Phase::Reading, Signal::Read(Err(WatchFailure::WouldBlock))) => (
                ManagerView::idle(self.watch),
                Ok(Action::Done(false)),
            ),
            (Phase::Reading, Signal::Read(Err(failure))) => (
                ManagerView::idle(self.watch),
                Err(WatchError::Read(failure)),
            ),
            (Phase::Reloading, Signal::Reloaded) => (
                ManagerView { phase: Phase::Rearming, ..self },
                Ok(Action::Arm),
            ),
            (Phase::Rearming, Signal::Armed(outcome)) => match armed(outcome) {
                Ok(watch) => {
                    let (next, action) = ManagerView::seek(watch, self.pending, true);
                    (next, Ok(action))
                },
                Err(error) => (ManagerView::idle(WatchState::Unarmed), Err(error)),
            },
            _ => (self, Err(WatchError::OutOfTurn)),
        }
    }
}

/// Takes the outcome of an attempt to register the watch to the state the
/// watch is in after it.
pub fn arm_inotify(outcome: Result<i32, WatchFailure>) -> (state: Result<WatchState, WatchError>)
    ensures
        state == armed(outcome),
{
    match outcome {
        Ok(descriptor) => Ok(WatchState::Armed(descriptor)),
        Err(WatchFailure::NotFound) => Ok(WatchState::Unarmed),
        Err(failure) => Err(WatchError::Register(failure)),
    }
}

/// Keeps the one-shot watch on the user's file registered and says when the
/// configuration is to be loaded anew.
pub struct ConfigManager {
    watch_desc: WatchState,
    phase: Phase,
    pending: Vec<i32>,
}

impl View for ConfigManager {
    type V = ManagerView;

    closed spec fn view(&self) -> ManagerView {
        ManagerView { watch: self.watch_desc, phase: self.phase, pending: self.pending@ }
    }
}

impl ConfigManager {
    /// A manager between two polls, from the outcome of the first attempt
    /// to register the watch.
    pub fn new(outcome: Result<i32, WatchFailure>) -> (manager: Result<ConfigManager, WatchError>)
        ensures
            match armed(outcome) {
                Ok(watch) => manager is Ok && manager.unwrap()@ == ManagerView::idle(watch),
                Err(error) => manager == Err::<ConfigManager, WatchError>(error),
            },
    {
        match arm_inotify(outcome) {
            Ok(watch_desc) => Ok(
                ConfigManager { watch_desc, phase: Phase::Idle, pending: Vec::new() },
            ),
            Err(error) => Err(error),
        }
    }

    /// Whether the watch is registered, and under which descriptor.
    pub fn watch_state(&self) -> (watch: WatchState)
        ensures
            watch == self@.watch,
    {
        self.watch_desc
    }

    /// What the manager waits for.
    pub fn phase(&self) -> (phase: Phase)
        ensures
            phase == self@.phase,
    {
        self.phase
    }

    /// Resolves a merged, complete layer of configuration to the snapshot
    /// for a panel of the given width, around the font that was loaded for
    /// the layer's `font_template`.
    pub fn load_config<F>(&self, merged: ConfigProxy, width: u16, font_face: F) -> (loaded: (
        Config<F>,
        [FunctionLayer; 2],
    ))
        requires
            merged.is_complete(),
        ensures
            loaded.0 == merged.config(font_face),
            layer_views(loaded.1@) == merged.layers(width),
    {
        load_config(merged, width, font_face)
    }

    /// Takes the manager one event further, and says what to do next.
    ///
    /// The snapshot in `cfg` and `layers` is replaced, whole, by the one
    /// that `Event::Reloaded` brings where the manager has asked for it. No
    /// other event touches it.
    pub fn update_config<F>(
        &mut self,
        cfg: &mut Config<F>,
        layers: &mut [FunctionLayer; 2],
        event: Event<F>,
    ) -> (step: Result<Action, WatchError>)
        ensures
            (final(self)@, step) == old(self)@.step(event@),
            old(self)@.installs(event@) ==> event == Event::Reloaded(*final(cfg), *final(layers)),
            !old(self)@.installs(event@) ==> *final(cfg) == *old(cfg) && *final(layers) == *old(
                layers,
            ),
    {
        match event {
            Event::Poll => match self.phase {
                Phase::Idle => match self.watch_desc {
                    WatchState::Unarmed => {
                        self.phase = Phase::Arming;
                        Ok(Action::Arm)
                    },
                    WatchState::Armed(_) => {
                        self.phase = Phase::Reading;
                        Ok(Action::Read)
                    },
                },
                _ => Err(WatchError::OutOfTurn),
            },
            Event::Armed(outcome) => match self.phase {
                Phase::Arming => {
                    self.phase = Phase::Idle;
                    self.pending = Vec::new();
                    match arm_inotify(outcome) {
                        Ok(watch) => {
                            self.watch_desc = watch;
                            Ok(Action::Done(false))
                        },
                        Err(error) => {
                            self.watch_desc = WatchState::Unarmed;
                            Err(error)
                        },
                    }
                },
                Phase::Rearming => match arm_inotify(outcome) {
                    Ok(watch) => {
                        self.watch_desc = watch;
                        Ok(self.handle_events(true))
                    },
                    Err(error) => {
                        self.watch_desc = WatchState::Unarmed;
                        self.phase = Phase::Idle;
                        self.pending = Vec::new();
                        Err(error)
                    },
                },
                _ => Err(WatchError::OutOfTurn),
            },
            Event::Read(outcome) => match self.phase {
                Phase::Reading => match outcome {
                    Ok(events) => {
                        self.pending = events;
                        Ok(self.handle_events(false))
                    },
                    Err(WatchFailure::WouldBlock) => {
                        self.phase = Phase::Idle;
                        self.pending = Vec::new();
                        Ok(Action::Done(false))
                    },
                    Err(failure) => {
                        self.phase = Phase::Idle;
                        self.pending = Vec::new();
                        Err(WatchError::Read(failure))
                    },
                },
                _ => Err(WatchError::OutOfTurn),
            },
            Event::Reloaded(new_cfg, new_layers) => match self.phase {
                Phase::Reloading => {
                    *cfg = new_cfg;
                    *layers = new_layers;
                    self.phase = Phase::Rearming;
                    Ok(Action::Arm)
                },
                _ => Err(WatchError::OutOfTurn),
            },
        }
    }

    /// Passes over the pending events up to the first that the armed watch
    /// gave.
    fn handle_events(&mut self, changed: bool) -> (action: Action)
        ensures
            (final(self)@, action) == ManagerView::seek(
                old(self)@.watch,
                old(self)@.pending,
                changed,
            ),
    {
        while self.pending.len() > 0
            invariant
                ManagerView::seek(self@.watch, self@.pending, changed) == ManagerView::seek(
                    old(self)@.watch,
                    old(self)@.pending,
                    changed,
                ),
            decreases self.pending.len(),
        {
            let ghost before = self.pending@;
            let descriptor = self.pending.remove(0);
            assert(self.pending@ == before.drop_first());
            if self.watch_desc == WatchState::Armed(descriptor) {
                self.watch_desc = WatchState::Unarmed;
                self.phase = Phase::Reloading;
                return Action::Reload;
            }
        }
        self.phase = Phase::Idle;
        assert(self.pending@ == Seq::<i32>::empty());
        Action::Done(changed)
    }
}

/// A poll of an unarmed manager tries to register the watch and reports no
/// change. Once the file is there the manager is armed after that poll; as
/// long as it is missing the manager stays unarmed.
pub proof fn poll_arms_an_unarmed_manager(outcome: Result<i32, WatchFailure>)
    requires
        armed(outcome) is Ok,
    ensures
        ({
            let (asking, first) = ManagerView::idle(WatchState::Unarmed).step(Signal::Poll);
            let (end, last) = asking.step(Signal::Armed(outcome));
            &&& first == Ok::<Action, WatchError>(Action::Arm)
            &&& last == Ok::<Action, WatchError>(Action::Done(false))
            &&& end == ManagerView::idle(armed(outcome).unwrap())
        }),
{
}

/// Events of descriptors other than the armed one are ignored: a batch of
/// them ends the poll without a change and leaves the watch as it is.
pub proof fn stale_events_are_ignored(watch: WatchState, events: Seq<i32>, changed: bool)
    requires
        forall|i: int| 0 <= i < events.len() ==> watch != WatchState::Armed(#[trigger] events[i]),
    ensures
        ManagerView::seek(watch, events, changed) == (
            ManagerView::idle(watch),
            Action::Done(changed),
        ),
    decreases events.len(),
{
    if events.len() > 0 {
        assert(watch != WatchState::Armed(events[0]));
        assert forall|i: int| 0 <= i < events.drop_first().len() implies watch
            != WatchState::Armed(#[trigger] events.drop_first()[i]) by {
            assert(events.drop_first()[i] == events[i + 1]);
        }
        stale_events_are_ignored(watch, events.drop_first(), changed);
    }
}

/// One event of the armed watch makes one poll load the configuration once,
/// register the watch anew right after, and report a change, however many
/// events of descriptors other than the new one come behind it. The manager
/// is then armed with the new descriptor.
pub proof fn fired_watch_reloads_once_and_rearms(fired: i32, anew: i32, rest: Seq<i32>)
    requires
        forall|i: int| 0 <= i < rest.len() ==> #[trigger] rest[i] != anew,
    ensures
        ({
            let start = ManagerView::idle(WatchState::Armed(fired));
            let (reading, first) = start.step(Signal::Poll);
            let (reloading, second) = reading.step(Signal::Read(Ok(seq![fired] + rest)));
            let (rearming, third) = reloading.step(Signal::Reloaded);
            let (end, last) = rearming.step(Signal::Armed(Ok(anew)));
            &&& first == Ok::<Action, WatchError>(Action::Read)
            &&& second == Ok::<Action, WatchError>(Action::Reload)
            &&& reloading.watch == WatchState::Unarmed
            &&& reloading.pending == rest
            &&& third == Ok::<Action, WatchError>(Action::Arm)
            &&& last == Ok::<Action, WatchError>(Action::Done(true))
            &&& end == ManagerView::idle(WatchState::Armed(anew))
        }),
{
    let batch = seq![fired] + rest;
    assert(batch.first() == fired);
    assert(batch.drop_first() =~= rest);
    stale_events_are_ignored(WatchState::Armed(anew), rest, true);
}

/// Looking through pending events leaves a consistent manager.
pub proof fn seek_is_consistent(watch: WatchState, pending: Seq<i32>, changed: bool)
    ensures
        ManagerView::seek(watch, pending, changed).0.consistent(),
    decreases pending.len(),
{
    if pending.len() > 0 && watch != WatchState::Armed(pending.first()) {
        seek_is_consistent(watch, pending.drop_first(), changed);
    }
}

/// A manager is consistent when made and stays so, whatever it is told.
pub proof fn manager_stays_consistent(manager: ManagerView, signal: Signal, watch: WatchState)
    requires
        manager.consistent(),
    ensures
        ManagerView::idle(watch).consistent(),
        manager.step(signal).0.consistent(),
{
    match (manager.phase, signal) {
        (Phase::Reading, Signal::Read(Ok(events))) => {
            seek_is_consistent(manager.watch, events, false);
        },
        (Phase::Rearming, Signal::Armed(outcome)) => {
            if let Ok(watch) = armed(outcome) {
                seek_is_consistent(watch, manager.pending, true);
            }
        },
        _ => {},
    }
}

/// Once the watch has fired, no new poll begins before the configuration
/// was loaded and an attempt to register the watch anew was made: until
/// then a poll is out of turn and changes nothing, and the loaded
/// configuration is answered by asking for that attempt.
pub proof fn fired_watch_is_rearmed_before_the_next_poll(manager: ManagerView)
    requires
        manager.phase == Phase::Reloading || manager.phase == Phase::Rearming,
    ensures
        manager.step(Signal::Poll) == (manager, Err::<Action, WatchError>(WatchError::OutOfTurn)),
        manager.phase == Phase::Reloading ==> manager.step(Signal::Reloaded) == (
            ManagerView { phase: Phase::Rearming, ..manager },
            Ok::<Action, WatchError>(Action::Arm),
        ),
{
}

} // verus!
