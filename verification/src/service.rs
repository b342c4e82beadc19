//! Orchestration of one service run as an explicit state machine.
//!
//! The run acquires the display once, initialises it, and then drives
//! the tick cycle: fetch weather, render the frame, await the next
//! scheduled tick. Each of those operations is performed outside this
//! library; here the machine only decides, from its phase and the
//! outcome of the last operation, what must happen next. A failed
//! operation stops the run with the matching fatal error, and a
//! stopped run stays stopped.

use vstd::prelude::*;
use crate::config::ServiceConfig;

verus! {

/// A fatal service failure; the run returns it and ends.
#[derive(Clone, Copy, Debug, PartialEq, Eq, Structural)]
pub enum ServiceError {
    /// The display hardware could not be claimed or initialised.
    DisplayInitFailure,
    /// The weather provider could not be queried.
    FetchFailure,
    /// The display could not render the new frame.
    RenderFailure,
}

/// Where the run stands.
#[derive(Clone, Copy, Debug, PartialEq, Eq, Structural)]
pub enum Phase {
    /// Claiming exclusive ownership of the display hardware.
    AcquiringDisplay,
    /// Display claimed; initialising it.
    InitializingDisplay,
    /// Querying the weather provider.
    Fetching,
    /// Handing the response to the display.
    Rendering,
    /// Waiting for the next scheduled tick.
    AwaitingTick,
    /// The run ended with a fatal error.
    Stopped { error: ServiceError },
}

/// The outcome of the operation the machine last asked for.
#[derive(Clone, Copy, Debug, PartialEq, Eq, Structural)]
pub enum Event {
    DisplayAcquireSucceeded,
    DisplayAcquireFailed,
    DisplayInitSucceeded,
    DisplayInitFailed,
    FetchSucceeded,
    FetchFailed,
    RenderSucceeded,
    RenderFailed,
    TickArrived,
}

/// What the driver must do next.
#[derive(Clone, Copy, Debug, PartialEq, Eq, Structural)]
pub enum Action {
    AcquireDisplay,
    InitializeDisplay,
    FetchWeather,
    RenderFrame,
    AwaitTick,
    /// Stop the run and surface this error.
    Stop { error: ServiceError },
}

/// The operation a phase is waiting on.
pub open spec fn spec_pending_action(phase: Phase) -> Action {
    match phase {
        Phase::AcquiringDisplay => Action::AcquireDisplay,
        Phase::InitializingDisplay => Action::InitializeDisplay,
        Phase::Fetching => Action::FetchWeather,
        Phase::Rendering => Action::RenderFrame,
        Phase::AwaitingTick => Action::AwaitTick,
        Phase::Stopped { error } => Action::Stop { error },
    }
}

/// One transition: from the current phase and the reported outcome to
/// the next phase and the next action. An outcome that does not answer
/// the phase's pending operation changes nothing: the machine re-issues
/// that operation.
pub open spec fn spec_step(phase: Phase, event: Event) -> (Phase, Action) {
    match (phase, event) {
        (Phase::AcquiringDisplay, Event::DisplayAcquireSucceeded) => (
            Phase::InitializingDisplay,
            Action::InitializeDisplay,
        ),
        (Phase::AcquiringDisplay, Event::DisplayAcquireFailed) => (
            Phase::Stopped { error: ServiceError::DisplayInitFailure },
            Action::Stop { error: ServiceError::DisplayInitFailure },
        ),
        (Phase::InitializingDisplay, Event::DisplayInitSucceeded) => (
            Phase::Fetching,
            Action::FetchWeather,
        ),
        (Phase::InitializingDisplay, Event::DisplayInitFailed) => (
            Phase::Stopped { error: ServiceError::DisplayInitFailure },
            Action::Stop { error: ServiceError::DisplayInitFailure },
        ),
        (Phase::Fetching, Event::FetchSucceeded) => (Phase::Rendering, Action::RenderFrame),
        (Phase::Fetching, Event::FetchFailed) => (
            Phase::Stopped { error: ServiceError::FetchFailure },
            Action::Stop { error: ServiceError::FetchFailure },
        ),
        (Phase::Rendering, Event::RenderSucceeded) => (Phase::AwaitingTick, Action::AwaitTick),
        (Phase::Rendering, Event::RenderFailed) => (
            Phase::Stopped { error: ServiceError::RenderFailure },
            Action::Stop { error: ServiceError::RenderFailure },
        ),
        (Phase::AwaitingTick, Event::TickArrived) => (Phase::Fetching, Action::FetchWeather),
        (p, _) => (p, spec_pending_action(p)),
    }
}

/// The weather-frame service: a validated configuration and the run's
/// current phase.
pub struct WeatherFrameService {
    pub config: ServiceConfig,
    pub phase: Phase,
}

impl WeatherFrameService {
    /// A fresh run, about to claim the display. No network activity
    /// can be asked for before the display is acquired and initialised.
    pub fn new(config: ServiceConfig) -> (r: WeatherFrameService)
        ensures
            r.config == config,
            r.phase == Phase::AcquiringDisplay,
    {
        WeatherFrameService { config, phase: Phase::AcquiringDisplay }
    }

    /// The operation the run is currently waiting on.
    pub fn pending_action(&self) -> (a: Action)
        ensures
            a == spec_pending_action(self.phase),
    {
        match self.phase {
            Phase::AcquiringDisplay => Action::AcquireDisplay,
            Phase::InitializingDisplay => Action::InitializeDisplay,
            Phase::Fetching => Action::FetchWeather,
            Phase::Rendering => Action::RenderFrame,
            Phase::AwaitingTick => Action::AwaitTick,
            Phase::Stopped { error } => Action::Stop { error },
        }
    }

    /// Advance the run with the outcome of the last operation and
    /// learn what to do next. The configuration never changes.
    pub fn step(&mut self, event: Event) -> (a: Action)
        ensures
            final(self).config == old(self).config,
            final(self).phase == spec_step(old(self).phase, event).0,
            a == spec_step(old(self).phase, event).1,
    {
        let (next, action) = match (self.phase, event) {
            (Phase::AcquiringDisplay, Event::DisplayAcquireSucceeded) => (
                Phase::InitializingDisplay,
                Action::InitializeDisplay,
            ),
            (Phase::AcquiringDisplay, Event::DisplayAcquireFailed) => (
                Phase::Stopped { error: ServiceError::DisplayInitFailure },
                Action::Stop { error: ServiceError::DisplayInitFailure },
            ),
            (Phase::InitializingDisplay, Event::DisplayInitSucceeded) => (
                Phase::Fetching,
                Action::FetchWeather,
            ),
            (Phase::InitializingDisplay, Event::DisplayInitFailed) => (
                Phase::Stopped { error: ServiceError::DisplayInitFailure },
                Action::Stop { error: ServiceError::DisplayInitFailure },
            ),
            (Phase::Fetching, Event::FetchSucceeded) => (Phase::Rendering, Action::RenderFrame),
            (Phase::Fetching, Event::FetchFailed) => (
                Phase::Stopped { error: ServiceError::FetchFailure },
                Action::Stop { error: ServiceError::FetchFailure },
            ),
            (Phase::Rendering, Event::RenderSucceeded) => (
                Phase::AwaitingTick,
                Action::AwaitTick,
            ),
            (Phase::Rendering, Event::RenderFailed) => (
                Phase::Stopped { error: ServiceError::RenderFailure },
                Action::Stop { error: ServiceError::RenderFailure },
            ),
            (Phase::AwaitingTick, Event::TickArrived) => (Phase::Fetching, Action::FetchWeather),
            (p, _) => {
                let a = self.pending_action();
                (p, a)
            },
        };
        self.phase = next;
        action
    }
}

/// The phase a run reaches after a sequence of outcomes.
pub open spec fn spec_run_phase(start: Phase, events: Seq<Event>) -> Phase
    decreases events.len(),
{
    if events.len() == 0 {
        start
    } else {
        spec_run_phase(spec_step(start, events[0]).0, events.drop_first())
    }
}

/// The actions a run issues over a sequence of outcomes, in order.
pub open spec fn spec_run_actions(start: Phase, events: Seq<Event>) -> Seq<Action>
    decreases events.len(),
{
    if events.len() == 0 {
        Seq::empty()
    } else {
        seq![spec_step(start, events[0]).1] + spec_run_actions(
            spec_step(start, events[0]).0,
            events.drop_first(),
        )
    }
}

/// A run issues exactly one action per outcome.
pub proof fn lemma_run_actions_len(start: Phase, events: Seq<Event>)
    ensures
        spec_run_actions(start, events).len() == events.len(),
    decreases events.len(),
{
    if events.len() > 0 {
        lemma_run_actions_len(spec_step(start, events[0]).0, events.drop_first());
    }
}

/// A stopped run stays stopped and only ever asks the driver to stop:
/// whatever outcomes still arrive, every issued action is `Stop` with
/// the original error.
pub proof fn lemma_stopped_is_absorbing(error: ServiceError, events: Seq<Event>)
    ensures
        spec_run_phase(Phase::Stopped { error }, events) == (Phase::Stopped { error }),
        forall|k: int|
            0 <= k < events.len() ==> spec_run_actions(Phase::Stopped { error }, events)[k] == (
            Action::Stop { error }),
    decreases events.len(),
{
    if events.len() > 0 {
        lemma_stopped_is_absorbing(error, events.drop_first());
        let acts = spec_run_actions(Phase::Stopped { error }, events);
        let rest = spec_run_actions(Phase::Stopped { error }, events.drop_first());
        lemma_run_actions_len(Phase::Stopped { error }, events);
        lemma_run_actions_len(Phase::Stopped { error }, events.drop_first());
        assert forall|k: int| 0 <= k < events.len() implies acts[k] == (Action::Stop {
            error,
        }) by {
            if k > 0 {
                assert(acts[k] == rest[k - 1]);
            }
        }
    }
}

/// A run that starts at display initialisation asks for a weather
/// fetch only once the display reports it is initialised: if the k-th
/// action is `FetchWeather`, some outcome up to the k-th is
/// `DisplayInitSucceeded`.
pub proof fn lemma_fetch_needs_display_init(events: Seq<Event>, k: int)
    requires
        0 <= k < events.len(),
        spec_run_actions(Phase::InitializingDisplay, events)[k] == Action::FetchWeather,
    ensures
        exists|i: int| 0 <= i <= k && events[i] == Event::DisplayInitSucceeded,
    decreases k,
{
    let acts = spec_run_actions(Phase::InitializingDisplay, events);
    let first = spec_step(Phase::InitializingDisplay, events[0]);
    let rest = spec_run_actions(first.0, events.drop_first());
    lemma_run_actions_len(Phase::InitializingDisplay, events);
    lemma_run_actions_len(first.0, events.drop_first());
    if k == 0 {
        // Only the successful-initialisation outcome makes the machine
        // ask for a fetch from this phase.
        assert(events[0] == Event::DisplayInitSucceeded);
    } else {
        assert(acts[k] == rest[k - 1]);
        match events[0] {
            Event::DisplayInitSucceeded => {
                assert(events[0] == Event::DisplayInitSucceeded);
            },
            Event::DisplayInitFailed => {
                lemma_stopped_is_absorbing(
                    ServiceError::DisplayInitFailure,
                    events.drop_first(),
                );
                assert(false);
            },
            _ => {
                lemma_fetch_needs_display_init(events.drop_first(), k - 1);
                let i = choose|i: int|
                    0 <= i <= k - 1 && events.drop_first()[i] == Event::DisplayInitSucceeded;
                assert(events[i + 1] == Event::DisplayInitSucceeded);
            },
        }
    }
}

/// No network activity before the display is ready: in any run from
/// the start, if the k-th action is `FetchWeather`, then by then the
/// display was both acquired and initialised successfully.
pub proof fn lemma_fetch_needs_display(events: Seq<Event>, k: int)
    requires
        0 <= k < events.len(),
        spec_run_actions(Phase::AcquiringDisplay, events)[k] == Action::FetchWeather,
    ensures
        exists|i: int| 0 <= i <= k && events[i] == Event::DisplayAcquireSucceeded,
        exists|i: int| 0 <= i <= k && events[i] == Event::DisplayInitSucceeded,
    decreases k,
{
    let acts = spec_run_actions(Phase::AcquiringDisplay, events);
    let first = spec_step(Phase::AcquiringDisplay, events[0]);
    let rest = spec_run_actions(first.0, events.drop_first());
    lemma_run_actions_len(Phase::AcquiringDisplay, events);
    lemma_run_actions_len(first.0, events.drop_first());
    if k == 0 {
        // No transition out of the acquiring phase asks for a fetch.
        assert(false);
    } else {
        assert(acts[k] == rest[k - 1]);
        match events[0] {
            Event::DisplayAcquireSucceeded => {
                lemma_fetch_needs_display_init(events.drop_first(), k - 1);
                let i = choose|i: int|
                    0 <= i <= k - 1 && events.drop_first()[i] == Event::DisplayInitSucceeded;
                assert(events[i + 1] == Event::DisplayInitSucceeded);
                assert(events[0] == Event::DisplayAcquireSucceeded);
            },
            Event::DisplayAcquireFailed => {
                lemma_stopped_is_absorbing(
                    ServiceError::DisplayInitFailure,
                    events.drop_first(),
                );
                assert(false);
            },
            _ => {
                lemma_fetch_needs_display(events.drop_first(), k - 1);
                let i = choose|i: int|
                    0 <= i <= k - 1 && events.drop_first()[i] == Event::DisplayAcquireSucceeded;
                assert(events[i + 1] == Event::DisplayAcquireSucceeded);
                let j = choose|j: int|
                    0 <= j <= k - 1 && events.drop_first()[j] == Event::DisplayInitSucceeded;
                assert(events[j + 1] == Event::DisplayInitSucceeded);
            },
        }
    }
}

/// Failing to acquire the display is fatal before any network
/// activity: a run whose first outcome is `DisplayAcquireFailed`
/// stops with `DisplayInitFailure`, and every action it ever issues —
/// in particular, never `FetchWeather` — is that stop.
pub proof fn lemma_acquire_failure_precedes_fetch(events: Seq<Event>)
    requires
        events.len() > 0,
        events[0] == Event::DisplayAcquireFailed,
    ensures
        spec_run_phase(Phase::AcquiringDisplay, events) == (Phase::Stopped {
            error: ServiceError::DisplayInitFailure,
        }),
        forall|k: int|
            0 <= k < events.len() ==> spec_run_actions(Phase::AcquiringDisplay, events)[k]
                == (Action::Stop { error: ServiceError::DisplayInitFailure }),
        forall|k: int|
            0 <= k < events.len() ==> spec_run_actions(Phase::AcquiringDisplay, events)[k]
                != Action::FetchWeather,
{
    let error = ServiceError::DisplayInitFailure;
    lemma_stopped_is_absorbing(error, events.drop_first());
    let acts = spec_run_actions(Phase::AcquiringDisplay, events);
    let rest = spec_run_actions(Phase::Stopped { error }, events.drop_first());
    lemma_run_actions_len(Phase::AcquiringDisplay, events);
    lemma_run_actions_len(Phase::Stopped { error }, events.drop_first());
    assert forall|k: int| 0 <= k < events.len() implies acts[k] == (Action::Stop { error }) by {
        if k > 0 {
            assert(acts[k] == rest[k - 1]);
        }
    }
}

} // verus!
