//! The controller: the single owner of the watering state and the threshold.
//!
//! The controller never waits. It is handed one [`Stimulus`] at a time and
//! answers with a [`Reaction`]: what to do to the pump line, what to publish,
//! and what to wait for next. Between two stimuli nothing else touches its
//! state, so every transition is atomic.

use vstd::prelude::*;
use crate::event::{Event, Level, SystemState, pump_level_in};

verus! {

/// Threshold in force until the first calibration or override.
pub const DEFAULT_THRESHOLD: i32 = 2000;

/// Margin subtracted from a dry-soil reading to obtain the threshold.
pub const THRESHOLD_BUFFER: i32 = 100;

/// How long the pump runs in one automatic watering, in milliseconds.
pub const WATERING_DURATION_MS: u64 = 5000;

/// What the controller is waiting for.
#[derive(Clone, Copy, Debug, PartialEq, Eq, Structural)]
pub enum Pending {
    /// The next event from the mailbox.
    Event,
    /// The sensor reading asked for by a `Measure` event.
    MoistureSample,
    /// The sensor reading asked for by a `Calibrate` event.
    DrySample,
    /// The end of an automatic watering.
    WateringTimer,
}

/// One thing that happened, handed to the controller.
#[derive(Clone, Copy, Debug, PartialEq, Eq, Structural)]
pub enum Stimulus {
    /// An event was taken from the mailbox.
    Event(Event),
    /// The sensor delivered a reading.
    Reading(u16),
    /// The watering timer ran out.
    TimerElapsed,
}

/// What the surrounding loop has to wait for next.
#[derive(Clone, Copy, Debug, PartialEq, Eq, Structural)]
pub enum Request {
    /// Take the next event from the mailbox.
    NextEvent,
    /// Sample the sensor once.
    SampleSensor,
    /// Sleep for the given number of milliseconds.
    Sleep(u64),
}

/// The controller's answer to one stimulus.
#[derive(Clone, Copy, Debug, PartialEq, Eq, Structural)]
pub struct Reaction {
    /// The level to drive the pump line to, if it changes.
    pub pump: Option<Level>,
    /// The reading to publish to observers, if one was taken for a measurement.
    pub publish: Option<u16>,
    /// What to wait for before the next call.
    pub next: Request,
}

/// Mathematical state of the controller.
pub struct ControllerState {
    pub mode: SystemState,
    pub threshold: int,
    pub pump: Level,
    pub pending: Pending,
}

/// A reading above the threshold means dry soil: lower readings are wetter.
pub open spec fn soil_is_dry(reading: int, threshold: int) -> bool {
    reading > threshold
}

/// The threshold derived from a dry-soil reading.
pub open spec fn threshold_from_dry(dry_reading: int) -> int {
    dry_reading - THRESHOLD_BUFFER
}

/// The pairs of state and event for which the controller acts.
pub open spec fn in_transition_table(mode: SystemState, event: Event) -> bool {
    match (mode, event) {
        (SystemState::Idle, Event::Water) => true,
        (SystemState::Watering, Event::WateringComplete) => true,
        (SystemState::Idle, Event::Measure) => true,
        (SystemState::Idle, Event::Calibrate) => true,
        (SystemState::Idle, Event::SetThreshold(_)) => true,
        _ => false,
    }
}

/// The request that goes with each kind of wait.
pub open spec fn request_for(pending: Pending) -> Request {
    match pending {
        Pending::Event => Request::NextEvent,
        Pending::MoistureSample => Request::SampleSensor,
        Pending::DrySample => Request::SampleSensor,
        Pending::WateringTimer => Request::Sleep(WATERING_DURATION_MS),
    }
}

impl ControllerState {
    /// The state at power-up: idle, pump off, default threshold.
    pub open spec fn initial() -> ControllerState {
        ControllerState {
            mode: SystemState::Idle,
            threshold: DEFAULT_THRESHOLD as int,
            pump: Level::Low,
            pending: Pending::Event,
        }
    }

    /// The invariant of the controller.
    ///
    /// Whenever the controller waits for an event the pump line carries the
    /// level that belongs to the state. A sample is only ever taken while idle
    /// with the pump off, and the watering timer only runs while idle with the
    /// pump on.
    pub open spec fn wf(self) -> bool {
        &&& -THRESHOLD_BUFFER <= self.threshold <= u16::MAX
        &&& match self.pending {
            Pending::Event => self.pump == pump_level_in(self.mode),
            Pending::MoistureSample | Pending::DrySample => {
                self.mode == SystemState::Idle && self.pump == Level::Low
            },
            Pending::WateringTimer => {
                self.mode == SystemState::Idle && self.pump == Level::High
            },
        }
    }

    /// The state after `stimulus`.
    ///
    /// A stimulus that does not answer what the controller is waiting for, and
    /// an event outside the transition table, leave the state as it is.
    pub open spec fn next(self, stimulus: Stimulus) -> ControllerState {
        match (self.pending, stimulus) {
            (Pending::Event, Stimulus::Event(event)) => match (self.mode, event) {
                (SystemState::Idle, Event::Water) => ControllerState {
                    mode: SystemState::Watering,
                    pump: Level::High,
                    ..self
                },
                (SystemState::Watering, Event::WateringComplete) => ControllerState {
                    mode: SystemState::Idle,
                    pump: Level::Low,
                    ..self
                },
                (SystemState::Idle, Event::Measure) => ControllerState {
                    pending: Pending::MoistureSample,
                    ..self
                },
                (SystemState::Idle, Event::Calibrate) => ControllerState {
                    pending: Pending::DrySample,
                    ..self
                },
                (SystemState::Idle, Event::SetThreshold(value)) => ControllerState {
                    threshold: value as int,
                    ..self
                },
                _ => self,
            },
            (Pending::MoistureSample, Stimulus::Reading(reading)) => {
                if soil_is_dry(reading as int, self.threshold) {
                    ControllerState { pump: Level::High, pending: Pending::WateringTimer, ..self }
                } else {
                    ControllerState { pending: Pending::Event, ..self }
                }
            },
            (Pending::DrySample, Stimulus::Reading(reading)) => ControllerState {
                threshold: threshold_from_dry(reading as int),
                pending: Pending::Event,
                ..self
            },
            (Pending::WateringTimer, Stimulus::TimerElapsed) => ControllerState {
                pump: Level::Low,
                pending: Pending::Event,
                ..self
            },
            _ => self,
        }
    }

    /// The answer to `stimulus`.
    ///
    /// The pump command is present exactly when the pump line changes level,
    /// and a reading is published exactly when it answers a `Measure` event.
    pub open spec fn reaction(self, stimulus: Stimulus) -> Reaction {
        let after = self.next(stimulus);
        Reaction {
            pump: if after.pump == self.pump {
                None
            } else {
                Some(after.pump)
            },
            publish: match (self.pending, stimulus) {
                (Pending::MoistureSample, Stimulus::Reading(reading)) => Some(reading),
                _ => None,
            },
            next: request_for(after.pending),
        }
    }

    /// The state after the events of `events` were taken from the mailbox one
    /// after the other.
    pub open spec fn after_events(self, events: Seq<Event>) -> ControllerState
        decreases events.len(),
    {
        if events.len() == 0 {
            self
        } else {
            self.after_events(events.drop_last()).next(Stimulus::Event(events.last()))
        }
    }
}

/// Every transition keeps the invariant.
pub proof fn lemma_next_keeps_invariant(state: ControllerState, stimulus: Stimulus)
    requires
        state.wf(),
    ensures
        state.next(stimulus).wf(),
{
}

/// A pair of state and event outside the transition table changes nothing:
/// the state stays as it was and the pump line is not touched.
pub proof fn lemma_unlisted_pair_is_ignored(state: ControllerState, event: Event)
    requires
        state.wf(),
        !in_transition_table(state.mode, event),
    ensures
        state.next(Stimulus::Event(event)) == state,
        state.reaction(Stimulus::Event(event)).pump is None,
{
}

/// While watering, `Measure`, `Calibrate` and `SetThreshold` in any number and
/// order leave the state and the threshold as they are: only
/// `WateringComplete` ends a watering.
pub proof fn lemma_watering_has_priority(state: ControllerState, events: Seq<Event>)
    requires
        state.wf(),
        state.mode == SystemState::Watering,
        forall|i: int|
            0 <= i < events.len() ==> (#[trigger] events[i] is Measure || events[i] is Calibrate
                || events[i] is SetThreshold),
    ensures
        state.after_events(events) == state,
    decreases events.len(),
{
    if events.len() > 0 {
        let earlier = events.drop_last();
        assert forall|i: int| 0 <= i < earlier.len() implies (#[trigger] earlier[i] is Measure
            || earlier[i] is Calibrate || earlier[i] is SetThreshold) by {
            assert(earlier[i] == events[i]);
        }
        lemma_watering_has_priority(state, earlier);
        let last = events[events.len() - 1];
        assert(last is Measure || last is Calibrate || last is SetThreshold);
    }
}

/// Tells whether `reading` means dry soil under `threshold`.
pub fn is_dry(reading: u16, threshold: i32) -> (dry: bool)
    ensures
        dry == soil_is_dry(reading as int, threshold as int),
{
    reading as i32 > threshold
}

/// Derives the working threshold from a reading taken in dry soil.
pub fn calibrated_threshold(dry_reading: u16) -> (threshold: i32)
    ensures
        threshold == threshold_from_dry(dry_reading as int),
{
    dry_reading as i32 - THRESHOLD_BUFFER
}

/// The controller.
pub struct Controller {
    mode: SystemState,
    threshold: i32,
    pump: Level,
    pending: Pending,
}

impl View for Controller {
    type V = ControllerState;

    closed spec fn view(&self) -> ControllerState {
        ControllerState {
            mode: self.mode,
            threshold: self.threshold as int,
            pump: self.pump,
            pending: self.pending,
        }
    }
}

impl Controller {
    #[verifier::type_invariant]
    spec fn inv(self) -> bool {
        self@.wf()
    }

    /// A controller at power-up.
    pub fn new() -> (controller: Controller)
        ensures
            controller@ == ControllerState::initial(),
            controller@.wf(),
    {
        Controller {
            mode: SystemState::Idle,
            threshold: DEFAULT_THRESHOLD,
            pump: Level::Low,
            pending: Pending::Event,
        }
    }

    /// The current state.
    pub fn state(&self) -> (mode: SystemState)
        ensures
            mode == self@.mode,
    {
        self.mode
    }

    /// The threshold in force.
    pub fn threshold(&self) -> (threshold: i32)
        ensures
            threshold == self@.threshold,
    {
        self.threshold
    }

    /// The level last commanded on the pump line.
    pub fn pump(&self) -> (level: Level)
        ensures
            level == self@.pump,
    {
        self.pump
    }

    /// What the controller is waiting for.
    pub fn pending(&self) -> (pending: Pending)
        ensures
            pending == self@.pending,
    {
        self.pending
    }

    /// The request that the surrounding loop has to serve now.
    pub fn request(&self) -> (request: Request)
        ensures
            request == request_for(self@.pending),
    {
        match self.pending {
            Pending::Event => Request::NextEvent,
            Pending::MoistureSample => Request::SampleSensor,
            Pending::DrySample => Request::SampleSensor,
            Pending::WateringTimer => Request::Sleep(WATERING_DURATION_MS),
        }
    }

    /// Takes one stimulus, moves to the next state and says what to do.
    pub fn step(&mut self, stimulus: Stimulus) -> (reaction: Reaction)
        ensures
            final(self)@ == old(self)@.next(stimulus),
            reaction == old(self)@.reaction(stimulus),
            final(self)@.wf(),
    {
        proof {
            use_type_invariant(&*self);
        }
        let before = self.pump;
        let mut publish: Option<u16> = None;
        match (self.pending, stimulus) {
            (Pending::Event, Stimulus::Event(event)) => match (self.mode, event) {
                (SystemState::Idle, Event::Water) => {
                    *self = Controller {
                        mode: SystemState::Watering,
                        threshold: self.threshold,
                        pump: Level::High,
                        pending: Pending::Event,
                    };
                },
                (SystemState::Watering, Event::WateringComplete) => {
                    *self = Controller {
                        mode: SystemState::Idle,
                        threshold: self.threshold,
                        pump: Level::Low,
                        pending: Pending::Event,
                    };
                },
                (SystemState::Idle, Event::Measure) => {
                    self.pending = Pending::MoistureSample;
                },
                (SystemState::Idle, Event::Calibrate) => {
                    self.pending = Pending::DrySample;
                },
                (SystemState::Idle, Event::SetThreshold(value)) => {
                    self.threshold = value as i32;
                },
                _ => {},
            },
            (Pending::MoistureSample, Stimulus::Reading(reading)) => {
                publish = Some(reading);
                if is_dry(reading, self.threshold) {
                    *self = Controller {
                        mode: self.mode,
                        threshold: self.threshold,
                        pump: Level::High,
                        pending: Pending::WateringTimer,
                    };
                } else {
                    self.pending = Pending::Event;
                }
            },
            (Pending::DrySample, Stimulus::Reading(reading)) => {
                *self = Controller {
                    mode: self.mode,
                    threshold: calibrated_threshold(reading),
                    pump: self.pump,
                    pending: Pending::Event,
                };
            },
            (Pending::WateringTimer, Stimulus::TimerElapsed) => {
                *self = Controller {
                    mode: self.mode,
                    threshold: self.threshold,
                    pump: Level::Low,
                    pending: Pending::Event,
                };
            },
            _ => {},
        }
        let pump = match (before, self.pump) {
            (Level::Low, Level::High) => Some(Level::High),
            (Level::High, Level::Low) => Some(Level::Low),
            _ => None,
        };
        Reaction { pump, publish, next: self.request() }
    }
}

} // verus!
