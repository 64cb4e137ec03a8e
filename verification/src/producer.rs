//! The event producers that run beside the controller.
//!
//! Each producer turns its own trigger into an event and hands it to the
//! mailbox. A producer that finds the mailbox full keeps its event and asks to
//! be called again once there is room: it takes up no new trigger before the
//! event is queued, so nothing is dropped and nothing overtakes.

use vstd::prelude::*;
use crate::debouncer::{Debouncer, DebouncerState, LineObservation, LineRequest};
use crate::event::{Event, Level};
use crate::mailbox::{push_model, Mailbox};

verus! {

/// Time between two measurements, in milliseconds.
pub const MEASUREMENT_INTERVAL_MS: u64 = 10000;

/// What a button is for.
#[derive(Clone, Copy, Debug, PartialEq, Eq, Structural)]
pub enum ButtonRole {
    /// Pressing starts a watering, releasing ends it.
    Manual,
    /// Pressing asks for a calibration.
    Calibration,
}

/// What a producer needs next.
#[derive(Clone, Copy, Debug, PartialEq, Eq, Structural)]
pub enum ProducerRequest {
    /// Serve the debouncer of the button line.
    Line(LineRequest),
    /// Sleep for the given number of milliseconds.
    Sleep(u64),
    /// Wait until the mailbox has room, then retry.
    Room,
}

/// What is handed to a button producer.
#[derive(Clone, Copy, Debug, PartialEq, Eq, Structural)]
pub enum ButtonInput {
    /// The outcome of the last request on the button line.
    Line(LineObservation),
    /// The mailbox may have room again.
    Retry,
}

/// What is handed to the measurement producer.
#[derive(Clone, Copy, Debug, PartialEq, Eq, Structural)]
pub enum TimerInput {
    /// The measurement interval is over.
    Elapsed,
    /// The mailbox may have room again.
    Retry,
}

/// The event that a settled change to `level` on a button line stands for.
/// The buttons pull the line low while pressed.
pub open spec fn button_event(role: ButtonRole, level: Level) -> Option<Event> {
    match (role, level) {
        (ButtonRole::Manual, Level::Low) => Some(Event::Water),
        (ButtonRole::Manual, Level::High) => Some(Event::WateringComplete),
        (ButtonRole::Calibration, Level::Low) => Some(Event::Calibrate),
        (ButtonRole::Calibration, Level::High) => None,
    }
}

/// The event that a settled change on a button line stands for.
pub fn event_for_button(role: ButtonRole, level: Level) -> (event: Option<Event>)
    ensures
        event == button_event(role, level),
{
    match (role, level) {
        (ButtonRole::Manual, Level::Low) => Some(Event::Water),
        (ButtonRole::Manual, Level::High) => Some(Event::WateringComplete),
        (ButtonRole::Calibration, Level::Low) => Some(Event::Calibrate),
        (ButtonRole::Calibration, Level::High) => None,
    }
}

/// Offers `event` to the mailbox. Returns it if the mailbox was full.
fn push_or_keep(mailbox: &mut Mailbox, event: Event) -> (kept: Option<Event>)
    ensures
        final(mailbox)@ == push_model(old(mailbox)@, event).0,
        kept == kept_after(old(mailbox)@, event),
{
    match mailbox.try_push(event) {
        Ok(()) => None,
        Err(back) => Some(back),
    }
}

/// The event a producer keeps after offering `event` to the queue `queue`.
pub open spec fn kept_after(queue: Seq<Event>, event: Event) -> Option<Event> {
    if push_model(queue, event).1 {
        None
    } else {
        Some(event)
    }
}

/// Mathematical state of a button producer.
pub struct ButtonProducerState {
    pub role: ButtonRole,
    pub debouncer: DebouncerState,
    /// The event that the mailbox has not taken yet.
    pub kept: Option<Event>,
}

impl ButtonProducerState {
    /// The request that goes with the state.
    pub open spec fn request(self) -> ProducerRequest {
        if self.kept is Some {
            ProducerRequest::Room
        } else {
            ProducerRequest::Line(self.debouncer.request())
        }
    }

    /// The event offered to the mailbox on `input`: the one kept, on a
    /// retry; else the one that the debouncer's report stands for.
    pub open spec fn offers(self, input: ButtonInput) -> Option<Event> {
        match (self.kept, input) {
            (Some(event), ButtonInput::Retry) => Some(event),
            (None, ButtonInput::Line(observation)) => match self.debouncer.report(observation) {
                Some(level) => button_event(self.role, level),
                None => None,
            },
            _ => None,
        }
    }

    /// The producer and the queue of the mailbox after `input`. While an
    /// event is kept the button line is not served.
    pub open spec fn next(self, input: ButtonInput, queue: Seq<Event>) -> (
        ButtonProducerState,
        Seq<Event>,
    ) {
        let debouncer = match (self.kept, input) {
            (None, ButtonInput::Line(observation)) => self.debouncer.next(observation),
            _ => self.debouncer,
        };
        match self.offers(input) {
            Some(event) => (
                ButtonProducerState { debouncer, kept: kept_after(queue, event), ..self },
                push_model(queue, event).0,
            ),
            None => (ButtonProducerState { debouncer, ..self }, queue),
        }
    }
}

/// The producer behind one button.
pub struct ButtonProducer {
    role: ButtonRole,
    debouncer: Debouncer,
    kept: Option<Event>,
}

impl View for ButtonProducer {
    type V = ButtonProducerState;

    closed spec fn view(&self) -> ButtonProducerState {
        ButtonProducerState { role: self.role, debouncer: self.debouncer@, kept: self.kept }
    }
}

impl ButtonProducer {
    /// A producer for a button with the given role, on a line served by
    /// `debouncer`.
    pub fn new(role: ButtonRole, debouncer: Debouncer) -> (producer: ButtonProducer)
        ensures
            producer@ == (ButtonProducerState { role, debouncer: debouncer@, kept: None }),
    {
        ButtonProducer { role, debouncer, kept: None }
    }

    /// What the producer needs next.
    pub fn request(&self) -> (request: ProducerRequest)
        ensures
            request == self@.request(),
    {
        if self.kept.is_some() {
            ProducerRequest::Room
        } else {
            ProducerRequest::Line(self.debouncer.request())
        }
    }

    /// Takes one input, queues the event it leads to, and says what the
    /// producer needs next.
    pub fn step(&mut self, input: ButtonInput, mailbox: &mut Mailbox) -> (request: ProducerRequest)
        ensures
            final(self)@ == old(self)@.next(input, old(mailbox)@).0,
            final(mailbox)@ == old(self)@.next(input, old(mailbox)@).1,
            request == final(self)@.request(),
    {
        match (self.kept, input) {
            (Some(event), ButtonInput::Retry) => {
                self.kept = push_or_keep(mailbox, event);
            },
            (None, ButtonInput::Line(observation)) => {
                if let Some(level) = self.debouncer.debounce(observation) {
                    if let Some(event) = event_for_button(self.role, level) {
                        self.kept = push_or_keep(mailbox, event);
                    }
                }
            },
            _ => {},
        }
        self.request()
    }
}

/// Mathematical state of the measurement producer.
pub struct MeasurementProducerState {
    /// Whether a `Measure` event is waiting for room in the mailbox.
    pub kept: bool,
}

impl MeasurementProducerState {
    /// The request that goes with the state.
    pub open spec fn request(self) -> ProducerRequest {
        if self.kept {
            ProducerRequest::Room
        } else {
            ProducerRequest::Sleep(MEASUREMENT_INTERVAL_MS)
        }
    }

    /// Whether `Measure` is offered to the mailbox on `input`: when the
    /// interval is over, or on a retry of an offer that found no room.
    pub open spec fn offers(self, input: TimerInput) -> bool {
        match (self.kept, input) {
            (false, TimerInput::Elapsed) => true,
            (true, TimerInput::Retry) => true,
            _ => false,
        }
    }

    /// The producer and the queue of the mailbox after `input`.
    pub open spec fn next(self, input: TimerInput, queue: Seq<Event>) -> (
        MeasurementProducerState,
        Seq<Event>,
    ) {
        if self.offers(input) {
            (
                MeasurementProducerState { kept: kept_after(queue, Event::Measure) is Some },
                push_model(queue, Event::Measure).0,
            )
        } else {
            (self, queue)
        }
    }
}

/// The producer of the periodic `Measure` event.
pub struct MeasurementProducer {
    kept: bool,
}

impl View for MeasurementProducer {
    type V = MeasurementProducerState;

    closed spec fn view(&self) -> MeasurementProducerState {
        MeasurementProducerState { kept: self.kept }
    }
}

impl MeasurementProducer {
    /// A producer about to sleep through its first interval.
    pub fn new() -> (producer: MeasurementProducer)
        ensures
            producer@ == (MeasurementProducerState { kept: false }),
    {
        MeasurementProducer { kept: false }
    }

    /// What the producer needs next.
    pub fn request(&self) -> (request: ProducerRequest)
        ensures
            request == self@.request(),
    {
        if self.kept {
            ProducerRequest::Room
        } else {
            ProducerRequest::Sleep(MEASUREMENT_INTERVAL_MS)
        }
    }

    /// Takes one input, queues `Measure` if it is due, and says what the
    /// producer needs next.
    pub fn step(&mut self, input: TimerInput, mailbox: &mut Mailbox) -> (request: ProducerRequest)
        ensures
            final(self)@ == old(self)@.next(input, old(mailbox)@).0,
            final(mailbox)@ == old(self)@.next(input, old(mailbox)@).1,
            request == final(self)@.request(),
    {
        match (self.kept, input) {
            (false, TimerInput::Elapsed) | (true, TimerInput::Retry) => {
                self.kept = push_or_keep(mailbox, Event::Measure).is_some();
            },
            _ => {},
        }
        self.request()
    }
}

} // verus!
