use planty::debouncer::{Debouncer, LineObservation, LineRequest};
use planty::event::{Event, Level};
use planty::mailbox::Mailbox;
use planty::producer::{
    event_for_button, ButtonInput, ButtonProducer, ButtonRole, MeasurementProducer,
    ProducerRequest, TimerInput, MEASUREMENT_INTERVAL_MS,
};

/// Feeds one full round to the producer's debouncer: the line changes from
/// the other level to `to`.
fn change_to(p: &mut ButtonProducer, m: &mut Mailbox, to: Level) -> ProducerRequest {
    let from = match to {
        Level::Low => Level::High,
        Level::High => Level::Low,
    };
    p.step(ButtonInput::Line(LineObservation::Level(from)), m);
    p.step(ButtonInput::Line(LineObservation::Edge), m);
    p.step(ButtonInput::Line(LineObservation::Elapsed), m);
    p.step(ButtonInput::Line(LineObservation::Level(to)), m)
}

fn fill(m: &mut Mailbox) {
    for value in 0..4u16 {
        assert_eq!(m.try_push(Event::SetThreshold(value)), Ok(()));
    }
}

#[test]
fn button_levels_map_to_events() {
    assert_eq!(event_for_button(ButtonRole::Manual, Level::Low), Some(Event::Water));
    assert_eq!(event_for_button(ButtonRole::Manual, Level::High), Some(Event::WateringComplete));
    assert_eq!(event_for_button(ButtonRole::Calibration, Level::Low), Some(Event::Calibrate));
    assert_eq!(event_for_button(ButtonRole::Calibration, Level::High), None);
}

#[test]
fn manual_button_emits_water_then_complete() {
    let mut m = Mailbox::new();
    let mut p = ButtonProducer::new(ButtonRole::Manual, Debouncer::new(20));
    assert_eq!(p.request(), ProducerRequest::Line(LineRequest::ReadLevel));
    let next = change_to(&mut p, &mut m, Level::Low);
    assert_eq!(next, ProducerRequest::Line(LineRequest::ReadLevel));
    change_to(&mut p, &mut m, Level::High);
    change_to(&mut p, &mut m, Level::Low);
    assert_eq!(m.try_pop(), Some(Event::Water));
    assert_eq!(m.try_pop(), Some(Event::WateringComplete));
    assert_eq!(m.try_pop(), Some(Event::Water));
    assert_eq!(m.try_pop(), None);
}

#[test]
fn button_producer_passes_debouncer_requests_on() {
    let mut m = Mailbox::new();
    let mut p = ButtonProducer::new(ButtonRole::Manual, Debouncer::new(20));
    assert_eq!(
        p.step(ButtonInput::Line(LineObservation::Level(Level::High)), &mut m),
        ProducerRequest::Line(LineRequest::WaitForEdge)
    );
    assert_eq!(
        p.step(ButtonInput::Line(LineObservation::Edge), &mut m),
        ProducerRequest::Line(LineRequest::Sleep(20))
    );
    assert_eq!(
        p.step(ButtonInput::Line(LineObservation::Elapsed), &mut m),
        ProducerRequest::Line(LineRequest::ReadLevel)
    );
    // Noise: nothing is queued.
    assert_eq!(
        p.step(ButtonInput::Line(LineObservation::Level(Level::High)), &mut m),
        ProducerRequest::Line(LineRequest::ReadLevel)
    );
    assert_eq!(m.try_pop(), None);
}

#[test]
fn calibration_button_emits_on_press_only() {
    let mut m = Mailbox::new();
    let mut p = ButtonProducer::new(ButtonRole::Calibration, Debouncer::new(20));
    change_to(&mut p, &mut m, Level::Low);
    change_to(&mut p, &mut m, Level::High);
    change_to(&mut p, &mut m, Level::Low);
    assert_eq!(m.try_pop(), Some(Event::Calibrate));
    assert_eq!(m.try_pop(), Some(Event::Calibrate));
    assert_eq!(m.try_pop(), None);
}

#[test]
fn button_producer_keeps_its_event_while_the_mailbox_is_full() {
    let mut m = Mailbox::new();
    fill(&mut m);
    let mut p = ButtonProducer::new(ButtonRole::Manual, Debouncer::new(20));
    assert_eq!(change_to(&mut p, &mut m, Level::Low), ProducerRequest::Room);
    assert_eq!(p.request(), ProducerRequest::Room);

    // Still full: the retry changes nothing.
    assert_eq!(p.step(ButtonInput::Retry, &mut m), ProducerRequest::Room);
    // The line is not served while the event waits.
    assert_eq!(
        p.step(ButtonInput::Line(LineObservation::Level(Level::High)), &mut m),
        ProducerRequest::Room
    );

    assert_eq!(m.try_pop(), Some(Event::SetThreshold(0)));
    assert_eq!(
        p.step(ButtonInput::Retry, &mut m),
        ProducerRequest::Line(LineRequest::ReadLevel)
    );
    for value in 1..4u16 {
        assert_eq!(m.try_pop(), Some(Event::SetThreshold(value)));
    }
    assert_eq!(m.try_pop(), Some(Event::Water));
    assert_eq!(m.try_pop(), None);
}

#[test]
fn retry_without_a_kept_event_does_nothing() {
    let mut m = Mailbox::new();
    let mut p = ButtonProducer::new(ButtonRole::Manual, Debouncer::new(20));
    assert_eq!(
        p.step(ButtonInput::Retry, &mut m),
        ProducerRequest::Line(LineRequest::ReadLevel)
    );
    assert_eq!(m.try_pop(), None);
}

#[test]
fn measurement_producer_emits_after_each_interval() {
    assert_eq!(MEASUREMENT_INTERVAL_MS, 10000);
    let mut m = Mailbox::new();
    let mut p = MeasurementProducer::new();
    assert_eq!(p.request(), ProducerRequest::Sleep(10000));
    assert_eq!(p.step(TimerInput::Elapsed, &mut m), ProducerRequest::Sleep(10000));
    assert_eq!(p.step(TimerInput::Elapsed, &mut m), ProducerRequest::Sleep(10000));
    assert_eq!(m.try_pop(), Some(Event::Measure));
    assert_eq!(m.try_pop(), Some(Event::Measure));
    assert_eq!(m.try_pop(), None);
}

#[test]
fn measurement_producer_waits_for_room() {
    let mut m = Mailbox::new();
    fill(&mut m);
    let mut p = MeasurementProducer::new();
    assert_eq!(p.step(TimerInput::Elapsed, &mut m), ProducerRequest::Room);
    assert_eq!(p.step(TimerInput::Retry, &mut m), ProducerRequest::Room);
    // A second interval does not add a second event.
    assert_eq!(p.step(TimerInput::Elapsed, &mut m), ProducerRequest::Room);
    assert_eq!(m.try_pop(), Some(Event::SetThreshold(0)));
    assert_eq!(p.step(TimerInput::Retry, &mut m), ProducerRequest::Sleep(10000));
    // Without a kept event a retry queues nothing.
    assert_eq!(m.try_pop(), Some(Event::SetThreshold(1)));
    assert_eq!(p.step(TimerInput::Retry, &mut m), ProducerRequest::Sleep(10000));
    assert_eq!(m.try_pop(), Some(Event::SetThreshold(2)));
    assert_eq!(m.try_pop(), Some(Event::SetThreshold(3)));
    assert_eq!(m.try_pop(), Some(Event::Measure));
    assert_eq!(m.try_pop(), None);
}
