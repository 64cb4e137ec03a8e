use planty::event::Event;
use planty::mailbox::{Mailbox, MAILBOX_CAPACITY};

#[test]
fn new_mailbox_is_empty() {
    let mut m = Mailbox::new();
    assert_eq!(m.try_pop(), None);
    assert_eq!(m.try_pop(), None);
}

#[test]
fn push_then_pop_returns_the_event() {
    let mut m = Mailbox::new();
    assert_eq!(m.try_push(Event::SetThreshold(1200)), Ok(()));
    assert_eq!(m.try_pop(), Some(Event::SetThreshold(1200)));
    assert_eq!(m.try_pop(), None);
}

#[test]
fn events_come_out_in_the_order_they_went_in() {
    let mut m = Mailbox::new();
    let pushed = [Event::Water, Event::Measure, Event::WateringComplete, Event::Calibrate];
    for event in pushed {
        assert_eq!(m.try_push(event), Ok(()));
    }
    for event in pushed {
        assert_eq!(m.try_pop(), Some(event));
    }
    assert_eq!(m.try_pop(), None);
}

#[test]
fn full_mailbox_hands_the_event_back() {
    assert_eq!(MAILBOX_CAPACITY, 4);
    let mut m = Mailbox::new();
    for value in 0..4u16 {
        assert_eq!(m.try_push(Event::SetThreshold(value)), Ok(()));
    }
    assert_eq!(m.try_push(Event::Water), Err(Event::Water));
    assert_eq!(m.try_push(Event::SetThreshold(9)), Err(Event::SetThreshold(9)));
    // The queue is as it was before the refused pushes.
    for value in 0..4u16 {
        assert_eq!(m.try_pop(), Some(Event::SetThreshold(value)));
    }
    assert_eq!(m.try_pop(), None);
}

#[test]
fn room_returns_after_a_pop() {
    let mut m = Mailbox::new();
    for _ in 0..4 {
        assert_eq!(m.try_push(Event::Measure), Ok(()));
    }
    assert_eq!(m.try_push(Event::Water), Err(Event::Water));
    assert_eq!(m.try_pop(), Some(Event::Measure));
    assert_eq!(m.try_push(Event::Water), Ok(()));
    assert_eq!(m.try_push(Event::Calibrate), Err(Event::Calibrate));
    for _ in 0..3 {
        assert_eq!(m.try_pop(), Some(Event::Measure));
    }
    assert_eq!(m.try_pop(), Some(Event::Water));
    assert_eq!(m.try_pop(), None);
}

#[test]
fn same_kind_events_are_not_merged() {
    let mut m = Mailbox::new();
    assert_eq!(m.try_push(Event::Measure), Ok(()));
    assert_eq!(m.try_push(Event::Measure), Ok(()));
    assert_eq!(m.try_push(Event::Measure), Ok(()));
    assert_eq!(m.try_pop(), Some(Event::Measure));
    assert_eq!(m.try_pop(), Some(Event::Measure));
    assert_eq!(m.try_pop(), Some(Event::Measure));
    assert_eq!(m.try_pop(), None);
}

#[test]
fn interleaved_producers_keep_arrival_order() {
    // Two producers take turns; the consumer pops now and then. What was
    // accepted is what is delivered followed by what is still queued.
    let mut m = Mailbox::new();
    let button = [Event::Water, Event::WateringComplete, Event::Water, Event::WateringComplete];
    let remote = [
        Event::SetThreshold(1),
        Event::SetThreshold(2),
        Event::SetThreshold(3),
        Event::SetThreshold(4),
    ];
    let mut accepted = Vec::new();
    let mut delivered = Vec::new();
    for i in 0..4 {
        if m.try_push(button[i]).is_ok() {
            accepted.push(button[i]);
        }
        if m.try_push(remote[i]).is_ok() {
            accepted.push(remote[i]);
        }
        if i % 2 == 1 {
            if let Some(event) = m.try_pop() {
                delivered.push(event);
            }
        }
    }
    while let Some(event) = m.try_pop() {
        delivered.push(event);
    }
    assert_eq!(delivered, accepted);
    assert_eq!(
        accepted,
        vec![
            Event::Water,
            Event::SetThreshold(1),
            Event::WateringComplete,
            Event::SetThreshold(2),
            Event::Water,
        ]
    );
}

#[test]
fn nothing_is_lost_while_pending_pushes_fit() {
    let mut m = Mailbox::new();
    let mut delivered = Vec::new();
    let mut offered = Vec::new();
    for round in 0..10u16 {
        for k in 0..3u16 {
            let event = Event::SetThreshold(round * 3 + k);
            offered.push(event);
            assert_eq!(m.try_push(event), Ok(()));
        }
        for _ in 0..3 {
            delivered.push(m.try_pop().unwrap());
        }
    }
    assert_eq!(delivered, offered);
    assert_eq!(m.try_pop(), None);
}
