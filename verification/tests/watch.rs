use disket::watch::{Event, EventHandler, EventKind};

struct Recorder {
    seen: Vec<EventKind>,
}

impl EventHandler for Recorder {
    fn handle_event(&mut self, event: Event) {
        self.seen.push(event.kind());
    }
}

#[test]
fn event_has_the_kind_it_was_made_with() {
    assert_eq!(Event::new(EventKind::Arrival).kind(), EventKind::Arrival);
    assert_eq!(Event::new(EventKind::Change).kind(), EventKind::Change);
    assert_eq!(Event::new(EventKind::Removal).kind(), EventKind::Removal);
    assert_ne!(Event::new(EventKind::Arrival), Event::new(EventKind::Removal));
}

#[test]
fn a_handler_sees_the_events_it_is_given() {
    let mut recorder = Recorder { seen: Vec::new() };
    recorder.handle_event(Event::new(EventKind::Arrival));
    recorder.handle_event(Event::new(EventKind::Change));
    recorder.handle_event(Event::new(EventKind::Removal));
    assert_eq!(recorder.seen, vec![EventKind::Arrival, EventKind::Change, EventKind::Removal]);
}
