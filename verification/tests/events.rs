use oxide_agent::events::{event_type_of, Event, EventFilter, EventType};
use oxide_agent::types::AppEvent;

#[test]
fn filters_match_source_and_destination() {
    let e = Event::new_with_destination(EventType::AgentStreamEnd, "tui".to_string(), "agent_1".to_string(), 5);
    assert!(EventFilter::new().matches(&e));
    assert!(EventFilter::new().with_source("tui".to_string()).matches(&e));
    assert!(!EventFilter::new().with_source("web".to_string()).matches(&e));
    assert!(EventFilter::default().with_destination("agent_1".to_string()).matches(&e));
    let broadcast = Event::new(EventType::Shutdown, "tui".to_string(), 6);
    assert!(!EventFilter::new().with_destination("agent_1".to_string()).matches(&broadcast));
    assert!(!EventFilter::new().with_event_type(EventType::ConfigChanged).matches(&broadcast));
    assert!(EventFilter::new().with_event_type(EventType::Shutdown).matches(&broadcast));
    let input = Event::new(EventType::UserInput("hi".to_string()), "tui".to_string(), 7);
    assert!(!EventFilter::new().with_event_type(EventType::Shutdown).matches(&input));
    assert!(EventFilter::new().with_event_type(EventType::UserInput("other".to_string())).matches(&input));
    assert_eq!(broadcast.timestamp_ms, 6);
}

#[test]
fn app_events_are_published_by_kind() {
    assert!(matches!(
        event_type_of(AppEvent::SwitchAgent("Qwen".to_string(), "s".to_string())),
        Some(EventType::SwitchAgent(a)) if a == "Qwen"
    ));
    assert!(matches!(event_type_of(AppEvent::ListSessions), Some(EventType::ListSessions)));
    assert!(event_type_of(AppEvent::SwitchModel("m".to_string())).is_none());
}
