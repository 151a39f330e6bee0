use delamain::dispatch::{handle_event, toggle_command, EventOutcome, GatewayEvent};
use delamain::store::ToggleStore;
use delamain::triage::{Attachment, InboundMessage, TriageAction};

fn fresh_store() -> ToggleStore {
    let kv = persy::OpenOptions::new()
        .memory()
        .expect("in-memory store opens");
    ToggleStore::new(kv)
}

fn message_in(channel_id: u64, attachments: Vec<Attachment>) -> InboundMessage {
    InboundMessage {
        channel_id,
        message_id: 400,
        author_id: 12,
        author_name: "ada".to_string(),
        attachments,
    }
}

#[test]
fn ready_event_initializes_the_segment() {
    let store = fresh_store();
    assert!(matches!(
        handle_event(&store, &GatewayEvent::Ready).unwrap().0,
        EventOutcome::Initialized
    ));
    // A second ready event finds the segment present and is a no-op.
    assert!(matches!(
        handle_event(&store, &GatewayEvent::Ready).unwrap().0,
        EventOutcome::Initialized
    ));
    assert_eq!(store.is_enabled(3).unwrap().0, false);
}

#[test]
fn other_events_are_skipped() {
    let store = fresh_store();
    // Even without initialization a foreign event touches nothing.
    assert!(matches!(
        handle_event(&store, &GatewayEvent::Other).unwrap().0,
        EventOutcome::Skipped
    ));
}

#[test]
fn message_events_are_triaged() {
    let store = fresh_store();
    handle_event(&store, &GatewayEvent::Ready).unwrap();
    store.toggle(3).unwrap();

    let bare = GatewayEvent::Message(message_in(3, vec![]));
    match handle_event(&store, &bare).unwrap().0 {
        EventOutcome::Act(TriageAction::Delete { message_id }) => assert_eq!(message_id, 400),
        other => panic!("expected a delete verdict, got {:?}", matches_name(&other)),
    }

    let with_attachment = GatewayEvent::Message(message_in(
        3,
        vec![Attachment {
            filename: Some("design.pdf".to_string()),
        }],
    ));
    match handle_event(&store, &with_attachment).unwrap().0 {
        EventOutcome::Act(TriageAction::Thread {
            thread_name,
            auto_archive_minutes,
            ..
        }) => {
            assert_eq!(thread_name, "Discussion of design.pdf");
            assert_eq!(auto_archive_minutes, 1440);
        }
        other => panic!("expected a thread verdict, got {:?}", matches_name(&other)),
    }

    let elsewhere = GatewayEvent::Message(message_in(4, vec![]));
    assert!(matches!(
        handle_event(&store, &elsewhere).unwrap().0,
        EventOutcome::Act(TriageAction::Ignore)
    ));
}

#[test]
fn toggle_command_replies_with_the_new_state() {
    let store = fresh_store();
    handle_event(&store, &GatewayEvent::Ready).unwrap();

    let (on, reply, _) = toggle_command(&store, 5).unwrap();
    assert!(on);
    assert_eq!(reply, "Autothreading enabled for <#5>.");
    assert_eq!(store.is_enabled(5).unwrap().0, true);

    let (on, reply, _) = toggle_command(&store, 5).unwrap();
    assert!(!on);
    assert_eq!(reply, "Autothreading disabled for <#5>.");
    assert_eq!(store.is_enabled(5).unwrap().0, false);
}

#[test]
fn storage_failure_surfaces_through_dispatch() {
    let store = fresh_store();
    // The segment was never created: triaging a message must fail cleanly.
    let event = GatewayEvent::Message(message_in(3, vec![]));
    let err = match handle_event(&store, &event) {
        Err(e) => e,
        Ok(_) => panic!("triaging against a store without its segment must fail"),
    };
    assert!(!err.message.is_empty());
}

fn matches_name(outcome: &EventOutcome) -> &'static str {
    match outcome {
        EventOutcome::Initialized => "initialized",
        EventOutcome::Act(TriageAction::Ignore) => "act: ignore",
        EventOutcome::Act(TriageAction::Delete { .. }) => "act: delete",
        EventOutcome::Act(TriageAction::Thread { .. }) => "act: thread",
        EventOutcome::Skipped => "skipped",
    }
}
