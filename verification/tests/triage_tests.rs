use delamain::store::ToggleStore;
use delamain::triage::{
    channel_mention, render_decimal, thread_subject, toggle_reply, triage, triage_message,
    user_mention, Attachment, InboundMessage, TriageAction,
};

fn message(attachments: Vec<Attachment>) -> InboundMessage {
    InboundMessage {
        channel_id: 5,
        message_id: 900,
        author_id: 7701,
        author_name: "ada".to_string(),
        attachments,
    }
}

#[test]
fn render_decimal_digits() {
    assert_eq!(render_decimal(0), "0");
    assert_eq!(render_decimal(7), "7");
    assert_eq!(render_decimal(1234567890), "1234567890");
    assert_eq!(render_decimal(u64::MAX), "18446744073709551615");
}

#[test]
fn mentions_wrap_the_decimal_identifier() {
    assert_eq!(user_mention(7701), "<@7701>");
    assert_eq!(channel_mention(5), "<#5>");
}

#[test]
fn enabled_channel_without_attachments_is_deleted() {
    let m = message(vec![]);
    match triage(true, &m) {
        TriageAction::Delete { message_id } => assert_eq!(message_id, 900),
        _ => panic!("a message without attachments must be deleted, not threaded or ignored"),
    }
}

#[test]
fn enabled_channel_with_attachment_gets_a_thread() {
    let m = message(vec![Attachment {
        filename: Some("design.pdf".to_string()),
    }]);
    match triage(true, &m) {
        TriageAction::Thread {
            thread_name,
            auto_archive_minutes,
            announcement,
        } => {
            assert_eq!(thread_name, "Discussion of design.pdf");
            assert_eq!(auto_archive_minutes, 1440);
            assert_eq!(announcement, "Discuss <@7701>'s submission here!");
            assert!(announcement.contains("<@7701>"));
        }
        _ => panic!("a message with attachments must be threaded"),
    }
}

#[test]
fn disabled_channel_is_ignored() {
    let m = message(vec![]);
    assert!(matches!(triage(false, &m), TriageAction::Ignore));
    let with_attachment = message(vec![Attachment {
        filename: Some("design.pdf".to_string()),
    }]);
    assert!(matches!(triage(false, &with_attachment), TriageAction::Ignore));
}

#[test]
fn unresolved_filename_falls_back_to_author_subject() {
    let m = message(vec![Attachment { filename: None }]);
    assert_eq!(thread_subject(&m), "ada's submission");
    match triage(true, &m) {
        TriageAction::Thread { thread_name, .. } => {
            assert_eq!(thread_name, "Discussion of ada's submission");
        }
        _ => panic!("an attachment-bearing message must be threaded even without a filename"),
    }
}

#[test]
fn empty_filename_falls_back_to_author_subject() {
    let m = message(vec![Attachment {
        filename: Some("".to_string()),
    }]);
    assert_eq!(thread_subject(&m), "ada's submission");
    match triage(true, &m) {
        TriageAction::Thread { thread_name, .. } => {
            assert_eq!(thread_name, "Discussion of ada's submission");
        }
        _ => panic!("an attachment-bearing message must be threaded even with an empty filename"),
    }
}

#[test]
fn only_first_attachment_names_the_thread() {
    let m = message(vec![
        Attachment {
            filename: Some("first.txt".to_string()),
        },
        Attachment {
            filename: Some("second.txt".to_string()),
        },
    ]);
    assert_eq!(thread_subject(&m), "first.txt");
}

#[test]
fn toggle_reply_names_channel_and_state() {
    assert_eq!(toggle_reply(5, true), "Autothreading enabled for <#5>.");
    assert_eq!(toggle_reply(5, false), "Autothreading disabled for <#5>.");
}

#[test]
fn triage_message_consults_the_store() {
    let kv = persy::OpenOptions::new()
        .memory()
        .expect("in-memory store opens");
    let store = ToggleStore::new(kv);
    store.ensure_segment().unwrap();

    let m = message(vec![]);
    assert!(matches!(
        triage_message(&store, &m).unwrap().0,
        TriageAction::Ignore
    ));

    assert_eq!(store.toggle(5).unwrap().0, true);
    match triage_message(&store, &m).unwrap().0 {
        TriageAction::Delete { message_id } => assert_eq!(message_id, 900),
        _ => panic!("enabled channel without attachments must yield a delete"),
    }

    assert_eq!(store.toggle(5).unwrap().0, false);
    assert!(matches!(
        triage_message(&store, &m).unwrap().0,
        TriageAction::Ignore
    ));
}
