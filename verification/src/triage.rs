//! Classification of inbound messages for autothreaded channels.
//!
//! Every message posted in a channel that the toggle store marks enabled is
//! triaged: a message without attachments is deleted, a message with
//! attachments gets a public discussion thread rooted at it, named after its
//! first attachment, followed by one announcement mentioning the author.
//! Messages of channels not marked enabled are ignored. This module decides;
//! the surrounding program executes the decided action against the chat
//! platform and reports, without retrying, any remote failure.

use vstd::prelude::*;
use vstd::string::{StrSliceExecFns, StringExecFns};

use crate::store::{StoreError, ToggleStore};

verus! {

/// Minutes after which a created discussion thread auto-archives.
pub const AUTO_ARCHIVE_MINUTES: u16 = 1440;

/// One file attached to a message; the filename is absent when the platform
/// did not resolve one.
pub struct Attachment {
    pub filename: Option<String>,
}

/// Read-only snapshot of a posted message as delivered by the gateway:
/// where it was posted, who wrote it, and its attachments in order.
pub struct InboundMessage {
    pub channel_id: u64,
    pub message_id: u64,
    pub author_id: u64,
    pub author_name: String,
    pub attachments: Vec<Attachment>,
}

/// What triage decides for one message; executing the decided side effect is
/// the caller's part.
#[derive(Debug)]
pub enum TriageAction {
    /// The channel is not autothreaded: no side effect.
    Ignore,
    /// Delete the message with this identifier.
    Delete { message_id: u64 },
    /// Create a public thread rooted at the message, then post the
    /// announcement into it; if thread creation fails the announcement is
    /// skipped, and a thread left behind by a failed announcement stays.
    Thread { thread_name: String, auto_archive_minutes: u16, announcement: String },
}

/// The character for one decimal digit.
pub open spec fn digit_char(d: u64) -> char
    recommends
        d < 10,
{
    if d == 0 {
        '0'
    } else if d == 1 {
        '1'
    } else if d == 2 {
        '2'
    } else if d == 3 {
        '3'
    } else if d == 4 {
        '4'
    } else if d == 5 {
        '5'
    } else if d == 6 {
        '6'
    } else if d == 7 {
        '7'
    } else if d == 8 {
        '8'
    } else {
        '9'
    }
}

/// The decimal digits of `n`, most significant first, without leading zeros
/// (a single zero for `n == 0`).
pub open spec fn decimal_spec(n: u64) -> Seq<char>
    decreases n,
{
    if n < 10 {
        seq![digit_char(n)]
    } else {
        decimal_spec(n / 10) + seq![digit_char(n % 10)]
    }
}

/// The platform's inline mention of a user, `<@` + decimal identifier + `>`.
pub open spec fn user_mention_spec(id: u64) -> Seq<char> {
    "<@"@ + decimal_spec(id) + ">"@
}

/// The platform's inline mention of a channel, `<#` + decimal identifier
/// + `>`.
pub open spec fn channel_mention_spec(id: u64) -> Seq<char> {
    "<#"@ + decimal_spec(id) + ">"@
}

/// The thread's subject: the first attachment's filename, or, where no
/// filename resolves (none delivered, or delivered empty),
/// `{author}'s submission`.
pub open spec fn subject_spec(m: InboundMessage) -> Seq<char> {
    if m.attachments@.len() > 0 && m.attachments@[0].filename is Some && (
    m.attachments@[0].filename->0)@.len() > 0 {
        (m.attachments@[0].filename->0)@
    } else {
        m.author_name@ + "'s submission"@
    }
}

/// The created thread's name, `Discussion of {subject}`.
pub open spec fn thread_name_spec(m: InboundMessage) -> Seq<char> {
    "Discussion of "@ + subject_spec(m)
}

/// The announcement posted into the new thread, mentioning the author.
pub open spec fn announcement_spec(m: InboundMessage) -> Seq<char> {
    "Discuss "@ + user_mention_spec(m.author_id) + "'s submission here!"@
}

/// The confirmation the toggle command replies with, naming the channel and
/// its new state.
pub open spec fn toggle_reply_spec(channel_id: u64, on: bool) -> Seq<char> {
    "Autothreading "@ + (if on {
        "enabled"@
    } else {
        "disabled"@
    }) + " for "@ + channel_mention_spec(channel_id) + "."@
}

/// Append one decimal digit's character.
fn append_digit(s: &mut String, d: u64)
    requires
        d < 10,
    ensures
        final(s)@ == old(s)@ + seq![digit_char(d)],
{
    if d == 0 {
        s.append("0");
        proof {
            reveal_strlit("0");
            assert("0"@ =~= seq![digit_char(0u64)]);
        }
    } else if d == 1 {
        s.append("1");
        proof {
            reveal_strlit("1");
            assert("1"@ =~= seq![digit_char(1u64)]);
        }
    } else if d == 2 {
        s.append("2");
        proof {
            reveal_strlit("2");
            assert("2"@ =~= seq![digit_char(2u64)]);
        }
    } else if d == 3 {
        s.append("3");
        proof {
            reveal_strlit("3");
            assert("3"@ =~= seq![digit_char(3u64)]);
        }
    } else if d == 4 {
        s.append("4");
        proof {
            reveal_strlit("4");
            assert("4"@ =~= seq![digit_char(4u64)]);
        }
    } else if d == 5 {
        s.append("5");
        proof {
            reveal_strlit("5");
            assert("5"@ =~= seq![digit_char(5u64)]);
        }
    } else if d == 6 {
        s.append("6");
        proof {
            reveal_strlit("6");
            assert("6"@ =~= seq![digit_char(6u64)]);
        }
    } else if d == 7 {
        s.append("7");
        proof {
            reveal_strlit("7");
            assert("7"@ =~= seq![digit_char(7u64)]);
        }
    } else if d == 8 {
        s.append("8");
        proof {
            reveal_strlit("8");
            assert("8"@ =~= seq![digit_char(8u64)]);
        }
    } else {
        s.append("9");
        proof {
            reveal_strlit("9");
            assert("9"@ =~= seq![digit_char(9u64)]);
        }
    }
}

/// Append the decimal rendering of `n`.
fn append_decimal(s: &mut String, n: u64)
    ensures
        final(s)@ == old(s)@ + decimal_spec(n),
    decreases n,
{
    if n < 10 {
        append_digit(s, n);
    } else {
        append_decimal(s, n / 10);
        append_digit(s, n % 10);
        proof {
            assert((old(s)@ + decimal_spec(n / 10)) + seq![digit_char(n % 10)] =~= old(s)@
                + decimal_spec(n));
        }
    }
}

/// Render an identifier as its decimal digits.
pub fn render_decimal(n: u64) -> (s: String)
    ensures
        s@ == decimal_spec(n),
{
    let mut s = String::from_str("");
    append_decimal(&mut s, n);
    proof {
        reveal_strlit("");
        assert(""@ + decimal_spec(n) =~= decimal_spec(n));
    }
    s
}

/// Build the inline mention of a user.
pub fn user_mention(id: u64) -> (s: String)
    ensures
        s@ == user_mention_spec(id),
{
    let mut s = String::from_str("<@");
    append_decimal(&mut s, id);
    s.append(">");
    s
}

/// Build the inline mention of a channel.
pub fn channel_mention(id: u64) -> (s: String)
    ensures
        s@ == channel_mention_spec(id),
{
    let mut s = String::from_str("<#");
    append_decimal(&mut s, id);
    s.append(">");
    s
}

/// Compute the thread subject for a message: the first attachment's
/// filename, falling back to `{author}'s submission` where none resolves —
/// no attachment, no filename, or an empty one.
pub fn thread_subject(m: &InboundMessage) -> (s: String)
    ensures
        s@ == subject_spec(*m),
{
    if m.attachments.len() > 0 {
        let first = &m.attachments[0];
        match &first.filename {
            Some(f) => {
                if f.as_str().unicode_len() > 0 {
                    return String::from_str(f.as_str());
                }
            },
            None => {},
        }
    }
    let mut s = String::from_str(m.author_name.as_str());
    s.append("'s submission");
    s
}

/// The one action triage owes a message under a given toggle state: ignore
/// when the channel is disabled, delete when it is enabled and the message
/// has no attachments, and otherwise a thread named `Discussion of
/// {subject}` with the fixed auto-archive duration and the announcement
/// mentioning the author.
pub open spec fn triage_exact(a: TriageAction, enabled: bool, m: InboundMessage) -> bool {
    if !enabled {
        a == TriageAction::Ignore
    } else if m.attachments@.len() == 0 {
        a == (TriageAction::Delete { message_id: m.message_id })
    } else {
        a matches TriageAction::Thread {
            thread_name,
            auto_archive_minutes,
            announcement,
        } && thread_name@ == thread_name_spec(m) && auto_archive_minutes == AUTO_ARCHIVE_MINUTES
            && announcement@ == announcement_spec(m)
    }
}

/// Classify one inbound message, given whether its channel is marked
/// autothreaded: disabled channels are ignored; in an enabled channel a
/// message without attachments is deleted, and a message with attachments
/// gets a thread named `Discussion of {subject}` with the fixed auto-archive
/// duration, announced with a mention of its author.
pub fn triage(enabled: bool, m: &InboundMessage) -> (a: TriageAction)
    ensures
        triage_exact(a, enabled, *m),
{
    if !enabled {
        return TriageAction::Ignore;
    }
    if m.attachments.len() == 0 {
        return TriageAction::Delete { message_id: m.message_id };
    }
    let subject = thread_subject(m);
    let mut thread_name = String::from_str("Discussion of ");
    thread_name.append(subject.as_str());
    let mention = user_mention(m.author_id);
    let mut announcement = String::from_str("Discuss ");
    announcement.append(mention.as_str());
    announcement.append("'s submission here!");
    TriageAction::Thread { thread_name, auto_archive_minutes: AUTO_ARCHIVE_MINUTES, announcement }
}

/// Triage one inbound message against the store: queries the channel's
/// toggle state and classifies. The ghost half of the result names the
/// snapshot of the store that was observed, and the action is exactly the
/// verdict owed under that snapshot's membership — a request is decided iff
/// the channel's encoding stands in it. A storage failure is surfaced
/// unchanged and triage of this one message simply ends.
pub fn triage_message(store: &ToggleStore, m: &InboundMessage) -> (r: Result<
    (TriageAction, Ghost<Seq<Seq<u8>>>),
    StoreError,
>)
    ensures
        r matches Ok(p) ==> triage_exact(
            p.0,
            crate::store::snapshot_has(p.1@, m.channel_id),
            *m,
        ),
{
    let (enabled, snapshot) = store.is_enabled(m.channel_id)?;
    Ok((triage(enabled, m), snapshot))
}

/// Format the toggle command's confirmation for a channel's new state.
pub fn toggle_reply(channel_id: u64, on: bool) -> (s: String)
    ensures
        s@ == toggle_reply_spec(channel_id, on),
{
    let mut s = String::from_str("Autothreading ");
    if on {
        s.append("enabled");
    } else {
        s.append("disabled");
    }
    s.append(" for ");
    let mention = channel_mention(channel_id);
    s.append(mention.as_str());
    s.append(".");
    s
}

} // verus!
