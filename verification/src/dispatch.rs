//! Adapters between the collaborators and the core: the gateway's event
//! dispatch and the toggle slash command.
//!
//! The surrounding program receives raw gateway events and command
//! invocations, turns them into the plain values below, and executes
//! whatever action or reply comes back; every decision in between is made
//! here. Only two event kinds matter to this core — the ready signal, which
//! triggers lazy segment creation, and a posted message, which is triaged —
//! and every other kind is a no-op.

use vstd::prelude::*;

use crate::store::{snapshot_has, toggle_turns_on, StoreError, ToggleStore};
use crate::triage::{
    toggle_reply, toggle_reply_spec, triage_exact, triage_message, InboundMessage, TriageAction,
};

verus! {

/// A gateway event, reduced to the kinds this core reacts to.
pub enum GatewayEvent {
    /// The gateway connection is up: time for lazy initialization.
    Ready,
    /// A message was posted somewhere the gateway watches.
    Message(InboundMessage),
    /// Any other event kind.
    Other,
}

/// What handling one event asks of the caller.
#[derive(Debug)]
pub enum EventOutcome {
    /// The membership segment now exists; nothing to execute.
    Initialized,
    /// Execute this triage action for the posted message.
    Act(TriageAction),
    /// The event kind is irrelevant to this core.
    Skipped,
}

/// Dispatch one gateway event: the ready signal lazily creates the
/// membership segment, a posted message is triaged, and every other event
/// kind is skipped. For a message, the ghost half of the result names the
/// store snapshot that was observed, and the outcome is exactly the verdict
/// owed under that snapshot's membership. A storage failure is surfaced
/// unchanged and ends the handling of this one event only.
pub fn handle_event(store: &ToggleStore, event: &GatewayEvent) -> (r: Result<
    (EventOutcome, Ghost<Seq<Seq<u8>>>),
    StoreError,
>)
    ensures
        event is Ready ==> (r matches Ok(p) ==> p.0 == EventOutcome::Initialized),
        event matches GatewayEvent::Message(m) ==> (r matches Ok(p) ==> (p.0 matches
            EventOutcome::Act(a) && triage_exact(a, snapshot_has(p.1@, m.channel_id), *m))),
        event is Other ==> (r matches Ok(p) && p.0 == EventOutcome::Skipped),
{
    match event {
        GatewayEvent::Ready => {
            store.ensure_segment()?;
            Ok((EventOutcome::Initialized, Ghost(Seq::empty())))
        },
        GatewayEvent::Message(m) => {
            let (action, snapshot) = triage_message(store, m)?;
            Ok((EventOutcome::Act(action), snapshot))
        },
        GatewayEvent::Other => Ok((EventOutcome::Skipped, Ghost(Seq::empty()))),
    }
}

/// Serve one invocation of the toggle command: atomically flip the
/// channel's membership and format the confirmation naming the channel and
/// the state just reached. The ghost half of the result names the store
/// snapshot the toggle observed: the reported state is exactly the inverse
/// of the channel's membership in it, and the reply announces that state. A
/// storage failure is surfaced unchanged and the membership is untouched.
pub fn toggle_command(store: &ToggleStore, channel_id: u64) -> (r: Result<
    (bool, String, Ghost<Seq<Seq<u8>>>),
    StoreError,
>)
    ensures
        r matches Ok(p) ==> p.1@ == toggle_reply_spec(channel_id, p.0) && p.0 == toggle_turns_on(
            p.2@,
            channel_id,
        ),
{
    let (on, snapshot) = store.toggle(channel_id)?;
    let reply = toggle_reply(channel_id, on);
    Ok((on, reply, snapshot))
}

} // verus!
