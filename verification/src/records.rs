use vstd::prelude::*;

use crate::codec::{ActorType, EffectState, EffectTransitionReason, MessageKind, MessageState, TurnStatus, TurnTriggerType};

verus! {

/// A turn of a strand, as stored.
#[derive(Clone, Debug)]
pub struct Turn {
    pub id: String,
    pub strand_id: String,
    pub trigger_type: TurnTriggerType,
    pub trigger_ref: Option<String>,
    pub base_strand_seq: i64,
    pub end_strand_seq: Option<i64>,
    pub status: TurnStatus,
    pub error_text: Option<String>,
    pub created_at: String,
    pub updated_at: String,
    pub finished_at: Option<String>,
}

/// Where a message sits in a strand's spine.
#[derive(Clone, Debug)]
pub struct StrandMessageRef {
    pub strand_id: String,
    pub message_id: String,
    pub strand_seq: i64,
    pub created_at: String,
}

/// A message, with its content as the JSON text it is stored as.
#[derive(Clone, Debug)]
pub struct Message {
    pub id: String,
    pub actor_type: ActorType,
    pub actor_id: String,
    pub message_kind: MessageKind,
    pub content: String,
    pub state: MessageState,
    pub version: i64,
    pub deleted_at: Option<String>,
    pub created_at: String,
    pub updated_at: String,
}

/// A message placed in a strand, with the plain text of its content.
#[derive(Clone, Debug)]
pub struct StrandMessage {
    pub relation: StrandMessageRef,
    pub message: Message,
    pub content_text: String,
}

/// A message just appended to a strand.
#[derive(Clone, Debug)]
pub struct AppendedMessage {
    pub strand_message: StrandMessage,
}

/// A turn just started, with the inbox entries committed into the timeline
/// to reach it.
#[derive(Clone, Debug)]
pub struct StartedTurn {
    pub turn: Turn,
    pub drained_messages: Vec<StrandMessage>,
}

/// A message just written into a strand.
#[derive(Clone, Debug)]
pub struct Penned {
    pub message: StrandMessage,
}

/// How a message came in: whether it is a request that asks for a reply.
#[derive(Clone, Copy, Debug, PartialEq, Eq)]
pub struct Intake {
    pub is_request: bool,
}

/// A message to be written into a strand.
pub struct Draft<'a> {
    pub strand: &'a str,
    pub actor: ActorType,
    pub id: &'a str,
    pub content: String,
    pub state: MessageState,
    pub intake: Intake,
}

/// A turn just begun, with the entries drained into the timeline for it.
#[derive(Clone, Debug)]
pub struct Begun {
    pub turn: Turn,
    pub drained: Vec<StrandMessage>,
}

/// What a turn completes with: its provider and model, the strand position
/// it saw last, and the provider's response id when there is one.
pub struct Completion<'a> {
    pub turn: &'a str,
    pub sequence: Option<i64>,
    pub provider: &'a str,
    pub model: &'a str,
    pub response: Option<String>,
}

/// An effect about to be recorded as prepared.
pub struct Prepared<'a> {
    pub strand: &'a str,
    pub turn: &'a str,
    pub call: &'a str,
    pub kind: &'a str,
    pub time: &'a str,
}

/// A move of an effect to a new state, with its reason and evidence.
pub struct Transition<'a> {
    pub state: EffectState,
    pub reason: EffectTransitionReason,
    pub evidence: Option<&'a str>,
    pub time: &'a str,
}

} // verus!
