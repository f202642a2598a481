use vstd::prelude::*;

use crate::text::str_eq;

verus! {

broadcast use vstd::string::group_string_axioms;

/// The state of a strand effect.
#[derive(Clone, Copy, Debug, PartialEq, Eq, Structural)]
pub enum EffectState {
    Prepared,
    Dispatching,
    Unknown,
    Confirmed,
    NotDispatched,
    ResolvedApplied,
    ResolvedNotApplied,
}

/// The text under which the state of a strand effect is stored.
pub open spec fn effect_state_label(value: EffectState) -> Seq<char> {
    match value {
        EffectState::Prepared => "prepared"@,
        EffectState::Dispatching => "dispatching"@,
        EffectState::Unknown => "unknown"@,
        EffectState::Confirmed => "confirmed"@,
        EffectState::NotDispatched => "not_dispatched"@,
        EffectState::ResolvedApplied => "resolved_applied"@,
        EffectState::ResolvedNotApplied => "resolved_not_applied"@,
    }
}

/// The value that stored text decodes to; unknown text reads as `Unknown`.
pub open spec fn effect_state_parse(text: Seq<char>) -> EffectState {
    if text == "prepared"@ {
        EffectState::Prepared
    } else if text == "dispatching"@ {
        EffectState::Dispatching
    } else if text == "confirmed"@ {
        EffectState::Confirmed
    } else if text == "not_dispatched"@ {
        EffectState::NotDispatched
    } else if text == "resolved_applied"@ {
        EffectState::ResolvedApplied
    } else if text == "resolved_not_applied"@ {
        EffectState::ResolvedNotApplied
    } else {
        EffectState::Unknown
    }
}

impl EffectState {
    /// The stored text of this value.
    pub fn encode(&self) -> (r: &'static str)
        ensures
            r@ == effect_state_label(*self),
    {
        match self {
            EffectState::Prepared => "prepared",
            EffectState::Dispatching => "dispatching",
            EffectState::Unknown => "unknown",
            EffectState::Confirmed => "confirmed",
            EffectState::NotDispatched => "not_dispatched",
            EffectState::ResolvedApplied => "resolved_applied",
            EffectState::ResolvedNotApplied => "resolved_not_applied",
        }
    }

    /// Reads stored text; text of no known value reads as `Unknown`.
    pub fn decode(value: &str) -> (r: Self)
        ensures
            r == effect_state_parse(value@),
    {
        if str_eq(value, "prepared") {
            EffectState::Prepared
        } else if str_eq(value, "dispatching") {
            EffectState::Dispatching
        } else if str_eq(value, "confirmed") {
            EffectState::Confirmed
        } else if str_eq(value, "not_dispatched") {
            EffectState::NotDispatched
        } else if str_eq(value, "resolved_applied") {
            EffectState::ResolvedApplied
        } else if str_eq(value, "resolved_not_applied") {
            EffectState::ResolvedNotApplied
        } else {
            EffectState::Unknown
        }
    }
}

/// Decoding the stored text of a effect state gives the value back.
pub proof fn effect_state_round_trip(value: EffectState)
    ensures
        effect_state_parse(effect_state_label(value)) == value,
{
    reveal_strlit("prepared");
    reveal_strlit("dispatching");
    reveal_strlit("unknown");
    reveal_strlit("confirmed");
    reveal_strlit("not_dispatched");
    reveal_strlit("resolved_applied");
    reveal_strlit("resolved_not_applied");
    assert("prepared"@.len() == 8);
    assert("dispatching"@.len() == 11);
    assert("unknown"@.len() == 7);
    assert("confirmed"@.len() == 9);
    assert("not_dispatched"@.len() == 14);
    assert("resolved_applied"@.len() == 16);
    assert("resolved_not_applied"@.len() == 20);
}

/// Why an effect moved to its state.
#[derive(Clone, Copy, Debug, PartialEq, Eq, Structural)]
pub enum EffectTransitionReason {
    IntentPersisted,
    DispatchWindowOpened,
    ResultPersisted,
    DispatchRejected,
    RestartBeforeDispatch,
    RestartDuringDispatch,
    TurnFailedBeforeDispatch,
    TurnFailedDuringDispatch,
    TurnStoppedBeforeDispatch,
    TurnStoppedDuringDispatch,
    ResultCaptureFailed,
    OperatorResolvedApplied,
    OperatorResolvedNotApplied,
    LegacyImport,
}

/// The text under which why an effect moved to its state is stored.
pub open spec fn effect_transition_reason_label(value: EffectTransitionReason) -> Seq<char> {
    match value {
        EffectTransitionReason::IntentPersisted => "intent_persisted"@,
        EffectTransitionReason::DispatchWindowOpened => "dispatch_window_opened"@,
        EffectTransitionReason::ResultPersisted => "result_persisted"@,
        EffectTransitionReason::DispatchRejected => "dispatch_rejected"@,
        EffectTransitionReason::RestartBeforeDispatch => "restart_before_dispatch"@,
        EffectTransitionReason::RestartDuringDispatch => "restart_during_dispatch"@,
        EffectTransitionReason::TurnFailedBeforeDispatch => "turn_failed_before_dispatch"@,
        EffectTransitionReason::TurnFailedDuringDispatch => "turn_failed_during_dispatch"@,
        EffectTransitionReason::TurnStoppedBeforeDispatch => "turn_stopped_before_dispatch"@,
        EffectTransitionReason::TurnStoppedDuringDispatch => "turn_stopped_during_dispatch"@,
        EffectTransitionReason::ResultCaptureFailed => "result_capture_failed"@,
        EffectTransitionReason::OperatorResolvedApplied => "operator_resolved_applied"@,
        EffectTransitionReason::OperatorResolvedNotApplied => "operator_resolved_not_applied"@,
        EffectTransitionReason::LegacyImport => "legacy_import"@,
    }
}

/// The value that stored text decodes to; unknown text reads as `LegacyImport`.
pub open spec fn effect_transition_reason_parse(text: Seq<char>) -> EffectTransitionReason {
    if text == "intent_persisted"@ {
        EffectTransitionReason::IntentPersisted
    } else if text == "dispatch_window_opened"@ {
        EffectTransitionReason::DispatchWindowOpened
    } else if text == "result_persisted"@ {
        EffectTransitionReason::ResultPersisted
    } else if text == "dispatch_rejected"@ {
        EffectTransitionReason::DispatchRejected
    } else if text == "restart_before_dispatch"@ {
        EffectTransitionReason::RestartBeforeDispatch
    } else if text == "restart_during_dispatch"@ {
        EffectTransitionReason::RestartDuringDispatch
    } else if text == "turn_failed_before_dispatch"@ {
        EffectTransitionReason::TurnFailedBeforeDispatch
    } else if text == "turn_failed_during_dispatch"@ {
        EffectTransitionReason::TurnFailedDuringDispatch
    } else if text == "turn_stopped_before_dispatch"@ {
        EffectTransitionReason::TurnStoppedBeforeDispatch
    } else if text == "turn_stopped_during_dispatch"@ {
        EffectTransitionReason::TurnStoppedDuringDispatch
    } else if text == "result_capture_failed"@ {
        EffectTransitionReason::ResultCaptureFailed
    } else if text == "operator_resolved_applied"@ {
        EffectTransitionReason::OperatorResolvedApplied
    } else if text == "operator_resolved_not_applied"@ {
        EffectTransitionReason::OperatorResolvedNotApplied
    } else {
        EffectTransitionReason::LegacyImport
    }
}

impl EffectTransitionReason {
    /// The stored text of this value.
    pub fn encode(&self) -> (r: &'static str)
        ensures
            r@ == effect_transition_reason_label(*self),
    {
        match self {
            EffectTransitionReason::IntentPersisted => "intent_persisted",
            EffectTransitionReason::DispatchWindowOpened => "dispatch_window_opened",
            EffectTransitionReason::ResultPersisted => "result_persisted",
            EffectTransitionReason::DispatchRejected => "dispatch_rejected",
            EffectTransitionReason::RestartBeforeDispatch => "restart_before_dispatch",
            EffectTransitionReason::RestartDuringDispatch => "restart_during_dispatch",
            EffectTransitionReason::TurnFailedBeforeDispatch => "turn_failed_before_dispatch",
            EffectTransitionReason::TurnFailedDuringDispatch => "turn_failed_during_dispatch",
            EffectTransitionReason::TurnStoppedBeforeDispatch => "turn_stopped_before_dispatch",
            EffectTransitionReason::TurnStoppedDuringDispatch => "turn_stopped_during_dispatch",
            EffectTransitionReason::ResultCaptureFailed => "result_capture_failed",
            EffectTransitionReason::OperatorResolvedApplied => "operator_resolved_applied",
            EffectTransitionReason::OperatorResolvedNotApplied => "operator_resolved_not_applied",
            EffectTransitionReason::LegacyImport => "legacy_import",
        }
    }

    /// Reads stored text; text of no known value reads as `LegacyImport`.
    pub fn decode(value: &str) -> (r: Self)
        ensures
            r == effect_transition_reason_parse(value@),
    {
        if str_eq(value, "intent_persisted") {
            EffectTransitionReason::IntentPersisted
        } else if str_eq(value, "dispatch_window_opened") {
            EffectTransitionReason::DispatchWindowOpened
        } else if str_eq(value, "result_persisted") {
            EffectTransitionReason::ResultPersisted
        } else if str_eq(value, "dispatch_rejected") {
            EffectTransitionReason::DispatchRejected
        } else if str_eq(value, "restart_before_dispatch") {
            EffectTransitionReason::RestartBeforeDispatch
        } else if str_eq(value, "restart_during_dispatch") {
            EffectTransitionReason::RestartDuringDispatch
        } else if str_eq(value, "turn_failed_before_dispatch") {
            EffectTransitionReason::TurnFailedBeforeDispatch
        } else if str_eq(value, "turn_failed_during_dispatch") {
            EffectTransitionReason::TurnFailedDuringDispatch
        } else if str_eq(value, "turn_stopped_before_dispatch") {
            EffectTransitionReason::TurnStoppedBeforeDispatch
        } else if str_eq(value, "turn_stopped_during_dispatch") {
            EffectTransitionReason::TurnStoppedDuringDispatch
        } else if str_eq(value, "result_capture_failed") {
            EffectTransitionReason::ResultCaptureFailed
        } else if str_eq(value, "operator_resolved_applied") {
            EffectTransitionReason::OperatorResolvedApplied
        } else if str_eq(value, "operator_resolved_not_applied") {
            EffectTransitionReason::OperatorResolvedNotApplied
        } else {
            EffectTransitionReason::LegacyImport
        }
    }
}

/// Decoding the stored text of a effect transition reason gives the value back.
pub proof fn effect_transition_reason_round_trip(value: EffectTransitionReason)
    ensures
        effect_transition_reason_parse(effect_transition_reason_label(value)) == value,
{
    reveal_strlit("intent_persisted");
    reveal_strlit("dispatch_window_opened");
    reveal_strlit("result_persisted");
    reveal_strlit("dispatch_rejected");
    reveal_strlit("restart_before_dispatch");
    reveal_strlit("restart_during_dispatch");
    reveal_strlit("turn_failed_before_dispatch");
    reveal_strlit("turn_failed_during_dispatch");
    reveal_strlit("turn_stopped_before_dispatch");
    reveal_strlit("turn_stopped_during_dispatch");
    reveal_strlit("result_capture_failed");
    reveal_strlit("operator_resolved_applied");
    reveal_strlit("operator_resolved_not_applied");
    reveal_strlit("legacy_import");
    assert("intent_persisted"@.len() == 16);
    assert("dispatch_window_opened"@.len() == 22);
    assert("result_persisted"@.len() == 16);
    assert("dispatch_rejected"@.len() == 17);
    assert("restart_before_dispatch"@.len() == 23);
    assert("restart_during_dispatch"@.len() == 23);
    assert("turn_failed_before_dispatch"@.len() == 27);
    assert("turn_failed_during_dispatch"@.len() == 27);
    assert("turn_stopped_before_dispatch"@.len() == 28);
    assert("turn_stopped_during_dispatch"@.len() == 28);
    assert("result_capture_failed"@.len() == 21);
    assert("operator_resolved_applied"@.len() == 25);
    assert("operator_resolved_not_applied"@.len() == 29);
    assert("legacy_import"@.len() == 13);
    assert("intent_persisted"@[0] != "result_persisted"@[0]);
    assert("restart_before_dispatch"@[8] != "restart_during_dispatch"@[8]);
    assert("turn_failed_before_dispatch"@[12] != "turn_failed_during_dispatch"@[12]);
    assert("turn_stopped_before_dispatch"@[13] != "turn_stopped_during_dispatch"@[13]);
}

/// Who authored a message.
#[derive(Clone, Copy, Debug, PartialEq, Eq, Structural)]
pub enum ActorType {
    Soul,
    System,
}

/// The text under which who authored a message is stored.
pub open spec fn actor_type_label(value: ActorType) -> Seq<char> {
    match value {
        ActorType::Soul => "soul"@,
        ActorType::System => "system"@,
    }
}

/// The value that stored text decodes to; unknown text reads as `System`.
pub open spec fn actor_type_parse(text: Seq<char>) -> ActorType {
    if text == "soul"@ {
        ActorType::Soul
    } else {
        ActorType::System
    }
}

impl ActorType {
    /// The stored text of this value.
    pub fn encode(&self) -> (r: &'static str)
        ensures
            r@ == actor_type_label(*self),
    {
        match self {
            ActorType::Soul => "soul",
            ActorType::System => "system",
        }
    }

    /// Reads stored text; text of no known value reads as `System`.
    pub fn decode(value: &str) -> (r: Self)
        ensures
            r == actor_type_parse(value@),
    {
        if str_eq(value, "soul") {
            ActorType::Soul
        } else {
            ActorType::System
        }
    }
}

/// Decoding the stored text of a actor type gives the value back.
pub proof fn actor_type_round_trip(value: ActorType)
    ensures
        actor_type_parse(actor_type_label(value)) == value,
{
    reveal_strlit("soul");
    reveal_strlit("system");
    assert("soul"@.len() == 4);
    assert("system"@.len() == 6);
}

/// The state of a message.
#[derive(Clone, Copy, Debug, PartialEq, Eq, Structural)]
pub enum MessageState {
    Pending,
    Fixed,
    Aborted,
}

/// The text under which the state of a message is stored.
pub open spec fn message_state_label(value: MessageState) -> Seq<char> {
    match value {
        MessageState::Pending => "pending"@,
        MessageState::Fixed => "fixed"@,
        MessageState::Aborted => "aborted"@,
    }
}

/// The value that stored text decodes to; unknown text reads as `Fixed`.
pub open spec fn message_state_parse(text: Seq<char>) -> MessageState {
    if text == "pending"@ {
        MessageState::Pending
    } else if text == "aborted"@ {
        MessageState::Aborted
    } else {
        MessageState::Fixed
    }
}

impl MessageState {
    /// The stored text of this value.
    pub fn encode(&self) -> (r: &'static str)
        ensures
            r@ == message_state_label(*self),
    {
        match self {
            MessageState::Pending => "pending",
            MessageState::Fixed => "fixed",
            MessageState::Aborted => "aborted",
        }
    }

    /// Reads stored text; text of no known value reads as `Fixed`.
    pub fn decode(value: &str) -> (r: Self)
        ensures
            r == message_state_parse(value@),
    {
        if str_eq(value, "pending") {
            MessageState::Pending
        } else if str_eq(value, "aborted") {
            MessageState::Aborted
        } else {
            MessageState::Fixed
        }
    }
}

/// Decoding the stored text of a message state gives the value back.
pub proof fn message_state_round_trip(value: MessageState)
    ensures
        message_state_parse(message_state_label(value)) == value,
{
    reveal_strlit("pending");
    reveal_strlit("fixed");
    reveal_strlit("aborted");
    assert("pending"@.len() == 7);
    assert("fixed"@.len() == 5);
    assert("aborted"@.len() == 7);
    assert("pending"@[0] != "aborted"@[0]);
}

/// The kind of a message.
#[derive(Clone, Copy, Debug, PartialEq, Eq, Structural)]
pub enum MessageKind {
    Text,
    SantiSystem,
}

/// The text under which the kind of a message is stored.
pub open spec fn message_kind_label(value: MessageKind) -> Seq<char> {
    match value {
        MessageKind::Text => "text"@,
        MessageKind::SantiSystem => "santi_system"@,
    }
}

/// The value that stored text decodes to; unknown text reads as `Text`.
pub open spec fn message_kind_parse(text: Seq<char>) -> MessageKind {
    if text == "santi_system"@ {
        MessageKind::SantiSystem
    } else {
        MessageKind::Text
    }
}

impl MessageKind {
    /// The stored text of this value.
    pub fn encode(&self) -> (r: &'static str)
        ensures
            r@ == message_kind_label(*self),
    {
        match self {
            MessageKind::Text => "text",
            MessageKind::SantiSystem => "santi_system",
        }
    }

    /// Reads stored text; text of no known value reads as `Text`.
    pub fn decode(value: &str) -> (r: Self)
        ensures
            r == message_kind_parse(value@),
    {
        if str_eq(value, "santi_system") {
            MessageKind::SantiSystem
        } else {
            MessageKind::Text
        }
    }
}

/// Decoding the stored text of a message kind gives the value back.
pub proof fn message_kind_round_trip(value: MessageKind)
    ensures
        message_kind_parse(message_kind_label(value)) == value,
{
    reveal_strlit("text");
    reveal_strlit("santi_system");
    assert("text"@.len() == 4);
    assert("santi_system"@.len() == 12);
}

/// What started a turn.
#[derive(Clone, Copy, Debug, PartialEq, Eq, Structural)]
pub enum TurnTriggerType {
    StrandSend,
    System,
}

/// The text under which what started a turn is stored.
pub open spec fn turn_trigger_type_label(value: TurnTriggerType) -> Seq<char> {
    match value {
        TurnTriggerType::StrandSend => "strand_send"@,
        TurnTriggerType::System => "system"@,
    }
}

/// The value that stored text decodes to; unknown text reads as `System`.
pub open spec fn turn_trigger_type_parse(text: Seq<char>) -> TurnTriggerType {
    if text == "strand_send"@ {
        TurnTriggerType::StrandSend
    } else {
        TurnTriggerType::System
    }
}

impl TurnTriggerType {
    /// Reads stored text; text of no known value reads as `System`.
    pub fn decode(value: &str) -> (r: Self)
        ensures
            r == turn_trigger_type_parse(value@),
    {
        if str_eq(value, "strand_send") {
            TurnTriggerType::StrandSend
        } else {
            TurnTriggerType::System
        }
    }
}

/// The status of a turn.
#[derive(Clone, Copy, Debug, PartialEq, Eq, Structural)]
pub enum TurnStatus {
    Running,
    Completed,
    Failed,
}

/// The text under which the status of a turn is stored.
pub open spec fn turn_status_label(value: TurnStatus) -> Seq<char> {
    match value {
        TurnStatus::Running => "running"@,
        TurnStatus::Completed => "completed"@,
        TurnStatus::Failed => "failed"@,
    }
}

/// The value that stored text decodes to; unknown text reads as `Failed`.
pub open spec fn turn_status_parse(text: Seq<char>) -> TurnStatus {
    if text == "running"@ {
        TurnStatus::Running
    } else if text == "completed"@ {
        TurnStatus::Completed
    } else {
        TurnStatus::Failed
    }
}

impl TurnStatus {
    /// Reads stored text; text of no known value reads as `Failed`.
    pub fn decode(value: &str) -> (r: Self)
        ensures
            r == turn_status_parse(value@),
    {
        if str_eq(value, "running") {
            TurnStatus::Running
        } else if str_eq(value, "completed") {
            TurnStatus::Completed
        } else {
            TurnStatus::Failed
        }
    }
}

/// The state of a thinking span.
#[derive(Clone, Copy, Debug, PartialEq, Eq, Structural)]
pub enum ThinkingSpanState {
    Running,
    Completed,
    Failed,
}

/// The text under which the state of a thinking span is stored.
pub open spec fn thinking_span_state_label(value: ThinkingSpanState) -> Seq<char> {
    match value {
        ThinkingSpanState::Running => "running"@,
        ThinkingSpanState::Completed => "completed"@,
        ThinkingSpanState::Failed => "failed"@,
    }
}

/// The value that stored text decodes to; unknown text reads as `Failed`.
pub open spec fn thinking_span_state_parse(text: Seq<char>) -> ThinkingSpanState {
    if text == "running"@ {
        ThinkingSpanState::Running
    } else if text == "completed"@ {
        ThinkingSpanState::Completed
    } else {
        ThinkingSpanState::Failed
    }
}

impl ThinkingSpanState {
    /// The stored text of this value.
    pub fn encode(&self) -> (r: &'static str)
        ensures
            r@ == thinking_span_state_label(*self),
    {
        match self {
            ThinkingSpanState::Running => "running",
            ThinkingSpanState::Completed => "completed",
            ThinkingSpanState::Failed => "failed",
        }
    }

    /// Reads stored text; text of no known value reads as `Failed`.
    pub fn decode(value: &str) -> (r: Self)
        ensures
            r == thinking_span_state_parse(value@),
    {
        if str_eq(value, "running") {
            ThinkingSpanState::Running
        } else if str_eq(value, "completed") {
            ThinkingSpanState::Completed
        } else {
            ThinkingSpanState::Failed
        }
    }
}

/// Decoding the stored text of a thinking span state gives the value back.
pub proof fn thinking_span_state_round_trip(value: ThinkingSpanState)
    ensures
        thinking_span_state_parse(thinking_span_state_label(value)) == value,
{
    reveal_strlit("running");
    reveal_strlit("completed");
    reveal_strlit("failed");
    assert("running"@.len() == 7);
    assert("completed"@.len() == 9);
    assert("failed"@.len() == 6);
}

/// Why a thinking span completed.
#[derive(Clone, Copy, Debug, PartialEq, Eq, Structural)]
pub enum ThinkingCompletionReason {
    FirstTextDelta,
    ToolCallRequested,
    ProviderCompleted,
}

/// The text under which why a thinking span completed is stored.
pub open spec fn thinking_completion_reason_label(value: ThinkingCompletionReason) -> Seq<char> {
    match value {
        ThinkingCompletionReason::FirstTextDelta => "first_text_delta"@,
        ThinkingCompletionReason::ToolCallRequested => "tool_call_requested"@,
        ThinkingCompletionReason::ProviderCompleted => "provider_completed"@,
    }
}

/// The value that stored text decodes to; unknown text reads as `ProviderCompleted`.
pub open spec fn thinking_completion_reason_parse(text: Seq<char>) -> ThinkingCompletionReason {
    if text == "first_text_delta"@ {
        ThinkingCompletionReason::FirstTextDelta
    } else if text == "tool_call_requested"@ {
        ThinkingCompletionReason::ToolCallRequested
    } else {
        ThinkingCompletionReason::ProviderCompleted
    }
}

impl ThinkingCompletionReason {
    /// The stored text of this value.
    pub fn encode(&self) -> (r: &'static str)
        ensures
            r@ == thinking_completion_reason_label(*self),
    {
        match self {
            ThinkingCompletionReason::FirstTextDelta => "first_text_delta",
            ThinkingCompletionReason::ToolCallRequested => "tool_call_requested",
            ThinkingCompletionReason::ProviderCompleted => "provider_completed",
        }
    }

    /// Reads stored text; text of no known value reads as `ProviderCompleted`.
    pub fn decode(value: &str) -> (r: Self)
        ensures
            r == thinking_completion_reason_parse(value@),
    {
        if str_eq(value, "first_text_delta") {
            ThinkingCompletionReason::FirstTextDelta
        } else if str_eq(value, "tool_call_requested") {
            ThinkingCompletionReason::ToolCallRequested
        } else {
            ThinkingCompletionReason::ProviderCompleted
        }
    }
}

/// Decoding the stored text of a thinking completion reason gives the value back.
pub proof fn thinking_completion_reason_round_trip(value: ThinkingCompletionReason)
    ensures
        thinking_completion_reason_parse(thinking_completion_reason_label(value)) == value,
{
    reveal_strlit("first_text_delta");
    reveal_strlit("tool_call_requested");
    reveal_strlit("provider_completed");
    assert("first_text_delta"@.len() == 16);
    assert("tool_call_requested"@.len() == 19);
    assert("provider_completed"@.len() == 18);
}

/// What a strand timeline entry points at.
#[derive(Clone, Copy, Debug, PartialEq, Eq, Structural)]
pub enum StrandTargetType {
    Message,
    Compact,
    Thinking,
    ToolCall,
    ToolResult,
}

/// The text under which what a strand timeline entry points at is stored.
pub open spec fn strand_target_type_label(value: StrandTargetType) -> Seq<char> {
    match value {
        StrandTargetType::Message => "message"@,
        StrandTargetType::Compact => "compact"@,
        StrandTargetType::Thinking => "thinking"@,
        StrandTargetType::ToolCall => "tool_call"@,
        StrandTargetType::ToolResult => "tool_result"@,
    }
}

/// The value that stored text decodes to; unknown text reads as `Message`.
pub open spec fn strand_target_type_parse(text: Seq<char>) -> StrandTargetType {
    if text == "compact"@ {
        StrandTargetType::Compact
    } else if text == "thinking"@ {
        StrandTargetType::Thinking
    } else if text == "tool_call"@ {
        StrandTargetType::ToolCall
    } else if text == "tool_result"@ {
        StrandTargetType::ToolResult
    } else {
        StrandTargetType::Message
    }
}

impl StrandTargetType {
    /// The stored text of this value.
    pub fn encode(&self) -> (r: &'static str)
        ensures
            r@ == strand_target_type_label(*self),
    {
        match self {
            StrandTargetType::Message => "message",
            StrandTargetType::Compact => "compact",
            StrandTargetType::Thinking => "thinking",
            StrandTargetType::ToolCall => "tool_call",
            StrandTargetType::ToolResult => "tool_result",
        }
    }

}

} // verus!
