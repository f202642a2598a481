use vstd::prelude::*;

use crate::codec::{ThinkingCompletionReason, ThinkingSpanState};

verus! {

/// How a thinking span ends: completed for a reason, or failed with an error.
#[derive(Clone, Debug)]
pub enum SpanEnd {
    Completed(ThinkingCompletionReason),
    Failed(String),
}

/// The stored fields a finished span takes.
#[derive(Clone, Debug)]
pub struct SpanFinish {
    pub state: ThinkingSpanState,
    pub reason: Option<ThinkingCompletionReason>,
    pub error: Option<String>,
}

/// Finishing a thinking span: only a running span finishes; a completed
/// one keeps its reason, a failed one its error. A span already finished is
/// left as it is (`None`).
pub fn finish_span(current: ThinkingSpanState, end: SpanEnd) -> (r: Option<SpanFinish>)
    ensures
        match r {
            Some(f) => finish_state(current, end) == Some(f.state),
            None => finish_state(current, end) is None,
        },
        current == ThinkingSpanState::Running ==> match end {
            SpanEnd::Completed(reason) => r matches Some(f) && f.state
                == ThinkingSpanState::Completed && f.reason == Some(reason) && f.error is None,
            SpanEnd::Failed(e) => r matches Some(f) && f.state == ThinkingSpanState::Failed
                && f.reason is None && (f.error matches Some(x) && x@ == e@),
        },
{
    match current {
        ThinkingSpanState::Running => match end {
            SpanEnd::Completed(reason) => Some(
                SpanFinish { state: ThinkingSpanState::Completed, reason: Some(reason), error: None },
            ),
            SpanEnd::Failed(e) => Some(
                SpanFinish { state: ThinkingSpanState::Failed, reason: None, error: Some(e) },
            ),
        },
        _ => None,
    }
}

/// The state a span takes when `end` finishes it (`None` when it does not
/// move).
pub open spec fn finish_state(current: ThinkingSpanState, end: SpanEnd) -> Option<ThinkingSpanState> {
    if current != ThinkingSpanState::Running {
        None
    } else {
        match end {
            SpanEnd::Completed(_) => Some(ThinkingSpanState::Completed),
            SpanEnd::Failed(_) => Some(ThinkingSpanState::Failed),
        }
    }
}

/// A finished span is final: only a running span moves, and it always
/// leaves the running state; a second finish changes nothing.
pub proof fn finished_spans_are_final(current: ThinkingSpanState, first: SpanEnd, second: SpanEnd)
    ensures
        finish_state(current, first) matches Some(s) ==> current == ThinkingSpanState::Running
            && s != ThinkingSpanState::Running && finish_state(s, second) is None,
        current != ThinkingSpanState::Running ==> finish_state(current, first) is None,
{
}

} // verus!
