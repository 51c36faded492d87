//! How runtime outcomes reach the workspace log: answers, blocked responses,
//! pending tool calls and tool-loop limits each become log items.
use vstd::prelude::*;
use crate::llm::{
    DecisionView, LlmChatReport, LlmChatStatus, LlmHealthReport, LlmHealthStatus, RuntimeDecision, RuntimeDecisionError,
    RuntimeResponseParseError,
};
use crate::text::string_views;
use crate::state::{is_notice_with, spec_notices_appended, spec_only_log_appended, TuiState};
use crate::text::{decimal, spec_decimal, spec_trim, trim};
use crate::workspace::{spec_outputs_added, WorkspaceEvent, WorkspaceEvents, WorkspaceItem};

verus! {

/// The text an answer shows: the summary, a blank line, then the payload;
/// the payload alone when the summary is blank; the summary alone when there
/// is no payload.
pub open spec fn spec_answer_display(summary: Seq<char>, payload_body: Option<Seq<char>>) -> Seq<char> {
    match payload_body {
        Some(body) => if spec_trim(summary).len() == 0 {
            body
        } else {
            summary + "\n\n"@ + body
        },
        None => summary,
    }
}

pub fn answer_display_text(summary: &str, payload_body: Option<&str>) -> (r: String)
    ensures
        r@ == spec_answer_display(
            summary@,
            match payload_body {
                Some(b) => Some(b@),
                None => None,
            },
        ),
{
    match payload_body {
        Some(body) => {
            let trimmed = trim(summary);
            if trimmed.as_str().unicode_len() == 0 {
                String::from_str(body)
            } else {
                String::from_str(summary).concat("\n\n").concat(body)
            }
        },
        None => String::from_str(summary),
    }
}

pub open spec fn is_answer_with(item: WorkspaceItem, text: Seq<char>) -> bool {
    match item {
        WorkspaceItem::AssistantAnswer { text: t } => t@ == text,
        _ => false,
    }
}

/// `after` is `before` with one answer holding `text` appended.
pub open spec fn spec_answer_pushed(before: Seq<WorkspaceItem>, after: Seq<WorkspaceItem>, text: Seq<char>) -> bool {
    &&& after.len() == before.len() + 1
    &&& after.subrange(0, before.len() as int) == before
    &&& is_answer_with(after.last(), text)
}

/// The system notices a non-answer decision leaves in the log.
pub open spec fn spec_decision_notices(d: DecisionView) -> Seq<Seq<char>> {
    match d {
        DecisionView::Blocked { message, .. } => seq!["response blocked"@, message],
        DecisionView::PlanCandidate { message, items } => seq![
            "task plan accepted: "@ + message + " ("@ + spec_decimal(items.len()) + " items)"@,
        ],
        DecisionView::ToolCandidatePending { activity, tool_name, .. } => seq![
            "tool candidate pending: "@ + tool_name + " ("@ + activity.spec_as_str() + ")"@,
        ],
        DecisionView::ApprovalNeeded { activity, tool_name, .. } => seq![
            "approval needed: "@ + tool_name + " ("@ + activity.spec_as_str() + ")"@,
        ],
        _ => Seq::empty(),
    }
}

/// Appending to the log twice only appends to the log.
proof fn lemma_log_appends_chain(a: TuiState, b: TuiState, c: TuiState)
    requires
        spec_only_log_appended(a, b),
        spec_only_log_appended(b, c),
        b.workspace.spec_items().len() >= a.workspace.spec_items().len(),
        c.workspace.spec_items().len() >= b.workspace.spec_items().len(),
    ensures
        spec_only_log_appended(a, c),
{
}

/// Events of `m` then `n` appended outputs of one kind are `m + n` of them.
proof fn lemma_outputs_concat(x: Seq<WorkspaceEvent>, m: nat, y: Seq<WorkspaceEvent>, n: nat, kind: Seq<char>)
    requires
        spec_outputs_added(x, m, kind),
        spec_outputs_added(y, n, kind),
    ensures
        spec_outputs_added(x + y, m + n, kind),
{
    assert forall|k: int| 0 <= k < m + n implies crate::workspace::is_output_added(#[trigger] (x + y)[k], kind) by {
        if k >= m {
            assert((x + y)[k] == y[k - m]);
        }
    }
}

/// Records a runtime decision: an answer or a clarification is shown as an
/// answer; every other decision leaves system notices.
pub fn record_runtime_decision(state: &mut TuiState, decision: &RuntimeDecision) -> (r: WorkspaceEvents)
    ensures
        match decision@ {
            DecisionView::Answer { summary, payload_body } => spec_answer_pushed(
                old(state).workspace.spec_items(),
                final(state).workspace.spec_items(),
                spec_answer_display(summary, payload_body),
            ),
            DecisionView::Clarify { message, .. } => spec_answer_pushed(
                old(state).workspace.spec_items(),
                final(state).workspace.spec_items(),
                message,
            ),
            _ => spec_notices_appended(
                old(state).workspace.spec_items(),
                final(state).workspace.spec_items(),
                spec_decision_notices(decision@),
            ),
        },
        spec_only_log_appended(*old(state), *final(state)),
        if decision@ is Answer || decision@ is Clarify {
            spec_outputs_added(r.events@, 1, "assistant_answer"@)
        } else {
            spec_outputs_added(r.events@, spec_decision_notices(decision@).len(), "system_notice"@)
        },
{
    let ghost before = state.workspace.spec_items();
    let ghost lines = spec_decision_notices(decision@);
    let events = match decision {
        RuntimeDecision::Answer { summary, payload_body } => {
            let body = match payload_body {
                Some(b) => Some(b.as_str()),
                None => None,
            };
            state.record_answer(answer_display_text(summary.as_str(), body))
        },
        RuntimeDecision::Clarify { message, .. } => state.record_answer(message.clone()),
        RuntimeDecision::Blocked { message, .. } => {
            let ghost s0 = *state;
            let mut events = state.record_system_notice(String::from_str("response blocked"));
            let ghost s1 = *state;
            let ghost e1 = events.events@;
            let more = state.record_system_notice(message.clone());
            proof {
                lemma_log_appends_chain(s0, s1, *state);
                lemma_outputs_concat(e1, 1, more.events@, 1, "system_notice"@);
            }
            events.extend(more);
            events
        },
        RuntimeDecision::PlanCandidate { message, items } => {
            let text = String::from_str("task plan accepted: ").concat(message.as_str()).concat(" (").concat(
                decimal(items.len() as u64).as_str(),
            ).concat(" items)");
            assert(text@ == lines[0]);
            state.record_system_notice(text)
        },
        RuntimeDecision::ToolCandidatePending { activity, tool_name, .. } => {
            let text = String::from_str("tool candidate pending: ").concat(tool_name.as_str()).concat(" (").concat(
                activity.as_str(),
            ).concat(")");
            assert(text@ == lines[0]);
            state.record_system_notice(text)
        },
        RuntimeDecision::ApprovalNeeded { activity, tool_name, .. } => {
            let text = String::from_str("approval needed: ").concat(tool_name.as_str()).concat(" (").concat(
                activity.as_str(),
            ).concat(")");
            assert(text@ == lines[0]);
            state.record_system_notice(text)
        },
    };
    let ghost after = state.workspace.spec_items();
    assert(after.subrange(0, before.len() as int) =~= before);
    events
}

pub open spec fn spec_tool_loop_limit_notices(reason: Seq<char>, diagnosis: Seq<char>) -> Seq<Seq<char>> {
    seq![
        "tool loop stopped: "@ + reason,
        "도구 반복 제한에 도달해 추가 LLM 요청을 보내지 않습니다."@,
        "tool loop diagnosis: "@ + diagnosis,
    ]
}

/// Records that the tool loop hit its limit, with the reason and diagnosis.
pub fn record_tool_loop_limit(state: &mut TuiState, reason: &str, diagnosis: &str) -> (r: WorkspaceEvents)
    ensures
        spec_notices_appended(
            old(state).workspace.spec_items(),
            final(state).workspace.spec_items(),
            spec_tool_loop_limit_notices(reason@, diagnosis@),
        ),
        spec_only_log_appended(*old(state), *final(state)),
        spec_outputs_added(r.events@, 3, "system_notice"@),
{
    let ghost before = state.workspace.spec_items();
    let ghost lines = spec_tool_loop_limit_notices(reason@, diagnosis@);
    let ghost s0 = *state;
    let mut events = state.record_system_notice(String::from_str("tool loop stopped: ").concat(reason));
    let ghost s1 = *state;
    let ghost e1 = events.events@;
    let second = state.record_system_notice(String::from_str("도구 반복 제한에 도달해 추가 LLM 요청을 보내지 않습니다."));
    proof {
        lemma_log_appends_chain(s0, s1, *state);
        lemma_outputs_concat(e1, 1, second.events@, 1, "system_notice"@);
    }
    events.extend(second);
    let ghost s2 = *state;
    let ghost e2 = events.events@;
    let third = state.record_system_notice(String::from_str("tool loop diagnosis: ").concat(diagnosis));
    proof {
        lemma_log_appends_chain(s0, s2, *state);
        lemma_outputs_concat(e2, 2, third.events@, 1, "system_notice"@);
    }
    events.extend(third);
    let ghost after = state.workspace.spec_items();
    assert(after.subrange(0, before.len() as int) =~= before);
    events
}

/// Appends one system notice per line, in order.
fn push_notices(state: &mut TuiState, lines: Vec<String>) -> (r: WorkspaceEvents)
    ensures
        spec_notices_appended(old(state).workspace.spec_items(), final(state).workspace.spec_items(), string_views(lines@)),
        spec_only_log_appended(*old(state), *final(state)),
        spec_outputs_added(r.events@, lines@.len(), "system_notice"@),
{
    let ghost s0 = *state;
    let ghost before = state.workspace.spec_items();
    let ghost views = string_views(lines@);
    let mut events = WorkspaceEvents::none();
    let mut i: usize = 0;
    assert(before.subrange(0, before.len() as int) =~= before);
    assert(spec_only_log_appended(s0, *state));
    while i < lines.len()
        invariant
            views == string_views(lines@),
            i <= lines@.len(),
            spec_notices_appended(before, state.workspace.spec_items(), views.subrange(0, i as int)),
            before == s0.workspace.spec_items(),
            spec_only_log_appended(s0, *state),
            spec_outputs_added(events.events@, i as nat, "system_notice"@),
        decreases lines@.len() - i,
    {
        let ghost mid = state.workspace.spec_items();
        let ghost smid = *state;
        let ghost e0 = events.events@;
        let one = state.record_system_notice(lines[i].clone());
        proof {
            lemma_log_appends_chain(s0, smid, *state);
            lemma_outputs_concat(e0, i as nat, one.events@, 1, "system_notice"@);
        }
        events.extend(one);
        proof {
            let after = state.workspace.spec_items();
            assert(after.subrange(0, before.len() as int) =~= mid.subrange(0, before.len() as int));
            assert forall|k: int| 0 <= k < i + 1 implies is_notice_with(
                #[trigger] after[before.len() + k],
                views.subrange(0, i + 1)[k],
            ) by {
                if k < i {
                    assert(after[before.len() + k] == mid[before.len() + k]);
                    assert(views.subrange(0, i + 1)[k] == views.subrange(0, i as int)[k]);
                }
            }
        }
        i = i + 1;
    }
    assert(views.subrange(0, lines@.len() as int) =~= views);
    events
}

/// The notices a health check leaves: success with latency, model count and
/// endpoint, or failure with its kind, endpoint and message.
pub open spec fn spec_health_notices(report: LlmHealthReport) -> Seq<Seq<char>> {
    let who = "provider "@ + report.provider@ + " | model "@ + report.model@;
    match report.status {
        LlmHealthStatus::Succeeded { available_models } => seq![
            "health ok"@,
            who,
            "latency "@ + spec_decimal(report.latency_ms as nat) + " ms | models "@ + spec_decimal(available_models as nat)
                + " | endpoint "@ + report.models_url@,
        ],
        LlmHealthStatus::Failed(failure) => seq![
            "health failed: "@ + failure.kind@,
            who,
            "endpoint "@ + report.models_url@,
            "message "@ + failure.message@,
        ],
    }
}

pub fn record_health_report(state: &mut TuiState, report: &LlmHealthReport) -> (r: WorkspaceEvents)
    ensures
        spec_notices_appended(
            old(state).workspace.spec_items(),
            final(state).workspace.spec_items(),
            spec_health_notices(*report),
        ),
        spec_only_log_appended(*old(state), *final(state)),
        spec_outputs_added(r.events@, spec_health_notices(*report).len(), "system_notice"@),
{
    let who = String::from_str("provider ").concat(report.provider.as_str()).concat(" | model ").concat(
        report.model.as_str(),
    );
    let lines = match &report.status {
        LlmHealthStatus::Succeeded { available_models } => vec![
            String::from_str("health ok"),
            who,
            String::from_str("latency ").concat(decimal(report.latency_ms).as_str()).concat(" ms | models ").concat(
                decimal(*available_models).as_str(),
            ).concat(" | endpoint ").concat(report.models_url.as_str()),
        ],
        LlmHealthStatus::Failed(failure) => vec![
            String::from_str("health failed: ").concat(failure.kind.as_str()),
            who,
            String::from_str("endpoint ").concat(report.models_url.as_str()),
            String::from_str("message ").concat(failure.message.as_str()),
        ],
    };
    assert(string_views(lines@) =~= spec_health_notices(*report));
    push_notices(state, lines)
}

/// Records the diagnostics snapshot, one notice per line.
pub fn record_llm_diagnostics(state: &mut TuiState, snapshot_lines: &Vec<String>) -> (r: WorkspaceEvents)
    ensures
        spec_notices_appended(
            old(state).workspace.spec_items(),
            final(state).workspace.spec_items(),
            string_views(snapshot_lines@),
        ),
        spec_only_log_appended(*old(state), *final(state)),
        spec_outputs_added(r.events@, snapshot_lines@.len(), "system_notice"@),
{
    let lines = snapshot_lines.clone();
    assert(string_views(lines@) =~= string_views(snapshot_lines@)) by {
        assert forall|k: int| 0 <= k < lines@.len() implies lines@[k]@ == snapshot_lines@[k]@ by {
            assert(cloned::<String>(snapshot_lines@[k], lines@[k]));
        }
    }
    push_notices(state, lines)
}

/// The notices a failed chat request leaves; a successful one leaves none.
pub open spec fn spec_chat_failure_notices(report: LlmChatReport) -> Seq<Seq<char>> {
    match report.status {
        LlmChatStatus::Failed(failure) => seq![
            "request failed: "@ + failure.kind@,
            "provider "@ + report.provider@ + " | model "@ + report.model@,
            "endpoint "@ + report.chat_url@,
            "message "@ + failure.message@,
        ],
        LlmChatStatus::Succeeded { .. } => Seq::empty(),
    }
}

pub fn record_plain_chat_failure(state: &mut TuiState, report: &LlmChatReport) -> (r: WorkspaceEvents)
    ensures
        spec_notices_appended(
            old(state).workspace.spec_items(),
            final(state).workspace.spec_items(),
            spec_chat_failure_notices(*report),
        ),
        spec_only_log_appended(*old(state), *final(state)),
        spec_outputs_added(r.events@, spec_chat_failure_notices(*report).len(), "system_notice"@),
{
    let failure = match &report.status {
        LlmChatStatus::Failed(failure) => failure,
        LlmChatStatus::Succeeded { .. } => {
            let none: Vec<String> = Vec::new();
            assert(string_views(none@) =~= spec_chat_failure_notices(*report));
            return push_notices(state, none);
        },
    };
    let lines = vec![
        String::from_str("request failed: ").concat(failure.kind.as_str()),
        String::from_str("provider ").concat(report.provider.as_str()).concat(" | model ").concat(report.model.as_str()),
        String::from_str("endpoint ").concat(report.chat_url.as_str()),
        String::from_str("message ").concat(failure.message.as_str()),
    ];
    assert(string_views(lines@) =~= spec_chat_failure_notices(*report));
    push_notices(state, lines)
}

pub fn record_runtime_decision_error(state: &mut TuiState, error: &RuntimeDecisionError) -> (r: WorkspaceEvents)
    ensures
        spec_notices_appended(
            old(state).workspace.spec_items(),
            final(state).workspace.spec_items(),
            seq!["runtime decision failed: "@ + error.kind@, error.message@],
        ),
        spec_only_log_appended(*old(state), *final(state)),
        spec_outputs_added(r.events@, 2, "system_notice"@),
{
    let lines = vec![String::from_str("runtime decision failed: ").concat(error.kind.as_str()), error.message.clone()];
    assert(string_views(lines@) =~= seq!["runtime decision failed: "@ + error.kind@, error.message@]);
    push_notices(state, lines)
}

pub fn record_runtime_response_parse_error(state: &mut TuiState, error: &RuntimeResponseParseError) -> (r:
    WorkspaceEvents)
    ensures
        spec_notices_appended(
            old(state).workspace.spec_items(),
            final(state).workspace.spec_items(),
            seq!["response parse failed: "@ + error.kind@, error.message@],
        ),
        spec_only_log_appended(*old(state), *final(state)),
        spec_outputs_added(r.events@, 2, "system_notice"@),
{
    let lines = vec![String::from_str("response parse failed: ").concat(error.kind.as_str()), error.message.clone()];
    assert(string_views(lines@) =~= seq!["response parse failed: "@ + error.kind@, error.message@]);
    push_notices(state, lines)
}

} // verus!
