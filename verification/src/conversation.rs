//! What the runtime tells the model and the personas about the task at hand
//! and the one before it, and when a repeated approval ends the run.
use vstd::prelude::*;
use crate::approval::{ApprovalInputEvent, ApprovalResult};
use crate::llm::{LlmMessage, LlmMessageRole, LlmMessageVisibility};
use crate::persona_prompt::PersonaTurnPrompt;
use crate::runtime_request::{
    opt_observation_view, opt_str_view, spec_target_text, ActivePlainRequest, ObservationView,
    ToolLoopRepeatRedirect,
};
use crate::text::{join_strings, spec_decimal, spec_join, str_eq, string_views};

verus! {

/// The previous task as a follow-up message may refer to it.
#[derive(Debug, PartialEq, Eq)]
pub struct ConversationTaskFrame {
    pub user_prompt: String,
    pub task_state_summary: String,
    pub runtime_context_summary: String,
}

pub open spec fn spec_conversation_context(prompt: Seq<char>, summary: Seq<char>, context: Seq<char>) -> Seq<char> {
    "<AHREUM_CONVERSATION_CONTEXT>\nprevious_task_user_request:\n"@ + prompt + "\n\nprevious_task_state_summary:\n"@
        + summary + "\n\nprevious_runtime_context:\n"@ + context
        + "\n\ninstruction: The current user message may be a follow-up, retry, correction, complaint, or an unrelated new task. Decide from the current message semantics. Use previous_task only when the current message depends on it; otherwise ignore it. A previous task state that was limited, failed, canceled, or blocked is not completed evidence. Do not invent file contents, extracted values, package names, versions, path candidates, or successful execution facts from this context.\n</AHREUM_CONVERSATION_CONTEXT>"@
}

/// The previous task as a context block for the model.
pub fn conversation_context_message(frame: &ConversationTaskFrame) -> (r: String)
    ensures
        r@ == spec_conversation_context(frame.user_prompt@, frame.task_state_summary@, frame.runtime_context_summary@),
{
    String::from_str("<AHREUM_CONVERSATION_CONTEXT>\nprevious_task_user_request:\n").concat(frame.user_prompt.as_str()).concat(
        "\n\nprevious_task_state_summary:\n",
    ).concat(frame.task_state_summary.as_str()).concat("\n\nprevious_runtime_context:\n").concat(
        frame.runtime_context_summary.as_str(),
    ).concat(
        "\n\ninstruction: The current user message may be a follow-up, retry, correction, complaint, or an unrelated new task. Decide from the current message semantics. Use previous_task only when the current message depends on it; otherwise ignore it. A previous task state that was limited, failed, canceled, or blocked is not completed evidence. Do not invent file contents, extracted values, package names, versions, path candidates, or successful execution facts from this context.\n</AHREUM_CONVERSATION_CONTEXT>",
    )
}

pub open spec fn spec_follow_up_summary(prompt: Seq<char>, summary: Seq<char>, current: Seq<char>) -> Seq<char> {
    "follow_up_policy: current user message may be a follow-up, retry, correction, complaint, or unrelated new task; relate it to the previous task only when the message depends on it.\nprevious_user_request: "@
        + prompt + "\nprevious_task_state_summary:\n"@ + summary + "\ncurrent_user_message: "@ + current
        + "\nfact_boundary: persona must not state literal paths, filenames, config keys, extracted values, file contents, package names, provider names, versions, or configuration values; those belong only in the main answer."@
}

/// The task state a persona follow-up turn sees: the previous request and
/// its state beside the current message, with no claim about how they relate.
pub fn persona_follow_up_task_state_summary(frame: &ConversationTaskFrame, current_prompt: &str) -> (r: String)
    ensures
        r@ == spec_follow_up_summary(frame.user_prompt@, frame.task_state_summary@, current_prompt@),
{
    String::from_str(
        "follow_up_policy: current user message may be a follow-up, retry, correction, complaint, or unrelated new task; relate it to the previous task only when the message depends on it.\nprevious_user_request: ",
    ).concat(frame.user_prompt.as_str()).concat("\nprevious_task_state_summary:\n").concat(
        frame.task_state_summary.as_str(),
    ).concat("\ncurrent_user_message: ").concat(current_prompt).concat(
        "\nfact_boundary: persona must not state literal paths, filenames, config keys, extracted values, file contents, package names, provider names, versions, or configuration values; those belong only in the main answer.",
    )
}

pub open spec fn spec_error_text(kind: Option<Seq<char>>) -> Seq<char> {
    match kind {
        Some(k) => k,
        None => "-"@,
    }
}

/// The task state the personas see: the main runtime's status, the latest
/// observation only as metadata, and the rule that literal facts stay in the
/// main answer (and that a failed observation is no evidence).
pub open spec fn spec_persona_task_state(
    status: Seq<char>,
    detail: Seq<char>,
    tool_call_count: u16,
    last: Option<ObservationView>,
) -> Seq<char> {
    let head = seq![
        "main_runtime_status: "@ + status,
        "detail: "@ + detail,
        "tool_call_count: "@ + spec_decimal(tool_call_count as nat),
    ];
    let tail = match last {
        Some(o) => seq![
            "last_observation: tool_name="@ + o.tool_name + " status="@ + o.status + " target_raw="@ + spec_target_text(o)
                + " error_kind="@ + spec_error_text(o.error_kind),
            "fact_boundary: persona must not state literal paths, filenames, config keys, extracted values, file contents, package names, provider names, versions, or configuration values; those belong only in the main answer."@,
        ] + if o.status != "succeeded"@ || o.error_kind is Some {
            seq!["fact_boundary: last observation is not successful evidence; persona must not claim file contents or completed analysis from it."@]
        } else {
            Seq::empty()
        },
        None => seq![
            "last_observation: none"@,
            "fact_boundary: no observation is available to persona; do not state literal paths, filenames, config keys, extracted values, file contents, package names, provider names, versions, or configuration values."@,
        ],
    };
    spec_join(head + tail, "\n"@)
}

pub fn persona_task_state_summary(active: &ActivePlainRequest, runtime_status: &str, detail: &str) -> (r: String)
    ensures
        r@ == spec_persona_task_state(
            runtime_status@,
            detail@,
            active.tool_call_count,
            opt_observation_view(active.last_tool_observation),
        ),
{
    let mut lines: Vec<String> = Vec::new();
    lines.push(String::from_str("main_runtime_status: ").concat(runtime_status));
    lines.push(String::from_str("detail: ").concat(detail));
    lines.push(String::from_str("tool_call_count: ").concat(crate::text::decimal(active.tool_call_count as u64).as_str()));
    let ghost head = string_views(lines@);
    match &active.last_tool_observation {
        Some(o) => {
            let target: &str = match &o.target_raw {
                Some(t) => t.as_str(),
                None => "-",
            };
            let kind: &str = match o.error_kind {
                Some(k) => k,
                None => "-",
            };
            let first = String::from_str("last_observation: tool_name=").concat(o.tool_name.as_str()).concat(
                " status=",
            ).concat(o.status).concat(" target_raw=").concat(target).concat(" error_kind=").concat(kind);
            lines.push(first);
            lines.push(String::from_str(
                "fact_boundary: persona must not state literal paths, filenames, config keys, extracted values, file contents, package names, provider names, versions, or configuration values; those belong only in the main answer.",
            ));
            assert(string_views(lines@) =~= head + seq![first@,
                "fact_boundary: persona must not state literal paths, filenames, config keys, extracted values, file contents, package names, provider names, versions, or configuration values; those belong only in the main answer."@]);
            let ghost mid = string_views(lines@);
            if !str_eq(o.status, "succeeded") || o.error_kind.is_some() {
                lines.push(String::from_str(
                    "fact_boundary: last observation is not successful evidence; persona must not claim file contents or completed analysis from it.",
                ));
                assert(string_views(lines@) =~= mid + seq![
                    "fact_boundary: last observation is not successful evidence; persona must not claim file contents or completed analysis from it."@]);
            } else {
                assert(mid + Seq::<Seq<char>>::empty() =~= mid);
            }
            assert(first@ == "last_observation: tool_name="@ + o@.tool_name + " status="@ + o@.status + " target_raw="@
                + spec_target_text(o@) + " error_kind="@ + spec_error_text(o@.error_kind));
            assert(string_views(lines@) =~= head + (seq![first@,
                "fact_boundary: persona must not state literal paths, filenames, config keys, extracted values, file contents, package names, provider names, versions, or configuration values; those belong only in the main answer."@]
                + if o@.status != "succeeded"@ || o@.error_kind is Some {
                    seq!["fact_boundary: last observation is not successful evidence; persona must not claim file contents or completed analysis from it."@]
                } else {
                    Seq::<Seq<char>>::empty()
                }));
        },
        None => {
            lines.push(String::from_str("last_observation: none"));
            lines.push(String::from_str(
                "fact_boundary: no observation is available to persona; do not state literal paths, filenames, config keys, extracted values, file contents, package names, provider names, versions, or configuration values.",
            ));
            assert(string_views(lines@) =~= head + seq!["last_observation: none"@,
                "fact_boundary: no observation is available to persona; do not state literal paths, filenames, config keys, extracted values, file contents, package names, provider names, versions, or configuration values."@]);
        },
    }
    assert(head =~= seq![
        "main_runtime_status: "@ + runtime_status@,
        "detail: "@ + detail@,
        "tool_call_count: "@ + spec_decimal(active.tool_call_count as nat),
    ]);
    join_strings(&lines, "\n")
}

/// Whether a repeated approval ends the run instead of redirecting again:
/// a settled or failed duplicate after one redirect, a truncated one once
/// the repeat limit is reached.
pub open spec fn spec_finalize_duplicate(redirect: ToolLoopRepeatRedirect, count: u16, max: u16) -> bool {
    match redirect {
        ToolLoopRepeatRedirect::SettledDuplicate => count > 0,
        ToolLoopRepeatRedirect::FailedDuplicate => count > 0,
        ToolLoopRepeatRedirect::TruncatedContinuation => count >= max,
    }
}

pub fn should_finalize_duplicate_approval_redirect(
    redirect: ToolLoopRepeatRedirect,
    duplicate_redirect_count: u16,
    max_same_tool_repeats: u16,
) -> (r: bool)
    ensures
        r == spec_finalize_duplicate(redirect, duplicate_redirect_count, max_same_tool_repeats),
{
    let was_already_redirected = duplicate_redirect_count > 0;
    match redirect {
        ToolLoopRepeatRedirect::SettledDuplicate => was_already_redirected,
        ToolLoopRepeatRedirect::FailedDuplicate => was_already_redirected,
        ToolLoopRepeatRedirect::TruncatedContinuation => duplicate_redirect_count >= max_same_tool_repeats,
    }
}

/// A persona turn as a chat request: its system prompt, then its user prompt.
pub fn persona_turn_prompt_messages(prompt: PersonaTurnPrompt) -> (r: Vec<LlmMessage>)
    ensures
        r@.len() == 2,
        r@[0].turn_id@ == prompt.turn_id@ && r@[0].role is System && r@[0].visibility is Internal
            && r@[0].content@ == prompt.system_prompt@,
        r@[1].turn_id@ == prompt.turn_id@ && r@[1].role is User && r@[1].visibility is UserVisible
            && r@[1].content@ == prompt.user_prompt@,
{
    let PersonaTurnPrompt { turn_id, system_prompt, user_prompt, .. } = prompt;
    let mut r: Vec<LlmMessage> = Vec::new();
    r.push(LlmMessage {
        turn_id: turn_id.clone(),
        role: LlmMessageRole::System,
        visibility: LlmMessageVisibility::Internal,
        content: system_prompt,
    });
    r.push(LlmMessage { turn_id, role: LlmMessageRole::User, visibility: LlmMessageVisibility::UserVisible, content: user_prompt });
    r
}

/// The first result an approval interaction recorded, if any.
pub fn approval_result(events: &[ApprovalInputEvent]) -> (r: Option<ApprovalResult>)
    ensures
        match r {
            Some(result) => exists|i: int| 0 <= i < events@.len()
                && events@[i] == (ApprovalInputEvent::ResultRecorded { result })
                && forall|k: int| 0 <= k < i ==> !(#[trigger] events@[k] is ResultRecorded),
            None => forall|k: int| 0 <= k < events@.len() ==> !(#[trigger] events@[k] is ResultRecorded),
        },
{
    let mut i: usize = 0;
    while i < events.len()
        invariant
            i <= events@.len(),
            forall|k: int| 0 <= k < i ==> !(#[trigger] events@[k] is ResultRecorded),
        decreases events@.len() - i,
    {
        match &events[i] {
            ApprovalInputEvent::ResultRecorded { result } => {
                return Some(*result);
            },
            _ => {},
        }
        i = i + 1;
    }
    None
}

} // verus!
