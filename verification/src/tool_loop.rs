//! The decisions of the tool loop: what a validated runtime decision becomes,
//! what a tool candidate or an approval candidate leads to (execute, redirect,
//! finalize or stop at a limit), and the signature an approval is known by.
use vstd::prelude::*;
use crate::conversation::{should_finalize_duplicate_approval_redirect, spec_finalize_duplicate};
use crate::llm::{
    arg_views, arguments_json, spec_arguments_json, ArgView, ChangePreview, DecisionView, LlmMessage, LlmMessageRole,
    LlmMessageVisibility, PatchOperation, RuntimeDecision, RuntimeResponseParseError, ToolArgument,
};
use crate::persona::PersonaRuntimeEvent;
use crate::runtime_request::{
    apply_change_evidence_boundary, apply_final_answer_evidence_boundary, change_target_requiring_read,
    completed_tool_fallback_final_decision, spec_completed_fallback, diagnose_tool_loop_limit, duplicate_approval_final_decision, duplicate_approval_repeat_redirect,
    opt_observation_view, opt_str_ref_view, opt_string_view, repeated_completed_add_change_final_decision,
    settled_duplicate_final_decision, sig_is, spec_candidate_redirect, spec_change_boundary,
    spec_change_target_requiring_read, spec_diagnose, spec_duplicate_approval_decision, spec_final_answer_boundary,
    spec_last_where, spec_repeat_redirect, spec_repeated_add_decision, spec_settled_duplicate_decision,
    spec_clean_success, spec_is_patch, repair_request_messages, ObservationView, ToolLoopObservation,
    ActivePlainRequest, RecordView, ToolLoopExecutionRecord, ToolLoopLimitDiagnosis, ToolLoopRepeatRedirect,
};
use crate::text::{push_char, spec_trim};

verus! {

/// A decision validated against the request's evidence: `r` is the decision
/// after the final-answer boundary and then the change boundary, and a change
/// that must first read its target leaves that target pending.
pub open spec fn spec_validated(
    before: ActivePlainRequest,
    after: ActivePlainRequest,
    decision: DecisionView,
    r: DecisionView,
) -> bool {
    let bounded = spec_final_answer_boundary(
        before.records(),
        opt_observation_view(before.last_tool_observation),
        opt_observation_view(before.last_successful_tool_observation),
        opt_string_view(before.pending_change_after_read_target),
        decision,
    );
    &&& r == spec_change_boundary(before.records(), bounded)
    &&& opt_string_view(after.pending_change_after_read_target) == match spec_change_target_requiring_read(
        before.records(),
        bounded,
    ) {
        Some(t) => Some(t),
        None => opt_string_view(before.pending_change_after_read_target),
    }
    &&& after == (ActivePlainRequest { pending_change_after_read_target: after.pending_change_after_read_target, ..before })
}

/// A validated decision: the final-answer evidence boundary, then the
/// change evidence boundary. A change that must first read its target leaves
/// that target as the pending change.
pub fn validate_runtime_decision(active: &mut ActivePlainRequest, decision: RuntimeDecision) -> (r: RuntimeDecision)
    ensures
        spec_validated(*old(active), *final(active), decision@, r@),
{
    let decision = apply_final_answer_evidence_boundary(active, decision);
    if let Some(target) = change_target_requiring_read(active, &decision) {
        active.pending_change_after_read_target = Some(target);
    }
    apply_change_evidence_boundary(active, decision)
}

/// What a tool candidate leads to.
pub enum ToolCandidateStep {
    /// The loop stops: `reason` names the limit that was reached.
    LimitReached { reason: &'static str, diagnosis: ToolLoopLimitDiagnosis },
    /// The request ends with this decision, from existing observations.
    Finalize { decision: RuntimeDecision },
    /// The candidate is not run again: the model is asked to continue from
    /// this record instead.
    Redirect { redirect: ToolLoopRepeatRedirect, record: ToolLoopExecutionRecord },
    /// The candidate is executed.
    Execute,
}

/// The request with new loop counters and everything else unchanged.
pub open spec fn spec_counters_set(
    before: ActivePlainRequest,
    after: ActivePlainRequest,
    tool_call_count: u16,
    signature: Seq<char>,
    same_tool_repeat_count: u16,
    duplicate_redirect_count: u16,
) -> bool {
    &&& opt_string_view(after.last_tool_signature) == Some(signature)
    &&& after == (ActivePlainRequest {
        tool_call_count,
        last_tool_signature: after.last_tool_signature,
        same_tool_repeat_count,
        duplicate_redirect_count,
        ..before
    })
}

/// What a tool candidate with `signature` leads to, and the request after.
/// The call limit is checked first; a repeat with a redirect finalizes a
/// settled duplicate already redirected once, stops at the repeat limit, or
/// redirects; a new candidate stops past the repeat limit or is executed.
pub open spec fn spec_tool_candidate_step(
    before: ActivePlainRequest,
    after: ActivePlainRequest,
    signature: Seq<char>,
    tool_name: Seq<char>,
    path: Option<Seq<char>>,
    max_tool_calls: u16,
    max_same_tool_repeats: u16,
    r: ToolCandidateStep,
) -> bool {
    let rs = before.records();
    let last = opt_observation_view(before.last_tool_observation);
    let same = if opt_string_view(before.last_tool_signature) == Some(signature) {
        before.same_tool_repeat_count.saturating_add(1)
    } else {
        1u16
    };
    let dup = if opt_string_view(before.last_tool_signature) == Some(signature) {
        before.duplicate_redirect_count
    } else {
        0u16
    };
    if before.tool_call_count >= max_tool_calls {
        &&& r matches ToolCandidateStep::LimitReached { reason, diagnosis } && reason@ == "max_tool_calls"@
            && diagnosis == spec_diagnose("max_tool_calls"@, last)
        &&& after == before
    } else {
        match spec_candidate_redirect(rs, signature, tool_name, path) {
            Some((redirect, i)) => if redirect is SettledDuplicate && dup > 0 {
                &&& r matches ToolCandidateStep::Finalize { decision } && decision@ == spec_settled_duplicate_decision(
                    rs,
                    rs[i].observation,
                )
                &&& after == before
            } else if dup >= max_same_tool_repeats {
                &&& r matches ToolCandidateStep::LimitReached { reason, diagnosis } && reason@
                    == "max_same_tool_repeats"@ && diagnosis == spec_diagnose("max_same_tool_repeats"@, last)
                &&& after == before
            } else {
                &&& r matches ToolCandidateStep::Redirect { redirect: rd, record } && rd == redirect && record@ == rs[i]
                &&& spec_counters_set(before, after, before.tool_call_count, signature, same, dup.saturating_add(1))
            },
            None => if same > max_same_tool_repeats {
                &&& r matches ToolCandidateStep::LimitReached { reason, diagnosis } && reason@
                    == "max_same_tool_repeats"@ && diagnosis == spec_diagnose("max_same_tool_repeats"@, last)
                &&& after == before
            } else {
                &&& r is Execute
                &&& spec_counters_set(
                    before,
                    after,
                    before.tool_call_count.saturating_add(1),
                    signature,
                    same,
                    before.duplicate_redirect_count,
                )
            },
        }
    }
}

impl ActivePlainRequest {
    /// Decides what a pending tool candidate leads to and updates the loop
    /// counters accordingly.
    pub fn tool_candidate_step(
        &mut self,
        signature: &str,
        tool_name: &str,
        path_argument: Option<&str>,
        max_tool_calls: u16,
        max_same_tool_repeats: u16,
    ) -> (r: ToolCandidateStep)
        ensures
            spec_tool_candidate_step(
                *old(self),
                *final(self),
                signature@,
                tool_name@,
                opt_str_ref_view(path_argument),
                max_tool_calls,
                max_same_tool_repeats,
                r,
            ),
    {
        if self.tool_call_count >= max_tool_calls {
            let diagnosis = diagnose_tool_loop_limit("max_tool_calls", self.last_tool_observation.as_ref());
            return ToolCandidateStep::LimitReached { reason: "max_tool_calls", diagnosis };
        }
        let repeated = match &self.last_tool_signature {
            Some(s) => crate::text::str_eq(s.as_str(), signature),
            None => false,
        };
        let same_tool_repeat_count: u16 = if repeated {
            self.same_tool_repeat_count.saturating_add(1)
        } else {
            1
        };
        let found = match self.repeat_redirect_for_tool_candidate(signature, tool_name, path_argument) {
            Some((redirect, record)) => Some((redirect, record.clone())),
            None => None,
        };
        if let Some((redirect, record)) = found {
            let duplicate_redirect_count = self.duplicate_redirect_count_for_signature(signature);
            if redirect == ToolLoopRepeatRedirect::SettledDuplicate && duplicate_redirect_count > 0 {
                let decision = settled_duplicate_final_decision(self, &record);
                return ToolCandidateStep::Finalize { decision };
            }
            if duplicate_redirect_count >= max_same_tool_repeats {
                let diagnosis = diagnose_tool_loop_limit("max_same_tool_repeats", self.last_tool_observation.as_ref());
                return ToolCandidateStep::LimitReached { reason: "max_same_tool_repeats", diagnosis };
            }
            self.last_tool_signature = Some(String::from_str(signature));
            self.same_tool_repeat_count = same_tool_repeat_count;
            self.duplicate_redirect_count = duplicate_redirect_count.saturating_add(1);
            return ToolCandidateStep::Redirect { redirect, record };
        }
        if same_tool_repeat_count > max_same_tool_repeats {
            let diagnosis = diagnose_tool_loop_limit("max_same_tool_repeats", self.last_tool_observation.as_ref());
            return ToolCandidateStep::LimitReached { reason: "max_same_tool_repeats", diagnosis };
        }
        self.tool_call_count = self.tool_call_count.saturating_add(1);
        self.last_tool_signature = Some(String::from_str(signature));
        self.same_tool_repeat_count = same_tool_repeat_count;
        ToolCandidateStep::Execute
    }
}

/// What an approval candidate leads to.
pub enum ApprovalCandidateStep {
    /// The request ends with this decision, from existing observations.
    Finalize { decision: RuntimeDecision },
    /// The candidate is not approved again: the model is asked to continue
    /// from this record instead.
    Redirect { redirect: ToolLoopRepeatRedirect, record: ToolLoopExecutionRecord },
    /// The candidate goes on to the permission check.
    Proceed,
}

/// What an approval candidate known by `signature` leads to: a repeated
/// `Add File` of a completed target finalizes; a repeat with a redirect
/// finalizes once it was redirected enough, else redirects; a repeat
/// without one finalizes from its record; anything else proceeds.
pub open spec fn spec_approval_candidate_step(
    before: ActivePlainRequest,
    after: ActivePlainRequest,
    decision: DecisionView,
    signature: Seq<char>,
    max_same_tool_repeats: u16,
    r: ApprovalCandidateStep,
) -> bool {
    let rs = before.records();
    let i = spec_last_where(rs, sig_is(signature));
    let dup = if opt_string_view(before.last_tool_signature) == Some(signature) {
        before.duplicate_redirect_count
    } else {
        0u16
    };
    match spec_repeated_add_decision(rs, decision) {
        Some(d) => r matches ApprovalCandidateStep::Finalize { decision: x } && x@ == d && after == before,
        None => if i >= 0 && spec_repeat_redirect(rs[i].observation) is Some {
            let redirect = spec_repeat_redirect(rs[i].observation)->0;
            if spec_finalize_duplicate(redirect, dup, max_same_tool_repeats) {
                &&& r matches ApprovalCandidateStep::Finalize { decision: x } && Some(x@)
                    == spec_duplicate_approval_decision(rs, signature)
                &&& after == before
            } else {
                &&& r matches ApprovalCandidateStep::Redirect { redirect: rd, record } && rd == redirect && record@
                    == rs[i]
                &&& spec_counters_set(
                    before,
                    after,
                    before.tool_call_count,
                    signature,
                    before.same_tool_repeat_count,
                    dup.saturating_add(1),
                )
            }
        } else {
            match spec_duplicate_approval_decision(rs, signature) {
                Some(d) => r matches ApprovalCandidateStep::Finalize { decision: x } && x@ == d && after == before,
                None => r is Proceed && after == before,
            }
        },
    }
}

impl ActivePlainRequest {
    /// Decides what an approval candidate leads to before it is shown for
    /// approval, and counts a redirect.
    pub fn approval_candidate_step(
        &mut self,
        decision: &RuntimeDecision,
        signature: &str,
        max_same_tool_repeats: u16,
    ) -> (r: ApprovalCandidateStep)
        ensures
            spec_approval_candidate_step(*old(self), *final(self), decision@, signature@, max_same_tool_repeats, r),
    {
        if let Some(final_decision) = repeated_completed_add_change_final_decision(self, decision) {
            return ApprovalCandidateStep::Finalize { decision: final_decision };
        }
        if let Some((redirect, record)) = duplicate_approval_repeat_redirect(self, signature) {
            let duplicate_redirect_count = self.duplicate_redirect_count_for_signature(signature);
            if should_finalize_duplicate_approval_redirect(redirect, duplicate_redirect_count, max_same_tool_repeats) {
                match duplicate_approval_final_decision(self, signature) {
                    Some(final_decision) => {
                        return ApprovalCandidateStep::Finalize { decision: final_decision };
                    },
                    None => {
                        proof {
                            assert(false);
                        }
                        return ApprovalCandidateStep::Proceed;
                    },
                }
            }
            self.last_tool_signature = Some(String::from_str(signature));
            self.duplicate_redirect_count = duplicate_redirect_count.saturating_add(1);
            return ApprovalCandidateStep::Redirect { redirect, record };
        }
        match duplicate_approval_final_decision(self, signature) {
            Some(final_decision) => ApprovalCandidateStep::Finalize { decision: final_decision },
            None => ApprovalCandidateStep::Proceed,
        }
    }
}

/// The FNV-1a hash of `bytes`, 64-bit.
pub open spec fn spec_signature_hash(bytes: Seq<u8>) -> u64
    decreases bytes.len(),
{
    if bytes.len() == 0 {
        0xcbf29ce484222325u64
    } else {
        vstd::wrapping::u64_specs::wrapping_mul(
            spec_signature_hash(bytes.drop_last()) ^ (bytes.last() as u64),
            0x100000001b3u64,
        )
    }
}

/// A stable hash of a text, the same on every run and machine (FNV-1a over
/// its UTF-8 bytes).
pub fn stable_signature_hash(text: &str) -> (r: u64)
    ensures
        r == spec_signature_hash(vstd::utf8::encode_utf8(text@)),
{
    let bytes = text.as_bytes();
    let mut hash: u64 = 0xcbf29ce484222325u64;
    let mut i: usize = 0;
    while i < bytes.len()
        invariant
            i <= bytes@.len(),
            bytes@ == vstd::utf8::encode_utf8(text@),
            hash == spec_signature_hash(bytes@.subrange(0, i as int)),
        decreases bytes@.len() - i,
    {
        proof {
            assert(bytes@.subrange(0, i + 1).drop_last() =~= bytes@.subrange(0, i as int));
        }
        hash = hash ^ (bytes[i] as u64);
        hash = hash.wrapping_mul(0x100000001b3u64);
        i = i + 1;
    }
    assert(bytes@.subrange(0, bytes@.len() as int) =~= bytes@);
    hash
}

pub open spec fn spec_hex_table() -> Seq<char> {
    seq!['0', '1', '2', '3', '4', '5', '6', '7', '8', '9', 'a', 'b', 'c', 'd', 'e', 'f']
}

/// The lowercase hex digit of `d` (below 16).
pub open spec fn spec_hex_char(d: nat) -> char {
    spec_hex_table()[d as int]
}

/// The last `width` lowercase hex digits of `n`, most significant first.
pub open spec fn spec_hex_digits(n: nat, width: nat) -> Seq<char>
    decreases width,
{
    if width == 0 {
        Seq::empty()
    } else {
        spec_hex_digits(n / 16, (width - 1) as nat).push(spec_hex_char(n % 16))
    }
}

fn hex_char(d: u64) -> (r: char)
    requires
        d < 16,
    ensures
        r == spec_hex_char(d as nat),
{
    let table: [char; 16] = ['0', '1', '2', '3', '4', '5', '6', '7', '8', '9', 'a', 'b', 'c', 'd', 'e', 'f'];
    let c = table[d as usize];
    assert(table@ =~= spec_hex_table());
    c
}

/// `n` as `width` zero-padded lowercase hex digits (the low `width` digits).
pub fn hex_digits(n: u64, width: usize) -> (r: String)
    ensures
        r@ == spec_hex_digits(n as nat, width as nat),
    decreases width,
{
    if width == 0 {
        return String::new();
    }
    let mut s = hex_digits(n / 16, width - 1);
    push_char(&mut s, hex_char(n % 16));
    s
}

pub open spec fn spec_operation_name(op: PatchOperation) -> Seq<char> {
    match op {
        PatchOperation::Add => "add"@,
        PatchOperation::Update => "update"@,
        PatchOperation::Delete => "delete"@,
    }
}

pub fn operation_name(op: PatchOperation) -> (r: &'static str)
    ensures
        r@ == spec_operation_name(op),
{
    match op {
        PatchOperation::Add => "add",
        PatchOperation::Update => "update",
        PatchOperation::Delete => "delete",
    }
}

/// The signature an `apply_patch` approval is known by: its target, its
/// operation and the hash of its payload, so that the same change repeated
/// is recognized whatever its payload id.
pub open spec fn spec_change_approval_signature(target: Seq<char>, op: PatchOperation, payload_hash: u64) -> Seq<char> {
    "apply_patch:target="@ + target + ":operation="@ + spec_operation_name(op) + ":payload_hash="@
        + spec_hex_digits(payload_hash as nat, 16)
}

pub fn change_approval_signature(preview: &ChangePreview) -> (r: String)
    ensures
        r@ == spec_change_approval_signature(
            preview.target_path@,
            preview.operation,
            spec_signature_hash(vstd::utf8::encode_utf8(preview.payload_body@)),
        ),
{
    let hash = stable_signature_hash(preview.payload_body.as_str());
    String::from_str("apply_patch:target=").concat(preview.target_path.as_str()).concat(":operation=").concat(
        operation_name(preview.operation),
    ).concat(":payload_hash=").concat(hex_digits(hash, 16).as_str())
}

/// The signature a tool call is known by: its name, a colon and its
/// arguments as JSON.
pub open spec fn spec_tool_signature(tool_name: Seq<char>, args: Seq<ArgView>) -> Seq<char> {
    tool_name + ":"@ + spec_arguments_json(args)
}

pub fn tool_signature(tool_name: &str, arguments: &Vec<ToolArgument>) -> (r: String)
    ensures
        r@ == spec_tool_signature(tool_name@, arg_views(arguments@)),
{
    String::from_str(tool_name).concat(":").concat(arguments_json(arguments).as_str())
}

/// The signature an approval candidate is known by: an `apply_patch` with a
/// change preview by its change, any other approval by its tool call, and
/// anything else as `non-approval`.
pub open spec fn spec_approval_signature(d: DecisionView) -> Seq<char> {
    match d {
        DecisionView::ApprovalNeeded { tool_name, arguments, change_preview, .. } => match change_preview {
            Some(cp) => if tool_name == "apply_patch"@ {
                spec_change_approval_signature(
                    cp.target_path,
                    cp.operation,
                    spec_signature_hash(vstd::utf8::encode_utf8(cp.payload_body)),
                )
            } else {
                spec_tool_signature(tool_name, arguments)
            },
            None => spec_tool_signature(tool_name, arguments),
        },
        _ => "non-approval"@,
    }
}

pub fn approval_signature(decision: &RuntimeDecision) -> (r: String)
    ensures
        r@ == spec_approval_signature(decision@),
{
    match decision {
        RuntimeDecision::ApprovalNeeded { tool_name, arguments, change_preview, .. } => match change_preview {
            Some(preview) => if crate::text::str_eq(tool_name.as_str(), "apply_patch") {
                change_approval_signature(preview)
            } else {
                tool_signature(tool_name.as_str(), arguments)
            },
            None => tool_signature(tool_name.as_str(), arguments),
        },
        _ => String::from_str("non-approval"),
    }
}

fn clone_preview(p: &ChangePreview) -> (r: ChangePreview)
    ensures
        r@ == p@,
{
    ChangePreview {
        payload_id: p.payload_id.clone(),
        target_path: p.target_path.clone(),
        operation: p.operation,
        additions: p.additions,
        deletions: p.deletions,
        payload_body: p.payload_body.clone(),
    }
}

/// The change preview an approval candidate carries, if any.
pub fn decision_change_preview(decision: &RuntimeDecision) -> (r: Option<ChangePreview>)
    ensures
        match decision@ {
            DecisionView::ApprovalNeeded { change_preview, .. } => match change_preview {
                Some(cp) => r matches Some(p) && p@ == cp,
                None => r is None,
            },
            _ => r is None,
        },
{
    match decision {
        RuntimeDecision::ApprovalNeeded { change_preview, .. } => match change_preview {
            Some(p) => Some(clone_preview(p)),
            None => None,
        },
        _ => None,
    }
}

/// What the persona panel hears of a tool observation: a success or a
/// failure.
pub fn persona_event_for_tool_observation(observation: &ToolLoopObservation) -> (r: PersonaRuntimeEvent)
    ensures
        r == if observation@.status == "succeeded"@ {
            PersonaRuntimeEvent::ToolExecutionSucceeded
        } else {
            PersonaRuntimeEvent::ToolExecutionFailed
        },
{
    if crate::text::str_eq(observation.status, "succeeded") {
        PersonaRuntimeEvent::ToolExecutionSucceeded
    } else {
        PersonaRuntimeEvent::ToolExecutionFailed
    }
}

/// What the persona panel hears of a reply that did not parse: a JSON
/// failure as a parse failure, any other kind as a schema failure.
pub fn persona_event_for_runtime_response_parse_error(error: &RuntimeResponseParseError) -> (r: PersonaRuntimeEvent)
    ensures
        r == if error.kind@ == "json_parse_failed"@ {
            PersonaRuntimeEvent::RuntimeResponseParseFailed
        } else {
            PersonaRuntimeEvent::SchemaValidationFailed
        },
{
    if crate::text::str_eq(error.kind.as_str(), "json_parse_failed") {
        PersonaRuntimeEvent::RuntimeResponseParseFailed
    } else {
        PersonaRuntimeEvent::SchemaValidationFailed
    }
}

/// Whether a permission denial's reason is about a path outside the
/// workspace.
pub fn external_path_denial_reason(reason: &str) -> (r: bool)
    ensures
        r == (reason@ == "external_path_manual_only"@ || reason@ == "sensitive_external_path"@),
{
    crate::text::str_eq(reason, "external_path_manual_only") || crate::text::str_eq(reason, "sensitive_external_path")
}

/// Whether a failure that no observation closes is repaired or reported.
pub enum RepairDecision {
    /// The model is asked to repair its reply; this is repair `attempt`.
    Repair { attempt: u16 },
    /// The repair limit is reached: the failure is reported.
    Report { attempts: u16, max_attempts: u16 },
}

/// A failure is repaired while fewer than `max_attempts` repairs were made
/// for its source, as the next attempt; otherwise it is reported with the
/// count and the limit.
pub fn repair_or_report(attempts: u16, max_attempts: u16) -> (r: RepairDecision)
    ensures
        attempts < max_attempts ==> r == (RepairDecision::Repair { attempt: (attempts + 1) as u16 }),
        attempts >= max_attempts ==> r == (RepairDecision::Report { attempts, max_attempts }),
{
    if attempts < max_attempts {
        RepairDecision::Repair { attempt: attempts + 1 }
    } else {
        RepairDecision::Report { attempts, max_attempts }
    }
}

impl ActivePlainRequest {
    /// Starts repair `attempt` for a failure of `source`: the repair prompt
    /// joins the history as an internal system message of the current turn,
    /// and the request to send is that history without the model's own
    /// replies.
    pub fn start_repair(&mut self, source: &'static str, attempt: u16, prompt: String) -> (r: Vec<LlmMessage>)
        ensures
            final(self).history.run_id == old(self).history.run_id,
            final(self).history.messages@ == old(self).history.messages@.push(LlmMessage {
                turn_id: old(self).turn_id,
                role: LlmMessageRole::System,
                visibility: LlmMessageVisibility::Internal,
                content: prompt,
            }),
            final(self).repair_attempts == attempt,
            final(self).repair_source == Some(source),
            *final(self) == (ActivePlainRequest {
                history: final(self).history,
                repair_attempts: attempt,
                repair_source: Some(source),
                ..*old(self)
            }),
            r@ == final(self).history.messages@.filter(|m: LlmMessage| !(m.role is Assistant)),
    {
        let message = LlmMessage {
            turn_id: self.turn_id.clone(),
            role: LlmMessageRole::System,
            visibility: LlmMessageVisibility::Internal,
            content: prompt,
        };
        self.history.push(message);
        self.repair_attempts = attempt;
        self.repair_source = Some(source);
        repair_request_messages(&self.history)
    }
}

/// A candidate that repeats an executed candidate whose observation calls
/// for a redirect, or a failure of the same tool on the same path that other
/// arguments cannot change, is never executed again.
pub proof fn lemma_repeats_are_not_executed_again(
    before: ActivePlainRequest,
    after: ActivePlainRequest,
    signature: Seq<char>,
    tool_name: Seq<char>,
    path: Option<Seq<char>>,
    max_tool_calls: u16,
    max_same_tool_repeats: u16,
    r: ToolCandidateStep,
)
    requires
        spec_tool_candidate_step(before, after, signature, tool_name, path, max_tool_calls, max_same_tool_repeats, r),
        spec_candidate_redirect(before.records(), signature, tool_name, path) is Some,
    ensures
        !(r is Execute),
        after.tool_call_count == before.tool_call_count,
{
}

/// The loop never executes more tools than its call limit: a candidate is
/// executed only below the limit, and the count then grows by exactly one.
pub proof fn lemma_tool_calls_stay_within_limit(
    before: ActivePlainRequest,
    after: ActivePlainRequest,
    signature: Seq<char>,
    tool_name: Seq<char>,
    path: Option<Seq<char>>,
    max_tool_calls: u16,
    max_same_tool_repeats: u16,
    r: ToolCandidateStep,
)
    requires
        spec_tool_candidate_step(before, after, signature, tool_name, path, max_tool_calls, max_same_tool_repeats, r),
        before.tool_call_count <= max_tool_calls,
    ensures
        after.tool_call_count <= max_tool_calls,
        r is Execute ==> before.tool_call_count < max_tool_calls && after.tool_call_count == before.tool_call_count + 1,
        !(r is Execute) ==> after.tool_call_count == before.tool_call_count,
{
}

/// Redirects of one signature are bounded: a redirect happens only while
/// fewer than `max_same_tool_repeats` were made for it, so the count never
/// passes that limit.
pub proof fn lemma_redirects_stay_within_limit(
    before: ActivePlainRequest,
    after: ActivePlainRequest,
    signature: Seq<char>,
    tool_name: Seq<char>,
    path: Option<Seq<char>>,
    max_tool_calls: u16,
    max_same_tool_repeats: u16,
    r: ToolCandidateStep,
)
    requires
        spec_tool_candidate_step(before, after, signature, tool_name, path, max_tool_calls, max_same_tool_repeats, r),
        r is Redirect,
    ensures
        after.duplicate_redirect_count <= max_same_tool_repeats,
        opt_string_view(after.last_tool_signature) == Some(signature),
{
}

/// What the plain request learned from the model side.
pub enum PlainRequestEvent {
    /// No reply came within the request timeout.
    TimedOut,
    /// The request worker went away without a reply.
    ChannelClosed,
    /// The request failed; `kind` names the failure.
    RequestFailed { kind: String },
    /// The reply could not be parsed; `kind` names the parse error.
    ResponseUnparsed { kind: String },
    /// The reply resolved to a decision; an approval candidate is known by
    /// `approval_signature`.
    Decided { decision: RuntimeDecision, approval_signature: String },
}

/// What the request does next.
pub enum PlainRequestAction {
    /// The request ends with this decision, already recorded as its final
    /// response.
    Finish { decision: RuntimeDecision },
    /// No observation can close the request: the failure named `kind` is
    /// repaired or reported.
    Unresolved { kind: String },
    /// The model is asked again, from this existing record.
    Redirect { redirect: ToolLoopRepeatRedirect, record: ToolLoopExecutionRecord },
    /// The validated decision goes on to the permission check.
    Proceed { decision: RuntimeDecision },
}

/// The request's final response after `d` was recorded.
pub open spec fn spec_final_recorded(before: ActivePlainRequest, after: ActivePlainRequest, d: RuntimeDecision) -> bool {
    &&& after == (ActivePlainRequest { final_response_text: after.final_response_text, ..before })
    &&& match d {
        RuntimeDecision::Answer { summary, payload_body } => after.final_response_text matches Some(t) && t@
            == match payload_body {
            Some(p) => if spec_trim(p@).len() > 0 { summary@ + "\n\n"@ + p@ } else { summary@ },
            None => summary@,
        },
        RuntimeDecision::Clarify { message, .. } => after.final_response_text matches Some(t) && t@ == message@,
        RuntimeDecision::Blocked { message, .. } => after.final_response_text matches Some(t) && t@ == message@,
        _ => after.final_response_text == before.final_response_text,
    }
}

/// A failure closes the request from a finished tool observation when the
/// fallback rule allows it; otherwise it stays unresolved.
pub open spec fn spec_fallback_step(
    before: ActivePlainRequest,
    after: ActivePlainRequest,
    reason: Seq<char>,
    r: PlainRequestAction,
) -> bool {
    match spec_completed_fallback(
        before.records(),
        opt_observation_view(before.last_successful_tool_observation),
        opt_string_view(before.pending_change_after_read_target),
        reason,
    ) {
        Some(d) => r matches PlainRequestAction::Finish { decision } && decision@ == d && spec_final_recorded(
            before,
            after,
            decision,
        ),
        None => r matches PlainRequestAction::Unresolved { kind } && kind@ == reason && after == before,
    }
}

/// A decided reply: validated into `vd` (the request becoming `mid`); an
/// approval candidate then takes `step` (the request becoming `stepped`),
/// which finishes, redirects with the repair state reset, or proceeds.
pub open spec fn spec_decided_via(
    before: ActivePlainRequest,
    mid: ActivePlainRequest,
    vd: DecisionView,
    stepped: ActivePlainRequest,
    step: ApprovalCandidateStep,
    after: ActivePlainRequest,
    decision: DecisionView,
    signature: Seq<char>,
    max_same_tool_repeats: u16,
    r: PlainRequestAction,
) -> bool {
    &&& spec_validated(before, mid, decision, vd)
    &&& if vd is ApprovalNeeded {
        &&& spec_approval_candidate_step(mid, stepped, vd, signature, max_same_tool_repeats, step)
        &&& match step {
            ApprovalCandidateStep::Finalize { decision: d } => r == (PlainRequestAction::Finish { decision: d })
                && spec_final_recorded(stepped, after, d),
            ApprovalCandidateStep::Redirect { redirect, record } => r == (PlainRequestAction::Redirect {
                redirect,
                record,
            }) && after == (ActivePlainRequest { repair_attempts: 0, repair_source: None, ..stepped }),
            ApprovalCandidateStep::Proceed => r matches PlainRequestAction::Proceed { decision: x } && x@ == vd
                && after == stepped,
        }
    } else {
        r matches PlainRequestAction::Proceed { decision: x } && x@ == vd && after == mid
    }
}

/// What a plain request does with what the model side reported.
pub open spec fn spec_plain_request_step(
    before: ActivePlainRequest,
    after: ActivePlainRequest,
    event: PlainRequestEvent,
    max_same_tool_repeats: u16,
    r: PlainRequestAction,
) -> bool {
    match event {
        PlainRequestEvent::TimedOut => spec_fallback_step(before, after, "timeout"@, r),
        PlainRequestEvent::ChannelClosed => r matches PlainRequestAction::Unresolved { kind } && kind@
            == "runtime_channel_disconnected"@ && after == before,
        PlainRequestEvent::RequestFailed { kind } => spec_fallback_step(before, after, kind@, r),
        PlainRequestEvent::ResponseUnparsed { kind } => spec_fallback_step(before, after, kind@, r),
        PlainRequestEvent::Decided { decision, approval_signature } => exists|
            mid: ActivePlainRequest,
            vd: DecisionView,
            stepped: ActivePlainRequest,
            step: ApprovalCandidateStep,
        |
            #[trigger] spec_decided_via(
                before,
                mid,
                vd,
                stepped,
                step,
                after,
                decision@,
                approval_signature@,
                max_same_tool_repeats,
                r,
            ),
    }
}

fn fallback_step(active: &mut ActivePlainRequest, reason: String) -> (r: PlainRequestAction)
    ensures
        spec_fallback_step(*old(active), *final(active), reason@, r),
{
    match completed_tool_fallback_final_decision(active, reason.as_str()) {
        Some(decision) => {
            active.record_final_decision(&decision);
            PlainRequestAction::Finish { decision }
        },
        None => PlainRequestAction::Unresolved { kind: reason },
    }
}

impl ActivePlainRequest {
    /// Decides what the request does with what the model side reported: a
    /// timeout or a failure closes it from a finished observation when it
    /// can; a decision is validated and, as an approval candidate, may finish
    /// or redirect before it goes on.
    pub fn plain_request_step(&mut self, event: PlainRequestEvent, max_same_tool_repeats: u16) -> (r:
        PlainRequestAction)
        ensures
            spec_plain_request_step(*old(self), *final(self), event, max_same_tool_repeats, r),
    {
        match event {
            PlainRequestEvent::TimedOut => fallback_step(self, String::from_str("timeout")),
            PlainRequestEvent::ChannelClosed => PlainRequestAction::Unresolved {
                kind: String::from_str("runtime_channel_disconnected"),
            },
            PlainRequestEvent::RequestFailed { kind } => fallback_step(self, kind),
            PlainRequestEvent::ResponseUnparsed { kind } => fallback_step(self, kind),
            PlainRequestEvent::Decided { decision, approval_signature } => {
                let ghost before = *self;
                let ghost dv = decision@;
                let validated = validate_runtime_decision(self, decision);
                let ghost mid = *self;
                let ghost vd = validated@;
                let is_approval = match &validated {
                    RuntimeDecision::ApprovalNeeded { .. } => true,
                    _ => false,
                };
                if !is_approval {
                    let r = PlainRequestAction::Proceed { decision: validated };
                    assert(spec_decided_via(
                        before,
                        mid,
                        vd,
                        mid,
                        ApprovalCandidateStep::Proceed,
                        *self,
                        dv,
                        approval_signature@,
                        max_same_tool_repeats,
                        r,
                    ));
                    return r;
                }
                let step = self.approval_candidate_step(&validated, approval_signature.as_str(), max_same_tool_repeats);
                let ghost stepped = *self;
                let ghost st = step;
                let r = match step {
                    ApprovalCandidateStep::Finalize { decision } => {
                        self.record_final_decision(&decision);
                        PlainRequestAction::Finish { decision }
                    },
                    ApprovalCandidateStep::Redirect { redirect, record } => {
                        self.reset_repair_state();
                        PlainRequestAction::Redirect { redirect, record }
                    },
                    ApprovalCandidateStep::Proceed => PlainRequestAction::Proceed { decision: validated },
                };
                assert(spec_decided_via(
                    before,
                    mid,
                    vd,
                    stepped,
                    st,
                    *self,
                    dv,
                    approval_signature@,
                    max_same_tool_repeats,
                    r,
                ));
                r
            },
        }
    }
}

/// What follows a change observation recorded after its approval.
pub enum ApprovedChangeAction {
    /// The change succeeded and names a target: post-edit diagnostics run on
    /// `target_path`, and what they observe is recorded with
    /// `record_diagnostic_observation` before the model is asked again.
    RunDiagnostics { target_path: String },
    /// The model is asked to continue from the recorded observation.
    RequestFollowUp,
}

/// `after` is `before` with `message` added to the history and the
/// execution of `signature` recorded with `observation`, as
/// `record_tool_execution` records it.
pub open spec fn spec_observation_recorded(
    before: ActivePlainRequest,
    after: ActivePlainRequest,
    signature: String,
    observation: ObservationView,
    message: LlmMessage,
) -> bool {
    &&& after.history.run_id == before.history.run_id
    &&& after.history.messages@ == before.history.messages@.push(message)
    &&& after.executed_tool_signatures@ == before.executed_tool_signatures@.push(signature)
    &&& after.records() == before.records().push(RecordView { signature: signature@, observation, message })
    &&& after.duplicate_redirect_count == 0
    &&& opt_observation_view(after.last_tool_observation) == Some(observation)
    &&& opt_observation_view(after.last_successful_tool_observation) == if spec_clean_success(observation) && (
    before.last_successful_tool_observation is None || observation.preview.len() > 0) {
        Some(observation)
    } else {
        opt_observation_view(before.last_successful_tool_observation)
    }
    &&& after.pending_change_after_read_target == if spec_is_patch(observation) && spec_clean_success(observation) {
        None
    } else {
        before.pending_change_after_read_target
    }
    &&& after == (ActivePlainRequest {
        history: after.history,
        executed_tool_signatures: after.executed_tool_signatures,
        executed_tool_records: after.executed_tool_records,
        duplicate_redirect_count: 0,
        last_tool_observation: after.last_tool_observation,
        last_successful_tool_observation: after.last_successful_tool_observation,
        pending_change_after_read_target: after.pending_change_after_read_target,
        ..before
    })
}

impl ActivePlainRequest {
    /// Records the observation of an approved change: the call counts as one
    /// more tool call with `signature` as its first run, the observation
    /// message joins the history, and the execution is recorded. A change
    /// that succeeded and names a diagnostic target goes on to post-edit
    /// diagnostics; otherwise the model is asked again.
    pub fn approved_change_step(
        &mut self,
        signature: String,
        observation: ToolLoopObservation,
        message: LlmMessage,
        diagnostic_target: Option<String>,
    ) -> (r: ApprovedChangeAction)
        ensures
            final(self).tool_call_count == old(self).tool_call_count.saturating_add(1),
            opt_string_view(final(self).last_tool_signature) == Some(signature@),
            final(self).same_tool_repeat_count == 1,
            spec_observation_recorded(
                ActivePlainRequest {
                    tool_call_count: final(self).tool_call_count,
                    last_tool_signature: final(self).last_tool_signature,
                    same_tool_repeat_count: 1,
                    ..*old(self)
                },
                *final(self),
                signature,
                observation@,
                message,
            ),
            match diagnostic_target {
                Some(t) => if observation@.status == "succeeded"@ {
                    r matches ApprovedChangeAction::RunDiagnostics { target_path } && target_path == t
                } else {
                    r is RequestFollowUp
                },
                None => r is RequestFollowUp,
            },
    {
        self.tool_call_count = self.tool_call_count.saturating_add(1);
        self.last_tool_signature = Some(signature.clone());
        self.same_tool_repeat_count = 1;
        let succeeded = crate::text::str_eq(observation.status, "succeeded");
        self.record_diagnostic_observation(signature, observation, message);
        match diagnostic_target {
            Some(target_path) => if succeeded {
                ApprovedChangeAction::RunDiagnostics { target_path }
            } else {
                ApprovedChangeAction::RequestFollowUp
            },
            None => ApprovedChangeAction::RequestFollowUp,
        }
    }

    /// Records an observation that comes with its own history message, such
    /// as that of post-edit diagnostics: the message joins the history and
    /// the execution of `signature` is recorded.
    pub fn record_diagnostic_observation(&mut self, signature: String, observation: ToolLoopObservation, message: LlmMessage)
        ensures
            spec_observation_recorded(*old(self), *final(self), signature, observation@, message),
    {
        self.history.push(message.clone());
        self.record_tool_execution(signature, observation, message);
    }
}

/// An answer that a plain request lets go on is the model's own answer, and
/// when tools ran it is backed by evidence: some observation showed
/// something, no failed change is left unresolved, no prerequisite read waits
/// for its change, and no failed direct read still lacks the file's content.
pub proof fn lemma_proceeding_answer_is_backed(
    before: ActivePlainRequest,
    after: ActivePlainRequest,
    decision: RuntimeDecision,
    approval_signature: String,
    max_same_tool_repeats: u16,
    r: PlainRequestAction,
)
    requires
        spec_plain_request_step(
            before,
            after,
            PlainRequestEvent::Decided { decision, approval_signature },
            max_same_tool_repeats,
            r,
        ),
        r matches PlainRequestAction::Proceed { decision: x } && x@ is Answer,
    ensures
        r matches PlainRequestAction::Proceed { decision: x } && x@ == decision@,
        before.records().len() > 0 ==> {
            let rs = before.records();
            &&& crate::runtime_request::spec_has_informative(rs)
            &&& crate::runtime_request::spec_unresolved_change(rs, rs.len() as int) < 0
            &&& before.pending_change_after_read_target is None
            &&& !crate::runtime_request::spec_needs_file_content(rs)
        },
{
    let (mid, vd, stepped, step) = choose|
        mid: ActivePlainRequest,
        vd: DecisionView,
        stepped: ActivePlainRequest,
        step: ApprovalCandidateStep,
    |
        #[trigger] spec_decided_via(
            before,
            mid,
            vd,
            stepped,
            step,
            after,
            decision@,
            approval_signature@,
            max_same_tool_repeats,
            r,
        );
    let rs = before.records();
    let last = opt_observation_view(before.last_tool_observation);
    let last_success = opt_observation_view(before.last_successful_tool_observation);
    let pending = opt_string_view(before.pending_change_after_read_target);
    let bounded = spec_final_answer_boundary(rs, last, last_success, pending, decision@);
    crate::runtime_request::lemma_change_boundary_only_inserts_reads(rs, bounded);
    crate::runtime_request::lemma_answer_passes_only_with_evidence(rs, last, last_success, pending, decision@);
}

} // verus!
