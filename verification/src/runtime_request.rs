//! The state of one plain runtime request and the rules that guard how it may
//! finish: which repeated tool candidates are redirected, when an answer is
//! blocked for want of evidence, and what the next request to the model says.
use vstd::prelude::*;
use crate::llm::{
    arg_views, clone_messages, number_arg, text_arg, Activity, ArgValueView, ArgView, ChangePreview,
    DecisionView, LlmMessage, LlmMessageRole, LlmMessageVisibility, MessageHistory, PatchOperation,
    PreviewView, RuntimeDecision, ToolArgValue, ToolArgument,
};
use crate::command::lemma_filter_step;
use crate::text::{
    after_last, contains_char, join_strings, spec_after_last, spec_join, spec_lines, spec_split_once,
    spec_starts_with, spec_strip_prefix, spec_trim, spec_zero_padded, split_lines, split_once, str_eq,
    string_views, strip_prefix, trim, zero_padded,
};

verus! {

/// The most recent executed observations carried into a follow-up request.
pub const RECENT_TOOL_OBSERVATION_LIMIT: usize = 4;
/// The shortest chat timeout the runtime allows a local model.
pub const MIN_LOCAL_CHAT_TIMEOUT_MS: u64 = 180_000;

/// What a tool execution showed, as the tool loop keeps it.
#[derive(Debug, PartialEq, Eq)]
pub struct ToolLoopObservation {
    pub tool_name: String,
    pub target_raw: Option<String>,
    pub status: &'static str,
    pub error_kind: Option<&'static str>,
    pub truncated: bool,
    pub source_truncated: bool,
    pub preview_truncated: bool,
    pub has_next_range_hint: bool,
    pub preview: Vec<String>,
}

pub struct ObservationView {
    pub tool_name: Seq<char>,
    pub target: Option<Seq<char>>,
    pub status: Seq<char>,
    pub error_kind: Option<Seq<char>>,
    pub truncated: bool,
    pub source_truncated: bool,
    pub preview_truncated: bool,
    pub has_next_range_hint: bool,
    pub preview: Seq<Seq<char>>,
}

pub open spec fn opt_string_view(o: Option<String>) -> Option<Seq<char>> {
    match o {
        Some(s) => Some(s@),
        None => None,
    }
}

pub open spec fn opt_str_view(o: Option<&'static str>) -> Option<Seq<char>> {
    match o {
        Some(s) => Some(s@),
        None => None,
    }
}

impl View for ToolLoopObservation {
    type V = ObservationView;

    open spec fn view(&self) -> ObservationView {
        ObservationView {
            tool_name: self.tool_name@,
            target: opt_string_view(self.target_raw),
            status: self.status@,
            error_kind: opt_str_view(self.error_kind),
            truncated: self.truncated,
            source_truncated: self.source_truncated,
            preview_truncated: self.preview_truncated,
            has_next_range_hint: self.has_next_range_hint,
            preview: string_views(self.preview@),
        }
    }
}

fn clone_opt_string(o: &Option<String>) -> (r: Option<String>)
    ensures
        r == *o,
{
    match o {
        Some(s) => Some(s.clone()),
        None => None,
    }
}

fn clone_strings(v: &Vec<String>) -> (r: Vec<String>)
    ensures
        r@ == v@,
{
    let r = v.clone();
    assert forall|i: int| 0 <= i < v@.len() implies r@[i] == v@[i] by {
        assert(cloned::<String>(v@[i], r@[i]));
    }
    assert(r@ =~= v@);
    r
}

impl Clone for ToolLoopObservation {
    fn clone(&self) -> (r: Self)
        ensures
            r@ == self@,
    {
        ToolLoopObservation {
            tool_name: self.tool_name.clone(),
            target_raw: clone_opt_string(&self.target_raw),
            status: self.status,
            error_kind: self.error_kind,
            truncated: self.truncated,
            source_truncated: self.source_truncated,
            preview_truncated: self.preview_truncated,
            has_next_range_hint: self.has_next_range_hint,
            preview: clone_strings(&self.preview),
        }
    }
}

/// `"succeeded"` without an error kind.
pub open spec fn spec_clean_success(o: ObservationView) -> bool {
    o.status == "succeeded"@ && o.error_kind is None
}

pub open spec fn spec_is_failed(o: ObservationView) -> bool {
    o.status == "failed"@ || o.error_kind is Some
}

/// A clean success that shows something.
pub open spec fn spec_informative(o: ObservationView) -> bool {
    spec_clean_success(o) && o.preview.len() > 0
}

pub open spec fn spec_settled(o: ObservationView) -> bool {
    spec_clean_success(o) && !o.truncated && !o.source_truncated && !o.preview_truncated && !o.has_next_range_hint
}

pub open spec fn spec_truncated_continuation(o: ObservationView) -> bool {
    spec_clean_success(o) && (o.truncated || o.source_truncated || o.preview_truncated || o.has_next_range_hint)
}

/// Failures about the path itself.
pub open spec fn spec_path_failure(kind: Option<Seq<char>>) -> bool {
    kind == Some("path_not_found"@) || kind == Some("not_a_file"@) || kind == Some("not_a_directory"@)
}

/// Failures that repeat for the same target whatever the other arguments.
pub open spec fn spec_target_invariant_failure(kind: Option<Seq<char>>) -> bool {
    spec_path_failure(kind) || kind == Some("path_outside_workspace"@)
}

pub open spec fn spec_is_read(o: ObservationView) -> bool {
    o.tool_name == "read_file"@
}

pub open spec fn spec_is_patch(o: ObservationView) -> bool {
    o.tool_name == "apply_patch"@
}

pub open spec fn spec_is_discovery(o: ObservationView) -> bool {
    o.tool_name == "list_files"@ || o.tool_name == "search_text"@
}

/// How a repeated tool candidate is redirected.
#[derive(Clone, Copy, Debug, PartialEq, Eq, Structural)]
pub enum ToolLoopRepeatRedirect {
    SettledDuplicate,
    TruncatedContinuation,
    FailedDuplicate,
}

impl ToolLoopRepeatRedirect {
    pub open spec fn spec_as_str(self) -> Seq<char> {
        match self {
            ToolLoopRepeatRedirect::SettledDuplicate => "settled_duplicate_tool_candidate"@,
            ToolLoopRepeatRedirect::TruncatedContinuation => "truncated_duplicate_tool_candidate"@,
            ToolLoopRepeatRedirect::FailedDuplicate => "failed_duplicate_tool_candidate"@,
        }
    }

    pub fn as_str(self) -> (r: &'static str)
        ensures
            r@ == self.spec_as_str(),
    {
        match self {
            ToolLoopRepeatRedirect::SettledDuplicate => "settled_duplicate_tool_candidate",
            ToolLoopRepeatRedirect::TruncatedContinuation => "truncated_duplicate_tool_candidate",
            ToolLoopRepeatRedirect::FailedDuplicate => "failed_duplicate_tool_candidate",
        }
    }
}

/// The redirect a repeat of this observation's candidate gets, if any.
pub open spec fn spec_repeat_redirect(o: ObservationView) -> Option<ToolLoopRepeatRedirect> {
    if spec_settled(o) {
        Some(ToolLoopRepeatRedirect::SettledDuplicate)
    } else if spec_truncated_continuation(o) {
        Some(ToolLoopRepeatRedirect::TruncatedContinuation)
    } else if spec_is_failed(o) {
        Some(ToolLoopRepeatRedirect::FailedDuplicate)
    } else {
        None
    }
}

fn opt_str_is(o: Option<&'static str>, value: &str) -> (r: bool)
    ensures
        r == (opt_str_view(o) == Some(value@)),
{
    match o {
        Some(s) => str_eq(s, value),
        None => false,
    }
}

fn opt_string_is(o: &Option<String>, value: &str) -> (r: bool)
    ensures
        r == (opt_string_view(*o) == Some(value@)),
{
    match o {
        Some(s) => str_eq(s.as_str(), value),
        None => false,
    }
}

fn path_failure(kind: Option<&'static str>) -> (r: bool)
    ensures
        r == spec_path_failure(opt_str_view(kind)),
{
    opt_str_is(kind, "path_not_found") || opt_str_is(kind, "not_a_file") || opt_str_is(kind, "not_a_directory")
}

impl ToolLoopObservation {
    pub fn is_clean_success(&self) -> (r: bool)
        ensures
            r == spec_clean_success(self@),
    {
        str_eq(self.status, "succeeded") && self.error_kind.is_none()
    }

    pub fn is_failed(&self) -> (r: bool)
        ensures
            r == spec_is_failed(self@),
    {
        str_eq(self.status, "failed") || self.error_kind.is_some()
    }

    pub fn is_informative(&self) -> (r: bool)
        ensures
            r == spec_informative(self@),
    {
        self.is_clean_success() && self.preview.len() > 0
    }

    pub fn is_settled_success(&self) -> (r: bool)
        ensures
            r == spec_settled(self@),
    {
        self.is_clean_success() && !self.truncated && !self.source_truncated && !self.preview_truncated
            && !self.has_next_range_hint
    }

    pub fn is_truncated_continuation(&self) -> (r: bool)
        ensures
            r == spec_truncated_continuation(self@),
    {
        self.is_clean_success() && (self.truncated || self.source_truncated || self.preview_truncated
            || self.has_next_range_hint)
    }

    pub fn repeat_redirect(&self) -> (r: Option<ToolLoopRepeatRedirect>)
        ensures
            r == spec_repeat_redirect(self@),
    {
        if self.is_settled_success() {
            Some(ToolLoopRepeatRedirect::SettledDuplicate)
        } else if self.is_truncated_continuation() {
            Some(ToolLoopRepeatRedirect::TruncatedContinuation)
        } else if self.is_failed() {
            Some(ToolLoopRepeatRedirect::FailedDuplicate)
        } else {
            None
        }
    }

    pub fn is_read(&self) -> (r: bool)
        ensures
            r == spec_is_read(self@),
    {
        str_eq(self.tool_name.as_str(), "read_file")
    }

    pub fn is_patch(&self) -> (r: bool)
        ensures
            r == spec_is_patch(self@),
    {
        str_eq(self.tool_name.as_str(), "apply_patch")
    }

    pub fn is_discovery(&self) -> (r: bool)
        ensures
            r == spec_is_discovery(self@),
    {
        str_eq(self.tool_name.as_str(), "list_files") || str_eq(self.tool_name.as_str(), "search_text")
    }

    /// The same tool against the same target failed in a way that other
    /// arguments cannot change.
    pub fn matches_repeat_failure_target(&self, tool_name: &str, target_raw: &str) -> (r: bool)
        ensures
            r == (self@.tool_name == tool_name@ && self@.target == Some(target_raw@)
                && spec_target_invariant_failure(self@.error_kind)),
    {
        str_eq(self.tool_name.as_str(), tool_name) && opt_string_is(&self.target_raw, target_raw) && (
        path_failure(self.error_kind) || opt_str_is(self.error_kind, "path_outside_workspace"))
    }
}

/// One executed tool candidate and what it showed.
#[derive(Debug, PartialEq, Eq)]
pub struct ToolLoopExecutionRecord {
    pub signature: String,
    pub observation: ToolLoopObservation,
    pub observation_message: LlmMessage,
}

pub struct RecordView {
    pub signature: Seq<char>,
    pub observation: ObservationView,
    pub message: LlmMessage,
}

impl View for ToolLoopExecutionRecord {
    type V = RecordView;

    open spec fn view(&self) -> RecordView {
        RecordView { signature: self.signature@, observation: self.observation@, message: self.observation_message }
    }
}

impl Clone for ToolLoopExecutionRecord {
    fn clone(&self) -> (r: Self)
        ensures
            r@ == self@,
    {
        ToolLoopExecutionRecord {
            signature: self.signature.clone(),
            observation: self.observation.clone(),
            observation_message: self.observation_message.clone(),
        }
    }
}

pub open spec fn record_views(s: Seq<ToolLoopExecutionRecord>) -> Seq<RecordView> {
    s.map_values(|r: ToolLoopExecutionRecord| r@)
}

/// Index of the last element satisfying `p`, or -1.
pub open spec fn spec_last_where<T>(s: Seq<T>, p: spec_fn(T) -> bool) -> int
    decreases s.len(),
{
    if s.len() == 0 {
        -1
    } else if p(s.last()) {
        s.len() - 1
    } else {
        spec_last_where(s.drop_last(), p)
    }
}

pub proof fn lemma_last_where<T>(s: Seq<T>, p: spec_fn(T) -> bool, r: int)
    requires
        -1 <= r < s.len(),
        forall|k: int| r < k < s.len() ==> !p(#[trigger] s[k]),
        r >= 0 ==> p(s[r]),
    ensures
        spec_last_where(s, p) == r,
    decreases s.len(),
{
    if s.len() > 0 && r < s.len() - 1 {
        assert(!p(s[s.len() - 1]));
        assert forall|k: int| r < k < s.drop_last().len() implies !p(#[trigger] s.drop_last()[k]) by {
            assert(s.drop_last()[k] == s[k]);
        }
        lemma_last_where(s.drop_last(), p, r);
    }
}


pub open spec fn sig_is(sig: Seq<char>) -> spec_fn(RecordView) -> bool {
    |r: RecordView| r.signature == sig
}

pub open spec fn failure_target_is(tool: Seq<char>, target: Seq<char>) -> spec_fn(RecordView) -> bool {
    |r: RecordView| r.observation.tool_name == tool && r.observation.target == Some(target)
        && spec_target_invariant_failure(r.observation.error_kind)
}

/// Index of the last record executed with `signature`.
fn last_with_signature(records: &Vec<ToolLoopExecutionRecord>, signature: &str) -> (r: Option<usize>)
    ensures
        match r {
            Some(i) => i == spec_last_where(record_views(records@), sig_is(signature@)) && i < records@.len(),
            None => spec_last_where(record_views(records@), sig_is(signature@)) == -1,
        },
{
    let ghost rs = record_views(records@);
    let mut i: usize = records.len();
    while i > 0
        invariant
            rs == record_views(records@),
            i <= records@.len(),
            forall|k: int| i <= k < records@.len() ==> !sig_is(signature@)(#[trigger] rs[k]),
        decreases i,
    {
        if str_eq(records[i - 1].signature.as_str(), signature) {
            proof { lemma_last_where(rs, sig_is(signature@), i - 1); }
            return Some(i - 1);
        }
        i = i - 1;
    }
    proof { lemma_last_where(rs, sig_is(signature@), -1); }
    None
}

/// The redirect a repeated tool candidate gets, with the index of the record
/// it rests on: the latest record of the same signature when that record has
/// a redirect; otherwise, given a path, the latest failure of the same tool on
/// that path which other arguments cannot change, as a failed duplicate.
pub open spec fn spec_candidate_redirect(
    rs: Seq<RecordView>,
    signature: Seq<char>,
    tool_name: Seq<char>,
    path: Option<Seq<char>>,
) -> Option<(ToolLoopRepeatRedirect, int)> {
    let i = spec_last_where(rs, sig_is(signature));
    if i >= 0 && spec_repeat_redirect(rs[i].observation) is Some {
        Some((spec_repeat_redirect(rs[i].observation)->0, i))
    } else {
        match path {
            None => None,
            Some(p) => {
                let j = spec_last_where(rs, failure_target_is(tool_name, p));
                if j >= 0 {
                    Some((ToolLoopRepeatRedirect::FailedDuplicate, j))
                } else {
                    None
                }
            },
        }
    }
}

pub open spec fn opt_str_ref_view(o: Option<&str>) -> Option<Seq<char>> {
    match o {
        Some(s) => Some(s@),
        None => None,
    }
}

/// The live state of one plain request: its messages, its repair attempts and
/// what its tool loop has executed and seen.
pub struct ActivePlainRequest {
    pub run_id: String,
    pub turn_id: String,
    pub prompt: String,
    pub schema_message: LlmMessage,
    pub user_message: LlmMessage,
    pub history: MessageHistory,
    pub persona_context_start: usize,
    pub cancelled: bool,
    pub repair_attempts: u16,
    pub repair_source: Option<&'static str>,
    pub tool_call_count: u16,
    pub last_tool_signature: Option<String>,
    pub executed_tool_signatures: Vec<String>,
    pub executed_tool_records: Vec<ToolLoopExecutionRecord>,
    pub same_tool_repeat_count: u16,
    pub duplicate_redirect_count: u16,
    pub last_tool_observation: Option<ToolLoopObservation>,
    pub last_successful_tool_observation: Option<ToolLoopObservation>,
    pub pending_change_after_read_target: Option<String>,
    pub final_response_text: Option<String>,
}

pub open spec fn opt_observation_view(o: Option<ToolLoopObservation>) -> Option<ObservationView> {
    match o {
        Some(x) => Some(x@),
        None => None,
    }
}

impl ActivePlainRequest {
    pub open spec fn records(&self) -> Seq<RecordView> {
        record_views(self.executed_tool_records@)
    }

    /// A request that has executed nothing yet.
    pub fn new(
        run_id: String,
        turn_id: String,
        prompt: String,
        schema_message: LlmMessage,
        user_message: LlmMessage,
        history: MessageHistory,
        persona_context_start: usize,
    ) -> (r: Self)
        ensures
            r.run_id == run_id && r.turn_id == turn_id && r.prompt == prompt,
            r.schema_message == schema_message && r.user_message == user_message,
            r.history == history,
            r.persona_context_start == persona_context_start,
            !r.cancelled,
            r.repair_attempts == 0 && r.repair_source is None,
            r.tool_call_count == 0 && r.last_tool_signature is None,
            r.executed_tool_signatures@.len() == 0 && r.executed_tool_records@.len() == 0,
            r.same_tool_repeat_count == 0 && r.duplicate_redirect_count == 0,
            r.last_tool_observation is None && r.last_successful_tool_observation is None,
            r.pending_change_after_read_target is None && r.final_response_text is None,
    {
        ActivePlainRequest {
            run_id,
            turn_id,
            prompt,
            schema_message,
            user_message,
            history,
            persona_context_start,
            cancelled: false,
            repair_attempts: 0,
            repair_source: None,
            tool_call_count: 0,
            last_tool_signature: None,
            executed_tool_signatures: Vec::new(),
            executed_tool_records: Vec::new(),
            same_tool_repeat_count: 0,
            duplicate_redirect_count: 0,
            last_tool_observation: None,
            last_successful_tool_observation: None,
            pending_change_after_read_target: None,
            final_response_text: None,
        }
    }

    /// Repair attempts made so far for `source`, or none when the last
    /// repair was for another source.
    pub fn repair_attempts_for_source(&self, source: &str) -> (r: u16)
        ensures
            r == if opt_str_view(self.repair_source) == Some(source@) { self.repair_attempts } else { 0 },
    {
        if opt_str_is(self.repair_source, source) {
            self.repair_attempts
        } else {
            0
        }
    }

    pub fn reset_repair_state(&mut self)
        ensures
            final(self).repair_attempts == 0,
            final(self).repair_source is None,
            final(self).executed_tool_records == old(self).executed_tool_records,
            final(self).tool_call_count == old(self).tool_call_count,
            *final(self) == (ActivePlainRequest { repair_attempts: 0, repair_source: None, ..*old(self) }),
    {
        self.repair_attempts = 0;
        self.repair_source = None;
    }

    /// Records an executed tool candidate: its signature, the record, and
    /// which observations now count as the latest and latest successful.
    pub fn record_tool_execution(&mut self, signature: String, observation: ToolLoopObservation, observation_message: LlmMessage)
        ensures
            final(self).executed_tool_signatures@ == old(self).executed_tool_signatures@.push(signature),
            final(self).records() == old(self).records().push(RecordView {
                signature: signature@,
                observation: observation@,
                message: observation_message,
            }),
            final(self).duplicate_redirect_count == 0,
            opt_observation_view(final(self).last_tool_observation) == Some(observation@),
            opt_observation_view(final(self).last_successful_tool_observation) == if spec_clean_success(observation@)
                && (old(self).last_successful_tool_observation is None || observation@.preview.len() > 0) {
                Some(observation@)
            } else {
                opt_observation_view(old(self).last_successful_tool_observation)
            },
            final(self).pending_change_after_read_target == if spec_is_patch(observation@) && spec_clean_success(observation@) {
                None
            } else {
                old(self).pending_change_after_read_target
            },
            final(self).final_response_text == old(self).final_response_text,
            final(self).last_tool_signature == old(self).last_tool_signature,
            final(self).tool_call_count == old(self).tool_call_count,
            final(self).schema_message == old(self).schema_message,
            final(self).user_message == old(self).user_message,
            *final(self) == (ActivePlainRequest {
                executed_tool_signatures: final(self).executed_tool_signatures,
                executed_tool_records: final(self).executed_tool_records,
                duplicate_redirect_count: 0,
                last_tool_observation: final(self).last_tool_observation,
                last_successful_tool_observation: final(self).last_successful_tool_observation,
                pending_change_after_read_target: final(self).pending_change_after_read_target,
                ..*old(self)
            }),
    {
        let sig_copy = signature.clone();
        self.executed_tool_signatures.push(sig_copy);
        let clean = observation.is_clean_success();
        let patch = observation.is_patch();
        let has_preview = observation.preview.len() > 0;
        let ghost before = self.executed_tool_records@;
        let record = ToolLoopExecutionRecord {
            signature,
            observation: observation.clone(),
            observation_message,
        };
        self.executed_tool_records.push(record);
        assert(record_views(self.executed_tool_records@) =~= record_views(before).push(record@));
        self.duplicate_redirect_count = 0;
        if clean && (self.last_successful_tool_observation.is_none() || has_preview) {
            self.last_successful_tool_observation = Some(observation.clone());
        }
        if patch && clean {
            self.pending_change_after_read_target = None;
        }
        self.last_tool_observation = Some(observation);
    }

    /// Keeps the text of a final decision: an answer's summary with its
    /// non-blank payload, or a clarification's or block's message.
    pub fn record_final_decision(&mut self, decision: &RuntimeDecision)
        ensures
            match decision {
                RuntimeDecision::Answer { summary, payload_body } => final(self).final_response_text matches Some(t)
                    && t@ == match payload_body {
                        Some(p) => if spec_trim(p@).len() > 0 { summary@ + "\n\n"@ + p@ } else { summary@ },
                        None => summary@,
                    },
                RuntimeDecision::Clarify { message, .. } => final(self).final_response_text matches Some(t) && t@ == message@,
                RuntimeDecision::Blocked { message, .. } => final(self).final_response_text matches Some(t) && t@ == message@,
                _ => final(self).final_response_text == old(self).final_response_text,
            },
            final(self).executed_tool_records == old(self).executed_tool_records,
            *final(self) == (ActivePlainRequest { final_response_text: final(self).final_response_text, ..*old(self) }),
    {
        match decision {
            RuntimeDecision::Answer { summary, payload_body } => {
                let text = match payload_body {
                    Some(payload) => {
                        if trim(payload.as_str()).as_str().unicode_len() > 0 {
                            summary.clone().concat("\n\n").concat(payload.as_str())
                        } else {
                            summary.clone()
                        }
                    },
                    None => summary.clone(),
                };
                self.final_response_text = Some(text);
            },
            RuntimeDecision::Clarify { message, .. } => {
                self.final_response_text = Some(message.clone());
            },
            RuntimeDecision::Blocked { message, .. } => {
                self.final_response_text = Some(message.clone());
            },
            RuntimeDecision::PlanCandidate { .. } => {},
            RuntimeDecision::ToolCandidatePending { .. } => {},
            RuntimeDecision::ApprovalNeeded { .. } => {},
        }
    }

    /// How a repeat of a tool candidate is redirected: by the latest record
    /// of the same signature when that one has a redirect, otherwise as a
    /// failed duplicate when the same tool already failed on the same path in
    /// a way other arguments cannot change.
    pub fn repeat_redirect_for_tool_candidate(
        &self,
        signature: &str,
        tool_name: &str,
        path_argument: Option<&str>,
    ) -> (r: Option<(ToolLoopRepeatRedirect, &ToolLoopExecutionRecord)>)
        ensures
            match spec_candidate_redirect(self.records(), signature@, tool_name@, opt_str_ref_view(path_argument)) {
                Some((redirect, i)) => r matches Some((rd, record)) && rd == redirect && record@ == self.records()[i],
                None => r is None,
            },
    {
        let ghost rs = self.records();
        let exact = last_with_signature(&self.executed_tool_records, signature);
        match exact {
            Some(i) => {
                let record = &self.executed_tool_records[i];
                assert(rs[i as int] == record@);
                match record.observation.repeat_redirect() {
                    Some(redirect) => {
                        return Some((redirect, record));
                    },
                    None => {},
                }
            },
            None => {},
        }
        proof {
            let i = spec_last_where(rs, sig_is(signature@));
            assert(!(i >= 0 && spec_repeat_redirect(rs[i].observation) is Some));
        }
        let path = match path_argument {
            Some(p) => p,
            None => return None,
        };
        let mut k: usize = self.executed_tool_records.len();
        while k > 0
            invariant
                rs == record_views(self.executed_tool_records@),
                rs == self.records(),
                path_argument == Some(path),
                k <= self.executed_tool_records@.len(),
                !(spec_last_where(rs, sig_is(signature@)) >= 0
                    && spec_repeat_redirect(rs[spec_last_where(rs, sig_is(signature@))].observation) is Some),
                forall|m: int| k <= m < self.executed_tool_records@.len()
                    ==> !failure_target_is(tool_name@, path@)(#[trigger] rs[m]),
            decreases k,
        {
            let record = &self.executed_tool_records[k - 1];
            assert(rs[k - 1] == record@);
            if record.observation.matches_repeat_failure_target(tool_name, path) {
                proof { lemma_last_where(rs, failure_target_is(tool_name@, path@), k - 1); }
                return Some((ToolLoopRepeatRedirect::FailedDuplicate, record));
            }
            k = k - 1;
        }
        proof { lemma_last_where(rs, failure_target_is(tool_name@, path@), -1); }
        None
    }

    /// Redirects counted for `signature` when it was the last one redirected.
    pub fn duplicate_redirect_count_for_signature(&self, signature: &str) -> (r: u16)
        ensures
            r == if opt_string_view(self.last_tool_signature) == Some(signature@) { self.duplicate_redirect_count } else { 0 },
    {
        if opt_string_is(&self.last_tool_signature, signature) {
            self.duplicate_redirect_count
        } else {
            0
        }
    }
}

/// The chat timeout: the configured command timeout, never below
/// `MIN_LOCAL_CHAT_TIMEOUT_MS` (milliseconds).
pub fn effective_chat_timeout_ms(command_timeout_ms: u32) -> (r: u64)
    ensures
        r == if command_timeout_ms as u64 > MIN_LOCAL_CHAT_TIMEOUT_MS { command_timeout_ms as u64 } else { MIN_LOCAL_CHAT_TIMEOUT_MS },
{
    let configured = command_timeout_ms as u64;
    if configured > MIN_LOCAL_CHAT_TIMEOUT_MS { configured } else { MIN_LOCAL_CHAT_TIMEOUT_MS }
}

/// `run-NNNN` from the counter, which then advances.
pub fn next_run_id(next_run_index: &mut u64) -> (r: String)
    requires
        *old(next_run_index) < u64::MAX,
    ensures
        r@ == "run-"@ + spec_zero_padded(*old(next_run_index) as nat, 4),
        *final(next_run_index) == *old(next_run_index) + 1,
{
    let id = String::from_str("run-").concat(zero_padded(*next_run_index, 4).as_str());
    *next_run_index = *next_run_index + 1;
    id
}


pub proof fn lemma_last_where_sound<T>(s: Seq<T>, p: spec_fn(T) -> bool)
    ensures
        -1 <= spec_last_where(s, p) < s.len(),
        spec_last_where(s, p) >= 0 ==> p(s[spec_last_where(s, p)]),
        forall|k: int| spec_last_where(s, p) < k < s.len() ==> !p(#[trigger] s[k]),
    decreases s.len(),
{
    if s.len() > 0 && !p(s.last()) {
        lemma_last_where_sound(s.drop_last(), p);
        assert forall|k: int| spec_last_where(s, p) < k < s.len() implies !p(#[trigger] s[k]) by {
            if k < s.len() - 1 {
                assert(s[k] == s.drop_last()[k]);
            }
        }
    }
}

/// A `list_files` preview line names a file: not blank, not `.`, not a directory.
pub open spec fn spec_list_files_candidate(line: Seq<char>) -> Option<Seq<char>> {
    let path = spec_trim(line);
    if path.len() == 0 || path == "."@ || path.last() == '/' { None } else { Some(path) }
}

/// A `search_text` match line `path:line:text` names its path.
pub open spec fn spec_search_text_candidate(line: Seq<char>) -> Option<Seq<char>> {
    match spec_split_once(line, ':') {
        Some((path, rest)) => if spec_trim(path).len() == 0 || spec_split_once(rest, ':') is None {
            None
        } else {
            Some(spec_trim(path))
        },
        None => None,
    }
}

/// A failed `read_file` preview line `candidate_path: p` names `p`.
pub open spec fn spec_read_failure_candidate(line: Seq<char>) -> Option<Seq<char>> {
    match spec_strip_prefix(spec_trim(line), "candidate_path:"@) {
        Some(rest) => if spec_trim(rest).len() > 0 { Some(spec_trim(rest)) } else { None },
        None => None,
    }
}

/// The file a preview line of `tool` names, if any.
pub open spec fn spec_line_candidate(tool: Seq<char>, line: Seq<char>) -> Option<Seq<char>> {
    if tool == "list_files"@ {
        spec_list_files_candidate(line)
    } else if tool == "search_text"@ {
        spec_search_text_candidate(line)
    } else if tool == "read_file"@ {
        spec_read_failure_candidate(line)
    } else {
        None
    }
}

fn list_files_candidate_path(line: &str) -> (r: Option<String>)
    ensures
        match spec_list_files_candidate(line@) {
            Some(p) => r matches Some(x) && x@ == p,
            None => r is None,
        },
{
    let path = trim(line);
    let n = path.as_str().unicode_len();
    if n == 0 || str_eq(path.as_str(), ".") || path.as_str().get_char(n - 1) == '/' {
        return None;
    }
    Some(path)
}

fn search_text_candidate_path(line: &str) -> (r: Option<String>)
    ensures
        match spec_search_text_candidate(line@) {
            Some(p) => r matches Some(x) && x@ == p,
            None => r is None,
        },
{
    let (path, rest) = match split_once(line, ':') {
        Some(parts) => parts,
        None => return None,
    };
    let trimmed = trim(path.as_str());
    if trimmed.as_str().unicode_len() == 0 {
        return None;
    }
    match split_once(rest.as_str(), ':') {
        Some(_) => Some(trimmed),
        None => None,
    }
}

fn read_file_failure_candidate_path(line: &str) -> (r: Option<String>)
    ensures
        match spec_read_failure_candidate(line@) {
            Some(p) => r matches Some(x) && x@ == p,
            None => r is None,
        },
{
    let trimmed = trim(line);
    let rest = match strip_prefix(trimmed.as_str(), "candidate_path:") {
        Some(r) => r,
        None => return None,
    };
    let path = trim(rest.as_str());
    if path.as_str().unicode_len() > 0 { Some(path) } else { None }
}

fn line_candidate(tool: &str, line: &str) -> (r: Option<String>)
    ensures
        match spec_line_candidate(tool@, line@) {
            Some(p) => r matches Some(x) && x@ == p,
            None => r is None,
        },
{
    if str_eq(tool, "list_files") {
        list_files_candidate_path(line)
    } else if str_eq(tool, "search_text") {
        search_text_candidate_path(line)
    } else if str_eq(tool, "read_file") {
        read_file_failure_candidate_path(line)
    } else {
        None
    }
}

/// The file name a failed read target stands for: its last path segment,
/// or the whole target when that segment is empty.
pub open spec fn spec_failed_name(failed_target: Seq<char>) -> Seq<char> {
    let name = spec_after_last(failed_target, '/');
    if name.len() > 0 { name } else { failed_target }
}

/// A candidate matches a failed read target by path or by file name.
pub open spec fn spec_candidate_matches(candidate: Seq<char>, failed_target: Seq<char>) -> bool {
    candidate == failed_target || spec_after_last(candidate, '/') == spec_failed_name(failed_target)
}

pub fn candidate_matches_failed_read_target(candidate: &str, failed_target: &str) -> (r: bool)
    ensures
        r == spec_candidate_matches(candidate@, failed_target@),
{
    if str_eq(candidate, failed_target) {
        return true;
    }
    let name = after_last(failed_target, '/');
    let failed_name = if name.as_str().unicode_len() > 0 { name } else { String::from_str(failed_target) };
    let candidate_name = after_last(candidate, '/');
    str_eq(candidate_name.as_str(), failed_name.as_str())
}

/// The matching candidates of a preview, in order and without repeats.
pub open spec fn spec_candidates(tool: Seq<char>, lines: Seq<Seq<char>>, failed_target: Seq<char>) -> Seq<Seq<char>>
    decreases lines.len(),
{
    if lines.len() == 0 {
        Seq::empty()
    } else {
        let prev = spec_candidates(tool, lines.drop_last(), failed_target);
        match spec_line_candidate(tool, lines.last()) {
            Some(c) => if spec_candidate_matches(c, failed_target) && !prev.contains(c) { prev.push(c) } else { prev },
            None => prev,
        }
    }
}

fn contains_string(v: &Vec<String>, s: &String) -> (r: bool)
    ensures
        r == string_views(v@).contains(s@),
{
    let mut i: usize = 0;
    while i < v.len()
        invariant
            i <= v@.len(),
            forall|k: int| 0 <= k < i ==> v@[k]@ != s@,
        decreases v@.len() - i,
    {
        if str_eq(v[i].as_str(), s.as_str()) {
            assert(string_views(v@)[i as int] == s@);
            return true;
        }
        i = i + 1;
    }
    assert forall|k: int| 0 <= k < string_views(v@).len() implies string_views(v@)[k] != s@ by {
        assert(string_views(v@)[k] == v@[k]@);
    }
    false
}

/// The preview's file candidates that match the failed read target.
pub fn read_file_candidates_from_observation(observation: &ToolLoopObservation, failed_target: &str) -> (r: Vec<String>)
    ensures
        string_views(r@) == spec_candidates(observation@.tool_name, observation@.preview, failed_target@),
{
    let mut matches: Vec<String> = Vec::new();
    let mut i: usize = 0;
    let ghost lines = observation@.preview;
    while i < observation.preview.len()
        invariant
            lines == string_views(observation.preview@),
            i <= observation.preview@.len(),
            string_views(matches@) == spec_candidates(observation@.tool_name, lines.subrange(0, i as int), failed_target@),
        decreases observation.preview@.len() - i,
    {
        proof {
            assert(lines.subrange(0, i + 1).drop_last() =~= lines.subrange(0, i as int));
            assert(lines.subrange(0, i + 1).last() == observation.preview@[i as int]@);
        }
        let candidate = line_candidate(observation.tool_name.as_str(), observation.preview[i].as_str());
        match candidate {
            Some(c) => {
                if candidate_matches_failed_read_target(c.as_str(), failed_target) && !contains_string(&matches, &c) {
                    let ghost before = string_views(matches@);
                    let ghost cv = c@;
                    matches.push(c);
                    assert(string_views(matches@) =~= before.push(cv));
                }
            },
            None => {},
        }
        i = i + 1;
    }
    assert(lines.subrange(0, i as int) =~= lines);
    matches
}

/// The target of an observation as shown in messages (`-` when none).
pub open spec fn spec_target_text(o: ObservationView) -> Seq<char> {
    match o.target {
        Some(t) => t,
        None => "-"@,
    }
}

fn target_text(o: &ToolLoopObservation) -> (r: &str)
    ensures
        r@ == spec_target_text(o@),
{
    match &o.target_raw {
        Some(t) => t.as_str(),
        None => "-",
    }
}

/// An observation as an answer payload: tool, target, status, and at most
/// 80 preview lines (with `...` when more were seen).
pub open spec fn spec_observation_payload(o: ObservationView) -> Seq<char> {
    let shown = if o.preview.len() > 80 { o.preview.take(80) } else { o.preview };
    let more: Seq<Seq<char>> = if o.preview.len() > 80 { seq!["..."@] } else { Seq::empty() };
    spec_join(
        seq!["tool: "@ + o.tool_name, "target: "@ + spec_target_text(o), "status: "@ + o.status, "preview:"@] + shown + more,
        "\n"@,
    )
}

pub fn observation_payload(o: &ToolLoopObservation) -> (r: String)
    ensures
        r@ == spec_observation_payload(o@),
{
    let mut lines: Vec<String> = Vec::new();
    lines.push(String::from_str("tool: ").concat(o.tool_name.as_str()));
    lines.push(String::from_str("target: ").concat(target_text(o)));
    lines.push(String::from_str("status: ").concat(o.status));
    lines.push(String::from_str("preview:"));
    let ghost head = string_views(lines@);
    let n = if o.preview.len() > 80 { 80 } else { o.preview.len() };
    let mut i: usize = 0;
    while i < n
        invariant
            n <= o.preview@.len(),
            i <= n,
            string_views(lines@) == head + o@.preview.take(i as int),
        decreases n - i,
    {
        let ghost before = string_views(lines@);
        lines.push(o.preview[i].clone());
        assert(string_views(lines@) =~= before.push(o.preview@[i as int]@));
        assert(o@.preview.take(i + 1) =~= o@.preview.take(i as int).push(o.preview@[i as int]@));
        i = i + 1;
    }
    if o.preview.len() > 80 {
        let ghost before = string_views(lines@);
        lines.push(String::from_str("..."));
        assert(string_views(lines@) =~= before.push("..."@));
    }
    proof {
        assert(o@.preview.take(o@.preview.len() as int) =~= o@.preview);
        assert(string_views(lines@) =~= seq!["tool: "@ + o@.tool_name, "target: "@ + spec_target_text(o@),
            "status: "@ + o@.status, "preview:"@] + (if o@.preview.len() > 80 { o@.preview.take(80) } else { o@.preview })
            + (if o@.preview.len() > 80 { seq!["..."@] } else { Seq::<Seq<char>>::empty() }));
    }
    join_strings(&lines, "\n")
}


/// A direct read that failed on its path.
pub open spec fn is_failed_read(r: RecordView) -> bool {
    spec_is_read(r.observation) && spec_is_failed(r.observation) && spec_path_failure(r.observation.error_kind)
}

pub open spec fn is_failed_read_with_target(r: RecordView) -> bool {
    is_failed_read(r) && r.observation.target is Some
}

pub open spec fn is_informative_read(r: RecordView) -> bool {
    spec_is_read(r.observation) && spec_informative(r.observation)
}

pub open spec fn is_informative_discovery(r: RecordView) -> bool {
    spec_is_discovery(r.observation) && spec_informative(r.observation)
}

/// Some record after index `i` satisfies `p`.
pub open spec fn spec_exists_after(rs: Seq<RecordView>, i: int, p: spec_fn(RecordView) -> bool) -> bool {
    exists|j: int| i < j < rs.len() && #[trigger] p(rs[j])
}

/// After the latest failed direct read, discovery found candidates but no
/// read has shown file content yet.
pub open spec fn spec_needs_file_content(rs: Seq<RecordView>) -> bool {
    let i = spec_last_where(rs, |r: RecordView| is_failed_read(r));
    i >= 0 && spec_exists_after(rs, i, |r: RecordView| is_informative_discovery(r))
        && !spec_exists_after(rs, i, |r: RecordView| is_informative_read(r))
}

/// The latest failed direct read with a target: that target, whether
/// discovery succeeded after it, and whether a read succeeded after it.
pub open spec fn spec_failed_read_state(rs: Seq<RecordView>) -> Option<(Seq<char>, bool, bool)> {
    let i = spec_last_where(rs, |r: RecordView| is_failed_read_with_target(r));
    if i < 0 {
        None
    } else {
        Some((
            rs[i].observation.target->0,
            spec_exists_after(rs, i, |r: RecordView| is_informative_discovery(r)),
            spec_exists_after(rs, i, |r: RecordView| is_informative_read(r)),
        ))
    }
}

/// A failed change that a later successful change of the same target resolves.
pub open spec fn is_failed_change(r: RecordView) -> bool {
    spec_is_patch(r.observation) && !spec_clean_success(r.observation) && spec_is_failed(r.observation)
}

pub open spec fn resolves(later: RecordView, failed: RecordView) -> bool {
    spec_is_patch(later.observation) && spec_clean_success(later.observation) && later.observation.target is Some
        && failed.observation.target == later.observation.target
}

pub open spec fn is_unresolved_failed_change(rs: Seq<RecordView>, i: int) -> bool {
    is_failed_change(rs[i]) && !(exists|j: int| i < j < rs.len() && #[trigger] resolves(rs[j], rs[i]))
}

/// Index of the latest failed change no later success resolved, or -1.
pub open spec fn spec_unresolved_change(rs: Seq<RecordView>, n: int) -> int
    decreases n,
{
    if n <= 0 {
        -1
    } else if is_unresolved_failed_change(rs, n - 1) {
        n - 1
    } else {
        spec_unresolved_change(rs, n - 1)
    }
}

pub open spec fn spec_has_informative(rs: Seq<RecordView>) -> bool {
    exists|j: int| 0 <= j < rs.len() && spec_informative(#[trigger] rs[j].observation)
}

/// Index of the last record satisfying `p`, scanning down from `n`.
fn exists_after(records: &Vec<ToolLoopExecutionRecord>, i: usize, read: bool) -> (r: bool)
    requires
        i < records@.len(),
    ensures
        read ==> r == spec_exists_after(record_views(records@), i as int, |r: RecordView| is_informative_read(r)),
        !read ==> r == spec_exists_after(record_views(records@), i as int, |r: RecordView| is_informative_discovery(r)),
{
    let ghost rs = record_views(records@);
    let ghost p = if read { |r: RecordView| is_informative_read(r) } else { |r: RecordView| is_informative_discovery(r) };
    let n = records.len();
    let mut j: usize = i + 1;
    while j < records.len()
        invariant
            rs == record_views(records@),
            i < j <= records@.len(),
            p == if read { |r: RecordView| is_informative_read(r) } else { |r: RecordView| is_informative_discovery(r) },
            forall|k: int| i < k < j ==> !p(#[trigger] rs[k]),
        decreases records@.len() - j,
    {
        let o = &records[j].observation;
        let hit = if read { o.is_read() && o.is_informative() } else { o.is_discovery() && o.is_informative() };
        assert(rs[j as int].observation == o@);
        if hit {
            assert(p(rs[j as int]));
            return true;
        }
        j = j + 1;
    }
    false
}

fn last_failed_read(records: &Vec<ToolLoopExecutionRecord>, with_target: bool) -> (r: Option<usize>)
    ensures
        with_target ==> match r {
            Some(i) => i == spec_last_where(record_views(records@), |r: RecordView| is_failed_read_with_target(r)) && i < records@.len(),
            None => spec_last_where(record_views(records@), |r: RecordView| is_failed_read_with_target(r)) == -1,
        },
        !with_target ==> match r {
            Some(i) => i == spec_last_where(record_views(records@), |r: RecordView| is_failed_read(r)) && i < records@.len(),
            None => spec_last_where(record_views(records@), |r: RecordView| is_failed_read(r)) == -1,
        },
{
    let ghost rs = record_views(records@);
    let ghost p = if with_target { |r: RecordView| is_failed_read_with_target(r) } else { |r: RecordView| is_failed_read(r) };
    let mut i: usize = records.len();
    while i > 0
        invariant
            rs == record_views(records@),
            i <= records@.len(),
            p == if with_target { |r: RecordView| is_failed_read_with_target(r) } else { |r: RecordView| is_failed_read(r) },
            forall|k: int| i <= k < records@.len() ==> !p(#[trigger] rs[k]),
        decreases i,
    {
        let o = &records[i - 1].observation;
        assert(rs[i - 1].observation == o@);
        let hit = o.is_read() && o.is_failed() && path_failure(o.error_kind) && (!with_target || o.target_raw.is_some());
        if hit {
            proof { lemma_last_where(rs, p, i - 1); }
            return Some(i - 1);
        }
        i = i - 1;
    }
    proof { lemma_last_where(rs, p, -1); }
    None
}

/// Whether the latest failed direct read still lacks file content after a
/// discovery found candidates.
pub fn read_recovery_needs_file_content(active: &ActivePlainRequest) -> (r: bool)
    ensures
        r == spec_needs_file_content(active.records()),
{
    match last_failed_read(&active.executed_tool_records, false) {
        Some(i) => exists_after(&active.executed_tool_records, i, false)
            && !exists_after(&active.executed_tool_records, i, true),
        None => false,
    }
}

/// The recovery state after the latest failed direct read, if any.
pub struct FailedReadRecoveryState {
    pub failed_target: String,
    pub discovery_succeeded_after_failure: bool,
    pub read_succeeded_after_failure: bool,
}

pub fn latest_failed_read_recovery_state(active: &ActivePlainRequest) -> (r: Option<FailedReadRecoveryState>)
    ensures
        match spec_failed_read_state(active.records()) {
            Some((target, discovery, read)) => r matches Some(st) && st.failed_target@ == target
                && st.discovery_succeeded_after_failure == discovery && st.read_succeeded_after_failure == read,
            None => r is None,
        },
{
    let i = match last_failed_read(&active.executed_tool_records, true) {
        Some(i) => i,
        None => return None,
    };
    proof {
        lemma_last_where_sound(active.records(), |r: RecordView| is_failed_read_with_target(r));
        assert(active.records()[i as int].observation == active.executed_tool_records@[i as int].observation@);
    }
    let target = match &active.executed_tool_records[i].observation.target_raw {
        Some(t) => t.clone(),
        None => return None,
    };
    Some(FailedReadRecoveryState {
        failed_target: target,
        discovery_succeeded_after_failure: exists_after(&active.executed_tool_records, i, false),
        read_succeeded_after_failure: exists_after(&active.executed_tool_records, i, true),
    })
}

/// The latest failed change that no later success on its target resolved.
pub fn unresolved_failed_change_observation(active: &ActivePlainRequest) -> (r: Option<&ToolLoopObservation>)
    ensures
        ({
            let rs = active.records();
            let i = spec_unresolved_change(rs, rs.len() as int);
            if i >= 0 { r matches Some(o) && o@ == rs[i].observation && 0 <= i < rs.len() } else { r is None }
        }),
{
    let records = &active.executed_tool_records;
    let ghost rs = record_views(records@);
    let n = records.len();
    let mut i: usize = n;
    while i > 0
        invariant
            rs == record_views(records@),
            rs == active.records(),
            n == records@.len(),
            i <= n,
            spec_unresolved_change(rs, n as int) == spec_unresolved_change(rs, i as int),
        decreases i,
    {
        let failed = &records[i - 1].observation;
        assert(rs[i - 1].observation == failed@);
        if failed.is_patch() && !failed.is_clean_success() && failed.is_failed() {
            let mut resolved = false;
            let mut j: usize = i;
            while j < n
                invariant
                    rs == record_views(records@),
                    n == records@.len(),
                    i <= j <= n,
                    rs[i - 1].observation == failed@,
                    resolved == exists|k: int| i <= k < j && #[trigger] resolves(rs[k], rs[i - 1]),
                decreases n - j,
            {
                let later = &records[j].observation;
                assert(rs[j as int].observation == later@);
                let same_target = match (&later.target_raw, &failed.target_raw) {
                    (Some(a), Some(b)) => str_eq(a.as_str(), b.as_str()),
                    _ => false,
                };
                if later.is_patch() && later.is_clean_success() && same_target {
                    assert(resolves(rs[j as int], rs[i - 1]));
                    resolved = true;
                }
                j = j + 1;
            }
            if !resolved {
                assert(is_unresolved_failed_change(rs, i - 1));
                return Some(failed);
            }
        }
        i = i - 1;
    }
    None
}

pub fn has_informative_successful_observation(active: &ActivePlainRequest) -> (r: bool)
    ensures
        r == spec_has_informative(active.records()),
{
    let ghost rs = active.records();
    let mut i: usize = 0;
    while i < active.executed_tool_records.len()
        invariant
            rs == active.records(),
            i <= active.executed_tool_records@.len(),
            forall|k: int| 0 <= k < i ==> !spec_informative(#[trigger] rs[k].observation),
        decreases active.executed_tool_records@.len() - i,
    {
        assert(rs[i as int].observation == active.executed_tool_records@[i as int].observation@);
        if active.executed_tool_records[i].observation.is_informative() {
            return true;
        }
        i = i + 1;
    }
    false
}


pub open spec fn spec_requires_content(o: ObservationView) -> DecisionView {
    DecisionView::Blocked {
        message: "파일 경로 후보는 발견했지만 파일 내용을 아직 읽지 않았습니다. 발견 관측만으로 파일 내용 기반 답변을 할 수 없습니다. next_required_tool: read_file, last_tool: "@
            + o.tool_name + ", target: "@ + spec_target_text(o),
        reason: "answer_without_file_content_after_read_recovery"@,
    }
}

fn read_recovery_requires_content_decision(o: &ToolLoopObservation) -> (r: RuntimeDecision)
    ensures
        r@ == spec_requires_content(o@),
{
    RuntimeDecision::Blocked {
        message: String::from_str(
            "파일 경로 후보는 발견했지만 파일 내용을 아직 읽지 않았습니다. 발견 관측만으로 파일 내용 기반 답변을 할 수 없습니다. next_required_tool: read_file, last_tool: ",
        ).concat(o.tool_name.as_str()).concat(", target: ").concat(target_text(o)),
        reason: String::from_str("answer_without_file_content_after_read_recovery"),
    }
}

/// `read_file` of the first 120 lines of `path`.
pub open spec fn spec_read_args(path: Seq<char>) -> Seq<ArgView> {
    seq![
        ArgView { name: "path"@, value: ArgValueView::Text(path) },
        ArgView { name: "start_line"@, value: ArgValueView::Number(1) },
        ArgView { name: "max_lines"@, value: ArgValueView::Number(120) },
    ]
}

fn read_args(path: &str) -> (r: Vec<ToolArgument>)
    ensures
        arg_views(r@) == spec_read_args(path@),
{
    let mut args: Vec<ToolArgument> = Vec::new();
    args.push(text_arg("path", path));
    args.push(number_arg("start_line", 1));
    args.push(number_arg("max_lines", 120));
    assert(arg_views(args@) =~= spec_read_args(path@));
    args
}

pub open spec fn spec_candidate_line(p: Seq<char>) -> Seq<char> {
    "- "@ + p
}

/// The decision a preview's matching candidates lead to: read the single
/// one, or ask which of several to read.
pub open spec fn spec_candidate_decision(o: ObservationView, failed_target: Seq<char>) -> Option<DecisionView> {
    let c = spec_candidates(o.tool_name, o.preview, failed_target);
    if c.len() == 0 {
        None
    } else if c.len() == 1 {
        Some(DecisionView::ToolCandidatePending {
            activity: Activity::Explore,
            tool_name: "read_file"@,
            arguments: spec_read_args(c[0]),
            summary: "Read the discovered file candidate before answering from file contents."@,
        })
    } else {
        Some(DecisionView::Clarify {
            message: "같은 요청에 맞는 파일 후보가 여러 개라 임의로 선택하지 않습니다. 읽을 파일을 하나로 지정해 주세요.\n"@
                + spec_join(c.map_values(|p: Seq<char>| spec_candidate_line(p)), "\n"@),
            reason: "multiple_read_file_candidates"@,
        })
    }
}

pub fn read_file_candidate_decision(o: &ToolLoopObservation, failed_target: &str) -> (r: Option<RuntimeDecision>)
    ensures
        match spec_candidate_decision(o@, failed_target@) {
            Some(d) => r matches Some(x) && x@ == d,
            None => r is None,
        },
{
    let candidates = read_file_candidates_from_observation(o, failed_target);
    let ghost c = string_views(candidates@);
    if candidates.len() == 0 {
        return None;
    }
    if candidates.len() == 1 {
        return Some(RuntimeDecision::ToolCandidatePending {
            activity: Activity::Explore,
            tool_name: String::from_str("read_file"),
            arguments: read_args(candidates[0].as_str()),
            summary: String::from_str("Read the discovered file candidate before answering from file contents."),
        });
    }
    let mut lines: Vec<String> = Vec::new();
    let mut i: usize = 0;
    while i < candidates.len()
        invariant
            c == string_views(candidates@),
            i <= candidates@.len(),
            string_views(lines@) == c.take(i as int).map_values(|p: Seq<char>| spec_candidate_line(p)),
        decreases candidates@.len() - i,
    {
        let ghost before = string_views(lines@);
        let line = String::from_str("- ").concat(candidates[i].as_str());
        lines.push(line);
        assert(string_views(lines@) =~= before.push(line@));
        assert(c.take(i + 1).map_values(|p: Seq<char>| spec_candidate_line(p))
            =~= c.take(i as int).map_values(|p: Seq<char>| spec_candidate_line(p)).push(spec_candidate_line(c[i as int])));
        i = i + 1;
    }
    assert(c.take(i as int) =~= c);
    Some(RuntimeDecision::Clarify {
        message: String::from_str(
            "같은 요청에 맞는 파일 후보가 여러 개라 임의로 선택하지 않습니다. 읽을 파일을 하나로 지정해 주세요.\n",
        ).concat(join_strings(&lines, "\n").as_str()),
        reason: String::from_str("multiple_read_file_candidates"),
    })
}

pub open spec fn spec_discover_decision() -> DecisionView {
    DecisionView::ToolCandidatePending {
        activity: Activity::Explore,
        tool_name: "list_files"@,
        arguments: seq![
            ArgView { name: "path"@, value: ArgValueView::Text("."@) },
            ArgView { name: "max_depth"@, value: ArgValueView::Number(3) },
            ArgView { name: "max_entries"@, value: ArgValueView::Number(160) },
        ],
        summary: "Discover workspace file candidates after the direct read path failed."@,
    }
}

fn discover_decision() -> (r: RuntimeDecision)
    ensures
        r@ == spec_discover_decision(),
{
    let mut args: Vec<ToolArgument> = Vec::new();
    args.push(text_arg("path", "."));
    args.push(number_arg("max_depth", 3));
    args.push(number_arg("max_entries", 160));
    let r = RuntimeDecision::ToolCandidatePending {
        activity: Activity::Explore,
        tool_name: String::from_str("list_files"),
        arguments: args,
        summary: String::from_str("Discover workspace file candidates after the direct read path failed."),
    };
    assert(arg_views(args@) =~= seq![
        ArgView { name: "path"@, value: ArgValueView::Text("."@) },
        ArgView { name: "max_depth"@, value: ArgValueView::Number(3) },
        ArgView { name: "max_entries"@, value: ArgValueView::Number(160) },
    ]);
    r
}

/// After a failed direct read that no read has recovered: read the matching
/// candidate the latest observation shows, or ask which one, or discover
/// candidates first. Tool and approval decisions pass through.
pub open spec fn spec_read_recovery(rs: Seq<RecordView>, last: Option<ObservationView>, d: DecisionView) -> Option<DecisionView> {
    if d is ToolCandidatePending || d is ApprovalNeeded {
        None
    } else {
        match spec_failed_read_state(rs) {
            None => None,
            Some((target, discovery, read)) => if read {
                None
            } else {
                let from_last = match last {
                    Some(o) => if spec_is_read(o) && spec_is_failed(o) && spec_candidate_decision(o, target) is Some {
                        spec_candidate_decision(o, target)
                    } else if discovery && spec_is_discovery(o) && spec_clean_success(o) {
                        spec_candidate_decision(o, target)
                    } else {
                        None
                    },
                    None => None,
                };
                if from_last is Some {
                    from_last
                } else if !discovery {
                    Some(spec_discover_decision())
                } else {
                    None
                }
            },
        }
    }
}

fn read_recovery_next_tool_decision(active: &ActivePlainRequest, decision: &RuntimeDecision) -> (r: Option<RuntimeDecision>)
    ensures
        match spec_read_recovery(active.records(), opt_observation_view(active.last_tool_observation), decision@) {
            Some(d) => r matches Some(x) && x@ == d,
            None => r is None,
        },
{
    match decision {
        RuntimeDecision::ToolCandidatePending { .. } => return None,
        RuntimeDecision::ApprovalNeeded { .. } => return None,
        _ => {},
    }
    let state = match latest_failed_read_recovery_state(active) {
        Some(s) => s,
        None => return None,
    };
    if state.read_succeeded_after_failure {
        return None;
    }
    if let Some(o) = &active.last_tool_observation {
        if o.is_read() && o.is_failed() {
            if let Some(d) = read_file_candidate_decision(o, state.failed_target.as_str()) {
                return Some(d);
            }
        }
        if state.discovery_succeeded_after_failure && o.is_discovery() && o.is_clean_success() {
            if let Some(d) = read_file_candidate_decision(o, state.failed_target.as_str()) {
                return Some(d);
            }
        }
    }
    if !state.discovery_succeeded_after_failure {
        return Some(discover_decision());
    }
    None
}

pub open spec fn spec_last_tool_text(last: Option<ObservationView>) -> Seq<char> {
    match last {
        Some(o) => "last_tool: "@ + o.tool_name + " target: "@ + spec_target_text(o) + " status: "@ + o.status,
        None => "last_tool: none"@,
    }
}

/// What an answer may become once the evidence is weighed: it stands only
/// when some executed tool showed something, no failed change is left
/// unresolved, no prerequisite read waits for its change, and no failed
/// direct read still lacks the file's content.
pub open spec fn spec_final_answer_boundary(
    rs: Seq<RecordView>,
    last: Option<ObservationView>,
    last_success: Option<ObservationView>,
    pending_change: Option<Seq<char>>,
    d: DecisionView,
) -> DecisionView {
    match spec_read_recovery(rs, last, d) {
        Some(x) => x,
        None => if !(d is Answer) || rs.len() == 0 {
            d
        } else if spec_needs_file_content(rs) {
            match if last is Some { last } else { last_success } {
                Some(o) => spec_requires_content(o),
                None => DecisionView::Blocked {
                    message: "파일 경로 복구가 끝나지 않아 파일 내용 근거 없이 답변할 수 없습니다."@,
                    reason: "answer_without_file_content_after_read_recovery"@,
                },
            }
        } else if spec_unresolved_change(rs, rs.len() as int) >= 0 {
            let o = rs[spec_unresolved_change(rs, rs.len() as int)].observation;
            DecisionView::Blocked {
                message: "파일 변경 도구가 실패했고 이후 성공한 변경 관측이 없어 완료 답변을 할 수 없습니다. next_required_tool: apply_patch, failed_tool: "@
                    + o.tool_name + ", target: "@ + spec_target_text(o),
                reason: "answer_after_failed_change_without_success"@,
            }
        } else if pending_change is Some {
            DecisionView::Blocked {
                message: "변경 전 읽기는 성공했지만 아직 파일 변경 관측이 없어 완료 답변을 할 수 없습니다. next_required_tool: apply_patch, target: "@
                    + pending_change->0,
                reason: "answer_after_prerequisite_read_without_change"@,
            }
        } else if spec_has_informative(rs) {
            d
        } else {
            DecisionView::Blocked {
                message: "도구를 실행했지만 답변 근거가 되는 관측 내용이 없습니다. "@ + spec_last_tool_text(last),
                reason: "answer_without_observation_evidence"@,
            }
        },
    }
}

pub fn apply_final_answer_evidence_boundary(active: &ActivePlainRequest, decision: RuntimeDecision) -> (r: RuntimeDecision)
    ensures
        r@ == spec_final_answer_boundary(
            active.records(),
            opt_observation_view(active.last_tool_observation),
            opt_observation_view(active.last_successful_tool_observation),
            opt_string_view(active.pending_change_after_read_target),
            decision@,
        ),
{
    if let Some(recovery) = read_recovery_next_tool_decision(active, &decision) {
        return recovery;
    }
    let is_answer = match &decision {
        RuntimeDecision::Answer { .. } => true,
        _ => false,
    };
    if !is_answer || active.executed_tool_records.len() == 0 {
        return decision;
    }
    if read_recovery_needs_file_content(active) {
        let observation = match &active.last_tool_observation {
            Some(o) => Some(o),
            None => active.last_successful_tool_observation.as_ref(),
        };
        return match observation {
            Some(o) => read_recovery_requires_content_decision(o),
            None => RuntimeDecision::Blocked {
                message: String::from_str("파일 경로 복구가 끝나지 않아 파일 내용 근거 없이 답변할 수 없습니다."),
                reason: String::from_str("answer_without_file_content_after_read_recovery"),
            },
        };
    }
    if let Some(o) = unresolved_failed_change_observation(active) {
        return RuntimeDecision::Blocked {
            message: String::from_str(
                "파일 변경 도구가 실패했고 이후 성공한 변경 관측이 없어 완료 답변을 할 수 없습니다. next_required_tool: apply_patch, failed_tool: ",
            ).concat(o.tool_name.as_str()).concat(", target: ").concat(target_text(o)),
            reason: String::from_str("answer_after_failed_change_without_success"),
        };
    }
    if let Some(target) = &active.pending_change_after_read_target {
        return RuntimeDecision::Blocked {
            message: String::from_str(
                "변경 전 읽기는 성공했지만 아직 파일 변경 관측이 없어 완료 답변을 할 수 없습니다. next_required_tool: apply_patch, target: ",
            ).concat(target.as_str()),
            reason: String::from_str("answer_after_prerequisite_read_without_change"),
        };
    }
    if has_informative_successful_observation(active) {
        return decision;
    }
    let last_text = match &active.last_tool_observation {
        Some(o) => String::from_str("last_tool: ").concat(o.tool_name.as_str()).concat(" target: ").concat(
            target_text(o),
        ).concat(" status: ").concat(o.status),
        None => String::from_str("last_tool: none"),
    };
    RuntimeDecision::Blocked {
        message: String::from_str("도구를 실행했지만 답변 근거가 되는 관측 내용이 없습니다. ").concat(last_text.as_str()),
        reason: String::from_str("answer_without_observation_evidence"),
    }
}


/// The observation a settled duplicate is answered from: its own when it
/// shows something, else the latest informative one, else its own.
pub open spec fn spec_best_settled(rs: Seq<RecordView>, own: ObservationView) -> ObservationView {
    if own.preview.len() > 0 {
        own
    } else {
        let i = spec_last_where(rs, |r: RecordView| spec_informative(r.observation));
        if i >= 0 { rs[i].observation } else { own }
    }
}

fn best_settled_duplicate_observation<'a>(
    active: &'a ActivePlainRequest,
    execution_record: &'a ToolLoopExecutionRecord,
) -> (r: &'a ToolLoopObservation)
    ensures
        r@ == spec_best_settled(active.records(), execution_record.observation@),
{
    if execution_record.observation.preview.len() > 0 {
        return &execution_record.observation;
    }
    let ghost rs = active.records();
    let ghost p = |r: RecordView| spec_informative(r.observation);
    let mut i: usize = active.executed_tool_records.len();
    while i > 0
        invariant
            rs == active.records(),
            p == (|r: RecordView| spec_informative(r.observation)),
            execution_record.observation@.preview.len() == 0,
            i <= active.executed_tool_records@.len(),
            forall|k: int| i <= k < active.executed_tool_records@.len() ==> !p(#[trigger] rs[k]),
        decreases i,
    {
        let o = &active.executed_tool_records[i - 1].observation;
        assert(rs[i - 1].observation == o@);
        if o.is_informative() {
            proof { lemma_last_where(rs, p, i - 1); }
            return o;
        }
        i = i - 1;
    }
    proof { lemma_last_where(rs, p, -1); }
    &execution_record.observation
}

/// How a repeat of an already settled tool candidate ends: blocked while a
/// failed read still lacks file content (unless the evidence is itself a
/// read), blocked when the evidence shows nothing, else answered from it.
pub open spec fn spec_settled_duplicate_decision(rs: Seq<RecordView>, own: ObservationView) -> DecisionView {
    let o = spec_best_settled(rs, own);
    if spec_needs_file_content(rs) && o.tool_name != "read_file"@ {
        spec_requires_content(o)
    } else if o.preview.len() == 0 {
        DecisionView::Blocked {
            message: "동일한 도구 후보가 반복됐지만 기존 관측에 답변 근거가 없습니다. tool: "@ + o.tool_name + ", target: "@
                + spec_target_text(o),
            reason: "settled_duplicate_without_evidence"@,
        }
    } else {
        DecisionView::Answer {
            summary: "동일한 도구 후보가 이미 성공한 관측 이후 반복되어 추가 도구 호출 없이 기존 관측으로 마무리합니다."@,
            payload_body: Some(spec_observation_payload(o)),
        }
    }
}

pub fn settled_duplicate_final_decision(active: &ActivePlainRequest, execution_record: &ToolLoopExecutionRecord) -> (r: RuntimeDecision)
    ensures
        r@ == spec_settled_duplicate_decision(active.records(), execution_record.observation@),
{
    let o = best_settled_duplicate_observation(active, execution_record);
    if read_recovery_needs_file_content(active) && !o.is_read() {
        return read_recovery_requires_content_decision(o);
    }
    if o.preview.len() == 0 {
        return RuntimeDecision::Blocked {
            message: String::from_str("동일한 도구 후보가 반복됐지만 기존 관측에 답변 근거가 없습니다. tool: ").concat(
                o.tool_name.as_str(),
            ).concat(", target: ").concat(target_text(o)),
            reason: String::from_str("settled_duplicate_without_evidence"),
        };
    }
    RuntimeDecision::Answer {
        summary: String::from_str(
            "동일한 도구 후보가 이미 성공한 관측 이후 반복되어 추가 도구 호출 없이 기존 관측으로 마무리합니다.",
        ),
        payload_body: Some(observation_payload(o)),
    }
}

pub open spec fn is_failed_change_of(target: Seq<char>) -> spec_fn(RecordView) -> bool {
    |r: RecordView| spec_is_patch(r.observation) && spec_is_failed(r.observation) && r.observation.target == Some(target)
}

pub open spec fn is_read_of(target: Seq<char>) -> spec_fn(RecordView) -> bool {
    |r: RecordView| spec_is_read(r.observation) && spec_informative(r.observation) && r.observation.target == Some(target)
}

/// The target an update or delete patch must read first: it has no
/// informative read since the latest failed change of that target.
pub open spec fn spec_change_target_requiring_read(rs: Seq<RecordView>, d: DecisionView) -> Option<Seq<char>> {
    match d {
        DecisionView::ApprovalNeeded { tool_name, change_preview, .. } => match change_preview {
            Some(cp) => if tool_name == "apply_patch"@ && (cp.operation is Update || cp.operation is Delete) {
                let failed = spec_last_where(rs, is_failed_change_of(cp.target_path));
                if spec_exists_after(rs, failed, is_read_of(cp.target_path)) { None } else { Some(cp.target_path) }
            } else {
                None
            },
            None => None,
        },
        _ => None,
    }
}

fn latest_failed_change_index_for_target(active: &ActivePlainRequest, target: &str) -> (r: Option<usize>)
    ensures
        match r {
            Some(i) => i == spec_last_where(active.records(), is_failed_change_of(target@)),
            None => spec_last_where(active.records(), is_failed_change_of(target@)) == -1,
        },
{
    let ghost rs = active.records();
    let mut i: usize = active.executed_tool_records.len();
    while i > 0
        invariant
            rs == active.records(),
            i <= active.executed_tool_records@.len(),
            forall|k: int| i <= k < active.executed_tool_records@.len() ==> !is_failed_change_of(target@)(#[trigger] rs[k]),
        decreases i,
    {
        let o = &active.executed_tool_records[i - 1].observation;
        assert(rs[i - 1].observation == o@);
        if o.is_patch() && o.is_failed() && opt_string_is(&o.target_raw, target) {
            proof { lemma_last_where(rs, is_failed_change_of(target@), i - 1); }
            return Some(i - 1);
        }
        i = i - 1;
    }
    proof { lemma_last_where(rs, is_failed_change_of(target@), -1); }
    None
}

fn has_successful_read_for_target_after(active: &ActivePlainRequest, target: &str, after: Option<usize>) -> (r: bool)
    requires
        after matches Some(i) ==> i < active.executed_tool_records@.len(),
    ensures
        r == spec_exists_after(active.records(), match after { Some(i) => i as int, None => -1 }, is_read_of(target@)),
{
    let ghost rs = active.records();
    let ghost from: int = match after { Some(i) => i as int, None => -1 };
    let n = active.executed_tool_records.len();
    let mut j: usize = match after { Some(i) => i + 1, None => 0 };
    while j < active.executed_tool_records.len()
        invariant
            rs == active.records(),
            from == match after { Some(i) => i as int, None => -1 },
            -1 <= from,
            from < j <= active.executed_tool_records@.len(),
            forall|k: int| from < k < j ==> !is_read_of(target@)(#[trigger] rs[k]),
        decreases active.executed_tool_records@.len() - j,
    {
        let o = &active.executed_tool_records[j].observation;
        assert(rs[j as int].observation == o@);
        if o.is_read() && o.is_informative() && opt_string_is(&o.target_raw, target) {
            assert(is_read_of(target@)(rs[j as int]));
            return true;
        }
        j = j + 1;
    }
    false
}

pub fn change_target_requiring_read(active: &ActivePlainRequest, decision: &RuntimeDecision) -> (r: Option<String>)
    ensures
        match spec_change_target_requiring_read(active.records(), decision@) {
            Some(t) => r matches Some(x) && x@ == t,
            None => r is None,
        },
{
    let (tool_name, preview) = match decision {
        RuntimeDecision::ApprovalNeeded { tool_name, change_preview, .. } => match change_preview {
            Some(cp) => (tool_name, cp),
            None => return None,
        },
        _ => return None,
    };
    if !str_eq(tool_name.as_str(), "apply_patch") || !(preview.operation == PatchOperation::Update
        || preview.operation == PatchOperation::Delete) {
        return None;
    }
    let failed = latest_failed_change_index_for_target(active, preview.target_path.as_str());
    proof {
        lemma_last_where_sound(active.records(), is_failed_change_of(preview.target_path@));
    }
    if !has_successful_read_for_target_after(active, preview.target_path.as_str(), failed) {
        return Some(preview.target_path.clone());
    }
    None
}

/// An update or delete of a target with no read since its latest failed
/// change becomes a read of that target; anything else passes through.
pub open spec fn spec_change_boundary(rs: Seq<RecordView>, d: DecisionView) -> DecisionView {
    match spec_change_target_requiring_read(rs, d) {
        Some(target) => DecisionView::ToolCandidatePending {
            activity: Activity::Explore,
            tool_name: "read_file"@,
            arguments: spec_read_args(target),
            summary: "Read the existing target before applying an update or delete patch."@,
        },
        None => d,
    }
}

pub fn apply_change_evidence_boundary(active: &ActivePlainRequest, decision: RuntimeDecision) -> (r: RuntimeDecision)
    ensures
        r@ == spec_change_boundary(active.records(), decision@),
        spec_change_target_requiring_read(active.records(), decision@) is None ==> r == decision,
{
    match change_target_requiring_read(active, &decision) {
        Some(target) => RuntimeDecision::ToolCandidatePending {
            activity: Activity::Explore,
            tool_name: String::from_str("read_file"),
            arguments: read_args(target.as_str()),
            summary: String::from_str("Read the existing target before applying an update or delete patch."),
        },
        None => decision,
    }
}

/// How an approval candidate that already ran ends: blocked when it failed
/// or showed nothing, else answered from its observation.
pub open spec fn spec_duplicate_approval_decision(rs: Seq<RecordView>, signature: Seq<char>) -> Option<DecisionView> {
    let i = spec_last_where(rs, sig_is(signature));
    if i < 0 {
        None
    } else {
        let o = rs[i].observation;
        if spec_is_failed(o) {
            Some(DecisionView::Blocked {
                message: "승인이 필요한 동일한 도구 후보가 이미 실패했습니다. 같은 후보를 다시 승인하지 않습니다. next_required_tool: different_tool_candidate, tool: "@
                    + o.tool_name + ", target: "@ + spec_target_text(o) + ", error_kind: "@ + match o.error_kind {
                    Some(k) => k,
                    None => "-"@,
                },
                reason: "duplicate_approval_failed_observation"@,
            })
        } else if o.preview.len() == 0 {
            Some(DecisionView::Blocked {
                message: "승인이 필요한 동일한 도구 후보가 이미 실행됐지만 기존 관측에 답변 근거가 없습니다. tool: "@ + o.tool_name
                    + ", target: "@ + spec_target_text(o),
                reason: "duplicate_approval_without_evidence"@,
            })
        } else {
            Some(DecisionView::Answer {
                summary: "승인이 필요한 동일한 도구 후보가 이미 실행되어 추가 승인 없이 기존 관측으로 마무리합니다."@,
                payload_body: Some(spec_observation_payload(o)),
            })
        }
    }
}

pub fn duplicate_approval_final_decision(active: &ActivePlainRequest, approval_signature: &str) -> (r: Option<RuntimeDecision>)
    ensures
        match spec_duplicate_approval_decision(active.records(), approval_signature@) {
            Some(d) => r matches Some(x) && x@ == d,
            None => r is None,
        },
{
    let i = match last_with_signature(&active.executed_tool_records, approval_signature) {
        Some(i) => i,
        None => return None,
    };
    let o = &active.executed_tool_records[i].observation;
    assert(active.records()[i as int].observation == o@);
    if o.is_failed() {
        let kind: &str = match o.error_kind {
            Some(k) => k,
            None => "-",
        };
        return Some(RuntimeDecision::Blocked {
            message: String::from_str(
                "승인이 필요한 동일한 도구 후보가 이미 실패했습니다. 같은 후보를 다시 승인하지 않습니다. next_required_tool: different_tool_candidate, tool: ",
            ).concat(o.tool_name.as_str()).concat(", target: ").concat(target_text(o)).concat(", error_kind: ").concat(kind),
            reason: String::from_str("duplicate_approval_failed_observation"),
        });
    }
    if o.preview.len() == 0 {
        return Some(RuntimeDecision::Blocked {
            message: String::from_str(
                "승인이 필요한 동일한 도구 후보가 이미 실행됐지만 기존 관측에 답변 근거가 없습니다. tool: ",
            ).concat(o.tool_name.as_str()).concat(", target: ").concat(target_text(o)),
            reason: String::from_str("duplicate_approval_without_evidence"),
        });
    }
    Some(RuntimeDecision::Answer {
        summary: String::from_str(
            "승인이 필요한 동일한 도구 후보가 이미 실행되어 추가 승인 없이 기존 관측으로 마무리합니다.",
        ),
        payload_body: Some(observation_payload(o)),
    })
}

/// The redirect a repeated approval candidate gets from its latest record.
pub fn duplicate_approval_repeat_redirect(active: &ActivePlainRequest, approval_signature: &str) -> (r: Option<(ToolLoopRepeatRedirect, ToolLoopExecutionRecord)>)
    ensures
        ({
            let rs = active.records();
            let i = spec_last_where(rs, sig_is(approval_signature@));
            if i >= 0 && spec_repeat_redirect(rs[i].observation) is Some {
                r matches Some((redirect, record)) && redirect == spec_repeat_redirect(rs[i].observation)->0 && record@ == rs[i]
            } else {
                r is None
            }
        }),
{
    let i = match last_with_signature(&active.executed_tool_records, approval_signature) {
        Some(i) => i,
        None => return None,
    };
    let record = &active.executed_tool_records[i];
    assert(active.records()[i as int] == record@);
    match record.observation.repeat_redirect() {
        Some(redirect) => Some((redirect, record.clone())),
        None => None,
    }
}

pub open spec fn is_completed_add_of(target: Seq<char>) -> spec_fn(RecordView) -> bool {
    |r: RecordView| spec_is_patch(r.observation) && r.observation.target == Some(target) && spec_informative(r.observation)
}

/// An `Add File` approval for a target whose change already succeeded is
/// answered from that change instead of being approved again.
pub open spec fn spec_repeated_add_decision(rs: Seq<RecordView>, d: DecisionView) -> Option<DecisionView> {
    match d {
        DecisionView::ApprovalNeeded { activity, tool_name, change_preview, .. } => match change_preview {
            Some(cp) => if activity is Change && tool_name == "apply_patch"@ && cp.operation is Add {
                let i = spec_last_where(rs, is_completed_add_of(cp.target_path));
                if i >= 0 {
                    Some(DecisionView::Answer {
                        summary: "파일 생성이 완료되었습니다: "@ + cp.target_path,
                        payload_body: Some(spec_observation_payload(rs[i].observation)),
                    })
                } else {
                    None
                }
            } else {
                None
            },
            None => None,
        },
        _ => None,
    }
}

pub fn repeated_completed_add_change_final_decision(active: &ActivePlainRequest, decision: &RuntimeDecision) -> (r: Option<RuntimeDecision>)
    ensures
        match spec_repeated_add_decision(active.records(), decision@) {
            Some(d) => r matches Some(x) && x@ == d,
            None => r is None,
        },
{
    let (tool_name, preview) = match decision {
        RuntimeDecision::ApprovalNeeded { activity, tool_name, change_preview, .. } => {
            if *activity != Activity::Change {
                return None;
            }
            match change_preview {
                Some(cp) => (tool_name, cp),
                None => return None,
            }
        },
        _ => return None,
    };
    if !str_eq(tool_name.as_str(), "apply_patch") || preview.operation != PatchOperation::Add {
        return None;
    }
    let ghost rs = active.records();
    let ghost p = is_completed_add_of(preview.target_path@);
    let mut i: usize = active.executed_tool_records.len();
    while i > 0
        invariant
            rs == active.records(),
            p == is_completed_add_of(preview.target_path@),
            match decision@ {
                DecisionView::ApprovalNeeded { activity, tool_name, change_preview, .. } => activity is Change
                    && tool_name == "apply_patch"@
                    && change_preview == Some(preview@) && preview.operation is Add,
                _ => false,
            },
            i <= active.executed_tool_records@.len(),
            forall|k: int| i <= k < active.executed_tool_records@.len() ==> !p(#[trigger] rs[k]),
        decreases i,
    {
        let o = &active.executed_tool_records[i - 1].observation;
        assert(rs[i - 1].observation == o@);
        if o.is_patch() && opt_string_is(&o.target_raw, preview.target_path.as_str()) && o.is_informative() {
            proof { lemma_last_where(rs, p, i - 1); }
            return Some(RuntimeDecision::Answer {
                summary: String::from_str("파일 생성이 완료되었습니다: ").concat(preview.target_path.as_str()),
                payload_body: Some(observation_payload(o)),
            });
        }
        i = i - 1;
    }
    proof { lemma_last_where(rs, p, -1); }
    None
}

/// When the model's follow-up failed the contract after a successful tool,
/// the run ends from the latest informative success, unless evidence rules
/// say the work is unfinished or the payload itself was invalid.
pub open spec fn spec_completed_fallback(
    rs: Seq<RecordView>,
    last_success: Option<ObservationView>,
    pending_change: Option<Seq<char>>,
    fallback_reason: Seq<char>,
) -> Option<DecisionView> {
    if rs.len() == 0 || spec_needs_file_content(rs) || spec_unresolved_change(rs, rs.len() as int) >= 0
        || pending_change is Some || fallback_reason == "payload_validation_failed"@ {
        None
    } else {
        match last_success {
            Some(o) => if spec_informative(o) {
                Some(DecisionView::Answer {
                    summary: "도구 실행은 성공했지만 모델 후속 응답이 유효한 계약으로 마무리되지 않아 성공한 관측으로 종료합니다."@,
                    payload_body: Some(spec_observation_payload(o)),
                })
            } else {
                None
            },
            None => None,
        }
    }
}

pub fn completed_tool_fallback_final_decision(active: &ActivePlainRequest, fallback_reason: &str) -> (r: Option<RuntimeDecision>)
    ensures
        match spec_completed_fallback(
            active.records(),
            opt_observation_view(active.last_successful_tool_observation),
            opt_string_view(active.pending_change_after_read_target),
            fallback_reason@,
        ) {
            Some(d) => r matches Some(x) && x@ == d,
            None => r is None,
        },
{
    if active.executed_tool_records.len() == 0 || read_recovery_needs_file_content(active)
        || unresolved_failed_change_observation(active).is_some()
        || active.pending_change_after_read_target.is_some() || str_eq(fallback_reason, "payload_validation_failed") {
        return None;
    }
    match &active.last_successful_tool_observation {
        Some(o) => {
            if o.is_informative() {
                Some(RuntimeDecision::Answer {
                    summary: String::from_str(
                        "도구 실행은 성공했지만 모델 후속 응답이 유효한 계약으로 마무리되지 않아 성공한 관측으로 종료합니다.",
                    ),
                    payload_body: Some(observation_payload(o)),
                })
            } else {
                None
            }
        },
        None => None,
    }
}


/// Why the tool loop hit its limit.
#[derive(Clone, Copy, Debug, PartialEq, Eq, Structural)]
pub enum ToolLoopLimitDiagnosis {
    SameToolSignatureRepeat,
    TruncatedObservationContinuation,
    PathFailureRecovery,
    FailedObservationRecovery,
    MaxToolCallsWithoutPendingObservationSignal,
}

impl ToolLoopLimitDiagnosis {
    pub open spec fn spec_as_str(self) -> Seq<char> {
        match self {
            ToolLoopLimitDiagnosis::SameToolSignatureRepeat => "same_tool_signature_repeat"@,
            ToolLoopLimitDiagnosis::TruncatedObservationContinuation => "truncated_observation_continuation"@,
            ToolLoopLimitDiagnosis::PathFailureRecovery => "path_failure_recovery"@,
            ToolLoopLimitDiagnosis::FailedObservationRecovery => "failed_observation_recovery"@,
            ToolLoopLimitDiagnosis::MaxToolCallsWithoutPendingObservationSignal => "max_tool_calls_without_pending_observation_signal"@,
        }
    }

    pub fn as_str(self) -> (r: &'static str)
        ensures
            r@ == self.spec_as_str(),
    {
        match self {
            ToolLoopLimitDiagnosis::SameToolSignatureRepeat => "same_tool_signature_repeat",
            ToolLoopLimitDiagnosis::TruncatedObservationContinuation => "truncated_observation_continuation",
            ToolLoopLimitDiagnosis::PathFailureRecovery => "path_failure_recovery",
            ToolLoopLimitDiagnosis::FailedObservationRecovery => "failed_observation_recovery",
            ToolLoopLimitDiagnosis::MaxToolCallsWithoutPendingObservationSignal => "max_tool_calls_without_pending_observation_signal",
        }
    }
}

pub open spec fn spec_diagnose(reason: Seq<char>, last: Option<ObservationView>) -> ToolLoopLimitDiagnosis {
    if reason == "max_same_tool_repeats"@ {
        ToolLoopLimitDiagnosis::SameToolSignatureRepeat
    } else {
        match last {
            None => ToolLoopLimitDiagnosis::MaxToolCallsWithoutPendingObservationSignal,
            Some(o) => if o.truncated || o.has_next_range_hint {
                ToolLoopLimitDiagnosis::TruncatedObservationContinuation
            } else if spec_path_failure(o.error_kind) {
                ToolLoopLimitDiagnosis::PathFailureRecovery
            } else if o.error_kind is Some {
                ToolLoopLimitDiagnosis::FailedObservationRecovery
            } else {
                ToolLoopLimitDiagnosis::MaxToolCallsWithoutPendingObservationSignal
            },
        }
    }
}

pub fn diagnose_tool_loop_limit(reason: &str, last_observation: Option<&ToolLoopObservation>) -> (r: ToolLoopLimitDiagnosis)
    ensures
        r == spec_diagnose(reason@, match last_observation { Some(o) => Some(o@), None => None }),
{
    if str_eq(reason, "max_same_tool_repeats") {
        return ToolLoopLimitDiagnosis::SameToolSignatureRepeat;
    }
    let o = match last_observation {
        Some(o) => o,
        None => return ToolLoopLimitDiagnosis::MaxToolCallsWithoutPendingObservationSignal,
    };
    if o.truncated || o.has_next_range_hint {
        return ToolLoopLimitDiagnosis::TruncatedObservationContinuation;
    }
    if path_failure(o.error_kind) {
        ToolLoopLimitDiagnosis::PathFailureRecovery
    } else if o.error_kind.is_some() {
        ToolLoopLimitDiagnosis::FailedObservationRecovery
    } else {
        ToolLoopLimitDiagnosis::MaxToolCallsWithoutPendingObservationSignal
    }
}

/// What the execute phase reports for a decision.
pub open spec fn spec_execute_detail(d: DecisionView) -> Seq<char> {
    match d {
        DecisionView::ToolCandidatePending { .. } => "Explore 도구 후보를 실행합니다."@,
        DecisionView::ApprovalNeeded { .. } => "승인이 필요한 후보이므로 직접 실행하지 않습니다."@,
        _ => "실행할 도구가 없어 실행 단계를 통과합니다."@,
    }
}

pub fn runtime_execute_detail(decision: &RuntimeDecision) -> (r: &'static str)
    ensures
        r@ == spec_execute_detail(decision@),
{
    match decision {
        RuntimeDecision::ToolCandidatePending { .. } => "Explore 도구 후보를 실행합니다.",
        RuntimeDecision::ApprovalNeeded { .. } => "승인이 필요한 후보이므로 직접 실행하지 않습니다.",
        RuntimeDecision::Answer { .. } => "실행할 도구가 없어 실행 단계를 통과합니다.",
        RuntimeDecision::Clarify { .. } => "실행할 도구가 없어 실행 단계를 통과합니다.",
        RuntimeDecision::Blocked { .. } => "실행할 도구가 없어 실행 단계를 통과합니다.",
        RuntimeDecision::PlanCandidate { .. } => "실행할 도구가 없어 실행 단계를 통과합니다.",
    }
}

/// At most `max` lines of `text`, with a marker when some were left out.
pub open spec fn spec_truncated_lines(text: Seq<char>, max: nat) -> Seq<Seq<char>> {
    let all = spec_lines(text);
    if all.len() > max { all.take(max as int).push("... response omitted"@) } else { all }
}

fn truncated_context_lines(text: &str, max_lines: usize) -> (r: Vec<String>)
    ensures
        string_views(r@) == spec_truncated_lines(text@, max_lines as nat),
{
    let all = split_lines(text);
    if all.len() <= max_lines {
        return all;
    }
    let mut out: Vec<String> = Vec::new();
    let mut i: usize = 0;
    while i < max_lines
        invariant
            max_lines < all@.len(),
            i <= max_lines,
            string_views(out@) == string_views(all@).take(i as int),
        decreases max_lines - i,
    {
        let ghost before = string_views(out@);
        out.push(all[i].clone());
        assert(string_views(out@) =~= before.push(all@[i as int]@));
        assert(string_views(all@).take(i + 1) =~= string_views(all@).take(i as int).push(all@[i as int]@));
        i = i + 1;
    }
    let ghost before = string_views(out@);
    out.push(String::from_str("... response omitted"));
    assert(string_views(out@) =~= before.push("... response omitted"@));
    out
}

/// The preview lines shown of a successful observation in a context summary.
pub open spec fn spec_preview_lines(o: ObservationView) -> Seq<Seq<char>> {
    if o.preview.len() == 0 {
        seq!["successful_observation_preview: none"@]
    } else if o.preview.len() > 80 {
        seq!["successful_observation_preview:"@] + o.preview.take(80) + seq!["... preview omitted"@]
    } else {
        seq!["successful_observation_preview:"@] + o.preview
    }
}

/// The previous run as context for a follow-up message: its id, the rules
/// for using it, its final response (at most 40 lines) and its latest
/// successful observation (at most 80 preview lines).
pub open spec fn spec_task_context_summary(
    run_id: Seq<char>,
    final_text: Option<Seq<char>>,
    last_success: Option<ObservationView>,
) -> Seq<char> {
    let head = seq![
        "previous_run_id: "@ + run_id,
        "previous_task_context: use this only when the current user message depends on the previous task."@,
        "path_grounding_rule: when the current message refers to prior evidence, a prior file, or a prior result, use exact paths from previous_final_response or successful_observation_preview; do not invent conventional path candidates."@,
    ];
    let response = match final_text {
        Some(t) => seq!["previous_final_response:"@] + spec_truncated_lines(t, 40),
        None => seq!["previous_final_response: none"@],
    };
    let observation = match last_success {
        Some(o) => seq!["successful_observation: tool_name="@ + o.tool_name + " target_raw="@ + spec_target_text(o)]
            + spec_preview_lines(o),
        None => seq!["successful_observation: none"@],
    };
    spec_join(head + response + observation, "\n"@)
}

fn push_all(lines: &mut Vec<String>, more: Vec<String>)
    ensures
        string_views(final(lines)@) == string_views(old(lines)@) + string_views(more@),
{
    let ghost start = string_views(lines@);
    let mut i: usize = 0;
    while i < more.len()
        invariant
            i <= more@.len(),
            string_views(lines@) == start + string_views(more@).take(i as int),
        decreases more@.len() - i,
    {
        let ghost before = string_views(lines@);
        lines.push(more[i].clone());
        assert(string_views(lines@) =~= before.push(more@[i as int]@));
        assert(string_views(more@).take(i + 1) =~= string_views(more@).take(i as int).push(more@[i as int]@));
        i = i + 1;
    }
    assert(string_views(more@).take(i as int) =~= string_views(more@));
}

pub fn conversation_task_context_summary(active: &ActivePlainRequest) -> (r: String)
    ensures
        r@ == spec_task_context_summary(
            active.run_id@,
            opt_string_view(active.final_response_text),
            opt_observation_view(active.last_successful_tool_observation),
        ),
{
    let mut lines: Vec<String> = Vec::new();
    lines.push(String::from_str("previous_run_id: ").concat(active.run_id.as_str()));
    lines.push(String::from_str("previous_task_context: use this only when the current user message depends on the previous task."));
    lines.push(String::from_str("path_grounding_rule: when the current message refers to prior evidence, a prior file, or a prior result, use exact paths from previous_final_response or successful_observation_preview; do not invent conventional path candidates."));
    let ghost head = string_views(lines@);
    assert(head =~= seq![
        "previous_run_id: "@ + active.run_id@,
        "previous_task_context: use this only when the current user message depends on the previous task."@,
        "path_grounding_rule: when the current message refers to prior evidence, a prior file, or a prior result, use exact paths from previous_final_response or successful_observation_preview; do not invent conventional path candidates."@,
    ]);
    match &active.final_response_text {
        Some(text) => {
            lines.push(String::from_str("previous_final_response:"));
            assert(string_views(lines@) =~= head + seq!["previous_final_response:"@]);
            push_all(&mut lines, truncated_context_lines(text.as_str(), 40));
            assert(string_views(lines@) =~= head + (seq!["previous_final_response:"@] + spec_truncated_lines(text@, 40)));
        },
        None => {
            lines.push(String::from_str("previous_final_response: none"));
            assert(string_views(lines@) =~= head + seq!["previous_final_response: none"@]);
        },
    }
    let ghost mid = string_views(lines@);
    match &active.last_successful_tool_observation {
        Some(o) => {
            lines.push(String::from_str("successful_observation: tool_name=").concat(o.tool_name.as_str()).concat(
                " target_raw=",
            ).concat(target_text(o)));
            let mut preview: Vec<String> = Vec::new();
            if o.preview.len() == 0 {
                preview.push(String::from_str("successful_observation_preview: none"));
            } else {
                preview.push(String::from_str("successful_observation_preview:"));
                let n = if o.preview.len() > 80 { 80 } else { o.preview.len() };
                let mut i: usize = 0;
                while i < n
                    invariant
                        n <= o.preview@.len(),
                        i <= n,
                        string_views(preview@) == seq!["successful_observation_preview:"@] + o@.preview.take(i as int),
                    decreases n - i,
                {
                    let ghost before = string_views(preview@);
                    preview.push(o.preview[i].clone());
                    assert(string_views(preview@) =~= before.push(o.preview@[i as int]@));
                    assert(o@.preview.take(i + 1) =~= o@.preview.take(i as int).push(o.preview@[i as int]@));
                    i = i + 1;
                }
                if o.preview.len() > 80 {
                    let ghost before = string_views(preview@);
                    preview.push(String::from_str("... preview omitted"));
                    assert(string_views(preview@) =~= before.push("... preview omitted"@));
                } else {
                    assert(o@.preview.take(n as int) =~= o@.preview);
                }
            }
            assert(string_views(preview@) == spec_preview_lines(o@));
            let ghost m1 = string_views(lines@);
            push_all(&mut lines, preview);
            assert(m1 =~= mid + seq!["successful_observation: tool_name="@ + o@.tool_name + " target_raw="@ + spec_target_text(o@)]);
            assert(string_views(lines@) =~= mid + (seq!["successful_observation: tool_name="@ + o@.tool_name + " target_raw="@
                + spec_target_text(o@)] + spec_preview_lines(o@)));
        },
        None => {
            lines.push(String::from_str("successful_observation: none"));
            assert(string_views(lines@) =~= mid + seq!["successful_observation: none"@]);
        },
    }
    proof {
        let t = opt_string_view(active.final_response_text);
        let o = opt_observation_view(active.last_successful_tool_observation);
        assert(string_views(lines@) =~= head + (match t {
            Some(t) => seq!["previous_final_response:"@] + spec_truncated_lines(t, 40),
            None => seq!["previous_final_response: none"@],
        }) + (match o {
            Some(o) => seq!["successful_observation: tool_name="@ + o.tool_name + " target_raw="@ + spec_target_text(o)]
                + spec_preview_lines(o),
            None => seq!["successful_observation: none"@],
        }));
    }
    join_strings(&lines, "\n")
}


/// The value of the first `field: value` line of an observation message.
pub open spec fn spec_field_in(lines: Seq<Seq<char>>, prefix: Seq<char>) -> Option<Seq<char>>
    decreases lines.len(),
{
    if lines.len() == 0 {
        None
    } else if spec_starts_with(lines[0], prefix) {
        Some(spec_trim(lines[0].subrange(prefix.len() as int, lines[0].len() as int)))
    } else {
        spec_field_in(lines.drop_first(), prefix)
    }
}

pub open spec fn spec_observation_field(message: Seq<char>, field: Seq<char>) -> Option<Seq<char>> {
    spec_field_in(spec_lines(message), field + ": "@)
}

fn observation_field(message: &str, field: &str) -> (r: Option<String>)
    ensures
        match spec_observation_field(message@, field@) {
            Some(v) => r matches Some(x) && x@ == v,
            None => r is None,
        },
{
    let prefix = String::from_str(field).concat(": ");
    let lines = split_lines(message);
    let ghost ls = string_views(lines@);
    let mut i: usize = 0;
    assert(ls.skip(0) =~= ls);
    while i < lines.len()
        invariant
            ls == string_views(lines@),
            ls == spec_lines(message@),
            prefix@ == field@ + ": "@,
            i <= lines@.len(),
            spec_field_in(ls, prefix@) == spec_field_in(ls.skip(i as int), prefix@),
        decreases lines@.len() - i,
    {
        proof {
            assert(ls.skip(i as int).drop_first() =~= ls.skip(i + 1));
            assert(ls.skip(i as int)[0] == lines@[i as int]@);
        }
        match strip_prefix(lines[i].as_str(), prefix.as_str()) {
            Some(rest) => {
                assert(spec_starts_with(ls.skip(i as int)[0], prefix@));
                return Some(trim(rest.as_str()));
            },
            None => {},
        }
        i = i + 1;
    }
    None
}

pub open spec fn is_line(l: Seq<char>, text: Seq<char>) -> bool {
    l == text
}

pub open spec fn spec_first_line(ls: Seq<Seq<char>>, text: Seq<char>) -> int
    decreases ls.len(),
{
    if ls.len() == 0 {
        0
    } else if ls[0] == text {
        0
    } else {
        1 + spec_first_line(ls.drop_first(), text)
    }
}

proof fn lemma_first_line(ls: Seq<Seq<char>>, text: Seq<char>, r: int)
    requires
        0 <= r <= ls.len(),
        forall|k: int| 0 <= k < r ==> ls[k] != text,
        r < ls.len() ==> ls[r] == text,
    ensures
        spec_first_line(ls, text) == r,
    decreases r,
{
    if r > 0 {
        assert(ls[0] != text);
        assert forall|k: int| 0 <= k < r - 1 implies ls.drop_first()[k] != text by {
            assert(ls.drop_first()[k] == ls[k + 1]);
        }
        lemma_first_line(ls.drop_first(), text, r - 1);
    }
}

/// The preview lines of an observation message: after the first
/// `preview:` line and before the closing tag.
pub open spec fn spec_preview_section(message: Seq<char>) -> Seq<Seq<char>> {
    let ls = spec_lines(message);
    let p = spec_first_line(ls, "preview:"@);
    let e = spec_first_line(ls, "</AHREUM_TOOL_OBSERVATION>"@);
    if p >= e {
        Seq::empty()
    } else {
        ls.subrange(p + 1, e).filter(|l: Seq<char>| l != "preview:"@)
    }
}

fn observation_preview_lines(message: &str) -> (r: Vec<String>)
    ensures
        string_views(r@) == spec_preview_section(message@),
{
    let lines = split_lines(message);
    let ghost ls = string_views(lines@);
    let n = lines.len();
    let mut out: Vec<String> = Vec::new();
    let mut in_preview = false;
    let mut p: usize = 0;
    let mut i: usize = 0;
    while i < n
        invariant
            ls == string_views(lines@),
            n == lines@.len(),
            i <= n,
            forall|k: int| 0 <= k < i ==> ls[k] != "</AHREUM_TOOL_OBSERVATION>"@,
            !in_preview ==> forall|k: int| 0 <= k < i ==> ls[k] != "preview:"@,
            !in_preview ==> out@.len() == 0,
            in_preview ==> p < i && ls[p as int] == "preview:"@ && (forall|k: int| 0 <= k < p ==> ls[k] != "preview:"@)
                && string_views(out@) == ls.subrange(p + 1, i as int).filter(|l: Seq<char>| l != "preview:"@),
        ensures
            i < n ==> ls[i as int] == "</AHREUM_TOOL_OBSERVATION>"@,
        decreases n - i,
    {
        let is_preview = str_eq(lines[i].as_str(), "preview:");
        let is_close = str_eq(lines[i].as_str(), "</AHREUM_TOOL_OBSERVATION>");
        assert(ls[i as int] == lines@[i as int]@);
        if is_close {
            break;
        }
        if is_preview {
            if in_preview {
                proof { lemma_filter_step(ls.subrange(p + 1, i + 1), (i - p - 1) as int, |l: Seq<char>| l != "preview:"@);
                    assert(ls.subrange(p + 1, i + 1).subrange(0, i - p - 1) =~= ls.subrange(p + 1, i as int));
                    assert(ls.subrange(p + 1, i + 1).subrange(0, i - p) =~= ls.subrange(p + 1, i + 1));
                }
            } else {
                p = i;
                in_preview = true;
                assert(ls.subrange(p + 1, i + 1).len() == 0);
                assert(ls.subrange(p + 1, i + 1).filter(|l: Seq<char>| l != "preview:"@) =~= Seq::<Seq<char>>::empty());
            }
            i = i + 1;
        } else {
            if in_preview {
                let ghost before = string_views(out@);
                out.push(lines[i].clone());
                proof {
                    lemma_filter_step(ls.subrange(p + 1, i + 1), (i - p - 1) as int, |l: Seq<char>| l != "preview:"@);
                    assert(ls.subrange(p + 1, i + 1).subrange(0, i - p - 1) =~= ls.subrange(p + 1, i as int));
                    assert(ls.subrange(p + 1, i + 1).subrange(0, i - p) =~= ls.subrange(p + 1, i + 1));
                    assert(string_views(out@) =~= before.push(ls[i as int]));
                }
            }
            i = i + 1;
        }
    }
    proof {
        let e = spec_first_line(ls, "</AHREUM_TOOL_OBSERVATION>"@);
        lemma_first_line(ls, "</AHREUM_TOOL_OBSERVATION>"@, i as int);
        if in_preview {
            lemma_first_line(ls, "preview:"@, p as int);
        } else {
            let pp = spec_first_line(ls, "preview:"@);
            if pp < e {
                // no preview line before the close line
                assert forall|k: int| 0 <= k < i implies ls[k] != "preview:"@ by {}
                if i < n {
                    lemma_first_line_ge(ls, "preview:"@, i as int);
                } else {
                    lemma_first_line(ls, "preview:"@, n as int);
                }
            }
        }
    }
    out
}

proof fn lemma_first_line_nonneg(ls: Seq<Seq<char>>, text: Seq<char>)
    ensures
        spec_first_line(ls, text) >= 0,
    decreases ls.len(),
{
    if ls.len() > 0 && ls[0] != text {
        lemma_first_line_nonneg(ls.drop_first(), text);
    }
}

proof fn lemma_first_line_ge(ls: Seq<Seq<char>>, text: Seq<char>, i: int)
    requires
        0 <= i <= ls.len(),
        forall|k: int| 0 <= k < i ==> ls[k] != text,
    ensures
        spec_first_line(ls, text) >= i,
    decreases i,
{
    if i > 0 {
        assert(ls[0] != text);
        assert(spec_first_line(ls, text) == 1 + spec_first_line(ls.drop_first(), text));
        assert forall|k: int| 0 <= k < i - 1 implies ls.drop_first()[k] != text by {
            assert(ls.drop_first()[k] == ls[k + 1]);
        }
        lemma_first_line_ge(ls.drop_first(), text, i - 1);
    } else {
        lemma_first_line_nonneg(ls, text);
    }
}


/// Up to twelve distinct file candidates named by an observation message's
/// preview, read according to the message's `tool_name`.
pub open spec fn spec_message_candidates_in(tool: Seq<char>, lines: Seq<Seq<char>>) -> Seq<Seq<char>>
    decreases lines.len(),
{
    if lines.len() == 0 {
        Seq::empty()
    } else {
        let prev = spec_message_candidates_in(tool, lines.drop_last());
        if prev.len() >= 12 {
            prev
        } else {
            match spec_line_candidate(tool, lines.last()) {
                Some(c) => if prev.contains(c) { prev } else { prev.push(c) },
                None => prev,
            }
        }
    }
}

pub open spec fn spec_message_candidates(message: Seq<char>) -> Seq<Seq<char>> {
    match spec_observation_field(message, "tool_name"@) {
        Some(tool) => spec_message_candidates_in(tool, spec_preview_section(message)),
        None => Seq::empty(),
    }
}

pub fn read_file_candidate_paths_from_observation_message(message: &str) -> (r: Vec<String>)
    ensures
        string_views(r@) == spec_message_candidates(message@),
{
    let tool = match observation_field(message, "tool_name") {
        Some(t) => t,
        None => return Vec::new(),
    };
    let preview = observation_preview_lines(message);
    let ghost lines = string_views(preview@);
    let mut candidates: Vec<String> = Vec::new();
    let mut i: usize = 0;
    while i < preview.len()
        invariant
            lines == string_views(preview@),
            lines == spec_preview_section(message@),
            spec_observation_field(message@, "tool_name"@) == Some(tool@),
            i <= preview@.len(),
            string_views(candidates@) == spec_message_candidates_in(tool@, lines.subrange(0, i as int)),
            candidates@.len() < 12,
        decreases preview@.len() - i,
    {
        proof {
            assert(lines.subrange(0, i + 1).drop_last() =~= lines.subrange(0, i as int));
            assert(lines.subrange(0, i + 1).last() == preview@[i as int]@);
        }
        match line_candidate(tool.as_str(), preview[i].as_str()) {
            Some(c) => {
                if !contains_string(&candidates, &c) {
                    let ghost before = string_views(candidates@);
                    let ghost cv = c@;
                    candidates.push(c);
                    assert(string_views(candidates@) =~= before.push(cv));
                }
            },
            None => {},
        }
        i = i + 1;
        if candidates.len() >= 12 {
            proof {
                lemma_message_candidates_saturate(tool@, lines, i as int);
            }
            return candidates;
        }
    }
    assert(lines.subrange(0, i as int) =~= lines);
    candidates
}

proof fn lemma_message_candidates_saturate(tool: Seq<char>, lines: Seq<Seq<char>>, i: int)
    requires
        0 <= i <= lines.len(),
        spec_message_candidates_in(tool, lines.subrange(0, i)).len() >= 12,
    ensures
        spec_message_candidates_in(tool, lines) == spec_message_candidates_in(tool, lines.subrange(0, i)),
    decreases lines.len() - i,
{
    if i < lines.len() {
        let next = lines.subrange(0, i + 1);
        assert(next.drop_last() =~= lines.subrange(0, i));
        lemma_message_candidates_saturate(tool, lines, i + 1);
    } else {
        assert(lines.subrange(0, i) =~= lines);
    }
}

pub open spec fn spec_candidate_guidance(message: Seq<char>) -> Seq<Seq<char>> {
    let c = spec_message_candidates(message);
    if c.len() == 0 {
        Seq::empty()
    } else {
        seq!["<AHREUM_READ_FILE_CANDIDATES>"@, "candidate_paths:"@] + c.map_values(|p: Seq<char>| spec_candidate_line(p))
            + seq![
            "</AHREUM_READ_FILE_CANDIDATES>"@,
            "The latest observation exposed candidate file paths. If the user goal requires file contents or values, request read_file with one candidate path before answering; do not repeat list_files or search_text for the same candidates."@,
        ]
    }
}

fn append_read_candidate_guidance(lines: &mut Vec<String>, message: &str)
    ensures
        string_views(final(lines)@) == string_views(old(lines)@) + spec_candidate_guidance(message@),
{
    let candidates = read_file_candidate_paths_from_observation_message(message);
    let ghost c = string_views(candidates@);
    if candidates.len() == 0 {
        assert(string_views(lines@) =~= string_views(lines@) + spec_candidate_guidance(message@));
        return;
    }
    let ghost start = string_views(lines@);
    lines.push(String::from_str("<AHREUM_READ_FILE_CANDIDATES>"));
    lines.push(String::from_str("candidate_paths:"));
    assert(string_views(lines@) =~= start + seq!["<AHREUM_READ_FILE_CANDIDATES>"@, "candidate_paths:"@]);
    let ghost head = string_views(lines@);
    let mut i: usize = 0;
    while i < candidates.len()
        invariant
            c == string_views(candidates@),
            i <= candidates@.len(),
            string_views(lines@) == head + c.take(i as int).map_values(|p: Seq<char>| spec_candidate_line(p)),
        decreases candidates@.len() - i,
    {
        let ghost before = string_views(lines@);
        let line = String::from_str("- ").concat(candidates[i].as_str());
        lines.push(line);
        assert(string_views(lines@) =~= before.push(line@));
        assert(c.take(i + 1).map_values(|p: Seq<char>| spec_candidate_line(p))
            =~= c.take(i as int).map_values(|p: Seq<char>| spec_candidate_line(p)).push(spec_candidate_line(c[i as int])));
        i = i + 1;
    }
    assert(c.take(i as int) =~= c);
    let ghost mid = string_views(lines@);
    lines.push(String::from_str("</AHREUM_READ_FILE_CANDIDATES>"));
    lines.push(String::from_str(
        "The latest observation exposed candidate file paths. If the user goal requires file contents or values, request read_file with one candidate path before answering; do not repeat list_files or search_text for the same candidates.",
    ));
    assert(string_views(lines@) =~= mid + seq![
        "</AHREUM_READ_FILE_CANDIDATES>"@,
        "The latest observation exposed candidate file paths. If the user goal requires file contents or values, request read_file with one candidate path before answering; do not repeat list_files or search_text for the same candidates."@,
    ]);
    assert(string_views(lines@) =~= start + spec_candidate_guidance(message@));
}

/// The spent candidates block: their count and the last eight signatures.
pub open spec fn spec_loop_state_lines(signatures: Seq<Seq<char>>) -> Seq<Seq<char>> {
    let shown = if signatures.len() > 8 { signatures.skip(signatures.len() - 8) } else { signatures };
    seq![
        "<AHREUM_TOOL_LOOP_STATE>"@,
        "executed_tool_candidate_count: "@ + crate::text::spec_decimal(signatures.len()),
        "executed_tool_candidates:"@,
    ] + shown.map_values(|s: Seq<char>| spec_candidate_line(s)) + seq![
        "</AHREUM_TOOL_LOOP_STATE>"@,
        "A tool candidate listed in AHREUM_TOOL_LOOP_STATE is already spent. Return an answer if the observations are enough; otherwise choose a different next tool candidate."@,
    ]
}

fn tool_loop_state_lines(signatures: &Vec<String>) -> (r: Vec<String>)
    ensures
        string_views(r@) == spec_loop_state_lines(string_views(signatures@)),
{
    let ghost sv = string_views(signatures@);
    let mut lines: Vec<String> = Vec::new();
    lines.push(String::from_str("<AHREUM_TOOL_LOOP_STATE>"));
    lines.push(String::from_str("executed_tool_candidate_count: ").concat(
        crate::text::decimal(signatures.len() as u64).as_str(),
    ));
    lines.push(String::from_str("executed_tool_candidates:"));
    let ghost head = string_views(lines@);
    let n = signatures.len();
    let start: usize = if n > 8 { n - 8 } else { 0 };
    let ghost shown = if sv.len() > 8 { sv.skip(sv.len() - 8) } else { sv };
    assert(shown =~= sv.subrange(start as int, n as int));
    let mut i: usize = start;
    while i < n
        invariant
            sv == string_views(signatures@),
            n == signatures@.len(),
            start <= i <= n,
            shown == sv.subrange(start as int, n as int),
            string_views(lines@) == head + sv.subrange(start as int, i as int).map_values(|s: Seq<char>| spec_candidate_line(s)),
        decreases n - i,
    {
        let ghost before = string_views(lines@);
        let line = String::from_str("- ").concat(signatures[i].as_str());
        lines.push(line);
        assert(string_views(lines@) =~= before.push(line@));
        assert(sv.subrange(start as int, i + 1).map_values(|s: Seq<char>| spec_candidate_line(s))
            =~= sv.subrange(start as int, i as int).map_values(|s: Seq<char>| spec_candidate_line(s)).push(
            spec_candidate_line(sv[i as int]),
        ));
        i = i + 1;
    }
    let ghost mid = string_views(lines@);
    lines.push(String::from_str("</AHREUM_TOOL_LOOP_STATE>"));
    lines.push(String::from_str(
        "A tool candidate listed in AHREUM_TOOL_LOOP_STATE is already spent. Return an answer if the observations are enough; otherwise choose a different next tool candidate.",
    ));
    assert(string_views(lines@) =~= mid + seq![
        "</AHREUM_TOOL_LOOP_STATE>"@,
        "A tool candidate listed in AHREUM_TOOL_LOOP_STATE is already spent. Return an answer if the observations are enough; otherwise choose a different next tool candidate."@,
    ]);
    assert(head =~= seq![
        "<AHREUM_TOOL_LOOP_STATE>"@,
        "executed_tool_candidate_count: "@ + crate::text::spec_decimal(sv.len()),
        "executed_tool_candidates:"@,
    ]);
    assert(string_views(lines@) =~= spec_loop_state_lines(sv));
    lines
}


/// The standing rules of a request that continues after an observation.
pub open spec fn spec_tool_loop_rules() -> Seq<Seq<char>> {
    seq![
        "If the observation is enough evidence for the user goal, return exactly one answer response with activity None."@,
        "If the latest observation is a succeeded Change or Execute tool and the user did not ask for another distinct action, return exactly one answer response with activity None."@,
        "After a succeeded apply_patch Add File observation, do not request another Add File for the same target; summarize the completed change."@,
        "After a succeeded run_command observation, do not request the same command again unless the observation is truncated or the user asked for a separate command."@,
        "After a succeeded read_file observation, do not request the same read_file again. If the user goal still requires a file change or command execution, use the read evidence to request the next Change or Execute tool candidate."@,
        "Request exactly one next tool only when more workspace evidence is required."@,
        "Use path \".\" for the workspace root. Empty path strings are invalid."@,
        "Use search_text when the next missing evidence is a symbol, implementation, registry entry, tool mapping, or configuration key location."@,
        "Use read_file when the next missing evidence is content from a known workspace file."@,
        "Use list_files when the next missing evidence is current workspace, directory structure, or a filename/path candidate after a direct path failed."@,
        "When file contents or values are still required and list_files or search_text found candidate paths, do not answer from discovery alone; request read_file for the best candidate path from the observation."@,
        "If the latest observation failed, do not treat its target as read or analyzed evidence."@,
        "If the latest apply_patch observation failed and the user goal still requires a file change, request a repaired Change candidate instead of answering as if the file changed."@,
        "If apply_patch failed with error_kind target_already_exists and no successful read_file observation in this request provides the target contents, request read_file for target_raw before another Change candidate."@,
        "After target_already_exists is followed by a successful read_file and the user still requires a change, request an Update File patch for that existing target."@,
        "If read_file failed with path_not_found and the user still asks for file-backed information, resolve the exact path with prior successful evidence, list_files, or search_text before blocking."@,
        "If a failed read_file is followed by list_files or search_text that identifies a candidate file, request read_file for that candidate before answering file contents, settings, dependencies, fields, or other file-backed details."@,
        "If a path failure cannot be resolved by a bounded next tool, return an answer or blocked response that reports the unresolved path instead of inventing file contents."@,
        "If the latest observation has next_range_hint and more content is needed, follow that hint."@,
        "Do not repeat an already executed tool candidate with the same tool_name and arguments."@,
    ]
}

fn push_tool_loop_rules(lines: &mut Vec<String>)
    ensures
        string_views(final(lines)@) == string_views(old(lines)@) + spec_tool_loop_rules(),
{
    let ghost start = string_views(lines@);
    lines.push(String::from_str("If the observation is enough evidence for the user goal, return exactly one answer response with activity None."));
    lines.push(String::from_str("If the latest observation is a succeeded Change or Execute tool and the user did not ask for another distinct action, return exactly one answer response with activity None."));
    lines.push(String::from_str("After a succeeded apply_patch Add File observation, do not request another Add File for the same target; summarize the completed change."));
    lines.push(String::from_str("After a succeeded run_command observation, do not request the same command again unless the observation is truncated or the user asked for a separate command."));
    lines.push(String::from_str("After a succeeded read_file observation, do not request the same read_file again. If the user goal still requires a file change or command execution, use the read evidence to request the next Change or Execute tool candidate."));
    lines.push(String::from_str("Request exactly one next tool only when more workspace evidence is required."));
    lines.push(String::from_str("Use path \".\" for the workspace root. Empty path strings are invalid."));
    lines.push(String::from_str("Use search_text when the next missing evidence is a symbol, implementation, registry entry, tool mapping, or configuration key location."));
    lines.push(String::from_str("Use read_file when the next missing evidence is content from a known workspace file."));
    lines.push(String::from_str("Use list_files when the next missing evidence is current workspace, directory structure, or a filename/path candidate after a direct path failed."));
    lines.push(String::from_str("When file contents or values are still required and list_files or search_text found candidate paths, do not answer from discovery alone; request read_file for the best candidate path from the observation."));
    lines.push(String::from_str("If the latest observation failed, do not treat its target as read or analyzed evidence."));
    lines.push(String::from_str("If the latest apply_patch observation failed and the user goal still requires a file change, request a repaired Change candidate instead of answering as if the file changed."));
    lines.push(String::from_str("If apply_patch failed with error_kind target_already_exists and no successful read_file observation in this request provides the target contents, request read_file for target_raw before another Change candidate."));
    lines.push(String::from_str("After target_already_exists is followed by a successful read_file and the user still requires a change, request an Update File patch for that existing target."));
    lines.push(String::from_str("If read_file failed with path_not_found and the user still asks for file-backed information, resolve the exact path with prior successful evidence, list_files, or search_text before blocking."));
    lines.push(String::from_str("If a failed read_file is followed by list_files or search_text that identifies a candidate file, request read_file for that candidate before answering file contents, settings, dependencies, fields, or other file-backed details."));
    lines.push(String::from_str("If a path failure cannot be resolved by a bounded next tool, return an answer or blocked response that reports the unresolved path instead of inventing file contents."));
    lines.push(String::from_str("If the latest observation has next_range_hint and more content is needed, follow that hint."));
    lines.push(String::from_str("Do not repeat an already executed tool candidate with the same tool_name and arguments."));
    assert(string_views(lines@) =~= start + spec_tool_loop_rules());
}

/// The rules of a request after a settled duplicate candidate.
pub open spec fn spec_repeat_answer_rules() -> Seq<Seq<char>> {
    seq![
        "Do not call the duplicate tool candidate again."@,
        "Return exactly one answer response with activity None from the existing observation when it is enough evidence for the user goal."@,
        "If the duplicate successful observation is read_file and the user goal still requires a file change or command execution, request the next non-duplicate Change or Execute tool candidate instead of answering or re-reading."@,
        "When file contents or values are still required and the duplicate successful observation is list_files or search_text, do not answer from discovery alone; request read_file for a candidate path from that observation."@,
        "If the existing successful observation is only path discovery after a failed read_file, request read_file for the discovered candidate before answering file-backed details."@,
        "Request a tool only if a different tool candidate is required for missing evidence."@,
    ]
}

fn push_repeat_answer_rules(lines: &mut Vec<String>)
    ensures
        string_views(final(lines)@) == string_views(old(lines)@) + spec_repeat_answer_rules(),
{
    let ghost start = string_views(lines@);
    lines.push(String::from_str("Do not call the duplicate tool candidate again."));
    lines.push(String::from_str("Return exactly one answer response with activity None from the existing observation when it is enough evidence for the user goal."));
    lines.push(String::from_str("If the duplicate successful observation is read_file and the user goal still requires a file change or command execution, request the next non-duplicate Change or Execute tool candidate instead of answering or re-reading."));
    lines.push(String::from_str("When file contents or values are still required and the duplicate successful observation is list_files or search_text, do not answer from discovery alone; request read_file for a candidate path from that observation."));
    lines.push(String::from_str("If the existing successful observation is only path discovery after a failed read_file, request read_file for the discovered candidate before answering file-backed details."));
    lines.push(String::from_str("Request a tool only if a different tool candidate is required for missing evidence."));
    assert(string_views(lines@) =~= start + spec_repeat_answer_rules());
}

/// The rules of a request after a truncated duplicate candidate.
pub open spec fn spec_repeat_continuation_rules() -> Seq<Seq<char>> {
    seq![
        "Do not call the duplicate tool candidate again."@,
        "If the existing observation is enough evidence for the user goal, return exactly one answer response with activity None."@,
        "If more content from the same file is required and the observation includes next_range_hint, request read_file with that next range instead of repeating the same range."@,
        "If a directory listing is truncated and there is no next_range_hint, request a narrower path or search_text for the missing evidence instead of repeating the same directory."@,
        "If different evidence is required, request exactly one different tool candidate."@,
    ]
}

fn push_repeat_continuation_rules(lines: &mut Vec<String>)
    ensures
        string_views(final(lines)@) == string_views(old(lines)@) + spec_repeat_continuation_rules(),
{
    let ghost start = string_views(lines@);
    lines.push(String::from_str("Do not call the duplicate tool candidate again."));
    lines.push(String::from_str("If the existing observation is enough evidence for the user goal, return exactly one answer response with activity None."));
    lines.push(String::from_str("If more content from the same file is required and the observation includes next_range_hint, request read_file with that next range instead of repeating the same range."));
    lines.push(String::from_str("If a directory listing is truncated and there is no next_range_hint, request a narrower path or search_text for the missing evidence instead of repeating the same directory."));
    lines.push(String::from_str("If different evidence is required, request exactly one different tool candidate."));
    assert(string_views(lines@) =~= start + spec_repeat_continuation_rules());
}

/// The rules of a request after a failed duplicate candidate.
pub open spec fn spec_repeat_failure_rules() -> Seq<Seq<char>> {
    seq![
        "Do not call the duplicate failed tool candidate again."@,
        "Return exactly one blocked response if the failure prevents the user goal."@,
        "Return exactly one answer response if the failure itself is enough to answer the user goal."@,
        "Request a tool only if a different tool candidate is required for missing evidence."@,
    ]
}

fn push_repeat_failure_rules(lines: &mut Vec<String>)
    ensures
        string_views(final(lines)@) == string_views(old(lines)@) + spec_repeat_failure_rules(),
{
    let ghost start = string_views(lines@);
    lines.push(String::from_str("Do not call the duplicate failed tool candidate again."));
    lines.push(String::from_str("Return exactly one blocked response if the failure prevents the user goal."));
    lines.push(String::from_str("Return exactly one answer response if the failure itself is enough to answer the user goal."));
    lines.push(String::from_str("Request a tool only if a different tool candidate is required for missing evidence."));
    assert(string_views(lines@) =~= start + spec_repeat_failure_rules());
}


/// The contract lines of the response schema that every follow-up request
/// repeats, as the schema in use states them.
pub struct ResponseContractLines {
    pub response_boundary: Vec<String>,
    pub payload_ordering: Vec<String>,
    pub tool_path_selection: Vec<String>,
}

/// `ms` with `m` added unless a message with the same content is there.
pub open spec fn spec_push_unique(ms: Seq<LlmMessage>, m: LlmMessage) -> Seq<LlmMessage> {
    if exists|i: int| 0 <= i < ms.len() && (#[trigger] ms[i]).content@ == m.content@ { ms } else { ms.push(m) }
}

pub open spec fn spec_unique_messages(ms: Seq<LlmMessage>) -> Seq<LlmMessage>
    decreases ms.len(),
{
    if ms.len() == 0 { Seq::empty() } else { spec_push_unique(spec_unique_messages(ms.drop_last()), ms.last()) }
}

/// The observation messages of the last four records and then the latest
/// one, each content once, oldest first.
pub open spec fn spec_recent_messages(rs: Seq<RecordView>, latest: LlmMessage) -> Seq<LlmMessage> {
    let k = if rs.len() > RECENT_TOOL_OBSERVATION_LIMIT { RECENT_TOOL_OBSERVATION_LIMIT as int } else { rs.len() as int };
    let tail = rs.subrange(rs.len() - k, rs.len() as int).map_values(|r: RecordView| r.message);
    spec_unique_messages(tail.push(latest))
}

fn push_unique_observation_message(messages: &mut Vec<LlmMessage>, message: LlmMessage)
    ensures
        final(messages)@ == spec_push_unique(old(messages)@, message),
{
    let mut i: usize = 0;
    while i < messages.len()
        invariant
            i <= messages@.len(),
            forall|k: int| 0 <= k < i ==> (#[trigger] messages@[k]).content@ != message.content@,
        decreases messages@.len() - i,
    {
        if str_eq(messages[i].content.as_str(), message.content.as_str()) {
            return;
        }
        i = i + 1;
    }
    messages.push(message);
}

fn recent_tool_observation_messages_with_latest(records: &Vec<ToolLoopExecutionRecord>, latest: &LlmMessage) -> (r: Vec<LlmMessage>)
    ensures
        r@ == spec_recent_messages(record_views(records@), *latest),
{
    let ghost rs = record_views(records@);
    let n = records.len();
    let start: usize = if n > RECENT_TOOL_OBSERVATION_LIMIT { n - RECENT_TOOL_OBSERVATION_LIMIT } else { 0 };
    let ghost all = rs.subrange(start as int, n as int).map_values(|r: RecordView| r.message).push(*latest);
    let mut result: Vec<LlmMessage> = Vec::new();
    let mut i: usize = start;
    while i < n
        invariant
            rs == record_views(records@),
            n == records@.len(),
            start <= i <= n,
            all == rs.subrange(start as int, n as int).map_values(|r: RecordView| r.message).push(*latest),
            result@ == spec_unique_messages(all.take(i - start)),
        decreases n - i,
    {
        proof {
            assert(all.take(i - start + 1).drop_last() =~= all.take(i - start));
            assert(all.take(i - start + 1).last() == records@[i as int].observation_message);
        }
        push_unique_observation_message(&mut result, records[i].observation_message.clone());
        i = i + 1;
    }
    proof {
        assert(all.take(n - start + 1).drop_last() =~= all.take(n - start));
        assert(all.take(n - start + 1).last() == *latest);
        assert(all.take(n - start + 1) =~= all);
    }
    push_unique_observation_message(&mut result, latest.clone());
    result
}

/// A follow-up request: the schema, the user message, the recent
/// observations, and one system message holding the instruction lines.
pub open spec fn spec_follow_up_request(
    r: Seq<LlmMessage>,
    schema: LlmMessage,
    user: LlmMessage,
    recent: Seq<LlmMessage>,
    next_turn_id: Seq<char>,
    visibility: LlmMessageVisibility,
    lines: Seq<Seq<char>>,
) -> bool {
    &&& r.len() == recent.len() + 3
    &&& r[0] == schema
    &&& r[1] == user
    &&& r.subrange(2, r.len() - 1) == recent
    &&& r.last().turn_id@ == next_turn_id
    &&& r.last().role is System
    &&& r.last().visibility == visibility
    &&& r.last().content@ == spec_join(lines, "\n"@)
}

fn follow_up_request(
    schema: &LlmMessage,
    user: &LlmMessage,
    recent: Vec<LlmMessage>,
    next_turn_id: &str,
    visibility: LlmMessageVisibility,
    lines: &Vec<String>,
) -> (r: Vec<LlmMessage>)
    ensures
        spec_follow_up_request(r@, *schema, *user, recent@, next_turn_id@, visibility, string_views(lines@)),
{
    let mut messages: Vec<LlmMessage> = Vec::new();
    messages.push(schema.clone());
    messages.push(user.clone());
    let ghost head = messages@;
    let mut i: usize = 0;
    while i < recent.len()
        invariant
            head.len() == 2,
            i <= recent@.len(),
            messages@ == head + recent@.take(i as int),
        decreases recent@.len() - i,
    {
        messages.push(recent[i].clone());
        assert(recent@.take(i + 1) =~= recent@.take(i as int).push(recent@[i as int]));
        i = i + 1;
    }
    assert(recent@.take(i as int) =~= recent@);
    let ghost mid = messages@;
    messages.push(LlmMessage {
        turn_id: String::from_str(next_turn_id),
        role: LlmMessageRole::System,
        visibility,
        content: join_strings(lines, "\n"),
    });
    assert(messages@.subrange(2, messages@.len() - 1) =~= recent@);
    messages
}

/// The instruction lines of a request that continues after an observation.
pub open spec fn spec_tool_loop_lines(
    contract: Seq<Seq<char>>,
    observation_content: Seq<char>,
    signatures: Seq<Seq<char>>,
) -> Seq<Seq<char>> {
    seq!["Continue from the latest AHREUM_TOOL_OBSERVATION."@] + contract + spec_tool_loop_rules()
        + spec_candidate_guidance(observation_content) + spec_loop_state_lines(signatures)
}

pub open spec fn spec_contract_lines(c: ResponseContractLines, with_paths: bool) -> Seq<Seq<char>> {
    string_views(c.response_boundary@) + string_views(c.payload_ordering@)
        + if with_paths { string_views(c.tool_path_selection@) } else { Seq::empty() }
}

fn push_contract_lines(lines: &mut Vec<String>, contract: &ResponseContractLines, with_paths: bool)
    ensures
        string_views(final(lines)@) == string_views(old(lines)@) + spec_contract_lines(*contract, with_paths),
{
    let ghost start = string_views(lines@);
    push_all(lines, clone_strings(&contract.response_boundary));
    push_all(lines, clone_strings(&contract.payload_ordering));
    if with_paths {
        push_all(lines, clone_strings(&contract.tool_path_selection));
    }
    assert(string_views(lines@) =~= start + spec_contract_lines(*contract, with_paths));
}

pub fn tool_loop_request_messages(
    schema_message: &LlmMessage,
    user_message: &LlmMessage,
    observation_message: &LlmMessage,
    executed_tool_records: &Vec<ToolLoopExecutionRecord>,
    executed_tool_signatures: &Vec<String>,
    next_turn_id: &str,
    contract: &ResponseContractLines,
) -> (r: Vec<LlmMessage>)
    ensures
        spec_follow_up_request(
            r@,
            *schema_message,
            *user_message,
            spec_recent_messages(record_views(executed_tool_records@), *observation_message),
            next_turn_id@,
            observation_message.visibility,
            spec_tool_loop_lines(
                spec_contract_lines(*contract, true),
                observation_message.content@,
                string_views(executed_tool_signatures@),
            ),
        ),
{
    let mut lines: Vec<String> = Vec::new();
    lines.push(String::from_str("Continue from the latest AHREUM_TOOL_OBSERVATION."));
    push_contract_lines(&mut lines, contract, true);
    push_tool_loop_rules(&mut lines);
    append_read_candidate_guidance(&mut lines, observation_message.content.as_str());
    push_all(&mut lines, tool_loop_state_lines(executed_tool_signatures));
    assert(string_views(lines@) =~= spec_tool_loop_lines(
        spec_contract_lines(*contract, true),
        observation_message.content@,
        string_views(executed_tool_signatures@),
    ));
    let recent = recent_tool_observation_messages_with_latest(executed_tool_records, observation_message);
    follow_up_request(schema_message, user_message, recent, next_turn_id, observation_message.visibility, &lines)
}

pub open spec fn spec_repeat_answer_lines(
    contract: Seq<Seq<char>>,
    signature: Seq<char>,
    observation_content: Seq<char>,
    signatures: Seq<Seq<char>>,
) -> Seq<Seq<char>> {
    seq![
        "The latest assistant response proposed a tool candidate that has already been executed successfully."@,
        "duplicate_tool_candidate: "@ + signature,
        "That previous observation succeeded, was not truncated, and provided no next_range_hint."@,
    ] + contract + spec_repeat_answer_rules() + spec_candidate_guidance(observation_content)
        + spec_loop_state_lines(signatures)
}

pub fn tool_repeat_answer_request_messages(
    schema_message: &LlmMessage,
    user_message: &LlmMessage,
    execution_record: &ToolLoopExecutionRecord,
    executed_tool_records: &Vec<ToolLoopExecutionRecord>,
    executed_tool_signatures: &Vec<String>,
    next_turn_id: &str,
    contract: &ResponseContractLines,
) -> (r: Vec<LlmMessage>)
    ensures
        spec_follow_up_request(
            r@,
            *schema_message,
            *user_message,
            spec_recent_messages(record_views(executed_tool_records@), execution_record.observation_message),
            next_turn_id@,
            execution_record.observation_message.visibility,
            spec_repeat_answer_lines(
                spec_contract_lines(*contract, false),
                execution_record.signature@,
                execution_record.observation_message.content@,
                string_views(executed_tool_signatures@),
            ),
        ),
{
    let mut lines: Vec<String> = Vec::new();
    lines.push(String::from_str(
        "The latest assistant response proposed a tool candidate that has already been executed successfully.",
    ));
    lines.push(String::from_str("duplicate_tool_candidate: ").concat(execution_record.signature.as_str()));
    lines.push(String::from_str("That previous observation succeeded, was not truncated, and provided no next_range_hint."));
    push_contract_lines(&mut lines, contract, false);
    push_repeat_answer_rules(&mut lines);
    append_read_candidate_guidance(&mut lines, execution_record.observation_message.content.as_str());
    push_all(&mut lines, tool_loop_state_lines(executed_tool_signatures));
    assert(string_views(lines@) =~= spec_repeat_answer_lines(
        spec_contract_lines(*contract, false),
        execution_record.signature@,
        execution_record.observation_message.content@,
        string_views(executed_tool_signatures@),
    ));
    let recent = recent_tool_observation_messages_with_latest(executed_tool_records, &execution_record.observation_message);
    follow_up_request(
        schema_message,
        user_message,
        recent,
        next_turn_id,
        execution_record.observation_message.visibility,
        &lines,
    )
}

pub open spec fn spec_repeat_continuation_lines(
    contract: Seq<Seq<char>>,
    signature: Seq<char>,
    signatures: Seq<Seq<char>>,
) -> Seq<Seq<char>> {
    seq![
        "The latest assistant response repeated a tool candidate whose previous observation was truncated or had next_range_hint."@,
        "duplicate_tool_candidate: "@ + signature,
        "Repeating the same tool_name and arguments cannot provide new workspace evidence."@,
    ] + contract + spec_repeat_continuation_rules() + spec_loop_state_lines(signatures)
}

pub fn tool_repeat_continuation_request_messages(
    schema_message: &LlmMessage,
    user_message: &LlmMessage,
    execution_record: &ToolLoopExecutionRecord,
    executed_tool_records: &Vec<ToolLoopExecutionRecord>,
    executed_tool_signatures: &Vec<String>,
    next_turn_id: &str,
    contract: &ResponseContractLines,
) -> (r: Vec<LlmMessage>)
    ensures
        spec_follow_up_request(
            r@,
            *schema_message,
            *user_message,
            spec_recent_messages(record_views(executed_tool_records@), execution_record.observation_message),
            next_turn_id@,
            execution_record.observation_message.visibility,
            spec_repeat_continuation_lines(
                spec_contract_lines(*contract, true),
                execution_record.signature@,
                string_views(executed_tool_signatures@),
            ),
        ),
{
    let mut lines: Vec<String> = Vec::new();
    lines.push(String::from_str(
        "The latest assistant response repeated a tool candidate whose previous observation was truncated or had next_range_hint.",
    ));
    lines.push(String::from_str("duplicate_tool_candidate: ").concat(execution_record.signature.as_str()));
    lines.push(String::from_str("Repeating the same tool_name and arguments cannot provide new workspace evidence."));
    push_contract_lines(&mut lines, contract, true);
    push_repeat_continuation_rules(&mut lines);
    push_all(&mut lines, tool_loop_state_lines(executed_tool_signatures));
    assert(string_views(lines@) =~= spec_repeat_continuation_lines(
        spec_contract_lines(*contract, true),
        execution_record.signature@,
        string_views(executed_tool_signatures@),
    ));
    let recent = recent_tool_observation_messages_with_latest(executed_tool_records, &execution_record.observation_message);
    follow_up_request(
        schema_message,
        user_message,
        recent,
        next_turn_id,
        execution_record.observation_message.visibility,
        &lines,
    )
}

pub open spec fn spec_repeat_failure_lines(
    contract: Seq<Seq<char>>,
    signature: Seq<char>,
    error_kind: Option<Seq<char>>,
    signatures: Seq<Seq<char>>,
) -> Seq<Seq<char>> {
    seq![
        "The latest assistant response repeated a tool candidate whose previous observation failed."@,
        "duplicate_tool_candidate: "@ + signature,
        "previous_failure_kind: "@ + match error_kind {
            Some(k) => k,
            None => "execution_error"@,
        },
        "Repeating the same tool_name and arguments cannot provide new workspace evidence."@,
    ] + contract + spec_repeat_failure_rules() + spec_loop_state_lines(signatures)
}

pub fn tool_repeat_failure_request_messages(
    schema_message: &LlmMessage,
    user_message: &LlmMessage,
    execution_record: &ToolLoopExecutionRecord,
    executed_tool_records: &Vec<ToolLoopExecutionRecord>,
    executed_tool_signatures: &Vec<String>,
    next_turn_id: &str,
    contract: &ResponseContractLines,
) -> (r: Vec<LlmMessage>)
    ensures
        spec_follow_up_request(
            r@,
            *schema_message,
            *user_message,
            spec_recent_messages(record_views(executed_tool_records@), execution_record.observation_message),
            next_turn_id@,
            execution_record.observation_message.visibility,
            spec_repeat_failure_lines(
                spec_contract_lines(*contract, false),
                execution_record.signature@,
                execution_record.observation@.error_kind,
                string_views(executed_tool_signatures@),
            ),
        ),
{
    let kind: &str = match execution_record.observation.error_kind {
        Some(k) => k,
        None => "execution_error",
    };
    let mut lines: Vec<String> = Vec::new();
    lines.push(String::from_str("The latest assistant response repeated a tool candidate whose previous observation failed."));
    lines.push(String::from_str("duplicate_tool_candidate: ").concat(execution_record.signature.as_str()));
    lines.push(String::from_str("previous_failure_kind: ").concat(kind));
    lines.push(String::from_str("Repeating the same tool_name and arguments cannot provide new workspace evidence."));
    push_contract_lines(&mut lines, contract, false);
    push_repeat_failure_rules(&mut lines);
    push_all(&mut lines, tool_loop_state_lines(executed_tool_signatures));
    assert(string_views(lines@) =~= spec_repeat_failure_lines(
        spec_contract_lines(*contract, false),
        execution_record.signature@,
        execution_record.observation@.error_kind,
        string_views(executed_tool_signatures@),
    ));
    let recent = recent_tool_observation_messages_with_latest(executed_tool_records, &execution_record.observation_message);
    follow_up_request(
        schema_message,
        user_message,
        recent,
        next_turn_id,
        execution_record.observation_message.visibility,
        &lines,
    )
}

/// The messages of a repair request: the run's history without the
/// assistant's replies.
pub fn repair_request_messages(history: &MessageHistory) -> (r: Vec<LlmMessage>)
    ensures
        r@ == history.messages@.filter(|m: LlmMessage| !(m.role is Assistant)),
{
    let ghost p = |m: LlmMessage| !(m.role is Assistant);
    let mut out: Vec<LlmMessage> = Vec::new();
    let mut i: usize = 0;
    while i < history.messages.len()
        invariant
            i <= history.messages@.len(),
            p == (|m: LlmMessage| !(m.role is Assistant)),
            out@ == history.messages@.subrange(0, i as int).filter(p),
        decreases history.messages@.len() - i,
    {
        proof { lemma_filter_step(history.messages@, i as int, p); }
        if history.messages[i].role != LlmMessageRole::Assistant {
            out.push(history.messages[i].clone());
        }
        i = i + 1;
    }
    assert(history.messages@.subrange(0, i as int) =~= history.messages@);
    out
}


// ----- laws -----

/// The answer boundary never makes an answer: a decision that was not an
/// answer comes out as something other than an answer.
pub proof fn lemma_boundary_never_creates_answers(
    rs: Seq<RecordView>,
    last: Option<ObservationView>,
    last_success: Option<ObservationView>,
    pending_change: Option<Seq<char>>,
    d: DecisionView,
)
    requires
        !(d is Answer),
    ensures
        !(spec_final_answer_boundary(rs, last, last_success, pending_change, d) is Answer),
{
}

/// An answer that gets through the boundary is the answer given, and when
/// tools ran it is backed: some observation showed something, no failed
/// change is left unresolved, no prerequisite read waits for its change, and
/// no failed direct read still lacks the file's content.
pub proof fn lemma_answer_passes_only_with_evidence(
    rs: Seq<RecordView>,
    last: Option<ObservationView>,
    last_success: Option<ObservationView>,
    pending_change: Option<Seq<char>>,
    d: DecisionView,
)
    requires
        spec_final_answer_boundary(rs, last, last_success, pending_change, d) is Answer,
    ensures
        spec_final_answer_boundary(rs, last, last_success, pending_change, d) == d,
        rs.len() > 0 ==> {
            &&& spec_has_informative(rs)
            &&& spec_unresolved_change(rs, rs.len() as int) < 0
            &&& pending_change is None
            &&& !spec_needs_file_content(rs)
        },
{
}

/// The change boundary only ever turns an update or delete into a read of
/// the same target; every other decision passes unchanged.
pub proof fn lemma_change_boundary_only_inserts_reads(rs: Seq<RecordView>, d: DecisionView)
    ensures
        spec_change_boundary(rs, d) == d || ({
            &&& d matches DecisionView::ApprovalNeeded { tool_name, change_preview, .. }
            &&& tool_name == "apply_patch"@
            &&& change_preview matches Some(cp)
            &&& (cp.operation is Update || cp.operation is Delete)
            &&& spec_change_boundary(rs, d) == (DecisionView::ToolCandidatePending {
                activity: Activity::Explore,
                tool_name: "read_file"@,
                arguments: spec_read_args(cp.target_path),
                summary: "Read the existing target before applying an update or delete patch."@,
            })
        }),
{
}

/// A run ends from the fallback only with an informative success, never
/// after an invalid payload and never while evidence rules say the work is
/// unfinished.
pub proof fn lemma_fallback_needs_finished_evidence(
    rs: Seq<RecordView>,
    last_success: Option<ObservationView>,
    pending_change: Option<Seq<char>>,
    fallback_reason: Seq<char>,
)
    requires
        spec_completed_fallback(rs, last_success, pending_change, fallback_reason) is Some,
    ensures
        last_success matches Some(o) && spec_informative(o),
        fallback_reason != "payload_validation_failed"@,
        rs.len() > 0,
        pending_change is None,
        spec_unresolved_change(rs, rs.len() as int) < 0,
        !spec_needs_file_content(rs),
{
}

/// A repeated approval of a candidate that failed is blocked, never answered.
pub proof fn lemma_failed_duplicate_approval_is_blocked(rs: Seq<RecordView>, signature: Seq<char>)
    requires
        spec_last_where(rs, sig_is(signature)) >= 0,
        spec_is_failed(rs[spec_last_where(rs, sig_is(signature))].observation),
    ensures
        spec_duplicate_approval_decision(rs, signature) matches Some(d) && d is Blocked,
{
}

/// A failed change stays unresolved until a later success on the same
/// target: a success on another target leaves it in place.
pub proof fn lemma_other_target_success_keeps_failed_change(rs: Seq<RecordView>, success: RecordView)
    requires
        spec_unresolved_change(rs, rs.len() as int) >= 0,
        !(success.observation.target is Some
            && success.observation.target == rs[spec_unresolved_change(rs, rs.len() as int)].observation.target),
    ensures
        spec_unresolved_change(rs.push(success), (rs.len() + 1) as int) >= 0,
{
    let i = spec_unresolved_change(rs, rs.len() as int);
    lemma_unresolved_bounds(rs, rs.len() as int);
    let t = rs.push(success);
    assert(t[i] == rs[i]);
    assert forall|j: int| i < j < t.len() implies !resolves(#[trigger] t[j], t[i]) by {
        if j < rs.len() {
            assert(t[j] == rs[j]);
        }
    }
    assert(is_unresolved_failed_change(t, i));
    lemma_unresolved_found(t, t.len() as int, i);
}

proof fn lemma_unresolved_bounds(rs: Seq<RecordView>, n: int)
    requires
        0 <= n <= rs.len(),
    ensures
        -1 <= spec_unresolved_change(rs, n) < n,
        spec_unresolved_change(rs, n) >= 0 ==> is_unresolved_failed_change(rs, spec_unresolved_change(rs, n)),
    decreases n,
{
    if n > 0 && !is_unresolved_failed_change(rs, n - 1) {
        lemma_unresolved_bounds(rs, n - 1);
    }
}

proof fn lemma_unresolved_found(rs: Seq<RecordView>, n: int, i: int)
    requires
        0 <= i < n <= rs.len(),
        is_unresolved_failed_change(rs, i),
    ensures
        spec_unresolved_change(rs, n) >= i,
    decreases n,
{
    if n - 1 != i && !is_unresolved_failed_change(rs, n - 1) {
        lemma_unresolved_found(rs, n - 1, i);
    }
}

/// How a repeat of an executed candidate is redirected, by what its
/// observation showed: a success with no error kind is settled only when
/// nothing was cut short, and is read on when anything was truncated or a
/// next range is hinted; a failure or an error kind is a failed duplicate.
pub proof fn lemma_repeat_redirect_by_observation(o: ObservationView)
    ensures
        (o.status == "succeeded"@ && o.error_kind is None) ==> if o.truncated || o.source_truncated
            || o.preview_truncated || o.has_next_range_hint {
            spec_repeat_redirect(o) == Some(ToolLoopRepeatRedirect::TruncatedContinuation)
        } else {
            spec_repeat_redirect(o) == Some(ToolLoopRepeatRedirect::SettledDuplicate)
        },
        (o.status == "failed"@ || o.error_kind is Some) ==> spec_repeat_redirect(o) == Some(
            ToolLoopRepeatRedirect::FailedDuplicate,
        ),
{
    reveal_strlit("succeeded");
    reveal_strlit("failed");
    if o.status == "failed"@ {
        assert(o.status != "succeeded"@) by {
            assert(o.status.len() != "succeeded"@.len());
        }
    }
}

} // verus!
