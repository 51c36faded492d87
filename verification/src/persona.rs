//! The persona messenger: fixed team speakers, their messages, the bounded
//! message buffer, and the catalog that keeps runtime events out of it.
use vstd::prelude::*;
use crate::approval::{clamp_offset, spec_clamp};
use crate::text::{spec_trim, spec_zero_padded, trim, zero_padded};

verus! {

pub const MIN_PERSONA_TERMINAL_WIDTH: u16 = 140;
pub const MIN_PERSONA_PANEL_WIDTH: u16 = 36;
pub const MAX_PERSONA_MESSAGES: usize = 80;
pub const MAX_PERSONA_MESSAGE_CHARS: usize = 180;

#[derive(Clone, Copy, Debug, PartialEq, Eq, Structural)]
pub enum PersonaSpeaker {
    Lead,
    Planning,
    Implementation,
    Verification,
    Documentation,
}

#[derive(Clone, Copy, Debug, PartialEq, Eq, Structural)]
pub enum PersonaSpeakerRole {
    Lead,
    Member,
}

impl PersonaSpeaker {
    pub open spec fn spec_name(self) -> Seq<char> {
        match self {
            PersonaSpeaker::Lead => "팀장"@,
            PersonaSpeaker::Planning => "지윤"@,
            PersonaSpeaker::Implementation => "민호"@,
            PersonaSpeaker::Verification => "서연"@,
            PersonaSpeaker::Documentation => "하준"@,
        }
    }

    pub open spec fn spec_role_label(self) -> Option<Seq<char>> {
        match self {
            PersonaSpeaker::Lead => None,
            PersonaSpeaker::Planning => Some("기획/설계"@),
            PersonaSpeaker::Implementation => Some("구현"@),
            PersonaSpeaker::Verification => Some("검증"@),
            PersonaSpeaker::Documentation => Some("문서"@),
        }
    }

    pub open spec fn spec_speaker_role(self) -> PersonaSpeakerRole {
        match self {
            PersonaSpeaker::Lead => PersonaSpeakerRole::Lead,
            _ => PersonaSpeakerRole::Member,
        }
    }

    /// The speaker an internal id names, if any.
    pub open spec fn spec_from_id(value: Seq<char>) -> Option<PersonaSpeaker> {
        if value == "lead"@ {
            Some(PersonaSpeaker::Lead)
        } else if value == "planning"@ {
            Some(PersonaSpeaker::Planning)
        } else if value == "implementation"@ {
            Some(PersonaSpeaker::Implementation)
        } else if value == "verification"@ {
            Some(PersonaSpeaker::Verification)
        } else if value == "documentation"@ {
            Some(PersonaSpeaker::Documentation)
        } else {
            None
        }
    }

    pub fn name(self) -> (r: &'static str)
        ensures
            r@ == self.spec_name(),
    {
        match self {
            PersonaSpeaker::Lead => "팀장",
            PersonaSpeaker::Planning => "지윤",
            PersonaSpeaker::Implementation => "민호",
            PersonaSpeaker::Verification => "서연",
            PersonaSpeaker::Documentation => "하준",
        }
    }

    pub fn role_label(self) -> (r: Option<&'static str>)
        ensures
            match self.spec_role_label() {
                Some(l) => r matches Some(x) && x@ == l,
                None => r is None,
            },
    {
        match self {
            PersonaSpeaker::Lead => None,
            PersonaSpeaker::Planning => Some("기획/설계"),
            PersonaSpeaker::Implementation => Some("구현"),
            PersonaSpeaker::Verification => Some("검증"),
            PersonaSpeaker::Documentation => Some("문서"),
        }
    }

    pub fn speaker_role(self) -> (r: PersonaSpeakerRole)
        ensures
            r == self.spec_speaker_role(),
    {
        match self {
            PersonaSpeaker::Lead => PersonaSpeakerRole::Lead,
            PersonaSpeaker::Planning | PersonaSpeaker::Implementation
            | PersonaSpeaker::Verification | PersonaSpeaker::Documentation => PersonaSpeakerRole::Member,
        }
    }

    pub fn from_id(value: &str) -> (r: Option<PersonaSpeaker>)
        ensures
            r == Self::spec_from_id(value@),
    {
        if crate::text::str_eq(value, "lead") {
            Some(PersonaSpeaker::Lead)
        } else if crate::text::str_eq(value, "planning") {
            Some(PersonaSpeaker::Planning)
        } else if crate::text::str_eq(value, "implementation") {
            Some(PersonaSpeaker::Implementation)
        } else if crate::text::str_eq(value, "verification") {
            Some(PersonaSpeaker::Verification)
        } else if crate::text::str_eq(value, "documentation") {
            Some(PersonaSpeaker::Documentation)
        } else {
            None
        }
    }
}

#[verifier::external_type_specification]
#[verifier::external_body]
pub struct ExOffsetDateTime(time::OffsetDateTime);

#[verifier::external_type_specification]
#[verifier::external_body]
pub struct ExIndeterminateOffset(time::error::IndeterminateOffset);

/// `time::OffsetDateTime::now_local`: the current date and time in the
/// local offset, or an error when that offset cannot be determined. Which
/// instant is read is not promised.
#[verifier::external_body]
fn now_local() -> Result<time::OffsetDateTime, time::error::IndeterminateOffset> {
    time::OffsetDateTime::now_local()
}

/// `time::OffsetDateTime::now_utc`: the current date and time in UTC. Which
/// instant is read is not promised.
#[verifier::external_body]
fn now_utc() -> time::OffsetDateTime {
    time::OffsetDateTime::now_utc()
}

/// `time::OffsetDateTime::hour`: the clock hour, which the crate documents
/// as always in `0..24`.
#[verifier::external_body]
fn clock_hour(t: &time::OffsetDateTime) -> (r: u8)
    ensures
        r < 24,
{
    t.hour()
}

/// `time::OffsetDateTime::minute`: the minute within the hour, which the
/// crate documents as always in `0..60`.
#[verifier::external_body]
fn clock_minute(t: &time::OffsetDateTime) -> (r: u8)
    ensures
        r < 60,
{
    t.minute()
}

/// The local wall-clock hour and minute, in UTC when the local offset is
/// unknown.
fn local_hour_minute() -> (r: (u8, u8))
    ensures
        r.0 < 24,
        r.1 < 60,
{
    let now = match now_local() {
        Ok(now) => now,
        Err(_) => now_utc(),
    };
    (clock_hour(&now), clock_minute(&now))
}

pub open spec fn spec_clock_label(hour: nat, minute: nat) -> Seq<char> {
    spec_zero_padded(hour, 2) + ":"@ + spec_zero_padded(minute, 2)
}

/// `HH:MM` for a wall-clock time.
pub fn clock_label(hour: u8, minute: u8) -> (r: String)
    ensures
        r@ == spec_clock_label(hour as nat, minute as nat),
{
    let h = zero_padded(hour as u64, 2);
    let m = zero_padded(minute as u64, 2);
    h.concat(":").concat(m.as_str())
}

fn current_time_label() -> (r: String)
    ensures
        exists|h: nat, m: nat| h < 24 && m < 60 && r@ == spec_clock_label(h, m),
{
    let (h, m) = local_hour_minute();
    clock_label(h, m)
}

#[derive(Debug, PartialEq, Eq)]
pub struct PersonaMessage {
    pub speaker: PersonaSpeaker,
    pub time_label: String,
    pub body: String,
    pub repeat_count: u16,
}

impl Clone for PersonaMessage {
    fn clone(&self) -> (r: Self)
        ensures
            r == *self,
    {
        PersonaMessage {
            speaker: self.speaker,
            time_label: self.time_label.clone(),
            body: self.body.clone(),
            repeat_count: self.repeat_count,
        }
    }
}

impl PersonaMessage {
    /// A new message stamped with the current local time.
    pub fn from_speaker(speaker: PersonaSpeaker, body: &str) -> (r: Self)
        ensures
            r.speaker == speaker,
            r.body@ == body@,
            r.repeat_count == 1,
            exists|h: nat, m: nat| h < 24 && m < 60 && r.time_label@ == spec_clock_label(h, m),
    {
        PersonaMessage {
            speaker,
            time_label: current_time_label(),
            body: String::from_str(body),
            repeat_count: 1,
        }
    }

    /// A message from the team lead.
    pub fn team_lead(body: &str) -> (r: Self)
        ensures
            r.speaker == PersonaSpeaker::Lead,
            r.body@ == body@,
            r.repeat_count == 1,
            exists|h: nat, m: nat| h < 24 && m < 60 && r.time_label@ == spec_clock_label(h, m),
    {
        Self::from_speaker(PersonaSpeaker::Lead, body)
    }

    pub fn role(&self) -> (r: PersonaSpeakerRole)
        ensures
            r == self.speaker.spec_speaker_role(),
    {
        self.speaker.speaker_role()
    }

    pub open spec fn spec_can_coalesce_with(&self, other: &Self) -> bool {
        self.speaker == other.speaker && self.body@ == other.body@
    }

    fn can_coalesce_with(&self, other: &Self) -> (r: bool)
        ensures
            r == self.spec_can_coalesce_with(other),
    {
        self.speaker == other.speaker && self.body == other.body
    }
}

/// `m` repeated once more: stamped with `later`'s time, count incremented (saturating).
pub open spec fn spec_merged(m: PersonaMessage, later: PersonaMessage) -> PersonaMessage {
    PersonaMessage {
        speaker: m.speaker,
        time_label: later.time_label,
        body: m.body,
        repeat_count: if m.repeat_count == u16::MAX { u16::MAX } else { (m.repeat_count + 1) as u16 },
    }
}

/// The buffer after receiving `m`: a message equal in speaker and body to the
/// latest one is folded into it; otherwise `m` is appended and only the newest
/// `MAX_PERSONA_MESSAGES` are kept.
pub open spec fn spec_push_message(messages: Seq<PersonaMessage>, m: PersonaMessage) -> Seq<PersonaMessage> {
    if messages.len() > 0 && messages.last().spec_can_coalesce_with(&m) {
        messages.update(messages.len() - 1, spec_merged(messages.last(), m))
    } else {
        let s = messages.push(m);
        if s.len() > MAX_PERSONA_MESSAGES {
            s.subrange(s.len() - MAX_PERSONA_MESSAGES, s.len() as int)
        } else {
            s
        }
    }
}

pub struct PersonaBuffer {
    messages: Vec<PersonaMessage>,
    scroll: usize,
    render_pending: bool,
}

pub struct PersonaRendered {
    pub message_count: usize,
}

impl PersonaBuffer {
    pub closed spec fn spec_messages(&self) -> Seq<PersonaMessage> {
        self.messages@
    }

    pub closed spec fn spec_scroll(&self) -> nat {
        self.scroll as nat
    }

    pub closed spec fn spec_render_pending(&self) -> bool {
        self.render_pending
    }

    pub fn new() -> (r: Self)
        ensures
            r.spec_messages().len() == 0,
            r.spec_scroll() == 0,
            !r.spec_render_pending(),
    {
        PersonaBuffer { messages: Vec::new(), scroll: 0, render_pending: false }
    }

    pub fn push_message(&mut self, message: PersonaMessage)
        ensures
            final(self).spec_messages() == spec_push_message(old(self).spec_messages(), message),
            final(self).spec_scroll() == 0,
            final(self).spec_render_pending(),
    {
        let n = self.messages.len();
        if n > 0 && self.messages[n - 1].can_coalesce_with(&message) {
            let last = &self.messages[n - 1];
            let merged = PersonaMessage {
                speaker: last.speaker,
                time_label: message.time_label,
                body: last.body.clone(),
                repeat_count: last.repeat_count.saturating_add(1),
            };
            self.messages.set(n - 1, merged);
            self.scroll = 0;
            self.render_pending = true;
            return;
        }
        self.messages.push(message);
        self.trim_to_retention_limit();
        self.scroll = 0;
        self.render_pending = true;
    }

    pub fn messages(&self) -> (r: &[PersonaMessage])
        ensures
            r@ == self.spec_messages(),
    {
        self.messages.as_slice()
    }

    pub fn message_count(&self) -> (r: usize)
        ensures
            r == self.spec_messages().len(),
    {
        self.messages.len()
    }

    /// Scrolls by `delta`, within three rendered lines per message.
    pub fn scroll(&mut self, delta: isize)
        ensures
            final(self).spec_messages() == old(self).spec_messages(),
            ({
                let total = if old(self).spec_messages().len() * 3 > usize::MAX {
                    usize::MAX as int
                } else {
                    (old(self).spec_messages().len() * 3) as int
                };
                let max = if total == 0 { 0 } else { total - 1 };
                final(self).spec_scroll() == spec_clamp(old(self).spec_scroll() as int, delta as int, max)
            }),
            final(self).spec_render_pending() == (old(self).spec_render_pending()
                || final(self).spec_scroll() != old(self).spec_scroll()),
    {
        let previous = self.scroll;
        let n = self.messages.len();
        let total = if n > usize::MAX / 3 { usize::MAX } else { n * 3 };
        let max_scroll = total.saturating_sub(1);
        self.scroll = clamp_offset(self.scroll, delta, max_scroll);
        if self.scroll != previous {
            self.render_pending = true;
        }
    }

    pub fn scroll_offset(&self) -> (r: usize)
        ensures
            r == self.spec_scroll(),
    {
        self.scroll
    }

    pub fn take_render_event(&mut self) -> (r: Option<PersonaRendered>)
        ensures
            final(self).spec_messages() == old(self).spec_messages(),
            final(self).spec_scroll() == old(self).spec_scroll(),
            !final(self).spec_render_pending(),
            !old(self).spec_render_pending() ==> r is None,
            old(self).spec_render_pending() ==> (r matches Some(e) && e.message_count
                == old(self).spec_messages().len()),
    {
        if !self.render_pending {
            return None;
        }
        self.render_pending = false;
        Some(PersonaRendered { message_count: self.messages.len() })
    }

    fn trim_to_retention_limit(&mut self)
        ensures
            final(self).spec_messages() == if old(self).spec_messages().len() > MAX_PERSONA_MESSAGES {
                old(self).spec_messages().subrange(
                    old(self).spec_messages().len() - MAX_PERSONA_MESSAGES,
                    old(self).spec_messages().len() as int,
                )
            } else {
                old(self).spec_messages()
            },
            final(self).spec_scroll() == old(self).spec_scroll(),
            final(self).spec_render_pending() == old(self).spec_render_pending(),
    {
        let ghost untrimmed = self.messages@;
        let ghost scroll0 = self.scroll;
        let ghost pending0 = self.render_pending;
        while self.messages.len() > MAX_PERSONA_MESSAGES
            invariant
                self.scroll == scroll0,
                self.render_pending == pending0,
                untrimmed.len() >= self.messages@.len(),
                self.messages@ == untrimmed.subrange(untrimmed.len() - self.messages@.len(), untrimmed.len() as int),
                untrimmed.len() > MAX_PERSONA_MESSAGES ==> self.messages@.len() >= MAX_PERSONA_MESSAGES,
                untrimmed.len() <= MAX_PERSONA_MESSAGES ==> self.messages@ == untrimmed,
            decreases self.messages@.len(),
        {
            self.messages.remove(0);
        }
        assert(untrimmed.subrange(untrimmed.len() - untrimmed.len(), untrimmed.len() as int) =~= untrimmed);
    }
}

impl Default for PersonaBuffer {
    fn default() -> (r: Self)
        ensures
            r.spec_messages().len() == 0,
            r.spec_scroll() == 0,
            !r.spec_render_pending(),
    {
        Self::new()
    }
}

/// Pushing into a buffer of at most `MAX_PERSONA_MESSAGES` messages keeps it
/// within that bound.
pub proof fn lemma_push_message_respects_retention(messages: Seq<PersonaMessage>, m: PersonaMessage)
    ensures
        spec_push_message(messages, m).len() <= if messages.len() > MAX_PERSONA_MESSAGES {
            messages.len()
        } else {
            MAX_PERSONA_MESSAGES as nat
        },
        spec_push_message(messages, m).len() > 0,
{
}

/// Pushing the same speaker and body twice in a row keeps one message whose
/// repeat count grew by one (saturating), and leaves the length unchanged.
pub proof fn lemma_consecutive_duplicates_coalesce(messages: Seq<PersonaMessage>, m: PersonaMessage, again: PersonaMessage)
    requires
        m.spec_can_coalesce_with(&again),
    ensures
        ({
            let once = spec_push_message(messages, m);
            let twice = spec_push_message(once, again);
            &&& twice.len() == once.len()
            &&& twice.last().speaker == m.speaker
            &&& twice.last().body@ == m.body@
            &&& twice.last().repeat_count == if once.last().repeat_count == u16::MAX {
                u16::MAX
            } else {
                (once.last().repeat_count + 1) as u16
            }
        }),
{
    let once = spec_push_message(messages, m);
    assert(once.len() > 0);
    assert(once.last().speaker == m.speaker && once.last().body@ == m.body@);
}

pub enum PersonaEvent {
    PanelOpened,
    PanelClosed,
    WidthRejected { width: u16, min_width: u16 },
}

pub struct PersonaEvents {
    pub events: Vec<PersonaEvent>,
}

impl PersonaEvents {
    pub fn none() -> (r: Self)
        ensures
            r.events@.len() == 0,
    {
        PersonaEvents { events: Vec::new() }
    }

    pub fn single(event: PersonaEvent) -> (r: Self)
        ensures
            r.events@ == seq![event],
    {
        PersonaEvents { events: vec![event] }
    }
}


#[derive(Clone, Copy, Debug, PartialEq, Eq, Structural)]
pub enum PersonaRuntimeEvent {
    LlmRequestStarted,
    LlmResponseReceived,
    LlmRequestFailed,
    RuntimeResponseParsed,
    RuntimeResponseParseFailed,
    SchemaValidationFailed,
    RuntimeDecisionRecorded,
    RuntimeDecisionFailed,
    RepairRequestStarted,
    RepairSucceeded,
    RepairLimitReached,
    ToolCandidateClassified,
    ToolPermissionAllowed,
    ToolPermissionApprovalNeeded,
    ToolPermissionDenied,
    ToolExecutionStarted,
    ToolExecutionSucceeded,
    ToolExecutionFailed,
    ToolLoopDuplicateRedirected,
    ToolLoopLimitReached,
    RawResponseReceived,
    MessageRecorded,
    ToolObservationAttached,
    ToolWorkspaceSummaryRendered,
    FinalAnswerRecorded,
    WorkspaceSystemNotice,
}

impl PersonaRuntimeEvent {
    pub open spec fn spec_as_str(self) -> Seq<char> {
        match self {
            PersonaRuntimeEvent::LlmRequestStarted => "llm_request_started"@,
            PersonaRuntimeEvent::LlmResponseReceived => "llm_response_received"@,
            PersonaRuntimeEvent::LlmRequestFailed => "llm_request_failed"@,
            PersonaRuntimeEvent::RuntimeResponseParsed => "runtime_response_parsed"@,
            PersonaRuntimeEvent::RuntimeResponseParseFailed => "runtime_response_parse_failed"@,
            PersonaRuntimeEvent::SchemaValidationFailed => "schema_validation_failed"@,
            PersonaRuntimeEvent::RuntimeDecisionRecorded => "runtime_decision_recorded"@,
            PersonaRuntimeEvent::RuntimeDecisionFailed => "runtime_decision_failed"@,
            PersonaRuntimeEvent::RepairRequestStarted => "repair_request_started"@,
            PersonaRuntimeEvent::RepairSucceeded => "repair_succeeded"@,
            PersonaRuntimeEvent::RepairLimitReached => "repair_limit_reached"@,
            PersonaRuntimeEvent::ToolCandidateClassified => "tool_candidate_classified"@,
            PersonaRuntimeEvent::ToolPermissionAllowed => "tool_permission_allowed"@,
            PersonaRuntimeEvent::ToolPermissionApprovalNeeded => "tool_permission_approval_needed"@,
            PersonaRuntimeEvent::ToolPermissionDenied => "tool_permission_denied"@,
            PersonaRuntimeEvent::ToolExecutionStarted => "tool_execution_started"@,
            PersonaRuntimeEvent::ToolExecutionSucceeded => "tool_execution_succeeded"@,
            PersonaRuntimeEvent::ToolExecutionFailed => "tool_execution_failed"@,
            PersonaRuntimeEvent::ToolLoopDuplicateRedirected => "tool_loop_duplicate_redirected"@,
            PersonaRuntimeEvent::ToolLoopLimitReached => "tool_loop_limit_reached"@,
            PersonaRuntimeEvent::RawResponseReceived => "raw_response_received"@,
            PersonaRuntimeEvent::MessageRecorded => "message_recorded"@,
            PersonaRuntimeEvent::ToolObservationAttached => "tool_observation_attached"@,
            PersonaRuntimeEvent::ToolWorkspaceSummaryRendered => "tool_workspace_summary_rendered"@,
            PersonaRuntimeEvent::FinalAnswerRecorded => "final_answer_recorded"@,
            PersonaRuntimeEvent::WorkspaceSystemNotice => "workspace_system_notice"@,
        }
    }

    /// The event's stable log name.
    pub fn as_str(self) -> (r: &'static str)
        ensures
            r@ == self.spec_as_str(),
    {
        match self {
            PersonaRuntimeEvent::LlmRequestStarted => "llm_request_started",
            PersonaRuntimeEvent::LlmResponseReceived => "llm_response_received",
            PersonaRuntimeEvent::LlmRequestFailed => "llm_request_failed",
            PersonaRuntimeEvent::RuntimeResponseParsed => "runtime_response_parsed",
            PersonaRuntimeEvent::RuntimeResponseParseFailed => "runtime_response_parse_failed",
            PersonaRuntimeEvent::SchemaValidationFailed => "schema_validation_failed",
            PersonaRuntimeEvent::RuntimeDecisionRecorded => "runtime_decision_recorded",
            PersonaRuntimeEvent::RuntimeDecisionFailed => "runtime_decision_failed",
            PersonaRuntimeEvent::RepairRequestStarted => "repair_request_started",
            PersonaRuntimeEvent::RepairSucceeded => "repair_succeeded",
            PersonaRuntimeEvent::RepairLimitReached => "repair_limit_reached",
            PersonaRuntimeEvent::ToolCandidateClassified => "tool_candidate_classified",
            PersonaRuntimeEvent::ToolPermissionAllowed => "tool_permission_allowed",
            PersonaRuntimeEvent::ToolPermissionApprovalNeeded => "tool_permission_approval_needed",
            PersonaRuntimeEvent::ToolPermissionDenied => "tool_permission_denied",
            PersonaRuntimeEvent::ToolExecutionStarted => "tool_execution_started",
            PersonaRuntimeEvent::ToolExecutionSucceeded => "tool_execution_succeeded",
            PersonaRuntimeEvent::ToolExecutionFailed => "tool_execution_failed",
            PersonaRuntimeEvent::ToolLoopDuplicateRedirected => "tool_loop_duplicate_redirected",
            PersonaRuntimeEvent::ToolLoopLimitReached => "tool_loop_limit_reached",
            PersonaRuntimeEvent::RawResponseReceived => "raw_response_received",
            PersonaRuntimeEvent::MessageRecorded => "message_recorded",
            PersonaRuntimeEvent::ToolObservationAttached => "tool_observation_attached",
            PersonaRuntimeEvent::ToolWorkspaceSummaryRendered => "tool_workspace_summary_rendered",
            PersonaRuntimeEvent::FinalAnswerRecorded => "final_answer_recorded",
            PersonaRuntimeEvent::WorkspaceSystemNotice => "workspace_system_notice",
        }
    }
}

#[derive(Clone, Copy, Debug, PartialEq, Eq, Structural)]
pub enum PersonaRuntimeExclusion {
    RuntimeEvent,
    RawModelText,
    InternalHistory,
    ToolOutputBody,
    FinalAnswer,
    SystemNotice,
}

/// Where a runtime event goes: every one stays in the left log, never in the
/// persona panel.
#[derive(Clone, Copy, Debug, PartialEq, Eq, Structural)]
pub enum PersonaRuntimeRoute {
    LeftLogOnly(PersonaRuntimeExclusion),
}

pub open spec fn spec_event_exclusion(event: PersonaRuntimeEvent) -> PersonaRuntimeExclusion {
    match event {
        PersonaRuntimeEvent::LlmRequestStarted => PersonaRuntimeExclusion::RuntimeEvent,
        PersonaRuntimeEvent::LlmResponseReceived => PersonaRuntimeExclusion::RuntimeEvent,
        PersonaRuntimeEvent::LlmRequestFailed => PersonaRuntimeExclusion::RuntimeEvent,
        PersonaRuntimeEvent::RuntimeResponseParsed => PersonaRuntimeExclusion::RuntimeEvent,
        PersonaRuntimeEvent::RuntimeResponseParseFailed => PersonaRuntimeExclusion::RuntimeEvent,
        PersonaRuntimeEvent::SchemaValidationFailed => PersonaRuntimeExclusion::RuntimeEvent,
        PersonaRuntimeEvent::RuntimeDecisionRecorded => PersonaRuntimeExclusion::RuntimeEvent,
        PersonaRuntimeEvent::RuntimeDecisionFailed => PersonaRuntimeExclusion::RuntimeEvent,
        PersonaRuntimeEvent::RepairRequestStarted => PersonaRuntimeExclusion::RuntimeEvent,
        PersonaRuntimeEvent::RepairSucceeded => PersonaRuntimeExclusion::RuntimeEvent,
        PersonaRuntimeEvent::RepairLimitReached => PersonaRuntimeExclusion::RuntimeEvent,
        PersonaRuntimeEvent::ToolCandidateClassified => PersonaRuntimeExclusion::RuntimeEvent,
        PersonaRuntimeEvent::ToolPermissionAllowed => PersonaRuntimeExclusion::RuntimeEvent,
        PersonaRuntimeEvent::ToolPermissionApprovalNeeded => PersonaRuntimeExclusion::RuntimeEvent,
        PersonaRuntimeEvent::ToolPermissionDenied => PersonaRuntimeExclusion::RuntimeEvent,
        PersonaRuntimeEvent::ToolExecutionStarted => PersonaRuntimeExclusion::RuntimeEvent,
        PersonaRuntimeEvent::ToolExecutionSucceeded => PersonaRuntimeExclusion::RuntimeEvent,
        PersonaRuntimeEvent::ToolExecutionFailed => PersonaRuntimeExclusion::RuntimeEvent,
        PersonaRuntimeEvent::ToolLoopDuplicateRedirected => PersonaRuntimeExclusion::RuntimeEvent,
        PersonaRuntimeEvent::ToolLoopLimitReached => PersonaRuntimeExclusion::RuntimeEvent,
        PersonaRuntimeEvent::RawResponseReceived => PersonaRuntimeExclusion::RawModelText,
        PersonaRuntimeEvent::MessageRecorded => PersonaRuntimeExclusion::InternalHistory,
        PersonaRuntimeEvent::ToolObservationAttached => PersonaRuntimeExclusion::ToolOutputBody,
        PersonaRuntimeEvent::ToolWorkspaceSummaryRendered => PersonaRuntimeExclusion::ToolOutputBody,
        PersonaRuntimeEvent::FinalAnswerRecorded => PersonaRuntimeExclusion::FinalAnswer,
        PersonaRuntimeEvent::WorkspaceSystemNotice => PersonaRuntimeExclusion::SystemNotice,
    }
}

pub fn runtime_event_route(event: PersonaRuntimeEvent) -> (r: PersonaRuntimeRoute)
    ensures
        r == PersonaRuntimeRoute::LeftLogOnly(spec_event_exclusion(event)),
{
    let exclusion = match event {
        PersonaRuntimeEvent::LlmRequestStarted => PersonaRuntimeExclusion::RuntimeEvent,
        PersonaRuntimeEvent::LlmResponseReceived => PersonaRuntimeExclusion::RuntimeEvent,
        PersonaRuntimeEvent::LlmRequestFailed => PersonaRuntimeExclusion::RuntimeEvent,
        PersonaRuntimeEvent::RuntimeResponseParsed => PersonaRuntimeExclusion::RuntimeEvent,
        PersonaRuntimeEvent::RuntimeResponseParseFailed => PersonaRuntimeExclusion::RuntimeEvent,
        PersonaRuntimeEvent::SchemaValidationFailed => PersonaRuntimeExclusion::RuntimeEvent,
        PersonaRuntimeEvent::RuntimeDecisionRecorded => PersonaRuntimeExclusion::RuntimeEvent,
        PersonaRuntimeEvent::RuntimeDecisionFailed => PersonaRuntimeExclusion::RuntimeEvent,
        PersonaRuntimeEvent::RepairRequestStarted => PersonaRuntimeExclusion::RuntimeEvent,
        PersonaRuntimeEvent::RepairSucceeded => PersonaRuntimeExclusion::RuntimeEvent,
        PersonaRuntimeEvent::RepairLimitReached => PersonaRuntimeExclusion::RuntimeEvent,
        PersonaRuntimeEvent::ToolCandidateClassified => PersonaRuntimeExclusion::RuntimeEvent,
        PersonaRuntimeEvent::ToolPermissionAllowed => PersonaRuntimeExclusion::RuntimeEvent,
        PersonaRuntimeEvent::ToolPermissionApprovalNeeded => PersonaRuntimeExclusion::RuntimeEvent,
        PersonaRuntimeEvent::ToolPermissionDenied => PersonaRuntimeExclusion::RuntimeEvent,
        PersonaRuntimeEvent::ToolExecutionStarted => PersonaRuntimeExclusion::RuntimeEvent,
        PersonaRuntimeEvent::ToolExecutionSucceeded => PersonaRuntimeExclusion::RuntimeEvent,
        PersonaRuntimeEvent::ToolExecutionFailed => PersonaRuntimeExclusion::RuntimeEvent,
        PersonaRuntimeEvent::ToolLoopDuplicateRedirected => PersonaRuntimeExclusion::RuntimeEvent,
        PersonaRuntimeEvent::ToolLoopLimitReached => PersonaRuntimeExclusion::RuntimeEvent,
        PersonaRuntimeEvent::RawResponseReceived => PersonaRuntimeExclusion::RawModelText,
        PersonaRuntimeEvent::MessageRecorded => PersonaRuntimeExclusion::InternalHistory,
        PersonaRuntimeEvent::ToolObservationAttached => PersonaRuntimeExclusion::ToolOutputBody,
        PersonaRuntimeEvent::ToolWorkspaceSummaryRendered => PersonaRuntimeExclusion::ToolOutputBody,
        PersonaRuntimeEvent::FinalAnswerRecorded => PersonaRuntimeExclusion::FinalAnswer,
        PersonaRuntimeEvent::WorkspaceSystemNotice => PersonaRuntimeExclusion::SystemNotice,
    };
    PersonaRuntimeRoute::LeftLogOnly(exclusion)
}

/// Every declared runtime event, in declaration order.
pub open spec fn spec_runtime_events() -> Seq<PersonaRuntimeEvent> {
    seq![
        PersonaRuntimeEvent::LlmRequestStarted,
        PersonaRuntimeEvent::LlmResponseReceived,
        PersonaRuntimeEvent::LlmRequestFailed,
        PersonaRuntimeEvent::RuntimeResponseParsed,
        PersonaRuntimeEvent::RuntimeResponseParseFailed,
        PersonaRuntimeEvent::SchemaValidationFailed,
        PersonaRuntimeEvent::RuntimeDecisionRecorded,
        PersonaRuntimeEvent::RuntimeDecisionFailed,
        PersonaRuntimeEvent::RepairRequestStarted,
        PersonaRuntimeEvent::RepairSucceeded,
        PersonaRuntimeEvent::RepairLimitReached,
        PersonaRuntimeEvent::ToolCandidateClassified,
        PersonaRuntimeEvent::ToolPermissionAllowed,
        PersonaRuntimeEvent::ToolPermissionApprovalNeeded,
        PersonaRuntimeEvent::ToolPermissionDenied,
        PersonaRuntimeEvent::ToolExecutionStarted,
        PersonaRuntimeEvent::ToolExecutionSucceeded,
        PersonaRuntimeEvent::ToolExecutionFailed,
        PersonaRuntimeEvent::ToolLoopDuplicateRedirected,
        PersonaRuntimeEvent::ToolLoopLimitReached,
        PersonaRuntimeEvent::RawResponseReceived,
        PersonaRuntimeEvent::MessageRecorded,
        PersonaRuntimeEvent::ToolObservationAttached,
        PersonaRuntimeEvent::ToolWorkspaceSummaryRendered,
        PersonaRuntimeEvent::FinalAnswerRecorded,
        PersonaRuntimeEvent::WorkspaceSystemNotice,
    ]
}

pub fn persona_runtime_events() -> (r: Vec<PersonaRuntimeEvent>)
    ensures
        r@ == spec_runtime_events(),
{
    let r = vec![
        PersonaRuntimeEvent::LlmRequestStarted,
        PersonaRuntimeEvent::LlmResponseReceived,
        PersonaRuntimeEvent::LlmRequestFailed,
        PersonaRuntimeEvent::RuntimeResponseParsed,
        PersonaRuntimeEvent::RuntimeResponseParseFailed,
        PersonaRuntimeEvent::SchemaValidationFailed,
        PersonaRuntimeEvent::RuntimeDecisionRecorded,
        PersonaRuntimeEvent::RuntimeDecisionFailed,
        PersonaRuntimeEvent::RepairRequestStarted,
        PersonaRuntimeEvent::RepairSucceeded,
        PersonaRuntimeEvent::RepairLimitReached,
        PersonaRuntimeEvent::ToolCandidateClassified,
        PersonaRuntimeEvent::ToolPermissionAllowed,
        PersonaRuntimeEvent::ToolPermissionApprovalNeeded,
        PersonaRuntimeEvent::ToolPermissionDenied,
        PersonaRuntimeEvent::ToolExecutionStarted,
        PersonaRuntimeEvent::ToolExecutionSucceeded,
        PersonaRuntimeEvent::ToolExecutionFailed,
        PersonaRuntimeEvent::ToolLoopDuplicateRedirected,
        PersonaRuntimeEvent::ToolLoopLimitReached,
        PersonaRuntimeEvent::RawResponseReceived,
        PersonaRuntimeEvent::MessageRecorded,
        PersonaRuntimeEvent::ToolObservationAttached,
        PersonaRuntimeEvent::ToolWorkspaceSummaryRendered,
        PersonaRuntimeEvent::FinalAnswerRecorded,
        PersonaRuntimeEvent::WorkspaceSystemNotice,
    ];
    assert(r@ =~= spec_runtime_events());
    r
}

/// Every event name is non-empty.
pub proof fn lemma_event_name_nonempty(event: PersonaRuntimeEvent)
    ensures
        event.spec_as_str().len() > 0,
{
    match event {
        PersonaRuntimeEvent::LlmRequestStarted => { reveal_strlit("llm_request_started"); },
        PersonaRuntimeEvent::LlmResponseReceived => { reveal_strlit("llm_response_received"); },
        PersonaRuntimeEvent::LlmRequestFailed => { reveal_strlit("llm_request_failed"); },
        PersonaRuntimeEvent::RuntimeResponseParsed => { reveal_strlit("runtime_response_parsed"); },
        PersonaRuntimeEvent::RuntimeResponseParseFailed => { reveal_strlit("runtime_response_parse_failed"); },
        PersonaRuntimeEvent::SchemaValidationFailed => { reveal_strlit("schema_validation_failed"); },
        PersonaRuntimeEvent::RuntimeDecisionRecorded => { reveal_strlit("runtime_decision_recorded"); },
        PersonaRuntimeEvent::RuntimeDecisionFailed => { reveal_strlit("runtime_decision_failed"); },
        PersonaRuntimeEvent::RepairRequestStarted => { reveal_strlit("repair_request_started"); },
        PersonaRuntimeEvent::RepairSucceeded => { reveal_strlit("repair_succeeded"); },
        PersonaRuntimeEvent::RepairLimitReached => { reveal_strlit("repair_limit_reached"); },
        PersonaRuntimeEvent::ToolCandidateClassified => { reveal_strlit("tool_candidate_classified"); },
        PersonaRuntimeEvent::ToolPermissionAllowed => { reveal_strlit("tool_permission_allowed"); },
        PersonaRuntimeEvent::ToolPermissionApprovalNeeded => { reveal_strlit("tool_permission_approval_needed"); },
        PersonaRuntimeEvent::ToolPermissionDenied => { reveal_strlit("tool_permission_denied"); },
        PersonaRuntimeEvent::ToolExecutionStarted => { reveal_strlit("tool_execution_started"); },
        PersonaRuntimeEvent::ToolExecutionSucceeded => { reveal_strlit("tool_execution_succeeded"); },
        PersonaRuntimeEvent::ToolExecutionFailed => { reveal_strlit("tool_execution_failed"); },
        PersonaRuntimeEvent::ToolLoopDuplicateRedirected => { reveal_strlit("tool_loop_duplicate_redirected"); },
        PersonaRuntimeEvent::ToolLoopLimitReached => { reveal_strlit("tool_loop_limit_reached"); },
        PersonaRuntimeEvent::RawResponseReceived => { reveal_strlit("raw_response_received"); },
        PersonaRuntimeEvent::MessageRecorded => { reveal_strlit("message_recorded"); },
        PersonaRuntimeEvent::ToolObservationAttached => { reveal_strlit("tool_observation_attached"); },
        PersonaRuntimeEvent::ToolWorkspaceSummaryRendered => { reveal_strlit("tool_workspace_summary_rendered"); },
        PersonaRuntimeEvent::FinalAnswerRecorded => { reveal_strlit("final_answer_recorded"); },
        PersonaRuntimeEvent::WorkspaceSystemNotice => { reveal_strlit("workspace_system_notice"); },
    }
}

/// Every declared event has a non-empty name and a route.
pub fn runtime_event_catalog_is_complete() -> (r: bool)
    ensures
        r,
        forall|i: int| 0 <= i < spec_runtime_events().len() ==> (#[trigger] spec_runtime_events()[i]).spec_as_str().len() > 0,
{
    let events = persona_runtime_events();
    let mut i: usize = 0;
    while i < events.len()
        invariant
            events@ == spec_runtime_events(),
            i <= events@.len(),
            forall|k: int| 0 <= k < i ==> (#[trigger] events@[k]).spec_as_str().len() > 0,
        decreases events@.len() - i,
    {
        let name = events[i].as_str();
        proof {
            lemma_event_name_nonempty(events@[i as int]);
        }
        if name.unicode_len() == 0 {
            return false;
        }
        let route = runtime_event_route(events[i]);
        let defined = match route {
            PersonaRuntimeRoute::LeftLogOnly(_) => true,
        };
        if !defined {
            return false;
        }
        i = i + 1;
    }
    proof {
        assert forall|k: int| 0 <= k < spec_runtime_events().len() implies (#[trigger] spec_runtime_events()[k]).spec_as_str().len() > 0 by {
            lemma_event_name_nonempty(spec_runtime_events()[k]);
        }
    }
    true
}


#[derive(Debug, PartialEq, Eq)]
pub enum PersonaTurnError {
    InvalidJson,
    UnknownSpeaker(String),
    UnexpectedSpeaker { expected: PersonaSpeaker, actual: PersonaSpeaker },
    EmptyBody,
    BodyTooLong,
}

/// Judges a single-speaker reply (its `speaker` id and `body`) for a turn of
/// `expected`: the speaker must be that one and the trimmed body non-empty and
/// at most `MAX_PERSONA_MESSAGE_CHARS` characters.
pub fn persona_turn_from_payload(speaker: &str, body: &str, expected: PersonaSpeaker) -> (r: Result<PersonaMessage, PersonaTurnError>)
    ensures
        match PersonaSpeaker::spec_from_id(spec_trim(speaker@)) {
            None => r matches Err(PersonaTurnError::UnknownSpeaker(s)) && s@ == speaker@,
            Some(actual) => if actual != expected {
                r == Err::<PersonaMessage, PersonaTurnError>(PersonaTurnError::UnexpectedSpeaker { expected, actual })
            } else if spec_trim(body@).len() == 0 {
                r matches Err(PersonaTurnError::EmptyBody)
            } else if spec_trim(body@).len() > MAX_PERSONA_MESSAGE_CHARS {
                r matches Err(PersonaTurnError::BodyTooLong)
            } else {
                r matches Ok(m) && m.speaker == expected && m.body@ == spec_trim(body@) && m.repeat_count == 1
            },
        },
{
    let id = trim(speaker);
    let actual = match PersonaSpeaker::from_id(id.as_str()) {
        Some(s) => s,
        None => return Err(PersonaTurnError::UnknownSpeaker(String::from_str(speaker))),
    };
    if actual != expected {
        return Err(PersonaTurnError::UnexpectedSpeaker { expected, actual });
    }
    let text = trim(body);
    let len = text.as_str().unicode_len();
    if len == 0 {
        return Err(PersonaTurnError::EmptyBody);
    }
    if len > MAX_PERSONA_MESSAGE_CHARS {
        return Err(PersonaTurnError::BodyTooLong);
    }
    Ok(PersonaMessage::from_speaker(actual, text.as_str()))
}

} // verus!
