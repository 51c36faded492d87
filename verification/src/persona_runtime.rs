//! The persona runtime: five independent speaker sessions, a queue of turns
//! per task, peer messages between teammates, and the advisory team tasks they
//! open, report, pass and close.
use vstd::prelude::*;
use crate::persona::{PersonaMessage, PersonaSpeaker, MAX_PERSONA_MESSAGE_CHARS};
use crate::persona_prompt::{
    build_persona_turn_prompt, spec_speaker_from_value, spec_system_prompt, spec_user_prompt,
    speaker_from_output_value, speaker_from_peer_recipient, PersonaTurnPrompt,
};
use crate::text::{spec_trim, spec_zero_padded, str_eq, trim, zero_padded};
use std::collections::VecDeque;

verus! {

#[derive(Clone, Copy, Debug, PartialEq, Eq, Structural)]
pub enum PersonaRuntimeStage {
    Kickoff,
    Progress,
    FollowUp,
    Completion,
}

#[derive(Clone, Copy, Debug, PartialEq, Eq, Structural)]
pub enum PersonaTurnKind {
    LeadSummon,
    MemberResponse,
    LeadSummary,
    ProgressLead,
    FollowUpLead,
    Completion,
}

impl PersonaTurnKind {
    /// Every turn but a member's answer must end in a visible message.
    pub open spec fn spec_requires_visible_message(self) -> bool {
        !(self is MemberResponse)
    }

    pub fn requires_visible_message(self) -> (r: bool)
        ensures
            r == self.spec_requires_visible_message(),
    {
        !matches!(self, PersonaTurnKind::MemberResponse)
    }
}

#[derive(Clone, Copy, Debug, PartialEq, Eq, Structural)]
pub enum PersonaSessionStatus {
    Idle,
    WaitingForModel,
}

#[derive(Clone, Copy, Debug, PartialEq, Eq, Structural)]
pub enum PersonaRuntimeMode {
    Off,
    Full,
}

impl PersonaRuntimeMode {
    pub open spec fn spec_allows_requests(self) -> bool {
        self is Full
    }

    fn allows_requests(self) -> (r: bool)
        ensures
            r == self.spec_allows_requests(),
    {
        self == PersonaRuntimeMode::Full
    }
}

#[derive(Clone, Copy, Debug, PartialEq, Eq, Structural)]
pub enum PersonaTeamTaskStatus {
    Open,
    Claimed,
    Reported,
    Passed,
    Closed,
}

/// The task a persona discussion is about.
#[derive(Debug, PartialEq, Eq)]
pub struct PersonaTaskRun {
    pub task_id: String,
    pub user_prompt: String,
    pub task_state_summary: String,
}

pub struct TaskRunView {
    pub task_id: Seq<char>,
    pub user_prompt: Seq<char>,
    pub task_state_summary: Seq<char>,
}

impl View for PersonaTaskRun {
    type V = TaskRunView;

    open spec fn view(&self) -> TaskRunView {
        TaskRunView {
            task_id: self.task_id@,
            user_prompt: self.user_prompt@,
            task_state_summary: self.task_state_summary@,
        }
    }
}

impl Clone for PersonaTaskRun {
    fn clone(&self) -> (r: Self)
        ensures
            r == *self,
    {
        PersonaTaskRun {
            task_id: self.task_id.clone(),
            user_prompt: self.user_prompt.clone(),
            task_state_summary: self.task_state_summary.clone(),
        }
    }
}

/// A message from one teammate to another, delivered in later turns.
#[derive(Debug, PartialEq, Eq)]
pub struct PersonaPeerMessage {
    pub id: String,
    pub from: PersonaSpeaker,
    pub to: PersonaSpeaker,
    pub body: String,
}

pub struct PeerMessageView {
    pub id: Seq<char>,
    pub from: PersonaSpeaker,
    pub to: PersonaSpeaker,
    pub body: Seq<char>,
}

impl View for PersonaPeerMessage {
    type V = PeerMessageView;

    open spec fn view(&self) -> PeerMessageView {
        PeerMessageView { id: self.id@, from: self.from, to: self.to, body: self.body@ }
    }
}

impl Clone for PersonaPeerMessage {
    fn clone(&self) -> (r: Self)
        ensures
            r == *self,
    {
        PersonaPeerMessage {
            id: self.id.clone(),
            from: self.from,
            to: self.to,
            body: self.body.clone(),
        }
    }
}

/// A peer message as a speaker asks for it, before it gets an id.
#[derive(Debug, PartialEq, Eq)]
pub struct PersonaPeerMessageDraft {
    pub to: PersonaSpeaker,
    pub body: String,
}

pub struct DraftView {
    pub to: PersonaSpeaker,
    pub body: Seq<char>,
}

impl View for PersonaPeerMessageDraft {
    type V = DraftView;

    open spec fn view(&self) -> DraftView {
        DraftView { to: self.to, body: self.body@ }
    }
}

impl Clone for PersonaPeerMessageDraft {
    fn clone(&self) -> (r: Self)
        ensures
            r == *self,
    {
        PersonaPeerMessageDraft { to: self.to, body: self.body.clone() }
    }
}

/// An advisory task the lead opened for a teammate.
#[derive(Debug, PartialEq, Eq)]
pub struct PersonaTeamTask {
    pub id: String,
    pub owner: PersonaSpeaker,
    pub title: String,
    pub status: PersonaTeamTaskStatus,
    pub report: Option<String>,
}

pub struct TeamTaskView {
    pub id: Seq<char>,
    pub owner: PersonaSpeaker,
    pub title: Seq<char>,
    pub status: PersonaTeamTaskStatus,
    pub report: Option<Seq<char>>,
}

pub open spec fn option_view(o: Option<String>) -> Option<Seq<char>> {
    match o {
        Some(s) => Some(s@),
        None => None,
    }
}

impl View for PersonaTeamTask {
    type V = TeamTaskView;

    open spec fn view(&self) -> TeamTaskView {
        TeamTaskView {
            id: self.id@,
            owner: self.owner,
            title: self.title@,
            status: self.status,
            report: option_view(self.report),
        }
    }
}

fn clone_option_string(o: &Option<String>) -> (r: Option<String>)
    ensures
        r == *o,
{
    match o {
        Some(s) => Some(s.clone()),
        None => None,
    }
}

impl Clone for PersonaTeamTask {
    fn clone(&self) -> (r: Self)
        ensures
            r == *self,
    {
        PersonaTeamTask {
            id: self.id.clone(),
            owner: self.owner,
            title: self.title.clone(),
            status: self.status,
            report: clone_option_string(&self.report),
        }
    }
}

pub open spec fn peer_views(s: Seq<PersonaPeerMessage>) -> Seq<PeerMessageView> {
    s.map_values(|m: PersonaPeerMessage| m@)
}

pub open spec fn draft_views(s: Seq<PersonaPeerMessageDraft>) -> Seq<DraftView> {
    s.map_values(|m: PersonaPeerMessageDraft| m@)
}

pub open spec fn team_task_views(s: Seq<PersonaTeamTask>) -> Seq<TeamTaskView> {
    s.map_values(|t: PersonaTeamTask| t@)
}

/// One model request for one speaker.
#[derive(Debug, PartialEq, Eq)]
pub struct PersonaTurn {
    pub id: String,
    pub task_id: String,
    pub speaker: PersonaSpeaker,
    pub stage: PersonaRuntimeStage,
    pub kind: PersonaTurnKind,
    pub user_prompt: String,
    pub task_state_summary: String,
    pub peer_messages: Vec<PersonaPeerMessage>,
    pub team_tasks: Vec<PersonaTeamTask>,
}

#[verifier::ext_equal]
pub struct TurnView {
    pub id: Seq<char>,
    pub task_id: Seq<char>,
    pub speaker: PersonaSpeaker,
    pub stage: PersonaRuntimeStage,
    pub kind: PersonaTurnKind,
    pub user_prompt: Seq<char>,
    pub task_state_summary: Seq<char>,
    pub peer_messages: Seq<PeerMessageView>,
    pub team_tasks: Seq<TeamTaskView>,
}

impl View for PersonaTurn {
    type V = TurnView;

    open spec fn view(&self) -> TurnView {
        TurnView {
            id: self.id@,
            task_id: self.task_id@,
            speaker: self.speaker,
            stage: self.stage,
            kind: self.kind,
            user_prompt: self.user_prompt@,
            task_state_summary: self.task_state_summary@,
            peer_messages: peer_views(self.peer_messages@),
            team_tasks: team_task_views(self.team_tasks@),
        }
    }
}

fn clone_peer_messages(v: &Vec<PersonaPeerMessage>) -> (r: Vec<PersonaPeerMessage>)
    ensures
        r@ == v@,
{
    let r = v.clone();
    assert forall|i: int| 0 <= i < v@.len() implies r@[i] == v@[i] by {
        assert(cloned::<PersonaPeerMessage>(v@[i], r@[i]));
    }
    assert(r@ =~= v@);
    r
}

fn clone_team_tasks(v: &Vec<PersonaTeamTask>) -> (r: Vec<PersonaTeamTask>)
    ensures
        r@ == v@,
{
    let r = v.clone();
    assert forall|i: int| 0 <= i < v@.len() implies r@[i] == v@[i] by {
        assert(cloned::<PersonaTeamTask>(v@[i], r@[i]));
    }
    assert(r@ =~= v@);
    r
}

fn clone_drafts(v: &Vec<PersonaPeerMessageDraft>) -> (r: Vec<PersonaPeerMessageDraft>)
    ensures
        r@ == v@,
{
    let r = v.clone();
    assert forall|i: int| 0 <= i < v@.len() implies r@[i] == v@[i] by {
        assert(cloned::<PersonaPeerMessageDraft>(v@[i], r@[i]));
    }
    assert(r@ =~= v@);
    r
}

impl Clone for PersonaTurn {
    fn clone(&self) -> (r: Self)
        ensures
            r@ == self@,
    {
        PersonaTurn {
            id: self.id.clone(),
            task_id: self.task_id.clone(),
            speaker: self.speaker,
            stage: self.stage,
            kind: self.kind,
            user_prompt: self.user_prompt.clone(),
            task_state_summary: self.task_state_summary.clone(),
            peer_messages: clone_peer_messages(&self.peer_messages),
            team_tasks: clone_team_tasks(&self.team_tasks),
        }
    }
}


/// What a speaker returned for one turn.
#[derive(Debug, PartialEq, Eq)]
pub enum PersonaTurnOutcome {
    Spoken(PersonaMessage),
    Passed { speaker: PersonaSpeaker },
}

impl PersonaTurnOutcome {
    pub open spec fn spec_speaker(self) -> PersonaSpeaker {
        match self {
            PersonaTurnOutcome::Spoken(m) => m.speaker,
            PersonaTurnOutcome::Passed { speaker } => speaker,
        }
    }

    pub fn speaker(&self) -> (r: PersonaSpeaker)
        ensures
            r == self.spec_speaker(),
    {
        match self {
            PersonaTurnOutcome::Spoken(m) => m.speaker,
            PersonaTurnOutcome::Passed { speaker } => *speaker,
        }
    }
}

/// A turn's outcome with the peer messages it asked to send.
#[derive(Debug, PartialEq, Eq)]
pub struct PersonaTurnResult {
    pub outcome: PersonaTurnOutcome,
    pub peer_messages: Vec<PersonaPeerMessageDraft>,
}

impl PersonaTurnResult {
    pub fn new(outcome: PersonaTurnOutcome, peer_messages: Vec<PersonaPeerMessageDraft>) -> (r: Self)
        ensures
            r.outcome == outcome,
            r.peer_messages@ == peer_messages@,
    {
        PersonaTurnResult { outcome, peer_messages }
    }

    /// An outcome with no peer messages.
    pub fn from_outcome(outcome: PersonaTurnOutcome) -> (r: Self)
        ensures
            r.outcome == outcome,
            r.peer_messages@.len() == 0,
    {
        PersonaTurnResult { outcome, peer_messages: Vec::new() }
    }
}

#[derive(Debug, PartialEq, Eq)]
pub enum PersonaTurnOutcomeError {
    InvalidJson,
    UnknownSpeaker(String),
    UnexpectedSpeaker { expected: PersonaSpeaker, actual: PersonaSpeaker },
    UnknownDecision(String),
    EmptyBody,
    BodyTooLong,
    UnknownPeerRecipient(String),
    PeerMessageToSelf,
    PeerMessageOnPass,
    EmptyPeerMessageBody,
    PeerMessageBodyTooLong,
    RequiredSpeakerPassed,
}

/// One speaker's independent conversation.
#[derive(Debug, PartialEq, Eq)]
pub struct PersonaSession {
    pub speaker: PersonaSpeaker,
    pub status: PersonaSessionStatus,
    pub history: Vec<PersonaMessage>,
}

/// The fixed team, in session order.
pub open spec fn spec_speaker_at(i: int) -> PersonaSpeaker {
    if i == 0 {
        PersonaSpeaker::Lead
    } else if i == 1 {
        PersonaSpeaker::Planning
    } else if i == 2 {
        PersonaSpeaker::Implementation
    } else if i == 3 {
        PersonaSpeaker::Verification
    } else {
        PersonaSpeaker::Documentation
    }
}

pub open spec fn spec_speaker_index(s: PersonaSpeaker) -> int {
    match s {
        PersonaSpeaker::Lead => 0,
        PersonaSpeaker::Planning => 1,
        PersonaSpeaker::Implementation => 2,
        PersonaSpeaker::Verification => 3,
        PersonaSpeaker::Documentation => 4,
    }
}

fn speaker_index(s: PersonaSpeaker) -> (r: usize)
    ensures
        r == spec_speaker_index(s),
        r < 5,
        spec_speaker_at(r as int) == s,
{
    match s {
        PersonaSpeaker::Lead => 0,
        PersonaSpeaker::Planning => 1,
        PersonaSpeaker::Implementation => 2,
        PersonaSpeaker::Verification => 3,
        PersonaSpeaker::Documentation => 4,
    }
}

/// A saturating counter step.
pub open spec fn spec_succ(n: u64) -> u64 {
    if n == u64::MAX { n } else { (n + 1) as u64 }
}

/// `format!("{prefix}{n:04}")`.
pub open spec fn spec_index_label(prefix: Seq<char>, n: u64) -> Seq<char> {
    prefix + spec_zero_padded(n as nat, 4)
}

fn index_label(prefix: &str, n: u64) -> (r: String)
    ensures
        r@ == spec_index_label(prefix@, n),
{
    let digits = zero_padded(n, 4);
    String::from_str(prefix).concat(digits.as_str())
}


/// The runtime's state as mathematical values.
#[verifier::ext_equal]
pub struct RuntimeView {
    pub task: Option<TaskRunView>,
    pub statuses: Seq<PersonaSessionStatus>,
    pub histories: Seq<Seq<PersonaMessage>>,
    pub pending: Seq<TurnView>,
    pub peers: Seq<PeerMessageView>,
    pub team_tasks: Seq<TeamTaskView>,
    pub next_task: u64,
    pub next_turn: u64,
    pub next_message: u64,
    pub next_team_task: u64,
    pub follow_up_scheduled: bool,
    pub completed: bool,
}

pub open spec fn all_idle() -> Seq<PersonaSessionStatus> {
    Seq::new(5, |i: int| PersonaSessionStatus::Idle)
}

pub open spec fn no_history() -> Seq<Seq<PersonaMessage>> {
    Seq::new(5, |i: int| Seq::<PersonaMessage>::empty())
}

pub open spec fn spec_set_status(v: RuntimeView, speaker: PersonaSpeaker, status: PersonaSessionStatus) -> RuntimeView {
    RuntimeView { statuses: v.statuses.update(spec_speaker_index(speaker), status), ..v }
}

/// A new task: a fresh id, every queue and history emptied, every session idle.
pub open spec fn spec_reset(v: RuntimeView, user_prompt: Seq<char>, summary: Seq<char>) -> RuntimeView {
    RuntimeView {
        task: Some(TaskRunView {
            task_id: spec_index_label("persona-task-"@, v.next_task),
            user_prompt,
            task_state_summary: summary,
        }),
        statuses: all_idle(),
        histories: no_history(),
        pending: Seq::empty(),
        peers: Seq::empty(),
        team_tasks: Seq::empty(),
        next_task: spec_succ(v.next_task),
        follow_up_scheduled: false,
        completed: false,
        ..v
    }
}

/// No task: every queue and history emptied, every session idle.
pub open spec fn spec_clear(v: RuntimeView) -> RuntimeView {
    RuntimeView {
        task: None,
        statuses: all_idle(),
        histories: no_history(),
        pending: Seq::empty(),
        peers: Seq::empty(),
        team_tasks: Seq::empty(),
        follow_up_scheduled: false,
        completed: false,
        ..v
    }
}

/// The turn built now for `speaker`: it carries the task and a snapshot of the
/// peer messages and team tasks.
pub open spec fn spec_built_turn(
    v: RuntimeView,
    speaker: PersonaSpeaker,
    stage: PersonaRuntimeStage,
    kind: PersonaTurnKind,
) -> TurnView {
    TurnView {
        id: spec_index_label("persona-turn-"@, v.next_turn),
        task_id: v.task->0.task_id,
        speaker,
        stage,
        kind,
        user_prompt: v.task->0.user_prompt,
        task_state_summary: v.task->0.task_state_summary,
        peer_messages: v.peers,
        team_tasks: v.team_tasks,
    }
}

/// After building a turn: the turn counter advanced and the speaker waiting.
pub open spec fn spec_after_build(v: RuntimeView, speaker: PersonaSpeaker) -> RuntimeView {
    spec_set_status(RuntimeView { next_turn: spec_succ(v.next_turn), ..v }, speaker, PersonaSessionStatus::WaitingForModel)
}

/// Builds a turn for `speaker` and queues it at the back.
pub open spec fn spec_enqueue(
    v: RuntimeView,
    speaker: PersonaSpeaker,
    stage: PersonaRuntimeStage,
    kind: PersonaTurnKind,
) -> RuntimeView {
    let t = spec_built_turn(v, speaker, stage, kind);
    let w = spec_after_build(v, speaker);
    RuntimeView { pending: w.pending.push(t), ..w }
}

pub open spec fn is_completion_turn(t: TurnView) -> bool {
    t.stage is Completion && t.kind is Completion
}

/// Index of the first turn satisfying `p`, or the length when there is none.
pub open spec fn spec_first_where(s: Seq<TurnView>, p: spec_fn(TurnView) -> bool) -> int
    decreases s.len(),
{
    if s.len() == 0 {
        0
    } else if p(s[0]) {
        0
    } else {
        1 + spec_first_where(s.drop_first(), p)
    }
}

pub proof fn lemma_first_where(s: Seq<TurnView>, p: spec_fn(TurnView) -> bool, r: int)
    requires
        0 <= r <= s.len(),
        forall|k: int| 0 <= k < r ==> !p(#[trigger] s[k]),
        r < s.len() ==> p(s[r]),
    ensures
        spec_first_where(s, p) == r,
    decreases r,
{
    if r > 0 {
        assert(!p(s[0]));
        lemma_first_where(s.drop_first(), p, r - 1);
    }
}

/// Queues a kickoff turn ahead of every turn of a later stage.
pub open spec fn spec_insert_kickoff(pending: Seq<TurnView>, t: TurnView) -> Seq<TurnView> {
    pending.insert(spec_first_where(pending, |u: TurnView| !(u.stage is Kickoff)), t)
}

pub open spec fn spec_enqueue_kickoff(v: RuntimeView, speaker: PersonaSpeaker, kind: PersonaTurnKind) -> RuntimeView {
    let t = spec_built_turn(v, speaker, PersonaRuntimeStage::Kickoff, kind);
    let w = spec_after_build(v, speaker);
    RuntimeView { pending: spec_insert_kickoff(w.pending, t), ..w }
}

pub open spec fn spec_with_summary(v: RuntimeView, summary: Seq<char>) -> RuntimeView {
    RuntimeView { task: Some(TaskRunView { task_state_summary: summary, ..v.task->0 }), ..v }
}

pub open spec fn spec_turn_with_summary(t: TurnView, summary: Seq<char>) -> TurnView {
    TurnView { task_state_summary: summary, ..t }
}

// ----- team tasks -----

pub open spec fn spec_claim(tasks: Seq<TeamTaskView>, owner: PersonaSpeaker) -> Seq<TeamTaskView> {
    tasks.map_values(|t: TeamTaskView|
        if t.owner == owner && t.status is Open {
            TeamTaskView { status: PersonaTeamTaskStatus::Claimed, ..t }
        } else {
            t
        })
}

pub open spec fn is_unanswered(t: TeamTaskView, owner: PersonaSpeaker) -> bool {
    t.owner == owner && (t.status is Open || t.status is Claimed)
}

pub open spec fn spec_report(tasks: Seq<TeamTaskView>, owner: PersonaSpeaker, report: Seq<char>) -> Seq<TeamTaskView> {
    tasks.map_values(|t: TeamTaskView|
        if is_unanswered(t, owner) {
            TeamTaskView { status: PersonaTeamTaskStatus::Reported, report: Some(report), ..t }
        } else {
            t
        })
}

pub open spec fn spec_pass(tasks: Seq<TeamTaskView>, owner: PersonaSpeaker) -> Seq<TeamTaskView> {
    tasks.map_values(|t: TeamTaskView|
        if is_unanswered(t, owner) {
            TeamTaskView { status: PersonaTeamTaskStatus::Passed, report: None, ..t }
        } else {
            t
        })
}

pub open spec fn spec_close(tasks: Seq<TeamTaskView>) -> Seq<TeamTaskView> {
    tasks.map_values(|t: TeamTaskView|
        if t.status is Reported {
            TeamTaskView { status: PersonaTeamTaskStatus::Closed, ..t }
        } else {
            t
        })
}

// ----- peer messages -----

/// Registers one draft from `from`: it gets the next peer id, and a lead's
/// message to a teammate opens a team task for that teammate.
pub open spec fn spec_register(v: RuntimeView, from: PersonaSpeaker, d: DraftView) -> RuntimeView {
    let m = PeerMessageView {
        id: spec_index_label("persona-peer-"@, v.next_message),
        from,
        to: d.to,
        body: d.body,
    };
    let w = RuntimeView { peers: v.peers.push(m), next_message: spec_succ(v.next_message), ..v };
    if from is Lead && !(d.to is Lead) {
        let t = TeamTaskView {
            id: spec_index_label("persona-team-task-"@, w.next_team_task),
            owner: d.to,
            title: d.body,
            status: PersonaTeamTaskStatus::Open,
            report: None,
        };
        RuntimeView { team_tasks: w.team_tasks.push(t), next_team_task: spec_succ(w.next_team_task), ..w }
    } else {
        w
    }
}

pub open spec fn spec_register_all(v: RuntimeView, from: PersonaSpeaker, ds: Seq<DraftView>) -> RuntimeView
    decreases ds.len(),
{
    if ds.len() == 0 {
        v
    } else {
        spec_register_all(spec_register(v, from, ds[0]), from, ds.drop_first())
    }
}

// ----- scheduling -----

/// The distinct teammates (never the lead) the drafts address, in order, at
/// most `limit` of them.
pub open spec fn spec_addressed(ds: Seq<DraftView>, acc: Seq<PersonaSpeaker>, limit: nat) -> Seq<PersonaSpeaker>
    decreases ds.len(),
{
    if ds.len() == 0 || acc.len() >= limit {
        acc
    } else if ds[0].to is Lead || acc.contains(ds[0].to) {
        spec_addressed(ds.drop_first(), acc, limit)
    } else {
        spec_addressed(ds.drop_first(), acc.push(ds[0].to), limit)
    }
}

/// Wakes one teammate: claims its open team tasks and queues its member turn.
pub open spec fn spec_wake_member(v: RuntimeView, speaker: PersonaSpeaker, stage: PersonaRuntimeStage) -> RuntimeView {
    let c = RuntimeView { team_tasks: spec_claim(v.team_tasks, speaker), ..v };
    if stage is Kickoff {
        spec_enqueue_kickoff(c, speaker, PersonaTurnKind::MemberResponse)
    } else {
        spec_enqueue(c, speaker, stage, PersonaTurnKind::MemberResponse)
    }
}

pub open spec fn spec_wake_members(v: RuntimeView, ss: Seq<PersonaSpeaker>, stage: PersonaRuntimeStage) -> RuntimeView
    decreases ss.len(),
{
    if ss.len() == 0 {
        v
    } else {
        spec_wake_members(spec_wake_member(v, ss[0], stage), ss.drop_first(), stage)
    }
}

pub open spec fn has_pending(v: RuntimeView, stage: PersonaRuntimeStage, kind: PersonaTurnKind) -> bool {
    exists|i: int| 0 <= i < v.pending.len() && #[trigger] v.pending[i].stage == stage && v.pending[i].kind == kind
}

pub open spec fn spec_kickoff_summary(v: RuntimeView) -> RuntimeView {
    if v.completed || has_pending(v, PersonaRuntimeStage::Kickoff, PersonaTurnKind::LeadSummary) {
        v
    } else {
        spec_enqueue_kickoff(v, PersonaSpeaker::Lead, PersonaTurnKind::LeadSummary)
    }
}

pub open spec fn spec_progress_summary(v: RuntimeView) -> RuntimeView {
    if v.completed || has_pending(v, PersonaRuntimeStage::Progress, PersonaTurnKind::LeadSummary) {
        v
    } else {
        spec_enqueue(v, PersonaSpeaker::Lead, PersonaRuntimeStage::Progress, PersonaTurnKind::LeadSummary)
    }
}

pub open spec fn spec_remove_first_completion(pending: Seq<TurnView>) -> Seq<TurnView> {
    let i = spec_first_where(pending, |u: TurnView| is_completion_turn(u));
    if i < pending.len() { pending.remove(i) } else { pending }
}

pub open spec fn spec_follow_up_summary(v: RuntimeView) -> RuntimeView {
    if v.follow_up_scheduled {
        v
    } else {
        let t = spec_built_turn(v, PersonaSpeaker::Lead, PersonaRuntimeStage::FollowUp, PersonaTurnKind::LeadSummary);
        let w = spec_after_build(RuntimeView { follow_up_scheduled: true, ..v }, PersonaSpeaker::Lead);
        RuntimeView { pending: spec_remove_first_completion(w.pending).push(t), ..w }
    }
}

/// Whether a recorded turn of `kind` in `stage` may queue further turns of
/// its stage (which needs a current task to build them).
pub open spec fn spec_may_schedule(stage: PersonaRuntimeStage, kind: PersonaTurnKind) -> bool {
    match stage {
        PersonaRuntimeStage::Kickoff => kind is LeadSummon || kind is MemberResponse,
        PersonaRuntimeStage::Progress => kind is ProgressLead || kind is MemberResponse,
        PersonaRuntimeStage::FollowUp => kind is FollowUpLead || kind is MemberResponse,
        PersonaRuntimeStage::Completion => false,
    }
}

/// The turns that follow a recorded turn within its stage.
pub open spec fn spec_schedule(v: RuntimeView, stage: PersonaRuntimeStage, kind: PersonaTurnKind, ds: Seq<DraftView>) -> RuntimeView {
    match stage {
        PersonaRuntimeStage::Kickoff => {
            if kind is LeadSummon {
                let w = spec_wake_members(v, spec_addressed(ds, Seq::empty(), 4), stage);
                if has_pending(w, stage, PersonaTurnKind::MemberResponse) { w } else { spec_kickoff_summary(w) }
            } else if kind is MemberResponse {
                if has_pending(v, stage, PersonaTurnKind::MemberResponse) { v } else { spec_kickoff_summary(v) }
            } else {
                v
            }
        },
        PersonaRuntimeStage::Progress => {
            if kind is ProgressLead {
                let w = spec_wake_members(v, spec_addressed(ds, Seq::empty(), 3), stage);
                if has_pending(w, stage, PersonaTurnKind::MemberResponse) { w } else { spec_progress_summary(w) }
            } else if kind is MemberResponse {
                if has_pending(v, stage, PersonaTurnKind::MemberResponse) { v } else { spec_progress_summary(v) }
            } else {
                v
            }
        },
        PersonaRuntimeStage::FollowUp => {
            if kind is FollowUpLead {
                let w = spec_wake_members(v, spec_addressed(ds, Seq::empty(), 3), stage);
                if w.pending.len() == 0 { spec_follow_up_summary(w) } else { w }
            } else if kind is MemberResponse {
                if has_pending(v, stage, PersonaTurnKind::MemberResponse) { v } else { spec_follow_up_summary(v) }
            } else {
                v
            }
        },
        PersonaRuntimeStage::Completion => v,
    }
}

/// Records the speaker's outcome in its own session: a spoken message is
/// appended to that speaker's history; either way the session is idle.
pub open spec fn spec_record_outcome(v: RuntimeView, outcome: PersonaTurnOutcome) -> RuntimeView {
    match outcome {
        PersonaTurnOutcome::Spoken(m) => {
            let i = spec_speaker_index(m.speaker);
            RuntimeView {
                statuses: v.statuses.update(i, PersonaSessionStatus::Idle),
                histories: v.histories.update(i, v.histories[i].push(m)),
                ..v
            }
        },
        PersonaTurnOutcome::Passed { speaker } => spec_set_status(v, speaker, PersonaSessionStatus::Idle),
    }
}

/// What recording `outcome` for `turn` does to the runtime.
pub open spec fn spec_record_turn_result(
    v: RuntimeView,
    turn: TurnView,
    outcome: PersonaTurnOutcome,
    ds: Seq<DraftView>,
) -> RuntimeView {
    let speaker = outcome.spec_speaker();
    if (turn.kind.spec_requires_visible_message() && outcome is Passed) || (v.completed && !(turn.stage is Completion)) {
        spec_set_status(v, speaker, PersonaSessionStatus::Idle)
    } else {
        let t1 = if turn.kind is MemberResponse {
            match outcome {
                PersonaTurnOutcome::Spoken(m) => spec_report(v.team_tasks, speaker, m.body@),
                PersonaTurnOutcome::Passed { .. } => spec_pass(v.team_tasks, speaker),
            }
        } else {
            v.team_tasks
        };
        let t2 = if turn.kind is LeadSummary || turn.kind is Completion { spec_close(t1) } else { t1 };
        let w = spec_record_outcome(RuntimeView { team_tasks: t2, ..v }, outcome);
        let x = spec_register_all(w, speaker, ds);
        spec_schedule(x, turn.stage, turn.kind, ds)
    }
}


pub open spec fn turn_views(s: Seq<PersonaTurn>) -> Seq<TurnView> {
    s.map_values(|t: PersonaTurn| t@)
}

pub open spec fn task_view(t: Option<PersonaTaskRun>) -> Option<TaskRunView> {
    match t {
        Some(t) => Some(t@),
        None => None,
    }
}

/// Runs a task's persona discussion as a queue of independent speaker turns.
pub struct PersonaRuntime {
    current_task: Option<PersonaTaskRun>,
    sessions: Vec<PersonaSession>,
    pending_turns: VecDeque<PersonaTurn>,
    peer_messages: Vec<PersonaPeerMessage>,
    team_tasks: Vec<PersonaTeamTask>,
    next_task_index: u64,
    next_turn_index: u64,
    next_message_index: u64,
    next_team_task_index: u64,
    follow_up_summary_scheduled: bool,
    task_completed: bool,
}

impl View for PersonaRuntime {
    type V = RuntimeView;

    closed spec fn view(&self) -> RuntimeView {
        RuntimeView {
            task: task_view(self.current_task),
            statuses: self.sessions@.map_values(|s: PersonaSession| s.status),
            histories: self.sessions@.map_values(|s: PersonaSession| s.history@),
            pending: turn_views(self.pending_turns@),
            peers: peer_views(self.peer_messages@),
            team_tasks: team_task_views(self.team_tasks@),
            next_task: self.next_task_index,
            next_turn: self.next_turn_index,
            next_message: self.next_message_index,
            next_team_task: self.next_team_task_index,
            follow_up_scheduled: self.follow_up_summary_scheduled,
            completed: self.task_completed,
        }
    }
}

impl PersonaRuntime {
    /// One session per fixed teammate, in team order.
    pub closed spec fn wf(&self) -> bool {
        &&& self.sessions@.len() == 5
        &&& forall|i: int| 0 <= i < 5 ==> (#[trigger] self.sessions@[i]).speaker == spec_speaker_at(i)
    }

    pub closed spec fn spec_sessions(&self) -> Seq<PersonaSession> {
        self.sessions@
    }

    /// A well-formed runtime keeps exactly five sessions, one per speaker in
    /// the fixed order, each with the status and history its view records.
    pub proof fn lemma_view_lengths(&self)
        requires
            self.wf(),
        ensures
            self@.statuses.len() == 5,
            self@.histories.len() == 5,
            self.spec_sessions().len() == 5,
            forall|i: int| 0 <= i < 5 ==> (#[trigger] self.spec_sessions()[i]).speaker == spec_speaker_at(i)
                && self.spec_sessions()[i].status == self@.statuses[i]
                && self.spec_sessions()[i].history@ == self@.histories[i],
    {
    }

    pub fn new() -> (r: Self)
        ensures
            r.wf(),
            r@.task is None,
            r@.statuses == all_idle(),
            r@.histories == no_history(),
            r@.pending.len() == 0,
            r@.peers.len() == 0,
            r@.team_tasks.len() == 0,
            r@.next_task == 1 && r@.next_turn == 1 && r@.next_message == 1 && r@.next_team_task == 1,
            !r@.follow_up_scheduled,
            !r@.completed,
    {
        let mut sessions: Vec<PersonaSession> = Vec::new();
        sessions.push(PersonaSession { speaker: PersonaSpeaker::Lead, status: PersonaSessionStatus::Idle, history: Vec::new() });
        sessions.push(PersonaSession { speaker: PersonaSpeaker::Planning, status: PersonaSessionStatus::Idle, history: Vec::new() });
        sessions.push(PersonaSession { speaker: PersonaSpeaker::Implementation, status: PersonaSessionStatus::Idle, history: Vec::new() });
        sessions.push(PersonaSession { speaker: PersonaSpeaker::Verification, status: PersonaSessionStatus::Idle, history: Vec::new() });
        sessions.push(PersonaSession { speaker: PersonaSpeaker::Documentation, status: PersonaSessionStatus::Idle, history: Vec::new() });
        let r = PersonaRuntime {
            current_task: None,
            sessions,
            pending_turns: VecDeque::new(),
            peer_messages: Vec::new(),
            team_tasks: Vec::new(),
            next_task_index: 1,
            next_turn_index: 1,
            next_message_index: 1,
            next_team_task_index: 1,
            follow_up_summary_scheduled: false,
            task_completed: false,
        };
        assert(r@.statuses =~= all_idle());
        assert(r@.histories =~= no_history());
        r
    }

    /// Sets one session's status.
    fn set_status(&mut self, speaker: PersonaSpeaker, status: PersonaSessionStatus)
        requires
            old(self).wf(),
        ensures
            final(self).wf(),
            final(self)@ == spec_set_status(old(self)@, speaker, status),
    {
        let i = speaker_index(speaker);
        let session = self.sessions.remove(i);
        let updated = PersonaSession { speaker: session.speaker, status, history: session.history };
        self.sessions.insert(i, updated);
        proof {
            let o = old(self).sessions@;
            assert(self.sessions@ =~= o.update(i as int, updated));
            assert(self@.statuses =~= old(self)@.statuses.update(i as int, status));
            assert(self@.histories =~= old(self)@.histories);
        }
    }

    /// Every session idle; histories cleared when `clear_history`.
    fn reset_sessions(&mut self, clear_history: bool)
        requires
            old(self).wf(),
        ensures
            final(self).wf(),
            final(self)@ == (RuntimeView {
                statuses: all_idle(),
                histories: if clear_history { no_history() } else { old(self)@.histories },
                ..old(self)@
            }),
    {
        let mut i: usize = 0;
        while i < 5
            invariant
                0 <= i <= 5,
                self.wf(),
                self.current_task == old(self).current_task,
                self.pending_turns == old(self).pending_turns,
                self.peer_messages == old(self).peer_messages,
                self.team_tasks == old(self).team_tasks,
                self.next_task_index == old(self).next_task_index,
                self.next_turn_index == old(self).next_turn_index,
                self.next_message_index == old(self).next_message_index,
                self.next_team_task_index == old(self).next_team_task_index,
                self.follow_up_summary_scheduled == old(self).follow_up_summary_scheduled,
                self.task_completed == old(self).task_completed,
                old(self).wf(),
                forall|k: int| 0 <= k < i ==> (#[trigger] self.sessions@[k]).status is Idle,
                forall|k: int| 0 <= k < 5 ==> (#[trigger] self.sessions@[k]).history@
                    == if clear_history && k < i { Seq::<PersonaMessage>::empty() } else { old(self).sessions@[k].history@ },
            decreases 5 - i,
        {
            let session = self.sessions.remove(i);
            let history = if clear_history { Vec::new() } else { session.history };
            self.sessions.insert(i, PersonaSession { speaker: session.speaker, status: PersonaSessionStatus::Idle, history });
            i = i + 1;
        }
        assert(self@.statuses =~= all_idle());
        assert(self@.histories =~= if clear_history { no_history() } else { old(self)@.histories });
    }

    /// A turn for `speaker` built from the current task (the turn counter advances).
    pub fn build_turn(&mut self, speaker: PersonaSpeaker, stage: PersonaRuntimeStage, kind: PersonaTurnKind) -> (r: PersonaTurn)
        requires
            old(self).wf(),
            old(self)@.task is Some,
        ensures
            final(self).wf(),
            r@ == spec_built_turn(old(self)@, speaker, stage, kind),
            final(self)@ == (RuntimeView { next_turn: spec_succ(old(self)@.next_turn), ..old(self)@ }),
    {
        let id = index_label("persona-turn-", self.next_turn_index);
        let task = self.current_task.as_ref().unwrap();
        let turn = PersonaTurn {
            id,
            task_id: task.task_id.clone(),
            speaker,
            stage,
            kind,
            user_prompt: task.user_prompt.clone(),
            task_state_summary: task.task_state_summary.clone(),
            peer_messages: clone_peer_messages(&self.peer_messages),
            team_tasks: clone_team_tasks(&self.team_tasks),
        };
        self.next_turn_index = self.next_turn_index.saturating_add(1);
        turn
    }
}


fn is_not_kickoff(t: &PersonaTurn) -> (r: bool)
    ensures
        r == !(t@.stage is Kickoff),
{
    t.stage != PersonaRuntimeStage::Kickoff
}

fn is_completion(t: &PersonaTurn) -> (r: bool)
    ensures
        r == is_completion_turn(t@),
{
    t.stage == PersonaRuntimeStage::Completion && t.kind == PersonaTurnKind::Completion
}

fn is_progress_lead(t: &PersonaTurn) -> (r: bool)
    ensures
        r == (t@.speaker is Lead && t@.kind is ProgressLead),
{
    t.speaker == PersonaSpeaker::Lead && t.kind == PersonaTurnKind::ProgressLead
}

/// Index of the first queued turn of a later stage than kickoff.
fn first_non_kickoff(pending: &VecDeque<PersonaTurn>) -> (r: usize)
    ensures
        r == spec_first_where(turn_views(pending@), |u: TurnView| !(u.stage is Kickoff)),
        r <= pending@.len(),
{
    let mut i: usize = 0;
    while i < pending.len() && !is_not_kickoff(&pending[i])
        invariant
            i <= pending@.len(),
            forall|k: int| 0 <= k < i ==> (#[trigger] pending@[k])@.stage is Kickoff,
        decreases pending@.len() - i,
    {
        i = i + 1;
    }
    proof {
        let tv = turn_views(pending@);
        let p = |u: TurnView| !(u.stage is Kickoff);
        assert forall|k: int| 0 <= k < i implies !p(#[trigger] tv[k]) by {
            assert(pending@[k]@.stage is Kickoff);
        }
        lemma_first_where(tv, p, i as int);
    }
    i
}

/// Index of the first queued completion turn.
fn first_completion(pending: &VecDeque<PersonaTurn>) -> (r: usize)
    ensures
        r == spec_first_where(turn_views(pending@), |u: TurnView| is_completion_turn(u)),
        r <= pending@.len(),
{
    let mut i: usize = 0;
    while i < pending.len() && !is_completion(&pending[i])
        invariant
            i <= pending@.len(),
            forall|k: int| 0 <= k < i ==> !is_completion_turn((#[trigger] pending@[k])@),
        decreases pending@.len() - i,
    {
        i = i + 1;
    }
    proof {
        let tv = turn_views(pending@);
        let p = |u: TurnView| is_completion_turn(u);
        assert forall|k: int| 0 <= k < i implies !p(#[trigger] tv[k]) by {
            assert(!is_completion_turn(pending@[k]@));
        }
        lemma_first_where(tv, p, i as int);
    }
    i
}

/// Index of the first queued progress-lead turn of the lead.
fn first_progress_lead(pending: &VecDeque<PersonaTurn>) -> (r: usize)
    ensures
        r == spec_first_where(turn_views(pending@), |u: TurnView| u.speaker is Lead && u.kind is ProgressLead),
        r <= pending@.len(),
{
    let mut i: usize = 0;
    while i < pending.len() && !is_progress_lead(&pending[i])
        invariant
            i <= pending@.len(),
            forall|k: int| 0 <= k < i ==> !((#[trigger] pending@[k])@.speaker is Lead && pending@[k]@.kind is ProgressLead),
        decreases pending@.len() - i,
    {
        i = i + 1;
    }
    proof {
        let tv = turn_views(pending@);
        let p = |u: TurnView| u.speaker is Lead && u.kind is ProgressLead;
        assert forall|k: int| 0 <= k < i implies !p(#[trigger] tv[k]) by {
            assert(!(pending@[k]@.speaker is Lead && pending@[k]@.kind is ProgressLead));
        }
        lemma_first_where(tv, p, i as int);
    }
    i
}

/// Whether a turn of this stage and kind is queued.
fn any_pending(pending: &VecDeque<PersonaTurn>, stage: PersonaRuntimeStage, kind: PersonaTurnKind) -> (r: bool)
    ensures
        r == exists|i: int| 0 <= i < pending@.len() && #[trigger] turn_views(pending@)[i].stage == stage
            && turn_views(pending@)[i].kind == kind,
{
    let mut i: usize = 0;
    while i < pending.len()
        invariant
            i <= pending@.len(),
            forall|k: int| 0 <= k < i ==> !((#[trigger] pending@[k]).stage == stage && pending@[k].kind == kind),
        decreases pending@.len() - i,
    {
        if pending[i].stage == stage && pending[i].kind == kind {
            assert(turn_views(pending@)[i as int].stage == stage);
            return true;
        }
        i = i + 1;
    }
    assert forall|k: int| 0 <= k < pending@.len() implies !(#[trigger] turn_views(pending@)[k].stage == stage
        && turn_views(pending@)[k].kind == kind) by {
        assert(!(pending@[k].stage == stage && pending@[k].kind == kind));
    }
    false
}

impl PersonaRuntime {
    /// Builds a turn, marks its speaker waiting and queues it at the back.
    fn enqueue(&mut self, speaker: PersonaSpeaker, stage: PersonaRuntimeStage, kind: PersonaTurnKind) -> (r: PersonaTurn)
        requires
            old(self).wf(),
            old(self)@.task is Some,
        ensures
            final(self).wf(),
            r@ == spec_built_turn(old(self)@, speaker, stage, kind),
            final(self)@ == spec_enqueue(old(self)@, speaker, stage, kind),
    {
        let turn = self.build_turn(speaker, stage, kind);
        self.set_status(speaker, PersonaSessionStatus::WaitingForModel);
        let ghost before = self.pending_turns@;
        self.pending_turns.push_back(turn.clone());
        assert(turn_views(self.pending_turns@) =~= turn_views(before).push(turn@));
        turn
    }

    /// Builds a kickoff turn and queues it ahead of later-stage turns.
    fn enqueue_kickoff(&mut self, speaker: PersonaSpeaker, kind: PersonaTurnKind)
        requires
            old(self).wf(),
            old(self)@.task is Some,
        ensures
            final(self).wf(),
            final(self)@ == spec_enqueue_kickoff(old(self)@, speaker, kind),
    {
        let turn = self.build_turn(speaker, PersonaRuntimeStage::Kickoff, kind);
        self.set_status(speaker, PersonaSessionStatus::WaitingForModel);
        let i = first_non_kickoff(&self.pending_turns);
        let ghost before = self.pending_turns@;
        self.pending_turns.insert(i, turn);
        assert(turn_views(self.pending_turns@) =~= turn_views(before).insert(i as int, turn@));
    }
}


#[derive(Clone, Copy, PartialEq, Eq, Structural)]
enum TaskOp {
    Claim,
    Report,
    Pass,
    Close,
}

spec fn spec_task_op(t: TeamTaskView, op: TaskOp, owner: PersonaSpeaker, report: Seq<char>) -> TeamTaskView {
    match op {
        TaskOp::Claim => if t.owner == owner && t.status is Open {
            TeamTaskView { status: PersonaTeamTaskStatus::Claimed, ..t }
        } else {
            t
        },
        TaskOp::Report => if is_unanswered(t, owner) {
            TeamTaskView { status: PersonaTeamTaskStatus::Reported, report: Some(report), ..t }
        } else {
            t
        },
        TaskOp::Pass => if is_unanswered(t, owner) {
            TeamTaskView { status: PersonaTeamTaskStatus::Passed, report: None, ..t }
        } else {
            t
        },
        TaskOp::Close => if t.status is Reported {
            TeamTaskView { status: PersonaTeamTaskStatus::Closed, ..t }
        } else {
            t
        },
    }
}

spec fn spec_tasks_op(tasks: Seq<TeamTaskView>, op: TaskOp, owner: PersonaSpeaker, report: Seq<char>) -> Seq<TeamTaskView> {
    match op {
        TaskOp::Claim => spec_claim(tasks, owner),
        TaskOp::Report => spec_report(tasks, owner, report),
        TaskOp::Pass => spec_pass(tasks, owner),
        TaskOp::Close => spec_close(tasks),
    }
}

proof fn lemma_tasks_op_index(tasks: Seq<TeamTaskView>, op: TaskOp, owner: PersonaSpeaker, report: Seq<char>, k: int)
    requires
        0 <= k < tasks.len(),
    ensures
        spec_tasks_op(tasks, op, owner, report).len() == tasks.len(),
        spec_tasks_op(tasks, op, owner, report)[k] == spec_task_op(tasks[k], op, owner, report),
{
}

fn task_op_applies(t: &PersonaTeamTask, op: TaskOp, owner: PersonaSpeaker) -> (r: bool)
    ensures
        r == match op {
            TaskOp::Claim => t.owner == owner && t.status is Open,
            TaskOp::Report => is_unanswered(t@, owner),
            TaskOp::Pass => is_unanswered(t@, owner),
            TaskOp::Close => t.status is Reported,
        },
        !r ==> forall|rep: Seq<char>| spec_task_op(t@, op, owner, rep) == t@,
{
    match op {
        TaskOp::Claim => t.owner == owner && t.status == PersonaTeamTaskStatus::Open,
        TaskOp::Report | TaskOp::Pass => t.owner == owner && (t.status == PersonaTeamTaskStatus::Open
            || t.status == PersonaTeamTaskStatus::Claimed),
        TaskOp::Close => t.status == PersonaTeamTaskStatus::Reported,
    }
}

impl PersonaRuntime {
    fn update_team_tasks(&mut self, op: TaskOp, owner: PersonaSpeaker, report: &String)
        requires
            old(self).wf(),
        ensures
            final(self).wf(),
            final(self)@ == (RuntimeView {
                team_tasks: spec_tasks_op(old(self)@.team_tasks, op, owner, report@),
                ..old(self)@
            }),
    {
        let n = self.team_tasks.len();
        let mut i: usize = 0;
        while i < n
            invariant
                n == old(self).team_tasks@.len(),
                self.team_tasks@.len() == n,
                0 <= i <= n,
                self.current_task == old(self).current_task,
                self.sessions == old(self).sessions,
                self.pending_turns == old(self).pending_turns,
                self.peer_messages == old(self).peer_messages,
                self.next_task_index == old(self).next_task_index,
                self.next_turn_index == old(self).next_turn_index,
                self.next_message_index == old(self).next_message_index,
                self.next_team_task_index == old(self).next_team_task_index,
                self.follow_up_summary_scheduled == old(self).follow_up_summary_scheduled,
                self.task_completed == old(self).task_completed,
                old(self).wf(),
                forall|k: int| 0 <= k < i ==> (#[trigger] self.team_tasks@[k])@
                    == spec_task_op(old(self).team_tasks@[k]@, op, owner, report@),
                forall|k: int| i <= k < n ==> #[trigger] self.team_tasks@[k] == old(self).team_tasks@[k],
            decreases n - i,
        {
            let t = &self.team_tasks[i];
            if task_op_applies(t, op, owner) {
                let (status, new_report) = match op {
                    TaskOp::Claim => (PersonaTeamTaskStatus::Claimed, clone_option_string(&t.report)),
                    TaskOp::Report => (PersonaTeamTaskStatus::Reported, Some(report.clone())),
                    TaskOp::Pass => (PersonaTeamTaskStatus::Passed, None),
                    TaskOp::Close => (PersonaTeamTaskStatus::Closed, clone_option_string(&t.report)),
                };
                let updated = PersonaTeamTask {
                    id: t.id.clone(),
                    owner: t.owner,
                    title: t.title.clone(),
                    status,
                    report: new_report,
                };
                self.team_tasks.set(i, updated);
            }
            i = i + 1;
        }
        proof {
            let a = team_task_views(self.team_tasks@);
            let b = spec_tasks_op(old(self)@.team_tasks, op, owner, report@);
            assert forall|k: int| 0 <= k < n implies a[k] == b[k] by {
                lemma_tasks_op_index(old(self)@.team_tasks, op, owner, report@, k);
            }
            assert(a =~= b);
        }
    }
}


/// The teammates the drafts address, as `spec_addressed` picks them.
fn addressed_speakers(drafts: &Vec<PersonaPeerMessageDraft>, limit: usize) -> (r: Vec<PersonaSpeaker>)
    requires
        limit >= 1,
    ensures
        r@ == spec_addressed(draft_views(drafts@), Seq::empty(), limit as nat),
{
    let mut acc: Vec<PersonaSpeaker> = Vec::new();
    let mut i: usize = 0;
    let ghost ds = draft_views(drafts@);
    assert(ds.skip(0) =~= ds);
    while i < drafts.len()
        invariant
            ds == draft_views(drafts@),
            i <= drafts@.len(),
            acc@.len() < limit,
            spec_addressed(ds, Seq::empty(), limit as nat) == spec_addressed(ds.skip(i as int), acc@, limit as nat),
        decreases drafts@.len() - i,
    {
        let to = drafts[i].to;
        proof {
            assert(ds.skip(i as int).drop_first() =~= ds.skip(i + 1));
            assert(ds.skip(i as int)[0] == ds[i as int]);
        }
        let mut seen = false;
        let mut j: usize = 0;
        while j < acc.len()
            invariant
                j <= acc@.len(),
                seen == exists|k: int| 0 <= k < j && acc@[k] == to,
            decreases acc@.len() - j,
        {
            if acc[j] == to {
                seen = true;
            }
            j = j + 1;
        }
        assert(seen == acc@.contains(to));
        if to == PersonaSpeaker::Lead || seen {
            i = i + 1;
        } else {
            acc.push(to);
            i = i + 1;
            if acc.len() >= limit {
                assert(spec_addressed(ds.skip(i as int), acc@, limit as nat) == acc@);
                return acc;
            }
        }
    }
    assert(ds.skip(i as int).len() == 0);
    acc
}

impl PersonaRuntime {
    /// Registers one peer message; a lead's message to a teammate opens a team task.
    fn register_peer_message(&mut self, from: PersonaSpeaker, draft: &PersonaPeerMessageDraft)
        requires
            old(self).wf(),
        ensures
            final(self).wf(),
            final(self)@ == spec_register(old(self)@, from, draft@),
    {
        let message = PersonaPeerMessage {
            id: index_label("persona-peer-", self.next_message_index),
            from,
            to: draft.to,
            body: draft.body.clone(),
        };
        self.next_message_index = self.next_message_index.saturating_add(1);
        let ghost before = self.peer_messages@;
        self.peer_messages.push(message);
        assert(peer_views(self.peer_messages@) =~= peer_views(before).push(message@));
        if from == PersonaSpeaker::Lead && draft.to != PersonaSpeaker::Lead {
            let task = PersonaTeamTask {
                id: index_label("persona-team-task-", self.next_team_task_index),
                owner: draft.to,
                title: draft.body.clone(),
                status: PersonaTeamTaskStatus::Open,
                report: None,
            };
            self.next_team_task_index = self.next_team_task_index.saturating_add(1);
            let ghost tasks_before = self.team_tasks@;
            self.team_tasks.push(task);
            assert(team_task_views(self.team_tasks@) =~= team_task_views(tasks_before).push(task@));
        }
    }

    fn register_peer_messages(&mut self, from: PersonaSpeaker, drafts: &Vec<PersonaPeerMessageDraft>)
        requires
            old(self).wf(),
        ensures
            final(self).wf(),
            final(self)@ == spec_register_all(old(self)@, from, draft_views(drafts@)),
            final(self)@.task == old(self)@.task,
    {
        let ghost ds = draft_views(drafts@);
        let mut i: usize = 0;
        assert(ds.skip(0) =~= ds);
        while i < drafts.len()
            invariant
                ds == draft_views(drafts@),
                i <= drafts@.len(),
                self.wf(),
                self@.task == old(self)@.task,
                spec_register_all(old(self)@, from, ds) == spec_register_all(self@, from, ds.skip(i as int)),
            decreases drafts@.len() - i,
        {
            proof {
                assert(ds.skip(i as int).drop_first() =~= ds.skip(i + 1));
                assert(ds.skip(i as int)[0] == drafts@[i as int]@);
            }
            self.register_peer_message(from, &drafts[i]);
            i = i + 1;
        }
        assert(ds.skip(i as int).len() == 0);
    }

    /// Wakes each addressed teammate in order.
    fn wake_members(&mut self, speakers: &Vec<PersonaSpeaker>, stage: PersonaRuntimeStage)
        requires
            old(self).wf(),
            old(self)@.task is Some,
        ensures
            final(self).wf(),
            final(self)@ == spec_wake_members(old(self)@, speakers@, stage),
            final(self)@.task == old(self)@.task,
    {
        let empty = String::new();
        let mut i: usize = 0;
        assert(speakers@.skip(0) =~= speakers@);
        while i < speakers.len()
            invariant
                i <= speakers@.len(),
                self.wf(),
                self@.task == old(self)@.task,
                old(self)@.task is Some,
                spec_wake_members(old(self)@, speakers@, stage) == spec_wake_members(self@, speakers@.skip(i as int), stage),
            decreases speakers@.len() - i,
        {
            proof {
                assert(speakers@.skip(i as int).drop_first() =~= speakers@.skip(i + 1));
            }
            let speaker = speakers[i];
            self.update_team_tasks(TaskOp::Claim, speaker, &empty);
            if stage == PersonaRuntimeStage::Kickoff {
                self.enqueue_kickoff(speaker, PersonaTurnKind::MemberResponse);
            } else {
                self.enqueue(speaker, stage, PersonaTurnKind::MemberResponse);
            }
            i = i + 1;
        }
        assert(speakers@.skip(i as int).len() == 0);
    }
}


impl PersonaRuntime {
    fn kickoff_summary(&mut self)
        requires
            old(self).wf(),
            old(self)@.task is Some,
        ensures
            final(self).wf(),
            final(self)@ == spec_kickoff_summary(old(self)@),
    {
        if self.task_completed {
            return;
        }
        if any_pending(&self.pending_turns, PersonaRuntimeStage::Kickoff, PersonaTurnKind::LeadSummary) {
            return;
        }
        self.enqueue_kickoff(PersonaSpeaker::Lead, PersonaTurnKind::LeadSummary);
    }

    fn progress_summary(&mut self)
        requires
            old(self).wf(),
            old(self)@.task is Some,
        ensures
            final(self).wf(),
            final(self)@ == spec_progress_summary(old(self)@),
    {
        if self.task_completed {
            return;
        }
        if any_pending(&self.pending_turns, PersonaRuntimeStage::Progress, PersonaTurnKind::LeadSummary) {
            return;
        }
        self.enqueue(PersonaSpeaker::Lead, PersonaRuntimeStage::Progress, PersonaTurnKind::LeadSummary);
    }

    fn follow_up_summary(&mut self)
        requires
            old(self).wf(),
            old(self)@.task is Some,
        ensures
            final(self).wf(),
            final(self)@ == spec_follow_up_summary(old(self)@),
    {
        if self.follow_up_summary_scheduled {
            return;
        }
        self.follow_up_summary_scheduled = true;
        let turn = self.build_turn(PersonaSpeaker::Lead, PersonaRuntimeStage::FollowUp, PersonaTurnKind::LeadSummary);
        let i = first_completion(&self.pending_turns);
        let ghost before = self.pending_turns@;
        if i < self.pending_turns.len() {
            self.pending_turns.remove(i);
            assert(turn_views(self.pending_turns@) =~= turn_views(before).remove(i as int));
        }
        self.set_status(PersonaSpeaker::Lead, PersonaSessionStatus::WaitingForModel);
        let ghost mid = self.pending_turns@;
        self.pending_turns.push_back(turn);
        assert(turn_views(self.pending_turns@) =~= turn_views(mid).push(turn@));
    }

    fn schedule(&mut self, stage: PersonaRuntimeStage, kind: PersonaTurnKind, drafts: &Vec<PersonaPeerMessageDraft>)
        requires
            old(self).wf(),
            old(self)@.task is Some || !spec_may_schedule(stage, kind),
        ensures
            final(self).wf(),
            final(self)@ == spec_schedule(old(self)@, stage, kind, draft_views(drafts@)),
    {
        let limit: usize = if stage == PersonaRuntimeStage::Kickoff { 4 } else { 3 };
        match stage {
            PersonaRuntimeStage::Kickoff => {
                if kind == PersonaTurnKind::LeadSummon {
                    let speakers = addressed_speakers(drafts, limit);
                    self.wake_members(&speakers, stage);
                    if !any_pending(&self.pending_turns, stage, PersonaTurnKind::MemberResponse) {
                        self.kickoff_summary();
                    }
                } else if kind == PersonaTurnKind::MemberResponse {
                    if !any_pending(&self.pending_turns, stage, PersonaTurnKind::MemberResponse) {
                        self.kickoff_summary();
                    }
                }
            },
            PersonaRuntimeStage::Progress => {
                if kind == PersonaTurnKind::ProgressLead {
                    let speakers = addressed_speakers(drafts, limit);
                    self.wake_members(&speakers, stage);
                    if !any_pending(&self.pending_turns, stage, PersonaTurnKind::MemberResponse) {
                        self.progress_summary();
                    }
                } else if kind == PersonaTurnKind::MemberResponse {
                    if !any_pending(&self.pending_turns, stage, PersonaTurnKind::MemberResponse) {
                        self.progress_summary();
                    }
                }
            },
            PersonaRuntimeStage::FollowUp => {
                if kind == PersonaTurnKind::FollowUpLead {
                    let speakers = addressed_speakers(drafts, limit);
                    self.wake_members(&speakers, stage);
                    if self.pending_turns.len() == 0 {
                        self.follow_up_summary();
                    }
                } else if kind == PersonaTurnKind::MemberResponse {
                    if !any_pending(&self.pending_turns, stage, PersonaTurnKind::MemberResponse) {
                        self.follow_up_summary();
                    }
                }
            },
            PersonaRuntimeStage::Completion => {},
        }
    }

    fn record_outcome(&mut self, outcome: PersonaTurnOutcome)
        requires
            old(self).wf(),
        ensures
            final(self).wf(),
            final(self)@ == spec_record_outcome(old(self)@, outcome),
    {
        match outcome {
            PersonaTurnOutcome::Spoken(message) => {
                let i = speaker_index(message.speaker);
                let ghost m = message;
                let session = self.sessions.remove(i);
                let mut history = session.history;
                history.push(message);
                let updated = PersonaSession { speaker: session.speaker, status: PersonaSessionStatus::Idle, history };
                self.sessions.insert(i, updated);
                proof {
                    let o = old(self).sessions@;
                    assert(self.sessions@ =~= o.update(i as int, updated));
                    assert(self@.statuses =~= old(self)@.statuses.update(i as int, PersonaSessionStatus::Idle));
                    assert(self@.histories =~= old(self)@.histories.update(i as int, old(self)@.histories[i as int].push(m)));
                }
            },
            PersonaTurnOutcome::Passed { speaker } => {
                self.set_status(speaker, PersonaSessionStatus::Idle);
            },
        }
    }

    /// Records what a speaker returned for `turn`, delivers its peer messages,
    /// updates the team tasks it answers, and queues the turns that follow.
    pub fn record_turn_result(&mut self, turn: &PersonaTurn, result: PersonaTurnResult)
        requires
            old(self).wf(),
            old(self)@.task is Some
                || !spec_may_schedule(turn.stage, turn.kind)
                || (turn.kind.spec_requires_visible_message() && result.outcome is Passed)
                || (old(self)@.completed && !(turn.stage is Completion)),
        ensures
            final(self).wf(),
            final(self)@ == spec_record_turn_result(old(self)@, turn@, result.outcome, draft_views(result.peer_messages@)),
    {
        let speaker = result.outcome.speaker();
        let passed = matches!(result.outcome, PersonaTurnOutcome::Passed { .. });
        if (turn.kind.requires_visible_message() && passed)
            || (self.task_completed && turn.stage != PersonaRuntimeStage::Completion) {
            self.set_status(speaker, PersonaSessionStatus::Idle);
            return;
        }
        let empty = String::new();
        if turn.kind == PersonaTurnKind::MemberResponse {
            match &result.outcome {
                PersonaTurnOutcome::Spoken(message) => {
                    self.update_team_tasks(TaskOp::Report, speaker, &message.body);
                },
                PersonaTurnOutcome::Passed { .. } => {
                    self.update_team_tasks(TaskOp::Pass, speaker, &empty);
                },
            }
        }
        if turn.kind == PersonaTurnKind::LeadSummary || turn.kind == PersonaTurnKind::Completion {
            self.update_team_tasks(TaskOp::Close, speaker, &empty);
        }
        let PersonaTurnResult { outcome, peer_messages } = result;
        self.record_outcome(outcome);
        self.register_peer_messages(speaker, &peer_messages);
        self.schedule(turn.stage, turn.kind, &peer_messages);
    }
}


pub open spec fn turn_opt_view(o: Option<&PersonaTurn>) -> Option<TurnView> {
    match o {
        Some(t) => Some(t@),
        None => None,
    }
}

/// Whether the running turn is a lead summary or closure of the current task.
pub open spec fn spec_absorbs(v: RuntimeView, active: Option<TurnView>) -> bool {
    match active {
        Some(t) => (t.kind is LeadSummary || t.kind is Completion) && match v.task {
            Some(task) => task.task_id == t.task_id,
            None => false,
        },
        None => false,
    }
}

pub open spec fn spec_start_kickoff(v: RuntimeView, user_prompt: Seq<char>) -> RuntimeView {
    spec_enqueue(
        spec_reset(v, user_prompt, "main_runtime_status: not_started"@),
        PersonaSpeaker::Lead,
        PersonaRuntimeStage::Kickoff,
        PersonaTurnKind::LeadSummon,
    )
}

pub open spec fn spec_kickoff_turn(v: RuntimeView, user_prompt: Seq<char>) -> TurnView {
    spec_built_turn(
        spec_reset(v, user_prompt, "main_runtime_status: not_started"@),
        PersonaSpeaker::Lead,
        PersonaRuntimeStage::Kickoff,
        PersonaTurnKind::LeadSummon,
    )
}

/// Completion: the summary recorded, the task marked completed, and every
/// queued turn but the completion closure dropped.
pub open spec fn spec_completing(v: RuntimeView, summary: Seq<char>) -> RuntimeView {
    RuntimeView {
        completed: true,
        pending: v.pending.filter(|t: TurnView| is_completion_turn(t)),
        ..spec_with_summary(v, summary)
    }
}

pub open spec fn spec_enqueue_completion(v: RuntimeView, summary: Seq<char>) -> RuntimeView {
    let w = spec_completing(v, summary);
    if w.pending.len() > 0 {
        RuntimeView { pending: w.pending.update(0, spec_turn_with_summary(w.pending[0], summary)), ..w }
    } else {
        spec_enqueue(w, PersonaSpeaker::Lead, PersonaRuntimeStage::Completion, PersonaTurnKind::Completion)
    }
}

pub open spec fn spec_completion_turn(v: RuntimeView, summary: Seq<char>) -> TurnView {
    let w = spec_completing(v, summary);
    if w.pending.len() > 0 {
        spec_turn_with_summary(w.pending[0], summary)
    } else {
        spec_built_turn(w, PersonaSpeaker::Lead, PersonaRuntimeStage::Completion, PersonaTurnKind::Completion)
    }
}

pub open spec fn spec_progress_index(v: RuntimeView) -> int {
    spec_first_where(v.pending, |u: TurnView| u.speaker is Lead && u.kind is ProgressLead)
}

pub open spec fn spec_enqueue_progress(v: RuntimeView, summary: Seq<char>) -> RuntimeView {
    let w = spec_with_summary(v, summary);
    let i = spec_progress_index(w);
    if i < w.pending.len() {
        RuntimeView { pending: w.pending.update(i, spec_turn_with_summary(w.pending[i], summary)), ..w }
    } else {
        spec_enqueue(w, PersonaSpeaker::Lead, PersonaRuntimeStage::Progress, PersonaTurnKind::ProgressLead)
    }
}

pub open spec fn spec_progress_turn(v: RuntimeView, summary: Seq<char>) -> TurnView {
    let w = spec_with_summary(v, summary);
    let i = spec_progress_index(w);
    if i < w.pending.len() {
        spec_turn_with_summary(w.pending[i], summary)
    } else {
        spec_built_turn(w, PersonaSpeaker::Lead, PersonaRuntimeStage::Progress, PersonaTurnKind::ProgressLead)
    }
}

/// A follow-up within the current task: histories and team tasks stay, the
/// queue and peer messages are dropped, every session idles, and the lead opens.
pub open spec fn spec_follow_up_base(v: RuntimeView, user_prompt: Seq<char>, summary: Seq<char>) -> RuntimeView {
    RuntimeView {
        task: Some(TaskRunView { user_prompt, task_state_summary: summary, ..v.task->0 }),
        pending: Seq::empty(),
        peers: Seq::empty(),
        follow_up_scheduled: false,
        completed: false,
        statuses: all_idle(),
        ..v
    }
}

pub open spec fn spec_start_follow_up(v: RuntimeView, user_prompt: Seq<char>, summary: Seq<char>) -> RuntimeView {
    spec_enqueue(
        spec_follow_up_base(v, user_prompt, summary),
        PersonaSpeaker::Lead,
        PersonaRuntimeStage::FollowUp,
        PersonaTurnKind::FollowUpLead,
    )
}

pub open spec fn spec_follow_up_turn(v: RuntimeView, user_prompt: Seq<char>, summary: Seq<char>) -> TurnView {
    spec_built_turn(
        spec_follow_up_base(v, user_prompt, summary),
        PersonaSpeaker::Lead,
        PersonaRuntimeStage::FollowUp,
        PersonaTurnKind::FollowUpLead,
    )
}

impl PersonaRuntime {
    /// Starts a new task with the lead's kickoff turn queued alone.
    pub fn start_kickoff(&mut self, user_prompt: &str) -> (r: PersonaTurn)
        requires
            old(self).wf(),
        ensures
            final(self).wf(),
            r@ == spec_kickoff_turn(old(self)@, user_prompt@),
            final(self)@ == spec_start_kickoff(old(self)@, user_prompt@),
    {
        let task_id = index_label("persona-task-", self.next_task_index);
        self.next_task_index = self.next_task_index.saturating_add(1);
        self.current_task = Some(PersonaTaskRun {
            task_id,
            user_prompt: String::from_str(user_prompt),
            task_state_summary: String::from_str("main_runtime_status: not_started"),
        });
        self.pending_turns = VecDeque::new();
        self.peer_messages = Vec::new();
        self.team_tasks = Vec::new();
        self.follow_up_summary_scheduled = false;
        self.task_completed = false;
        self.reset_sessions(true);
        proof {
            assert(turn_views(self.pending_turns@) =~= Seq::<TurnView>::empty());
            assert(peer_views(self.peer_messages@) =~= Seq::<PeerMessageView>::empty());
            assert(team_task_views(self.team_tasks@) =~= Seq::<TeamTaskView>::empty());
            assert(self@ == spec_reset(old(self)@, user_prompt@, "main_runtime_status: not_started"@));
        }
        self.enqueue(PersonaSpeaker::Lead, PersonaRuntimeStage::Kickoff, PersonaTurnKind::LeadSummon)
    }

    /// Drops the task and everything about it.
    fn clear_active_task(&mut self)
        requires
            old(self).wf(),
        ensures
            final(self).wf(),
            final(self)@ == spec_clear(old(self)@),
    {
        self.current_task = None;
        self.pending_turns = VecDeque::new();
        self.peer_messages = Vec::new();
        self.team_tasks = Vec::new();
        self.follow_up_summary_scheduled = false;
        self.task_completed = false;
        self.reset_sessions(true);
        proof {
            assert(turn_views(self.pending_turns@) =~= Seq::<TurnView>::empty());
            assert(peer_views(self.peer_messages@) =~= Seq::<PeerMessageView>::empty());
            assert(team_task_views(self.team_tasks@) =~= Seq::<TeamTaskView>::empty());
        }
    }

    pub fn clear(&mut self)
        requires
            old(self).wf(),
        ensures
            final(self).wf(),
            final(self)@ == spec_clear(old(self)@),
    {
        self.clear_active_task();
    }

    /// Kickoff when personas are on; with personas off the task is dropped
    /// and nothing is queued.
    pub fn start_kickoff_for_mode(&mut self, mode: PersonaRuntimeMode, user_prompt: &str) -> (r: Option<PersonaTurn>)
        requires
            old(self).wf(),
        ensures
            final(self).wf(),
            mode is Off ==> r is None && final(self)@ == spec_clear(old(self)@),
            mode is Full ==> (r matches Some(t) && t@ == spec_kickoff_turn(old(self)@, user_prompt@))
                && final(self)@ == spec_start_kickoff(old(self)@, user_prompt@),
    {
        if !mode.allows_requests() {
            self.clear_active_task();
            return None;
        }
        Some(self.start_kickoff(user_prompt))
    }

    /// Keeps only the queued completion closure.
    fn keep_completion_turns(&mut self)
        requires
            old(self).wf(),
        ensures
            final(self).wf(),
            final(self)@ == (RuntimeView {
                pending: old(self)@.pending.filter(|t: TurnView| is_completion_turn(t)),
                ..old(self)@
            }),
    {
        let ghost p = |t: TurnView| is_completion_turn(t);
        let ghost tv = turn_views(self.pending_turns@);
        let mut kept: VecDeque<PersonaTurn> = VecDeque::new();
        let mut i: usize = 0;
        while i < self.pending_turns.len()
            invariant
                i <= self.pending_turns@.len(),
                self.pending_turns == old(self).pending_turns,
                tv == turn_views(self.pending_turns@),
                p == (|t: TurnView| is_completion_turn(t)),
                turn_views(kept@) == tv.subrange(0, i as int).filter(p),
            decreases self.pending_turns@.len() - i,
        {
            proof {
                crate::command::lemma_filter_step(tv, i as int, p);
            }
            if is_completion(&self.pending_turns[i]) {
                let ghost before = kept@;
                kept.push_back(self.pending_turns[i].clone());
                assert(turn_views(kept@) =~= turn_views(before).push(tv[i as int]));
            }
            i = i + 1;
        }
        assert(tv.subrange(0, i as int) =~= tv);
        self.pending_turns = kept;
    }

    /// Records completion: the closure turn replaces every other queued turn.
    pub fn enqueue_completion_for_mode(&mut self, mode: PersonaRuntimeMode, task_state_summary: &str) -> (r: Option<PersonaTurn>)
        requires
            old(self).wf(),
        ensures
            final(self).wf(),
            (mode is Off || old(self)@.task is None) ==> r is None && final(self)@ == old(self)@,
            (mode is Full && old(self)@.task is Some) ==> (r matches Some(t)
                && t@ == spec_completion_turn(old(self)@, task_state_summary@))
                && final(self)@ == spec_enqueue_completion(old(self)@, task_state_summary@),
    {
        if !mode.allows_requests() || self.current_task.is_none() {
            return None;
        }
        self.set_task_summary(task_state_summary);
        self.task_completed = true;
        self.keep_completion_turns();
        if self.pending_turns.len() > 0 {
            let first = &self.pending_turns[0];
            let updated = PersonaTurn {
                id: first.id.clone(),
                task_id: first.task_id.clone(),
                speaker: first.speaker,
                stage: first.stage,
                kind: first.kind,
                user_prompt: first.user_prompt.clone(),
                task_state_summary: String::from_str(task_state_summary),
                peer_messages: clone_peer_messages(&first.peer_messages),
                team_tasks: clone_team_tasks(&first.team_tasks),
            };
            let ghost before = self.pending_turns@;
            self.pending_turns.remove(0);
            self.pending_turns.insert(0, updated.clone());
            assert(turn_views(self.pending_turns@) =~= turn_views(before).update(0, updated@));
            return Some(updated);
        }
        Some(self.enqueue(PersonaSpeaker::Lead, PersonaRuntimeStage::Completion, PersonaTurnKind::Completion))
    }

    fn set_task_summary(&mut self, summary: &str)
        requires
            old(self).wf(),
            old(self)@.task is Some,
        ensures
            final(self).wf(),
            final(self)@ == spec_with_summary(old(self)@, summary@),
    {
        let task = self.current_task.as_ref().unwrap();
        let updated = PersonaTaskRun {
            task_id: task.task_id.clone(),
            user_prompt: task.user_prompt.clone(),
            task_state_summary: String::from_str(summary),
        };
        self.current_task = Some(updated);
    }

    /// When the turn running now is a lead summary or closure of the current
    /// task, it absorbs the completion summary instead of a new turn.
    pub fn absorb_completion_into_active_closure(&mut self, active_turn: Option<&PersonaTurn>, task_state_summary: &str) -> (r: bool)
        requires
            old(self).wf(),
        ensures
            final(self).wf(),
            r == spec_absorbs(old(self)@, turn_opt_view(active_turn)),
            r ==> final(self)@ == spec_with_summary(old(self)@, task_state_summary@),
            !r ==> final(self)@ == old(self)@,
    {
        let active = match active_turn {
            Some(t) => t,
            None => return false,
        };
        if !(active.kind == PersonaTurnKind::LeadSummary || active.kind == PersonaTurnKind::Completion) {
            return false;
        }
        let same = match &self.current_task {
            Some(task) => str_eq(task.task_id.as_str(), active.task_id.as_str()),
            None => false,
        };
        if !same {
            return false;
        }
        self.set_task_summary(task_state_summary);
        true
    }

    /// A progress update: records the summary and queues one lead progress
    /// turn (or refreshes the one already queued). Nothing happens once the
    /// task is completed.
    pub fn enqueue_progress_for_mode(&mut self, mode: PersonaRuntimeMode, task_state_summary: &str) -> (r: Option<PersonaTurn>)
        requires
            old(self).wf(),
        ensures
            final(self).wf(),
            (mode is Off || old(self)@.task is None || old(self)@.completed) ==> r is None && final(self)@ == old(self)@,
            (mode is Full && old(self)@.task is Some && !old(self)@.completed) ==> (r matches Some(t)
                && t@ == spec_progress_turn(old(self)@, task_state_summary@))
                && final(self)@ == spec_enqueue_progress(old(self)@, task_state_summary@),
    {
        if !mode.allows_requests() || self.current_task.is_none() || self.task_completed {
            return None;
        }
        self.set_task_summary(task_state_summary);
        let i = first_progress_lead(&self.pending_turns);
        if i < self.pending_turns.len() {
            let existing = &self.pending_turns[i];
            let updated = PersonaTurn {
                id: existing.id.clone(),
                task_id: existing.task_id.clone(),
                speaker: existing.speaker,
                stage: existing.stage,
                kind: existing.kind,
                user_prompt: existing.user_prompt.clone(),
                task_state_summary: String::from_str(task_state_summary),
                peer_messages: clone_peer_messages(&existing.peer_messages),
                team_tasks: clone_team_tasks(&existing.team_tasks),
            };
            let ghost before = self.pending_turns@;
            self.pending_turns.remove(i);
            self.pending_turns.insert(i, updated.clone());
            assert(turn_views(self.pending_turns@) =~= turn_views(before).update(i as int, updated@));
            return Some(updated);
        }
        Some(self.enqueue(PersonaSpeaker::Lead, PersonaRuntimeStage::Progress, PersonaTurnKind::ProgressLead))
    }

    /// A follow-up message: with personas off the task is dropped; with no
    /// task it starts one; otherwise the lead reopens the current task.
    pub fn start_follow_up_for_mode(
        &mut self,
        mode: PersonaRuntimeMode,
        user_prompt: &str,
        task_state_summary: &str,
    ) -> (r: Option<PersonaTurn>)
        requires
            old(self).wf(),
        ensures
            final(self).wf(),
            mode is Off ==> r is None && final(self)@ == spec_clear(old(self)@),
            (mode is Full && old(self)@.task is None) ==> (r matches Some(t)
                && t@ == spec_kickoff_turn(old(self)@, user_prompt@))
                && final(self)@ == spec_start_kickoff(old(self)@, user_prompt@),
            (mode is Full && old(self)@.task is Some) ==> (r matches Some(t)
                && t@ == spec_follow_up_turn(old(self)@, user_prompt@, task_state_summary@))
                && final(self)@ == spec_start_follow_up(old(self)@, user_prompt@, task_state_summary@),
    {
        if !mode.allows_requests() {
            self.clear_active_task();
            return None;
        }
        if self.current_task.is_none() {
            return Some(self.start_kickoff(user_prompt));
        }
        let task = self.current_task.as_ref().unwrap();
        let updated = PersonaTaskRun {
            task_id: task.task_id.clone(),
            user_prompt: String::from_str(user_prompt),
            task_state_summary: String::from_str(task_state_summary),
        };
        self.current_task = Some(updated);
        self.pending_turns = VecDeque::new();
        self.peer_messages = Vec::new();
        self.follow_up_summary_scheduled = false;
        self.task_completed = false;
        self.reset_sessions(false);
        proof {
            assert(turn_views(self.pending_turns@) =~= Seq::<TurnView>::empty());
            assert(peer_views(self.peer_messages@) =~= Seq::<PeerMessageView>::empty());
            assert(self@ == spec_follow_up_base(old(self)@, user_prompt@, task_state_summary@));
        }
        Some(self.enqueue(PersonaSpeaker::Lead, PersonaRuntimeStage::FollowUp, PersonaTurnKind::FollowUpLead))
    }

    /// The next queued turn, first in, first out.
    pub fn pop_next_turn(&mut self) -> (r: Option<PersonaTurn>)
        requires
            old(self).wf(),
        ensures
            final(self).wf(),
            old(self)@.pending.len() == 0 ==> r is None && final(self)@ == old(self)@,
            old(self)@.pending.len() > 0 ==> (r matches Some(t) && t@ == old(self)@.pending[0])
                && final(self)@ == (RuntimeView { pending: old(self)@.pending.drop_first(), ..old(self)@ }),
    {
        if self.pending_turns.len() == 0 {
            return None;
        }
        let ghost before = self.pending_turns@;
        let t = self.pending_turns.pop_front();
        assert(turn_views(self.pending_turns@) =~= turn_views(before).drop_first());
        t
    }

    /// Queues a turn at the back as it is.
    pub fn push_pending_turn(&mut self, turn: PersonaTurn)
        requires
            old(self).wf(),
        ensures
            final(self).wf(),
            final(self)@ == (RuntimeView { pending: old(self)@.pending.push(turn@), ..old(self)@ }),
    {
        let ghost before = self.pending_turns@;
        let ghost tv = turn@;
        self.pending_turns.push_back(turn);
        assert(turn_views(self.pending_turns@) =~= turn_views(before).push(tv));
    }

    pub fn pending_turns(&self) -> (r: &VecDeque<PersonaTurn>)
        ensures
            turn_views(r@) == self@.pending,
    {
        &self.pending_turns
    }

    pub fn sessions(&self) -> (r: &[PersonaSession])
        requires
            self.wf(),
        ensures
            r@ == self.spec_sessions(),
    {
        self.sessions.as_slice()
    }

    /// The history of `speaker`'s own session.
    pub fn session_history(&self, speaker: PersonaSpeaker) -> (r: Option<&[PersonaMessage]>)
        requires
            self.wf(),
        ensures
            r matches Some(h) && h@ == self@.histories[spec_speaker_index(speaker)],
    {
        let i = speaker_index(speaker);
        Some(self.sessions[i].history.as_slice())
    }

    pub fn current_task(&self) -> (r: Option<&PersonaTaskRun>)
        ensures
            match r {
                Some(t) => self@.task == Some(t@),
                None => self@.task is None,
            },
    {
        self.current_task.as_ref()
    }

    pub fn is_task_completed(&self) -> (r: bool)
        ensures
            r == self@.completed,
    {
        self.task_completed
    }

    pub fn peer_messages(&self) -> (r: &[PersonaPeerMessage])
        ensures
            peer_views(r@) == self@.peers,
    {
        self.peer_messages.as_slice()
    }

    pub fn team_tasks(&self) -> (r: &[PersonaTeamTask])
        ensures
            team_task_views(r@) == self@.team_tasks,
    {
        self.team_tasks.as_slice()
    }

    pub fn has_pending_turns(&self) -> (r: bool)
        ensures
            r == (self@.pending.len() > 0),
    {
        self.pending_turns.len() > 0
    }
}

impl Default for PersonaRuntime {
    fn default() -> (r: Self)
        ensures
            r.wf(),
            r@.task is None,
            r@.pending.len() == 0,
    {
        PersonaRuntime::new()
    }
}


impl PersonaRuntime {
    /// The prompt of `turn` given the speaker's own history.
    pub fn build_turn_prompt(&self, turn: &PersonaTurn, speaker_history: &[PersonaMessage]) -> (r: PersonaTurnPrompt)
        ensures
            r.turn_id@ == turn.id@,
            r.speaker == turn.speaker,
            r.role.describes(turn.speaker),
            r.output_contract.speaker == turn.speaker,
            r.output_contract.allow_pass == !turn.kind.spec_requires_visible_message(),
            r.system_prompt@ == spec_system_prompt(turn.speaker, turn.stage, turn.kind, !turn.kind.spec_requires_visible_message()),
            r.user_prompt@ == spec_user_prompt(turn@, speaker_history@),
    {
        build_persona_turn_prompt(turn, speaker_history)
    }
}

/// A peer message as the model wrote it.
#[derive(Debug, PartialEq, Eq)]
pub struct PersonaPeerMessagePayload {
    pub to: String,
    pub body: String,
}

/// A turn's reply as the model wrote it: one speaker, one decision.
#[derive(Debug, PartialEq, Eq)]
pub struct PersonaTurnOutcomePayload {
    pub speaker: String,
    pub decision: String,
    pub body: String,
    pub peer_messages: Vec<PersonaPeerMessagePayload>,
}

pub struct PeerPayloadView {
    pub to: Seq<char>,
    pub body: Seq<char>,
}

pub open spec fn peer_payload_views(s: Seq<PersonaPeerMessagePayload>) -> Seq<PeerPayloadView> {
    s.map_values(|p: PersonaPeerMessagePayload| PeerPayloadView { to: p.to@, body: p.body@ })
}

/// What is wrong with a peer message from `from`, if anything.
pub enum PeerIssue {
    UnknownRecipient,
    ToSelf,
    EmptyBody,
    BodyTooLong,
}

pub open spec fn spec_peer_issue(from: PersonaSpeaker, p: PeerPayloadView) -> Option<PeerIssue> {
    match spec_speaker_from_value(spec_trim(p.to)) {
        None => Some(PeerIssue::UnknownRecipient),
        Some(to) => if to == from {
            Some(PeerIssue::ToSelf)
        } else if spec_trim(p.body).len() == 0 {
            Some(PeerIssue::EmptyBody)
        } else if spec_trim(p.body).len() > MAX_PERSONA_MESSAGE_CHARS {
            Some(PeerIssue::BodyTooLong)
        } else {
            None
        },
    }
}

/// Index of the first peer message with an issue, or the length.
pub open spec fn spec_first_peer_issue(from: PersonaSpeaker, ps: Seq<PeerPayloadView>) -> int
    decreases ps.len(),
{
    if ps.len() == 0 {
        0
    } else if spec_peer_issue(from, ps[0]) is Some {
        0
    } else {
        1 + spec_first_peer_issue(from, ps.drop_first())
    }
}

proof fn lemma_first_peer_issue(from: PersonaSpeaker, ps: Seq<PeerPayloadView>, r: int)
    requires
        0 <= r <= ps.len(),
        forall|k: int| 0 <= k < r ==> spec_peer_issue(from, #[trigger] ps[k]) is None,
        r < ps.len() ==> spec_peer_issue(from, ps[r]) is Some,
    ensures
        spec_first_peer_issue(from, ps) == r,
    decreases r,
{
    if r > 0 {
        assert(spec_peer_issue(from, ps[0]) is None);
        lemma_first_peer_issue(from, ps.drop_first(), r - 1);
    }
}

pub open spec fn spec_draft_of(p: PeerPayloadView) -> DraftView {
    DraftView { to: spec_speaker_from_value(spec_trim(p.to))->0, body: spec_trim(p.body) }
}

/// How a reply for `expected` is judged, in the order the checks run.
pub enum TurnPayloadVerdict {
    UnknownSpeaker,
    UnexpectedSpeaker(PersonaSpeaker),
    PeerIssue(int, PeerIssue),
    Speak,
    Pass,
    EmptyBody,
    BodyTooLong,
    PeerMessageOnPass,
    UnknownDecision,
}

pub open spec fn spec_turn_verdict(
    speaker: Seq<char>,
    decision: Seq<char>,
    body: Seq<char>,
    ps: Seq<PeerPayloadView>,
    expected: PersonaSpeaker,
) -> TurnPayloadVerdict {
    match spec_speaker_from_value(spec_trim(speaker)) {
        None => TurnPayloadVerdict::UnknownSpeaker,
        Some(actual) => if actual != expected {
            TurnPayloadVerdict::UnexpectedSpeaker(actual)
        } else if spec_first_peer_issue(actual, ps) < ps.len() {
            let i = spec_first_peer_issue(actual, ps);
            TurnPayloadVerdict::PeerIssue(i, spec_peer_issue(actual, ps[i])->0)
        } else if spec_trim(decision) == "speak"@ {
            if spec_trim(body).len() == 0 {
                TurnPayloadVerdict::EmptyBody
            } else if spec_trim(body).len() > MAX_PERSONA_MESSAGE_CHARS {
                TurnPayloadVerdict::BodyTooLong
            } else {
                TurnPayloadVerdict::Speak
            }
        } else if spec_trim(decision) == "pass"@ {
            if spec_trim(body).len() != 0 {
                TurnPayloadVerdict::EmptyBody
            } else if ps.len() != 0 {
                TurnPayloadVerdict::PeerMessageOnPass
            } else {
                TurnPayloadVerdict::Pass
            }
        } else {
            TurnPayloadVerdict::UnknownDecision
        },
    }
}

/// The result a verdict stands for, given the payload.
pub open spec fn spec_verdict_matches(
    v: TurnPayloadVerdict,
    payload: PersonaTurnOutcomePayload,
    expected: PersonaSpeaker,
    r: Result<PersonaTurnResult, PersonaTurnOutcomeError>,
) -> bool {
    let ps = peer_payload_views(payload.peer_messages@);
    match v {
        TurnPayloadVerdict::UnknownSpeaker => r matches Err(PersonaTurnOutcomeError::UnknownSpeaker(s)) && s@ == payload.speaker@,
        TurnPayloadVerdict::UnexpectedSpeaker(actual) => r == Err::<PersonaTurnResult, PersonaTurnOutcomeError>(
            PersonaTurnOutcomeError::UnexpectedSpeaker { expected, actual },
        ),
        TurnPayloadVerdict::PeerIssue(i, issue) => match issue {
            PeerIssue::UnknownRecipient => r matches Err(PersonaTurnOutcomeError::UnknownPeerRecipient(s)) && s@ == ps[i].to,
            PeerIssue::ToSelf => r matches Err(PersonaTurnOutcomeError::PeerMessageToSelf),
            PeerIssue::EmptyBody => r matches Err(PersonaTurnOutcomeError::EmptyPeerMessageBody),
            PeerIssue::BodyTooLong => r matches Err(PersonaTurnOutcomeError::PeerMessageBodyTooLong),
        },
        TurnPayloadVerdict::Speak => r matches Ok(res) && res.outcome matches PersonaTurnOutcome::Spoken(m)
            && m.speaker == expected && m.body@ == spec_trim(payload.body@) && m.repeat_count == 1
            && draft_views(res.peer_messages@) == ps.map_values(|p: PeerPayloadView| spec_draft_of(p)),
        TurnPayloadVerdict::Pass => r matches Ok(res) && res.outcome == (PersonaTurnOutcome::Passed { speaker: expected })
            && res.peer_messages@.len() == 0,
        TurnPayloadVerdict::EmptyBody => r matches Err(PersonaTurnOutcomeError::EmptyBody),
        TurnPayloadVerdict::BodyTooLong => r matches Err(PersonaTurnOutcomeError::BodyTooLong),
        TurnPayloadVerdict::PeerMessageOnPass => r matches Err(PersonaTurnOutcomeError::PeerMessageOnPass),
        TurnPayloadVerdict::UnknownDecision => r matches Err(PersonaTurnOutcomeError::UnknownDecision(s))
            && s@ == spec_trim(payload.decision@),
    }
}

fn peer_drafts(from: PersonaSpeaker, payloads: &Vec<PersonaPeerMessagePayload>) -> (r: Result<Vec<PersonaPeerMessageDraft>, PersonaTurnOutcomeError>)
    ensures
        ({
            let ps = peer_payload_views(payloads@);
            let i = spec_first_peer_issue(from, ps);
            if i < ps.len() {
                match spec_peer_issue(from, ps[i])->0 {
                    PeerIssue::UnknownRecipient => r matches Err(PersonaTurnOutcomeError::UnknownPeerRecipient(s)) && s@ == ps[i].to,
                    PeerIssue::ToSelf => r matches Err(PersonaTurnOutcomeError::PeerMessageToSelf),
                    PeerIssue::EmptyBody => r matches Err(PersonaTurnOutcomeError::EmptyPeerMessageBody),
                    PeerIssue::BodyTooLong => r matches Err(PersonaTurnOutcomeError::PeerMessageBodyTooLong),
                }
            } else {
                r matches Ok(ds) && draft_views(ds@) == ps.map_values(|p: PeerPayloadView| spec_draft_of(p))
            }
        }),
{
    let ghost ps = peer_payload_views(payloads@);
    let mut drafts: Vec<PersonaPeerMessageDraft> = Vec::new();
    let mut i: usize = 0;
    while i < payloads.len()
        invariant
            ps == peer_payload_views(payloads@),
            i <= payloads@.len(),
            forall|k: int| 0 <= k < i ==> spec_peer_issue(from, #[trigger] ps[k]) is None,
            draft_views(drafts@) == ps.subrange(0, i as int).map_values(|p: PeerPayloadView| spec_draft_of(p)),
        decreases payloads@.len() - i,
    {
        let payload = &payloads[i];
        let to_text = trim(payload.to.as_str());
        let to = match speaker_from_peer_recipient(to_text.as_str()) {
            Some(to) => to,
            None => {
                proof { lemma_first_peer_issue(from, ps, i as int); }
                return Err(PersonaTurnOutcomeError::UnknownPeerRecipient(payload.to.clone()));
            },
        };
        if to == from {
            proof { lemma_first_peer_issue(from, ps, i as int); }
            return Err(PersonaTurnOutcomeError::PeerMessageToSelf);
        }
        let body = trim(payload.body.as_str());
        let len = body.as_str().unicode_len();
        if len == 0 {
            proof { lemma_first_peer_issue(from, ps, i as int); }
            return Err(PersonaTurnOutcomeError::EmptyPeerMessageBody);
        }
        if len > MAX_PERSONA_MESSAGE_CHARS {
            proof { lemma_first_peer_issue(from, ps, i as int); }
            return Err(PersonaTurnOutcomeError::PeerMessageBodyTooLong);
        }
        let draft = PersonaPeerMessageDraft { to, body };
        let ghost before = draft_views(drafts@);
        drafts.push(draft);
        proof {
            assert(draft_views(drafts@) =~= before.push(draft@));
            assert(ps.subrange(0, i + 1).map_values(|p: PeerPayloadView| spec_draft_of(p))
                =~= ps.subrange(0, i as int).map_values(|p: PeerPayloadView| spec_draft_of(p)).push(spec_draft_of(ps[i as int])));
        }
        i = i + 1;
    }
    proof {
        lemma_first_peer_issue(from, ps, i as int);
        assert(ps.subrange(0, i as int) =~= ps);
    }
    Ok(drafts)
}

/// Judges a model reply for a turn of `expected`: the reply must name that
/// speaker, carry valid peer messages, and either speak a non-empty body of at
/// most `MAX_PERSONA_MESSAGE_CHARS` characters or pass with nothing at all.
pub fn persona_turn_outcome_from_payload(
    payload: &PersonaTurnOutcomePayload,
    expected: PersonaSpeaker,
) -> (r: Result<PersonaTurnResult, PersonaTurnOutcomeError>)
    ensures
        spec_verdict_matches(
            spec_turn_verdict(payload.speaker@, payload.decision@, payload.body@, peer_payload_views(payload.peer_messages@), expected),
            *payload,
            expected,
            r,
        ),
{
    let speaker_text = trim(payload.speaker.as_str());
    let speaker = match speaker_from_output_value(speaker_text.as_str()) {
        Some(s) => s,
        None => return Err(PersonaTurnOutcomeError::UnknownSpeaker(payload.speaker.clone())),
    };
    if speaker != expected {
        return Err(PersonaTurnOutcomeError::UnexpectedSpeaker { expected, actual: speaker });
    }
    let drafts = match peer_drafts(speaker, &payload.peer_messages) {
        Ok(d) => d,
        Err(e) => return Err(e),
    };
    let decision = trim(payload.decision.as_str());
    let body = trim(payload.body.as_str());
    let len = body.as_str().unicode_len();
    assert(draft_views(drafts@).len() == drafts@.len());
    assert(peer_payload_views(payload.peer_messages@).len() == payload.peer_messages@.len());
    if str_eq(decision.as_str(), "speak") {
        if len == 0 {
            return Err(PersonaTurnOutcomeError::EmptyBody);
        }
        if len > MAX_PERSONA_MESSAGE_CHARS {
            return Err(PersonaTurnOutcomeError::BodyTooLong);
        }
        let message = PersonaMessage::from_speaker(speaker, body.as_str());
        Ok(PersonaTurnResult::new(PersonaTurnOutcome::Spoken(message), drafts))
    } else if str_eq(decision.as_str(), "pass") {
        if len != 0 {
            return Err(PersonaTurnOutcomeError::EmptyBody);
        }
        if drafts.len() != 0 {
            return Err(PersonaTurnOutcomeError::PeerMessageOnPass);
        }
        Ok(PersonaTurnResult::new(PersonaTurnOutcome::Passed { speaker }, Vec::new()))
    } else {
        Err(PersonaTurnOutcomeError::UnknownDecision(decision))
    }
}

/// Judges a reply for `turn`; a pass is refused where the turn needs a
/// visible message.
pub fn parse_persona_turn_result_for_turn(
    payload: &PersonaTurnOutcomePayload,
    turn: &PersonaTurn,
) -> (r: Result<PersonaTurnResult, PersonaTurnOutcomeError>)
    ensures
        ({
            let v = spec_turn_verdict(payload.speaker@, payload.decision@, payload.body@, peer_payload_views(payload.peer_messages@), turn.speaker);
            if v is Pass && turn.kind.spec_requires_visible_message() {
                r matches Err(PersonaTurnOutcomeError::RequiredSpeakerPassed)
            } else {
                spec_verdict_matches(v, *payload, turn.speaker, r)
            }
        }),
{
    let result = persona_turn_outcome_from_payload(payload, turn.speaker);
    match result {
        Ok(res) => {
            let passed = matches!(res.outcome, PersonaTurnOutcome::Passed { .. });
            if turn.kind.requires_visible_message() && passed {
                return Err(PersonaTurnOutcomeError::RequiredSpeakerPassed);
            }
            Ok(res)
        },
        Err(e) => Err(e),
    }
}


// ----- laws -----

proof fn lemma_register_all_frame(v: RuntimeView, from: PersonaSpeaker, ds: Seq<DraftView>)
    ensures
        spec_register_all(v, from, ds).histories == v.histories,
        spec_register_all(v, from, ds).statuses == v.statuses,
        spec_register_all(v, from, ds).pending == v.pending,
        spec_register_all(v, from, ds).task == v.task,
        spec_register_all(v, from, ds).completed == v.completed,
    decreases ds.len(),
{
    if ds.len() > 0 {
        lemma_register_all_frame(spec_register(v, from, ds[0]), from, ds.drop_first());
    }
}

proof fn lemma_wake_members_frame(v: RuntimeView, ss: Seq<PersonaSpeaker>, stage: PersonaRuntimeStage)
    ensures
        spec_wake_members(v, ss, stage).histories == v.histories,
        spec_wake_members(v, ss, stage).task == v.task,
        spec_wake_members(v, ss, stage).peers == v.peers,
        spec_wake_members(v, ss, stage).completed == v.completed,
    decreases ss.len(),
{
    if ss.len() > 0 {
        lemma_wake_members_frame(spec_wake_member(v, ss[0], stage), ss.drop_first(), stage);
    }
}

proof fn lemma_schedule_frame(v: RuntimeView, stage: PersonaRuntimeStage, kind: PersonaTurnKind, ds: Seq<DraftView>)
    ensures
        spec_schedule(v, stage, kind, ds).histories == v.histories,
        spec_schedule(v, stage, kind, ds).task == v.task,
        spec_schedule(v, stage, kind, ds).peers == v.peers,
{
    lemma_wake_members_frame(v, spec_addressed(ds, Seq::empty(), 4), stage);
    lemma_wake_members_frame(v, spec_addressed(ds, Seq::empty(), 3), stage);
}

/// Turning personas off drops the task, the queue, the peer messages, the
/// team tasks and every history, and leaves every session idle.
pub proof fn lemma_off_mode_clears_everything(v: RuntimeView)
    ensures
        spec_clear(v).task is None,
        spec_clear(v).pending.len() == 0,
        spec_clear(v).peers.len() == 0,
        spec_clear(v).team_tasks.len() == 0,
        forall|i: int| 0 <= i < 5 ==> (#[trigger] spec_clear(v).statuses[i]) is Idle
            && spec_clear(v).histories[i].len() == 0,
{
}

/// A kickoff starts a fresh task: a new `persona-task-NNNN` id, only the
/// lead's kickoff turn queued, and no peer message, team task or history
/// carried over from the previous task.
pub proof fn lemma_kickoff_starts_fresh_task(v: RuntimeView, user_prompt: Seq<char>)
    requires
        v.statuses.len() == 5,
    ensures
        ({
            let w = spec_start_kickoff(v, user_prompt);
            let t = spec_kickoff_turn(v, user_prompt);
            &&& w.task is Some
            &&& w.task->0.task_id == spec_index_label("persona-task-"@, v.next_task)
            &&& w.task->0.user_prompt == user_prompt
            &&& w.next_task == spec_succ(v.next_task)
            &&& w.pending == seq![t]
            &&& t.speaker is Lead && t.stage is Kickoff && t.kind is LeadSummon
            &&& t.task_id == w.task->0.task_id
            &&& w.peers.len() == 0 && w.team_tasks.len() == 0
            &&& w.histories == no_history()
            &&& !w.completed
        }),
{
    let w = spec_start_kickoff(v, user_prompt);
    assert(w.pending =~= seq![spec_kickoff_turn(v, user_prompt)]);
}

/// Completion keeps only the closure: once it is recorded every queued turn
/// is a completion turn (at least one is queued), the task keeps its id and
/// carries the completion summary, and it counts as completed.
pub proof fn lemma_completion_leaves_only_closure(v: RuntimeView, summary: Seq<char>)
    requires
        v.task is Some,
        v.statuses.len() == 5,
    ensures
        ({
            let w = spec_enqueue_completion(v, summary);
            &&& w.pending.len() > 0
            &&& forall|i: int| 0 <= i < w.pending.len() ==> is_completion_turn(#[trigger] w.pending[i])
            &&& w.pending[0].task_state_summary == summary
            &&& w.completed
            &&& w.task->0.task_id == v.task->0.task_id
            &&& w.task->0.task_state_summary == summary
            &&& w.pending[0] == spec_completion_turn(v, summary)
        }),
{
    let p = |t: TurnView| is_completion_turn(t);
    let f = v.pending.filter(p);
    assert forall|i: int| 0 <= i < f.len() implies is_completion_turn(#[trigger] f[i]) by {
        v.pending.lemma_filter_pred(p, i);
        assert(p(f[i]));
    }
    let w = spec_enqueue_completion(v, summary);
    if f.len() == 0 {
        assert(w.pending =~= f.push(spec_built_turn(spec_completing(v, summary), PersonaSpeaker::Lead,
            PersonaRuntimeStage::Completion, PersonaTurnKind::Completion)));
    }
}

/// Once the task is completed, a result for a turn of an earlier stage only
/// idles its speaker: nothing is queued, delivered, reported or remembered.
pub proof fn lemma_completed_task_ignores_stale_turns(
    v: RuntimeView,
    turn: TurnView,
    outcome: PersonaTurnOutcome,
    ds: Seq<DraftView>,
)
    requires
        v.completed,
        !(turn.stage is Completion),
    ensures
        spec_record_turn_result(v, turn, outcome, ds) == spec_set_status(v, outcome.spec_speaker(), PersonaSessionStatus::Idle),
        spec_record_turn_result(v, turn, outcome, ds).pending == v.pending,
        spec_record_turn_result(v, turn, outcome, ds).histories == v.histories,
        spec_record_turn_result(v, turn, outcome, ds).peers == v.peers,
        spec_record_turn_result(v, turn, outcome, ds).team_tasks == v.team_tasks,
{
}

/// A pass on a turn that needs a visible message is refused: it only idles
/// the speaker and schedules nothing.
pub proof fn lemma_required_pass_schedules_nothing(
    v: RuntimeView,
    turn: TurnView,
    speaker: PersonaSpeaker,
    ds: Seq<DraftView>,
)
    requires
        turn.kind.spec_requires_visible_message(),
    ensures
        spec_record_turn_result(v, turn, PersonaTurnOutcome::Passed { speaker }, ds)
            == spec_set_status(v, speaker, PersonaSessionStatus::Idle),
        spec_record_turn_result(v, turn, PersonaTurnOutcome::Passed { speaker }, ds).pending == v.pending,
{
}

/// Sessions are independent: a spoken reply is appended to its own speaker's
/// history and to no other.
pub proof fn lemma_reply_stored_in_own_history_only(
    v: RuntimeView,
    turn: TurnView,
    m: PersonaMessage,
    ds: Seq<DraftView>,
)
    requires
        v.histories.len() == 5,
        !(v.completed && !(turn.stage is Completion)),
    ensures
        ({
            let w = spec_record_turn_result(v, turn, PersonaTurnOutcome::Spoken(m), ds);
            &&& w.histories[spec_speaker_index(m.speaker)] == v.histories[spec_speaker_index(m.speaker)].push(m)
            &&& forall|j: int| 0 <= j < 5 && j != spec_speaker_index(m.speaker) ==> #[trigger] w.histories[j] == v.histories[j]
            &&& w.histories.len() == 5
        }),
{
    let outcome = PersonaTurnOutcome::Spoken(m);
    let speaker = m.speaker;
    let t1 = if turn.kind is MemberResponse { spec_report(v.team_tasks, speaker, m.body@) } else { v.team_tasks };
    let t2 = if turn.kind is LeadSummary || turn.kind is Completion { spec_close(t1) } else { t1 };
    let w = spec_record_outcome(RuntimeView { team_tasks: t2, ..v }, outcome);
    lemma_register_all_frame(w, speaker, ds);
    let x = spec_register_all(w, speaker, ds);
    lemma_schedule_frame(x, turn.stage, turn.kind, ds);
}

/// A follow-up stays in the current task: same task id, every history kept,
/// and only the lead's follow-up turn queued.
pub proof fn lemma_follow_up_keeps_task_history(v: RuntimeView, user_prompt: Seq<char>, summary: Seq<char>)
    requires
        v.task is Some,
        v.statuses.len() == 5,
    ensures
        ({
            let w = spec_start_follow_up(v, user_prompt, summary);
            let t = spec_follow_up_turn(v, user_prompt, summary);
            &&& w.task->0.task_id == v.task->0.task_id
            &&& w.histories == v.histories
            &&& w.team_tasks == v.team_tasks
            &&& w.pending == seq![t]
            &&& t.speaker is Lead && t.stage is FollowUp && t.kind is FollowUpLead
            &&& w.peers.len() == 0
            &&& !w.completed
        }),
{
    let w = spec_start_follow_up(v, user_prompt, summary);
    assert(w.pending =~= seq![spec_follow_up_turn(v, user_prompt, summary)]);
}

/// What a persona reply amounts to. A reply that could not be read, and a
/// request that failed (`None`), count as a pass by the turn's speaker. The
/// reply's message is shown unless the task is already completed and the
/// turn is not its completion turn.
pub open spec fn spec_reply_result(
    turn: PersonaTurn,
    reply: Option<Result<PersonaTurnResult, PersonaTurnOutcomeError>>,
) -> PersonaTurnOutcome {
    match reply {
        Some(Ok(result)) => result.outcome,
        _ => PersonaTurnOutcome::Passed { speaker: turn.speaker },
    }
}

pub fn persona_reply_result(
    turn: &PersonaTurn,
    reply: Option<Result<PersonaTurnResult, PersonaTurnOutcomeError>>,
    task_completed: bool,
) -> (r: (PersonaTurnResult, Option<PersonaMessage>))
    ensures
        r.0.outcome == spec_reply_result(*turn, reply),
        reply matches Some(Ok(result)) ==> r.0.peer_messages == result.peer_messages,
        !(reply matches Some(Ok(_))) ==> r.0.peer_messages@.len() == 0,
        match r.0.outcome {
            PersonaTurnOutcome::Spoken(m) => if task_completed && !(turn.kind is Completion) {
                r.1 is None
            } else {
                r.1 == Some(m)
            },
            PersonaTurnOutcome::Passed { .. } => r.1 is None,
        },
{
    let result = match reply {
        Some(Ok(result)) => result,
        _ => PersonaTurnResult::from_outcome(PersonaTurnOutcome::Passed { speaker: turn.speaker }),
    };
    let stale = task_completed && turn.kind != PersonaTurnKind::Completion;
    let shown = match &result.outcome {
        PersonaTurnOutcome::Spoken(message) => if stale {
            None
        } else {
            Some(message.clone())
        },
        PersonaTurnOutcome::Passed { .. } => None,
    };
    (result, shown)
}

} // verus!
