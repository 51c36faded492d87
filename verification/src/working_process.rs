//! The working-process indicator: which of the six runtime phases is active,
//! and whether the run finished or was canceled.
use vstd::prelude::*;

verus! {

#[verifier::external_type_specification]
#[verifier::external_body]
pub struct ExInstant(std::time::Instant);

/// The current monotonic instant (`std::time::Instant::now`); nothing is
/// promised of its value.
#[verifier::external_body]
fn instant_now() -> std::time::Instant {
    std::time::Instant::now()
}

/// The time elapsed since `start` (`Instant::elapsed`); it depends on the
/// clock, so nothing is promised of it.
#[verifier::external_body]
fn elapsed_since(start: &std::time::Instant) -> core::time::Duration {
    start.elapsed()
}

/// The whole seconds of a duration (`Duration::as_secs`). The duration is
/// opaque here, so nothing is promised of the value.
#[verifier::external_body]
fn whole_seconds(d: &core::time::Duration) -> u64 {
    d.as_secs()
}

/// Whole seconds elapsed since `start`.
fn whole_seconds_since(start: &std::time::Instant) -> u64 {
    let elapsed = elapsed_since(start);
    whole_seconds(&elapsed)
}

#[derive(Clone, Copy, Debug, PartialEq, Eq, Structural)]
pub enum WorkingPhase {
    Interpret,
    Classify,
    Validate,
    Execute,
    Apply,
    Answer,
}

impl WorkingPhase {
    pub open spec fn spec_label(self) -> Seq<char> {
        match self {
            WorkingPhase::Interpret => "해석"@,
            WorkingPhase::Classify => "유형"@,
            WorkingPhase::Validate => "검증"@,
            WorkingPhase::Execute => "실행"@,
            WorkingPhase::Apply => "반영"@,
            WorkingPhase::Answer => "답변"@,
        }
    }

    pub open spec fn spec_detail(self) -> Seq<char> {
        match self {
            WorkingPhase::Interpret => "사용자 요청을 해석합니다."@,
            WorkingPhase::Classify => "작업 유형을 분류합니다."@,
            WorkingPhase::Validate => "수행 조건을 검증합니다."@,
            WorkingPhase::Execute => "작업을 실행합니다."@,
            WorkingPhase::Apply => "결과를 화면 상태에 반영합니다."@,
            WorkingPhase::Answer => "응답 준비를 마무리합니다."@,
        }
    }

    /// One-based position of the phase in the fixed phase order.
    pub open spec fn spec_number(self) -> nat {
        match self {
            WorkingPhase::Interpret => 1,
            WorkingPhase::Classify => 2,
            WorkingPhase::Validate => 3,
            WorkingPhase::Execute => 4,
            WorkingPhase::Apply => 5,
            WorkingPhase::Answer => 6,
        }
    }

    pub fn label(self) -> (r: &'static str)
        ensures
            r@ == self.spec_label(),
    {
        match self {
            WorkingPhase::Interpret => "해석",
            WorkingPhase::Classify => "유형",
            WorkingPhase::Validate => "검증",
            WorkingPhase::Execute => "실행",
            WorkingPhase::Apply => "반영",
            WorkingPhase::Answer => "답변",
        }
    }

    pub fn detail(self) -> (r: &'static str)
        ensures
            r@ == self.spec_detail(),
    {
        match self {
            WorkingPhase::Interpret => "사용자 요청을 해석합니다.",
            WorkingPhase::Classify => "작업 유형을 분류합니다.",
            WorkingPhase::Validate => "수행 조건을 검증합니다.",
            WorkingPhase::Execute => "작업을 실행합니다.",
            WorkingPhase::Apply => "결과를 화면 상태에 반영합니다.",
            WorkingPhase::Answer => "응답 준비를 마무리합니다.",
        }
    }

    /// The phase's position in `phases()`, counted from one.
    pub fn number(self) -> (r: usize)
        ensures
            r == self.spec_number(),
            1 <= r <= 6,
            spec_phases()[r - 1] == self,
    {
        let phases = phases();
        let mut i: usize = 0;
        while i < phases.len()
            invariant
                phases@ == spec_phases(),
                i <= phases@.len(),
                forall|k: int| 0 <= k < i ==> phases@[k] != self,
            decreases phases@.len() - i,
        {
            if phases[i] == self {
                return i + 1;
            }
            i = i + 1;
        }
        1
    }
}

pub open spec fn spec_phases() -> Seq<WorkingPhase> {
    seq![
        WorkingPhase::Interpret,
        WorkingPhase::Classify,
        WorkingPhase::Validate,
        WorkingPhase::Execute,
        WorkingPhase::Apply,
        WorkingPhase::Answer,
    ]
}

/// The six runtime phases, in display order.
pub fn phases() -> (r: Vec<WorkingPhase>)
    ensures
        r@ == spec_phases(),
{
    vec![
        WorkingPhase::Interpret,
        WorkingPhase::Classify,
        WorkingPhase::Validate,
        WorkingPhase::Execute,
        WorkingPhase::Apply,
        WorkingPhase::Answer,
    ]
}

pub struct WorkingProcessState {
    active: bool,
    phase: WorkingPhase,
    detail: String,
    started_at: std::time::Instant,
    last_phase_index: usize,
}

impl WorkingProcessState {
    pub closed spec fn spec_active(&self) -> bool {
        self.active
    }

    pub closed spec fn spec_phase(&self) -> WorkingPhase {
        self.phase
    }

    pub closed spec fn spec_detail(&self) -> Seq<char> {
        self.detail@
    }

    /// Zero-based index of the last phase a runtime event selected.
    pub closed spec fn spec_last_phase_index(&self) -> nat {
        self.last_phase_index as nat
    }

    pub fn new() -> (r: Self)
        ensures
            !r.spec_active(),
            r.spec_phase() == WorkingPhase::Interpret,
            r.spec_detail() == WorkingPhase::Interpret.spec_detail(),
            r.spec_last_phase_index() == 0,
    {
        WorkingProcessState {
            active: false,
            phase: WorkingPhase::Interpret,
            detail: String::from_str(WorkingPhase::Interpret.detail()),
            started_at: instant_now(),
            last_phase_index: 0,
        }
    }

    pub fn start(&mut self) -> (r: WorkingProcessEvents)
        ensures
            final(self).spec_active(),
            final(self).spec_phase() == WorkingPhase::Interpret,
            final(self).spec_detail() == WorkingPhase::Interpret.spec_detail(),
            final(self).spec_last_phase_index() == 0,
            r.events@ == seq![
                WorkingProcessEvent::Started,
                WorkingProcessEvent::PhaseChanged { phase: WorkingPhase::Interpret },
                WorkingProcessEvent::CancelHintRendered,
            ],
            r.workspace_line is None,
    {
        self.active = true;
        self.phase = WorkingPhase::Interpret;
        self.detail = String::from_str(WorkingPhase::Interpret.detail());
        self.started_at = instant_now();
        self.last_phase_index = 0;
        WorkingProcessEvents {
            events: vec![
                WorkingProcessEvent::Started,
                WorkingProcessEvent::PhaseChanged { phase: self.phase },
                WorkingProcessEvent::CancelHintRendered,
            ],
            workspace_line: None,
        }
    }

    /// A clock tick never moves the phase: only runtime events do.
    pub fn tick(&mut self) -> (r: WorkingProcessEvents)
        ensures
            r.is_none(),
            final(self).spec_active() == old(self).spec_active(),
            final(self).spec_phase() == old(self).spec_phase(),
            final(self).spec_detail() == old(self).spec_detail(),
            final(self).spec_last_phase_index() == old(self).spec_last_phase_index(),
    {
        WorkingProcessEvents::none()
    }

    pub fn set_phase(&mut self, phase: WorkingPhase, detail: &str) -> (r: WorkingProcessEvents)
        ensures
            !old(self).spec_active() ==> r.is_none() && final(self).spec_phase()
                == old(self).spec_phase() && final(self).spec_detail() == old(self).spec_detail()
                && final(self).spec_active() == old(self).spec_active()
                && final(self).spec_last_phase_index() == old(self).spec_last_phase_index(),
            old(self).spec_active() ==> final(self).spec_active() && final(self).spec_phase()
                == phase && final(self).spec_detail() == detail@
                && final(self).spec_last_phase_index() == phase.spec_number() - 1
                && r.events@ == seq![WorkingProcessEvent::PhaseChanged { phase }]
                && r.workspace_line is None,
    {
        if !self.active {
            return WorkingProcessEvents::none();
        }
        let phase_index = phase.number() - 1;
        self.last_phase_index = phase_index;
        self.phase = phase;
        self.detail = String::from_str(detail);
        WorkingProcessEvents {
            events: vec![WorkingProcessEvent::PhaseChanged { phase: self.phase }],
            workspace_line: None,
        }
    }

    pub fn cancel(&mut self) -> (r: WorkingProcessEvents)
        ensures
            !final(self).spec_active(),
            final(self).spec_phase() == old(self).spec_phase(),
            final(self).spec_detail() == old(self).spec_detail(),
            !old(self).spec_active() ==> r.is_none(),
            old(self).spec_active() ==> (r.events@ == seq![
                WorkingProcessEvent::Finished { reason: WorkingFinishReason::Canceled },
            ] && (r.workspace_line matches Some(line) && line@ == "Working process canceled."@)),
    {
        if !self.active {
            return WorkingProcessEvents::none();
        }
        self.finish(WorkingFinishReason::Canceled)
    }

    pub fn complete(&mut self) -> (r: WorkingProcessEvents)
        ensures
            !final(self).spec_active(),
            final(self).spec_phase() == old(self).spec_phase(),
            final(self).spec_detail() == old(self).spec_detail(),
            !old(self).spec_active() ==> r.is_none(),
            old(self).spec_active() ==> r.events@ == seq![
                WorkingProcessEvent::Finished { reason: WorkingFinishReason::Completed },
            ] && r.workspace_line is None,
    {
        if !self.active {
            return WorkingProcessEvents::none();
        }
        self.active = false;
        WorkingProcessEvents {
            events: vec![WorkingProcessEvent::Finished { reason: WorkingFinishReason::Completed }],
            workspace_line: None,
        }
    }

    pub fn is_active(&self) -> (r: bool)
        ensures
            r == self.spec_active(),
    {
        self.active
    }

    pub fn phase(&self) -> (r: WorkingPhase)
        ensures
            r == self.spec_phase(),
    {
        self.phase
    }

    pub fn detail(&self) -> (r: &str)
        ensures
            r@ == self.spec_detail(),
    {
        self.detail.as_str()
    }

    /// Seconds since the run started while it is active, and zero otherwise.
    pub fn elapsed_secs(&self) -> (r: u64)
        ensures
            !self.spec_active() ==> r == 0,
    {
        if self.active {
            whole_seconds_since(&self.started_at)
        } else {
            0
        }
    }

    fn finish(&mut self, reason: WorkingFinishReason) -> (r: WorkingProcessEvents)
        ensures
            !final(self).spec_active(),
            final(self).spec_phase() == old(self).spec_phase(),
            final(self).spec_detail() == old(self).spec_detail(),
            r.events@ == seq![WorkingProcessEvent::Finished { reason }],
            r.workspace_line matches Some(line) && line@ == reason.spec_workspace_line(),
    {
        self.active = false;
        WorkingProcessEvents {
            events: vec![WorkingProcessEvent::Finished { reason }],
            workspace_line: Some(String::from_str(reason.workspace_line())),
        }
    }
}

impl Default for WorkingProcessState {
    fn default() -> (r: Self)
        ensures
            !r.spec_active(),
            r.spec_phase() == WorkingPhase::Interpret,
            r.spec_detail() == WorkingPhase::Interpret.spec_detail(),
    {
        Self::new()
    }
}

#[derive(Clone, Copy, Debug, PartialEq, Eq, Structural)]
pub enum WorkingFinishReason {
    Completed,
    Canceled,
}

impl WorkingFinishReason {
    pub open spec fn spec_as_str(self) -> Seq<char> {
        match self {
            WorkingFinishReason::Completed => "completed"@,
            WorkingFinishReason::Canceled => "canceled"@,
        }
    }

    pub open spec fn spec_workspace_line(self) -> Seq<char> {
        match self {
            WorkingFinishReason::Completed => "Working process completed."@,
            WorkingFinishReason::Canceled => "Working process canceled."@,
        }
    }

    pub fn as_str(self) -> (r: &'static str)
        ensures
            r@ == self.spec_as_str(),
    {
        match self {
            WorkingFinishReason::Completed => "completed",
            WorkingFinishReason::Canceled => "canceled",
        }
    }

    fn workspace_line(self) -> (r: &'static str)
        ensures
            r@ == self.spec_workspace_line(),
    {
        match self {
            WorkingFinishReason::Completed => "Working process completed.",
            WorkingFinishReason::Canceled => "Working process canceled.",
        }
    }
}

pub enum WorkingProcessEvent {
    Started,
    PhaseChanged { phase: WorkingPhase },
    CancelHintRendered,
    Finished { reason: WorkingFinishReason },
}

pub struct WorkingProcessEvents {
    pub events: Vec<WorkingProcessEvent>,
    pub workspace_line: Option<String>,
}

impl WorkingProcessEvents {
    pub open spec fn is_none(&self) -> bool {
        self.events@.len() == 0 && self.workspace_line is None
    }

    pub fn none() -> (r: Self)
        ensures
            r.is_none(),
    {
        WorkingProcessEvents { events: Vec::new(), workspace_line: None }
    }
}

} // verus!
