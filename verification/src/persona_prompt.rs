//! What a persona turn asks of the model: the fixed role profiles, the
//! one-speaker output contract, and the system and user prompts of a turn.
use vstd::prelude::*;
use crate::command::lemma_filter_step;
use crate::persona::{PersonaMessage, PersonaSpeaker};
use crate::persona_runtime::{
    PeerMessageView, PersonaPeerMessage, PersonaRuntimeStage, PersonaTeamTask, PersonaTeamTaskStatus,
    PersonaTurn, PersonaTurnKind, TeamTaskView, TurnView,
};
use crate::text::{join_strings, spec_join, string_views, str_eq};

verus! {

#[derive(Clone, Copy, Debug, PartialEq, Eq, Structural)]
pub enum PersonaTurnDecision {
    Speak,
    Pass,
}

impl PersonaTurnDecision {
    pub open spec fn spec_as_str(self) -> Seq<char> {
        match self {
            PersonaTurnDecision::Speak => "speak"@,
            PersonaTurnDecision::Pass => "pass"@,
        }
    }

    pub fn as_str(self) -> (r: &'static str)
        ensures
            r@ == self.spec_as_str(),
    {
        match self {
            PersonaTurnDecision::Speak => "speak",
            PersonaTurnDecision::Pass => "pass",
        }
    }
}

/// The internal id of a speaker.
pub open spec fn spec_speaker_id(speaker: PersonaSpeaker) -> Seq<char> {
    match speaker {
        PersonaSpeaker::Lead => "lead"@,
        PersonaSpeaker::Planning => "planning"@,
        PersonaSpeaker::Implementation => "implementation"@,
        PersonaSpeaker::Verification => "verification"@,
        PersonaSpeaker::Documentation => "documentation"@,
    }
}

pub fn speaker_id(speaker: PersonaSpeaker) -> (r: &'static str)
    ensures
        r@ == spec_speaker_id(speaker),
{
    match speaker {
        PersonaSpeaker::Lead => "lead",
        PersonaSpeaker::Planning => "planning",
        PersonaSpeaker::Implementation => "implementation",
        PersonaSpeaker::Verification => "verification",
        PersonaSpeaker::Documentation => "documentation",
    }
}

pub open spec fn spec_mission(speaker: PersonaSpeaker) -> Seq<char> {
    match speaker {
        PersonaSpeaker::Lead => "작업 목적을 정리하고 필요한 팀원 의견만 연결한 뒤 진행 방향을 짧게 조율한다."@,
        PersonaSpeaker::Planning => "요구사항, 범위, 사용자 기대, 구조적 선택지를 점검한다."@,
        PersonaSpeaker::Implementation => "구현 경로, 변경 단위, 기존 코드와의 연결 방식을 점검한다."@,
        PersonaSpeaker::Verification => "검증 기준, 실패 가능성, 재현 조건, 확인 범위를 점검한다."@,
        PersonaSpeaker::Documentation => "사용자에게 남길 결정, 변경 기록, 문서 반영 필요성을 점검한다."@,
    }
}

pub open spec fn spec_speak_when(speaker: PersonaSpeaker) -> Seq<char> {
    match speaker {
        PersonaSpeaker::Lead => "새 작업을 시작하거나 팀원 의견을 종합해야 할 때 말한다."@,
        PersonaSpeaker::Planning => "요구사항이 모호하거나 범위, 화면 구조, 작업 순서 결정이 필요할 때 말한다."@,
        PersonaSpeaker::Implementation => "코드 변경 방식, 기술 선택, 영향 범위, 실행 순서에 의견이 필요할 때 말한다."@,
        PersonaSpeaker::Verification => "테스트 기준, 실패 위험, 확인해야 할 경계 조건이 있을 때 말한다."@,
        PersonaSpeaker::Documentation => "결정 기록, 사용자 전달, 문서 업데이트 판단이 필요할 때 말한다."@,
    }
}

pub open spec fn spec_pass_when(speaker: PersonaSpeaker) -> Seq<char> {
    match speaker {
        PersonaSpeaker::Lead => "이미 다음 진행 방향이 명확하고 조율할 내용이 없으면 패스한다."@,
        PersonaSpeaker::Planning => "요구사항과 범위가 이미 충분히 분명하고 설계 관점의 추가 의견이 없으면 패스한다."@,
        PersonaSpeaker::Implementation => "구현 관점에서 새로 더할 판단이 없거나 다른 역할 의견만으로 충분하면 패스한다."@,
        PersonaSpeaker::Verification => "검증 관점의 별도 위험이나 확인 포인트가 없으면 패스한다."@,
        PersonaSpeaker::Documentation => "기록하거나 전달할 새 결정이 없으면 패스한다."@,
    }
}

/// A fixed teammate: who it is and when it speaks or passes.
#[derive(Clone, Debug, PartialEq, Eq)]
pub struct PersonaRoleProfile {
    pub speaker: PersonaSpeaker,
    pub speaker_id: &'static str,
    pub display_name: &'static str,
    pub role_label: Option<&'static str>,
    pub mission: &'static str,
    pub speak_when: &'static str,
    pub pass_when: &'static str,
}

pub open spec fn label_view(o: Option<&'static str>) -> Option<Seq<char>> {
    match o {
        Some(s) => Some(s@),
        None => None,
    }
}

impl PersonaRoleProfile {
    /// This is the profile of `speaker`.
    pub open spec fn describes(&self, speaker: PersonaSpeaker) -> bool {
        &&& self.speaker == speaker
        &&& self.speaker_id@ == spec_speaker_id(speaker)
        &&& self.display_name@ == speaker.spec_name()
        &&& label_view(self.role_label) == speaker.spec_role_label()
        &&& self.mission@ == spec_mission(speaker)
        &&& self.speak_when@ == spec_speak_when(speaker)
        &&& self.pass_when@ == spec_pass_when(speaker)
    }
}

pub fn persona_role_profile(speaker: PersonaSpeaker) -> (r: PersonaRoleProfile)
    ensures
        r.describes(speaker),
{
    let (mission, speak_when, pass_when) = match speaker {
        PersonaSpeaker::Lead => (
            "작업 목적을 정리하고 필요한 팀원 의견만 연결한 뒤 진행 방향을 짧게 조율한다.",
            "새 작업을 시작하거나 팀원 의견을 종합해야 할 때 말한다.",
            "이미 다음 진행 방향이 명확하고 조율할 내용이 없으면 패스한다.",
        ),
        PersonaSpeaker::Planning => (
            "요구사항, 범위, 사용자 기대, 구조적 선택지를 점검한다.",
            "요구사항이 모호하거나 범위, 화면 구조, 작업 순서 결정이 필요할 때 말한다.",
            "요구사항과 범위가 이미 충분히 분명하고 설계 관점의 추가 의견이 없으면 패스한다.",
        ),
        PersonaSpeaker::Implementation => (
            "구현 경로, 변경 단위, 기존 코드와의 연결 방식을 점검한다.",
            "코드 변경 방식, 기술 선택, 영향 범위, 실행 순서에 의견이 필요할 때 말한다.",
            "구현 관점에서 새로 더할 판단이 없거나 다른 역할 의견만으로 충분하면 패스한다.",
        ),
        PersonaSpeaker::Verification => (
            "검증 기준, 실패 가능성, 재현 조건, 확인 범위를 점검한다.",
            "테스트 기준, 실패 위험, 확인해야 할 경계 조건이 있을 때 말한다.",
            "검증 관점의 별도 위험이나 확인 포인트가 없으면 패스한다.",
        ),
        PersonaSpeaker::Documentation => (
            "사용자에게 남길 결정, 변경 기록, 문서 반영 필요성을 점검한다.",
            "결정 기록, 사용자 전달, 문서 업데이트 판단이 필요할 때 말한다.",
            "기록하거나 전달할 새 결정이 없으면 패스한다.",
        ),
    };
    PersonaRoleProfile {
        speaker,
        speaker_id: speaker_id(speaker),
        display_name: speaker.name(),
        role_label: speaker.role_label(),
        mission,
        speak_when,
        pass_when,
    }
}

/// The profiles of the fixed team, in team order.
pub fn fixed_persona_role_profiles() -> (r: Vec<PersonaRoleProfile>)
    ensures
        r@.len() == 5,
        r@[0].describes(PersonaSpeaker::Lead),
        r@[1].describes(PersonaSpeaker::Planning),
        r@[2].describes(PersonaSpeaker::Implementation),
        r@[3].describes(PersonaSpeaker::Verification),
        r@[4].describes(PersonaSpeaker::Documentation),
{
    let mut r: Vec<PersonaRoleProfile> = Vec::new();
    r.push(persona_role_profile(PersonaSpeaker::Lead));
    r.push(persona_role_profile(PersonaSpeaker::Planning));
    r.push(persona_role_profile(PersonaSpeaker::Implementation));
    r.push(persona_role_profile(PersonaSpeaker::Verification));
    r.push(persona_role_profile(PersonaSpeaker::Documentation));
    r
}

/// `name(label)` for a teammate, or the name alone for the lead.
pub open spec fn spec_display_label(speaker: PersonaSpeaker) -> Seq<char> {
    match speaker.spec_role_label() {
        Some(label) => speaker.spec_name() + "("@ + label + ")"@,
        None => speaker.spec_name(),
    }
}

pub fn speaker_display_label(speaker: PersonaSpeaker) -> (r: String)
    ensures
        r@ == spec_display_label(speaker),
{
    let name = String::from_str(speaker.name());
    match speaker.role_label() {
        Some(label) => name.concat("(").concat(label).concat(")"),
        None => name,
    }
}

/// The speaker an id, a name, a role label or a display label names.
pub open spec fn spec_speaker_from_value(value: Seq<char>) -> Option<PersonaSpeaker> {
    match PersonaSpeaker::spec_from_id(value) {
        Some(s) => Some(s),
        None => if value == "팀장"@ {
            Some(PersonaSpeaker::Lead)
        } else if value == "지윤"@ || value == "지윤(기획/설계)"@ || value == "기획/설계"@ {
            Some(PersonaSpeaker::Planning)
        } else if value == "민호"@ || value == "민호(구현)"@ || value == "구현"@ {
            Some(PersonaSpeaker::Implementation)
        } else if value == "서연"@ || value == "서연(검증)"@ || value == "검증"@ {
            Some(PersonaSpeaker::Verification)
        } else if value == "하준"@ || value == "하준(문서)"@ || value == "문서"@ {
            Some(PersonaSpeaker::Documentation)
        } else {
            None
        },
    }
}

pub fn speaker_from_peer_recipient(value: &str) -> (r: Option<PersonaSpeaker>)
    ensures
        r == spec_speaker_from_value(value@),
{
    if let Some(s) = PersonaSpeaker::from_id(value) {
        return Some(s);
    }
    if str_eq(value, "팀장") {
        Some(PersonaSpeaker::Lead)
    } else if str_eq(value, "지윤") || str_eq(value, "지윤(기획/설계)") || str_eq(value, "기획/설계") {
        Some(PersonaSpeaker::Planning)
    } else if str_eq(value, "민호") || str_eq(value, "민호(구현)") || str_eq(value, "구현") {
        Some(PersonaSpeaker::Implementation)
    } else if str_eq(value, "서연") || str_eq(value, "서연(검증)") || str_eq(value, "검증") {
        Some(PersonaSpeaker::Verification)
    } else if str_eq(value, "하준") || str_eq(value, "하준(문서)") || str_eq(value, "문서") {
        Some(PersonaSpeaker::Documentation)
    } else {
        None
    }
}

/// Every speaker is found again from its id, from its display label and
/// from its name.
pub proof fn lemma_speaker_recipient_round_trip(s: PersonaSpeaker)
    ensures
        spec_speaker_from_value(spec_speaker_id(s)) == Some(s),
        spec_speaker_from_value(spec_display_label(s)) == Some(s),
        spec_speaker_from_value(s.spec_name()) == Some(s),
{
    reveal_strlit("lead");
    reveal_strlit("planning");
    reveal_strlit("implementation");
    reveal_strlit("verification");
    reveal_strlit("documentation");
    reveal_strlit("팀장");
    reveal_strlit("지윤");
    reveal_strlit("지윤(기획/설계)");
    reveal_strlit("기획/설계");
    reveal_strlit("민호");
    reveal_strlit("민호(구현)");
    reveal_strlit("구현");
    reveal_strlit("서연");
    reveal_strlit("서연(검증)");
    reveal_strlit("검증");
    reveal_strlit("하준");
    reveal_strlit("하준(문서)");
    reveal_strlit("문서");
    reveal_strlit("(");
    reveal_strlit(")");
    match s {
        PersonaSpeaker::Lead => {
            assert(spec_speaker_id(s) == "lead"@);
            assert(spec_display_label(s) =~= "팀장"@);
            assert(s.spec_name() == "팀장"@);
            assert(spec_speaker_from_value("lead"@) == Some(s));
            assert("팀장"@.len() != "lead"@.len() || "팀장"@[0] != "lead"@[0]);
            assert("팀장"@.len() != "planning"@.len() || "팀장"@[0] != "planning"@[0]);
            assert("팀장"@.len() != "implementation"@.len() || "팀장"@[0] != "implementation"@[0]);
            assert("팀장"@.len() != "verification"@.len() || "팀장"@[0] != "verification"@[0]);
            assert("팀장"@.len() != "documentation"@.len() || "팀장"@[0] != "documentation"@[0]);
            assert(spec_speaker_from_value("팀장"@) == Some(s));
        },
        PersonaSpeaker::Planning => {
            assert(spec_speaker_id(s) == "planning"@);
            assert(spec_display_label(s) =~= "지윤(기획/설계)"@);
            assert(s.spec_name() == "지윤"@);
            assert(spec_speaker_from_value("planning"@) == Some(s));
            assert("지윤(기획/설계)"@.len() != "lead"@.len() || "지윤(기획/설계)"@[0] != "lead"@[0]);
            assert("지윤(기획/설계)"@.len() != "planning"@.len() || "지윤(기획/설계)"@[0] != "planning"@[0]);
            assert("지윤(기획/설계)"@.len() != "implementation"@.len() || "지윤(기획/설계)"@[0] != "implementation"@[0]);
            assert("지윤(기획/설계)"@.len() != "verification"@.len() || "지윤(기획/설계)"@[0] != "verification"@[0]);
            assert("지윤(기획/설계)"@.len() != "documentation"@.len() || "지윤(기획/설계)"@[0] != "documentation"@[0]);
            assert("지윤(기획/설계)"@.len() != "팀장"@.len() || "지윤(기획/설계)"@[0] != "팀장"@[0]);
            assert("지윤(기획/설계)"@.len() != "지윤"@.len() || "지윤(기획/설계)"@[0] != "지윤"@[0]);
            assert(spec_speaker_from_value("지윤(기획/설계)"@) == Some(s));
            assert("지윤"@.len() != "lead"@.len() || "지윤"@[0] != "lead"@[0]);
            assert("지윤"@.len() != "planning"@.len() || "지윤"@[0] != "planning"@[0]);
            assert("지윤"@.len() != "implementation"@.len() || "지윤"@[0] != "implementation"@[0]);
            assert("지윤"@.len() != "verification"@.len() || "지윤"@[0] != "verification"@[0]);
            assert("지윤"@.len() != "documentation"@.len() || "지윤"@[0] != "documentation"@[0]);
            assert("지윤"@.len() != "팀장"@.len() || "지윤"@[0] != "팀장"@[0]);
            assert(spec_speaker_from_value("지윤"@) == Some(s));
        },
        PersonaSpeaker::Implementation => {
            assert(spec_speaker_id(s) == "implementation"@);
            assert(spec_display_label(s) =~= "민호(구현)"@);
            assert(s.spec_name() == "민호"@);
            assert(spec_speaker_from_value("implementation"@) == Some(s));
            assert("민호(구현)"@.len() != "lead"@.len() || "민호(구현)"@[0] != "lead"@[0]);
            assert("민호(구현)"@.len() != "planning"@.len() || "민호(구현)"@[0] != "planning"@[0]);
            assert("민호(구현)"@.len() != "implementation"@.len() || "민호(구현)"@[0] != "implementation"@[0]);
            assert("민호(구현)"@.len() != "verification"@.len() || "민호(구현)"@[0] != "verification"@[0]);
            assert("민호(구현)"@.len() != "documentation"@.len() || "민호(구현)"@[0] != "documentation"@[0]);
            assert("민호(구현)"@.len() != "팀장"@.len() || "민호(구현)"@[0] != "팀장"@[0]);
            assert("민호(구현)"@.len() != "지윤"@.len() || "민호(구현)"@[0] != "지윤"@[0]);
            assert("민호(구현)"@.len() != "지윤(기획/설계)"@.len() || "민호(구현)"@[0] != "지윤(기획/설계)"@[0]);
            assert("민호(구현)"@.len() != "기획/설계"@.len() || "민호(구현)"@[0] != "기획/설계"@[0]);
            assert("민호(구현)"@.len() != "민호"@.len() || "민호(구현)"@[0] != "민호"@[0]);
            assert(spec_speaker_from_value("민호(구현)"@) == Some(s));
            assert("민호"@.len() != "lead"@.len() || "민호"@[0] != "lead"@[0]);
            assert("민호"@.len() != "planning"@.len() || "민호"@[0] != "planning"@[0]);
            assert("민호"@.len() != "implementation"@.len() || "민호"@[0] != "implementation"@[0]);
            assert("민호"@.len() != "verification"@.len() || "민호"@[0] != "verification"@[0]);
            assert("민호"@.len() != "documentation"@.len() || "민호"@[0] != "documentation"@[0]);
            assert("민호"@.len() != "팀장"@.len() || "민호"@[0] != "팀장"@[0]);
            assert("민호"@.len() != "지윤"@.len() || "민호"@[0] != "지윤"@[0]);
            assert("민호"@.len() != "지윤(기획/설계)"@.len() || "민호"@[0] != "지윤(기획/설계)"@[0]);
            assert("민호"@.len() != "기획/설계"@.len() || "민호"@[0] != "기획/설계"@[0]);
            assert(spec_speaker_from_value("민호"@) == Some(s));
        },
        PersonaSpeaker::Verification => {
            assert(spec_speaker_id(s) == "verification"@);
            assert(spec_display_label(s) =~= "서연(검증)"@);
            assert(s.spec_name() == "서연"@);
            assert(spec_speaker_from_value("verification"@) == Some(s));
            assert("서연(검증)"@.len() != "lead"@.len() || "서연(검증)"@[0] != "lead"@[0]);
            assert("서연(검증)"@.len() != "planning"@.len() || "서연(검증)"@[0] != "planning"@[0]);
            assert("서연(검증)"@.len() != "implementation"@.len() || "서연(검증)"@[0] != "implementation"@[0]);
            assert("서연(검증)"@.len() != "verification"@.len() || "서연(검증)"@[0] != "verification"@[0]);
            assert("서연(검증)"@.len() != "documentation"@.len() || "서연(검증)"@[0] != "documentation"@[0]);
            assert("서연(검증)"@.len() != "팀장"@.len() || "서연(검증)"@[0] != "팀장"@[0]);
            assert("서연(검증)"@.len() != "지윤"@.len() || "서연(검증)"@[0] != "지윤"@[0]);
            assert("서연(검증)"@.len() != "지윤(기획/설계)"@.len() || "서연(검증)"@[0] != "지윤(기획/설계)"@[0]);
            assert("서연(검증)"@.len() != "기획/설계"@.len() || "서연(검증)"@[0] != "기획/설계"@[0]);
            assert("서연(검증)"@.len() != "민호"@.len() || "서연(검증)"@[0] != "민호"@[0]);
            assert("서연(검증)"@.len() != "민호(구현)"@.len() || "서연(검증)"@[0] != "민호(구현)"@[0]);
            assert("서연(검증)"@.len() != "구현"@.len() || "서연(검증)"@[0] != "구현"@[0]);
            assert("서연(검증)"@.len() != "서연"@.len() || "서연(검증)"@[0] != "서연"@[0]);
            assert(spec_speaker_from_value("서연(검증)"@) == Some(s));
            assert("서연"@.len() != "lead"@.len() || "서연"@[0] != "lead"@[0]);
            assert("서연"@.len() != "planning"@.len() || "서연"@[0] != "planning"@[0]);
            assert("서연"@.len() != "implementation"@.len() || "서연"@[0] != "implementation"@[0]);
            assert("서연"@.len() != "verification"@.len() || "서연"@[0] != "verification"@[0]);
            assert("서연"@.len() != "documentation"@.len() || "서연"@[0] != "documentation"@[0]);
            assert("서연"@.len() != "팀장"@.len() || "서연"@[0] != "팀장"@[0]);
            assert("서연"@.len() != "지윤"@.len() || "서연"@[0] != "지윤"@[0]);
            assert("서연"@.len() != "지윤(기획/설계)"@.len() || "서연"@[0] != "지윤(기획/설계)"@[0]);
            assert("서연"@.len() != "기획/설계"@.len() || "서연"@[0] != "기획/설계"@[0]);
            assert("서연"@.len() != "민호"@.len() || "서연"@[0] != "민호"@[0]);
            assert("서연"@.len() != "민호(구현)"@.len() || "서연"@[0] != "민호(구현)"@[0]);
            assert("서연"@.len() != "구현"@.len() || "서연"@[0] != "구현"@[0]);
            assert(spec_speaker_from_value("서연"@) == Some(s));
        },
        PersonaSpeaker::Documentation => {
            assert(spec_speaker_id(s) == "documentation"@);
            assert(spec_display_label(s) =~= "하준(문서)"@);
            assert(s.spec_name() == "하준"@);
            assert(spec_speaker_from_value("documentation"@) == Some(s));
            assert("하준(문서)"@.len() != "lead"@.len() || "하준(문서)"@[0] != "lead"@[0]);
            assert("하준(문서)"@.len() != "planning"@.len() || "하준(문서)"@[0] != "planning"@[0]);
            assert("하준(문서)"@.len() != "implementation"@.len() || "하준(문서)"@[0] != "implementation"@[0]);
            assert("하준(문서)"@.len() != "verification"@.len() || "하준(문서)"@[0] != "verification"@[0]);
            assert("하준(문서)"@.len() != "documentation"@.len() || "하준(문서)"@[0] != "documentation"@[0]);
            assert("하준(문서)"@.len() != "팀장"@.len() || "하준(문서)"@[0] != "팀장"@[0]);
            assert("하준(문서)"@.len() != "지윤"@.len() || "하준(문서)"@[0] != "지윤"@[0]);
            assert("하준(문서)"@.len() != "지윤(기획/설계)"@.len() || "하준(문서)"@[0] != "지윤(기획/설계)"@[0]);
            assert("하준(문서)"@.len() != "기획/설계"@.len() || "하준(문서)"@[0] != "기획/설계"@[0]);
            assert("하준(문서)"@.len() != "민호"@.len() || "하준(문서)"@[0] != "민호"@[0]);
            assert("하준(문서)"@.len() != "민호(구현)"@.len() || "하준(문서)"@[0] != "민호(구현)"@[0]);
            assert("하준(문서)"@.len() != "구현"@.len() || "하준(문서)"@[0] != "구현"@[0]);
            assert("하준(문서)"@.len() != "서연"@.len() || "하준(문서)"@[0] != "서연"@[0]);
            assert("하준(문서)"@.len() != "서연(검증)"@.len() || "하준(문서)"@[0] != "서연(검증)"@[0]);
            assert("하준(문서)"@.len() != "검증"@.len() || "하준(문서)"@[0] != "검증"@[0]);
            assert("하준(문서)"@.len() != "하준"@.len() || "하준(문서)"@[0] != "하준"@[0]);
            assert(spec_speaker_from_value("하준(문서)"@) == Some(s));
            assert("하준"@.len() != "lead"@.len() || "하준"@[0] != "lead"@[0]);
            assert("하준"@.len() != "planning"@.len() || "하준"@[0] != "planning"@[0]);
            assert("하준"@.len() != "implementation"@.len() || "하준"@[0] != "implementation"@[0]);
            assert("하준"@.len() != "verification"@.len() || "하준"@[0] != "verification"@[0]);
            assert("하준"@.len() != "documentation"@.len() || "하준"@[0] != "documentation"@[0]);
            assert("하준"@.len() != "팀장"@.len() || "하준"@[0] != "팀장"@[0]);
            assert("하준"@.len() != "지윤"@.len() || "하준"@[0] != "지윤"@[0]);
            assert("하준"@.len() != "지윤(기획/설계)"@.len() || "하준"@[0] != "지윤(기획/설계)"@[0]);
            assert("하준"@.len() != "기획/설계"@.len() || "하준"@[0] != "기획/설계"@[0]);
            assert("하준"@.len() != "민호"@.len() || "하준"@[0] != "민호"@[0]);
            assert("하준"@.len() != "민호(구현)"@.len() || "하준"@[0] != "민호(구현)"@[0]);
            assert("하준"@.len() != "구현"@.len() || "하준"@[0] != "구현"@[0]);
            assert("하준"@.len() != "서연"@.len() || "하준"@[0] != "서연"@[0]);
            assert("하준"@.len() != "서연(검증)"@.len() || "하준"@[0] != "서연(검증)"@[0]);
            assert("하준"@.len() != "검증"@.len() || "하준"@[0] != "검증"@[0]);
            assert(spec_speaker_from_value("하준"@) == Some(s));
        },
    }
}

pub fn speaker_from_output_value(value: &str) -> (r: Option<PersonaSpeaker>)
    ensures
        r == spec_speaker_from_value(value@),
{
    speaker_from_peer_recipient(value)
}


/// The standing rules of a discussion turn, in prompt order.
pub open spec fn spec_session_rules() -> Seq<Seq<char>> {
    seq![
        "You are one independent AhreumCode persona session, not a script writer for multiple people."@,
        "You answer only as the requested speaker."@,
        "The main runtime owns tools, evidence, approvals, filesystem changes, execution, and final answers."@,
        "Persona sessions own only team discussion: scope, tradeoffs, questions, risk, and coordination."@,
        "Use the supplied task state as context only; do not turn raw runtime logs or internal status into persona chat."@,
        "Do not state literal file paths, filenames, config keys, provider names, package names, versions, extracted values, or repository facts in visible body or peer_messages; those belong only in the main answer."@,
        "Do not propose example path candidates or likely config filenames. Persona discussion stays at role coordination level."@,
        "If task state has no successful observation, discuss only coordination and evidence needed; do not state concrete repository facts, file formats, extracted values, versions, paths, filenames, or configuration contents."@,
        "If task state reports a failed, limited, canceled, or blocked main runtime status, treat it as unresolved evidence and do not present it as analysis completion."@,
        "The team task list is the persona collaboration state. Lead peer_messages open team tasks; addressed members answer those tasks; lead summary/completion closes reported tasks."@,
        "Do not mention tool names, command names, function names, API names, or internal operation names in visible body or peer_messages."@,
        "Do not expose internal speaker ids such as lead, planning, implementation, verification, or documentation in visible body; use display labels instead."@,
        "Do not create new people or specialist roles."@,
        "Do not return a messages array, transcript, markdown, or more than one speaker."@,
        "Keep body under 140 Korean characters and each peer message body under 120 Korean characters."@,
        "Do not repeat the user's action request as a persona action plan; reframe it as task scope, risk, coordination need, or question."@,
    ]
}

pub open spec fn spec_peer_rules() -> Seq<Seq<char>> {
    seq![
        "Use peer_messages only when another fixed teammate should answer a concrete role question in a later independent turn."@,
        "Peer messages create advisory team tasks for persona discussion; they are not main-runtime execution assignments."@,
    ]
}

/// The standing rules of a completion turn, in prompt order.
pub open spec fn spec_completion_rules() -> Seq<Seq<char>> {
    seq![
        "You are one AhreumCode persona session."@,
        "You answer only as the requested speaker."@,
        "Completion turn only: close the team discussion from supplied task state."@,
        "Use reported team tasks only as teammate contribution. Passed or unreported tasks are not teammate decisions."@,
        "If supplied task state is failed, limited, canceled, blocked, or has no successful observation, say only that coordination state closed around an unresolved result; do not state concrete repository facts."@,
        "Use Korean, completed/past-tense coordination wording only."@,
        "Do not mention tools, commands, files read by persona, internal operation names, literal paths, filenames, config keys, provider names, package values, versions, or final answer facts."@,
        "Do not ask teammates. Return peer_messages as an empty array."@,
        "Keep body under 100 Korean characters."@,
    ]
}

fn push_session_rules(lines: &mut Vec<String>)
    ensures
        string_views(final(lines)@) == string_views(old(lines)@) + spec_session_rules(),
{
    let ghost start = string_views(lines@);
    lines.push(String::from_str("You are one independent AhreumCode persona session, not a script writer for multiple people."));
    lines.push(String::from_str("You answer only as the requested speaker."));
    lines.push(String::from_str("The main runtime owns tools, evidence, approvals, filesystem changes, execution, and final answers."));
    lines.push(String::from_str("Persona sessions own only team discussion: scope, tradeoffs, questions, risk, and coordination."));
    lines.push(String::from_str("Use the supplied task state as context only; do not turn raw runtime logs or internal status into persona chat."));
    lines.push(String::from_str("Do not state literal file paths, filenames, config keys, provider names, package names, versions, extracted values, or repository facts in visible body or peer_messages; those belong only in the main answer."));
    lines.push(String::from_str("Do not propose example path candidates or likely config filenames. Persona discussion stays at role coordination level."));
    lines.push(String::from_str("If task state has no successful observation, discuss only coordination and evidence needed; do not state concrete repository facts, file formats, extracted values, versions, paths, filenames, or configuration contents."));
    lines.push(String::from_str("If task state reports a failed, limited, canceled, or blocked main runtime status, treat it as unresolved evidence and do not present it as analysis completion."));
    lines.push(String::from_str("The team task list is the persona collaboration state. Lead peer_messages open team tasks; addressed members answer those tasks; lead summary/completion closes reported tasks."));
    lines.push(String::from_str("Do not mention tool names, command names, function names, API names, or internal operation names in visible body or peer_messages."));
    lines.push(String::from_str("Do not expose internal speaker ids such as lead, planning, implementation, verification, or documentation in visible body; use display labels instead."));
    lines.push(String::from_str("Do not create new people or specialist roles."));
    lines.push(String::from_str("Do not return a messages array, transcript, markdown, or more than one speaker."));
    lines.push(String::from_str("Keep body under 140 Korean characters and each peer message body under 120 Korean characters."));
    lines.push(String::from_str("Do not repeat the user's action request as a persona action plan; reframe it as task scope, risk, coordination need, or question."));
    assert(string_views(lines@) =~= start + spec_session_rules());
}

fn push_peer_rules(lines: &mut Vec<String>)
    ensures
        string_views(final(lines)@) == string_views(old(lines)@) + spec_peer_rules(),
{
    let ghost start = string_views(lines@);
    lines.push(String::from_str("Use peer_messages only when another fixed teammate should answer a concrete role question in a later independent turn."));
    lines.push(String::from_str("Peer messages create advisory team tasks for persona discussion; they are not main-runtime execution assignments."));
    assert(string_views(lines@) =~= start + spec_peer_rules());
}

fn push_completion_rules(lines: &mut Vec<String>)
    ensures
        string_views(final(lines)@) == string_views(old(lines)@) + spec_completion_rules(),
{
    let ghost start = string_views(lines@);
    lines.push(String::from_str("You are one AhreumCode persona session."));
    lines.push(String::from_str("You answer only as the requested speaker."));
    lines.push(String::from_str("Completion turn only: close the team discussion from supplied task state."));
    lines.push(String::from_str("Use reported team tasks only as teammate contribution. Passed or unreported tasks are not teammate decisions."));
    lines.push(String::from_str("If supplied task state is failed, limited, canceled, blocked, or has no successful observation, say only that coordination state closed around an unresolved result; do not state concrete repository facts."));
    lines.push(String::from_str("Use Korean, completed/past-tense coordination wording only."));
    lines.push(String::from_str("Do not mention tools, commands, files read by persona, internal operation names, literal paths, filenames, config keys, provider names, package values, versions, or final answer facts."));
    lines.push(String::from_str("Do not ask teammates. Return peer_messages as an empty array."));
    lines.push(String::from_str("Keep body under 100 Korean characters."));
    assert(string_views(lines@) =~= start + spec_completion_rules());
}


/// The rule line of a turn, by stage and kind.
pub open spec fn spec_stage_rule(stage: PersonaRuntimeStage, kind: PersonaTurnKind) -> Seq<char> {
    if stage is Kickoff && kind is LeadSummon {
        "Turn rule: frame the work as scope and coordination only. Do not repeat the user's action request as an instruction. Invite only relevant fixed team members."@
    } else if stage is Kickoff && kind is MemberResponse {
        "Turn rule: answer the lead from your own role only, or pass if your role adds nothing useful."@
    } else if stage is Kickoff && kind is LeadSummary {
        "Turn rule: summarize the useful team direction briefly without pretending to be the final answer."@
    } else if stage is Progress && kind is ProgressLead {
        "Turn rule: use the supplied task lifecycle state only as coordination context, explain how the team discussion should adapt, and ask at most three fixed teammates through peer_messages only when their role perspective is needed for the next step. Do not restate tool output as facts."@
    } else if stage is Progress && kind is MemberResponse {
        "Turn rule: answer only the progress question addressed to your role, or pass if your role adds nothing useful."@
    } else if stage is Progress && kind is LeadSummary {
        "Turn rule: briefly summarize the coordination direction based on the supplied lifecycle state and teammate viewpoints. Do not claim final-answer authority or announce execution."@
    } else if stage is FollowUp && kind is FollowUpLead {
        "Turn rule: treat the user message as a possible follow-up, retry, correction, complaint, or unrelated new task. Use prior task context only if the current message depends on it. Ask at most three fixed teammates through peer_messages when their role perspective is needed."@
    } else if stage is FollowUp && kind is MemberResponse {
        "Turn rule: answer only the follow-up question addressed to your role, or pass if your role adds nothing useful."@
    } else if stage is FollowUp && kind is LeadSummary {
        "Turn rule: briefly connect the useful role feedback to the user's current message without claiming final-answer authority."@
    } else if stage is Completion && kind is Completion {
        "Turn rule: close from the supplied task state only, using completed or past-tense coordination wording. Do not ask teammates, do not continue kickoff or progress planning, do not announce future work, do not say you are entering or starting verification, implementation, reading, extraction, or analysis, and return peer_messages as an empty array."@
    } else {
        "Turn rule: stay within the requested speaker role and pass if there is no useful contribution."@
    }
}

fn stage_rule(stage: PersonaRuntimeStage, kind: PersonaTurnKind) -> (r: &'static str)
    ensures
        r@ == spec_stage_rule(stage, kind),
{
    match (stage, kind) {
        (PersonaRuntimeStage::Kickoff, PersonaTurnKind::LeadSummon) => "Turn rule: frame the work as scope and coordination only. Do not repeat the user's action request as an instruction. Invite only relevant fixed team members.",
        (PersonaRuntimeStage::Kickoff, PersonaTurnKind::MemberResponse) => "Turn rule: answer the lead from your own role only, or pass if your role adds nothing useful.",
        (PersonaRuntimeStage::Kickoff, PersonaTurnKind::LeadSummary) => "Turn rule: summarize the useful team direction briefly without pretending to be the final answer.",
        (PersonaRuntimeStage::Progress, PersonaTurnKind::ProgressLead) => "Turn rule: use the supplied task lifecycle state only as coordination context, explain how the team discussion should adapt, and ask at most three fixed teammates through peer_messages only when their role perspective is needed for the next step. Do not restate tool output as facts.",
        (PersonaRuntimeStage::Progress, PersonaTurnKind::MemberResponse) => "Turn rule: answer only the progress question addressed to your role, or pass if your role adds nothing useful.",
        (PersonaRuntimeStage::Progress, PersonaTurnKind::LeadSummary) => "Turn rule: briefly summarize the coordination direction based on the supplied lifecycle state and teammate viewpoints. Do not claim final-answer authority or announce execution.",
        (PersonaRuntimeStage::FollowUp, PersonaTurnKind::FollowUpLead) => "Turn rule: treat the user message as a possible follow-up, retry, correction, complaint, or unrelated new task. Use prior task context only if the current message depends on it. Ask at most three fixed teammates through peer_messages when their role perspective is needed.",
        (PersonaRuntimeStage::FollowUp, PersonaTurnKind::MemberResponse) => "Turn rule: answer only the follow-up question addressed to your role, or pass if your role adds nothing useful.",
        (PersonaRuntimeStage::FollowUp, PersonaTurnKind::LeadSummary) => "Turn rule: briefly connect the useful role feedback to the user's current message without claiming final-answer authority.",
        (PersonaRuntimeStage::Completion, PersonaTurnKind::Completion) => "Turn rule: close from the supplied task state only, using completed or past-tense coordination wording. Do not ask teammates, do not continue kickoff or progress planning, do not announce future work, do not say you are entering or starting verification, implementation, reading, extraction, or analysis, and return peer_messages as an empty array.",
        _ => "Turn rule: stay within the requested speaker role and pass if there is no useful contribution.",
    }
}

pub open spec fn spec_stage_name(stage: PersonaRuntimeStage) -> Seq<char> {
    match stage {
        PersonaRuntimeStage::Kickoff => "Kickoff"@,
        PersonaRuntimeStage::Progress => "Progress"@,
        PersonaRuntimeStage::FollowUp => "FollowUp"@,
        PersonaRuntimeStage::Completion => "Completion"@,
    }
}

fn stage_name(stage: PersonaRuntimeStage) -> (r: &'static str)
    ensures
        r@ == spec_stage_name(stage),
{
    match stage {
        PersonaRuntimeStage::Kickoff => "Kickoff",
        PersonaRuntimeStage::Progress => "Progress",
        PersonaRuntimeStage::FollowUp => "FollowUp",
        PersonaRuntimeStage::Completion => "Completion",
    }
}

pub open spec fn spec_kind_name(kind: PersonaTurnKind) -> Seq<char> {
    match kind {
        PersonaTurnKind::LeadSummon => "LeadSummon"@,
        PersonaTurnKind::MemberResponse => "MemberResponse"@,
        PersonaTurnKind::LeadSummary => "LeadSummary"@,
        PersonaTurnKind::ProgressLead => "ProgressLead"@,
        PersonaTurnKind::FollowUpLead => "FollowUpLead"@,
        PersonaTurnKind::Completion => "Completion"@,
    }
}

fn kind_name(kind: PersonaTurnKind) -> (r: &'static str)
    ensures
        r@ == spec_kind_name(kind),
{
    match kind {
        PersonaTurnKind::LeadSummon => "LeadSummon",
        PersonaTurnKind::MemberResponse => "MemberResponse",
        PersonaTurnKind::LeadSummary => "LeadSummary",
        PersonaTurnKind::ProgressLead => "ProgressLead",
        PersonaTurnKind::FollowUpLead => "FollowUpLead",
        PersonaTurnKind::Completion => "Completion",
    }
}

/// The one JSON shape a turn may return.
#[derive(Clone, Debug, PartialEq, Eq)]
pub struct PersonaTurnOutputContract {
    pub speaker: PersonaSpeaker,
    pub allow_pass: bool,
}

pub open spec fn spec_render_contract(speaker: PersonaSpeaker, allow_pass: bool) -> Seq<char> {
    let id = spec_speaker_id(speaker);
    let speak_shape = "Return exactly one JSON object. Speak shape: {\"speaker\":\""@ + id
        + "\",\"decision\":\"speak\",\"body\":\"...\",\"peer_messages\":[{\"to\":\"지윤\",\"body\":\"...\"}]}."@;
    if allow_pass {
        speak_shape + " Pass shape: {\"speaker\":\""@ + id + "\",\"decision\":\"pass\",\"body\":\"\",\"peer_messages\":[]}."@
    } else {
        speak_shape + " This turn requires a visible speaker message; do not return decision=\"pass\"."@
    }
}

impl PersonaTurnOutputContract {
    fn new(speaker: PersonaSpeaker, allow_pass: bool) -> (r: Self)
        ensures
            r.speaker == speaker,
            r.allow_pass == allow_pass,
    {
        PersonaTurnOutputContract { speaker, allow_pass }
    }

    pub fn speaker_id(&self) -> (r: &'static str)
        ensures
            r@ == spec_speaker_id(self.speaker),
    {
        speaker_id(self.speaker)
    }

    pub fn render(&self) -> (r: String)
        ensures
            r@ == spec_render_contract(self.speaker, self.allow_pass),
    {
        let id = self.speaker_id();
        let speak_shape = String::from_str("Return exactly one JSON object. Speak shape: {\"speaker\":\"").concat(id).concat(
            "\",\"decision\":\"speak\",\"body\":\"...\",\"peer_messages\":[{\"to\":\"지윤\",\"body\":\"...\"}]}.",
        );
        if self.allow_pass {
            speak_shape.concat(" Pass shape: {\"speaker\":\"").concat(id).concat(
                "\",\"decision\":\"pass\",\"body\":\"\",\"peer_messages\":[]}.",
            )
        } else {
            speak_shape.concat(" This turn requires a visible speaker message; do not return decision=\"pass\".")
        }
    }
}

pub open spec fn spec_recipient_options() -> Seq<char> {
    spec_join(
        seq![
            spec_display_label(PersonaSpeaker::Lead),
            spec_display_label(PersonaSpeaker::Planning),
            spec_display_label(PersonaSpeaker::Implementation),
            spec_display_label(PersonaSpeaker::Verification),
            spec_display_label(PersonaSpeaker::Documentation),
        ],
        ", "@,
    )
}

fn peer_recipient_options() -> (r: String)
    ensures
        r@ == spec_recipient_options(),
{
    let mut labels: Vec<String> = Vec::new();
    labels.push(speaker_display_label(PersonaSpeaker::Lead));
    labels.push(speaker_display_label(PersonaSpeaker::Planning));
    labels.push(speaker_display_label(PersonaSpeaker::Implementation));
    labels.push(speaker_display_label(PersonaSpeaker::Verification));
    labels.push(speaker_display_label(PersonaSpeaker::Documentation));
    assert(string_views(labels@) =~= seq![
        spec_display_label(PersonaSpeaker::Lead),
        spec_display_label(PersonaSpeaker::Planning),
        spec_display_label(PersonaSpeaker::Implementation),
        spec_display_label(PersonaSpeaker::Verification),
        spec_display_label(PersonaSpeaker::Documentation),
    ]);
    join_strings(&labels, ", ")
}

/// The lines naming the requested speaker.
pub open spec fn spec_speaker_lines(speaker: PersonaSpeaker) -> Seq<Seq<char>> {
    seq![
        "Requested speaker id: "@ + spec_speaker_id(speaker),
        "Requested speaker label: "@ + spec_display_label(speaker),
    ]
}

/// The system prompt of a turn, line by line.
pub open spec fn spec_system_lines(speaker: PersonaSpeaker, stage: PersonaRuntimeStage, kind: PersonaTurnKind, allow_pass: bool) -> Seq<Seq<char>> {
    if stage is Completion {
        spec_completion_rules().push(spec_render_contract(speaker, allow_pass)) + spec_speaker_lines(speaker)
    } else {
        let contribution = if allow_pass {
            "If your role has no useful contribution for this turn, return pass. Do not write a visible 'no opinion' message."@
        } else {
            "This turn is mandatory: return a speak decision for the expected speaker, not pass."@
        };
        spec_session_rules().push(contribution) + spec_peer_rules() + seq![
            "Allowed peer message recipients for peer_messages.to: "@ + spec_recipient_options()
                + ". Do not send a peer message to yourself."@,
            spec_render_contract(speaker, allow_pass),
        ] + spec_speaker_lines(speaker) + seq![
            "Role mission: "@ + spec_mission(speaker),
            "Speak when: "@ + spec_speak_when(speaker),
            "Pass when: "@ + spec_pass_when(speaker),
            spec_stage_rule(stage, kind),
        ]
    }
}

pub open spec fn spec_system_prompt(speaker: PersonaSpeaker, stage: PersonaRuntimeStage, kind: PersonaTurnKind, allow_pass: bool) -> Seq<char> {
    spec_join(spec_system_lines(speaker, stage, kind, allow_pass), "\n"@)
}

fn push_speaker_lines(lines: &mut Vec<String>, role: &PersonaRoleProfile)
    requires
        role.describes(role.speaker),
    ensures
        string_views(final(lines)@) == string_views(old(lines)@) + spec_speaker_lines(role.speaker),
{
    let ghost start = string_views(lines@);
    lines.push(String::from_str("Requested speaker id: ").concat(role.speaker_id));
    let label = speaker_display_label(role.speaker);
    lines.push(String::from_str("Requested speaker label: ").concat(label.as_str()));
    assert(string_views(lines@) =~= start + spec_speaker_lines(role.speaker));
}

fn persona_turn_system_prompt(
    role: &PersonaRoleProfile,
    stage: PersonaRuntimeStage,
    kind: PersonaTurnKind,
    output_contract: &PersonaTurnOutputContract,
) -> (r: String)
    requires
        role.describes(role.speaker),
        output_contract.speaker == role.speaker,
    ensures
        r@ == spec_system_prompt(role.speaker, stage, kind, output_contract.allow_pass),
{
    let mut lines: Vec<String> = Vec::new();
    let ghost speaker = role.speaker;
    let ghost allow = output_contract.allow_pass;
    if stage == PersonaRuntimeStage::Completion {
        push_completion_rules(&mut lines);
        lines.push(output_contract.render());
        push_speaker_lines(&mut lines, role);
        assert(string_views(lines@) =~= spec_system_lines(speaker, stage, kind, allow));
        return join_strings(&lines, "\n");
    }
    push_session_rules(&mut lines);
    let contribution = if output_contract.allow_pass {
        "If your role has no useful contribution for this turn, return pass. Do not write a visible 'no opinion' message."
    } else {
        "This turn is mandatory: return a speak decision for the expected speaker, not pass."
    };
    let ghost s0 = string_views(lines@);
    lines.push(String::from_str(contribution));
    assert(string_views(lines@) =~= s0.push(contribution@));
    push_peer_rules(&mut lines);
    let options = peer_recipient_options();
    let allowed = String::from_str("Allowed peer message recipients for peer_messages.to: ").concat(options.as_str()).concat(
        ". Do not send a peer message to yourself.",
    );
    let rendered = output_contract.render();
    let ghost s1 = string_views(lines@);
    lines.push(allowed);
    lines.push(rendered);
    assert(string_views(lines@) =~= s1 + seq![allowed@, rendered@]);
    push_speaker_lines(&mut lines, role);
    let mission = String::from_str("Role mission: ").concat(role.mission);
    let speak = String::from_str("Speak when: ").concat(role.speak_when);
    let pass = String::from_str("Pass when: ").concat(role.pass_when);
    let rule = String::from_str(stage_rule(stage, kind));
    let ghost s2 = string_views(lines@);
    lines.push(mission);
    lines.push(speak);
    lines.push(pass);
    lines.push(rule);
    assert(string_views(lines@) =~= s2 + seq![mission@, speak@, pass@, rule@]);
    assert(string_views(lines@) =~= spec_system_lines(speaker, stage, kind, allow));
    join_strings(&lines, "\n")
}


pub open spec fn spec_status_label(status: PersonaTeamTaskStatus) -> Seq<char> {
    match status {
        PersonaTeamTaskStatus::Open => "open"@,
        PersonaTeamTaskStatus::Claimed => "claimed"@,
        PersonaTeamTaskStatus::Reported => "reported"@,
        PersonaTeamTaskStatus::Passed => "passed"@,
        PersonaTeamTaskStatus::Closed => "closed"@,
    }
}

fn team_task_status_label(status: PersonaTeamTaskStatus) -> (r: &'static str)
    ensures
        r@ == spec_status_label(status),
{
    match status {
        PersonaTeamTaskStatus::Open => "open",
        PersonaTeamTaskStatus::Claimed => "claimed",
        PersonaTeamTaskStatus::Reported => "reported",
        PersonaTeamTaskStatus::Passed => "passed",
        PersonaTeamTaskStatus::Closed => "closed",
    }
}

/// The block for an empty list.
pub open spec fn spec_none_block() -> Seq<char> {
    "없음"@
}

/// The speaker's last four messages, oldest first, one per line.
pub open spec fn spec_history_block(history: Seq<PersonaMessage>) -> Seq<char> {
    if history.len() == 0 {
        spec_none_block()
    } else {
        let from = if history.len() > 4 { history.len() - 4 } else { 0 };
        spec_join(history.subrange(from, history.len() as int).map_values(|m: PersonaMessage| m.body@), "\n"@)
    }
}

pub open spec fn spec_peer_line(m: PeerMessageView) -> Seq<char> {
    spec_display_label(m.from) + " -> "@ + spec_display_label(m.to) + ": "@ + m.body
}

/// The peer messages addressed to `speaker`, one per line.
pub open spec fn spec_peer_block(speaker: PersonaSpeaker, messages: Seq<PeerMessageView>) -> Seq<char> {
    let addressed = messages.filter(|m: PeerMessageView| m.to == speaker);
    if addressed.len() == 0 {
        spec_none_block()
    } else {
        spec_join(addressed.map_values(|m: PeerMessageView| spec_peer_line(m)), "\n"@)
    }
}

pub open spec fn spec_task_line(t: TeamTaskView) -> Seq<char> {
    t.id + " ["@ + spec_status_label(t.status) + "] owner="@ + spec_display_label(t.owner) + " title="@ + t.title
        + " report="@ + match t.report {
        Some(r) => r,
        None => "-"@,
    }
}

pub open spec fn is_relevant_task(speaker: PersonaSpeaker, t: TeamTaskView) -> bool {
    t.owner == speaker || speaker is Lead
}

/// The team tasks `speaker` sees (all of them for the lead), one per line.
pub open spec fn spec_task_block(speaker: PersonaSpeaker, tasks: Seq<TeamTaskView>) -> Seq<char> {
    let relevant = tasks.filter(|t: TeamTaskView| is_relevant_task(speaker, t));
    if relevant.len() == 0 {
        spec_none_block()
    } else {
        spec_join(relevant.map_values(|t: TeamTaskView| spec_task_line(t)), "\n"@)
    }
}

fn render_speaker_history(history: &[PersonaMessage]) -> (r: String)
    ensures
        r@ == spec_history_block(history@),
{
    let n = history.len();
    if n == 0 {
        return String::from_str("없음");
    }
    let from: usize = if n > 4 { n - 4 } else { 0 };
    let ghost sub = history@.subrange(from as int, n as int).map_values(|m: PersonaMessage| m.body@);
    let mut bodies: Vec<String> = Vec::new();
    let mut i: usize = from;
    while i < n
        invariant
            n == history@.len(),
            from <= i <= n,
            string_views(bodies@) == history@.subrange(from as int, i as int).map_values(|m: PersonaMessage| m.body@),
        decreases n - i,
    {
        let ghost before = string_views(bodies@);
        bodies.push(history[i].body.clone());
        assert(string_views(bodies@) =~= before.push(history@[i as int].body@));
        assert(history@.subrange(from as int, i + 1).map_values(|m: PersonaMessage| m.body@)
            =~= history@.subrange(from as int, i as int).map_values(|m: PersonaMessage| m.body@).push(history@[i as int].body@));
        i = i + 1;
    }
    join_strings(&bodies, "\n")
}

fn peer_line(m: &PersonaPeerMessage) -> (r: String)
    ensures
        r@ == spec_peer_line(m@),
{
    speaker_display_label(m.from).concat(" -> ").concat(speaker_display_label(m.to).as_str()).concat(": ").concat(
        m.body.as_str(),
    )
}

fn render_peer_messages(speaker: PersonaSpeaker, messages: &Vec<PersonaPeerMessage>) -> (r: String)
    ensures
        r@ == spec_peer_block(speaker, crate::persona_runtime::peer_views(messages@)),
{
    let ghost mv = crate::persona_runtime::peer_views(messages@);
    let ghost p = |m: PeerMessageView| m.to == speaker;
    let ghost f = |m: PeerMessageView| spec_peer_line(m);
    let mut lines: Vec<String> = Vec::new();
    let mut i: usize = 0;
    while i < messages.len()
        invariant
            mv == crate::persona_runtime::peer_views(messages@),
            p == (|m: PeerMessageView| m.to == speaker),
            f == (|m: PeerMessageView| spec_peer_line(m)),
            i <= messages@.len(),
            string_views(lines@) == mv.subrange(0, i as int).filter(p).map_values(f),
        decreases messages@.len() - i,
    {
        proof {
            lemma_filter_step(mv, i as int, p);
        }
        if messages[i].to == speaker {
            let line = peer_line(&messages[i]);
            let ghost before = string_views(lines@);
            lines.push(line);
            assert(string_views(lines@) =~= before.push(line@));
            assert(mv.subrange(0, i + 1).filter(p).map_values(f) =~= mv.subrange(0, i as int).filter(p).map_values(f).push(f(mv[i as int])));
        }
        i = i + 1;
    }
    assert(mv.subrange(0, i as int) =~= mv);
    if lines.len() == 0 {
        return String::from_str("없음");
    }
    join_strings(&lines, "\n")
}

fn task_line(t: &PersonaTeamTask) -> (r: String)
    ensures
        r@ == spec_task_line(t@),
{
    let report: &str = match &t.report {
        Some(r) => r.as_str(),
        None => "-",
    };
    t.id.clone().concat(" [").concat(team_task_status_label(t.status)).concat("] owner=").concat(
        speaker_display_label(t.owner).as_str(),
    ).concat(" title=").concat(t.title.as_str()).concat(" report=").concat(report)
}

fn render_team_tasks(speaker: PersonaSpeaker, tasks: &Vec<PersonaTeamTask>) -> (r: String)
    ensures
        r@ == spec_task_block(speaker, crate::persona_runtime::team_task_views(tasks@)),
{
    let ghost tv = crate::persona_runtime::team_task_views(tasks@);
    let ghost p = |t: TeamTaskView| is_relevant_task(speaker, t);
    let ghost f = |t: TeamTaskView| spec_task_line(t);
    let mut lines: Vec<String> = Vec::new();
    let mut i: usize = 0;
    while i < tasks.len()
        invariant
            tv == crate::persona_runtime::team_task_views(tasks@),
            p == (|t: TeamTaskView| is_relevant_task(speaker, t)),
            f == (|t: TeamTaskView| spec_task_line(t)),
            i <= tasks@.len(),
            string_views(lines@) == tv.subrange(0, i as int).filter(p).map_values(f),
        decreases tasks@.len() - i,
    {
        proof {
            lemma_filter_step(tv, i as int, p);
        }
        if tasks[i].owner == speaker || speaker == PersonaSpeaker::Lead {
            let line = task_line(&tasks[i]);
            let ghost before = string_views(lines@);
            lines.push(line);
            assert(string_views(lines@) =~= before.push(line@));
            assert(tv.subrange(0, i + 1).filter(p).map_values(f) =~= tv.subrange(0, i as int).filter(p).map_values(f).push(f(tv[i as int])));
        }
        i = i + 1;
    }
    assert(tv.subrange(0, i as int) =~= tv);
    if lines.len() == 0 {
        return String::from_str("없음");
    }
    join_strings(&lines, "\n")
}

/// The user prompt of a turn: the turn's identity, the request, the task
/// state, the team tasks, and (except at completion) the speaker's own recent
/// messages and the peer messages addressed to it.
pub open spec fn spec_user_prompt(turn: TurnView, history: Seq<PersonaMessage>) -> Seq<char> {
    let completion = turn.stage is Completion;
    let hist = if completion { spec_none_block() } else { spec_history_block(history) };
    let peers = if completion { spec_none_block() } else { spec_peer_block(turn.speaker, turn.peer_messages) };
    let request = if completion { "omitted: completion closure uses task state only"@ } else { turn.user_prompt };
    "turn_id: "@ + turn.id + "\ntask_id: "@ + turn.task_id + "\nstage: "@ + spec_stage_name(turn.stage) + "\nkind: "@
        + spec_kind_name(turn.kind) + "\nspeaker: "@ + spec_display_label(turn.speaker) + "\n\n사용자 요청:\n"@
        + request + "\n\n현재 작업 상태 요약:\n"@ + turn.task_state_summary + "\n\n팀 작업 항목:\n"@
        + spec_task_block(turn.speaker, turn.team_tasks) + "\n\n이 speaker의 최근 발화:\n"@ + hist
        + "\n\n이 speaker에게 전달된 팀 메시지:\n"@ + peers
}

fn persona_turn_user_prompt(turn: &PersonaTurn, history: &[PersonaMessage]) -> (r: String)
    ensures
        r@ == spec_user_prompt(turn@, history@),
{
    let completion = turn.stage == PersonaRuntimeStage::Completion;
    let hist = if completion { String::from_str("없음") } else { render_speaker_history(history) };
    let peers = if completion {
        String::from_str("없음")
    } else {
        render_peer_messages(turn.speaker, &turn.peer_messages)
    };
    let request: &str = if completion { "omitted: completion closure uses task state only" } else { turn.user_prompt.as_str() };
    let tasks = render_team_tasks(turn.speaker, &turn.team_tasks);
    String::from_str("turn_id: ").concat(turn.id.as_str()).concat("\ntask_id: ").concat(turn.task_id.as_str()).concat(
        "\nstage: ",
    ).concat(stage_name(turn.stage)).concat("\nkind: ").concat(kind_name(turn.kind)).concat("\nspeaker: ").concat(
        speaker_display_label(turn.speaker).as_str(),
    ).concat("\n\n사용자 요청:\n").concat(request).concat("\n\n현재 작업 상태 요약:\n").concat(
        turn.task_state_summary.as_str(),
    ).concat("\n\n팀 작업 항목:\n").concat(tasks.as_str()).concat("\n\n이 speaker의 최근 발화:\n").concat(
        hist.as_str(),
    ).concat("\n\n이 speaker에게 전달된 팀 메시지:\n").concat(peers.as_str())
}

/// Everything one persona model request needs.
#[derive(Debug, PartialEq, Eq)]
pub struct PersonaTurnPrompt {
    pub turn_id: String,
    pub speaker: PersonaSpeaker,
    pub role: PersonaRoleProfile,
    pub output_contract: PersonaTurnOutputContract,
    pub system_prompt: String,
    pub user_prompt: String,
}

/// The prompt of `turn`, given the speaker's own history. Pass is allowed
/// exactly on turns that need no visible message.
pub fn build_persona_turn_prompt(turn: &PersonaTurn, speaker_history: &[PersonaMessage]) -> (r: PersonaTurnPrompt)
    ensures
        r.turn_id@ == turn.id@,
        r.speaker == turn.speaker,
        r.role.describes(turn.speaker),
        r.output_contract.speaker == turn.speaker,
        r.output_contract.allow_pass == !turn.kind.spec_requires_visible_message(),
        r.system_prompt@ == spec_system_prompt(turn.speaker, turn.stage, turn.kind, !turn.kind.spec_requires_visible_message()),
        r.user_prompt@ == spec_user_prompt(turn@, speaker_history@),
{
    let role = persona_role_profile(turn.speaker);
    let output_contract = PersonaTurnOutputContract::new(turn.speaker, !turn.kind.requires_visible_message());
    let system_prompt = persona_turn_system_prompt(&role, turn.stage, turn.kind, &output_contract);
    let user_prompt = persona_turn_user_prompt(turn, speaker_history);
    PersonaTurnPrompt {
        turn_id: turn.id.clone(),
        speaker: turn.speaker,
        role,
        output_contract,
        system_prompt,
        user_prompt,
    }
}

} // verus!
