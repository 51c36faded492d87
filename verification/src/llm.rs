//! The model-facing values the runtime works with: chat messages, the
//! decisions a runtime response resolves to, and the tool arguments they carry.
use vstd::prelude::*;
use crate::text::str_eq;

verus! {

#[derive(Clone, Copy, Debug, PartialEq, Eq, Structural)]
pub enum LlmMessageRole {
    System,
    User,
    Assistant,
}

#[derive(Clone, Copy, Debug, PartialEq, Eq, Structural)]
pub enum LlmMessageVisibility {
    Internal,
    UserVisible,
}

/// One chat message of a request.
#[derive(Debug, PartialEq, Eq)]
pub struct LlmMessage {
    pub turn_id: String,
    pub role: LlmMessageRole,
    pub visibility: LlmMessageVisibility,
    pub content: String,
}

impl Clone for LlmMessage {
    fn clone(&self) -> (r: Self)
        ensures
            r == *self,
    {
        LlmMessage {
            turn_id: self.turn_id.clone(),
            role: self.role,
            visibility: self.visibility,
            content: self.content.clone(),
        }
    }
}

pub fn clone_messages(v: &Vec<LlmMessage>) -> (r: Vec<LlmMessage>)
    ensures
        r@ == v@,
{
    let r = v.clone();
    assert forall|i: int| 0 <= i < v@.len() implies r@[i] == v@[i] by {
        assert(cloned::<LlmMessage>(v@[i], r@[i]));
    }
    assert(r@ =~= v@);
    r
}

/// The messages of one run, in order.
#[derive(Debug, PartialEq, Eq)]
pub struct MessageHistory {
    pub run_id: String,
    pub messages: Vec<LlmMessage>,
}

impl MessageHistory {
    pub fn new(run_id: &str) -> (r: Self)
        ensures
            r.run_id@ == run_id@,
            r.messages@.len() == 0,
    {
        MessageHistory { run_id: String::from_str(run_id), messages: Vec::new() }
    }

    pub fn push(&mut self, message: LlmMessage)
        ensures
            final(self).run_id == old(self).run_id,
            final(self).messages@ == old(self).messages@.push(message),
    {
        self.messages.push(message);
    }
}

/// What a tool call or an answer is for.
#[derive(Clone, Copy, Debug, PartialEq, Eq, Structural)]
pub enum Activity {
    NoActivity,
    Explore,
    Change,
    Execute,
}

impl Activity {
    pub open spec fn spec_as_str(self) -> Seq<char> {
        match self {
            Activity::NoActivity => "None"@,
            Activity::Explore => "Explore"@,
            Activity::Change => "Change"@,
            Activity::Execute => "Execute"@,
        }
    }

    pub fn as_str(self) -> (r: &'static str)
        ensures
            r@ == self.spec_as_str(),
    {
        match self {
            Activity::NoActivity => "None",
            Activity::Explore => "Explore",
            Activity::Change => "Change",
            Activity::Execute => "Execute",
        }
    }
}

#[derive(Clone, Copy, Debug, PartialEq, Eq, Structural)]
pub enum PatchOperation {
    Add,
    Update,
    Delete,
}

/// What an `apply_patch` candidate would change.
#[derive(Debug, PartialEq, Eq)]
pub struct ChangePreview {
    pub payload_id: String,
    pub target_path: String,
    pub operation: PatchOperation,
    pub additions: u32,
    pub deletions: u32,
    pub payload_body: String,
}

/// One argument value of a tool candidate.
#[derive(Debug, PartialEq, Eq)]
pub enum ToolArgValue {
    Text(String),
    Number(u64),
}

/// A named argument of a tool candidate.
#[derive(Debug, PartialEq, Eq)]
pub struct ToolArgument {
    pub name: String,
    pub value: ToolArgValue,
}

/// The text value of the first argument called `name`.
pub open spec fn spec_text_argument(args: Seq<ToolArgument>, name: Seq<char>) -> Option<Seq<char>>
    decreases args.len(),
{
    if args.len() == 0 {
        None
    } else if args[0].name@ == name {
        match args[0].value {
            ToolArgValue::Text(s) => Some(s@),
            ToolArgValue::Number(_) => None,
        }
    } else {
        spec_text_argument(args.drop_first(), name)
    }
}

pub fn text_argument<'a>(args: &'a Vec<ToolArgument>, name: &str) -> (r: Option<&'a str>)
    ensures
        match r {
            Some(s) => spec_text_argument(args@, name@) == Some(s@),
            None => spec_text_argument(args@, name@) is None,
        },
{
    let mut i: usize = 0;
    assert(args@.skip(0) =~= args@);
    while i < args.len()
        invariant
            i <= args@.len(),
            spec_text_argument(args@, name@) == spec_text_argument(args@.skip(i as int), name@),
        decreases args@.len() - i,
    {
        proof {
            assert(args@.skip(i as int).drop_first() =~= args@.skip(i + 1));
            assert(args@.skip(i as int)[0] == args@[i as int]);
        }
        if str_eq(args[i].name.as_str(), name) {
            return match &args[i].value {
                ToolArgValue::Text(s) => Some(s.as_str()),
                ToolArgValue::Number(_) => None,
            };
        }
        i = i + 1;
    }
    None
}

/// What a runtime response resolves to.
#[derive(Debug, PartialEq, Eq)]
pub enum RuntimeDecision {
    Answer { summary: String, payload_body: Option<String> },
    Clarify { message: String, reason: String },
    Blocked { message: String, reason: String },
    PlanCandidate { message: String, items: Vec<String> },
    ToolCandidatePending { activity: Activity, tool_name: String, arguments: Vec<ToolArgument>, summary: String },
    ApprovalNeeded {
        activity: Activity,
        tool_name: String,
        arguments: Vec<ToolArgument>,
        change_preview: Option<ChangePreview>,
        summary: String,
    },
}


pub enum ArgValueView {
    Text(Seq<char>),
    Number(u64),
}

pub struct ArgView {
    pub name: Seq<char>,
    pub value: ArgValueView,
}

impl View for ToolArgument {
    type V = ArgView;

    open spec fn view(&self) -> ArgView {
        ArgView {
            name: self.name@,
            value: match self.value {
                ToolArgValue::Text(s) => ArgValueView::Text(s@),
                ToolArgValue::Number(n) => ArgValueView::Number(n),
            },
        }
    }
}

pub open spec fn arg_views(s: Seq<ToolArgument>) -> Seq<ArgView> {
    s.map_values(|a: ToolArgument| a@)
}

pub struct PreviewView {
    pub payload_id: Seq<char>,
    pub target_path: Seq<char>,
    pub operation: PatchOperation,
    pub additions: u32,
    pub deletions: u32,
    pub payload_body: Seq<char>,
}

impl View for ChangePreview {
    type V = PreviewView;

    open spec fn view(&self) -> PreviewView {
        PreviewView {
            payload_id: self.payload_id@,
            target_path: self.target_path@,
            operation: self.operation,
            additions: self.additions,
            deletions: self.deletions,
            payload_body: self.payload_body@,
        }
    }
}

/// A decision as mathematical values.
pub enum DecisionView {
    Answer { summary: Seq<char>, payload_body: Option<Seq<char>> },
    Clarify { message: Seq<char>, reason: Seq<char> },
    Blocked { message: Seq<char>, reason: Seq<char> },
    PlanCandidate { message: Seq<char>, items: Seq<Seq<char>> },
    ToolCandidatePending { activity: Activity, tool_name: Seq<char>, arguments: Seq<ArgView>, summary: Seq<char> },
    ApprovalNeeded {
        activity: Activity,
        tool_name: Seq<char>,
        arguments: Seq<ArgView>,
        change_preview: Option<PreviewView>,
        summary: Seq<char>,
    },
}

impl View for RuntimeDecision {
    type V = DecisionView;

    open spec fn view(&self) -> DecisionView {
        match self {
            RuntimeDecision::Answer { summary, payload_body } => DecisionView::Answer {
                summary: summary@,
                payload_body: match payload_body {
                    Some(p) => Some(p@),
                    None => None,
                },
            },
            RuntimeDecision::Clarify { message, reason } => DecisionView::Clarify { message: message@, reason: reason@ },
            RuntimeDecision::Blocked { message, reason } => DecisionView::Blocked { message: message@, reason: reason@ },
            RuntimeDecision::PlanCandidate { message, items } => DecisionView::PlanCandidate {
                message: message@,
                items: items@.map_values(|s: String| s@),
            },
            RuntimeDecision::ToolCandidatePending { activity, tool_name, arguments, summary } =>
                DecisionView::ToolCandidatePending {
                    activity: *activity,
                    tool_name: tool_name@,
                    arguments: arg_views(arguments@),
                    summary: summary@,
                },
            RuntimeDecision::ApprovalNeeded { activity, tool_name, arguments, change_preview, summary } =>
                DecisionView::ApprovalNeeded {
                    activity: *activity,
                    tool_name: tool_name@,
                    arguments: arg_views(arguments@),
                    change_preview: match change_preview {
                        Some(c) => Some(c@),
                        None => None,
                    },
                    summary: summary@,
                },
        }
    }
}

/// The compact JSON text `serde_json` writes for the object the arguments
/// make: each text argument a JSON string and each number a JSON number,
/// under its name.
pub uninterp spec fn spec_arguments_json(args: Seq<ArgView>) -> Seq<char>;

/// Writes the arguments as one JSON object with `serde_json`
/// (`Value::to_string` on a `Value::Object` built from them). The text
/// depends on the arguments alone; its form (key order, escaping, what a
/// repeated name keeps) is `serde_json`'s and is named, not stated.
#[verifier::external_body]
pub(crate) fn arguments_json(args: &Vec<ToolArgument>) -> (r: String)
    ensures
        r@ == spec_arguments_json(arg_views(args@)),
{
    let object: serde_json::Map<String, serde_json::Value> = args.iter().map(|a| (a.name.clone(), match &a.value {
        ToolArgValue::Text(s) => serde_json::Value::from(s.clone()),
        ToolArgValue::Number(n) => serde_json::Value::from(*n),
    })).collect();
    serde_json::Value::Object(object).to_string()
}

pub fn text_arg(name: &str, value: &str) -> (r: ToolArgument)
    ensures
        r@ == (ArgView { name: name@, value: ArgValueView::Text(value@) }),
{
    ToolArgument { name: String::from_str(name), value: ToolArgValue::Text(String::from_str(value)) }
}

pub fn number_arg(name: &str, value: u64) -> (r: ToolArgument)
    ensures
        r@ == (ArgView { name: name@, value: ArgValueView::Number(value) }),
{
    ToolArgument { name: String::from_str(name), value: ToolArgValue::Number(value) }
}

/// Why a request to the model failed: the failure kind's name and its
/// message.
pub struct LlmFailure {
    pub kind: String,
    pub message: String,
}

pub enum LlmHealthStatus {
    Succeeded { available_models: u64 },
    Failed(LlmFailure),
}

/// The result of checking the model endpoint.
pub struct LlmHealthReport {
    pub provider: String,
    pub model: String,
    pub models_url: String,
    pub latency_ms: u64,
    pub status: LlmHealthStatus,
}

pub enum LlmChatStatus {
    Succeeded { answer: String },
    Failed(LlmFailure),
}

/// The result of one chat request.
pub struct LlmChatReport {
    pub provider: String,
    pub model: String,
    pub chat_url: String,
    pub status: LlmChatStatus,
}

/// A response that could not be turned into a decision: the error kind's
/// name and its message.
pub struct RuntimeDecisionError {
    pub kind: String,
    pub message: String,
}

/// A response that could not be parsed: the error kind's name and its
/// message.
pub struct RuntimeResponseParseError {
    pub kind: String,
    pub message: String,
}

} // verus!
