//! The modal expanded form used for provider, model and project setup drafts.
use vstd::prelude::*;
use crate::config;
use crate::text::{decimal, parse_u32, pop_char, push_char, spec_decimal, spec_parse_u32, spec_trim, str_eq, trim};

verus! {

#[derive(Clone, Copy, Debug, PartialEq, Eq, Structural)]
pub enum ExpandedFormKind {
    LocalProvider,
    LocalModel,
    DocsInit,
    InitInstructions,
}

impl ExpandedFormKind {
    pub open spec fn spec_as_str(self) -> Seq<char> {
        match self {
            ExpandedFormKind::LocalProvider => "local_provider"@,
            ExpandedFormKind::LocalModel => "local_model"@,
            ExpandedFormKind::DocsInit => "docs_init"@,
            ExpandedFormKind::InitInstructions => "init_instructions"@,
        }
    }

    pub open spec fn spec_title(self) -> Seq<char> {
        match self {
            ExpandedFormKind::LocalProvider => "Add Local LLM Provider"@,
            ExpandedFormKind::LocalModel => "Add Local Model"@,
            ExpandedFormKind::DocsInit => "Docs Init Draft"@,
            ExpandedFormKind::InitInstructions => "Project Init Draft"@,
        }
    }

    pub fn as_str(self) -> (r: &'static str)
        ensures
            r@ == self.spec_as_str(),
    {
        match self {
            ExpandedFormKind::LocalProvider => "local_provider",
            ExpandedFormKind::LocalModel => "local_model",
            ExpandedFormKind::DocsInit => "docs_init",
            ExpandedFormKind::InitInstructions => "init_instructions",
        }
    }

    pub fn title(self) -> (r: &'static str)
        ensures
            r@ == self.spec_title(),
    {
        match self {
            ExpandedFormKind::LocalProvider => "Add Local LLM Provider",
            ExpandedFormKind::LocalModel => "Add Local Model",
            ExpandedFormKind::DocsInit => "Docs Init Draft",
            ExpandedFormKind::InitInstructions => "Project Init Draft",
        }
    }
}

pub struct ExpandedFormField {
    pub key: &'static str,
    pub label: &'static str,
    pub value: String,
    pub required: bool,
    pub secret: bool,
}

impl ExpandedFormField {
    pub open spec fn is(&self, key: Seq<char>, label: Seq<char>, value: Seq<char>, required: bool) -> bool {
        &&& self.key@ == key
        &&& self.label@ == label
        &&& self.value@ == value
        &&& self.required == required
        &&& self.secret == !required
    }
}

/// Key, label, default value and whether the field is required, per form.
pub open spec fn spec_form_fields(kind: ExpandedFormKind) -> Seq<(Seq<char>, Seq<char>, Seq<char>, bool)> {
    match kind {
        ExpandedFormKind::LocalProvider => seq![
            ("provider_name"@, "provider name"@, config::DEFAULT_PROVIDER@, true),
            ("base_url"@, "base url"@, config::DEFAULT_BASE_URL@, true),
            ("model"@, "model"@, config::DEFAULT_MODEL@, true),
            ("context_tokens"@, "context tokens"@, spec_decimal(config::DEFAULT_CONTEXT_TOKENS as nat), true),
            ("api_key_env"@, "api key env"@, ""@, false),
        ],
        ExpandedFormKind::LocalModel => seq![
            ("provider_name"@, "provider name"@, config::DEFAULT_PROVIDER@, true),
            ("model"@, "model"@, config::DEFAULT_MODEL@, true),
            ("context_tokens"@, "context tokens"@, spec_decimal(config::DEFAULT_CONTEXT_TOKENS as nat), true),
        ],
        ExpandedFormKind::DocsInit => seq![
            ("guide_file"@, "guide file"@, "documentation-guide.md"@, true),
            ("template_dir"@, "template dir"@, "templates"@, true),
            ("router_file"@, "router file"@, "docs/PROJECT-CONTEXT.md"@, true),
            ("use_templates"@, "use templates"@, "true"@, true),
        ],
        ExpandedFormKind::InitInstructions => seq![
            ("project_file"@, "project file"@, "AGENTS.md"@, true),
        ],
    }
}

pub open spec fn fields_match(
    fields: Seq<ExpandedFormField>,
    expected: Seq<(Seq<char>, Seq<char>, Seq<char>, bool)>,
) -> bool {
    &&& fields.len() == expected.len()
    &&& forall|i: int|
        0 <= i < fields.len() ==> (#[trigger] fields[i]).is(
            expected[i].0,
            expected[i].1,
            expected[i].2,
            expected[i].3,
        )
}

fn field(key: &'static str, label: &'static str, value: String) -> (r: ExpandedFormField)
    ensures
        r.is(key@, label@, value@, true),
{
    ExpandedFormField { key, label, value, required: true, secret: false }
}

fn optional_field(key: &'static str, label: &'static str, value: String) -> (r: ExpandedFormField)
    ensures
        r.is(key@, label@, value@, false),
{
    ExpandedFormField { key, label, value, required: false, secret: true }
}

fn fields_for(kind: ExpandedFormKind) -> (r: Vec<ExpandedFormField>)
    ensures
        fields_match(r@, spec_form_fields(kind)),
{
    let r = match kind {
        ExpandedFormKind::LocalProvider => vec![
            field("provider_name", "provider name", String::from_str(config::DEFAULT_PROVIDER)),
            field("base_url", "base url", String::from_str(config::DEFAULT_BASE_URL)),
            field("model", "model", String::from_str(config::DEFAULT_MODEL)),
            field("context_tokens", "context tokens", decimal(config::DEFAULT_CONTEXT_TOKENS as u64)),
            optional_field("api_key_env", "api key env", String::from_str("")),
        ],
        ExpandedFormKind::LocalModel => vec![
            field("provider_name", "provider name", String::from_str(config::DEFAULT_PROVIDER)),
            field("model", "model", String::from_str(config::DEFAULT_MODEL)),
            field("context_tokens", "context tokens", decimal(config::DEFAULT_CONTEXT_TOKENS as u64)),
        ],
        ExpandedFormKind::DocsInit => vec![
            field("guide_file", "guide file", String::from_str("documentation-guide.md")),
            field("template_dir", "template dir", String::from_str("templates")),
            field("router_file", "router file", String::from_str("docs/PROJECT-CONTEXT.md")),
            field("use_templates", "use templates", String::from_str("true")),
        ],
        ExpandedFormKind::InitInstructions => vec![
            field("project_file", "project file", String::from_str("AGENTS.md")),
        ],
    };
    assert(fields_match(r@, spec_form_fields(kind)));
    r
}

pub enum ExpandedFormEvent {
    Opened { kind: ExpandedFormKind },
    FieldChanged { kind: ExpandedFormKind, field: &'static str, masked: bool },
    Submitted { kind: ExpandedFormKind },
    Cancelled { kind: ExpandedFormKind },
}

pub struct ExpandedFormEvents {
    pub events: Vec<ExpandedFormEvent>,
}

impl ExpandedFormEvents {
    pub fn none() -> (r: Self)
        ensures
            r.events@.len() == 0,
    {
        ExpandedFormEvents { events: Vec::new() }
    }

    pub fn single(event: ExpandedFormEvent) -> (r: Self)
        ensures
            r.events@ == seq![event],
    {
        ExpandedFormEvents { events: vec![event] }
    }
}

pub struct ExpandedFormSubmit {
    pub submitted: bool,
    pub events: ExpandedFormEvents,
    pub notice: Option<String>,
}

pub struct ExpandedFormState {
    pub open: bool,
    pub kind: ExpandedFormKind,
    pub fields: Vec<ExpandedFormField>,
    pub focused: usize,
    pub validation_message: Option<String>,
}

pub open spec fn is_missing(f: ExpandedFormField) -> bool {
    f.required && spec_trim(f.value@).len() == 0
}

/// The index of the first field satisfying `is_missing`, if any.
pub open spec fn spec_first_missing_from(fields: Seq<ExpandedFormField>, from: int) -> Option<int>
    decreases fields.len() - from,
{
    if from >= fields.len() || from < 0 {
        None
    } else if is_missing(fields[from]) {
        Some(from)
    } else {
        spec_first_missing_from(fields, from + 1)
    }
}

/// The index of the first field keyed `key`, if any.
pub open spec fn spec_first_key_from(fields: Seq<ExpandedFormField>, key: Seq<char>, from: int) -> Option<int>
    decreases fields.len() - from,
{
    if from >= fields.len() || from < 0 {
        None
    } else if fields[from].key@ == key {
        Some(from)
    } else {
        spec_first_key_from(fields, key, from + 1)
    }
}

/// The validation message for `fields`: the first missing required field, then
/// a context-token count that is not a positive `u32`.
pub open spec fn spec_validate(fields: Seq<ExpandedFormField>) -> Option<Seq<char>> {
    match spec_first_missing_from(fields, 0) {
        Some(i) => Some(fields[i].label@ + " is required"@),
        None => match spec_first_key_from(fields, "context_tokens"@, 0) {
            None => None,
            Some(j) => match spec_parse_u32(spec_trim(fields[j].value@)) {
                None => Some("context tokens must be a number"@),
                Some(v) => if v == 0 {
                    Some("context tokens must be greater than 0"@)
                } else {
                    None
                },
            },
        },
    }
}

impl ExpandedFormState {
    pub open spec fn is_closed(&self) -> bool {
        &&& !self.open
        &&& self.fields@.len() == 0
        &&& self.focused == 0
        &&& self.validation_message is None
    }

    pub fn new() -> (r: Self)
        ensures
            r.is_closed(),
            r.kind == ExpandedFormKind::LocalProvider,
    {
        ExpandedFormState {
            open: false,
            kind: ExpandedFormKind::LocalProvider,
            fields: Vec::new(),
            focused: 0,
            validation_message: None,
        }
    }

    pub fn open(&mut self, kind: ExpandedFormKind) -> (r: ExpandedFormEvents)
        ensures
            final(self).open,
            final(self).kind == kind,
            fields_match(final(self).fields@, spec_form_fields(kind)),
            final(self).focused == 0,
            final(self).validation_message is None,
            r.events@ == seq![ExpandedFormEvent::Opened { kind }],
    {
        self.open = true;
        self.kind = kind;
        self.fields = fields_for(kind);
        self.focused = 0;
        self.validation_message = None;
        ExpandedFormEvents::single(ExpandedFormEvent::Opened { kind })
    }

    pub open spec fn spec_cancelled(before: ExpandedFormState, after: ExpandedFormState, r: ExpandedFormEvents) -> bool {
        &&& (!before.open ==> r.events@.len() == 0 && after == before)
        &&& (before.open ==> after.is_closed() && after.kind == before.kind
            && r.events@ == seq![ExpandedFormEvent::Cancelled { kind: before.kind }])
    }

    pub open spec fn spec_focused_next(before: ExpandedFormState, after: ExpandedFormState) -> bool {
        &&& (after.fields == before.fields)
        &&& (after.open == before.open)
        &&& (before.fields@.len() == 0 ==> after.focused == 0
            && after.validation_message == before.validation_message)
        &&& (before.fields@.len() > 0 ==> after.focused == (before.focused + 1)
            % (before.fields@.len() as int) && after.validation_message is None)
    }

    pub open spec fn spec_focused_previous(before: ExpandedFormState, after: ExpandedFormState) -> bool {
        &&& (after.fields == before.fields)
        &&& (after.open == before.open)
        &&& (before.fields@.len() == 0 ==> after.focused == 0
            && after.validation_message == before.validation_message)
        &&& (before.fields@.len() > 0 ==> after.focused == (if before.focused == 0 {
            before.fields@.len() - 1
        } else {
            before.focused - 1
        }) && after.validation_message is None)
    }

    pub open spec fn spec_char_pushed(before: ExpandedFormState, after: ExpandedFormState, value: char, r: ExpandedFormEvents) -> bool {
        &&& (after.open == before.open)
        &&& (after.kind == before.kind)
        &&& (after.focused == before.focused)
        &&& (before.focused >= before.fields@.len() ==> r.events@.len() == 0
            && after == before)
        &&& (before.focused < before.fields@.len() ==> ({
            let f = before.fields@[before.focused as int];
            &&& after.spec_field_edited(&before, f.value@.push(value))
            &&& after.validation_message is None
            &&& r.events@ == seq![ExpandedFormEvent::FieldChanged {
                kind: before.kind,
                field: f.key,
                masked: f.secret,
            }]
        }))
    }

    pub open spec fn spec_backspaced(before: ExpandedFormState, after: ExpandedFormState, r: ExpandedFormEvents) -> bool {
        &&& (after.open == before.open)
        &&& (after.kind == before.kind)
        &&& (after.focused == before.focused)
        &&& ((before.focused >= before.fields@.len() || before.fields@[before.focused as int].value@.len() == 0)
            ==> r.events@.len() == 0 && after.fields@ == before.fields@
            && after.validation_message == before.validation_message)
        &&& ((before.focused < before.fields@.len() && before.fields@[before.focused as int].value@.len() > 0) ==> ({
            let f = before.fields@[before.focused as int];
            &&& after.spec_field_edited(&before, f.value@.drop_last())
            &&& after.validation_message is None
            &&& r.events@ == seq![ExpandedFormEvent::FieldChanged {
                kind: before.kind,
                field: f.key,
                masked: f.secret,
            }]
        }))
    }

    pub open spec fn spec_submitted(before: ExpandedFormState, after: ExpandedFormState, r: ExpandedFormSubmit) -> bool {
        &&& (match spec_validate(before.fields@) {
            Some(message) => {
                &&& !r.submitted
                &&& r.events.events@.len() == 0
                &&& r.notice is None
                &&& after.validation_message matches Some(m) && m@ == message
                &&& after.open == before.open
                &&& after.kind == before.kind
                &&& after.fields == before.fields
                &&& after.focused == before.focused
            },
            None => {
                &&& r.submitted
                &&& after.is_closed()
                &&& r.events.events@ == seq![ExpandedFormEvent::Submitted { kind: before.kind }]
                &&& r.notice matches Some(n) && n@ == "expanded form submitted: "@ + before.kind.spec_as_str()
            },
        })
    }

    pub fn cancel(&mut self) -> (r: ExpandedFormEvents)
        ensures
            Self::spec_cancelled(*old(self), *final(self), r),
    {
        if !self.open {
            return ExpandedFormEvents::none();
        }
        let kind = self.kind;
        self.close();
        ExpandedFormEvents::single(ExpandedFormEvent::Cancelled { kind })
    }

    /// Focus moves forward, wrapping to the first field.
    pub fn focus_next(&mut self)
        ensures
            Self::spec_focused_next(*old(self), *final(self)),
    {
        if self.fields.len() == 0 {
            self.focused = 0;
            return;
        }
        self.focused = ((self.focused as u128 + 1) % (self.fields.len() as u128)) as usize;
        self.validation_message = None;
    }

    /// Focus moves back, wrapping to the last field.
    pub fn focus_previous(&mut self)
        ensures
            Self::spec_focused_previous(*old(self), *final(self)),
    {
        if self.fields.len() == 0 {
            self.focused = 0;
            return;
        }
        if self.focused == 0 {
            self.focused = self.fields.len() - 1;
        } else {
            self.focused = self.focused - 1;
        }
        self.validation_message = None;
    }

    /// The focused field with its value replaced, the rest unchanged.
    pub open spec fn spec_field_edited(&self, old_form: &Self, value: Seq<char>) -> bool {
        let i = old_form.focused as int;
        let f = old_form.fields@[i];
        let g = self.fields@[i];
        &&& self.fields@.len() == old_form.fields@.len()
        &&& forall|k: int| 0 <= k < old_form.fields@.len() && k != i ==> self.fields@[k] == old_form.fields@[k]
        &&& g.key == f.key
        &&& g.label == f.label
        &&& g.required == f.required
        &&& g.secret == f.secret
        &&& g.value@ == value
    }

    /// Types one character into the focused field.
    pub fn push_char(&mut self, value: char) -> (r: ExpandedFormEvents)
        ensures
            Self::spec_char_pushed(*old(self), *final(self), value, r),
    {
        if self.focused >= self.fields.len() {
            return ExpandedFormEvents::none();
        }
        let i = self.focused;
        let key = self.fields[i].key;
        let label = self.fields[i].label;
        let required = self.fields[i].required;
        let secret = self.fields[i].secret;
        let mut text = self.fields[i].value.clone();
        push_char(&mut text, value);
        self.fields.set(i, ExpandedFormField { key, label, value: text, required, secret });
        self.validation_message = None;
        ExpandedFormEvents::single(ExpandedFormEvent::FieldChanged { kind: self.kind, field: key, masked: secret })
    }

    /// Deletes the last character of the focused field, if it has one.
    pub fn backspace(&mut self) -> (r: ExpandedFormEvents)
        ensures
            Self::spec_backspaced(*old(self), *final(self), r),
    {
        if self.focused >= self.fields.len() {
            return ExpandedFormEvents::none();
        }
        let i = self.focused;
        let key = self.fields[i].key;
        let label = self.fields[i].label;
        let required = self.fields[i].required;
        let secret = self.fields[i].secret;
        let mut text = self.fields[i].value.clone();
        if pop_char(&mut text).is_none() {
            return ExpandedFormEvents::none();
        }
        self.fields.set(i, ExpandedFormField { key, label, value: text, required, secret });
        self.validation_message = None;
        ExpandedFormEvents::single(ExpandedFormEvent::FieldChanged { kind: self.kind, field: key, masked: secret })
    }

    /// Submits when every check passes, closing the form; otherwise keeps it
    /// open with the validation message.
    pub fn submit(&mut self) -> (r: ExpandedFormSubmit)
        ensures
            Self::spec_submitted(*old(self), *final(self), r),
    {
        match self.validate() {
            Some(message) => {
                self.validation_message = Some(message);
                ExpandedFormSubmit { submitted: false, events: ExpandedFormEvents::none(), notice: None }
            },
            None => {
                let kind = self.kind;
                self.close();
                let notice = String::from_str("expanded form submitted: ").concat(kind.as_str());
                ExpandedFormSubmit {
                    submitted: true,
                    events: ExpandedFormEvents::single(ExpandedFormEvent::Submitted { kind }),
                    notice: Some(notice),
                }
            },
        }
    }

    fn close(&mut self)
        ensures
            final(self).is_closed(),
            final(self).kind == old(self).kind,
    {
        self.open = false;
        self.fields = Vec::new();
        self.focused = 0;
        self.validation_message = None;
    }

    fn validate(&self) -> (r: Option<String>)
        ensures
            match spec_validate(self.fields@) {
                Some(m) => r matches Some(s) && s@ == m,
                None => r is None,
            },
    {
        let mut i: usize = 0;
        while i < self.fields.len()
            invariant
                i <= self.fields@.len(),
                spec_first_missing_from(self.fields@, 0) == spec_first_missing_from(self.fields@, i as int),
            decreases self.fields@.len() - i,
        {
            let t = trim(self.fields[i].value.as_str());
            if self.fields[i].required && t.as_str().unicode_len() == 0 {
                let message = String::from_str(self.fields[i].label).concat(" is required");
                return Some(message);
            }
            i = i + 1;
        }
        let mut j: usize = 0;
        while j < self.fields.len()
            invariant
                j <= self.fields@.len(),
                spec_first_missing_from(self.fields@, 0) is None,
                spec_first_key_from(self.fields@, "context_tokens"@, 0)
                    == spec_first_key_from(self.fields@, "context_tokens"@, j as int),
            decreases self.fields@.len() - j,
        {
            if str_eq(self.fields[j].key, "context_tokens") {
                let t = trim(self.fields[j].value.as_str());
                return match parse_u32(t.as_str()) {
                    None => Some(String::from_str("context tokens must be a number")),
                    Some(v) => if v == 0 {
                        Some(String::from_str("context tokens must be greater than 0"))
                    } else {
                        None
                    },
                };
            }
            j = j + 1;
        }
        None
    }
}

impl Default for ExpandedFormState {
    fn default() -> (r: Self)
        ensures
            r.is_closed(),
            r.kind == ExpandedFormKind::LocalProvider,
    {
        Self::new()
    }
}

proof fn lemma_first_missing_is(fields: Seq<ExpandedFormField>, from: int, i: int)
    requires
        0 <= from <= i < fields.len(),
        fields[i].required && spec_trim(fields[i].value@).len() == 0,
        forall|k: int| from <= k < i ==> !((#[trigger] fields[k]).required && spec_trim(fields[k].value@).len() == 0),
    ensures
        spec_first_missing_from(fields, from) == Some(i),
    decreases i - from,
{
    if from < i {
        lemma_first_missing_is(fields, from + 1, i);
    }
}

proof fn lemma_none_missing_from(fields: Seq<ExpandedFormField>, from: int, k: int)
    requires
        0 <= from <= k < fields.len(),
        spec_first_missing_from(fields, from) is None,
    ensures
        !(fields[k].required && spec_trim(fields[k].value@).len() == 0),
    decreases k - from,
{
    if from < k {
        lemma_none_missing_from(fields, from + 1, k);
    }
}

/// A form whose required field `i` is blank (after trimming), with no blank
/// required field before it, is not submitted: it stays open with its
/// fields, and the message names that field's label.
pub proof fn lemma_blank_required_field_blocks_submit(
    before: ExpandedFormState,
    after: ExpandedFormState,
    r: ExpandedFormSubmit,
    i: int,
)
    requires
        ExpandedFormState::spec_submitted(before, after, r),
        0 <= i < before.fields@.len(),
        before.fields@[i].required,
        spec_trim(before.fields@[i].value@).len() == 0,
        forall|k: int| 0 <= k < i ==> !((#[trigger] before.fields@[k]).required && spec_trim(before.fields@[k].value@).len() == 0),
    ensures
        !r.submitted,
        r.notice is None,
        after.open == before.open,
        after.fields == before.fields,
        after.validation_message matches Some(m) && m@ == before.fields@[i].label@ + " is required"@,
{
    lemma_first_missing_is(before.fields@, 0, i);
}

/// A submitted form had every required field filled in (after trimming),
/// and is closed.
pub proof fn lemma_submitted_form_has_required_fields(
    before: ExpandedFormState,
    after: ExpandedFormState,
    r: ExpandedFormSubmit,
)
    requires
        ExpandedFormState::spec_submitted(before, after, r),
        r.submitted,
    ensures
        forall|k: int| 0 <= k < before.fields@.len() && (#[trigger] before.fields@[k]).required
            ==> spec_trim(before.fields@[k].value@).len() > 0,
        !after.open,
{
    assert forall|k: int| 0 <= k < before.fields@.len() && (#[trigger] before.fields@[k]).required
        implies spec_trim(before.fields@[k].value@).len() > 0 by {
        lemma_none_missing_from(before.fields@, 0, k);
    }
}

} // verus!
