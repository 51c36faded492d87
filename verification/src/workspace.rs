//! The left workspace log: prompts, notices, answers and activity lines, with
//! a scroll offset bounded by the rendered line count.
use vstd::prelude::*;
use crate::text::{lines_count, spec_lines_count};
use crate::approval::{clamp_offset, spec_clamp};

verus! {

#[derive(Clone, Copy, Debug, PartialEq, Eq, Structural)]
pub enum ActivityGroup {
    Explore,
    Change,
    Execute,
    Configure,
    Ask,
}

impl ActivityGroup {
    pub open spec fn spec_label(self) -> Seq<char> {
        match self {
            ActivityGroup::Explore => "Explore"@,
            ActivityGroup::Change => "Change"@,
            ActivityGroup::Execute => "Execute"@,
            ActivityGroup::Configure => "Configure"@,
            ActivityGroup::Ask => "Ask"@,
        }
    }

    pub fn label(self) -> (r: &'static str)
        ensures
            r@ == self.spec_label(),
    {
        match self {
            ActivityGroup::Explore => "Explore",
            ActivityGroup::Change => "Change",
            ActivityGroup::Execute => "Execute",
            ActivityGroup::Configure => "Configure",
            ActivityGroup::Ask => "Ask",
        }
    }
}

pub enum WorkspaceItem {
    UserPrompt { text: String },
    ManagerMessage { text: String },
    SystemNotice { text: String },
    AssistantAnswer { text: String },
    ActivityOutput { group: ActivityGroup, summary: String },
    EvidenceBlock { title: String, body: String },
    DiffSummary { path: String, additions: u16, deletions: u16, expanded: bool },
    Result { text: String },
}

/// `a + b`, or `usize::MAX` when the sum does not fit.
pub open spec fn spec_sat_add(a: nat, b: nat) -> nat {
    if a + b > usize::MAX {
        usize::MAX as nat
    } else {
        a + b
    }
}

impl WorkspaceItem {
    pub open spec fn spec_kind(&self) -> Seq<char> {
        match self {
            WorkspaceItem::UserPrompt { .. } => "user_prompt"@,
            WorkspaceItem::ManagerMessage { .. } => "manager_message"@,
            WorkspaceItem::SystemNotice { .. } => "system_notice"@,
            WorkspaceItem::AssistantAnswer { .. } => "assistant_answer"@,
            WorkspaceItem::ActivityOutput { .. } => "activity_output"@,
            WorkspaceItem::EvidenceBlock { .. } => "evidence"@,
            WorkspaceItem::DiffSummary { .. } => "diff_summary"@,
            WorkspaceItem::Result { .. } => "result"@,
        }
    }

    /// Rendered height: an answer takes one line per text line (at least one)
    /// plus a spacer; the other kinds have fixed heights.
    pub open spec fn spec_line_count(&self) -> nat {
        match self {
            WorkspaceItem::UserPrompt { .. } => 3,
            WorkspaceItem::ManagerMessage { .. } => 1,
            WorkspaceItem::SystemNotice { .. } => 1,
            WorkspaceItem::AssistantAnswer { text } => {
                let n = spec_lines_count(text@);
                spec_sat_add(if n < 1 { 1 } else { n }, 1)
            },
            WorkspaceItem::ActivityOutput { .. } => 1,
            WorkspaceItem::EvidenceBlock { .. } => 2,
            WorkspaceItem::DiffSummary { expanded, .. } => if *expanded { 3 } else { 1 },
            WorkspaceItem::Result { .. } => 1,
        }
    }

    pub fn kind(&self) -> (r: &'static str)
        ensures
            r@ == self.spec_kind(),
    {
        match self {
            WorkspaceItem::UserPrompt { .. } => "user_prompt",
            WorkspaceItem::ManagerMessage { .. } => "manager_message",
            WorkspaceItem::SystemNotice { .. } => "system_notice",
            WorkspaceItem::AssistantAnswer { .. } => "assistant_answer",
            WorkspaceItem::ActivityOutput { .. } => "activity_output",
            WorkspaceItem::EvidenceBlock { .. } => "evidence",
            WorkspaceItem::DiffSummary { .. } => "diff_summary",
            WorkspaceItem::Result { .. } => "result",
        }
    }

    pub fn line_count(&self) -> (r: usize)
        ensures
            r == self.spec_line_count(),
    {
        match self {
            WorkspaceItem::UserPrompt { .. } => 3,
            WorkspaceItem::ManagerMessage { .. } => 1,
            WorkspaceItem::SystemNotice { .. } => 1,
            WorkspaceItem::AssistantAnswer { text } => {
                let n = lines_count(text.as_str());
                let m = if n < 1 { 1 } else { n };
                m.saturating_add(1)
            },
            WorkspaceItem::ActivityOutput { .. } => 1,
            WorkspaceItem::EvidenceBlock { .. } => 2,
            WorkspaceItem::DiffSummary { expanded, .. } => if *expanded { 3 } else { 1 },
            WorkspaceItem::Result { .. } => 1,
        }
    }
}

/// Total rendered height of `items`, saturating at `usize::MAX`.
pub open spec fn spec_total_lines(items: Seq<WorkspaceItem>) -> nat
    decreases items.len(),
{
    if items.len() == 0 {
        0
    } else {
        spec_sat_add(spec_total_lines(items.drop_last()), items.last().spec_line_count())
    }
}

pub struct WorkspaceBuffer {
    items: Vec<WorkspaceItem>,
    scroll: usize,
    render_pending: bool,
}

pub enum WorkspaceEvent {
    PromptBlockAdded,
    OutputAdded { item_type: &'static str },
    ScrollChanged { scroll: usize },
}

pub struct WorkspaceRendered {
    pub item_count: usize,
    pub scroll: usize,
}

pub struct WorkspaceEvents {
    pub events: Vec<WorkspaceEvent>,
}

impl WorkspaceEvents {
    pub fn none() -> (r: Self)
        ensures
            r.events@.len() == 0,
    {
        WorkspaceEvents { events: Vec::new() }
    }

    pub fn extend(&mut self, other: WorkspaceEvents)
        ensures
            final(self).events@ == old(self).events@ + other.events@,
    {
        let mut other = other;
        self.events.append(&mut other.events);
    }
}

/// The single event announcing an appended output item of kind `kind`.
pub open spec fn spec_output_added(events: Seq<WorkspaceEvent>, kind: Seq<char>) -> bool {
    &&& events.len() == 1
    &&& events[0] matches WorkspaceEvent::OutputAdded { item_type } && item_type@ == kind
}

pub open spec fn is_output_added(e: WorkspaceEvent, kind: Seq<char>) -> bool {
    e matches WorkspaceEvent::OutputAdded { item_type } && item_type@ == kind
}

/// `n` events, each announcing an appended output item of kind `kind`.
pub open spec fn spec_outputs_added(events: Seq<WorkspaceEvent>, n: nat, kind: Seq<char>) -> bool {
    &&& events.len() == n
    &&& forall|k: int| 0 <= k < n ==> is_output_added(#[trigger] events[k], kind)
}

impl WorkspaceBuffer {
    pub closed spec fn spec_items(&self) -> Seq<WorkspaceItem> {
        self.items@
    }

    pub closed spec fn spec_scroll(&self) -> nat {
        self.scroll as nat
    }

    pub closed spec fn spec_render_pending(&self) -> bool {
        self.render_pending
    }

    pub fn new() -> (r: Self)
        ensures
            r.spec_items().len() == 0,
            r.spec_scroll() == 0,
            !r.spec_render_pending(),
    {
        WorkspaceBuffer { items: Vec::new(), scroll: 0, render_pending: false }
    }

    pub fn push_user_prompt(&mut self, text: String) -> (r: WorkspaceEvents)
        ensures
            final(self).spec_items() == old(self).spec_items().push(
                WorkspaceItem::UserPrompt { text },
            ),
            final(self).spec_scroll() == old(self).spec_scroll(),
            final(self).spec_render_pending(),
            r.events@ == seq![WorkspaceEvent::PromptBlockAdded],
    {
        self.items.push(WorkspaceItem::UserPrompt { text });
        self.render_pending = true;
        WorkspaceEvents { events: vec![WorkspaceEvent::PromptBlockAdded] }
    }

    pub fn push_manager_message(&mut self, text: String) -> (r: WorkspaceEvents)
        ensures
            final(self).spec_items() == old(self).spec_items().push(
                WorkspaceItem::ManagerMessage { text },
            ),
            final(self).spec_scroll() == old(self).spec_scroll(),
            final(self).spec_render_pending(),
            spec_output_added(r.events@, "manager_message"@),
    {
        self.push_output(WorkspaceItem::ManagerMessage { text })
    }

    pub fn push_system_notice(&mut self, text: String) -> (r: WorkspaceEvents)
        ensures
            final(self).spec_items() == old(self).spec_items().push(
                WorkspaceItem::SystemNotice { text },
            ),
            final(self).spec_scroll() == old(self).spec_scroll(),
            final(self).spec_render_pending(),
            spec_output_added(r.events@, "system_notice"@),
    {
        self.push_output(WorkspaceItem::SystemNotice { text })
    }

    pub fn push_answer(&mut self, text: String) -> (r: WorkspaceEvents)
        ensures
            final(self).spec_items() == old(self).spec_items().push(
                WorkspaceItem::AssistantAnswer { text },
            ),
            final(self).spec_scroll() == old(self).spec_scroll(),
            final(self).spec_render_pending(),
            spec_output_added(r.events@, "assistant_answer"@),
    {
        self.push_output(WorkspaceItem::AssistantAnswer { text })
    }

    pub fn push_work_output(&mut self, group: ActivityGroup, summary: String) -> (r:
        WorkspaceEvents)
        ensures
            final(self).spec_items() == old(self).spec_items().push(
                WorkspaceItem::ActivityOutput { group, summary },
            ),
            final(self).spec_scroll() == old(self).spec_scroll(),
            final(self).spec_render_pending(),
            spec_output_added(r.events@, "activity_output"@),
    {
        self.push_output(WorkspaceItem::ActivityOutput { group, summary })
    }

    pub fn push_evidence(&mut self, title: String, body: String) -> (r: WorkspaceEvents)
        ensures
            final(self).spec_items() == old(self).spec_items().push(
                WorkspaceItem::EvidenceBlock { title, body },
            ),
            final(self).spec_scroll() == old(self).spec_scroll(),
            final(self).spec_render_pending(),
            spec_output_added(r.events@, "evidence"@),
    {
        self.push_output(WorkspaceItem::EvidenceBlock { title, body })
    }

    pub fn push_diff_summary(&mut self, path: String, additions: u16, deletions: u16) -> (r:
        WorkspaceEvents)
        ensures
            final(self).spec_items() == old(self).spec_items().push(
                WorkspaceItem::DiffSummary { path, additions, deletions, expanded: false },
            ),
            final(self).spec_scroll() == old(self).spec_scroll(),
            final(self).spec_render_pending(),
            spec_output_added(r.events@, "diff_summary"@),
    {
        self.push_output(WorkspaceItem::DiffSummary { path, additions, deletions, expanded: false })
    }

    pub fn push_result(&mut self, text: String) -> (r: WorkspaceEvents)
        ensures
            final(self).spec_items() == old(self).spec_items().push(
                WorkspaceItem::Result { text },
            ),
            final(self).spec_scroll() == old(self).spec_scroll(),
            final(self).spec_render_pending(),
            spec_output_added(r.events@, "result"@),
    {
        self.push_output(WorkspaceItem::Result { text })
    }

    /// Moves the scroll offset by `delta`, kept within the rendered height.
    pub fn scroll(&mut self, delta: isize) -> (r: WorkspaceEvents)
        ensures
            ({
                let total = spec_total_lines(old(self).spec_items());
                let max = if total == 0 { 0 } else { total - 1 };
                final(self).spec_scroll() == spec_clamp(
                    old(self).spec_scroll() as int,
                    delta as int,
                    max as int,
                )
            }),
            final(self).spec_items() == old(self).spec_items(),
            final(self).spec_scroll() == old(self).spec_scroll() ==> r.events@.len() == 0
                && final(self).spec_render_pending() == old(self).spec_render_pending(),
            final(self).spec_scroll() != old(self).spec_scroll() ==> final(self).spec_render_pending()
                && r.events@ == seq![
                WorkspaceEvent::ScrollChanged { scroll: final(self).spec_scroll() as usize },
            ],
    {
        let previous = self.scroll;
        let total = self.total_lines();
        let max_scroll = total.saturating_sub(1);
        self.scroll = clamp_offset(self.scroll, delta, max_scroll);
        if self.scroll == previous {
            return WorkspaceEvents::none();
        }
        self.render_pending = true;
        WorkspaceEvents { events: vec![WorkspaceEvent::ScrollChanged { scroll: self.scroll }] }
    }

    pub fn items(&self) -> (r: &[WorkspaceItem])
        ensures
            r@ == self.spec_items(),
    {
        self.items.as_slice()
    }

    pub fn scroll_offset(&self) -> (r: usize)
        ensures
            r == self.spec_scroll(),
    {
        self.scroll
    }

    /// Reports one render after any change, then nothing until the next change.
    pub fn take_render_event(&mut self) -> (r: Option<WorkspaceRendered>)
        ensures
            final(self).spec_items() == old(self).spec_items(),
            final(self).spec_scroll() == old(self).spec_scroll(),
            !final(self).spec_render_pending(),
            !old(self).spec_render_pending() ==> r is None,
            old(self).spec_render_pending() ==> (r matches Some(e) && e.item_count
                == old(self).spec_items().len() && e.scroll == old(self).spec_scroll()),
    {
        if !self.render_pending {
            return None;
        }
        self.render_pending = false;
        Some(WorkspaceRendered { item_count: self.items.len(), scroll: self.scroll })
    }

    fn push_output(&mut self, item: WorkspaceItem) -> (r: WorkspaceEvents)
        ensures
            final(self).spec_items() == old(self).spec_items().push(item),
            final(self).spec_scroll() == old(self).spec_scroll(),
            final(self).spec_render_pending(),
            spec_output_added(r.events@, item.spec_kind()),
    {
        let kind = item.kind();
        self.items.push(item);
        self.render_pending = true;
        WorkspaceEvents { events: vec![WorkspaceEvent::OutputAdded { item_type: kind }] }
    }

    fn total_lines(&self) -> (r: usize)
        ensures
            r == spec_total_lines(self.spec_items()),
    {
        let mut total: usize = 0;
        let mut i: usize = 0;
        while i < self.items.len()
            invariant
                i <= self.items@.len(),
                total == spec_total_lines(self.items@.subrange(0, i as int)),
            decreases self.items@.len() - i,
        {
            assert(self.items@.subrange(0, i + 1).drop_last() == self.items@.subrange(0, i as int));
            let n = self.items[i].line_count();
            total = total.saturating_add(n);
            i = i + 1;
        }
        assert(self.items@.subrange(0, self.items@.len() as int) == self.items@);
        total
    }
}

impl Default for WorkspaceBuffer {
    fn default() -> (r: Self)
        ensures
            r.spec_items().len() == 0,
            r.spec_scroll() == 0,
            !r.spec_render_pending(),
    {
        Self::new()
    }
}

} // verus!
