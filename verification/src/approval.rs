//! The approval surface: a three-option picker that records a one-shot
//! approval or a denial for a pending tool action.
use vstd::prelude::*;

verus! {

#[derive(Clone, Copy, Debug, PartialEq, Eq, Structural)]
pub enum ApprovalOption {
    ApproveOnce,
    Deny,
    ViewDetails,
}

impl ApprovalOption {
    pub open spec fn spec_label(self) -> Seq<char> {
        match self {
            ApprovalOption::ApproveOnce => "Yes, approve once"@,
            ApprovalOption::Deny => "No, deny"@,
            ApprovalOption::ViewDetails => "View details"@,
        }
    }

    pub open spec fn spec_as_str(self) -> Seq<char> {
        match self {
            ApprovalOption::ApproveOnce => "approve_once"@,
            ApprovalOption::Deny => "deny"@,
            ApprovalOption::ViewDetails => "view_details"@,
        }
    }

    pub fn label(self) -> (r: &'static str)
        ensures
            r@ == self.spec_label(),
    {
        match self {
            ApprovalOption::ApproveOnce => "Yes, approve once",
            ApprovalOption::Deny => "No, deny",
            ApprovalOption::ViewDetails => "View details",
        }
    }

    pub fn as_str(self) -> (r: &'static str)
        ensures
            r@ == self.spec_as_str(),
    {
        match self {
            ApprovalOption::ApproveOnce => "approve_once",
            ApprovalOption::Deny => "deny",
            ApprovalOption::ViewDetails => "view_details",
        }
    }
}

/// Number of options the approval surface offers.
pub const APPROVAL_OPTION_COUNT: usize = 3;

/// The option shown at position `index` of the approval surface.
pub open spec fn spec_option_at(index: int) -> ApprovalOption {
    if index == 0 {
        ApprovalOption::ApproveOnce
    } else if index == 1 {
        ApprovalOption::Deny
    } else {
        ApprovalOption::ViewDetails
    }
}

pub fn approval_option_at(index: usize) -> (r: ApprovalOption)
    requires
        index < APPROVAL_OPTION_COUNT,
    ensures
        r == spec_option_at(index as int),
{
    if index == 0 {
        ApprovalOption::ApproveOnce
    } else if index == 1 {
        ApprovalOption::Deny
    } else {
        ApprovalOption::ViewDetails
    }
}

#[derive(Clone, Copy, Debug, PartialEq, Eq, Structural)]
pub enum ApprovalResult {
    ApprovedOnce,
    Denied,
}

impl ApprovalResult {
    pub open spec fn spec_as_str(self) -> Seq<char> {
        match self {
            ApprovalResult::ApprovedOnce => "approved_once"@,
            ApprovalResult::Denied => "denied"@,
        }
    }

    pub open spec fn spec_workspace_line(self, action: Seq<char>) -> Seq<char> {
        match self {
            ApprovalResult::ApprovedOnce => "Approval approved once: "@ + action,
            ApprovalResult::Denied => "Approval denied: "@ + action,
        }
    }

    pub fn as_str(self) -> (r: &'static str)
        ensures
            r@ == self.spec_as_str(),
    {
        match self {
            ApprovalResult::ApprovedOnce => "approved_once",
            ApprovalResult::Denied => "denied",
        }
    }

    pub fn workspace_line(self, request: &ApprovalRequest) -> (r: String)
        ensures
            r@ == self.spec_workspace_line(request.action@),
    {
        let prefix = match self {
            ApprovalResult::ApprovedOnce => String::from_str("Approval approved once: "),
            ApprovalResult::Denied => String::from_str("Approval denied: "),
        };
        prefix.concat(request.action.as_str())
    }
}

pub struct ApprovalRequest {
    pub title: String,
    pub reason: String,
    pub action: String,
    pub details: String,
}

impl ApprovalRequest {
    /// The placeholder request's texts.
    pub open spec fn is_shell(&self) -> bool {
        &&& self.title@ == "Approval required"@
        &&& self.reason@ == "Permission shell is waiting for user decision."@
        &&& self.action@ == "pending tool action"@
        &&& self.details@ == "This shell is the TUI approval surface before the policy engine is connected."@
    }

    /// The placeholder request shown before a policy decision is attached.
    pub fn shell() -> (r: Self)
        ensures
            r.is_shell(),
    {
        ApprovalRequest {
            title: String::from_str("Approval required"),
            reason: String::from_str("Permission shell is waiting for user decision."),
            action: String::from_str("pending tool action"),
            details: String::from_str(
                "This shell is the TUI approval surface before the policy engine is connected.",
            ),
        }
    }
}

pub struct ApprovalSurfaceState {
    pub open: bool,
    pub selected: usize,
    pub details_open: bool,
    pub request: Option<ApprovalRequest>,
}

/// `cur + delta` clamped to `0..=max`.
pub open spec fn spec_clamp(cur: int, delta: int, max: int) -> int {
    if cur + delta < 0 {
        0
    } else if cur + delta > max {
        max
    } else {
        cur + delta
    }
}

/// `current + delta` clamped to `0..=max`, computed without overflow.
pub fn clamp_offset(current: usize, delta: isize, max: usize) -> (r: usize)
    ensures
        r == spec_clamp(current as int, delta as int, max as int),
{
    let sum: i128 = current as i128 + delta as i128;
    if sum < 0 {
        0
    } else if sum > max as i128 {
        max
    } else {
        sum as usize
    }
}

impl ApprovalSurfaceState {
    pub open spec fn is_closed(&self) -> bool {
        &&& !self.open
        &&& self.selected == 0
        &&& !self.details_open
        &&& self.request is None
    }

    pub fn new() -> (r: Self)
        ensures
            r.is_closed(),
    {
        ApprovalSurfaceState { open: false, selected: 0, details_open: false, request: None }
    }

    pub fn open(&mut self, request: ApprovalRequest)
        ensures
            final(self).open,
            final(self).selected == 0,
            !final(self).details_open,
            final(self).request == Some(request),
    {
        self.open = true;
        self.selected = 0;
        self.details_open = false;
        self.request = Some(request);
    }

    pub fn close(&mut self)
        ensures
            final(self).is_closed(),
    {
        self.open = false;
        self.selected = 0;
        self.details_open = false;
        self.request = None;
    }

    pub fn move_selection(&mut self, delta: isize)
        ensures
            final(self).selected == spec_clamp(old(self).selected as int, delta as int, 2),
            final(self).open == old(self).open,
            final(self).details_open == old(self).details_open,
            final(self).request == old(self).request,
    {
        self.selected = clamp_offset(self.selected, delta, APPROVAL_OPTION_COUNT - 1);
    }

    pub fn selected_option(&self) -> (r: ApprovalOption)
        requires
            self.selected < APPROVAL_OPTION_COUNT,
        ensures
            r == spec_option_at(self.selected as int),
    {
        approval_option_at(self.selected)
    }
}

pub enum ApprovalInputEvent {
    SurfaceOpened,
    OptionSelected { option: ApprovalOption },
    ResultRecorded { result: ApprovalResult },
}

pub struct ApprovalInputOutcome {
    pub events: Vec<ApprovalInputEvent>,
    pub workspace_line: Option<String>,
}

impl ApprovalInputOutcome {
    pub open spec fn is_none(&self) -> bool {
        self.events@.len() == 0 && self.workspace_line is None
    }

    pub fn none() -> (r: Self)
        ensures
            r.is_none(),
    {
        ApprovalInputOutcome { events: Vec::new(), workspace_line: None }
    }
}

pub fn open_approval_surface(surface: &mut ApprovalSurfaceState) -> (r: ApprovalInputOutcome)
    ensures
        final(surface).open,
        final(surface).selected == 0,
        !final(surface).details_open,
        final(surface).request matches Some(req) && req.is_shell(),
        r.events@ == seq![ApprovalInputEvent::SurfaceOpened],
        r.workspace_line is None,
{
    surface.open(ApprovalRequest::shell());
    ApprovalInputOutcome { events: vec![ApprovalInputEvent::SurfaceOpened], workspace_line: None }
}

/// The result recorded when `option` is confirmed, if it records one.
pub open spec fn spec_result_for(option: ApprovalOption) -> Option<ApprovalResult> {
    match option {
        ApprovalOption::ApproveOnce => Some(ApprovalResult::ApprovedOnce),
        ApprovalOption::Deny => Some(ApprovalResult::Denied),
        ApprovalOption::ViewDetails => None,
    }
}

/// Confirms the highlighted option. Approve and deny record a result and close
/// the surface; "view details" only opens the detail pane.
pub fn confirm_approval_selection(surface: &mut ApprovalSurfaceState) -> (r: ApprovalInputOutcome)
    requires
        old(surface).open ==> old(surface).selected < APPROVAL_OPTION_COUNT,
    ensures
        !old(surface).open ==> r.is_none() && *final(surface) == *old(surface),
        old(surface).open ==> ({
            let option = spec_option_at(old(surface).selected as int);
            match spec_result_for(option) {
                Some(result) => {
                    &&& final(surface).is_closed()
                    &&& r.events@ == seq![
                        ApprovalInputEvent::OptionSelected { option },
                        ApprovalInputEvent::ResultRecorded { result },
                    ]
                    &&& match old(surface).request {
                        Some(req) => r.workspace_line matches Some(line) && line@
                            == result.spec_workspace_line(req.action@),
                        None => r.workspace_line is None,
                    }
                },
                None => {
                    &&& final(surface).details_open
                    &&& final(surface).open == old(surface).open
                    &&& final(surface).selected == old(surface).selected
                    &&& final(surface).request == old(surface).request
                    &&& r.events@ == seq![ApprovalInputEvent::OptionSelected { option }]
                    &&& r.workspace_line is None
                },
            }
        }),
{
    if !surface.open {
        return ApprovalInputOutcome::none();
    }
    let option = surface.selected_option();
    let events = vec![ApprovalInputEvent::OptionSelected { option }];
    match option {
        ApprovalOption::ApproveOnce => record_result(surface, ApprovalResult::ApprovedOnce, events),
        ApprovalOption::Deny => record_result(surface, ApprovalResult::Denied, events),
        ApprovalOption::ViewDetails => {
            surface.details_open = true;
            ApprovalInputOutcome { events, workspace_line: None }
        },
    }
}

fn record_result(
    surface: &mut ApprovalSurfaceState,
    result: ApprovalResult,
    events: Vec<ApprovalInputEvent>,
) -> (r: ApprovalInputOutcome)
    ensures
        final(surface).is_closed(),
        r.events@ == events@.push(ApprovalInputEvent::ResultRecorded { result }),
        match old(surface).request {
            Some(req) => r.workspace_line matches Some(line) && line@ == result.spec_workspace_line(
                req.action@,
            ),
            None => r.workspace_line is None,
        },
{
    let workspace_line = match &surface.request {
        Some(request) => Some(result.workspace_line(request)),
        None => None,
    };
    let mut events = events;
    events.push(ApprovalInputEvent::ResultRecorded { result });
    surface.close();
    ApprovalInputOutcome { events, workspace_line }
}


impl Default for ApprovalSurfaceState {
    fn default() -> (r: Self)
        ensures
            r.is_closed(),
    {
        ApprovalSurfaceState::new()
    }
}

} // verus!
