//! What the workspace log draws: each item as lines of styled text, the
//! prompt padded to the panel's width.
use vstd::prelude::*;
use crate::text::{decimal, push_char, spec_decimal, spec_lines, split_lines, string_views};
use crate::workspace::WorkspaceItem;

verus! {

/// How a piece of a workspace line is drawn.
#[derive(Clone, Copy, Debug, PartialEq, Eq, Structural)]
pub enum SpanStyle {
    Cyan,
    Panel,
    PanelBold,
    Muted,
    PromptBackground,
}

/// A piece of a workspace line and how it is drawn.
pub struct StyledSpan {
    pub text: String,
    pub style: SpanStyle,
}

impl View for StyledSpan {
    type V = (Seq<char>, SpanStyle);

    open spec fn view(&self) -> (Seq<char>, SpanStyle) {
        (self.text@, self.style)
    }
}

/// A line as the pieces it is drawn from.
pub open spec fn line_view(line: Vec<StyledSpan>) -> Seq<(Seq<char>, SpanStyle)> {
    line@.map_values(|s: StyledSpan| s@)
}

pub open spec fn line_views(lines: Seq<Vec<StyledSpan>>) -> Seq<Seq<(Seq<char>, SpanStyle)>> {
    lines.map_values(|l: Vec<StyledSpan>| line_view(l))
}

/// `s` followed by spaces up to `width` characters (`format!("{s:<width$}")`).
pub open spec fn spec_pad_right(s: Seq<char>, width: nat) -> Seq<char> {
    if s.len() < width {
        s + Seq::new((width - s.len()) as nat, |i: int| ' ')
    } else {
        s
    }
}

/// An indented line of an answer or of evidence, drawn in `style`.
pub open spec fn spec_body_lines(text: Seq<char>, style: SpanStyle) -> Seq<Seq<(Seq<char>, SpanStyle)>> {
    spec_lines(text).map_values(|l: Seq<char>| seq![("  "@, SpanStyle::Muted), (l, style)])
}

/// The lines one item is drawn as.
pub open spec fn spec_item_lines(item: WorkspaceItem, width: nat) -> Seq<Seq<(Seq<char>, SpanStyle)>> {
    match item {
        WorkspaceItem::UserPrompt { text } => seq![
            seq![(spec_pad_right(Seq::empty(), width), SpanStyle::PromptBackground)],
            seq![(spec_pad_right("  > "@ + text@, width), SpanStyle::PromptBackground)],
            seq![(spec_pad_right(Seq::empty(), width), SpanStyle::PromptBackground)],
        ],
        WorkspaceItem::ManagerMessage { text } => seq![seq![("[Manager] "@, SpanStyle::Cyan), (text@, SpanStyle::Panel)]],
        WorkspaceItem::SystemNotice { text } => seq![seq![("[system] "@, SpanStyle::Muted), (text@, SpanStyle::Panel)]],
        WorkspaceItem::AssistantAnswer { text } => seq![seq![("Answer"@, SpanStyle::Cyan)]] + spec_body_lines(
            text@,
            SpanStyle::Panel,
        ),
        WorkspaceItem::ActivityOutput { group, summary } => seq![
            seq![(group.spec_label(), SpanStyle::Cyan), ("  "@, SpanStyle::Muted), (summary@, SpanStyle::Panel)],
        ],
        WorkspaceItem::EvidenceBlock { title, body } => seq![
            seq![("Evidence  "@, SpanStyle::Cyan), (title@, SpanStyle::PanelBold)],
        ] + spec_body_lines(body@, SpanStyle::Muted),
        WorkspaceItem::DiffSummary { path, additions, deletions, expanded } => seq![
            seq![
                ("Change  "@, SpanStyle::Cyan),
                (if expanded { "v"@ } else { ">"@ }, SpanStyle::Muted),
                (" "@, SpanStyle::Muted),
                (path@, SpanStyle::Panel),
                (" (+"@ + spec_decimal(additions as nat) + " -"@ + spec_decimal(deletions as nat) + ")"@, SpanStyle::Muted),
            ],
        ] + if expanded {
            seq![
                seq![("+ "@, SpanStyle::Cyan), ("inline diff added lines"@, SpanStyle::Panel)],
                seq![("- "@, SpanStyle::Muted), ("inline diff removed lines"@, SpanStyle::Muted)],
            ]
        } else {
            Seq::empty()
        },
        WorkspaceItem::Result { text } => seq![seq![("Result  "@, SpanStyle::Cyan), (text@, SpanStyle::Panel)]],
    }
}

/// The lines of all items, in order.
pub open spec fn spec_workspace_lines(items: Seq<WorkspaceItem>, width: nat) -> Seq<Seq<(Seq<char>, SpanStyle)>>
    decreases items.len(),
{
    if items.len() == 0 {
        Seq::empty()
    } else {
        spec_workspace_lines(items.drop_last(), width) + spec_item_lines(items.last(), width)
    }
}

pub(crate) fn span(text: &str, style: SpanStyle) -> (r: StyledSpan)
    ensures
        r@ == (text@, style),
{
    StyledSpan { text: String::from_str(text), style }
}

pub(crate) fn owned_span(text: String, style: SpanStyle) -> (r: StyledSpan)
    ensures
        r@ == (text@, style),
{
    StyledSpan { text, style }
}

/// `text` padded with spaces to `width` characters.
pub fn pad_right(text: &str, width: usize) -> (r: String)
    ensures
        r@ == spec_pad_right(text@, width as nat),
{
    let mut out = String::from_str(text);
    let mut n = text.unicode_len();
    while n < width
        invariant
            text@.len() <= n <= width || (n == text@.len() && n >= width),
            out@ == text@ + Seq::new((n - text@.len()) as nat, |i: int| ' '),
        decreases width - n,
    {
        let ghost before = out@;
        push_char(&mut out, ' ');
        assert(out@ =~= text@ + Seq::new((n + 1 - text@.len()) as nat, |i: int| ' '));
        n = n + 1;
    }
    assert(text@ + Seq::new(0nat, |i: int| ' ') =~= text@);
    out
}

fn body_lines(text: &str, style: SpanStyle) -> (r: Vec<Vec<StyledSpan>>)
    ensures
        line_views(r@) == spec_body_lines(text@, style),
{
    let parts = split_lines(text);
    let mut out: Vec<Vec<StyledSpan>> = Vec::new();
    let mut i: usize = 0;
    let ghost target = spec_body_lines(text@, style);
    while i < parts.len()
        invariant
            string_views(parts@) == spec_lines(text@),
            target == spec_body_lines(text@, style),
            i <= parts@.len(),
            line_views(out@) == target.subrange(0, i as int),
        decreases parts@.len() - i,
    {
        let line = vec![span("  ", SpanStyle::Muted), owned_span(parts[i].clone(), style)];
        assert(line_view(line) =~= seq![("  "@, SpanStyle::Muted), (parts@[i as int]@, style)]);
        assert(string_views(parts@)[i as int] == parts@[i as int]@);
        let ghost before = out@;
        out.push(line);
        assert(line_views(out@) =~= line_views(before).push(line_view(line)));
        assert(target.subrange(0, i + 1) =~= target.subrange(0, i as int).push(target[i as int]));
        i = i + 1;
    }
    assert(target.subrange(0, parts@.len() as int) =~= target);
    out
}

fn single(line: Vec<StyledSpan>) -> (r: Vec<Vec<StyledSpan>>)
    ensures
        line_views(r@) == seq![line_view(line)],
{
    let r = vec![line];
    assert(line_views(r@) =~= seq![line_view(line)]);
    r
}

fn prepend_line(line: Vec<StyledSpan>, rest: Vec<Vec<StyledSpan>>) -> (r: Vec<Vec<StyledSpan>>)
    ensures
        line_views(r@) == seq![line_view(line)] + line_views(rest@),
{
    let mut r = single(line);
    let mut rest = rest;
    let ghost a = r@;
    let ghost b = rest@;
    r.append(&mut rest);
    assert(line_views(r@) =~= line_views(a) + line_views(b));
    r
}

/// The lines one item is drawn as, the prompt padded to `width`.
pub fn item_lines(item: &WorkspaceItem, width: usize) -> (r: Vec<Vec<StyledSpan>>)
    ensures
        line_views(r@) == spec_item_lines(*item, width as nat),
{
    match item {
        WorkspaceItem::UserPrompt { text } => {
            proof {
                reveal_strlit("");
                assert(""@ =~= Seq::<char>::empty());
            }
            let prompt = String::from_str("  > ").concat(text.as_str());
            let first = vec![owned_span(pad_right("", width), SpanStyle::PromptBackground)];
            let middle = vec![owned_span(pad_right(prompt.as_str(), width), SpanStyle::PromptBackground)];
            let last = vec![owned_span(pad_right("", width), SpanStyle::PromptBackground)];
            assert(line_view(first) =~= seq![(spec_pad_right(Seq::empty(), width as nat), SpanStyle::PromptBackground)]);
            assert(line_view(middle) =~= seq![(spec_pad_right("  > "@ + text@, width as nat), SpanStyle::PromptBackground)]);
            assert(line_view(last) =~= seq![(spec_pad_right(Seq::empty(), width as nat), SpanStyle::PromptBackground)]);
            let r = vec![first, middle, last];
            assert(line_views(r@) =~= spec_item_lines(*item, width as nat));
            r
        },
        WorkspaceItem::ManagerMessage { text } => {
            let line = vec![span("[Manager] ", SpanStyle::Cyan), owned_span(text.clone(), SpanStyle::Panel)];
            assert(line_view(line) =~= seq![("[Manager] "@, SpanStyle::Cyan), (text@, SpanStyle::Panel)]);
            single(line)
        },
        WorkspaceItem::SystemNotice { text } => {
            let line = vec![span("[system] ", SpanStyle::Muted), owned_span(text.clone(), SpanStyle::Panel)];
            assert(line_view(line) =~= seq![("[system] "@, SpanStyle::Muted), (text@, SpanStyle::Panel)]);
            single(line)
        },
        WorkspaceItem::AssistantAnswer { text } => {
            let header = vec![span("Answer", SpanStyle::Cyan)];
            assert(line_view(header) =~= seq![("Answer"@, SpanStyle::Cyan)]);
            prepend_line(header, body_lines(text.as_str(), SpanStyle::Panel))
        },
        WorkspaceItem::ActivityOutput { group, summary } => {
            let line = vec![
                span(group.label(), SpanStyle::Cyan),
                span("  ", SpanStyle::Muted),
                owned_span(summary.clone(), SpanStyle::Panel),
            ];
            assert(line_view(line) =~= seq![
                (group.spec_label(), SpanStyle::Cyan),
                ("  "@, SpanStyle::Muted),
                (summary@, SpanStyle::Panel),
            ]);
            single(line)
        },
        WorkspaceItem::EvidenceBlock { title, body } => {
            let header = vec![span("Evidence  ", SpanStyle::Cyan), owned_span(title.clone(), SpanStyle::PanelBold)];
            assert(line_view(header) =~= seq![("Evidence  "@, SpanStyle::Cyan), (title@, SpanStyle::PanelBold)]);
            prepend_line(header, body_lines(body.as_str(), SpanStyle::Muted))
        },
        WorkspaceItem::DiffSummary { path, additions, deletions, expanded } => {
            let counts = String::from_str(" (+").concat(decimal(*additions as u64).as_str()).concat(" -").concat(
                decimal(*deletions as u64).as_str(),
            ).concat(")");
            let header = vec![
                span("Change  ", SpanStyle::Cyan),
                span(if *expanded { "v" } else { ">" }, SpanStyle::Muted),
                span(" ", SpanStyle::Muted),
                owned_span(path.clone(), SpanStyle::Panel),
                owned_span(counts, SpanStyle::Muted),
            ];
            assert(line_view(header) =~= seq![
                ("Change  "@, SpanStyle::Cyan),
                (if *expanded { "v"@ } else { ">"@ }, SpanStyle::Muted),
                (" "@, SpanStyle::Muted),
                (path@, SpanStyle::Panel),
                (" (+"@ + spec_decimal(*additions as nat) + " -"@ + spec_decimal(*deletions as nat) + ")"@, SpanStyle::Muted),
            ]);
            let mut rest: Vec<Vec<StyledSpan>> = Vec::new();
            if *expanded {
                let added = vec![span("+ ", SpanStyle::Cyan), span("inline diff added lines", SpanStyle::Panel)];
                let removed = vec![span("- ", SpanStyle::Muted), span("inline diff removed lines", SpanStyle::Muted)];
                assert(line_view(added) =~= seq![("+ "@, SpanStyle::Cyan), ("inline diff added lines"@, SpanStyle::Panel)]);
                assert(line_view(removed) =~= seq![("- "@, SpanStyle::Muted), ("inline diff removed lines"@, SpanStyle::Muted)]);
                rest = vec![added, removed];
                assert(line_views(rest@) =~= seq![line_view(added), line_view(removed)]);
            } else {
                assert(line_views(rest@) =~= Seq::empty());
            }
            prepend_line(header, rest)
        },
        WorkspaceItem::Result { text } => {
            let line = vec![span("Result  ", SpanStyle::Cyan), owned_span(text.clone(), SpanStyle::Panel)];
            assert(line_view(line) =~= seq![("Result  "@, SpanStyle::Cyan), (text@, SpanStyle::Panel)]);
            single(line)
        },
    }
}

/// The lines the workspace log draws for `items`, in order, each prompt
/// padded to `width` characters.
pub fn workspace_line_texts(items: &[WorkspaceItem], width: usize) -> (r: Vec<Vec<StyledSpan>>)
    ensures
        line_views(r@) == spec_workspace_lines(items@, width as nat),
{
    let mut out: Vec<Vec<StyledSpan>> = Vec::new();
    let mut i: usize = 0;
    while i < items.len()
        invariant
            i <= items@.len(),
            line_views(out@) == spec_workspace_lines(items@.subrange(0, i as int), width as nat),
        decreases items@.len() - i,
    {
        assert(items@.subrange(0, i + 1).drop_last() =~= items@.subrange(0, i as int));
        let mut more = item_lines(&items[i], width);
        let ghost a = out@;
        let ghost b = more@;
        out.append(&mut more);
        assert(line_views(out@) =~= line_views(a) + line_views(b));
        i = i + 1;
    }
    assert(items@.subrange(0, items@.len() as int) =~= items@);
    out
}

} // verus!
