//! The epilogue printed when the session ends: a framed summary of the
//! workspace, model, mode, session and tools, then a tip line.
use vstd::prelude::*;
use crate::config::{
    APP_NAME, EPILOGUE_TIP_COMMAND, EPILOGUE_TIP_PREFIX, EPILOGUE_TIP_SESSIONS_COMMAND, EPILOGUE_TIP_SUFFIX,
    EPILOGUE_TIP_TEXT, KOREAN_VERSION_LINE,
};
use crate::layout::{display_width, spec_display_width};
use crate::state::EpilogueSummary;
use crate::text::{decimal, spec_decimal};

verus! {

/// Columns inside the epilogue frame.
pub const CONTENT_WIDTH: usize = 66;

#[derive(Clone, Copy, Debug, PartialEq, Eq, Structural)]
pub enum PrintStyle {
    Muted,
    Panel,
    Bold,
    Cyan,
}

/// A run of text printed in one style.
pub struct Segment {
    pub text: String,
    pub style: PrintStyle,
}

/// One printed line of the epilogue.
pub enum EpilogueLine {
    /// An empty line.
    Blank,
    /// A frame border, printed as it is.
    Border { text: String },
    /// A framed row: `│  `, the segments, `padding` spaces, then `│`.
    Row { segments: Vec<Segment>, padding: usize },
    /// Segments printed with no frame.
    Plain { segments: Vec<Segment> },
}

pub open spec fn segment_views(s: Seq<Segment>) -> Seq<(Seq<char>, PrintStyle)> {
    s.map_values(|g: Segment| (g.text@, g.style))
}

/// The view of an epilogue line: which kind, its text or segments, and its
/// padding.
pub enum LineView {
    Blank,
    Border(Seq<char>),
    Row(Seq<(Seq<char>, PrintStyle)>, nat),
    Plain(Seq<(Seq<char>, PrintStyle)>),
}

pub open spec fn line_view(l: EpilogueLine) -> LineView {
    match l {
        EpilogueLine::Blank => LineView::Blank,
        EpilogueLine::Border { text } => LineView::Border(text@),
        EpilogueLine::Row { segments, padding } => LineView::Row(segment_views(segments@), padding as nat),
        EpilogueLine::Plain { segments } => LineView::Plain(segment_views(segments@)),
    }
}

/// The columns a row's segments take, with the two-column indent
/// (saturating at the largest `usize`).
pub open spec fn spec_row_width(segs: Seq<(Seq<char>, PrintStyle)>) -> nat
    decreases segs.len(),
{
    if segs.len() == 0 {
        2
    } else {
        let w = spec_row_width(segs.drop_last()) + spec_display_width(segs.last().0);
        if w > usize::MAX { usize::MAX as nat } else { w as nat }
    }
}

/// A framed row of `segs`, padded to the frame's width.
pub open spec fn spec_row(segs: Seq<(Seq<char>, PrintStyle)>) -> LineView {
    let w = spec_row_width(segs);
    LineView::Row(segs, if w >= CONTENT_WIDTH { 0 } else { (CONTENT_WIDTH - w) as nat })
}

pub open spec fn spec_border(left: char, right: char) -> Seq<char> {
    seq![left] + Seq::new(CONTENT_WIDTH as nat, |i: int| '─') + seq![right]
}

/// The epilogue of a session.
pub open spec fn spec_epilogue(s: EpilogueSummary) -> Seq<LineView> {
    seq![
        LineView::Blank,
        LineView::Border(spec_border('╭', '╮')),
        spec_row(seq![(">_ "@, PrintStyle::Muted), (APP_NAME@, PrintStyle::Bold)]),
        spec_row(seq![(KOREAN_VERSION_LINE@, PrintStyle::Muted)]),
        spec_row(seq![]),
        spec_row(seq![("workspace: "@, PrintStyle::Muted), (s.workspace@, PrintStyle::Panel)]),
        spec_row(
            seq![
                ("model: "@, PrintStyle::Muted),
                (s.model@, PrintStyle::Panel),
                ("   "@, PrintStyle::Panel),
                ("mode: "@, PrintStyle::Muted),
                (s.mode@, PrintStyle::Panel),
            ],
        ),
        spec_row(seq![("session: "@, PrintStyle::Muted), (s.session@, PrintStyle::Panel)]),
        spec_row(
            seq![
                ("tools: "@, PrintStyle::Muted),
                (spec_decimal(s.tools_executed as nat), PrintStyle::Panel),
                (" executed   "@, PrintStyle::Panel),
                (spec_decimal(s.tools_failed as nat), PrintStyle::Panel),
                (" failed"@, PrintStyle::Panel),
            ],
        ),
        spec_row(seq![(s.closing_message@, PrintStyle::Cyan)]),
        LineView::Border(spec_border('╰', '╯')),
        LineView::Blank,
        LineView::Plain(
            seq![
                (EPILOGUE_TIP_PREFIX@, PrintStyle::Muted),
                (EPILOGUE_TIP_COMMAND@, PrintStyle::Bold),
                (EPILOGUE_TIP_TEXT@, PrintStyle::Panel),
                (EPILOGUE_TIP_SESSIONS_COMMAND@, PrintStyle::Bold),
                (EPILOGUE_TIP_SUFFIX@, PrintStyle::Panel),
            ],
        ),
    ]
}

fn segment(text: &str, style: PrintStyle) -> (r: Segment)
    ensures
        r.text@ == text@,
        r.style == style,
{
    Segment { text: String::from_str(text), style }
}

fn row(segments: Vec<Segment>) -> (r: EpilogueLine)
    ensures
        line_view(r) == spec_row(segment_views(segments@)),
{
    let ghost segs = segment_views(segments@);
    let mut width: usize = 2;
    let mut i: usize = 0;
    while i < segments.len()
        invariant
            segs == segment_views(segments@),
            i <= segments@.len(),
            width as nat == spec_row_width(segs.subrange(0, i as int)),
        decreases segments@.len() - i,
    {
        proof {
            assert(segs.subrange(0, i + 1).drop_last() =~= segs.subrange(0, i as int));
        }
        let w = display_width(segments[i].text.as_str());
        width = width.saturating_add(w);
        i = i + 1;
    }
    assert(segs.subrange(0, segs.len() as int) =~= segs);
    let padding = CONTENT_WIDTH.saturating_sub(width);
    EpilogueLine::Row { segments, padding }
}

fn border(left: char, right: char) -> (r: EpilogueLine)
    ensures
        line_view(r) == LineView::Border(spec_border(left, right)),
{
    let mut text = String::new();
    crate::text::push_char(&mut text, left);
    let mut k: usize = 0;
    while k < CONTENT_WIDTH
        invariant
            k <= CONTENT_WIDTH,
            text@ == seq![left] + Seq::new(k as nat, |i: int| '─'),
        decreases CONTENT_WIDTH - k,
    {
        crate::text::push_char(&mut text, '─');
        k = k + 1;
        assert(text@ =~= seq![left] + Seq::new(k as nat, |i: int| '─'));
    }
    crate::text::push_char(&mut text, right);
    assert(text@ =~= spec_border(left, right));
    EpilogueLine::Border { text }
}

/// The lines of the epilogue for `summary`, in print order.
pub fn epilogue_lines(summary: &EpilogueSummary) -> (r: Vec<EpilogueLine>)
    ensures
        r@.map_values(|l: EpilogueLine| line_view(l)) == spec_epilogue(*summary),
{
    let r0 = vec![segment(">_ ", PrintStyle::Muted), segment(APP_NAME, PrintStyle::Bold)];
    assert(segment_views(r0@) =~= seq![(">_ "@, PrintStyle::Muted), (APP_NAME@, PrintStyle::Bold)]);
    let r1 = vec![segment(KOREAN_VERSION_LINE, PrintStyle::Muted)];
    assert(segment_views(r1@) =~= seq![(KOREAN_VERSION_LINE@, PrintStyle::Muted)]);
    let r2: Vec<Segment> = Vec::new();
    assert(segment_views(r2@) =~= Seq::<(Seq<char>, PrintStyle)>::empty());
    let r3 = vec![segment("workspace: ", PrintStyle::Muted), segment(summary.workspace.as_str(), PrintStyle::Panel)];
    assert(segment_views(r3@) =~= seq![("workspace: "@, PrintStyle::Muted), (summary.workspace@, PrintStyle::Panel)]);
    let r4 = vec![
        segment("model: ", PrintStyle::Muted),
        segment(summary.model.as_str(), PrintStyle::Panel),
        segment("   ", PrintStyle::Panel),
        segment("mode: ", PrintStyle::Muted),
        segment(summary.mode.as_str(), PrintStyle::Panel),
    ];
    assert(segment_views(r4@) =~= seq![
        ("model: "@, PrintStyle::Muted),
        (summary.model@, PrintStyle::Panel),
        ("   "@, PrintStyle::Panel),
        ("mode: "@, PrintStyle::Muted),
        (summary.mode@, PrintStyle::Panel),
    ]);
    let r5 = vec![segment("session: ", PrintStyle::Muted), segment(summary.session, PrintStyle::Panel)];
    assert(segment_views(r5@) =~= seq![("session: "@, PrintStyle::Muted), (summary.session@, PrintStyle::Panel)]);
    let executed = decimal(summary.tools_executed as u64);
    let failed = decimal(summary.tools_failed as u64);
    let r6 = vec![
        segment("tools: ", PrintStyle::Muted),
        segment(executed.as_str(), PrintStyle::Panel),
        segment(" executed   ", PrintStyle::Panel),
        segment(failed.as_str(), PrintStyle::Panel),
        segment(" failed", PrintStyle::Panel),
    ];
    assert(segment_views(r6@) =~= seq![
        ("tools: "@, PrintStyle::Muted),
        (spec_decimal(summary.tools_executed as nat), PrintStyle::Panel),
        (" executed   "@, PrintStyle::Panel),
        (spec_decimal(summary.tools_failed as nat), PrintStyle::Panel),
        (" failed"@, PrintStyle::Panel),
    ]);
    let r7 = vec![segment(summary.closing_message, PrintStyle::Cyan)];
    assert(segment_views(r7@) =~= seq![(summary.closing_message@, PrintStyle::Cyan)]);
    let mut lines: Vec<EpilogueLine> = Vec::new();
    lines.push(EpilogueLine::Blank);
    lines.push(border('╭', '╮'));
    lines.push(row(r0));
    lines.push(row(r1));
    lines.push(row(r2));
    lines.push(row(r3));
    lines.push(row(r4));
    lines.push(row(r5));
    lines.push(row(r6));
    lines.push(row(r7));
    lines.push(border('╰', '╯'));
    lines.push(EpilogueLine::Blank);
    let tip = vec![
        segment(EPILOGUE_TIP_PREFIX, PrintStyle::Muted),
        segment(EPILOGUE_TIP_COMMAND, PrintStyle::Bold),
        segment(EPILOGUE_TIP_TEXT, PrintStyle::Panel),
        segment(EPILOGUE_TIP_SESSIONS_COMMAND, PrintStyle::Bold),
        segment(EPILOGUE_TIP_SUFFIX, PrintStyle::Panel),
    ];
    proof {
        assert(segment_views(tip@) =~= seq![
            (EPILOGUE_TIP_PREFIX@, PrintStyle::Muted),
            (EPILOGUE_TIP_COMMAND@, PrintStyle::Bold),
            (EPILOGUE_TIP_TEXT@, PrintStyle::Panel),
            (EPILOGUE_TIP_SESSIONS_COMMAND@, PrintStyle::Bold),
            (EPILOGUE_TIP_SUFFIX@, PrintStyle::Panel),
        ]);
    }
    lines.push(EpilogueLine::Plain { segments: tip });
    assert(lines@.map_values(|l: EpilogueLine| line_view(l)) =~= spec_epilogue(*summary));
    lines
}

} // verus!
