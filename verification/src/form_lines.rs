//! What the expanded setup form draws: its title with the key hints, one
//! line per field, and the validation message.
use vstd::prelude::*;
use crate::expanded_form::{ExpandedFormField, ExpandedFormState};
use crate::layout::{display_width, fit_to_width, spec_display_width, spec_fit_to_width};
use crate::text::push_char;
use crate::workspace_lines::{
    line_view, line_views, owned_span, pad_right, span, spec_pad_right, SpanStyle, StyledSpan,
};

verus! {

/// A field's value as shown: a non-empty secret as one `*` per column it
/// takes (at least one).
pub open spec fn spec_display_value(value: Seq<char>, secret: bool) -> Seq<char> {
    if !secret || value.len() == 0 {
        value
    } else {
        let n = spec_display_width(value);
        Seq::new(if n < 1 { 1nat } else { n as nat }, |i: int| '*')
    }
}

/// A value cut to the room a field line leaves; with no room known it is
/// kept whole.
pub open spec fn spec_form_fit(text: Seq<char>, width: nat) -> Seq<char> {
    if width == 0 { text } else { spec_fit_to_width(text, width) }
}

/// The line of one field: marker, label padded to 15 columns, and the value
/// cut to the panel width less 19 columns, highlighted when focused.
pub open spec fn spec_field_line(field: ExpandedFormField, focused: bool, width: u16) -> Seq<(Seq<char>, SpanStyle)> {
    let label_style = if focused { SpanStyle::Cyan } else { SpanStyle::Muted };
    let value_style = if focused { SpanStyle::Panel } else { SpanStyle::Muted };
    let room: nat = if width >= 19 { (width - 19) as nat } else { 0 };
    seq![
        (if focused { "> "@ } else { "  "@ }, label_style),
        (spec_pad_right(field.label@, 15), label_style),
        (spec_form_fit(spec_display_value(field.value@, field.secret), room), value_style),
    ]
}

pub open spec fn spec_title_line(form: ExpandedFormState) -> Seq<(Seq<char>, SpanStyle)> {
    seq![
        (form.kind.spec_title(), SpanStyle::PanelBold),
        ("  tab next  shift+tab prev  enter submit  esc cancel"@, SpanStyle::Muted),
    ]
}

/// The lines of the form: the title, one line per field, then the
/// validation message when there is one.
pub open spec fn spec_form_lines(form: ExpandedFormState, width: u16) -> Seq<Seq<(Seq<char>, SpanStyle)>> {
    seq![spec_title_line(form)]
        + Seq::new(form.fields@.len(), |i: int| spec_field_line(form.fields@[i], i == form.focused, width))
        + match form.validation_message {
            Some(m) => seq![seq![("validation  "@, SpanStyle::Muted), (m@, SpanStyle::Panel)]],
            None => Seq::empty(),
        }
}

pub fn display_value(field: &ExpandedFormField) -> (r: String)
    ensures
        r@ == spec_display_value(field.value@, field.secret),
{
    if !field.secret || field.value.unicode_len() == 0 {
        return field.value.clone();
    }
    let w = display_width(field.value.as_str());
    let n: usize = if w < 1 { 1 } else { w };
    let mut out = String::new();
    let mut k: usize = 0;
    while k < n
        invariant
            k <= n,
            out@ == Seq::new(k as nat, |i: int| '*'),
        decreases n - k,
    {
        push_char(&mut out, '*');
        k = k + 1;
        assert(out@ =~= Seq::new(k as nat, |i: int| '*'));
    }
    out
}

pub fn form_fit(text: &str, width: usize) -> (r: String)
    ensures
        r@ == spec_form_fit(text@, width as nat),
{
    if width == 0 {
        String::from_str(text)
    } else {
        fit_to_width(text, width)
    }
}

pub fn field_line(field: &ExpandedFormField, focused: bool, width: u16) -> (r: Vec<StyledSpan>)
    ensures
        line_view(r) == spec_field_line(*field, focused, width),
{
    let label_style = if focused { SpanStyle::Cyan } else { SpanStyle::Muted };
    let value_style = if focused { SpanStyle::Panel } else { SpanStyle::Muted };
    let room: usize = if width >= 19 { (width - 19) as usize } else { 0 };
    let value = display_value(field);
    let r = vec![
        span(if focused { "> " } else { "  " }, label_style),
        owned_span(pad_right(field.label, 15), label_style),
        owned_span(form_fit(value.as_str(), room), value_style),
    ];
    assert(line_view(r) =~= spec_field_line(*field, focused, width));
    r
}

/// The lines the expanded form draws at panel width `width`.
pub fn expanded_form_lines(form: &ExpandedFormState, width: u16) -> (r: Vec<Vec<StyledSpan>>)
    ensures
        line_views(r@) == spec_form_lines(*form, width),
{
    let title = vec![
        span(form.kind.title(), SpanStyle::PanelBold),
        span("  tab next  shift+tab prev  enter submit  esc cancel", SpanStyle::Muted),
    ];
    assert(line_view(title) =~= spec_title_line(*form));
    let mut out: Vec<Vec<StyledSpan>> = vec![title];
    let ghost fields = Seq::new(form.fields@.len(), |i: int| spec_field_line(form.fields@[i], i == form.focused, width));
    let mut i: usize = 0;
    while i < form.fields.len()
        invariant
            i <= form.fields@.len(),
            fields == Seq::new(form.fields@.len(), |k: int| spec_field_line(form.fields@[k], k == form.focused, width)),
            line_views(out@) == seq![spec_title_line(*form)] + fields.subrange(0, i as int),
        decreases form.fields@.len() - i,
    {
        let line = field_line(&form.fields[i], i == form.focused, width);
        let ghost before = out@;
        out.push(line);
        assert(line_views(out@) =~= line_views(before).push(line_view(line)));
        assert(fields.subrange(0, i + 1) =~= fields.subrange(0, i as int).push(fields[i as int]));
        i = i + 1;
    }
    assert(fields.subrange(0, form.fields@.len() as int) =~= fields);
    let ghost before = out@;
    match &form.validation_message {
        Some(message) => {
            let line = vec![span("validation  ", SpanStyle::Muted), owned_span(message.clone(), SpanStyle::Panel)];
            assert(line_view(line) =~= seq![("validation  "@, SpanStyle::Muted), (message@, SpanStyle::Panel)]);
            out.push(line);
            assert(line_views(out@) =~= line_views(before).push(line_view(line)));
        },
        None => {},
    }
    assert(line_views(out@) =~= spec_form_lines(*form, width));
    out
}

} // verus!
