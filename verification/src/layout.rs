//! Text layout for the panels: wrapping to a column width, cutting a line to
//! fit with an ellipsis, and choosing the window of lines a scrolled panel
//! shows.
use vstd::prelude::*;
use crate::persona::PersonaMessage;
use crate::state::RuntimeStatus;
use crate::text::{chars_of, decimal, push_char, spec_decimal};

verus! {

/// The displayed width of a string in terminal columns, as unicode-width
/// computes it.
pub uninterp spec fn spec_display_width(s: Seq<char>) -> usize;

/// `UnicodeWidthStr::width` of the unicode-width crate: the number of
/// terminal columns `s` takes (wide East Asian characters two, combining
/// marks none). Only that the result is a function of `s` is claimed.
#[verifier::external_body]
pub(crate) fn display_width(s: &str) -> (r: usize)
    ensures
        r == spec_display_width(s@),
{
    unicode_width::UnicodeWidthStr::width(s)
}

/// The width of a single character, measured as a one-character string.
pub open spec fn spec_char_width(c: char) -> usize {
    spec_display_width(seq![c])
}

fn char_width(c: char) -> (r: usize)
    ensures
        r == spec_char_width(c),
{
    let mut s = String::new();
    push_char(&mut s, c);
    assert(s@ =~= seq![c]);
    display_width(s.as_str())
}

/// The lines finished so far, the line being filled and its width, after
/// wrapping the characters `s` greedily at `width` columns: a character that
/// does not fit starts a new line unless the current line is empty.
pub open spec fn spec_wrap_state(s: Seq<char>, width: nat) -> (Seq<Seq<char>>, Seq<char>, nat)
    decreases s.len(),
{
    if s.len() == 0 {
        (Seq::empty(), Seq::empty(), 0)
    } else {
        let (done, current, current_width) = spec_wrap_state(s.drop_last(), width);
        let c = s.last();
        let w = spec_char_width(c) as nat;
        if current_width > 0 && current_width + w > width {
            (done.push(current), seq![c], w)
        } else {
            (done, current.push(c), current_width + w)
        }
    }
}

/// `text` wrapped at `width` columns; an empty text or a zero width gives
/// one empty line.
pub open spec fn spec_wrap_text(text: Seq<char>, width: nat) -> Seq<Seq<char>> {
    if width == 0 || text.len() == 0 {
        seq![Seq::empty()]
    } else {
        let (done, current, _) = spec_wrap_state(text, width);
        done.push(current)
    }
}

pub fn wrap_text(text: &str, width: usize) -> (r: Vec<String>)
    ensures
        r@.map_values(|s: String| s@) == spec_wrap_text(text@, width as nat),
{
    let chars = chars_of(text);
    if width == 0 || chars.len() == 0 {
        let r = vec![String::new()];
        assert(r@.map_values(|s: String| s@) =~= seq![Seq::<char>::empty()]);
        return r;
    }
    let mut lines: Vec<String> = Vec::new();
    let mut current = String::new();
    let mut current_width: usize = 0;
    let mut i: usize = 0;
    while i < chars.len()
        invariant
            chars@ == text@,
            0 < width,
            i <= chars@.len(),
            ({
                let (done, cur, cw) = spec_wrap_state(chars@.subrange(0, i as int), width as nat);
                &&& lines@.map_values(|s: String| s@) == done
                &&& current@ == cur
                &&& current_width as nat == cw
            }),
            i > 0 ==> current@.len() > 0,
        decreases chars@.len() - i,
    {
        let c = chars[i];
        let w = char_width(c);
        proof {
            assert(chars@.subrange(0, i + 1).drop_last() =~= chars@.subrange(0, i as int));
            assert(chars@.subrange(0, i + 1).last() == c);
        }
        let ghost old_lines = lines@;
        if current_width > 0 && (w > width || current_width > width - w) {
            let finished = current;
            lines.push(finished);
            current = String::new();
            push_char(&mut current, c);
            current_width = w;
            assert(current@ =~= seq![c]);
            assert(lines@.map_values(|s: String| s@) =~= old_lines.map_values(|s: String| s@).push(finished@));
        } else {
            push_char(&mut current, c);
            current_width = current_width + w;
        }
        i = i + 1;
    }
    assert(chars@.subrange(0, chars@.len() as int) =~= chars@);
    let ghost old_lines = lines@;
    let last = current;
    lines.push(last);
    assert(lines@.map_values(|s: String| s@) =~= old_lines.map_values(|s: String| s@).push(last@));
    lines
}

/// The longest prefix of `s` whose widths add up to at most `target`.
pub open spec fn spec_fit_prefix_len(s: Seq<char>, target: nat) -> nat
    decreases s.len(),
{
    if s.len() == 0 {
        0
    } else if spec_char_width(s[0]) as nat > target {
        0
    } else {
        1 + spec_fit_prefix_len(s.drop_first(), (target - spec_char_width(s[0]) as nat) as nat)
    }
}

/// `text` unchanged when it fits `width` columns; otherwise as many leading
/// characters as fit in `width - 3` columns followed by `...`, or only dots
/// when the width leaves no room.
pub open spec fn spec_fit_to_width(text: Seq<char>, width: nat) -> Seq<char> {
    if spec_display_width(text) <= width {
        text
    } else if width <= 3 {
        Seq::new(width, |i: int| '.')
    } else {
        text.subrange(0, spec_fit_prefix_len(text, (width - 3) as nat) as int) + "..."@
    }
}

pub fn fit_to_width(text: &str, width: usize) -> (r: String)
    ensures
        r@ == spec_fit_to_width(text@, width as nat),
{
    if display_width(text) <= width {
        return String::from_str(text);
    }
    if width <= 3 {
        let mut dots = String::new();
        let mut k: usize = 0;
        while k < width
            invariant
                k <= width,
                dots@ == Seq::new(k as nat, |i: int| '.'),
            decreases width - k,
        {
            push_char(&mut dots, '.');
            k = k + 1;
            assert(dots@ =~= Seq::new(k as nat, |i: int| '.'));
        }
        return dots;
    }
    let target = width - 3;
    let chars = chars_of(text);
    let mut output = String::new();
    let mut current_width: usize = 0;
    let mut i: usize = 0;
    let mut full = false;
    assert(chars@.skip(0) =~= chars@);
    while i < chars.len() && !full
        invariant
            chars@ == text@,
            i <= chars@.len(),
            current_width <= target,
            output@ == chars@.subrange(0, i as int),
            spec_fit_prefix_len(chars@, target as nat) == i + spec_fit_prefix_len(
                chars@.skip(i as int),
                (target - current_width) as nat,
            ),
            full ==> spec_fit_prefix_len(chars@.skip(i as int), (target - current_width) as nat) == 0,
        decreases chars@.len() - i, if full { 0int } else { 1int },
    {
        let c = chars[i];
        let w = char_width(c);
        proof {
            assert(chars@.skip(i as int)[0] == c);
            assert(chars@.skip(i as int).drop_first() =~= chars@.skip(i + 1));
        }
        if w > target - current_width {
            full = true;
        } else {
            current_width = current_width + w;
            push_char(&mut output, c);
            i = i + 1;
            assert(output@ =~= chars@.subrange(0, i as int));
        }
    }
    proof {
        if i == chars@.len() {
            assert(chars@.skip(i as int).len() == 0);
        }
    }
    output.concat("...")
}

/// The window a panel of `height` rows shows of `n` lines scrolled
/// `scroll_from_bottom` rows up from the latest: its first line.
pub open spec fn spec_visible_start(n: nat, height: nat, scroll_from_bottom: nat) -> nat {
    if height == 0 || n <= height {
        0
    } else if n - height >= scroll_from_bottom {
        (n - height - scroll_from_bottom) as nat
    } else {
        0
    }
}

/// The lines a panel of `height` rows shows, `scroll_from_bottom` rows up
/// from the latest; all of them when they fit or the height is zero.
pub open spec fn spec_visible_lines<T>(lines: Seq<T>, height: nat, scroll_from_bottom: nat) -> Seq<T> {
    if height == 0 || lines.len() <= height {
        lines
    } else {
        let start = spec_visible_start(lines.len(), height, scroll_from_bottom);
        lines.subrange(start as int, (start + height) as int)
    }
}

pub fn visible_lines<T>(lines: Vec<T>, height: u16, scroll_from_bottom: usize) -> (r: Vec<T>)
    ensures
        r@ == spec_visible_lines(lines@, height as nat, scroll_from_bottom as nat),
{
    let height = height as usize;
    if height == 0 || lines.len() <= height {
        return lines;
    }
    let latest_start = lines.len() - height;
    let start = latest_start.saturating_sub(scroll_from_bottom);
    let mut lines = lines;
    let mut tail = lines.split_off(start);
    tail.truncate(height);
    tail
}

/// The time a persona message shows: ` <time>`, with ` x<count>` when it
/// was repeated.
pub open spec fn spec_persona_time_label(m: PersonaMessage) -> Seq<char> {
    if m.repeat_count > 1 {
        " "@ + m.time_label@ + " x"@ + spec_decimal(m.repeat_count as nat)
    } else {
        " "@ + m.time_label@
    }
}

pub fn persona_time_label(message: &PersonaMessage) -> (r: String)
    ensures
        r@ == spec_persona_time_label(*message),
{
    if message.repeat_count > 1 {
        String::from_str(" ").concat(message.time_label.as_str()).concat(" x").concat(
            decimal(message.repeat_count as u64).as_str(),
        )
    } else {
        String::from_str(" ").concat(message.time_label.as_str())
    }
}

/// The status line: mode, provider/model, workspace, context, tokens, web
/// access and runtime state, separated by middle dots.
pub open spec fn spec_statusline_text(s: RuntimeStatus) -> Seq<char> {
    s.mode@ + " · "@ + s.provider@ + "/"@ + s.model@ + " · "@ + s.workspace@ + " · "@ + s.context@ + " · "@
        + s.tokens@ + " · "@ + s.web@ + " · "@ + s.runtime_state@
}

pub fn statusline_text(status: &RuntimeStatus) -> (r: String)
    ensures
        r@ == spec_statusline_text(*status),
{
    String::from_str(status.mode.as_str()).concat(" · ").concat(status.provider.as_str()).concat("/").concat(
        status.model.as_str(),
    ).concat(" · ").concat(status.workspace.as_str()).concat(" · ").concat(status.context.as_str()).concat(
        " · ",
    ).concat(status.tokens).concat(" · ").concat(status.web).concat(" · ").concat(status.runtime_state)
}

/// The first row of each half of the wordmark; the wordmark is as wide as
/// the two together.
pub const WORDMARK_AHREUM_TOP: &'static str = "  ▄▄▄▄   ▄▄                               ";
pub const WORDMARK_CODE_TOP: &'static str = " ▄▄▄▄▄▄▄          ▄▄       ";

/// The version line under the wordmark, right-aligned to the wordmark's
/// width (no padding when it is wider).
pub open spec fn spec_version_line() -> Seq<char> {
    let total = spec_display_width(WORDMARK_AHREUM_TOP@) + spec_display_width(WORDMARK_CODE_TOP@);
    let w = spec_display_width(crate::config::KOREAN_VERSION_LINE@);
    let padding = if total > usize::MAX { usize::MAX as int } else { total };
    Seq::new(if padding > w { (padding - w) as nat } else { 0 }, |i: int| ' ') + crate::config::KOREAN_VERSION_LINE@
}

pub fn version_line() -> (r: String)
    ensures
        r@ == spec_version_line(),
{
    let total = display_width(WORDMARK_AHREUM_TOP).saturating_add(display_width(WORDMARK_CODE_TOP));
    let text_width = display_width(crate::config::KOREAN_VERSION_LINE);
    let padding = total.saturating_sub(text_width);
    let mut s = String::new();
    let mut k: usize = 0;
    while k < padding
        invariant
            k <= padding,
            s@ == Seq::new(k as nat, |i: int| ' '),
        decreases padding - k,
    {
        push_char(&mut s, ' ');
        k = k + 1;
        assert(s@ =~= Seq::new(k as nat, |i: int| ' '));
    }
    s.concat(crate::config::KOREAN_VERSION_LINE)
}

} // verus!
