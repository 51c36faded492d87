//! Character-level string helpers with exact specifications.
use vstd::prelude::*;

verus! {

/// Unicode `White_Space` code points, as `char::is_whitespace` documents them.
pub open spec fn spec_is_whitespace(c: char) -> bool {
    let u = c as u32;
    u == 0x09 || u == 0x0A || u == 0x0B || u == 0x0C || u == 0x0D || u == 0x20 || u == 0x85
        || u == 0xA0 || u == 0x1680 || (0x2000 <= u && u <= 0x200A) || u == 0x2028 || u == 0x2029
        || u == 0x202F || u == 0x205F || u == 0x3000
}

pub fn is_whitespace(c: char) -> (r: bool)
    ensures
        r == spec_is_whitespace(c),
{
    let u = c as u32;
    u == 0x09 || u == 0x0A || u == 0x0B || u == 0x0C || u == 0x0D || u == 0x20 || u == 0x85
        || u == 0xA0 || u == 0x1680 || (0x2000 <= u && u <= 0x200A) || u == 0x2028 || u == 0x2029
        || u == 0x202F || u == 0x205F || u == 0x3000
}

/// The characters of `s`, in order.
pub fn chars_of(s: &str) -> (r: Vec<char>)
    ensures
        r@ == s@,
{
    let n = s.unicode_len();
    let mut out: Vec<char> = Vec::new();
    let mut i: usize = 0;
    while i < n
        invariant
            n == s@.len(),
            i <= n,
            out@ == s@.subrange(0, i as int),
        decreases n - i,
    {
        let c = s.get_char(i);
        out.push(c);
        i = i + 1;
    }
    out
}

/// Appends one character to a string (`String::push`).
#[verifier::external_body]
pub(crate) fn push_char(s: &mut String, c: char)
    ensures
        final(s)@ == old(s)@.push(c),
{
    s.push(c);
}

/// Removes the last character of a string (`String::pop`).
#[verifier::external_body]
pub(crate) fn pop_char(s: &mut String) -> (r: Option<char>)
    ensures
        old(s)@.len() == 0 ==> r is None && final(s)@ == old(s)@,
        old(s)@.len() > 0 ==> r == Some(old(s)@.last()) && final(s)@ == old(s)@.drop_last(),
{
    s.pop()
}

/// A string holding exactly the characters of `v[from..to]`.
pub fn string_from_range(v: &Vec<char>, from: usize, to: usize) -> (r: String)
    requires
        from <= to <= v@.len(),
    ensures
        r@ == v@.subrange(from as int, to as int),
{
    let mut out = String::new();
    let mut i = from;
    while i < to
        invariant
            from <= i <= to <= v@.len(),
            out@ == v@.subrange(from as int, i as int),
        decreases to - i,
    {
        push_char(&mut out, v[i]);
        assert(v@.subrange(from as int, i + 1) == v@.subrange(from as int, i as int).push(v@[i as int]));
        i = i + 1;
    }
    out
}

/// Characters equal position by position.
pub fn str_eq(a: &str, b: &str) -> (r: bool)
    ensures
        r == (a@ == b@),
{
    let x = chars_of(a);
    let y = chars_of(b);
    if x.len() != y.len() {
        return false;
    }
    let mut i: usize = 0;
    while i < x.len()
        invariant
            x@ == a@,
            y@ == b@,
            x@.len() == y@.len(),
            i <= x@.len(),
            forall|k: int| 0 <= k < i ==> x@[k] == y@[k],
        decreases x@.len() - i,
    {
        if x[i] != y[i] {
            return false;
        }
        i = i + 1;
    }
    assert(x@ =~= y@);
    true
}

} // verus!

verus! {

/// Number of `'\n'` characters in `s`.
pub open spec fn spec_newline_count(s: Seq<char>) -> nat
    decreases s.len(),
{
    if s.len() == 0 {
        0
    } else {
        spec_newline_count(s.drop_last()) + if s.last() == '\n' { 1nat } else { 0nat }
    }
}

/// Number of items `str::lines` yields: every `'\n'` ends a line, and a
/// non-empty tail without a final `'\n'` is one more line.
pub open spec fn spec_lines_count(s: Seq<char>) -> nat {
    if s.len() == 0 {
        0
    } else if s.last() == '\n' {
        spec_newline_count(s)
    } else {
        spec_newline_count(s) + 1
    }
}

pub proof fn lemma_newline_count_le_len(s: Seq<char>)
    ensures
        spec_newline_count(s) <= s.len(),
    decreases s.len(),
{
    if s.len() > 0 {
        lemma_newline_count_le_len(s.drop_last());
    }
}

pub fn lines_count(s: &str) -> (r: usize)
    ensures
        r == spec_lines_count(s@),
{
    let v = chars_of(s);
    let mut count: usize = 0;
    let mut i: usize = 0;
    while i < v.len()
        invariant
            v@ == s@,
            i <= v@.len(),
            count == spec_newline_count(v@.subrange(0, i as int)),
            count <= i,
        decreases v@.len() - i,
    {
        assert(v@.subrange(0, i + 1).drop_last() == v@.subrange(0, i as int));
        if v[i] == '\n' {
            count = count + 1;
        }
        i = i + 1;
    }
    assert(v@.subrange(0, v@.len() as int) == v@);
    if v.len() == 0 || v[v.len() - 1] == '\n' {
        count
    } else {
        proof {
            lemma_newline_count_le_len(v@.drop_last());
            assert(v@.drop_last() == v@.subrange(0, v@.len() - 1));
        }
        count + 1
    }
}

} // verus!

verus! {

/// Index of the first non-whitespace character of `s` at or after `from`
/// (or `s.len()`).
pub open spec fn spec_first_non_ws(s: Seq<char>, from: int) -> int
    decreases s.len() - from,
{
    if from >= s.len() {
        s.len() as int
    } else if spec_is_whitespace(s[from]) {
        spec_first_non_ws(s, from + 1)
    } else {
        from
    }
}

/// One past the last non-whitespace character of `s` before `to` (or 0).
pub open spec fn spec_last_non_ws_end(s: Seq<char>, to: int) -> int
    decreases to,
{
    if to <= 0 {
        0
    } else if spec_is_whitespace(s[to - 1]) {
        spec_last_non_ws_end(s, to - 1)
    } else {
        to
    }
}

/// `str::trim_start`: `s` without its leading whitespace.
pub open spec fn spec_trim_start(s: Seq<char>) -> Seq<char> {
    s.subrange(spec_first_non_ws(s, 0), s.len() as int)
}

/// `str::trim`: `s` without leading or trailing whitespace.
pub open spec fn spec_trim(s: Seq<char>) -> Seq<char> {
    let start = spec_first_non_ws(s, 0);
    let end = spec_last_non_ws_end(s, s.len() as int);
    if end <= start {
        Seq::empty()
    } else {
        s.subrange(start, end)
    }
}

pub proof fn lemma_first_non_ws_bounds(s: Seq<char>, from: int)
    requires
        0 <= from <= s.len(),
    ensures
        from <= spec_first_non_ws(s, from) <= s.len(),
    decreases s.len() - from,
{
    if from < s.len() && spec_is_whitespace(s[from]) {
        lemma_first_non_ws_bounds(s, from + 1);
    }
}

pub proof fn lemma_last_non_ws_bounds(s: Seq<char>, to: int)
    requires
        0 <= to <= s.len(),
    ensures
        0 <= spec_last_non_ws_end(s, to) <= to,
    decreases to,
{
    if to > 0 && spec_is_whitespace(s[to - 1]) {
        lemma_last_non_ws_bounds(s, to - 1);
    }
}

fn first_non_ws(v: &Vec<char>, from: usize) -> (r: usize)
    requires
        from <= v@.len(),
    ensures
        r == spec_first_non_ws(v@, from as int),
{
    let mut i = from;
    while i < v.len() && is_whitespace(v[i])
        invariant
            from <= i <= v@.len(),
            spec_first_non_ws(v@, i as int) == spec_first_non_ws(v@, from as int),
        decreases v@.len() - i,
    {
        i = i + 1;
    }
    i
}

fn last_non_ws_end(v: &Vec<char>, to: usize) -> (r: usize)
    requires
        to <= v@.len(),
    ensures
        r == spec_last_non_ws_end(v@, to as int),
{
    let mut i = to;
    while i > 0 && is_whitespace(v[i - 1])
        invariant
            i <= to <= v@.len(),
            spec_last_non_ws_end(v@, i as int) == spec_last_non_ws_end(v@, to as int),
        decreases i,
    {
        i = i - 1;
    }
    i
}

pub fn trim_start(s: &str) -> (r: String)
    ensures
        r@ == spec_trim_start(s@),
{
    let v = chars_of(s);
    let start = first_non_ws(&v, 0);
    proof {
        lemma_first_non_ws_bounds(v@, 0);
    }
    string_from_range(&v, start, v.len())
}

pub fn trim(s: &str) -> (r: String)
    ensures
        r@ == spec_trim(s@),
{
    let v = chars_of(s);
    let start = first_non_ws(&v, 0);
    let end = last_non_ws_end(&v, v.len());
    proof {
        lemma_first_non_ws_bounds(v@, 0);
        lemma_last_non_ws_bounds(v@, v@.len() as int);
    }
    if end <= start {
        String::new()
    } else {
        string_from_range(&v, start, end)
    }
}

/// `s` begins with `p`.
pub open spec fn spec_starts_with(s: Seq<char>, p: Seq<char>) -> bool {
    p.len() <= s.len() && s.subrange(0, p.len() as int) == p
}

/// `s` ends with `p`.
pub open spec fn spec_ends_with(s: Seq<char>, p: Seq<char>) -> bool {
    p.len() <= s.len() && s.subrange(s.len() - p.len(), s.len() as int) == p
}

pub fn starts_with(s: &str, p: &str) -> (r: bool)
    ensures
        r == spec_starts_with(s@, p@),
{
    let x = chars_of(s);
    let y = chars_of(p);
    if y.len() > x.len() {
        return false;
    }
    let mut i: usize = 0;
    while i < y.len()
        invariant
            x@ == s@,
            y@ == p@,
            y@.len() <= x@.len(),
            i <= y@.len(),
            forall|k: int| 0 <= k < i ==> x@[k] == y@[k],
        decreases y@.len() - i,
    {
        if x[i] != y[i] {
            assert(s@.subrange(0, p@.len() as int)[i as int] != p@[i as int]);
            return false;
        }
        i = i + 1;
    }
    assert(s@.subrange(0, p@.len() as int) =~= p@);
    true
}

pub fn ends_with_char(s: &str, c: char) -> (r: bool)
    ensures
        r == (s@.len() > 0 && s@.last() == c),
{
    let n = s.unicode_len();
    if n == 0 {
        false
    } else {
        s.get_char(n - 1) == c
    }
}

/// `s` occurs in `t` at some position.
pub open spec fn spec_contains(t: Seq<char>, s: Seq<char>) -> bool {
    exists|i: int| 0 <= i && i + s.len() <= t.len() && #[trigger] t.subrange(i, i + s.len()) == s
}

} // verus!

verus! {

pub open spec fn spec_digit_char(d: nat) -> char {
    if d == 0 { '0' } else if d == 1 { '1' } else if d == 2 { '2' } else if d == 3 { '3' }
    else if d == 4 { '4' } else if d == 5 { '5' } else if d == 6 { '6' } else if d == 7 { '7' }
    else if d == 8 { '8' } else { '9' }
}

/// Decimal digits of `n`, most significant first, without leading zeros.
pub open spec fn spec_decimal(n: nat) -> Seq<char>
    decreases n,
{
    if n < 10 {
        seq![spec_digit_char(n)]
    } else {
        spec_decimal(n / 10).push(spec_digit_char(n % 10))
    }
}

/// Decimal digits of `n`, left-padded with zeros to at least `width` digits.
pub open spec fn spec_zero_padded(n: nat, width: nat) -> Seq<char> {
    let d = spec_decimal(n);
    if d.len() >= width {
        d
    } else {
        Seq::new((width - d.len()) as nat, |i: int| '0') + d
    }
}

fn digit_char(d: u64) -> (r: char)
    requires
        d < 10,
    ensures
        r == spec_digit_char(d as nat),
{
    if d == 0 { '0' } else if d == 1 { '1' } else if d == 2 { '2' } else if d == 3 { '3' }
    else if d == 4 { '4' } else if d == 5 { '5' } else if d == 6 { '6' } else if d == 7 { '7' }
    else if d == 8 { '8' } else { '9' }
}

/// `n.to_string()` for unsigned integers.
pub fn decimal(n: u64) -> (r: String)
    ensures
        r@ == spec_decimal(n as nat),
    decreases n,
{
    if n < 10 {
        let mut s = String::new();
        push_char(&mut s, digit_char(n));
        s
    } else {
        let mut s = decimal(n / 10);
        push_char(&mut s, digit_char(n % 10));
        s
    }
}

/// `format!("{:0width$}", n)`.
pub fn zero_padded(n: u64, width: usize) -> (r: String)
    ensures
        r@ == spec_zero_padded(n as nat, width as nat),
{
    let d = decimal(n);
    let len = d.as_str().unicode_len();
    if len >= width {
        return d;
    }
    let mut s = String::new();
    let mut i: usize = 0;
    while i < width - len
        invariant
            len == d@.len(),
            len < width,
            i <= width - len,
            s@ == Seq::new(i as nat, |k: int| '0'),
        decreases width - len - i,
    {
        push_char(&mut s, '0');
        assert(s@ =~= Seq::new((i + 1) as nat, |k: int| '0'));
        i = i + 1;
    }
    s.concat(d.as_str())
}

pub open spec fn spec_is_digit(c: char) -> bool {
    '0' <= c && c <= '9'
}

/// Value of a run of decimal digits.
pub open spec fn spec_digits_value(s: Seq<char>) -> nat
    decreases s.len(),
{
    if s.len() == 0 {
        0
    } else {
        spec_digits_value(s.drop_last()) * 10 + ((s.last() as u32 - '0' as u32) as nat)
    }
}

/// `str::parse::<u32>`: an optional `+`, then one or more decimal digits whose
/// value fits in `u32`.
pub open spec fn spec_all_digits(d: Seq<char>) -> bool {
    forall|i: int| 0 <= i < d.len() ==> spec_is_digit(#[trigger] d[i])
}

pub open spec fn spec_unsigned_digits(s: Seq<char>) -> Seq<char> {
    if s.len() > 0 && s[0] == '+' { s.drop_first() } else { s }
}

pub open spec fn spec_parse_u32(s: Seq<char>) -> Option<u32> {
    let digits = spec_unsigned_digits(s);
    if digits.len() == 0 || !spec_all_digits(digits) {
        None
    } else if spec_digits_value(digits) > u32::MAX {
        None
    } else {
        Some(spec_digits_value(digits) as u32)
    }
}

pub proof fn lemma_digits_value_monotone(s: Seq<char>, i: int)
    requires
        0 <= i <= s.len(),
        forall|k: int| 0 <= k < s.len() ==> spec_is_digit(#[trigger] s[k]),
    ensures
        spec_digits_value(s.subrange(0, i)) <= spec_digits_value(s),
    decreases s.len() - i,
{
    if i < s.len() {
        lemma_digits_value_monotone(s, i + 1);
        assert(s.subrange(0, i + 1).drop_last() =~= s.subrange(0, i));
        assert(spec_digits_value(s.subrange(0, i + 1)) >= spec_digits_value(s.subrange(0, i)) * 10) by (nonlinear_arith)
            requires spec_digits_value(s.subrange(0, i + 1)) == spec_digits_value(s.subrange(0, i)) * 10 + ((s[i] as u32 - '0' as u32) as nat);
    } else {
        assert(s.subrange(0, i) =~= s);
    }
}

pub fn parse_u32(s: &str) -> (r: Option<u32>)
    ensures
        r == spec_parse_u32(s@),
{
    let v = chars_of(s);
    let start: usize = if v.len() > 0 && v[0] == '+' { 1 } else { 0 };
    let ghost digits = spec_unsigned_digits(s@);
    assert(digits =~= v@.subrange(start as int, v@.len() as int));
    if start == v.len() {
        return None;
    }
    let mut i = start;
    while i < v.len()
        invariant
            v@ == s@,
            start <= i <= v@.len(),
            digits == v@.subrange(start as int, v@.len() as int),
            digits == spec_unsigned_digits(s@),
            forall|k: int| start <= k < i ==> spec_is_digit(#[trigger] v@[k]),
        decreases v@.len() - i,
    {
        if !('0' <= v[i] && v[i] <= '9') {
            assert(digits[i - start] == v@[i as int]);
            assert(!spec_is_digit(digits[i - start]));
            assert(!(forall|k: int| 0 <= k < digits.len() ==> spec_is_digit(#[trigger] digits[k])));
            return None;
        }
        i = i + 1;
    }
    assert(forall|k: int| 0 <= k < digits.len() ==> spec_is_digit(#[trigger] digits[k])) by {
        assert forall|k: int| 0 <= k < digits.len() implies spec_is_digit(#[trigger] digits[k]) by {
            assert(digits[k] == v@[start + k]);
        }
    }
    let mut value: u64 = 0;
    let mut j = start;
    while j < v.len()
        invariant
            v@ == s@,
            start <= j <= v@.len(),
            digits == v@.subrange(start as int, v@.len() as int),
            digits == spec_unsigned_digits(s@),
            forall|k: int| 0 <= k < digits.len() ==> spec_is_digit(#[trigger] digits[k]),
            value == spec_digits_value(digits.subrange(0, j - start)),
            value <= u32::MAX,
        decreases v@.len() - j,
    {
        assert(digits.subrange(0, j + 1 - start).drop_last() =~= digits.subrange(0, j - start));
        assert(digits[j - start] == v@[j as int]);
        assert(spec_is_digit(digits[j - start]));
        let d = (v[j] as u32 - '0' as u32) as u64;
        let next = value * 10 + d;
        assert(next == spec_digits_value(digits.subrange(0, j + 1 - start)));
        if next > 4294967295u64 {
            proof {
                lemma_digits_value_monotone(digits, (j + 1 - start) as int);
            }
            assert(spec_digits_value(digits) > u32::MAX);
            return None;
        }
        value = next;
        j = j + 1;
    }
    assert(digits.subrange(0, digits.len() as int) =~= digits);
    Some(value as u32)
}

} // verus!

verus! {

/// The views of a sequence of strings.
pub open spec fn string_views(parts: Seq<String>) -> Seq<Seq<char>> {
    parts.map_values(|s: String| s@)
}

/// `parts` joined with `sep` between consecutive parts (`[..].join(sep)`).
pub open spec fn spec_join(parts: Seq<Seq<char>>, sep: Seq<char>) -> Seq<char>
    decreases parts.len(),
{
    if parts.len() == 0 {
        Seq::empty()
    } else if parts.len() == 1 {
        parts[0]
    } else {
        spec_join(parts.drop_last(), sep) + sep + parts.last()
    }
}

/// Joins the strings with `sep` between consecutive ones.
pub fn join_strings(parts: &Vec<String>, sep: &str) -> (r: String)
    ensures
        r@ == spec_join(string_views(parts@), sep@),
{
    let n = parts.len();
    if n == 0 {
        return String::new();
    }
    let mut out = parts[0].clone();
    let mut i: usize = 1;
    assert(string_views(parts@).take(1) =~= seq![parts@[0]@]);
    while i < n
        invariant
            n == parts@.len(),
            1 <= i <= n,
            out@ == spec_join(string_views(parts@).take(i as int), sep@),
        decreases n - i,
    {
        out = out.concat(sep).concat(parts[i].as_str());
        proof {
            let t = string_views(parts@).take(i + 1);
            assert(t.drop_last() =~= string_views(parts@).take(i as int));
            assert(t.last() == parts@[i as int]@);
        }
        i = i + 1;
    }
    assert(string_views(parts@).take(n as int) =~= string_views(parts@));
    out
}

} // verus!

verus! {

/// Index of the first `c` in `s`, or the length when there is none.
pub open spec fn spec_find_char(s: Seq<char>, c: char) -> int
    decreases s.len(),
{
    if s.len() == 0 {
        0
    } else if s[0] == c {
        0
    } else {
        1 + spec_find_char(s.drop_first(), c)
    }
}

pub proof fn lemma_find_char(s: Seq<char>, c: char, r: int)
    requires
        0 <= r <= s.len(),
        forall|k: int| 0 <= k < r ==> s[k] != c,
        r < s.len() ==> s[r] == c,
    ensures
        spec_find_char(s, c) == r,
    decreases r,
{
    if r > 0 {
        assert(s[0] != c);
        assert forall|k: int| 0 <= k < r - 1 implies s.drop_first()[k] != c by {
            assert(s.drop_first()[k] == s[k + 1]);
        }
        lemma_find_char(s.drop_first(), c, r - 1);
    }
}

/// A line without the `'\r'` of a `"\r\n"` ending.
pub open spec fn spec_strip_cr(line: Seq<char>) -> Seq<char> {
    if line.len() > 0 && line.last() == '\r' { line.drop_last() } else { line }
}

/// The lines of `s` as `str::lines` yields them: split at `'\n'`, a final
/// `'\n'` ends the last line, and a `"\r\n"` ending loses its `'\r'`.
pub open spec fn spec_lines(s: Seq<char>) -> Seq<Seq<char>>
    decreases s.len(),
{
    if s.len() == 0 {
        Seq::empty()
    } else {
        let i = spec_find_char(s, '\n');
        if i >= s.len() || i < 0 {
            seq![s]
        } else {
            seq![spec_strip_cr(s.subrange(0, i))] + spec_lines(s.subrange(i + 1, s.len() as int))
        }
    }
}

/// The lines of `s` (`str::lines`).
pub fn split_lines(s: &str) -> (r: Vec<String>)
    ensures
        string_views(r@) == spec_lines(s@),
{
    let chars = chars_of(s);
    let n = chars.len();
    let mut out: Vec<String> = Vec::new();
    let mut start: usize = 0;
    let mut i: usize = 0;
    assert(s@.subrange(0, n as int) =~= s@);
    while i < n
        invariant
            chars@ == s@,
            n == s@.len(),
            start <= i <= n,
            forall|k: int| start <= k < i ==> s@[k] != '\n',
            spec_lines(s@) == string_views(out@) + spec_lines(s@.subrange(start as int, n as int)),
        decreases n - i,
    {
        if chars[i] == '\n' {
            let ghost t = s@.subrange(start as int, n as int);
            proof {
                lemma_find_char(t, '\n', i - start);
                assert(t.subrange(0, i - start) =~= s@.subrange(start as int, i as int));
                assert(t.subrange(i - start + 1, t.len() as int) =~= s@.subrange(i + 1, n as int));
            }
            let mut end = i;
            if end > start && chars[end - 1] == '\r' {
                end = end - 1;
            }
            let line = string_from_range(&chars, start, end);
            proof {
                assert(line@ == spec_strip_cr(s@.subrange(start as int, i as int)));
            }
            let ghost before = string_views(out@);
            out.push(line);
            assert(string_views(out@) =~= before.push(line@));
            start = i + 1;
        }
        i = i + 1;
    }
    let ghost t = s@.subrange(start as int, n as int);
    if start < n {
        proof {
            lemma_find_char(t, '\n', t.len() as int);
        }
        let line = string_from_range(&chars, start, n);
        let ghost before = string_views(out@);
        out.push(line);
        assert(string_views(out@) =~= before.push(line@));
        assert(spec_lines(t) == seq![t]);
    } else {
        assert(t.len() == 0);
    }
    assert(string_views(out@) =~= spec_lines(s@));
    out
}

} // verus!

verus! {

/// Index of the last `c` in `s`, or -1.
pub open spec fn spec_rfind_char(s: Seq<char>, c: char) -> int
    decreases s.len(),
{
    if s.len() == 0 {
        -1
    } else if s.last() == c {
        s.len() - 1
    } else {
        spec_rfind_char(s.drop_last(), c)
    }
}

/// What follows the last `c` (all of `s` when there is none), as
/// `s.rsplit(c).next()` gives it.
pub open spec fn spec_after_last(s: Seq<char>, c: char) -> Seq<char> {
    s.subrange(spec_rfind_char(s, c) + 1, s.len() as int)
}

pub fn after_last(s: &str, c: char) -> (r: String)
    ensures
        r@ == spec_after_last(s@, c),
{
    let v = chars_of(s);
    let mut i: usize = v.len();
    assert(s@.subrange(0, i as int) =~= s@);
    while i > 0 && v[i - 1] != c
        invariant
            v@ == s@,
            i <= v@.len(),
            spec_rfind_char(s@, c) == spec_rfind_char(s@.subrange(0, i as int), c),
        decreases i,
    {
        assert(s@.subrange(0, i as int).drop_last() =~= s@.subrange(0, i - 1));
        i = i - 1;
    }
    proof {
        if i > 0 {
            assert(s@.subrange(0, i as int).last() == c);
        }
    }
    string_from_range(&v, i, v.len())
}

/// `s.split_once(c)`: what precedes and follows the first `c`.
pub open spec fn spec_split_once(s: Seq<char>, c: char) -> Option<(Seq<char>, Seq<char>)> {
    let i = spec_find_char(s, c);
    if 0 <= i < s.len() {
        Some((s.subrange(0, i), s.subrange(i + 1, s.len() as int)))
    } else {
        None
    }
}

pub fn split_once(s: &str, c: char) -> (r: Option<(String, String)>)
    ensures
        match spec_split_once(s@, c) {
            Some((a, b)) => r matches Some((x, y)) && x@ == a && y@ == b,
            None => r is None,
        },
{
    let v = chars_of(s);
    let mut i: usize = 0;
    while i < v.len() && v[i] != c
        invariant
            v@ == s@,
            i <= v@.len(),
            forall|k: int| 0 <= k < i ==> s@[k] != c,
        decreases v@.len() - i,
    {
        i = i + 1;
    }
    proof {
        lemma_find_char(s@, c, i as int);
    }
    if i < v.len() {
        Some((string_from_range(&v, 0, i), string_from_range(&v, i + 1, v.len())))
    } else {
        None
    }
}

/// Whether `c` occurs in `s`.
pub fn contains_char(s: &str, c: char) -> (r: bool)
    ensures
        r == s@.contains(c),
{
    let v = chars_of(s);
    let mut i: usize = 0;
    while i < v.len()
        invariant
            v@ == s@,
            i <= v@.len(),
            forall|k: int| 0 <= k < i ==> s@[k] != c,
        decreases v@.len() - i,
    {
        if v[i] == c {
            return true;
        }
        i = i + 1;
    }
    false
}

/// `s.strip_prefix(p)`.
pub open spec fn spec_strip_prefix(s: Seq<char>, p: Seq<char>) -> Option<Seq<char>> {
    if spec_starts_with(s, p) { Some(s.subrange(p.len() as int, s.len() as int)) } else { None }
}

pub fn strip_prefix(s: &str, p: &str) -> (r: Option<String>)
    ensures
        match spec_strip_prefix(s@, p@) {
            Some(t) => r matches Some(x) && x@ == t,
            None => r is None,
        },
{
    if !starts_with(s, p) {
        return None;
    }
    let v = chars_of(s);
    let n = p.unicode_len();
    Some(string_from_range(&v, n, v.len()))
}

} // verus!
