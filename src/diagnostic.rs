use vstd::prelude::*;
use vstd::string::{StringExecFns, StringSliceAdditionalSpecFns};
use vstd::utf8::is_char_boundary;
use unicode_width::UnicodeWidthStr;

use crate::script::ParseError;
use crate::value::{decimal, push_char, push_decimal};

verus! {

/// How many bytes of context are shown on each side of an error.
pub const FREE_LEN: usize = 20;

/// The display width of a string in columns, with East Asian ambiguous
/// characters counted as two.
pub uninterp spec fn cjk_width(s: Seq<char>) -> nat;

/// The text of a string with its special characters escaped.
pub uninterp spec fn escaped(s: Seq<char>) -> Seq<char>;

/// Relies on `unicode_width::UnicodeWidthStr::width_cjk`: the displayed width
/// of the string, which depends on its characters alone; the empty string
/// is zero columns wide.
#[verifier::external_body]
fn display_width(s: &str) -> (r: usize)
    ensures
        r as nat == cjk_width(s@),
        s@.len() == 0 ==> r == 0,
{
    UnicodeWidthStr::width_cjk(s)
}

/// Relies on `str::escape_default`: the escaped text depends on the
/// characters alone, and nothing escapes to nothing.
#[verifier::external_body]
fn escape_default(s: &str) -> (r: String)
    ensures
        r@ == escaped(s@),
        s@.len() == 0 ==> r@.len() == 0,
{
    s.escape_default().to_string()
}

pub open spec fn repeat_char(c: char, n: nat) -> Seq<char> {
    Seq::new(n, |_i: int| c)
}

/// The line under a shown error: blanks as wide as the text before the
/// error, then carets as wide as the error itself.
pub open spec fn caret_line_spec(pre: Seq<char>, err: Seq<char>) -> Seq<char> {
    repeat_char(' ', cjk_width(pre)) + repeat_char('^', cjk_width(err))
}

/// The largest char boundary at or below `i`, counting 0 as one.
pub open spec fn floor_boundary(b: Seq<u8>, i: int) -> int
    decreases i,
{
    if i <= 0 {
        0
    } else if is_char_boundary(b, i) {
        i
    } else {
        floor_boundary(b, i - 1)
    }
}

/// The smallest char boundary at or above `i`, counting the end as one.
pub open spec fn ceil_boundary(b: Seq<u8>, i: int) -> int
    decreases b.len() - i,
{
    if i >= b.len() {
        b.len() as int
    } else if is_char_boundary(b, i) {
        i
    } else {
        ceil_boundary(b, i + 1)
    }
}

pub open spec fn min_int(a: int, b: int) -> int {
    if a <= b {
        a
    } else {
        b
    }
}

/// The byte offsets `(pre, lo, hi, post)` around an error at `start..end`:
/// the error is widened to char boundaries, and up to `FREE_LEN` bytes on
/// each side are added as context.
pub open spec fn window_spec(b: Seq<u8>, start: int, end: int) -> (int, int, int, int) {
    let len = b.len() as int;
    let lo = floor_boundary(b, min_int(start, len));
    let hi0 = ceil_boundary(b, min_int(end, len));
    let hi = if hi0 < lo {
        lo
    } else {
        hi0
    };
    let pre = floor_boundary(b, lo - min_int(lo, FREE_LEN as int));
    let post = ceil_boundary(b, hi + min_int(len - hi, FREE_LEN as int));
    (pre, lo, hi, post)
}

fn floor_char_boundary(text: &str, i: usize) -> (r: usize)
    requires
        i <= text.spec_bytes().len(),
    ensures
        r as int == floor_boundary(text.spec_bytes(), i as int),
{
    let mut j = i;
    while j > 0 && !text.is_char_boundary(j)
        invariant
            j <= i,
            floor_boundary(text.spec_bytes(), i as int) == floor_boundary(
                text.spec_bytes(),
                j as int,
            ),
        decreases j,
    {
        j = j - 1;
    }
    j
}

fn ceil_char_boundary(text: &str, i: usize) -> (r: usize)
    requires
        i <= text.spec_bytes().len(),
    ensures
        r as int == ceil_boundary(text.spec_bytes(), i as int),
{
    let len = text.as_bytes().len();
    let mut j = i;
    while j < len && !text.is_char_boundary(j)
        invariant
            i <= j <= len,
            len == text.spec_bytes().len(),
            ceil_boundary(text.spec_bytes(), i as int) == ceil_boundary(
                text.spec_bytes(),
                j as int,
            ),
        decreases len - j,
    {
        j = j + 1;
    }
    j
}

/// The byte offsets of the context and of the error span, as `window_spec`
/// describes them.
pub fn error_window(text: &str, start: usize, end: usize) -> (r: (usize, usize, usize, usize))
    ensures
        (r.0 as int, r.1 as int, r.2 as int, r.3 as int) == window_spec(
            text.spec_bytes(),
            start as int,
            end as int,
        ),
        r.0 <= r.1 <= r.2 <= r.3 <= text.spec_bytes().len(),
{
    let len = text.as_bytes().len();
    let lo = floor_char_boundary(text, if start <= len { start } else { len });
    let hi0 = ceil_char_boundary(text, if end <= len { end } else { len });
    proof {
        floor_le(text.spec_bytes(), min_int(start as int, len as int));
        ceil_ge(text.spec_bytes(), min_int(end as int, len as int));
    }
    let hi = if hi0 < lo { lo } else { hi0 };
    let back = if lo <= FREE_LEN { lo } else { FREE_LEN };
    let pre = floor_char_boundary(text, lo - back);
    let ahead = if len - hi <= FREE_LEN { len - hi } else { FREE_LEN };
    let post = ceil_char_boundary(text, hi + ahead);
    proof {
        floor_le(text.spec_bytes(), lo - back);
        ceil_ge(text.spec_bytes(), hi + ahead);
    }
    (pre, lo, hi, post)
}

proof fn floor_le(b: Seq<u8>, i: int)
    ensures
        0 <= floor_boundary(b, i),
        i >= 0 ==> floor_boundary(b, i) <= i,
    decreases i,
{
    if i > 0 {
        floor_le(b, i - 1);
    }
}

proof fn ceil_ge(b: Seq<u8>, i: int)
    requires
        i <= b.len(),
    ensures
        i <= ceil_boundary(b, i) <= b.len(),
    decreases b.len() - i,
{
    if i < b.len() {
        ceil_ge(b, i + 1);
    }
}

/// The bytes `a..b` of `text`, where both ends are char boundaries; else as
/// much of the text as can be cut on boundaries.
fn slice(text: &str, a: usize, b: usize) -> (r: &str)
    requires
        a <= b <= text.spec_bytes().len(),
    ensures
        cut_of(text, a as int, b as int, r),
{
    if text.is_char_boundary(a) {
        let (_, tail) = text.split_at(a);
        if tail.is_char_boundary(b - a) {
            let (mid, _) = tail.split_at(b - a);
            assert(mid.spec_bytes() =~= text.spec_bytes().subrange(a as int, b as int));
            mid
        } else {
            tail
        }
    } else {
        text
    }
}

/// `piece` is the bytes `a..b` of `text`, wherever `a` is a char boundary of
/// `text` and `b` one of the rest of the text after `a`.
pub open spec fn cut_of(text: &str, a: int, b: int, piece: &str) -> bool {
    let bytes = text.spec_bytes();
    (is_char_boundary(bytes, a) && is_char_boundary(bytes.subrange(a, bytes.len() as int), b - a))
        ==> piece.spec_bytes() == bytes.subrange(a, b)
}

/// The line of blanks and carets that marks an error: as many columns of
/// blanks as `pre` is wide on screen, then as many carets as `err` is wide.
pub fn caret_line(pre: &str, err: &str) -> (r: String)
    ensures
        r@ == caret_line_spec(pre@, err@),
{
    let w1 = display_width(pre);
    let w2 = display_width(err);
    let mut out = String::new();
    let mut i: usize = 0;
    while i < w1
        invariant
            i <= w1,
            out@ == repeat_char(' ', i as nat),
        decreases w1 - i,
    {
        push_char(&mut out, ' ');
        i = i + 1;
        assert(out@ =~= repeat_char(' ', i as nat));
    }
    let mut j: usize = 0;
    while j < w2
        invariant
            j <= w2,
            out@ == repeat_char(' ', w1 as nat) + repeat_char('^', j as nat),
        decreases w2 - j,
    {
        push_char(&mut out, '^');
        j = j + 1;
        assert(out@ =~= repeat_char(' ', w1 as nat) + repeat_char('^', j as nat));
    }
    out
}

/// A paragraph title as a report shows it.
pub open spec fn shown_title(title: Option<&String>) -> Seq<char> {
    match title {
        Some(t) => escaped(t@),
        None => Seq::<char>::empty(),
    }
}

/// The report of a parse error: where it is, the code around it, and a line
/// of carets under the error.
pub open spec fn report_spec(
    title: Seq<char>,
    act: nat,
    show: Seq<char>,
    pre: Seq<char>,
    err: Seq<char>,
    message: Seq<char>,
) -> Seq<char> {
    "Parse error on paragraph \""@ + title + "\", act "@ + decimal(act) + ":\n    "@ + show
        + "\n    "@ + caret_line_spec(pre, err) + "\n"@ + message + "\n"@
}

/// Renders a parse error of `text` for the paragraph titled `title` (shown
/// escaped, or empty where there is none) at 0-based line `act`. The caret
/// line is measured in display columns, so that it stands under the error
/// whatever the width of the characters before it.
pub fn rich_error(text: &str, e: &ParseError, title: Option<&String>, act: usize) -> (r: String)
    requires
        act < usize::MAX,
    ensures
        ({
            let w = window_spec(text.spec_bytes(), e.loc.0 as int, e.loc.1 as int);
            exists|show: &str, pre: &str, err: &str|
                #![trigger cut_of(text, w.0, w.3, show), cut_of(text, w.0, w.1, pre), cut_of(text, w.1, w.2, err)]
                cut_of(text, w.0, w.3, show) && cut_of(text, w.0, w.1, pre) && cut_of(
                    text,
                    w.1,
                    w.2,
                    err,
                ) && r@ == report_spec(
                    shown_title(title),
                    act as nat + 1,
                    show@,
                    pre@,
                    err@,
                    e.message@,
                )
        }),
{
    let (pre, lo, hi, post) = error_window(text, e.loc.0, e.loc.1);
    let show_code = slice(text, pre, post);
    let pre_code = slice(text, pre, lo);
    let error_code = slice(text, lo, hi);
    let para_name = match title {
        Some(t) => escape_default(t.as_str()),
        None => String::new(),
    };
    let mut out = String::from_str("Parse error on paragraph \"");
    out.append(para_name.as_str());
    out.append("\", act ");
    push_decimal(&mut out, (act + 1) as u64);
    out.append(":\n    ");
    out.append(show_code);
    out.append("\n    ");
    let carets = caret_line(pre_code, error_code);
    out.append(carets.as_str());
    out.append("\n");
    out.append(e.message.as_str());
    out.append("\n");
    assert(para_name@ == shown_title(title));
    assert(out@ =~= report_spec(
        shown_title(title),
        act as nat + 1,
        show_code@,
        pre_code@,
        error_code@,
        e.message@,
    ));
    out
}

} // verus!
