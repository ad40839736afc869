//! Locations of configuration errors and their rendering with source context.
use vstd::prelude::*;
use vstd::utf8::encode_utf8;

use crate::text::{
    decimal, decimal_spec, extend_chars, extend_str, from_chars, lines, lines_spec, repeat_char,
    repeat_spec, to_chars, trim_end, trim_end_spec, vviews,
};

verus! {

/// A 1-based line and column.
#[derive(Debug, Clone, Copy, PartialEq, Eq, Structural)]
pub struct TextPosition {
    pub line: usize,
    pub column: usize,
}

/// A range of positions.
#[derive(Debug, Clone, Copy, PartialEq, Eq, Structural)]
pub struct TextRange {
    pub start: TextPosition,
    pub end: TextPosition,
}

/// A configuration error with its file and location.
#[derive(Debug, Clone)]
pub struct ConfigError {
    pub path: String,
    pub range: TextRange,
    pub message: String,
}

impl ConfigError {
    /// An error in `path` at `range`.
    pub fn new(path: String, range: TextRange, message: String) -> (r: Self)
        ensures
            r.path == path,
            r.range == range,
            r.message == message,
    {
        ConfigError { path, range, message }
    }
}

/// How many of the first `n` bytes are line feeds.
pub open spec fn newlines_before(bytes: Seq<u8>, n: int) -> nat
    decreases n,
{
    if n <= 0 {
        0
    } else {
        newlines_before(bytes, n - 1) + if bytes[n - 1] == 10 {
            1nat
        } else {
            0nat
        }
    }
}

/// Start of the line holding byte `n`: just past the last line feed before it.
pub open spec fn line_start_before(bytes: Seq<u8>, n: int) -> int
    decreases n,
{
    if n <= 0 {
        0
    } else if bytes[n - 1] == 10 {
        n
    } else {
        line_start_before(bytes, n - 1)
    }
}

/// The line and column of byte `index` of `text` (clamped to the last byte;
/// `1:1` for empty text). Columns count bytes.
pub open spec fn position_spec(text: Seq<char>, index: int) -> TextPosition {
    let bytes = encode_utf8(text);
    if bytes.len() == 0 {
        TextPosition { line: 1, column: 1 }
    } else {
        let safe = if index < bytes.len() - 1 {
            index
        } else {
            bytes.len() - 1
        };
        let start = line_start_before(bytes, safe);
        TextPosition {
            line: (newlines_before(bytes, start) + 1) as usize,
            column: (safe - start + 1) as usize,
        }
    }
}

proof fn lemma_line_start(bytes: Seq<u8>, n: int)
    requires
        0 <= n <= bytes.len(),
    ensures
        0 <= line_start_before(bytes, n) <= n,
        newlines_before(bytes, line_start_before(bytes, n)) <= line_start_before(bytes, n),
    decreases n,
{
    if n > 0 {
        lemma_line_start(bytes, n - 1);
    }
    lemma_newlines_bound(bytes, line_start_before(bytes, n));
}

proof fn lemma_newlines_bound(bytes: Seq<u8>, n: int)
    ensures
        n >= 0 ==> newlines_before(bytes, n) <= n,
    decreases n,
{
    if n > 0 {
        lemma_newlines_bound(bytes, n - 1);
    }
}

/// The line and column of a byte offset.
pub fn position_for_offset(contents: &str, index: usize) -> (r: TextPosition)
    ensures
        r == position_spec(contents@, index as int),
{
    let bytes = contents.as_bytes();
    proof {
        vstd::slice::axiom_spec_len(bytes);
    }
    let ghost b = encode_utf8(contents@);
    assert(bytes@ == b);
    if bytes.len() == 0 {
        return TextPosition { line: 1, column: 1 };
    }
    let safe = if index < bytes.len() - 1 {
        index
    } else {
        bytes.len() - 1
    };
    let mut start: usize = safe;
    while start > 0 && bytes[start - 1] != 10u8
        invariant
            start <= safe,
            safe < b.len(),
            bytes@ == b,
            line_start_before(b, safe as int) == line_start_before(b, start as int),
        decreases start,
    {
        start = start - 1;
    }
    let mut count: usize = 0;
    let mut i: usize = 0;
    proof {
        lemma_line_start(b, safe as int);
    }
    while i < start
        invariant
            i <= start,
            start <= safe,
            safe < b.len(),
            bytes@ == b,
            count == newlines_before(b, i as int),
            count <= i,
        decreases start - i,
    {
        if bytes[i] == 10u8 {
            count = count + 1;
        }
        i = i + 1;
    }
    TextPosition { line: count + 1, column: safe - start + 1 }
}

/// The range of a byte span: from its first byte to its last (to its start
/// when it is empty).
pub open spec fn span_range(text: Seq<char>, start: int, end: int) -> TextRange {
    TextRange {
        start: position_spec(text, start),
        end: position_spec(
            text,
            if end > start {
                end - 1
            } else {
                end
            },
        ),
    }
}

/// The text range of a byte span.
pub fn text_range_from_span(contents: &str, span: std::ops::Range<usize>) -> (r: TextRange)
    ensures
        r == span_range(contents@, span.start as int, span.end as int),
{
    let start = position_for_offset(contents, span.start);
    let end_index = if span.end > span.start {
        span.end - 1
    } else {
        span.end
    };
    let end = position_for_offset(contents, end_index);
    TextRange { start, end }
}

/// The range used when an error has no location: `1:1` to `1:1`.
pub fn default_range() -> (r: TextRange)
    ensures
        r == (TextRange {
            start: TextPosition { line: 1, column: 1 },
            end: TextPosition { line: 1, column: 1 },
        }),
{
    let p = TextPosition { line: 1, column: 1 };
    TextRange { start: p, end: p }
}

/// `s` without its trailing carriage returns.
pub open spec fn trim_end_cr(s: Seq<char>) -> Seq<char>
    decreases s.len(),
{
    if s.len() > 0 && s.last() == '\r' {
        trim_end_cr(s.drop_last())
    } else {
        s
    }
}

/// Width of the underline: the columns of a one-line range, else one.
pub open spec fn highlight_width(range: TextRange) -> nat {
    if range.end.line == range.start.line && range.end.column >= range.start.column {
        (range.end.column - range.start.column + 1) as nat
    } else {
        1
    }
}

/// The error rendered with its source line: `path:line:column: message`, then
/// the numbered line and a caret underline; only the first line when the line
/// is not in `contents`. Trailing whitespace is removed.
pub open spec fn formatted_error(e: ConfigError, contents: Seq<char>) -> Seq<char> {
    let start = e.range.start;
    let header = e.path@ + ":"@ + decimal_spec(start.line as nat) + ":"@ + decimal_spec(
        start.column as nat,
    ) + ": "@ + e.message@ + "\n"@;
    let index = if start.line > 0 {
        start.line - 1
    } else {
        0
    };
    let ls = lines_spec(contents);
    if index >= ls.len() {
        trim_end_spec(header)
    } else {
        let number = decimal_spec(start.line as nat);
        let gutter = repeat_spec(' ', number.len());
        let spaces = repeat_spec(' ', (if start.column > 0 { start.column - 1 } else { 0 }) as nat);
        trim_end_spec(
            header + gutter + " |\n"@ + number + " | "@ + trim_end_cr(ls[index]) + "\n"@ + gutter
                + " | "@ + spaces + repeat_spec('^', highlight_width(e.range)) + "\n"@,
        )
    }
}

/// Removes trailing carriage returns.
fn trim_end_cr_exec(s: &Vec<char>) -> (r: Vec<char>)
    ensures
        r@ == trim_end_cr(s@),
{
    let mut n = s.len();
    assert(s@.take(n as int) =~= s@);
    while n > 0 && s[n - 1] == '\r'
        invariant
            n <= s@.len(),
            trim_end_cr(s@) == trim_end_cr(s@.take(n as int)),
        decreases n,
    {
        assert(s@.take(n as int).drop_last() =~= s@.take(n - 1));
        n = n - 1;
    }
    assert(trim_end_cr(s@.take(n as int)) == s@.take(n as int));
    crate::text::sub_chars(s.as_slice(), 0, n)
}

/// Renders an error with a line of source context and a caret underline.
pub fn format_config_error(error: &ConfigError, contents: &str) -> (r: String)
    requires
        error.range.end.line == error.range.start.line && error.range.end.column
            >= error.range.start.column ==> error.range.end.column - error.range.start.column
            < usize::MAX,
    ensures
        r@ == formatted_error(*error, contents@),
{
    let start = error.range.start;
    let mut out = to_chars(error.path.as_str());
    extend_str(&mut out, ":");
    let line_digits = decimal(start.line as u64);
    extend_chars(&mut out, line_digits.as_slice());
    extend_str(&mut out, ":");
    let col_digits = decimal(start.column as u64);
    extend_chars(&mut out, col_digits.as_slice());
    extend_str(&mut out, ": ");
    extend_str(&mut out, error.message.as_str());
    extend_str(&mut out, "\n");
    let line_index = start.line.saturating_sub(1);
    let chars = to_chars(contents);
    let ls = lines(chars.as_slice());
    if line_index >= ls.len() {
        let t = trim_end(out.as_slice());
        return from_chars(t.as_slice());
    }
    let line = trim_end_cr_exec(&ls[line_index]);
    let gutter = repeat_char(' ', line_digits.len());
    extend_chars(&mut out, gutter.as_slice());
    extend_str(&mut out, " |\n");
    extend_chars(&mut out, line_digits.as_slice());
    extend_str(&mut out, " | ");
    extend_chars(&mut out, line.as_slice());
    extend_str(&mut out, "\n");
    let highlight_len = if error.range.end.line == error.range.start.line
        && error.range.end.column >= error.range.start.column {
        error.range.end.column - error.range.start.column + 1
    } else {
        1
    };
    let spaces = repeat_char(' ', start.column.saturating_sub(1));
    let carets = repeat_char('^', highlight_len);
    extend_chars(&mut out, gutter.as_slice());
    extend_str(&mut out, " | ");
    extend_chars(&mut out, spaces.as_slice());
    extend_chars(&mut out, carets.as_slice());
    extend_str(&mut out, "\n");
    proof {
        assert(vviews(ls@)[line_index as int] == ls@[line_index as int]@);
    }
    let t = trim_end(out.as_slice());
    from_chars(t.as_slice())
}

} // verus!
