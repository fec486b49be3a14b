//! Turning a log line with terminal colors into HTML.
//!
//! The line is read byte by byte. The characters that HTML gives a meaning
//! to are escaped, each color sequence opens a styled span, and a reset
//! closes it. A byte that belongs to no sequence becomes the character
//! with its number.

use crate::text::push_char;
use vstd::prelude::*;
use vstd::string::{StrSliceExecFns, StringExecFns, StringSliceAdditionalSpecFns};

verus! {

/// The bytes that stand for byte `b` in HTML.
pub open spec fn escaped_byte(b: u8) -> Seq<u8> {
    if b == 0x26 {
        seq![0x26u8, 0x61u8, 0x6du8, 0x70u8, 0x3bu8]
    } else if b == 0x3c {
        seq![0x26u8, 0x6cu8, 0x74u8, 0x3bu8]
    } else if b == 0x3e {
        seq![0x26u8, 0x67u8, 0x74u8, 0x3bu8]
    } else {
        seq![b]
    }
}

/// The bytes `b[i..]` with `&`, `<` and `>` escaped.
pub open spec fn escape_html_from(b: Seq<u8>, i: int) -> Seq<u8>
    decreases b.len() - i,
{
    if 0 <= i < b.len() {
        escaped_byte(b[i]) + escape_html_from(b, i + 1)
    } else {
        Seq::<u8>::empty()
    }
}

/// Whether `b` may stand between the bracket and the `m` of a color
/// sequence: a digit or a semicolon.
pub open spec fn is_param(b: u8) -> bool {
    (0x30 <= b <= 0x39) || b == 0x3b
}

/// The first index at or after `i` that holds no parameter byte.
pub open spec fn params_end(e: Seq<u8>, i: int) -> int
    decreases e.len() - i,
{
    if 0 <= i < e.len() && is_param(e[i]) {
        params_end(e, i + 1)
    } else {
        i
    }
}

/// Whether a color sequence starts at index `i`: escape, bracket,
/// parameters, `m`.
pub open spec fn sequence_at(e: Seq<u8>, i: int) -> bool {
    &&& 0 <= i
    &&& i + 1 < e.len()
    &&& e[i] == 0x1b
    &&& e[i + 1] == 0x5b
    &&& params_end(e, i + 2) < e.len()
    &&& e[params_end(e, i + 2)] == 0x6d
}

/// The first index in `i..end` that holds a semicolon, or `end`.
pub open spec fn piece_end(e: Seq<u8>, i: int, end: int) -> int
    decreases end - i,
{
    if 0 <= i < end <= e.len() && e[i] != 0x3b {
        piece_end(e, i + 1, end)
    } else {
        i
    }
}

/// The number that the digits `e[i..j]` write.
pub open spec fn digits_value(e: Seq<u8>, i: int, j: int) -> nat
    decreases j - i,
{
    if 0 <= i < j <= e.len() {
        digits_value(e, i, j - 1) * 10 + (e[j - 1] - 0x30) as nat
    } else {
        0
    }
}

/// The code that the digits `e[i..j]` write: none where there is no digit
/// or the number is beyond 255.
pub open spec fn code_of(e: Seq<u8>, i: int, j: int) -> Option<u8> {
    if i < j && digits_value(e, i, j) <= 255 {
        Some(digits_value(e, i, j) as u8)
    } else {
        None
    }
}

/// The codes of the parameters `e[i..end]`, which semicolons separate.
pub open spec fn codes_from(e: Seq<u8>, i: int, end: int) -> Seq<u8>
    decreases end + 1 - i,
{
    if 0 <= i <= end <= e.len() {
        let j = piece_end(e, i, end);
        let rest = if i <= j < end {
            codes_from(e, j + 1, end)
        } else {
            Seq::<u8>::empty()
        };
        match code_of(e, i, j) {
            Some(code) => seq![code] + rest,
            None => rest,
        }
    } else {
        Seq::<u8>::empty()
    }
}

/// The style that a color code stands for.
pub open spec fn style_of(code: u8) -> Option<Seq<char>> {
    if code == 1 {
        Some("font-weight:bold"@)
    } else if code == 2 {
        Some("opacity:0.7"@)
    } else if code == 3 {
        Some("font-style:italic"@)
    } else if code == 4 {
        Some("text-decoration:underline"@)
    } else if code == 30 {
        Some("color:#1d1d1f"@)
    } else if code == 31 {
        Some("color:#ff3b30"@)
    } else if code == 32 {
        Some("color:#34c759"@)
    } else if code == 33 {
        Some("color:#ff9500"@)
    } else if code == 34 {
        Some("color:#007aff"@)
    } else if code == 35 {
        Some("color:#af52de"@)
    } else if code == 36 {
        Some("color:#5ac8fa"@)
    } else if code == 37 || code == 90 {
        Some("color:#8e8e93"@)
    } else if code == 91 {
        Some("color:#ff6961"@)
    } else if code == 92 {
        Some("color:#77dd77"@)
    } else if code == 93 {
        Some("color:#fdfd96"@)
    } else if code == 94 {
        Some("color:#89cff0"@)
    } else if code == 95 {
        Some("color:#c3b1e1"@)
    } else if code == 96 {
        Some("color:#99e5ff"@)
    } else if code == 97 {
        Some("color:#f5f5f7"@)
    } else {
        None
    }
}

/// The styles of `codes[k..]`, each behind a semicolon unless it is the
/// first to be written.
pub open spec fn styles_from(codes: Seq<u8>, k: int, first: bool) -> Seq<char>
    decreases codes.len() - k,
{
    if 0 <= k < codes.len() {
        match style_of(codes[k]) {
            Some(style) => (if first {
                Seq::<char>::empty()
            } else {
                ";"@
            }) + style + styles_from(codes, k + 1, false),
            None => styles_from(codes, k + 1, first),
        }
    } else {
        Seq::<char>::empty()
    }
}

/// The tag that opens the span for `codes`; empty where the codes are a
/// reset or stand for no style.
pub open spec fn span_for(codes: Seq<u8>) -> Seq<char> {
    if codes.len() == 0 || codes == seq![0u8] || styles_from(codes, 0, true).len() == 0 {
        Seq::<char>::empty()
    } else {
        "<span style=\""@ + styles_from(codes, 0, true) + "\">"@
    }
}

/// The tag that closes an open span.
pub open spec fn closing(open: bool) -> Seq<char> {
    if open {
        "</span>"@
    } else {
        Seq::<char>::empty()
    }
}

/// The HTML for the escaped bytes `e[i..]`, with a span open or not.
pub open spec fn render_from(e: Seq<u8>, i: int, open: bool) -> Seq<char>
    decreases e.len() - i,
{
    if 0 <= i < e.len() {
        if sequence_at(e, i) && i + 2 <= params_end(e, i + 2) {
            let end = params_end(e, i + 2);
            let span = span_for(codes_from(e, i + 2, end));
            closing(open) + span + render_from(e, end + 1, span.len() > 0)
        } else {
            seq![e[i] as char] + render_from(e, i + 1, open)
        }
    } else {
        closing(open)
    }
}

/// The HTML for a line whose bytes are `bytes`.
pub open spec fn html_of(bytes: Seq<u8>) -> Seq<char> {
    render_from(escape_html_from(bytes, 0), 0, false)
}

/// The bytes of `line` with `&`, `<` and `>` escaped.
pub fn escape_html(bytes: &[u8]) -> (e: Vec<u8>)
    ensures
        e@ == escape_html_from(bytes@, 0),
{
    let mut e: Vec<u8> = Vec::new();
    let mut i: usize = 0;
    while i < bytes.len()
        invariant
            i <= bytes.len(),
            escape_html_from(bytes@, 0) == e@ + escape_html_from(bytes@, i as int),
        decreases bytes.len() - i,
    {
        let b = bytes[i];
        if b == 0x26 {
            e.push(0x26);
            e.push(0x61);
            e.push(0x6d);
            e.push(0x70);
            e.push(0x3b);
        } else if b == 0x3c {
            e.push(0x26);
            e.push(0x6c);
            e.push(0x74);
            e.push(0x3b);
        } else if b == 0x3e {
            e.push(0x26);
            e.push(0x67);
            e.push(0x74);
            e.push(0x3b);
        } else {
            e.push(b);
        }
        i += 1;
    }
    e
}

/// The code that the digits `e[i..j]` write.
pub fn parse_code(e: &Vec<u8>, i: usize, j: usize) -> (code: Option<u8>)
    requires
        i <= j <= e.len(),
        forall|k: int| i <= k < j ==> 0x30 <= #[trigger] e@[k] <= 0x39,
    ensures
        code == code_of(e@, i as int, j as int),
{
    if i >= j {
        return None;
    }
    let mut value: u16 = 0;
    let mut k: usize = i;
    while k < j
        invariant
            i <= k <= j <= e.len(),
            i < j,
            forall|n: int| i <= n < j ==> 0x30 <= #[trigger] e@[n] <= 0x39,
            value == digits_value(e@, i as int, k as int),
            value <= 255,
        decreases j - k,
    {
        let d: u16 = (e[k] - 0x30) as u16;
        if value * 10 + d > 255 {
            proof {
                lemma_digits_value_grows(e@, i as int, k + 1, j as int);
            }
            return None;
        }
        value = value * 10 + d;
        k += 1;
    }
    Some(value as u8)
}

/// The digits of a longer stretch write no smaller number.
proof fn lemma_digits_value_grows(e: Seq<u8>, i: int, k: int, j: int)
    requires
        0 <= i <= k <= j <= e.len(),
        forall|n: int| i <= n < j ==> 0x30 <= #[trigger] e[n] <= 0x39,
    ensures
        digits_value(e, i, k) <= digits_value(e, i, j),
    decreases j - k,
{
    if k < j {
        lemma_digits_value_grows(e, i, k, j - 1);
    }
}

/// The codes of the parameters `e[start..end]`.
pub fn parse_codes(e: &Vec<u8>, start: usize, end: usize) -> (codes: Vec<u8>)
    requires
        start <= end <= e.len(),
        forall|k: int| start <= k < end ==> is_param(#[trigger] e@[k]),
    ensures
        codes@ == codes_from(e@, start as int, end as int),
{
    let mut codes: Vec<u8> = Vec::new();
    let mut i: usize = start;
    let mut done: bool = false;
    while !done
        invariant
            start <= i <= end <= e.len(),
            forall|k: int| start <= k < end ==> is_param(#[trigger] e@[k]),
            !done ==> codes_from(e@, start as int, end as int) == codes@ + codes_from(
                e@,
                i as int,
                end as int,
            ),
            done ==> codes_from(e@, start as int, end as int) == codes@,
        decreases if done { 0 } else { end + 1 - i },
    {
        let mut j: usize = i;
        while j < end && e[j] != 0x3b
            invariant
                i <= j <= end <= e.len(),
                piece_end(e@, j as int, end as int) == piece_end(e@, i as int, end as int),
                forall|k: int| start <= k < end ==> is_param(#[trigger] e@[k]),
                start <= i,
                forall|k: int| i <= k < j ==> 0x30 <= #[trigger] e@[k] <= 0x39,
            decreases end - j,
        {
            j += 1;
        }
        if let Some(code) = parse_code(e, i, j) {
            codes.push(code);
        }
        if j < end {
            i = j + 1;
        } else {
            done = true;
        }
    }
    codes
}

/// The style that a color code stands for.
pub fn code_style(code: u8) -> (style: Option<&'static str>)
    ensures
        match style {
            Some(text) => style_of(code) == Some(text@),
            None => style_of(code) is None,
        },
{
    if code == 1 {
        Some("font-weight:bold")
    } else if code == 2 {
        Some("opacity:0.7")
    } else if code == 3 {
        Some("font-style:italic")
    } else if code == 4 {
        Some("text-decoration:underline")
    } else if code == 30 {
        Some("color:#1d1d1f")
    } else if code == 31 {
        Some("color:#ff3b30")
    } else if code == 32 {
        Some("color:#34c759")
    } else if code == 33 {
        Some("color:#ff9500")
    } else if code == 34 {
        Some("color:#007aff")
    } else if code == 35 {
        Some("color:#af52de")
    } else if code == 36 {
        Some("color:#5ac8fa")
    } else if code == 37 || code == 90 {
        Some("color:#8e8e93")
    } else if code == 91 {
        Some("color:#ff6961")
    } else if code == 92 {
        Some("color:#77dd77")
    } else if code == 93 {
        Some("color:#fdfd96")
    } else if code == 94 {
        Some("color:#89cff0")
    } else if code == 95 {
        Some("color:#c3b1e1")
    } else if code == 96 {
        Some("color:#99e5ff")
    } else if code == 97 {
        Some("color:#f5f5f7")
    } else {
        None
    }
}

/// The tag that opens the span for `codes`; empty where the codes are a
/// reset or stand for no style.
pub fn span_tag(codes: &Vec<u8>) -> (tag: String)
    ensures
        tag@ == span_for(codes@),
{
    if codes.len() == 0 || (codes.len() == 1 && codes[0] == 0) {
        assert(codes@.len() == 1 && codes@[0] == 0 ==> codes@ =~= seq![0u8]);
        return String::new();
    }
    assert(codes@ != seq![0u8]);
    let mut styles = String::new();
    let mut first: bool = true;
    let mut k: usize = 0;
    while k < codes.len()
        invariant
            k <= codes.len(),
            first == (styles@.len() == 0),
            styles_from(codes@, 0, true) == styles@ + styles_from(codes@, k as int, first),
        decreases codes.len() - k,
    {
        if let Some(style) = code_style(codes[k]) {
            proof {
                lemma_style_has_text(codes@[k as int]);
            }
            if !first {
                styles.append(";");
            }
            styles.append(style);
            first = false;
        }
        k += 1;
    }
    if first {
        String::new()
    } else {
        let mut tag = String::from_str("<span style=\"");
        tag.append(styles.as_str());
        tag.append("\">");
        tag
    }
}

/// Every style has text.
proof fn lemma_style_has_text(code: u8)
    ensures
        style_of(code) matches Some(style) ==> style.len() > 0,
{
    reveal_strlit("font-weight:bold");
    reveal_strlit("opacity:0.7");
    reveal_strlit("font-style:italic");
    reveal_strlit("text-decoration:underline");
    reveal_strlit("color:#1d1d1f");
    reveal_strlit("color:#ff3b30");
    reveal_strlit("color:#34c759");
    reveal_strlit("color:#ff9500");
    reveal_strlit("color:#007aff");
    reveal_strlit("color:#af52de");
    reveal_strlit("color:#5ac8fa");
    reveal_strlit("color:#8e8e93");
    reveal_strlit("color:#ff6961");
    reveal_strlit("color:#77dd77");
    reveal_strlit("color:#fdfd96");
    reveal_strlit("color:#89cff0");
    reveal_strlit("color:#c3b1e1");
    reveal_strlit("color:#99e5ff");
    reveal_strlit("color:#f5f5f7");
}

/// The HTML for a log line: `&`, `<` and `>` are escaped, each color
/// sequence closes the span before it and opens one with its styles, a
/// reset only closes, and a span that is still open at the end is closed.
pub fn ansi_to_html(line: &str) -> (html: String)
    ensures
        html@ == html_of(line.spec_bytes()),
{
    let e = escape_html(line.as_bytes());
    let mut html = String::new();
    let mut open: bool = false;
    let mut i: usize = 0;
    while i < e.len()
        invariant
            i <= e.len(),
            html_of(line.spec_bytes()) == html@ + render_from(e@, i as int, open),
        decreases e.len() - i,
    {
        if e[i] == 0x1b && i + 1 < e.len() && e[i + 1] == 0x5b {
            let start: usize = i + 2;
            let mut end: usize = start;
            while end < e.len() && ((0x30 <= e[end] && e[end] <= 0x39) || e[end] == 0x3b)
                invariant
                    start <= end <= e.len(),
                    params_end(e@, end as int) == params_end(e@, start as int),
                    forall|k: int| start <= k < end ==> is_param(#[trigger] e@[k]),
                decreases e.len() - end,
            {
                end += 1;
            }
            if end < e.len() && e[end] == 0x6d {
                let codes = parse_codes(&e, start, end);
                let tag = span_tag(&codes);
                if open {
                    html.append("</span>");
                }
                html.append(tag.as_str());
                open = tag.as_str().unicode_len() > 0;
                i = end + 1;
                continue;
            }
        }
        push_char(&mut html, e[i] as char);
        i += 1;
    }
    if open {
        html.append("</span>");
    }
    html
}

} // verus!
