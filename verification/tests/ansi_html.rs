use bashers::ansi_html::{ansi_to_html, code_style, escape_html, parse_code, parse_codes, span_tag};

#[test]
fn test_ansi_to_html_plain_text() {
    assert_eq!(ansi_to_html("hello world"), "hello world");
}

#[test]
fn test_ansi_to_html_escapes_html() {
    assert_eq!(ansi_to_html("<b>test</b>"), "&lt;b&gt;test&lt;/b&gt;");
    assert_eq!(ansi_to_html("a & b"), "a &amp; b");
}

#[test]
fn test_ansi_to_html_red_text() {
    let input = "\x1b[31mERROR\x1b[0m ok";
    let output = ansi_to_html(input);
    assert!(output.contains("color:#ff3b30"));
    assert!(output.contains("ERROR"));
    assert!(output.contains("ok"));
}

#[test]
fn test_ansi_to_html_bold() {
    let input = "\x1b[1mbold\x1b[0m";
    let output = ansi_to_html(input);
    assert!(output.contains("font-weight:bold"));
    assert!(output.contains("bold"));
}

#[test]
fn test_ansi_to_html_green_text() {
    let input = "\x1b[32mSUCCESS\x1b[0m";
    let output = ansi_to_html(input);
    assert!(output.contains("color:#34c759"));
}

#[test]
fn test_ansi_to_html_combined_codes() {
    let input = "\x1b[1;31mBOLD RED\x1b[0m";
    let output = ansi_to_html(input);
    assert!(output.contains("font-weight:bold"));
    assert!(output.contains("color:#ff3b30"));
}

#[test]
fn test_ansi_to_html_bright_colors() {
    let input = "\x1b[91mbright red\x1b[0m";
    let output = ansi_to_html(input);
    assert!(output.contains("color:#ff6961"));
}

#[test]
fn test_ansi_to_html_no_unclosed_spans() {
    let input = "\x1b[31mno reset";
    let output = ansi_to_html(input);
    let opens = output.matches("<span").count();
    let closes = output.matches("</span>").count();
    assert_eq!(opens, closes);
}

#[test]
fn test_ansi_to_html_multiple_sequences() {
    let input = "\x1b[31mred\x1b[32mgreen\x1b[0mnormal";
    let output = ansi_to_html(input);
    assert!(output.contains("red"));
    assert!(output.contains("green"));
    assert!(output.contains("normal"));
    let opens = output.matches("<span").count();
    let closes = output.matches("</span>").count();
    assert_eq!(opens, closes);
}

#[test]
fn test_ansi_to_html_empty_string() {
    assert_eq!(ansi_to_html(""), "");
}

#[test]
fn a_color_sequence_opens_a_span_and_a_reset_closes_it() {
    assert_eq!(
        ansi_to_html("\x1b[31mERROR\x1b[0m ok"),
        "<span style=\"color:#ff3b30\">ERROR</span> ok"
    );
    assert_eq!(
        ansi_to_html("\x1b[1;4;96mx"),
        "<span style=\"font-weight:bold;text-decoration:underline;color:#99e5ff\">x</span>"
    );
    assert_eq!(
        ansi_to_html("\x1b[31mred\x1b[32mgreen\x1b[mplain"),
        "<span style=\"color:#ff3b30\">red</span><span style=\"color:#34c759\">green</span>plain"
    );
    assert_eq!(ansi_to_html("a\x1b[0mb\x1b[;mc"), "abc");
}

#[test]
fn codes_without_a_style_open_no_span() {
    assert_eq!(ansi_to_html("\x1b[31mred\x1b[38;5;200mplain"), "<span style=\"color:#ff3b30\">red</span>plain");
    assert_eq!(ansi_to_html("\x1b[0;1mbold"), "<span style=\"font-weight:bold\">bold</span>");
    assert_eq!(ansi_to_html("\x1b[300;31mx"), "<span style=\"color:#ff3b30\">x</span>");
    assert_eq!(ansi_to_html("\x1b[00mx"), "x");
}

#[test]
fn what_is_no_color_sequence_stays_in_the_text() {
    assert_eq!(ansi_to_html("\x1b[2Kgone"), "\x1b[2Kgone");
    assert_eq!(ansi_to_html("\x1b[31"), "\x1b[31");
    assert_eq!(ansi_to_html("\x1b"), "\x1b");
    assert_eq!(ansi_to_html("\x1b[3<m"), "\x1b[3&lt;m");
    assert_eq!(ansi_to_html("1 < 2 && 3 > 2"), "1 &lt; 2 &amp;&amp; 3 &gt; 2");
    assert_eq!(ansi_to_html("\u{e9}"), "\u{c3}\u{a9}");
}

#[test]
fn the_steps_of_the_conversion() {
    assert_eq!(escape_html(b"<&>x"), b"&lt;&amp;&gt;x".to_vec());
    assert_eq!(escape_html(b""), Vec::<u8>::new());
    let digits = b"0255256".to_vec();
    assert_eq!(parse_code(&digits, 0, 4), Some(255));
    assert_eq!(parse_code(&digits, 4, 7), None);
    assert_eq!(parse_code(&digits, 0, 7), None);
    assert_eq!(parse_code(&digits, 0, 1), Some(0));
    assert_eq!(parse_code(&digits, 3, 3), None);
    assert_eq!(parse_codes(&b"1;31;;999;007;".to_vec(), 0, 14), vec![1u8, 31, 7]);
    assert_eq!(parse_codes(&b"".to_vec(), 0, 0), Vec::<u8>::new());
    assert_eq!(parse_codes(&b"x12;3y".to_vec(), 1, 5), vec![12u8, 3]);
    assert_eq!(code_style(2), Some("opacity:0.7"));
    assert_eq!(code_style(37), code_style(90));
    assert_eq!(code_style(5), None);
    assert_eq!(code_style(0), None);
    assert_eq!(span_tag(&vec![3, 34]), "<span style=\"font-style:italic;color:#007aff\">");
    assert_eq!(span_tag(&vec![0]), "");
    assert_eq!(span_tag(&vec![]), "");
    assert_eq!(span_tag(&vec![7, 8]), "");
    assert_eq!(span_tag(&vec![0, 0]), "");
}
