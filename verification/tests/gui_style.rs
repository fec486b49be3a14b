use bashers::gui_theme::{
    global_css, ACCENT, BG_MAIN, BG_SIDEBAR, BORDER, ERROR, FONT_STACK, SUCCESS, TEXT_PRIMARY,
    TEXT_SECONDARY, WARNING,
};

#[test]
fn test_global_css_contains_key_styles() {
    let css = global_css();
    assert!(css.contains(BG_MAIN));
    assert!(css.contains(BG_SIDEBAR));
    assert!(css.contains(ACCENT));
    assert!(css.contains(FONT_STACK));
}

#[test]
fn test_global_css_contains_spinner() {
    let css = global_css();
    assert!(css.contains("@keyframes spin"));
    assert!(css.contains(".spinner"));
}

#[test]
fn test_global_css_contains_close_btn() {
    let css = global_css();
    assert!(css.contains(".close-btn"));
}

#[test]
fn test_global_css_contains_splitter() {
    let css = global_css();
    assert!(css.contains(".splitter"));
    assert!(css.contains(".splitter-h"));
    assert!(css.contains("col-resize"));
}

#[test]
fn test_global_css_contains_log_header() {
    let css = global_css();
    assert!(css.contains(".log-header"));
}

#[test]
fn test_global_css_contains_pinned_indicator() {
    let css = global_css();
    assert!(css.contains(".pinned-indicator"));
}

#[test]
fn test_global_css_contains_dark_mode() {
    let css = global_css();
    assert!(css.contains(".dark"));
    assert!(css.contains("--bg-main"));
    assert!(css.contains("--text-primary"));
    assert!(css.contains("--accent"));
}

#[test]
fn test_global_css_contains_theme_toggle() {
    let css = global_css();
    assert!(css.contains(".theme-toggle"));
}

#[test]
fn test_constants_are_valid_hex_colors() {
    let colors = [
        BG_MAIN,
        BG_SIDEBAR,
        TEXT_PRIMARY,
        TEXT_SECONDARY,
        ACCENT,
        SUCCESS,
        ERROR,
        WARNING,
        BORDER,
    ];
    for c in colors {
        assert!(c.starts_with('#'), "Color {c} should start with #");
        assert!(c.len() == 7, "Color {c} should be 7 chars (#rrggbb)");
    }
}
