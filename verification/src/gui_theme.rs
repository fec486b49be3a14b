//! The style sheet of the graphical front end.

use vstd::prelude::*;
use vstd::string::StringExecFns;

verus! {

/// The background of the pages.
pub const BG_MAIN: &'static str = "#ffffff";

/// The background of the side bar.
pub const BG_SIDEBAR: &'static str = "#f5f5f7";

/// The color of text.
pub const TEXT_PRIMARY: &'static str = "#1d1d1f";

/// The color of text that stands back.
pub const TEXT_SECONDARY: &'static str = "#6e6e73";

/// The color of links and buttons.
pub const ACCENT: &'static str = "#0071e3";

/// The color of a success.
pub const SUCCESS: &'static str = "#34c759";

/// The color of a failure.
pub const ERROR: &'static str = "#ff3b30";

/// The color of a warning.
pub const WARNING: &'static str = "#ff9500";

/// The color of borders.
pub const BORDER: &'static str = "#d2d2d7";

/// The fonts of text.
pub const FONT_STACK: &'static str = "-apple-system, BlinkMacSystemFont, 'Segoe UI', Roboto, sans-serif";

/// The fonts of output and code.
pub const FONT_MONO: &'static str = "'SF Mono', 'Fira Code', 'Cascadia Code', monospace";

/// The width of the side bar.
pub const SIDEBAR_WIDTH: &'static str = "220px";

/// The style sheet, with the colors and fonts above filled in.
pub const GLOBAL_CSS: &'static str = r#"
        :root {
            --bg-main: #ffffff;
            --bg-sidebar: #f5f5f7;
            --text-primary: #1d1d1f;
            --text-secondary: #6e6e73;
            --accent: #0071e3;
            --success: #34c759;
            --error: #ff3b30;
            --warning: #ff9500;
            --border: #d2d2d7;
            --hover-bg: rgba(0,0,0,0.04);
            --active-bg: rgba(0,113,227,0.06);
            --card-shadow: rgba(0,0,0,0.04);
            --scrollbar-thumb: rgba(0,0,0,0.15);
            --scrollbar-hover: rgba(0,0,0,0.25);
            --input-bg: #ffffff;
            --error-banner-bg: #ffebee;
            --badge-uv-bg: #e8f5e9;
            --badge-uv-text: #2e7d32;
            --badge-poetry-bg: #e3f2fd;
            --badge-poetry-text: #1565c0;
            --badge-cargo-bg: #fff3e0;
            --badge-cargo-text: #e65100;
        }
        .dark {
            --bg-main: #1c1c1e;
            --bg-sidebar: #2c2c2e;
            --text-primary: #f5f5f7;
            --text-secondary: #8e8e93;
            --accent: #0a84ff;
            --success: #30d158;
            --error: #ff453a;
            --warning: #ff9f0a;
            --border: #3a3a3c;
            --hover-bg: rgba(255,255,255,0.06);
            --active-bg: rgba(10,132,255,0.15);
            --card-shadow: rgba(0,0,0,0.3);
            --scrollbar-thumb: rgba(255,255,255,0.2);
            --scrollbar-hover: rgba(255,255,255,0.3);
            --input-bg: #2c2c2e;
            --error-banner-bg: rgba(255,69,58,0.12);
            --badge-uv-bg: rgba(48,209,88,0.15);
            --badge-uv-text: #30d158;
            --badge-poetry-bg: rgba(10,132,255,0.15);
            --badge-poetry-text: #0a84ff;
            --badge-cargo-bg: rgba(255,159,10,0.15);
            --badge-cargo-text: #ff9f0a;
        }
        * { margin: 0; padding: 0; box-sizing: border-box; }
        body {
            font-family: -apple-system, BlinkMacSystemFont, 'Segoe UI', Roboto, sans-serif;
            color: var(--text-primary);
            background: var(--bg-main);
            -webkit-font-smoothing: antialiased;
        }
        .sidebar {
            width: 220px;
            min-height: 100vh;
            background: var(--bg-sidebar);
            border-right: 1px solid var(--border);
            padding: 20px 0;
            position: fixed;
            left: 0;
            top: 0;
            display: flex;
            flex-direction: column;
        }
        .main-content {
            margin-left: 220px;
            padding: 28px 32px;
            min-height: 100vh;
            background: var(--bg-main);
        }
        .nav-item {
            display: block;
            padding: 10px 20px;
            color: var(--text-secondary);
            cursor: pointer;
            text-decoration: none;
            font-size: 14px;
            border-left: 3px solid transparent;
            transition: all 0.15s ease;
        }
        .nav-item:hover {
            background: var(--hover-bg);
            color: var(--text-primary);
        }
        .nav-item.active {
            color: var(--accent);
            border-left-color: var(--accent);
            font-weight: 600;
            background: var(--active-bg);
        }
        .card {
            background: var(--bg-main);
            border: 1px solid var(--border);
            border-radius: 12px;
            padding: 16px;
            margin-bottom: 16px;
            box-shadow: 0 1px 3px var(--card-shadow);
        }
        .btn {
            background: var(--accent);
            color: white;
            border: none;
            border-radius: 8px;
            padding: 8px 20px;
            font-size: 14px;
            font-weight: 500;
            cursor: pointer;
            transition: all 0.15s ease;
        }
        .btn:hover {
            opacity: 0.9;
            transform: translateY(-0.5px);
        }
        .btn:active {
            transform: translateY(0);
        }
        .btn:disabled {
            opacity: 0.5;
            cursor: not-allowed;
            transform: none;
        }
        .btn-secondary {
            background: transparent;
            color: var(--accent);
            border: 1px solid var(--accent);
        }
        .btn-secondary:hover {
            background: var(--active-bg);
            transform: translateY(-0.5px);
        }
        input, .input {
            border: 1px solid var(--border);
            border-radius: 8px;
            padding: 8px 12px;
            font-size: 14px;
            outline: none;
            width: 100%;
            background: var(--input-bg);
            color: var(--text-primary);
            transition: border-color 0.15s ease, box-shadow 0.15s ease;
        }
        input:focus {
            border-color: var(--accent);
            box-shadow: 0 0 0 3px rgba(0,113,227,0.12);
        }
        .badge {
            display: inline-block;
            padding: 2px 8px;
            border-radius: 6px;
            font-size: 12px;
            font-weight: 600;
        }
        .badge-uv { background: var(--badge-uv-bg); color: var(--badge-uv-text); }
        .badge-poetry { background: var(--badge-poetry-bg); color: var(--badge-poetry-text); }
        .badge-cargo { background: var(--badge-cargo-bg); color: var(--badge-cargo-text); }
        .error-banner {
            background: var(--error-banner-bg);
            color: var(--error);
            border: 1px solid var(--error);
            border-radius: 10px;
            padding: 12px 16px;
            margin-bottom: 16px;
            display: flex;
            align-items: center;
            gap: 8px;
            font-size: 14px;
        }
        .mono {
            font-family: 'SF Mono', 'Fira Code', 'Cascadia Code', monospace;
            font-size: 13px;
        }
        .diff-added {
            color: var(--success);
            font-weight: 600;
        }
        table {
            width: 100%;
            border-collapse: collapse;
        }
        th, td {
            text-align: left;
            padding: 10px 12px;
            border-bottom: 1px solid var(--border);
        }
        th {
            font-weight: 600;
            color: var(--text-secondary);
            font-size: 11px;
            text-transform: uppercase;
            letter-spacing: 0.5px;
        }
        @keyframes spin {
            0% { transform: rotate(0deg); }
            100% { transform: rotate(360deg); }
        }
        @keyframes fadeIn {
            from { opacity: 0; transform: translateY(4px); }
            to { opacity: 1; transform: translateY(0); }
        }
        @keyframes pulse {
            0%, 100% { opacity: 1; }
            50% { opacity: 0.5; }
        }
        .spinner {
            display: inline-block;
            width: 14px;
            height: 14px;
            border: 2px solid rgba(255,255,255,0.3);
            border-top-color: white;
            border-radius: 50%;
            animation: spin 0.6s linear infinite;
            vertical-align: middle;
        }
        .spinner-dark {
            border-color: rgba(0,0,0,0.15);
            border-top-color: var(--text-secondary);
        }
        .close-btn {
            background: none;
            border: none;
            color: var(--text-secondary);
            cursor: pointer;
            font-size: 14px;
            padding: 4px 6px;
            border-radius: 6px;
            line-height: 1;
            transition: all 0.12s ease;
        }
        .close-btn:hover {
            background: rgba(255,59,48,0.1);
            color: var(--error);
        }
        .log-count {
            font-size: 10px;
            color: var(--text-secondary);
            margin-left: 4px;
        }
        .splitter {
            width: 6px;
            cursor: col-resize;
            background: var(--border);
            transition: background 0.15s ease;
            flex-shrink: 0;
            border-radius: 3px;
            margin: 0 2px;
        }
        .splitter:hover {
            background: var(--accent);
        }
        .splitter-h {
            width: 6px;
            cursor: col-resize;
            background: var(--border);
            transition: background 0.15s ease;
            flex-shrink: 0;
            margin: 0;
        }
        .splitter-h:hover {
            background: var(--accent);
        }
        .log-header {
            display: flex;
            align-items: center;
            justify-content: space-between;
            padding: 6px 10px;
            background: #2c2c2e;
            border-radius: 12px 12px 0 0;
            border-bottom: 1px solid #3a3a3c;
        }
        .log-header span {
            color: #f5f5f7;
        }
        .pinned-indicator {
            display: inline-block;
            width: 6px;
            height: 6px;
            border-radius: 50%;
            background: var(--accent);
            flex-shrink: 0;
        }
        h2 {
            font-size: 22px;
            font-weight: 700;
            letter-spacing: -0.3px;
        }
        h3 {
            font-size: 14px;
            font-weight: 600;
        }
        .theme-toggle {
            display: flex;
            align-items: center;
            gap: 8px;
            padding: 10px 20px;
            cursor: pointer;
            color: var(--text-secondary);
            font-size: 13px;
            transition: color 0.15s ease;
            border: none;
            background: none;
            width: 100%;
            text-align: left;
        }
        .theme-toggle:hover {
            color: var(--text-primary);
        }
        ::-webkit-scrollbar {
            width: 6px;
            height: 6px;
        }
        ::-webkit-scrollbar-track {
            background: transparent;
        }
        ::-webkit-scrollbar-thumb {
            background: var(--scrollbar-thumb);
            border-radius: 3px;
        }
        ::-webkit-scrollbar-thumb:hover {
            background: var(--scrollbar-hover);
        }
        "#;

/// The style sheet of the front end.
pub fn global_css() -> (css: String)
    ensures
        css@ == GLOBAL_CSS@,
{
    String::from_str(GLOBAL_CSS)
}

} // verus!
