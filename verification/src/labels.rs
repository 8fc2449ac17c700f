use vstd::prelude::*;

verus! {

/// Label of the application's top-level window.
pub const CORE_WINDOW_LABEL: &'static str = "core";

/// Label of the webview that shows the chat page.
pub const MAIN_VIEW_LABEL: &'static str = "main";

/// Label of the webview that draws the title bar.
pub const TITLEBAR_VIEW_LABEL: &'static str = "titlebar";

/// Label of the webview that holds the ask bar.
pub const ASK_VIEW_LABEL: &'static str = "ask";

/// Title of the top-level window.
pub const WINDOW_TITLE: &'static str = "ChatGPT";

/// Page loaded into the main webview.
pub const MAIN_VIEW_URL: &'static str = "https://chatgpt.com";

/// Script that reloads the page of a webview.
pub const RELOAD_SCRIPT: &'static str = "window.location.reload()";

/// Script that goes one step forward in a webview's history.
pub const HISTORY_FORWARD_SCRIPT: &'static str = "window.history.forward()";

/// Script that goes one step back in a webview's history.
pub const HISTORY_BACK_SCRIPT: &'static str = "window.history.back()";

/// Script that submits the ask bar's text and gives the ask view focus again.
pub const ASK_SUBMIT_SCRIPT: &'static str = "\n        ChatAsk.submit();\n        setTimeout(() => {\n            __TAURI__.webview.Webview.getByLabel('ask')?.setFocus();\n        }, 500);\n        ";

/// Opening of the script that hands the ask bar's text to the page.
pub const ASK_SYNC_OPEN: &'static str = "ChatAsk.sync(";

/// Closing of the script that hands the ask bar's text to the page.
pub const ASK_SYNC_CLOSE: &'static str = ")";

/// Script whose value is the page's whole markup.
pub const OUTER_HTML_SCRIPT: &'static str = "return document.documentElement.outerHTML";

} // verus!
