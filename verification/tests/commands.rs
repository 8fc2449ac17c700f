use chatgpt::command::{
    ask_send, ask_sync, set_theme, view_go_back, view_go_forward, view_reload, view_url,
    window_pin, ConfPatch, WebviewTarget,
};
use chatgpt::layout::ask_mode_patch;

fn main_view() -> WebviewTarget {
    WebviewTarget { window: "core".to_string(), webview: "main".to_string() }
}

#[test]
fn reload_targets_main_view() {
    let eval = view_reload();
    assert_eq!(eval.target, main_view());
    assert_eq!(eval.script, "window.location.reload()");
}

#[test]
fn history_scripts() {
    let forward = view_go_forward();
    assert_eq!(forward.target, main_view());
    assert_eq!(forward.script, "window.history.forward()");
    let back = view_go_back();
    assert_eq!(back.target, main_view());
    assert_eq!(back.script, "window.history.back()");
}

#[test]
fn url_is_read_from_main_view() {
    assert_eq!(view_url(), main_view());
}

#[test]
fn ask_sync_wraps_message() {
    let eval = ask_sync("\"hello\"");
    assert_eq!(eval.target, main_view());
    assert_eq!(eval.script, "ChatAsk.sync(\"hello\")");
}

#[test]
fn ask_sync_empty_message() {
    assert_eq!(ask_sync("").script, "ChatAsk.sync()");
}

#[test]
fn ask_send_submits_and_refocuses() {
    let eval = ask_send();
    assert_eq!(eval.target, main_view());
    assert!(eval.script.contains("ChatAsk.submit();"));
    assert!(eval.script.contains("getByLabel('ask')?.setFocus()"));
    assert!(eval.script.contains("}, 500);"));
}

#[test]
fn window_pin_stores_and_applies() {
    let plan = window_pin(true);
    assert_eq!(plan.patch, ConfPatch::StayOnTop(true));
    assert_eq!(plan.window, "core");
    assert!(plan.always_on_top);
    let plan = window_pin(false);
    assert_eq!(plan.patch, ConfPatch::StayOnTop(false));
    assert!(!plan.always_on_top);
}

#[test]
fn theme_patch() {
    let patch = set_theme("dark".to_string());
    assert_eq!(patch, ConfPatch::Theme("dark".to_string()));
    assert_eq!(patch.key(), "theme");
}

#[test]
fn patch_keys() {
    assert_eq!(ConfPatch::StayOnTop(true).key(), "stay_on_top");
    assert_eq!(ConfPatch::AskMode(false).key(), "ask_mode");
    assert_eq!(ask_mode_patch(true), ConfPatch::AskMode(true));
    assert_eq!(ask_mode_patch(false).key(), "ask_mode");
}
