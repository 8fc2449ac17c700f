use vstd::prelude::*;
use crate::labels::{
    ASK_SUBMIT_SCRIPT, ASK_SYNC_CLOSE, ASK_SYNC_OPEN, CORE_WINDOW_LABEL, HISTORY_BACK_SCRIPT,
    HISTORY_FORWARD_SCRIPT, MAIN_VIEW_LABEL, RELOAD_SCRIPT,
};

verus! {

/// A webview, named by its window's label and its own.
#[derive(Debug, Clone, PartialEq, Eq)]
pub struct WebviewTarget {
    pub window: String,
    pub webview: String,
}

/// A script to evaluate in a webview.
#[derive(Debug, Clone, PartialEq, Eq)]
pub struct WebviewEval {
    pub target: WebviewTarget,
    pub script: String,
}

/// A change to one setting of the stored application configuration.
#[derive(Debug, Clone, PartialEq, Eq)]
pub enum ConfPatch {
    /// Keep the window above all others, or not.
    StayOnTop(bool),
    /// The colour theme, by name.
    Theme(String),
    /// Show the ask bar, or not.
    AskMode(bool),
}

/// Configuration key that a patch sets.
pub open spec fn patch_key(patch: ConfPatch) -> Seq<char> {
    match patch {
        ConfPatch::StayOnTop(_) => "stay_on_top"@,
        ConfPatch::Theme(_) => "theme"@,
        ConfPatch::AskMode(_) => "ask_mode"@,
    }
}

impl ConfPatch {
    /// The configuration key that this patch sets.
    pub fn key(&self) -> (key: &'static str)
        ensures
            key@ == patch_key(*self),
    {
        match self {
            ConfPatch::StayOnTop(_) => "stay_on_top",
            ConfPatch::Theme(_) => "theme",
            ConfPatch::AskMode(_) => "ask_mode",
        }
    }
}

/// The main webview of the core window.
pub open spec fn is_main_view(target: WebviewTarget) -> bool {
    target.window@ == CORE_WINDOW_LABEL@ && target.webview@ == MAIN_VIEW_LABEL@
}

/// The main webview of the core window.
fn main_view() -> (target: WebviewTarget)
    ensures
        is_main_view(target),
{
    WebviewTarget {
        window: String::from_str(CORE_WINDOW_LABEL),
        webview: String::from_str(MAIN_VIEW_LABEL),
    }
}

/// A script for the main webview.
fn eval_in_main_view(script: String) -> (eval: WebviewEval)
    ensures
        is_main_view(eval.target),
        eval.script@ == script@,
{
    WebviewEval { target: main_view(), script }
}

/// Reloads the chat page.
pub fn view_reload() -> (eval: WebviewEval)
    ensures
        is_main_view(eval.target),
        eval.script@ == RELOAD_SCRIPT@,
{
    eval_in_main_view(String::from_str(RELOAD_SCRIPT))
}

/// The webview whose address is asked for: the chat page.
pub fn view_url() -> (target: WebviewTarget)
    ensures
        is_main_view(target),
{
    main_view()
}

/// Goes forward in the chat page's history.
pub fn view_go_forward() -> (eval: WebviewEval)
    ensures
        is_main_view(eval.target),
        eval.script@ == HISTORY_FORWARD_SCRIPT@,
{
    eval_in_main_view(String::from_str(HISTORY_FORWARD_SCRIPT))
}

/// Goes back in the chat page's history.
pub fn view_go_back() -> (eval: WebviewEval)
    ensures
        is_main_view(eval.target),
        eval.script@ == HISTORY_BACK_SCRIPT@,
{
    eval_in_main_view(String::from_str(HISTORY_BACK_SCRIPT))
}

/// What pinning the window does: the setting to store, the window to
/// change, and whether it stays on top.
#[derive(Debug, Clone, PartialEq, Eq)]
pub struct PinPlan {
    pub patch: ConfPatch,
    pub window: String,
    pub always_on_top: bool,
}

/// Pins the core window above all others, or releases it, and stores the
/// choice.
pub fn window_pin(pin: bool) -> (plan: PinPlan)
    ensures
        plan.patch == ConfPatch::StayOnTop(pin),
        plan.window@ == CORE_WINDOW_LABEL@,
        plan.always_on_top == pin,
{
    PinPlan {
        patch: ConfPatch::StayOnTop(pin),
        window: String::from_str(CORE_WINDOW_LABEL),
        always_on_top: pin,
    }
}

/// Hands the ask bar's text to the chat page. The text is put into the
/// script as it is: it is expected to be a script value already.
pub fn ask_sync(message: &str) -> (eval: WebviewEval)
    ensures
        is_main_view(eval.target),
        eval.script@ == ASK_SYNC_OPEN@ + message@ + ASK_SYNC_CLOSE@,
{
    let script = String::from_str(ASK_SYNC_OPEN).concat(message).concat(ASK_SYNC_CLOSE);
    eval_in_main_view(script)
}

/// Submits the ask bar's text in the chat page.
pub fn ask_send() -> (eval: WebviewEval)
    ensures
        is_main_view(eval.target),
        eval.script@ == ASK_SUBMIT_SCRIPT@,
{
    eval_in_main_view(String::from_str(ASK_SUBMIT_SCRIPT))
}

/// The setting stored when the theme is changed; the application then
/// restarts to apply it.
pub fn set_theme(theme: String) -> (patch: ConfPatch)
    ensures
        patch matches ConfPatch::Theme(t) && t@ == theme@,
{
    ConfPatch::Theme(theme)
}

} // verus!

verus! {

/// Each setting is stored under its own key, whatever its value: the pin
/// under `stay_on_top`, the theme under `theme`, the ask bar under
/// `ask_mode`.
pub proof fn lemma_patch_keys(on: bool, theme: String)
    ensures
        patch_key(ConfPatch::StayOnTop(on)) == "stay_on_top"@,
        patch_key(ConfPatch::Theme(theme)) == "theme"@,
        patch_key(ConfPatch::AskMode(on)) == "ask_mode"@,
        patch_key(ConfPatch::StayOnTop(on)) == patch_key(ConfPatch::StayOnTop(!on)),
        patch_key(ConfPatch::AskMode(on)) == patch_key(ConfPatch::AskMode(!on)),
{
}

} // verus!
