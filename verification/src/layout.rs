use vstd::prelude::*;
use crate::command::ConfPatch;
use crate::labels::{ASK_VIEW_LABEL, MAIN_VIEW_LABEL};

verus! {

/// A size in physical pixels.
#[derive(Debug, Clone, PartialEq, Eq)]
pub struct ViewSize {
    pub width: u32,
    pub height: u32,
}

/// What showing or hiding the ask bar does: the setting to store, the
/// webview that takes focus, and the physical sizes of the three webviews
/// that share the core window. The chat page has no size where the title
/// bar and the ask bar do not fit into the window.
#[derive(Debug, Clone, PartialEq, Eq)]
pub struct AskViewPlan {
    pub patch: ConfPatch,
    pub focus: String,
    pub main: Option<ViewSize>,
    pub titlebar: ViewSize,
    pub ask: ViewSize,
}

/// The mathematical value of an `AskViewPlan`.
pub struct AskViewPlanView {
    pub patch: ConfPatch,
    pub focus: Seq<char>,
    pub main: Option<ViewSize>,
    pub titlebar: ViewSize,
    pub ask: ViewSize,
}

impl View for AskViewPlan {
    type V = AskViewPlanView;

    open spec fn view(&self) -> AskViewPlanView {
        AskViewPlanView {
            patch: self.patch,
            focus: self.focus@,
            main: self.main,
            titlebar: self.titlebar,
            ask: self.ask,
        }
    }
}

/// Height of the ask bar: its full height when it is shown, none otherwise.
pub open spec fn ask_bar_height(enabled: bool, ask_height: u32) -> u32 {
    if enabled {
        ask_height
    } else {
        0
    }
}

/// What showing (`enabled`) or hiding the ask bar does in a window of inner
/// size `window`, with a title bar of `titlebar_height` and an ask bar of
/// `ask_height` when shown, both in physical pixels. The ask bar takes focus
/// when shown and the chat page when hidden; every webview spans the
/// window's width; the chat page takes the height that the title bar and the
/// ask bar leave, and has no size where they leave none to take.
pub open spec fn ask_view_plan(
    enabled: bool,
    window: ViewSize,
    titlebar_height: u32,
    ask_height: u32,
) -> AskViewPlanView {
    let bar = ask_bar_height(enabled, ask_height);
    AskViewPlanView {
        patch: ConfPatch::AskMode(enabled),
        focus: if enabled {
            ASK_VIEW_LABEL@
        } else {
            MAIN_VIEW_LABEL@
        },
        main: if titlebar_height + bar <= window.height {
            Some(
                ViewSize {
                    width: window.width,
                    height: (window.height - titlebar_height - bar) as u32,
                },
            )
        } else {
            None
        },
        titlebar: ViewSize { width: window.width, height: titlebar_height },
        ask: ViewSize { width: window.width, height: bar },
    }
}

/// The setting stored when the ask bar is shown or hidden. It is stored
/// before the window is measured, and is the one `set_view_ask` plans.
pub fn ask_mode_patch(enabled: bool) -> (patch: ConfPatch)
    ensures
        patch == ConfPatch::AskMode(enabled),
{
    ConfPatch::AskMode(enabled)
}

/// Shows or hides the ask bar: the setting to store, the webview to focus
/// and the sizes of the three webviews, as `ask_view_plan` states.
/// `titlebar_height` and `ask_height` (the ask bar's height when shown) are
/// already scaled to physical pixels.
pub fn set_view_ask(enabled: bool, window: ViewSize, titlebar_height: u32, ask_height: u32) -> (plan:
    AskViewPlan)
    ensures
        plan@ == ask_view_plan(enabled, window, titlebar_height, ask_height),
{
    let bar = if enabled {
        ask_height
    } else {
        0
    };
    let focus = if enabled {
        String::from_str(ASK_VIEW_LABEL)
    } else {
        String::from_str(MAIN_VIEW_LABEL)
    };
    let main = match titlebar_height.checked_add(bar) {
        Some(taken) => if taken <= window.height {
            Some(ViewSize { width: window.width, height: window.height - taken })
        } else {
            None
        },
        None => None,
    };
    AskViewPlan {
        patch: ask_mode_patch(enabled),
        focus,
        main,
        titlebar: ViewSize { width: window.width, height: titlebar_height },
        ask: ViewSize { width: window.width, height: bar },
    }
}

/// Where the title bar and the ask bar fit, the three webviews tile the
/// window: their heights add up to the window's and each spans its width.
pub proof fn lemma_layout_fills_window(
    enabled: bool,
    window: ViewSize,
    titlebar_height: u32,
    ask_height: u32,
)
    requires
        titlebar_height + ask_bar_height(enabled, ask_height) <= window.height,
    ensures
        ({
            let plan = ask_view_plan(enabled, window, titlebar_height, ask_height);
            &&& plan.main is Some
            &&& plan.main->0.height + plan.titlebar.height + plan.ask.height == window.height
            &&& plan.main->0.width == window.width
            &&& plan.titlebar.width == window.width
            &&& plan.ask.width == window.width
        }),
{
}

/// Showing the ask bar gives it its height and takes exactly that height
/// from the chat page; hiding it gives the height back. The title bar is the
/// same either way, and the focus goes to the ask bar only when it is shown.
pub proof fn lemma_ask_bar_toggle(window: ViewSize, titlebar_height: u32, ask_height: u32)
    requires
        titlebar_height + ask_height <= window.height,
    ensures
        ({
            let shown = ask_view_plan(true, window, titlebar_height, ask_height);
            let hidden = ask_view_plan(false, window, titlebar_height, ask_height);
            &&& shown.ask.height == ask_height
            &&& hidden.ask.height == 0
            &&& shown.main is Some && hidden.main is Some
            &&& hidden.main->0.height == shown.main->0.height + ask_height
            &&& shown.titlebar == hidden.titlebar
            &&& shown.focus == ASK_VIEW_LABEL@
            &&& hidden.focus == MAIN_VIEW_LABEL@
        }),
{
}

/// The chat page has no size exactly where the title bar and the ask bar do
/// not fit into the window.
pub proof fn lemma_no_room_for_main(
    enabled: bool,
    window: ViewSize,
    titlebar_height: u32,
    ask_height: u32,
)
    ensures
        ask_view_plan(enabled, window, titlebar_height, ask_height).main is None
            <==> titlebar_height + ask_bar_height(enabled, ask_height) > window.height,
{
}

} // verus!

verus! {

/// The title bar always keeps its own height and the window's width; the
/// ask bar has its height when shown and none when hidden; the chat page
/// spans the window's width and takes exactly the height left below the
/// title bar and the ask bar, wherever that is not negative.
pub proof fn lemma_view_sizes(enabled: bool, window: ViewSize, titlebar_height: u32, ask_height: u32)
    ensures
        ({
            let plan = ask_view_plan(enabled, window, titlebar_height, ask_height);
            let bar: int = if enabled {
                ask_height as int
            } else {
                0
            };
            &&& plan.patch == ConfPatch::AskMode(enabled)
            &&& plan.titlebar.width == window.width
            &&& plan.titlebar.height == titlebar_height
            &&& plan.ask.width == window.width
            &&& plan.ask.height == bar
            &&& (titlebar_height + bar <= window.height ==> plan.main is Some
                && plan.main->0.width == window.width
                && plan.main->0.height == window.height - titlebar_height - bar)
            &&& (titlebar_height + bar > window.height ==> plan.main is None)
            &&& (enabled ==> plan.focus == "ask"@)
            &&& (!enabled ==> plan.focus == "main"@)
        }),
{
}

/// Showing or hiding the ask bar never changes the title bar, and the chat
/// page's height with the bar hidden is its height with the bar shown plus
/// the bar's height.
pub proof fn lemma_toggle_keeps_titlebar(window: ViewSize, titlebar_height: u32, ask_height: u32)
    ensures
        ask_view_plan(true, window, titlebar_height, ask_height).titlebar == ask_view_plan(
            false,
            window,
            titlebar_height,
            ask_height,
        ).titlebar,
        ask_view_plan(true, window, titlebar_height, ask_height).titlebar.height == titlebar_height,
        titlebar_height + ask_height <= window.height ==> ask_view_plan(
            false,
            window,
            titlebar_height,
            ask_height,
        ).main->0.height == ask_view_plan(true, window, titlebar_height, ask_height).main->0.height
            + ask_height,
{
}

} // verus!
