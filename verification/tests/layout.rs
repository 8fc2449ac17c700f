use chatgpt::command::ConfPatch;
use chatgpt::layout::{ask_mode_patch, set_view_ask, ViewSize};

#[test]
fn ask_bar_shown() {
    let plan = set_view_ask(true, ViewSize { width: 1600, height: 1200 }, 56, 160);
    assert_eq!(plan.patch, ConfPatch::AskMode(true));
    assert_eq!(plan.focus, "ask");
    assert_eq!(plan.titlebar, ViewSize { width: 1600, height: 56 });
    assert_eq!(plan.ask, ViewSize { width: 1600, height: 160 });
    assert_eq!(plan.main, Some(ViewSize { width: 1600, height: 984 }));
}

#[test]
fn ask_bar_hidden() {
    let plan = set_view_ask(false, ViewSize { width: 800, height: 600 }, 28, 80);
    assert_eq!(plan.patch, ConfPatch::AskMode(false));
    assert_eq!(plan.focus, "main");
    assert_eq!(plan.ask, ViewSize { width: 800, height: 0 });
    assert_eq!(plan.titlebar, ViewSize { width: 800, height: 28 });
    assert_eq!(plan.main, Some(ViewSize { width: 800, height: 572 }));
}

#[test]
fn heights_fill_window() {
    for (enabled, h, t, a) in [(true, 600u32, 28u32, 80u32), (false, 600, 28, 80), (true, 108, 28, 80)] {
        let plan = set_view_ask(enabled, ViewSize { width: 10, height: h }, t, a);
        let main = plan.main.unwrap();
        assert_eq!(main.height + plan.titlebar.height + plan.ask.height, h);
        assert_eq!(main.width, 10);
    }
}

#[test]
fn toggling_moves_ask_height_to_main() {
    let window = ViewSize { width: 900, height: 700 };
    let shown = set_view_ask(true, window.clone(), 30, 90);
    let hidden = set_view_ask(false, window, 30, 90);
    assert_eq!(hidden.main.unwrap().height, shown.main.unwrap().height + 90);
    assert_eq!(shown.titlebar, hidden.titlebar);
}

#[test]
fn main_view_can_shrink_to_nothing() {
    let plan = set_view_ask(true, ViewSize { width: 300, height: 108 }, 28, 80);
    assert_eq!(plan.main, Some(ViewSize { width: 300, height: 0 }));
}

#[test]
fn no_room_for_main_view() {
    let plan = set_view_ask(true, ViewSize { width: 300, height: 100 }, 28, 80);
    assert_eq!(plan.main, None);
    assert_eq!(plan.focus, "ask");
    let plan = set_view_ask(false, ViewSize { width: 300, height: 100 }, 28, 80);
    assert_eq!(plan.main, Some(ViewSize { width: 300, height: 72 }));
    let plan = set_view_ask(true, ViewSize { width: 1, height: u32::MAX }, u32::MAX, 1);
    assert_eq!(plan.main, None);
}

#[test]
fn repeated_call_same_plan() {
    let a = set_view_ask(true, ViewSize { width: 800, height: 600 }, 28, 80);
    let b = set_view_ask(true, ViewSize { width: 800, height: 600 }, 28, 80);
    assert_eq!(a, b);
    assert_eq!(ask_mode_patch(true), a.patch);
}
