use seelen_weg::taskbar::{
    get_taskbars_handles, hide_taskbar_cycle, is_taskbar_class, run_hide_cycles, show_taskbar,
    AppBarState, ShowCommand, TaskbarHideLoop,
};
use seelen_weg::window::{ClassedWindow, Window};

fn desktop_enumeration() -> Vec<ClassedWindow> {
    vec![
        ClassedWindow { window: Window::from(1), class: String::from("Shell_TrayWnd") },
        ClassedWindow { window: Window::from(2), class: String::from("Chrome_WidgetWin_1") },
        ClassedWindow { window: Window::from(3), class: String::from("Shell_SecondaryTrayWnd") },
        ClassedWindow { window: Window::from(4), class: String::from("Progman") },
    ]
}

#[test]
fn taskbar_classes_are_the_two_shell_tray_classes() {
    assert!(is_taskbar_class("Shell_TrayWnd"));
    assert!(is_taskbar_class("Shell_SecondaryTrayWnd"));
    assert!(!is_taskbar_class("Shell_TrayWnd2"));
    assert!(!is_taskbar_class("Progman"));
    assert!(!is_taskbar_class(""));
}

#[test]
fn enumeration_is_filtered_by_class_in_order() {
    let handles = get_taskbars_handles(&desktop_enumeration());
    assert_eq!(handles, vec![Window::from(1), Window::from(3)]);
}

#[test]
fn enumeration_starts_from_scratch_each_call() {
    let entries = desktop_enumeration();
    assert_eq!(get_taskbars_handles(&entries).len(), 2);
    assert_eq!(get_taskbars_handles(&entries).len(), 2);
}

#[test]
fn hide_cycle_plans_autohide_and_hide_for_each_taskbar() {
    let cmds = hide_taskbar_cycle(&desktop_enumeration());
    assert_eq!(cmds.len(), 2);
    for (cmd, handle) in cmds.iter().zip([1isize, 3isize]) {
        assert_eq!(cmd.target, Window::from(handle));
        assert_eq!(cmd.state, AppBarState::AutoHide);
        assert_eq!(cmd.show, ShowCommand::Hide);
    }
}

#[test]
fn show_pass_plans_alwaysontop_and_shownormal() {
    let cmds = show_taskbar(&desktop_enumeration());
    assert_eq!(cmds.len(), 2);
    for (cmd, handle) in cmds.iter().zip([1isize, 3isize]) {
        assert_eq!(cmd.target, Window::from(handle));
        assert_eq!(cmd.state, AppBarState::AlwaysOnTop);
        assert_eq!(cmd.show, ShowCommand::ShowNormal);
    }
}

#[test]
fn hide_loop_runs_at_most_ten_cycles() {
    let readings = vec![true; 25];
    assert_eq!(run_hide_cycles(&readings), 10);
}

#[test]
fn hide_loop_stops_on_the_iteration_after_disable() {
    let readings = vec![true, true, false, true, true, true, true, true, true, true, true];
    assert_eq!(run_hide_cycles(&readings), 2);
    let readings = vec![false, true, true];
    assert_eq!(run_hide_cycles(&readings), 0);
}

#[test]
fn hide_loop_controller_counts_granted_cycles() {
    let mut l = TaskbarHideLoop::new();
    for _ in 0..10 {
        assert!(l.next_cycle(true));
    }
    assert!(!l.next_cycle(true));
    assert!(!l.next_cycle(true));

    let mut l = TaskbarHideLoop::new();
    assert!(l.next_cycle(true));
    assert!(!l.next_cycle(false));
    // disabling is read fresh each iteration: re-enabling grants again
    assert!(l.next_cycle(true));
}

#[test]
fn empty_enumeration_plans_nothing() {
    let entries: Vec<ClassedWindow> = Vec::new();
    assert!(get_taskbars_handles(&entries).is_empty());
    assert!(hide_taskbar_cycle(&entries).is_empty());
    assert!(show_taskbar(&entries).is_empty());
}
