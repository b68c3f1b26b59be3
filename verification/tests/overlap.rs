use seelen_weg::overlap::{are_overlaped, ForegroundInfo, Rect, SeelenWeg};
use seelen_weg::window::Window;

fn rect(left: i32, top: i32, right: i32, bottom: i32) -> Rect {
    Rect { left, top, right, bottom }
}

fn foreground(r: Rect) -> ForegroundInfo {
    ForegroundInfo {
        window: Window::from(500),
        visible: true,
        title: String::from("Some App"),
        exe: String::from("foo.exe"),
        rect: r,
    }
}

#[test]
fn overlap_predicate_on_the_reference_rectangles() {
    let hitbox = rect(0, 0, 100, 40);
    assert!(are_overlaped(&hitbox, &rect(50, 10, 200, 60)));
    assert!(!are_overlaped(&hitbox, &rect(200, 200, 300, 300)));
}

#[test]
fn touching_edges_do_not_overlap() {
    let hitbox = rect(0, 0, 100, 40);
    assert!(!are_overlaped(&hitbox, &rect(100, 0, 200, 40)));
    assert!(!are_overlaped(&hitbox, &rect(0, 40, 100, 80)));
}

#[test]
fn same_outcome_twice_emits_at_most_once() {
    let mut weg = SeelenWeg::new();
    weg.set_ready(true);
    let hitbox = rect(0, 0, 100, 40);
    let fg = foreground(rect(50, 10, 200, 60));
    let first = weg.handle_overlaped_status(&fg, &hitbox);
    assert_eq!(first, Some(true));
    let second = weg.handle_overlaped_status(&fg, &hitbox);
    assert_eq!(second, None);
}

#[test]
fn transitions_emit_each_new_value_once() {
    let mut weg = SeelenWeg::new();
    weg.set_ready(true);
    let hitbox = rect(0, 0, 100, 40);
    let over = foreground(rect(50, 10, 200, 60));
    let away = foreground(rect(200, 200, 300, 300));
    assert_eq!(weg.handle_overlaped_status(&over, &hitbox), Some(true));
    assert_eq!(weg.handle_overlaped_status(&away, &hitbox), Some(false));
    assert_eq!(weg.handle_overlaped_status(&away, &hitbox), None);
    assert_eq!(weg.handle_overlaped_status(&over, &hitbox), Some(true));
}

#[test]
fn not_ready_dock_ignores_foreground_changes() {
    let mut weg = SeelenWeg::new();
    let hitbox = rect(0, 0, 100, 40);
    let fg = foreground(rect(50, 10, 200, 60));
    assert_eq!(weg.handle_overlaped_status(&fg, &hitbox), None);
    assert!(!weg.is_ready());
}

#[test]
fn excluded_titles_and_executables_are_ignored() {
    let mut weg = SeelenWeg::new();
    weg.set_ready(true);
    let hitbox = rect(0, 0, 100, 40);
    let mut fg = foreground(rect(50, 10, 200, 60));
    fg.title = String::from("Task Switching");
    assert_eq!(weg.handle_overlaped_status(&fg, &hitbox), None);
    let mut fg = foreground(rect(50, 10, 200, 60));
    fg.exe = String::from("SearchHost.exe");
    assert_eq!(weg.handle_overlaped_status(&fg, &hitbox), None);
    let mut fg = foreground(rect(50, 10, 200, 60));
    fg.visible = false;
    assert_eq!(weg.handle_overlaped_status(&fg, &hitbox), None);
}

#[test]
fn cached_hitbox_is_used_while_overlapped() {
    let mut weg = SeelenWeg::new();
    weg.set_ready(true);
    let hitbox = rect(0, 0, 100, 40);
    let over = foreground(rect(50, 10, 200, 60));
    assert_eq!(weg.handle_overlaped_status(&over, &hitbox), Some(true));
    // while overlapped, geometry is judged against the cached rectangle,
    // not against the live one handed in now
    let moved_hitbox = rect(1000, 1000, 1100, 1040);
    let still_over = foreground(rect(50, 10, 200, 60));
    assert_eq!(weg.handle_overlaped_status(&still_over, &moved_hitbox), None);
}

#[test]
fn set_overlaped_status_is_a_noop_on_equal_state() {
    let mut weg = SeelenWeg::new();
    let hitbox = rect(0, 0, 100, 40);
    assert_eq!(weg.set_overlaped_status(false, &hitbox), None);
    assert_eq!(weg.set_overlaped_status(true, &hitbox), Some(true));
    assert_eq!(weg.set_overlaped_status(true, &hitbox), None);
    assert_eq!(weg.set_overlaped_status(false, &hitbox), Some(false));
}

#[test]
fn hide_and_show_track_the_hidden_flag() {
    let mut weg = SeelenWeg::new();
    weg.hide_dock();
    weg.show();
    weg.hide_dock();
    let hitbox = rect(0, 0, 100, 40);
    // visibility bookkeeping does not disturb overlap state
    assert_eq!(weg.set_overlaped_status(true, &hitbox), Some(true));
}
