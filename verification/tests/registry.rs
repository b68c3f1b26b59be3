use seelen_weg::registry::{Registry, MISSING_ICON_PATH, SYSTEM_APPS_PREFIX};
use seelen_weg::window::{ClassedWindow, Window, WindowInfo};

fn plain_info(handle: isize) -> WindowInfo {
    WindowInfo {
        window: Window::from(handle),
        title: String::from("Some App"),
        class: String::from("SomeClass"),
        exe: Some(String::from("C:\\Apps\\foo.exe")),
        visible: true,
        parent: None,
        ex_style: 0,
        uwp_suspended: Some(false),
        children: Vec::new(),
    }
}

#[test]
fn add_is_idempotent() {
    let mut reg = Registry::new();
    let h = Window::from(11);
    let first = reg.add_hwnd(
        h,
        String::from("App"),
        h,
        Some(String::from("C:\\Apps\\foo.exe")),
        Some(String::from("C:\\icons\\foo.png")),
        None,
    );
    assert!(first.is_some());
    assert_eq!(reg.len(), 1);
    let second = reg.add_hwnd(
        h,
        String::from("App"),
        h,
        Some(String::from("C:\\Apps\\foo.exe")),
        Some(String::from("C:\\icons\\foo.png")),
        None,
    );
    assert!(second.is_none());
    assert_eq!(reg.len(), 1);
    assert_eq!(reg.get(0).hwnd, 11);
}

#[test]
fn add_skips_tracked_creator() {
    let mut reg = Registry::new();
    let content = Window::from(21);
    let wrapper = Window::from(22);
    let first = reg.add_hwnd(content, String::from("App"), content, None, None, None);
    assert!(first.is_some());
    // the wrapper resolves to the same creator: no second record
    let second = reg.add_hwnd(wrapper, String::from("App"), content, None, None, None);
    assert!(second.is_none());
    assert_eq!(reg.len(), 1);
}

#[test]
fn remove_after_add_leaves_no_trace() {
    let mut reg = Registry::new();
    let h = Window::from(31);
    reg.add_hwnd(h, String::from("App"), h, None, None, None);
    assert!(reg.contains_app(h));
    reg.remove_hwnd(h);
    assert_eq!(reg.len(), 0);
    assert!(!reg.contains_app(h));
}

#[test]
fn remove_keeps_the_others_in_order() {
    let mut reg = Registry::new();
    for i in 0..4isize {
        let h = Window::from(40 + i);
        reg.add_hwnd(h, format!("App {}", i), h, None, None, None);
    }
    reg.remove_hwnd(Window::from(41));
    assert_eq!(reg.len(), 3);
    assert_eq!(reg.get(0).hwnd, 40);
    assert_eq!(reg.get(1).hwnd, 42);
    assert_eq!(reg.get(2).hwnd, 43);
}

#[test]
fn remove_emits_even_when_untracked() {
    let mut reg = Registry::new();
    reg.remove_hwnd(Window::from(99));
    assert_eq!(reg.len(), 0);
}

#[test]
fn update_title_on_untracked_handle_is_noop() {
    let mut reg = Registry::new();
    let h = Window::from(51);
    reg.add_hwnd(h, String::from("App"), h, None, None, None);
    let updated = reg.update_app(Window::from(52), String::from("New Title"));
    assert!(updated.is_none());
    assert_eq!(reg.len(), 1);
    assert_eq!(reg.get(0).title, "App");
}

#[test]
fn update_title_refreshes_tracked_record() {
    let mut reg = Registry::new();
    let h = Window::from(61);
    reg.add_hwnd(h, String::from("Old"), h, None, None, None);
    let updated = reg.update_app(h, String::from("New")).expect("tracked");
    assert_eq!(updated.hwnd, 61);
    assert_eq!(updated.title, "New");
    assert_eq!(reg.get(0).title, "New");
    assert_eq!(reg.len(), 1);
}

#[test]
fn contains_app_matches_creator_handle_too() {
    let mut reg = Registry::new();
    let wrapper = Window::from(71);
    let content = Window::from(72);
    reg.add_hwnd(wrapper, String::from("App"), content, None, None, None);
    assert!(reg.contains_app(wrapper));
    assert!(reg.contains_app(content));
    assert!(!reg.contains_app(Window::from(73)));
}

#[test]
fn failed_icon_extraction_falls_back_to_placeholder() {
    let mut reg = Registry::new();
    let h = Window::from(81);
    let record = reg
        .add_hwnd(
            h,
            String::from("Foo"),
            h,
            Some(String::from("C:\\Apps\\foo.exe")),
            None,
            None,
        )
        .expect("admitted");
    assert_eq!(record.icon_path, MISSING_ICON_PATH);
    assert_eq!(record.execution_path, "C:\\Apps\\foo.exe");
    assert_eq!(record.exe, "C:\\Apps\\foo.exe");
}

#[test]
fn packaged_app_gets_its_shell_path() {
    let mut reg = Registry::new();
    let h = Window::from(82);
    let record = reg
        .add_hwnd(
            h,
            String::from("Foo"),
            h,
            Some(String::from("C:\\Apps\\foo.exe")),
            Some(String::from("C:\\icons\\foo.png")),
            Some(String::from("shell:AppsFolder\\Foo!App")),
        )
        .expect("admitted");
    assert_eq!(record.icon_path, "C:\\icons\\foo.png");
    assert_eq!(record.execution_path, "shell:AppsFolder\\Foo!App");
}

#[test]
fn unresolvable_executable_leaves_fields_empty() {
    let mut reg = Registry::new();
    let h = Window::from(83);
    let record = reg
        .add_hwnd(h, String::from("Foo"), h, None, None, None)
        .expect("admitted");
    assert_eq!(record.exe, "");
    assert_eq!(record.execution_path, "");
    assert_eq!(record.icon_path, MISSING_ICON_PATH);
}

#[test]
fn admission_accepts_a_plain_visible_window() {
    assert!(Registry::should_be_added(&plain_info(1), false));
}

#[test]
fn admission_rejects_invisible_or_child_windows() {
    let mut info = plain_info(1);
    info.visible = false;
    assert!(!Registry::should_be_added(&info, false));
    let mut info = plain_info(1);
    info.parent = Some(Window::from(9));
    assert!(!Registry::should_be_added(&info, false));
}

#[test]
fn admission_rejects_toolwindow_without_appwindow_style() {
    let mut info = plain_info(1);
    info.ex_style = 0x80; // tool window
    assert!(!Registry::should_be_added(&info, false));
    info.ex_style = 0x80 | 0x40000; // tool window, but also app window
    assert!(Registry::should_be_added(&info, false));
    let mut info = plain_info(1);
    info.ex_style = 0x8000000; // no-activate
    assert!(!Registry::should_be_added(&info, false));
}

#[test]
fn admission_rejects_frame_host_without_creator() {
    let mut info = plain_info(1);
    info.exe = Some(String::from("C:\\Windows\\System32\\ApplicationFrameHost.exe"));
    info.children = vec![ClassedWindow {
        window: Window::from(2),
        class: String::from("ApplicationFrameInputSinkWindow"),
    }];
    assert!(!Registry::should_be_added(&info, false));
    info.children.push(ClassedWindow {
        window: Window::from(3),
        class: String::from("Windows.UI.Core.CoreWindow"),
    });
    assert!(Registry::should_be_added(&info, false));
}

#[test]
fn admission_rejects_suspended_and_configured_hidden() {
    let mut info = plain_info(1);
    info.uwp_suspended = Some(true);
    assert!(!Registry::should_be_added(&info, false));
    assert!(!Registry::should_be_added(&plain_info(1), true));
}

#[test]
fn admission_fails_closed_on_failed_queries() {
    // the owning executable could not be resolved
    let mut info = plain_info(1);
    info.exe = None;
    assert!(!Registry::should_be_added(&info, false));
    // the suspension query failed
    let mut info = plain_info(1);
    info.uwp_suspended = None;
    assert!(!Registry::should_be_added(&info, false));
}

#[test]
fn admission_rejects_system_apps_directory() {
    let mut info = plain_info(1);
    info.exe = Some(format!("{}\\Microsoft.Windows.Foo\\app.exe", SYSTEM_APPS_PREFIX));
    assert!(!Registry::should_be_added(&info, false));
    // the directory itself counts as living under it
    let mut info = plain_info(1);
    info.exe = Some(String::from(SYSTEM_APPS_PREFIX));
    assert!(!Registry::should_be_added(&info, false));
    // a sibling directory that merely shares the characters does not
    let mut info = plain_info(1);
    info.exe = Some(format!("{}Extra\\app.exe", SYSTEM_APPS_PREFIX));
    assert!(Registry::should_be_added(&info, false));
}

#[test]
fn admission_rejects_blacklisted_titles() {
    for title in [
        "",
        "Task Switching",
        "DesktopWindowXamlSource",
        "SeelenWeg",
        "SeelenWeg Hitbox",
        "Seelen Window Manager",
        "Seelen Fancy Toolbar",
        "Program Manager",
    ] {
        let mut info = plain_info(1);
        info.title = String::from(title);
        assert!(!Registry::should_be_added(&info, false), "title {:?}", title);
    }
}
