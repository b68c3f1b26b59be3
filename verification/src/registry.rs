//! The window registry: the process-wide, insertion-ordered list of
//! "open app" records that back the dock's icons.
//!
//! The registry is an owned value; the embedder is expected to guard it with
//! its own lock and to emit the returned notification payloads to the UI
//! layer outside that lock.

use vstd::prelude::*;
use vstd::seq_lib::*;
use vstd::string::*;
use crate::strutil::{dir_prefix_of, path_starts_with_dir, str_eq};
use crate::window::{Window, WindowInfo, WinError, spec_frame_creator};

verus! {

/// Extended window style: tool window (never shown among app windows).
pub const WS_EX_TOOLWINDOW: u32 = 0x80;

/// Extended window style: the window asks to appear among app windows.
pub const WS_EX_APPWINDOW: u32 = 0x40000;

/// Extended window style: the window never takes foreground activation.
pub const WS_EX_NOACTIVATE: u32 = 0x8000000;

/// Directory of protected system applications; windows whose executable
/// lives under it never produce a dock entry.
pub const SYSTEM_APPS_PREFIX: &'static str = "C:\\Windows\\SystemApps";

/// The well-known placeholder icon asset, substituted whenever icon
/// extraction fails or no executable can be resolved.
pub const MISSING_ICON_PATH: &'static str = "static/icons/missing.png";

/// One entry per admitted window.
#[derive(Debug)]
pub struct SeelenWegApp {
    /// Handle of the window the entry was created for.
    pub hwnd: isize,
    /// Full path of the owning executable; empty when it could not be
    /// resolved.
    pub exe: String,
    /// Display title.
    pub title: String,
    /// Resolved icon path, or the placeholder.
    pub icon_path: String,
    /// The launchable target, which may differ from the raw executable for
    /// packaged apps; empty when no executable could be resolved.
    pub execution_path: String,
    /// Handle of the creator window: the hosted content window of a frame
    /// host, or the window itself.
    pub creator_hwnd: isize,
}

impl SeelenWegApp {
    /// A field-for-field copy of the record (the notification payload).
    pub fn copied(&self) -> (r: SeelenWegApp)
        ensures
            r == *self,
    {
        SeelenWegApp {
            hwnd: self.hwnd,
            exe: self.exe.clone(),
            title: self.title.clone(),
            icon_path: self.icon_path.clone(),
            execution_path: self.execution_path.clone(),
            creator_hwnd: self.creator_hwnd,
        }
    }
}

/// Whether a record is the one tracking handle `h`: its own handle or its
/// creator handle equals `h`.
pub open spec fn app_matches(a: SeelenWegApp, h: isize) -> bool {
    a.hwnd == h || a.creator_hwnd == h
}

/// Whether some record tracks handle `h`.
pub open spec fn spec_contains_app(s: Seq<SeelenWegApp>, h: isize) -> bool {
    exists|i: int| 0 <= i < s.len() && app_matches(#[trigger] s[i], h)
}

/// Whether some record already collapses onto creator handle `c`.
pub open spec fn creator_tracked(s: Seq<SeelenWegApp>, c: isize) -> bool {
    exists|i: int| 0 <= i < s.len() && (#[trigger] s[i]).creator_hwnd == c
}

/// The registry's invariant: no two records share a window handle, and no
/// two records share a creator handle (a window and its frame-host wrapper
/// never both produce records).
pub open spec fn registry_wf(s: Seq<SeelenWegApp>) -> bool {
    forall|i: int, j: int|
        0 <= i < j < s.len() ==> (#[trigger] s[i]).hwnd != (#[trigger] s[j]).hwnd
            && s[i].creator_hwnd != s[j].creator_hwnd
}

/// The registry after removing every record whose own handle is `h`,
/// keeping the order of the rest.
pub open spec fn remove_spec(s: Seq<SeelenWegApp>, h: isize) -> Seq<SeelenWegApp>
    decreases s.len(),
{
    if s.len() == 0 {
        Seq::empty()
    } else if s[0].hwnd == h {
        remove_spec(s.skip(1), h)
    } else {
        seq![s[0]] + remove_spec(s.skip(1), h)
    }
}

/// Removal distributes over concatenation.
pub proof fn lemma_remove_spec_concat(s: Seq<SeelenWegApp>, t: Seq<SeelenWegApp>, h: isize)
    ensures
        remove_spec(s + t, h) == remove_spec(s, h) + remove_spec(t, h),
    decreases s.len(),
{
    if s.len() == 0 {
        assert(s + t =~= t);
        assert(remove_spec(s, h) + remove_spec(t, h) =~= remove_spec(t, h));
    } else {
        assert((s + t)[0] == s[0]);
        assert((s + t).skip(1) =~= s.skip(1) + t);
        lemma_remove_spec_concat(s.skip(1), t, h);
        if s[0].hwnd != h {
            assert(seq![s[0]] + (remove_spec(s.skip(1), h) + remove_spec(t, h)) =~= (seq![s[0]]
                + remove_spec(s.skip(1), h)) + remove_spec(t, h));
        }
    }
}

/// Every record that removal keeps comes from the original registry and
/// does not carry the removed handle.
pub proof fn lemma_remove_spec_elements(s: Seq<SeelenWegApp>, h: isize)
    ensures
        forall|k: int|
            0 <= k < remove_spec(s, h).len() ==> (#[trigger] remove_spec(s, h)[k]).hwnd != h
                && s.contains(remove_spec(s, h)[k]),
    decreases s.len(),
{
    if s.len() > 0 {
        lemma_remove_spec_elements(s.skip(1), h);
        assert forall|k: int| 0 <= k < remove_spec(s, h).len() implies (#[trigger] remove_spec(
            s,
            h,
        )[k]).hwnd != h && s.contains(remove_spec(s, h)[k]) by {
            let r = remove_spec(s, h);
            let rr = remove_spec(s.skip(1), h);
            if s[0].hwnd == h {
                assert(r == rr);
                assert(rr[k].hwnd != h && s.skip(1).contains(rr[k]));
                let j = choose|j: int| 0 <= j < s.skip(1).len() && s.skip(1)[j] == rr[k];
                assert(s[j + 1] == r[k]);
            } else if k == 0 {
                assert(r[0] == s[0]);
                assert(s[0] == s[0]);
            } else {
                assert(r[k] == rr[k - 1]);
                assert(rr[k - 1].hwnd != h && s.skip(1).contains(rr[k - 1]));
                let j = choose|j: int| 0 <= j < s.skip(1).len() && s.skip(1)[j] == rr[k - 1];
                assert(s[j + 1] == r[k]);
            }
        }
    }
}

/// Whether an extended-style word carries the given style bit.
pub open spec fn has_ex_style(style: u32, flag: u32) -> bool {
    style & flag != 0
}

/// A tool-window or no-activate window is kept out of the dock unless it
/// also carries the app-window style.
pub open spec fn blocked_by_ex_style(style: u32) -> bool {
    (has_ex_style(style, WS_EX_TOOLWINDOW) || has_ex_style(style, WS_EX_NOACTIVATE))
        && !has_ex_style(style, WS_EX_APPWINDOW)
}

/// A frame host whose content window cannot be resolved yet is not
/// admitted (the hook layer retries on a later event).
pub open spec fn frame_without_creator(info: WindowInfo) -> bool {
    spec_frame_creator(info) == Result::<Option<Window>, WinError>::Ok(Option::<Window>::None)
}

/// Whether the owning executable lives under the protected system-app
/// directory, by path components.
pub open spec fn exe_in_system_apps(exe: Option<String>) -> bool {
    match exe {
        Option::Some(e) => dir_prefix_of(SYSTEM_APPS_PREFIX@, e@),
        Option::None => false,
    }
}

/// The fixed title blacklist: transient system windows and the dock's own
/// windows, which must never register themselves.
pub open spec fn title_blacklisted(t: Seq<char>) -> bool {
    ||| t == ""@
    ||| t == "Task Switching"@
    ||| t == "DesktopWindowXamlSource"@
    ||| t == "SeelenWeg"@
    ||| t == "SeelenWeg Hitbox"@
    ||| t == "Seelen Window Manager"@
    ||| t == "Seelen Fancy Toolbar"@
    ||| t == "Program Manager"@
}

/// The admission predicate: every exclusion a window must escape to earn a
/// dock entry.  Admission fails closed: a window whose executable cannot
/// be resolved, or whose suspension state could not be queried, is
/// rejected rather than waved through with those checks skipped.
pub open spec fn spec_should_be_added(info: WindowInfo, config_hidden: bool) -> bool {
    &&& info.visible
    &&& info.parent is None
    &&& !blocked_by_ex_style(info.ex_style)
    &&& info.exe is Some
    &&& !frame_without_creator(info)
    &&& info.uwp_suspended == Option::<bool>::Some(false)
    &&& !exe_in_system_apps(info.exe)
    &&& !config_hidden
    &&& !title_blacklisted(info.title@)
}

/// A window with the tool-window style and without the app-window style is
/// rejected by admission, whatever its other properties.
pub proof fn lemma_toolwindow_rejected(info: WindowInfo, config_hidden: bool)
    requires
        has_ex_style(info.ex_style, WS_EX_TOOLWINDOW),
        !has_ex_style(info.ex_style, WS_EX_APPWINDOW),
    ensures
        !spec_should_be_added(info, config_hidden),
{
}

/// The fixed placeholder icon path.
pub fn missing_icon() -> (r: String)
    ensures
        r@ == MISSING_ICON_PATH@,
{
    String::from_str(MISSING_ICON_PATH)
}

/// The creator a window's record collapses onto: the hosted content window
/// of a frame host; the window itself when it is no frame host (or its
/// process cannot be queried); none when the frame hosts no content yet,
/// in which case no record is made.
pub open spec fn spec_resolve_creator(info: WindowInfo) -> Option<Window> {
    match spec_frame_creator(info) {
        Result::Ok(Option::None) => Option::None,
        Result::Ok(Option::Some(c)) => Option::Some(c),
        Result::Err(_) => Option::Some(info.window),
    }
}

/// A record with its title replaced.
pub open spec fn with_title(a: SeelenWegApp, t: String) -> SeelenWegApp {
    SeelenWegApp { title: t, ..a }
}

/// The insertion-ordered registry of open-app records.
pub struct Registry {
    open_apps: Vec<SeelenWegApp>,
}

impl View for Registry {
    type V = Seq<SeelenWegApp>;

    closed spec fn view(&self) -> Seq<SeelenWegApp> {
        self.open_apps@
    }
}

impl Registry {
    /// Well-formedness: the records' invariant holds.
    pub open spec fn wf(&self) -> bool {
        registry_wf(self@)
    }

    /// An empty registry.
    pub fn new() -> (r: Registry)
        ensures
            r@ == Seq::<SeelenWegApp>::empty(),
            r.wf(),
    {
        Registry { open_apps: Vec::new() }
    }

    /// How many records are held.
    pub fn len(&self) -> (n: usize)
        ensures
            n == self@.len(),
    {
        self.open_apps.len()
    }

    /// Borrows the record at `i`, in insertion order.
    pub fn get(&self, i: usize) -> (r: &SeelenWegApp)
        requires
            i < self@.len(),
        ensures
            *r == self@[i as int],
    {
        &self.open_apps[i]
    }

    /// Borrows the whole snapshot, for the "all open apps" reply.
    pub fn open_apps(&self) -> (r: &Vec<SeelenWegApp>)
        ensures
            r@ == self@,
    {
        &self.open_apps
    }

    /// True iff some record's handle or creator handle equals the queried
    /// handle: the window is already tracked.
    pub fn contains_app(&self, hwnd: Window) -> (r: bool)
        ensures
            r == spec_contains_app(self@, hwnd.handle),
    {
        let n = self.open_apps.len();
        let mut i: usize = 0;
        while i < n
            invariant
                0 <= i <= n,
                n == self@.len(),
                forall|k: int| 0 <= k < i ==> !app_matches(#[trigger] self@[k], hwnd.handle),
            decreases n - i,
        {
            let a = &self.open_apps[i];
            if a.hwnd == hwnd.handle || a.creator_hwnd == hwnd.handle {
                return true;
            }
            i += 1;
        }
        false
    }

    /// True iff some record already collapses onto creator handle
    /// `creator`.
    pub fn creator_is_tracked(&self, creator: Window) -> (r: bool)
        ensures
            r == creator_tracked(self@, creator.handle),
    {
        let n = self.open_apps.len();
        let mut i: usize = 0;
        while i < n
            invariant
                0 <= i <= n,
                n == self@.len(),
                forall|k: int| 0 <= k < i ==> (#[trigger] self@[k]).creator_hwnd != creator.handle,
            decreases n - i,
        {
            if self.open_apps[i].creator_hwnd == creator.handle {
                return true;
            }
            i += 1;
        }
        false
    }

    /// The admission predicate, evaluated in its fixed order with a
    /// short-circuit on the first exclusion; `config_hidden` is the
    /// per-window verdict of the user-configuration snapshot.
    pub fn should_be_added(info: &WindowInfo, config_hidden: bool) -> (r: bool)
        ensures
            r == spec_should_be_added(*info, config_hidden),
    {
        if !info.visible || info.parent.is_some() {
            return false;
        }
        let style = info.ex_style;
        if (style & WS_EX_TOOLWINDOW != 0 || style & WS_EX_NOACTIVATE != 0) && style
            & WS_EX_APPWINDOW == 0 {
            return false;
        }
        let path = match &info.exe {
            // the owning process could not be queried: fail closed
            Option::None => {
                return false;
            },
            Option::Some(path) => path,
        };
        if let Result::Ok(frame_creator) = info.get_frame_creator() {
            if frame_creator.is_none() {
                return false;
            }
        }
        match info.uwp_suspended {
            Option::Some(false) => {},
            // suspended, or the query failed: fail closed
            _ => {
                return false;
            },
        }
        if path_starts_with_dir(path.as_str(), SYSTEM_APPS_PREFIX) {
            return false;
        }
        if config_hidden {
            return false;
        }
        let t = info.title.as_str();
        !(str_eq(t, "") || str_eq(t, "Task Switching") || str_eq(t, "DesktopWindowXamlSource")
            || str_eq(t, "SeelenWeg") || str_eq(t, "SeelenWeg Hitbox") || str_eq(
            t,
            "Seelen Window Manager",
        ) || str_eq(t, "Seelen Fancy Toolbar") || str_eq(t, "Program Manager"))
    }

    /// Resolves the creator window a record for this window would collapse
    /// onto; `None` means the add is skipped for now.
    pub fn resolve_creator(info: &WindowInfo) -> (r: Option<Window>)
        ensures
            r == spec_resolve_creator(*info),
    {
        match info.get_frame_creator() {
            Result::Ok(Option::None) => Option::None,
            Result::Ok(Option::Some(c)) => Option::Some(c),
            Result::Err(_) => Option::Some(info.window),
        }
    }

    /// Admits a window: appends one record built from the resolved creator
    /// and the collaborator results, unless the window or its creator is
    /// already tracked.  Returns the record to publish as the "app added"
    /// notification, or `None` when nothing changed.
    ///
    /// `creator_exe` is the creator window's resolved executable path;
    /// `icon` is the icon subsystem's result for that executable; `shell`
    /// is the packaged-app resolver's launchable target, if any.
    pub fn add_hwnd(
        &mut self,
        hwnd: Window,
        title: String,
        creator: Window,
        creator_exe: Option<String>,
        icon: Option<String>,
        shell: Option<String>,
    ) -> (added: Option<SeelenWegApp>)
        ensures
            spec_contains_app(old(self)@, hwnd.handle) || creator_tracked(
                old(self)@,
                creator.handle,
            ) ==> final(self)@ == old(self)@ && added is None,
            !spec_contains_app(old(self)@, hwnd.handle) && !creator_tracked(
                old(self)@,
                creator.handle,
            ) ==> (added matches Option::Some(app) && final(self)@ == old(self)@.push(app)
                && app.hwnd == hwnd.handle && app.creator_hwnd == creator.handle && app.title
                == title && (match creator_exe {
                Option::Some(e) => app.exe == e && (match icon {
                    Option::Some(p) => app.icon_path == p,
                    Option::None => app.icon_path@ == MISSING_ICON_PATH@,
                }) && (match shell {
                    Option::Some(p) => app.execution_path == p,
                    Option::None => app.execution_path == e,
                }),
                Option::None => app.exe@ == Seq::<char>::empty() && app.icon_path@
                    == MISSING_ICON_PATH@ && app.execution_path@ == Seq::<char>::empty(),
            })),
            old(self).wf() ==> final(self).wf(),
    {
        if self.contains_app(hwnd) {
            return Option::None;
        }
        if self.creator_is_tracked(creator) {
            return Option::None;
        }
        let mut app = SeelenWegApp {
            hwnd: hwnd.handle,
            exe: String::new(),
            title,
            icon_path: String::new(),
            execution_path: String::new(),
            creator_hwnd: creator.handle,
        };
        match creator_exe {
            Option::Some(e) => {
                app.icon_path = match icon {
                    Option::Some(p) => p,
                    Option::None => missing_icon(),
                };
                app.execution_path = match shell {
                    Option::Some(p) => p,
                    Option::None => e.clone(),
                };
                app.exe = e;
            },
            Option::None => {
                app.icon_path = missing_icon();
            },
        }
        let record = app.copied();
        self.open_apps.push(app);
        proof {
            if old(self).wf() {
                assert forall|i: int, j: int| 0 <= i < j < self@.len() implies (
                #[trigger] self@[i]).hwnd != (#[trigger] self@[j]).hwnd && self@[i].creator_hwnd
                    != self@[j].creator_hwnd by {
                    if j == self@.len() - 1 {
                        assert(!app_matches(old(self)@[i], hwnd.handle));
                    }
                }
            }
        }
        Option::Some(record)
    }

    /// Removes every record whose own handle equals `hwnd`, keeping the
    /// order of the rest; the embedder then publishes the "app removed"
    /// notification carrying just the handle.
    pub fn remove_hwnd(&mut self, hwnd: Window)
        ensures
            final(self)@ == remove_spec(old(self)@, hwnd.handle),
            forall|k: int|
                0 <= k < final(self)@.len() ==> (#[trigger] final(self)@[k]).hwnd != hwnd.handle
                    && old(self)@.contains(final(self)@[k]),
            old(self).wf() ==> final(self).wf(),
    {
        let n = self.open_apps.len();
        let mut kept: Vec<SeelenWegApp> = Vec::new();
        let mut i: usize = 0;
        proof {
            assert(self@.take(0) =~= Seq::<SeelenWegApp>::empty());
        }
        while i < n
            invariant
                0 <= i <= n,
                n == self@.len(),
                kept@ == remove_spec(self@.take(i as int), hwnd.handle),
            decreases n - i,
        {
            proof {
                assert(self@.take(i + 1) =~= self@.take(i as int) + seq![self@[i as int]]);
                lemma_remove_spec_concat(self@.take(i as int), seq![self@[i as int]], hwnd.handle);
                assert(remove_spec(Seq::<SeelenWegApp>::empty(), hwnd.handle) =~= Seq::<
                    SeelenWegApp,
                >::empty());
                assert(seq![self@[i as int]].skip(1) =~= Seq::<SeelenWegApp>::empty());
                if self@[i as int].hwnd != hwnd.handle {
                    assert(remove_spec(seq![self@[i as int]], hwnd.handle) =~= seq![self@[
                        i as int]]);
                } else {
                    assert(remove_spec(seq![self@[i as int]], hwnd.handle) =~= Seq::<
                        SeelenWegApp,
                    >::empty());
                }
            }
            let a = &self.open_apps[i];
            if a.hwnd != hwnd.handle {
                kept.push(a.copied());
                proof {
                    assert(kept@ =~= remove_spec(self@.take(i as int), hwnd.handle) + seq![self@[
                        i as int]]);
                }
            }
            i += 1;
        }
        proof {
            assert(self@.take(n as int) =~= self@);
        }
        self.open_apps = kept;
        proof {
            lemma_remove_spec_elements(old(self)@, hwnd.handle);
            if old(self).wf() {
                lemma_remove_spec_wf(old(self)@, hwnd.handle);
            }
        }
    }

    /// Refreshes the title of the record tracking `hwnd` from a live query
    /// and returns the updated record to republish; a no-op returning
    /// `None` when the handle is unknown, so stale entries are never
    /// resurrected.
    pub fn update_app(&mut self, hwnd: Window, new_title: String) -> (updated: Option<SeelenWegApp>)
        ensures
            updated is None <==> (forall|k: int|
                0 <= k < old(self)@.len() ==> (#[trigger] old(self)@[k]).hwnd != hwnd.handle),
            updated is None ==> final(self)@ == old(self)@,
            updated matches Option::Some(app) ==> (exists|i: int|
                0 <= i < old(self)@.len() && (forall|k: int|
                    0 <= k < i ==> (#[trigger] old(self)@[k]).hwnd != hwnd.handle) && (
                #[trigger] old(self)@[i]).hwnd == hwnd.handle && app == with_title(
                    old(self)@[i],
                    new_title,
                ) && final(self)@ == old(self)@.update(i, app)),
            old(self).wf() ==> final(self).wf(),
    {
        let n = self.open_apps.len();
        let mut i: usize = 0;
        while i < n
            invariant
                0 <= i <= n,
                n == self@.len(),
                self@ == old(self)@,
                forall|k: int| 0 <= k < i ==> (#[trigger] self@[k]).hwnd != hwnd.handle,
            decreases n - i,
        {
            if self.open_apps[i].hwnd == hwnd.handle {
                self.open_apps[i].title = new_title;
                let app = self.open_apps[i].copied();
                proof {
                    let gi = i as int;
                    assert(self@ =~= old(self)@.update(gi, self@[gi]));
                    if old(self).wf() {
                        assert forall|x: int, y: int| 0 <= x < y < self@.len() implies (
                        #[trigger] self@[x]).hwnd != (#[trigger] self@[y]).hwnd
                            && self@[x].creator_hwnd != self@[y].creator_hwnd by {
                            assert(self@[x].hwnd == old(self)@[x].hwnd);
                            assert(self@[y].hwnd == old(self)@[y].hwnd);
                            assert(self@[x].creator_hwnd == old(self)@[x].creator_hwnd);
                            assert(self@[y].creator_hwnd == old(self)@[y].creator_hwnd);
                        }
                    }
                }
                return Option::Some(app);
            }
            i += 1;
        }
        Option::None
    }
}

/// Adding a window that was not yet tracked and then adding it again
/// leaves the registry with exactly one record tracking it: the first call
/// appends the record, after which the handle is tracked, so the second
/// call is a no-op by `add_hwnd`'s contract.
pub proof fn lemma_add_idempotent(s: Seq<SeelenWegApp>, h: isize, app: SeelenWegApp)
    requires
        !spec_contains_app(s, h),
        app.hwnd == h,
    ensures
        spec_contains_app(s.push(app), h),
        forall|k: int| 0 <= k < s.len() ==> !app_matches(#[trigger] s.push(app)[k], h),
        app_matches(s.push(app)[s.len() as int], h),
{
    assert(s.push(app)[s.len() as int] == app);
    assert forall|k: int| 0 <= k < s.len() implies !app_matches(#[trigger] s.push(app)[k], h) by {
        assert(s.push(app)[k] == s[k]);
    }
}

/// Removing a window right after admitting it leaves the registry without
/// any record whose handle or creator handle equals it, provided it was
/// untracked before the add.
pub proof fn lemma_add_remove(s: Seq<SeelenWegApp>, h: isize, app: SeelenWegApp)
    requires
        !spec_contains_app(s, h),
        app.hwnd == h,
    ensures
        forall|k: int|
            0 <= k < remove_spec(s.push(app), h).len() ==> !app_matches(
                #[trigger] remove_spec(s.push(app), h)[k],
                h,
            ),
{
    let t = s.push(app);
    lemma_remove_spec_elements(t, h);
    assert forall|k: int| 0 <= k < remove_spec(t, h).len() implies !app_matches(
        #[trigger] remove_spec(t, h)[k],
        h,
    ) by {
        let e = remove_spec(t, h)[k];
        assert(t.contains(e));
        let j = choose|j: int| 0 <= j < t.len() && t[j] == e;
        if j < s.len() {
            assert(s[j] == e);
            assert(!app_matches(s[j], h));
        } else {
            assert(e == app);
        }
    }
}

/// Removal preserves the registry invariant.
pub proof fn lemma_remove_spec_wf(s: Seq<SeelenWegApp>, h: isize)
    requires
        registry_wf(s),
    ensures
        registry_wf(remove_spec(s, h)),
    decreases s.len(),
{
    if s.len() > 0 {
        assert(registry_wf(s.skip(1))) by {
            assert forall|i: int, j: int| 0 <= i < j < s.skip(1).len() implies (#[trigger] s.skip(
                1,
            )[i]).hwnd != (#[trigger] s.skip(1)[j]).hwnd && s.skip(1)[i].creator_hwnd != s.skip(
                1,
            )[j].creator_hwnd by {
                assert(s.skip(1)[i] == s[i + 1]);
                assert(s.skip(1)[j] == s[j + 1]);
            }
        }
        lemma_remove_spec_wf(s.skip(1), h);
        lemma_remove_spec_elements(s.skip(1), h);
        if s[0].hwnd != h {
            let r = remove_spec(s, h);
            let rr = remove_spec(s.skip(1), h);
            assert forall|i: int, j: int| 0 <= i < j < r.len() implies (#[trigger] r[i]).hwnd != (
            #[trigger] r[j]).hwnd && r[i].creator_hwnd != r[j].creator_hwnd by {
                if i == 0 {
                    assert(r[0] == s[0]);
                    assert(r[j] == rr[j - 1]);
                    assert(s.skip(1).contains(rr[j - 1]));
                    let w = choose|w: int|
                        0 <= w < s.skip(1).len() && s.skip(1)[w] == rr[j - 1];
                    assert(s[w + 1] == rr[j - 1]);
                } else {
                    assert(r[i] == rr[i - 1]);
                    assert(r[j] == rr[j - 1]);
                }
            }
        }
    }
}

} // verus!
