//! The window-handle abstraction.
//!
//! A [`Window`] is a plain value standing for a native window handle; it owns
//! no state, and equality is handle-value equality.  All live queries (title,
//! class, executable, visibility, children) are performed by the embedder and
//! handed over as a [`WindowInfo`] snapshot; classification then runs on the
//! snapshot alone.

use vstd::prelude::*;
use vstd::seq_lib::*;
use crate::strutil::{final_component_is, path_ends_with_component, str_eq, str_starts_with};

verus! {

/// Full path of the app-container host process: a window owned by this
/// executable is a frame host wrapping the real content window of a
/// packaged application.
pub const APP_FRAME_HOST_PATH: &'static str = "C:\\Windows\\System32\\ApplicationFrameHost.exe";

/// Reserved class prefix of the frame host's own helper child windows;
/// a child whose class begins with it is never the hosted content window.
pub const FRAME_CLASS_PREFIX: &'static str = "ApplicationFrame";

/// Window class of the legacy desktop window.
pub const DESKTOP_CLASS: &'static str = "Progman";

/// File name of the dock's own executable.
pub const SEELEN_EXE_NAME: &'static str = "seelen-ui.exe";

/// An opaque identifier for a native top-level or child window.
#[derive(Clone, Copy, PartialEq, Eq, Structural, Debug)]
pub struct Window {
    pub handle: isize,
}

impl Window {
    pub fn from(handle: isize) -> (w: Window)
        ensures
            w.handle == handle,
    {
        Window { handle }
    }

    pub fn hwnd(self) -> (h: isize)
        ensures
            h == self.handle,
    {
        self.handle
    }
}

/// A window handle paired with its window class, as one enumeration step
/// reported it.
pub struct ClassedWindow {
    pub window: Window,
    pub class: String,
}

/// How a query against a live window can fail.
#[derive(Clone, Copy, PartialEq, Eq, Structural, Debug)]
pub enum WinError {
    /// The owning process could not be queried (it exited, or access was
    /// denied).
    NotFound,
    /// Frame unwrapping was invoked on a window that is not a frame host.
    NotAFrame,
}

/// A snapshot of everything the classification logic reads of one window.
/// The embedder fills it from live queries; a query that failed because the
/// window vanished degrades to the default value rather than aborting.
pub struct WindowInfo {
    /// The window the snapshot describes.
    pub window: Window,
    /// Window title text; empty when the query failed.
    pub title: String,
    /// Window class name; empty when the query failed.
    pub class: String,
    /// Full path of the owning executable; `None` when the owning process
    /// could not be queried.
    pub exe: Option<String>,
    /// Whether the window is currently visible.
    pub visible: bool,
    /// The parent window, if the window has one.
    pub parent: Option<Window>,
    /// Extended style bits of the window.
    pub ex_style: u32,
    /// Whether the window belongs to a suspended packaged application;
    /// `None` when the query failed (admission then fails closed).
    pub uwp_suspended: Option<bool>,
    /// Direct child windows with their classes, in enumeration order.
    pub children: Vec<ClassedWindow>,
}

/// True iff an executable path is the app-container host process's.
pub open spec fn is_frame_exe(exe: Seq<char>) -> bool {
    exe == APP_FRAME_HOST_PATH@
}

/// The first child that is not one of the frame host's own helper windows:
/// the hosted content window, called the frame's "creator".
pub open spec fn frame_creator_of(children: Seq<ClassedWindow>) -> Option<Window>
    decreases children.len(),
{
    if children.len() == 0 {
        None
    } else if !FRAME_CLASS_PREFIX@.is_prefix_of(children[0].class@) {
        Some(children[0].window)
    } else {
        frame_creator_of(children.skip(1))
    }
}

/// The window is a frame host iff its executable is the app-container host
/// process.
pub open spec fn spec_is_frame(info: WindowInfo) -> Result<bool, WinError> {
    match info.exe {
        Option::None => Result::Err(WinError::NotFound),
        Option::Some(e) => Result::Ok(is_frame_exe(e@)),
    }
}

/// What frame unwrapping yields for a snapshot: `NotFound` when the
/// executable is unknown, `NotAFrame` when the window is no frame host, and
/// otherwise the first non-reserved child, if any.
pub open spec fn spec_frame_creator(info: WindowInfo) -> Result<Option<Window>, WinError> {
    match info.exe {
        Option::None => Result::Err(WinError::NotFound),
        Option::Some(e) => if !is_frame_exe(e@) {
            Result::Err(WinError::NotAFrame)
        } else {
            Result::Ok(frame_creator_of(info.children@))
        },
    }
}

impl WindowInfo {
    /// The window the snapshot describes.
    pub fn hwnd(&self) -> (w: Window)
        ensures
            w == self.window,
    {
        self.window
    }

    /// The window's title text.
    pub fn title(&self) -> (t: &String)
        ensures
            t == self.title,
    {
        &self.title
    }

    /// The window's class name.
    pub fn class(&self) -> (c: &String)
        ensures
            c == self.class,
    {
        &self.class
    }

    /// The owning executable's path, when the process could be queried.
    pub fn exe(&self) -> (e: &Option<String>)
        ensures
            e == self.exe,
    {
        &self.exe
    }

    /// Whether the window is currently visible.
    pub fn is_visible(&self) -> (v: bool)
        ensures
            v == self.visible,
    {
        self.visible
    }

    /// The parent window, if any.
    pub fn parent(&self) -> (p: Option<Window>)
        ensures
            p == self.parent,
    {
        self.parent
    }

    /// The direct child windows with their classes, in enumeration order.
    pub fn children(&self) -> (c: &Vec<ClassedWindow>)
        ensures
            c == self.children,
    {
        &self.children
    }

    /// Whether the window is an app-container frame host.
    pub fn is_frame(&self) -> (r: Result<bool, WinError>)
        ensures
            r == spec_is_frame(*self),
    {
        match &self.exe {
            Option::None => Result::Err(WinError::NotFound),
            Option::Some(e) => Result::Ok(str_eq(e.as_str(), APP_FRAME_HOST_PATH)),
        }
    }

    /// Unwraps a frame host: fails with `NotAFrame` on a window that is not
    /// one, and otherwise returns the first child whose class does not begin
    /// with the reserved prefix, or `None` when the frame hosts no real
    /// content yet (the caller must treat that as "retry later").
    pub fn get_frame_creator(&self) -> (r: Result<Option<Window>, WinError>)
        ensures
            r == spec_frame_creator(*self),
    {
        match self.is_frame() {
            Result::Err(e) => Result::Err(e),
            Result::Ok(false) => Result::Err(WinError::NotAFrame),
            Result::Ok(true) => {
                let n = self.children.len();
                let mut i: usize = 0;
                proof {
                    assert(self.children@.skip(0) =~= self.children@);
                }
                while i < n
                    invariant
                        0 <= i <= n,
                        n == self.children@.len(),
                        spec_frame_creator(*self) == Result::<Option<Window>, WinError>::Ok(
                            frame_creator_of(self.children@),
                        ),
                        frame_creator_of(self.children@) == frame_creator_of(
                            self.children@.skip(i as int),
                        ),
                    decreases n - i,
                {
                    if !str_starts_with(self.children[i].class.as_str(), FRAME_CLASS_PREFIX) {
                        proof {
                            let rest = self.children@.skip(i as int);
                            assert(rest[0] == self.children@[i as int]);
                            assert(frame_creator_of(rest) == Option::Some(rest[0].window));
                        }
                        return Result::Ok(Option::Some(self.children[i].window));
                    }
                    proof {
                        assert(self.children@.skip(i as int).skip(1) =~= self.children@.skip(
                            i + 1,
                        ));
                        assert(self.children@.skip(i as int)[0] == self.children@[i as int]);
                    }
                    i += 1;
                }
                proof {
                    assert(self.children@.skip(n as int) =~= Seq::<ClassedWindow>::empty());
                }
                Result::Ok(Option::None)
            },
        }
    }

    /// Whether the window is the legacy desktop window: either the desktop
    /// handle itself, or a window of the desktop's class.
    pub fn is_desktop(&self, desktop: Window) -> (r: bool)
        ensures
            r == (desktop == self.window || self.class@ == DESKTOP_CLASS@),
    {
        self.window.handle == desktop.handle || str_eq(self.class.as_str(), DESKTOP_CLASS)
    }

    /// Whether the window belongs to the dock's own process: the final
    /// component of its executable path is the dock's executable name.
    pub fn is_seelen_window(&self) -> (r: bool)
        ensures
            r == match self.exe {
                Option::Some(e) => final_component_is(SEELEN_EXE_NAME@, e@),
                Option::None => false,
            },
    {
        match &self.exe {
            Option::Some(e) => path_ends_with_component(e.as_str(), SEELEN_EXE_NAME),
            Option::None => false,
        }
    }
}

} // verus!
