use vstd::prelude::*;
use vstd::std_specs::cmp::PartialEqSpec;

verus! {

/// Opaque identifier minted by the backend for each window it creates.
#[derive(PartialEq, Eq, Structural, Clone, Copy, Debug, Hash)]
pub struct WindowHandle {
    pub id: u64,
}

/// Identifier of the toolkit surface object that a managed window wraps.
#[derive(PartialEq, Eq, Structural, Clone, Copy, Debug, Hash)]
pub struct SurfaceId {
    pub id: u64,
}

/// A rectangle in logical coordinates.
#[derive(PartialEq, Eq, Structural, Clone, Copy, Debug)]
pub struct Rectangle {
    pub x: i64,
    pub y: i64,
    pub width: i32,
    pub height: i32,
}

/// Per-window state written by the action dispatcher and read by the render path.
#[derive(PartialEq, Eq, Structural, Clone, Copy, Debug)]
pub struct ManagedWindowData {
    pub managed: bool,
    pub floating: bool,
    pub visible: bool,
    pub geometry: Option<Rectangle>,
    pub tag: Option<usize>,
}

impl ManagedWindowData {
    /// The record of a freshly created window: no flag set, no geometry, no tag.
    pub open spec fn initial() -> ManagedWindowData {
        ManagedWindowData { managed: false, floating: false, visible: false, geometry: None, tag: None }
    }

    pub fn new() -> (r: ManagedWindowData)
        ensures
            r == ManagedWindowData::initial(),
    {
        ManagedWindowData { managed: false, floating: false, visible: false, geometry: None, tag: None }
    }
}

/// A window surface together with its handle (assigned at most once) and its data record.
#[derive(Clone, Copy, Debug)]
pub struct ManagedWindow {
    pub window: SurfaceId,
    handle: Option<WindowHandle>,
    pub data: ManagedWindowData,
}

/// Which border the render path draws around a window.
#[derive(PartialEq, Eq, Structural, Clone, Copy, Debug)]
pub enum BorderStyle {
    Focused,
    Floating,
    Normal,
}

/// The handle a window holds after an assignment of `h`: the first assignment wins.
pub open spec fn assigned_handle(current: Option<WindowHandle>, h: WindowHandle) -> Option<WindowHandle> {
    match current {
        Some(c) => Some(c),
        None => Some(h),
    }
}

/// Window identity: both windows carry a handle and the handles match.
pub open spec fn same_window(a: Option<WindowHandle>, b: Option<WindowHandle>) -> bool {
    a is Some && b is Some && a->Some_0 == b->Some_0
}

impl ManagedWindow {
    pub closed spec fn handle_spec(&self) -> Option<WindowHandle> {
        self.handle
    }

    pub closed spec fn surface_spec(&self) -> SurfaceId {
        self.window
    }

    pub closed spec fn data_spec(&self) -> ManagedWindowData {
        self.data
    }

    pub fn new(window: SurfaceId) -> (r: ManagedWindow)
        ensures
            r.surface_spec() == window,
            r.handle_spec() is None,
            r.data_spec() == ManagedWindowData::initial(),
    {
        ManagedWindow { window, handle: None, data: ManagedWindowData::new() }
    }

    /// Sets the handle only if none has been assigned yet.
    pub fn set_handle(&mut self, handle: WindowHandle)
        ensures
            final(self).handle_spec() == assigned_handle(old(self).handle_spec(), handle),
            final(self).surface_spec() == old(self).surface_spec(),
            final(self).data_spec() == old(self).data_spec(),
    {
        if self.handle.is_none() {
            self.handle = Some(handle);
        }
    }

    pub fn data(&self) -> (r: ManagedWindowData)
        ensures
            r == self.data_spec(),
    {
        self.data
    }

    /// Replaces the data record; the surface and the handle stay.
    pub fn set_data(&mut self, data: ManagedWindowData)
        ensures
            final(self).data_spec() == data,
            final(self).surface_spec() == old(self).surface_spec(),
            final(self).handle_spec() == old(self).handle_spec(),
    {
        self.data = data;
    }

    /// The border for this window: the focused window's border wins over the floating one.
    pub fn border_style(&self, focused_window: Option<WindowHandle>) -> (r: BorderStyle)
        ensures
            r == (if self.handle_spec() == focused_window {
                BorderStyle::Focused
            } else if self.data_spec().floating {
                BorderStyle::Floating
            } else {
                BorderStyle::Normal
            }),
    {
        if self.handle == focused_window {
            BorderStyle::Focused
        } else if self.data.floating {
            BorderStyle::Floating
        } else {
            BorderStyle::Normal
        }
    }

    pub fn get_handle(&self) -> (r: Option<WindowHandle>)
        ensures
            r == self.handle_spec(),
    {
        self.handle
    }
}

impl PartialEq for ManagedWindow {
    fn eq(&self, other: &ManagedWindow) -> (r: bool)
        ensures
            r == same_window(self.handle_spec(), other.handle_spec()),
    {
        match (self.handle, other.handle) {
            (Some(h1), Some(h2)) => h1 == h2,
            _ => false,
        }
    }
}

impl vstd::std_specs::cmp::PartialEqSpecImpl for ManagedWindow {
    open spec fn obeys_eq_spec() -> bool {
        false
    }

    open spec fn eq_spec(&self, other: &ManagedWindow) -> bool {
        same_window(self.handle_spec(), other.handle_spec())
    }
}

/// Assigning a handle twice leaves the first assignment in effect, whatever the second one is.
pub proof fn lemma_set_handle_first_wins(h1: WindowHandle, h2: WindowHandle)
    ensures
        assigned_handle(assigned_handle(None, h1), h2) == Some(h1),
        forall|c: Option<WindowHandle>| #[trigger] assigned_handle(assigned_handle(c, h1), h2) == assigned_handle(c, h1),
{
}

/// Two windows without a handle are never equal; two windows with equal handles are
/// equal whatever their surfaces and data records hold.
pub proof fn lemma_window_identity(a: ManagedWindow, b: ManagedWindow)
    ensures
        a.handle_spec() is None ==> !a.eq_spec(&b) && !b.eq_spec(&a) && !a.eq_spec(&a),
        (a.handle_spec() is Some && a.handle_spec() == b.handle_spec()) ==> a.eq_spec(&b) && b.eq_spec(&a),
{
}

} // verus!
