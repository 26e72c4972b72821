use vstd::prelude::*;
use crate::window::{ManagedWindow, ManagedWindowData, SurfaceId, WindowHandle, same_window};

verus! {

/// Authoritative mapping from window handle to managed window. Handles are minted in
/// registration order and never removed, so the handle with id `i` names the `i`-th
/// registered window.
pub struct WindowRegistry {
    windows: Vec<ManagedWindow>,
}

impl WindowRegistry {
    pub closed spec fn view(&self) -> Seq<ManagedWindow> {
        self.windows@
    }

    /// Every registered window carries the handle of its own position.
    pub open spec fn wf(&self) -> bool {
        &&& self@.len() <= u64::MAX
        &&& forall|i: int| 0 <= i < self@.len() ==> #[trigger] self@[i].handle_spec() == Some(WindowHandle { id: i as u64 })
    }

    pub open spec fn contains_spec(&self, h: WindowHandle) -> bool {
        h.id < self@.len()
    }

    pub open spec fn lookup(&self, h: WindowHandle) -> ManagedWindow {
        self@[h.id as int]
    }

    /// `new` is `old` with the data record of the window under `h` replaced by `d`.
    pub open spec fn with_data(old: WindowRegistry, new: WindowRegistry, h: WindowHandle, d: ManagedWindowData) -> bool {
        &&& new@.len() == old@.len()
        &&& new.lookup(h).data_spec() == d
        &&& new.lookup(h).surface_spec() == old.lookup(h).surface_spec()
        &&& new.lookup(h).handle_spec() == old.lookup(h).handle_spec()
        &&& forall|i: int| 0 <= i < old@.len() && i != h.id ==> #[trigger] new@[i] == old@[i]
    }

    pub fn new() -> (r: WindowRegistry)
        ensures
            r.wf(),
            r@.len() == 0,
    {
        WindowRegistry { windows: Vec::new() }
    }

    pub fn len(&self) -> (r: usize)
        ensures
            r == self@.len(),
    {
        self.windows.len()
    }

    pub fn contains(&self, h: WindowHandle) -> (r: bool)
        ensures
            r == self.contains_spec(h),
    {
        h.id < self.windows.len() as u64
    }

    /// Wraps `surface` in a new managed window and assigns it the next handle.
    pub fn register(&mut self, surface: SurfaceId) -> (h: WindowHandle)
        requires
            old(self).wf(),
            old(self)@.len() < u64::MAX,
        ensures
            final(self).wf(),
            h.id == old(self)@.len(),
            final(self)@.len() == old(self)@.len() + 1,
            final(self)@.drop_last() == old(self)@,
            final(self).lookup(h).surface_spec() == surface,
            final(self).lookup(h).handle_spec() == Some(h),
            final(self).lookup(h).data_spec() == ManagedWindowData::initial(),
    {
        let h = WindowHandle { id: self.windows.len() as u64 };
        let mut w = ManagedWindow::new(surface);
        w.set_handle(h);
        self.windows.push(w);
        assert(final(self)@.drop_last() =~= old(self)@);
        h
    }

    /// The window registered under `h`. An unknown handle is a caller error.
    pub fn get(&self, h: WindowHandle) -> (r: ManagedWindow)
        requires
            self.contains_spec(h),
        ensures
            r == self.lookup(h),
    {
        self.windows[self.index_of(h)]
    }

    fn index_of(&self, h: WindowHandle) -> (i: usize)
        requires
            self.contains_spec(h),
        ensures
            i as int == h.id as int,
    {
        let n = self.windows.len();
        assert(h.id < n);
        h.id as usize
    }

    /// Replaces the data record of the window registered under `h`; every other
    /// window, and this window's surface and handle, stay as they were.
    pub fn set_data(&mut self, h: WindowHandle, data: ManagedWindowData)
        requires
            old(self).wf(),
            old(self).contains_spec(h),
        ensures
            final(self).wf(),
            WindowRegistry::with_data(*old(self), *final(self), h, data),
    {
        let i = self.index_of(h);
        let mut w = self.windows[i];
        w.set_data(data);
        self.windows.set(i, w);
        assert forall|j: int| 0 <= j < final(self)@.len() implies #[trigger] final(self)@[j].handle_spec() == Some(WindowHandle { id: j as u64 }) by {
            if j != i as int {
                assert(final(self)@[j] == old(self)@[j]);
            }
        }
    }
}

/// Registration is a round trip: the handle it hands out is known to the registry, and
/// looking it up yields a window equal to any window that carries that handle, while
/// the windows registered before are untouched.
pub proof fn lemma_registry_round_trip(before: WindowRegistry, after: WindowRegistry, h: WindowHandle, w: ManagedWindow)
    requires
        after.wf(),
        h.id == before@.len(),
        after@.len() == before@.len() + 1,
        after@.drop_last() == before@,
        w.handle_spec() == Some(h),
    ensures
        after.contains_spec(h),
        !before.contains_spec(h),
        same_window(after.lookup(h).handle_spec(), w.handle_spec()),
        forall|g: WindowHandle| #[trigger] before.contains_spec(g) ==> after.lookup(g) == before.lookup(g),
{
    assert(after@[h.id as int].handle_spec() == Some(WindowHandle { id: h.id }));
    assert forall|g: WindowHandle| #[trigger] before.contains_spec(g) implies after.lookup(g) == before.lookup(g) by {
        assert(after@.drop_last()[g.id as int] == after@[g.id as int]);
    }
}

} // verus!
