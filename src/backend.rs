use vstd::prelude::*;
use crate::action::{ActionPolicy, DisplayAction, InternalAction, WindowUpdate, WmWindowHandle, policy_of};
use crate::registry::WindowRegistry;
use crate::window::{ManagedWindowData, Rectangle, SurfaceId, WindowHandle};

verus! {

/// Correction subtracted from both coordinates of a requested placement. Windows
/// otherwise end up shifted by this amount on screen; the cause is not known.
pub const PLACEMENT_OFFSET: i32 = 11;

#[derive(PartialEq, Eq, Structural, Clone, Copy, Debug)]
pub enum FocusBehaviour {
    Sloppy,
    ClickTo,
    Driven,
}

/// Configuration snapshot taken when the backend starts; never changed afterwards.
#[derive(PartialEq, Eq, Structural, Clone, Copy, Debug)]
pub struct LeftwmConfig {
    pub focus_behavior: FocusBehaviour,
    pub sloppy_mouse_follows_focus: bool,
}

/// Work the compositor toolkit performs on behalf of the dispatcher.
#[derive(PartialEq, Eq, Structural, Clone, Copy, Debug)]
pub enum Effect {
    /// Send all pending protocol messages to the clients.
    FlushClients,
    /// Unmap the window and map it again with its top-left corner at the given point.
    MapWindow(WindowHandle, i64, i64),
    /// Set the pending size of the window's toplevel surface.
    ResizeWindow(WindowHandle, i32, i32),
    /// Ask the client to acknowledge the pending configuration.
    SendConfigure(WindowHandle),
    /// Give input focus to the window; the flag says whether the pointer follows.
    FocusWindow(WindowHandle, bool),
    /// Give input focus to whatever window lies under the pointer.
    FocusWindowUnderCursor,
    /// Recompute the layout of the window space.
    RefreshSpace,
}

/// What the action channel delivers to the event loop.
#[derive(Clone, Debug)]
pub enum ActionEvent {
    Msg(InternalAction),
    /// The core dropped its end of the channel.
    Closed,
}

/// How often the event loop wakes up when nothing else happens.
pub const TICK_MILLIS: u64 = 16;

/// Why dispatching an action stops the backend.
#[derive(PartialEq, Eq, Structural, Clone, Copy, Debug)]
pub enum DispatchError {
    /// The action names a handle this backend never handed out.
    InvalidHandle,
    /// The action has no implementation.
    Unimplemented,
}

/// The registered window a handle from the core refers to, if any.
pub open spec fn resolve(reg: WindowRegistry, wh: WmWindowHandle) -> Option<WindowHandle> {
    match wh {
        WmWindowHandle::Smithay(h) => if reg.contains_spec(h) { Some(h) } else { None },
        WmWindowHandle::Xlib(_) => None,
    }
}

/// Where a geometry update places its window: offset by the correction, sized as asked.
pub open spec fn placement(u: WindowUpdate) -> Rectangle {
    Rectangle {
        x: (u.x - PLACEMENT_OFFSET) as i64,
        y: (u.y - PLACEMENT_OFFSET) as i64,
        width: u.width,
        height: u.height,
    }
}

/// The geometry of window `id` after the updates `us`, starting from `g`: the last
/// update that names the window wins.
pub open spec fn geometry_after(us: Seq<WindowUpdate>, id: u64, g: Option<Rectangle>) -> Option<Rectangle>
    decreases us.len(),
{
    if us.len() == 0 {
        g
    } else if us.last().handle == WmWindowHandle::Smithay(WindowHandle { id }) {
        Some(placement(us.last()))
    } else {
        geometry_after(us.drop_last(), id, g)
    }
}

pub open spec fn effects_of_update(u: WindowUpdate) -> Seq<Effect> {
    let h = u.handle->Smithay_0;
    let p = placement(u);
    seq![Effect::MapWindow(h, p.x, p.y), Effect::ResizeWindow(h, u.width, u.height), Effect::SendConfigure(h)]
}

/// The toolkit work of a batch update: map, resize and configure, window by window.
pub open spec fn update_effects(us: Seq<WindowUpdate>) -> Seq<Effect>
    decreases us.len(),
{
    if us.len() == 0 {
        seq![]
    } else {
        update_effects(us.drop_last()) + effects_of_update(us.last())
    }
}

pub open spec fn all_resolve(reg: WindowRegistry, us: Seq<WindowUpdate>) -> bool {
    forall|i: int| 0 <= i < us.len() ==> (#[trigger] resolve(reg, us[i].handle)) is Some
}

pub open spec fn ok_with(r: Result<Vec<Effect>, DispatchError>, s: Seq<Effect>) -> bool {
    r is Ok && r->Ok_0@ == s
}

/// Whether dispatching `act` in state `pre` stops the backend.
pub open spec fn dispatch_fails(pre: Backend, act: InternalAction) -> bool {
    match act {
        InternalAction::Flush => false,
        InternalAction::GenerateVerifyFocusEvent => false,
        InternalAction::UpdateWindows(us) => !all_resolve(pre.registry, us@),
        InternalAction::DisplayAction(a) => match a {
            DisplayAction::AddedWindow(wh, _, _) => resolve(pre.registry, wh) is None,
            DisplayAction::WindowTakeFocus(wh, _) => resolve(pre.registry, wh) is None,
            DisplayAction::SetWindowTag(wh, _) => resolve(pre.registry, wh) is None,
            DisplayAction::FocusWindowUnderCursor => false,
            DisplayAction::SetWindowOrder(..) => false,
            DisplayAction::SetCurrentTags(..) => false,
            _ => true,
        },
    }
}

/// The error a failing dispatch of `act` reports.
pub open spec fn dispatch_error(act: InternalAction) -> DispatchError {
    match act {
        InternalAction::DisplayAction(a) => match a {
            DisplayAction::AddedWindow(..) => DispatchError::InvalidHandle,
            DisplayAction::WindowTakeFocus(..) => DispatchError::InvalidHandle,
            DisplayAction::SetWindowTag(..) => DispatchError::InvalidHandle,
            _ => DispatchError::Unimplemented,
        },
        _ => DispatchError::InvalidHandle,
    }
}

/// What a successful dispatch of `act` returns and how it leaves the registry.
pub open spec fn dispatch_done(pre: Backend, post: Backend, act: InternalAction, effects: Seq<Effect>) -> bool {
    let unchanged = post.registry@ == pre.registry@;
    match act {
        InternalAction::Flush => effects == seq![Effect::FlushClients] && unchanged,
        InternalAction::GenerateVerifyFocusEvent => effects == Seq::<Effect>::empty() && unchanged,
        InternalAction::UpdateWindows(us) => effects == update_effects(us@) && Backend::updated(pre, post, us@),
        InternalAction::DisplayAction(a) => match a {
            DisplayAction::AddedWindow(wh, floating, focus) => {
                let h = resolve(pre.registry, wh)->Some_0;
                &&& effects == (if focus { seq![Effect::FocusWindow(h, true)] } else { Seq::<Effect>::empty() })
                &&& WindowRegistry::with_data(pre.registry, post.registry, h, ManagedWindowData {
                    floating,
                    managed: true,
                    ..pre.registry.lookup(h).data_spec()
                })
            },
            DisplayAction::WindowTakeFocus(wh, _) => {
                let h = resolve(pre.registry, wh)->Some_0;
                effects == seq![Effect::FocusWindow(h, pre.config.sloppy_mouse_follows_focus)] && unchanged
            },
            DisplayAction::SetWindowTag(wh, tag) => {
                let h = resolve(pre.registry, wh)->Some_0;
                &&& effects == Seq::<Effect>::empty()
                &&& WindowRegistry::with_data(pre.registry, post.registry, h, ManagedWindowData {
                    tag,
                    ..pre.registry.lookup(h).data_spec()
                })
            },
            DisplayAction::FocusWindowUnderCursor => effects == seq![Effect::FocusWindowUnderCursor] && unchanged,
            _ => effects == Seq::<Effect>::empty() && unchanged,
        },
    }
}

/// The full contract of a dispatch: it fails exactly when `dispatch_fails` says, with
/// the state untouched; otherwise it does what `dispatch_done` says.
pub open spec fn dispatch_post(pre: Backend, post: Backend, act: InternalAction, r: Result<Vec<Effect>, DispatchError>) -> bool {
    &&& post.config == pre.config
    &&& post.running == pre.running
    &&& (r is Err <==> dispatch_fails(pre, act))
    &&& (r is Err ==> r->Err_0 == dispatch_error(act) && post.registry@ == pre.registry@)
    &&& (r is Ok ==> dispatch_done(pre, post, act, r->Ok_0@))
}

/// The backend state the event loop owns.
pub struct Backend {
    pub registry: WindowRegistry,
    pub config: LeftwmConfig,
    pub running: bool,
}

impl Backend {
    pub open spec fn wf(&self) -> bool {
        self.registry.wf()
    }

    /// `post` is `pre` after a batch update `us` that every window of `pre` took.
    pub open spec fn updated(pre: Backend, post: Backend, us: Seq<WindowUpdate>) -> bool {
        &&& post.registry@.len() == pre.registry@.len()
        &&& forall|i: int| 0 <= i < pre.registry@.len() ==> {
            &&& (#[trigger] post.registry@[i]).data_spec() == (ManagedWindowData {
                geometry: geometry_after(us, i as u64, pre.registry@[i].data_spec().geometry),
                ..pre.registry@[i].data_spec()
            })
            &&& post.registry@[i].surface_spec() == pre.registry@[i].surface_spec()
            &&& post.registry@[i].handle_spec() == pre.registry@[i].handle_spec()
        }
    }

    pub fn new(config: LeftwmConfig) -> (r: Backend)
        ensures
            r.wf(),
            r.registry@.len() == 0,
            r.config == config,
            r.running,
    {
        Backend { registry: WindowRegistry::new(), config, running: true }
    }

    /// Registers a newly created toolkit surface and returns its handle.
    pub fn register_window(&mut self, surface: SurfaceId) -> (h: WindowHandle)
        requires
            old(self).wf(),
            old(self).registry@.len() < u64::MAX,
        ensures
            final(self).wf(),
            final(self).config == old(self).config,
            final(self).running == old(self).running,
            h.id == old(self).registry@.len(),
            final(self).registry@.len() == old(self).registry@.len() + 1,
            final(self).registry@.drop_last() == old(self).registry@,
            final(self).registry.lookup(h).surface_spec() == surface,
            final(self).registry.lookup(h).handle_spec() == Some(h),
            final(self).registry.lookup(h).data_spec() == ManagedWindowData::initial(),
    {
        self.registry.register(surface)
    }

    fn resolve(&self, wh: WmWindowHandle) -> (r: Option<WindowHandle>)
        ensures
            r == resolve(self.registry, wh),
    {
        match wh {
            WmWindowHandle::Smithay(h) => if self.registry.contains(h) { Some(h) } else { None },
            WmWindowHandle::Xlib(_) => None,
        }
    }

    /// Applies a batch geometry update. Every handle is checked first: one that does not
    /// resolve fails the whole batch and leaves the state as it was.
    pub fn update_windows(&mut self, us: &Vec<WindowUpdate>) -> (r: Result<Vec<Effect>, DispatchError>)
        requires
            old(self).wf(),
        ensures
            final(self).wf(),
            final(self).config == old(self).config,
            final(self).running == old(self).running,
            all_resolve(old(self).registry, us@) ==> ok_with(r, update_effects(us@))
                && Backend::updated(*old(self), *final(self), us@),
            !all_resolve(old(self).registry, us@) ==> r == Err::<Vec<Effect>, DispatchError>(DispatchError::InvalidHandle)
                && final(self).registry@ == old(self).registry@,
    {
        let mut k: usize = 0;
        while k < us.len()
            invariant
                k <= us@.len(),
                self.wf(),
                self.config == old(self).config,
                self.running == old(self).running,
                self.registry@ == old(self).registry@,
                forall|j: int| 0 <= j < k ==> (#[trigger] resolve(self.registry, us@[j].handle)) is Some,
            decreases us@.len() - k,
        {
            if self.resolve(us[k].handle).is_none() {
                return Err(DispatchError::InvalidHandle);
            }
            k = k + 1;
        }
        let ghost pre = *self;
        let mut effects: Vec<Effect> = Vec::new();
        let mut i: usize = 0;
        while i < us.len()
            invariant
                i <= us@.len(),
                self.wf(),
                self.config == pre.config,
                self.running == pre.running,
                all_resolve(pre.registry, us@),
                self.registry@.len() == pre.registry@.len(),
                Backend::updated(pre, *self, us@.take(i as int)),
                effects@ == update_effects(us@.take(i as int)),
            decreases us@.len() - i,
        {
            let u = us[i];
            let ghost mid = *self;
            assert(resolve(pre.registry, us@[i as int].handle) is Some);
            let h = self.resolve(u.handle).unwrap();
            let x = u.x as i64 - PLACEMENT_OFFSET as i64;
            let y = u.y as i64 - PLACEMENT_OFFSET as i64;
            let mut d = self.registry.get(h).data();
            d.geometry = Some(Rectangle { x, y, width: u.width, height: u.height });
            self.registry.set_data(h, d);
            effects.push(Effect::MapWindow(h, x, y));
            effects.push(Effect::ResizeWindow(h, u.width, u.height));
            effects.push(Effect::SendConfigure(h));
            proof {
                let s = us@.take(i as int + 1);
                assert(s.drop_last() =~= us@.take(i as int));
                assert(s.last() == u);
                assert forall|j: int| 0 <= j < pre.registry@.len() implies {
                    &&& (#[trigger] self.registry@[j]).data_spec() == (ManagedWindowData {
                        geometry: geometry_after(s, j as u64, pre.registry@[j].data_spec().geometry),
                        ..pre.registry@[j].data_spec()
                    })
                    &&& self.registry@[j].surface_spec() == pre.registry@[j].surface_spec()
                    &&& self.registry@[j].handle_spec() == pre.registry@[j].handle_spec()
                } by {
                    if j == h.id as int {
                        assert(self.registry@[j] == self.registry.lookup(h));
                        assert(mid.registry@[j] == mid.registry.lookup(h));
                    } else {
                        assert(self.registry@[j] == mid.registry@[j]);
                        assert(WindowHandle { id: j as u64 } != h);
                    }
                }
                assert(effects@ =~= update_effects(us@.take(i as int)) + effects_of_update(u));
            }
            i = i + 1;
        }
        assert(us@.take(us@.len() as int) =~= us@);
        Ok(effects)
    }

    /// Interprets one action from the core and applies it to the backend state.
    pub fn dispatch(&mut self, act: InternalAction) -> (r: Result<Vec<Effect>, DispatchError>)
        requires
            old(self).wf(),
        ensures
            final(self).wf(),
            dispatch_post(*old(self), *final(self), act, r),
    {
        match act {
            InternalAction::Flush => Ok(single(Effect::FlushClients)),
            InternalAction::GenerateVerifyFocusEvent => Ok(Vec::new()),
            InternalAction::UpdateWindows(us) => self.update_windows(&us),
            InternalAction::DisplayAction(a) => match a {
                DisplayAction::AddedWindow(wh, floating, focus) => match self.resolve(wh) {
                    Some(h) => {
                        let mut d = self.registry.get(h).data();
                        d.floating = floating;
                        d.managed = true;
                        self.registry.set_data(h, d);
                        if focus {
                            Ok(single(Effect::FocusWindow(h, true)))
                        } else {
                            Ok(Vec::new())
                        }
                    },
                    None => Err(DispatchError::InvalidHandle),
                },
                DisplayAction::WindowTakeFocus(wh, _) => match self.resolve(wh) {
                    Some(h) => Ok(single(Effect::FocusWindow(h, self.config.sloppy_mouse_follows_focus))),
                    None => Err(DispatchError::InvalidHandle),
                },
                DisplayAction::SetWindowTag(wh, tag) => match self.resolve(wh) {
                    Some(h) => {
                        let mut d = self.registry.get(h).data();
                        d.tag = tag;
                        self.registry.set_data(h, d);
                        Ok(Vec::new())
                    },
                    None => Err(DispatchError::InvalidHandle),
                },
                DisplayAction::FocusWindowUnderCursor => Ok(single(Effect::FocusWindowUnderCursor)),
                DisplayAction::SetWindowOrder(..) => Ok(Vec::new()),
                DisplayAction::SetCurrentTags(..) => Ok(Vec::new()),
                _ => Err(DispatchError::Unimplemented),
            },
        }
    }

    /// Handles one delivery of the action channel. A failed dispatch or a closed
    /// channel clears the running flag, so the loop stops before its next tick.
    pub fn on_action_event(&mut self, ev: ActionEvent) -> (r: Vec<Effect>)
        requires
            old(self).wf(),
        ensures
            final(self).wf(),
            final(self).config == old(self).config,
            ev is Closed ==> !final(self).running && r@.len() == 0 && final(self).registry@ == old(self).registry@,
            ev is Msg ==> {
                let act = ev->Msg_0;
                &&& dispatch_fails(*old(self), act) ==> !final(self).running && r@.len() == 0
                    && final(self).registry@ == old(self).registry@
                &&& !dispatch_fails(*old(self), act) ==> final(self).running == old(self).running
                    && dispatch_done(*old(self), *final(self), act, r@)
            },
    {
        match ev {
            ActionEvent::Msg(act) => match self.dispatch(act) {
                Ok(effects) => effects,
                Err(_) => {
                    self.running = false;
                    Vec::new()
                },
            },
            ActionEvent::Closed => {
                self.running = false;
                Vec::new()
            },
        }
    }

    /// Bookkeeping after one pass of the event loop: a failed pass stops the loop,
    /// a good one refreshes the layout and flushes the clients.
    pub fn finish_iteration(&mut self, pass_ok: bool) -> (r: Vec<Effect>)
        requires
            old(self).wf(),
        ensures
            final(self).wf(),
            final(self).registry@ == old(self).registry@,
            final(self).config == old(self).config,
            final(self).running == (old(self).running && pass_ok),
            r@ == (if pass_ok { seq![Effect::RefreshSpace, Effect::FlushClients] } else { Seq::<Effect>::empty() }),
    {
        if pass_ok {
            let mut v = single(Effect::RefreshSpace);
            v.push(Effect::FlushClients);
            assert(v@ =~= seq![Effect::RefreshSpace, Effect::FlushClients]);
            v
        } else {
            self.running = false;
            Vec::new()
        }
    }
}

fn single(e: Effect) -> (r: Vec<Effect>)
    ensures
        r@ == seq![e],
{
    let mut v = Vec::new();
    v.push(e);
    assert(v@ =~= seq![e]);
    v
}

/// A single geometry update for a registered window places that window at the
/// requested point less the correction, with the requested size, and leaves every
/// other window's record as it was.
pub proof fn lemma_single_update(pre: Backend, post: Backend, u: WindowUpdate, h: WindowHandle)
    requires
        pre.wf(),
        u.handle == WmWindowHandle::Smithay(h),
        pre.registry.contains_spec(h),
        Backend::updated(pre, post, seq![u]),
    ensures
        post.registry.lookup(h).data_spec().geometry == Some(Rectangle {
            x: (u.x - PLACEMENT_OFFSET) as i64,
            y: (u.y - PLACEMENT_OFFSET) as i64,
            width: u.width,
            height: u.height,
        }),
        post.registry.lookup(h).data_spec().geometry->Some_0.width == u.width,
        post.registry.lookup(h).data_spec().geometry->Some_0.height == u.height,
        forall|i: int| 0 <= i < pre.registry@.len() && i != h.id ==> (#[trigger] post.registry@[i]).data_spec() == pre.registry@[i].data_spec(),
{
    let us = seq![u];
    reveal_with_fuel(geometry_after, 2);
    assert(us.drop_last() =~= Seq::<WindowUpdate>::empty());
    assert(post.registry@[h.id as int].data_spec().geometry == geometry_after(us, h.id, pre.registry@[h.id as int].data_spec().geometry));
    assert forall|i: int| 0 <= i < pre.registry@.len() && i != h.id implies (#[trigger] post.registry@[i]).data_spec() == pre.registry@[i].data_spec() by {
        assert(u.handle != WmWindowHandle::Smithay(WindowHandle { id: i as u64 }));
        assert(geometry_after(us, i as u64, pre.registry@[i].data_spec().geometry) == pre.registry@[i].data_spec().geometry);
    }
}

/// Suppressed display actions never stop the backend; unimplemented ones always do.
pub proof fn lemma_policy_partition(pre: Backend, a: DisplayAction)
    ensures
        policy_of(a) == ActionPolicy::Suppressed ==> !dispatch_fails(pre, InternalAction::DisplayAction(a)),
        policy_of(a) == ActionPolicy::Unimplemented ==> dispatch_fails(pre, InternalAction::DisplayAction(a))
            && dispatch_error(InternalAction::DisplayAction(a)) == DispatchError::Unimplemented,
{
}

} // verus!
