use vstd::prelude::*;

verus! {

/// A render device (a DRM node) as the session coordinator sees it.
#[derive(PartialEq, Eq, Structural, Clone, Copy, Debug)]
pub struct RenderDevice {
    pub node: u64,
    pub active: bool,
}

/// Work the toolkit performs when the session is paused or resumed.
#[derive(PartialEq, Eq, Structural, Clone, Copy, Debug)]
pub enum SessionEffect {
    SuspendInput,
    /// Resume the input subsystem; a failure is logged and otherwise ignored.
    ResumeInput,
    PauseDevice(u64),
    ActivateDevice(u64),
    /// Reset the saved state and the buffers of every surface of the device, so the
    /// next frame is drawn in full; a failed state reset is logged and ignored.
    ResetSurfaces(u64),
    /// Queue an immediate render pass for the device.
    ScheduleRender(u64),
}

pub open spec fn nodes(ds: Seq<RenderDevice>) -> Seq<u64> {
    ds.map_values(|d: RenderDevice| d.node)
}

pub open spec fn paused(ds: Seq<RenderDevice>) -> Seq<RenderDevice> {
    ds.map_values(|d: RenderDevice| RenderDevice { active: false, ..d })
}

pub open spec fn activated(ds: Seq<RenderDevice>) -> Seq<RenderDevice> {
    ds.map_values(|d: RenderDevice| RenderDevice { active: true, ..d })
}

pub open spec fn pause_effects(ds: Seq<RenderDevice>) -> Seq<SessionEffect>
    decreases ds.len(),
{
    if ds.len() == 0 {
        seq![]
    } else {
        pause_effects(ds.drop_last()).push(SessionEffect::PauseDevice(ds.last().node))
    }
}

pub open spec fn resume_effects(ds: Seq<RenderDevice>) -> Seq<SessionEffect>
    decreases ds.len(),
{
    if ds.len() == 0 {
        seq![]
    } else {
        let n = ds.last().node;
        resume_effects(ds.drop_last()) + seq![
            SessionEffect::ActivateDevice(n),
            SessionEffect::ResetSurfaces(n),
            SessionEffect::ScheduleRender(n),
        ]
    }
}

/// The devices for which `es` schedules a render pass, in order.
pub open spec fn scheduled(es: Seq<SessionEffect>) -> Seq<u64>
    decreases es.len(),
{
    if es.len() == 0 {
        seq![]
    } else {
        let rest = scheduled(es.drop_last());
        match es.last() {
            SessionEffect::ScheduleRender(n) => rest.push(n),
            _ => rest,
        }
    }
}

/// Tracks whether input is suspended and which render devices are active.
pub struct SessionCoordinator {
    pub input_suspended: bool,
    pub devices: Vec<RenderDevice>,
}

impl SessionCoordinator {
    /// Every device appears once.
    pub open spec fn wf(&self) -> bool {
        forall|i: int, j: int| 0 <= i < j < self.devices@.len() ==> self.devices@[i].node != self.devices@[j].node
    }

    pub fn new() -> (r: SessionCoordinator)
        ensures
            r.wf(),
            !r.input_suspended,
            r.devices@.len() == 0,
    {
        SessionCoordinator { input_suspended: false, devices: Vec::new() }
    }

    /// Starts tracking an active device. A node that is already tracked is left as it is.
    pub fn add_device(&mut self, node: u64) -> (added: bool)
        requires
            old(self).wf(),
        ensures
            final(self).wf(),
            final(self).input_suspended == old(self).input_suspended,
            added == !nodes(old(self).devices@).contains(node),
            added ==> final(self).devices@ == old(self).devices@.push(RenderDevice { node, active: true }),
            !added ==> final(self).devices@ == old(self).devices@,
    {
        let mut i: usize = 0;
        while i < self.devices.len()
            invariant
                i <= self.devices@.len(),
                self.wf(),
                self.devices@ == old(self).devices@,
                self.input_suspended == old(self).input_suspended,
                forall|j: int| 0 <= j < i ==> self.devices@[j].node != node,
            decreases self.devices@.len() - i,
        {
            if self.devices[i].node == node {
                assert(nodes(self.devices@)[i as int] == node);
                return false;
            }
            i = i + 1;
        }
        assert(!nodes(self.devices@).contains(node)) by {
            if nodes(self.devices@).contains(node) {
                let k = choose|k: int| 0 <= k < nodes(self.devices@).len() && nodes(self.devices@)[k] == node;
                assert(self.devices@[k].node == node);
            }
        }
        self.devices.push(RenderDevice { node, active: true });
        true
    }

    /// The session was switched away from: suspend input and pause every device.
    pub fn pause(&mut self) -> (r: Vec<SessionEffect>)
        requires
            old(self).wf(),
        ensures
            final(self).wf(),
            final(self).input_suspended,
            final(self).devices@ == paused(old(self).devices@),
            r@ == seq![SessionEffect::SuspendInput] + pause_effects(old(self).devices@),
    {
        let ghost ds = self.devices@;
        let mut r: Vec<SessionEffect> = Vec::new();
        r.push(SessionEffect::SuspendInput);
        self.input_suspended = true;
        let mut i: usize = 0;
        while i < self.devices.len()
            invariant
                i <= self.devices@.len(),
                self.devices@.len() == ds.len(),
                self.input_suspended,
                forall|j: int| 0 <= j < i ==> #[trigger] self.devices@[j] == (RenderDevice { active: false, ..ds[j] }),
                forall|j: int| i <= j < ds.len() ==> #[trigger] self.devices@[j] == ds[j],
                r@ == seq![SessionEffect::SuspendInput] + pause_effects(ds.take(i as int)),
            decreases ds.len() - i,
        {
            let d = self.devices[i];
            self.devices.set(i, RenderDevice { node: d.node, active: false });
            r.push(SessionEffect::PauseDevice(d.node));
            assert(ds.take(i as int + 1).drop_last() =~= ds.take(i as int));
            i = i + 1;
        }
        assert(ds.take(ds.len() as int) =~= ds);
        assert(self.devices@ =~= paused(ds));
        r
    }

    /// The session is back: resume input, reactivate every device, reset its surfaces
    /// for a full redraw and schedule one render pass for it.
    pub fn resume(&mut self) -> (r: Vec<SessionEffect>)
        requires
            old(self).wf(),
        ensures
            final(self).wf(),
            !final(self).input_suspended,
            final(self).devices@ == activated(old(self).devices@),
            r@ == seq![SessionEffect::ResumeInput] + resume_effects(old(self).devices@),
    {
        let ghost ds = self.devices@;
        let mut r: Vec<SessionEffect> = Vec::new();
        r.push(SessionEffect::ResumeInput);
        self.input_suspended = false;
        let mut i: usize = 0;
        while i < self.devices.len()
            invariant
                i <= self.devices@.len(),
                self.devices@.len() == ds.len(),
                !self.input_suspended,
                forall|j: int| 0 <= j < i ==> #[trigger] self.devices@[j] == (RenderDevice { active: true, ..ds[j] }),
                forall|j: int| i <= j < ds.len() ==> #[trigger] self.devices@[j] == ds[j],
                r@ == seq![SessionEffect::ResumeInput] + resume_effects(ds.take(i as int)),
            decreases ds.len() - i,
        {
            let d = self.devices[i];
            self.devices.set(i, RenderDevice { node: d.node, active: true });
            r.push(SessionEffect::ActivateDevice(d.node));
            r.push(SessionEffect::ResetSurfaces(d.node));
            r.push(SessionEffect::ScheduleRender(d.node));
            assert(ds.take(i as int + 1).drop_last() =~= ds.take(i as int));
            assert(r@ =~= seq![SessionEffect::ResumeInput] + resume_effects(ds.take(i as int + 1)));
            i = i + 1;
        }
        assert(ds.take(ds.len() as int) =~= ds);
        assert(self.devices@ =~= activated(ds));
        r
    }
}

proof fn lemma_scheduled_append(a: Seq<SessionEffect>, b: Seq<SessionEffect>)
    ensures
        scheduled(a + b) == scheduled(a) + scheduled(b),
    decreases b.len(),
{
    if b.len() == 0 {
        assert(a + b =~= a);
        assert(scheduled(a) + scheduled(b) =~= scheduled(a));
    } else {
        assert((a + b).drop_last() =~= a + b.drop_last());
        lemma_scheduled_append(a, b.drop_last());
        match b.last() {
            SessionEffect::ScheduleRender(n) => {
                assert(scheduled(a) + scheduled(b) =~= (scheduled(a) + scheduled(b.drop_last())).push(n));
            },
            _ => {},
        }
    }
}

proof fn lemma_resume_schedules(ds: Seq<RenderDevice>)
    ensures
        scheduled(resume_effects(ds)) == nodes(ds),
    decreases ds.len(),
{
    if ds.len() == 0 {
        assert(nodes(ds) =~= seq![]);
    } else {
        let n = ds.last().node;
        let tail = seq![SessionEffect::ActivateDevice(n), SessionEffect::ResetSurfaces(n), SessionEffect::ScheduleRender(n)];
        lemma_resume_schedules(ds.drop_last());
        lemma_scheduled_append(resume_effects(ds.drop_last()), tail);
        assert(tail.drop_last().drop_last().drop_last() =~= seq![]);
        assert(tail.drop_last().drop_last() =~= seq![SessionEffect::ActivateDevice(n)]);
        assert(tail.drop_last() =~= seq![SessionEffect::ActivateDevice(n), SessionEffect::ResetSurfaces(n)]);
        reveal_with_fuel(scheduled, 4);
        assert(scheduled(tail) =~= seq![n]);
        assert(nodes(ds) =~= nodes(ds.drop_last()).push(n));
    }
}

/// A pause followed at once by a resume leaves every device active and schedules
/// exactly one render pass per device, in device order.
pub proof fn lemma_pause_resume(ds: Seq<RenderDevice>)
    ensures
        forall|i: int| 0 <= i < ds.len() ==> (#[trigger] activated(paused(ds))[i]).active,
        nodes(activated(paused(ds))) == nodes(ds),
        scheduled(seq![SessionEffect::ResumeInput] + resume_effects(paused(ds))) == nodes(ds),
{
    lemma_resume_schedules(paused(ds));
    lemma_scheduled_append(seq![SessionEffect::ResumeInput], resume_effects(paused(ds)));
    assert(scheduled(seq![SessionEffect::ResumeInput]) =~= seq![]) by {
        assert(seq![SessionEffect::ResumeInput].drop_last() =~= seq![]);
        reveal_with_fuel(scheduled, 2);
    }
    assert(nodes(paused(ds)) =~= nodes(ds));
    assert(nodes(activated(paused(ds))) =~= nodes(ds));
    assert(seq![] + nodes(ds) =~= nodes(ds));
}

} // verus!
