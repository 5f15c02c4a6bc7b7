use vstd::prelude::*;

use crate::error::Error;
use crate::error::Violation;
use crate::mem;
use crate::mem::Buffer;
use crate::mem::Mem;
use crate::reg::WithRx;
use crate::wire::Action;
use crate::wire::Anchor;
use crate::wire::BufferEvent;
use crate::wire::Layer;
use crate::wire::LayerSurfaceEvent;
use crate::wire::PixelFormat;
use crate::wire::SurfaceEvent;
use crate::wire::WindowEvent;

verus! {

/// The size of an overlay surface in pixels.
#[derive(Debug, Clone, Copy, PartialEq, Eq, Structural)]
pub struct Size {
    pub width: usize,
    pub height: usize,
}

impl Size {
    pub fn zeroed() -> (size: Self)
        ensures
            size.width == 0,
            size.height == 0,
    {
        Self { width: 0, height: 0 }
    }

    /// True where the width can be sent as a size and the height both as a
    /// size and as an exclusive zone, which the wire takes as signed.
    pub open spec fn fits(self) -> bool {
        self.width <= u32::MAX && self.height <= i32::MAX
    }

    pub fn width(&self) -> (w: u32)
        requires
            self.width <= u32::MAX,
        ensures
            w == self.width,
    {
        self.width as u32
    }

    pub fn height(&self) -> (h: u32)
        requires
            self.height <= u32::MAX,
        ensures
            h == self.height,
    {
        self.height as u32
    }

    /// True where a configure event of this width and height leaves the size
    /// as requested. A dimension of zero leaves the choice to the client.
    pub open spec fn agrees(self, width: u32, height: u32) -> bool {
        &&& width == 0 || width == self.width
        &&& height == 0 || height == self.height
    }
}

/// What the controller knows of the size it has asked for.
#[derive(Debug, Clone, Copy, PartialEq, Eq, Structural)]
pub struct Known {
    pub size: Option<Size>,
}

impl Known {
    /// The size asked for; zero by zero while none was.
    pub open spec fn spec_size(self) -> Size {
        match self.size {
            Some(size) => size,
            None => Size { width: 0, height: 0 },
        }
    }

    pub fn size(&self) -> (size: Size)
        ensures
            size == self.spec_size(),
    {
        match self.size {
            Some(size) => size,
            None => Size::zeroed(),
        }
    }
}

impl Default for Known {
    fn default() -> (known: Self)
        ensures
            known.size is None,
    {
        Self { size: None }
    }
}

/// Where a surface pair stands in its handshake with the server.
#[derive(Debug, Clone, Copy, PartialEq, Eq, Structural)]
pub enum Phase {
    /// The two surfaces exist and the first, empty commit is on its way.
    Created,
    /// The server's configure event is awaited or has been acknowledged.
    Configuring,
    /// A buffer is attached and committed.
    Attached,
    /// Frames are drawn.
    Steady,
}

impl Phase {
    /// The place of a phase in the one order the phases are gone through.
    pub open spec fn rank(self) -> nat {
        match self {
            Phase::Created => 0,
            Phase::Configuring => 1,
            Phase::Attached => 2,
            Phase::Steady => 3,
        }
    }
}

/// The damage rectangle that covers any surface.
pub open spec fn whole_surface() -> Action {
    Action::Damage { x: 0, y: 0, width: i32::MAX, height: i32::MAX }
}

/// How many events at the head of `q` are of no concern to the handshake.
pub open spec fn leading_others(q: Seq<LayerSurfaceEvent>) -> nat
    decreases q.len(),
{
    if q.len() > 0 && q[0] is Other {
        1 + leading_others(q.drop_first())
    } else {
        0
    }
}

proof fn lemma_leading_others(q: Seq<LayerSurfaceEvent>, j: int)
    requires
        0 <= j <= q.len(),
        forall|i: int| 0 <= i < j ==> q[i] is Other,
    ensures
        leading_others(q) == j + leading_others(q.skip(j)),
    decreases j,
{
    if j == 0 {
        assert(q.skip(0) =~= q);
    } else {
        let rest = q.drop_first();
        assert forall|i: int| 0 <= i < j - 1 implies rest[i] is Other by {
            assert(rest[i] == q[i + 1]);
        }
        lemma_leading_others(rest, j - 1);
        assert(rest.skip(j - 1) =~= q.skip(j));
    }
}

/// The controller of one surface pair: a base surface with the overlay role
/// on one output. It goes through its phases one way and never back.
#[derive(Debug, Clone, Copy, PartialEq, Eq, Structural)]
pub struct Out {
    /// The output the pair is bound to, by the name the registry gave it.
    pub output: u32,
    pub layer: Layer,
    pub known: Known,
    /// Whether a configure event has been acknowledged.
    pub ack: bool,
    pub phase: Phase,
    /// The buffer object that is attached to the base surface.
    pub attached: Option<Buffer>,
}

impl Out {
    /// The size asked for can be sent, a buffer is attached exactly from the
    /// phase `Attached` on, and none was attached before the server's
    /// configure event was acknowledged.
    pub open spec fn wf(&self) -> bool {
        &&& self.known.spec_size().fits()
        &&& self.phase is Created ==> !self.ack
        &&& self.phase is Created || self.phase is Configuring <==> self.attached is None
        &&& self.attached is Some ==> self.ack
    }

    pub open spec fn spec_new(output: u32, layer: Layer, size: Size) -> Out {
        Out {
            output,
            layer,
            known: Known { size: Some(size) },
            ack: false,
            phase: Phase::Created,
            attached: None,
        }
    }

    /// The controller of a pair that is about to be created on `output` and
    /// asks for `size`. It fails where the size cannot be sent. The caller
    /// carries out `creation_plan` for it.
    pub fn new(output: u32, layer: Layer, size: Size) -> (r: Result<Self, Error>)
        ensures
            size.fits() ==> r == Ok::<Out, Error>(Self::spec_new(output, layer, size)),
            !size.fits() ==> r == Err::<Out, Error>(Error::IoError),
            r matches Ok(out) ==> out.wf(),
    {
        if size.width as u64 > u32::MAX as u64 || size.height as u64 > i32::MAX as u64 {
            return Err(Error::IoError);
        }
        Ok(
            Out {
                output,
                layer,
                known: Known { size: Some(size) },
                ack: false,
                phase: Phase::Created,
                attached: None,
            },
        )
    }

    /// The request that anchors the overlay surface to the top edge.
    pub fn configure(&self) -> (a: Action)
        ensures
            a == (Action::SetAnchor { anchor: Anchor::Top }),
    {
        Action::SetAnchor { anchor: Anchor::Top }
    }

    /// The request that commits the base surface.
    pub fn commit(&self) -> (a: Action)
        ensures
            a == Action::Commit,
    {
        Action::Commit
    }

    /// What creates the pair: the base surface, its overlay role, the size
    /// asked for, the anchor, the exclusive zone, which is as tall as the
    /// surface, and a first commit without a buffer.
    pub open spec fn spec_creation_plan(self) -> Seq<Action> {
        seq![
            Action::CreateSurface,
            Action::GetLayerSurface { output: self.output, layer: self.layer },
            Action::SetSize {
                width: self.known.spec_size().width as u32,
                height: self.known.spec_size().height as u32,
            },
            Action::SetAnchor { anchor: Anchor::Top },
            Action::SetExclusiveZone { zone: self.known.spec_size().height as i32 },
            Action::Commit,
        ]
    }

    pub fn creation_plan(&self) -> (plan: Vec<Action>)
        requires
            self.wf(),
        ensures
            plan@ == self.spec_creation_plan(),
    {
        let size = self.known.size();
        let mut plan: Vec<Action> = Vec::new();
        plan.push(Action::CreateSurface);
        plan.push(Action::GetLayerSurface { output: self.output, layer: self.layer });
        plan.push(Action::SetSize { width: size.width(), height: size.height() });
        plan.push(self.configure());
        plan.push(Action::SetExclusiveZone { zone: size.height as i32 });
        plan.push(self.commit());
        plan
    }

    /// The phase once the handshake has begun.
    pub open spec fn begun(phase: Phase) -> Phase {
        if phase is Created {
            Phase::Configuring
        } else {
            phase
        }
    }

    /// What an event of the overlay surface does to the controller, and what
    /// is answered. A configure event that agrees with the size asked for is
    /// acknowledged by its serial; one that disagrees is a violation, and so
    /// is the closing of the surface.
    pub open spec fn spec_on_layer_surface(self, e: LayerSurfaceEvent) -> (
        Out,
        Result<Option<Action>, Error>,
    ) {
        match e {
            LayerSurfaceEvent::Configure { serial, width, height } => {
                if self.known.spec_size().agrees(width, height) {
                    (
                        Out { ack: true, phase: Self::begun(self.phase), ..self },
                        Ok(Some(Action::AckConfigure { serial })),
                    )
                } else {
                    (self, Err(Error::ProtocolViolation(Violation::ConfigureMismatch)))
                }
            },
            LayerSurfaceEvent::Closed => (
                self,
                Err(Error::ProtocolViolation(Violation::SurfaceClosed)),
            ),
            LayerSurfaceEvent::Other => (self, Ok(None)),
        }
    }

    pub fn on_layer_surface(&mut self, e: LayerSurfaceEvent) -> (r: Result<Option<Action>, Error>)
        requires
            old(self).wf(),
        ensures
            final(self).wf(),
            old(self).phase.rank() <= final(self).phase.rank(),
            (*final(self), r) == old(self).spec_on_layer_surface(e),
    {
        match e {
            LayerSurfaceEvent::Configure { serial, width, height } => {
                let size = self.known.size();
                let width_agrees = width == 0 || width as u64 == size.width as u64;
                let height_agrees = height == 0 || height as u64 == size.height as u64;
                if width_agrees && height_agrees {
                    self.ack = true;
                    if self.phase == Phase::Created {
                        self.phase = Phase::Configuring;
                    }
                    Ok(Some(Action::AckConfigure { serial }))
                } else {
                    Err(Error::ProtocolViolation(Violation::ConfigureMismatch))
                }
            },
            LayerSurfaceEvent::Closed => Err(Error::ProtocolViolation(Violation::SurfaceClosed)),
            LayerSurfaceEvent::Other => Ok(None),
        }
    }

    /// What an event of the base surface is answered with. Entering or
    /// leaving the output the pair is bound to is in order; any other output,
    /// and any other event, is a violation.
    pub open spec fn spec_on_surface(self, e: SurfaceEvent) -> Result<(), Error> {
        match e {
            SurfaceEvent::Enter { output } | SurfaceEvent::Leave { output } => {
                if output == self.output {
                    Ok(())
                } else {
                    Err(Error::ProtocolViolation(Violation::ForeignOutput))
                }
            },
            _ => Err(Error::ProtocolViolation(Violation::UnexpectedEvent)),
        }
    }

    pub fn on_surface(&self, e: SurfaceEvent) -> (r: Result<(), Error>)
        ensures
            r == self.spec_on_surface(e),
    {
        match e {
            SurfaceEvent::Enter { output } => {
                if output == self.output {
                    Ok(())
                } else {
                    Err(Error::ProtocolViolation(Violation::ForeignOutput))
                }
            },
            SurfaceEvent::Leave { output } => {
                if output == self.output {
                    Ok(())
                } else {
                    Err(Error::ProtocolViolation(Violation::ForeignOutput))
                }
            },
            _ => Err(Error::ProtocolViolation(Violation::UnexpectedEvent)),
        }
    }

    /// What an event of the buffer object is answered with. The release of
    /// the buffer is taken note of and nothing follows from it.
    pub open spec fn spec_on_buffer(e: BufferEvent) -> Result<(), Error> {
        match e {
            BufferEvent::Release => Ok(()),
            BufferEvent::Other => Err(Error::ProtocolViolation(Violation::UnexpectedEvent)),
        }
    }

    pub fn on_buffer(&self, e: BufferEvent) -> (r: Result<(), Error>)
        ensures
            r == Self::spec_on_buffer(e),
    {
        match e {
            BufferEvent::Release => Ok(()),
            BufferEvent::Other => Err(Error::ProtocolViolation(Violation::UnexpectedEvent)),
        }
    }

    /// What anything the pair hears does to the controller, and what is
    /// answered: each event as the handler of its object has it. Only an
    /// event of the overlay surface changes the controller or asks for
    /// anything.
    pub open spec fn spec_event(self, e: WindowEvent) -> (Out, Result<Option<Action>, Error>) {
        match e {
            WindowEvent::LayerSurface(l) => self.spec_on_layer_surface(l),
            WindowEvent::Surface(s) => match self.spec_on_surface(s) {
                Ok(_) => (self, Ok(None)),
                Err(e) => (self, Err(e)),
            },
            WindowEvent::Buffer(b) => match Self::spec_on_buffer(b) {
                Ok(_) => (self, Ok(None)),
                Err(e) => (self, Err(e)),
            },
        }
    }

    pub fn event(&mut self, e: WindowEvent) -> (r: Result<Option<Action>, Error>)
        requires
            old(self).wf(),
        ensures
            final(self).wf(),
            old(self).phase.rank() <= final(self).phase.rank(),
            (*final(self), r) == old(self).spec_event(e),
    {
        match e {
            WindowEvent::LayerSurface(l) => self.on_layer_surface(l),
            WindowEvent::Surface(s) => {
                self.on_surface(s)?;
                Ok(None)
            },
            WindowEvent::Buffer(b) => {
                self.on_buffer(b)?;
                Ok(None)
            },
        }
    }

    /// Looks through the events that wait in `rx` for the server's configure
    /// event. Events of no concern are dropped until one decides: a configure
    /// event or the closing of the surface, answered as `spec_on_layer_surface`
    /// says. Where the queue runs dry first, `None` asks the caller to wait
    /// for the server and to come back. Once a buffer is attached there is
    /// nothing to wait for, and the call is out of order.
    pub fn wait_ack(&mut self, rx: &mut WithRx<LayerSurfaceEvent>) -> (r: Result<
        Option<Action>,
        Error,
    >)
        requires
            old(self).wf(),
        ensures
            final(self).wf(),
            old(self).phase.rank() <= final(self).phase.rank(),
            final(rx).proxy == old(rx).proxy,
            old(self).attached is Some ==> {
                &&& r == Err::<Option<Action>, Error>(
                    Error::ProtocolViolation(Violation::OutOfOrder),
                )
                &&& *final(self) == *old(self)
                &&& final(rx).rx@ == old(rx).rx@
            },
            old(self).attached is None && leading_others(old(rx).rx@) == old(rx).rx@.len() ==> {
                &&& r == Ok::<Option<Action>, Error>(None)
                &&& *final(self) == old(self).waiting()
                &&& final(rx).rx@ == Seq::<LayerSurfaceEvent>::empty()
            },
            old(self).attached is None && leading_others(old(rx).rx@) < old(rx).rx@.len() ==> {
                let k = leading_others(old(rx).rx@) as int;
                &&& (*final(self), r) == old(self).waiting().spec_on_layer_surface(old(rx).rx@[k])
                &&& final(rx).rx@ == old(rx).rx@.skip(k + 1)
            },
    {
        if self.attached.is_some() {
            return Err(Error::ProtocolViolation(Violation::OutOfOrder));
        }
        self.phase = Phase::Configuring;
        let ghost q = old(rx).rx@;
        let ghost mut j: int = 0;
        loop
            invariant
                0 <= j <= q.len(),
                forall|i: int| 0 <= i < j ==> q[i] is Other,
                rx.rx@ == q.skip(j),
                rx.proxy == old(rx).proxy,
                q == old(rx).rx@,
                *self == old(self).waiting(),
                old(self).wf(),
                old(self).attached is None,
                self.wf(),
            decreases q.len() - j,
        {
            match rx.try_recv_event() {
                None => {
                    proof {
                        lemma_leading_others(q, j);
                        assert(rx.rx@ =~= Seq::<LayerSurfaceEvent>::empty());
                    }
                    return Ok(None);
                },
                Some(LayerSurfaceEvent::Other) => {
                    proof {
                        assert(q.skip(j)[0] == q[j]);
                        assert(q.skip(j).drop_first() =~= q.skip(j + 1));
                        j = j + 1;
                    }
                },
                Some(e) => {
                    proof {
                        lemma_leading_others(q, j);
                        assert(q.skip(j)[0] == q[j]);
                        assert(q.skip(j).drop_first() =~= q.skip(j + 1));
                    }
                    return self.on_layer_surface(e);
                },
            }
        }
    }

    /// The controller once it has begun to wait for the configure event.
    pub open spec fn waiting(self) -> Out {
        Out { phase: Phase::Configuring, ..self }
    }

    /// True where a buffer may be attached for the first time: the configure
    /// event has been acknowledged and no buffer is attached yet.
    pub open spec fn may_attach(self) -> bool {
        self.phase is Configuring && self.ack
    }

    /// What `attach` asks of the caller.
    pub open spec fn attach_plan() -> Seq<Action> {
        seq![Action::Attach { x: 0, y: 0 }, whole_surface(), Action::Commit]
    }

    /// Attaches `buffer` to the base surface, marks the whole surface as
    /// changed and commits. Before the configure event is acknowledged, and
    /// once a buffer is attached, the call is out of order and asks for
    /// nothing.
    pub fn attach(&mut self, buffer: &Buffer) -> (r: Result<Vec<Action>, Error>)
        requires
            old(self).wf(),
        ensures
            final(self).wf(),
            old(self).phase.rank() <= final(self).phase.rank(),
            old(self).may_attach() ==> r is Ok && r->Ok_0@ == Self::attach_plan(),
            old(self).may_attach() ==> *final(self) == old(self).with_buffer(
                Phase::Attached,
                *buffer,
            ),
            !old(self).may_attach() ==> r == Err::<Vec<Action>, Error>(
                Error::ProtocolViolation(Violation::OutOfOrder),
            ),
            !old(self).may_attach() ==> *final(self) == *old(self),
    {
        if !(self.phase == Phase::Configuring && self.ack) {
            return Err(Error::ProtocolViolation(Violation::OutOfOrder));
        }
        self.phase = Phase::Attached;
        self.attached = Some(*buffer);
        let mut plan: Vec<Action> = Vec::new();
        plan.push(Action::Attach { x: 0, y: 0 });
        plan.push(Action::Damage { x: 0, y: 0, width: i32::MAX, height: i32::MAX });
        plan.push(self.commit());
        Ok(plan)
    }

    /// The controller in `phase` with `buffer` attached.
    pub open spec fn with_buffer(self, phase: Phase, buffer: Buffer) -> Out {
        Out { phase, attached: Some(buffer), ..self }
    }

    /// What one frame asks of the caller.
    pub open spec fn redraw_plan() -> Seq<Action> {
        seq![whole_surface(), Action::Commit, Action::Roundtrip]
    }

    /// One frame: the whole surface is marked as changed and committed, and
    /// the server is waited for. It needs a buffer to be attached, and leaves
    /// the pair in the steady state.
    pub fn redraw(&mut self) -> (r: Result<Vec<Action>, Error>)
        requires
            old(self).wf(),
        ensures
            final(self).wf(),
            old(self).phase.rank() <= final(self).phase.rank(),
            old(self).attached is Some ==> r is Ok && r->Ok_0@ == Self::redraw_plan(),
            old(self).attached is Some ==> *final(self) == old(self).steady(),
            old(self).attached is None ==> r == Err::<Vec<Action>, Error>(
                Error::ProtocolViolation(Violation::OutOfOrder),
            ),
            old(self).attached is None ==> *final(self) == *old(self),
    {
        if self.attached.is_none() {
            return Err(Error::ProtocolViolation(Violation::OutOfOrder));
        }
        self.phase = Phase::Steady;
        let mut plan: Vec<Action> = Vec::new();
        plan.push(Action::Damage { x: 0, y: 0, width: i32::MAX, height: i32::MAX });
        plan.push(self.commit());
        plan.push(Action::Roundtrip);
        Ok(plan)
    }

    /// The controller in the steady state.
    pub open spec fn steady(self) -> Out {
        Out { phase: Phase::Steady, ..self }
    }

    /// What `resize` asks of the caller, in this order: the overlay surface
    /// gets its new size and an exclusive zone as tall as it, the pool is
    /// resized, which destroys the current buffer first, the new buffer is
    /// attached, and the server is waited for once.
    pub open spec fn resize_plan(size: mem::Size, format: PixelFormat) -> Seq<Action> {
        seq![
            Action::SetSize { width: size.width as u32, height: size.height as u32 },
            Action::SetExclusiveZone { zone: size.height as i32 },
        ] + Mem::resize_plan(size, format) + seq![Action::Attach { x: 0, y: 0 }, Action::Roundtrip]
    }

    /// The controller after a resize that succeeded.
    pub open spec fn resized(self, width: usize, height: usize, buffer: Buffer) -> Out {
        Out { known: Known { size: Some(Size { width, height }) }, attached: Some(buffer), ..self }
    }

    /// True where `resize` succeeds: the pair is in the steady state, the
    /// pool has a buffer, and the new byte length fits the wire.
    pub open spec fn may_resize(self, pool: Mem, width: usize, height: usize) -> bool {
        &&& self.phase is Steady
        &&& pool.buffer is Some
        &&& mem::Size::spec_of_pixels(width, height).fits_wire()
    }

    /// Gives the overlay surface and its buffer a new size. Outside the
    /// steady state the call is out of order; a size whose bytes do not fit
    /// the wire is a failure of the shared memory. On failure nothing changes
    /// and nothing is asked for.
    pub fn resize(&mut self, pool: &mut Mem, width: usize, height: usize) -> (r: Result<
        Vec<Action>,
        Error,
    >)
        requires
            old(self).wf(),
            old(pool).wf(),
        ensures
            final(self).wf(),
            old(self).phase.rank() <= final(self).phase.rank(),
            final(pool).wf(),
            r is Ok <==> old(self).may_resize(*old(pool), width, height),
            r is Err ==> *final(self) == *old(self) && *final(pool) == *old(pool),
            !(old(self).phase is Steady) || old(pool).buffer is None ==> r == Err::<
                Vec<Action>,
                Error,
            >(Error::ProtocolViolation(Violation::OutOfOrder)),
            old(self).phase is Steady && old(pool).buffer is Some && r is Err ==> r == Err::<
                Vec<Action>,
                Error,
            >(Error::IoError),
            r matches Ok(plan) ==> plan@ == Self::resize_plan(
                mem::Size::spec_of_pixels(width, height),
                old(pool).buffer->Some_0.format,
            ),
            r is Ok ==> *final(pool) == Mem::resized(
                mem::Size::spec_of_pixels(width, height),
                old(pool).buffer->Some_0.format,
            ),
            r is Ok ==> *final(self) == old(self).resized(
                width,
                height,
                final(pool).buffer->Some_0,
            ),
    {
        if self.phase != Phase::Steady {
            return Err(Error::ProtocolViolation(Violation::OutOfOrder));
        }
        let mut pool_plan = pool.resize(width, height)?;
        proof {
            mem::lemma_extent_fits(mem::Size::spec_of_pixels(width, height));
        }
        self.known = Known { size: Some(Size { width, height }) };
        self.attached = pool.buffer;
        let mut plan: Vec<Action> = Vec::new();
        plan.push(Action::SetSize { width: width as u32, height: height as u32 });
        plan.push(Action::SetExclusiveZone { zone: height as i32 });
        plan.append(&mut pool_plan);
        plan.push(Action::Attach { x: 0, y: 0 });
        plan.push(Action::Roundtrip);
        Ok(plan)
    }

    /// A resize of the surface keeps the buffer's lifetime: the buffer that
    /// is current is destroyed before the segment changes and before the new
    /// buffer is created, and one buffer is alive when it is attached.
    pub proof fn resize_keeps_lifetime(size: mem::Size, format: PixelFormat)
        ensures
            mem::lifetime_kept(Self::resize_plan(size, format), true),
            mem::live_at(
                Self::resize_plan(size, format),
                true,
                Self::resize_plan(size, format).len() as int,
            ),
    {
        let head = seq![
            Action::SetSize { width: size.width as u32, height: size.height as u32 },
            Action::SetExclusiveZone { zone: size.height as i32 },
        ];
        let pool_plan = Mem::resize_plan(size, format);
        let tail = seq![Action::Attach { x: 0, y: 0 }, Action::Roundtrip];
        Mem::resize_destroys_before_it_creates(size, format);
        mem::idle_plan_keeps_lifetime(head, true);
        mem::idle_plan_keeps_lifetime(tail, true);
        mem::lifetime_kept_in_sequence(head, pool_plan, true);
        mem::lifetime_kept_in_sequence(head + pool_plan, tail, true);
    }
}

} // verus!
