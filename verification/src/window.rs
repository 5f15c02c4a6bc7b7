use vstd::prelude::*;

use crate::error::Error;
use crate::error::Violation;
use crate::gate::Mode;
use crate::mem;
use crate::mem::Buffer;
use crate::mem::Mem;
use crate::out;
use crate::out::Out;
use crate::out::Phase;
use crate::wire::Action;
use crate::wire::Layer;
use crate::wire::PixelFormat;
use crate::wire::WindowEvent;
use crate::wire::BYTES_PER_PIXEL;

verus! {

/// What can be done with a window once it is created.
#[derive(Debug, Clone, Copy, PartialEq, Eq, Structural)]
pub enum Op {
    /// An event is handed to it.
    Hear(WindowEvent),
    /// Its buffer is attached.
    Attach,
    /// A frame is drawn.
    Tick,
    /// It is given a new height.
    SetHeight(usize),
}

/// The actions that an answer asks for: none where it is a failure.
pub open spec fn asked(r: Result<Vec<Action>, Error>) -> Seq<Action> {
    match r {
        Ok(plan) => plan@,
        Err(_) => Seq::empty(),
    }
}

/// The action that the answer to an event asks for, if any.
pub open spec fn asked_of_event(r: Result<Option<Action>, Error>) -> Seq<Action> {
    match r {
        Ok(Some(a)) => seq![a],
        _ => Seq::empty(),
    }
}

/// One output's window: its surface pair and the pool its buffer lives in.
#[derive(Debug, Clone, Copy, PartialEq, Eq, Structural)]
pub struct Window {
    /// The output the window is on, by the name the registry gave it.
    pub output: u32,
    /// The extent of the buffer in pixels.
    pub mode: Mode,
    pub surface: Out,
    pub pool: Mem,
}

impl Window {
    /// The surface pair is on the window's output and asks for the size of
    /// the window's mode, the pool holds a buffer of exactly that extent, and
    /// the buffer that is attached, if one is, is the pool's.
    pub open spec fn wf(&self) -> bool {
        &&& self.surface.wf()
        &&& self.pool.wf()
        &&& self.surface.output == self.output
        &&& self.surface.known.spec_size() == self.mode.asked()
        &&& self.pool.shared.size == self.mode.extent()
        &&& self.pool.buffer is Some
        &&& self.surface.attached is Some ==> self.surface.attached == self.pool.buffer
    }

    /// The window that `new` gives, where it gives one: the pair is about to
    /// be created and asks for the size of the mode, the pool is as long as
    /// the mode needs, and its buffer is in 32-bit ARGB.
    pub open spec fn spec_new(output: u32, mode: Mode, layer: Layer) -> Window {
        Window {
            output,
            mode,
            surface: Out::spec_new(output, layer, mode.asked()),
            pool: Mem {
                buffer: Some(Buffer::covering(mode.extent(), PixelFormat::Argb8888)),
                ..Mem::spec_new(mode.extent())
            },
        }
    }

    /// A window on `output` with a buffer of `mode`. It fails where the
    /// buffer would be empty or longer than the wire can say. The caller
    /// carries out `creation_plan` for it.
    pub fn new(output: u32, mode: Mode, layer: Layer) -> (r: Result<Self, Error>)
        ensures
            mode.extent().fits_wire() ==> r == Ok::<Window, Error>(
                Self::spec_new(output, mode, layer),
            ),
            !mode.extent().fits_wire() ==> r == Err::<Window, Error>(Error::IoError),
            r matches Ok(window) ==> window.wf() && window.pool.shared.raw.len == mode.width
                * mode.height * 4,
    {
        let size = mem::Size::of_pixels(mode.width, mode.height);
        let mut pool = Mem::new(size)?;
        proof {
            mem::lemma_extent_fits(size);
        }
        pool.make_buffer(
            mode.width as i32,
            mode.height as i32,
            (mode.width * BYTES_PER_PIXEL) as i32,
            PixelFormat::Argb8888,
        )?;
        let surface = Out::new(
            output,
            layer,
            out::Size { width: mode.width, height: mode.height },
        )?;
        Ok(Window { output, mode, surface, pool })
    }

    /// At every point of a window's life its segment is exactly as long as
    /// the pixels of its mode need, four bytes each, and its buffer covers
    /// the segment from the first byte in rows without padding.
    pub proof fn buffer_is_exact(self)
        requires
            self.wf(),
        ensures
            self.pool.shared.raw.len == self.mode.width * self.mode.height * 4,
            self.pool.buffer->Some_0.offset == 0,
            self.pool.buffer->Some_0.width == self.mode.width,
            self.pool.buffer->Some_0.height == self.mode.height,
            self.pool.buffer->Some_0.stride == self.mode.width * 4,
            self.pool.buffer->Some_0.stride * self.pool.buffer->Some_0.height
                == self.pool.shared.raw.len,
    {
        mem::lemma_extent_fits(self.mode.extent());
    }

    /// The length of the window's buffer in bytes: four for each pixel of its
    /// mode.
    pub fn byte_len(&self) -> (len: usize)
        requires
            self.wf(),
        ensures
            len == self.mode.width * self.mode.height * 4,
    {
        self.pool.shared.len()
    }

    /// What creates the window: the surface pair with its first commit, the
    /// segment and the pool, the buffer, and a wait for the server's
    /// configure event.
    pub open spec fn spec_creation_plan(self) -> Seq<Action> {
        self.surface.spec_creation_plan() + self.pool.spec_creation_plan() + seq![
            self.pool.buffer->Some_0.spec_create(),
            Action::Roundtrip,
        ]
    }

    pub fn creation_plan(&self) -> (plan: Vec<Action>)
        requires
            self.wf(),
        ensures
            plan@ == self.spec_creation_plan(),
    {
        let mut plan = self.surface.creation_plan();
        let mut pool_plan = self.pool.creation_plan();
        plan.append(&mut pool_plan);
        plan.push(self.pool.buffer.unwrap().create());
        plan.push(Action::Roundtrip);
        plan
    }

    /// Creating a window allocates the segment before the one buffer over
    /// it is created, and leaves that buffer alive.
    pub proof fn creation_keeps_lifetime(self)
        requires
            self.wf(),
        ensures
            mem::lifetime_kept(self.spec_creation_plan(), false),
            mem::live_at(self.spec_creation_plan(), false, self.spec_creation_plan().len() as int),
    {
        let head = self.surface.spec_creation_plan() + self.pool.spec_creation_plan();
        let tail = seq![self.pool.buffer->Some_0.spec_create(), Action::Roundtrip];
        mem::idle_plan_keeps_lifetime(head, false);
        reveal_with_fuel(mem::live_at, 3);
        mem::lifetime_kept_in_sequence(head, tail, false);
    }

    /// What an operation makes of the window, and what it asks of the
    /// caller. An operation that fails changes nothing and asks for nothing.
    pub open spec fn step(self, op: Op) -> (Window, Seq<Action>) {
        match op {
            Op::Hear(e) => {
                let (surface, answer) = self.surface.spec_event(e);
                (Window { surface, ..self }, asked_of_event(answer))
            },
            Op::Attach => if self.surface.may_attach() {
                let surface = self.surface.with_buffer(Phase::Attached, self.pool.buffer->Some_0);
                (Window { surface, ..self }, Self::attach_plan())
            } else {
                (self, Seq::empty())
            },
            Op::Tick => if self.surface.attached is Some {
                (Window { surface: self.surface.steady(), ..self }, self.tick_plan())
            } else {
                (self, Seq::empty())
            },
            Op::SetHeight(height) => if self.surface.may_resize(
                self.pool,
                self.mode.width,
                height,
            ) {
                let mode = Mode { width: self.mode.width, height };
                let format = self.pool.buffer->Some_0.format;
                let buffer = Buffer::covering(mode.extent(), format);
                (
                    Window {
                        output: self.output,
                        mode,
                        surface: self.surface.resized(mode.width, height, buffer),
                        pool: Mem::resized(mode.extent(), format),
                    },
                    Out::resize_plan(mode.extent(), format),
                )
            } else {
                (self, Seq::empty())
            },
        }
    }

    /// What a run of operations makes of the window, and all that it asks
    /// of the caller, in order.
    pub open spec fn run(self, ops: Seq<Op>) -> (Window, Seq<Action>)
        decreases ops.len(),
    {
        if ops.len() == 0 {
            (self, Seq::empty())
        } else {
            let (before, plan) = self.run(ops.drop_last());
            let (after, more) = before.step(ops.last());
            (after, plan + more)
        }
    }

    /// Whatever is done with a window, it stays in order, and what it asks
    /// for keeps the lifetime of its buffer: one buffer object is alive
    /// before and after, never two, and none while the segment changes.
    pub proof fn step_keeps_lifetime(self, op: Op)
        requires
            self.wf(),
        ensures
            self.step(op).0.wf(),
            self.step(op).0.surface.phase.rank() >= self.surface.phase.rank(),
            mem::lifetime_kept(self.step(op).1, true),
            mem::live_at(self.step(op).1, true, self.step(op).1.len() as int),
    {
        let (after, plan) = self.step(op);
        match op {
            Op::Hear(e) => {
                mem::idle_plan_keeps_lifetime(plan, true);
            },
            Op::Attach => {
                mem::idle_plan_keeps_lifetime(plan, true);
            },
            Op::Tick => {
                mem::idle_plan_keeps_lifetime(plan, true);
            },
            Op::SetHeight(height) => {
                if self.surface.may_resize(self.pool, self.mode.width, height) {
                    let mode = Mode { width: self.mode.width, height };
                    mem::lemma_extent_fits(mode.extent());
                    Out::resize_keeps_lifetime(mode.extent(), self.pool.buffer->Some_0.format);
                } else {
                    mem::idle_plan_keeps_lifetime(plan, true);
                }
            },
        }
    }

    /// The same of any run of operations, however long: from the creation of
    /// a window on, no two buffer objects are ever alive over its segment.
    pub proof fn run_keeps_lifetime(self, ops: Seq<Op>)
        requires
            self.wf(),
        ensures
            self.run(ops).0.wf(),
            self.run(ops).0.surface.phase.rank() >= self.surface.phase.rank(),
            mem::lifetime_kept(self.run(ops).1, true),
            mem::live_at(self.run(ops).1, true, self.run(ops).1.len() as int),
            mem::lifetime_kept(self.spec_creation_plan() + self.run(ops).1, false),
        decreases ops.len(),
    {
        self.creation_keeps_lifetime();
        if ops.len() == 0 {
            mem::idle_plan_keeps_lifetime(Seq::<Action>::empty(), true);
        } else {
            let (before, plan) = self.run(ops.drop_last());
            self.run_keeps_lifetime(ops.drop_last());
            before.step_keeps_lifetime(ops.last());
            mem::lifetime_kept_in_sequence(plan, before.step(ops.last()).1, true);
        }
        mem::lifetime_kept_in_sequence(self.spec_creation_plan(), self.run(ops).1, false);
    }

    /// Takes in what the window hears, as the surface controller's
    /// `spec_event` has it. Only the acknowledgement of a configure event
    /// asks for anything.
    pub fn event(&mut self, e: WindowEvent) -> (r: Result<Option<Action>, Error>)
        requires
            old(self).wf(),
        ensures
            final(self).wf(),
            old(self).surface.phase.rank() <= final(self).surface.phase.rank(),
            final(self).output == old(self).output,
            final(self).mode == old(self).mode,
            final(self).pool == old(self).pool,
            (final(self).surface, r) == old(self).surface.spec_event(e),
            (*final(self), asked_of_event(r)) == old(self).step(Op::Hear(e)),
    {
        self.surface.event(e)
    }

    /// What `attach` asks of the caller.
    pub open spec fn attach_plan() -> Seq<Action> {
        Out::attach_plan() + seq![Action::Roundtrip]
    }

    /// Attaches the pool's buffer once the configure event is acknowledged,
    /// and waits for the server. Before that, and a second time, the call is
    /// out of order and asks for nothing.
    pub fn attach(&mut self) -> (r: Result<Vec<Action>, Error>)
        requires
            old(self).wf(),
        ensures
            final(self).wf(),
            old(self).surface.phase.rank() <= final(self).surface.phase.rank(),
            final(self).output == old(self).output,
            final(self).mode == old(self).mode,
            final(self).pool == old(self).pool,
            old(self).surface.may_attach() ==> r is Ok && r->Ok_0@ == Self::attach_plan(),
            old(self).surface.may_attach() ==> final(self).surface == old(
                self,
            ).surface.with_buffer(Phase::Attached, old(self).pool.buffer->Some_0),
            !old(self).surface.may_attach() ==> r == Err::<Vec<Action>, Error>(
                Error::ProtocolViolation(Violation::OutOfOrder),
            ),
            !old(self).surface.may_attach() ==> final(self).surface == old(self).surface,
            (*final(self), asked(r)) == old(self).step(Op::Attach),
    {
        let buffer = self.pool.buffer.unwrap();
        let mut plan = self.surface.attach(&buffer)?;
        plan.push(Action::Roundtrip);
        Ok(plan)
    }

    /// What one tick asks of the caller: the renderer paints into the whole
    /// mapping, in rows as wide as the mode, and the frame is shown.
    pub open spec fn tick_plan(self) -> Seq<Action> {
        seq![
            Action::Render {
                pixels: self.pool.shared.raw.len / BYTES_PER_PIXEL,
                stride: self.mode.width,
            },
        ] + Out::redraw_plan()
    }

    /// One tick of the steady state. It needs a buffer to be attached.
    pub fn tick(&mut self) -> (r: Result<Vec<Action>, Error>)
        requires
            old(self).wf(),
        ensures
            final(self).wf(),
            old(self).surface.phase.rank() <= final(self).surface.phase.rank(),
            final(self).output == old(self).output,
            final(self).mode == old(self).mode,
            final(self).pool == old(self).pool,
            old(self).surface.attached is Some ==> r is Ok && r->Ok_0@ == old(self).tick_plan(),
            old(self).surface.attached is Some ==> final(self).surface == old(
                self,
            ).surface.steady(),
            old(self).surface.attached is None ==> r == Err::<Vec<Action>, Error>(
                Error::ProtocolViolation(Violation::OutOfOrder),
            ),
            old(self).surface.attached is None ==> final(self).surface == old(self).surface,
            (*final(self), asked(r)) == old(self).step(Op::Tick),
    {
        let mut frame = self.surface.redraw()?;
        let view = self.pool.shared.pixel_view();
        let mut plan: Vec<Action> = Vec::new();
        plan.push(Action::Render { pixels: view.0, stride: view.1 });
        plan.append(&mut frame);
        Ok(plan)
    }

    /// Gives the window a new height and keeps its width, as the surface
    /// controller's `resize` has it.
    pub fn set_height(&mut self, height: usize) -> (r: Result<Vec<Action>, Error>)
        requires
            old(self).wf(),
        ensures
            final(self).wf(),
            old(self).surface.phase.rank() <= final(self).surface.phase.rank(),
            final(self).output == old(self).output,
            r is Ok <==> old(self).surface.may_resize(
                old(self).pool,
                old(self).mode.width,
                height,
            ),
            r is Err ==> *final(self) == *old(self),
            !(old(self).surface.phase is Steady) ==> r == Err::<Vec<Action>, Error>(
                Error::ProtocolViolation(Violation::OutOfOrder),
            ),
            old(self).surface.phase is Steady && r is Err ==> r == Err::<Vec<Action>, Error>(
                Error::IoError,
            ),
            r matches Ok(plan) ==> {
                let mode = Mode { width: old(self).mode.width, height };
                let format = old(self).pool.buffer->Some_0.format;
                &&& plan@ == Out::resize_plan(mode.extent(), format)
                &&& final(self).mode == mode
                &&& final(self).pool == Mem::resized(mode.extent(), format)
                &&& final(self).surface == old(self).surface.resized(
                    mode.width,
                    height,
                    Buffer::covering(mode.extent(), format),
                )
            },
            (*final(self), asked(r)) == old(self).step(Op::SetHeight(height)),
    {
        let plan = self.surface.resize(&mut self.pool, self.mode.width, height)?;
        self.mode = Mode { width: self.mode.width, height };
        Ok(plan)
    }
}

} // verus!
