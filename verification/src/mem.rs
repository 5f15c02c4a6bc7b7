use vstd::prelude::*;

use crate::error::Error;
use crate::error::Violation;
use crate::wire::Action;
use crate::wire::PixelFormat;
use crate::wire::BYTES_PER_PIXEL;

verus! {

/// The extent of a pixel rectangle and how many bytes each pixel takes.
#[derive(Debug, Clone, Copy, PartialEq, Eq, Structural)]
pub struct Size {
    pub width: usize,
    pub height: usize,
    pub pixel_size: usize,
}

impl Size {
    pub fn new(width: usize, height: usize, pixel_size: usize) -> (size: Self)
        ensures
            size == (Size { width, height, pixel_size }),
    {
        Self { width, height, pixel_size }
    }

    /// The extent of `width` by `height` pixels of four bytes each.
    pub open spec fn spec_of_pixels(width: usize, height: usize) -> Size {
        Size { width, height, pixel_size: BYTES_PER_PIXEL }
    }

    pub fn of_pixels(width: usize, height: usize) -> (size: Self)
        ensures
            size == Size::spec_of_pixels(width, height),
    {
        Self { width, height, pixel_size: BYTES_PER_PIXEL }
    }

    /// Bytes that a rectangle of this extent occupies.
    pub open spec fn spec_byte_len(self) -> int {
        self.width * self.height * self.pixel_size
    }

    /// True where the rectangle is not empty and its byte length can be
    /// written as a pool size on the wire, a signed 32-bit number.
    pub open spec fn fits_wire(self) -> bool {
        0 < self.spec_byte_len() <= i32::MAX
    }

    /// The byte length, or `None` where it is beyond `usize`.
    pub fn byte_len(&self) -> (len: Option<usize>)
        ensures
            match len {
                Some(n) => n == self.spec_byte_len(),
                None => self.spec_byte_len() > usize::MAX,
            },
    {
        if self.width == 0 || self.height == 0 || self.pixel_size == 0 {
            assert(self.spec_byte_len() == 0) by (nonlinear_arith)
                requires
                    self.width == 0 || self.height == 0 || self.pixel_size == 0,
                    self.spec_byte_len() == self.width * self.height * self.pixel_size,
            ;
            return Some(0);
        }
        match self.width.checked_mul(self.height) {
            None => {
                assert(self.spec_byte_len() > usize::MAX) by (nonlinear_arith)
                    requires
                        self.width * self.height > usize::MAX,
                        self.pixel_size >= 1,
                        self.spec_byte_len() == self.width * self.height * self.pixel_size,
                ;
                None
            },
            Some(area) => area.checked_mul(self.pixel_size),
        }
    }

    /// The byte length as a pool size, or `None` where `fits_wire` fails.
    pub fn wire_len(&self) -> (len: Option<i32>)
        ensures
            len is Some <==> self.fits_wire(),
            len matches Some(n) ==> n == self.spec_byte_len(),
    {
        match self.byte_len() {
            Some(n) => {
                if 0 < n && n <= i32::MAX as usize {
                    Some(n as i32)
                } else {
                    None
                }
            },
            None => None,
        }
    }
}

/// A segment of anonymous shared memory, known by its length in bytes. The
/// descriptor and the mapping stay with the caller, who keeps exactly one
/// mapping of `len` bytes while the segment lives.
#[derive(Debug, Clone, Copy, PartialEq, Eq, Structural)]
pub struct Shm {
    pub len: usize,
}

impl Shm {
    /// A length that can be truncated to and mapped: not zero, and within the
    /// file offsets of the system.
    pub open spec fn mappable(size: usize) -> bool {
        0 < size <= i64::MAX
    }

    pub open spec fn wf(&self) -> bool {
        Self::mappable(self.len)
    }

    /// A segment of `size` bytes. The caller carries out `allocate` for it.
    pub fn new(size: usize) -> (r: Result<Self, Error>)
        ensures
            Self::mappable(size) ==> r == Ok::<Shm, Error>(Shm { len: size }),
            !Self::mappable(size) ==> r == Err::<Shm, Error>(Error::IoError),
    {
        if size == 0 || size as u64 > i64::MAX as u64 {
            Err(Error::IoError)
        } else {
            Ok(Shm { len: size })
        }
    }

    /// What brings the segment into being.
    pub fn allocate(&self) -> (a: Action)
        ensures
            a == (Action::Allocate { len: self.len }),
    {
        Action::Allocate { len: self.len }
    }

    /// What `resize` asks of the caller.
    pub open spec fn resize_plan(size: usize) -> Seq<Action> {
        seq![Action::Truncate { len: size }, Action::Remap { len: size }]
    }

    /// Gives the segment a new length: truncate, and map again.
    pub fn resize(&mut self, size: usize) -> (r: Result<Vec<Action>, Error>)
        ensures
            Self::mappable(size) ==> r is Ok && r->Ok_0@ == Self::resize_plan(size),
            Self::mappable(size) ==> final(self).len == size,
            !Self::mappable(size) ==> r == Err::<Vec<Action>, Error>(Error::IoError),
            !Self::mappable(size) ==> *final(self) == *old(self),
    {
        if size == 0 || size as u64 > i64::MAX as u64 {
            return Err(Error::IoError);
        }
        self.len = size;
        let mut plan: Vec<Action> = Vec::new();
        plan.push(Action::Truncate { len: size });
        plan.push(Action::Remap { len: size });
        Ok(plan)
    }

    /// How many whole pixels the mapping holds.
    pub fn pixels(&self) -> (n: usize)
        ensures
            n == self.len / BYTES_PER_PIXEL,
    {
        self.len / BYTES_PER_PIXEL
    }
}

/// A segment together with the extent of the pixels it holds.
#[derive(Debug, Clone, Copy, PartialEq, Eq, Structural)]
pub struct Shared {
    pub raw: Shm,
    pub size: Size,
}

impl Shared {
    /// The segment is exactly as long as its pixels need.
    pub open spec fn wf(&self) -> bool {
        &&& self.raw.wf()
        &&& self.raw.len == self.size.spec_byte_len()
    }

    /// A segment for pixels of extent `size`. It fails where the byte length
    /// is zero or cannot be mapped.
    pub fn open(size: Size) -> (r: Result<Self, Error>)
        ensures
            r is Ok <==> 0 < size.spec_byte_len() <= usize::MAX && Shm::mappable(
                size.spec_byte_len() as usize,
            ),
            r matches Ok(shared) ==> shared.wf() && shared.size == size,
            r matches Err(e) ==> e == Error::IoError,
    {
        match size.byte_len() {
            None => Err(Error::IoError),
            Some(len) => match Shm::new(len) {
                Ok(raw) => Ok(Shared { raw, size }),
                Err(e) => Err(e),
            },
        }
    }

    pub fn size(&self) -> (size: &Size)
        ensures
            *size == self.size,
    {
        &self.size
    }

    /// The length of the segment in bytes.
    pub fn len(&self) -> (len: usize)
        ensures
            len == self.raw.len,
    {
        self.raw.len
    }

    /// What the renderer is handed for one frame: the number of pixels in the
    /// mapping, and the number of pixels in a row.
    pub fn pixel_view(&self) -> (view: (usize, usize))
        requires
            self.size.pixel_size == BYTES_PER_PIXEL,
        ensures
            view.0 == self.raw.len / BYTES_PER_PIXEL,
            view.1 == self.size.width,
    {
        (self.raw.pixels(), self.size.width)
    }
}

/// A wire buffer object: a rectangle of pixels at an offset into the pool.
#[derive(Debug, Clone, Copy, PartialEq, Eq, Structural)]
pub struct Buffer {
    pub offset: i32,
    pub width: i32,
    pub height: i32,
    pub stride: i32,
    pub format: PixelFormat,
}

impl Buffer {
    /// The buffer that covers a whole segment of extent `size` from its first
    /// byte, rows packed without padding.
    pub open spec fn covering(size: Size, format: PixelFormat) -> Buffer {
        Buffer {
            offset: 0,
            width: size.width as i32,
            height: size.height as i32,
            stride: (size.width * BYTES_PER_PIXEL) as i32,
            format,
        }
    }

    /// The request that creates this buffer object.
    pub open spec fn spec_create(self) -> Action {
        Action::CreateBuffer {
            offset: self.offset,
            width: self.width,
            height: self.height,
            stride: self.stride,
            format: self.format,
        }
    }

    pub fn create(&self) -> (a: Action)
        ensures
            a == self.spec_create(),
    {
        Action::CreateBuffer {
            offset: self.offset,
            width: self.width,
            height: self.height,
            stride: self.stride,
            format: self.format,
        }
    }
}

/// Where the pixels are four bytes each and their byte length fits the wire,
/// so do the width, the height and the stride, and the rows fill the segment.
pub proof fn lemma_extent_fits(size: Size)
    requires
        size.pixel_size == BYTES_PER_PIXEL,
        size.fits_wire(),
    ensures
        0 < size.width <= i32::MAX,
        0 < size.height <= i32::MAX,
        size.width * BYTES_PER_PIXEL <= i32::MAX,
        size.width * BYTES_PER_PIXEL * size.height == size.spec_byte_len(),
{
    let w = size.width as int;
    let h = size.height as int;
    assert(0 < w && 0 < h && w * 4 <= w * h * 4 && h <= w * h * 4 && w * 4 * h == w * h * 4)
        by (nonlinear_arith)
        requires
            0 <= w,
            0 <= h,
            0 < w * h * 4,
    ;
}

/// The buffer pool of one surface: a shared-memory segment, registered with
/// the server as a pool of the same length, and at most one buffer object
/// over it.
#[derive(Debug, Clone, Copy, PartialEq, Eq, Structural)]
pub struct Mem {
    pub shared: Shared,
    pub buffer: Option<Buffer>,
}

impl Mem {
    /// The segment holds four-byte pixels, its length can be written as a
    /// pool size, and the buffer, if there is one, covers it exactly.
    pub open spec fn wf(&self) -> bool {
        &&& self.shared.wf()
        &&& self.shared.size.pixel_size == BYTES_PER_PIXEL
        &&& self.shared.size.fits_wire()
        &&& self.buffer matches Some(b) ==> b == Buffer::covering(self.shared.size, b.format)
    }

    /// The pool that `new` gives for `size`, where it gives one.
    pub open spec fn spec_new(size: Size) -> Mem {
        Mem {
            shared: Shared { raw: Shm { len: size.spec_byte_len() as usize }, size },
            buffer: None,
        }
    }

    /// A pool for pixels of extent `size`, with no buffer yet. The caller
    /// carries out `creation_plan` for it.
    pub fn new(size: Size) -> (r: Result<Self, Error>)
        ensures
            size.pixel_size != BYTES_PER_PIXEL ==> r == Err::<Mem, Error>(
                Error::ProtocolViolation(Violation::BufferGeometry),
            ),
            size.pixel_size == BYTES_PER_PIXEL && !size.fits_wire() ==> r == Err::<Mem, Error>(
                Error::IoError,
            ),
            size.pixel_size == BYTES_PER_PIXEL && size.fits_wire() ==> r == Ok::<Mem, Error>(
                Self::spec_new(size),
            ),
            r matches Ok(mem) ==> mem.wf(),
    {
        if size.pixel_size != BYTES_PER_PIXEL {
            return Err(Error::ProtocolViolation(Violation::BufferGeometry));
        }
        if size.wire_len().is_none() {
            return Err(Error::IoError);
        }
        let shared = Shared::open(size)?;
        Ok(Mem { shared, buffer: None })
    }

    /// What brings the segment and the pool into being.
    pub open spec fn spec_creation_plan(self) -> Seq<Action> {
        seq![
            Action::Allocate { len: self.shared.raw.len },
            Action::CreatePool { size: self.shared.raw.len as i32 },
        ]
    }

    pub fn creation_plan(&self) -> (plan: Vec<Action>)
        requires
            self.wf(),
        ensures
            plan@ == self.spec_creation_plan(),
    {
        let mut plan: Vec<Action> = Vec::new();
        plan.push(self.shared.raw.allocate());
        plan.push(Action::CreatePool { size: self.shared.raw.len as i32 });
        plan
    }

    pub fn share_allocation(&self) -> (shared: &Shared)
        ensures
            *shared == self.shared,
    {
        &self.shared
    }

    /// True where a buffer of this geometry covers the segment exactly.
    pub open spec fn accepts(self, width: i32, height: i32, stride: i32) -> bool {
        &&& width == self.shared.size.width
        &&& height == self.shared.size.height
        &&& stride == width * BYTES_PER_PIXEL
    }

    /// What `make_buffer` asks of the caller: the buffer that is current goes
    /// first, and the new one is created after it.
    pub open spec fn make_buffer_plan(self, format: PixelFormat) -> Seq<Action> {
        let create = seq![Buffer::covering(self.shared.size, format).spec_create()];
        if self.buffer is Some {
            seq![Action::DestroyBuffer] + create
        } else {
            create
        }
    }

    /// Replaces the current buffer object by one of the given geometry. The
    /// geometry has to cover the segment: the stride is the width times the
    /// four bytes of a pixel.
    pub fn make_buffer(&mut self, width: i32, height: i32, stride: i32, format: PixelFormat) -> (r:
        Result<Vec<Action>, Error>)
        requires
            old(self).wf(),
        ensures
            final(self).wf(),
            final(self).shared == old(self).shared,
            old(self).accepts(width, height, stride) ==> r is Ok && r->Ok_0@ == old(
                self,
            ).make_buffer_plan(format),
            old(self).accepts(width, height, stride) ==> final(self).buffer == Some(
                Buffer::covering(old(self).shared.size, format),
            ),
            !old(self).accepts(width, height, stride) ==> r == Err::<Vec<Action>, Error>(
                Error::ProtocolViolation(Violation::BufferGeometry),
            ),
            !old(self).accepts(width, height, stride) ==> *final(self) == *old(self),
    {
        proof {
            lemma_extent_fits(self.shared.size);
        }
        if width < 0 || height < 0 || width as usize != self.shared.size.width || height as usize
            != self.shared.size.height || stride as i64 != width as i64 * 4 {
            return Err(Error::ProtocolViolation(Violation::BufferGeometry));
        }
        let mut plan: Vec<Action> = Vec::new();
        if self.buffer.is_some() {
            plan.push(Action::DestroyBuffer);
        }
        let buffer = Buffer { offset: 0, width, height, stride, format };
        plan.push(buffer.create());
        self.buffer = Some(buffer);
        Ok(plan)
    }

    /// What `resize` asks of the caller, in this order: the current buffer
    /// object is destroyed, the segment is truncated and mapped again, the
    /// pool is told its new size, and a buffer is created over it from the
    /// first byte.
    pub open spec fn resize_plan(size: Size, format: PixelFormat) -> Seq<Action> {
        seq![Action::DestroyBuffer] + Shm::resize_plan(size.spec_byte_len() as usize) + seq![
            Action::ResizePool { size: size.spec_byte_len() as i32 },
            Buffer::covering(size, format).spec_create(),
        ]
    }

    /// The pool after a resize to `size` that succeeded.
    pub open spec fn resized(size: Size, format: PixelFormat) -> Mem {
        Mem {
            shared: Shared { raw: Shm { len: size.spec_byte_len() as usize }, size },
            buffer: Some(Buffer::covering(size, format)),
        }
    }

    /// Gives the pool and its buffer a new extent, keeping the format. There
    /// has to be a current buffer, and the new byte length has to fit the
    /// wire; on either failure nothing changes.
    pub fn resize(&mut self, width: usize, height: usize) -> (r: Result<Vec<Action>, Error>)
        requires
            old(self).wf(),
        ensures
            final(self).wf(),
            r is Err ==> *final(self) == *old(self),
            old(self).buffer is None ==> r == Err::<Vec<Action>, Error>(
                Error::ProtocolViolation(Violation::OutOfOrder),
            ),
            old(self).buffer is Some && !Size::spec_of_pixels(width, height).fits_wire() ==> r == Err::<
                Vec<Action>,
                Error,
            >(Error::IoError),
            old(self).buffer is Some && Size::spec_of_pixels(width, height).fits_wire() ==> r is Ok,
            r matches Ok(plan) ==> plan@ == Self::resize_plan(
                Size::spec_of_pixels(width, height),
                old(self).buffer->Some_0.format,
            ),
            r is Ok ==> *final(self) == Self::resized(
                Size::spec_of_pixels(width, height),
                old(self).buffer->Some_0.format,
            ),
    {
        let format = match self.buffer {
            None => {
                return Err(Error::ProtocolViolation(Violation::OutOfOrder));
            },
            Some(b) => b.format,
        };
        let size = Size::of_pixels(width, height);
        let len = match size.wire_len() {
            None => {
                return Err(Error::IoError);
            },
            Some(len) => len,
        };
        proof {
            lemma_extent_fits(size);
        }
        let buffer = Buffer {
            offset: 0,
            width: width as i32,
            height: height as i32,
            stride: (width * BYTES_PER_PIXEL) as i32,
            format,
        };
        let mut raw = self.shared.raw;
        let mut segment_plan = raw.resize(len as usize)?;
        let mut plan: Vec<Action> = Vec::new();
        plan.push(Action::DestroyBuffer);
        plan.append(&mut segment_plan);
        plan.push(Action::ResizePool { size: len });
        plan.push(buffer.create());
        self.shared = Shared { raw, size };
        self.buffer = Some(buffer);
        Ok(plan)
    }
}

/// Whether a buffer object is alive just before step `i` of `plan`, where
/// `live` says whether one was alive before the first step.
pub open spec fn live_at(plan: Seq<Action>, live: bool, i: int) -> bool
    decreases i,
{
    if i <= 0 {
        live
    } else {
        match plan[i - 1] {
            Action::CreateBuffer { .. } => true,
            Action::DestroyBuffer => false,
            _ => live_at(plan, live, i - 1),
        }
    }
}

/// What a step may do to a segment over which a buffer object is alive or
/// not: no second buffer is created beside a live one, only a live one is
/// destroyed, and the segment changes its length and mapping only while no
/// buffer reads it.
pub open spec fn step_allowed(a: Action, live: bool) -> bool {
    match a {
        Action::CreateBuffer { .. } => !live,
        Action::DestroyBuffer => live,
        Action::Truncate { .. } => !live,
        Action::Remap { .. } => !live,
        _ => true,
    }
}

/// True where every step of `plan` is allowed at the point it is taken.
pub open spec fn lifetime_kept(plan: Seq<Action>, live: bool) -> bool {
    forall|i: int| 0 <= i < plan.len() ==> step_allowed(#[trigger] plan[i], live_at(plan, live, i))
}

/// A first plan does not change what is alive at the steps of a second one
/// but through what it leaves alive at its end.
pub proof fn lemma_live_at_concat(p: Seq<Action>, q: Seq<Action>, live: bool, i: int)
    requires
        0 <= i <= q.len(),
    ensures
        live_at(p + q, live, p.len() + i) == live_at(q, live_at(p, live, p.len() as int), i),
        forall|k: int| 0 <= k <= p.len() ==> live_at(p + q, live, k) == live_at(p, live, k),
    decreases i,
{
    assert forall|k: int| 0 <= k <= p.len() implies live_at(p + q, live, k) == live_at(
        p,
        live,
        k,
    ) by {
        lemma_live_at_prefix(p, q, live, k);
    }
    if i > 0 {
        lemma_live_at_concat(p, q, live, i - 1);
        assert((p + q)[p.len() + i - 1] == q[i - 1]);
    }
}

proof fn lemma_live_at_prefix(p: Seq<Action>, q: Seq<Action>, live: bool, k: int)
    requires
        0 <= k <= p.len(),
    ensures
        live_at(p + q, live, k) == live_at(p, live, k),
    decreases k,
{
    if k > 0 {
        lemma_live_at_prefix(p, q, live, k - 1);
        assert((p + q)[k - 1] == p[k - 1]);
    }
}

/// Two plans carried out one after the other keep the buffer's lifetime
/// exactly where each does, the second starting from what the first leaves.
pub proof fn lifetime_kept_in_sequence(p: Seq<Action>, q: Seq<Action>, live: bool)
    ensures
        lifetime_kept(p + q, live) <==> lifetime_kept(p, live) && lifetime_kept(
            q,
            live_at(p, live, p.len() as int),
        ),
        live_at(p + q, live, (p + q).len() as int) == live_at(
            q,
            live_at(p, live, p.len() as int),
            q.len() as int,
        ),
{
    let mid = live_at(p, live, p.len() as int);
    lemma_live_at_concat(p, q, live, q.len() as int);
    if lifetime_kept(p + q, live) {
        assert forall|i: int| 0 <= i < p.len() implies step_allowed(
            #[trigger] p[i],
            live_at(p, live, i),
        ) by {
            lemma_live_at_concat(p, q, live, 0);
            assert((p + q)[i] == p[i]);
        }
        assert forall|i: int| 0 <= i < q.len() implies step_allowed(
            #[trigger] q[i],
            live_at(q, mid, i),
        ) by {
            lemma_live_at_concat(p, q, live, i);
            assert((p + q)[p.len() + i] == q[i]);
        }
    }
    if lifetime_kept(p, live) && lifetime_kept(q, mid) {
        assert forall|i: int| 0 <= i < (p + q).len() implies step_allowed(
            #[trigger] (p + q)[i],
            live_at(p + q, live, i),
        ) by {
            if i < p.len() {
                lemma_live_at_concat(p, q, live, 0);
                assert((p + q)[i] == p[i]);
            } else {
                lemma_live_at_concat(p, q, live, i - p.len());
                assert((p + q)[i] == q[i - p.len()]);
            }
        }
    }
}

/// True of the steps that touch neither a buffer object nor the segment.
pub open spec fn idle(a: Action) -> bool {
    !(a is CreateBuffer || a is DestroyBuffer || a is Truncate || a is Remap)
}

/// A plan of idle steps keeps the buffer's lifetime and leaves alive what was
/// alive.
pub proof fn idle_plan_keeps_lifetime(plan: Seq<Action>, live: bool)
    requires
        forall|i: int| 0 <= i < plan.len() ==> idle(#[trigger] plan[i]),
    ensures
        lifetime_kept(plan, live),
        forall|i: int| 0 <= i <= plan.len() ==> live_at(plan, live, i) == live,
{
    assert forall|i: int| 0 <= i <= plan.len() implies live_at(plan, live, i) == live by {
        lemma_idle_prefix(plan, live, i);
    }
}

proof fn lemma_idle_prefix(plan: Seq<Action>, live: bool, i: int)
    requires
        0 <= i <= plan.len(),
        forall|k: int| 0 <= k < plan.len() ==> idle(#[trigger] plan[k]),
    ensures
        live_at(plan, live, i) == live,
    decreases i,
{
    if i > 0 {
        lemma_idle_prefix(plan, live, i - 1);
        assert(idle(plan[i - 1]));
    }
}

impl Mem {
    /// A resize destroys the buffer that is current in its first step, and
    /// creates the new one in its last, after the segment has its new length
    /// and mapping: at no step are two buffer objects alive, and none is
    /// alive while the segment changes. One buffer is alive at the end.
    pub proof fn resize_destroys_before_it_creates(size: Size, format: PixelFormat)
        ensures
            Self::resize_plan(size, format).first() == Action::DestroyBuffer,
            Self::resize_plan(size, format).last() is CreateBuffer,
            forall|i: int|
                0 <= i < Self::resize_plan(size, format).len() - 1 ==> !(#[trigger] Self::resize_plan(
                    size,
                    format,
                )[i] is CreateBuffer),
            lifetime_kept(Self::resize_plan(size, format), true),
            live_at(Self::resize_plan(size, format), true, 5),
    {
        reveal_with_fuel(live_at, 6);
    }

    /// Replacing the buffer keeps its lifetime too: the one that is current,
    /// if any, is destroyed before the new one is created.
    pub proof fn make_buffer_destroys_before_it_creates(self, format: PixelFormat)
        ensures
            lifetime_kept(self.make_buffer_plan(format), self.buffer is Some),
            live_at(
                self.make_buffer_plan(format),
                self.buffer is Some,
                self.make_buffer_plan(format).len() as int,
            ),
    {
        reveal_with_fuel(live_at, 3);
    }
}

} // verus!
