use crate::error::{VslError, EINVAL};
use crate::fourcc::FourCC;
use crate::frame::has_nul;
use vstd::prelude::*;

verus! {

/// The most pixel formats that a device probe lists.
pub const MAX_FORMATS: usize = 20;

/// The horizontal and vertical flips that a capture device applies.
#[derive(Debug, Clone, Copy, PartialEq, Eq, Structural)]
pub enum Mirror {
    Off,
    Horizontal,
    Vertical,
    Both,
}

impl Default for Mirror {
    fn default() -> (r: Mirror)
        ensures
            r == Mirror::Off,
    {
        Mirror::Off
    }
}

/// The (horizontal, vertical) toggles that a mirror mode stands for.
pub open spec fn spec_mirror_flags(m: Mirror) -> (bool, bool) {
    match m {
        Mirror::Off => (false, false),
        Mirror::Horizontal => (true, false),
        Mirror::Vertical => (false, true),
        Mirror::Both => (true, true),
    }
}

impl Mirror {
    /// The (horizontal, vertical) driver toggles of this mode, to be applied
    /// in that order.
    pub fn flags(&self) -> (r: (bool, bool))
        ensures
            r == spec_mirror_flags(*self),
    {
        match self {
            Mirror::Off => (false, false),
            Mirror::Horizontal => (true, false),
            Mirror::Vertical => (false, true),
            Mirror::Both => (true, true),
        }
    }

    /// The mode's name.
    pub fn name(&self) -> (r: &'static str)
        ensures
            r@ == match *self {
                Mirror::Off => "none"@,
                Mirror::Horizontal => "horizontal"@,
                Mirror::Vertical => "vertical"@,
                Mirror::Both => "both"@,
            },
    {
        match self {
            Mirror::Off => "none",
            Mirror::Horizontal => "horizontal",
            Mirror::Vertical => "vertical",
            Mirror::Both => "both",
        }
    }
}

/// A mode maps to its two toggles, and the toggles give the mode back.
pub proof fn lemma_mirror_flags(m: Mirror, n: Mirror)
    ensures
        spec_mirror_flags(Mirror::Off) == (false, false),
        spec_mirror_flags(Mirror::Both) == (true, true),
        spec_mirror_flags(m) == spec_mirror_flags(n) ==> m == n,
{
}

/// The geometry, buffer count and format of a stream: what is asked of a
/// capture driver, and what it answers.
#[derive(Debug, Clone, Copy, PartialEq, Eq, Structural)]
pub struct StreamFormat {
    pub width: i32,
    pub height: i32,
    pub num_buffers: i32,
    pub fourcc: u32,
}

/// The settings with which a capture device is to be opened. The width,
/// height, format and buffer count are requests: the device may grant
/// others.
pub struct Camera {
    device: String,
    width: i32,
    height: i32,
    format: FourCC,
    mirror: Mirror,
    num_buffers: i32,
}

/// The state of camera settings, as contracts speak of them.
pub struct CameraView {
    pub device: Seq<char>,
    pub width: i32,
    pub height: i32,
    pub format: FourCC,
    pub mirror: Mirror,
    pub num_buffers: i32,
}

impl View for Camera {
    type V = CameraView;

    closed spec fn view(&self) -> CameraView {
        CameraView {
            device: self.device@,
            width: self.width,
            height: self.height,
            format: self.format,
            mirror: self.mirror,
            num_buffers: self.num_buffers,
        }
    }
}

/// `YUYV`, the format a camera asks for by default.
pub const YUYV: u32 = 0x56595559;

/// The settings of `Camera::default`: `/dev/video0`, 1920x1080, `YUYV`,
/// no mirroring, four buffers.
pub open spec fn default_camera_view() -> CameraView {
    CameraView {
        device: "/dev/video0"@,
        width: 1920,
        height: 1080,
        format: FourCC::of_value(YUYV),
        mirror: Mirror::Off,
        num_buffers: 4,
    }
}

impl Default for Camera {
    fn default() -> (r: Camera)
        ensures
            r@ == default_camera_view(),
    {
        Camera {
            device: "/dev/video0".to_owned(),
            width: 1920,
            height: 1080,
            format: FourCC::from_value(YUYV),
            mirror: Mirror::Off,
            num_buffers: 4,
        }
    }
}

/// Camera settings with the defaults of `Camera::default`.
pub fn create_camera() -> (r: Camera)
    ensures
        r@ == default_camera_view(),
{
    Camera::default()
}

impl Camera {
    /// The settings with another device path.
    pub fn with_device(self, device: &str) -> (r: Camera)
        ensures
            r@ == (CameraView { device: device@, ..self@ }),
    {
        Camera {
            device: device.to_owned(),
            width: self.width,
            height: self.height,
            format: self.format,
            mirror: self.mirror,
            num_buffers: self.num_buffers,
        }
    }

    /// The settings with another requested resolution.
    pub fn with_resolution(self, width: i32, height: i32) -> (r: Camera)
        ensures
            r@ == (CameraView { width, height, ..self@ }),
    {
        Camera {
            device: self.device,
            width,
            height,
            format: self.format,
            mirror: self.mirror,
            num_buffers: self.num_buffers,
        }
    }

    /// The settings with another requested format.
    pub fn with_format(self, format: FourCC) -> (r: Camera)
        ensures
            r@ == (CameraView { format, ..self@ }),
    {
        Camera {
            device: self.device,
            width: self.width,
            height: self.height,
            format,
            mirror: self.mirror,
            num_buffers: self.num_buffers,
        }
    }

    /// The settings with another mirror mode.
    pub fn with_mirror(self, mirror: Mirror) -> (r: Camera)
        ensures
            r@ == (CameraView { mirror, ..self@ }),
    {
        Camera {
            device: self.device,
            width: self.width,
            height: self.height,
            format: self.format,
            mirror,
            num_buffers: self.num_buffers,
        }
    }

    /// The settings with another requested buffer count.
    pub fn with_buffers(self, num_buffers: i32) -> (r: Camera)
        ensures
            r@ == (CameraView { num_buffers, ..self@ }),
    {
        Camera {
            device: self.device,
            width: self.width,
            height: self.height,
            format: self.format,
            mirror: self.mirror,
            num_buffers,
        }
    }

    /// The device path.
    pub fn device(&self) -> (r: String)
        ensures
            r@ == self@.device,
    {
        self.device.clone()
    }

    /// The requested mirror mode.
    pub fn mirror(&self) -> (r: Mirror)
        ensures
            r == self@.mirror,
    {
        self.mirror
    }

    /// What to ask of the driver: the requested resolution, buffer count
    /// and format.
    pub fn request(&self) -> (r: StreamFormat)
        ensures
            r == (StreamFormat {
                width: self@.width,
                height: self@.height,
                num_buffers: self@.num_buffers,
                fourcc: self@.format.spec_value(),
            }),
    {
        StreamFormat {
            width: self.width,
            height: self.height,
            num_buffers: self.num_buffers,
            fourcc: self.format.value(),
        }
    }
}

/// The formats that a device probe reported: the first `count` codes, at
/// most `MAX_FORMATS` of them and no more than were returned.
pub open spec fn probed_count(len: nat, count: i32) -> nat {
    if count <= 0 {
        0
    } else if count as nat > len {
        if len > MAX_FORMATS {
            MAX_FORMATS as nat
        } else {
            len
        }
    } else if count as nat > MAX_FORMATS {
        MAX_FORMATS as nat
    } else {
        count as nat
    }
}

impl Camera {
    /// The formats that a probe of the device reported, from the codes it
    /// filled in and the count it returned. A negative count is the probe's
    /// failure and gives `EINVAL`.
    pub fn formats(codes: &[u32], count: i32) -> (r: Result<Vec<FourCC>, VslError>)
        ensures
            count < 0 ==> r == Err::<Vec<FourCC>, VslError>(VslError::Os(EINVAL)),
            count >= 0 ==> (r matches Ok(v) && v@ == codes@.take(
                probed_count(codes@.len(), count) as int,
            ).map_values(|c: u32| FourCC::of_value(c))),
    {
        if count < 0 {
            return Err(VslError::Os(EINVAL));
        }
        let mut n: usize = count as usize;
        if n > codes.len() {
            n = codes.len();
        }
        if n > MAX_FORMATS {
            n = MAX_FORMATS;
        }
        assert(n == probed_count(codes@.len(), count));
        let mut v: Vec<FourCC> = Vec::new();
        let mut i: usize = 0;
        while i < n
            invariant
                n <= codes@.len(),
                i <= n,
                v@ == codes@.take(i as int).map_values(|c: u32| FourCC::of_value(c)),
            decreases n - i,
        {
            v.push(FourCC::from_value(codes[i]));
            i = i + 1;
            assert(v@ =~= codes@.take(i as int).map_values(|c: u32| FourCC::of_value(c)));
        }
        Ok(v)
    }
}

/// The state of one buffer of the ring.
#[derive(Debug, Clone, Copy, PartialEq, Eq, Structural)]
pub struct BufferSlot {
    /// Whether the driver holds the buffer, to be filled.
    pub queued: bool,
    /// Counts the times the buffer was handed out and given back, so that
    /// a handle from an earlier round is refused.
    pub generation: u64,
}

/// A filled buffer as the driver hands it out.
#[derive(Debug, Clone, Copy, PartialEq, Eq, Structural)]
pub struct Dequeued {
    pub index: usize,
    /// The buffer's DMA descriptor, or -1 where the device has none.
    pub dma_fd: i32,
    pub length: u32,
    /// The buffer's physical address, or 0 where it is not known.
    pub phys_addr: u64,
}

/// How an attempt to set a mirror mode went, toggle by toggle.
#[derive(Debug, Clone, Copy, PartialEq, Eq, Structural)]
pub enum MirrorOutcome {
    /// The driver took both toggles.
    Applied,
    /// The driver refused the horizontal toggle with this `errno`; the
    /// vertical one was not tried.
    HorizontalRefused(i32),
    /// The driver took the horizontal toggle and refused the vertical one
    /// with this `errno`.
    VerticalRefused(i32),
}

/// The state of an open capture device, as contracts speak of it.
pub struct ReaderView {
    pub width: i32,
    pub height: i32,
    pub format: FourCC,
    pub mirror: Mirror,
    pub streaming: bool,
    pub ring: Seq<BufferSlot>,
}

/// An open capture device with its negotiated stream and its ring of
/// buffers.
pub struct CameraReader {
    width: i32,
    height: i32,
    format: FourCC,
    mirror: Mirror,
    streaming: bool,
    ring: Vec<BufferSlot>,
}

/// A filled buffer lent out of the ring. Its geometry and format are the
/// stream's.
pub struct CameraBuffer {
    index: usize,
    generation: u64,
    fd: i32,
    length: u32,
    phys_addr: u64,
    width: i32,
    height: i32,
    format: FourCC,
}

/// The state of a lent buffer, as contracts speak of it.
pub struct BufferView {
    pub index: usize,
    pub generation: u64,
    pub fd: i32,
    pub length: u32,
    pub phys_addr: u64,
    pub width: i32,
    pub height: i32,
    pub format: FourCC,
}

impl View for CameraBuffer {
    type V = BufferView;

    closed spec fn view(&self) -> BufferView {
        BufferView {
            index: self.index,
            generation: self.generation,
            fd: self.fd,
            length: self.length,
            phys_addr: self.phys_addr,
            width: self.width,
            height: self.height,
            format: self.format,
        }
    }
}

/// What giving a buffer back asks of the caller.
#[derive(Debug, Clone, Copy, PartialEq, Eq, Structural)]
pub struct BufferRelease {
    /// The ring index to queue with the driver again.
    pub index: usize,
    /// The buffer's own descriptor, to close.
    pub close_fd: Option<i32>,
}

impl View for CameraReader {
    type V = ReaderView;

    closed spec fn view(&self) -> ReaderView {
        ReaderView {
            width: self.width,
            height: self.height,
            format: self.format,
            mirror: self.mirror,
            streaming: self.streaming,
            ring: self.ring@,
        }
    }
}

/// The number of buffers that the driver holds.
pub open spec fn queued_count(ring: Seq<BufferSlot>) -> nat
    decreases ring.len(),
{
    if ring.len() == 0 {
        0
    } else {
        queued_count(ring.drop_last()) + if ring.last().queued {
            1nat
        } else {
            0nat
        }
    }
}

/// A ring of `n` buffers, all held by the driver.
pub open spec fn fresh_ring(n: nat) -> Seq<BufferSlot> {
    Seq::new(n, |i: int| BufferSlot { queued: true, generation: 0 })
}

/// Relies on `nix::unistd::dup`: a new descriptor on the same open file,
/// or the `errno` of the failure. It never gives -1 on success.
#[verifier::external_body]
fn dup_fd(fd: i32) -> (r: Result<i32, i32>)
    ensures
        r matches Ok(n) ==> n != -1,
{
    match nix::unistd::dup(fd) {
        Ok(n) => Ok(n),
        Err(e) => Err(e as i32),
    }
}

impl Camera {
    /// Opens the stream, given the driver's answer to `request()`: the
    /// stream format it granted, or the `errno` of the failure. The reader
    /// takes the granted values, not the requested ones.
    ///
    /// A device path that is empty or holds a NUL byte gives
    /// `InvalidArgument`; a grant with a non-positive width, height or
    /// buffer count gives `EINVAL`.
    pub fn open(self, granted: Result<StreamFormat, i32>) -> (r: Result<CameraReader, VslError>)
        ensures
            (self@.device.len() == 0 || has_nul(vstd::utf8::encode_utf8(self@.device))) ==> r
                == Err::<CameraReader, VslError>(VslError::InvalidArgument),
            !(self@.device.len() == 0 || has_nul(vstd::utf8::encode_utf8(self@.device))) ==> match granted {
                Err(e) => r == Err::<CameraReader, VslError>(VslError::Os(e)),
                Ok(g) => if g.width <= 0 || g.height <= 0 || g.num_buffers <= 0 {
                    r == Err::<CameraReader, VslError>(VslError::Os(EINVAL))
                } else {
                    r matches Ok(c) && c@ == ReaderView {
                        width: g.width,
                        height: g.height,
                        format: FourCC::of_value(g.fourcc),
                        mirror: self@.mirror,
                        streaming: false,
                        ring: fresh_ring(g.num_buffers as nat),
                    }
                },
            },
    {
        let d = self.device.as_str();
        if d.is_empty() || crate::frame::contains_nul(d.as_bytes()) {
            return Err(VslError::InvalidArgument);
        }
        let g = match granted {
            Err(e) => return Err(VslError::Os(e)),
            Ok(g) => g,
        };
        if g.width <= 0 || g.height <= 0 || g.num_buffers <= 0 {
            return Err(VslError::Os(EINVAL));
        }
        let mut ring: Vec<BufferSlot> = Vec::new();
        let n = g.num_buffers as usize;
        let mut i: usize = 0;
        while i < n
            invariant
                i <= n,
                n == g.num_buffers as nat,
                ring@ == fresh_ring(i as nat),
            decreases n - i,
        {
            ring.push(BufferSlot { queued: true, generation: 0 });
            i = i + 1;
            assert(ring@ =~= fresh_ring(i as nat));
        }
        Ok(
            CameraReader {
                width: g.width,
                height: g.height,
                format: FourCC::from_value(g.fourcc),
                mirror: self.mirror,
                streaming: false,
                ring,
            },
        )
    }
}

impl CameraReader {
    /// The negotiated width.
    pub fn width(&self) -> (r: i32)
        ensures
            r == self@.width,
    {
        self.width
    }

    /// The negotiated height.
    pub fn height(&self) -> (r: i32)
        ensures
            r == self@.height,
    {
        self.height
    }

    /// The negotiated format.
    pub fn format(&self) -> (r: FourCC)
        ensures
            r == self@.format,
    {
        self.format
    }

    /// The mirror mode in force.
    pub fn mirror(&self) -> (r: Mirror)
        ensures
            r == self@.mirror,
    {
        self.mirror
    }

    /// The number of buffers in the ring.
    pub fn num_buffers(&self) -> (r: usize)
        ensures
            r == self@.ring.len(),
    {
        self.ring.len()
    }

    /// Whether the device is streaming.
    pub fn is_streaming(&self) -> (r: bool)
        ensures
            r == self@.streaming,
    {
        self.streaming
    }

    /// Takes the outcome of switching the driver's mirror toggles to those
    /// of `mirror`. The mode changes only where the driver took both; where
    /// it refused one, that refusal is the error and the mode in force stays
    /// as it was.
    pub fn set_mirror(&mut self, mirror: Mirror, outcome: MirrorOutcome) -> (r: Result<(), VslError>)
        ensures
            r == match outcome {
                MirrorOutcome::Applied => Ok::<(), VslError>(()),
                MirrorOutcome::HorizontalRefused(e) => Err(VslError::Os(e)),
                MirrorOutcome::VerticalRefused(e) => Err(VslError::Os(e)),
            },
            r is Ok ==> final(self)@ == (ReaderView { mirror, ..old(self)@ }),
            r is Err ==> final(self)@ == old(self)@,
    {
        match outcome {
            MirrorOutcome::Applied => {
                self.mirror = mirror;
                Ok(())
            },
            MirrorOutcome::HorizontalRefused(e) => Err(VslError::Os(e)),
            MirrorOutcome::VerticalRefused(e) => Err(VslError::Os(e)),
        }
    }

    /// Takes the outcome of starting the stream.
    pub fn start(&mut self, outcome: Result<(), i32>) -> (r: Result<(), VslError>)
        ensures
            r == match outcome {
                Ok(_) => Ok::<(), VslError>(()),
                Err(e) => Err(VslError::Os(e)),
            },
            r is Ok ==> final(self)@ == (ReaderView { streaming: true, ..old(self)@ }),
            r is Err ==> final(self)@ == old(self)@,
    {
        match outcome {
            Ok(_) => {
                self.streaming = true;
                Ok(())
            },
            Err(e) => Err(VslError::Os(e)),
        }
    }

    /// Takes the outcome of stopping the stream.
    pub fn stop(&mut self, outcome: Result<(), i32>) -> (r: Result<(), VslError>)
        ensures
            r == match outcome {
                Ok(_) => Ok::<(), VslError>(()),
                Err(e) => Err(VslError::Os(e)),
            },
            r is Ok ==> final(self)@ == (ReaderView { streaming: false, ..old(self)@ }),
            r is Err ==> final(self)@ == old(self)@,
    {
        match outcome {
            Ok(_) => {
                self.streaming = false;
                Ok(())
            },
            Err(e) => Err(VslError::Os(e)),
        }
    }

    /// The number of buffers that the driver holds; a read times out once
    /// it reaches 0.
    pub fn queued_buffer_count(&self) -> (r: usize)
        ensures
            r == queued_count(self@.ring),
    {
        let mut n: usize = 0;
        let mut i: usize = 0;
        while i < self.ring.len()
            invariant
                i <= self.ring@.len(),
                n == queued_count(self.ring@.take(i as int)),
                n <= i,
            decreases self.ring@.len() - i,
        {
            assert(self.ring@.take(i + 1).drop_last() =~= self.ring@.take(i as int));
            if self.ring[i].queued {
                n = n + 1;
            }
            i = i + 1;
        }
        assert(self.ring@.take(i as int) =~= self.ring@);
        n
    }

    /// Takes a filled buffer out of the ring, given what the driver handed
    /// out (or the `errno` of its failure). The buffer gets a descriptor of
    /// its own, a duplicate of the driver's, where the device has one.
    ///
    /// Fails with `EINVAL` where the device is not streaming, with `Timeout`
    /// where the driver holds no buffer, with `EINVAL` for a buffer that
    /// the driver does not hold, and with the error of the duplication.
    pub fn read(&mut self, dequeued: Result<Dequeued, i32>) -> (r: Result<CameraBuffer, VslError>)
        ensures
            !old(self)@.streaming ==> r == Err::<CameraBuffer, VslError>(VslError::Os(EINVAL)),
            old(self)@.streaming && queued_count(old(self)@.ring) == 0 ==> r == Err::<
                CameraBuffer,
                VslError,
            >(VslError::Timeout),
            old(self)@.streaming && queued_count(old(self)@.ring) > 0 ==> match dequeued {
                Err(e) => r == Err::<CameraBuffer, VslError>(VslError::Os(e)),
                Ok(d) => (d.index >= old(self)@.ring.len() || !old(self)@.ring[d.index as int].queued)
                    ==> r == Err::<CameraBuffer, VslError>(VslError::Os(EINVAL)),
            },
            old(self)@.streaming && queued_count(old(self)@.ring) > 0 ==> ((dequeued matches Ok(d)
                && d.index < old(self)@.ring.len() && old(self)@.ring[d.index as int].queued
                && d.dma_fd < 0) ==> r is Ok),
            r is Err ==> final(self)@ == old(self)@,
            r matches Ok(b) ==> (dequeued matches Ok(d) && b@.index == d.index && b@.generation
                == old(self)@.ring[d.index as int].generation && b@.length == d.length
                && b@.phys_addr == d.phys_addr && b@.width == old(self)@.width && b@.height
                == old(self)@.height && b@.format == old(self)@.format && (d.dma_fd < 0 ==> b@.fd
                == -1) && (d.dma_fd >= 0 ==> b@.fd >= 0) && final(self)@ == (ReaderView {
                ring: old(self)@.ring.update(
                    d.index as int,
                    BufferSlot { queued: false, ..old(self)@.ring[d.index as int] },
                ),
                ..old(self)@
            })),
    {
        if !self.streaming {
            return Err(VslError::Os(EINVAL));
        }
        if self.queued_buffer_count() == 0 {
            return Err(VslError::Timeout);
        }
        let d = match dequeued {
            Err(e) => return Err(VslError::Os(e)),
            Ok(d) => d,
        };
        if d.index >= self.ring.len() || !self.ring[d.index].queued {
            return Err(VslError::Os(EINVAL));
        }
        let fd = if d.dma_fd < 0 {
            -1
        } else {
            match dup_fd(d.dma_fd) {
                Ok(n) => {
                    if n < 0 {
                        return Err(VslError::NullResource);
                    }
                    n
                },
                Err(e) => return Err(VslError::Os(e)),
            }
        };
        let slot = self.ring[d.index];
        self.ring.set(d.index, BufferSlot { queued: false, generation: slot.generation });
        Ok(
            CameraBuffer {
                index: d.index,
                generation: slot.generation,
                fd,
                length: d.length,
                phys_addr: d.phys_addr,
                width: self.width,
                height: self.height,
                format: self.format,
            },
        )
    }

    /// Gives a buffer back to the ring, to be queued with the driver again.
    /// A buffer from an earlier round, or one the ring does not lend, gives
    /// `EINVAL`.
    pub fn release_buffer(&mut self, buffer: CameraBuffer) -> (r: Result<BufferRelease, VslError>)
        ensures
            ({
                let ok = buffer@.index < old(self)@.ring.len()
                    && !old(self)@.ring[buffer@.index as int].queued
                    && old(self)@.ring[buffer@.index as int].generation == buffer@.generation;
                &&& !ok ==> r == Err::<BufferRelease, VslError>(VslError::Os(EINVAL))
                    && final(self)@ == old(self)@
                &&& ok ==> r == Ok::<BufferRelease, VslError>(
                    BufferRelease {
                        index: buffer@.index,
                        close_fd: if buffer@.fd >= 0 {
                            Some(buffer@.fd)
                        } else {
                            None
                        },
                    },
                ) && final(self)@ == (ReaderView {
                    ring: old(self)@.ring.update(
                        buffer@.index as int,
                        BufferSlot {
                            queued: true,
                            generation: next_generation(buffer@.generation),
                        },
                    ),
                    ..old(self)@
                })
            }),
    {
        if buffer.index >= self.ring.len() {
            return Err(VslError::Os(EINVAL));
        }
        let slot = self.ring[buffer.index];
        if slot.queued || slot.generation != buffer.generation {
            return Err(VslError::Os(EINVAL));
        }
        let generation = if slot.generation == u64::MAX {
            0
        } else {
            slot.generation + 1
        };
        self.ring.set(buffer.index, BufferSlot { queued: true, generation });
        Ok(
            BufferRelease {
                index: buffer.index,
                close_fd: if buffer.fd >= 0 {
                    Some(buffer.fd)
                } else {
                    None
                },
            },
        )
    }
}

/// The generation that follows `g`.
pub open spec fn next_generation(g: u64) -> u64 {
    if g == u64::MAX {
        0
    } else {
        (g + 1) as u64
    }
}

impl CameraBuffer {
    /// The buffer's index in the ring.
    pub fn index(&self) -> (r: usize)
        ensures
            r == self@.index,
    {
        self.index
    }

    /// The buffer's own descriptor, or -1 where the device has none.
    pub fn fd(&self) -> (r: i32)
        ensures
            r == self@.fd,
    {
        self.fd
    }

    /// The number of bytes the driver filled in.
    pub fn length(&self) -> (r: usize)
        ensures
            r == self@.length,
    {
        self.length as usize
    }

    /// The buffer's physical address, or 0 where it is not known.
    pub fn phys_addr(&self) -> (r: u64)
        ensures
            r == self@.phys_addr,
    {
        self.phys_addr
    }

    /// The stream's width.
    pub fn width(&self) -> (r: i32)
        ensures
            r == self@.width,
    {
        self.width
    }

    /// The stream's height.
    pub fn height(&self) -> (r: i32)
        ensures
            r == self@.height,
    {
        self.height
    }

    /// The stream's format.
    pub fn format(&self) -> (r: FourCC)
        ensures
            r == self@.format,
    {
        self.format
    }
}

} // verus!
