use crate::error::{VslError, EBADF, EBUSY, EINVAL, EPERM};
use crate::fourcc::{lemma_unpack_pack, FourCC};
use vstd::prelude::*;
use vstd::string::StringSliceAdditionalSpecFns;

verus! {

/// Paths under this directory name DMA-heap device nodes rather than
/// shared-memory objects.
pub const DMA_HEAP_PREFIX: &'static str = "/dev/dma_heap/";

/// The largest frame size, and the largest width and height, that the
/// native layer can represent (a C `int`).
pub const MAX_EXTENT: u64 = 0x7fff_ffff;

/// The memory behind a frame.
#[derive(Debug, Clone, Copy, PartialEq, Eq, Structural)]
pub enum Backing {
    /// A DMA buffer that the frame allocated and owns.
    Dma { fd: i32 },
    /// A shared-memory object that the frame allocated and owns.
    Shm { fd: i32 },
    /// A descriptor owned by the caller, bound with `attach`.
    Attached { fd: i32, offset: usize },
    /// A host's buffer lent to a client; the descriptor is the client's
    /// own handle on it, the memory stays the host's.
    Borrowed { fd: i32 },
}

impl Backing {
    pub open spec fn spec_fd(self) -> i32 {
        match self {
            Backing::Dma { fd } => fd,
            Backing::Shm { fd } => fd,
            Backing::Attached { fd, .. } => fd,
            Backing::Borrowed { fd } => fd,
        }
    }

    pub open spec fn spec_offset(self) -> usize {
        match self {
            Backing::Attached { offset, .. } => offset,
            _ => 0,
        }
    }

    /// The process-local descriptor of the backing.
    pub fn fd(&self) -> (r: i32)
        ensures
            r == self.spec_fd(),
    {
        match self {
            Backing::Dma { fd } => *fd,
            Backing::Shm { fd } => *fd,
            Backing::Attached { fd, .. } => *fd,
            Backing::Borrowed { fd } => *fd,
        }
    }
}

/// Who owns a frame.
#[derive(Debug, Clone, Copy, PartialEq, Eq, Structural)]
pub enum Owner {
    /// A free-standing frame, neither published nor received.
    Local,
    /// A frame published into a host's pool.
    Host,
    /// A frame lent by a host and received through a client connection.
    Client,
}

/// The state of a frame, as contracts speak of it.
pub struct FrameView {
    pub width: u32,
    pub height: u32,
    pub stride: u32,
    pub fourcc: FourCC,
    pub size: usize,
    pub backing: Option<Backing>,
    pub path: Option<Seq<char>>,
    pub locked: bool,
    pub mapped: bool,
    pub owner: Owner,
    pub serial: i64,
    pub timestamp: i64,
    pub duration: i64,
    pub pts: i64,
    pub dts: i64,
    pub expires: i64,
}

/// The planar YUV formats: NV12, NV21, NV16, NV61, YU12, YV12, I420. Their
/// derived stride is the width of the luma plane, one byte per pixel.
pub open spec fn is_planar(code: u32) -> bool {
    code == 0x3231564e || code == 0x3132564e || code == 0x3631564e || code == 0x3136564e || code
        == 0x32315559 || code == 0x32315659 || code == 0x30323449
}

/// The compressed formats: H264, HEVC, H265, MJPG, JPEG. Their encoded size
/// is only known once a frame is encoded, so they are sized for the worst
/// case, four bytes per pixel, which no encoding of a frame exceeds.
pub open spec fn is_compressed(code: u32) -> bool {
    code == 0x34363248 || code == 0x43564548 || code == 0x35363248 || code == 0x47504a4d
        || code == 0x4745504a
}

/// The bytes per pixel from which a stride of 0 is derived: that of each
/// packed format, one for the luma plane of a planar format, the worst case
/// for a compressed one, and 0 for a format not known here.
pub open spec fn bytes_per_pixel(code: u32) -> u32 {
    // RGB3, BGR3
    if code == 0x33424752 || code == 0x33524742 {
        3
    // RGBA, BGRA, RGBX, BGRX
    } else if code == 0x41424752 || code == 0x41524742 || code == 0x58424752 || code
        == 0x58524742 {
        4
    // YUYV, YVYU, UYVY, VYUY
    } else if code == 0x56595559 || code == 0x55595659 || code == 0x59565955 || code
        == 0x59555956 {
        2
    // GREY
    } else if code == 0x59455247 {
        1
    } else if is_planar(code) {
        1
    } else if is_compressed(code) {
        4
    } else {
        0
    }
}

/// The stride that a frame gets: the given one, or one derived from the
/// width and format where it is 0.
pub open spec fn effective_stride(width: u32, stride: u32, code: u32) -> int {
    if stride == 0 {
        width as int * bytes_per_pixel(code) as int
    } else {
        stride as int
    }
}

/// Whether `new` accepts this geometry.
pub open spec fn geometry_fits(width: u32, height: u32, stride: u32, code: u32) -> bool {
    &&& width as int <= MAX_EXTENT
    &&& height as int <= MAX_EXTENT
    &&& effective_stride(width, stride, code) <= MAX_EXTENT
    &&& height as int * effective_stride(width, stride, code) <= MAX_EXTENT
}

/// The state of a frame just created by `new`.
pub open spec fn initial_view(width: u32, height: u32, stride: u32, fourcc: FourCC) -> FrameView {
    let s = effective_stride(width, stride, fourcc.spec_value());
    FrameView {
        width,
        height,
        stride: s as u32,
        fourcc,
        size: (height as int * s) as usize,
        backing: None,
        path: None,
        locked: false,
        mapped: false,
        owner: Owner::Local,
        serial: 0,
        timestamp: 0,
        duration: 0,
        pts: 0,
        dts: 0,
        expires: 0,
    }
}

fn bytes_per_pixel_exec(code: u32) -> (r: u32)
    ensures
        r == bytes_per_pixel(code),
{
    if code == 0x33424752 || code == 0x33524742 {
        3
    } else if code == 0x41424752 || code == 0x41524742 || code == 0x58424752 || code
        == 0x58524742 {
        4
    } else if code == 0x56595559 || code == 0x55595659 || code == 0x59565955 || code
        == 0x59555956 {
        2
    } else if code == 0x59455247 {
        1
    } else if code == 0x3231564e || code == 0x3132564e || code == 0x3631564e || code
        == 0x3136564e || code == 0x32315559 || code == 0x32315659 || code == 0x30323449 {
        1
    } else if code == 0x34363248 || code == 0x43564548 || code == 0x35363248 || code
        == 0x47504a4d || code == 0x4745504a {
        4
    } else {
        0
    }
}

/// A handle on an image or video frame: its geometry, format and timing,
/// the memory behind it, and its lock and mapping state.
///
/// A frame can be used free-standing, or be published through a host, or
/// be received through a client.
pub struct Frame {
    width: u32,
    height: u32,
    stride: u32,
    fourcc: FourCC,
    size: usize,
    backing: Option<Backing>,
    path: Option<String>,
    locked: bool,
    mapped: bool,
    owner: Owner,
    serial: i64,
    timestamp: i64,
    duration: i64,
    pts: i64,
    dts: i64,
    expires: i64,
}

/// The view of an optional string.
pub open spec fn opt_str_view(p: Option<String>) -> Option<Seq<char>> {
    match p {
        Some(s) => Some(s@),
        None => None,
    }
}

impl View for Frame {
    type V = FrameView;

    closed spec fn view(&self) -> FrameView {
        FrameView {
            width: self.width,
            height: self.height,
            stride: self.stride,
            fourcc: self.fourcc,
            size: self.size,
            backing: self.backing,
            path: opt_str_view(self.path),
            locked: self.locked,
            mapped: self.mapped,
            owner: self.owner,
            serial: self.serial,
            timestamp: self.timestamp,
            duration: self.duration,
            pts: self.pts,
            dts: self.dts,
            expires: self.expires,
        }
    }
}

impl FrameView {
    /// The invariant that every frame keeps.
    pub open spec fn wf(self) -> bool {
        &&& self.width as int <= MAX_EXTENT
        &&& self.height as int <= MAX_EXTENT
        &&& self.size as int <= MAX_EXTENT
        &&& (self.backing matches Some(b) ==> b.spec_fd() >= 0)
        &&& (self.mapped ==> self.backing is Some)
        &&& (self.owner != Owner::Local ==> self.backing is Some)
        &&& (self.mapped && self.owner != Owner::Local ==> self.locked)
    }
}

impl Frame {
    /// Creates an unbound frame. A `stride` of 0 is derived from the width
    /// and format. Fails with `InvalidArgument` where `fourcc` is not four
    /// ASCII characters, or where the geometry does not fit the native
    /// layer's integers.
    pub fn new(width: u32, height: u32, stride: u32, fourcc: &str) -> (r: Result<Frame, VslError>)
        ensures
            r is Ok <==> (fourcc@.len() == 4 && vstd::string::is_ascii(fourcc) && geometry_fits(
                width,
                height,
                stride,
                FourCC::of_bytes(fourcc.spec_bytes()).spec_value(),
            )),
            r matches Ok(f) ==> f@ == initial_view(
                width,
                height,
                stride,
                FourCC::of_bytes(fourcc.spec_bytes()),
            ) && f@.wf(),
            r matches Err(e) ==> e == VslError::InvalidArgument,
    {
        let code = match FourCC::from_str(fourcc) {
            Ok(c) => c,
            Err(e) => return Err(e),
        };
        proof {
            assert(code.0 =~= FourCC::of_bytes(fourcc.spec_bytes()).0) by {
                broadcast use vstd::array::axiom_array_ext_equal;

            }
        }
        if width as u64 > MAX_EXTENT || height as u64 > MAX_EXTENT {
            return Err(VslError::InvalidArgument);
        }
        let s: u64 = if stride == 0 {
            width as u64 * bytes_per_pixel_exec(code.value()) as u64
        } else {
            stride as u64
        };
        if s > MAX_EXTENT {
            return Err(VslError::InvalidArgument);
        }
        assert(height as u64 * s <= MAX_EXTENT * MAX_EXTENT) by (nonlinear_arith)
            requires
                height as u64 <= MAX_EXTENT,
                s <= MAX_EXTENT,
        ;
        if height as u64 * s > MAX_EXTENT {
            return Err(VslError::InvalidArgument);
        }
        let f = Frame {
            width,
            height,
            stride: s as u32,
            fourcc: code,
            size: (height as u64 * s) as usize,
            backing: None,
            path: None,
            locked: false,
            mapped: false,
            owner: Owner::Local,
            serial: 0,
            timestamp: 0,
            duration: 0,
            pts: 0,
            dts: 0,
            expires: 0,
        };
        Ok(f)
    }

    /// The frame's width in pixels.
    pub fn width(&self) -> (r: i32)
        requires
            self@.wf(),
        ensures
            r as int == self@.width,
    {
        self.width as i32
    }

    /// The frame's height in pixels.
    pub fn height(&self) -> (r: i32)
        requires
            self@.wf(),
        ensures
            r as int == self@.height,
    {
        self.height as i32
    }

    /// The bytes per row.
    pub fn stride(&self) -> (r: u32)
        ensures
            r == self@.stride,
    {
        self.stride
    }

    /// The format, packed little-endian.
    pub fn fourcc(&self) -> (r: u32)
        ensures
            r == self@.fourcc.spec_value(),
    {
        self.fourcc.value()
    }

    /// The size of the frame's memory in bytes.
    pub fn size(&self) -> (r: i32)
        requires
            self@.wf(),
        ensures
            r as int == self@.size,
    {
        self.size as i32
    }

    /// The process-local descriptor of the frame's memory, if it has any.
    pub fn handle(&self) -> (r: Option<i32>)
        ensures
            r == (match self@.backing {
                Some(b) => Some(b.spec_fd()),
                None => None,
            }),
    {
        match &self.backing {
            Some(b) => Some(b.fd()),
            None => None,
        }
    }

    /// The memory behind the frame.
    pub fn backing(&self) -> (r: Option<Backing>)
        ensures
            r == self@.backing,
    {
        self.backing
    }

    /// The path of the frame's shared-memory object, if it has one.
    pub fn path(&self) -> (r: Option<String>)
        ensures
            opt_str_view(r) == self@.path,
    {
        match &self.path {
            Some(p) => Some(p.clone()),
            None => None,
        }
    }

    /// Who owns the frame.
    pub fn owner(&self) -> (r: Owner)
        ensures
            r == self@.owner,
    {
        self.owner
    }

    /// Whether this handle holds the frame's lock.
    pub fn is_locked(&self) -> (r: bool)
        ensures
            r == self@.locked,
    {
        self.locked
    }

    /// Whether the frame's memory is mapped.
    pub fn is_mapped(&self) -> (r: bool)
        ensures
            r == self@.mapped,
    {
        self.mapped
    }

    /// The serial that the host assigned when the frame was published.
    pub fn serial(&self) -> (r: i64)
        ensures
            r == self@.serial,
    {
        self.serial
    }

    /// The capture time in nanoseconds.
    pub fn timestamp(&self) -> (r: i64)
        ensures
            r == self@.timestamp,
    {
        self.timestamp
    }

    /// The frame's duration in nanoseconds.
    pub fn duration(&self) -> (r: i64)
        ensures
            r == self@.duration,
    {
        self.duration
    }

    /// The presentation time in nanoseconds.
    pub fn pts(&self) -> (r: i64)
        ensures
            r == self@.pts,
    {
        self.pts
    }

    /// The decode time in nanoseconds.
    pub fn dts(&self) -> (r: i64)
        ensures
            r == self@.dts,
    {
        self.dts
    }

    /// The deadline, in milliseconds, after which a host reclaims the
    /// published frame.
    pub fn expires(&self) -> (r: i64)
        ensures
            r == self@.expires,
    {
        self.expires
    }
}


/// Where a frame's memory is to come from.
#[derive(Debug, Clone, Copy, PartialEq, Eq, Structural)]
pub enum AllocKind {
    /// The system's default DMA heap.
    DmaHeap,
    /// The DMA-heap device node named by the request's path.
    DmaDevice,
    /// A shared-memory object, named by the request's path where it has one.
    Shm,
}

/// One allocation attempt for the caller to perform.
pub struct AllocRequest {
    pub kind: AllocKind,
    pub path: Option<String>,
    pub size: usize,
}

/// A mapping of a frame's memory: `len` bytes of the object open at `fd`,
/// from `offset` on.
#[derive(Debug, Clone, Copy, PartialEq, Eq, Structural)]
pub struct MapRegion {
    pub fd: i32,
    pub offset: usize,
    pub len: usize,
    pub writable: bool,
}

/// The steps that tear a frame down, in the order the caller performs them.
#[derive(Debug, Clone, Copy, PartialEq, Eq, Structural)]
pub struct Teardown {
    /// Unmap the frame's memory.
    pub unmap: bool,
    /// Give up the frame's lock.
    pub unlock: bool,
    /// Remove the frame with this serial from the host's pool.
    pub leave_pool: Option<i64>,
    /// Close this descriptor, which the frame owns.
    pub close_fd: Option<i32>,
}

/// The metadata of a published frame, as the host sends it to clients.
#[derive(Debug, Clone, Copy, PartialEq, Eq, Structural)]
pub struct FrameInfo {
    pub width: u32,
    pub height: u32,
    pub stride: u32,
    pub fourcc: u32,
    pub size: usize,
    pub serial: i64,
    pub timestamp: i64,
    pub duration: i64,
    pub pts: i64,
    pub dts: i64,
    pub expires: i64,
}

/// Whether a byte string holds a NUL byte.
pub open spec fn has_nul(b: Seq<u8>) -> bool {
    exists|i: int| 0 <= i < b.len() && b[i] == 0
}

/// Whether a path names a DMA-heap device node.
pub open spec fn is_dma_heap_path(b: Seq<u8>) -> bool {
    let p = DMA_HEAP_PREFIX.spec_bytes();
    b.len() >= p.len() && b.subrange(0, p.len() as int) == p
}

/// The frame after it was bound to `b`, its path set to `path`.
pub open spec fn bound_view(v: FrameView, b: Backing, path: Option<Seq<char>>) -> FrameView {
    FrameView { backing: Some(b), path, ..v }
}

/// What `attach` does, given the size in bytes (or the error) that the
/// operating system reports for the descriptor.
pub open spec fn attach_result(
    v: FrameView,
    fd: i32,
    size: usize,
    offset: usize,
    extent: Result<i64, i32>,
) -> Result<FrameView, VslError> {
    let n: int = if size == 0 {
        v.size as int
    } else {
        size as int
    };
    if v.backing is Some {
        Err(VslError::Os(EBUSY))
    } else if fd < 0 {
        Err(VslError::Os(EBADF))
    } else if offset != 0 && size == 0 {
        Err(VslError::InvalidArgument)
    } else if n == 0 {
        Err(VslError::Os(EINVAL))
    } else if n > MAX_EXTENT {
        Err(VslError::InvalidArgument)
    } else {
        match extent {
            Err(e) => Err(VslError::Os(e)),
            Ok(len) => if (len as int) < offset as int + n {
                Err(VslError::Os(EINVAL))
            } else {
                Ok(
                    FrameView {
                        size: n as usize,
                        ..bound_view(v, Backing::Attached { fd, offset }, None)
                    },
                )
            },
        }
    }
}

/// Whether `r` and `nv` are what `attach_result` prescribes, the frame
/// left as `v` on failure.
pub open spec fn attach_outcome(
    v: FrameView,
    fd: i32,
    size: usize,
    offset: usize,
    extent: Result<i64, i32>,
    r: Result<(), VslError>,
    nv: FrameView,
) -> bool {
    match attach_result(v, fd, size, offset, extent) {
        Ok(w) => r is Ok && nv == w,
        Err(e) => r == Err::<(), VslError>(e) && nv == v,
    }
}

/// Relies on `nix::sys::stat::fstat`: the size that the operating system
/// reports for the object open at `fd`, or the `errno` of the failure.
#[verifier::external_body]
fn fd_extent(fd: i32) -> (r: Result<i64, i32>) {
    match nix::sys::stat::fstat(fd) {
        Ok(st) => Ok(st.st_size),
        Err(e) => Err(e as i32),
    }
}

pub(crate) fn contains_nul(b: &[u8]) -> (r: bool)
    ensures
        r == has_nul(b@),
{
    let mut i: usize = 0;
    while i < b.len()
        invariant
            i <= b@.len(),
            forall|j: int| 0 <= j < i ==> b@[j] != 0,
        decreases b@.len() - i,
    {
        if b[i] == 0 {
            return true;
        }
        i = i + 1;
    }
    false
}

fn starts_with_dma_heap(b: &[u8]) -> (r: bool)
    ensures
        r == is_dma_heap_path(b@),
{
    let p = DMA_HEAP_PREFIX.as_bytes();
    if b.len() < p.len() {
        return false;
    }
    let mut i: usize = 0;
    while i < p.len()
        invariant
            p@ == DMA_HEAP_PREFIX.spec_bytes(),
            p@.len() <= b@.len(),
            i <= p@.len(),
            forall|j: int| 0 <= j < i ==> b@[j] == p@[j],
        decreases p@.len() - i,
    {
        if b[i] != p[i] {
            assert(b@.subrange(0, p@.len() as int)[i as int] != p@[i as int]);
            return false;
        }
        i = i + 1;
    }
    assert(b@.subrange(0, p@.len() as int) =~= p@);
    true
}

impl Frame {
    /// Plans the first step of allocating the frame's memory.
    ///
    /// Without a path the frame asks for a DMA buffer from the default heap;
    /// with a path under `DMA_HEAP_PREFIX`, from that heap device; with any
    /// other path, for a shared-memory object of that name. A frame that is
    /// already bound is refused, as is a frame of size 0 and a path that is
    /// empty or holds a NUL byte.
    pub fn allocate(&self, path: Option<&str>) -> (r: Result<AllocRequest, VslError>)
        ensures
            self@.backing is Some ==> r == Err::<AllocRequest, VslError>(VslError::Os(EBUSY)),
            self@.backing is None && self@.size == 0 ==> r == Err::<AllocRequest, VslError>(
                VslError::Os(EINVAL),
            ),
            self@.backing is None && self@.size > 0 ==> match path {
                None => r matches Ok(q) && q.kind == AllocKind::DmaHeap && q.path is None
                    && q.size == self@.size,
                Some(p) => if p@.len() == 0 || has_nul(p.spec_bytes()) {
                    r == Err::<AllocRequest, VslError>(VslError::InvalidArgument)
                } else {
                    r matches Ok(q) && q.kind == (if is_dma_heap_path(p.spec_bytes()) {
                        AllocKind::DmaDevice
                    } else {
                        AllocKind::Shm
                    }) && opt_str_view(q.path) == Some(p@) && q.size == self@.size
                },
            },
    {
        if self.backing.is_some() {
            return Err(VslError::Os(EBUSY));
        }
        if self.size == 0 {
            return Err(VslError::Os(EINVAL));
        }
        match path {
            None => Ok(AllocRequest { kind: AllocKind::DmaHeap, path: None, size: self.size }),
            Some(p) => {
                let b = p.as_bytes();
                if p.is_empty() || contains_nul(b) {
                    return Err(VslError::InvalidArgument);
                }
                let kind = if starts_with_dma_heap(b) {
                    AllocKind::DmaDevice
                } else {
                    AllocKind::Shm
                };
                Ok(AllocRequest { kind, path: Some(p.to_owned()), size: self.size })
            },
        }
    }

    /// Takes the outcome of an allocation attempt: the new descriptor, or
    /// the `errno` of the failure.
    ///
    /// On success the frame is bound to the new memory. A failed DMA attempt
    /// falls back to an unnamed shared-memory object, which is returned as
    /// the next request; a failed shared-memory attempt is final.
    pub fn complete_alloc(&mut self, req: &AllocRequest, outcome: Result<i32, i32>) -> (r: Result<
        Option<AllocRequest>,
        VslError,
    >)
        requires
            old(self)@.wf(),
        ensures
            final(self)@.wf(),
            old(self)@.backing is Some ==> r == Err::<Option<AllocRequest>, VslError>(
                VslError::Os(EBUSY),
            ) && final(self)@ == old(self)@,
            old(self)@.backing is None ==> match outcome {
                Ok(fd) => if fd < 0 {
                    r == Err::<Option<AllocRequest>, VslError>(VslError::NullResource)
                        && final(self)@ == old(self)@
                } else if req.kind == AllocKind::Shm {
                    r matches Ok(None) && final(self)@ == bound_view(
                        old(self)@,
                        Backing::Shm { fd },
                        opt_str_view(req.path),
                    )
                } else {
                    r matches Ok(None) && final(self)@ == bound_view(
                        old(self)@,
                        Backing::Dma { fd },
                        None,
                    )
                },
                Err(e) => final(self)@ == old(self)@ && if req.kind == AllocKind::Shm {
                    r == Err::<Option<AllocRequest>, VslError>(VslError::Os(e))
                } else {
                    r matches Ok(Some(q)) && q.kind == AllocKind::Shm && q.path is None && q.size
                        == req.size
                },
            },
    {
        if self.backing.is_some() {
            return Err(VslError::Os(EBUSY));
        }
        match outcome {
            Ok(fd) => {
                if fd < 0 {
                    return Err(VslError::NullResource);
                }
                match req.kind {
                    AllocKind::Shm => {
                        self.backing = Some(Backing::Shm { fd });
                        self.path = match &req.path {
                            Some(p) => Some(p.clone()),
                            None => None,
                        };
                    },
                    _ => {
                        self.backing = Some(Backing::Dma { fd });
                        self.path = None;
                    },
                }
                Ok(None)
            },
            Err(e) => match req.kind {
                AllocKind::Shm => Err(VslError::Os(e)),
                _ => Ok(Some(AllocRequest { kind: AllocKind::Shm, path: None, size: req.size })),
            },
        }
    }

    /// Binds the frame to a descriptor that the caller owns, given the size
    /// in bytes (or the error) that the operating system reports for it.
    ///
    /// A `size` of 0 stands for the frame's own size; an `offset` needs an
    /// explicit size. The descriptor must supply `offset + size` bytes.
    pub fn attach_with_extent(
        &mut self,
        fd: i32,
        size: usize,
        offset: usize,
        extent: Result<i64, i32>,
    ) -> (r: Result<(), VslError>)
        requires
            old(self)@.wf(),
        ensures
            final(self)@.wf(),
            attach_outcome(old(self)@, fd, size, offset, extent, r, final(self)@),
    {
        if self.backing.is_some() {
            return Err(VslError::Os(EBUSY));
        }
        if fd < 0 {
            return Err(VslError::Os(EBADF));
        }
        if offset != 0 && size == 0 {
            return Err(VslError::InvalidArgument);
        }
        let n: usize = if size == 0 {
            self.size
        } else {
            size
        };
        if n == 0 {
            return Err(VslError::Os(EINVAL));
        }
        if n as u64 > MAX_EXTENT {
            return Err(VslError::InvalidArgument);
        }
        match extent {
            Err(e) => Err(VslError::Os(e)),
            Ok(len) => {
                if (len as i128) < offset as i128 + n as i128 {
                    return Err(VslError::Os(EINVAL));
                }
                self.backing = Some(Backing::Attached { fd, offset });
                self.path = None;
                self.size = n;
                Ok(())
            },
        }
    }

    /// Binds the frame to a descriptor that the caller owns, asking the
    /// operating system how large the object behind it is.
    pub fn attach(&mut self, fd: i32, size: usize, offset: usize) -> (r: Result<(), VslError>)
        requires
            old(self)@.wf(),
        ensures
            final(self)@.wf(),
            exists|extent: Result<i64, i32>|
                attach_outcome(old(self)@, fd, size, offset, extent, r, final(self)@),
    {
        let extent = if self.backing.is_none() && fd >= 0 {
            fd_extent(fd)
        } else {
            Err(EBADF)
        };
        self.attach_with_extent(fd, size, offset, extent)
    }

    /// Takes the frame's lock without waiting, given the outcome of the
    /// non-blocking cross-process test-and-set on its memory: success, or
    /// the `errno` with which it found the lock held by another holder.
    ///
    /// A free-standing frame has no cross-process lock: it succeeds without
    /// any test and records that the caller holds the lock, which it may
    /// take again. A shared frame whose lock this handle already holds fails
    /// with `EBUSY`; one whose lock another holder has fails with that
    /// error and stays unlocked.
    pub fn trylock(&mut self, outcome: Result<(), i32>) -> (r: Result<(), VslError>)
        requires
            old(self)@.wf(),
        ensures
            final(self)@.wf(),
            old(self)@.owner == Owner::Local ==> r is Ok && final(self)@ == (FrameView {
                locked: true,
                ..old(self)@
            }),
            old(self)@.owner != Owner::Local && old(self)@.locked ==> r == Err::<(), VslError>(
                VslError::Os(EBUSY),
            ) && final(self)@ == old(self)@,
            old(self)@.owner != Owner::Local && !old(self)@.locked ==> match outcome {
                Ok(_) => r is Ok && final(self)@ == (FrameView { locked: true, ..old(self)@ }),
                Err(e) => r == Err::<(), VslError>(VslError::Os(e)) && final(self)@ == old(self)@,
            },
    {
        match self.owner {
            Owner::Local => {
                self.locked = true;
                Ok(())
            },
            _ => {
                if self.locked {
                    return Err(VslError::Os(EBUSY));
                }
                match outcome {
                    Ok(_) => {
                        self.locked = true;
                        Ok(())
                    },
                    Err(e) => Err(VslError::Os(e)),
                }
            },
        }
    }

    /// Whether `trylock` needs the cross-process test-and-set: only a shared
    /// frame that this handle does not hold locked does.
    pub fn needs_lock_test(&self) -> (r: bool)
        ensures
            r == (self@.owner != Owner::Local && !self@.locked),
    {
        match self.owner {
            Owner::Local => false,
            _ => !self.locked,
        }
    }

    /// Gives up the frame's lock, whoever owns the frame. It fails with
    /// `EPERM` where the caller does not hold the lock, and with `EBUSY`
    /// where the frame is still mapped.
    pub fn unlock(&mut self) -> (r: Result<(), VslError>)
        requires
            old(self)@.wf(),
        ensures
            final(self)@.wf(),
            !old(self)@.locked ==> r == Err::<(), VslError>(VslError::Os(EPERM)) && final(self)@
                == old(self)@,
            old(self)@.locked && old(self)@.mapped ==> r == Err::<(), VslError>(
                VslError::Os(EBUSY),
            ) && final(self)@ == old(self)@,
            old(self)@.locked && !old(self)@.mapped ==> r is Ok && final(self)@ == (FrameView {
                locked: false,
                ..old(self)@
            }),
    {
        if !self.locked {
            return Err(VslError::Os(EPERM));
        }
        if self.mapped {
            return Err(VslError::Os(EBUSY));
        }
        self.locked = false;
        Ok(())
    }

    fn map_region(&mut self, writable: bool) -> (r: Result<MapRegion, VslError>)
        requires
            old(self)@.wf(),
        ensures
            final(self)@.wf(),
            r == map_result(old(self)@, writable),
            r is Ok ==> final(self)@ == (FrameView { mapped: true, ..old(self)@ }),
            r is Err ==> final(self)@ == old(self)@,
    {
        match self.backing {
            None => Err(VslError::Os(EINVAL)),
            Some(b) => {
                if self.size == 0 {
                    return Err(VslError::Os(EINVAL));
                }
                match self.owner {
                    Owner::Local => {},
                    _ => {
                        if !self.locked {
                            return Err(VslError::Os(EPERM));
                        }
                    },
                }
                let offset = match b {
                    Backing::Attached { offset, .. } => offset,
                    _ => 0,
                };
                self.mapped = true;
                Ok(MapRegion { fd: b.fd(), offset, len: self.size, writable })
            },
        }
    }

    /// Maps the frame's memory for reading: exactly `size()` bytes. Fails
    /// where the frame has no memory or none of it, and where a shared
    /// frame is not locked.
    pub fn mmap(&mut self) -> (r: Result<MapRegion, VslError>)
        requires
            old(self)@.wf(),
        ensures
            final(self)@.wf(),
            r == map_result(old(self)@, false),
            r is Ok ==> final(self)@ == (FrameView { mapped: true, ..old(self)@ }),
            r is Err ==> final(self)@ == old(self)@,
    {
        self.map_region(false)
    }

    /// Maps the frame's memory for reading and writing, as `mmap` does.
    pub fn mmap_mut(&mut self) -> (r: Result<MapRegion, VslError>)
        requires
            old(self)@.wf(),
        ensures
            final(self)@.wf(),
            r == map_result(old(self)@, true),
            r is Ok ==> final(self)@ == (FrameView { mapped: true, ..old(self)@ }),
            r is Err ==> final(self)@ == old(self)@,
    {
        self.map_region(true)
    }

    /// Unmaps the frame's memory; a frame that is not mapped is left as it
    /// is.
    pub fn munmap(&mut self)
        requires
            old(self)@.wf(),
        ensures
            final(self)@.wf(),
            final(self)@ == (FrameView { mapped: false, ..old(self)@ }),
    {
        self.mapped = false;
    }

    /// Sets the capture time in nanoseconds.
    pub fn set_timestamp(&mut self, timestamp: i64)
        requires
            old(self)@.wf(),
        ensures
            final(self)@.wf(),
            final(self)@ == (FrameView { timestamp, ..old(self)@ }),
    {
        self.timestamp = timestamp;
    }

    /// The metadata that a host sends to its clients for this frame.
    pub fn info(&self) -> (r: FrameInfo)
        ensures
            r == info_of(self@),
    {
        FrameInfo {
            width: self.width,
            height: self.height,
            stride: self.stride,
            fourcc: self.fourcc.value(),
            size: self.size,
            serial: self.serial,
            timestamp: self.timestamp,
            duration: self.duration,
            pts: self.pts,
            dts: self.dts,
            expires: self.expires,
        }
    }

    /// Tears the frame down: the steps to perform, in order. Owned memory is
    /// closed; memory attached from the caller stays the caller's; a frame
    /// in a host's pool leaves it.
    pub fn release(self) -> (r: Teardown)
        ensures
            r == teardown_of(self@),
    {
        let close_fd = match self.backing {
            Some(Backing::Attached { .. }) => None,
            Some(b) => Some(b.fd()),
            None => None,
        };
        let leave_pool = match self.owner {
            Owner::Host => Some(self.serial),
            _ => None,
        };
        Teardown { unmap: self.mapped, unlock: self.locked, leave_pool, close_fd }
    }

    /// Moves the frame into a host's pool, stamped with its serial and
    /// timing. The host's lock on it is released.
    pub(crate) fn mark_published(
        &mut self,
        serial: i64,
        expires: i64,
        duration: i64,
        pts: i64,
        dts: i64,
    )
        requires
            old(self)@.wf(),
            old(self)@.backing is Some,
        ensures
            final(self)@.wf(),
            final(self)@ == published_view(old(self)@, serial, expires, duration, pts, dts),
    {
        self.owner = Owner::Host;
        self.mapped = false;
        self.locked = false;
        self.serial = serial;
        self.expires = expires;
        self.duration = duration;
        self.pts = pts;
        self.dts = dts;
    }

    /// Returns a frame from a host's pool to its producer.
    pub(crate) fn mark_returned(&mut self)
        requires
            old(self)@.wf(),
        ensures
            final(self)@.wf(),
            final(self)@ == (FrameView { owner: Owner::Local, locked: false, ..old(self)@ }),
    {
        self.owner = Owner::Local;
        self.locked = false;
    }

    /// A frame lent by a host: built from the metadata that the host sent
    /// and the client's descriptor on its memory, and locked for the
    /// client. Fails with `EBADF` for a negative descriptor and with
    /// `InvalidArgument` for metadata that no frame could carry.
    pub fn borrowed(info: FrameInfo, fd: i32) -> (r: Result<Frame, VslError>)
        ensures
            fd < 0 ==> r == Err::<Frame, VslError>(VslError::Os(EBADF)),
            fd >= 0 && !info_fits(info) ==> r == Err::<Frame, VslError>(
                VslError::InvalidArgument,
            ),
            fd >= 0 && info_fits(info) ==> (r matches Ok(f) && f@ == borrowed_view(info, fd)
                && f@.wf()),
    {
        if fd < 0 {
            return Err(VslError::Os(EBADF));
        }
        if info.width as u64 > MAX_EXTENT || info.height as u64 > MAX_EXTENT || info.size as u64
            > MAX_EXTENT {
            return Err(VslError::InvalidArgument);
        }
        Ok(
            Frame {
                width: info.width,
                height: info.height,
                stride: info.stride,
                fourcc: FourCC::from_value(info.fourcc),
                size: info.size,
                backing: Some(Backing::Borrowed { fd }),
                path: None,
                locked: true,
                mapped: false,
                owner: Owner::Client,
                serial: info.serial,
                timestamp: info.timestamp,
                duration: info.duration,
                pts: info.pts,
                dts: info.dts,
                expires: info.expires,
            },
        )
    }
}

/// What mapping a frame gives.
pub open spec fn map_result(v: FrameView, writable: bool) -> Result<MapRegion, VslError> {
    match v.backing {
        None => Err(VslError::Os(EINVAL)),
        Some(b) => if v.size == 0 {
            Err(VslError::Os(EINVAL))
        } else if v.owner != Owner::Local && !v.locked {
            Err(VslError::Os(EPERM))
        } else {
            Ok(MapRegion { fd: b.spec_fd(), offset: b.spec_offset(), len: v.size, writable })
        },
    }
}

/// The metadata of a frame.
pub open spec fn info_of(v: FrameView) -> FrameInfo {
    FrameInfo {
        width: v.width,
        height: v.height,
        stride: v.stride,
        fourcc: v.fourcc.spec_value(),
        size: v.size,
        serial: v.serial,
        timestamp: v.timestamp,
        duration: v.duration,
        pts: v.pts,
        dts: v.dts,
        expires: v.expires,
    }
}

/// Whether a frame can carry this metadata.
pub open spec fn info_fits(info: FrameInfo) -> bool {
    info.width as int <= MAX_EXTENT && info.height as int <= MAX_EXTENT && info.size as int
        <= MAX_EXTENT
}

/// A frame lent to a client, locked for it.
pub open spec fn borrowed_view(info: FrameInfo, fd: i32) -> FrameView {
    FrameView {
        width: info.width,
        height: info.height,
        stride: info.stride,
        fourcc: FourCC::of_value(info.fourcc),
        size: info.size,
        backing: Some(Backing::Borrowed { fd }),
        path: None,
        locked: true,
        mapped: false,
        owner: Owner::Client,
        serial: info.serial,
        timestamp: info.timestamp,
        duration: info.duration,
        pts: info.pts,
        dts: info.dts,
        expires: info.expires,
    }
}

/// A frame after it entered a host's pool.
pub open spec fn published_view(
    v: FrameView,
    serial: i64,
    expires: i64,
    duration: i64,
    pts: i64,
    dts: i64,
) -> FrameView {
    FrameView {
        owner: Owner::Host,
        locked: false,
        mapped: false,
        serial,
        expires,
        duration,
        pts,
        dts,
        ..v
    }
}

/// The teardown of a frame.
pub open spec fn teardown_of(v: FrameView) -> Teardown {
    Teardown {
        unmap: v.mapped,
        unlock: v.locked,
        leave_pool: if v.owner == Owner::Host {
            Some(v.serial)
        } else {
            None
        },
        close_fd: match v.backing {
            Some(Backing::Attached { .. }) => None,
            Some(b) => Some(b.spec_fd()),
            None => None,
        },
    }
}

/// A frame of format `RGB3` created with a stride of 0 gets three bytes per
/// pixel, so its size is `width * height * 3`; binding memory to it keeps
/// that size.
pub proof fn lemma_rgb3_size(width: u32, height: u32, b: Backing, path: Option<Seq<char>>)
    requires
        geometry_fits(width, height, 0, 0x33424752),
    ensures
        FourCC([0x52u8, 0x47u8, 0x42u8, 0x33u8]).spec_value() == 0x33424752,
        initial_view(width, height, 0, FourCC([0x52u8, 0x47u8, 0x42u8, 0x33u8])).size == width
            * height * 3,
        bound_view(
            initial_view(width, height, 0, FourCC([0x52u8, 0x47u8, 0x42u8, 0x33u8])),
            b,
            path,
        ).size == width * height * 3,
{
    let c = FourCC([0x52u8, 0x47u8, 0x42u8, 0x33u8]);
    assert(((0x52u8 as u32) | ((0x47u8 as u32) << 8u32) | ((0x42u8 as u32) << 16u32) | ((
    0x33u8 as u32) << 24u32)) == 0x33424752u32) by (bit_vector);
    assert(c.spec_value() == 0x33424752);
    assert(height as int * (width as int * 3) == width * height * 3) by (nonlinear_arith);
}

/// With a stride of 0, a planar frame gets one byte per pixel of its luma
/// plane and a compressed frame the worst case of four, so neither is left
/// with size 0.
pub proof fn lemma_derived_sizes(width: u32, height: u32, code: u32)
    requires
        is_planar(code) || is_compressed(code),
    ensures
        is_planar(code) ==> initial_view(width, height, 0, FourCC::of_value(code)).size as int
            == height as int * width as int || !geometry_fits(width, height, 0, code),
        is_compressed(code) ==> initial_view(width, height, 0, FourCC::of_value(code)).size as int
            == height as int * width as int * 4 || !geometry_fits(width, height, 0, code),
{
    lemma_unpack_pack(code);
    assert(FourCC::of_value(code).spec_value() == code);
    if is_planar(code) {
        assert(bytes_per_pixel(code) == 1);
        assert(effective_stride(width, 0, code) == width as int);
    }
    assert(height as int * (width as int * 4) == height as int * width as int * 4)
        by (nonlinear_arith);
}

/// Two frames attached to the same descriptor with the same explicit size
/// and offset map the same memory: their mappings cover the same bytes of
/// the same object.
pub proof fn lemma_attached_frames_alias(
    v1: FrameView,
    v2: FrameView,
    fd: i32,
    size: usize,
    offset: usize,
    extent1: Result<i64, i32>,
    extent2: Result<i64, i32>,
)
    requires
        v1.wf(),
        v2.wf(),
        size > 0,
        attach_result(v1, fd, size, offset, extent1) is Ok,
        attach_result(v2, fd, size, offset, extent2) is Ok,
    ensures
        ({
            let w1 = attach_result(v1, fd, size, offset, extent1)->Ok_0;
            let w2 = attach_result(v2, fd, size, offset, extent2)->Ok_0;
            &&& map_result(w1, true) is Ok
            &&& map_result(w2, false) is Ok
            &&& map_result(w1, true)->Ok_0.fd == map_result(w2, false)->Ok_0.fd
            &&& map_result(w1, true)->Ok_0.offset == map_result(w2, false)->Ok_0.offset
            &&& map_result(w1, true)->Ok_0.len == map_result(w2, false)->Ok_0.len
        }),
{
}

/// Attaching a negative descriptor fails with an operating-system error,
/// and so does attaching one whose object is smaller than the extent asked
/// for.
pub proof fn lemma_attach_rejects_bad_descriptors(
    v: FrameView,
    fd: i32,
    size: usize,
    offset: usize,
    extent: Result<i64, i32>,
    len: i64,
)
    requires
        v.backing is None,
    ensures
        attach_result(v, -1i32, size, offset, extent) == Err::<FrameView, VslError>(
            VslError::Os(EBADF),
        ),
        fd >= 0 && 0 < size <= MAX_EXTENT && (len as int) < offset as int + size as int
            ==> attach_result(v, fd, size, offset, Ok(len)) == Err::<FrameView, VslError>(
            VslError::Os(EINVAL),
        ),
{
}

} // verus!
