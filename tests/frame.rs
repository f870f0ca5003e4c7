use videostream::error::{VslError, EBADF, EBUSY, EINVAL, EPERM};
use videostream::fourcc::FourCC;
use videostream::frame::{AllocKind, Backing, Frame, Owner};

#[test]
fn fourcc() {
    let c = FourCC::from_str("RGB3").unwrap();
    assert_eq!(c, FourCC(*b"RGB3"));
    assert_eq!(c.value(), 0x33424752);
    assert_eq!(u32::from(c), 0x33424752);
    assert_eq!(FourCC::from(0x56595559u32), FourCC(*b"YUYV"));
    assert_eq!(c.to_string(), Some(String::from("RGB3")));
    let frame = Frame::new(640, 480, 0, "RGB3").unwrap();
    assert_eq!(frame.fourcc(), 0x33424752);
}

#[test]
fn bad_fourcc() {
    assert_eq!(FourCC::from_str("RGB").unwrap_err(), VslError::InvalidArgument);
    assert_eq!(FourCC::from_str("RGB33").unwrap_err(), VslError::InvalidArgument);
    assert_eq!(FourCC::from_str("").unwrap_err(), VslError::InvalidArgument);
    assert_eq!(FourCC::from_str("RGé").unwrap_err(), VslError::InvalidArgument);
    assert!(matches!(
        Frame::new(640, 480, 0, "RGB"),
        Err(VslError::InvalidArgument)
    ));
    assert_eq!(FourCC([0x80, b'A', b'B', b'C']).to_string(), None);
}

#[test]
fn fourcc_round_trip() {
    for s in ["RGB3", "YUYV", "NV12", "H264", "GREY"] {
        let c = FourCC::from_str(s).unwrap();
        let b = s.as_bytes();
        let packed = b[0] as u32 | (b[1] as u32) << 8 | (b[2] as u32) << 16 | (b[3] as u32) << 24;
        assert_eq!(c.value(), packed);
        assert_eq!(c.to_string().unwrap(), s);
        assert_eq!(FourCC::from_value(c.value()), c);
    }
}

#[test]
fn nodma() {
    let mut frame = Frame::new(640, 480, 0, "RGB3").unwrap();
    let req = frame.allocate(None).unwrap();
    assert_eq!(req.kind, AllocKind::DmaHeap);
    assert_eq!(req.path, None);
    assert_eq!(req.size, 640 * 480 * 3);
    // No DMA heap: the frame falls back to shared memory.
    let next = frame.complete_alloc(&req, Err(19)).unwrap().unwrap();
    assert_eq!(next.kind, AllocKind::Shm);
    assert_eq!(next.path, None);
    assert_eq!(frame.backing(), None);
    assert_eq!(frame.complete_alloc(&next, Ok(7)).unwrap().is_none(), true);
    assert_eq!(frame.backing(), Some(Backing::Shm { fd: 7 }));
    assert_eq!(frame.handle(), Some(7));
    assert_eq!(frame.size(), 640 * 480 * 3);
    // A second allocation is refused.
    assert_eq!(frame.allocate(None).err(), Some(VslError::Os(EBUSY)));
}

#[test]
fn shm_failure_is_final() {
    let mut frame = Frame::new(64, 64, 0, "GREY").unwrap();
    let req = frame.allocate(None).unwrap();
    let next = frame.complete_alloc(&req, Err(19)).unwrap().unwrap();
    assert_eq!(frame.complete_alloc(&next, Err(12)).err(), Some(VslError::Os(12)));
    assert_eq!(frame.backing(), None);
}

#[test]
fn invalid_shm_name() {
    let frame = Frame::new(640, 480, 0, "RGB3").unwrap();
    assert_eq!(frame.allocate(Some("bad\0name")).err(), Some(VslError::InvalidArgument));
    assert_eq!(frame.allocate(Some("")).err(), Some(VslError::InvalidArgument));
    let shm = frame.allocate(Some("/vsl_frame")).unwrap();
    assert_eq!(shm.kind, AllocKind::Shm);
    assert_eq!(shm.path.as_deref(), Some("/vsl_frame"));
    let dev = frame.allocate(Some("/dev/dma_heap/linux,cma")).unwrap();
    assert_eq!(dev.kind, AllocKind::DmaDevice);
}

#[test]
fn named_shm_keeps_path() {
    let mut frame = Frame::new(8, 8, 0, "RGBA").unwrap();
    assert_eq!(frame.path(), None);
    let req = frame.allocate(Some("/vsl_named")).unwrap();
    frame.complete_alloc(&req, Ok(4)).unwrap();
    assert_eq!(frame.path(), Some(String::from("/vsl_named")));
    assert_eq!(frame.size(), 8 * 8 * 4);
}

#[test]
fn frame_geometry() {
    let frame = Frame::new(640, 480, 0, "RGB3").unwrap();
    assert_eq!(frame.width(), 640);
    assert_eq!(frame.height(), 480);
    assert_eq!(frame.stride(), 1920);
    assert_eq!(frame.size(), 921600);
    assert_eq!(frame.handle(), None);
    let yuyv = Frame::new(6, 4, 0, "YUYV").unwrap();
    assert_eq!(yuyv.size(), 6 * 4 * 2);
    let padded = Frame::new(6, 4, 32, "YUYV").unwrap();
    assert_eq!(padded.size(), 4 * 32);
    // Planar formats derive the luma stride; compressed ones the worst case.
    let nv12 = Frame::new(6, 4, 0, "NV12").unwrap();
    assert_eq!(nv12.stride(), 6);
    assert_eq!(nv12.size(), 6 * 4);
    assert!(nv12.allocate(None).is_ok());
    let h264 = Frame::new(6, 4, 0, "H264").unwrap();
    assert_eq!(h264.size(), 6 * 4 * 4);
    assert!(h264.allocate(None).is_ok());
    let unknown = Frame::new(6, 4, 0, "ABCD").unwrap();
    assert_eq!(unknown.size(), 0);
    assert_eq!(unknown.allocate(None).err(), Some(VslError::Os(EINVAL)));
    assert!(matches!(
        Frame::new(70000, 70000, 0, "RGBA"),
        Err(VslError::InvalidArgument)
    ));
}

#[test]
fn bad_attach() {
    let mut frame = Frame::new(640, 480, 0, "RGB3").unwrap();

    match frame.attach(-1, 1 as usize, 0) {
        Ok(_) => {
            panic!("Failed")
        }
        Err(_) => {}
    };

    match frame.attach(9000, 1 as usize, 0) {
        Ok(_) => {
            panic!("Failed")
        }
        Err(_) => {}
    };
}

#[test]
fn attach_errors() {
    let mut frame = Frame::new(640, 480, 0, "RGB3").unwrap();
    assert_eq!(frame.attach(-1, 1, 0), Err(VslError::Os(EBADF)));
    assert_eq!(frame.attach(9000, 1, 0), Err(VslError::Os(EBADF)));
    assert_eq!(
        frame.attach_with_extent(3, 0, 16, Ok(1 << 20)),
        Err(VslError::InvalidArgument)
    );
    // The object behind the descriptor is too small.
    assert_eq!(
        frame.attach_with_extent(3, 1000, 0, Ok(10)),
        Err(VslError::Os(EINVAL))
    );
    assert_eq!(
        frame.attach_with_extent(3, 1000, 100, Ok(1050)),
        Err(VslError::Os(EINVAL))
    );
    assert_eq!(frame.attach_with_extent(3, 0, 0, Err(9)), Err(VslError::Os(9)));
    assert_eq!(frame.backing(), None);
    assert_eq!(frame.attach_with_extent(3, 0, 0, Ok(921600)), Ok(()));
    assert_eq!(frame.backing(), Some(Backing::Attached { fd: 3, offset: 0 }));
    assert_eq!(frame.size(), 921600);
    assert_eq!(frame.attach_with_extent(4, 0, 0, Ok(921600)), Err(VslError::Os(EBUSY)));
}

#[test]
fn attached_frames_alias() {
    let mut a = Frame::new(640, 480, 0, "RGB3").unwrap();
    let mut b = Frame::new(640, 480, 0, "RGB3").unwrap();
    a.attach_with_extent(5, 921600, 0, Ok(921600)).unwrap();
    b.attach_with_extent(5, 921600, 0, Ok(921600)).unwrap();
    let ra = a.mmap_mut().unwrap();
    let rb = b.mmap().unwrap();
    assert_eq!((ra.fd, ra.offset, ra.len), (rb.fd, rb.offset, rb.len));
    assert_eq!(ra.len, 921600);
    assert!(ra.writable);
    assert!(!rb.writable);
}

#[test]
fn map_needs_memory() {
    let mut frame = Frame::new(16, 16, 0, "GREY").unwrap();
    assert_eq!(frame.mmap().err(), Some(VslError::Os(EINVAL)));
    frame.attach_with_extent(6, 0, 0, Ok(256)).unwrap();
    assert!(frame.mmap().is_ok());
    assert!(frame.is_mapped());
    frame.munmap();
    frame.munmap();
    assert!(!frame.is_mapped());
}

#[test]
fn free_standing_lock_needs_no_test() {
    let mut frame = Frame::new(640, 480, 0, "RGB3").unwrap();
    // Never locked: unlocking fails.
    assert_eq!(frame.unlock(), Err(VslError::Os(EPERM)));
    assert!(!frame.needs_lock_test());
    // The outcome of a cross-process test is not consulted.
    assert_eq!(frame.trylock(Err(11)), Ok(()));
    assert_eq!(frame.trylock(Ok(())), Ok(()));
    assert!(frame.is_locked());
    assert_eq!(frame.unlock(), Ok(()));
    assert!(!frame.is_locked());
    assert_eq!(frame.unlock(), Err(VslError::Os(EPERM)));
}

#[test]
fn release_closes_owned_memory() {
    let mut frame = Frame::new(16, 16, 0, "GREY").unwrap();
    let req = frame.allocate(None).unwrap();
    frame.complete_alloc(&req, Ok(11)).unwrap();
    frame.mmap().unwrap();
    let t = frame.release();
    assert!(t.unmap);
    assert!(!t.unlock);
    assert_eq!(t.close_fd, Some(11));
    assert_eq!(t.leave_pool, None);

    let mut attached = Frame::new(16, 16, 0, "GREY").unwrap();
    attached.attach_with_extent(12, 0, 0, Ok(256)).unwrap();
    assert_eq!(attached.release().close_fd, None);
}

#[test]
fn borrowed_frame_lock_rules() {
    let src = Frame::new(16, 16, 0, "GREY").unwrap();
    let mut info = src.info();
    info.timestamp = 42;
    let mut f = Frame::borrowed(info, 9).unwrap();
    assert_eq!(f.owner(), Owner::Client);
    assert!(f.is_locked());
    assert_eq!(f.timestamp(), 42);
    assert!(!f.needs_lock_test());
    assert_eq!(f.trylock(Ok(())), Err(VslError::Os(EBUSY)));
    f.mmap().unwrap();
    assert_eq!(f.unlock(), Err(VslError::Os(EBUSY)));
    f.munmap();
    assert_eq!(f.unlock(), Ok(()));
    assert_eq!(f.unlock(), Err(VslError::Os(EPERM)));
    assert_eq!(f.mmap().err(), Some(VslError::Os(EPERM)));
    assert!(f.needs_lock_test());
    // Another holder has the lock: the test-and-set reports it.
    assert_eq!(f.trylock(Err(11)), Err(VslError::Os(11)));
    assert!(!f.is_locked());
    assert_eq!(f.trylock(Ok(())), Ok(()));
    assert_eq!(Frame::borrowed(info, -1).err(), Some(VslError::Os(EBADF)));
    let t = f.release();
    assert!(t.unlock);
    assert_eq!(t.close_fd, Some(9));
}

#[test]
fn frame_frame() {
    let mut frame = Frame::new(640, 480, 0, "RGB3").unwrap();

    assert_eq!(frame.width(), 640);
    assert_eq!(frame.height(), 480);
    assert_eq!(frame.fourcc(), 0x33424752);
    assert_eq!(frame.path(), None);
    assert_eq!(frame.handle(), None);

    let req = frame.allocate(None).unwrap();
    assert!(frame.complete_alloc(&req, Ok(20)).unwrap().is_none());

    assert_eq!(frame.size(), 640 * 480 * 3);

    let mem = frame.mmap_mut().unwrap();
    let mem2 = frame.mmap().unwrap();
    assert_eq!((mem.fd, mem.offset, mem.len), (mem2.fd, mem2.offset, mem2.len));
    assert_eq!(mem.len, 921600);

    let mut frame2 = Frame::new(640, 480, 0, "RGB3").unwrap();
    frame2
        .attach_with_extent(
            frame.handle().unwrap(),
            frame.size() as usize,
            0,
            Ok(frame.size() as i64),
        )
        .unwrap();
    let v2 = frame2.mmap_mut().unwrap();
    assert_eq!((mem.fd, mem.offset, mem.len), (v2.fd, v2.offset, v2.len));
}

#[test]
fn announcement_round_trip() {
    let mut f = Frame::new(640, 480, 0, "RGB3").unwrap();
    f.set_timestamp(-5);
    let mut info = f.info();
    info.serial = 9;
    info.expires = 1234;
    let b = info.to_bytes();
    assert_eq!(b.len(), videostream::wire::INFO_LEN);
    assert_eq!(&b[0..8], &640u64.to_le_bytes());
    assert_eq!(&b[48..56], &(-5i64).to_le_bytes());
    assert_eq!(videostream::frame::FrameInfo::from_bytes(&b), Some(info));
    assert_eq!(videostream::frame::FrameInfo::from_bytes(&b[..87]), None);
}
