use videostream::camera::{
    create_camera, Camera, Dequeued, Mirror, MirrorOutcome, StreamFormat, MAX_FORMATS,
};
use videostream::error::{VslError, EINVAL};
use videostream::fourcc::FourCC;

fn yuyv() -> u32 {
    FourCC(*b"YUYV").value()
}

#[test]
fn default_settings() {
    let cam = create_camera();
    assert_eq!(cam.device(), "/dev/video0");
    assert_eq!(cam.mirror(), Mirror::Off);
    assert_eq!(
        cam.request(),
        StreamFormat { width: 1920, height: 1080, num_buffers: 4, fourcc: yuyv() }
    );
}

#[test]
fn builder_keeps_other_settings() {
    let cam = create_camera()
        .with_device("/dev/video3")
        .with_resolution(640, 480)
        .with_format(FourCC(*b"NV12"))
        .with_mirror(Mirror::Both)
        .with_buffers(6);
    assert_eq!(cam.device(), "/dev/video3");
    assert_eq!(cam.mirror(), Mirror::Both);
    assert_eq!(
        cam.request(),
        StreamFormat {
            width: 640,
            height: 480,
            num_buffers: 6,
            fourcc: FourCC(*b"NV12").value()
        }
    );
}

#[test]
fn test_resolutions() {
    let cam = create_camera()
        .with_device("/dev/video3")
        .with_resolution(640, 480);
    let asked = cam.request();
    assert_eq!((asked.width, asked.height), (640, 480));
    let granted = StreamFormat { width: 640, height: 480, num_buffers: 4, fourcc: yuyv() };
    let cam = cam.open(Ok(granted)).unwrap();
    assert_eq!(cam.width(), 640);
    assert_eq!(cam.height(), 480);
}

#[test]
fn granted_values_win() {
    // The device grants 640x480 where 1920x1080 was asked for: the reader
    // reports what was granted.
    let cam = create_camera().with_device("/dev/video3");
    let asked = cam.request();
    assert_eq!((asked.width, asked.height, asked.num_buffers), (1920, 1080, 4));
    let granted = StreamFormat { width: 640, height: 480, num_buffers: 3, fourcc: yuyv() };
    let reader = cam.open(Ok(granted)).unwrap();
    assert_eq!(reader.width(), 640);
    assert_eq!(reader.height(), 480);
    assert_eq!(reader.format(), FourCC(*b"YUYV"));
    assert_eq!(reader.num_buffers(), 3);
    assert_eq!(reader.queued_buffer_count(), 3);
    assert!(!reader.is_streaming());
}

#[test]
fn open_failures() {
    let granted = StreamFormat { width: 640, height: 480, num_buffers: 3, fourcc: yuyv() };
    assert!(matches!(
        create_camera().with_device("").open(Ok(granted)),
        Err(VslError::InvalidArgument)
    ));
    assert!(matches!(create_camera().open(Err(2)), Err(VslError::Os(2))));
    let none = StreamFormat { num_buffers: 0, ..granted };
    assert!(matches!(create_camera().open(Ok(none)), Err(VslError::Os(EINVAL))));
}

#[test]
fn mirror_flags() {
    assert_eq!(Mirror::Off.flags(), (false, false));
    assert_eq!(Mirror::Horizontal.flags(), (true, false));
    assert_eq!(Mirror::Vertical.flags(), (false, true));
    assert_eq!(Mirror::Both.flags(), (true, true));
    assert_eq!(Mirror::default(), Mirror::Off);
    assert_eq!(Mirror::Both.name(), "both");
}

#[test]
fn refused_toggle_keeps_mode() {
    let granted = StreamFormat { width: 640, height: 480, num_buffers: 2, fourcc: yuyv() };
    let mut reader = create_camera().open(Ok(granted)).unwrap();
    assert_eq!(reader.set_mirror(Mirror::Both, MirrorOutcome::HorizontalRefused(22)), Err(VslError::Os(22)));
    assert_eq!(reader.mirror(), Mirror::Off);
    assert_eq!(reader.set_mirror(Mirror::Both, MirrorOutcome::VerticalRefused(5)), Err(VslError::Os(5)));
    assert_eq!(reader.mirror(), Mirror::Off);
    assert_eq!(reader.set_mirror(Mirror::Vertical, MirrorOutcome::Applied), Ok(()));
    assert_eq!(reader.mirror(), Mirror::Vertical);
}

#[test]
fn ring_lends_and_takes_back() {
    let granted = StreamFormat { width: 640, height: 480, num_buffers: 2, fourcc: yuyv() };
    let mut reader = create_camera().open(Ok(granted)).unwrap();
    let d0 = Dequeued { index: 0, dma_fd: -1, length: 614400, phys_addr: 0 };
    assert!(matches!(reader.read(Ok(d0)), Err(VslError::Os(EINVAL))));
    reader.start(Ok(())).unwrap();
    assert!(reader.is_streaming());
    let b0 = reader.read(Ok(d0)).unwrap();
    assert_eq!(b0.index(), 0);
    assert_eq!(b0.fd(), -1);
    assert_eq!(b0.length(), 614400);
    assert_eq!((b0.width(), b0.height()), (640, 480));
    assert_eq!(b0.format(), FourCC(*b"YUYV"));
    assert_eq!(reader.queued_buffer_count(), 1);
    // The driver cannot hand out a buffer it does not hold.
    assert!(matches!(reader.read(Ok(d0)), Err(VslError::Os(EINVAL))));
    let d1 = Dequeued { index: 1, dma_fd: -1, length: 614400, phys_addr: 0x1000 };
    let b1 = reader.read(Ok(d1)).unwrap();
    assert_eq!(b1.phys_addr(), 0x1000);
    assert_eq!(reader.queued_buffer_count(), 0);
    assert!(matches!(reader.read(Ok(d1)), Err(VslError::Timeout)));
    let rel = reader.release_buffer(b0).unwrap();
    assert_eq!(rel.index, 0);
    assert_eq!(rel.close_fd, None);
    assert_eq!(reader.queued_buffer_count(), 1);
    reader.release_buffer(b1).unwrap();
    assert_eq!(reader.queued_buffer_count(), 2);
    reader.stop(Ok(())).unwrap();
    assert!(!reader.is_streaming());
}

#[test]
fn stale_buffer_is_refused() {
    let granted = StreamFormat { width: 64, height: 48, num_buffers: 1, fourcc: yuyv() };
    let mut a = create_camera().open(Ok(granted)).unwrap();
    let mut b = create_camera().open(Ok(granted)).unwrap();
    a.start(Ok(())).unwrap();
    b.start(Ok(())).unwrap();
    let d = Dequeued { index: 0, dma_fd: -1, length: 10, phys_addr: 0 };
    let first = a.read(Ok(d)).unwrap();
    a.release_buffer(first).unwrap();
    let _second = a.read(Ok(d)).unwrap();
    // A handle of an earlier round of slot 0 no longer matches it.
    let old_round = b.read(Ok(d)).unwrap();
    assert!(matches!(a.release_buffer(old_round), Err(VslError::Os(EINVAL))));
    assert_eq!(a.queued_buffer_count(), 0);
    assert!(matches!(a.read(Err(11)), Err(VslError::Timeout)));
}

#[test]
fn dma_buffer_gets_its_own_descriptor() {
    let granted = StreamFormat { width: 64, height: 48, num_buffers: 1, fourcc: yuyv() };
    let mut reader = create_camera().open(Ok(granted)).unwrap();
    reader.start(Ok(())).unwrap();
    let d = Dequeued { index: 0, dma_fd: 2, length: 10, phys_addr: 0 };
    let b = reader.read(Ok(d)).unwrap();
    assert!(b.fd() >= 0);
    assert_ne!(b.fd(), 2);
    let rel = reader.release_buffer(b).unwrap();
    assert_eq!(rel.close_fd.map(|fd| fd >= 0), Some(true));
}

#[test]
fn formats_are_capped() {
    let codes: Vec<u32> = (0..25u32).map(|i| 0x30303030 + i).collect();
    let f = Camera::formats(&codes, 3).unwrap();
    assert_eq!(f, vec![FourCC(*b"0000"), FourCC(*b"1000"), FourCC(*b"2000")]);
    assert_eq!(Camera::formats(&codes, 25).unwrap().len(), MAX_FORMATS);
    assert_eq!(Camera::formats(&codes[..2], 5).unwrap().len(), 2);
    assert_eq!(Camera::formats(&codes, -1), Err(VslError::Os(EINVAL)));
}
