use layerbar::error::Error;
use layerbar::error::Violation;
use layerbar::mem::Buffer;
use layerbar::mem::Mem;
use layerbar::mem::Shared;
use layerbar::mem::Shm;
use layerbar::mem::Size;
use layerbar::wire::Action;
use layerbar::wire::PixelFormat;
use layerbar::wire::BYTES_PER_PIXEL;

#[test]
fn size_new_keeps_its_arguments() {
    let s = Size::new(3, 5, 4);
    assert_eq!(s, Size { width: 3, height: 5, pixel_size: 4 });
    assert_eq!(Size::of_pixels(3, 5), s);
    assert_eq!(BYTES_PER_PIXEL, 4);
}

#[test]
fn byte_len_is_width_by_height_by_pixel_size() {
    assert_eq!(Size::new(1920, 1080, 4).byte_len(), Some(8_294_400));
    assert_eq!(Size::new(3, 5, 2).byte_len(), Some(30));
    assert_eq!(Size::new(0, 5, 4).byte_len(), Some(0));
    assert_eq!(Size::new(usize::MAX, 0, 4).byte_len(), Some(0));
    assert_eq!(Size::new(usize::MAX, 2, 0).byte_len(), Some(0));
    assert_eq!(Size::new(usize::MAX, 1, 1).byte_len(), Some(usize::MAX));
    assert_eq!(Size::new(usize::MAX, 2, 1).byte_len(), None);
    assert_eq!(Size::new(usize::MAX, 1, 2).byte_len(), None);
}

#[test]
fn wire_len_is_the_byte_len_where_it_fits() {
    assert_eq!(Size::new(1920, 1080, 4).wire_len(), Some(8_294_400));
    assert_eq!(Size::new(0, 1080, 4).wire_len(), None);
    assert_eq!(Size::new(i32::MAX as usize, 1, 1).wire_len(), Some(i32::MAX));
    assert_eq!(Size::new(i32::MAX as usize + 1, 1, 1).wire_len(), None);
    assert_eq!(Size::new(30000, 30000, 4).wire_len(), None);
}

#[test]
fn a_segment_cannot_be_empty() {
    assert_eq!(Shm::new(0), Err(Error::IoError));
    assert_eq!(Shm::new(1), Ok(Shm { len: 1 }));
    assert_eq!(Shm::new(4096).unwrap().allocate(), Action::Allocate { len: 4096 });
}

#[test]
fn a_segment_is_resized_by_truncating_and_mapping_again() {
    let mut shm = Shm::new(4096).unwrap();
    assert_eq!(
        shm.resize(8192),
        Ok(vec![Action::Truncate { len: 8192 }, Action::Remap { len: 8192 }])
    );
    assert_eq!(shm.len, 8192);
    assert_eq!(shm.resize(0), Err(Error::IoError));
    assert_eq!(shm.len, 8192);
}

#[test]
fn a_segment_holds_a_quarter_as_many_pixels_as_bytes() {
    assert_eq!(Shm { len: 8_294_400 }.pixels(), 2_073_600);
    assert_eq!(Shm { len: 7 }.pixels(), 1);
}

#[test]
fn shared_is_as_long_as_its_pixels_need() {
    let shared = Shared::open(Size::new(1920, 1080, 4)).unwrap();
    assert_eq!(shared.len(), 8_294_400);
    assert_eq!(*shared.size(), Size::new(1920, 1080, 4));
    assert_eq!(shared.pixel_view(), (2_073_600, 1920));
    assert_eq!(Shared::open(Size::new(0, 1080, 4)), Err(Error::IoError));
    assert_eq!(Shared::open(Size::new(usize::MAX, 2, 4)), Err(Error::IoError));
}

#[test]
fn a_pool_begins_without_a_buffer() {
    let pool = Mem::new(Size::new(640, 480, 4)).unwrap();
    assert_eq!(pool.buffer, None);
    assert_eq!(pool.shared.len(), 640 * 480 * 4);
    assert_eq!(pool.share_allocation(), &pool.shared);
    assert_eq!(
        pool.creation_plan(),
        vec![Action::Allocate { len: 1_228_800 }, Action::CreatePool { size: 1_228_800 }]
    );
}

#[test]
fn a_pool_wants_four_byte_pixels_and_a_length_that_fits() {
    assert_eq!(
        Mem::new(Size::new(640, 480, 3)),
        Err(Error::ProtocolViolation(Violation::BufferGeometry))
    );
    assert_eq!(Mem::new(Size::new(0, 480, 4)), Err(Error::IoError));
    assert_eq!(Mem::new(Size::new(640, 0, 4)), Err(Error::IoError));
    assert_eq!(Mem::new(Size::new(30000, 30000, 4)), Err(Error::IoError));
    assert_eq!(Mem::new(Size::new(usize::MAX, usize::MAX, 4)), Err(Error::IoError));
}

fn buffer(width: i32, height: i32, format: PixelFormat) -> Buffer {
    Buffer { offset: 0, width, height, stride: width * 4, format }
}

#[test]
fn the_first_buffer_is_created_and_nothing_destroyed() {
    let mut pool = Mem::new(Size::new(640, 480, 4)).unwrap();
    let plan = pool.make_buffer(640, 480, 2560, PixelFormat::Argb8888).unwrap();
    assert_eq!(
        plan,
        vec![Action::CreateBuffer {
            offset: 0,
            width: 640,
            height: 480,
            stride: 2560,
            format: PixelFormat::Argb8888,
        }]
    );
    assert_eq!(pool.buffer, Some(buffer(640, 480, PixelFormat::Argb8888)));
}

#[test]
fn a_second_buffer_is_created_after_the_first_is_destroyed() {
    let mut pool = Mem::new(Size::new(640, 480, 4)).unwrap();
    pool.make_buffer(640, 480, 2560, PixelFormat::Argb8888).unwrap();
    let plan = pool.make_buffer(640, 480, 2560, PixelFormat::Rgba8888).unwrap();
    assert_eq!(
        plan,
        vec![Action::DestroyBuffer, buffer(640, 480, PixelFormat::Rgba8888).create()]
    );
    assert_eq!(pool.buffer, Some(buffer(640, 480, PixelFormat::Rgba8888)));
}

#[test]
fn a_stride_other_than_four_times_the_width_is_refused() {
    let mut pool = Mem::new(Size::new(640, 480, 4)).unwrap();
    let before = pool;
    for (w, h, s) in [
        (640, 480, 2561),
        (640, 480, 640),
        (640, 480, 0),
        (640, 479, 2560),
        (639, 480, 2556),
        (-640, 480, -2560),
        (640, -480, 2560),
    ] {
        assert_eq!(
            pool.make_buffer(w, h, s, PixelFormat::Argb8888),
            Err(Error::ProtocolViolation(Violation::BufferGeometry))
        );
        assert_eq!(pool, before);
    }
}

#[test]
fn resize_destroys_then_remaps_then_creates() {
    let mut pool = Mem::new(Size::new(640, 480, 4)).unwrap();
    pool.make_buffer(640, 480, 2560, PixelFormat::Rgba8888).unwrap();
    let plan = pool.resize(800, 16).unwrap();
    assert_eq!(
        plan,
        vec![
            Action::DestroyBuffer,
            Action::Truncate { len: 51_200 },
            Action::Remap { len: 51_200 },
            Action::ResizePool { size: 51_200 },
            Action::CreateBuffer {
                offset: 0,
                width: 800,
                height: 16,
                stride: 3200,
                format: PixelFormat::Rgba8888,
            },
        ]
    );
    assert_eq!(pool.shared.len(), 800 * 16 * 4);
    assert_eq!(pool.shared.size, Size::new(800, 16, 4));
    assert_eq!(pool.buffer, Some(buffer(800, 16, PixelFormat::Rgba8888)));
}

#[test]
fn in_a_resize_no_buffer_is_created_before_the_old_one_is_destroyed() {
    let mut pool = Mem::new(Size::new(64, 64, 4)).unwrap();
    pool.make_buffer(64, 64, 256, PixelFormat::Argb8888).unwrap();
    let mut live = true;
    for (w, h) in [(64, 8), (128, 128), (1, 1), (1920, 1080)] {
        for a in pool.resize(w, h).unwrap() {
            match a {
                Action::CreateBuffer { .. } => {
                    assert!(!live);
                    live = true;
                }
                Action::DestroyBuffer => {
                    assert!(live);
                    live = false;
                }
                Action::Truncate { .. } | Action::Remap { .. } => assert!(!live),
                _ => {}
            }
        }
        assert!(live);
    }
}

#[test]
fn resize_needs_a_buffer_and_a_length_that_fits() {
    let mut pool = Mem::new(Size::new(640, 480, 4)).unwrap();
    let before = pool;
    assert_eq!(pool.resize(800, 16), Err(Error::ProtocolViolation(Violation::OutOfOrder)));
    assert_eq!(pool, before);

    pool.make_buffer(640, 480, 2560, PixelFormat::Argb8888).unwrap();
    let before = pool;
    assert_eq!(pool.resize(0, 16), Err(Error::IoError));
    assert_eq!(pool.resize(800, 0), Err(Error::IoError));
    assert_eq!(pool.resize(30000, 30000), Err(Error::IoError));
    assert_eq!(pool.resize(usize::MAX, usize::MAX), Err(Error::IoError));
    assert_eq!(pool, before);
}
