use fjarsyn::bitmap_utils::{
    bgra8_to_rgba8, bgra_to_rgba, copy_rows, ensure_image_rgba, ensure_rgba,
};
use fjarsyn::buffer_arena::BufferArena;
use fjarsyn::frame::{Frame, Rect, Vector2};
use fjarsyn::pixel_format::{
    BytesPerPixel, DirectXPixelFormat, PixelFormat, ToDirectXPixelFormat,
    DIRECTX_B8G8R8A8_UINT_NORMALIZED, DIRECTX_R16G16B16A16_FLOAT, DIRECTX_R8G8B8A8_UINT_NORMALIZED,
};

#[test]
fn bytes_per_pixel_of_each_format() {
    assert_eq!(PixelFormat::RGBA16.bytes_per_pixel(), 8);
    assert_eq!(PixelFormat::RGBA8.bytes_per_pixel(), 4);
    assert_eq!(PixelFormat::BGRA8.bytes_per_pixel(), 4);
}

#[test]
fn directx_code_of_each_format() {
    assert_eq!(PixelFormat::RGBA16.to_directx_pixel_format(), DirectXPixelFormat(10));
    assert_eq!(PixelFormat::RGBA8.to_directx_pixel_format(), DirectXPixelFormat(28));
    assert_eq!(PixelFormat::BGRA8.to_directx_pixel_format(), DirectXPixelFormat(87));
    assert_eq!(DIRECTX_R16G16B16A16_FLOAT, 10);
    assert_eq!(DIRECTX_R8G8B8A8_UINT_NORMALIZED, 28);
    assert_eq!(DIRECTX_B8G8R8A8_UINT_NORMALIZED, 87);
}

#[test]
fn swap_exchanges_blue_and_red_of_every_pixel() {
    let mut pixels = [1u8, 2, 3, 4, 5, 6, 7, 8];
    bgra8_to_rgba8(&mut pixels);
    assert_eq!(pixels, [3, 2, 1, 4, 7, 6, 5, 8]);
}

#[test]
fn swap_leaves_trailing_bytes_alone() {
    for extra in 1..4usize {
        let mut pixels = vec![1u8, 2, 3, 4];
        pixels.extend((0..extra).map(|i| 10 + i as u8));
        let tail: Vec<u8> = pixels[4..].to_vec();
        bgra8_to_rgba8(&mut pixels);
        assert_eq!(&pixels[..4], &[3, 2, 1, 4]);
        assert_eq!(&pixels[4..], &tail[..]);
    }
}

#[test]
fn swap_of_less_than_a_pixel_changes_nothing() {
    let mut empty: [u8; 0] = [];
    bgra8_to_rgba8(&mut empty);
    let mut short = [1u8, 2, 3];
    bgra8_to_rgba8(&mut short);
    assert_eq!(short, [1, 2, 3]);
    bgra_to_rgba(&mut short);
    assert_eq!(short, [1, 2, 3]);
}

#[test]
fn swap_twice_gives_the_buffer_back() {
    let untouched: Vec<u8> = (0..=40).collect();
    let mut pixels = untouched.clone();
    bgra8_to_rgba8(&mut pixels);
    assert_ne!(pixels, untouched);
    bgra8_to_rgba8(&mut pixels);
    assert_eq!(pixels, untouched);
}

#[test]
fn both_swaps_agree() {
    let untouched: Vec<u8> = (0..23).map(|i| i * 7).collect();
    let mut a = untouched.clone();
    let mut b = untouched;
    bgra8_to_rgba8(&mut a);
    bgra_to_rgba(&mut b);
    assert_eq!(a, b);
}

#[test]
fn ensure_rgba_converts_bgra_only() {
    let mut pixels = [1u8, 2, 3, 4];
    let mut format = PixelFormat::BGRA8;
    ensure_rgba(&mut pixels, &mut format);
    assert_eq!(pixels, [3, 2, 1, 4]);
    assert_eq!(format, PixelFormat::RGBA8);

    let mut pixels = [1u8, 2, 3, 4];
    let mut format = PixelFormat::RGBA8;
    ensure_rgba(&mut pixels, &mut format);
    assert_eq!(pixels, [1, 2, 3, 4]);
    assert_eq!(format, PixelFormat::RGBA8);

    let mut pixels = [1u8, 2, 3, 4, 5, 6, 7, 8];
    let mut format = PixelFormat::RGBA16;
    ensure_rgba(&mut pixels, &mut format);
    assert_eq!(pixels, [1, 2, 3, 4, 5, 6, 7, 8]);
    assert_eq!(format, PixelFormat::RGBA8);
}

#[test]
fn ensure_image_rgba_converts_bgra_only() {
    let mut pixels = [9u8, 8, 7, 6];
    let mut format = PixelFormat::BGRA8;
    ensure_image_rgba(&mut pixels, &mut format);
    assert_eq!(pixels, [7, 8, 9, 6]);
    assert_eq!(format, PixelFormat::RGBA8);

    let mut pixels = [9u8, 8, 7, 6];
    let mut format = PixelFormat::RGBA8;
    ensure_image_rgba(&mut pixels, &mut format);
    assert_eq!(pixels, [9, 8, 7, 6]);
    assert_eq!(format, PixelFormat::RGBA8);
}

#[test]
fn frame_from_bgra_data_is_rgba() {
    let mut arena = BufferArena::init(16);
    let mut lease = arena.get(8);
    lease.as_mut_slice().copy_from_slice(&[1, 2, 3, 4, 5, 6, 7, 8]);
    let frame = Frame::new_ensure_rgba(
        lease,
        PixelFormat::BGRA8,
        Vector2::new(2, 1),
        Some(1_666),
        Some(vec![Rect { x: 0, y: 0, width: 2, height: 1 }]),
    );
    assert_eq!(frame.data.as_slice(), &[3, 2, 1, 4, 7, 6, 5, 8][..]);
    assert_eq!(frame.format, PixelFormat::RGBA8);
    assert_eq!(frame.size, Vector2 { x: 2, y: 1 });
    assert_eq!(frame.duration, Some(1_666));
    assert_eq!(frame.dirty_rects, Some(vec![Rect { x: 0, y: 0, width: 2, height: 1 }]));
}

#[test]
fn raw_frame_keeps_data_and_format() {
    let mut arena = BufferArena::init(16);
    let mut lease = arena.get(4);
    lease.as_mut_slice().copy_from_slice(&[1, 2, 3, 4]);
    let frame = Frame::new_raw(lease, PixelFormat::BGRA8, Vector2::new(1, 1), None, None);
    assert_eq!(frame.data.as_slice(), &[1, 2, 3, 4][..]);
    assert_eq!(frame.format, PixelFormat::BGRA8);
    assert_eq!(frame.duration, None);
    assert_eq!(frame.dirty_rects, None);
}

#[test]
fn frame_data_can_be_released_or_frozen() {
    let mut arena = BufferArena::init(8);
    let lease = arena.get(4);
    let frame = Frame::new_raw(lease, PixelFormat::RGBA8, Vector2::new(1, 1), None, None);
    arena.release(frame.data);
    assert_eq!(arena.available(), 8);
    let mut lease = arena.get(4);
    lease.as_mut_slice().copy_from_slice(&[4, 3, 2, 1]);
    let frame = Frame::new_raw(lease, PixelFormat::RGBA8, Vector2::new(1, 1), None, None);
    let bytes = frame.data.freeze();
    assert_eq!(&bytes[..], &[4, 3, 2, 1][..]);
    assert_eq!(arena.available(), 4);
}

#[test]
fn vector_cast_converts_both_components() {
    let wide: Vector2<i64> = Vector2::new(-3i32, 7i32).cast();
    assert_eq!(wide, Vector2 { x: -3i64, y: 7i64 });
    let unsigned: Vector2<u32> = Vector2::new(2u8, 255u8).cast();
    assert_eq!(unsigned, Vector2 { x: 2u32, y: 255u32 });
}

#[test]
fn copy_rows_drops_the_padding_of_each_row() {
    let src = [1u8, 2, 3, 4, 0, 0, 5, 6, 7, 8, 0, 0];
    let mut dest = [9u8; 8];
    copy_rows(&mut dest, &src, 6, 4, 2);
    assert_eq!(dest, [1, 2, 3, 4, 5, 6, 7, 8]);
}

#[test]
fn copy_rows_needs_no_padding_behind_the_last_row() {
    let src = [1u8, 2, 0, 3, 4, 0, 5, 6];
    let mut dest = [9u8; 6];
    copy_rows(&mut dest, &src, 3, 2, 3);
    assert_eq!(dest, [1, 2, 3, 4, 5, 6]);
}

#[test]
fn copy_rows_leaves_the_rest_of_the_destination_alone() {
    let src = [1u8, 2, 3, 4];
    let mut dest = [9u8; 6];
    copy_rows(&mut dest, &src, 2, 2, 2);
    assert_eq!(dest, [1, 2, 3, 4, 9, 9]);
}

#[test]
fn copy_rows_of_nothing_changes_nothing() {
    let mut dest = [9u8; 3];
    copy_rows(&mut dest, &[], 4, 4, 0);
    assert_eq!(dest, [9, 9, 9]);
    copy_rows(&mut dest, &[1, 2, 3], 1, 0, 3);
    assert_eq!(dest, [9, 9, 9]);
}

#[test]
fn copy_rows_takes_rows_that_overlap() {
    let src = [1u8, 2, 3, 4, 5];
    let mut dest = [0u8; 6];
    copy_rows(&mut dest, &src, 1, 3, 2);
    assert_eq!(dest, [1, 2, 3, 2, 3, 4]);
}
