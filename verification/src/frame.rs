//! A captured or decoded frame and the small geometric types it carries.

use vstd::prelude::*;
use vstd::std_specs::convert::FromSpec;
use crate::bitmap_utils::{ensure_rgba, rgba_ordered};
use crate::buffer_arena::BufferRef;
use crate::pixel_format::PixelFormat;

verus! {

/// A pair of coordinates or extents.
#[derive(Debug, PartialEq, Eq, Structural)]
pub struct Vector2<N> {
    pub x: N,
    pub y: N,
}

impl<N> Vector2<N> {
    pub fn new(x: N, y: N) -> (v: Vector2<N>)
        ensures
            v.x == x,
            v.y == y,
    {
        Vector2 { x, y }
    }

    /// The vector with both components converted to `T`, as far as the
    /// conversion from `N` to `T` is specified.
    pub fn cast<T: From<N>>(self) -> (v: Vector2<T>)
        ensures
            <T as FromSpec<N>>::obeys_from_spec() ==> v.x == <T as FromSpec<N>>::from_spec(self.x)
                && v.y == <T as FromSpec<N>>::from_spec(self.y),
    {
        Vector2 { x: T::from(self.x), y: T::from(self.y) }
    }
}

/// An axis-parallel rectangle: its corner and its extents.
#[derive(Debug, PartialEq, Eq, Structural)]
pub struct Rect<N> {
    pub x: N,
    pub y: N,
    pub width: N,
    pub height: N,
}

/// One frame: leased pixel data with its layout, its dimensions, how long
/// it was on screen in nanoseconds, and the regions that changed.
pub struct Frame {
    pub data: BufferRef,
    pub format: PixelFormat,
    pub size: Vector2<i32>,
    pub duration: Option<u64>,
    pub dirty_rects: Option<Vec<Rect<i32>>>,
}

impl Frame {
    /// A frame of `data` brought to RGBA channel order.
    pub fn new_ensure_rgba(
        data: BufferRef,
        format: PixelFormat,
        size: Vector2<i32>,
        duration: Option<u64>,
        dirty_rects: Option<Vec<Rect<i32>>>,
    ) -> (frame: Frame)
        ensures
            frame.data@ == rgba_ordered(data@, format),
            frame.format == PixelFormat::RGBA8,
            frame.size == size,
            frame.duration == duration,
            frame.dirty_rects == dirty_rects,
    {
        let mut data = data;
        let mut format = format;
        ensure_rgba(data.as_mut_slice(), &mut format);
        Frame::new_raw(data, format, size, duration, dirty_rects)
    }

    /// A frame of `data` as it is.
    pub fn new_raw(
        data: BufferRef,
        format: PixelFormat,
        size: Vector2<i32>,
        duration: Option<u64>,
        dirty_rects: Option<Vec<Rect<i32>>>,
    ) -> (frame: Frame)
        ensures
            frame.data == data,
            frame.format == format,
            frame.size == size,
            frame.duration == duration,
            frame.dirty_rects == dirty_rects,
    {
        Frame { data, format, size, duration, dirty_rects }
    }
}

} // verus!
