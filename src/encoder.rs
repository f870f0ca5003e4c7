use vstd::prelude::*;

verus! {

/// A rectangle of a frame, used as the source region of an encode.
#[derive(Debug, Clone, Copy, PartialEq, Eq, Structural)]
pub struct VSLRect {
    pub x: i32,
    pub y: i32,
    pub width: i32,
    pub height: i32,
}

impl VSLRect {
    /// The rectangle of `width` by `height` pixels whose top-left corner is
    /// at (`x`, `y`).
    pub fn new(x: i32, y: i32, width: i32, height: i32) -> (r: VSLRect)
        ensures
            r == (VSLRect { x, y, width, height }),
    {
        VSLRect { x, y, width, height }
    }

    pub fn get_width(&self) -> (r: i32)
        ensures
            r == self.width,
    {
        self.width
    }

    pub fn get_height(&self) -> (r: i32)
        ensures
            r == self.height,
    {
        self.height
    }

    pub fn get_x(&self) -> (r: i32)
        ensures
            r == self.x,
    {
        self.x
    }

    pub fn get_y(&self) -> (r: i32)
        ensures
            r == self.y,
    {
        self.y
    }
}

/// The bit-rate profiles of an encoder.
#[derive(Debug, Clone, Copy, PartialEq, Eq, Structural)]
pub enum VSLEncoderProfileEnum {
    Auto,
    Kbps5000,
    Kbps25000,
    Kbps50000,
    Kbps100000,
}

impl VSLEncoderProfileEnum {
    /// The native code of the profile.
    pub fn code(&self) -> (r: u32)
        ensures
            r == match *self {
                VSLEncoderProfileEnum::Auto => 0u32,
                VSLEncoderProfileEnum::Kbps5000 => 1u32,
                VSLEncoderProfileEnum::Kbps25000 => 2u32,
                VSLEncoderProfileEnum::Kbps50000 => 3u32,
                VSLEncoderProfileEnum::Kbps100000 => 4u32,
            },
    {
        match self {
            VSLEncoderProfileEnum::Auto => 0,
            VSLEncoderProfileEnum::Kbps5000 => 1,
            VSLEncoderProfileEnum::Kbps25000 => 2,
            VSLEncoderProfileEnum::Kbps50000 => 3,
            VSLEncoderProfileEnum::Kbps100000 => 4,
        }
    }
}

/// An encoder profile by its native code.
#[derive(Debug, Clone, Copy, PartialEq, Eq, Structural)]
pub struct VSLEncoderProfile {
    pub profile: u32,
}

/// A hardware encoder: its profile, the format it produces and its frame
/// rate.
#[derive(Debug, Clone, Copy, PartialEq, Eq, Structural)]
pub struct Encoder {
    pub profile: u32,
    pub output_fourcc: u32,
    pub fps: i32,
}

impl Encoder {
    /// An encoder with this profile code, output format and frame rate.
    pub fn create(profile: u32, output_fourcc: u32, fps: i32) -> (r: Encoder)
        ensures
            r == (Encoder { profile, output_fourcc, fps }),
    {
        Encoder { profile, output_fourcc, fps }
    }
}

} // verus!
