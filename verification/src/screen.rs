//! Where the bodies land on the screen: the camera and the map from metres to
//! pixels.
//!
//! Screen coordinates are IEEE-754 binary32 numbers, carried by their bit
//! patterns like the doubles of the simulation. Their arithmetic is done in
//! software by `rustc_apfloat` and is known to the verifier by name.

use vstd::prelude::*;
use rustc_apfloat::ieee::{Double, Single as SoftSingle};
use rustc_apfloat::{Float, FloatConvert};
use crate::scalar::Scalar;

verus! {

/// The encoding of `20.0`: the pixels that the camera moves in a frame while
/// a camera control is held.
pub const CAMERA_PAN_SPEED_BITS: u32 = 0x41A0_0000;

/// The encoding of `3.0`: the origin of the simulation lies a third of the
/// display into the screen.
pub const ORIGIN_DIVISOR_BITS: u32 = 0x4040_0000;

/// The sum of two single-precision numbers, rounded to nearest with ties to
/// even.
pub uninterp spec fn binary32_sum(a: u32, b: u32) -> u32;

/// The difference of two single-precision numbers, rounded to nearest with
/// ties to even.
pub uninterp spec fn binary32_difference(a: u32, b: u32) -> u32;

/// The quotient of two single-precision numbers, rounded to nearest with ties
/// to even.
pub uninterp spec fn binary32_quotient(a: u32, b: u32) -> u32;

/// The single-precision number nearest to a double, ties to even.
pub uninterp spec fn binary32_from_binary64(a: u64) -> u32;

/// Calls `+` of `rustc_apfloat::ieee::Single`, which is `Float::add_r` with
/// `Round::NearestTiesToEven`.
///
/// Believed, not proved: the call returns for every pair of encodings and its
/// result depends on them alone.
#[verifier::external_body]
fn single_add(a: u32, b: u32) -> (r: u32)
    ensures
        r == binary32_sum(a, b),
{
    (SoftSingle::from_bits(a as u128) + SoftSingle::from_bits(b as u128)).value.to_bits() as u32
}

/// Calls `-` of `rustc_apfloat::ieee::Single`, which is `Float::sub_r` with
/// `Round::NearestTiesToEven`.
///
/// Believed, not proved: the call returns for every pair of encodings and its
/// result depends on them alone.
#[verifier::external_body]
fn single_sub(a: u32, b: u32) -> (r: u32)
    ensures
        r == binary32_difference(a, b),
{
    (SoftSingle::from_bits(a as u128) - SoftSingle::from_bits(b as u128)).value.to_bits() as u32
}

/// Calls `/` of `rustc_apfloat::ieee::Single`, which is `Float::div_r` with
/// `Round::NearestTiesToEven`.
///
/// Believed, not proved: the call returns for every pair of encodings and its
/// result depends on them alone.
#[verifier::external_body]
fn single_div(a: u32, b: u32) -> (r: u32)
    ensures
        r == binary32_quotient(a, b),
{
    (SoftSingle::from_bits(a as u128) / SoftSingle::from_bits(b as u128)).value.to_bits() as u32
}

/// Calls `FloatConvert::convert` of `rustc_apfloat`, from `ieee::Double` to
/// `ieee::Single`, which rounds to nearest with ties to even.
///
/// Believed, not proved: the call returns for every encoding and its result
/// depends on it alone.
#[verifier::external_body]
fn single_from_double(a: u64) -> (r: u32)
    ensures
        r == binary32_from_binary64(a),
{
    let mut loses_info = false;
    let narrowed: SoftSingle = Double::from_bits(a as u128).convert(&mut loses_info).value;
    narrowed.to_bits() as u32
}

/// A single-precision number, held as its encoding.
#[derive(Clone, Copy, Debug)]
pub struct Single {
    pub bits: u32,
}

impl Single {
    /// `self + rhs`.
    pub open spec fn spec_add(self, rhs: Single) -> Single {
        Single { bits: binary32_sum(self.bits, rhs.bits) }
    }

    /// `self - rhs`.
    pub open spec fn spec_sub(self, rhs: Single) -> Single {
        Single { bits: binary32_difference(self.bits, rhs.bits) }
    }

    /// `self / rhs`.
    pub open spec fn spec_div(self, rhs: Single) -> Single {
        Single { bits: binary32_quotient(self.bits, rhs.bits) }
    }

    /// The single-precision number nearest to `value`.
    pub open spec fn spec_from_scalar(value: Scalar) -> Single {
        Single { bits: binary32_from_binary64(value.bits) }
    }

    /// The number with the given encoding.
    pub fn from_bits(bits: u32) -> (r: Single)
        ensures
            r.bits == bits,
    {
        Single { bits }
    }

    /// The encoding of the number.
    pub fn to_bits(self) -> (r: u32)
        ensures
            r == self.bits,
    {
        self.bits
    }

    /// `self + rhs`.
    #[verifier::when_used_as_spec(spec_add)]
    pub fn add(self, rhs: Single) -> (r: Single)
        ensures
            r == self.spec_add(rhs),
    {
        Single { bits: single_add(self.bits, rhs.bits) }
    }

    /// `self - rhs`.
    #[verifier::when_used_as_spec(spec_sub)]
    pub fn sub(self, rhs: Single) -> (r: Single)
        ensures
            r == self.spec_sub(rhs),
    {
        Single { bits: single_sub(self.bits, rhs.bits) }
    }

    /// `self / rhs`.
    #[verifier::when_used_as_spec(spec_div)]
    pub fn div(self, rhs: Single) -> (r: Single)
        ensures
            r == self.spec_div(rhs),
    {
        Single { bits: single_div(self.bits, rhs.bits) }
    }

    /// The single-precision number nearest to `value`.
    #[verifier::when_used_as_spec(spec_from_scalar)]
    pub fn from_scalar(value: Scalar) -> (r: Single)
        ensures
            r == Single::spec_from_scalar(value),
    {
        Single { bits: single_from_double(value.bits) }
    }
}

/// The pixels that the camera moves in a frame.
pub open spec fn spec_camera_pan_speed() -> Single {
    Single { bits: CAMERA_PAN_SPEED_BITS }
}

/// The screen centre after the four camera controls, each taken in turn: up
/// adds to the second coordinate and down takes from it, left adds to the
/// first coordinate and right takes from it.
pub open spec fn spec_handle_camera(
    screen_center: [Single; 2],
    up: bool,
    down: bool,
    left: bool,
    right: bool,
) -> [Single; 2] {
    let speed = spec_camera_pan_speed();
    let after_up = if up {
        [screen_center[0], screen_center[1].add(speed)]
    } else {
        screen_center
    };
    let after_down = if down {
        [after_up[0], after_up[1].sub(speed)]
    } else {
        after_up
    };
    let after_left = if left {
        [after_down[0].add(speed), after_down[1]]
    } else {
        after_down
    };
    if right {
        [after_left[0].sub(speed), after_left[1]]
    } else {
        after_left
    }
}

/// Moves the screen centre as the held camera controls ask.
pub fn handle_camera(screen_center: [Single; 2], up: bool, down: bool, left: bool, right: bool) -> (moved:
    [Single; 2])
    ensures
        moved == spec_handle_camera(screen_center, up, down, left, right),
{
    let speed = Single::from_bits(CAMERA_PAN_SPEED_BITS);
    let mut new_screen_center = screen_center;
    if up {
        new_screen_center = [new_screen_center[0], new_screen_center[1].add(speed)];
    }
    if down {
        new_screen_center = [new_screen_center[0], new_screen_center[1].sub(speed)];
    }
    if left {
        new_screen_center = [new_screen_center[0].add(speed), new_screen_center[1]];
    }
    if right {
        new_screen_center = [new_screen_center[0].sub(speed), new_screen_center[1]];
    }
    new_screen_center
}

/// One screen coordinate of a body: its simulation coordinate in units of
/// `space_factor`, narrowed to single precision, plus a third of the display
/// size, plus the screen centre.
pub open spec fn spec_screen_coordinate(
    body_coordinate: Scalar,
    screen_center: Single,
    space_factor: Scalar,
    display_size: Single,
) -> Single {
    Single::from_scalar(body_coordinate.div(space_factor)).add(
        display_size.div(Single { bits: ORIGIN_DIVISOR_BITS }),
    ).add(screen_center)
}

/// Where on the screen a point of the simulation is drawn, at `space_factor`
/// metres to the pixel.
pub fn simulation_to_screen_coordinates(
    body_coords: [Scalar; 2],
    screen_center: [Single; 2],
    space_factor: Scalar,
    display_size: [Single; 2],
) -> (screen: [Single; 2])
    ensures
        screen[0] == spec_screen_coordinate(
            body_coords[0],
            screen_center[0],
            space_factor,
            display_size[0],
        ),
        screen[1] == spec_screen_coordinate(
            body_coords[1],
            screen_center[1],
            space_factor,
            display_size[1],
        ),
{
    let third = Single::from_bits(ORIGIN_DIVISOR_BITS);
    [
        Single::from_scalar(body_coords[0].div(space_factor)).add(display_size[0].div(third)).add(
            screen_center[0],
        ),
        Single::from_scalar(body_coords[1].div(space_factor)).add(display_size[1].div(third)).add(
            screen_center[1],
        ),
    ]
}

} // verus!
