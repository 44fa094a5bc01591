//! What a pointing device reports.

use vstd::prelude::*;

verus! {

pub const PT_TOUCH: i32 = 2;

pub const PT_PEN: i32 = 3;

pub const PT_MOUSE: i32 = 4;

pub const PT_TOUCHPAD: i32 = 5;

pub const PEN_MASK_PRESSURE: u32 = 1;

pub const PEN_MASK_TILT_X: u32 = 4;

pub const PEN_MASK_TILT_Y: u32 = 8;

#[derive(Clone, Copy, Debug, PartialEq, Eq, Structural)]
pub enum PointerDevice {
    Mouse,
    Touch,
    Pen,
    Touchpad,
    Unknown,
}

/// What a pen reports; none where the device does not report it.
#[derive(Clone, Copy, Debug, PartialEq, Eq, Structural)]
pub struct RawPenData {
    pub pressure: Option<u32>,
    pub tilt_x: Option<i32>,
    pub tilt_y: Option<i32>,
}

pub open spec fn device_of(pointer_type: i32) -> PointerDevice {
    if pointer_type == PT_MOUSE {
        PointerDevice::Mouse
    } else if pointer_type == PT_TOUCH {
        PointerDevice::Touch
    } else if pointer_type == PT_PEN {
        PointerDevice::Pen
    } else if pointer_type == PT_TOUCHPAD {
        PointerDevice::Touchpad
    } else {
        PointerDevice::Unknown
    }
}

/// The device of the system's pointer type.
pub fn pointer_device(pointer_type: i32) -> (device: PointerDevice)
    ensures
        device == device_of(pointer_type),
{
    match pointer_type {
        PT_MOUSE => PointerDevice::Mouse,
        PT_TOUCH => PointerDevice::Touch,
        PT_PEN => PointerDevice::Pen,
        PT_TOUCHPAD => PointerDevice::Touchpad,
        _ => PointerDevice::Unknown,
    }
}

/// The device behind a pointer, where the system could tell its type, and whether its pen data is
/// worth asking for.
pub fn sampled_device(pointer_type: Option<i32>) -> (device: (PointerDevice, bool))
    ensures
        device.0 == match pointer_type {
            Some(pointer_type) => device_of(pointer_type),
            None => PointerDevice::Unknown,
        },
        device.1 == (device.0 == PointerDevice::Pen),
{
    let device = match pointer_type {
        Some(pointer_type) => pointer_device(pointer_type),
        None => PointerDevice::Unknown,
    };
    (device, device == PointerDevice::Pen)
}

pub open spec fn reported<T>(mask: u32, bit: u32, value: T) -> Option<T> {
    if mask & bit != 0 {
        Some(value)
    } else {
        None
    }
}

/// What a pen reports: only the mask says which of its numbers mean anything.
pub fn raw_pen_data(mask: u32, pressure: u32, tilt_x: i32, tilt_y: i32) -> (data: RawPenData)
    ensures
        data.pressure == reported(mask, PEN_MASK_PRESSURE, pressure),
        data.tilt_x == reported(mask, PEN_MASK_TILT_X, tilt_x),
        data.tilt_y == reported(mask, PEN_MASK_TILT_Y, tilt_y),
{
    RawPenData {
        pressure: if mask & PEN_MASK_PRESSURE != 0 {
            Some(pressure)
        } else {
            None
        },
        tilt_x: if mask & PEN_MASK_TILT_X != 0 {
            Some(tilt_x)
        } else {
            None
        },
        tilt_y: if mask & PEN_MASK_TILT_Y != 0 {
            Some(tilt_y)
        } else {
            None
        },
    }
}

/// Each device is known by its own type, and every other type is unknown.
pub proof fn law_each_device_has_its_own_type(pointer_type: i32)
    ensures
        device_of(pointer_type) == PointerDevice::Touch <==> pointer_type == 2,
        device_of(pointer_type) == PointerDevice::Pen <==> pointer_type == 3,
        device_of(pointer_type) == PointerDevice::Mouse <==> pointer_type == 4,
        device_of(pointer_type) == PointerDevice::Touchpad <==> pointer_type == 5,
{
}

/// A number counts exactly where its bit of the mask is set, and as it is.
pub proof fn law_only_reported_numbers_count(mask: u32, bit: u32, value: u32)
    ensures
        mask & bit == 0 <==> reported(mask, bit, value) is None,
        reported(mask, bit, value) matches Some(number) ==> number == value,
{
}

} // verus!
