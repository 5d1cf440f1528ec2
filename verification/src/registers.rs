//! The configuration register map: addresses, field layouts, and the
//! enumerations carried by single-byte fields.
//!
//! Every configuration register is a uniform single-byte accessor with
//! no decode logic; the driver reads and writes them through a small
//! generic codec rather than one hand-written bit manipulation per
//! register.

use vstd::prelude::*;

verus! {

/// Device mode register.
pub const REG_DEVICE_MODE: u8 = 0x00;

/// Gesture id register.
pub const REG_GESTURE_ID: u8 = 0x01;

/// Touch-detection status register: the claimed count sits in the low
/// nibble. The 13-byte touch block read by a scan starts here.
pub const REG_TD_STATUS: u8 = 0x02;

/// First byte (XEvent-high) of point record 0; record 1 follows 6
/// bytes later.
pub const REG_P1_XH: u8 = 0x03;

/// Touch threshold register.
pub const REG_THRESHOLD: u8 = 0x80;

/// Filter coefficient register.
pub const REG_FILTER_COEFFICIENT: u8 = 0x85;

/// Active/monitor switching control register.
pub const REG_CTRL: u8 = 0x86;

/// Idle time before entering monitor mode.
pub const REG_TIME_ENTER_MONITOR: u8 = 0x87;

/// Report rate in active mode.
pub const REG_ACTIVE_MODE_RATE: u8 = 0x88;

/// Report rate in monitor mode.
pub const REG_MONITOR_MODE_RATE: u8 = 0x89;

/// Frequency hopping enable register.
pub const REG_FREQ_HOPPING_EN: u8 = 0x8B;

/// Minimum allowed rotation angle of a gesture.
pub const REG_RADIAN_VALUE: u8 = 0x91;

/// Maximum allowed left/right offset of a gesture.
pub const REG_OFFSET_LEFT_RIGHT: u8 = 0x92;

/// Maximum allowed up/down offset of a gesture.
pub const REG_OFFSET_UP_DOWN: u8 = 0x93;

/// Minimum left/right distance of a gesture.
pub const REG_DISTANCE_LEFT_RIGHT: u8 = 0x94;

/// Minimum up/down distance of a gesture.
pub const REG_DISTANCE_UP_DOWN: u8 = 0x95;

/// Minimum zoom distance of a gesture.
pub const REG_DISTANCE_ZOOM: u8 = 0x96;

/// Middle byte of the chip vendor id.
pub const REG_CIPHER_MID: u8 = 0x9F;

/// Low byte of the chip vendor id.
pub const REG_CIPHER_LOW: u8 = 0xA0;

/// High byte of the library version; the low byte follows.
pub const REG_LIBRARY_VERSION_H: u8 = 0xA1;

/// Chip id register.
pub const REG_CHIP_ID: u8 = 0xA3;

/// Gesture enable register.
pub const REG_G_MODE: u8 = 0xA4;

/// Power mode register.
pub const REG_POWER_MODE: u8 = 0xA5;

/// Firmware version register.
pub const REG_FIRMWARE_ID: u8 = 0xA6;

/// Vendor id register.
pub const REG_FOCALTECH_ID: u8 = 0xA8;

/// Release code register.
pub const REG_RELEASE_CODE_ID: u8 = 0xAF;

/// Face detection mode register.
pub const REG_FACE_DEC_MODE: u8 = 0xB0;

/// Running state register.
pub const REG_STATE: u8 = 0xBC;

/// Operating mode of the controller, held in bits 6:4 of the device
/// mode register.
#[derive(Debug, Clone, Copy, PartialEq, Eq, Structural)]
pub enum DeviceMode {
    /// Normal operation.
    Working,
    /// Factory test mode.
    Factory,
}

/// The field value a device mode is written as.
pub open spec fn spec_device_mode_bits(mode: DeviceMode) -> u8 {
    match mode {
        DeviceMode::Working => 0,
        DeviceMode::Factory => 4,
    }
}

/// The device mode a field value reads as: `0b100` is factory test
/// mode, anything else normal operation.
pub open spec fn spec_device_mode_from_bits(bits: u8) -> DeviceMode {
    if bits == 4 {
        DeviceMode::Factory
    } else {
        DeviceMode::Working
    }
}

/// Encode a device mode for the register field.
pub fn device_mode_bits(mode: DeviceMode) -> (r: u8)
    ensures
        r == spec_device_mode_bits(mode),
{
    match mode {
        DeviceMode::Working => 0,
        DeviceMode::Factory => 4,
    }
}

/// Decode the device mode register field.
pub fn device_mode_from_bits(bits: u8) -> (r: DeviceMode)
    ensures
        r == spec_device_mode_from_bits(bits),
{
    if bits == 4 {
        DeviceMode::Factory
    } else {
        DeviceMode::Working
    }
}

/// The gesture the controller classified, as reported by the gesture id
/// register.
#[derive(Debug, Clone, Copy, PartialEq, Eq, Structural)]
pub enum GestureId {
    /// No gesture detected; also reported for codes the driver does not
    /// know.
    NoGesture,
    /// Swipe up.
    MoveUp,
    /// Swipe right.
    MoveRight,
    /// Swipe down.
    MoveDown,
    /// Swipe left.
    MoveLeft,
    /// Two-finger zoom in.
    ZoomIn,
    /// Two-finger zoom out.
    ZoomOut,
}

/// The gesture a register byte reads as.
pub open spec fn spec_gesture_from_bits(bits: u8) -> GestureId {
    if bits == 0x10 {
        GestureId::MoveUp
    } else if bits == 0x14 {
        GestureId::MoveRight
    } else if bits == 0x18 {
        GestureId::MoveDown
    } else if bits == 0x1C {
        GestureId::MoveLeft
    } else if bits == 0x48 {
        GestureId::ZoomIn
    } else if bits == 0x49 {
        GestureId::ZoomOut
    } else {
        GestureId::NoGesture
    }
}

/// Decode the gesture id register.
pub fn gesture_from_bits(bits: u8) -> (r: GestureId)
    ensures
        r == spec_gesture_from_bits(bits),
{
    if bits == 0x10 {
        GestureId::MoveUp
    } else if bits == 0x14 {
        GestureId::MoveRight
    } else if bits == 0x18 {
        GestureId::MoveDown
    } else if bits == 0x1C {
        GestureId::MoveLeft
    } else if bits == 0x48 {
        GestureId::ZoomIn
    } else if bits == 0x49 {
        GestureId::ZoomOut
    } else {
        GestureId::NoGesture
    }
}

/// Per-record event code: the top two bits of the XEvent-high byte.
#[derive(Debug, Clone, Copy, PartialEq, Eq, Structural)]
pub enum TouchEvent {
    /// A finger came down this frame.
    PressDown,
    /// A finger lifted this frame.
    LiftUp,
    /// A finger is resting on the panel.
    Contact,
    /// No event for this record.
    NoEvent,
}

/// The event a two-bit code reads as.
pub open spec fn spec_touch_event_from_bits(bits: u8) -> TouchEvent {
    if bits == 0 {
        TouchEvent::PressDown
    } else if bits == 1 {
        TouchEvent::LiftUp
    } else if bits == 2 {
        TouchEvent::Contact
    } else {
        TouchEvent::NoEvent
    }
}

/// Decode a two-bit event code.
pub fn touch_event_from_bits(bits: u8) -> (r: TouchEvent)
    ensures
        r == spec_touch_event_from_bits(bits),
{
    if bits == 0 {
        TouchEvent::PressDown
    } else if bits == 1 {
        TouchEvent::LiftUp
    } else if bits == 2 {
        TouchEvent::Contact
    } else {
        TouchEvent::NoEvent
    }
}

/// Whether the controller may drop to monitor mode on its own, held in
/// the control register.
#[derive(Debug, Clone, Copy, PartialEq, Eq, Structural)]
pub enum CtrlMode {
    /// Stay in active mode.
    KeepActive,
    /// Switch to monitor mode when idle.
    SwitchToMonitor,
}

/// The byte a control mode is written as.
pub open spec fn spec_ctrl_mode_bits(mode: CtrlMode) -> u8 {
    match mode {
        CtrlMode::KeepActive => 0,
        CtrlMode::SwitchToMonitor => 1,
    }
}

/// The control mode a register byte reads as: zero keeps active mode,
/// anything else allows the switch.
pub open spec fn spec_ctrl_mode_from_bits(bits: u8) -> CtrlMode {
    if bits == 0 {
        CtrlMode::KeepActive
    } else {
        CtrlMode::SwitchToMonitor
    }
}

/// Encode a control mode for the register.
pub fn ctrl_mode_bits(mode: CtrlMode) -> (r: u8)
    ensures
        r == spec_ctrl_mode_bits(mode),
{
    match mode {
        CtrlMode::KeepActive => 0,
        CtrlMode::SwitchToMonitor => 1,
    }
}

/// Decode the control register.
pub fn ctrl_mode_from_bits(bits: u8) -> (r: CtrlMode)
    ensures
        r == spec_ctrl_mode_from_bits(bits),
{
    if bits == 0 {
        CtrlMode::KeepActive
    } else {
        CtrlMode::SwitchToMonitor
    }
}

/// Whether gesture recognition is enabled, held in the gesture mode
/// register.
#[derive(Debug, Clone, Copy, PartialEq, Eq, Structural)]
pub enum GestureMode {
    /// Gesture recognition off.
    Disabled,
    /// Gesture recognition on.
    Enabled,
}

/// The byte a gesture mode is written as.
pub open spec fn spec_gesture_mode_bits(mode: GestureMode) -> u8 {
    match mode {
        GestureMode::Disabled => 0,
        GestureMode::Enabled => 1,
    }
}

/// The gesture mode a register byte reads as.
pub open spec fn spec_gesture_mode_from_bits(bits: u8) -> GestureMode {
    if bits == 0 {
        GestureMode::Disabled
    } else {
        GestureMode::Enabled
    }
}

/// Encode a gesture mode for the register.
pub fn gesture_mode_bits(mode: GestureMode) -> (r: u8)
    ensures
        r == spec_gesture_mode_bits(mode),
{
    match mode {
        GestureMode::Disabled => 0,
        GestureMode::Enabled => 1,
    }
}

/// Decode the gesture mode register.
pub fn gesture_mode_from_bits(bits: u8) -> (r: GestureMode)
    ensures
        r == spec_gesture_mode_from_bits(bits),
{
    if bits == 0 {
        GestureMode::Disabled
    } else {
        GestureMode::Enabled
    }
}

/// The controller's power state, held in the power mode register.
#[derive(Debug, Clone, Copy, PartialEq, Eq, Structural)]
pub enum PowerModeEnum {
    /// Full scanning rate.
    Active,
    /// Reduced scanning rate.
    Monitor,
    /// Deep sleep; a reset is needed to leave it.
    Hibernate,
}

/// The byte a power mode is written as.
pub open spec fn spec_power_mode_bits(mode: PowerModeEnum) -> u8 {
    match mode {
        PowerModeEnum::Active => 0,
        PowerModeEnum::Monitor => 1,
        PowerModeEnum::Hibernate => 3,
    }
}

/// The power mode a register byte reads as; unknown codes read as
/// active.
pub open spec fn spec_power_mode_from_bits(bits: u8) -> PowerModeEnum {
    if bits == 1 {
        PowerModeEnum::Monitor
    } else if bits == 3 {
        PowerModeEnum::Hibernate
    } else {
        PowerModeEnum::Active
    }
}

/// Encode a power mode for the register.
pub fn power_mode_bits(mode: PowerModeEnum) -> (r: u8)
    ensures
        r == spec_power_mode_bits(mode),
{
    match mode {
        PowerModeEnum::Active => 0,
        PowerModeEnum::Monitor => 1,
        PowerModeEnum::Hibernate => 3,
    }
}

/// Decode the power mode register.
pub fn power_mode_from_bits(bits: u8) -> (r: PowerModeEnum)
    ensures
        r == spec_power_mode_from_bits(bits),
{
    if bits == 1 {
        PowerModeEnum::Monitor
    } else if bits == 3 {
        PowerModeEnum::Hibernate
    } else {
        PowerModeEnum::Active
    }
}

} // verus!
