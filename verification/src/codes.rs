//! Enumerations of the native call surface and the decoders that map the
//! raw numeric codes carried by native event records onto them.
//!
//! The native layer reports every enumerated quantity as a plain integer
//! code. Each decoder here states exactly which codes map to which variant;
//! codes the binding does not know are mapped defensively, never miscast.

use vstd::prelude::*;

verus! {

/// Function result codes. All fallible operations classify their failure
/// with one of these.
#[derive(Clone, Copy, Debug, PartialEq, Eq, Structural)]
pub enum ResultCode {
    /// The operation succeeded.
    Success,
    /// An uncategorized failure.
    Error,
    /// A malformed argument, such as a bad application identifier or a
    /// null device handle.
    ErrorInvalidArgument,
    /// A hub-level failure, such as a connection that could not be
    /// established.
    Runtime,
}

/// Device-side gating of pose events while the device is locked.
#[derive(Clone, Copy, Debug, PartialEq, Eq, Structural)]
pub enum LockingPolicy {
    /// Pose events are always sent.
    Disabled,
    /// Pose events are not sent while the device is locked.
    Standard,
}

/// Kinds of vibration a device can be asked to perform.
#[derive(Clone, Copy, Debug, PartialEq, Eq, Structural)]
pub enum VibrationType {
    Short,
    Medium,
    Long,
}

/// EMG streaming modes.
#[derive(Clone, Copy, Debug, PartialEq, Eq, Structural)]
pub enum EMGStreamingMode {
    /// Do not send EMG data.
    Disabled,
    /// Send EMG data.
    Enabled,
}

/// Recognized poses.
#[allow(non_camel_case_types)]
#[derive(Clone, Copy, Debug, PartialEq, Eq, Structural)]
pub enum Pose {
    /// Rest pose.
    rest,
    /// The user is making a fist.
    fist,
    /// An open palm rotated towards the posterior of the wrist.
    wave_in,
    /// An open palm rotated towards the anterior of the wrist.
    wave_out,
    /// An open palm with the fingers spread away from each other.
    fingers_spread,
    /// Thumb and middle finger tapped together twice in succession.
    double_tap,
    /// A pose this binding does not know.
    unknown,
}

/// Ways a device can be unlocked.
#[derive(Clone, Copy, Debug, PartialEq, Eq, Structural)]
pub enum UnlockType {
    /// Unlock for a fixed period of time.
    Timed,
    /// Unlock until explicitly told to re-lock.
    Hold,
}

/// Kinds of user action a device can be notified of.
#[derive(Clone, Copy, Debug, PartialEq, Eq, Structural)]
pub enum UserActionType {
    /// A single, discrete action, such as pausing a video.
    Single,
}

/// Kinds of events delivered by the run loop.
#[derive(Clone, Copy, Debug, PartialEq, Eq, Structural)]
pub enum EventType {
    /// Successfully paired with a device.
    Paired,
    /// Successfully unpaired from a device.
    Unpaired,
    /// A device has successfully connected.
    Connected,
    /// A device has been disconnected.
    Disconnected,
    /// A device has recognized the sync gesture.
    ArmSynced,
    /// A device has been moved or removed from the arm.
    ArmUnsynced,
    /// Orientation data has been received.
    Orientation,
    /// A change in pose has been detected.
    Pose,
    /// An RSSI value has been received.
    RSSI,
    /// A device has become unlocked.
    Unlocked,
    /// A device has become locked.
    Locked,
    /// EMG data has been received.
    EMG,
    /// A battery level value has been received.
    BatteryLevel,
    /// The warmup period has completed.
    WarmupCompleted,
}

/// Components of a firmware version.
#[derive(Clone, Copy, Debug, PartialEq, Eq, Structural)]
pub enum VersionComponent {
    Major,
    Minor,
    Patch,
    HardwareRevision,
}

/// Hardware revisions.
#[derive(Clone, Copy, Debug, PartialEq, Eq, Structural)]
pub enum HardwareRevision {
    /// Alpha units.
    RevC,
    /// Consumer units.
    RevD,
}

/// The arm a device is worn on.
#[derive(Clone, Copy, Debug, PartialEq, Eq, Structural)]
pub enum Arm {
    /// The device is on the right arm.
    Right,
    /// The device is on the left arm.
    Left,
    /// The arm is unknown.
    Unknown,
}

/// Possible directions for the device's +x axis relative to the arm.
#[derive(Clone, Copy, Debug, PartialEq, Eq, Structural)]
pub enum XDirection {
    /// The +x axis points toward the wrist.
    TowardWrist,
    /// The +x axis points toward the elbow.
    TowardElbow,
    /// The direction is unknown.
    Unknown,
}

/// Possible warmup states for a device.
#[derive(Clone, Copy, Debug, PartialEq, Eq, Structural)]
pub enum WarmupState {
    /// The warmup state is unknown.
    Unknown,
    /// The device needs to warm up.
    Cold,
    /// The device is already warmed up.
    Warm,
}

/// Possible warmup results for a device.
#[derive(Clone, Copy, Debug, PartialEq, Eq, Structural)]
pub enum WarmupResult {
    /// The warmup result is unknown.
    Unknown,
    /// The warmup period completed successfully.
    Success,
    /// The warmup period timed out.
    Timeout,
}

/// Index into orientation data, which is provided as a unit quaternion
/// `w + x*i + y*j + z*k`.
#[derive(Clone, Copy, Debug, PartialEq, Eq, Structural)]
pub enum OrientationIndex {
    /// First component of the quaternion's vector part.
    X,
    /// Second component of the quaternion's vector part.
    Y,
    /// Third component of the quaternion's vector part.
    Z,
    /// Scalar component of the quaternion.
    W,
}

/// Index into a three-axis sensor sample.
#[derive(Clone, Copy, Debug, PartialEq, Eq, Structural)]
pub enum CoordinateIndex {
    X,
    Y,
    Z,
}

/// What an event handler tells the run loop to do next.
#[derive(Clone, Copy, Debug, PartialEq, Eq, Structural)]
pub enum HandlerResult {
    /// Continue processing events.
    Continue,
    /// Stop processing events.
    Stop,
}

/// The event kind a raw code denotes, if the binding knows it.
///
/// The native layer may gain event kinds this binding does not know about;
/// such codes decode to `None` and are handled explicitly, never miscast.
pub open spec fn kind_of_code(code: u32) -> Option<EventType> {
    if code == 0 {
        Some(EventType::Paired)
    } else if code == 1 {
        Some(EventType::Unpaired)
    } else if code == 2 {
        Some(EventType::Connected)
    } else if code == 3 {
        Some(EventType::Disconnected)
    } else if code == 4 {
        Some(EventType::ArmSynced)
    } else if code == 5 {
        Some(EventType::ArmUnsynced)
    } else if code == 6 {
        Some(EventType::Orientation)
    } else if code == 7 {
        Some(EventType::Pose)
    } else if code == 8 {
        Some(EventType::RSSI)
    } else if code == 9 {
        Some(EventType::Unlocked)
    } else if code == 10 {
        Some(EventType::Locked)
    } else if code == 11 {
        Some(EventType::EMG)
    } else if code == 12 {
        Some(EventType::BatteryLevel)
    } else if code == 13 {
        Some(EventType::WarmupCompleted)
    } else {
        None
    }
}

/// The raw code that denotes an event kind; the inverse of `kind_of_code`.
pub open spec fn code_of_kind(kind: EventType) -> u32 {
    match kind {
        EventType::Paired => 0,
        EventType::Unpaired => 1,
        EventType::Connected => 2,
        EventType::Disconnected => 3,
        EventType::ArmSynced => 4,
        EventType::ArmUnsynced => 5,
        EventType::Orientation => 6,
        EventType::Pose => 7,
        EventType::RSSI => 8,
        EventType::Unlocked => 9,
        EventType::Locked => 10,
        EventType::EMG => 11,
        EventType::BatteryLevel => 12,
        EventType::WarmupCompleted => 13,
    }
}

/// Decode an event-kind code; unknown codes yield `None`.
pub fn decode_event_type(code: u32) -> (r: Option<EventType>)
    ensures
        r == kind_of_code(code),
{
    if code == 0 {
        Some(EventType::Paired)
    } else if code == 1 {
        Some(EventType::Unpaired)
    } else if code == 2 {
        Some(EventType::Connected)
    } else if code == 3 {
        Some(EventType::Disconnected)
    } else if code == 4 {
        Some(EventType::ArmSynced)
    } else if code == 5 {
        Some(EventType::ArmUnsynced)
    } else if code == 6 {
        Some(EventType::Orientation)
    } else if code == 7 {
        Some(EventType::Pose)
    } else if code == 8 {
        Some(EventType::RSSI)
    } else if code == 9 {
        Some(EventType::Unlocked)
    } else if code == 10 {
        Some(EventType::Locked)
    } else if code == 11 {
        Some(EventType::EMG)
    } else if code == 12 {
        Some(EventType::BatteryLevel)
    } else if code == 13 {
        Some(EventType::WarmupCompleted)
    } else {
        None
    }
}

/// Encode an event kind as its raw code.
pub fn encode_event_type(kind: EventType) -> (r: u32)
    ensures
        r == code_of_kind(kind),
{
    match kind {
        EventType::Paired => 0,
        EventType::Unpaired => 1,
        EventType::Connected => 2,
        EventType::Disconnected => 3,
        EventType::ArmSynced => 4,
        EventType::ArmUnsynced => 5,
        EventType::Orientation => 6,
        EventType::Pose => 7,
        EventType::RSSI => 8,
        EventType::Unlocked => 9,
        EventType::Locked => 10,
        EventType::EMG => 11,
        EventType::BatteryLevel => 12,
        EventType::WarmupCompleted => 13,
    }
}

/// Decoding inverts encoding: every event kind survives a round trip
/// through its raw code.
pub proof fn lemma_event_type_code_round_trip(kind: EventType)
    ensures
        kind_of_code(code_of_kind(kind)) == Some(kind),
{
}

/// The pose a raw code denotes. Codes outside the known range decode to
/// `Pose::unknown`, matching the native layer's own convention of a
/// distinguished out-of-band value for unknown poses.
pub open spec fn pose_of_code(code: u32) -> Pose {
    if code == 0 {
        Pose::rest
    } else if code == 1 {
        Pose::fist
    } else if code == 2 {
        Pose::wave_in
    } else if code == 3 {
        Pose::wave_out
    } else if code == 4 {
        Pose::fingers_spread
    } else if code == 5 {
        Pose::double_tap
    } else {
        Pose::unknown
    }
}

/// Decode a pose code.
pub fn decode_pose(code: u32) -> (r: Pose)
    ensures
        r == pose_of_code(code),
{
    if code == 0 {
        Pose::rest
    } else if code == 1 {
        Pose::fist
    } else if code == 2 {
        Pose::wave_in
    } else if code == 3 {
        Pose::wave_out
    } else if code == 4 {
        Pose::fingers_spread
    } else if code == 5 {
        Pose::double_tap
    } else {
        Pose::unknown
    }
}

/// The arm a raw code denotes; unknown codes decode to `Arm::Unknown`.
pub open spec fn arm_of_code(code: u32) -> Arm {
    if code == 0 {
        Arm::Right
    } else if code == 1 {
        Arm::Left
    } else {
        Arm::Unknown
    }
}

/// Decode an arm code.
pub fn decode_arm(code: u32) -> (r: Arm)
    ensures
        r == arm_of_code(code),
{
    if code == 0 {
        Arm::Right
    } else if code == 1 {
        Arm::Left
    } else {
        Arm::Unknown
    }
}

/// The +x-axis direction a raw code denotes; unknown codes decode to
/// `XDirection::Unknown`.
pub open spec fn x_direction_of_code(code: u32) -> XDirection {
    if code == 0 {
        XDirection::TowardWrist
    } else if code == 1 {
        XDirection::TowardElbow
    } else {
        XDirection::Unknown
    }
}

/// Decode an +x-axis direction code.
pub fn decode_x_direction(code: u32) -> (r: XDirection)
    ensures
        r == x_direction_of_code(code),
{
    if code == 0 {
        XDirection::TowardWrist
    } else if code == 1 {
        XDirection::TowardElbow
    } else {
        XDirection::Unknown
    }
}

/// The warmup state a raw code denotes; unknown codes decode to
/// `WarmupState::Unknown`.
pub open spec fn warmup_state_of_code(code: u32) -> WarmupState {
    if code == 1 {
        WarmupState::Cold
    } else if code == 2 {
        WarmupState::Warm
    } else {
        WarmupState::Unknown
    }
}

/// Decode a warmup-state code.
pub fn decode_warmup_state(code: u32) -> (r: WarmupState)
    ensures
        r == warmup_state_of_code(code),
{
    if code == 1 {
        WarmupState::Cold
    } else if code == 2 {
        WarmupState::Warm
    } else {
        WarmupState::Unknown
    }
}

/// The warmup result a raw code denotes; unknown codes decode to
/// `WarmupResult::Unknown`.
pub open spec fn warmup_result_of_code(code: u32) -> WarmupResult {
    if code == 1 {
        WarmupResult::Success
    } else if code == 2 {
        WarmupResult::Timeout
    } else {
        WarmupResult::Unknown
    }
}

/// Decode a warmup-result code.
pub fn decode_warmup_result(code: u32) -> (r: WarmupResult)
    ensures
        r == warmup_result_of_code(code),
{
    if code == 1 {
        WarmupResult::Success
    } else if code == 2 {
        WarmupResult::Timeout
    } else {
        WarmupResult::Unknown
    }
}

/// The hardware revision a raw code denotes, if the binding knows it.
pub open spec fn hardware_revision_of_code(code: u32) -> Option<HardwareRevision> {
    if code == 1 {
        Some(HardwareRevision::RevC)
    } else if code == 2 {
        Some(HardwareRevision::RevD)
    } else {
        None
    }
}

/// Decode a hardware-revision code; unknown codes yield `None`.
pub fn decode_hardware_revision(code: u32) -> (r: Option<HardwareRevision>)
    ensures
        r == hardware_revision_of_code(code),
{
    if code == 1 {
        Some(HardwareRevision::RevC)
    } else if code == 2 {
        Some(HardwareRevision::RevD)
    } else {
        None
    }
}

} // verus!
