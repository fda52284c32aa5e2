//! Event records and the typed, read-only views onto them.
//!
//! The native layer delivers each event as an untyped record; [`EventRecord`]
//! carries its raw fields as plain values. The dispatch bridge wraps a
//! record in exactly one view type, chosen by the record's kind code, and a
//! view exposes only the accessors applicable to its kind — reading a field
//! that another kind owns is ruled out by construction. A view borrows its
//! record, so it cannot outlive the dispatch callback it was built for.
//!
//! The orientation event additionally carries floating-point sensor data
//! (quaternion, accelerometer, gyroscope, arm rotation) in the native
//! layer; that payload stays outside this model, which keeps only the
//! accessors common to every kind on [`OrientationEvent`].

use vstd::prelude::*;

use crate::codes::Arm;
use crate::codes::EventType;
use crate::codes::HardwareRevision;
use crate::codes::Pose;
use crate::codes::VersionComponent;
use crate::codes::WarmupResult;
use crate::codes::WarmupState;
use crate::codes::XDirection;
use crate::codes::arm_of_code;
use crate::codes::decode_arm;
use crate::codes::decode_event_type;
use crate::codes::decode_hardware_revision;
use crate::codes::decode_pose;
use crate::codes::decode_warmup_result;
use crate::codes::decode_warmup_state;
use crate::codes::decode_x_direction;
use crate::codes::hardware_revision_of_code;
use crate::codes::kind_of_code;
use crate::codes::pose_of_code;
use crate::codes::warmup_result_of_code;
use crate::codes::warmup_state_of_code;
use crate::codes::x_direction_of_code;
use crate::device::Armband;
use crate::error::MyoString;
use crate::mac::MACAddress;

verus! {

/// One event as the native layer reports it: a kind code, the fields common
/// to every kind, and the raw per-kind payload fields. Which payload fields
/// are meaningful depends on the kind; the view types built by the dispatch
/// bridge expose only the applicable ones.
#[derive(Debug, PartialEq, Eq)]
pub struct EventRecord {
    /// The raw event-kind code; see `kind_of_code`.
    pub kind_code: u32,
    /// The event's timestamp, monotonic with a native-defined epoch.
    pub timestamp: u64,
    /// The handle of the device the event concerns.
    pub myo: u64,
    /// The MAC address of the device the event concerns.
    pub mac: u64,
    /// The name of the device; possibly empty.
    pub name: String,
    /// Major firmware version; paired and connected events.
    pub firmware_major: u32,
    /// Minor firmware version; paired and connected events.
    pub firmware_minor: u32,
    /// Firmware patch level; paired and connected events.
    pub firmware_patch: u32,
    /// Raw hardware-revision code; paired and connected events.
    pub hardware_revision_code: u32,
    /// Raw arm-side code; arm-synced events.
    pub arm_code: u32,
    /// Raw +x-axis-direction code; arm-synced events.
    pub x_direction_code: u32,
    /// Raw warmup-state code; arm-synced events.
    pub warmup_state_code: u32,
    /// Raw warmup-result code; warmup-completed events.
    pub warmup_result_code: u32,
    /// Raw pose code; pose events.
    pub pose_code: u32,
    /// Signal strength; RSSI events.
    pub rssi: i8,
    /// Battery percentage; battery-level events.
    pub battery_level: u8,
    /// The eight EMG channel samples, in channel order; EMG events.
    pub emg: [i8; 8],
}

impl EventRecord {
    /// A record of the given kind with every payload field zeroed and an
    /// empty device name.
    pub fn with_kind(kind_code: u32) -> (r: EventRecord)
        ensures
            r.kind_code == kind_code,
            r.timestamp == 0,
            r.myo == 0,
            r.mac == 0,
            r.name@ == Seq::<char>::empty(),
            r.firmware_major == 0,
            r.firmware_minor == 0,
            r.firmware_patch == 0,
            r.hardware_revision_code == 0,
            r.arm_code == 0,
            r.x_direction_code == 0,
            r.warmup_state_code == 0,
            r.warmup_result_code == 0,
            r.pose_code == 0,
            r.rssi == 0,
            r.battery_level == 0,
            r.emg@ =~= seq![0i8, 0i8, 0i8, 0i8, 0i8, 0i8, 0i8, 0i8],
    {
        let name = String::new();
        assert(name@ =~= Seq::<char>::empty());
        EventRecord {
            kind_code,
            timestamp: 0,
            myo: 0,
            mac: 0,
            name,
            firmware_major: 0,
            firmware_minor: 0,
            firmware_patch: 0,
            hardware_revision_code: 0,
            arm_code: 0,
            x_direction_code: 0,
            warmup_state_code: 0,
            warmup_result_code: 0,
            pose_code: 0,
            rssi: 0,
            battery_level: 0,
            emg: [0i8, 0i8, 0i8, 0i8, 0i8, 0i8, 0i8, 0i8],
        }
    }
}

/// The firmware-version component of a record that a version-component
/// selector picks out.
pub open spec fn firmware_component_of(rec: EventRecord, component: VersionComponent) -> u32 {
    match component {
        VersionComponent::Major => rec.firmware_major,
        VersionComponent::Minor => rec.firmware_minor,
        VersionComponent::Patch => rec.firmware_patch,
        VersionComponent::HardwareRevision => rec.hardware_revision_code,
    }
}

/// The accessors common to every event view: kind, timestamp, device
/// reference, MAC address and device name, all read from the underlying
/// record.
pub trait Event {
    /// The underlying record, for specification.
    spec fn record(&self) -> EventRecord;

    /// Borrow the underlying record.
    fn rec(&self) -> (r: &EventRecord)
        ensures
            *r == self.record(),
    ;

    /// The event's kind, decoded from its raw code; `None` for a kind this
    /// binding does not know.
    fn event_type(&self) -> (r: Option<EventType>)
        ensures
            r == kind_of_code(self.record().kind_code),
    {
        decode_event_type(self.rec().kind_code)
    }

    /// The event's timestamp.
    fn timestamp(&self) -> (r: u64)
        ensures
            r == self.record().timestamp,
    {
        self.rec().timestamp
    }

    /// The device the event concerns.
    fn device(&self) -> (r: Armband)
        ensures
            r.spec_id() == self.record().myo,
    {
        Armband::from_id(self.rec().myo)
    }

    /// The MAC address of the device the event concerns.
    fn mac_address(&self) -> (r: MACAddress)
        ensures
            r.spec_value() == self.record().mac,
    {
        MACAddress::new(self.rec().mac)
    }

    /// The name of the device the event concerns, as an owned string;
    /// possibly empty.
    fn device_name(&self) -> (r: MyoString)
        ensures
            r.spec_text() == self.record().name@,
    {
        MyoString::from_string(self.rec().name.clone())
    }
}

/// Successfully paired with a device.
pub struct PairedEvent<'a> {
    rec: &'a EventRecord,
}

/// Successfully unpaired from a device.
pub struct UnpairedEvent<'a> {
    rec: &'a EventRecord,
}

/// A device has successfully connected.
pub struct ConnectedEvent<'a> {
    rec: &'a EventRecord,
}

/// A device has been disconnected.
pub struct DisconnectedEvent<'a> {
    rec: &'a EventRecord,
}

/// A device has recognized the sync gesture.
pub struct ArmSyncedEvent<'a> {
    rec: &'a EventRecord,
}

/// A device has been moved or removed from the arm.
pub struct ArmUnsyncedEvent<'a> {
    rec: &'a EventRecord,
}

/// Orientation data has been received. The floating-point sensor payload
/// lives only in the native layer; this view carries the common accessors.
pub struct OrientationEvent<'a> {
    rec: &'a EventRecord,
}

/// A change in pose has been detected.
pub struct PoseEvent<'a> {
    rec: &'a EventRecord,
}

/// An RSSI value has been received.
pub struct RSSIEvent<'a> {
    rec: &'a EventRecord,
}

/// A device has become unlocked.
pub struct UnlockedEvent<'a> {
    rec: &'a EventRecord,
}

/// A device has become locked.
pub struct LockedEvent<'a> {
    rec: &'a EventRecord,
}

/// EMG data has been received.
pub struct EMGEvent<'a> {
    rec: &'a EventRecord,
}

/// A battery level value has been received.
pub struct BatteryLevelEvent<'a> {
    rec: &'a EventRecord,
}

/// The warmup period has completed.
pub struct WarmupCompletedEvent<'a> {
    rec: &'a EventRecord,
}

impl<'a> Event for PairedEvent<'a> {
    closed spec fn record(&self) -> EventRecord {
        *self.rec
    }

    fn rec(&self) -> (r: &EventRecord) {
        self.rec
    }
}

impl<'a> Event for UnpairedEvent<'a> {
    closed spec fn record(&self) -> EventRecord {
        *self.rec
    }

    fn rec(&self) -> (r: &EventRecord) {
        self.rec
    }
}

impl<'a> Event for ConnectedEvent<'a> {
    closed spec fn record(&self) -> EventRecord {
        *self.rec
    }

    fn rec(&self) -> (r: &EventRecord) {
        self.rec
    }
}

impl<'a> Event for DisconnectedEvent<'a> {
    closed spec fn record(&self) -> EventRecord {
        *self.rec
    }

    fn rec(&self) -> (r: &EventRecord) {
        self.rec
    }
}

impl<'a> Event for ArmSyncedEvent<'a> {
    closed spec fn record(&self) -> EventRecord {
        *self.rec
    }

    fn rec(&self) -> (r: &EventRecord) {
        self.rec
    }
}

impl<'a> Event for ArmUnsyncedEvent<'a> {
    closed spec fn record(&self) -> EventRecord {
        *self.rec
    }

    fn rec(&self) -> (r: &EventRecord) {
        self.rec
    }
}

impl<'a> Event for OrientationEvent<'a> {
    closed spec fn record(&self) -> EventRecord {
        *self.rec
    }

    fn rec(&self) -> (r: &EventRecord) {
        self.rec
    }
}

impl<'a> Event for PoseEvent<'a> {
    closed spec fn record(&self) -> EventRecord {
        *self.rec
    }

    fn rec(&self) -> (r: &EventRecord) {
        self.rec
    }
}

impl<'a> Event for RSSIEvent<'a> {
    closed spec fn record(&self) -> EventRecord {
        *self.rec
    }

    fn rec(&self) -> (r: &EventRecord) {
        self.rec
    }
}

impl<'a> Event for UnlockedEvent<'a> {
    closed spec fn record(&self) -> EventRecord {
        *self.rec
    }

    fn rec(&self) -> (r: &EventRecord) {
        self.rec
    }
}

impl<'a> Event for LockedEvent<'a> {
    closed spec fn record(&self) -> EventRecord {
        *self.rec
    }

    fn rec(&self) -> (r: &EventRecord) {
        self.rec
    }
}

impl<'a> Event for EMGEvent<'a> {
    closed spec fn record(&self) -> EventRecord {
        *self.rec
    }

    fn rec(&self) -> (r: &EventRecord) {
        self.rec
    }
}

impl<'a> Event for BatteryLevelEvent<'a> {
    closed spec fn record(&self) -> EventRecord {
        *self.rec
    }

    fn rec(&self) -> (r: &EventRecord) {
        self.rec
    }
}

impl<'a> Event for WarmupCompletedEvent<'a> {
    closed spec fn record(&self) -> EventRecord {
        *self.rec
    }

    fn rec(&self) -> (r: &EventRecord) {
        self.rec
    }
}

impl<'a> PairedEvent<'a> {
    /// Wrap a record whose kind code denotes a paired event.
    pub fn new(rec: &'a EventRecord) -> (r: Self)
        requires
            kind_of_code(rec.kind_code) == Some(EventType::Paired),
        ensures
            r.record() == *rec,
    {
        PairedEvent { rec }
    }

    /// One component of the device's firmware version.
    pub fn firmware_version(&self, component: VersionComponent) -> (r: u32)
        ensures
            r == firmware_component_of(self.record(), component),
    {
        match component {
            VersionComponent::Major => self.rec.firmware_major,
            VersionComponent::Minor => self.rec.firmware_minor,
            VersionComponent::Patch => self.rec.firmware_patch,
            VersionComponent::HardwareRevision => self.rec.hardware_revision_code,
        }
    }

    /// The firmware version triple and the hardware revision; the revision
    /// is `None` when its raw code is one this binding does not know.
    pub fn firmware_versions(&self) -> (r: (u32, u32, u32, Option<HardwareRevision>))
        ensures
            r.0 == self.record().firmware_major,
            r.1 == self.record().firmware_minor,
            r.2 == self.record().firmware_patch,
            r.3 == hardware_revision_of_code(self.record().hardware_revision_code),
    {
        (
            self.rec.firmware_major,
            self.rec.firmware_minor,
            self.rec.firmware_patch,
            decode_hardware_revision(self.rec.hardware_revision_code),
        )
    }
}

impl<'a> UnpairedEvent<'a> {
    /// Wrap a record whose kind code denotes an unpaired event.
    pub fn new(rec: &'a EventRecord) -> (r: Self)
        requires
            kind_of_code(rec.kind_code) == Some(EventType::Unpaired),
        ensures
            r.record() == *rec,
    {
        UnpairedEvent { rec }
    }
}

impl<'a> ConnectedEvent<'a> {
    /// Wrap a record whose kind code denotes a connected event.
    pub fn new(rec: &'a EventRecord) -> (r: Self)
        requires
            kind_of_code(rec.kind_code) == Some(EventType::Connected),
        ensures
            r.record() == *rec,
    {
        ConnectedEvent { rec }
    }

    /// One component of the device's firmware version.
    pub fn firmware_version(&self, component: VersionComponent) -> (r: u32)
        ensures
            r == firmware_component_of(self.record(), component),
    {
        match component {
            VersionComponent::Major => self.rec.firmware_major,
            VersionComponent::Minor => self.rec.firmware_minor,
            VersionComponent::Patch => self.rec.firmware_patch,
            VersionComponent::HardwareRevision => self.rec.hardware_revision_code,
        }
    }

    /// The firmware version triple and the hardware revision; the revision
    /// is `None` when its raw code is one this binding does not know.
    pub fn firmware_versions(&self) -> (r: (u32, u32, u32, Option<HardwareRevision>))
        ensures
            r.0 == self.record().firmware_major,
            r.1 == self.record().firmware_minor,
            r.2 == self.record().firmware_patch,
            r.3 == hardware_revision_of_code(self.record().hardware_revision_code),
    {
        (
            self.rec.firmware_major,
            self.rec.firmware_minor,
            self.rec.firmware_patch,
            decode_hardware_revision(self.rec.hardware_revision_code),
        )
    }
}

impl<'a> DisconnectedEvent<'a> {
    /// Wrap a record whose kind code denotes a disconnected event.
    pub fn new(rec: &'a EventRecord) -> (r: Self)
        requires
            kind_of_code(rec.kind_code) == Some(EventType::Disconnected),
        ensures
            r.record() == *rec,
    {
        DisconnectedEvent { rec }
    }
}

impl<'a> ArmSyncedEvent<'a> {
    /// Wrap a record whose kind code denotes an arm-synced event.
    pub fn new(rec: &'a EventRecord) -> (r: Self)
        requires
            kind_of_code(rec.kind_code) == Some(EventType::ArmSynced),
        ensures
            r.record() == *rec,
    {
        ArmSyncedEvent { rec }
    }

    /// The arm the device is worn on.
    pub fn arm(&self) -> (r: Arm)
        ensures
            r == arm_of_code(self.record().arm_code),
    {
        decode_arm(self.rec.arm_code)
    }

    /// Which way the device's +x axis points relative to the arm.
    pub fn xdirection(&self) -> (r: XDirection)
        ensures
            r == x_direction_of_code(self.record().x_direction_code),
    {
        decode_x_direction(self.rec.x_direction_code)
    }

    /// The device's warmup state at sync time.
    pub fn warmup_state(&self) -> (r: WarmupState)
        ensures
            r == warmup_state_of_code(self.record().warmup_state_code),
    {
        decode_warmup_state(self.rec.warmup_state_code)
    }
}

impl<'a> ArmUnsyncedEvent<'a> {
    /// Wrap a record whose kind code denotes an arm-unsynced event.
    pub fn new(rec: &'a EventRecord) -> (r: Self)
        requires
            kind_of_code(rec.kind_code) == Some(EventType::ArmUnsynced),
        ensures
            r.record() == *rec,
    {
        ArmUnsyncedEvent { rec }
    }
}

impl<'a> OrientationEvent<'a> {
    /// Wrap a record whose kind code denotes an orientation event.
    pub fn new(rec: &'a EventRecord) -> (r: Self)
        requires
            kind_of_code(rec.kind_code) == Some(EventType::Orientation),
        ensures
            r.record() == *rec,
    {
        OrientationEvent { rec }
    }
}

impl<'a> PoseEvent<'a> {
    /// Wrap a record whose kind code denotes a pose event.
    pub fn new(rec: &'a EventRecord) -> (r: Self)
        requires
            kind_of_code(rec.kind_code) == Some(EventType::Pose),
        ensures
            r.record() == *rec,
    {
        PoseEvent { rec }
    }

    /// The pose that was detected.
    pub fn pose(&self) -> (r: Pose)
        ensures
            r == pose_of_code(self.record().pose_code),
    {
        decode_pose(self.rec.pose_code)
    }
}

impl<'a> RSSIEvent<'a> {
    /// Wrap a record whose kind code denotes an RSSI event.
    pub fn new(rec: &'a EventRecord) -> (r: Self)
        requires
            kind_of_code(rec.kind_code) == Some(EventType::RSSI),
        ensures
            r.record() == *rec,
    {
        RSSIEvent { rec }
    }

    /// The device's signal strength.
    pub fn rssi(&self) -> (r: i8)
        ensures
            r == self.record().rssi,
    {
        self.rec.rssi
    }
}

impl<'a> UnlockedEvent<'a> {
    /// Wrap a record whose kind code denotes an unlocked event.
    pub fn new(rec: &'a EventRecord) -> (r: Self)
        requires
            kind_of_code(rec.kind_code) == Some(EventType::Unlocked),
        ensures
            r.record() == *rec,
    {
        UnlockedEvent { rec }
    }
}

impl<'a> LockedEvent<'a> {
    /// Wrap a record whose kind code denotes a locked event.
    pub fn new(rec: &'a EventRecord) -> (r: Self)
        requires
            kind_of_code(rec.kind_code) == Some(EventType::Locked),
        ensures
            r.record() == *rec,
    {
        LockedEvent { rec }
    }
}

impl<'a> EMGEvent<'a> {
    /// Wrap a record whose kind code denotes an EMG event.
    pub fn new(rec: &'a EventRecord) -> (r: Self)
        requires
            kind_of_code(rec.kind_code) == Some(EventType::EMG),
        ensures
            r.record() == *rec,
    {
        EMGEvent { rec }
    }

    /// One EMG channel sample.
    pub fn emg(&self, sensor: u8) -> (r: i8)
        requires
            sensor < 8,
        ensures
            r == self.record().emg[sensor as int],
    {
        self.rec.emg[sensor as usize]
    }

    /// All eight EMG channel samples, in channel order.
    pub fn emgs(&self) -> (r: [i8; 8])
        ensures
            r == self.record().emg,
    {
        self.rec.emg
    }
}

impl<'a> BatteryLevelEvent<'a> {
    /// Wrap a record whose kind code denotes a battery-level event.
    pub fn new(rec: &'a EventRecord) -> (r: Self)
        requires
            kind_of_code(rec.kind_code) == Some(EventType::BatteryLevel),
        ensures
            r.record() == *rec,
    {
        BatteryLevelEvent { rec }
    }

    /// The device's battery percentage.
    pub fn battery_level(&self) -> (r: u8)
        ensures
            r == self.record().battery_level,
    {
        self.rec.battery_level
    }
}

impl<'a> WarmupCompletedEvent<'a> {
    /// Wrap a record whose kind code denotes a warmup-completed event.
    pub fn new(rec: &'a EventRecord) -> (r: Self)
        requires
            kind_of_code(rec.kind_code) == Some(EventType::WarmupCompleted),
        ensures
            r.record() == *rec,
    {
        WarmupCompletedEvent { rec }
    }

    /// How the warmup period ended.
    pub fn result(&self) -> (r: WarmupResult)
        ensures
            r == warmup_result_of_code(self.record().warmup_result_code),
    {
        decode_warmup_result(self.rec.warmup_result_code)
    }
}

} // verus!
