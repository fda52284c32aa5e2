//! The dispatch bridge: routing, handler decisions and the run loop.

use myo::Arm;
use myo::EventListener;
use myo::EventRecord;
use myo::HandlerResult;
use myo::HardwareRevision;
use myo::Hub;
use myo::Pose;
use myo::Runtime;
use myo::WarmupResult;
use myo::XDirection;
use myo::ArmSyncedEvent;
use myo::ConnectedEvent;
use myo::EMGEvent;
use myo::PairedEvent;
use myo::PoseEvent;
use myo::RSSIEvent;
use myo::WarmupCompletedEvent;
use myo::Event;

/// A listener that records every callback it receives.
struct Recorder {
    paired: usize,
    unpaired: usize,
    connected: usize,
    disconnected: usize,
    arm_synced: usize,
    arm_unsynced: usize,
    orientation: usize,
    pose: usize,
    rssi: usize,
    unlocked: usize,
    locked: usize,
    emg: usize,
    battery: usize,
    warmup: usize,
    poses_seen: Vec<Pose>,
    emgs_seen: Vec<[i8; 8]>,
    stop_after: Option<usize>,
}

impl Recorder {
    fn new() -> Recorder {
        Recorder {
            paired: 0,
            unpaired: 0,
            connected: 0,
            disconnected: 0,
            arm_synced: 0,
            arm_unsynced: 0,
            orientation: 0,
            pose: 0,
            rssi: 0,
            unlocked: 0,
            locked: 0,
            emg: 0,
            battery: 0,
            warmup: 0,
            poses_seen: Vec::new(),
            emgs_seen: Vec::new(),
            stop_after: None,
        }
    }

    fn total(&self) -> usize {
        self.paired + self.unpaired + self.connected + self.disconnected + self.arm_synced
            + self.arm_unsynced + self.orientation + self.pose + self.rssi + self.unlocked
            + self.locked + self.emg + self.battery + self.warmup
    }

    fn decision(&self) -> HandlerResult {
        match self.stop_after {
            Some(n) if self.total() >= n => HandlerResult::Stop,
            _ => HandlerResult::Continue,
        }
    }
}

impl EventListener for Recorder {
    fn on_paired(&mut self, _event: PairedEvent<'_>) -> HandlerResult {
        self.paired += 1;
        self.decision()
    }
    fn on_unpaired(&mut self, _event: myo::UnpairedEvent<'_>) -> HandlerResult {
        self.unpaired += 1;
        self.decision()
    }
    fn on_connected(&mut self, _event: ConnectedEvent<'_>) -> HandlerResult {
        self.connected += 1;
        self.decision()
    }
    fn on_disconnected(&mut self, _event: myo::DisconnectedEvent<'_>) -> HandlerResult {
        self.disconnected += 1;
        self.decision()
    }
    fn on_arm_synced(&mut self, _event: ArmSyncedEvent<'_>) -> HandlerResult {
        self.arm_synced += 1;
        self.decision()
    }
    fn on_arm_unsynced(&mut self, _event: myo::ArmUnsyncedEvent<'_>) -> HandlerResult {
        self.arm_unsynced += 1;
        self.decision()
    }
    fn on_orientation_data(&mut self, _event: myo::OrientationEvent<'_>) -> HandlerResult {
        self.orientation += 1;
        self.decision()
    }
    fn on_pose(&mut self, event: PoseEvent<'_>) -> HandlerResult {
        self.pose += 1;
        self.poses_seen.push(event.pose());
        self.decision()
    }
    fn on_rssi_value(&mut self, _event: RSSIEvent<'_>) -> HandlerResult {
        self.rssi += 1;
        self.decision()
    }
    fn on_unlocked(&mut self, _event: myo::UnlockedEvent<'_>) -> HandlerResult {
        self.unlocked += 1;
        self.decision()
    }
    fn on_locked(&mut self, _event: myo::LockedEvent<'_>) -> HandlerResult {
        self.locked += 1;
        self.decision()
    }
    fn on_emg_data(&mut self, event: EMGEvent<'_>) -> HandlerResult {
        self.emg += 1;
        self.emgs_seen.push(event.emgs());
        self.decision()
    }
    fn on_battery_level(&mut self, _event: myo::BatteryLevelEvent<'_>) -> HandlerResult {
        self.battery += 1;
        self.decision()
    }
    fn on_warmup_completed(&mut self, _event: WarmupCompletedEvent<'_>) -> HandlerResult {
        self.warmup += 1;
        self.decision()
    }
}

/// A listener that overrides only the pose handler and records it.
struct PoseOnly {
    poses_seen: Vec<Pose>,
}

impl EventListener for PoseOnly {
    fn on_pose(&mut self, event: PoseEvent<'_>) -> HandlerResult {
        self.poses_seen.push(event.pose());
        HandlerResult::Continue
    }
}

const KIND_PAIRED: u32 = 0;
const KIND_CONNECTED: u32 = 2;
const KIND_ARM_SYNCED: u32 = 4;
const KIND_POSE: u32 = 7;
const KIND_RSSI: u32 = 8;
const KIND_EMG: u32 = 11;
const KIND_BATTERY: u32 = 12;
const KIND_WARMUP: u32 = 13;

#[test]
fn pose_event_reaches_only_the_pose_handler() {
    let mut rt = Runtime::new();
    let hub = Hub::initialize(&mut rt, b"com.example.app").unwrap();
    let mut rec = EventRecord::with_kind(KIND_POSE);
    rec.pose_code = 1;
    rt.push_event(rec);
    let mut listener = Recorder::new();
    let report = hub.run(&mut rt, 50, &mut listener).unwrap();
    assert_eq!(report.handled, 1);
    assert!(!report.stopped);
    assert_eq!(listener.pose, 1);
    assert_eq!(listener.total(), 1);
    assert_eq!(listener.poses_seen, vec![Pose::fist]);
}

#[test]
fn emg_event_delivers_channels_in_order() {
    let mut rt = Runtime::new();
    let hub = Hub::initialize(&mut rt, b"com.example.app").unwrap();
    let mut rec = EventRecord::with_kind(KIND_EMG);
    rec.emg = [1, -1, 2, -2, 3, -3, 4, -4];
    rt.push_event(rec);
    let mut listener = Recorder::new();
    let report = hub.run(&mut rt, 50, &mut listener).unwrap();
    assert_eq!(report.handled, 1);
    assert_eq!(listener.emg, 1);
    assert_eq!(listener.emgs_seen, vec![[1, -1, 2, -2, 3, -3, 4, -4]]);
}

#[test]
fn stop_decision_ends_the_run_early() {
    let mut rt = Runtime::new();
    let hub = Hub::initialize(&mut rt, b"com.example.app").unwrap();
    rt.push_event(EventRecord::with_kind(KIND_POSE));
    rt.push_event(EventRecord::with_kind(KIND_RSSI));
    rt.push_event(EventRecord::with_kind(KIND_BATTERY));
    let mut listener = Recorder::new();
    listener.stop_after = Some(1);
    let report = hub.run(&mut rt, 50, &mut listener).unwrap();
    assert_eq!(report.handled, 1);
    assert!(report.stopped);
    assert_eq!(listener.total(), 1);
    assert_eq!(rt.pending_count(), 2);
}

#[test]
fn default_handlers_continue_through_other_kinds() {
    let mut rt = Runtime::new();
    let hub = Hub::initialize(&mut rt, b"com.example.app").unwrap();
    rt.push_event(EventRecord::with_kind(KIND_PAIRED));
    rt.push_event(EventRecord::with_kind(KIND_RSSI));
    let mut rec = EventRecord::with_kind(KIND_POSE);
    rec.pose_code = 4;
    rt.push_event(rec);
    rt.push_event(EventRecord::with_kind(KIND_BATTERY));
    let mut listener = PoseOnly { poses_seen: Vec::new() };
    let report = hub.run(&mut rt, 50, &mut listener).unwrap();
    assert_eq!(report.handled, 4);
    assert!(!report.stopped);
    assert_eq!(rt.pending_count(), 0);
    assert_eq!(listener.poses_seen, vec![Pose::fingers_spread]);
}

#[test]
fn unknown_kind_is_an_explicit_no_op() {
    let mut rt = Runtime::new();
    let hub = Hub::initialize(&mut rt, b"com.example.app").unwrap();
    rt.push_event(EventRecord::with_kind(99));
    let mut listener = Recorder::new();
    let report = hub.run(&mut rt, 50, &mut listener).unwrap();
    assert_eq!(report.handled, 1);
    assert!(!report.stopped);
    assert_eq!(listener.total(), 0);
}

#[test]
fn run_against_foreign_runtime_is_error() {
    let mut rt = Runtime::new();
    let hub = Hub::initialize(&mut rt, b"com.example.app").unwrap();
    let mut other = Runtime::new();
    let mut listener = Recorder::new();
    let err = hub.run(&mut other, 50, &mut listener).unwrap_err();
    assert_eq!(err.kind(), myo::ResultCode::Error);
    assert_eq!(listener.total(), 0);
    err.free();
}

#[test]
fn common_accessors_read_the_record() {
    let mut rec = EventRecord::with_kind(KIND_PAIRED);
    rec.timestamp = 123456789;
    rec.myo = 42;
    rec.mac = 0x001122334455;
    rec.name = String::from("my armband");
    let view = PairedEvent::new(&rec);
    assert_eq!(view.event_type(), Some(myo::EventType::Paired));
    assert_eq!(view.timestamp(), 123456789);
    assert_eq!(view.device().raw_id(), 42);
    assert_eq!(view.mac_address().value(), 0x001122334455);
    assert_eq!(view.mac_address().to_text(), "00-11-22-33-44-55");
    let name = view.device_name();
    assert_eq!(name.text(), "my armband");
    name.free();
}

#[test]
fn firmware_versions_decode_revision() {
    let mut rec = EventRecord::with_kind(KIND_CONNECTED);
    rec.firmware_major = 1;
    rec.firmware_minor = 5;
    rec.firmware_patch = 1931;
    rec.hardware_revision_code = 2;
    let view = ConnectedEvent::new(&rec);
    assert_eq!(view.firmware_versions(), (1, 5, 1931, Some(HardwareRevision::RevD)));
    rec.hardware_revision_code = 7;
    let view = ConnectedEvent::new(&rec);
    assert_eq!(view.firmware_versions(), (1, 5, 1931, None));
}

#[test]
fn arm_synced_accessors_decode_codes() {
    let mut rec = EventRecord::with_kind(KIND_ARM_SYNCED);
    rec.arm_code = 1;
    rec.x_direction_code = 0;
    rec.warmup_state_code = 2;
    let view = ArmSyncedEvent::new(&rec);
    assert_eq!(view.arm(), Arm::Left);
    assert_eq!(view.xdirection(), XDirection::TowardWrist);
    assert_eq!(view.warmup_state(), myo::WarmupState::Warm);
}

#[test]
fn warmup_result_decodes() {
    let mut rec = EventRecord::with_kind(KIND_WARMUP);
    rec.warmup_result_code = 1;
    let view = WarmupCompletedEvent::new(&rec);
    assert_eq!(view.result(), WarmupResult::Success);
    rec.warmup_result_code = 9;
    let view = WarmupCompletedEvent::new(&rec);
    assert_eq!(view.result(), WarmupResult::Unknown);
}

#[test]
fn unknown_pose_code_decodes_to_unknown() {
    let mut rec = EventRecord::with_kind(KIND_POSE);
    rec.pose_code = 999;
    let view = PoseEvent::new(&rec);
    assert_eq!(view.pose(), Pose::unknown);
}

#[test]
fn emg_single_channel_accessor_reads_by_index() {
    let mut rec = EventRecord::with_kind(KIND_EMG);
    rec.emg = [10, 20, 30, 40, 50, 60, 70, 80];
    let view = EMGEvent::new(&rec);
    assert_eq!(view.emg(0), 10);
    assert_eq!(view.emg(7), 80);
    assert_eq!(view.emgs(), [10, 20, 30, 40, 50, 60, 70, 80]);
}

#[test]
fn every_known_kind_routes_to_its_handler() {
    let mut rt = Runtime::new();
    let hub = Hub::initialize(&mut rt, b"com.example.app").unwrap();
    let mut code: u32 = 0;
    while code < 14 {
        rt.push_event(EventRecord::with_kind(code));
        code += 1;
    }
    let mut listener = Recorder::new();
    let report = hub.run(&mut rt, 50, &mut listener).unwrap();
    assert_eq!(report.handled, 14);
    assert_eq!(listener.paired, 1);
    assert_eq!(listener.unpaired, 1);
    assert_eq!(listener.connected, 1);
    assert_eq!(listener.disconnected, 1);
    assert_eq!(listener.arm_synced, 1);
    assert_eq!(listener.arm_unsynced, 1);
    assert_eq!(listener.orientation, 1);
    assert_eq!(listener.pose, 1);
    assert_eq!(listener.rssi, 1);
    assert_eq!(listener.unlocked, 1);
    assert_eq!(listener.locked, 1);
    assert_eq!(listener.emg, 1);
    assert_eq!(listener.battery, 1);
    assert_eq!(listener.warmup, 1);
}

#[test]
fn rssi_and_battery_accessors_read_the_record() {
    let mut rec = EventRecord::with_kind(KIND_RSSI);
    rec.rssi = -42;
    let view = RSSIEvent::new(&rec);
    assert_eq!(view.rssi(), -42);
    let mut rec = EventRecord::with_kind(KIND_BATTERY);
    rec.battery_level = 93;
    let view = myo::BatteryLevelEvent::new(&rec);
    assert_eq!(view.battery_level(), 93);
}

#[test]
fn firmware_version_reads_one_component() {
    let mut rec = EventRecord::with_kind(KIND_PAIRED);
    rec.firmware_major = 1;
    rec.firmware_minor = 5;
    rec.firmware_patch = 1931;
    rec.hardware_revision_code = 1;
    let view = PairedEvent::new(&rec);
    assert_eq!(view.firmware_version(myo::VersionComponent::Major), 1);
    assert_eq!(view.firmware_version(myo::VersionComponent::Minor), 5);
    assert_eq!(view.firmware_version(myo::VersionComponent::Patch), 1931);
    assert_eq!(view.firmware_version(myo::VersionComponent::HardwareRevision), 1);
    assert_eq!(view.firmware_versions().3, Some(HardwareRevision::RevC));
}
