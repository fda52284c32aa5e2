//! Raw-code decoders for the native enumerations.

use myo::Arm;
use myo::EventType;
use myo::Pose;
use myo::WarmupState;
use myo::XDirection;
use myo::decode_arm;
use myo::decode_event_type;
use myo::decode_pose;
use myo::decode_warmup_state;
use myo::decode_x_direction;
use myo::encode_event_type;

#[test]
fn event_type_codes_round_trip() {
    let kinds = [
        EventType::Paired,
        EventType::Unpaired,
        EventType::Connected,
        EventType::Disconnected,
        EventType::ArmSynced,
        EventType::ArmUnsynced,
        EventType::Orientation,
        EventType::Pose,
        EventType::RSSI,
        EventType::Unlocked,
        EventType::Locked,
        EventType::EMG,
        EventType::BatteryLevel,
        EventType::WarmupCompleted,
    ];
    for kind in kinds {
        assert_eq!(decode_event_type(encode_event_type(kind)), Some(kind));
    }
}

#[test]
fn unknown_event_type_code_decodes_to_none() {
    assert_eq!(decode_event_type(14), None);
    assert_eq!(decode_event_type(99), None);
    assert_eq!(decode_event_type(u32::MAX), None);
}

#[test]
fn pose_codes_decode() {
    assert_eq!(decode_pose(0), Pose::rest);
    assert_eq!(decode_pose(1), Pose::fist);
    assert_eq!(decode_pose(2), Pose::wave_in);
    assert_eq!(decode_pose(3), Pose::wave_out);
    assert_eq!(decode_pose(4), Pose::fingers_spread);
    assert_eq!(decode_pose(5), Pose::double_tap);
    assert_eq!(decode_pose(0xffff), Pose::unknown);
    assert_eq!(decode_pose(6), Pose::unknown);
}

#[test]
fn arm_and_direction_codes_decode() {
    assert_eq!(decode_arm(0), Arm::Right);
    assert_eq!(decode_arm(1), Arm::Left);
    assert_eq!(decode_arm(2), Arm::Unknown);
    assert_eq!(decode_arm(77), Arm::Unknown);
    assert_eq!(decode_x_direction(0), XDirection::TowardWrist);
    assert_eq!(decode_x_direction(1), XDirection::TowardElbow);
    assert_eq!(decode_x_direction(9), XDirection::Unknown);
}

#[test]
fn warmup_state_codes_decode() {
    assert_eq!(decode_warmup_state(0), WarmupState::Unknown);
    assert_eq!(decode_warmup_state(1), WarmupState::Cold);
    assert_eq!(decode_warmup_state(2), WarmupState::Warm);
    assert_eq!(decode_warmup_state(3), WarmupState::Unknown);
}
