//! A safety-oriented binding layer over a gesture-armband hub/event library.
//!
//! The library owns hub handles and guarantees their release exactly once,
//! decodes untyped native event records into statically-typed, read-only
//! views with per-event-kind accessors, and routes events to a user-supplied
//! listener's per-kind handler within a bounded polling call.
//!
//! The native device process is modelled by [`Runtime`]: a handle table plus
//! a queue of buffered event records. Every operation on it is verified
//! against that model.

mod appid;
mod bridge;
mod codes;
mod device;
mod error;
mod events;
mod hub;
mod listener;
mod mac;
mod runtime;

pub use appid::check_app_id;
pub use appid::dot_count;
pub use appid::is_alnum_byte;
pub use appid::is_identifier_byte;
pub use appid::is_mark_byte;
pub use appid::is_mark_dot_pair;
pub use appid::valid_app_id;

pub use bridge::DispatchOutcome;
pub use bridge::dispatch_event;

pub use codes::Arm;
pub use codes::CoordinateIndex;
pub use codes::EMGStreamingMode;
pub use codes::EventType;
pub use codes::HandlerResult;
pub use codes::HardwareRevision;
pub use codes::LockingPolicy;
pub use codes::OrientationIndex;
pub use codes::Pose;
pub use codes::ResultCode;
pub use codes::UnlockType;
pub use codes::UserActionType;
pub use codes::VersionComponent;
pub use codes::VibrationType;
pub use codes::WarmupResult;
pub use codes::WarmupState;
pub use codes::XDirection;
pub use codes::arm_of_code;
pub use codes::code_of_kind;
pub use codes::decode_arm;
pub use codes::decode_event_type;
pub use codes::decode_hardware_revision;
pub use codes::decode_pose;
pub use codes::decode_warmup_result;
pub use codes::decode_warmup_state;
pub use codes::decode_x_direction;
pub use codes::encode_event_type;
pub use codes::hardware_revision_of_code;
pub use codes::kind_of_code;
pub use codes::lemma_event_type_code_round_trip;
pub use codes::pose_of_code;
pub use codes::warmup_result_of_code;
pub use codes::warmup_state_of_code;
pub use codes::x_direction_of_code;

pub use device::Armband;

pub use error::ErrorDetails;
pub use error::MyoString;

pub use events::ArmSyncedEvent;
pub use events::ArmUnsyncedEvent;
pub use events::BatteryLevelEvent;
pub use events::ConnectedEvent;
pub use events::DisconnectedEvent;
pub use events::EMGEvent;
pub use events::Event;
pub use events::EventRecord;
pub use events::LockedEvent;
pub use events::OrientationEvent;
pub use events::PairedEvent;
pub use events::PoseEvent;
pub use events::RSSIEvent;
pub use events::UnlockedEvent;
pub use events::UnpairedEvent;
pub use events::WarmupCompletedEvent;
pub use events::firmware_component_of;

pub use hub::Hub;
pub use hub::RunReport;
pub use hub::lemma_construct_then_release_no_leak;
pub use hub::runtime_unchanged;

pub use listener::EventListener;

pub use mac::MACAddress;
pub use mac::byte_at;
pub use mac::byte_hex_chars;
pub use mac::hex_digit_char;
pub use mac::mac_text;

pub use runtime::Runtime;
pub use runtime::lemma_register_then_release_restores;
pub use runtime::remove_first;
