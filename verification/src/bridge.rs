//! The dispatch bridge: from an untyped event record to one typed listener
//! callback.
//!
//! For each event the run loop hands over, the bridge reads the record's
//! kind code, constructs the one matching typed view, and invokes the
//! matching listener handler, returning that handler's decision. A kind code
//! the binding does not know is not silently miscast: it is reported as
//! [`DispatchOutcome::UnknownKind`], which the run loop treats as an
//! explicit no-op.

use vstd::prelude::*;

use crate::codes::EventType;
use crate::codes::HandlerResult;
use crate::codes::decode_event_type;
use crate::codes::kind_of_code;
use crate::events::ArmSyncedEvent;
use crate::events::ArmUnsyncedEvent;
use crate::events::BatteryLevelEvent;
use crate::events::ConnectedEvent;
use crate::events::DisconnectedEvent;
use crate::events::EMGEvent;
use crate::events::EventRecord;
use crate::events::LockedEvent;
use crate::events::OrientationEvent;
use crate::events::PairedEvent;
use crate::events::PoseEvent;
use crate::events::RSSIEvent;
use crate::events::UnlockedEvent;
use crate::events::UnpairedEvent;
use crate::events::WarmupCompletedEvent;
use crate::listener::EventListener;

verus! {

/// What dispatching one event record came to.
#[derive(Clone, Copy, Debug, PartialEq, Eq, Structural)]
pub enum DispatchOutcome {
    /// The record's kind was known; the matching handler ran and returned
    /// this decision.
    Handled(HandlerResult),
    /// The record carried a kind code this binding does not know; no
    /// handler was invoked.
    UnknownKind,
}

/// Dispatch one event record to the matching handler of the listener.
///
/// Exactly when the record's kind code is known, the one handler for that
/// kind runs, with a view over this record, and its decision is returned.
pub fn dispatch_event<L: EventListener>(listener: &mut L, rec: &EventRecord) -> (r:
    DispatchOutcome)
    ensures
        r is UnknownKind <==> kind_of_code(rec.kind_code) is None,
{
    match decode_event_type(rec.kind_code) {
        None => DispatchOutcome::UnknownKind,
        Some(EventType::Paired) => DispatchOutcome::Handled(
            listener.on_paired(PairedEvent::new(rec)),
        ),
        Some(EventType::Unpaired) => DispatchOutcome::Handled(
            listener.on_unpaired(UnpairedEvent::new(rec)),
        ),
        Some(EventType::Connected) => DispatchOutcome::Handled(
            listener.on_connected(ConnectedEvent::new(rec)),
        ),
        Some(EventType::Disconnected) => DispatchOutcome::Handled(
            listener.on_disconnected(DisconnectedEvent::new(rec)),
        ),
        Some(EventType::ArmSynced) => DispatchOutcome::Handled(
            listener.on_arm_synced(ArmSyncedEvent::new(rec)),
        ),
        Some(EventType::ArmUnsynced) => DispatchOutcome::Handled(
            listener.on_arm_unsynced(ArmUnsyncedEvent::new(rec)),
        ),
        Some(EventType::Orientation) => DispatchOutcome::Handled(
            listener.on_orientation_data(OrientationEvent::new(rec)),
        ),
        Some(EventType::Pose) => DispatchOutcome::Handled(listener.on_pose(PoseEvent::new(rec))),
        Some(EventType::RSSI) => DispatchOutcome::Handled(
            listener.on_rssi_value(RSSIEvent::new(rec)),
        ),
        Some(EventType::Unlocked) => DispatchOutcome::Handled(
            listener.on_unlocked(UnlockedEvent::new(rec)),
        ),
        Some(EventType::Locked) => DispatchOutcome::Handled(
            listener.on_locked(LockedEvent::new(rec)),
        ),
        Some(EventType::EMG) => DispatchOutcome::Handled(
            listener.on_emg_data(EMGEvent::new(rec)),
        ),
        Some(EventType::BatteryLevel) => DispatchOutcome::Handled(
            listener.on_battery_level(BatteryLevelEvent::new(rec)),
        ),
        Some(EventType::WarmupCompleted) => DispatchOutcome::Handled(
            listener.on_warmup_completed(WarmupCompletedEvent::new(rec)),
        ),
    }
}

} // verus!
