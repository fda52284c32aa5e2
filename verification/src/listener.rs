//! The listener contract: one overridable handler per event kind.
//!
//! Application code implements [`EventListener`] and overrides the handlers
//! it cares about; every unoverridden handler is a no-op that says
//! continue. A handler receives the typed view for its kind — and only for
//! its kind — and returns a decision: `Continue` to keep the run loop
//! polling, `Stop` to end the current run call early. Handlers may issue
//! device commands from inside a callback.

use vstd::prelude::*;

use crate::codes::HandlerResult;
use crate::events::ArmSyncedEvent;
use crate::events::ArmUnsyncedEvent;
use crate::events::BatteryLevelEvent;
use crate::events::ConnectedEvent;
use crate::events::DisconnectedEvent;
use crate::events::EMGEvent;
use crate::events::LockedEvent;
use crate::events::OrientationEvent;
use crate::events::PairedEvent;
use crate::events::PoseEvent;
use crate::events::RSSIEvent;
use crate::events::UnlockedEvent;
use crate::events::UnpairedEvent;
use crate::events::WarmupCompletedEvent;

verus! {

/// A set of per-event-kind handlers. Each handler defaults to a no-op that
/// returns `Continue`; the decisions of overridden handlers are the
/// implementer's own and nothing here constrains them.
pub trait EventListener {
    /// Called when successfully paired with a device.
    fn on_paired(&mut self, event: PairedEvent<'_>) -> (r: HandlerResult)
        default_ensures
            r == HandlerResult::Continue,
    {
        let _ = event;
        HandlerResult::Continue
    }

    /// Called when successfully unpaired from a device.
    fn on_unpaired(&mut self, event: UnpairedEvent<'_>) -> (r: HandlerResult)
        default_ensures
            r == HandlerResult::Continue,
    {
        let _ = event;
        HandlerResult::Continue
    }

    /// Called when a device has successfully connected.
    fn on_connected(&mut self, event: ConnectedEvent<'_>) -> (r: HandlerResult)
        default_ensures
            r == HandlerResult::Continue,
    {
        let _ = event;
        HandlerResult::Continue
    }

    /// Called when a device has been disconnected.
    fn on_disconnected(&mut self, event: DisconnectedEvent<'_>) -> (r: HandlerResult)
        default_ensures
            r == HandlerResult::Continue,
    {
        let _ = event;
        HandlerResult::Continue
    }

    /// Called when a device has recognized the sync gesture.
    fn on_arm_synced(&mut self, event: ArmSyncedEvent<'_>) -> (r: HandlerResult)
        default_ensures
            r == HandlerResult::Continue,
    {
        let _ = event;
        HandlerResult::Continue
    }

    /// Called when a device has been moved or removed from the arm.
    fn on_arm_unsynced(&mut self, event: ArmUnsyncedEvent<'_>) -> (r: HandlerResult)
        default_ensures
            r == HandlerResult::Continue,
    {
        let _ = event;
        HandlerResult::Continue
    }

    /// Called when orientation data has been received.
    fn on_orientation_data(&mut self, event: OrientationEvent<'_>) -> (r: HandlerResult)
        default_ensures
            r == HandlerResult::Continue,
    {
        let _ = event;
        HandlerResult::Continue
    }

    /// Called when a change in pose has been detected.
    fn on_pose(&mut self, event: PoseEvent<'_>) -> (r: HandlerResult)
        default_ensures
            r == HandlerResult::Continue,
    {
        let _ = event;
        HandlerResult::Continue
    }

    /// Called when an RSSI value has been received.
    fn on_rssi_value(&mut self, event: RSSIEvent<'_>) -> (r: HandlerResult)
        default_ensures
            r == HandlerResult::Continue,
    {
        let _ = event;
        HandlerResult::Continue
    }

    /// Called when a device has become unlocked.
    fn on_unlocked(&mut self, event: UnlockedEvent<'_>) -> (r: HandlerResult)
        default_ensures
            r == HandlerResult::Continue,
    {
        let _ = event;
        HandlerResult::Continue
    }

    /// Called when a device has become locked.
    fn on_locked(&mut self, event: LockedEvent<'_>) -> (r: HandlerResult)
        default_ensures
            r == HandlerResult::Continue,
    {
        let _ = event;
        HandlerResult::Continue
    }

    /// Called when EMG data has been received.
    fn on_emg_data(&mut self, event: EMGEvent<'_>) -> (r: HandlerResult)
        default_ensures
            r == HandlerResult::Continue,
    {
        let _ = event;
        HandlerResult::Continue
    }

    /// Called when a battery level value has been received.
    fn on_battery_level(&mut self, event: BatteryLevelEvent<'_>) -> (r: HandlerResult)
        default_ensures
            r == HandlerResult::Continue,
    {
        let _ = event;
        HandlerResult::Continue
    }

    /// Called when the warmup period has completed.
    fn on_warmup_completed(&mut self, event: WarmupCompletedEvent<'_>) -> (r: HandlerResult)
        default_ensures
            r == HandlerResult::Continue,
    {
        let _ = event;
        HandlerResult::Continue
    }
}

} // verus!
