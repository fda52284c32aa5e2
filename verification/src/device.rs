//! Device handles and the commands that can be issued through them.
//!
//! An [`Armband`] is a lightweight, freely copyable reference to a device
//! known to the hub; the binding does not own the device's lifetime. Every
//! command is a fire-and-forget asynchronous submission: it succeeds exactly
//! when the handle is valid (non-null), and the physical outcome arrives
//! later as a separate event through the run loop.

use vstd::prelude::*;
use vstd::string::StringExecFns;

use crate::codes::ResultCode;
use crate::codes::UnlockType;
use crate::codes::UserActionType;
use crate::codes::VibrationType;
use crate::error::ErrorDetails;

verus! {

/// A non-owning reference to a device known to the hub. Equality is by
/// underlying handle identity; the null handle (zero) is invalid.
#[derive(Clone, Copy, Debug, PartialEq, Eq, Structural)]
pub struct Armband {
    id: u64,
}

/// Submit a fire-and-forget command for the device with the given handle.
/// Submission succeeds exactly when the handle is non-null.
fn submit_command(id: u64) -> (r: Result<(), ErrorDetails>)
    ensures
        r is Ok <==> id != 0,
        r matches Err(e) ==> {
            &&& e.spec_kind() == ResultCode::ErrorInvalidArgument
            &&& e.spec_message() == "invalid argument: null device handle"@
        },
{
    if id != 0 {
        Ok(())
    } else {
        Err(
            ErrorDetails::new(
                ResultCode::ErrorInvalidArgument,
                String::from_str("invalid argument: null device handle"),
            ),
        )
    }
}

impl Armband {
    /// The underlying handle, for specification.
    pub closed spec fn spec_id(self) -> u64 {
        self.id
    }

    /// Whether a command submitted through this handle is accepted.
    pub open spec fn accepts_commands(self) -> bool {
        self.spec_id() != 0
    }

    /// Wrap a raw device handle.
    pub fn from_id(id: u64) -> (r: Armband)
        ensures
            r.spec_id() == id,
    {
        Armband { id }
    }

    /// The raw handle identifying the device.
    pub fn raw_id(&self) -> (r: u64)
        ensures
            r == self.spec_id(),
    {
        self.id
    }

    /// Ask the device to vibrate.
    pub fn vibrate(&self, vtype: VibrationType) -> (r: Result<(), ErrorDetails>)
        ensures
            r is Ok <==> self.accepts_commands(),
            r matches Err(e) ==> e.spec_kind() == ResultCode::ErrorInvalidArgument,
    {
        let _ = vtype;
        submit_command(self.id)
    }

    /// Ask the device to report its signal strength; the value arrives
    /// later as an RSSI event.
    pub fn request_rssi(&self) -> (r: Result<(), ErrorDetails>)
        ensures
            r is Ok <==> self.accepts_commands(),
            r matches Err(e) ==> e.spec_kind() == ResultCode::ErrorInvalidArgument,
    {
        submit_command(self.id)
    }

    /// Ask the device to report its battery level; the value arrives later
    /// as a battery-level event.
    pub fn request_battery_level(&self) -> (r: Result<(), ErrorDetails>)
        ensures
            r is Ok <==> self.accepts_commands(),
            r matches Err(e) ==> e.spec_kind() == ResultCode::ErrorInvalidArgument,
    {
        submit_command(self.id)
    }

    /// Turn EMG streaming for the device on or off.
    pub fn set_stream_emg(&self, stream_emg_data: bool) -> (r: Result<(), ErrorDetails>)
        ensures
            r is Ok <==> self.accepts_commands(),
            r matches Err(e) ==> e.spec_kind() == ResultCode::ErrorInvalidArgument,
    {
        let _ = stream_emg_data;
        submit_command(self.id)
    }

    /// Lock the device immediately.
    pub fn lock(&self) -> (r: Result<(), ErrorDetails>)
        ensures
            r is Ok <==> self.accepts_commands(),
            r matches Err(e) ==> e.spec_kind() == ResultCode::ErrorInvalidArgument,
    {
        submit_command(self.id)
    }

    /// Unlock the device, either for a fixed time or until re-locked.
    pub fn unlock(&self, unlock_type: UnlockType) -> (r: Result<(), ErrorDetails>)
        ensures
            r is Ok <==> self.accepts_commands(),
            r matches Err(e) ==> e.spec_kind() == ResultCode::ErrorInvalidArgument,
    {
        let _ = unlock_type;
        submit_command(self.id)
    }

    /// Notify the device that a single user action was recognized; the
    /// device will vibrate.
    pub fn notify_user_action(&self) -> (r: Result<(), ErrorDetails>)
        ensures
            r is Ok <==> self.accepts_commands(),
            r matches Err(e) ==> e.spec_kind() == ResultCode::ErrorInvalidArgument,
    {
        let _ = UserActionType::Single;
        submit_command(self.id)
    }
}

} // verus!
