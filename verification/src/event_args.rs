//! The closed set of typed events the platform's notification sinks
//! deliver: per-session events and device lifecycle events.
//!
//! The sinks themselves are platform callback objects at the
//! operating-system boundary; on each callback they build one variant
//! here, with every platform value already converted to plain data
//! (wide strings decoded, float volumes carried as their raw 32-bit
//! patterns), and hand it to the user's callback. A raw discriminant
//! outside its documented range is a contract violation at that
//! boundary, which the getters below exclude, so that building an
//! event never invents a meaning for an unknown value.

use vstd::prelude::*;

use crate::notifications::NotificationError;
use crate::sample_format::Guid;

verus! {

/// One per-session event.
#[derive(Debug)]
pub enum AudioSessionEventArgs {
    DisplayNameChanged(DisplayNameChangedArgs),
    IconPathChanged(IconPathChangedArgs),
    SimpleVolumeChanged(SimpleVolumeChangedArgs),
    ChannelVolumeChanged(ChannelVolumeChangedArgs),
    GroupingParamChanged(GroupingParamChangedArgs),
    StateChanged(StateChangedArgs),
    SessionDisconnected(SessionDisconnectedArgs),
}

/// The session's display name changed to `new_display_name`.
#[derive(Debug)]
pub struct DisplayNameChangedArgs {
    pub new_display_name: String,
}

/// The session's master volume changed. The volume is the raw bit
/// pattern of the platform's 32-bit float level.
#[derive(Debug, Clone, PartialEq, Eq, Structural)]
pub struct SimpleVolumeChangedArgs {
    pub new_volume_bits: u32,
    pub new_mute: bool,
}

/// One channel's volume changed. The volumes are the raw bit
/// patterns of the platform's 32-bit float levels, one per channel.
#[derive(Debug)]
pub struct ChannelVolumeChangedArgs {
    pub channel_count: u32,
    pub new_channel_volumes_bits: Vec<u32>,
    pub changed_channel: u32,
}

/// The session's grouping parameter changed.
#[derive(Debug, Clone, Copy)]
pub struct GroupingParamChangedArgs {
    pub new_grouping_param: Guid,
}

/// The session's activity state changed. `new_state` is the raw
/// platform discriminant.
#[derive(Debug, Clone, PartialEq, Eq, Structural)]
pub struct StateChangedArgs {
    pub new_state: i32,
}

impl StateChangedArgs {
    /// The state the raw discriminant names: inactive, active or
    /// expired, in that order.
    pub fn get_state(&self) -> (r: SessionState)
        requires
            0 <= self.new_state <= 2,
        ensures
            self.new_state == 0 ==> r == SessionState::AudioSessionStateInactive,
            self.new_state == 1 ==> r == SessionState::AudioSessionStateActive,
            self.new_state == 2 ==> r == SessionState::AudioSessionStateExpired,
    {
        if self.new_state == 0 {
            SessionState::AudioSessionStateInactive
        } else if self.new_state == 1 {
            SessionState::AudioSessionStateActive
        } else {
            SessionState::AudioSessionStateExpired
        }
    }
}

/// A session's activity state.
#[derive(Debug, Clone, PartialEq, Eq, Structural)]
pub enum SessionState {
    AudioSessionStateActive,
    AudioSessionStateExpired,
    AudioSessionStateInactive,
}

/// The session was disconnected. `disconnect_reason` is the raw
/// platform discriminant.
#[derive(Debug, Clone, PartialEq, Eq, Structural)]
pub struct SessionDisconnectedArgs {
    pub disconnect_reason: i32,
}

impl SessionDisconnectedArgs {
    /// The reason the raw discriminant names, in the platform's
    /// documented order.
    pub fn get_reason(&self) -> (r: SessionDisconnectReason)
        requires
            0 <= self.disconnect_reason <= 5,
        ensures
            self.disconnect_reason == 0 ==> r
                == SessionDisconnectReason::DisconnectReasonDeviceRemoval,
            self.disconnect_reason == 1 ==> r
                == SessionDisconnectReason::DisconnectReasonServerShutdown,
            self.disconnect_reason == 2 ==> r
                == SessionDisconnectReason::DisconnectReasonFormatChanged,
            self.disconnect_reason == 3 ==> r
                == SessionDisconnectReason::DisconnectReasonSessionLogoff,
            self.disconnect_reason == 4 ==> r
                == SessionDisconnectReason::DisconnectReasonSessionDisconnected,
            self.disconnect_reason == 5 ==> r
                == SessionDisconnectReason::DisconnectReasonExclusiveModeOverride,
    {
        if self.disconnect_reason == 0 {
            SessionDisconnectReason::DisconnectReasonDeviceRemoval
        } else if self.disconnect_reason == 1 {
            SessionDisconnectReason::DisconnectReasonServerShutdown
        } else if self.disconnect_reason == 2 {
            SessionDisconnectReason::DisconnectReasonFormatChanged
        } else if self.disconnect_reason == 3 {
            SessionDisconnectReason::DisconnectReasonSessionLogoff
        } else if self.disconnect_reason == 4 {
            SessionDisconnectReason::DisconnectReasonSessionDisconnected
        } else {
            SessionDisconnectReason::DisconnectReasonExclusiveModeOverride
        }
    }
}

/// Why a session was disconnected.
#[derive(Debug, Clone, PartialEq, Eq, Structural)]
pub enum SessionDisconnectReason {
    DisconnectReasonDeviceRemoval,
    DisconnectReasonServerShutdown,
    DisconnectReasonFormatChanged,
    DisconnectReasonSessionLogoff,
    DisconnectReasonSessionDisconnected,
    DisconnectReasonExclusiveModeOverride,
}

/// The session's icon path changed to `new_icon_path`.
#[derive(Debug)]
pub struct IconPathChangedArgs {
    pub new_icon_path: String,
}

impl IconPathChangedArgs {
    pub fn get_icon_path(&self) -> (r: Result<String, NotificationError>)
        ensures
            r is Ok,
            r.unwrap()@ == self.new_icon_path@,
    {
        Ok(self.new_icon_path.clone())
    }
}

/// One device lifecycle event.
#[derive(Debug)]
pub enum DeviceNotificationEventArgs {
    DefaultDeviceChanged(DefaultDeviceChangedEventArgs),
    DeviceAdded(DeviceAddedEventArgs),
    DeviceRemoved(DeviceRemovedEventArgs),
    DeviceStateChanged(DeviceStateChangedEventArgs),
    DevicePropertyValueChanged(DevicePropertyValueChangedEventArgs),
}

/// The default endpoint changed for a data-flow direction and role
/// (both raw platform discriminants) to the device named by
/// `default_device`.
#[derive(Debug)]
pub struct DefaultDeviceChangedEventArgs {
    pub flow: i32,
    pub role: i32,
    pub default_device: String,
}

impl DefaultDeviceChangedEventArgs {
    pub fn get_default_device(&self) -> (r: Result<String, NotificationError>)
        ensures
            r is Ok,
            r.unwrap()@ == self.default_device@,
    {
        Ok(self.default_device.clone())
    }
}

/// A device arrived.
#[derive(Debug)]
pub struct DeviceAddedEventArgs {
    pub device_id: String,
}

impl DeviceAddedEventArgs {
    pub fn get_device_id(&self) -> (r: Result<String, NotificationError>)
        ensures
            r is Ok,
            r.unwrap()@ == self.device_id@,
    {
        Ok(self.device_id.clone())
    }
}

/// A device was removed.
#[derive(Debug)]
pub struct DeviceRemovedEventArgs {
    pub device_id: String,
}

impl DeviceRemovedEventArgs {
    pub fn get_device_id(&self) -> (r: Result<String, NotificationError>)
        ensures
            r is Ok,
            r.unwrap()@ == self.device_id@,
    {
        Ok(self.device_id.clone())
    }
}

/// A device's state changed. `new_state` is the raw platform state
/// mask value.
#[derive(Debug)]
pub struct DeviceStateChangedEventArgs {
    pub device_id: String,
    pub new_state: u32,
}

impl DeviceStateChangedEventArgs {
    pub fn get_device_id(&self) -> (r: Result<String, NotificationError>)
        ensures
            r is Ok,
            r.unwrap()@ == self.device_id@,
    {
        Ok(self.device_id.clone())
    }

    /// The state the raw value names.
    pub fn get_state(&self) -> (r: DeviceState)
        requires
            self.new_state == DEVICE_STATE_ACTIVE || self.new_state == DEVICE_STATE_DISABLED
                || self.new_state == DEVICE_STATE_NOTPRESENT || self.new_state
                == DEVICE_STATE_UNPLUGGED || self.new_state == DEVICE_STATEMASK_ALL,
        ensures
            r == DeviceState::spec_from_raw(self.new_state),
    {
        DeviceState::from_raw(self.new_state)
    }
}

/// A device's activity state, as the platform's state mask bits name
/// it.
#[derive(Debug, Clone, PartialEq, Eq, Structural)]
pub enum DeviceState {
    Active,
    Disabled,
    NotPresent,
    Unplugged,
    /// Mask: includes audio endpoint devices in all states — active,
    /// disabled, not present, and unplugged.
    All,
}

pub const DEVICE_STATE_ACTIVE: u32 = 1;

pub const DEVICE_STATE_DISABLED: u32 = 2;

pub const DEVICE_STATE_NOTPRESENT: u32 = 4;

pub const DEVICE_STATE_UNPLUGGED: u32 = 8;

pub const DEVICE_STATEMASK_ALL: u32 = 15;

impl DeviceState {
    pub open spec fn spec_from_raw(state: u32) -> DeviceState
        recommends
            state == DEVICE_STATE_ACTIVE || state == DEVICE_STATE_DISABLED || state
                == DEVICE_STATE_NOTPRESENT || state == DEVICE_STATE_UNPLUGGED || state
                == DEVICE_STATEMASK_ALL,
    {
        if state == DEVICE_STATE_ACTIVE {
            DeviceState::Active
        } else if state == DEVICE_STATE_DISABLED {
            DeviceState::Disabled
        } else if state == DEVICE_STATE_NOTPRESENT {
            DeviceState::NotPresent
        } else if state == DEVICE_STATE_UNPLUGGED {
            DeviceState::Unplugged
        } else {
            DeviceState::All
        }
    }

    /// The state a raw platform mask value names. A value outside the
    /// documented set is a contract violation at the platform
    /// boundary.
    pub fn from_raw(state: u32) -> (r: DeviceState)
        requires
            state == DEVICE_STATE_ACTIVE || state == DEVICE_STATE_DISABLED || state
                == DEVICE_STATE_NOTPRESENT || state == DEVICE_STATE_UNPLUGGED || state
                == DEVICE_STATEMASK_ALL,
        ensures
            r == DeviceState::spec_from_raw(state),
    {
        if state == DEVICE_STATE_ACTIVE {
            DeviceState::Active
        } else if state == DEVICE_STATE_DISABLED {
            DeviceState::Disabled
        } else if state == DEVICE_STATE_NOTPRESENT {
            DeviceState::NotPresent
        } else if state == DEVICE_STATE_UNPLUGGED {
            DeviceState::Unplugged
        } else {
            DeviceState::All
        }
    }
}

/// A device property changed: the device and the property key — the
/// key's set identifier and its index within the set.
#[derive(Debug)]
pub struct DevicePropertyValueChangedEventArgs {
    pub device_id: String,
    pub key_fmtid: Guid,
    pub key_pid: u32,
}

impl DevicePropertyValueChangedEventArgs {
    pub fn get_device_id(&self) -> (r: Result<String, NotificationError>)
        ensures
            r is Ok,
            r.unwrap()@ == self.device_id@,
    {
        Ok(self.device_id.clone())
    }
}

} // verus!
