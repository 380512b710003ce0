use vstd::prelude::*;

verus! {

/// A device on which the user can play; `device_type` is the Web API's `type`.
#[derive(Debug, Clone, PartialEq, Eq)]
pub struct Device {
    pub id: Option<String>,
    pub is_active: bool,
    pub is_private_session: bool,
    pub is_restricted: bool,
    pub name: String,
    pub device_type: String,
    pub volume_percent: Option<u32>,
    pub supports_volume: Option<bool>,
}

/// The user's available devices.
#[derive(Debug, Clone, PartialEq, Eq)]
pub struct DevicesResponse {
    pub devices: Vec<Device>,
}

} // verus!
