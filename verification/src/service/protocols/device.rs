//! Device information, status and screen layout.

use vstd::prelude::*;
use super::base::DeviceInfo;
use super::base::Entry;
use super::base::ResponseStatus;

verus! {

/// Geometry of one display.
#[derive(Debug, Clone, Copy, PartialEq, Eq, Structural)]
pub struct ScreenLayout {
    /// Width in pixels.
    pub width: u32,
    /// Height in pixels.
    pub height: u32,
    /// The scale factor, as the bit pattern of a 64-bit IEEE 754 number.
    pub scale_factor_bits: u64,
    /// Horizontal position relative to the primary display.
    pub position_x: i32,
    /// Vertical position relative to the primary display.
    pub position_y: i32,
    /// Whether this is the primary display.
    pub is_primary: bool,
}

/// A device request.
#[derive(Debug, Clone, PartialEq)]
pub enum DeviceRequest {
    UpdateInfo { device_info: DeviceInfo },
    UpdateStatus { device_id: String, status: Vec<Entry> },
    UpdateScreenLayout { device_id: String, layout: Vec<ScreenLayout> },
    QueryInfo { device_id: String },
    /// `keys` absent asks for every key.
    QueryStatus { device_id: String, keys: Option<Vec<String>> },
    QueryScreenLayout { device_id: String },
}

/// A device response.
#[derive(Debug, Clone, PartialEq)]
pub enum DeviceResponse {
    UpdateInfo { status: ResponseStatus },
    UpdateStatus { status: ResponseStatus },
    UpdateScreenLayout { status: ResponseStatus },
    QueryInfo { status: ResponseStatus, device_info: Option<DeviceInfo> },
    QueryStatus { status: ResponseStatus, status_data: Option<Vec<Entry>> },
    QueryScreenLayout { status: ResponseStatus, layout: Option<Vec<ScreenLayout>> },
}

} // verus!
