//! Status sync, error reports, performance settings and logs.

use vstd::prelude::*;
use super::base::Entry;
use super::base::ResponseStatus;

verus! {

/// Kind of data to synchronise.
#[derive(Debug, Clone, PartialEq)]
pub enum SyncDataType {
    ScreenInfo,
    PerformanceSettings,
    ApplicationState,
    Custom(String),
}

/// A system request.
#[derive(Debug, Clone, PartialEq)]
pub enum SystemRequest {
    StatusSync { data_type: SyncDataType, parameters: Vec<Entry> },
    ErrorReport {
        code: String,
        message: String,
        timestamp: u64,
        context: Vec<Entry>,
        stack_trace: Option<String>,
    },
    UpdatePerformanceConfig {
        target_fps: Option<u32>,
        input_delay_compensation: Option<u32>,
        smooth_scroll: Option<bool>,
        custom_params: Vec<Entry>,
    },
    Log { level: String, message: String, timestamp: u64, tags: Vec<String>, metadata: Vec<Entry> },
}

/// A system response.
#[derive(Debug, Clone, PartialEq)]
pub enum SystemResponse {
    StatusSync { status: ResponseStatus, data_type: SyncDataType, data: Option<String> },
    ErrorReport { status: ResponseStatus, suggestion: Option<String>, should_retry: bool },
    UpdatePerformanceConfig { status: ResponseStatus, applied_config: Vec<Entry> },
    Log { status: ResponseStatus, log_id: String },
}

} // verus!
