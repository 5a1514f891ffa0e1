//! The configuration snapshot taken at start-up. It is never mutated; each
//! component receives its own copy of the section it reads.

use vstd::prelude::*;
use crate::binary32::Binary32;

verus! {

/// General settings of the device.
#[derive(Debug, Clone)]
pub struct SystemConfig {
    pub name: String,
    pub version: String,
    pub log_level: String,
    pub max_threads: usize,
}

/// Settings of the camera and of the detection worker.
#[derive(Debug, Clone)]
pub struct CameraConfig {
    pub width: u32,
    pub height: u32,
    pub model: String,
    /// Detections with a confidence below this are discarded.
    pub detection_threshold: Binary32,
    /// Seconds to wait for the worker's answer to one request.
    pub inference_timeout: u64,
    pub frame_skip: u32,
    pub preview_size: Vec<u32>,
}

/// Settings of the speech worker.
#[derive(Debug, Clone)]
pub struct TtsConfig {
    pub model_path: String,
    pub sample_rate: u32,
    pub buffer_size: usize,
    /// Longest phrase handed to the speech worker, in bytes of UTF-8.
    pub max_phrase_length: usize,
    pub priority_phrases: Vec<String>,
}

/// Settings of the wireless audio link.
#[derive(Debug, Clone)]
pub struct BluetoothConfig {
    pub enabled: bool,
    pub device_name: String,
}

/// Settings of battery monitoring. Voltages are in millivolts, intervals in
/// seconds.
#[derive(Debug, Clone, Copy, PartialEq, Eq, Structural)]
pub struct PowerConfig {
    pub enabled: bool,
    pub i2c_bus: u8,
    pub i2c_address: u16,
    /// Below this voltage the device announces a critical alert and stops.
    pub shutdown_voltage: u32,
    /// Below this voltage the device warns about a low battery.
    pub warning_voltage: u32,
    /// Voltage of a full battery.
    pub full_voltage: u32,
    pub check_interval: u64,
    pub auto_shutdown: bool,
    pub warning_repeat_interval: u64,
}

/// Settings of the detection task. Intervals are in seconds.
#[derive(Debug, Clone)]
pub struct DetectionConfig {
    pub scan_interval: u64,
    pub cooldown_period: u64,
    pub enabled_classes: Vec<String>,
    pub max_detections: usize,
    pub announce_person: bool,
    pub announce_vehicle: bool,
}

/// Settings that trade speed for memory and power.
#[derive(Debug, Clone, Copy, PartialEq, Eq, Structural)]
pub struct OptimizationConfig {
    pub use_swap: bool,
    pub force_gc_interval: u32,
    pub cache_enabled: bool,
    pub low_power_mode: bool,
}

/// The whole configuration.
#[derive(Debug, Clone)]
pub struct Config {
    pub system: SystemConfig,
    pub camera: CameraConfig,
    pub tts: TtsConfig,
    pub bluetooth: BluetoothConfig,
    pub power: PowerConfig,
    pub detection: DetectionConfig,
    pub optimization: OptimizationConfig,
}

} // verus!
