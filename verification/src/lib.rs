//! Decision logic of a battery-powered companion device that watches a camera
//! for objects, monitors its battery and announces what it finds by voice.
//!
//! Every rule of the controller is a function from plain values to plain
//! values with a proved contract. Waiting, spawning worker processes and
//! talking to the bus are left to the caller, which performs the actions the
//! library returns and reports back what happened.

pub mod binary32;
pub mod camera_controller;
pub mod clock;
pub mod config;
pub mod detection_task;
pub mod orchestrator;
pub mod power_monitor;
pub mod power_task;
pub mod system_check;
pub mod text;
pub mod tts_controller;
