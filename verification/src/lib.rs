//! Lighting logic for the Logitech G560 speaker zones: zone colors, the USB
//! report format, screen-region masks, fades, the controller state machine
//! and the decisions of the capture and writer pipeline.

pub mod api;
pub mod capture;
pub mod color;
pub mod config;
pub mod control;
pub mod engine;
pub mod frame;
pub mod os_release;
pub mod sampling;
pub mod service;
pub mod setup;
pub mod transition;
pub mod usb;

pub use api::{
    validate_manual_updates, ApiError, CaptureBackend, DiagnosticCounters, HealthState,
    LightingMode, ManualZone, ManualZoneUpdate, RgbColor, ServiceSnapshot, ZoneColor, ZoneId,
    API_VERSION, BUS_NAME, INTERFACE_NAME, OBJECT_PATH,
};
pub use color::{Rgb8, Zone, ZoneColors};
