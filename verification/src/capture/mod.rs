pub mod error;
pub mod gamescope;
pub mod gstreamer;
pub mod portal;
pub mod brightness;
