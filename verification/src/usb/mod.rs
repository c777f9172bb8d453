pub mod device;
pub mod protocol;
