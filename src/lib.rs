pub mod device;
pub mod info;
pub mod lifecycle;
pub mod status;
