pub mod boundary;
pub mod frame;
pub mod registry;
pub mod resolver;
pub mod result_code;
pub mod video_device;
pub mod video_format;
