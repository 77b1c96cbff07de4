pub mod bridge;
pub mod encoding;
pub mod marshal;
pub mod pixels;
