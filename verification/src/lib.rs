pub mod device;
pub mod error;
pub mod house;
pub mod text;
