pub mod binary32;
pub mod channel;
pub mod image;
pub mod inference;
pub mod settings;
pub mod traces;
pub mod triton_client;
pub mod verify;

pub use image::ImageTensor;
