pub mod words;
pub mod util;
pub mod utils;
pub mod messaging;
pub mod window;
pub mod vulkan;
pub mod ookami;
