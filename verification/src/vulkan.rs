pub mod builder;
pub mod creation;
pub mod debug;
pub mod deletion_queue;
pub mod device;
pub mod device_builder;
pub mod error;
pub mod instance;
pub mod names;
pub mod pipeline;
pub mod shader;
pub mod shader_cache;
pub mod version;
