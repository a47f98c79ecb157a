pub mod behavior;
pub mod mailbox;
pub mod primitives;
pub mod thread_error;
