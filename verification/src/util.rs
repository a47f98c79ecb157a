pub mod clock;
pub mod log;
pub mod time;
pub mod timer;
