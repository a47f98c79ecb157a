pub mod builder;
pub mod input;
pub mod message;
pub mod procs;
pub mod state;
pub mod window_loop;
