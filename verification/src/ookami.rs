pub mod app;
pub mod builder;
pub mod message;
pub mod render_data;
pub mod time;
pub use crate::words::{hibyte, hiword, lobyte, loword};
