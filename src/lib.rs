pub mod app;
pub mod laws;
pub mod painter;
pub mod store;
pub mod task;
pub mod text;
pub mod utils;
