pub mod app;
pub mod listing;
pub mod message;
pub mod outline;
pub mod paths;
pub mod render;
pub mod session;
pub mod text;
pub mod tree;
pub mod utils;
