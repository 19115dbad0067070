pub mod handlers;
pub mod resize;
pub mod service;
