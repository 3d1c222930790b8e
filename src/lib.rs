pub mod app;
pub mod codec;
pub mod text;
pub mod view;
