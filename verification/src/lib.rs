pub mod api;
pub mod app;
pub mod codec;
pub mod composer;
pub mod conversation;
pub mod editor;
pub mod input;
pub mod model;
pub mod paste;
pub mod sort;
pub mod text;
