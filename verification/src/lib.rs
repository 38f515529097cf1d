pub mod address;
pub mod app;
pub mod effect;
pub mod email;
pub mod field;
pub mod form;
pub mod form_handler;
pub mod laws;
pub mod text;
pub mod validate;
