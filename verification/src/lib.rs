//! An encrypted vault of secret records behind one master password.
pub mod codec;
pub mod crypto;
pub mod error;
pub mod input;
pub mod json;
pub mod layout;
pub mod models;
pub mod phc;
pub mod text;
pub mod vault;
