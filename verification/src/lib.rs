pub mod auth;
pub mod awp_register;
pub mod client;
pub mod cmd;
pub mod crypto;
pub mod double;
pub mod failure;
pub mod json;
pub mod laws;
pub mod output;
pub mod places;
pub mod text;
pub mod time;
