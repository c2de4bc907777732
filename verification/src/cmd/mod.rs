pub mod loop_worker;
pub mod openclaw;
pub mod preflight;
pub mod prompt;
pub mod reply;
pub mod result;
pub mod server_error;
pub mod set_persona;
pub mod status;
pub mod step;
pub mod submit;
