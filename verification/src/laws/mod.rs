//! What holds of the library as a whole, stated over the plain values that go in and come out.

pub mod answers;
pub mod calls;
pub mod checks;
pub mod identity;
pub mod outcomes;
pub mod outputs;
pub mod prompts;
pub mod registration;
pub mod requests;
pub mod rounds;
pub mod submissions;
pub mod texts;
pub mod values;
