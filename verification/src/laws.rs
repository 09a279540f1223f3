//! What the operations of the library promise, each stated of the values that go
//! into a call and those that come out of it.
pub mod answers;
pub mod client;
pub mod search;
pub mod settings;
pub mod shown;
pub mod sign_in;
pub mod wire;
