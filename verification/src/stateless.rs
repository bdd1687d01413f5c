//! The stateless decoder: one group in, one decoded message out.
//!
//! It keeps nothing between groups, so it is for the application to follow the station
//! from message to message.
pub mod decode;
pub mod error;
pub mod parser;
pub mod types;
