//! Client side of a line-oriented serial control protocol for an audio
//! receiver: typed device attributes that validate values before anything
//! reaches the wire, build `GET`/`SET` request lines and read the replies.
pub mod binding;
pub mod bool_instruction;
pub mod decimal;
pub mod error;
pub mod instruction;
pub mod int_instruction;
pub mod laws;
pub mod string_instruction;
pub mod text;
pub mod transport;
