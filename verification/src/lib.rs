//! A decoder for the Radio Data System (RDS/RBDS), the side channel on which FM stations
//! send their name, their programme type and short texts.
//!
//! [`decoder::Decoder`] is the stateful decoder. It takes the groups of one station as
//! they come off the air, four 16-bit blocks each, any of them missing where error
//! correction gave up, and keeps what the groups have told so far: the programme
//! identifier, the programme type and the traffic programme flag, each by majority vote
//! over the last groups, the programme service name, and the RadioText with its RadioText+
//! tags. Every call hands out a snapshot of what is confirmed. Nothing allocates.
//!
//! [`stateless`] decodes one group at a time and keeps nothing.
//!
//! The crate is verified with Verus. Each function states what it returns and how it
//! changes its state, over a mathematical model of that state, and the laws that connect
//! the functions are proved beside them. The calls into `heapless`, whose collections hold
//! the texts and the registry of Open Data Applications, are the only code taken on trust;
//! they are in [`text`] and in [`decoder::oda_identifier`].
pub mod bits;
pub mod decoder;
pub mod error;
pub mod stateless;
pub mod text;
pub mod types;

pub use decoder::Decoder;
pub use error::Error;
pub use stateless::decode::from_blocks;
pub use types::{
    Block1, Block2, Block3, Block4, Message, Metadata, ProgrammeIdentifier, ProgrammeType,
    RadioText, RadioTextPlusContentType, RadioTextPlusTag, TrafficProgram,
};
