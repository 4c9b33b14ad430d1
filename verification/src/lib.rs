//! Bindings for libopus whose logic is verified: the arguments handed to each
//! libopus entry point and the handling of every value it returns.
//!
//! The calls themselves are made by the caller, through the closures that the
//! functions of this crate take; each closure is named after, and stands for,
//! one libopus function. The types that own a libopus state are generic over
//! the handle `H` of that state.

pub mod codec;
pub mod decoder;
pub mod defines;
pub mod encoder;
pub mod error;
pub mod packet;
pub mod repacketizer;

pub use codec::{Application, Bandwidth, Bitrate, Channels};
pub use decoder::Decoder;
pub use encoder::Encoder;
pub use error::{Error, ErrorCode, Result};
pub use repacketizer::{Repacketizer, RepacketizerState};
