//! The section kinds of an INP document and their decoders.

pub mod emitter;
pub mod error;
pub mod junction;
pub mod pipe;
pub mod pump;
pub mod quality;
pub mod reservoir;
pub mod sectionable;
pub mod source;
pub mod tank;
pub mod unknown;
pub mod valve;

pub use emitter::Emitter;
pub use error::Error;
pub use junction::JUNCTION;
pub use pipe::Pipe;
pub use pump::Pump;
pub use quality::Quality;
pub use reservoir::Reservoir;
pub use sectionable::{SectionError, Sectionable};
pub use source::Source;
pub use tank::TANK;
pub use unknown::Unknown;
pub use valve::{Valve, ValveType};
