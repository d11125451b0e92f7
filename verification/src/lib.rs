//! A parser for EPANET-style `.INP` water-distribution-network documents.
//!
//! An INP document is a line-oriented text format: `[SECTION]` headers open
//! named sections, data lines under a known section describe one network
//! element each (junctions, reservoirs, tanks, pipes, pumps, valves,
//! emitters, water-quality sources, initial quality values), `;` introduces
//! comments, and blank lines are ignored. The document reader walks the
//! lines once, decodes each data line under the active section, and collects
//! either the decoded element or a line-scoped error, so that a single
//! malformed line never aborts the rest of the parse.

pub mod inp;
pub mod laws;
pub mod number;
pub mod sections;
pub mod text;

pub use inp::INP;
pub use sections::{
    Emitter, Error, JUNCTION, Pipe, Pump, Quality, Reservoir, SectionError, Sectionable, Source,
    TANK, Unknown, Valve, ValveType,
};
