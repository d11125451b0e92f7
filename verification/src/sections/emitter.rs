//! The `[EMITTERS]` section: junctions that discharge through a nozzle.

use crate::sections::sectionable::number_field_or_blank;
use crate::sections::sectionable::number_property_at;
use crate::sections::sectionable::text_field_or;
use crate::sections::sectionable::text_property_or;
use crate::sections::sectionable::SectionError;
use crate::sections::sectionable::Sectionable;
use vstd::prelude::*;

verus! {

/// An emitter: a junction id and a numeric flow coefficient.
#[derive(Debug, PartialEq)]
pub struct Emitter {
    pub junction_id: String,
    pub flow_coefficient: String,
    pub comment: Option<String>,
}

/// The mathematical content of an [`Emitter`].
#[verifier::ext_equal]
pub struct EmitterV {
    pub junction_id: Seq<char>,
    pub flow_coefficient: Seq<char>,
    pub comment: Option<Seq<char>>,
}

impl View for Emitter {
    type V = EmitterV;

    open spec fn view(&self) -> EmitterV {
        EmitterV {
            junction_id: self.junction_id@,
            flow_coefficient: self.flow_coefficient@,
            comment: self.comment.deep_view(),
        }
    }
}

impl DeepView for Emitter {
    type V = EmitterV;

    open spec fn deep_view(&self) -> EmitterV {
        self.view()
    }
}

/// Decoding an emitter line: a junction id, then a numeric flow
/// coefficient, read as blank (and so rejected) when missing.
pub open spec fn emitter_decode(props: Seq<Seq<char>>, comment: Option<Seq<char>>) -> Result<
    EmitterV,
    Seq<char>,
> {
    match number_field_or_blank(props, 1) {
        Err(m) => Err(m),
        Ok(flow_coefficient) => Ok(
            EmitterV { junction_id: text_field_or(props, 0, ""@), flow_coefficient, comment },
        ),
    }
}

impl Sectionable for Emitter {
    type SelfType = Emitter;

    open spec fn decode_spec(props: Seq<Seq<char>>, comment: Option<Seq<char>>) -> Result<
        EmitterV,
        Seq<char>,
    > {
        emitter_decode(props, comment)
    }

    fn from_section(properties: Vec<&str>, comment: Option<String>) -> (r: Result<
        Emitter,
        SectionError,
    >) {
        let flow_coefficient = match number_property_at(&properties, 1) {
            Err(e) => return Err(e),
            Ok(v) => v,
        };
        let junction_id = text_property_or(&properties, 0, "");
        Ok(Emitter { junction_id, flow_coefficient, comment })
    }
}

} // verus!
