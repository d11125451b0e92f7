//! The `[RESERVOIRS]` section: nodes with a fixed hydraulic head.

use crate::number::number_field;
use crate::sections::sectionable::opt_field;
use crate::sections::sectionable::opt_property;
use crate::sections::sectionable::number_property;
use crate::sections::sectionable::SectionError;
use crate::sections::sectionable::Sectionable;
use vstd::prelude::*;
use vstd::string::StringExecFns;

verus! {

/// A reservoir: an id, a numeric head, and an optional head pattern.
#[derive(Debug, PartialEq)]
pub struct Reservoir {
    pub id: String,
    pub head: String,
    pub pattern: Option<String>,
    pub comment: Option<String>,
}

/// The mathematical content of a [`Reservoir`].
#[verifier::ext_equal]
pub struct ReservoirV {
    pub id: Seq<char>,
    pub head: Seq<char>,
    pub pattern: Option<Seq<char>>,
    pub comment: Option<Seq<char>>,
}

impl View for Reservoir {
    type V = ReservoirV;

    open spec fn view(&self) -> ReservoirV {
        ReservoirV {
            id: self.id@,
            head: self.head@,
            pattern: self.pattern.deep_view(),
            comment: self.comment.deep_view(),
        }
    }
}

impl DeepView for Reservoir {
    type V = ReservoirV;

    open spec fn deep_view(&self) -> ReservoirV {
        self.view()
    }
}

/// Decoding a reservoir line: it needs at least an id and a numeric head; a
/// third property names the head pattern.
pub open spec fn reservoir_decode(props: Seq<Seq<char>>, comment: Option<Seq<char>>) -> Result<
    ReservoirV,
    Seq<char>,
> {
    if props.len() < 2 {
        Err("Not enough properties to create RESERVOIR section"@)
    } else {
        match number_field(props[1]) {
            Err(m) => Err(m),
            Ok(head) => Ok(
                ReservoirV {
                    id: props[0],
                    head,
                    pattern: opt_field(props, 2),
                    comment,
                },
            ),
        }
    }
}

impl Sectionable for Reservoir {
    type SelfType = Reservoir;

    open spec fn decode_spec(props: Seq<Seq<char>>, comment: Option<Seq<char>>) -> Result<
        ReservoirV,
        Seq<char>,
    > {
        reservoir_decode(props, comment)
    }

    fn from_section(properties: Vec<&str>, comment: Option<String>) -> (r: Result<
        Reservoir,
        SectionError,
    >) {
        if properties.len() < 2 {
            return Err(
                SectionError {
                    message: String::from_str("Not enough properties to create RESERVOIR section"),
                },
            );
        }
        let head = match number_property(properties[1]) {
            Err(e) => return Err(e),
            Ok(h) => h,
        };
        let id = properties[0].to_owned();
        let pattern = opt_property(&properties, 2);
        Ok(Reservoir { id, head, pattern, comment })
    }
}

} // verus!
