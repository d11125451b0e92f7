//! The `[JUNCTIONS]` section: nodes where pipes join.

use crate::number::number_field;
use crate::sections::sectionable::number_property;
use crate::sections::sectionable::opt_field;
use crate::sections::sectionable::opt_property;
use crate::sections::sectionable::SectionError;
use crate::sections::sectionable::Sectionable;
use vstd::prelude::*;
use vstd::string::StringExecFns;

verus! {

/// A junction: an id, a numeric elevation, and optionally a base demand
/// flow and a demand pattern.
#[derive(Debug, PartialEq)]
#[allow(non_camel_case_types)]
pub struct JUNCTION {
    pub id: String,
    pub elevation: String,
    pub base_demand_flow: Option<String>,
    pub demand_pattern_id: Option<String>,
    pub comment: Option<String>,
}

/// The mathematical content of a [`JUNCTION`].
#[verifier::ext_equal]
pub struct JunctionV {
    pub id: Seq<char>,
    pub elevation: Seq<char>,
    pub base_demand_flow: Option<Seq<char>>,
    pub demand_pattern_id: Option<Seq<char>>,
    pub comment: Option<Seq<char>>,
}

impl View for JUNCTION {
    type V = JunctionV;

    open spec fn view(&self) -> JunctionV {
        JunctionV {
            id: self.id@,
            elevation: self.elevation@,
            base_demand_flow: self.base_demand_flow.deep_view(),
            demand_pattern_id: self.demand_pattern_id.deep_view(),
            comment: self.comment.deep_view(),
        }
    }
}

impl DeepView for JUNCTION {
    type V = JunctionV;

    open spec fn deep_view(&self) -> JunctionV {
        self.view()
    }
}

/// Decoding a junction line: it needs at least an id and a numeric
/// elevation; a third property is the base demand flow, a fourth the demand
/// pattern.
pub open spec fn junction_decode(props: Seq<Seq<char>>, comment: Option<Seq<char>>) -> Result<
    JunctionV,
    Seq<char>,
> {
    if props.len() < 2 {
        Err("Not enough properties to create JUNCTION section"@)
    } else {
        match number_field(props[1]) {
            Err(m) => Err(m),
            Ok(elevation) => {
                if props.len() > 2 {
                    match number_field(props[2]) {
                        Err(m) => Err(m),
                        Ok(flow) => Ok(
                            JunctionV {
                                id: props[0],
                                elevation,
                                base_demand_flow: Some(flow),
                                demand_pattern_id: opt_field(props, 3),
                                comment,
                            },
                        ),
                    }
                } else {
                    Ok(
                        JunctionV {
                            id: props[0],
                            elevation,
                            base_demand_flow: None,
                            demand_pattern_id: opt_field(props, 3),
                            comment,
                        },
                    )
                }
            },
        }
    }
}

impl Sectionable for JUNCTION {
    type SelfType = JUNCTION;

    open spec fn decode_spec(props: Seq<Seq<char>>, comment: Option<Seq<char>>) -> Result<
        JunctionV,
        Seq<char>,
    > {
        junction_decode(props, comment)
    }

    fn from_section(properties: Vec<&str>, comment: Option<String>) -> (r: Result<
        JUNCTION,
        SectionError,
    >) {
        if properties.len() < 2 {
            return Err(
                SectionError {
                    message: String::from_str("Not enough properties to create JUNCTION section"),
                },
            );
        }
        let elevation = match number_property(properties[1]) {
            Err(e) => return Err(e),
            Ok(v) => v,
        };
        let base_demand_flow = if properties.len() > 2 {
            match number_property(properties[2]) {
                Err(e) => return Err(e),
                Ok(v) => Some(v),
            }
        } else {
            None
        };
        let id = properties[0].to_owned();
        let demand_pattern_id = opt_property(&properties, 3);
        Ok(JUNCTION { id, elevation, base_demand_flow, demand_pattern_id, comment })
    }
}

} // verus!
