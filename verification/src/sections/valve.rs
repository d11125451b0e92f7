//! The `[VALVES]` section: links whose kind comes from a closed set.

use crate::sections::sectionable::number_field_or_blank;
use crate::sections::sectionable::number_property_at;
use crate::sections::sectionable::text_field_or;
use crate::sections::sectionable::text_property_or;
use crate::sections::sectionable::SectionError;
use crate::sections::sectionable::Sectionable;
use crate::text::str_eq;
use vstd::prelude::*;
use vstd::string::StringExecFns;

verus! {

/// A valve: its end nodes, a numeric diameter, its kind, a numeric setting
/// and a numeric minor-loss coefficient.
#[derive(Debug, PartialEq)]
pub struct Valve {
    pub id: String,
    pub start_node: String,
    pub end_node: String,
    pub diameter: String,
    pub valve_type: ValveType,
    pub valve_setting: String,
    pub minor_loss_coefficient: String,
    pub comment: Option<String>,
}

/// The closed set of valve kinds.
#[derive(Debug, PartialEq, Eq, Structural, Clone, Copy)]
pub enum ValveType {
    Prv,
    Psv,
    Pbv,
    Fcv,
    Tcv,
    Gpv,
}

/// The mathematical content of a [`Valve`].
#[verifier::ext_equal]
pub struct ValveV {
    pub id: Seq<char>,
    pub start_node: Seq<char>,
    pub end_node: Seq<char>,
    pub diameter: Seq<char>,
    pub valve_type: ValveType,
    pub valve_setting: Seq<char>,
    pub minor_loss_coefficient: Seq<char>,
    pub comment: Option<Seq<char>>,
}

impl View for Valve {
    type V = ValveV;

    open spec fn view(&self) -> ValveV {
        ValveV {
            id: self.id@,
            start_node: self.start_node@,
            end_node: self.end_node@,
            diameter: self.diameter@,
            valve_type: self.valve_type,
            valve_setting: self.valve_setting@,
            minor_loss_coefficient: self.minor_loss_coefficient@,
            comment: self.comment.deep_view(),
        }
    }
}

impl DeepView for Valve {
    type V = ValveV;

    open spec fn deep_view(&self) -> ValveV {
        self.view()
    }
}

/// The fifth property read as a valve kind; any other token fails the line.
pub open spec fn valve_type_field(props: Seq<Seq<char>>) -> Result<ValveType, Seq<char>> {
    if props.len() > 4 {
        if props[4] == "PRV"@ {
            Ok(ValveType::Prv)
        } else if props[4] == "PSV"@ {
            Ok(ValveType::Psv)
        } else if props[4] == "PBV"@ {
            Ok(ValveType::Pbv)
        } else if props[4] == "FCV"@ {
            Ok(ValveType::Fcv)
        } else if props[4] == "TCV"@ {
            Ok(ValveType::Tcv)
        } else if props[4] == "GPV"@ {
            Ok(ValveType::Gpv)
        } else {
            Err("Invalid section"@)
        }
    } else {
        Err("Invalid section"@)
    }
}

/// Decoding a valve line: a numeric diameter, a valve kind from the closed
/// set, then a numeric setting and minor-loss coefficient, each read as
/// blank (and so rejected) when missing.
pub open spec fn valve_decode(props: Seq<Seq<char>>, comment: Option<Seq<char>>) -> Result<
    ValveV,
    Seq<char>,
> {
    match number_field_or_blank(props, 3) {
        Err(m) => Err(m),
        Ok(diameter) => match valve_type_field(props) {
            Err(m) => Err(m),
            Ok(valve_type) => match number_field_or_blank(props, 5) {
                Err(m) => Err(m),
                Ok(valve_setting) => match number_field_or_blank(props, 6) {
                    Err(m) => Err(m),
                    Ok(minor_loss_coefficient) => Ok(
                        ValveV {
                            id: text_field_or(props, 0, ""@),
                            start_node: text_field_or(props, 1, ""@),
                            end_node: text_field_or(props, 2, ""@),
                            diameter,
                            valve_type,
                            valve_setting,
                            minor_loss_coefficient,
                            comment,
                        },
                    ),
                },
            },
        },
    }
}

impl Sectionable for Valve {
    type SelfType = Valve;

    open spec fn decode_spec(props: Seq<Seq<char>>, comment: Option<Seq<char>>) -> Result<
        ValveV,
        Seq<char>,
    > {
        valve_decode(props, comment)
    }

    fn from_section(properties: Vec<&str>, comment: Option<String>) -> (r: Result<
        Valve,
        SectionError,
    >) {
        let diameter = match number_property_at(&properties, 3) {
            Err(e) => return Err(e),
            Ok(v) => v,
        };
        let valve_type = if properties.len() > 4 {
            let tok = properties[4];
            if str_eq(tok, "PRV") {
                ValveType::Prv
            } else if str_eq(tok, "PSV") {
                ValveType::Psv
            } else if str_eq(tok, "PBV") {
                ValveType::Pbv
            } else if str_eq(tok, "FCV") {
                ValveType::Fcv
            } else if str_eq(tok, "TCV") {
                ValveType::Tcv
            } else if str_eq(tok, "GPV") {
                ValveType::Gpv
            } else {
                return Err(SectionError { message: String::from_str("Invalid section") });
            }
        } else {
            return Err(SectionError { message: String::from_str("Invalid section") });
        };
        let valve_setting = match number_property_at(&properties, 5) {
            Err(e) => return Err(e),
            Ok(v) => v,
        };
        let minor_loss_coefficient = match number_property_at(&properties, 6) {
            Err(e) => return Err(e),
            Ok(v) => v,
        };
        let id = text_property_or(&properties, 0, "");
        let start_node = text_property_or(&properties, 1, "");
        let end_node = text_property_or(&properties, 2, "");
        Ok(
            Valve {
                id,
                start_node,
                end_node,
                diameter,
                valve_type,
                valve_setting,
                minor_loss_coefficient,
                comment,
            },
        )
    }
}

} // verus!
