//! The `[PUMPS]` section: links whose behaviour is given by keyword/value
//! pairs.

use crate::number::number_field;
use crate::sections::sectionable::number_property;
use crate::sections::sectionable::text_field_or;
use crate::sections::sectionable::text_property_or;
use crate::sections::sectionable::SectionError;
use crate::sections::sectionable::Sectionable;
use crate::text::str_eq;
use vstd::prelude::*;
use vstd::string::StringExecFns;

verus! {

/// A pump: its end nodes and whatever the `POWER`, `HEAD`, `SPEED` and
/// `PATTERN` keyword pairs supplied.
#[derive(Debug, PartialEq)]
pub struct Pump {
    pub id: String,
    pub start_node: String,
    pub end_node: String,
    pub power: Option<String>,
    pub head: Option<String>,
    pub speed: Option<String>,
    pub pattern: Option<String>,
    pub comment: Option<String>,
}

/// The mathematical content of a [`Pump`].
#[verifier::ext_equal]
pub struct PumpV {
    pub id: Seq<char>,
    pub start_node: Seq<char>,
    pub end_node: Seq<char>,
    pub power: Option<Seq<char>>,
    pub head: Option<Seq<char>>,
    pub speed: Option<Seq<char>>,
    pub pattern: Option<Seq<char>>,
    pub comment: Option<Seq<char>>,
}

impl View for Pump {
    type V = PumpV;

    open spec fn view(&self) -> PumpV {
        PumpV {
            id: self.id@,
            start_node: self.start_node@,
            end_node: self.end_node@,
            power: self.power.deep_view(),
            head: self.head.deep_view(),
            speed: self.speed.deep_view(),
            pattern: self.pattern.deep_view(),
            comment: self.comment.deep_view(),
        }
    }
}

impl DeepView for Pump {
    type V = PumpV;

    open spec fn deep_view(&self) -> PumpV {
        self.view()
    }
}

/// Reading the keyword/value pairs from the fourth property on: `POWER` and
/// `SPEED` take a numeric value, `HEAD` and `PATTERN` take text, a later
/// pair overrides an earlier one, and any other keyword fails the line.
pub open spec fn pump_pairs(
    props: Seq<Seq<char>>,
    i: int,
    power: Option<Seq<char>>,
    head: Option<Seq<char>>,
    speed: Option<Seq<char>>,
    pattern: Option<Seq<char>>,
) -> Result<
    (Option<Seq<char>>, Option<Seq<char>>, Option<Seq<char>>, Option<Seq<char>>),
    Seq<char>,
>
    decreases props.len() + 2 - i,
{
    if i >= props.len() {
        Ok((power, head, speed, pattern))
    } else {
        let val = if props.len() > i + 1 {
            props[i + 1]
        } else {
            Seq::empty()
        };
        if props[i] == "POWER"@ {
            match number_field(val) {
                Err(m) => Err(m),
                Ok(v) => pump_pairs(props, i + 2, Some(v), head, speed, pattern),
            }
        } else if props[i] == "HEAD"@ {
            pump_pairs(props, i + 2, power, Some(val), speed, pattern)
        } else if props[i] == "SPEED"@ {
            match number_field(val) {
                Err(m) => Err(m),
                Ok(v) => pump_pairs(props, i + 2, power, head, Some(v), pattern),
            }
        } else if props[i] == "PATTERN"@ {
            pump_pairs(props, i + 2, power, head, speed, Some(val))
        } else {
            Err("Invalid section"@)
        }
    }
}

/// Decoding a pump line: an id and two nodes, then keyword/value pairs, of
/// which exactly one of `POWER` and `HEAD` must appear — a line that
/// supplies neither, or both, fails.
pub open spec fn pump_decode(props: Seq<Seq<char>>, comment: Option<Seq<char>>) -> Result<
    PumpV,
    Seq<char>,
> {
    match pump_pairs(props, 3, None, None, None, None) {
        Err(m) => Err(m),
        Ok((power, head, speed, pattern)) => {
            if (power is None && head is None) || (power is Some && head is Some) {
                Err("Invalid section"@)
            } else {
                Ok(
                    PumpV {
                        id: text_field_or(props, 0, ""@),
                        start_node: text_field_or(props, 1, ""@),
                        end_node: text_field_or(props, 2, ""@),
                        power,
                        head,
                        speed,
                        pattern,
                        comment,
                    },
                )
            }
        },
    }
}

impl Sectionable for Pump {
    type SelfType = Pump;

    open spec fn decode_spec(props: Seq<Seq<char>>, comment: Option<Seq<char>>) -> Result<
        PumpV,
        Seq<char>,
    > {
        pump_decode(props, comment)
    }

    fn from_section(properties: Vec<&str>, comment: Option<String>) -> (r: Result<
        Pump,
        SectionError,
    >) {
        let id = text_property_or(&properties, 0, "");
        let start_node = text_property_or(&properties, 1, "");
        let end_node = text_property_or(&properties, 2, "");
        let mut power: Option<String> = None;
        let mut head: Option<String> = None;
        let mut speed: Option<String> = None;
        let mut pattern: Option<String> = None;
        let mut i: usize = 3;
        while i < properties.len()
            invariant
                3 <= i,
                pump_pairs(properties.deep_view(), 3, None, None, None, None) == pump_pairs(
                    properties.deep_view(),
                    i as int,
                    power.deep_view(),
                    head.deep_view(),
                    speed.deep_view(),
                    pattern.deep_view(),
                ),
            decreases properties@.len() + 2 - i,
        {
            let kw = properties[i];
            let val: &str = if properties.len() > i + 1 {
                properties[i + 1]
            } else {
                ""
            };
            proof {
                if properties@.len() <= i + 1 {
                    reveal_strlit("");
                    assert(val@ =~= Seq::<char>::empty());
                }
            }
            if str_eq(kw, "POWER") {
                match number_property(val) {
                    Err(e) => return Err(e),
                    Ok(v) => power = Some(v),
                }
            } else if str_eq(kw, "HEAD") {
                head = Some(val.to_owned());
            } else if str_eq(kw, "SPEED") {
                match number_property(val) {
                    Err(e) => return Err(e),
                    Ok(v) => speed = Some(v),
                }
            } else if str_eq(kw, "PATTERN") {
                pattern = Some(val.to_owned());
            } else {
                return Err(SectionError { message: String::from_str("Invalid section") });
            }
            if i + 1 < properties.len() {
                i += 2;
            } else {
                proof {
                    let pv = properties.deep_view();
                    assert(pump_pairs(
                        pv,
                        i + 2,
                        power.deep_view(),
                        head.deep_view(),
                        speed.deep_view(),
                        pattern.deep_view(),
                    ) == pump_pairs(
                        pv,
                        pv.len() as int,
                        power.deep_view(),
                        head.deep_view(),
                        speed.deep_view(),
                        pattern.deep_view(),
                    ));
                }
                i = properties.len();
            }
        }
        if (power.is_none() && head.is_none()) || (power.is_some() && head.is_some()) {
            return Err(SectionError { message: String::from_str("Invalid section") });
        }
        Ok(Pump { id, start_node, end_node, power, head, speed, pattern, comment })
    }
}

} // verus!
