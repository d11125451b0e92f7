//! The `[PIPES]` section: links between two nodes.

use crate::number::number_field;
use crate::sections::sectionable::number_property;
use crate::sections::sectionable::text_field_or;
use crate::sections::sectionable::text_property_or;
use crate::sections::sectionable::SectionError;
use crate::sections::sectionable::Sectionable;
use vstd::prelude::*;
use vstd::string::StringExecFns;

verus! {

/// A pipe: its end nodes, numeric length, diameter and roughness, and the
/// defaulted minor loss and status.
#[derive(Debug, PartialEq)]
pub struct Pipe {
    pub id: String,
    pub node1: String,
    pub node2: String,
    pub length: String,
    pub diameter: String,
    pub roughness: String,
    pub minor_loss: String,
    pub status: String,
    pub comment: Option<String>,
}

/// The mathematical content of a [`Pipe`].
#[verifier::ext_equal]
pub struct PipeV {
    pub id: Seq<char>,
    pub node1: Seq<char>,
    pub node2: Seq<char>,
    pub length: Seq<char>,
    pub diameter: Seq<char>,
    pub roughness: Seq<char>,
    pub minor_loss: Seq<char>,
    pub status: Seq<char>,
    pub comment: Option<Seq<char>>,
}

impl View for Pipe {
    type V = PipeV;

    open spec fn view(&self) -> PipeV {
        PipeV {
            id: self.id@,
            node1: self.node1@,
            node2: self.node2@,
            length: self.length@,
            diameter: self.diameter@,
            roughness: self.roughness@,
            minor_loss: self.minor_loss@,
            status: self.status@,
            comment: self.comment.deep_view(),
        }
    }
}

impl DeepView for Pipe {
    type V = PipeV;

    open spec fn deep_view(&self) -> PipeV {
        self.view()
    }
}

/// Decoding a pipe line: it needs an id, two nodes and three numeric
/// properties; the minor loss defaults to `0.0` and the status to `OPEN`.
pub open spec fn pipe_decode(props: Seq<Seq<char>>, comment: Option<Seq<char>>) -> Result<
    PipeV,
    Seq<char>,
> {
    if props.len() < 6 {
        Err("Not enough properties to create PIPE section"@)
    } else {
        match number_field(props[3]) {
            Err(m) => Err(m),
            Ok(length) => match number_field(props[4]) {
                Err(m) => Err(m),
                Ok(diameter) => match number_field(props[5]) {
                    Err(m) => Err(m),
                    Ok(roughness) => match number_field(text_field_or(props, 6, "0.0"@)) {
                        Err(m) => Err(m),
                        Ok(minor_loss) => Ok(
                            PipeV {
                                id: props[0],
                                node1: props[1],
                                node2: props[2],
                                length,
                                diameter,
                                roughness,
                                minor_loss,
                                status: text_field_or(props, 7, "OPEN"@),
                                comment,
                            },
                        ),
                    },
                },
            },
        }
    }
}

impl Sectionable for Pipe {
    type SelfType = Pipe;

    open spec fn decode_spec(props: Seq<Seq<char>>, comment: Option<Seq<char>>) -> Result<
        PipeV,
        Seq<char>,
    > {
        pipe_decode(props, comment)
    }

    fn from_section(properties: Vec<&str>, comment: Option<String>) -> (r: Result<
        Pipe,
        SectionError,
    >) {
        if properties.len() < 6 {
            return Err(
                SectionError {
                    message: String::from_str("Not enough properties to create PIPE section"),
                },
            );
        }
        let length = match number_property(properties[3]) {
            Err(e) => return Err(e),
            Ok(v) => v,
        };
        let diameter = match number_property(properties[4]) {
            Err(e) => return Err(e),
            Ok(v) => v,
        };
        let roughness = match number_property(properties[5]) {
            Err(e) => return Err(e),
            Ok(v) => v,
        };
        let minor_tok: &str = if properties.len() > 6 {
            properties[6]
        } else {
            "0.0"
        };
        let minor_loss = match number_property(minor_tok) {
            Err(e) => return Err(e),
            Ok(v) => v,
        };
        let id = properties[0].to_owned();
        let node1 = properties[1].to_owned();
        let node2 = properties[2].to_owned();
        let status = text_property_or(&properties, 7, "OPEN");
        Ok(Pipe { id, node1, node2, length, diameter, roughness, minor_loss, status, comment })
    }
}

} // verus!
