//! The `[QUALITY]` section: initial water quality at a node.

use crate::number::number_field;
use crate::sections::sectionable::number_property;
use crate::sections::sectionable::SectionError;
use crate::sections::sectionable::Sectionable;
use vstd::prelude::*;
use vstd::string::StringExecFns;

verus! {

/// An initial quality value: a node id and a numeric quality.
#[derive(Debug, PartialEq)]
pub struct Quality {
    pub nodeid: String,
    pub initqual: String,
    pub comment: Option<String>,
}

/// The mathematical content of a [`Quality`].
#[verifier::ext_equal]
pub struct QualityV {
    pub nodeid: Seq<char>,
    pub initqual: Seq<char>,
    pub comment: Option<Seq<char>>,
}

impl View for Quality {
    type V = QualityV;

    open spec fn view(&self) -> QualityV {
        QualityV { nodeid: self.nodeid@, initqual: self.initqual@, comment: self.comment.deep_view() }
    }
}

impl DeepView for Quality {
    type V = QualityV;

    open spec fn deep_view(&self) -> QualityV {
        self.view()
    }
}

/// Decoding a quality line: it needs a node id and a numeric initial
/// quality.
pub open spec fn quality_decode(props: Seq<Seq<char>>, comment: Option<Seq<char>>) -> Result<
    QualityV,
    Seq<char>,
> {
    if props.len() < 2 {
        Err("Quality section must have at least 2 parameter; nodeid and initqual"@)
    } else {
        match number_field(props[1]) {
            Err(m) => Err(m),
            Ok(initqual) => Ok(QualityV { nodeid: props[0], initqual, comment }),
        }
    }
}

impl Sectionable for Quality {
    type SelfType = Quality;

    open spec fn decode_spec(props: Seq<Seq<char>>, comment: Option<Seq<char>>) -> Result<
        QualityV,
        Seq<char>,
    > {
        quality_decode(props, comment)
    }

    fn from_section(properties: Vec<&str>, comment: Option<String>) -> (r: Result<
        Quality,
        SectionError,
    >) {
        if properties.len() < 2 {
            return Err(
                SectionError {
                    message: String::from_str(
                        "Quality section must have at least 2 parameter; nodeid and initqual",
                    ),
                },
            );
        }
        let initqual = match number_property(properties[1]) {
            Err(e) => return Err(e),
            Ok(v) => v,
        };
        let nodeid = properties[0].to_owned();
        Ok(Quality { nodeid, initqual, comment })
    }
}

} // verus!
