//! The `[SOURCES]` section: water-quality sources at a node.

use crate::number::number_field;
use crate::sections::sectionable::number_property;
use crate::sections::sectionable::opt_field;
use crate::sections::sectionable::opt_property;
use crate::sections::sectionable::SectionError;
use crate::sections::sectionable::Sectionable;
use vstd::prelude::*;
use vstd::string::StringExecFns;

verus! {

/// A quality source: a node, a source type, a numeric strength, and
/// optionally a pattern.
#[derive(Debug, PartialEq)]
pub struct Source {
    pub node: String,
    pub source_type: String,
    pub strength: String,
    pub pattern: Option<String>,
    pub comment: Option<String>,
}

/// The mathematical content of a [`Source`].
#[verifier::ext_equal]
pub struct SourceV {
    pub node: Seq<char>,
    pub source_type: Seq<char>,
    pub strength: Seq<char>,
    pub pattern: Option<Seq<char>>,
    pub comment: Option<Seq<char>>,
}

impl View for Source {
    type V = SourceV;

    open spec fn view(&self) -> SourceV {
        SourceV {
            node: self.node@,
            source_type: self.source_type@,
            strength: self.strength@,
            pattern: self.pattern.deep_view(),
            comment: self.comment.deep_view(),
        }
    }
}

impl DeepView for Source {
    type V = SourceV;

    open spec fn deep_view(&self) -> SourceV {
        self.view()
    }
}

/// Decoding a source line: it needs a node, a source type and a numeric
/// strength; a fourth property names a pattern.
pub open spec fn source_decode(props: Seq<Seq<char>>, comment: Option<Seq<char>>) -> Result<
    SourceV,
    Seq<char>,
> {
    if props.len() < 3 {
        Err("Not enough properties to create SOURCE section"@)
    } else {
        match number_field(props[2]) {
            Err(m) => Err(m),
            Ok(strength) => Ok(
                SourceV {
                    node: props[0],
                    source_type: props[1],
                    strength,
                    pattern: opt_field(props, 3),
                    comment,
                },
            ),
        }
    }
}

impl Sectionable for Source {
    type SelfType = Source;

    open spec fn decode_spec(props: Seq<Seq<char>>, comment: Option<Seq<char>>) -> Result<
        SourceV,
        Seq<char>,
    > {
        source_decode(props, comment)
    }

    fn from_section(properties: Vec<&str>, comment: Option<String>) -> (r: Result<
        Source,
        SectionError,
    >) {
        if properties.len() < 3 {
            return Err(
                SectionError {
                    message: String::from_str("Not enough properties to create SOURCE section"),
                },
            );
        }
        let strength = match number_property(properties[2]) {
            Err(e) => return Err(e),
            Ok(v) => v,
        };
        let node = properties[0].to_owned();
        let source_type = properties[1].to_owned();
        let pattern = opt_property(&properties, 3);
        Ok(Source { node, source_type, strength, pattern, comment })
    }
}

} // verus!
