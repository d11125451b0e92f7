//! The `[TANKS]` section: storage nodes with levels and a volume.

use crate::number::ci;
use crate::sections::sectionable::number_field_or_blank;
use crate::sections::sectionable::number_property_at;
use crate::sections::sectionable::opt_field;
use crate::sections::sectionable::opt_property;
use crate::sections::sectionable::text_field_or;
use crate::sections::sectionable::text_property_or;
use crate::sections::sectionable::SectionError;
use crate::sections::sectionable::Sectionable;
use vstd::prelude::*;
use vstd::string::StrSliceExecFns;

verus! {

/// A tank: an id, six numeric properties, and optionally a volume curve and
/// an overflow flag.
#[derive(Debug, PartialEq)]
#[allow(non_camel_case_types)]
pub struct TANK {
    pub id: String,
    pub elevation: String,
    pub init_level: String,
    pub min_level: String,
    pub max_level: String,
    pub diameter: String,
    pub min_volume: String,
    pub volume_curve_id: Option<String>,
    pub overflow: bool,
    pub comment: Option<String>,
}

/// The mathematical content of a [`TANK`].
#[verifier::ext_equal]
pub struct TankV {
    pub id: Seq<char>,
    pub elevation: Seq<char>,
    pub init_level: Seq<char>,
    pub min_level: Seq<char>,
    pub max_level: Seq<char>,
    pub diameter: Seq<char>,
    pub min_volume: Seq<char>,
    pub volume_curve_id: Option<Seq<char>>,
    pub overflow: bool,
    pub comment: Option<Seq<char>>,
}

impl View for TANK {
    type V = TankV;

    open spec fn view(&self) -> TankV {
        TankV {
            id: self.id@,
            elevation: self.elevation@,
            init_level: self.init_level@,
            min_level: self.min_level@,
            max_level: self.max_level@,
            diameter: self.diameter@,
            min_volume: self.min_volume@,
            volume_curve_id: self.volume_curve_id.deep_view(),
            overflow: self.overflow,
            comment: self.comment.deep_view(),
        }
    }
}

impl DeepView for TANK {
    type V = TankV;

    open spec fn deep_view(&self) -> TankV {
        self.view()
    }
}

/// The overflow flag: the ninth property, case-insensitively `yes`.
pub open spec fn is_yes_token(s: Seq<char>) -> bool {
    s.len() == 3 && ci(s[0], 'y', 'Y') && ci(s[1], 'e', 'E') && ci(s[2], 's', 'S')
}

/// Whether a token case-insensitively spells `yes`.
pub fn is_yes(tok: &str) -> (r: bool)
    ensures
        r == is_yes_token(tok@),
{
    if tok.unicode_len() != 3 {
        return false;
    }
    let c0 = tok.get_char(0);
    let c1 = tok.get_char(1);
    let c2 = tok.get_char(2);
    (c0 == 'y' || c0 == 'Y') && (c1 == 'e' || c1 == 'E') && (c2 == 's' || c2 == 'S')
}

/// Decoding a tank line: six numeric properties follow the id, each read as
/// blank (and so rejected) when missing; an eighth property names a volume
/// curve and a ninth turns the overflow flag on when it spells `yes`.
pub open spec fn tank_decode(props: Seq<Seq<char>>, comment: Option<Seq<char>>) -> Result<
    TankV,
    Seq<char>,
> {
    match number_field_or_blank(props, 1) {
        Err(m) => Err(m),
        Ok(elevation) => match number_field_or_blank(props, 2) {
            Err(m) => Err(m),
            Ok(init_level) => match number_field_or_blank(props, 3) {
                Err(m) => Err(m),
                Ok(min_level) => match number_field_or_blank(props, 4) {
                    Err(m) => Err(m),
                    Ok(max_level) => match number_field_or_blank(props, 5) {
                        Err(m) => Err(m),
                        Ok(diameter) => match number_field_or_blank(props, 6) {
                            Err(m) => Err(m),
                            Ok(min_volume) => Ok(
                                TankV {
                                    id: text_field_or(props, 0, ""@),
                                    elevation,
                                    init_level,
                                    min_level,
                                    max_level,
                                    diameter,
                                    min_volume,
                                    volume_curve_id: opt_field(props, 7),
                                    overflow: props.len() > 8 && is_yes_token(props[8]),
                                    comment,
                                },
                            ),
                        },
                    },
                },
            },
        },
    }
}

impl Sectionable for TANK {
    type SelfType = TANK;

    open spec fn decode_spec(props: Seq<Seq<char>>, comment: Option<Seq<char>>) -> Result<
        TankV,
        Seq<char>,
    > {
        tank_decode(props, comment)
    }

    fn from_section(properties: Vec<&str>, comment: Option<String>) -> (r: Result<
        TANK,
        SectionError,
    >) {
        let elevation = match number_property_at(&properties, 1) {
            Err(e) => return Err(e),
            Ok(v) => v,
        };
        let init_level = match number_property_at(&properties, 2) {
            Err(e) => return Err(e),
            Ok(v) => v,
        };
        let min_level = match number_property_at(&properties, 3) {
            Err(e) => return Err(e),
            Ok(v) => v,
        };
        let max_level = match number_property_at(&properties, 4) {
            Err(e) => return Err(e),
            Ok(v) => v,
        };
        let diameter = match number_property_at(&properties, 5) {
            Err(e) => return Err(e),
            Ok(v) => v,
        };
        let min_volume = match number_property_at(&properties, 6) {
            Err(e) => return Err(e),
            Ok(v) => v,
        };
        let id = text_property_or(&properties, 0, "");
        let volume_curve_id = opt_property(&properties, 7);
        let overflow = properties.len() > 8 && is_yes(properties[8]);
        Ok(
            TANK {
                id,
                elevation,
                init_level,
                min_level,
                max_level,
                diameter,
                min_volume,
                volume_curve_id,
                overflow,
                comment,
            },
        )
    }
}

} // verus!
