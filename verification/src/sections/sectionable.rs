//! The decoding contract shared by every section kind.

use crate::number::is_valid_number;
use crate::number::number_field;
use vstd::prelude::*;
use vstd::string::StrSliceExecFns;
use vstd::string::StringExecFns;

verus! {

/// A decode failure for one data line: only a message, never a partial
/// entity.
#[derive(Debug, PartialEq)]
pub struct SectionError {
    pub message: String,
}

impl View for SectionError {
    type V = Seq<char>;

    open spec fn view(&self) -> Seq<char> {
        self.message@
    }
}

/// One section kind's decoder: a property list and an optional comment go
/// in, a populated entity or a descriptive failure comes out.
pub trait Sectionable: Sized {
    type SelfType: DeepView;

    /// What decoding a property list under this kind yields.
    spec fn decode_spec(props: Seq<Seq<char>>, comment: Option<Seq<char>>) -> Result<
        <Self::SelfType as DeepView>::V,
        Seq<char>,
    >;

    /// Decodes the properties of one data line, or says why the line cannot
    /// be decoded.
    fn from_section(properties: Vec<&str>, comment: Option<String>) -> (r: Result<
        Self::SelfType,
        SectionError,
    >)
        ensures
            match r {
                Ok(e) => Self::decode_spec(properties.deep_view(), comment.deep_view())
                    == Ok::<<Self::SelfType as DeepView>::V, Seq<char>>(e.deep_view()),
                Err(e) => Self::decode_spec(properties.deep_view(), comment.deep_view())
                    == Err::<<Self::SelfType as DeepView>::V, Seq<char>>(e.message@),
            },
    ;
}

/// Checks one numeric property and keeps its text on success.
pub fn number_property(tok: &str) -> (r: Result<String, SectionError>)
    ensures
        match r {
            Ok(v) => number_field(tok@) == Ok::<Seq<char>, Seq<char>>(v@),
            Err(e) => number_field(tok@) == Err::<Seq<char>, Seq<char>>(e.message@),
        },
{
    if is_valid_number(tok) {
        Ok(tok.to_owned())
    } else if tok.unicode_len() == 0 {
        Err(SectionError { message: String::from_str("cannot parse float from empty string") })
    } else {
        Err(SectionError { message: String::from_str("invalid float literal") })
    }
}

/// The decode of a numeric property that falls back to a blank token when
/// the line is too short; a blank token is itself a decode failure.
pub open spec fn number_field_or_blank(props: Seq<Seq<char>>, i: int) -> Result<
    Seq<char>,
    Seq<char>,
> {
    number_field(if props.len() > i {
        props[i]
    } else {
        Seq::empty()
    })
}

/// Checks the numeric property at `i`, reading a missing one as blank.
pub fn number_property_at(properties: &Vec<&str>, i: usize) -> (r: Result<String, SectionError>)
    ensures
        match r {
            Ok(v) => number_field_or_blank(properties.deep_view(), i as int) == Ok::<
                Seq<char>,
                Seq<char>,
            >(v@),
            Err(e) => number_field_or_blank(properties.deep_view(), i as int) == Err::<
                Seq<char>,
                Seq<char>,
            >(e.message@),
        },
{
    let tok: &str = if properties.len() > i {
        properties[i]
    } else {
        ""
    };
    proof {
        if properties.len() <= i {
            reveal_strlit("");
            assert(tok@ =~= Seq::<char>::empty());
        }
    }
    number_property(tok)
}

/// The text of the property at `i`, or the given fallback when the line is
/// too short.
pub open spec fn text_field_or(props: Seq<Seq<char>>, i: int, or: Seq<char>) -> Seq<char> {
    if props.len() > i {
        props[i]
    } else {
        or
    }
}

/// Copies the property at `i`, or the given fallback when the line is too
/// short.
pub fn text_property_or(properties: &Vec<&str>, i: usize, or: &str) -> (r: String)
    ensures
        r@ == text_field_or(properties.deep_view(), i as int, or@),
{
    if properties.len() > i {
        properties[i].to_owned()
    } else {
        or.to_owned()
    }
}

/// The property at `i` as an optional trailing field.
pub open spec fn opt_field(props: Seq<Seq<char>>, i: int) -> Option<Seq<char>> {
    if props.len() > i {
        Some(props[i])
    } else {
        None
    }
}

/// Copies the optional trailing property at `i`.
pub fn opt_property(properties: &Vec<&str>, i: usize) -> (r: Option<String>)
    ensures
        r.deep_view() == opt_field(properties.deep_view(), i as int),
{
    if properties.len() > i {
        Some(properties[i].to_owned())
    } else {
        None
    }
}

} // verus!
