//! The document reader: one pass over the lines of an INP document,
//! tracking the active section and filling the per-kind collections.

use crate::sections::emitter::emitter_decode;
use crate::sections::emitter::Emitter;
use crate::sections::emitter::EmitterV;
use crate::sections::error::Error;
use crate::sections::error::ErrorV;
use crate::sections::junction::junction_decode;
use crate::sections::junction::JunctionV;
use crate::sections::junction::JUNCTION;
use crate::sections::pipe::pipe_decode;
use crate::sections::pipe::Pipe;
use crate::sections::pipe::PipeV;
use crate::sections::pump::pump_decode;
use crate::sections::pump::Pump;
use crate::sections::pump::PumpV;
use crate::sections::quality::quality_decode;
use crate::sections::quality::Quality;
use crate::sections::quality::QualityV;
use crate::sections::reservoir::reservoir_decode;
use crate::sections::reservoir::Reservoir;
use crate::sections::reservoir::ReservoirV;
use crate::sections::sectionable::SectionError;
use crate::sections::sectionable::Sectionable;
use crate::sections::source::source_decode;
use crate::sections::source::Source;
use crate::sections::source::SourceV;
use crate::sections::tank::tank_decode;
use crate::sections::tank::TankV;
use crate::sections::tank::TANK;
use crate::sections::unknown::Unknown;
use crate::sections::valve::valve_decode;
use crate::sections::valve::Valve;
use crate::sections::valve::ValveV;
use crate::text::find_at;
use crate::text::find_from;
use crate::text::lemma_lines_from_count;
use crate::text::lines_of;
use crate::text::split_lines;
use crate::text::str_eq;
use crate::text::substring_string;
use crate::text::tokenize;
use crate::text::tokens_of;
use crate::text::trim;
use crate::text::trim_spec;
use vstd::prelude::*;
use vstd::string::StrSliceExecFns;
use vstd::string::StringExecFns;

verus! {

// ---------------------------------------------------------------------------
// The document
// ---------------------------------------------------------------------------

/// A parsed INP document: a title, one ordered collection per entity kind,
/// the lines kept verbatim, and the line-scoped errors.
#[derive(Debug, PartialEq)]
pub struct INP {
    pub title: String,
    pub junctions: Vec<JUNCTION>,
    pub reservoirs: Vec<Reservoir>,
    pub tanks: Vec<TANK>,
    pub pipes: Vec<Pipe>,
    pub pumps: Vec<Pump>,
    pub valves: Vec<Valve>,
    pub emitters: Vec<Emitter>,
    pub quality: Vec<Quality>,
    pub sources: Vec<Source>,
    pub unknown_sections: Vec<Unknown>,
    pub errors: Vec<Error>,
}

/// The mathematical content of an [`INP`] document.
#[verifier::ext_equal]
pub struct InpView {
    pub title: Seq<char>,
    pub junctions: Seq<JunctionV>,
    pub reservoirs: Seq<ReservoirV>,
    pub tanks: Seq<TankV>,
    pub pipes: Seq<PipeV>,
    pub pumps: Seq<PumpV>,
    pub valves: Seq<ValveV>,
    pub emitters: Seq<EmitterV>,
    pub quality: Seq<QualityV>,
    pub sources: Seq<SourceV>,
    pub unknown_sections: Seq<Seq<char>>,
    pub errors: Seq<ErrorV>,
}

impl View for INP {
    type V = InpView;

    open spec fn view(&self) -> InpView {
        InpView {
            title: self.title@,
            junctions: self.junctions.deep_view(),
            reservoirs: self.reservoirs.deep_view(),
            tanks: self.tanks.deep_view(),
            pipes: self.pipes.deep_view(),
            pumps: self.pumps.deep_view(),
            valves: self.valves.deep_view(),
            emitters: self.emitters.deep_view(),
            quality: self.quality.deep_view(),
            sources: self.sources.deep_view(),
            unknown_sections: self.unknown_sections.deep_view(),
            errors: self.errors.deep_view(),
        }
    }
}

/// A document with nothing in it yet.
pub open spec fn empty_inp() -> InpView {
    InpView {
        title: Seq::empty(),
        junctions: Seq::empty(),
        reservoirs: Seq::empty(),
        tanks: Seq::empty(),
        pipes: Seq::empty(),
        pumps: Seq::empty(),
        valves: Seq::empty(),
        emitters: Seq::empty(),
        quality: Seq::empty(),
        sources: Seq::empty(),
        unknown_sections: Seq::empty(),
        errors: Seq::empty(),
    }
}

/// One raw line with its 1-based position in the document.
pub struct LineData {
    pub content: String,
    pub number: i32,
}

// ---------------------------------------------------------------------------
// The property splitter
// ---------------------------------------------------------------------------

/// Where the comment of a line starts: at its first `;`, or past its end.
pub open spec fn semi_at(line: Seq<char>) -> int {
    find_at(line, ';', 0)
}

/// The property tokens of a line: what stands before the comment, split on
/// runs of white space.
pub open spec fn line_tokens(line: Seq<char>) -> Seq<Seq<char>> {
    tokens_of(line.subrange(0, semi_at(line)))
}

/// The comment of a line: everything after the first `;`, verbatim, or
/// nothing on a line without `;`.
pub open spec fn comment_of(line: Seq<char>) -> Option<Seq<char>> {
    if semi_at(line) == line.len() {
        None
    } else {
        Some(line.subrange(semi_at(line) + 1, line.len() as int))
    }
}

/// Splits a raw line into its property tokens and its comment. This cannot
/// fail: a blank line simply has no tokens.
pub fn get_properties_and_comment<'a>(line: &'a str) -> (r: (Vec<&'a str>, Option<String>))
    ensures
        r.0.deep_view() == line_tokens(line@),
        r.1.deep_view() == comment_of(line@),
{
    let n = line.unicode_len();
    let semi = find_from(line, ';', 0);
    let props = line.substring_char(0, semi);
    let tokens = tokenize(props);
    let comment = if semi == n {
        None
    } else {
        Some(substring_string(line, semi + 1, n))
    };
    (tokens, comment)
}

// ---------------------------------------------------------------------------
// The section header reader
// ---------------------------------------------------------------------------

/// The name between a header's brackets, or nothing when the closing
/// bracket is missing before the line ends.
pub open spec fn header_name(t: Seq<char>) -> Option<Seq<char>> {
    let k = find_at(t, ']', 1);
    if k == t.len() {
        None
    } else {
        Some(t.subrange(1, k))
    }
}

/// Reads a section header: the text after `[` up to the first `]`, verbatim.
/// A header whose closing bracket is missing yields nothing, and the
/// document reader records a line error for it instead of giving up.
pub fn read_section(line: &str) -> (r: Option<String>)
    ensures
        r.deep_view() == header_name(line@),
{
    let n = line.unicode_len();
    if n == 0 {
        return None;
    }
    let k = find_from(line, ']', 1);
    if k == n {
        None
    } else {
        Some(substring_string(line, 1, k))
    }
}

// ---------------------------------------------------------------------------
// The document model: what reading each line does
// ---------------------------------------------------------------------------

/// How a new title line joins the title: lines are joined with single
/// spaces, not newlines.
pub open spec fn push_title(title: Seq<char>, line: Seq<char>) -> Seq<char> {
    if title.len() == 0 {
        line
    } else {
        title + " "@ + line
    }
}

/// The document with one more error entry.
pub open spec fn push_error(doc: InpView, m: Seq<char>, line: Seq<char>, n: int) -> InpView {
    InpView { errors: doc.errors.push(ErrorV { message: m, line, line_number: n }), ..doc }
}

/// The document with one more verbatim line.
pub open spec fn push_unknown(doc: InpView, line: Seq<char>) -> InpView {
    InpView { unknown_sections: doc.unknown_sections.push(line), ..doc }
}

pub open spec fn step_junctions(doc: InpView, line: Seq<char>, n: int) -> InpView {
    match junction_decode(line_tokens(line), comment_of(line)) {
        Ok(v) => InpView { junctions: doc.junctions.push(v), ..doc },
        Err(m) => push_error(doc, m, line, n),
    }
}

pub open spec fn step_reservoirs(doc: InpView, line: Seq<char>, n: int) -> InpView {
    match reservoir_decode(line_tokens(line), comment_of(line)) {
        Ok(v) => InpView { reservoirs: doc.reservoirs.push(v), ..doc },
        Err(m) => push_error(doc, m, line, n),
    }
}

pub open spec fn step_tanks(doc: InpView, line: Seq<char>, n: int) -> InpView {
    match tank_decode(line_tokens(line), comment_of(line)) {
        Ok(v) => InpView { tanks: doc.tanks.push(v), ..doc },
        Err(m) => push_error(doc, m, line, n),
    }
}

pub open spec fn step_pipes(doc: InpView, line: Seq<char>, n: int) -> InpView {
    match pipe_decode(line_tokens(line), comment_of(line)) {
        Ok(v) => InpView { pipes: doc.pipes.push(v), ..doc },
        Err(m) => push_error(doc, m, line, n),
    }
}

pub open spec fn step_pumps(doc: InpView, line: Seq<char>, n: int) -> InpView {
    match pump_decode(line_tokens(line), comment_of(line)) {
        Ok(v) => InpView { pumps: doc.pumps.push(v), ..doc },
        Err(m) => push_error(doc, m, line, n),
    }
}

pub open spec fn step_valves(doc: InpView, line: Seq<char>, n: int) -> InpView {
    match valve_decode(line_tokens(line), comment_of(line)) {
        Ok(v) => InpView { valves: doc.valves.push(v), ..doc },
        Err(m) => push_error(doc, m, line, n),
    }
}

pub open spec fn step_emitters(doc: InpView, line: Seq<char>, n: int) -> InpView {
    match emitter_decode(line_tokens(line), comment_of(line)) {
        Ok(v) => InpView { emitters: doc.emitters.push(v), ..doc },
        Err(m) => push_error(doc, m, line, n),
    }
}

pub open spec fn step_sources(doc: InpView, line: Seq<char>, n: int) -> InpView {
    match source_decode(line_tokens(line), comment_of(line)) {
        Ok(v) => InpView { sources: doc.sources.push(v), ..doc },
        Err(m) => push_error(doc, m, line, n),
    }
}

pub open spec fn step_quality(doc: InpView, line: Seq<char>, n: int) -> InpView {
    match quality_decode(line_tokens(line), comment_of(line)) {
        Ok(v) => InpView { quality: doc.quality.push(v), ..doc },
        Err(m) => push_error(doc, m, line, n),
    }
}

/// What one data line does under an active section.
pub open spec fn step_data(
    section: Seq<char>,
    doc: InpView,
    line: Seq<char>,
    t: Seq<char>,
    n: int,
) -> InpView {
    if section == "TITLE"@ {
        InpView { title: push_title(doc.title, t), ..doc }
    } else if section == "JUNCTIONS"@ {
        step_junctions(doc, line, n)
    } else if section == "RESERVOIRS"@ {
        step_reservoirs(doc, line, n)
    } else if section == "TANKS"@ {
        step_tanks(doc, line, n)
    } else if section == "PIPES"@ {
        step_pipes(doc, line, n)
    } else if section == "PUMPS"@ {
        step_pumps(doc, line, n)
    } else if section == "VALVES"@ {
        step_valves(doc, line, n)
    } else if section == "EMITTERS"@ {
        step_emitters(doc, line, n)
    } else if section == "SOURCES"@ {
        step_sources(doc, line, n)
    } else if section == "QUALITY"@ {
        step_quality(doc, line, n)
    } else {
        push_unknown(doc, line)
    }
}

/// One step of the document reader: how the line at 1-based position `n`
/// changes the active section and the document. Blank lines and full-line
/// comments change nothing; a header line re-enters the active section; any
/// other line is a data line for the active section, or is kept verbatim
/// when no recognized section is active.
pub open spec fn read_step(
    section: Option<Seq<char>>,
    doc: InpView,
    line: Seq<char>,
    n: int,
) -> (Option<Seq<char>>, InpView) {
    let t = trim_spec(line);
    if t.len() == 0 {
        (section, doc)
    } else if t[0] == '[' {
        match header_name(t) {
            Some(name) => (Some(name), doc),
            None => (None, push_error(doc, "Invalid section header"@, line, n)),
        }
    } else if t[0] == ';' {
        (section, doc)
    } else {
        match section {
            Some(name) => (section, step_data(name, doc, line, t, n)),
            None => (section, push_unknown(doc, line)),
        }
    }
}

/// The reader's state (active section, document so far) after the first `n`
/// lines.
pub open spec fn read_upto(lines: Seq<Seq<char>>, n: int) -> (Option<Seq<char>>, InpView)
    decreases n,
{
    if n <= 0 {
        (None, empty_inp())
    } else {
        let st = read_upto(lines, n - 1);
        read_step(st.0, st.1, lines[n - 1], n)
    }
}

/// What reading a whole document yields.
pub open spec fn read_spec(content: Seq<char>) -> InpView {
    read_upto(lines_of(content), lines_of(content).len() as int).1
}

// ---------------------------------------------------------------------------
// The reader's executable parts
// ---------------------------------------------------------------------------

/// Reads one line of the `[TITLE]` section: the line without surrounding
/// white space.
pub fn read_title_line(line: &str) -> (r: String)
    ensures
        r@ == trim_spec(line@),
{
    trim(line).to_owned()
}

/// Splits a raw line and decodes it for the kind `T`.
pub fn build_section<T: Sectionable<SelfType = T> + DeepView>(line: &str) -> (r: Result<
    T,
    SectionError,
>)
    ensures
        match r {
            Ok(e) => T::decode_spec(line_tokens(line@), comment_of(line@)) == Ok::<
                <T as DeepView>::V,
                Seq<char>,
            >(e.deep_view()),
            Err(e) => T::decode_spec(line_tokens(line@), comment_of(line@)) == Err::<
                <T as DeepView>::V,
                Seq<char>,
            >(e.message@),
        },
{
    let (properties, comment) = get_properties_and_comment(line);
    T::from_section(properties, comment)
}

/// Decodes one data line for the kind `T`: a success joins `items`, a
/// failure joins `errors`, carrying the failure's message, the verbatim
/// line, and the line's position.
pub fn add<T: Sectionable<SelfType = T> + DeepView>(
    line: LineData,
    items: &mut Vec<T>,
    errors: &mut Vec<Error>,
)
    ensures
        match T::decode_spec(line_tokens(line.content@), comment_of(line.content@)) {
            Ok(v) => final(items).deep_view() == old(items).deep_view().push(v) && final(errors)@
                == old(errors)@,
            Err(m) => final(items)@ == old(items)@ && final(errors).deep_view() == old(
                errors,
            ).deep_view().push(
                ErrorV { message: m, line: line.content@, line_number: line.number as int },
            ),
        },
{
    let ghost items0 = items.deep_view();
    let ghost errors0 = errors.deep_view();
    match crate::inp::build_section::<T>(line.content.as_str()) {
        Ok(entity) => {
            let ghost v = entity.deep_view();
            items.push(entity);
            proof {
                assert(items.deep_view() =~= items0.push(v));
            }
        },
        Err(e) => {
            let ghost m = e.message@;
            errors.push(
                Error { message: e.message, line: line.content, line_number: line.number },
            );
            proof {
                assert(errors.deep_view() =~= errors0.push(
                    ErrorV { message: m, line: line.content@, line_number: line.number as int },
                ));
            }
        },
    }
}

impl INP {
    /// Reads a whole document in one pass. Every line lands in exactly one
    /// place: the title, one entity collection, the verbatim unknown lines,
    /// the error list, or nowhere when it is blank or a full-line comment.
    /// A bad data line, and a header with no closing bracket, cost only
    /// that line; the walk always reaches the end of the document. Line
    /// numbers are 32-bit, which bounds how long a text can be numbered.
    pub fn read(content: String) -> (r: INP)
        requires
            content@.len() < 0x7fff_ffff,
        ensures
            r@ == read_spec(content@),
    {
        let mut inp = INP {
            title: String::new(),
            junctions: Vec::new(),
            tanks: Vec::new(),
            reservoirs: Vec::new(),
            pipes: Vec::new(),
            pumps: Vec::new(),
            valves: Vec::new(),
            emitters: Vec::new(),
            quality: Vec::new(),
            sources: Vec::new(),
            unknown_sections: Vec::new(),
            errors: Vec::new(),
        };
        proof {
            assert(inp@ =~= empty_inp());
            lemma_lines_from_count(content@, 0);
        }
        let lines = split_lines(content.as_str());
        let mut section: Option<String> = None;
        let mut i: usize = 0;
        while i < lines.len()
            invariant
                0 <= i <= lines@.len(),
                lines.deep_view() == lines_of(content@),
                lines@.len() <= content@.len() + 1,
                content@.len() < 0x7fff_ffff,
                section.deep_view() == read_upto(lines_of(content@), i as int).0,
                inp@ == read_upto(lines_of(content@), i as int).1,
            decreases lines@.len() - i,
        {
            let ghost lns = lines_of(content@);
            let ghost pre = read_upto(lns, i as int);
            let line: &String = &lines[i];
            proof {
                assert(line@ == lns[i as int]);
            }
            let number = (i + 1) as i32;
            let t = trim(line.as_str());
            if t.unicode_len() == 0 {
                // Blank: skipped, though it still counts one line number.
            } else {
                let c0 = t.get_char(0);
                if c0 == '[' {
                    match read_section(t) {
                        Some(name) => {
                            section = Some(name);
                        },
                        None => {
                            section = None;
                            let ghost errors0 = inp.errors.deep_view();
                            inp.errors.push(
                                Error {
                                    message: String::from_str("Invalid section header"),
                                    line: line.clone(),
                                    line_number: number,
                                },
                            );
                            proof {
                                assert(inp.errors.deep_view() =~= errors0.push(
                                    ErrorV {
                                        message: "Invalid section header"@,
                                        line: line@,
                                        line_number: i as int + 1,
                                    },
                                ));
                                assert(inp@ =~= push_error(
                                    pre.1,
                                    "Invalid section header"@,
                                    line@,
                                    i as int + 1,
                                ));
                            }
                        },
                    }
                } else if c0 == ';' {
                    // A full-line comment: skipped like a blank line.
                } else {
                    let mut keep_verbatim = false;
                    match &section {
                        Some(name) => {
                            if str_eq(name.as_str(), "TITLE") {
                                let tl = read_title_line(line.as_str());
                                inp.set_title_line(tl.as_str());
                            } else if str_eq(name.as_str(), "JUNCTIONS") {
                                crate::inp::add::<JUNCTION>(
                                    LineData { content: line.clone(), number },
                                    &mut inp.junctions,
                                    &mut inp.errors,
                                );
                                proof {
                                    assert(inp@ =~= step_junctions(pre.1, line@, i as int + 1));
                                }
                            } else if str_eq(name.as_str(), "RESERVOIRS") {
                                crate::inp::add::<Reservoir>(
                                    LineData { content: line.clone(), number },
                                    &mut inp.reservoirs,
                                    &mut inp.errors,
                                );
                                proof {
                                    assert(inp@ =~= step_reservoirs(pre.1, line@, i as int + 1));
                                }
                            } else if str_eq(name.as_str(), "TANKS") {
                                crate::inp::add::<TANK>(
                                    LineData { content: line.clone(), number },
                                    &mut inp.tanks,
                                    &mut inp.errors,
                                );
                                proof {
                                    assert(inp@ =~= step_tanks(pre.1, line@, i as int + 1));
                                }
                            } else if str_eq(name.as_str(), "PIPES") {
                                crate::inp::add::<Pipe>(
                                    LineData { content: line.clone(), number },
                                    &mut inp.pipes,
                                    &mut inp.errors,
                                );
                                proof {
                                    assert(inp@ =~= step_pipes(pre.1, line@, i as int + 1));
                                }
                            } else if str_eq(name.as_str(), "PUMPS") {
                                crate::inp::add::<Pump>(
                                    LineData { content: line.clone(), number },
                                    &mut inp.pumps,
                                    &mut inp.errors,
                                );
                                proof {
                                    assert(inp@ =~= step_pumps(pre.1, line@, i as int + 1));
                                }
                            } else if str_eq(name.as_str(), "VALVES") {
                                crate::inp::add::<Valve>(
                                    LineData { content: line.clone(), number },
                                    &mut inp.valves,
                                    &mut inp.errors,
                                );
                                proof {
                                    assert(inp@ =~= step_valves(pre.1, line@, i as int + 1));
                                }
                            } else if str_eq(name.as_str(), "EMITTERS") {
                                crate::inp::add::<Emitter>(
                                    LineData { content: line.clone(), number },
                                    &mut inp.emitters,
                                    &mut inp.errors,
                                );
                                proof {
                                    assert(inp@ =~= step_emitters(pre.1, line@, i as int + 1));
                                }
                            } else if str_eq(name.as_str(), "SOURCES") {
                                crate::inp::add::<Source>(
                                    LineData { content: line.clone(), number },
                                    &mut inp.sources,
                                    &mut inp.errors,
                                );
                                proof {
                                    assert(inp@ =~= step_sources(pre.1, line@, i as int + 1));
                                }
                            } else if str_eq(name.as_str(), "QUALITY") {
                                crate::inp::add::<Quality>(
                                    LineData { content: line.clone(), number },
                                    &mut inp.quality,
                                    &mut inp.errors,
                                );
                                proof {
                                    assert(inp@ =~= step_quality(pre.1, line@, i as int + 1));
                                }
                            } else {
                                keep_verbatim = true;
                            }
                        },
                        None => {
                            keep_verbatim = true;
                        },
                    }
                    if keep_verbatim {
                        let ghost unknown0 = inp.unknown_sections.deep_view();
                        inp.unknown_sections.push(Unknown { text: line.clone() });
                        proof {
                            assert(inp.unknown_sections.deep_view() =~= unknown0.push(line@));
                            assert(inp@ =~= push_unknown(pre.1, line@));
                        }
                    }
                }
            }
            proof {
                assert(read_upto(lns, i as int + 1) == read_step(pre.0, pre.1, lns[i as int], i as int + 1));
                assert(section.deep_view() == read_upto(lns, i as int + 1).0);
                assert(inp@ =~= read_upto(lns, i as int + 1).1);
            }
            i += 1;
        }
        inp
    }

    /// Appends one line to the title; title lines are joined with single
    /// spaces.
    fn set_title_line(&mut self, s: &str)
        ensures
            final(self)@ == (InpView { title: push_title(old(self)@.title, s@), ..old(self)@ }),
    {
        if !self.title.as_str().is_empty() {
            self.title.append(" ");
        }
        self.title.append(s);
        proof {
            assert(self@ =~= (InpView { title: push_title(old(self)@.title, s@), ..old(self)@ }));
        }
    }
}

} // verus!
