//! Laws of the document reader, stated once for every document and proved.

use crate::inp::comment_of;
use crate::inp::header_name;
use crate::inp::line_tokens;
use crate::inp::push_error;
use crate::inp::read_spec;
use crate::inp::read_step;
use crate::inp::read_upto;
use crate::inp::InpView;
use crate::number::lemma_empty_not_float;
use crate::sections::emitter::emitter_decode;
use crate::sections::junction::junction_decode;
use crate::sections::pipe::pipe_decode;
use crate::sections::pump::pump_decode;
use crate::sections::quality::quality_decode;
use crate::sections::reservoir::reservoir_decode;
use crate::sections::source::source_decode;
use crate::sections::tank::tank_decode;
use crate::sections::valve::valve_decode;
use crate::text::lines_of;
use crate::text::trim_spec;
use vstd::prelude::*;

verus! {

broadcast use vstd::string::group_string_axioms;

// ---------------------------------------------------------------------------
// Line classes
// ---------------------------------------------------------------------------

/// A line the reader skips: blank after trimming, or a full-line comment.
pub open spec fn is_skipped_line(line: Seq<char>) -> bool {
    trim_spec(line).len() == 0 || trim_spec(line)[0] == ';'
}

/// A well-formed header line: it opens a (new) active section.
pub open spec fn is_ok_header_line(line: Seq<char>) -> bool {
    let t = trim_spec(line);
    t.len() > 0 && t[0] == '[' && header_name(t) is Some
}

/// A data line: neither blank, nor a comment, nor a header.
pub open spec fn is_data_line(line: Seq<char>) -> bool {
    let t = trim_spec(line);
    t.len() > 0 && t[0] != '[' && t[0] != ';'
}

/// How many of the first `n` lines the reader skips.
pub open spec fn skipped_upto(lines: Seq<Seq<char>>, n: int) -> int
    decreases n,
{
    if n <= 0 {
        0
    } else {
        skipped_upto(lines, n - 1) + if is_skipped_line(lines[n - 1]) {
            1int
        } else {
            0int
        }
    }
}

/// How many of the first `n` lines are well-formed headers.
pub open spec fn ok_headers_upto(lines: Seq<Seq<char>>, n: int) -> int
    decreases n,
{
    if n <= 0 {
        0
    } else {
        ok_headers_upto(lines, n - 1) + if is_ok_header_line(lines[n - 1]) {
            1int
        } else {
            0int
        }
    }
}

/// How many of the first `n` lines joined the title: data lines read while
/// `TITLE` was the active section.
pub open spec fn title_lines_upto(lines: Seq<Seq<char>>, n: int) -> int
    decreases n,
{
    if n <= 0 {
        0
    } else {
        title_lines_upto(lines, n - 1) + if is_data_line(lines[n - 1]) && read_upto(
            lines,
            n - 1,
        ).0 == Some("TITLE"@) {
            1int
        } else {
            0int
        }
    }
}

/// How many entities a document holds, over all nine kinds.
pub open spec fn entity_count(d: InpView) -> int {
    d.junctions.len() + d.reservoirs.len() + d.tanks.len() + d.pipes.len() + d.pumps.len()
        + d.valves.len() + d.emitters.len() + d.quality.len() + d.sources.len() as int
}

// ---------------------------------------------------------------------------
// Accounting: no line is dropped and none is counted twice
// ---------------------------------------------------------------------------

proof fn lemma_accounting_upto(lines: Seq<Seq<char>>, n: int)
    requires
        0 <= n <= lines.len(),
    ensures
        ({
            let d = read_upto(lines, n).1;
            title_lines_upto(lines, n) + entity_count(d) + d.unknown_sections.len()
                + d.errors.len() + skipped_upto(lines, n) + ok_headers_upto(lines, n) == n
        }),
    decreases n,
{
    if n > 0 {
        lemma_accounting_upto(lines, n - 1);
        let st = read_upto(lines, n - 1);
        let line = lines[n - 1];
        let t = trim_spec(line);
        if t.len() == 0 {
        } else if t[0] == '[' {
            match header_name(t) {
                Some(_) => {},
                None => {},
            }
        } else if t[0] == ';' {
        } else {
            match st.0 {
                Some(name) => {
                    if name == "TITLE"@ {
                    } else if name == "JUNCTIONS"@ {
                        match junction_decode(line_tokens(line), comment_of(line)) {
                            Ok(_) => {},
                            Err(_) => {},
                        }
                    } else if name == "RESERVOIRS"@ {
                        match reservoir_decode(line_tokens(line), comment_of(line)) {
                            Ok(_) => {},
                            Err(_) => {},
                        }
                    } else if name == "TANKS"@ {
                        match tank_decode(line_tokens(line), comment_of(line)) {
                            Ok(_) => {},
                            Err(_) => {},
                        }
                    } else if name == "PIPES"@ {
                        match pipe_decode(line_tokens(line), comment_of(line)) {
                            Ok(_) => {},
                            Err(_) => {},
                        }
                    } else if name == "PUMPS"@ {
                        match pump_decode(line_tokens(line), comment_of(line)) {
                            Ok(_) => {},
                            Err(_) => {},
                        }
                    } else if name == "VALVES"@ {
                        match valve_decode(line_tokens(line), comment_of(line)) {
                            Ok(_) => {},
                            Err(_) => {},
                        }
                    } else if name == "EMITTERS"@ {
                        match emitter_decode(line_tokens(line), comment_of(line)) {
                            Ok(_) => {},
                            Err(_) => {},
                        }
                    } else if name == "SOURCES"@ {
                        match source_decode(line_tokens(line), comment_of(line)) {
                            Ok(_) => {},
                            Err(_) => {},
                        }
                    } else if name == "QUALITY"@ {
                        match quality_decode(line_tokens(line), comment_of(line)) {
                            Ok(_) => {},
                            Err(_) => {},
                        }
                    } else {
                    }
                },
                None => {},
            }
        }
    }
}

/// Every line of a document is accounted for exactly once: it joins the
/// title, decodes into one entity, is kept verbatim as an unknown line,
/// is recorded as one error, is skipped as a blank or comment line, or is
/// consumed as a well-formed section header. The six counts add up to the
/// document's line count.
pub proof fn lemma_read_line_accounting(content: Seq<char>)
    ensures
        ({
            let lines = lines_of(content);
            let d = read_spec(content);
            title_lines_upto(lines, lines.len() as int) + entity_count(d)
                + d.unknown_sections.len() + d.errors.len() + skipped_upto(
                lines,
                lines.len() as int,
            ) + ok_headers_upto(lines, lines.len() as int) == lines.len()
        }),
{
    lemma_accounting_upto(lines_of(content), lines_of(content).len() as int);
}

/// Reading is deterministic: what a document parses to is a function of
/// its text alone, so two readings of the same text agree entirely.
pub proof fn lemma_read_deterministic(c1: Seq<char>, c2: Seq<char>)
    requires
        c1 == c2,
    ensures
        read_spec(c1) == read_spec(c2),
{
}

// ---------------------------------------------------------------------------
// Order preservation: the reader only appends
// ---------------------------------------------------------------------------

proof fn lemma_push_prefix<T>(s: Seq<T>, x: T)
    ensures
        s.is_prefix_of(s.push(x)),
{
    assert(s =~= s.push(x).subrange(0, s.len() as int));
}

proof fn lemma_prefix_trans<T>(a: Seq<T>, b: Seq<T>, c: Seq<T>)
    requires
        a.is_prefix_of(b),
        b.is_prefix_of(c),
    ensures
        a.is_prefix_of(c),
{
    assert(a =~= c.subrange(0, a.len() as int));
}

/// What it means for one document to extend another: every collection of
/// the first is a prefix of the same collection of the second.
pub open spec fn doc_extends(a: InpView, b: InpView) -> bool {
    &&& a.title.is_prefix_of(b.title)
    &&& a.junctions.is_prefix_of(b.junctions)
    &&& a.reservoirs.is_prefix_of(b.reservoirs)
    &&& a.tanks.is_prefix_of(b.tanks)
    &&& a.pipes.is_prefix_of(b.pipes)
    &&& a.pumps.is_prefix_of(b.pumps)
    &&& a.valves.is_prefix_of(b.valves)
    &&& a.emitters.is_prefix_of(b.emitters)
    &&& a.quality.is_prefix_of(b.quality)
    &&& a.sources.is_prefix_of(b.sources)
    &&& a.unknown_sections.is_prefix_of(b.unknown_sections)
    &&& a.errors.is_prefix_of(b.errors)
}

proof fn lemma_seq_prefix_refl<T>(s: Seq<T>)
    ensures
        s.is_prefix_of(s),
{
    assert(s =~= s.subrange(0, s.len() as int));
}

proof fn lemma_extends_refl(a: InpView)
    ensures
        doc_extends(a, a),
{
    lemma_seq_prefix_refl(a.title);
    lemma_seq_prefix_refl(a.junctions);
    lemma_seq_prefix_refl(a.reservoirs);
    lemma_seq_prefix_refl(a.tanks);
    lemma_seq_prefix_refl(a.pipes);
    lemma_seq_prefix_refl(a.pumps);
    lemma_seq_prefix_refl(a.valves);
    lemma_seq_prefix_refl(a.emitters);
    lemma_seq_prefix_refl(a.quality);
    lemma_seq_prefix_refl(a.sources);
    lemma_seq_prefix_refl(a.unknown_sections);
    lemma_seq_prefix_refl(a.errors);
}

proof fn lemma_step_extends(section: Option<Seq<char>>, doc: InpView, line: Seq<char>, n: int)
    ensures
        doc_extends(doc, read_step(section, doc, line, n).1),
{
    let after = read_step(section, doc, line, n).1;
    lemma_extends_refl(doc);
    let t = trim_spec(line);
    if t.len() > 0 && t[0] != '[' && t[0] != ';' {
        match section {
            Some(name) => {
                if name == "TITLE"@ {
                    let nt = after.title;
                    if doc.title.len() > 0 {
                        assert(doc.title =~= nt.subrange(0, doc.title.len() as int));
                    } else {
                        assert(doc.title =~= nt.subrange(0, 0));
                    }
                }
            },
            None => {},
        }
    }
    assert(doc.junctions.is_prefix_of(after.junctions)) by {
        if after.junctions != doc.junctions {
            lemma_push_prefix(doc.junctions, after.junctions.last());
            assert(after.junctions =~= doc.junctions.push(after.junctions.last()));
        }
    }
    assert(doc.reservoirs.is_prefix_of(after.reservoirs)) by {
        if after.reservoirs != doc.reservoirs {
            lemma_push_prefix(doc.reservoirs, after.reservoirs.last());
            assert(after.reservoirs =~= doc.reservoirs.push(after.reservoirs.last()));
        }
    }
    assert(doc.tanks.is_prefix_of(after.tanks)) by {
        if after.tanks != doc.tanks {
            lemma_push_prefix(doc.tanks, after.tanks.last());
            assert(after.tanks =~= doc.tanks.push(after.tanks.last()));
        }
    }
    assert(doc.pipes.is_prefix_of(after.pipes)) by {
        if after.pipes != doc.pipes {
            lemma_push_prefix(doc.pipes, after.pipes.last());
            assert(after.pipes =~= doc.pipes.push(after.pipes.last()));
        }
    }
    assert(doc.pumps.is_prefix_of(after.pumps)) by {
        if after.pumps != doc.pumps {
            lemma_push_prefix(doc.pumps, after.pumps.last());
            assert(after.pumps =~= doc.pumps.push(after.pumps.last()));
        }
    }
    assert(doc.valves.is_prefix_of(after.valves)) by {
        if after.valves != doc.valves {
            lemma_push_prefix(doc.valves, after.valves.last());
            assert(after.valves =~= doc.valves.push(after.valves.last()));
        }
    }
    assert(doc.emitters.is_prefix_of(after.emitters)) by {
        if after.emitters != doc.emitters {
            lemma_push_prefix(doc.emitters, after.emitters.last());
            assert(after.emitters =~= doc.emitters.push(after.emitters.last()));
        }
    }
    assert(doc.quality.is_prefix_of(after.quality)) by {
        if after.quality != doc.quality {
            lemma_push_prefix(doc.quality, after.quality.last());
            assert(after.quality =~= doc.quality.push(after.quality.last()));
        }
    }
    assert(doc.sources.is_prefix_of(after.sources)) by {
        if after.sources != doc.sources {
            lemma_push_prefix(doc.sources, after.sources.last());
            assert(after.sources =~= doc.sources.push(after.sources.last()));
        }
    }
    assert(doc.unknown_sections.is_prefix_of(after.unknown_sections)) by {
        if after.unknown_sections != doc.unknown_sections {
            lemma_push_prefix(doc.unknown_sections, after.unknown_sections.last());
            assert(after.unknown_sections =~= doc.unknown_sections.push(
                after.unknown_sections.last(),
            ));
        }
    }
    assert(doc.errors.is_prefix_of(after.errors)) by {
        if after.errors != doc.errors {
            lemma_push_prefix(doc.errors, after.errors.last());
            assert(after.errors =~= doc.errors.push(after.errors.last()));
        }
    }
}

/// The reader only appends: after reading more lines, every collection of
/// the document extends what it was, so the entities of each kind, the
/// unknown lines, and the errors keep the relative order of the source
/// lines that produced them, and the title only grows.
pub proof fn lemma_read_order_preserving(lines: Seq<Seq<char>>, m: int, n: int)
    requires
        0 <= m <= n,
    ensures
        doc_extends(read_upto(lines, m).1, read_upto(lines, n).1),
    decreases n - m,
{
    if m == n {
        lemma_extends_refl(read_upto(lines, m).1);
    } else {
        lemma_read_order_preserving(lines, m, n - 1);
        let st = read_upto(lines, n - 1);
        lemma_step_extends(st.0, st.1, lines[n - 1], n);
        let a = read_upto(lines, m).1;
        let b = st.1;
        let c = read_upto(lines, n).1;
        lemma_prefix_trans(a.title, b.title, c.title);
        lemma_prefix_trans(a.junctions, b.junctions, c.junctions);
        lemma_prefix_trans(a.reservoirs, b.reservoirs, c.reservoirs);
        lemma_prefix_trans(a.tanks, b.tanks, c.tanks);
        lemma_prefix_trans(a.pipes, b.pipes, c.pipes);
        lemma_prefix_trans(a.pumps, b.pumps, c.pumps);
        lemma_prefix_trans(a.valves, b.valves, c.valves);
        lemma_prefix_trans(a.emitters, b.emitters, c.emitters);
        lemma_prefix_trans(a.quality, b.quality, c.quality);
        lemma_prefix_trans(a.sources, b.sources, c.sources);
        lemma_prefix_trans(a.unknown_sections, b.unknown_sections, c.unknown_sections);
        lemma_prefix_trans(a.errors, b.errors, c.errors);
    }
}

// ---------------------------------------------------------------------------
// Short data lines always become one error
// ---------------------------------------------------------------------------

/// The nine section names that decode entities.
pub open spec fn known_entity_section(name: Seq<char>) -> bool {
    ||| name == "JUNCTIONS"@
    ||| name == "RESERVOIRS"@
    ||| name == "TANKS"@
    ||| name == "PIPES"@
    ||| name == "PUMPS"@
    ||| name == "VALVES"@
    ||| name == "EMITTERS"@
    ||| name == "SOURCES"@
    ||| name == "QUALITY"@
}

/// The fewest properties on which each kind's decoder can succeed.
pub open spec fn min_props(name: Seq<char>) -> int {
    if name == "JUNCTIONS"@ {
        2
    } else if name == "RESERVOIRS"@ {
        2
    } else if name == "TANKS"@ {
        7
    } else if name == "PIPES"@ {
        6
    } else if name == "PUMPS"@ {
        4
    } else if name == "VALVES"@ {
        7
    } else if name == "EMITTERS"@ {
        2
    } else if name == "SOURCES"@ {
        3
    } else if name == "QUALITY"@ {
        2
    } else {
        0
    }
}

/// A data line under a known entity section with fewer than that kind's
/// minimum property count yields exactly one error entry — whose line
/// number is the line's own 1-based position and whose text is the line
/// itself — and appends to no entity collection.
pub proof fn lemma_short_data_line_yields_error(
    section: Seq<char>,
    doc: InpView,
    line: Seq<char>,
    n: int,
)
    requires
        known_entity_section(section),
        is_data_line(line),
        line_tokens(line).len() < min_props(section),
    ensures
        exists|m: Seq<char>|
            read_step(Some(section), doc, line, n) == (
                Some(section),
                push_error(doc, m, line, n),
            ),
{
    reveal_strlit("TITLE");
    reveal_strlit("JUNCTIONS");
    reveal_strlit("RESERVOIRS");
    reveal_strlit("TANKS");
    reveal_strlit("PIPES");
    reveal_strlit("PUMPS");
    reveal_strlit("VALVES");
    reveal_strlit("EMITTERS");
    reveal_strlit("SOURCES");
    reveal_strlit("QUALITY");
    assert("TITLE"@.len() == 5);
    assert("JUNCTIONS"@.len() == 9);
    assert("RESERVOIRS"@.len() == 10);
    assert("TANKS"@.len() == 5);
    assert("PIPES"@.len() == 5);
    assert("PUMPS"@.len() == 5);
    assert("VALVES"@.len() == 6);
    assert("EMITTERS"@.len() == 8);
    assert("SOURCES"@.len() == 7);
    assert("QUALITY"@.len() == 7);
    assert("TANKS"@ != "TITLE"@) by {
        assert("TANKS"@[1] == 'A' && "TITLE"@[1] == 'I');
    }
    assert("PIPES"@ != "TITLE"@ && "PUMPS"@ != "TITLE"@ && "PIPES"@ != "TANKS"@ && "PUMPS"@
        != "TANKS"@) by {
        assert("PIPES"@[0] == 'P' && "PUMPS"@[0] == 'P' && "TITLE"@[0] == 'T' && "TANKS"@[0]
            == 'T');
    }
    assert("PUMPS"@ != "PIPES"@) by {
        assert("PUMPS"@[1] == 'U' && "PIPES"@[1] == 'I');
    }
    assert("QUALITY"@ != "SOURCES"@) by {
        assert("QUALITY"@[0] == 'Q' && "SOURCES"@[0] == 'S');
    }
    lemma_empty_not_float();
    let props = line_tokens(line);
    let comment = comment_of(line);
    if section == "JUNCTIONS"@ {
        let m = junction_decode(props, comment)->Err_0;
        assert(read_step(Some(section), doc, line, n) == (
            Some(section),
            push_error(doc, m, line, n),
        ));
    } else if section == "RESERVOIRS"@ {
        let m = reservoir_decode(props, comment)->Err_0;
        assert(read_step(Some(section), doc, line, n) == (
            Some(section),
            push_error(doc, m, line, n),
        ));
    } else if section == "TANKS"@ {
        assert(tank_decode(props, comment) is Err);
        let m = tank_decode(props, comment)->Err_0;
        assert(read_step(Some(section), doc, line, n) == (
            Some(section),
            push_error(doc, m, line, n),
        ));
    } else if section == "PIPES"@ {
        let m = pipe_decode(props, comment)->Err_0;
        assert(read_step(Some(section), doc, line, n) == (
            Some(section),
            push_error(doc, m, line, n),
        ));
    } else if section == "PUMPS"@ {
        assert(pump_decode(props, comment) is Err);
        let m = pump_decode(props, comment)->Err_0;
        assert(read_step(Some(section), doc, line, n) == (
            Some(section),
            push_error(doc, m, line, n),
        ));
    } else if section == "VALVES"@ {
        assert(valve_decode(props, comment) is Err);
        let m = valve_decode(props, comment)->Err_0;
        assert(read_step(Some(section), doc, line, n) == (
            Some(section),
            push_error(doc, m, line, n),
        ));
    } else if section == "EMITTERS"@ {
        assert(emitter_decode(props, comment) is Err);
        let m = emitter_decode(props, comment)->Err_0;
        assert(read_step(Some(section), doc, line, n) == (
            Some(section),
            push_error(doc, m, line, n),
        ));
    } else if section == "SOURCES"@ {
        let m = source_decode(props, comment)->Err_0;
        assert(read_step(Some(section), doc, line, n) == (
            Some(section),
            push_error(doc, m, line, n),
        ));
    } else {
        let m = quality_decode(props, comment)->Err_0;
        assert(read_step(Some(section), doc, line, n) == (
            Some(section),
            push_error(doc, m, line, n),
        ));
    }
}

} // verus!
