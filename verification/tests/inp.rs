use inp_parser::sections::Error;
use inp_parser::sections::Unknown;
use inp_parser::INP;

#[test]
fn read_inp_with_section_error() {
    let input = r#"
[RESERVOIRS]
;ID    Head      Pattern
;-----------------------
R1     Pat1               ;Head stays constant
R2         ;Head varies with time

        "#;
    let inp = INP::read(input.to_string());
    assert_eq!(
        inp.errors[0],
        Error {
            message: "invalid float literal".to_string(),
            line: "R1     Pat1               ;Head stays constant".to_string(),
            line_number: 5
        }
    );
    assert_eq!(
        inp.errors[1],
        Error {
            message: "Not enough properties to create RESERVOIR section".to_string(),
            line: "R2         ;Head varies with time".to_string(),
            line_number: 6
        }
    );
}

#[test]
fn read_inp_with_section_format_error() {
    let input = r#"
[[RESERVOIRS]
R1     Test               ;Head stays constant
R2     120       Pat1    ;Head varies with time

        "#;
    let inp = INP::read(input.to_string());
    assert_eq!(
        inp.unknown_sections,
        vec![
            Unknown {
                text: "R1     Test               ;Head stays constant".to_string(),
            },
            Unknown {
                text: "R2     120       Pat1    ;Head varies with time".to_string(),
            },
        ]
    );
}

#[test]
fn unclosed_header_is_a_line_error_not_an_abort() {
    let input = "[RESERVOIRS\nR1   512\n[RESERVOIRS]\nR2   120";
    let inp = INP::read(input.to_string());
    assert_eq!(
        inp.errors,
        vec![Error {
            message: "Invalid section header".to_string(),
            line: "[RESERVOIRS".to_string(),
            line_number: 1,
        }]
    );
    // The line after the bad header has no active section; the parse then
    // recovers at the next well-formed header.
    assert_eq!(inp.unknown_sections, vec![Unknown { text: "R1   512".to_string() }]);
    assert_eq!(inp.reservoirs.len(), 1);
    assert_eq!(inp.reservoirs[0].id, "R2");
}

#[test]
fn empty_document_reads_to_an_empty_result() {
    let inp = INP::read(String::new());
    assert_eq!(inp.title, "");
    assert_eq!(inp.junctions.len(), 0);
    assert_eq!(inp.reservoirs.len(), 0);
    assert_eq!(inp.tanks.len(), 0);
    assert_eq!(inp.pipes.len(), 0);
    assert_eq!(inp.pumps.len(), 0);
    assert_eq!(inp.valves.len(), 0);
    assert_eq!(inp.emitters.len(), 0);
    assert_eq!(inp.quality.len(), 0);
    assert_eq!(inp.sources.len(), 0);
    assert_eq!(inp.unknown_sections.len(), 0);
    assert_eq!(inp.errors.len(), 0);
}

#[test]
fn every_line_lands_in_exactly_one_place() {
    // 12 lines: 1 blank, 2 comments, 2 headers, 2 title lines, 2 entities,
    // 1 error, 2 unknown lines.
    let input = "\n;leading comment\n[TITLE]\nNet One\nextended\n[PIPES]\nP1 J1 J2 1200 12 120\nbad line\n;mid comment\n[FUTURE]\nkept verbatim\nkept too";
    let inp = INP::read(input.to_string());
    let title_lines = 2;
    let skipped = 3;
    let headers = 3;
    let entities = inp.pipes.len();
    assert_eq!(inp.title, "Net One extended");
    assert_eq!(entities, 1);
    assert_eq!(inp.errors.len(), 1);
    assert_eq!(inp.unknown_sections.len(), 2);
    assert_eq!(
        title_lines + skipped + headers + entities + inp.errors.len() + inp.unknown_sections.len(),
        input.lines().count()
    );
}

#[test]
fn entities_keep_the_order_of_their_source_lines() {
    let input = "[RESERVOIRS]\nR1 512\n[PIPES]\nP1 J1 J2 1 2 3\n[RESERVOIRS]\nR2 120\nR3 99";
    let inp = INP::read(input.to_string());
    let ids: Vec<&str> = inp.reservoirs.iter().map(|r| r.id.as_str()).collect();
    assert_eq!(ids, vec!["R1", "R2", "R3"]);
    assert_eq!(inp.pipes.len(), 1);
}

#[test]
fn short_data_line_yields_one_error_and_no_entity() {
    let input = "[JUNCTIONS]\nJ1";
    let inp = INP::read(input.to_string());
    assert_eq!(inp.junctions.len(), 0);
    assert_eq!(
        inp.errors,
        vec![Error {
            message: "Not enough properties to create JUNCTION section".to_string(),
            line: "J1".to_string(),
            line_number: 2,
        }]
    );
}

#[test]
fn reservoir_line_round_trips_through_the_reader() {
    let inp = INP::read("[RESERVOIRS]\nR1 512".to_string());
    assert_eq!(inp.reservoirs.len(), 1);
    assert_eq!(inp.reservoirs[0].id, "R1");
    assert_eq!(inp.reservoirs[0].head, "512");
    assert_eq!(inp.reservoirs[0].head.parse::<f64>().unwrap(), 512.0);
    assert_eq!(inp.reservoirs[0].pattern, None);
    assert_eq!(inp.reservoirs[0].comment, None);
}

#[test]
fn title_lines_are_trimmed_before_joining() {
    let inp = INP::read("[TITLE]\n   Hello World   \n\tLine two".to_string());
    assert_eq!(inp.title, "Hello World Line two");
}

#[test]
fn crlf_line_endings_read_like_bare_newlines() {
    let inp = INP::read("[RESERVOIRS]\r\nR1 512\r\nR2 120\r\n".to_string());
    assert_eq!(inp.reservoirs.len(), 2);
    assert_eq!(inp.reservoirs[0].id, "R1");
    assert_eq!(inp.reservoirs[1].id, "R2");
}

#[test]
fn comment_runs_to_the_end_of_the_line() {
    let inp = INP::read("[RESERVOIRS]\nR1 512 ; head; fixed ".to_string());
    assert_eq!(inp.reservoirs[0].comment, Some(" head; fixed ".to_string()));
}

#[test]
fn any_run_of_white_space_separates_properties() {
    let inp = INP::read("[RESERVOIRS]\n\tR1\t \t512".to_string());
    assert_eq!(inp.reservoirs[0].id, "R1");
    assert_eq!(inp.reservoirs[0].head, "512");
    assert_eq!(inp.reservoirs[0].comment, None);
}

#[test]
fn line_numbers_count_skipped_lines_too() {
    let input = ";c1\n\n[QUALITY]\n;c2\nN1 bad";
    let inp = INP::read(input.to_string());
    assert_eq!(inp.errors.len(), 1);
    assert_eq!(inp.errors[0].line_number, 5);
    assert_eq!(inp.errors[0].message, "invalid float literal");
}
