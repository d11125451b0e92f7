use inp_parser::sections::Reservoir;
use inp_parser::sections::Source;
use inp_parser::sections::Unknown;
use inp_parser::INP;

#[test]
fn read_inp_title() {
    let input = "[TITLE]\nHello World\nLine two\n;comment";
    let inp = INP::read(input.to_string());
    assert_eq!(inp.title, "Hello World Line two");
}

#[test]
fn read_inp_reservoirs() {
    let input = r#"
            [RESERVOIRS]
            ;ID    Head      Pattern
            ;-----------------------
            R1     512               ;Head stays constant
            R2     120       Pat1    ;Head varies with time
        "#;
    let inp = INP::read(input.to_string());
    assert_eq!(
        inp.reservoirs,
        vec![
            Reservoir {
                id: "R1".to_string(),
                head: "512".to_string(),
                pattern: None,
                comment: Some("Head stays constant".to_string())
            },
            Reservoir {
                id: "R2".to_string(),
                head: "120".to_string(),
                pattern: Some("Pat1".to_string()),
                comment: Some("Head varies with time".to_string())
            },
        ]
    );
}

#[test]
fn read_sources() {
    let input = r#"
            [SOURCES]
            ;Node  Type    Strength  Pattern
            ;--------------------------------
            N1     CONCEN  1.2       Pat1    ;Concentration varies with time
            N44    MASS    12                ;Constant mass injection
        "#;
    let inp = INP::read(input.to_string());
    assert_eq!(
        inp.sources,
        vec![
            Source {
                node: "N1".to_string(),
                source_type: "CONCEN".to_string(),
                strength: "1.2".to_string(),
                pattern: Some("Pat1".to_string()),
                comment: Some("Concentration varies with time".to_string())
            },
            Source {
                node: "N44".to_string(),
                source_type: "MASS".to_string(),
                strength: "12".to_string(),
                pattern: None,
                comment: Some("Constant mass injection".to_string())
            },
        ]
    );
}

#[test]
fn read_unknown_section() {
    let input = r#"
            [TEST]
            ;Node  Type    Strength  Pattern
            ;--------------------------------
            N1     CONCEN  1.2       Pat1    ;Concentration varies with time
            N44    MASS    12                
        "#;
    let inp = INP::read(input.to_string());
    assert_eq!(
        inp.unknown_sections,
        vec![
            Unknown {
                text: "            N1     CONCEN  1.2       Pat1    ;Concentration varies with time"
                    .to_string(),
            },
            Unknown {
                text: "            N44    MASS    12                ".to_string(),
            },
        ]
    );
}
