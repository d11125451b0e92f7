use inp_parser::sections::Pipe;
use inp_parser::sections::Sectionable;

#[test]
fn craete_pipe_from_section() {
    let a_pipe = Pipe::from_section(vec!["P1", "J1", "J2", "1200", "12", "120", "0.2", "OPEN"], None);

    assert_eq!(
        a_pipe,
        Ok(Pipe {
            id: "P1".to_string(),
            node1: "J1".to_string(),
            node2: "J2".to_string(),
            length: "1200".to_string(),
            diameter: "12".to_string(),
            roughness: "120".to_string(),
            minor_loss: "0.2".to_string(),
            status: "OPEN".to_string(),
            comment: None,
        })
    );
}

#[test]
fn create_pipe_from_section_without_optional_value() {
    let a_pipe = Pipe::from_section(
        vec!["P3", "J1", "J10", "1000", "12", "120"],
        Some("Description".to_string()),
    );

    assert_eq!(
        a_pipe,
        Ok(Pipe {
            id: "P3".to_string(),
            node1: "J1".to_string(),
            node2: "J10".to_string(),
            length: "1000".to_string(),
            diameter: "12".to_string(),
            roughness: "120".to_string(),
            minor_loss: "0.0".to_string(),
            status: "OPEN".to_string(),
            comment: Some("Description".to_string()),
        })
    );
}

#[test]
fn pipe_return_error_with_not_enough_properties() {
    let a_pipe = Pipe::from_section(vec!["P3", "J1", "J10", "1000"], Some("Description".to_string()));

    assert!(a_pipe.is_err(), "Should return error");
    assert!(
        a_pipe.err().unwrap().message == "Not enough properties to create PIPE section",
        "Should return error with message 'Not enough properties to create PIPE section'"
    );
}

#[test]
fn pipe_return_error_wrong_type() {
    let a_pipe = Pipe::from_section(
        vec!["P3", "J1", "J10", "1000", "12", "Test"],
        Some("Head stays constant".to_string()),
    );

    assert!(a_pipe.is_err(), "Should return error");
    assert!(
        a_pipe.err().unwrap().message == "invalid float literal",
        "Should return error with message 'invalid float literal'"
    );
}

#[test]
fn pipe_defaults_parse_as_numbers() {
    let a_pipe = Pipe::from_section(vec!["P3", "J1", "J10", "1000", "12", "120"], None).unwrap();
    assert_eq!(a_pipe.minor_loss.parse::<f64>().unwrap(), 0.0);
    assert_eq!(a_pipe.length.parse::<f64>().unwrap(), 1000.0);
}
