use inp_parser::sections::Reservoir;
use inp_parser::sections::Sectionable;

#[test]
fn reservoir_create_reservoir_from_section() {
    let a_reservoir = Reservoir::from_section(
        vec!["R2", "120", "Pat1"],
        Some("Head varies with time".to_string()),
    );

    assert_eq!(
        a_reservoir,
        Ok(Reservoir {
            id: "R2".to_string(),
            head: "120".to_string(),
            pattern: Some("Pat1".to_string()),
            comment: Some("Head varies with time".to_string()),
        })
    );
}

#[test]
fn reservoir_create_reservoir_from_section_without_optional_value() {
    let a_reservoir =
        Reservoir::from_section(vec!["R1", "512"], Some("Head stays constant".to_string()));

    assert_eq!(
        a_reservoir,
        Ok(Reservoir {
            id: "R1".to_string(),
            head: "512".to_string(),
            pattern: None,
            comment: Some("Head stays constant".to_string()),
        })
    );
}

#[test]
fn reservoir_return_error_with_not_enough_properties() {
    let a_reservoir = Reservoir::from_section(vec!["R1"], Some("Head stays constant".to_string()));

    assert!(a_reservoir.is_err());
    assert!(
        a_reservoir.unwrap_err().message == "Not enough properties to create RESERVOIR section",
    );
}

#[test]
fn reservoir_return_error_wrong_type() {
    let a_reservoir =
        Reservoir::from_section(vec!["R1", "Test"], Some("Head stays constant".to_string()));

    assert!(a_reservoir.is_err(), "Expected error to be returned");
    assert!(
        a_reservoir.unwrap_err().message == "invalid float literal",
        "Expected error message to be 'invalid float literal'",
    )
}
