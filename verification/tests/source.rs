use inp_parser::sections::Sectionable;
use inp_parser::sections::Source;

#[test]
fn source_create_reservoir_from_section() {
    let a_source = Source::from_section(
        vec!["N1", "CONCEN", "1.2", "Pat1"],
        Some("Concentration varies with time".to_string()),
    );

    assert_eq!(
        a_source,
        Ok(Source {
            node: "N1".to_string(),
            source_type: "CONCEN".to_string(),
            strength: "1.2".to_string(),
            pattern: Some("Pat1".to_string()),
            comment: Some("Concentration varies with time".to_string()),
        })
    );
}

#[test]
fn source_create_reservoir_from_section_without_optional_value() {
    let a_source =
        Source::from_section(vec!["N44", "MASS", "12"], Some("Constant mass injection".to_string()));

    assert_eq!(
        a_source,
        Ok(Source {
            node: "N44".to_string(),
            source_type: "MASS".to_string(),
            strength: "12".to_string(),
            pattern: None,
            comment: Some("Constant mass injection".to_string()),
        })
    );
}

#[test]
fn source_return_error_with_not_enough_properties() {
    let a_source = Source::from_section(vec!["N44"], Some("Constant mass injection".to_string()));

    assert!(a_source.is_err(), "Expected error to be returned");
    assert!(a_source.unwrap_err().message == "Not enough properties to create SOURCE section");
}

#[test]
fn source_return_error_wrong_type() {
    let a_source = Source::from_section(
        vec!["N44", "MASS", "TEST"],
        Some("Constant mass injection".to_string()),
    );

    assert!(a_source.is_err(), "Expected error to be returned");
    assert!(
        a_source.unwrap_err().message == "invalid float literal",
        "Expected error message to be 'invalid float literal'",
    )
}
