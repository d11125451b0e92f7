use inp_parser::sections::SectionError;
use inp_parser::sections::Sectionable;
use inp_parser::sections::JUNCTION;

#[test]
fn create_junction_from_section() {
    let a_junction = JUNCTION::from_section(
        vec!["J1", "100", "0.0", "Pat1"],
        Some("Junction 1".to_string()),
    );

    assert_eq!(
        a_junction,
        Ok(JUNCTION {
            id: "J1".to_string(),
            elevation: "100".to_string(),
            base_demand_flow: Some("0.0".to_string()),
            demand_pattern_id: Some("Pat1".to_string()),
            comment: Some("Junction 1".to_string()),
        })
    );
}

#[test]
fn create_junction_from_section_without_optional_fields() {
    let a_junction = JUNCTION::from_section(vec!["J1", "100"], Some("Junction 1".to_string()));

    assert_eq!(
        a_junction,
        Ok(JUNCTION {
            id: "J1".to_string(),
            elevation: "100".to_string(),
            base_demand_flow: None,
            demand_pattern_id: None,
            comment: Some("Junction 1".to_string()),
        })
    );
}

#[test]
fn create_junction_from_section_with_invalid_elevation() {
    let a_junction = JUNCTION::from_section(vec!["J1", "100a"], Some("Junction 1".to_string()));

    assert_eq!(
        a_junction,
        Err(SectionError { message: "invalid float literal".to_string() })
    );
}

#[test]
fn junction_invalid_base_demand_is_an_error_not_a_crash() {
    let a_junction = JUNCTION::from_section(vec!["J1", "100", "abc"], None);

    assert_eq!(
        a_junction,
        Err(SectionError { message: "invalid float literal".to_string() })
    );
}
