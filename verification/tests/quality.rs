use inp_parser::sections::Quality;
use inp_parser::sections::Sectionable;

#[test]
fn create_quality_from_section() {
    let a_quality = Quality::from_section(vec!["1", "1"], Some("comment".to_string()));
    assert_eq!(
        a_quality,
        Ok(Quality {
            nodeid: "1".to_string(),
            initqual: "1".to_string(),
            comment: Some("comment".to_string()),
        })
    );
}

#[test]
fn create_quality_from_section_with_wrong_number_of_parameters() {
    let a_quality = Quality::from_section(vec!["1"], Some("comment".to_string()));
    assert!(a_quality.is_err(), "Expected error to be returned");
}

#[test]
fn create_quality_from_section_with_wrong_type_of_parameters() {
    let a_quality = Quality::from_section(vec!["1", "a"], Some("comment".to_string()));
    assert!(a_quality.is_err(), "Expected error to be returned");
}

#[test]
fn quality_arity_error_names_both_fields() {
    let a_quality = Quality::from_section(vec!["N1"], None);
    assert_eq!(
        a_quality.unwrap_err().message,
        "Quality section must have at least 2 parameter; nodeid and initqual"
    );
}
