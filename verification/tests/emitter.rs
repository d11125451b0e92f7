use inp_parser::sections::Emitter;
use inp_parser::sections::Sectionable;

#[test]
fn craete_emitter_from_section() {
    let a_emitter = Emitter::from_section(vec!["J1", "0.5"], None);

    assert_eq!(
        a_emitter,
        Ok(Emitter {
            junction_id: "J1".to_string(),
            flow_coefficient: "0.5".to_string(),
            comment: None
        })
    );
}

#[test]
fn emitter_all_the_properties_are_compulsory() {
    let a_emitter = Emitter::from_section(vec!["J1"], None);

    assert!(a_emitter.is_err(), "Should be an error");
}
