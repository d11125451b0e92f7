use inp_parser::sections::Sectionable;
use inp_parser::sections::Valve;
use inp_parser::sections::ValveType;

#[test]
fn create_a_valve() {
    let a_valve = Valve::from_section(vec!["V1", "J1", "J2", "12", "PRV", "120", "0.2"], None);

    assert_eq!(
        a_valve,
        Ok(Valve {
            id: "V1".to_string(),
            start_node: "J1".to_string(),
            end_node: "J2".to_string(),
            diameter: "12".to_string(),
            valve_type: ValveType::Prv,
            valve_setting: "120".to_string(),
            minor_loss_coefficient: "0.2".to_string(),
            comment: None,
        })
    );
}

#[test]
fn valve_all_the_properties_are_compulsory() {
    let a_valve = Valve::from_section(vec!["V1", "J1", "J2", "12", "PRV", "0.2"], None);

    assert!(a_valve.is_err());
}

#[test]
fn valve_type_comes_from_a_closed_set() {
    for (tok, vt) in [
        ("PRV", ValveType::Prv),
        ("PSV", ValveType::Psv),
        ("PBV", ValveType::Pbv),
        ("FCV", ValveType::Fcv),
        ("TCV", ValveType::Tcv),
        ("GPV", ValveType::Gpv),
    ] {
        let a_valve =
            Valve::from_section(vec!["V1", "J1", "J2", "12", tok, "120", "0.2"], None).unwrap();
        assert_eq!(a_valve.valve_type, vt);
    }
    let bad = Valve::from_section(vec!["V1", "J1", "J2", "12", "prv", "120", "0.2"], None);
    assert_eq!(bad.unwrap_err().message, "Invalid section");
}
