use inp_parser::sections::Pump;
use inp_parser::sections::Sectionable;

#[test]
fn create_pump_from_section() {
    let pump = Pump::from_section(
        vec!["PUMP1", "NODE1", "NODE2", "POWER", "10.0", "PATTERN", "PATTERN1"],
        None,
    )
    .unwrap();

    assert_eq!(pump.id, "PUMP1");
    assert_eq!(pump.start_node, "NODE1");
    assert_eq!(pump.end_node, "NODE2");
    assert_eq!(pump.power, Some("10.0".to_string()));
    assert_eq!(pump.head, None);
    assert_eq!(pump.speed, None);
    assert_eq!(pump.pattern, Some("PATTERN1".to_string()));
}

#[test]
fn either_power_or_head_must_be_supplied_for_each_pump() {
    let pump = Pump::from_section(
        vec!["PUMP1", "NODE1", "NODE2", "SPEED", "10.0", "PATTERN", "PATTERN1"],
        None,
    );

    assert!(pump.is_err());
}

#[test]
fn id_start_node_and_end_node_are_compulsory() {
    let pump = Pump::from_section(vec!["PUMP1", "NODE1", "POWER", "10.0", "PATTERN", "PATTERN1"], None);

    assert!(pump.is_err());
}

#[test]
fn pump_power_and_head_together_are_rejected() {
    let pump = Pump::from_section(vec!["P1", "N1", "N2", "POWER", "1", "HEAD", "C7"], None);
    assert!(pump.is_err());
    assert_eq!(pump.unwrap_err().message, "Invalid section");
}

#[test]
fn pump_unknown_keyword_is_fatal() {
    let pump = Pump::from_section(vec!["P1", "N1", "N2", "CURVE", "C1"], None);
    assert!(pump.is_err());
    assert_eq!(pump.unwrap_err().message, "Invalid section");
}

#[test]
fn pump_head_keyword_takes_text() {
    let pump = Pump::from_section(vec!["P1", "N1", "N2", "HEAD", "Curve7"], None).unwrap();
    assert_eq!(pump.head, Some("Curve7".to_string()));
    assert_eq!(pump.power, None);
}

#[test]
fn pump_later_pair_overrides_earlier() {
    let pump =
        Pump::from_section(vec!["P1", "N1", "N2", "POWER", "1", "POWER", "2"], None).unwrap();
    assert_eq!(pump.power, Some("2".to_string()));
}

#[test]
fn pump_power_with_bad_number_is_an_error() {
    let pump = Pump::from_section(vec!["P1", "N1", "N2", "POWER", "x"], None);
    assert_eq!(pump.unwrap_err().message, "invalid float literal");
}

#[test]
fn pump_trailing_keyword_without_value_reads_blank() {
    let pump = Pump::from_section(vec!["P1", "N1", "N2", "HEAD"], None).unwrap();
    assert_eq!(pump.head, Some("".to_string()));
    let pump = Pump::from_section(vec!["P1", "N1", "N2", "POWER"], None);
    assert_eq!(pump.unwrap_err().message, "cannot parse float from empty string");
}
