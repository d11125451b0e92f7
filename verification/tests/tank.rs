use inp_parser::sections::SectionError;
use inp_parser::sections::Sectionable;
use inp_parser::sections::TANK;

#[test]
fn create_tank_from_section() {
    let tank = TANK::from_section(
        vec!["TANK1", "10.0", "20.0", "30.0", "40.0", "50.0", "60.0", "VOLUME_CURVE", "YES"],
        None,
    )
    .unwrap();

    assert_eq!(tank.id, "TANK1");
    assert_eq!(tank.elevation, "10.0");
    assert_eq!(tank.init_level, "20.0");
    assert_eq!(tank.min_level, "30.0");
    assert_eq!(tank.max_level, "40.0");
    assert_eq!(tank.diameter, "50.0");
    assert_eq!(tank.min_volume, "60.0");
    assert_eq!(tank.volume_curve_id, Some("VOLUME_CURVE".to_string()));
    assert_eq!(tank.overflow, true);
}

#[test]
fn create_tank_from_section_without_optional_fields() {
    let tank = TANK::from_section(
        vec!["TANK1", "10.0", "20.0", "30.0", "40.0", "50.0", "60.0"],
        None,
    )
    .unwrap();

    assert_eq!(tank.id, "TANK1");
    assert_eq!(tank.elevation, "10.0");
    assert_eq!(tank.init_level, "20.0");
    assert_eq!(tank.min_level, "30.0");
    assert_eq!(tank.max_level, "40.0");
    assert_eq!(tank.diameter, "50.0");
    assert_eq!(tank.min_volume, "60.0");
    assert_eq!(tank.volume_curve_id, None);
    assert_eq!(tank.overflow, false);
}

#[test]
fn create_tank_from_section_with_wrong_properties() {
    let tank = TANK::from_section(vec!["TANK1", "10.0", "20.0", "30.0", "40.0", "50.0", "WRONG"], None);

    assert_eq!(
        tank,
        Err(SectionError { message: "invalid float literal".to_string() })
    );
}

#[test]
fn tank_overflow_flag_is_case_insensitive() {
    let base = vec!["T1", "1", "2", "3", "4", "5", "6", "VC"];
    let mut with_yes = base.clone();
    with_yes.push("Yes");
    assert_eq!(TANK::from_section(with_yes, None).unwrap().overflow, true);
    let mut with_no = base.clone();
    with_no.push("no");
    assert_eq!(TANK::from_section(with_no, None).unwrap().overflow, false);
    let mut with_word = base.clone();
    with_word.push("yessir");
    assert_eq!(TANK::from_section(with_word, None).unwrap().overflow, false);
}

#[test]
fn tank_missing_numeric_field_reports_the_blank_token() {
    let tank = TANK::from_section(vec!["TANK1", "10.0"], None);
    assert_eq!(
        tank,
        Err(SectionError { message: "cannot parse float from empty string".to_string() })
    );
}
