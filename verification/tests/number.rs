use inp_parser::number::is_valid_number;

#[test]
fn plain_numerals_are_accepted() {
    for tok in ["512", "0", "1.2", ".5", "5.", "007", "-3", "+3", "-0.25", "+.5"] {
        assert!(is_valid_number(tok), "{tok} should be a number");
        assert!(tok.parse::<f64>().is_ok(), "{tok} should parse");
    }
}

#[test]
fn exponent_parts_are_accepted() {
    for tok in ["1e5", "1E5", "1e-5", "1e+5", "1.5e10", ".5e1", "5.e3", "-2E-2"] {
        assert!(is_valid_number(tok), "{tok} should be a number");
        assert!(tok.parse::<f64>().is_ok(), "{tok} should parse");
    }
}

#[test]
fn special_numerals_are_accepted_in_any_case() {
    for tok in ["inf", "INF", "Inf", "-inf", "+inf", "infinity", "INFINITY", "nan", "NaN", "-NAN"] {
        assert!(is_valid_number(tok), "{tok} should be a number");
        assert!(tok.parse::<f64>().is_ok(), "{tok} should parse");
    }
}

#[test]
fn malformed_tokens_are_rejected() {
    for tok in [
        "", ".", "+", "-", "100a", "a100", "1e", "1e+", "e5", "1..2", "1.2.3", "--5", "1 2",
        "in", "infin", "infinityy", "nan5", "0x10", "1_000", "5e1.5",
    ] {
        assert!(!is_valid_number(tok), "{tok} should be rejected");
        assert!(tok.parse::<f64>().is_err(), "{tok} should not parse");
    }
}
