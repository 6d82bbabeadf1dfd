use dcs_hemmecs::cockpit::{is_non_negative_number, EJECTION_KEY};
use dcs_hemmecs::data::{CockpitParams, FlightData};

fn read(text: &str) -> Option<CockpitParams> {
    let mut data = FlightData::default();
    data.cp_params = Some(String::from(text));
    data.parse_cockpit_params()
}

fn ejected(text: &str) -> bool {
    read(text).unwrap().ejected
}

fn number(text: &str) -> bool {
    let chars: Vec<char> = text.chars().collect();
    is_non_negative_number(&chars)
}

#[test]
fn ejection_key() {
    assert_eq!(EJECTION_KEY, "EJECTION_INITIATED_0");
}

#[test]
fn default_is_not_ejected() {
    assert_eq!(CockpitParams::default(), CockpitParams { ejected: false });
}

#[test]
fn no_text_gives_no_parameters() {
    assert_eq!(FlightData::default().parse_cockpit_params(), None);
}

#[test]
fn empty_text_is_not_ejected() {
    assert_eq!(read(""), Some(CockpitParams { ejected: false }));
}

#[test]
fn documented_values() {
    assert!(!ejected("EJECTION_INITIATED_0:-1"));
    assert!(ejected("EJECTION_INITIATED_0:0"));
    assert!(ejected("EJECTION_INITIATED_0:0.35"));
    assert!(ejected("EJECTION_INITIATED_0:1"));
}

#[test]
fn unknown_keys_and_malformed_lines_are_skipped() {
    assert!(!ejected("BASE_SENSOR_RADALT:12.5\nno colon here\n\n:\n::\nEJECTION_INITIATED_1:1"));
    assert!(ejected("BASE_SENSOR_RADALT:12.5\nno colon here\nEJECTION_INITIATED_0:0\n\n:5\nX:-1\n"));
    assert!(!ejected("EJECTION_INITIATED_0"));
    assert!(!ejected("ejection_initiated_0:1"));
    assert!(!ejected(" EJECTION_INITIATED_0:1"));
    assert!(!ejected("EJECTION_INITIATED_0 :1"));
}

#[test]
fn ill_typed_value_counts_as_not_ejected() {
    assert!(!ejected("EJECTION_INITIATED_0:yes"));
    assert!(!ejected("EJECTION_INITIATED_0:"));
    assert!(!ejected("EJECTION_INITIATED_0: 1"));
    assert!(!ejected("EJECTION_INITIATED_0:1 "));
    assert!(!ejected("EJECTION_INITIATED_0:1\r\n"));
    assert!(!ejected("EJECTION_INITIATED_0:1\nEJECTION_INITIATED_0:oops"));
}

#[test]
fn value_is_all_that_follows_the_first_colon() {
    assert!(!ejected("EJECTION_INITIATED_0:1:5"));
    assert!(!ejected("EJECTION_INITIATED_0::1"));
}

#[test]
fn last_line_under_the_key_decides() {
    assert!(ejected("EJECTION_INITIATED_0:-1\nEJECTION_INITIATED_0:0.5"));
    assert!(!ejected("EJECTION_INITIATED_0:0.5\nEJECTION_INITIATED_0:-1"));
    assert!(ejected("EJECTION_INITIATED_0:-1\nEJECTION_INITIATED_0:0.5\nOTHER:-1\n"));
}

#[test]
fn numbers_that_are_not_below_zero() {
    for text in [
        "0", "1", "007", "0.5", ".5", "5.", "+1", "+.5", "1e5", "1E5", "1e+5", "1e-5", "1.5e10",
        "1e999", "1e-999", "0e0", "inf", "+inf", "INF", "Infinity", "+iNfInItY", "-0", "-0.0",
        "-.0", "-0.", "-0e5", "-000.000E-3",
    ] {
        assert!(number(text), "{}", text);
    }
}

#[test]
fn numbers_below_zero() {
    for text in ["-1", "-0.5", "-.5", "-5.", "-1e5", "-0.0001", "-inf", "-Infinity", "-1e-999"] {
        assert!(!number(text), "{}", text);
    }
}

#[test]
fn texts_that_are_no_numbers() {
    for text in [
        "", "+", "-", ".", "+.", "-.", "e5", ".e5", "1e", "1e+", "1e-", "1e5.", "1e5e5", "1.2.3",
        "1..2", "--1", "+-1", "1+", "0x10", "1_000", "1,5", " 1", "1 ", "1\t", "nan", "NaN",
        "-nan", "infinit", "infinityy", "in", "i", "\u{661}", "1f", "1.0f32",
    ] {
        assert!(!number(text), "{}", text);
    }
}

#[test]
fn numbers_as_the_standard_library_reads_them() {
    let signs = ["", "+", "-"];
    let bodies = [
        "", "0", "1", "12", "007", ".", "0.", ".0", "1.", ".5", "1.5", "0.0", "00.00", "1..",
        "1.2.3", "inf", "Inf", "INF", "infinity", "InfiniTY", "infinit", "infinityy", "nan",
        "NaN", "e", "e5", "x", " ", "1 ", " 1", "1_0", "0x1", "1f", "\u{661}", "1\n",
    ];
    let exponents = ["", "e", "E", "e5", "E5", "e+5", "e-5", "e+", "e-", "e5.", "e5e5", "e 5", "e0"];
    for sign in signs {
        for body in bodies {
            for exponent in exponents {
                let text = format!("{}{}{}", sign, body, exponent);
                let expected = text.parse::<f32>().map(|value| value >= 0.0).unwrap_or(false);
                assert_eq!(number(&text), expected, "{:?}", text);
            }
        }
    }
}

#[test]
fn negative_number_too_small_to_tell_from_zero_is_still_negative() {
    assert!(!number("-1e-999"));
    assert!(!number("-0.000000000000000000000000000000000000000000000000000001"));
}
