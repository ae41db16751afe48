use eu_vat_id::{check, check_by_state, parse, VatIdError, VATID};

fn err(s: &str) -> VatIdError {
    parse(s).err().unwrap()
}

fn ok(s: &str) -> (String, String) {
    let v = parse(s).unwrap();
    (v.state_iso, v.local_vat_id)
}

#[test]
fn short_inputs_lack_base_structure() {
    for s in ["", "I", "IT", "it", "1", "12"] {
        assert_eq!(err(s), VatIdError::InvalidBaseStructure);
    }
}

#[test]
fn non_letter_prefix_lacks_base_structure() {
    for s in ["1T00400770939", "I100400770939", " IT00400770939", "_T123", "ÄT123"] {
        assert_eq!(err(s), VatIdError::InvalidBaseStructure);
    }
}

#[test]
fn unknown_states() {
    for s in ["XX1234", "US123456789", "gr999999999", "ZZ "] {
        assert_eq!(err(s), VatIdError::InvalidState);
    }
}

#[test]
fn bad_local_parts() {
    for s in [
        "IT00400",
        "IT004007709390",
        "ATX99999999",
        "BE1999999999",
        "DK99  99 99 99",
        "DK99 99 99 99 ",
        "DK 99999999",
        "GB999 9999 99 9999",
        "GBGD9999",
        "GBXGD999",
        "LT9999999999",
        "LT999999999X",
        "NL999999999A99",
        "RO9",
        "RO99999999999",
        "FRXX  999999999",
        "IE9S99999",
        "IE9S99999LLL",
        "IT0040077093\n",
    ] {
        assert_eq!(err(s), VatIdError::InvalidLocalVatId, "{}", s);
    }
}

#[test]
fn long_input_is_rejected_as_local_part() {
    let s = format!("IT{}", "9".repeat(10_000));
    assert_eq!(err(&s), VatIdError::InvalidLocalVatId);
}

#[test]
fn lower_case_is_normalised() {
    assert_eq!(ok("it00400770939"), ("IT".to_string(), "00400770939".to_string()));
    assert_eq!(ok("cy99999999l"), ("CY".to_string(), "99999999L".to_string()));
    assert_eq!(ok("frxx 999999999"), ("FR".to_string(), "XX 999999999".to_string()));
    assert_eq!(ok("gbgd999"), ("GB".to_string(), "GD999".to_string()));
    assert_eq!(ok("Ie9+99999l"), ("IE".to_string(), "9+99999L".to_string()));
}

#[test]
fn case_does_not_change_outcome() {
    for s in ["nl999999999b99", "Xx1234", "It00400", "a", "ee999999999"] {
        assert_eq!(parse(s), parse(&s.to_uppercase()));
    }
}

#[test]
fn parse_is_repeatable() {
    for s in ["IT00400770939", "XX1234", "IT00400", "3_4524DE"] {
        assert_eq!(parse(s), parse(s));
    }
}

#[test]
fn check_agrees_with_parse() {
    for s in ["IT00400770939", "XX1234", "IT00400", "3_4524DE", "dk99999999", ""] {
        assert_eq!(check(s), parse(s).is_ok());
    }
}

#[test]
fn check_by_state_is_concatenation() {
    let cases = [
        ("00400770939", "IT"),
        ("00400770939", "it"),
        ("0040", "IT"),
        ("999999999", "XX"),
        ("T00400770939", "I"),
        ("", "IT0"),
        ("", ""),
    ];
    for (local, state) in cases {
        assert_eq!(check_by_state(local, state), check(&format!("{}{}", state, local)));
    }
    assert!(check_by_state("T00400770939", "I"));
    assert!(!check_by_state("0040", "IT"));
}

#[test]
fn optional_spaces() {
    assert!(check("DK99999999"));
    assert!(check("DK99 999999"));
    assert!(check("GB999999999"));
    assert!(check("GB999999999999"));
    assert!(check("GB9999999 99999"));
    assert!(check("FRXX999999999"));
    assert!(check("FR1A999999999"));
}

#[test]
fn length_ranges() {
    assert!(!check("CZ9999999"));
    assert!(!check("CZ99999999999"));
    assert!(check("RO99"));
    assert!(check("RO9999999999"));
    assert!(check("IE9*99999W"));
    assert!(!check("IE9-99999W"));
    assert!(check("ES99999999X"));
}

#[test]
fn error_texts() {
    assert_eq!(VatIdError::InvalidBaseStructure.as_str(), "invalid-base-structure");
    assert_eq!(VatIdError::InvalidState.as_str(), "invalid-state");
    assert_eq!(VatIdError::InvalidLocalVatId.as_str(), "invalid-local_vat_id");
}

#[test]
fn parse_result_fields() {
    assert_eq!(
        parse("ATU99999999"),
        Ok(VATID { state_iso: "AT".to_string(), local_vat_id: "U99999999".to_string() })
    );
}
