use epitech_api::{Location, Promo};
use std::str::FromStr;

const LOCATIONS: [(Location, &str); 18] = [
    (Location::Barcelone, "ES/BAR"),
    (Location::Berlin, "DE/BER"),
    (Location::Bordeaux, "FR/BDX"),
    (Location::LaReunion, "FR/RUN"),
    (Location::Lille, "FR/LIL"),
    (Location::Lyon, "FR/LYN"),
    (Location::Marseille, "FR/MAR"),
    (Location::Montpellier, "FR/MPL"),
    (Location::Nancy, "FR/NCY"),
    (Location::Nantes, "FR/NAN"),
    (Location::Nice, "FR/NCE"),
    (Location::Paris, "FR/PAR"),
    (Location::Rennes, "FR/REN"),
    (Location::Strasbourg, "FR/STG"),
    (Location::Toulouse, "FR/TLS"),
    (Location::Cotonou, "BJ/COT"),
    (Location::Tirana, "AL/TIR"),
    (Location::Bruxelles, "BE/BRU"),
];

const PROMOS: [(Promo, &str); 7] = [
    (Promo::Tek1, "tek1"),
    (Promo::Tek2, "tek2"),
    (Promo::Tek3, "tek3"),
    (Promo::Wac1, "wac1"),
    (Promo::Wac2, "wac2"),
    (Promo::Msc3, "msc3"),
    (Promo::Msc4, "msc4"),
];

#[test]
fn every_campus_has_its_code() {
    for (location, code) in LOCATIONS {
        assert_eq!(location.code(), code);
    }
}

#[test]
fn every_campus_code_is_read_back() {
    for (location, code) in LOCATIONS {
        assert_eq!(Location::from_code(code), Some(location));
        assert_eq!(Location::from_code(location.code()), Some(location));
        assert_eq!(Location::from_str(code), Ok(location));
    }
}

#[test]
fn other_campus_codes_are_refused() {
    for text in ["", "FR", "fr/stg", "FR/STG ", "FR/XXX", "tek1", "FR/STGFR/STG"] {
        assert_eq!(Location::from_code(text), None);
        assert_eq!(Location::from_str(text), Err(()));
    }
}

#[test]
fn every_cohort_has_its_code() {
    for (promo, code) in PROMOS {
        assert_eq!(promo.code(), code);
    }
}

#[test]
fn every_cohort_code_is_read_back() {
    for (promo, code) in PROMOS {
        assert_eq!(Promo::from_code(code), Some(promo));
        assert_eq!(Promo::from_code(promo.code()), Some(promo));
        assert_eq!(Promo::from_str(code), Ok(promo));
    }
}

#[test]
fn other_cohort_codes_are_refused() {
    for text in ["", "tek", "tek4", "Tek1", "tek1 ", "msc1", "FR/STG"] {
        assert_eq!(Promo::from_code(text), None);
        assert_eq!(Promo::from_str(text), Err(()));
    }
}

#[test]
fn campuses_are_ordered_as_declared() {
    assert!(Location::Barcelone < Location::Berlin);
    assert!(Location::Toulouse < Location::Cotonou);
    assert!(Promo::Tek1 < Promo::Msc4);
}
