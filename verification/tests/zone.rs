use hermes::zone::Zone;

#[test]
fn all_lists_thirteen_zones_in_order() {
    let tokens: Vec<String> = Zone::ALL.iter().map(|z| z.to_string()).collect();
    assert_eq!(
        tokens,
        vec!["A", "B", "C", "D", "E1", "E2", "E3", "E4", "E5", "E6", "E7", "E8", "E9"]
    );
}

#[test]
fn every_zone_round_trips() {
    for zone in Zone::ALL {
        assert_eq!(Zone::try_from(zone.to_string().as_str()), Ok(zone));
    }
}

#[test]
fn every_zone_round_trips_in_lower_case() {
    for zone in Zone::ALL {
        let lower = zone.to_string().to_ascii_lowercase();
        assert_eq!(Zone::try_from(lower.as_str()), Ok(zone));
    }
}

#[test]
fn parsing_ignores_case() {
    assert_eq!(Zone::try_from("e3"), Zone::try_from("E3"));
    assert_eq!(Zone::try_from("e3"), Ok(Zone::E3));
    assert_eq!(Zone::try_from("a"), Ok(Zone::A));
    assert_eq!(Zone::try_from("d"), Ok(Zone::D));
}

#[test]
fn unknown_token_is_refused_with_its_text() {
    assert_eq!(Zone::try_from("Z9"), Err("unknown zone: Z9".to_string()));
    assert_eq!(Zone::try_from(""), Err("unknown zone: ".to_string()));
    assert_eq!(Zone::try_from("E"), Err("unknown zone: E".to_string()));
    assert_eq!(Zone::try_from("E0"), Err("unknown zone: E0".to_string()));
    assert_eq!(Zone::try_from("E10"), Err("unknown zone: E10".to_string()));
    assert_eq!(Zone::try_from("F"), Err("unknown zone: F".to_string()));
    assert_eq!(Zone::try_from("A1"), Err("unknown zone: A1".to_string()));
}

#[test]
fn token_is_not_trimmed() {
    assert_eq!(Zone::try_from(" A"), Err("unknown zone:  A".to_string()));
    assert_eq!(Zone::try_from("E1 "), Err("unknown zone: E1 ".to_string()));
}

#[test]
fn only_ascii_case_is_folded() {
    // U+212A KELVIN SIGN lower-cases to `k`, U+FF21 is a full-width `A`.
    assert!(Zone::try_from("\u{FF21}").is_err());
    assert!(Zone::try_from("\u{FF25}1").is_err());
    assert!(Zone::try_from("é").is_err());
}

#[test]
fn index_and_from_index_agree_with_all() {
    for (i, zone) in Zone::ALL.iter().enumerate() {
        assert_eq!(zone.index(), i);
        assert_eq!(Zone::from_index(i), Some(*zone));
    }
    assert_eq!(Zone::from_index(13), None);
    assert_eq!(Zone::from_index(usize::MAX), None);
}

#[test]
fn rows_are_four_five_and_four() {
    let rows = Zone::rows();
    assert_eq!(rows.len(), 3);
    assert_eq!(rows[0], vec![Zone::A, Zone::B, Zone::C, Zone::D]);
    assert_eq!(rows[1], vec![Zone::E1, Zone::E2, Zone::E3, Zone::E4, Zone::E5]);
    assert_eq!(rows[2], vec![Zone::E6, Zone::E7, Zone::E8, Zone::E9]);
    let flat: Vec<Zone> = rows.into_iter().flatten().collect();
    assert_eq!(flat, Zone::ALL.to_vec());
}
