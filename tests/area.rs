use grundbuch_format::FlurstueckGroesse;

fn hektar(ha: Option<u64>, a: Option<u64>, m2: Option<u64>) -> FlurstueckGroesse {
    FlurstueckGroesse::Hektar { ha, a, m2 }
}

#[test]
fn metric_total_is_its_square_metres() {
    assert_eq!(FlurstueckGroesse::Metrisch { m2: Some(815) }.get_m2(), 815);
    assert_eq!(FlurstueckGroesse::Metrisch { m2: None }.get_m2(), 0);
}

#[test]
fn hectare_total_follows_the_formula() {
    assert_eq!(hektar(Some(12), Some(34), Some(67)).get_m2(), 12 * 100_000 + 34 * 100 + 67);
    assert_eq!(hektar(None, Some(5), None).get_m2(), 500);
    assert_eq!(hektar(Some(1), None, None).get_m2(), 100_000);
    assert_eq!(hektar(None, None, None).get_m2(), 0);
}

#[test]
fn emptiness_means_no_component() {
    assert!(FlurstueckGroesse::default().ist_leer());
    assert!(hektar(None, None, None).ist_leer());
    assert!(!hektar(None, None, Some(0)).ist_leer());
    assert!(!FlurstueckGroesse::Metrisch { m2: Some(0) }.ist_leer());
}

#[test]
fn grouped_digits_of_seven_digit_total() {
    let g = FlurstueckGroesse::Metrisch { m2: Some(1_234_567) };
    assert_eq!(g.get_ha_string(), "123");
    assert_eq!(g.get_a_string(), "45");
    assert_eq!(g.get_m2_string(), "67");
}

#[test]
fn grouped_digits_of_zero() {
    let g = FlurstueckGroesse::Metrisch { m2: Some(0) };
    assert_eq!(g.get_m2_string(), "0");
    assert_eq!(g.get_a_string(), "");
    assert_eq!(g.get_ha_string(), "");
}

#[test]
fn grouped_digits_of_short_totals() {
    let g = FlurstueckGroesse::Metrisch { m2: Some(7) };
    assert_eq!((g.get_ha_string(), g.get_a_string(), g.get_m2_string()), ("".into(), "".into(), "7".into()));
    let g = FlurstueckGroesse::Metrisch { m2: Some(345) };
    assert_eq!((g.get_ha_string(), g.get_a_string(), g.get_m2_string()), ("".into(), "3".into(), "45".into()));
    let g = FlurstueckGroesse::Metrisch { m2: Some(2345) };
    assert_eq!((g.get_ha_string(), g.get_a_string(), g.get_m2_string()), ("".into(), "23".into(), "45".into()));
}

#[test]
fn grouped_digits_come_from_either_form() {
    let g = hektar(Some(3), Some(2), Some(1));
    assert_eq!(g.get_m2(), 300_201);
    assert_eq!(g.get_ha_string(), "30");
    assert_eq!(g.get_a_string(), "02");
    assert_eq!(g.get_m2_string(), "01");
}

#[test]
fn largest_metric_total() {
    let g = FlurstueckGroesse::Metrisch { m2: Some(u64::MAX) };
    assert_eq!(g.get_m2(), u64::MAX);
    assert_eq!(g.get_ha_string(), "1844674407370955");
    assert_eq!(g.get_a_string(), "16");
    assert_eq!(g.get_m2_string(), "15");
}

#[test]
fn groups_side_by_side_give_the_digits() {
    for total in [0u64, 9, 10, 999, 1000, 10_000, 1_234_567, 100_000_000] {
        let g = FlurstueckGroesse::Metrisch { m2: Some(total) };
        let joined = format!("{}{}{}", g.get_ha_string(), g.get_a_string(), g.get_m2_string());
        assert_eq!(joined, total.to_string());
    }
}
