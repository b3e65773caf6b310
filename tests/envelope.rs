use std::collections::BTreeMap;

use grundbuch_format::{
    Abt1Eintrag, Abt1EintragFelder, Abt2Loeschung, AnpassungSeite, BvEintrag, BvEintragFelder,
    FlurstueckGroesse, HocrLayout, HocrSeite,
    PdfFile, SeitenTyp, StringOrLines, Titelblatt,
};
use grundbuch_format::register::Abteilung2;
use grundbuch_format::DecodeError;

fn titel() -> Titelblatt {
    Titelblatt {
        amtsgericht: "Prüm".to_string(),
        grundbuch_von: "Schönecken".to_string(),
        blatt: "1234".to_string(),
    }
}

fn felder(lfd_nr: Option<usize>, version: Option<usize>) -> Abt1EintragFelder {
    Abt1EintragFelder {
        lfd_nr,
        version,
        eigentuemer: StringOrLines::from("Max Mustermann\ngeb. 1950".to_string()),
        bv_nr: StringOrLines::SingleLine("1, 2".to_string()),
        grundlage_der_eintragung: StringOrLines::default(),
        automatisch_geroetet: Some(true),
        manuell_geroetet: None,
        position_in_pdf: None,
    }
}

#[test]
fn payload_without_version_is_older_shape() {
    match Abt1Eintrag::from_felder(felder(Some(4), None)) {
        Ok(Abt1Eintrag::V1(e)) => {
            assert_eq!(e.lfd_nr, 4);
            assert_eq!(e.bv_nr, StringOrLines::SingleLine("1, 2".to_string()));
        }
        other => panic!("unexpected {:?}", other),
    }
}

#[test]
fn payload_with_version_is_newer_shape() {
    match Abt1Eintrag::from_felder(felder(Some(5), Some(2))) {
        Ok(Abt1Eintrag::V2(e)) => {
            assert_eq!(e.lfd_nr, 5);
            assert_eq!(e.version, 2);
        }
        other => panic!("unexpected {:?}", other),
    }
}

#[test]
fn payload_without_running_number_is_refused() {
    assert_eq!(Abt1Eintrag::from_felder(felder(None, None)), Err(DecodeError::MissingRunningNumber));
    assert_eq!(Abt1Eintrag::from_felder(felder(None, Some(2))), Err(DecodeError::MissingRunningNumber));
}

#[test]
fn entry_payload_round_trip() {
    for f in [felder(Some(1), None), felder(Some(2), Some(7))] {
        let e = Abt1Eintrag::from_felder(f).unwrap();
        let back = Abt1Eintrag::from_felder(e.clone().into_felder()).unwrap();
        assert_eq!(back, e);
    }
}

#[test]
fn entry_accessors_dispatch_over_shape() {
    let e = Abt1Eintrag::from_felder(felder(Some(9), Some(2))).unwrap();
    assert_eq!(e.get_lfd_nr(), 9);
    assert_eq!(e.get_eigentuemer(), "Max Mustermann\r\ngeb. 1950");
    assert!(e.ist_geroetet());
    let e = Abt1Eintrag::from_felder(felder(Some(3), None)).unwrap();
    assert_eq!(e.get_lfd_nr(), 3);
    assert_eq!(e.get_eigentuemer(), "Max Mustermann\r\ngeb. 1950");
}

#[test]
fn page_type_tokens_round_trip() {
    let all = SeitenTyp::all();
    assert_eq!(all.len(), 20);
    for t in all {
        assert_eq!(SeitenTyp::from_token(t.token()), Ok(t));
    }
    assert_eq!(SeitenTyp::BestandsverzeichnisHorz.token(), "bv-horz");
    assert_eq!(SeitenTyp::Abt2VertTyp2.token(), "abt2-vert-typ2");
    assert_eq!(
        SeitenTyp::from_token("abt3-horz-veraenderungen-loeschungen"),
        Ok(SeitenTyp::Abt3HorzVeraenderungenLoeschungen)
    );
}

#[test]
fn unknown_page_type_token_is_refused() {
    assert_eq!(SeitenTyp::from_token("bv-diagonal"), Err(DecodeError::UnknownPageType));
    assert_eq!(SeitenTyp::from_token("BV-HORZ"), Err(DecodeError::UnknownPageType));
    assert_eq!(SeitenTyp::from_token(""), Err(DecodeError::UnknownPageType));
}

#[test]
fn empty_envelope_omits_every_optional_part() {
    let f = PdfFile::from_minimal(true, titel());
    let o = f.omitted();
    assert!(o.hocr && o.anpassungen_seite && o.bestandsverzeichnis && o.abt1 && o.abt2 && o.abt3);
    assert_eq!(f.analysiert.titelblatt, titel());
    assert!(f.digitalisiert);
}

#[test]
fn minimal_envelope_decodes_to_equal_value() {
    let mut encoded = PdfFile::from_minimal(false, titel());
    encoded.hocr = HocrLayout::default();
    encoded.anpassungen_seite = BTreeMap::new();
    encoded.analysiert.abt2 = Abteilung2::default();
    let decoded = PdfFile::from_minimal(encoded.digitalisiert, encoded.analysiert.titelblatt.clone());
    assert_eq!(decoded, encoded);
}

#[test]
fn filled_parts_are_kept() {
    let mut f = PdfFile::from_minimal(true, titel());
    f.hocr.seiten.insert("1".to_string(), HocrSeite::default());
    f.anpassungen_seite.insert(
        "1".to_string(),
        AnpassungSeite { klassifikation_neu: Some(SeitenTyp::Abt1Vert), ..Default::default() },
    );
    f.analysiert.abt2.loeschungen.push(Abt2Loeschung::default());
    let o = f.omitted();
    assert!(!o.hocr && !o.anpassungen_seite && !o.abt2);
    assert!(o.bestandsverzeichnis && o.abt1 && o.abt3);
    assert!(!f.analysiert.abt2.is_empty());
}

fn bv_felder(lfd_nr: Option<usize>, flur: Option<usize>) -> BvEintragFelder {
    BvEintragFelder {
        lfd_nr,
        bisherige_lfd_nr: None,
        flur,
        flurstueck: "17/2".to_string(),
        gemarkung: Some("Schönecken".to_string()),
        bezeichnung: None,
        groesse: FlurstueckGroesse::Metrisch { m2: Some(512) },
        zu_nr: StringOrLines::SingleLine("3".to_string()),
        text: StringOrLines::SingleLine("Wegerecht".to_string()),
        automatisch_geroetet: None,
        manuell_geroetet: Some(true),
        position_in_pdf: None,
    }
}

#[test]
fn property_payload_with_district_is_parcel() {
    match BvEintrag::from_felder(bv_felder(Some(1), Some(4))) {
        Ok(BvEintrag::Flurstueck(f)) => {
            assert_eq!((f.lfd_nr, f.flur), (1, 4));
            assert_eq!(f.groesse.get_m2(), 512);
        }
        other => panic!("unexpected {:?}", other),
    }
}

#[test]
fn property_payload_without_district_is_right() {
    match BvEintrag::from_felder(bv_felder(Some(2), None)) {
        Ok(BvEintrag::Recht(r)) => {
            assert_eq!(r.lfd_nr, 2);
            assert_eq!(r.text.text(), "Wegerecht");
        }
        other => panic!("unexpected {:?}", other),
    }
    assert_eq!(BvEintrag::from_felder(bv_felder(None, Some(4))), Err(DecodeError::MissingRunningNumber));
}

#[test]
fn property_payload_round_trip() {
    for f in [bv_felder(Some(1), Some(4)), bv_felder(Some(2), None)] {
        let e = BvEintrag::from_felder(f).unwrap();
        assert_eq!(BvEintrag::from_felder(e.clone().into_felder()), Ok(e));
    }
}
